use udisks2::block::Block;
use udisks2::catalog::{Catalog, Domain, Translation};
use udisks2::job::{label_of_operation, Job};
use udisks2::media::{family_of_disc, label_of_media, media_data_at, Disc, DriveType, MEDIA_DATA_LEN};
use udisks2::partition::{Partition, PartitionFlags};
use udisks2::partition_subtypes::{partition_table_subtype_at, PartitionTableSubType};
use udisks2::partition_types::partition_type_at;
use udisks2::partitiontable::PartitionTable;
use udisks2::drive::MediaCompatibility;
use udisks2::error::{BusError, Error};
use udisks2::{Client, Object};

fn client() -> Client {
    Client::untranslated(Vec::new())
}

#[test]
fn known_operations_are_described() {
    let c = client();
    assert_eq!(c.job_description_from_operation("ata-smart-selftest"), "SMART self-test");
    assert_eq!(c.job_description_from_operation("filesystem-mount"), "Mounting Filesystem");
    assert_eq!(c.job_description_from_operation("cleanup"), "Cleaning Up");
    assert_eq!(c.job_description_from_operation("md-raid-create"), "Creating RAID Array");
    assert_eq!(c.job_description_from_operation("format-mkfs"), "Creating Filesystem");
    assert_eq!(label_of_operation("drive-eject"), Some("Ejecting Medium"));
    assert_eq!(label_of_operation("drive-Eject"), None);
}

#[test]
fn an_unknown_operation_is_named_as_unknown() {
    let c = client();
    assert_eq!(c.job_description_from_operation("warp-drive"), "Unknown (warp-drive)");
    assert_eq!(c.job_description_from_operation(""), "Unknown ()");
    let job = Job { path: "/j".to_string(), operation: "loop-setup".to_string(), objects: vec![] };
    assert_eq!(c.job_description(&job), "Setting Up Loop Device");
}

#[test]
fn job_descriptions_come_from_the_catalog() {
    let catalog = Catalog {
        entries: vec![
            Translation {
                domain: Domain::Default,
                context: Some("job".to_string()),
                msgid: "Cleaning Up".to_string(),
                text: "Aufr\u{e4}umen".to_string(),
            },
            Translation {
                domain: Domain::Default,
                context: Some("unknown-job".to_string()),
                msgid: "Unknown (%s)".to_string(),
                text: "Unbekannt (%s)".to_string(),
            },
        ],
    };
    let c = Client::with_catalog(Vec::new(), catalog);
    assert_eq!(c.job_description_from_operation("cleanup"), "Aufr\u{e4}umen");
    assert_eq!(c.job_description_from_operation("x"), "Unbekannt (x)");
    assert_eq!(c.job_description_from_operation("drive-eject"), "Ejecting Medium");
}

#[test]
fn media_are_named_and_discs_come_last() {
    let c = client();
    assert_eq!(
        c.media_compat_for_display(&["optical_cd", "optical_dvd_r", "optical_bd"]).as_deref(),
        Some("CD/DVD/Blu-Ray")
    );
    assert_eq!(
        c.media_compat_for_display(&["optical_hddvd", "flash_cf", "optical_cd_rw", "floppy_zip"])
            .as_deref(),
        Some("CompactFlash,Zip/CD/HDDVD")
    );
    assert_eq!(c.media_compat_for_display(&["flash_sdhc"]).as_deref(), Some("SD High Capacity"));
    assert_eq!(c.media_compat_for_display(&["flash_sdxc", "flash"]).as_deref(), Some("Flash,Flash"));
    assert_eq!(c.media_compat_for_display(&["floppy", "floppy_jaz"]).as_deref(), Some("Floppy,Jaz"));
    assert_eq!(
        c.media_compat_for_display(&["flash_ms", "flash_sm", "flash_sd"]).as_deref(),
        Some("MemoryStick,SmartMedia,SecureDigital")
    );
    assert_eq!(c.media_compat_for_display(&["optical_dvd"]).as_deref(), Some("DVD"));
}

#[test]
fn unknown_media_have_no_name() {
    let c = client();
    assert_eq!(c.media_compat_for_display(&[]), None);
    assert_eq!(c.media_compat_for_display(&["thumb"]), None);
    assert_eq!(c.media_compat_for_display(&["optical", "optical_mo", ""]), None);
    assert_eq!(label_of_media("flash_cf"), Some("CompactFlash"));
    assert_eq!(label_of_media("flashy"), Some("Flash"));
    assert_eq!(label_of_media("optical_cd"), None);
    assert_eq!(family_of_disc("optical_cd_r"), Some(Disc::Cd));
    assert_eq!(family_of_disc("optical_dvd_plus_rw"), Some(Disc::Dvd));
    assert_eq!(family_of_disc("optical_bd_re"), Some(Disc::Bd));
    assert_eq!(family_of_disc("optical_hddvd"), Some(Disc::Hddvd));
    assert_eq!(family_of_disc("optical_mrw"), None);
    assert_eq!(family_of_disc("flash"), None);
}

#[test]
fn the_table_of_known_media() {
    assert_eq!(MEDIA_DATA_LEN, 32);
    let first = media_data_at(0);
    assert_eq!(first.id, MediaCompatibility::Thumb);
    assert_eq!(first.media_type, DriveType::Drive);
    let cd = media_data_at(12);
    assert_eq!(cd.id, MediaCompatibility::OpticalCd);
    assert_eq!(cd.media_name, "CD-ROM");
    assert_eq!(cd.media_family, "CD");
    assert_eq!(cd.media_type, DriveType::Disc);
    assert_eq!(cd.drive_icon, "drive-optical");
    let last = media_data_at(MEDIA_DATA_LEN - 1);
    assert_eq!(last.id, MediaCompatibility::OpticalMrwW);
    assert_eq!(media_data_at(MEDIA_DATA_LEN).id, MediaCompatibility::OpticalMrwW);
    assert_eq!(media_data_at(usize::MAX).media_name, "MRW-W");
    let c = client();
    assert_eq!(c.describe_media(&cd), "CD-ROM Disc");
    assert_eq!(c.describe_media(&first), "Thumb Drive");
    assert_eq!(c.describe_media(&media_data_at(1)), "Floppy Disk");
    assert_eq!(c.describe_media(&media_data_at(9)), "SD Card");
}

#[test]
fn kinds_of_media_are_read_from_their_identifiers() {
    assert_eq!(MediaCompatibility::from_str("thumb"), MediaCompatibility::Thumb);
    assert_eq!(MediaCompatibility::from_str("flash_sd_combo"), MediaCompatibility::FlashSdCombo);
    assert_eq!(
        MediaCompatibility::from_str("optical_dvd_plus_rw_dl"),
        MediaCompatibility::OpticalDvdPlusRwDl
    );
    assert_eq!(MediaCompatibility::from_str("optical_mrw_w"), MediaCompatibility::OpticalMrwW);
    assert_eq!(MediaCompatibility::from_str(""), MediaCompatibility::Unknown);
    assert_eq!(MediaCompatibility::from_str("Thumb"), MediaCompatibility::Unknown);
    assert_eq!(MediaCompatibility::from_str("unknown"), MediaCompatibility::Unknown);
}

#[test]
fn subtypes_of_partition_tables() {
    let c = client();
    assert_eq!(c.partition_table_subtypes("dos"), vec!["generic", "linux", "microsoft", "other"]);
    assert_eq!(
        c.partition_table_subtypes("gpt"),
        vec!["generic", "linux", "microsoft", "apple", "other"]
    );
    assert_eq!(c.partition_table_subtypes("apm"), vec!["apple", "microsoft"]);
    assert!(c.partition_table_subtypes("bsd").is_empty());
    assert_eq!(c.partition_table_subtype_for_display("gpt", "apple").as_deref(), Some("Mac OS X"));
    assert_eq!(c.partition_table_subtype_for_display("dos", "microsoft").as_deref(), Some("Windows"));
    assert_eq!(c.partition_table_subtype_for_display("dos", "apple"), None);
    assert_eq!(c.partition_table_subtype_for_display("", ""), None);
    let row = partition_table_subtype_at(7);
    assert_eq!((row.ty, row.subtype, row.name), ("gpt", "apple", "Mac OS X"));
    let made = PartitionTableSubType::new("a", "b", "c");
    assert_eq!((made.ty, made.subtype, made.name), ("a", "b", "c"));
}

#[test]
fn types_of_partitions() {
    let c = client();
    assert_eq!(c.partition_type_for_display("dos", "0x83").as_deref(), Some("Linux"));
    assert_eq!(
        c.partition_type_for_display("gpt", "c12a7328-f81f-11d2-ba4b-00a0c93ec93b").as_deref(),
        Some("EFI System")
    );
    assert_eq!(c.partition_type_for_display("gpt", "0x83"), None);
    assert_eq!(c.partition_type_for_display("dos", ""), None);
    assert_eq!(
        c.partition_type_and_subtype_for_display("dos", "linux", "0x82").as_deref(),
        Some("Linux swap")
    );
    assert_eq!(c.partition_type_and_subtype_for_display("dos", "microsoft", "0x82"), None);
    assert_eq!(
        c.partition_table_type_for_display("dos").as_deref(),
        Some("Master Boot Record")
    );
    assert_eq!(
        c.partition_table_type_for_display("gpt").as_deref(),
        Some("GUID Partition Table")
    );
    assert_eq!(
        c.partition_table_type_for_display("apm").as_deref(),
        Some("Apple Partition Map")
    );
    assert_eq!(c.partition_table_type_for_display("bsd"), None);
}

#[test]
fn the_known_types_of_a_scheme_are_listed_in_table_order() {
    let c = client();
    let all = c.partition_type_infos("dos", None);
    assert!(all.iter().all(|t| t.table_type == "dos"));
    assert_eq!(all[0].ty, "0x05");
    let linux = c.partition_type_infos("dos", Some("linux"));
    let types: Vec<&str> = linux.iter().map(|t| t.ty).collect();
    assert_eq!(types, vec!["0x82", "0x83", "0x85", "0x8e", "0xfd"]);
    let generic = c.partition_type_infos("gpt", Some("generic"));
    let names: Vec<&str> = generic.iter().map(|t| t.name).collect();
    assert_eq!(names, vec!["MBR Partition Scheme", "EFI System", "BIOS Boot"]);
    assert!(c.partition_type_infos("gpt", Some("none")).is_empty());
    assert!(c.partition_type_infos("none", None).is_empty());
    let sum = c.partition_type_infos("dos", None).len()
        + c.partition_type_infos("gpt", None).len()
        + c.partition_type_infos("apm", None).len();
    assert_eq!(sum, udisks2::partition_types::PARTITION_TYPES_LEN);
    assert_eq!(partition_type_at(0).name, "MBR Partition Scheme");
}

fn table_and_partition(table_type: &str, partition_type: &str, flags: u64) -> Client {
    let mut t = Object::new("/t");
    t.set_block(Block::new(String::new()));
    t.set_partition_table(PartitionTable {
        path: String::new(),
        table_type: table_type.to_string(),
    });
    let mut p = Object::new("/p");
    p.set_partition(Partition {
        path: String::new(),
        number: 1,
        table: Some("/t".to_string()),
        flags,
        partition_type: partition_type.to_string(),
        name: String::new(),
    });
    Client::untranslated(vec![t, p])
}

fn info(table_type: &str, partition_type: &str, flags: u64) -> String {
    let c = table_and_partition(table_type, partition_type, flags);
    let p = c.object("/p").unwrap().partition().unwrap();
    c.partition_info(p).unwrap()
}

#[test]
fn a_partition_in_one_line() {
    assert_eq!(info("dos", "0x83", 0), "Linux");
    assert_eq!(info("dos", "0x83", 0x80), "Linux (, Bootable)");
    assert_eq!(info("dos", "0x83", 1), "Linux");
    assert_eq!(info("dos", "0x42", 0), "0x42");
    assert_eq!(info("dos", "", 0), "Unknown");
    assert_eq!(info("dos", "", 0x80), " (, Bootable)");
    assert_eq!(info("gpt", "0fc63daf-8483-4772-8e79-3d69d8477de4", 0), "Linux Filesystem");
    assert_eq!(
        info("gpt", "c12a7328-f81f-11d2-ba4b-00a0c93ec93b", 1 | 4),
        "EFI System (, System, Legacy BIOS Bootable)"
    );
    assert_eq!(
        info("gpt", "x", (1 << 60) | (1 << 62) | (1 << 63)),
        "x (, Read-only, Hidden, No Automount)"
    );
    assert_eq!(info("gpt", "x", 0x80), "x");
    assert_eq!(info("apm", "Apple_HFS", u64::MAX), "Apple HFS/HFS");
}

#[test]
fn a_partition_without_its_table_fails() {
    let c = client();
    let p = Partition {
        path: "/p".to_string(),
        number: 1,
        table: Some("/t".to_string()),
        flags: 0,
        partition_type: "0x83".to_string(),
        name: String::new(),
    };
    assert_eq!(c.partition_info(&p), Err(Error::Bus(BusError::InterfaceNotFound)));
}

#[test]
fn flags_of_partitions() {
    assert_eq!(PartitionFlags::SystemPartition.bits(), 1);
    assert_eq!(PartitionFlags::LegacyBIOSBootable.bits(), 4);
    assert_eq!(PartitionFlags::Bootable.bits(), 0x80);
    assert_eq!(PartitionFlags::ReadOnly.bits(), 1 << 60);
    assert_eq!(PartitionFlags::Hidden.bits(), 1 << 62);
    assert_eq!(PartitionFlags::NoAutoMount.bits(), 1 << 63);
    assert!(PartitionFlags::Bootable.is_set_in(0x81));
    assert!(!PartitionFlags::Bootable.is_set_in(0x7f));
    assert!(!PartitionFlags::Hidden.is_set_in(0));
    assert!(PartitionFlags::NoAutoMount.is_set_in(u64::MAX));
}

#[test]
fn the_content_of_a_block_device_is_named() {
    let c = client();
    assert_eq!(c.id_for_display("filesystem", "ext4", "1.0", true), "Ext4 (version 1.0)");
    assert_eq!(c.id_for_display("filesystem", "ext4", "1.0", false), "Ext4");
    assert_eq!(c.id_for_display("filesystem", "ext4", "", true), "Ext4");
    assert_eq!(c.id_for_display("filesystem", "vfat", "FAT32", true), "FAT (32-bit version)");
    assert_eq!(c.id_for_display("filesystem", "vfat", "FAT64", true), "FAT (version FAT64)");
    assert_eq!(c.id_for_display("filesystem", "vfat", "", false), "FAT");
    assert_eq!(c.id_for_display("other", "swap", "2", true), "Swap (version 2)");
    assert_eq!(c.id_for_display("raid", "LVM2_member", "LVM2 001", true), "LVM2 Physical Volume (LVM2 001)");
    assert_eq!(c.id_for_display("crypto", "crypto_LUKS", "", false), "LUKS");
    assert_eq!(c.id_for_display("filesystem", "hfs", "1", true), "Unknown (hfs 1)");
}

#[test]
fn unknown_content_is_named_as_unknown() {
    let c = client();
    assert_eq!(c.id_for_display("filesystem", "zfs", "5", true), "Unknown (zfs 5)");
    assert_eq!(c.id_for_display("filesystem", "zfs", "", true), "Unknown (zfs)");
    assert_eq!(c.id_for_display("", "", "", true), "Unknown");
    assert_eq!(c.id_for_display("", "", "7", true), "Unknown ( 7)");
    assert_eq!(c.id_for_display("filesystem", "zfs", "5", false), "zfs");
    assert_eq!(c.id_for_display("", "", "", false), "Unknown");
    assert_eq!(c.id_for_display("raid", "ext4", "", true), "Unknown (ext4)");
}
