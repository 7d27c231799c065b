use udisks2::block::Block;
use udisks2::catalog::{Catalog, Domain, Translation};
use udisks2::drive::{Drive, MediaCompatibility, RotationRate};
use udisks2::loopdev::Loop;
use udisks2::manager::RaidLevel;
use udisks2::mdraid::MDRaid;
use udisks2::object_info::{Icon, ObjectInfo};
use udisks2::partition::Partition;
use udisks2::partitiontable::PartitionTable;
use udisks2::{Client, Object};

const DRIVE: &str = "/org/freedesktop/UDisks2/drives/ATA_SSD1";
const SDA: &str = "/org/freedesktop/UDisks2/block_devices/sda";
const SDA1: &str = "/org/freedesktop/UDisks2/block_devices/sda1";
const RAID: &str = "/org/freedesktop/UDisks2/mdraid/abc";
const MD0: &str = "/org/freedesktop/UDisks2/block_devices/md0";

fn ssd() -> Drive {
    let mut d = Drive::new(String::new());
    d.vendor = "ATA".to_string();
    d.model = "SSD1".to_string();
    d.size = Some(500_000_000_000);
    d.rotation_rate = RotationRate::NonRotating;
    d.media_removable = false;
    d.sort_key = "01hotplug/1".to_string();
    d
}

fn block(device: &str, drive: Option<&str>) -> Block {
    let mut b = Block::new(String::new());
    b.preferred_device = Some(device.to_string());
    b.drive = drive.map(|d| d.to_string());
    b
}

fn object_with_drive(d: Drive) -> Object {
    let mut o = Object::new(DRIVE);
    o.set_drive(d);
    o
}

fn object_with_block(path: &str, b: Block) -> Object {
    let mut o = Object::new(path);
    o.set_block(b);
    o
}

fn partition(number: u32) -> Partition {
    Partition {
        path: String::new(),
        number,
        table: Some(SDA.to_string()),
        flags: 0,
        partition_type: String::new(),
        name: String::new(),
    }
}

fn drive_with_block(d: Drive, b: Block) -> Client {
    Client::untranslated(vec![object_with_drive(d), object_with_block(SDA, b)])
}

fn info_of<'a>(c: &Client, o: &'a Object) -> ObjectInfo<'a> {
    c.object_info(o)
}

fn text(o: &Option<String>) -> &str {
    o.as_deref().unwrap()
}

fn icon(i: &Icon) -> (&str, &str) {
    (i.name().unwrap().as_str(), i.name_symbolic().unwrap().as_str())
}

#[test]
fn a_solid_state_disk_with_its_block_device() {
    let c = drive_with_block(ssd(), block("/dev/sda", Some(DRIVE)));
    let o = c.object(DRIVE).unwrap();
    let info = info_of(&c, o);
    assert_eq!(text(&info.name), "ATA SSD1");
    assert_eq!(text(&info.description), "500 GB Disk");
    assert_eq!(icon(&info.icon), ("drive-harddisk-solidstate", "drive-harddisk-solidstate-symbolic"));
    assert_eq!(text(&info.one_liner), "500 GB Disk \u{2014} ATA SSD1 (/dev/sda)");
    assert_eq!(text(&info.sort_key), "00_drive_01hotplug/1");
    assert!(info.media_description.is_none());
    assert!(info.media_icon.name().is_none());
    assert!(info.media_icon.name_symbolic().is_none());
    assert_eq!(info.object.object_path(), DRIVE);
}

#[test]
fn the_block_of_a_drive_is_shown_as_the_drive() {
    let c = drive_with_block(ssd(), block("/dev/sda", Some(DRIVE)));
    let by_block = info_of(&c, c.object(SDA).unwrap());
    let by_drive = info_of(&c, c.object(DRIVE).unwrap());
    assert_eq!(by_block.description, by_drive.description);
    assert_eq!(by_block.one_liner, by_drive.one_liner);
    assert_eq!(by_block.sort_key, by_drive.sort_key);
    assert_eq!(by_block.name, by_drive.name);
}

#[test]
fn a_stopped_array() {
    let mut raid = Object::new(RAID);
    raid.set_mdraid(MDRaid {
        path: String::new(),
        name: "myhost:data".to_string(),
        uuid: "abc".to_string(),
        level: Some(RaidLevel::Raid5),
        size: Some(3_000_000_000_000),
    });
    let c = Client::untranslated(vec![raid]);
    let info = info_of(&c, c.object(RAID).unwrap());
    assert_eq!(text(&info.name), "data");
    assert_eq!(text(&info.description), "3.0 TB RAID-5 Array");
    assert_eq!(text(&info.one_liner), "data \u{2014} 3.0 TB RAID-5 Array");
    assert_eq!(text(&info.sort_key), "01_mdraid_abc_0");
    assert_eq!(icon(&info.icon), ("drive-multidisk", "drive-multidisk-symbolic"));
    assert!(info.media_description.is_none());
}

fn array(name: &str, level: Option<RaidLevel>, size: Option<u64>, running: bool) -> Client {
    let mut raid = Object::new(RAID);
    raid.set_mdraid(MDRaid {
        path: String::new(),
        name: name.to_string(),
        uuid: "abc".to_string(),
        level,
        size,
    });
    let mut objects = vec![raid];
    if running {
        let mut b = block("/dev/md0", None);
        b.mdraid = Some(RAID.to_string());
        objects.push(object_with_block(MD0, b));
    }
    Client::untranslated(objects)
}

#[test]
fn the_one_liner_of_an_array_has_four_forms() {
    let c = array("myhost:data", Some(RaidLevel::Raid1), Some(2_000_000_000), true);
    let info = info_of(&c, c.object(RAID).unwrap());
    assert_eq!(text(&info.one_liner), "data \u{2014} 2.0 GB RAID-1 Array (/dev/md0)");
    let c = array("data", Some(RaidLevel::Raid1), Some(2_000_000_000), false);
    let info = info_of(&c, c.object(RAID).unwrap());
    assert_eq!(text(&info.one_liner), "data \u{2014} 2.0 GB RAID-1 Array");
    let c = array("", Some(RaidLevel::Raid1), Some(2_000_000_000), true);
    let info = info_of(&c, c.object(RAID).unwrap());
    assert_eq!(text(&info.one_liner), "2.0 GB RAID-1 Array \u{2014} /dev/md0");
    let c = array("myhost:", Some(RaidLevel::Raid1), None, false);
    let info = info_of(&c, c.object(RAID).unwrap());
    assert_eq!(text(&info.one_liner), "RAID-1 Array");
    assert_eq!(text(&info.name), "");
}

#[test]
fn the_levels_of_an_array() {
    let cases = [
        (Some(RaidLevel::Raid0), "RAID-0 Array"),
        (Some(RaidLevel::Raid1), "RAID-1 Array"),
        (Some(RaidLevel::Raid4), "RAID-4 Array"),
        (Some(RaidLevel::Raid5), "RAID-5 Array"),
        (Some(RaidLevel::Raid6), "RAID-6 Array"),
        (Some(RaidLevel::Raid10), "RAID-10 Array"),
        (None, "RAID Array"),
    ];
    for (level, label) in cases {
        let c = array("x", level, None, false);
        assert_eq!(ObjectInfo::format_level(&c, level), label);
        let info = info_of(&c, c.object(RAID).unwrap());
        assert_eq!(text(&info.description), label);
    }
}

#[test]
fn the_block_of_a_running_array_is_shown_as_the_array() {
    let c = array("myhost:data", Some(RaidLevel::Raid5), Some(3_000_000_000_000), true);
    let info = info_of(&c, c.object(MD0).unwrap());
    assert_eq!(text(&info.description), "3.0 TB RAID-5 Array");
    assert_eq!(text(&info.sort_key), "01_mdraid_abc_0");
    assert_eq!(info.object.object_path(), MD0);
}

#[test]
fn a_partition_of_an_array() {
    let mut raid = Object::new(RAID);
    raid.set_mdraid(MDRaid {
        path: String::new(),
        name: "data".to_string(),
        uuid: "abc".to_string(),
        level: Some(RaidLevel::Raid0),
        size: Some(1_000_000),
    });
    let mut b = block("/dev/md0p2", None);
    b.mdraid = Some(RAID.to_string());
    let mut part = object_with_block("/org/freedesktop/UDisks2/block_devices/md0p2", b);
    part.set_partition(partition(2));
    let c = Client::untranslated(vec![raid, part]);
    let info = info_of(&c, c.object_at(1).unwrap());
    assert_eq!(text(&info.description), "Partition 2 of 1.0 MB RAID-0 Array");
    assert_eq!(text(&info.sort_key), "01_mdraid_abc_2");
    assert_eq!(text(&info.one_liner), "data \u{2014} Partition 2 of 1.0 MB RAID-0 Array");
}

#[test]
fn a_plain_block_device() {
    let mut b = block("/dev/dm-0", None);
    b.size = Some(5_000_000_000);
    let c = Client::untranslated(vec![object_with_block(
        "/org/freedesktop/UDisks2/block_devices/dm_2d0",
        b,
    )]);
    let info = info_of(&c, c.object_at(0).unwrap());
    assert_eq!(text(&info.name), "/dev/dm-0");
    assert_eq!(text(&info.description), "5.0 GB Block Device");
    assert_eq!(text(&info.one_liner), "5.0 GB Block Device (/dev/dm-0)");
    assert_eq!(text(&info.sort_key), "02_block_dm_2d0_0");
    assert_eq!(icon(&info.icon), ("drive-removable-media", "drive-removable-media-symbolic"));
}

#[test]
fn a_block_device_of_unknown_size_and_name() {
    let c = Client::untranslated(vec![object_with_block("/b/x", Block::new(String::new()))]);
    let info = info_of(&c, c.object_at(0).unwrap());
    assert!(info.name.is_none());
    assert_eq!(text(&info.description), "Block Device");
    assert_eq!(text(&info.one_liner), "Block Device ()");
    assert_eq!(text(&info.sort_key), "02_block_x_0");
}

#[test]
fn a_partition_of_a_plain_block_device() {
    let mut b = block("/dev/dm-0p3", None);
    b.size = Some(1_500_000);
    let mut o = object_with_block("/b/dm_2d0p3", b);
    o.set_partition(partition(3));
    let c = Client::untranslated(vec![o]);
    let info = info_of(&c, c.object_at(0).unwrap());
    assert_eq!(text(&info.description), "Partition 3 of 1.5 MB Block Device");
    assert_eq!(text(&info.one_liner), "Partition 3 of 1.5 MB Block Device (/dev/dm-0p3)");
    assert_eq!(text(&info.sort_key), "02_block_dm_2d0p3_3");
}

#[test]
fn a_loop_device() {
    let mut b = block("/dev/loop2", None);
    b.size = Some(2_000_000_000);
    let mut o = object_with_block("/b/loop2", b);
    o.set_loop_device(Loop {
        path: String::new(),
        backing_file: Some("/home/davidz/file.iso".to_string()),
    });
    let c = Client::untranslated(vec![o]);
    let info = info_of(&c, c.object_at(0).unwrap());
    assert_eq!(text(&info.name), "/home/davidz/file.iso");
    assert_eq!(text(&info.description), "2.0 GB Loop Device");
    assert_eq!(
        text(&info.one_liner),
        "2.0 GB Loop Device \u{2014} /home/davidz/file.iso (/dev/loop2)"
    );
    assert_eq!(text(&info.sort_key), "03_loop_loop2_0");
    assert_eq!(icon(&info.icon), ("drive-removable-media", "drive-removable-media-symbolic"));
}

#[test]
fn a_loop_device_of_unknown_size_and_file() {
    let mut o = object_with_block("/b/loop3", Block::new(String::new()));
    o.set_loop_device(Loop { path: String::new(), backing_file: None });
    o.set_partition(partition(1));
    let c = Client::untranslated(vec![o]);
    let info = info_of(&c, c.object_at(0).unwrap());
    assert!(info.name.is_none());
    assert_eq!(text(&info.description), "Partition 1 of Loop Device");
    assert_eq!(text(&info.one_liner), "Partition 1 of Loop Device \u{2014}  ()");
    assert_eq!(text(&info.sort_key), "03_loop_loop3_1");
}

#[test]
fn an_object_that_is_none_of_the_four_is_shown_as_nothing() {
    let mut o = Object::new("/t");
    o.set_partition_table(PartitionTable { path: String::new(), table_type: "gpt".to_string() });
    let c = Client::untranslated(vec![o, Object::new("/bare")]);
    for i in 0..2 {
        let info = info_of(&c, c.object_at(i).unwrap());
        assert!(info.name.is_none());
        assert!(info.description.is_none());
        assert!(info.icon.name().is_none());
        assert!(info.icon.name_symbolic().is_none());
        assert!(info.media_description.is_none());
        assert!(info.media_icon.name().is_none());
        assert!(info.one_liner.is_none());
        assert!(info.sort_key.is_none());
    }
}

#[test]
fn the_drive_interface_wins_over_the_array_interface() {
    let mut o = object_with_drive(ssd());
    o.set_mdraid(MDRaid {
        path: String::new(),
        name: "x".to_string(),
        uuid: "u".to_string(),
        level: None,
        size: None,
    });
    let c = Client::untranslated(vec![o]);
    let info = info_of(&c, c.object_at(0).unwrap());
    assert_eq!(text(&info.sort_key), "00_drive_01hotplug/1");
}

#[test]
fn the_name_of_a_drive_without_vendor_has_no_space() {
    let mut d = ssd();
    d.vendor = String::new();
    assert_eq!(udisks2::object_info::name_of_drive(&d), "SSD1");
    d.model = String::new();
    assert_eq!(udisks2::object_info::name_of_drive(&d), "");
    d.vendor = "ATA".to_string();
    assert_eq!(udisks2::object_info::name_of_drive(&d), "ATA ");
}

#[test]
fn a_drive_without_a_block_device_has_no_one_liner() {
    let c = Client::untranslated(vec![object_with_drive(ssd())]);
    let info = info_of(&c, c.object_at(0).unwrap());
    assert!(info.one_liner.is_none());
    assert_eq!(text(&info.description), "500 GB Disk");
}

#[test]
fn descriptions_of_drives_of_no_known_family() {
    let describe = |d: Drive| {
        let c = Client::untranslated(vec![object_with_drive(d)]);
        let info = info_of(&c, c.object_at(0).unwrap());
        (info.description.clone().unwrap(), info.icon.name().unwrap().clone())
    };
    let mut d = ssd();
    d.size = None;
    assert_eq!(describe(d), ("Disk".to_string(), "drive-harddisk-solidstate".to_string()));
    let mut d = ssd();
    d.rotation_rate = RotationRate::Rotating(7200);
    assert_eq!(describe(d), ("500 GB Hard Disk".to_string(), "drive-harddisk".to_string()));
    let mut d = ssd();
    d.rotation_rate = RotationRate::Unknown;
    d.size = None;
    assert_eq!(describe(d), ("Hard Disk".to_string(), "drive-harddisk".to_string()));
    let mut d = ssd();
    d.media_removable = true;
    assert_eq!(describe(d), ("500 GB Drive".to_string(), "drive-removable-media".to_string()));
    let mut d = ssd();
    d.media_removable = true;
    d.size = None;
    d.rotation_rate = RotationRate::Rotating(5400);
    assert_eq!(describe(d), ("Drive".to_string(), "drive-removable-media".to_string()));
}

#[test]
fn the_bus_qualifies_the_fallback_icon() {
    let mut d = ssd();
    d.connection_bus = "usb".to_string();
    let (name, symbolic) = udisks2::object_info::fallback_icons(&d);
    assert_eq!(name, "drive-harddisk-solidstate-usb");
    assert_eq!(symbolic, "drive-harddisk-solidstate-usb-symbolic");
    d.media_removable = true;
    d.media_available = true;
    let c = Client::untranslated(vec![object_with_drive(d)]);
    let info = info_of(&c, c.object_at(0).unwrap());
    assert_eq!(icon(&info.icon), ("drive-removable-media-usb", "drive-removable-media-usb-symbolic"));
    assert_eq!(
        icon(&info.media_icon),
        ("drive-removable-media-usb", "drive-removable-media-usb-symbolic")
    );
    let mut d = ssd();
    d.rotation_rate = RotationRate::Rotating(7200);
    d.connection_bus = "ieee1394".to_string();
    let (name, symbolic) = udisks2::object_info::fallback_icons(&d);
    assert_eq!(name, "drive-harddisk-ieee1394");
    assert_eq!(symbolic, "drive-harddisk-ieee1394-symbolic");
}

fn optical() -> Drive {
    let mut d = Drive::new(String::new());
    d.vendor = "HL-DT-ST".to_string();
    d.model = "DVDRAM".to_string();
    d.media_removable = true;
    d.media_available = true;
    d.media = MediaCompatibility::OpticalCdR;
    d.media_compatibility = vec![
        MediaCompatibility::OpticalDvdPlusR,
        MediaCompatibility::OpticalCd,
        MediaCompatibility::OpticalCdR,
        MediaCompatibility::OpticalDvd,
        MediaCompatibility::OpticalBd,
        MediaCompatibility::OpticalCdRw,
    ];
    d.size = Some(700_000_000);
    d.connection_bus = "usb".to_string();
    d
}

#[test]
fn an_optical_drive_with_a_disc() {
    let c = Client::untranslated(vec![object_with_drive(optical())]);
    let info = info_of(&c, c.object_at(0).unwrap());
    assert_eq!(text(&info.description), "700 MB CD/DVD/Blu-Ray Drive");
    assert_eq!(icon(&info.icon), ("drive-optical", "drive-optical-symbolic"));
    assert_eq!(text(&info.media_description), "CD-R Disc");
    assert_eq!(icon(&info.media_icon), ("media-optical-cd-r", "media-optical-symbolic"));
}

#[test]
fn a_drive_of_a_known_family_is_shown_with_its_size_where_known() {
    let mut d = optical();
    d.size = None;
    let c = Client::untranslated(vec![object_with_drive(d)]);
    let info = info_of(&c, c.object_at(0).unwrap());
    assert_eq!(text(&info.description), "CD/DVD/Blu-Ray Drive");
    let mut d = optical();
    d.media_removable = false;
    let c = Client::untranslated(vec![object_with_drive(d)]);
    let info = info_of(&c, c.object_at(0).unwrap());
    assert_eq!(text(&info.description), "700 MB CD/DVD/Blu-Ray Drive");
    assert!(info.media_description.is_none());
    assert_eq!(icon(&info.media_icon), ("drive-harddisk-solidstate-usb", "drive-harddisk-solidstate-usb-symbolic"));
}

#[test]
fn what_is_known_of_a_disc_stands_before_its_description() {
    let describe = |d: Drive| {
        let c = Client::untranslated(vec![object_with_drive(d)]);
        info_of(&c, c.object_at(0).unwrap()).media_description.clone()
    };
    let mut d = optical();
    d.optical_blank = true;
    d.optical_num_audio_tracks = Some(3);
    assert_eq!(describe(d).as_deref(), Some("Blank CD-R Disc"));
    let mut d = optical();
    d.optical_num_audio_tracks = Some(3);
    d.optical_num_data_tracks = Some(1);
    assert_eq!(describe(d).as_deref(), Some("Mixed CD-R Disc"));
    let mut d = optical();
    d.optical_num_audio_tracks = Some(3);
    d.optical_num_data_tracks = Some(0);
    assert_eq!(describe(d).as_deref(), Some("Audio CD-R Disc"));
    let mut d = optical();
    d.optical_num_audio_tracks = Some(3);
    d.optical_num_data_tracks = None;
    assert_eq!(describe(d).as_deref(), Some("CD-R Disc"));
    let mut d = optical();
    d.optical_num_audio_tracks = Some(0);
    d.optical_num_data_tracks = Some(2);
    assert_eq!(describe(d).as_deref(), Some("CD-R Disc"));
    let mut d = optical();
    d.media_available = false;
    d.optical_blank = true;
    assert_eq!(describe(d).as_deref(), Some("Blank "));
}

#[test]
fn a_card_reader() {
    let mut d = Drive::new(String::new());
    d.media_removable = true;
    d.media_available = true;
    d.media = MediaCompatibility::FlashSdhc;
    d.media_compatibility = vec![
        MediaCompatibility::FlashSd,
        MediaCompatibility::FlashMmc,
        MediaCompatibility::FlashSdhc,
        MediaCompatibility::FlashCf,
    ];
    let c = Client::untranslated(vec![object_with_drive(d)]);
    let info = info_of(&c, c.object_at(0).unwrap());
    assert_eq!(text(&info.description), "CompactFlash/SD Card Reader");
    assert_eq!(
        icon(&info.icon),
        ("drive-removable-media-flash-cf", "drive-removable-media-symbolic")
    );
    assert_eq!(text(&info.media_description), "SDHC Card");
    assert_eq!(icon(&info.media_icon), ("media-flash-sd-hc", "media-flash-symbolic"));
    let mut d = Drive::new(String::new());
    d.media_compatibility = vec![MediaCompatibility::FlashMs];
    d.size = Some(32_000_000_000);
    let c = Client::untranslated(vec![object_with_drive(d)]);
    let info = info_of(&c, c.object_at(0).unwrap());
    assert_eq!(text(&info.description), "32 GB MemoryStick Drive");
}

#[test]
fn a_thumb_drive_and_a_floppy() {
    let mut d = Drive::new(String::new());
    d.media = MediaCompatibility::Thumb;
    d.media_compatibility = vec![MediaCompatibility::Thumb];
    d.media_removable = true;
    d.media_available = true;
    d.size = Some(16_000_000_000);
    let c = Client::untranslated(vec![object_with_drive(d)]);
    let info = info_of(&c, c.object_at(0).unwrap());
    assert_eq!(text(&info.description), "16 GB Thumb Drive");
    assert_eq!(text(&info.media_description), "Thumb Drive");
    assert_eq!(icon(&info.icon), ("media-removable", "media-removable-symbolic"));
    let mut d = Drive::new(String::new());
    d.media = MediaCompatibility::Floppy;
    d.media_compatibility = vec![MediaCompatibility::Floppy];
    d.media_removable = true;
    d.media_available = true;
    let c = Client::untranslated(vec![object_with_drive(d)]);
    let info = info_of(&c, c.object_at(0).unwrap());
    assert_eq!(text(&info.description), "Floppy Drive");
    assert_eq!(text(&info.media_description), "Floppy Disk");
}

#[test]
fn the_scan_of_the_table_of_known_media() {
    let c = Client::untranslated(Vec::new());
    let scan = c.scan_media(&optical());
    assert_eq!(scan.first_taken, Some(12));
    assert_eq!(scan.last_taken, Some(23));
    assert_eq!(scan.first_media, Some(13));
    assert_eq!(scan.families, "CD/DVD/Blu-Ray");
    let scan = c.scan_media(&ssd());
    assert_eq!(scan.first_taken, None);
    assert_eq!(scan.last_taken, None);
    assert_eq!(scan.first_media, None);
    assert_eq!(scan.families, "");
    assert!(udisks2::object_info::holds_kind(
        &optical().media_compatibility,
        MediaCompatibility::OpticalBd
    ));
    assert!(!udisks2::object_info::holds_kind(
        &optical().media_compatibility,
        MediaCompatibility::OpticalBdR
    ));
    assert!(udisks2::object_info::names_family(&optical(), "CD", 13));
    assert!(!udisks2::object_info::names_family(&optical(), "CD", 12));
    assert!(!udisks2::object_info::names_family(&optical(), "HDDVD", 32));
}

fn hinted_block() -> Block {
    let mut b = block("/dev/sda", Some(DRIVE));
    b.hint_name = "Backup Disk".to_string();
    b.hint_icon_name = "drive-backup".to_string();
    b.hint_symbolic_icon_name = "drive-backup-symbolic".to_string();
    b
}

#[test]
fn hints_replace_what_was_found() {
    let c = drive_with_block(ssd(), hinted_block());
    let info = info_of(&c, c.object(DRIVE).unwrap());
    assert_eq!(text(&info.description), "Backup Disk");
    assert_eq!(text(&info.media_description), "Backup Disk");
    assert_eq!(icon(&info.icon), ("drive-backup", "drive-backup-symbolic"));
    assert_eq!(icon(&info.media_icon), ("drive-backup", "drive-backup-symbolic"));
    assert_eq!(text(&info.name), "ATA SSD1");
    assert_eq!(text(&info.one_liner), "Backup Disk \u{2014} ATA SSD1 (/dev/sda)");

    let c = drive_with_block(optical(), hinted_block());
    let info = info_of(&c, c.object(DRIVE).unwrap());
    assert_eq!(text(&info.description), "Backup Disk");
    assert_eq!(text(&info.media_description), "Backup Disk");
    assert_eq!(icon(&info.icon), ("drive-backup", "drive-backup-symbolic"));
}

#[test]
fn a_hint_for_one_icon_leaves_the_other() {
    let mut b = block("/dev/sda", Some(DRIVE));
    b.hint_icon_name = "drive-backup".to_string();
    let c = drive_with_block(ssd(), b);
    let info = info_of(&c, c.object(DRIVE).unwrap());
    assert_eq!(icon(&info.icon), ("drive-backup", "drive-harddisk-solidstate-symbolic"));
    assert_eq!(info.media_icon.name().map(|s| s.as_str()), Some("drive-backup"));
    assert!(info.media_icon.name_symbolic().is_none());
    assert_eq!(text(&info.description), "500 GB Disk");
}

#[test]
fn two_builds_in_a_row_give_the_same() {
    let c = drive_with_block(optical(), hinted_block());
    let o = c.object(DRIVE).unwrap();
    let d = o.drive().unwrap();
    let mut info = ObjectInfo::new(o);
    info.info_for_drive(&c, d, None);
    let first = format!("{:?}", info);
    info.info_for_drive(&c, d, None);
    assert_eq!(format!("{:?}", info), first);
    let again = c.object_info(o);
    assert_eq!(format!("{:?}", again), first);
    assert_eq!(text(&info.description), "Backup Disk");
}

fn drive_with_partition(d: Drive, whole: Block, number: u32) -> Client {
    let mut part = object_with_block(SDA1, block("/dev/sda1", Some(DRIVE)));
    part.set_partition(partition(number));
    Client::untranslated(vec![object_with_drive(d), object_with_block(SDA, whole), part])
}

#[test]
fn the_description_of_a_partition_wraps_that_of_the_drive() {
    for n in [1u32, 2, 9, 10, 128, u32::MAX] {
        let c = drive_with_partition(ssd(), block("/dev/sda", Some(DRIVE)), n);
        let whole = info_of(&c, c.object(DRIVE).unwrap());
        let part = info_of(&c, c.object(SDA1).unwrap());
        assert_eq!(
            text(&part.description),
            format!("Partition {} of {}", n, text(&whole.description))
        );
        assert_eq!(part.sort_key, whole.sort_key);
        assert_eq!(part.name, whole.name);
    }
    let c = drive_with_partition(ssd(), block("/dev/sda", Some(DRIVE)), 1);
    let part = info_of(&c, c.object(SDA1).unwrap());
    assert_eq!(text(&part.description), "Partition 1 of 500 GB Disk");
    assert_eq!(text(&part.one_liner), "Partition 1 of 500 GB Disk \u{2014} ATA SSD1 (/dev/sda1)");
}

#[test]
fn a_hint_is_wrapped_as_it_stands() {
    let mut b = hinted_block();
    b.hint_name = "100%u of %s".to_string();
    let c = drive_with_partition(ssd(), b, 4);
    let part = info_of(&c, c.object(SDA1).unwrap());
    assert_eq!(text(&part.description), "Partition 4 of 100%u of %s");
    assert_eq!(text(&part.media_description), "100%u of %s");
}

#[test]
fn the_revision_stands_in_square_brackets() {
    let mut d = ssd();
    d.revision = Some("45ABX21".to_string());
    let c = drive_with_block(d, block("/dev/sda", Some(DRIVE)));
    let info = info_of(&c, c.object(DRIVE).unwrap());
    assert_eq!(text(&info.one_liner), "500 GB Disk \u{2014} ATA SSD1 [45ABX21] (/dev/sda)");
    let mut d = ssd();
    d.revision = Some("45ABX21".to_string());
    let c = drive_with_partition(d, block("/dev/sda", Some(DRIVE)), 2);
    let info = info_of(&c, c.object(SDA1).unwrap());
    assert_eq!(
        text(&info.one_liner),
        "Partition 2 of 500 GB Disk \u{2014} ATA SSD1 [45ABX21] (/dev/sda)"
    );
}

#[test]
fn sort_keys_order_the_four_categories() {
    let mut raid = Object::new(RAID);
    raid.set_mdraid(MDRaid {
        path: String::new(),
        name: String::new(),
        uuid: "zzz".to_string(),
        level: None,
        size: None,
    });
    let mut loop_object = object_with_block("/b/aaa", Block::new(String::new()));
    loop_object.set_loop_device(Loop { path: String::new(), backing_file: None });
    let mut d = ssd();
    d.sort_key = "zzzz".to_string();
    let c = Client::untranslated(vec![
        loop_object,
        object_with_block("/b/zzz", Block::new(String::new())),
        raid,
        object_with_drive(d),
    ]);
    let key = |i: usize| info_of(&c, c.object_at(i).unwrap()).sort_key.clone().unwrap();
    assert_eq!(key(3), "00_drive_zzzz");
    assert_eq!(key(2), "01_mdraid_zzz_0");
    assert_eq!(key(1), "02_block_zzz_0");
    assert_eq!(key(0), "03_loop_aaa_0");
    assert!(key(3) < key(2));
    assert!(key(2) < key(1));
    assert!(key(1) < key(0));
}

#[test]
fn a_whole_device_sorts_before_its_partitions() {
    for n in [1u32, 2, 10, 99, 12345] {
        assert!(
            udisks2::object_info::build_key("02_block_", "sda", 0)
                < udisks2::object_info::build_key("02_block_", "sda", n)
        );
    }
    assert_eq!(udisks2::object_info::build_key("03_loop_", "loop0", 12), "03_loop_loop0_12");
    assert_eq!(udisks2::object_info::number_of(None), 0);
    assert_eq!(udisks2::object_info::number_of(Some(&partition(7))), 7);
}

#[test]
fn icons_keep_the_names_they_have() {
    let mut i = Icon::none();
    assert!(i.name().is_none());
    i.set_if_none("a".to_string(), "a-symbolic".to_string());
    assert_eq!(icon(&i), ("a", "a-symbolic"));
    i.set_if_none("b".to_string(), "b-symbolic".to_string());
    assert_eq!(icon(&i), ("a", "a-symbolic"));
    let mut i = Icon::new(None, Some("s".to_string()));
    i.set_if_none("b".to_string(), "b-symbolic".to_string());
    assert_eq!(icon(&i), ("b", "s"));
    i.set_name("c".to_string());
    i.set_name_symbolic("c-symbolic".to_string());
    assert_eq!(icon(&i), ("c", "c-symbolic"));
}

#[test]
fn a_build_keeps_the_icon_that_is_set() {
    let c = drive_with_block(ssd(), block("/dev/sda", Some(DRIVE)));
    let o = c.object(DRIVE).unwrap();
    let mut info = ObjectInfo::new(o);
    info.icon = Icon::new(Some("mine".to_string()), None);
    info.media_description = Some("Mine".to_string());
    info.info_for_drive(&c, o.drive().unwrap(), None);
    assert_eq!(icon(&info.icon), ("mine", "drive-harddisk-solidstate-symbolic"));
    assert_eq!(text(&info.media_description), "Mine");
}

#[test]
fn texts_are_those_of_the_catalog() {
    let entry = |context: Option<&str>, msgid: &str, text: &str| Translation {
        domain: Domain::Default,
        context: context.map(|c| c.to_string()),
        msgid: msgid.to_string(),
        text: text.to_string(),
    };
    let catalog = Catalog {
        entries: vec![
            entry(Some("disk-non-rotational"), "%s Disk", "Datentr\u{e4}ger (%s)"),
            entry(Some("part-drive"), "Partition %u of %s", "%s, Partition %u"),
            entry(Some("byte-size-pow10"), "GB", "Go"),
            entry(Some("one-liner-drive"), "%s \u{2014} %s (%s)", "%s: %s @ %s"),
            entry(None, "Block Device", "Blockger\u{e4}t"),
        ],
    };
    let mut part = object_with_block(SDA1, block("/dev/sda1", Some(DRIVE)));
    part.set_partition(partition(3));
    let c = Client::with_catalog(
        vec![
            object_with_drive(ssd()),
            object_with_block(SDA, block("/dev/sda", Some(DRIVE))),
            part,
            object_with_block("/b/x", Block::new(String::new())),
        ],
        catalog,
    );
    let info = info_of(&c, c.object(DRIVE).unwrap());
    assert_eq!(text(&info.description), "Datentr\u{e4}ger (500 Go)");
    assert_eq!(text(&info.one_liner), "Datentr\u{e4}ger (500 Go): ATA SSD1 @ /dev/sda");
    let info = info_of(&c, c.object(SDA1).unwrap());
    assert_eq!(text(&info.description), "Datentr\u{e4}ger (500 Go), Partition 3");
    let info = info_of(&c, c.object("/b/x").unwrap());
    assert_eq!(text(&info.description), "Blockger\u{e4}t");
}

#[test]
fn a_catalog_that_gives_every_message_as_written_changes_nothing() {
    let texts: Vec<String> = (0..udisks2::messages::MESSAGES_LEN)
        .map(|i| udisks2::messages::message_at(i).msgid.to_string())
        .collect();
    let c = Client::with_catalog(
        vec![object_with_drive(ssd()), object_with_block(SDA, block("/dev/sda", Some(DRIVE)))],
        Catalog::from_texts(&texts),
    );
    let info = info_of(&c, c.object(DRIVE).unwrap());
    assert_eq!(text(&info.description), "500 GB Disk");
    assert_eq!(text(&info.one_liner), "500 GB Disk \u{2014} ATA SSD1 (/dev/sda)");
    assert_eq!(c.catalog().entries.len(), udisks2::messages::MESSAGES_LEN);
}

#[test]
fn the_name_of_an_array_is_what_follows_the_first_colon() {
    for (given, name) in [
        ("myhost:data", "data"),
        ("h:a:b", "a:b"),
        ("data", "data"),
        (":data", "data"),
        ("h::", ":"),
        ("h:", ""),
        ("", ""),
    ] {
        let c = array(given, Some(RaidLevel::Raid1), None, false);
        let info = info_of(&c, c.object(RAID).unwrap());
        assert_eq!(text(&info.name), name);
    }
    let c = array("h:a:b", Some(RaidLevel::Raid1), None, true);
    let info = info_of(&c, c.object(RAID).unwrap());
    assert_eq!(text(&info.one_liner), "a:b \u{2014} RAID-1 Array (/dev/md0)");
    let c = array("h:a:b", Some(RaidLevel::Raid1), None, false);
    let info = info_of(&c, c.object(RAID).unwrap());
    assert_eq!(text(&info.one_liner), "a:b \u{2014} RAID-1 Array");
}

#[test]
fn an_empty_revision_is_not_shown() {
    let mut d = ssd();
    d.size = Some(2_000_000_000);
    d.revision = Some(String::new());
    let c = drive_with_block(d, block("/dev/sda", Some(DRIVE)));
    let info = info_of(&c, c.object(DRIVE).unwrap());
    assert_eq!(text(&info.one_liner), "2.0 GB Disk \u{2014} ATA SSD1 (/dev/sda)");
    let mut d = ssd();
    d.size = Some(2_000_000_000);
    d.revision = None;
    let c = drive_with_block(d, block("/dev/sda", Some(DRIVE)));
    let info = info_of(&c, c.object(DRIVE).unwrap());
    assert_eq!(text(&info.one_liner), "2.0 GB Disk \u{2014} ATA SSD1 (/dev/sda)");
    let mut d = ssd();
    d.size = Some(2_000_000_000);
    d.revision = Some(" ".to_string());
    let c = drive_with_block(d, block("/dev/sda", Some(DRIVE)));
    let info = info_of(&c, c.object(DRIVE).unwrap());
    assert_eq!(text(&info.one_liner), "2.0 GB Disk \u{2014} ATA SSD1 [ ] (/dev/sda)");
    let mut d = ssd();
    d.revision = Some(String::new());
    let c = drive_with_partition(d, block("/dev/sda", Some(DRIVE)), 2);
    let info = info_of(&c, c.object(SDA1).unwrap());
    assert_eq!(
        text(&info.one_liner),
        "Partition 2 of 500 GB Disk \u{2014} ATA SSD1 (/dev/sda1)"
    );
}
