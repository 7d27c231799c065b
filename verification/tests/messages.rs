use udisks2::block::Block;
use udisks2::catalog::{Catalog, Translation};
use udisks2::drive::{Drive, MediaCompatibility, RotationRate};
use udisks2::loopdev::Loop;
use udisks2::manager::RaidLevel;
use udisks2::mdraid::MDRaid;
use udisks2::messages::{message_at, MESSAGES_LEN};
use udisks2::partition::Partition;
use udisks2::partitiontable::PartitionTable;
use udisks2::{Client, Object};

/// A catalog that shows every listed message between angle brackets.
fn marking() -> Catalog {
    let mut entries = Vec::new();
    for i in 0..MESSAGES_LEN {
        let m = message_at(i);
        entries.push(Translation {
            domain: m.domain,
            context: m.context.map(|c| c.to_string()),
            msgid: m.msgid.to_string(),
            text: format!("<{}>", m.msgid),
        });
    }
    Catalog { entries }
}

fn client(objects: Vec<Object>) -> Client {
    Client::with_catalog(objects, marking())
}

fn partition(number: u32, table: &str, flags: u64, ty: &str) -> Partition {
    Partition {
        path: String::new(),
        number,
        table: Some(table.to_string()),
        flags,
        partition_type: ty.to_string(),
        name: String::new(),
    }
}

#[test]
fn sizes_and_jobs_are_listed() {
    let c = client(Vec::new());
    for (size, pow2, text) in [
        (1u64, false, "1 <B>"),
        (2_000, false, "2.0 <kB>"),
        (2_000_000, false, "2.0 <MB>"),
        (2_000_000_000, false, "2.0 <GB>"),
        (2_000_000_000_000, false, "2.0 <TB>"),
        (1, true, "1 <B>"),
        (2 << 10, true, "2.0 <KiB>"),
        (2 << 20, true, "2.0 <MiB>"),
        (2 << 30, true, "2.0 <GiB>"),
        (2 << 40, true, "2.0 <TiB>"),
    ] {
        assert_eq!(c.size_for_display(size, pow2, false), text);
    }
    assert_eq!(c.size_for_display(5, false, true), "<5 <B> (5 bytes)>");
    assert_eq!(c.size_for_display(5, true, true), "<5 <B> (5 bytes)>");
    for (operation, label) in [
        ("ata-smart-selftest", "SMART self-test"),
        ("drive-eject", "Ejecting Medium"),
        ("encrypted-unlock", "Unlocking Device"),
        ("encrypted-lock", "Locking Device"),
        ("encrypted-modify", "Modifying Encrypted Device"),
        ("encrypted-resize", "Resizing Encrypted Device"),
        ("swapspace-start", "Starting Swap Device"),
        ("swapspace-stop", "Stopping Swap Device"),
        ("swapspace-modify", "Modifying Swap Device"),
        ("filesystem-check", "Checking Filesystem"),
        ("filesystem-mount", "Mounting Filesystem"),
        ("filesystem-unmount", "Unmounting Filesystem"),
        ("filesystem-modify", "Modifying Filesystem"),
        ("filesystem-repair", "Repairing Filesystem"),
        ("filesystem-resize", "Resizing Filesystem"),
        ("format-erase", "Erasing Device"),
        ("format-mkfs", "Creating Filesystem"),
        ("loop-setup", "Setting Up Loop Device"),
        ("partition-modify", "Modifying Partition"),
        ("partition-delete", "Deleting Partition"),
        ("partition-create", "Creating Partition"),
        ("cleanup", "Cleaning Up"),
        ("ata-secure-erase", "ATA Secure Erase"),
        ("ata-enhanced-secure-erase", "ATA Enhanced Secure Erase"),
        ("md-raid-stop", "Stopping RAID Array"),
        ("md-raid-start", "Starting RAID Array"),
        ("md-raid-fault-device", "Marking Device as Faulty"),
        ("md-raid-remove-device", "Removing Device from Array"),
        ("md-raid-add-device", "Adding Device to Array"),
        ("md-raid-set-bitmap", "Setting Write-Intent Bitmap"),
        ("md-raid-create", "Creating RAID Array"),
    ] {
        assert_eq!(c.job_description_from_operation(operation), format!("<{}>", label));
    }
    assert_eq!(c.job_description_from_operation("x"), "<Unknown (x)>");
}

#[test]
fn the_texts_of_block_loop_and_array_are_listed() {
    let mut plain = Object::new("/b/x");
    plain.set_block(Block::new(String::new()));
    let mut sized = Object::new("/b/y");
    let mut b = Block::new(String::new());
    b.size = Some(1);
    b.preferred_device = Some("/dev/y".to_string());
    sized.set_block(b.clone());
    sized.set_partition(partition(1, "/b/x", 0, ""));
    let mut looped = Object::new("/b/l");
    looped.set_block(Block::new(String::new()));
    looped.set_loop_device(Loop { path: String::new(), backing_file: None });
    let mut sized_loop = Object::new("/b/m");
    sized_loop.set_block(b);
    sized_loop.set_loop_device(Loop { path: String::new(), backing_file: Some("f".to_string()) });
    sized_loop.set_partition(partition(2, "/b/l", 0, ""));
    let c = client(vec![plain, sized, looped, sized_loop]);
    let info = c.object_info(c.object_at(0).unwrap());
    assert_eq!(info.description.as_deref(), Some("<Block Device>"));
    assert_eq!(info.one_liner.as_deref(), Some("<<Block Device> ()>"));
    let info = c.object_info(c.object_at(1).unwrap());
    assert_eq!(info.description.as_deref(), Some("<Partition 1 of <1 <B> Block Device>>"));
    let info = c.object_info(c.object_at(2).unwrap());
    assert_eq!(info.description.as_deref(), Some("<Loop Device>"));
    assert_eq!(info.one_liner.as_deref(), Some("<<Loop Device> \u{2014}  ()>"));
    let info = c.object_info(c.object_at(3).unwrap());
    assert_eq!(info.description.as_deref(), Some("<Partition 2 of <1 <B> Loop Device>>"));

    for (level, label) in [
        (Some(RaidLevel::Raid0), "RAID-0 Array"),
        (Some(RaidLevel::Raid1), "RAID-1 Array"),
        (Some(RaidLevel::Raid4), "RAID-4 Array"),
        (Some(RaidLevel::Raid5), "RAID-5 Array"),
        (Some(RaidLevel::Raid6), "RAID-6 Array"),
        (Some(RaidLevel::Raid10), "RAID-10 Array"),
        (None, "RAID Array"),
    ] {
        for (name, running, size) in [
            ("n", true, Some(1u64)),
            ("n", false, None),
            ("", true, None),
            ("", false, Some(1)),
        ] {
            let mut raid = Object::new("/r");
            raid.set_mdraid(MDRaid {
                path: String::new(),
                name: name.to_string(),
                uuid: "u".to_string(),
                level,
                size,
            });
            let mut part = Object::new("/p");
            let mut pb = Block::new(String::new());
            pb.mdraid = Some("/r".to_string());
            part.set_block(pb);
            part.set_partition(partition(3, "/b", 0, ""));
            let mut objects = vec![raid, part];
            if running {
                let mut device = Object::new("/b");
                let mut b = Block::new(String::new());
                b.mdraid = Some("/r".to_string());
                b.preferred_device = Some("/dev/md0".to_string());
                device.set_block(b);
                objects.push(device);
            }
            let c = client(objects);
            let info = c.object_info(c.object_at(0).unwrap());
            let description = match size {
                Some(_) => format!("<1 <B> <{}>>", label),
                None => format!("<{}>", label),
            };
            assert_eq!(info.description.as_deref(), Some(description.as_str()));
            let one_liner = match (name, running) {
                ("n", true) => format!("<n \u{2014} {} (/dev/md0)>", description),
                ("n", false) => format!("<n \u{2014} {}>", description),
                (_, true) => format!("<{} \u{2014} /dev/md0>", description),
                (_, false) => format!("<{}>", description),
            };
            assert_eq!(info.one_liner.as_deref(), Some(one_liner.as_str()));
            let info = c.object_info(c.object_at(1).unwrap());
            assert_eq!(
                info.description.as_deref(),
                Some(format!("<Partition 3 of {}>", description).as_str())
            );
        }
    }
}

fn shown(d: Drive, block: Option<Block>, p: Option<Partition>) -> [Option<String>; 3] {
    let mut o = Object::new("/d");
    o.set_drive(d);
    let mut objects = vec![o];
    if let Some(mut b) = block {
        b.drive = Some("/d".to_string());
        let mut o = Object::new("/b");
        o.set_block(b);
        if let Some(p) = p {
            o.set_partition(p);
        }
        objects.push(o);
    }
    let c = client(objects);
    let info = c.object_info(c.object_at(c.object_manager().len() - 1).unwrap());
    [info.description.clone(), info.media_description.clone(), info.one_liner.clone()]
}

#[test]
fn the_texts_of_drives_are_listed() {
    let describe = |d: Drive| shown(d, None, None)[0].clone().unwrap();
    let mut d = Drive::new(String::new());
    assert_eq!(describe(d.clone()), "<Disk>");
    d.size = Some(1);
    assert_eq!(describe(d.clone()), "<<1 <B>> Disk>".replace("<<1 <B>>", "<1 <B>"));
    d.rotation_rate = RotationRate::Unknown;
    assert_eq!(describe(d.clone()), "<1 <B> Hard Disk>");
    d.size = None;
    assert_eq!(describe(d.clone()), "<Hard Disk>");
    d.media_removable = true;
    assert_eq!(describe(d.clone()), "<Drive>");
    d.size = Some(1);
    assert_eq!(describe(d.clone()), "<1 <B> Drive>");
    d.media_compatibility = vec![MediaCompatibility::FlashSd];
    assert_eq!(describe(d.clone()), "<1 <B> <SD> Drive>");
    d.size = None;
    assert_eq!(describe(d.clone()), "<<SD> Card Reader>");
    d.media_compatibility = vec![MediaCompatibility::OpticalCd];
    assert_eq!(describe(d.clone()), "<<CD> Drive>");

    let mut b = Block::new(String::new());
    b.preferred_device = Some("/dev/sr0".to_string());
    let revised = {
        let mut d = d.clone();
        d.revision = Some("1".to_string());
        d
    };
    assert_eq!(
        shown(revised, Some(b.clone()), None)[2].as_deref(),
        Some("<<<CD> Drive> \u{2014}  [1] (/dev/sr0)>")
    );
    assert_eq!(shown(d.clone(), Some(b.clone()), Some(partition(4, "/b", 0, "")))[2], None);
    let mut drive = Object::new("/d");
    drive.set_drive(d);
    let mut whole = Object::new("/b");
    b.drive = Some("/d".to_string());
    whole.set_block(b.clone());
    let mut part = Object::new("/b4");
    b.preferred_device = Some("/dev/sr0p4".to_string());
    part.set_block(b);
    part.set_partition(partition(4, "/b", 0, ""));
    let c = client(vec![drive, whole, part]);
    let info = c.object_info(c.object_at(2).unwrap());
    assert_eq!(
        info.one_liner.as_deref(),
        Some("<<Partition 4 of <<CD> Drive>> \u{2014}  (/dev/sr0p4)>")
    );
}

#[test]
fn the_names_of_media_are_listed() {
    let families = [
        "Thumb", "Floppy", "Zip", "Jaz", "Flash", "MemoryStick", "SmartMedia", "CompactFlash",
        "SD", "SD", "SD", "SD", "CD", "CD", "CD", "DVD", "DVD", "DVD", "DVD", "DVD", "DVD",
        "DVD", "DVD", "Blu-Ray", "Blu-Ray", "Blu-Ray", "HDDVD", "HDDVD", "HDDVD", "CD", "CD",
        "CD",
    ];
    for i in 0..udisks2::media::MEDIA_DATA_LEN {
        let row = udisks2::media::media_data_at(i);
        assert_eq!(row.media_family, families[i]);
        let mut d = Drive::new(String::new());
        d.media_removable = true;
        d.media_available = true;
        d.media = row.id;
        d.media_compatibility = vec![row.id];
        let [description, media, _] = shown(d.clone(), None, None);
        let kind = match row.media_type {
            udisks2::media::DriveType::Drive => "Drive",
            udisks2::media::DriveType::Disk => "Disk",
            udisks2::media::DriveType::Card => "Card",
            udisks2::media::DriveType::Disc => "Disc",
        };
        assert_eq!(media.unwrap(), format!("<<{}> {}>", row.media_name, kind));
        let of_family = match row.media_type {
            udisks2::media::DriveType::Card => format!("<<{}> Card Reader>", row.media_family),
            _ => format!("<<{}> Drive>", row.media_family),
        };
        assert_eq!(description.unwrap(), of_family);
        d.optical_blank = true;
        let blank = shown(d.clone(), None, None)[1].clone().unwrap();
        assert_eq!(blank, format!("<Blank <<{}> {}>>", row.media_name, kind));
        d.optical_blank = false;
        d.optical_num_audio_tracks = Some(1);
        d.optical_num_data_tracks = Some(1);
        let mixed = shown(d.clone(), None, None)[1].clone().unwrap();
        assert_eq!(mixed, format!("<Mixed <<{}> {}>>", row.media_name, kind));
        d.optical_num_data_tracks = Some(0);
        let audio = shown(d, None, None)[1].clone().unwrap();
        assert_eq!(audio, format!("<Audio <<{}> {}>>", row.media_name, kind));
    }
    let c = client(Vec::new());
    assert_eq!(
        c.media_compat_for_display(&[
            "flash_cf", "flash_ms", "flash_sm", "flash_sd", "flash_sdhc", "floppy", "floppy_zip",
            "floppy_jaz", "flash", "optical_cd", "optical_dvd", "optical_bd", "optical_hddvd",
        ])
        .as_deref(),
        Some(
            "<CompactFlash>,<MemoryStick>,<SmartMedia>,<SecureDigital>,<SD High Capacity>,\
             <Floppy>,<Zip>,<Jaz>,<Flash>/<CD>/<DVD>/<Blu-Ray>/<HDDVD>"
        )
    );
}

#[test]
fn the_texts_of_partitions_and_contents_are_listed() {
    let info = |table_type: &str, ty: &str, flags: u64| {
        let mut t = Object::new("/t");
        t.set_partition_table(PartitionTable {
            path: String::new(),
            table_type: table_type.to_string(),
        });
        let mut p = Object::new("/p");
        p.set_partition(partition(1, "/t", flags, ty));
        let c = client(vec![t, p]);
        let p = c.object("/p").unwrap().partition().unwrap();
        c.partition_info(p).unwrap()
    };
    assert_eq!(info("dos", "", 0), "<Unknown>");
    assert_eq!(info("dos", "0x83", 0x80), "<<Linux> (, <Bootable>)>");
    assert_eq!(
        info("gpt", "", 1 | 4 | (1 << 60) | (1 << 62) | (1 << 63)),
        "< (, <System>, <Legacy BIOS Bootable>, <Read-only>, <Hidden>, <No Automount>)>"
    );
    let c = client(Vec::new());
    for i in 0..udisks2::partition_types::PARTITION_TYPES_LEN {
        let row = udisks2::partition_types::partition_type_at(i);
        assert_eq!(
            c.partition_type_and_subtype_for_display(row.table_type, row.table_subtype, row.ty),
            Some(format!("<{}>", row.name))
        );
    }
    for i in 0..udisks2::partition_subtypes::PARTITION_TABLE_SUBTYPES_LEN {
        let row = udisks2::partition_subtypes::partition_table_subtype_at(i);
        assert_eq!(
            c.partition_table_subtype_for_display(row.ty, row.subtype),
            Some(format!("<{}>", row.name))
        );
    }
    for (ty, name) in [
        ("dos", "Master Boot Record"),
        ("gpt", "GUID Partition Table"),
        ("apm", "Apple Partition Map"),
    ] {
        assert_eq!(c.partition_table_type_for_display(ty), Some(format!("<{}>", name)));
    }
    for i in 0..udisks2::id::ID_TYPES_LEN {
        let row = udisks2::id::id_type_at(i);
        let version = match row.version {
            None => "",
            Some("*") => "9",
            Some(v) => v,
        };
        let long = c.id_for_display(row.usage, row.ty, version, true);
        let short = c.id_for_display(row.usage, row.ty, version, false);
        assert!(long.starts_with('<') && long.ends_with('>'), "{}", long);
        assert!(short.starts_with('<') && short.ends_with('>'), "{}", short);
    }
    assert_eq!(c.id_for_display("", "x", "1", true), "<Unknown (x 1)>");
    assert_eq!(c.id_for_display("", "x", "", true), "<Unknown (x)>");
    assert_eq!(c.id_for_display("", "", "", true), "<Unknown>");
    assert_eq!(c.id_for_display("", "", "", false), "<Unknown>");
}
