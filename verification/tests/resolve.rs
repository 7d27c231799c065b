use udisks2::block::Block;
use udisks2::client::Query;
use udisks2::drive::Drive;
use udisks2::error::{BusError, Error};
use udisks2::job::Job;
use udisks2::loopdev::Loop;
use udisks2::mdraid::MDRaid;
use udisks2::object::Interface;
use udisks2::partition::Partition;
use udisks2::partitiontable::PartitionTable;
use udisks2::{Client, Object};

const DRIVE: &str = "/org/freedesktop/UDisks2/drives/ATA_SSD1";
const SDA: &str = "/org/freedesktop/UDisks2/block_devices/sda";
const SDA1: &str = "/org/freedesktop/UDisks2/block_devices/sda1";
const SDA2: &str = "/org/freedesktop/UDisks2/block_devices/sda2";
const SDB: &str = "/org/freedesktop/UDisks2/block_devices/sdb";
const RAID: &str = "/org/freedesktop/UDisks2/mdraid/abc";
const MD0: &str = "/org/freedesktop/UDisks2/block_devices/md0";
const MD1: &str = "/org/freedesktop/UDisks2/block_devices/md1";
const MD0P1: &str = "/org/freedesktop/UDisks2/block_devices/md0p1";
const LOOP0: &str = "/org/freedesktop/UDisks2/block_devices/loop0";
const LOOP0P1: &str = "/org/freedesktop/UDisks2/block_devices/loop0p1";
const DM0: &str = "/org/freedesktop/UDisks2/block_devices/dm_2d0";
const JOB1: &str = "/org/freedesktop/UDisks2/jobs/1";
const JOB2: &str = "/org/freedesktop/UDisks2/jobs/2";

fn not_found() -> Error {
    Error::Bus(BusError::InterfaceNotFound)
}

fn block(device: &str) -> Block {
    let mut b = Block::new(String::new());
    b.preferred_device = Some(device.to_string());
    b
}

fn partition(number: u32, table: &str) -> Partition {
    Partition {
        path: String::new(),
        number,
        table: Some(table.to_string()),
        flags: 0,
        partition_type: String::new(),
        name: String::new(),
    }
}

fn table(table_type: &str) -> PartitionTable {
    PartitionTable { path: String::new(), table_type: table_type.to_string() }
}

fn snapshot() -> Client {
    let mut objects = Vec::new();

    let mut drive = Object::new(DRIVE);
    let mut d = Drive::new(String::new());
    d.sibling_id = "reader-1".to_string();
    drive.set_drive(d);
    objects.push(drive);

    let mut sda1 = Object::new(SDA1);
    let mut b = block("/dev/sda1");
    b.drive = Some(DRIVE.to_string());
    b.id_label = Some("data".to_string());
    b.id_uuid = Some("1111".to_string());
    b.device_number = Some(2049);
    sda1.set_block(b);
    sda1.set_partition(partition(1, SDA));
    objects.push(sda1);

    let mut sda = Object::new(SDA);
    let mut b = block("/dev/sda");
    b.drive = Some(DRIVE.to_string());
    b.device_number = Some(2048);
    sda.set_block(b);
    sda.set_partition_table(table("gpt"));
    objects.push(sda);

    let mut sda2 = Object::new(SDA2);
    let mut b = block("/dev/sda2");
    b.drive = Some(DRIVE.to_string());
    b.id_label = Some("data".to_string());
    b.mdraid_member = Some(RAID.to_string());
    sda2.set_block(b);
    sda2.set_partition(partition(2, SDA));
    objects.push(sda2);

    let mut sdb = Object::new(SDB);
    let mut b = block("/dev/sdb");
    b.mdraid_member = Some(RAID.to_string());
    b.drive = Some("/org/freedesktop/UDisks2/drives/gone".to_string());
    sdb.set_block(b);
    objects.push(sdb);

    let mut raid = Object::new(RAID);
    raid.set_mdraid(MDRaid {
        path: String::new(),
        name: "myhost:data".to_string(),
        uuid: "abc".to_string(),
        level: None,
        size: None,
    });
    objects.push(raid);

    let mut md0p1 = Object::new(MD0P1);
    let mut b = block("/dev/md0p1");
    b.mdraid = Some(RAID.to_string());
    md0p1.set_block(b);
    md0p1.set_partition(partition(1, MD0));
    objects.push(md0p1);

    let mut md0 = Object::new(MD0);
    let mut b = block("/dev/md0");
    b.mdraid = Some(RAID.to_string());
    md0.set_block(b);
    md0.set_partition_table(table("dos"));
    objects.push(md0);

    let mut md1 = Object::new(MD1);
    let mut b = block("/dev/md1");
    b.mdraid = Some(RAID.to_string());
    b.crypto_backing_device = Some(SDB.to_string());
    md1.set_block(b);
    objects.push(md1);

    let mut loop0 = Object::new(LOOP0);
    loop0.set_block(block("/dev/loop0"));
    loop0.set_loop_device(Loop { path: String::new(), backing_file: Some("/tmp/a.iso".to_string()) });
    loop0.set_partition_table(table("dos"));
    objects.push(loop0);

    let mut loop0p1 = Object::new(LOOP0P1);
    loop0p1.set_block(block("/dev/loop0p1"));
    loop0p1.set_partition(partition(1, LOOP0));
    objects.push(loop0p1);

    let mut dm = Object::new(DM0);
    let mut b = block("/dev/dm-0");
    b.crypto_backing_device = Some(SDA1.to_string());
    dm.set_block(b);
    objects.push(dm);

    let mut job1 = Object::new(JOB1);
    job1.set_job(Job {
        path: String::new(),
        operation: "filesystem-mount".to_string(),
        objects: vec![SDA1.to_string(), SDB.to_string()],
    });
    objects.push(job1);

    let mut job2 = Object::new(JOB2);
    job2.set_job(Job {
        path: String::new(),
        operation: "format-mkfs".to_string(),
        objects: vec![SDB.to_string()],
    });
    objects.push(job2);

    Client::untranslated(objects)
}

fn devices(blocks: &[&Block]) -> Vec<String> {
    blocks.iter().map(|b| b.preferred_device.clone().unwrap()).collect()
}

#[test]
fn an_interface_is_bound_to_the_object_that_exposes_it() {
    let c = snapshot();
    let sda = c.object(SDA).unwrap();
    assert_eq!(sda.object_path(), SDA);
    assert_eq!(sda.block().unwrap().path, SDA);
    assert_eq!(sda.partition_table().unwrap().path, SDA);
    assert_eq!(c.object(DRIVE).unwrap().drive().unwrap().path, DRIVE);
    assert_eq!(c.object(RAID).unwrap().mdraid().unwrap().path, RAID);
    assert_eq!(c.object(LOOP0).unwrap().loop_device().unwrap().path, LOOP0);
    assert_eq!(c.object(SDA1).unwrap().partition().unwrap().path, SDA1);
    assert_eq!(c.object(JOB1).unwrap().job().unwrap().path, JOB1);
}

#[test]
fn an_absent_interface_is_the_one_not_found_error() {
    let c = snapshot();
    let sda = c.object(SDA).unwrap();
    assert_eq!(sda.drive().err(), Some(not_found()));
    assert_eq!(sda.partition().err(), Some(not_found()));
    assert_eq!(sda.loop_device().err(), Some(not_found()));
    assert_eq!(sda.mdraid().err(), Some(not_found()));
    assert_eq!(sda.job().err(), Some(not_found()));
    let drive = c.object(DRIVE).unwrap();
    assert_eq!(drive.block().err(), Some(not_found()));
    assert_eq!(drive.partition_table().err(), Some(not_found()));
    let bare = Object::new("/bare");
    assert_eq!(bare.block().err(), Some(not_found()));
    assert_eq!(bare.drive().err(), Some(not_found()));
}

#[test]
fn an_object_is_looked_up_by_its_path() {
    let c = snapshot();
    assert!(c.object(SDA).is_some());
    assert!(c.object("/org/freedesktop/UDisks2/block_devices/sdz").is_none());
    assert!(c.object("").is_none());
    assert_eq!(c.object_manager().len(), 14);
    assert_eq!(c.object_at(2).unwrap().object_path(), SDA);
}

#[test]
fn the_first_of_two_objects_with_one_path_is_found() {
    let mut first = Object::new("/x");
    first.set_block(block("/dev/first"));
    let mut second = Object::new("/x");
    second.set_block(block("/dev/second"));
    let c = Client::untranslated(vec![first, second, Object::new("/y"), Object::new("/x")]);
    let found = c.object("/x").unwrap();
    assert_eq!(found.block().unwrap().preferred_device.as_deref(), Some("/dev/first"));
    let paths: Vec<&str> = c.object_manager().iter().map(|o| o.object_path().as_str()).collect();
    assert_eq!(paths, vec!["/x", "/y"]);
    assert_eq!(c.select(&Query::At("/x"), false), vec![0]);
}

#[test]
fn objects_with_paths_of_their_own_are_all_kept() {
    let kept = udisks2::client::keep_first_of_each_path(vec![
        Object::new("/a"),
        Object::new("/b"),
        Object::new("/c"),
    ]);
    let paths: Vec<&str> = kept.iter().map(|o| o.object_path().as_str()).collect();
    assert_eq!(paths, vec!["/a", "/b", "/c"]);
    assert!(udisks2::client::holds_path(&kept, "/b"));
    assert!(!udisks2::client::holds_path(&kept, "/d"));
    assert!(udisks2::client::keep_first_of_each_path(Vec::new()).is_empty());
    let c = snapshot();
    let blocks = c.block_for_label("data");
    assert_ne!(blocks[0].path, blocks[1].path);
}

#[test]
fn select_finds_positions_in_scan_order() {
    let c = snapshot();
    assert_eq!(c.select(&Query::TopLevelBlockOf(DRIVE), false), vec![2]);
    assert_eq!(c.select(&Query::PartitionIn(SDA), false), vec![1, 3]);
    assert_eq!(c.select(&Query::PartitionIn(SDA), true), vec![1]);
    assert_eq!(c.select(&Query::At(RAID), false), vec![5]);
    assert_eq!(c.select(&Query::BlockWithLabel("data"), false), vec![1, 3]);
    assert_eq!(c.select(&Query::BlockWithUuid("1111"), false), vec![1]);
    assert_eq!(c.select(&Query::BlockWithDeviceNumber(2048), true), vec![2]);
    assert_eq!(c.select(&Query::CleartextOf(SDA1), false), vec![11]);
    assert_eq!(c.select(&Query::DriveWithSiblingId("reader-1"), false), vec![0]);
    assert_eq!(c.select(&Query::JobOn(SDB), false), vec![12, 13]);
    assert_eq!(c.select(&Query::JobOn(SDA), false), Vec::<usize>::new());
    assert_eq!(
        c.select(&Query::RaidBlock { raid: RAID, members: false, skip_partitions: false }, false),
        vec![6, 7, 8]
    );
    assert!(Query::At(SDA).accepts(c.object_at(2).unwrap()));
    assert!(!Query::At(SDA).accepts(c.object_at(1).unwrap()));
}

#[test]
fn the_block_of_a_drive_is_its_first_top_level_block() {
    let c = snapshot();
    let drive = c.object(DRIVE).unwrap().drive().unwrap();
    let found = c.block_for_drive(drive, true).unwrap();
    assert_eq!(found.preferred_device.as_deref(), Some("/dev/sda"));
    let logical = c.block_for_drive(drive, false).unwrap();
    assert_eq!(logical.preferred_device.as_deref(), Some("/dev/sda"));
    assert_eq!(devices(&c.top_level_blocks_for_drive(DRIVE)), vec!["/dev/sda"]);
    let other = Drive::new("/org/freedesktop/UDisks2/drives/other".to_string());
    assert!(c.block_for_drive(&other, true).is_none());
}

#[test]
fn with_several_top_level_blocks_the_first_of_the_scan_is_taken() {
    let mut drive = Object::new(DRIVE);
    drive.set_drive(Drive::new(String::new()));
    let mut a = Object::new("/a");
    let mut b = block("/dev/sdx");
    b.drive = Some(DRIVE.to_string());
    a.set_block(b);
    let mut z = Object::new("/z");
    let mut b = block("/dev/sdy");
    b.drive = Some(DRIVE.to_string());
    z.set_block(b);
    let c = Client::untranslated(vec![z, drive, a]);
    let d = c.object(DRIVE).unwrap().drive().unwrap();
    assert_eq!(c.block_for_drive(d, true).unwrap().preferred_device.as_deref(), Some("/dev/sdy"));
    assert_eq!(devices(&c.top_level_blocks_for_drive(DRIVE)), vec!["/dev/sdy", "/dev/sdx"]);
}

#[test]
fn the_drive_of_a_block_is_one_hop_away() {
    let c = snapshot();
    let sda1 = c.object(SDA1).unwrap().block().unwrap();
    assert_eq!(c.drive_for_block(sda1).unwrap().path, DRIVE);
    let md0 = c.object(MD0).unwrap().block().unwrap();
    assert_eq!(c.drive_for_block(md0).err(), Some(not_found()));
    let sdb = c.object(SDB).unwrap().block().unwrap();
    assert_eq!(c.drive_for_block(sdb).err(), Some(not_found()));
    let mut odd = block("/dev/odd");
    odd.drive = Some(SDA.to_string());
    assert_eq!(c.drive_for_block(&odd).err(), Some(not_found()));
}

#[test]
fn the_cleartext_block_is_found_by_a_scan() {
    let c = snapshot();
    let sda1 = c.object(SDA1).unwrap().block().unwrap();
    assert_eq!(c.cleartext_block(sda1).unwrap().preferred_device.as_deref(), Some("/dev/dm-0"));
    let sda = c.object(SDA).unwrap().block().unwrap();
    assert!(c.cleartext_block(sda).is_none());
}

#[test]
fn the_table_of_a_partition_must_exist() {
    let c = snapshot();
    let p = c.object(SDA1).unwrap().partition().unwrap();
    assert_eq!(c.partition_table(p).unwrap().path, SDA);
    assert_eq!(c.partition_table(p).unwrap().table_type, "gpt");
    let orphan = partition(1, "/nowhere");
    assert_eq!(c.partition_table(&orphan).err(), Some(not_found()));
    let mut none = partition(1, "");
    none.table = None;
    assert_eq!(c.partition_table(&none).err(), Some(not_found()));
    let wrong = partition(1, SDA1);
    assert_eq!(c.partition_table(&wrong).err(), Some(not_found()));
}

#[test]
fn the_partitions_of_a_table_come_in_scan_order() {
    let c = snapshot();
    let t = c.object(SDA).unwrap().partition_table().unwrap();
    let numbers: Vec<u32> = c.partitions(t).iter().map(|p| p.number).collect();
    assert_eq!(numbers, vec![1, 2]);
    let paths: Vec<&str> = c.partitions(t).iter().map(|p| p.path.as_str()).collect();
    assert_eq!(paths, vec![SDA1, SDA2]);
    let empty = PartitionTable { path: "/nowhere".to_string(), table_type: "gpt".to_string() };
    assert!(c.partitions(&empty).is_empty());
}

#[test]
fn the_loop_of_a_block_is_its_own_or_that_of_its_table() {
    let c = snapshot();
    let loop0 = c.object(LOOP0).unwrap().block().unwrap();
    assert_eq!(c.loop_for_block(loop0).unwrap().backing_file.as_deref(), Some("/tmp/a.iso"));
    let part = c.object(LOOP0P1).unwrap().block().unwrap();
    assert_eq!(c.loop_for_block(part).unwrap().path, LOOP0);
    let sda1 = c.object(SDA1).unwrap().block().unwrap();
    assert_eq!(c.loop_for_block(sda1).err(), Some(not_found()));
    let sda = c.object(SDA).unwrap().block().unwrap();
    assert_eq!(c.loop_for_block(sda).err(), Some(not_found()));
    let stray = Block::new("/stray".to_string());
    assert_eq!(c.loop_for_block(&stray).err(), Some(not_found()));
}

#[test]
fn siblings_share_a_sibling_id() {
    let mut objects = Vec::new();
    for (path, id) in [("/d/a", "card"), ("/d/b", ""), ("/d/c", "card"), ("/d/d", "other")] {
        let mut o = Object::new(path);
        let mut d = Drive::new(String::new());
        d.sibling_id = id.to_string();
        o.set_drive(d);
        objects.push(o);
    }
    let c = Client::untranslated(objects);
    let a = c.object("/d/a").unwrap().drive().unwrap();
    let paths: Vec<&str> = c.drive_siblings(a).iter().map(|d| d.path.as_str()).collect();
    assert_eq!(paths, vec!["/d/a", "/d/c"]);
    let b = c.object("/d/b").unwrap().drive().unwrap();
    assert!(c.drive_siblings(b).is_empty());
    let d = c.object("/d/d").unwrap().drive().unwrap();
    assert_eq!(c.drive_siblings(d).len(), 1);
}

#[test]
fn the_devices_of_an_array_and_its_members_are_told_apart() {
    let c = snapshot();
    let raid = c.object(RAID).unwrap().mdraid().unwrap();
    assert_eq!(c.block_for_mdraid(raid).unwrap().preferred_device.as_deref(), Some("/dev/md0"));
    assert_eq!(devices(&c.all_blocks_for_mdraid(raid)), vec!["/dev/md0", "/dev/md1"]);
    assert_eq!(devices(&c.members_for_mdraid(raid)), vec!["/dev/sda2", "/dev/sdb"]);
    assert_eq!(
        devices(&c.block_or_blocks_for_mdraid(raid, false, false, false)),
        vec!["/dev/md0p1", "/dev/md0", "/dev/md1"]
    );
    assert_eq!(devices(&c.block_or_blocks_for_mdraid(raid, false, true, false)), vec!["/dev/md0p1"]);
    assert_eq!(devices(&c.block_or_blocks_for_mdraid(raid, true, true, false)), vec!["/dev/sda2"]);
    assert_eq!(devices(&c.block_or_blocks_for_mdraid(raid, true, false, true)), vec!["/dev/sdb"]);
    let stopped = MDRaid {
        path: "/org/freedesktop/UDisks2/mdraid/none".to_string(),
        name: String::new(),
        uuid: String::new(),
        level: None,
        size: None,
    };
    assert!(c.block_for_mdraid(&stopped).is_none());
    assert!(c.all_blocks_for_mdraid(&stopped).is_empty());
    assert!(c.members_for_mdraid(&stopped).is_empty());
}

#[test]
fn no_block_is_both_device_and_member_of_one_array() {
    let c = snapshot();
    let raid = c.object(RAID).unwrap().mdraid().unwrap();
    let devices = c.block_or_blocks_for_mdraid(raid, false, false, false);
    let members = c.block_or_blocks_for_mdraid(raid, true, false, false);
    for d in &devices {
        for m in &members {
            assert_ne!(d.path, m.path);
        }
    }
}

#[test]
fn the_array_of_a_block_is_the_one_it_is_the_device_of() {
    let c = snapshot();
    let md0 = c.object(MD0).unwrap().block().unwrap();
    assert_eq!(c.mdraid_for_block(md0).unwrap().uuid, "abc");
    let member = c.object(SDB).unwrap().block().unwrap();
    assert_eq!(c.mdraid_for_block(member).err(), Some(not_found()));
}

#[test]
fn blocks_are_found_by_number_label_and_uuid() {
    let c = snapshot();
    assert_eq!(c.block_for_dev(2049).unwrap().preferred_device.as_deref(), Some("/dev/sda1"));
    assert!(c.block_for_dev(1).is_none());
    assert_eq!(devices(&c.block_for_label("data")), vec!["/dev/sda1", "/dev/sda2"]);
    assert!(c.block_for_label("none").is_empty());
    assert_eq!(devices(&c.block_for_uuid("1111")), vec!["/dev/sda1"]);
    assert!(c.block_for_uuid("").is_empty());
}

#[test]
fn the_jobs_of_an_object_are_those_that_name_it() {
    let c = snapshot();
    let sdb = c.object(SDB).unwrap();
    let ops: Vec<&str> = c.jobs_for_object(sdb).iter().map(|j| j.operation.as_str()).collect();
    assert_eq!(ops, vec!["filesystem-mount", "format-mkfs"]);
    let sda1 = c.object(SDA1).unwrap();
    assert_eq!(c.jobs_for_object(sda1).len(), 1);
    let sda = c.object(SDA).unwrap();
    assert!(c.jobs_for_object(sda).is_empty());
}

#[test]
fn an_empty_snapshot_answers_every_question_with_nothing() {
    let c = Client::untranslated(Vec::new());
    assert!(c.object(SDA).is_none());
    assert!(c.block_for_dev(0).is_none());
    assert!(c.block_for_label("x").is_empty());
    let d = Drive::new(DRIVE.to_string());
    assert!(c.block_for_drive(&d, true).is_none());
    assert!(c.drive_siblings(&d).is_empty());
    assert_eq!(c.drive_for_block(&Block::new(SDA.to_string())).err(), Some(not_found()));
}

#[test]
fn setting_an_interface_binds_it_and_keeps_its_properties() {
    let mut o = Object::new("/here");
    let mut b = Block::new("/elsewhere".to_string());
    b.size = Some(7);
    b.hint_name = "Hint".to_string();
    o.set_block(b);
    let got = o.block().unwrap();
    assert_eq!(got.path, "/here");
    assert_eq!(got.size, Some(7));
    assert_eq!(got.hint_name, "Hint");
    assert!(o.drive().is_err());
    o.set_drive(Drive::new("/elsewhere".to_string()));
    assert_eq!(o.drive().unwrap().path, "/here");
    assert_eq!(o.block().unwrap().size, Some(7));
}

#[test]
fn references_and_path_lists_are_compared_by_text() {
    assert!(udisks2::block::reference_is(&Some("/a".to_string()), "/a"));
    assert!(!udisks2::block::reference_is(&Some("/a".to_string()), "/b"));
    assert!(!udisks2::block::reference_is(&None, "/a"));
    let paths = vec!["/a".to_string(), "/b".to_string()];
    assert!(udisks2::client::contains_path(&paths, "/b"));
    assert!(!udisks2::client::contains_path(&paths, "/c"));
    assert!(!udisks2::client::contains_path(&Vec::new(), "/a"));
}

#[test]
fn an_interface_is_confirmed_for_an_object_or_not_found() {
    let mut objects = Vec::new();
    let mut sda = Object::new(SDA);
    sda.set_block(block("/dev/sda"));
    sda.expose(Interface::Filesystem);
    sda.expose(Interface::Block);
    sda.expose(Interface::Drive);
    objects.push(sda);
    let c = Client::untranslated(objects);
    assert_eq!(c.get_interface(SDA, Interface::Block).unwrap().object_path(), SDA);
    assert_eq!(c.get_interface(SDA, Interface::Filesystem).unwrap().object_path(), SDA);
    assert_eq!(c.get_interface(SDA, Interface::Drive).err(), Some(not_found()));
    assert_eq!(c.get_interface(SDA, Interface::Encrypted).err(), Some(not_found()));
    assert_eq!(c.get_interface(SDB, Interface::Block).err(), Some(not_found()));
    let sda = c.object(SDA).unwrap();
    assert!(sda.exposes(Interface::Block));
    assert!(sda.exposes(Interface::Filesystem));
    assert!(!sda.exposes(Interface::Drive));
    assert!(!sda.exposes(Interface::Swapspace));
    let full = snapshot();
    assert!(full.object(RAID).unwrap().exposes(Interface::MDRaid));
    assert!(full.object(LOOP0).unwrap().exposes(Interface::Loop));
    assert!(full.object(LOOP0).unwrap().exposes(Interface::PartitionTable));
    assert!(full.object(SDA1).unwrap().exposes(Interface::Partition));
    assert!(full.object(JOB1).unwrap().exposes(Interface::Job));
    assert!(full.object(DRIVE).unwrap().exposes(Interface::Drive));
    assert!(!full.object(DRIVE).unwrap().exposes(Interface::DriveAta));
}

#[test]
fn interfaces_have_the_names_of_the_service() {
    let all = [
        (Interface::Block, "org.freedesktop.UDisks2.Block", true),
        (Interface::Drive, "org.freedesktop.UDisks2.Drive", true),
        (Interface::DriveAta, "org.freedesktop.UDisks2.Drive.Ata", false),
        (Interface::Filesystem, "org.freedesktop.UDisks2.Filesystem", false),
        (Interface::Job, "org.freedesktop.UDisks2.Job", true),
        (Interface::Swapspace, "org.freedesktop.UDisks2.Swapspace", false),
        (Interface::Encrypted, "org.freedesktop.UDisks2.Encrypted", false),
        (Interface::Loop, "org.freedesktop.UDisks2.Loop", true),
        (Interface::ManagerNvme, "org.freedesktop.UDisks2.Manager.NVMe", false),
        (Interface::Partition, "org.freedesktop.UDisks2.Partition", true),
        (Interface::PartitionTable, "org.freedesktop.UDisks2.PartitionTable", true),
        (Interface::MDRaid, "org.freedesktop.UDisks2.MDRaid", true),
        (Interface::NvmeController, "org.freedesktop.UDisks2.NVMe.Controller", false),
        (Interface::NvmeNamespace, "org.freedesktop.UDisks2.NVMe.Namespace", false),
        (Interface::NvmeFabrics, "org.freedesktop.UDisks2.NVMe.Fabrics", false),
    ];
    for (interface, name, held) in all {
        assert_eq!(interface.name(), name);
        assert_eq!(Interface::from_name(name), Some(interface));
        assert_eq!(interface.is_held(), held);
    }
    assert_eq!(Interface::from_name("org.freedesktop.UDisks2.Manager"), None);
    assert_eq!(Interface::from_name(""), None);
}

#[test]
fn forward_and_reverse_lookups_agree() {
    let c = snapshot();
    let drive = c.object(DRIVE).unwrap().drive().unwrap();
    let block = c.block_for_drive(drive, true).unwrap();
    assert_eq!(c.drive_for_block(block).unwrap().path, drive.path);
    let raid = c.object(RAID).unwrap().mdraid().unwrap();
    let device = c.block_for_mdraid(raid).unwrap();
    assert_eq!(c.mdraid_for_block(device).unwrap().path, raid.path);
    let table = c.object(SDA).unwrap().partition_table().unwrap();
    for p in c.partitions(table) {
        assert_eq!(c.partition_table(p).unwrap().path, table.path);
    }
}
