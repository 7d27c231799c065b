//! What holds of the library as a whole.
use vstd::prelude::*;
use crate::client::{
    distinct_paths, first, lemma_matching, matching, picked, well_formed, ClientView, Scan,
};
use crate::object::ObjectView;
use crate::catalog::{lemma_fill_1, lemma_leaves, Domain};
use crate::drive::Drive;
use crate::object_info::{drive_info, numbered_key, wrapped, InfoView};
use crate::partition::Partition;
use crate::mdraid::MDRaid;
use crate::partitiontable::PartitionTable;
use crate::resolve::{blocks_at, drive_of, first_block, mdraid_of, table_of};
use crate::size::{rounded, shown_rank, unit_factor, unit_rank};
use crate::text::{decimal, marker_at, marker_from, replace_first};

verus! {

/// True when `a` stands before `b` in the order of strings: at the first
/// place where they differ `a` has the smaller character, or `a` ends there.
pub open spec fn sorts_before(a: Seq<char>, b: Seq<char>) -> bool {
    exists|i: int|
        0 <= i <= a.len() && i <= b.len() && #[trigger] a.subrange(0, i) == b.subrange(0, i) && (if i
            == a.len() {
            i < b.len()
        } else {
            i < b.len() && (a[i] as u32) < (b[i] as u32)
        })
}

/// True when no block device of the snapshot names one and the same array
/// both as the array it is the device of and as the array it is a member of.
pub open spec fn roles_distinct(objects: Seq<ObjectView>) -> bool {
    forall|i: int|
        0 <= i < objects.len() ==> ((#[trigger] objects[i]).block matches Some(b) ==> !(b.mdraid
            is Some && b.mdraid_member is Some && b.mdraid->0@ == b.mdraid_member->0@))
}

/// The devices of an array and its members have no object in common: in a
/// snapshot where no block plays both roles for one array, no position is
/// found both by a scan for the devices that the array runs as and by a scan
/// for its members, whatever else the two scans are asked to do.
pub proof fn lemma_raid_roles_disjoint(
    objects: Seq<ObjectView>,
    raid: Seq<char>,
    devices_first_only: bool,
    devices_skip_partitions: bool,
    members_first_only: bool,
    members_skip_partitions: bool,
)
    requires
        roles_distinct(objects),
    ensures
        forall|j: int, k: int|
            #![trigger
                picked(
                    objects,
                    Scan::RaidBlock {
                        raid,
                        members: false,
                        skip_partitions: devices_skip_partitions,
                    },
                    devices_first_only,
                )[j],
                picked(
                    objects,
                    Scan::RaidBlock { raid, members: true, skip_partitions: members_skip_partitions },
                    members_first_only,
                )[k]
            ]
            0 <= j < picked(
                objects,
                Scan::RaidBlock { raid, members: false, skip_partitions: devices_skip_partitions },
                devices_first_only,
            ).len() && 0 <= k < picked(
                objects,
                Scan::RaidBlock { raid, members: true, skip_partitions: members_skip_partitions },
                members_first_only,
            ).len() ==> picked(
                objects,
                Scan::RaidBlock { raid, members: false, skip_partitions: devices_skip_partitions },
                devices_first_only,
            )[j] != picked(
                objects,
                Scan::RaidBlock { raid, members: true, skip_partitions: members_skip_partitions },
                members_first_only,
            )[k],
{
    let devices = Scan::RaidBlock {
        raid,
        members: false,
        skip_partitions: devices_skip_partitions,
    };
    let members = Scan::RaidBlock { raid, members: true, skip_partitions: members_skip_partitions };
    lemma_matching(objects, devices, objects.len() as int);
    lemma_matching(objects, members, objects.len() as int);
    let a = picked(objects, devices, devices_first_only);
    let b = picked(objects, members, members_first_only);
    assert forall|j: int, k: int| 0 <= j < a.len() && 0 <= k < b.len() implies a[j] != b[k] by {
        // each position found is that of an object which its scan looks for
        assert(0 <= a[j] < objects.len() && devices.admits(objects[a[j]]));
        assert(0 <= b[k] < objects.len() && members.admits(objects[b[k]]));
    }
}

/// The numeral of a number from 1 on begins with a digit other than `0`.
pub proof fn lemma_decimal_leading(n: nat)
    requires
        n >= 1,
    ensures
        decimal(n).len() >= 1,
        ('0' as u32) < (decimal(n)[0] as u32),
    decreases n,
{
    if n >= 10 {
        lemma_decimal_leading(n / 10);
    }
}

/// Sort order of the four categories: whatever else their keys hold, the
/// key of a drive sorts before that of an array, of a plain block device
/// and of a loop device; that of an array before that of a block device and
/// of a loop device; and that of a block device before that of a loop
/// device.
pub proof fn lemma_sort_order_of_categories(
    drive_sort_key: Seq<char>,
    uuid: Seq<char>,
    raid_partition: nat,
    block_segment: Seq<char>,
    block_partition: nat,
    loop_segment: Seq<char>,
    loop_partition: nat,
)
    ensures
        sorts_before(
            "00_drive_"@ + drive_sort_key,
            numbered_key("01_mdraid_"@, uuid, raid_partition),
        ),
        sorts_before(
            "00_drive_"@ + drive_sort_key,
            numbered_key("02_block_"@, block_segment, block_partition),
        ),
        sorts_before(
            "00_drive_"@ + drive_sort_key,
            numbered_key("03_loop_"@, loop_segment, loop_partition),
        ),
        sorts_before(
            numbered_key("01_mdraid_"@, uuid, raid_partition),
            numbered_key("02_block_"@, block_segment, block_partition),
        ),
        sorts_before(
            numbered_key("01_mdraid_"@, uuid, raid_partition),
            numbered_key("03_loop_"@, loop_segment, loop_partition),
        ),
        sorts_before(
            numbered_key("02_block_"@, block_segment, block_partition),
            numbered_key("03_loop_"@, loop_segment, loop_partition),
        ),
{
    reveal_strlit("00_drive_");
    reveal_strlit("01_mdraid_");
    reveal_strlit("02_block_");
    reveal_strlit("03_loop_");
    let d = "00_drive_"@ + drive_sort_key;
    let r = numbered_key("01_mdraid_"@, uuid, raid_partition);
    let b = numbered_key("02_block_"@, block_segment, block_partition);
    let l = numbered_key("03_loop_"@, loop_segment, loop_partition);
    // the keys agree in their first character and differ in their second
    assert(d.subrange(0, 1) =~= r.subrange(0, 1));
    assert(d.subrange(0, 1) =~= b.subrange(0, 1));
    assert(d.subrange(0, 1) =~= l.subrange(0, 1));
    assert(r.subrange(0, 1) =~= b.subrange(0, 1));
    assert(r.subrange(0, 1) =~= l.subrange(0, 1));
    assert(b.subrange(0, 1) =~= l.subrange(0, 1));
}

/// Within a category, the key of a whole device sorts before the key of each
/// of its partitions: where the rest of two keys is equal, partition number
/// 0 sorts before every number from 1 on.
pub proof fn lemma_whole_device_sorts_first(prefix: Seq<char>, segment: Seq<char>, number: nat)
    requires
        number >= 1,
    ensures
        sorts_before(numbered_key(prefix, segment, 0), numbered_key(prefix, segment, number)),
{
    lemma_decimal_leading(number);
    let whole = numbered_key(prefix, segment, 0);
    let part = numbered_key(prefix, segment, number);
    let i = (prefix.len() + segment.len() + 1) as int;
    assert(whole.subrange(0, i) =~= part.subrange(0, i));
}

/// Hints win, and building twice changes nothing: where the block device of
/// a drive carries a name hint, the description of the media is the hint; so
/// is the description of the drive itself, unless it is wrapped as that of a
/// partition; an icon hint that is not empty is the name of both icons; and
/// what a second build makes of the outcome of a first is that outcome.
pub proof fn lemma_hint_override(
    client: ClientView,
    before: InfoView,
    drive: Drive,
    partition: Option<&Partition>,
)
    requires
        first_block(client.objects, Scan::TopLevelBlockOf(drive.path@)) matches Some(b)
            && b.hint_name@.len() > 0,
    ensures
        ({
            let block = first_block(client.objects, Scan::TopLevelBlockOf(drive.path@))->0;
            let once = drive_info(client, before, drive, partition);
            &&& drive_info(client, once, drive, partition) == once
            &&& once.media_description == Some(block.hint_name@)
            &&& partition is None ==> once.description == Some(block.hint_name@)
            &&& block.hint_icon_name@.len() > 0 ==> once.icon.name == Some(block.hint_icon_name@)
                && once.media_icon.name == Some(block.hint_icon_name@)
            &&& block.hint_symbolic_icon_name@.len() > 0 ==> once.icon.name_symbolic == Some(
                block.hint_symbolic_icon_name@,
            ) && once.media_icon.name_symbolic == Some(block.hint_symbolic_icon_name@)
        }),
{
}

/// No character of a numeral is a percent sign.
pub proof fn lemma_decimal_plain(n: nat)
    ensures
        decimal(n).len() >= 1,
        forall|i: int| 0 <= i < decimal(n).len() ==> decimal(n)[i] != '%',
    decreases n,
{
    if n >= 10 {
        lemma_decimal_plain(n / 10);
    }
}

/// The first marker is where a marker stands that has none before it.
pub proof fn lemma_marker_is(s: Seq<char>, kind: char, from: int, at: int)
    requires
        0 <= from <= at,
        marker_at(s, kind, at),
        forall|j: int| from <= j < at ==> !marker_at(s, kind, j),
    ensures
        marker_from(s, kind, from) == at,
    decreases at - from,
{
    if from < at {
        lemma_marker_is(s, kind, from + 1, at);
    }
}

/// Wrapping composes: where the catalog leaves the wrapping message as
/// written, the description of a partition is `Partition `, the number of
/// the partition, ` of `, and the description of the device it is a
/// partition of.
pub proof fn lemma_wrapped(
    catalog: crate::catalog::Catalog,
    context: Seq<char>,
    description: Seq<char>,
    partition: Partition,
)
    requires
        catalog.leaves(Domain::Default, Some(context), "Partition %u of %s"@),
    ensures
        wrapped(catalog, context, description, Some(&partition)) == "Partition "@ + decimal(
            partition.number as nat,
        ) + " of "@ + description,
{
    reveal_strlit("Partition %u of %s");
    reveal_strlit("Partition ");
    reveal_strlit(" of ");
    let template = "Partition %u of %s"@;
    lemma_leaves(catalog, Domain::Default, Some(context), template);
    let number = decimal(partition.number as nat);
    lemma_decimal_plain(partition.number as nat);
    lemma_marker_is(template, 'u', 0, 10);
    let numbered = replace_first(template, 'u', number);
    reveal_strlit(" of %s");
    assert(numbered =~= "Partition "@ + number + " of %s"@);
    let at = (10 + number.len() + 4) as int;
    assert forall|j: int| 0 <= j < at implies !marker_at(numbered, 's', j) by {}
    lemma_marker_is(numbered, 's', 0, at);
    lemma_fill_1(numbered, description);
}

/// Partition wrapping composes for drives: where the catalog leaves the
/// wrapping message as written, the description of a partition of a drive is
/// `Partition `, the number, ` of `, and the description that the same
/// drive has when it is shown whole.
pub proof fn lemma_partition_wrapping(
    client: ClientView,
    before: InfoView,
    drive: Drive,
    partition: Partition,
)
    requires
        client.catalog.leaves(Domain::Default, Some("part-drive"@), "Partition %u of %s"@),
    ensures
        drive_info(client, before, drive, Some(&partition)).description == Some(
            "Partition "@ + decimal(partition.number as nat) + " of "@ + drive_info(
                client,
                before,
                drive,
                None,
            ).description->0,
        ),
{
    lemma_wrapped(
        client.catalog,
        "part-drive"@,
        drive_info(client, before, drive, None).description->0,
        partition,
    );
}

/// A size is shown in a unit in which it reads as at least one and as less
/// than a thousand (1024 in binary units): below the largest unit, the
/// number shown is at least 1.0 where it has a decimal digit, at least 10
/// where it has none, and never reaches the number of units that make up
/// the next unit. Bytes are shown as they are.
pub proof fn lemma_size_within_unit(size: nat, pow2: bool)
    ensures
        0 <= unit_rank(size, pow2) <= shown_rank(size, pow2) <= unit_rank(size, pow2) + 1,
        shown_rank(size, pow2) <= 4,
        ({
            let rank = shown_rank(size, pow2);
            let factor = unit_factor(pow2, rank);
            let base = unit_factor(pow2, 1);
            if rank == 0 {
                size < base
            } else if size < 10 * factor {
                10 <= rounded(size * 10, factor) <= 100
            } else {
                10 <= rounded(size, factor) && (rank < 4 ==> rounded(size, factor) < base)
            }
        }),
{
    let rank = unit_rank(size, pow2);
    if pow2 {
        if rank == 1 {
            lemma_rounded_within(size, 1024, 1024);
        } else if rank == 2 {
            lemma_rounded_within(size, 1048576, 1024);
        } else if rank == 3 {
            lemma_rounded_within(size, 1073741824, 1024);
        } else if rank == 4 {
            lemma_rounded_within(size, 1099511627776, 1024);
        }
    } else {
        if rank == 1 {
            lemma_rounded_within(size, 1000, 1000);
        } else if rank == 2 {
            lemma_rounded_within(size, 1000000, 1000);
        } else if rank == 3 {
            lemma_rounded_within(size, 1000000000, 1000);
        } else if rank == 4 {
            lemma_rounded_within(size, 1000000000000, 1000);
        }
    }
}

/// Rounding keeps a size within its unit: a size of at least one unit shows
/// as at least 1.0, one below ten units as at most 10.0, and one that rounds
/// up to a full next unit shows as 1.0 of that unit.
proof fn lemma_rounded_within(size: nat, factor: nat, base: nat)
    requires
        factor >= 1,
        base >= 10,
        size >= factor,
    ensures
        size < 10 * factor ==> 10 <= rounded(size * 10, factor) <= 100,
        size >= 10 * factor ==> 10 <= rounded(size, factor),
        size < factor * base && rounded(size, factor) >= base ==> 10 <= rounded(
            size * 10,
            factor * base,
        ) <= 100,
{
    assert(size < 10 * factor ==> 10 <= (2 * (size * 10) + factor) / (2 * factor) <= 100)
        by (nonlinear_arith)
        requires
            factor >= 1,
            size >= factor,
    ;
    assert(size >= 10 * factor ==> 10 <= (2 * size + factor) / (2 * factor)) by (nonlinear_arith)
        requires
            factor >= 1,
            size >= factor,
    ;
    assert(size < factor * base && (2 * size + factor) / (2 * factor) >= base ==> 10 <= (2 * (size
        * 10) + factor * base) / (2 * (factor * base)) <= 100) by (nonlinear_arith)
        requires
            factor >= 1,
            base >= 10,
            size >= factor,
    ;
}

/// Forward and reverse lookup agree for drives: where a drive is what a
/// lookup of its path finds, the block device found for the drive leads
/// back to the drive.
pub proof fn lemma_block_of_drive_leads_back(objects: Seq<ObjectView>, drive: Drive)
    requires
        first(objects, Scan::At(drive.path@)) matches Some(o) && o.drive == Some(drive),
    ensures
        first_block(objects, Scan::TopLevelBlockOf(drive.path@)) matches Some(b) ==> drive_of(
            objects,
            b,
        ) == Ok::<Drive, crate::error::Error>(drive),
{
    lemma_matching(objects, Scan::TopLevelBlockOf(drive.path@), objects.len() as int);
}

/// Forward and reverse lookup agree for arrays: where an array is what a
/// lookup of its path finds, the block device that the array runs as leads
/// back to the array.
pub proof fn lemma_block_of_array_leads_back(objects: Seq<ObjectView>, mdraid: MDRaid)
    requires
        first(objects, Scan::At(mdraid.path@)) matches Some(o) && o.mdraid == Some(mdraid),
    ensures
        first_block(
            objects,
            Scan::RaidBlock { raid: mdraid.path@, members: false, skip_partitions: true },
        ) matches Some(b) ==> mdraid_of(objects, b) == Ok::<MDRaid, crate::error::Error>(mdraid),
{
    lemma_matching(
        objects,
        Scan::RaidBlock { raid: mdraid.path@, members: false, skip_partitions: true },
        objects.len() as int,
    );
}

/// Forward and reverse lookup agree for partition tables: where a table is
/// what a lookup of its path finds, each partition found for the table
/// leads back to the table.
pub proof fn lemma_partitions_lead_back(objects: Seq<ObjectView>, table: PartitionTable, j: int)
    requires
        first(objects, Scan::At(table.path@)) matches Some(o) && o.partition_table == Some(table),
        0 <= j < picked(objects, Scan::PartitionIn(table.path@), false).len(),
    ensures
        table_of(
            objects,
            objects[picked(objects, Scan::PartitionIn(table.path@), false)[j]].partition->0,
        ) == Ok::<PartitionTable, crate::error::Error>(table),
{
    lemma_matching(objects, Scan::PartitionIn(table.path@), objects.len() as int);
    let all = matching(objects, Scan::PartitionIn(table.path@), objects.len() as int);
    assert(Scan::PartitionIn(table.path@).admits(objects[all[j]]));
}

/// A snapshot maps each path to one object: where no path occurs twice, a
/// lookup by path finds at most one object, and it finds every object by
/// its own path.
pub proof fn lemma_one_object_per_path(objects: Seq<ObjectView>, i: int)
    requires
        distinct_paths(objects),
        0 <= i < objects.len(),
    ensures
        matching(objects, Scan::At(objects[i].path), objects.len() as int) == seq![i],
        first(objects, Scan::At(objects[i].path)) == Some(objects[i]),
{
    let query = Scan::At(objects[i].path);
    let all = matching(objects, query, objects.len() as int);
    lemma_matching(objects, query, objects.len() as int);
    assert(all.contains(i));
    assert forall|j: int| 0 <= j < all.len() implies all[j] == i by {
        if all[j] < i {
            assert(objects[all[j]].path != objects[i].path);
        } else if all[j] > i {
            assert(objects[i].path != objects[all[j]].path);
        }
    }
    if all.len() > 1 {
        assert(all[0] < all[1]);
    }
    assert(all =~= seq![i]);
}

/// The block devices that a scan finds have paths of their own: in a
/// snapshot, no two of them have one path.
pub proof fn lemma_found_blocks_have_distinct_paths(
    objects: Seq<ObjectView>,
    query: Scan,
    first_only: bool,
)
    requires
        well_formed(objects),
        forall|o: ObjectView| query.admits(o) ==> o.block is Some,
    ensures
        forall|j: int, k: int|
            0 <= j < k < picked(objects, query, first_only).len() ==> blocks_at(
                objects,
                picked(objects, query, first_only),
            )[j].path@ != blocks_at(objects, picked(objects, query, first_only))[k].path@,
{
    lemma_matching(objects, query, objects.len() as int);
    let found = picked(objects, query, first_only);
    let blocks = blocks_at(objects, found);
    assert forall|j: int, k: int| 0 <= j < k < found.len() implies blocks[j].path@
        != blocks[k].path@ by {
        assert(0 <= found[j] < found[k] < objects.len());
        assert(query.admits(objects[found[j]]) && query.admits(objects[found[k]]));
        assert(objects[found[j]].bound() && objects[found[k]].bound());
    }
}

/// The devices of an array and its members have no path in common: in a
/// snapshot where no block plays both roles for one array, no block device
/// that the array runs as has the path of one of its members.
pub proof fn lemma_raid_roles_share_no_path(
    objects: Seq<ObjectView>,
    raid: Seq<char>,
    devices_first_only: bool,
    devices_skip_partitions: bool,
    members_first_only: bool,
    members_skip_partitions: bool,
)
    requires
        well_formed(objects),
        roles_distinct(objects),
    ensures
        ({
            let devices = picked(
                objects,
                Scan::RaidBlock { raid, members: false, skip_partitions: devices_skip_partitions },
                devices_first_only,
            );
            let members = picked(
                objects,
                Scan::RaidBlock { raid, members: true, skip_partitions: members_skip_partitions },
                members_first_only,
            );
            forall|j: int, k: int|
                0 <= j < devices.len() && 0 <= k < members.len() ==> (#[trigger] blocks_at(
                    objects,
                    devices,
                )[j]).path@ != (#[trigger] blocks_at(objects, members)[k]).path@
        }),
{
    let device_scan = Scan::RaidBlock {
        raid,
        members: false,
        skip_partitions: devices_skip_partitions,
    };
    let member_scan = Scan::RaidBlock {
        raid,
        members: true,
        skip_partitions: members_skip_partitions,
    };
    lemma_matching(objects, device_scan, objects.len() as int);
    lemma_matching(objects, member_scan, objects.len() as int);
    lemma_raid_roles_disjoint(
        objects,
        raid,
        devices_first_only,
        devices_skip_partitions,
        members_first_only,
        members_skip_partitions,
    );
    let devices = picked(objects, device_scan, devices_first_only);
    let members = picked(objects, member_scan, members_first_only);
    assert forall|j: int, k: int| 0 <= j < devices.len() && 0 <= k < members.len() implies (
    #[trigger] blocks_at(objects, devices)[j]).path@ != (#[trigger] blocks_at(
        objects,
        members,
    )[k]).path@ by {
        let a = devices[j];
        let b = members[k];
        assert(0 <= a < objects.len() && device_scan.admits(objects[a]));
        assert(0 <= b < objects.len() && member_scan.admits(objects[b]));
        assert(a != b);
        assert(objects[a].bound() && objects[b].bound());
        if a < b {
            assert(objects[a].path != objects[b].path);
        } else {
            assert(objects[b].path != objects[a].path);
        }
    }
}

} // verus!
