//! The known types of partitions, and what a partition is described as.
use vstd::prelude::*;
use vstd::string::*;
use crate::catalog::{Catalog, Domain};
use crate::client::Client;
use crate::error::Error;
use crate::partition::{Partition, PartitionFlags};
use crate::resolve::table_of;
use crate::text::chars_of;

verus! {

/// A known type of partition.
#[derive(Clone, Copy, Debug)]
pub struct PartitionTypeInfo {
    /// The scheme of the partition table, such as `dos` or `gpt`.
    pub table_type: &'static str,
    /// The subtype of the table that the type belongs to, such as `linux`.
    pub table_subtype: &'static str,
    /// The type as the table records it.
    pub ty: &'static str,
    /// What the type is called.
    pub name: &'static str,
}

/// Number of known partition types.
pub const PARTITION_TYPES_LEN: usize = 59;

/// Row `i` of the table of known partition types.
pub open spec fn partition_type(i: int) -> PartitionTypeInfo {
    if i == 0 {
        PartitionTypeInfo {
            table_type: "gpt",
            table_subtype: "generic",
            ty: "024dee41-33e7-11d3-9d69-0008c781f39f",
            name: "MBR Partition Scheme",
        }
    } else if i == 1 {
        PartitionTypeInfo {
            table_type: "gpt",
            table_subtype: "generic",
            ty: "c12a7328-f81f-11d2-ba4b-00a0c93ec93b",
            name: "EFI System",
        }
    } else if i == 2 {
        PartitionTypeInfo {
            table_type: "gpt",
            table_subtype: "generic",
            ty: "21686148-6449-6e6f-744e-656564454649",
            name: "BIOS Boot",
        }
    } else if i == 3 {
        PartitionTypeInfo {
            table_type: "gpt",
            table_subtype: "linux",
            ty: "0fc63daf-8483-4772-8e79-3d69d8477de4",
            name: "Linux Filesystem",
        }
    } else if i == 4 {
        PartitionTypeInfo {
            table_type: "gpt",
            table_subtype: "linux",
            ty: "a19d880f-05fc-4d3b-a006-743f0f84911e",
            name: "Linux RAID",
        }
    } else if i == 5 {
        PartitionTypeInfo {
            table_type: "gpt",
            table_subtype: "linux",
            ty: "0657fd6d-a4ab-43c4-84e5-0933c84b4f4f",
            name: "Linux Swap",
        }
    } else if i == 6 {
        PartitionTypeInfo {
            table_type: "gpt",
            table_subtype: "linux",
            ty: "e6d6d379-f507-44c2-a23c-238f2a3df928",
            name: "Linux LVM",
        }
    } else if i == 7 {
        PartitionTypeInfo {
            table_type: "gpt",
            table_subtype: "linux",
            ty: "8da63339-0007-60c0-c436-083ac8230908",
            name: "Linux Reserved",
        }
    } else if i == 8 {
        PartitionTypeInfo {
            table_type: "gpt",
            table_subtype: "microsoft",
            ty: "e3c9e316-0b5c-4db8-817d-f92df00215ae",
            name: "Microsoft Reserved",
        }
    } else if i == 9 {
        PartitionTypeInfo {
            table_type: "gpt",
            table_subtype: "microsoft",
            ty: "ebd0a0a2-b9e5-4433-87c0-68b6b72699c7",
            name: "Microsoft Basic Data",
        }
    } else if i == 10 {
        PartitionTypeInfo {
            table_type: "gpt",
            table_subtype: "microsoft",
            ty: "5808c8aa-7e8f-42e0-85d2-e1e90434cfb3",
            name: "Microsoft LDM metadata",
        }
    } else if i == 11 {
        PartitionTypeInfo {
            table_type: "gpt",
            table_subtype: "microsoft",
            ty: "af9b60a0-1431-4f62-bc68-3311714a69ad",
            name: "Microsoft LDM data",
        }
    } else if i == 12 {
        PartitionTypeInfo {
            table_type: "gpt",
            table_subtype: "microsoft",
            ty: "de94bba4-06d1-4d40-a16a-bfd50179d6ac",
            name: "Microsoft Windows Recovery Environment",
        }
    } else if i == 13 {
        PartitionTypeInfo {
            table_type: "gpt",
            table_subtype: "apple",
            ty: "48465300-0000-11aa-aa11-00306543ecac",
            name: "Apple HFS/HFS+",
        }
    } else if i == 14 {
        PartitionTypeInfo {
            table_type: "gpt",
            table_subtype: "apple",
            ty: "55465300-0000-11aa-aa11-00306543ecac",
            name: "Apple UFS",
        }
    } else if i == 15 {
        PartitionTypeInfo {
            table_type: "gpt",
            table_subtype: "apple",
            ty: "52414944-0000-11aa-aa11-00306543ecac",
            name: "Apple RAID",
        }
    } else if i == 16 {
        PartitionTypeInfo {
            table_type: "gpt",
            table_subtype: "apple",
            ty: "426f6f74-0000-11aa-aa11-00306543ecac",
            name: "Apple Boot",
        }
    } else if i == 17 {
        PartitionTypeInfo {
            table_type: "gpt",
            table_subtype: "apple",
            ty: "4c616265-6c00-11aa-aa11-00306543ecac",
            name: "Apple Label",
        }
    } else if i == 18 {
        PartitionTypeInfo { table_type: "dos", table_subtype: "generic", ty: "0x05", name: "Extended" }
    } else if i == 19 {
        PartitionTypeInfo { table_type: "dos", table_subtype: "generic", ty: "0xee", name: "EFI GPT" }
    } else if i == 20 {
        PartitionTypeInfo { table_type: "dos", table_subtype: "generic", ty: "0xef", name: "EFI (FAT-12/16/32)" }
    } else if i == 21 {
        PartitionTypeInfo { table_type: "dos", table_subtype: "linux", ty: "0x82", name: "Linux swap" }
    } else if i == 22 {
        PartitionTypeInfo { table_type: "dos", table_subtype: "linux", ty: "0x83", name: "Linux" }
    } else if i == 23 {
        PartitionTypeInfo { table_type: "dos", table_subtype: "linux", ty: "0x85", name: "Linux Extended" }
    } else if i == 24 {
        PartitionTypeInfo { table_type: "dos", table_subtype: "linux", ty: "0x8e", name: "Linux LVM" }
    } else if i == 25 {
        PartitionTypeInfo { table_type: "dos", table_subtype: "linux", ty: "0xfd", name: "Linux RAID auto" }
    } else if i == 26 {
        PartitionTypeInfo { table_type: "dos", table_subtype: "microsoft", ty: "0x01", name: "FAT12" }
    } else if i == 27 {
        PartitionTypeInfo { table_type: "dos", table_subtype: "microsoft", ty: "0x04", name: "FAT16 <32M" }
    } else if i == 28 {
        PartitionTypeInfo { table_type: "dos", table_subtype: "microsoft", ty: "0x06", name: "FAT16" }
    } else if i == 29 {
        PartitionTypeInfo { table_type: "dos", table_subtype: "microsoft", ty: "0x07", name: "NTFS/exFAT/HPFS" }
    } else if i == 30 {
        PartitionTypeInfo { table_type: "dos", table_subtype: "microsoft", ty: "0x0b", name: "W95 FAT32" }
    } else if i == 31 {
        PartitionTypeInfo { table_type: "dos", table_subtype: "microsoft", ty: "0x0c", name: "W95 FAT32 (LBA)" }
    } else if i == 32 {
        PartitionTypeInfo { table_type: "dos", table_subtype: "microsoft", ty: "0x0e", name: "W95 FAT16 (LBA)" }
    } else if i == 33 {
        PartitionTypeInfo { table_type: "dos", table_subtype: "microsoft", ty: "0x0f", name: "W95 Ext d (LBA)" }
    } else if i == 34 {
        PartitionTypeInfo { table_type: "dos", table_subtype: "microsoft", ty: "0x11", name: "Hidden FAT12" }
    } else if i == 35 {
        PartitionTypeInfo { table_type: "dos", table_subtype: "microsoft", ty: "0x14", name: "Hidden FAT16 <32M" }
    } else if i == 36 {
        PartitionTypeInfo { table_type: "dos", table_subtype: "microsoft", ty: "0x16", name: "Hidden FAT16" }
    } else if i == 37 {
        PartitionTypeInfo { table_type: "dos", table_subtype: "microsoft", ty: "0x17", name: "Hidden HPFS/NTFS" }
    } else if i == 38 {
        PartitionTypeInfo { table_type: "dos", table_subtype: "microsoft", ty: "0x1b", name: "Hidden W95 FAT32" }
    } else if i == 39 {
        PartitionTypeInfo {
            table_type: "dos",
            table_subtype: "microsoft",
            ty: "0x1c",
            name: "Hidden W95 FAT32 (LBA)",
        }
    } else if i == 40 {
        PartitionTypeInfo {
            table_type: "dos",
            table_subtype: "microsoft",
            ty: "0x1e",
            name: "Hidden W95 FAT16 (LBA)",
        }
    } else if i == 41 {
        PartitionTypeInfo { table_type: "dos", table_subtype: "other", ty: "0xa5", name: "FreeBSD" }
    } else if i == 42 {
        PartitionTypeInfo { table_type: "dos", table_subtype: "other", ty: "0xa6", name: "OpenBSD" }
    } else if i == 43 {
        PartitionTypeInfo { table_type: "dos", table_subtype: "other", ty: "0xa9", name: "NetBSD" }
    } else if i == 44 {
        PartitionTypeInfo { table_type: "dos", table_subtype: "other", ty: "0xa8", name: "Darwin UFS" }
    } else if i == 45 {
        PartitionTypeInfo { table_type: "dos", table_subtype: "other", ty: "0xaf", name: "Mac OS X" }
    } else if i == 46 {
        PartitionTypeInfo { table_type: "apm", table_subtype: "apple", ty: "Apple_Unix_SVR2", name: "Apple UFS" }
    } else if i == 47 {
        PartitionTypeInfo { table_type: "apm", table_subtype: "apple", ty: "Apple_HFS", name: "Apple HFS/HFS" }
    } else if i == 48 {
        PartitionTypeInfo {
            table_type: "apm",
            table_subtype: "apple",
            ty: "Apple_partition_map",
            name: "Apple Partition Map",
        }
    } else if i == 49 {
        PartitionTypeInfo { table_type: "apm", table_subtype: "apple", ty: "Apple_Free", name: "Unused" }
    } else if i == 50 {
        PartitionTypeInfo { table_type: "apm", table_subtype: "apple", ty: "Apple_Scratch", name: "Empty" }
    } else if i == 51 {
        PartitionTypeInfo { table_type: "apm", table_subtype: "apple", ty: "Apple_Driver", name: "Driver" }
    } else if i == 52 {
        PartitionTypeInfo { table_type: "apm", table_subtype: "apple", ty: "Apple_Driver43", name: "Driver 4.3" }
    } else if i == 53 {
        PartitionTypeInfo {
            table_type: "apm",
            table_subtype: "apple",
            ty: "Apple_PRODOS",
            name: "ProDOS file system",
        }
    } else if i == 54 {
        PartitionTypeInfo { table_type: "apm", table_subtype: "microsoft", ty: "DOS_FAT_12", name: "FAT 12" }
    } else if i == 55 {
        PartitionTypeInfo { table_type: "apm", table_subtype: "microsoft", ty: "DOS_FAT_16", name: "FAT 16" }
    } else if i == 56 {
        PartitionTypeInfo { table_type: "apm", table_subtype: "microsoft", ty: "DOS_FAT_32", name: "FAT 32" }
    } else if i == 57 {
        PartitionTypeInfo {
            table_type: "apm",
            table_subtype: "microsoft",
            ty: "Windows_FAT_16",
            name: "FAT 16 (Windows)",
        }
    } else {
        PartitionTypeInfo {
            table_type: "apm",
            table_subtype: "microsoft",
            ty: "Windows_FAT_32",
            name: "FAT 32 (Windows)",
        }
    }
}

/// Reads row `i` of the table of known partition types; the last one where `i` is beyond the end.
pub fn partition_type_at(i: usize) -> (r: PartitionTypeInfo)
    ensures
        r == partition_type(i as int),
{
    if i == 0 {
        PartitionTypeInfo {
            table_type: "gpt",
            table_subtype: "generic",
            ty: "024dee41-33e7-11d3-9d69-0008c781f39f",
            name: "MBR Partition Scheme",
        }
    } else if i == 1 {
        PartitionTypeInfo {
            table_type: "gpt",
            table_subtype: "generic",
            ty: "c12a7328-f81f-11d2-ba4b-00a0c93ec93b",
            name: "EFI System",
        }
    } else if i == 2 {
        PartitionTypeInfo {
            table_type: "gpt",
            table_subtype: "generic",
            ty: "21686148-6449-6e6f-744e-656564454649",
            name: "BIOS Boot",
        }
    } else if i == 3 {
        PartitionTypeInfo {
            table_type: "gpt",
            table_subtype: "linux",
            ty: "0fc63daf-8483-4772-8e79-3d69d8477de4",
            name: "Linux Filesystem",
        }
    } else if i == 4 {
        PartitionTypeInfo {
            table_type: "gpt",
            table_subtype: "linux",
            ty: "a19d880f-05fc-4d3b-a006-743f0f84911e",
            name: "Linux RAID",
        }
    } else if i == 5 {
        PartitionTypeInfo {
            table_type: "gpt",
            table_subtype: "linux",
            ty: "0657fd6d-a4ab-43c4-84e5-0933c84b4f4f",
            name: "Linux Swap",
        }
    } else if i == 6 {
        PartitionTypeInfo {
            table_type: "gpt",
            table_subtype: "linux",
            ty: "e6d6d379-f507-44c2-a23c-238f2a3df928",
            name: "Linux LVM",
        }
    } else if i == 7 {
        PartitionTypeInfo {
            table_type: "gpt",
            table_subtype: "linux",
            ty: "8da63339-0007-60c0-c436-083ac8230908",
            name: "Linux Reserved",
        }
    } else if i == 8 {
        PartitionTypeInfo {
            table_type: "gpt",
            table_subtype: "microsoft",
            ty: "e3c9e316-0b5c-4db8-817d-f92df00215ae",
            name: "Microsoft Reserved",
        }
    } else if i == 9 {
        PartitionTypeInfo {
            table_type: "gpt",
            table_subtype: "microsoft",
            ty: "ebd0a0a2-b9e5-4433-87c0-68b6b72699c7",
            name: "Microsoft Basic Data",
        }
    } else if i == 10 {
        PartitionTypeInfo {
            table_type: "gpt",
            table_subtype: "microsoft",
            ty: "5808c8aa-7e8f-42e0-85d2-e1e90434cfb3",
            name: "Microsoft LDM metadata",
        }
    } else if i == 11 {
        PartitionTypeInfo {
            table_type: "gpt",
            table_subtype: "microsoft",
            ty: "af9b60a0-1431-4f62-bc68-3311714a69ad",
            name: "Microsoft LDM data",
        }
    } else if i == 12 {
        PartitionTypeInfo {
            table_type: "gpt",
            table_subtype: "microsoft",
            ty: "de94bba4-06d1-4d40-a16a-bfd50179d6ac",
            name: "Microsoft Windows Recovery Environment",
        }
    } else if i == 13 {
        PartitionTypeInfo {
            table_type: "gpt",
            table_subtype: "apple",
            ty: "48465300-0000-11aa-aa11-00306543ecac",
            name: "Apple HFS/HFS+",
        }
    } else if i == 14 {
        PartitionTypeInfo {
            table_type: "gpt",
            table_subtype: "apple",
            ty: "55465300-0000-11aa-aa11-00306543ecac",
            name: "Apple UFS",
        }
    } else if i == 15 {
        PartitionTypeInfo {
            table_type: "gpt",
            table_subtype: "apple",
            ty: "52414944-0000-11aa-aa11-00306543ecac",
            name: "Apple RAID",
        }
    } else if i == 16 {
        PartitionTypeInfo {
            table_type: "gpt",
            table_subtype: "apple",
            ty: "426f6f74-0000-11aa-aa11-00306543ecac",
            name: "Apple Boot",
        }
    } else if i == 17 {
        PartitionTypeInfo {
            table_type: "gpt",
            table_subtype: "apple",
            ty: "4c616265-6c00-11aa-aa11-00306543ecac",
            name: "Apple Label",
        }
    } else if i == 18 {
        PartitionTypeInfo { table_type: "dos", table_subtype: "generic", ty: "0x05", name: "Extended" }
    } else if i == 19 {
        PartitionTypeInfo { table_type: "dos", table_subtype: "generic", ty: "0xee", name: "EFI GPT" }
    } else if i == 20 {
        PartitionTypeInfo { table_type: "dos", table_subtype: "generic", ty: "0xef", name: "EFI (FAT-12/16/32)" }
    } else if i == 21 {
        PartitionTypeInfo { table_type: "dos", table_subtype: "linux", ty: "0x82", name: "Linux swap" }
    } else if i == 22 {
        PartitionTypeInfo { table_type: "dos", table_subtype: "linux", ty: "0x83", name: "Linux" }
    } else if i == 23 {
        PartitionTypeInfo { table_type: "dos", table_subtype: "linux", ty: "0x85", name: "Linux Extended" }
    } else if i == 24 {
        PartitionTypeInfo { table_type: "dos", table_subtype: "linux", ty: "0x8e", name: "Linux LVM" }
    } else if i == 25 {
        PartitionTypeInfo { table_type: "dos", table_subtype: "linux", ty: "0xfd", name: "Linux RAID auto" }
    } else if i == 26 {
        PartitionTypeInfo { table_type: "dos", table_subtype: "microsoft", ty: "0x01", name: "FAT12" }
    } else if i == 27 {
        PartitionTypeInfo { table_type: "dos", table_subtype: "microsoft", ty: "0x04", name: "FAT16 <32M" }
    } else if i == 28 {
        PartitionTypeInfo { table_type: "dos", table_subtype: "microsoft", ty: "0x06", name: "FAT16" }
    } else if i == 29 {
        PartitionTypeInfo { table_type: "dos", table_subtype: "microsoft", ty: "0x07", name: "NTFS/exFAT/HPFS" }
    } else if i == 30 {
        PartitionTypeInfo { table_type: "dos", table_subtype: "microsoft", ty: "0x0b", name: "W95 FAT32" }
    } else if i == 31 {
        PartitionTypeInfo { table_type: "dos", table_subtype: "microsoft", ty: "0x0c", name: "W95 FAT32 (LBA)" }
    } else if i == 32 {
        PartitionTypeInfo { table_type: "dos", table_subtype: "microsoft", ty: "0x0e", name: "W95 FAT16 (LBA)" }
    } else if i == 33 {
        PartitionTypeInfo { table_type: "dos", table_subtype: "microsoft", ty: "0x0f", name: "W95 Ext d (LBA)" }
    } else if i == 34 {
        PartitionTypeInfo { table_type: "dos", table_subtype: "microsoft", ty: "0x11", name: "Hidden FAT12" }
    } else if i == 35 {
        PartitionTypeInfo { table_type: "dos", table_subtype: "microsoft", ty: "0x14", name: "Hidden FAT16 <32M" }
    } else if i == 36 {
        PartitionTypeInfo { table_type: "dos", table_subtype: "microsoft", ty: "0x16", name: "Hidden FAT16" }
    } else if i == 37 {
        PartitionTypeInfo { table_type: "dos", table_subtype: "microsoft", ty: "0x17", name: "Hidden HPFS/NTFS" }
    } else if i == 38 {
        PartitionTypeInfo { table_type: "dos", table_subtype: "microsoft", ty: "0x1b", name: "Hidden W95 FAT32" }
    } else if i == 39 {
        PartitionTypeInfo {
            table_type: "dos",
            table_subtype: "microsoft",
            ty: "0x1c",
            name: "Hidden W95 FAT32 (LBA)",
        }
    } else if i == 40 {
        PartitionTypeInfo {
            table_type: "dos",
            table_subtype: "microsoft",
            ty: "0x1e",
            name: "Hidden W95 FAT16 (LBA)",
        }
    } else if i == 41 {
        PartitionTypeInfo { table_type: "dos", table_subtype: "other", ty: "0xa5", name: "FreeBSD" }
    } else if i == 42 {
        PartitionTypeInfo { table_type: "dos", table_subtype: "other", ty: "0xa6", name: "OpenBSD" }
    } else if i == 43 {
        PartitionTypeInfo { table_type: "dos", table_subtype: "other", ty: "0xa9", name: "NetBSD" }
    } else if i == 44 {
        PartitionTypeInfo { table_type: "dos", table_subtype: "other", ty: "0xa8", name: "Darwin UFS" }
    } else if i == 45 {
        PartitionTypeInfo { table_type: "dos", table_subtype: "other", ty: "0xaf", name: "Mac OS X" }
    } else if i == 46 {
        PartitionTypeInfo { table_type: "apm", table_subtype: "apple", ty: "Apple_Unix_SVR2", name: "Apple UFS" }
    } else if i == 47 {
        PartitionTypeInfo { table_type: "apm", table_subtype: "apple", ty: "Apple_HFS", name: "Apple HFS/HFS" }
    } else if i == 48 {
        PartitionTypeInfo {
            table_type: "apm",
            table_subtype: "apple",
            ty: "Apple_partition_map",
            name: "Apple Partition Map",
        }
    } else if i == 49 {
        PartitionTypeInfo { table_type: "apm", table_subtype: "apple", ty: "Apple_Free", name: "Unused" }
    } else if i == 50 {
        PartitionTypeInfo { table_type: "apm", table_subtype: "apple", ty: "Apple_Scratch", name: "Empty" }
    } else if i == 51 {
        PartitionTypeInfo { table_type: "apm", table_subtype: "apple", ty: "Apple_Driver", name: "Driver" }
    } else if i == 52 {
        PartitionTypeInfo { table_type: "apm", table_subtype: "apple", ty: "Apple_Driver43", name: "Driver 4.3" }
    } else if i == 53 {
        PartitionTypeInfo {
            table_type: "apm",
            table_subtype: "apple",
            ty: "Apple_PRODOS",
            name: "ProDOS file system",
        }
    } else if i == 54 {
        PartitionTypeInfo { table_type: "apm", table_subtype: "microsoft", ty: "DOS_FAT_12", name: "FAT 12" }
    } else if i == 55 {
        PartitionTypeInfo { table_type: "apm", table_subtype: "microsoft", ty: "DOS_FAT_16", name: "FAT 16" }
    } else if i == 56 {
        PartitionTypeInfo { table_type: "apm", table_subtype: "microsoft", ty: "DOS_FAT_32", name: "FAT 32" }
    } else if i == 57 {
        PartitionTypeInfo {
            table_type: "apm",
            table_subtype: "microsoft",
            ty: "Windows_FAT_16",
            name: "FAT 16 (Windows)",
        }
    } else {
        PartitionTypeInfo {
            table_type: "apm",
            table_subtype: "microsoft",
            ty: "Windows_FAT_32",
            name: "FAT 32 (Windows)",
        }
    }
}

/// True when a row is of the scheme, and of the subtype where one is given.
pub open spec fn type_listed(
    row: PartitionTypeInfo,
    table_type: Seq<char>,
    table_subtype: Option<Seq<char>>,
) -> bool {
    &&& row.table_type@ == table_type
    &&& table_subtype matches Some(s) ==> row.table_subtype@ == s
}

/// The rows, among the first `upto`, of a scheme and (where one is given) a
/// subtype, in the order of the table.
pub open spec fn types_listed(
    table_type: Seq<char>,
    table_subtype: Option<Seq<char>>,
    upto: int,
) -> Seq<PartitionTypeInfo>
    decreases upto,
{
    if upto <= 0 {
        Seq::empty()
    } else {
        let before = types_listed(table_type, table_subtype, upto - 1);
        if type_listed(partition_type(upto - 1), table_type, table_subtype) {
            before.push(partition_type(upto - 1))
        } else {
            before
        }
    }
}

/// True when a row is about a type of partition of a scheme, within a
/// subtype where one is given.
pub open spec fn type_found(
    row: PartitionTypeInfo,
    table_type: Seq<char>,
    table_subtype: Option<Seq<char>>,
    ty: Seq<char>,
) -> bool {
    type_listed(row, table_type, table_subtype) && row.ty@ == ty
}

/// The first row below `upto` about a type of partition.
pub open spec fn type_row(
    table_type: Seq<char>,
    table_subtype: Option<Seq<char>>,
    ty: Seq<char>,
    upto: int,
) -> Option<int>
    decreases upto,
{
    if upto <= 0 {
        None
    } else {
        match type_row(table_type, table_subtype, ty, upto - 1) {
            Some(i) => Some(i),
            None => if type_found(partition_type(upto - 1), table_type, table_subtype, ty) {
                Some(upto - 1)
            } else {
                None
            },
        }
    }
}

/// What a type of partition is called, as the catalog gives it.
pub open spec fn type_text(
    catalog: Catalog,
    table_type: Seq<char>,
    table_subtype: Option<Seq<char>>,
    ty: Seq<char>,
) -> Option<Seq<char>> {
    match type_row(table_type, table_subtype, ty, PARTITION_TYPES_LEN as int) {
        Some(i) => Some(catalog.text(Domain::Package, Some("part-type"@), partition_type(i).name@)),
        None => None,
    }
}

/// What a scheme of partition table is called, as the source writes it.
pub open spec fn table_type_label(table_type: Seq<char>) -> Option<Seq<char>> {
    if table_type == "dos"@ {
        Some("Master Boot Record"@)
    } else if table_type == "gpt"@ {
        Some("GUID Partition Table"@)
    } else if table_type == "apm"@ {
        Some("Apple Partition Map"@)
    } else {
        None
    }
}

/// What a scheme of partition table is called, as the catalog gives it. The
/// scheme is the context of its own name.
pub open spec fn table_type_text(catalog: Catalog, table_type: Seq<char>) -> Option<Seq<char>> {
    match table_type_label(table_type) {
        Some(label) => Some(catalog.text(Domain::Default, Some(table_type), label)),
        None => None,
    }
}

/// A found row stays the row found when more rows are looked at.
pub proof fn lemma_type_row_stays(
    table_type: Seq<char>,
    table_subtype: Option<Seq<char>>,
    ty: Seq<char>,
    i: int,
    upto: int,
)
    requires
        0 <= i <= upto,
        type_row(table_type, table_subtype, ty, i) is Some,
    ensures
        type_row(table_type, table_subtype, ty, upto) == type_row(table_type, table_subtype, ty, i),
    decreases upto - i,
{
    if i < upto {
        lemma_type_row_stays(table_type, table_subtype, ty, i, upto - 1);
    }
}

/// The characters of an optional string slice.
pub open spec fn slice_chars(o: Option<&str>) -> Option<Seq<char>> {
    match o {
        Some(s) => Some(s@),
        None => None,
    }
}

/// Tells whether a row is of the scheme, and of the subtype where one is given.
pub fn lists_type(row: &PartitionTypeInfo, table_type: &str, table_subtype: Option<&str>) -> (r:
    bool)
    ensures
        r == type_listed(*row, table_type@, slice_chars(table_subtype)),
{
    row.table_type.eq(table_type) && match table_subtype {
        Some(s) => row.table_subtype.eq(s),
        None => true,
    }
}

impl Client {
    /// Returns information about all known partition types for
    /// `partition_table_type` (e.g. `dos` or `gpt`) and
    /// `partition_table_subtype`, in the order of the table.
    ///
    /// If `partition_table_subtype` is [`None`], it is equivalent to all known types.
    pub fn partition_type_infos(
        &self,
        partition_table_type: &str,
        partition_table_subtype: Option<&str>,
    ) -> (r: Vec<PartitionTypeInfo>)
        ensures
            r@ == types_listed(
                partition_table_type@,
                slice_chars(partition_table_subtype),
                PARTITION_TYPES_LEN as int,
            ),
    {
        let mut out: Vec<PartitionTypeInfo> = Vec::new();
        let mut i: usize = 0;
        while i < PARTITION_TYPES_LEN
            invariant
                i <= PARTITION_TYPES_LEN,
                out@ == types_listed(
                    partition_table_type@,
                    slice_chars(partition_table_subtype),
                    i as int,
                ),
            decreases PARTITION_TYPES_LEN - i,
        {
            let row = partition_type_at(i);
            if lists_type(&row, partition_table_type, partition_table_subtype) {
                out.push(row);
            }
            i += 1;
        }
        out
    }

    /// The name of the first known type of partition of a scheme, within a
    /// subtype where one is given.
    fn type_for_display(
        &self,
        partition_table_type: &str,
        partition_table_subtype: Option<&str>,
        partition_type: &str,
    ) -> (r: Option<String>)
        ensures
            chars_of(r) == type_text(
                self@.catalog,
                partition_table_type@,
                slice_chars(partition_table_subtype),
                partition_type@,
            ),
    {
        let mut i: usize = 0;
        while i < PARTITION_TYPES_LEN
            invariant
                i <= PARTITION_TYPES_LEN,
                type_row(
                    partition_table_type@,
                    slice_chars(partition_table_subtype),
                    partition_type@,
                    i as int,
                ) is None,
            decreases PARTITION_TYPES_LEN - i,
        {
            let row = partition_type_at(i);
            if lists_type(&row, partition_table_type, partition_table_subtype) && row.ty.eq(
                partition_type,
            ) {
                proof {
                    lemma_type_row_stays(
                        partition_table_type@,
                        slice_chars(partition_table_subtype),
                        partition_type@,
                        i as int + 1,
                        PARTITION_TYPES_LEN as int,
                    );
                }
                return Some(
                    self.catalog().lookup(Domain::Package, Some("part-type"), row.name).to_owned(),
                );
            }
            i += 1;
        }
        None
    }

    /// Returns, if exists, the human-readable localized name of the
    /// partition type.
    pub fn partition_type_for_display(&self, partition_table_type: &str, partition_type: &str) -> (r:
        Option<String>)
        ensures
            chars_of(r) == type_text(
                self@.catalog,
                partition_table_type@,
                None,
                partition_type@,
            ),
    {
        self.type_for_display(partition_table_type, None, partition_type)
    }

    /// Returns, if existing, the human-readable localized name of the
    /// partition type.
    ///
    /// It is similar to [`Client::partition_type_for_display`], but also accounts for the `partition_table_subtype`, if available.
    /// This can be useful for scenarios, where different subtypes are using the same partition
    /// type.
    pub fn partition_type_and_subtype_for_display(
        &self,
        partition_table_type: &str,
        partition_table_subtype: &str,
        partition_type: &str,
    ) -> (r: Option<String>)
        ensures
            chars_of(r) == type_text(
                self@.catalog,
                partition_table_type@,
                Some(partition_table_subtype@),
                partition_type@,
            ),
    {
        self.type_for_display(
            partition_table_type,
            Some(partition_table_subtype),
            partition_type,
        )
    }

    /// Returns, if exists, the human-readable localized string for `partition_table_type` (e.g.
    /// `dos` or `gpt`).
    pub fn partition_table_type_for_display(&self, partition_table_type: &str) -> (r: Option<
        String,
    >)
        ensures
            chars_of(r) == table_type_text(self@.catalog, partition_table_type@),
    {
        let label = if partition_table_type.eq("dos") {
            "Master Boot Record"
        } else if partition_table_type.eq("gpt") {
            "GUID Partition Table"
        } else if partition_table_type.eq("apm") {
            "Apple Partition Map"
        } else {
            return None;
        };
        Some(
            self.catalog().lookup(Domain::Default, Some(partition_table_type), label).to_owned(),
        )
    }
}

/// The words for one flag of a partition, with a comma before them, where
/// the flag is set.
pub open spec fn flag_word(catalog: Catalog, flags: u64, flag: PartitionFlags, context: Seq<char>, label: Seq<char>) -> Seq<char> {
    if flag.spec_is_set_in(flags) {
        ", "@ + catalog.text(Domain::Default, Some(context), label)
    } else {
        Seq::empty()
    }
}

/// The words for the flags of a partition that its scheme knows, each with
/// a comma before it.
pub open spec fn flag_words(catalog: Catalog, table_type: Seq<char>, flags: u64) -> Seq<char> {
    if table_type == "dos"@ {
        flag_word(catalog, flags, PartitionFlags::Bootable, "dos-part-flag"@, "Bootable"@)
    } else if table_type == "gpt"@ {
        flag_word(catalog, flags, PartitionFlags::SystemPartition, "gpt-part-flag"@, "System"@)
            + flag_word(
            catalog,
            flags,
            PartitionFlags::LegacyBIOSBootable,
            "gpt-part-flag"@,
            "Legacy BIOS Bootable"@,
        ) + flag_word(catalog, flags, PartitionFlags::ReadOnly, "gpt-part-flag"@, "Read-only"@)
            + flag_word(catalog, flags, PartitionFlags::Hidden, "gpt-part-flag"@, "Hidden"@)
            + flag_word(
            catalog,
            flags,
            PartitionFlags::NoAutoMount,
            "gpt-part-flag"@,
            "No Automount"@,
        )
    } else {
        Seq::empty()
    }
}

/// What a partition in a table of the given scheme is described as in one
/// line: the name of its type (the type itself where it is not a known
/// one), followed in brackets by the words for its flags where it has any;
/// `Unknown` where there is neither type nor flag.
pub open spec fn partition_words(catalog: Catalog, table_type: Seq<char>, partition: Partition) -> Seq<
    char,
> {
    let flags = flag_words(catalog, table_type, partition.flags);
    let ty = match type_text(catalog, table_type, None, partition.partition_type@) {
        Some(name) => name,
        None => partition.partition_type@,
    };
    if flags.len() > 0 {
        catalog.filled(Some("partition-info"@), "%s (%s)"@, seq![ty, flags])
    } else if ty.len() == 0 {
        catalog.text(Domain::Default, Some("partition-info"@), "Unknown"@)
    } else {
        ty
    }
}

/// What [`Client::partition_info`] returns: the description of the
/// partition, or the error of looking up its table.
pub open spec fn partition_info_of(client: crate::client::ClientView, partition: Partition) -> Result<
    Seq<char>,
    Error,
> {
    match table_of(client.objects, partition) {
        Ok(table) => Ok(partition_words(client.catalog, table.table_type@, partition)),
        Err(e) => Err(e),
    }
}

/// True when the result spells the text expected, or holds the error expected.
pub open spec fn spells_result(r: Result<String, Error>, expected: Result<Seq<char>, Error>) -> bool {
    match (r, expected) {
        (Ok(a), Ok(b)) => a@ == b,
        (Err(a), Err(b)) => a == b,
        _ => false,
    }
}

impl Client {
    /// Appends the words for a flag where it is set.
    fn push_flag(&self, words: &mut String, flags: u64, flag: PartitionFlags, context: &str, label: &str)
        ensures
            final(words)@ == old(words)@ + flag_word(self@.catalog, flags, flag, context@, label@),
    {
        if flag.is_set_in(flags) {
            words.append(", ");
            words.append(self.catalog().lookup(Domain::Default, Some(context), label));
        } else {
        }
    }

    /// Returns informating about the given partition that is suitable for presentation in an user
    /// interface in a single line of text.
    ///
    /// The returned string is localized and includes things like the partition type, flags (if
    /// any) and name (if any).
    ///
    /// Fails if the partition table of the partition is not found.
    pub fn partition_info(&self, partition: &Partition) -> (r: Result<String, Error>)
        ensures
            spells_result(r, partition_info_of(self@, *partition)),
    {
        let table = match self.partition_table(partition) {
            Ok(t) => t,
            Err(e) => {
                return Err(e);
            },
        };
        let table_type = table.table_type.as_str();
        let flags = partition.flags;
        let mut flags_str = String::new();
        if table_type.eq("dos") {
            self.push_flag(&mut flags_str, flags, PartitionFlags::Bootable, "dos-part-flag", "Bootable");
        } else if table_type.eq("gpt") {
            self.push_flag(
                &mut flags_str,
                flags,
                PartitionFlags::SystemPartition,
                "gpt-part-flag",
                "System",
            );
            self.push_flag(
                &mut flags_str,
                flags,
                PartitionFlags::LegacyBIOSBootable,
                "gpt-part-flag",
                "Legacy BIOS Bootable",
            );
            self.push_flag(
                &mut flags_str,
                flags,
                PartitionFlags::ReadOnly,
                "gpt-part-flag",
                "Read-only",
            );
            self.push_flag(&mut flags_str, flags, PartitionFlags::Hidden, "gpt-part-flag", "Hidden");
            self.push_flag(
                &mut flags_str,
                flags,
                PartitionFlags::NoAutoMount,
                "gpt-part-flag",
                "No Automount",
            );
        }
        let type_str = match self.partition_type_for_display(
            table_type,
            partition.partition_type.as_str(),
        ) {
            Some(name) => name,
            None => partition.partition_type.clone(),
        };
        if !flags_str.as_str().is_empty() {
            Ok(
                self.catalog().format2(
                    "partition-info",
                    "%s (%s)",
                    type_str.as_str(),
                    flags_str.as_str(),
                ),
            )
        } else if type_str.as_str().is_empty() {
            Ok(
                self.catalog().lookup(Domain::Default, Some("partition-info"), "Unknown").to_owned(),
            )
        } else {
            Ok(type_str)
        }
    }
}

} // verus!
