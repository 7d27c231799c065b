//! The known kinds of content of a block device, and what they are called.
use vstd::prelude::*;
use vstd::string::*;
use crate::catalog::{Catalog, Domain};
use crate::client::Client;
use crate::text::{replace_first, replace_marker};

verus! {

/// A known kind of content of a block device.
#[derive(Clone, Copy, Debug)]
pub struct IdType {
    /// What the content is used for, such as `filesystem` or `raid`.
    pub usage: &'static str,
    /// The type of the content, such as `ext4`.
    pub ty: &'static str,
    /// The version that the row is about: a given one, any (`*`), or none.
    pub version: Option<&'static str>,
    /// The long name, in which `%s` stands for the version.
    pub long_name: &'static str,
    /// The short name, in which `%s` stands for the version.
    pub short_name: &'static str,
}

/// Number of known kinds of content.
pub const ID_TYPES_LEN: usize = 33;

/// Row `i` of the table of known kinds of content.
pub open spec fn id_type(i: int) -> IdType {
    if i == 0 {
        IdType {
            usage: "filesystem",
            ty: "vfat",
            version: Some("FAT12"),
            long_name: "FAT (12-bit version)",
            short_name: "FAT",
        }
    } else if i == 1 {
        IdType {
            usage: "filesystem",
            ty: "vfat",
            version: Some("FAT16"),
            long_name: "FAT (16-bit version)",
            short_name: "FAT",
        }
    } else if i == 2 {
        IdType {
            usage: "filesystem",
            ty: "vfat",
            version: Some("FAT32"),
            long_name: "FAT (32-bit version)",
            short_name: "FAT",
        }
    } else if i == 3 {
        IdType {
            usage: "filesystem",
            ty: "ntfs",
            version: Some("*"),
            long_name: "NTFS (version %s)",
            short_name: "NTFS",
        }
    } else if i == 4 {
        IdType {
            usage: "filesystem",
            ty: "vfat",
            version: Some("*"),
            long_name: "FAT (version %s)",
            short_name: "FAT",
        }
    } else if i == 5 {
        IdType { usage: "filesystem", ty: "vfat", version: None, long_name: "FAT", short_name: "FAT" }
    } else if i == 6 {
        IdType { usage: "filesystem", ty: "ntfs", version: None, long_name: "NTFS", short_name: "NTFS" }
    } else if i == 7 {
        IdType { usage: "filesystem", ty: "hfs", version: None, long_name: "HFS", short_name: "HFS" }
    } else if i == 8 {
        IdType { usage: "filesystem", ty: "hfsplus", version: None, long_name: "HFS+", short_name: "HFS+" }
    } else if i == 9 {
        IdType {
            usage: "filesystem",
            ty: "ext2",
            version: Some("*"),
            long_name: "Ext2 (version %s)",
            short_name: "Ext2",
        }
    } else if i == 10 {
        IdType { usage: "filesystem", ty: "ext2", version: None, long_name: "Ext2", short_name: "Ext2" }
    } else if i == 11 {
        IdType {
            usage: "filesystem",
            ty: "ext3",
            version: Some("*"),
            long_name: "Ext3 (version %s)",
            short_name: "Ext3",
        }
    } else if i == 12 {
        IdType { usage: "filesystem", ty: "ext3", version: None, long_name: "Ext3", short_name: "Ext3" }
    } else if i == 13 {
        IdType {
            usage: "filesystem",
            ty: "ext4",
            version: Some("*"),
            long_name: "Ext4 (version %s)",
            short_name: "Ext4",
        }
    } else if i == 14 {
        IdType { usage: "filesystem", ty: "ext4", version: None, long_name: "Ext4", short_name: "Ext4" }
    } else if i == 15 {
        IdType {
            usage: "filesystem",
            ty: "xfs",
            version: Some("*"),
            long_name: "XFS (version %s)",
            short_name: "XFS",
        }
    } else if i == 16 {
        IdType { usage: "filesystem", ty: "xfs", version: None, long_name: "XFS", short_name: "XFS" }
    } else if i == 17 {
        IdType {
            usage: "filesystem",
            ty: "iso9660",
            version: Some("*"),
            long_name: "ISO 9660 (version %s)",
            short_name: "ISO9660",
        }
    } else if i == 18 {
        IdType { usage: "filesystem", ty: "iso9660", version: None, long_name: "ISO 9660", short_name: "ISO9660" }
    } else if i == 19 {
        IdType {
            usage: "filesystem",
            ty: "udf",
            version: Some("*"),
            long_name: "UDF (version %s)",
            short_name: "UDF",
        }
    } else if i == 20 {
        IdType { usage: "filesystem", ty: "udf", version: None, long_name: "UDF", short_name: "UDF" }
    } else if i == 21 {
        IdType {
            usage: "filesystem",
            ty: "exfat",
            version: Some("*"),
            long_name: "exFAT (version %s)",
            short_name: "exFAT",
        }
    } else if i == 22 {
        IdType { usage: "filesystem", ty: "exfat", version: None, long_name: "exFAT", short_name: "exFAT" }
    } else if i == 23 {
        IdType {
            usage: "filesystem",
            ty: "btrfs",
            version: Some("*"),
            long_name: "Btrfs (version %s)",
            short_name: "Btrfs",
        }
    } else if i == 24 {
        IdType { usage: "filesystem", ty: "btrfs", version: None, long_name: "Btrfs", short_name: "Btrfs" }
    } else if i == 25 {
        IdType {
            usage: "other",
            ty: "swap",
            version: Some("*"),
            long_name: "Swap (version %s)",
            short_name: "Swap",
        }
    } else if i == 26 {
        IdType { usage: "other", ty: "swap", version: None, long_name: "Swap", short_name: "Swap" }
    } else if i == 27 {
        IdType {
            usage: "raid",
            ty: "LVM2_member",
            version: Some("*"),
            long_name: "LVM2 Physical Volume (%s)",
            short_name: "LVM2 PV",
        }
    } else if i == 28 {
        IdType {
            usage: "raid",
            ty: "LVM2_member",
            version: None,
            long_name: "LVM2 Physical Volume",
            short_name: "LVM2 PV",
        }
    } else if i == 29 {
        IdType {
            usage: "raid",
            ty: "linux_raid_member",
            version: Some("*"),
            long_name: "Linux RAID Member (version %s)",
            short_name: "Linux RAID Member",
        }
    } else if i == 30 {
        IdType {
            usage: "raid",
            ty: "linux_raid_member",
            version: None,
            long_name: "Linux RAID Member",
            short_name: "Linux RAID Member",
        }
    } else if i == 31 {
        IdType {
            usage: "crypto",
            ty: "crypto_LUKS",
            version: Some("*"),
            long_name: "LUKS Encryption (version %s)",
            short_name: "LUKS",
        }
    } else {
        IdType {
            usage: "crypto",
            ty: "crypto_LUKS",
            version: None,
            long_name: "LUKS Encryption",
            short_name: "LUKS",
        }
    }
}

/// Reads row `i` of the table of known kinds of content; the last one where `i` is beyond the end.
pub fn id_type_at(i: usize) -> (r: IdType)
    ensures
        r == id_type(i as int),
{
    if i == 0 {
        IdType {
            usage: "filesystem",
            ty: "vfat",
            version: Some("FAT12"),
            long_name: "FAT (12-bit version)",
            short_name: "FAT",
        }
    } else if i == 1 {
        IdType {
            usage: "filesystem",
            ty: "vfat",
            version: Some("FAT16"),
            long_name: "FAT (16-bit version)",
            short_name: "FAT",
        }
    } else if i == 2 {
        IdType {
            usage: "filesystem",
            ty: "vfat",
            version: Some("FAT32"),
            long_name: "FAT (32-bit version)",
            short_name: "FAT",
        }
    } else if i == 3 {
        IdType {
            usage: "filesystem",
            ty: "ntfs",
            version: Some("*"),
            long_name: "NTFS (version %s)",
            short_name: "NTFS",
        }
    } else if i == 4 {
        IdType {
            usage: "filesystem",
            ty: "vfat",
            version: Some("*"),
            long_name: "FAT (version %s)",
            short_name: "FAT",
        }
    } else if i == 5 {
        IdType { usage: "filesystem", ty: "vfat", version: None, long_name: "FAT", short_name: "FAT" }
    } else if i == 6 {
        IdType { usage: "filesystem", ty: "ntfs", version: None, long_name: "NTFS", short_name: "NTFS" }
    } else if i == 7 {
        IdType { usage: "filesystem", ty: "hfs", version: None, long_name: "HFS", short_name: "HFS" }
    } else if i == 8 {
        IdType { usage: "filesystem", ty: "hfsplus", version: None, long_name: "HFS+", short_name: "HFS+" }
    } else if i == 9 {
        IdType {
            usage: "filesystem",
            ty: "ext2",
            version: Some("*"),
            long_name: "Ext2 (version %s)",
            short_name: "Ext2",
        }
    } else if i == 10 {
        IdType { usage: "filesystem", ty: "ext2", version: None, long_name: "Ext2", short_name: "Ext2" }
    } else if i == 11 {
        IdType {
            usage: "filesystem",
            ty: "ext3",
            version: Some("*"),
            long_name: "Ext3 (version %s)",
            short_name: "Ext3",
        }
    } else if i == 12 {
        IdType { usage: "filesystem", ty: "ext3", version: None, long_name: "Ext3", short_name: "Ext3" }
    } else if i == 13 {
        IdType {
            usage: "filesystem",
            ty: "ext4",
            version: Some("*"),
            long_name: "Ext4 (version %s)",
            short_name: "Ext4",
        }
    } else if i == 14 {
        IdType { usage: "filesystem", ty: "ext4", version: None, long_name: "Ext4", short_name: "Ext4" }
    } else if i == 15 {
        IdType {
            usage: "filesystem",
            ty: "xfs",
            version: Some("*"),
            long_name: "XFS (version %s)",
            short_name: "XFS",
        }
    } else if i == 16 {
        IdType { usage: "filesystem", ty: "xfs", version: None, long_name: "XFS", short_name: "XFS" }
    } else if i == 17 {
        IdType {
            usage: "filesystem",
            ty: "iso9660",
            version: Some("*"),
            long_name: "ISO 9660 (version %s)",
            short_name: "ISO9660",
        }
    } else if i == 18 {
        IdType { usage: "filesystem", ty: "iso9660", version: None, long_name: "ISO 9660", short_name: "ISO9660" }
    } else if i == 19 {
        IdType {
            usage: "filesystem",
            ty: "udf",
            version: Some("*"),
            long_name: "UDF (version %s)",
            short_name: "UDF",
        }
    } else if i == 20 {
        IdType { usage: "filesystem", ty: "udf", version: None, long_name: "UDF", short_name: "UDF" }
    } else if i == 21 {
        IdType {
            usage: "filesystem",
            ty: "exfat",
            version: Some("*"),
            long_name: "exFAT (version %s)",
            short_name: "exFAT",
        }
    } else if i == 22 {
        IdType { usage: "filesystem", ty: "exfat", version: None, long_name: "exFAT", short_name: "exFAT" }
    } else if i == 23 {
        IdType {
            usage: "filesystem",
            ty: "btrfs",
            version: Some("*"),
            long_name: "Btrfs (version %s)",
            short_name: "Btrfs",
        }
    } else if i == 24 {
        IdType { usage: "filesystem", ty: "btrfs", version: None, long_name: "Btrfs", short_name: "Btrfs" }
    } else if i == 25 {
        IdType {
            usage: "other",
            ty: "swap",
            version: Some("*"),
            long_name: "Swap (version %s)",
            short_name: "Swap",
        }
    } else if i == 26 {
        IdType { usage: "other", ty: "swap", version: None, long_name: "Swap", short_name: "Swap" }
    } else if i == 27 {
        IdType {
            usage: "raid",
            ty: "LVM2_member",
            version: Some("*"),
            long_name: "LVM2 Physical Volume (%s)",
            short_name: "LVM2 PV",
        }
    } else if i == 28 {
        IdType {
            usage: "raid",
            ty: "LVM2_member",
            version: None,
            long_name: "LVM2 Physical Volume",
            short_name: "LVM2 PV",
        }
    } else if i == 29 {
        IdType {
            usage: "raid",
            ty: "linux_raid_member",
            version: Some("*"),
            long_name: "Linux RAID Member (version %s)",
            short_name: "Linux RAID Member",
        }
    } else if i == 30 {
        IdType {
            usage: "raid",
            ty: "linux_raid_member",
            version: None,
            long_name: "Linux RAID Member",
            short_name: "Linux RAID Member",
        }
    } else if i == 31 {
        IdType {
            usage: "crypto",
            ty: "crypto_LUKS",
            version: Some("*"),
            long_name: "LUKS Encryption (version %s)",
            short_name: "LUKS",
        }
    } else {
        IdType {
            usage: "crypto",
            ty: "crypto_LUKS",
            version: None,
            long_name: "LUKS Encryption",
            short_name: "LUKS",
        }
    }
}

/// True when a row names content of this usage, type and version: a row
/// without a version names content without one; a row with a version names
/// content of that version, and a row for any version content of every
/// version.
pub open spec fn id_applies(row: IdType, usage: Seq<char>, ty: Seq<char>, version: Seq<char>) -> bool {
    &&& row.usage@ == usage
    &&& row.ty@ == ty
    &&& if version.len() == 0 {
        row.version is None
    } else {
        row.version matches Some(v) && (v@ == version || v@ == "*"@)
    }
}

/// The first row below `upto` that names the content.
pub open spec fn id_row(usage: Seq<char>, ty: Seq<char>, version: Seq<char>, upto: int) -> Option<
    int,
>
    decreases upto,
{
    if upto <= 0 {
        None
    } else {
        match id_row(usage, ty, version, upto - 1) {
            Some(i) => Some(i),
            None => if id_applies(id_type(upto - 1), usage, ty, version) {
                Some(upto - 1)
            } else {
                None
            },
        }
    }
}

/// What content that no row names is called.
pub open spec fn unknown_id_text(catalog: Catalog, ty: Seq<char>, version: Seq<char>, long: bool) -> Seq<
    char,
> {
    if long {
        if version.len() > 0 {
            catalog.filled(Some("fs-type"@), "Unknown (%s %s)"@, seq![ty, version])
        } else if ty.len() > 0 {
            catalog.filled(Some("fs-type"@), "Unknown (%s)"@, seq![ty])
        } else {
            catalog.text(Domain::Default, Some("fs-type"@), "Unknown"@)
        }
    } else if ty.len() > 0 {
        ty
    } else {
        catalog.text(Domain::Default, Some("fs-type"@), "Unknown"@)
    }
}

/// What the content of a block device is called: the long or the short name
/// of the first row that names it, as the catalog gives it, with the version
/// in the place of `%s`.
pub open spec fn id_text(
    catalog: Catalog,
    usage: Seq<char>,
    ty: Seq<char>,
    version: Seq<char>,
    long: bool,
) -> Seq<char> {
    match id_row(usage, ty, version, ID_TYPES_LEN as int) {
        Some(i) => {
            let name = catalog.text(
                Domain::Package,
                Some("fs-type"@),
                if long {
                    id_type(i).long_name@
                } else {
                    id_type(i).short_name@
                },
            );
            if version.len() == 0 {
                name
            } else {
                replace_first(name, 's', version)
            }
        },
        None => unknown_id_text(catalog, ty, version, long),
    }
}

/// A found row stays the row found when more rows are looked at.
pub proof fn lemma_id_row_stays(
    usage: Seq<char>,
    ty: Seq<char>,
    version: Seq<char>,
    i: int,
    upto: int,
)
    requires
        0 <= i <= upto,
        id_row(usage, ty, version, i) is Some,
    ensures
        id_row(usage, ty, version, upto) == id_row(usage, ty, version, i),
    decreases upto - i,
{
    if i < upto {
        lemma_id_row_stays(usage, ty, version, i, upto - 1);
    }
}

/// Tells whether a row names content of this usage, type and version.
pub fn applies_to(row: &IdType, usage: &str, ty: &str, version: &str) -> (r: bool)
    ensures
        r == id_applies(*row, usage@, ty@, version@),
{
    if !(row.usage.eq(usage) && row.ty.eq(ty)) {
        return false;
    }
    if version.is_empty() {
        row.version.is_none()
    } else {
        match row.version {
            Some(v) => v.eq(version) || v.eq("*"),
            None => false,
        }
    }
}

impl Client {
    /// Returns a human readable localized string for `usage`, `type` and `version`.
    pub fn id_for_display(&self, usage: &str, ty: &str, version: &str, long_str: bool) -> (r: String)
        ensures
            r@ == id_text(self@.catalog, usage@, ty@, version@, long_str),
    {
        let mut i: usize = 0;
        while i < ID_TYPES_LEN
            invariant
                i <= ID_TYPES_LEN,
                id_row(usage@, ty@, version@, i as int) is None,
            decreases ID_TYPES_LEN - i,
        {
            let row = id_type_at(i);
            if applies_to(&row, usage, ty, version) {
                proof {
                    lemma_id_row_stays(usage@, ty@, version@, i as int + 1, ID_TYPES_LEN as int);
                }
                let name = self.catalog().lookup(
                    Domain::Package,
                    Some("fs-type"),
                    if long_str {
                        row.long_name
                    } else {
                        row.short_name
                    },
                );
                return if version.is_empty() {
                    name.to_owned()
                } else {
                    replace_marker(name, 's', version)
                };
            }
            i += 1;
        }
        if long_str {
            if !version.is_empty() {
                self.catalog().format2("fs-type", "Unknown (%s %s)", ty, version)
            } else if !ty.is_empty() {
                self.catalog().format1("fs-type", "Unknown (%s)", ty)
            } else {
                self.catalog().lookup(Domain::Default, Some("fs-type"), "Unknown").to_owned()
            }
        } else if !ty.is_empty() {
            ty.to_owned()
        } else {
            self.catalog().lookup(Domain::Default, Some("fs-type"), "Unknown").to_owned()
        }
    }
}

} // verus!
