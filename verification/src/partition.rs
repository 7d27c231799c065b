//! Partitions of a block device.
use vstd::prelude::*;

verus! {

/// Flags describing the partition.
#[derive(Clone, Copy, Debug, PartialEq, Eq, Structural)]
pub enum PartitionFlags {
    /// The partition is marked as a system partition.
    ///
    /// Known flag for `gpt` partitions.
    SystemPartition,
    /// The partition is marked as a Legacy BIOS Bootable partition.
    ///
    /// Known flag for `gpt` partitions.
    LegacyBIOSBootable,
    /// The partition is marked as bootable.
    ///
    /// Known flag for `dos` partitions.
    Bootable,
    /// The partition is marked as read-only.
    ///
    /// Known flag for `gpt` partitions.
    ReadOnly,
    /// The partition is marked as hidden.
    ///
    /// Known flag for `gpt` partitions.
    Hidden,
    /// The partition is marked as Do not automount.
    ///
    /// Known flag for `gpt` partitions.
    NoAutoMount,
}

impl PartitionFlags {
    /// The bit that stands for the flag in a partition's flags.
    pub open spec fn spec_bits(self) -> u64 {
        match self {
            PartitionFlags::SystemPartition => 0x1,
            PartitionFlags::LegacyBIOSBootable => 0x4,
            PartitionFlags::Bootable => 0x80,
            PartitionFlags::ReadOnly => 0x1000_0000_0000_0000,
            PartitionFlags::Hidden => 0x4000_0000_0000_0000,
            PartitionFlags::NoAutoMount => 0x8000_0000_0000_0000,
        }
    }

    /// The bit that stands for the flag in a partition's flags.
    #[verifier::when_used_as_spec(spec_bits)]
    pub fn bits(self) -> (r: u64)
        ensures
            r == self.spec_bits(),
    {
        match self {
            PartitionFlags::SystemPartition => 0x1,
            PartitionFlags::LegacyBIOSBootable => 0x4,
            PartitionFlags::Bootable => 0x80,
            PartitionFlags::ReadOnly => 0x1000_0000_0000_0000,
            PartitionFlags::Hidden => 0x4000_0000_0000_0000,
            PartitionFlags::NoAutoMount => 0x8000_0000_0000_0000,
        }
    }

    /// True when the flag is set in `flags`.
    pub open spec fn spec_is_set_in(self, flags: u64) -> bool {
        flags & self.spec_bits() == self.spec_bits()
    }

    /// Tells whether the flag is set in `flags`.
    #[verifier::when_used_as_spec(spec_is_set_in)]
    pub fn is_set_in(self, flags: u64) -> (r: bool)
        ensures
            r == self.spec_is_set_in(flags),
    {
        let bit = self.bits();
        flags & bit == bit
    }
}

/// The partition interface of an object, with the properties read from it.
#[derive(Clone, Debug)]
pub struct Partition {
    /// Path of the object that exposes the interface.
    pub path: String,
    /// Number of the partition in its table.
    pub number: u32,
    /// The object that exposes the partition table holding the partition.
    pub table: Option<String>,
    /// Flags of the partition, one bit each (see [`PartitionFlags`]).
    pub flags: u64,
    /// Type of the partition as the table records it.
    pub partition_type: String,
    /// Label of the partition; empty when it has none.
    pub name: String,
}

impl Partition {
    /// True when the two have the same properties, whatever object each is
    /// bound to.
    pub open spec fn same_properties(self, other: Partition) -> bool {
        &&& self.number == other.number
        &&& self.table == other.table
        &&& self.flags == other.flags
        &&& self.partition_type == other.partition_type
        &&& self.name == other.name
    }
}

} // verus!
