//! Partition tables.
use vstd::prelude::*;

verus! {

/// The partition table interface of an object.
#[derive(Clone, Debug)]
pub struct PartitionTable {
    /// Path of the object that exposes the interface.
    pub path: String,
    /// The scheme of the table, such as `dos` or `gpt`.
    pub table_type: String,
}

impl PartitionTable {
    /// True when the two have the same properties, whatever object each is
    /// bound to.
    pub open spec fn same_properties(self, other: PartitionTable) -> bool {
        &&& self.table_type == other.table_type
    }
}

} // verus!
