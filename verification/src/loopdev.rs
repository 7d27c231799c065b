//! Loop devices.
use vstd::prelude::*;

verus! {

/// The loop interface of an object.
#[derive(Clone, Debug)]
pub struct Loop {
    /// Path of the object that exposes the interface.
    pub path: String,
    /// The file that backs the loop device, where it could be read.
    pub backing_file: Option<String>,
}

impl Loop {
    /// True when the two have the same properties, whatever object each is
    /// bound to.
    pub open spec fn same_properties(self, other: Loop) -> bool {
        &&& self.backing_file == other.backing_file
    }
}

} // verus!
