//! Block devices.
use vstd::prelude::*;

verus! {

/// The block interface of an object, with the properties read from it.
///
/// A reference to another object is the path of that object, or `None` where
/// the block refers to none.
#[derive(Clone, Debug)]
pub struct Block {
    /// Path of the object that exposes the interface.
    pub path: String,
    /// The drive that the block device belongs to.
    pub drive: Option<String>,
    /// The encrypted block device of which this one is the cleartext.
    pub crypto_backing_device: Option<String>,
    /// The array of which this block is the device.
    pub mdraid: Option<String>,
    /// The array of which this block is a member.
    pub mdraid_member: Option<String>,
    /// The special device file to present to a user, where it could be read.
    pub preferred_device: Option<String>,
    /// The device number, where it could be read.
    pub device_number: Option<u64>,
    /// The label of the filesystem or other structured data on the device.
    pub id_label: Option<String>,
    /// The UUID of the filesystem or other structured data on the device.
    pub id_uuid: Option<String>,
    /// Size of the device in bytes, where it is known.
    pub size: Option<u64>,
    /// Name to present the device under; empty when there is no hint.
    pub hint_name: String,
    /// Icon to present the device with; empty when there is no hint.
    pub hint_icon_name: String,
    /// Symbolic icon to present the device with; empty when there is no hint.
    pub hint_symbolic_icon_name: String,
}

impl Block {
    /// A block device of which nothing is known but the object that exposes it.
    pub fn new(path: String) -> (r: Block)
        ensures
            r.path == path,
            r.drive is None,
            r.crypto_backing_device is None,
            r.mdraid is None,
            r.mdraid_member is None,
            r.preferred_device is None,
            r.device_number is None,
            r.id_label is None,
            r.id_uuid is None,
            r.size is None,
            r.hint_name@.len() == 0,
            r.hint_icon_name@.len() == 0,
            r.hint_symbolic_icon_name@.len() == 0,
    {
        Block {
            path,
            drive: None,
            crypto_backing_device: None,
            mdraid: None,
            mdraid_member: None,
            preferred_device: None,
            device_number: None,
            id_label: None,
            id_uuid: None,
            size: None,
            hint_name: String::new(),
            hint_icon_name: String::new(),
            hint_symbolic_icon_name: String::new(),
        }
    }
}

/// True when the optional reference names the object at `path`.
pub open spec fn refers_to(reference: Option<String>, path: Seq<char>) -> bool {
    reference matches Some(p) && p@ == path
}

/// Tells whether the optional reference names the object at `path`.
pub fn reference_is(reference: &Option<String>, path: &str) -> (r: bool)
    ensures
        r == refers_to(*reference, path@),
{
    match reference {
        Some(p) => p.as_str().eq(path),
        None => false,
    }
}

impl Block {
    /// True when the two have the same properties, whatever object each is
    /// bound to.
    pub open spec fn same_properties(self, other: Block) -> bool {
        &&& self.drive == other.drive
        &&& self.crypto_backing_device == other.crypto_backing_device
        &&& self.mdraid == other.mdraid
        &&& self.mdraid_member == other.mdraid_member
        &&& self.preferred_device == other.preferred_device
        &&& self.device_number == other.device_number
        &&& self.id_label == other.id_label
        &&& self.id_uuid == other.id_uuid
        &&& self.size == other.size
        &&& self.hint_name == other.hint_name
        &&& self.hint_icon_name == other.hint_icon_name
        &&& self.hint_symbolic_icon_name == other.hint_symbolic_icon_name
    }
}

} // verus!
