//! Software RAID arrays, running or stopped.
//!
//! Block devices point to arrays in two ways: a block may be the device of
//! an array, or a member of one.
use vstd::prelude::*;
use crate::manager::RaidLevel;

verus! {

/// The array interface of an object, with the properties read from it.
#[derive(Clone, Debug)]
pub struct MDRaid {
    /// Path of the object that exposes the interface.
    pub path: String,
    /// Name of the array, as `host:name` or `name`; empty when unknown.
    pub name: String,
    /// UUID of the array.
    pub uuid: String,
    /// Level of the array, where it is one of the known levels.
    pub level: Option<RaidLevel>,
    /// Size of the array in bytes, where it is known.
    pub size: Option<u64>,
}

impl MDRaid {
    /// True when the two have the same properties, whatever object each is
    /// bound to.
    pub open spec fn same_properties(self, other: MDRaid) -> bool {
        &&& self.name == other.name
        &&& self.uuid == other.uuid
        &&& self.level == other.level
        &&& self.size == other.size
    }
}

/// Sync action to request of an array.
#[derive(Clone, Copy, Debug, PartialEq, Eq, Structural)]
#[non_exhaustive]
pub enum SyncAction {
    /// Verify data consistency without repair
    Check,
    /// Check and repair inconsistent data
    Repair,
    /// Cancel any ongoing sync operation
    Idle,
}

impl SyncAction {
    /// The service's word for the value.
    pub open spec fn word(self) -> Seq<char> {
        match self {
            SyncAction::Check => "check"@,
            SyncAction::Repair => "repair"@,
            SyncAction::Idle => "idle"@,
        }
    }

    /// The value that a word of the service stands for, if it stands for one.
    pub open spec fn named(s: Seq<char>) -> Option<SyncAction> {
        if s == "check"@ {
            Some(SyncAction::Check)
        } else if s == "repair"@ {
            Some(SyncAction::Repair)
        } else if s == "idle"@ {
            Some(SyncAction::Idle)
        } else {
            None
        }
    }

    /// Returns the service's word for the value.
    pub fn as_str(self) -> (r: &'static str)
        ensures
            r@ == self.word(),
    {
        match self {
            SyncAction::Check => "check",
            SyncAction::Repair => "repair",
            SyncAction::Idle => "idle",
        }
    }

    /// Reads the value from the service's word for it.
    pub fn from_str(s: &str) -> (r: Option<SyncAction>)
        ensures
            r == SyncAction::named(s@),
    {
        if s.eq("check") {
            Some(SyncAction::Check)
        } else if s.eq("repair") {
            Some(SyncAction::Repair)
        } else if s.eq("idle") {
            Some(SyncAction::Idle)
        } else {
            None
        }
    }
}

/// Information about an active device associated with a raid array.
#[derive(Clone, Debug)]
pub struct ActiveDevice {
    /// The object path for the underlying block device.
    pub object_path: String,
    /// Slot number the device currently fills (between `0` and the number of
    /// devices of the array).
    ///
    /// `-1` if the device is not currently part of the array (i.e. `spare` or `faulty`).
    pub slot: i32,
    /// State of the device.
    pub state: Vec<DeviceState>,
    /// Ongoing count of read errors that have been detected on this device but have not caused the device to be evicted from the array.
    pub num_read_errors: u64,
}

/// State of the [`ActiveDevice`].
#[derive(Clone, Copy, Debug, PartialEq, Eq, Structural)]
#[non_exhaustive]
pub enum DeviceState {
    /// The device has failed.
    Faulty,
    /// The device is in sync with the array.
    InSync,
    /// The device is read only when no other can be.
    WriteMostly,
    /// Writes to the device are held back.
    Blocked,
    /// The device stands by.
    Spare,
}

impl DeviceState {
    /// The service's word for the value.
    pub open spec fn word(self) -> Seq<char> {
        match self {
            DeviceState::Faulty => "faulty"@,
            DeviceState::InSync => "in_sync"@,
            DeviceState::WriteMostly => "write_mostly"@,
            DeviceState::Blocked => "blocked"@,
            DeviceState::Spare => "spare"@,
        }
    }

    /// The value that a word of the service stands for, if it stands for one.
    pub open spec fn named(s: Seq<char>) -> Option<DeviceState> {
        if s == "faulty"@ {
            Some(DeviceState::Faulty)
        } else if s == "in_sync"@ {
            Some(DeviceState::InSync)
        } else if s == "write_mostly"@ {
            Some(DeviceState::WriteMostly)
        } else if s == "blocked"@ {
            Some(DeviceState::Blocked)
        } else if s == "spare"@ {
            Some(DeviceState::Spare)
        } else {
            None
        }
    }

    /// Returns the service's word for the value.
    pub fn as_str(self) -> (r: &'static str)
        ensures
            r@ == self.word(),
    {
        match self {
            DeviceState::Faulty => "faulty",
            DeviceState::InSync => "in_sync",
            DeviceState::WriteMostly => "write_mostly",
            DeviceState::Blocked => "blocked",
            DeviceState::Spare => "spare",
        }
    }

    /// Reads the value from the service's word for it.
    pub fn from_str(s: &str) -> (r: Option<DeviceState>)
        ensures
            r == DeviceState::named(s@),
    {
        if s.eq("faulty") {
            Some(DeviceState::Faulty)
        } else if s.eq("in_sync") {
            Some(DeviceState::InSync)
        } else if s.eq("write_mostly") {
            Some(DeviceState::WriteMostly)
        } else if s.eq("blocked") {
            Some(DeviceState::Blocked)
        } else if s.eq("spare") {
            Some(DeviceState::Spare)
        } else {
            None
        }
    }
}

} // verus!
