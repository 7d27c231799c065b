//! Values that the service's manager takes and gives.
use vstd::prelude::*;

verus! {

/// Mode flags indicating if growing and/or shriking resize is available if mounted/unmounted.
#[derive(Clone, Copy, Debug, PartialEq, Eq, Structural)]
#[non_exhaustive]
pub enum ResizeFlags {
    /// Shrinking resize allowed when unmounted
    BdFsOfflineShrink,
    /// Growing resize allowed when unmounted
    BdFsOfflineGrow,
    /// Shrinking resize allowed when mounted
    BdFsOnlineShrink,
    /// Growing resize allowed when mounted
    BdFsOnlineGrow,
}

impl ResizeFlags {
    /// The bit that stands for the flag in a resize mode.
    pub open spec fn spec_bits(self) -> u64 {
        match self {
            ResizeFlags::BdFsOfflineShrink => 2,
            ResizeFlags::BdFsOfflineGrow => 4,
            ResizeFlags::BdFsOnlineShrink => 8,
            ResizeFlags::BdFsOnlineGrow => 16,
        }
    }

    /// The bit that stands for the flag in a resize mode.
    #[verifier::when_used_as_spec(spec_bits)]
    pub fn bits(self) -> (r: u64)
        ensures
            r == self.spec_bits(),
    {
        match self {
            ResizeFlags::BdFsOfflineShrink => 2,
            ResizeFlags::BdFsOfflineGrow => 4,
            ResizeFlags::BdFsOnlineShrink => 8,
            ResizeFlags::BdFsOnlineGrow => 16,
        }
    }
}

/// Raid Levels
#[derive(Clone, Copy, Debug, PartialEq, Eq, Structural)]
pub enum RaidLevel {
    /// Striping.
    Raid0,
    /// Mirroring.
    Raid1,
    /// Striping with one disk for parity.
    Raid4,
    /// Striping with distributed parity.
    Raid5,
    /// Striping with double distributed parity.
    Raid6,
    /// Striping over mirrors.
    Raid10,
}

impl RaidLevel {
    /// The service's word for the value.
    pub open spec fn word(self) -> Seq<char> {
        match self {
            RaidLevel::Raid0 => "raid0"@,
            RaidLevel::Raid1 => "raid1"@,
            RaidLevel::Raid4 => "raid4"@,
            RaidLevel::Raid5 => "raid5"@,
            RaidLevel::Raid6 => "raid6"@,
            RaidLevel::Raid10 => "raid10"@,
        }
    }

    /// The value that a word of the service stands for, if it stands for one.
    pub open spec fn named(s: Seq<char>) -> Option<RaidLevel> {
        if s == "raid0"@ {
            Some(RaidLevel::Raid0)
        } else if s == "raid1"@ {
            Some(RaidLevel::Raid1)
        } else if s == "raid4"@ {
            Some(RaidLevel::Raid4)
        } else if s == "raid5"@ {
            Some(RaidLevel::Raid5)
        } else if s == "raid6"@ {
            Some(RaidLevel::Raid6)
        } else if s == "raid10"@ {
            Some(RaidLevel::Raid10)
        } else {
            None
        }
    }

    /// Returns the service's word for the value.
    pub fn as_str(self) -> (r: &'static str)
        ensures
            r@ == self.word(),
    {
        match self {
            RaidLevel::Raid0 => "raid0",
            RaidLevel::Raid1 => "raid1",
            RaidLevel::Raid4 => "raid4",
            RaidLevel::Raid5 => "raid5",
            RaidLevel::Raid6 => "raid6",
            RaidLevel::Raid10 => "raid10",
        }
    }

    /// Reads the value from the service's word for it.
    pub fn from_str(s: &str) -> (r: Option<RaidLevel>)
        ensures
            r == RaidLevel::named(s@),
    {
        if s.eq("raid0") {
            Some(RaidLevel::Raid0)
        } else if s.eq("raid1") {
            Some(RaidLevel::Raid1)
        } else if s.eq("raid4") {
            Some(RaidLevel::Raid4)
        } else if s.eq("raid5") {
            Some(RaidLevel::Raid5)
        } else if s.eq("raid6") {
            Some(RaidLevel::Raid6)
        } else if s.eq("raid10") {
            Some(RaidLevel::Raid10)
        } else {
            None
        }
    }
}

} // verus!
