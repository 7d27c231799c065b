//! Values of a namespace device in a NVMe subsystem.
use vstd::prelude::*;

verus! {

/// A format in which a namespace can lay out its logical blocks.
#[derive(Clone, Copy, Debug)]
pub struct LBAFormat {
    /// LBA Data Size in bytes.
    pub size: u16,
    /// Number of metadata bytes provided per LBA.
    pub metadata_size: u16,
    /// Relative performance relative to other formats of the namespace.
    pub performance: LBAPerformance,
}

/// How a format performs, relative to the other formats of a namespace.
#[derive(Clone, Copy, Debug, PartialEq, Eq, Structural)]
#[non_exhaustive]
pub enum LBAPerformance {
    /// Unknown relative performance index.
    Unkown,
    /// Best performance.
    Best,
    /// Better performance.
    Better,
    /// Good performance.
    Good,
    /// Degraded performance.
    Degraded,
}

impl LBAPerformance {
    /// The number that stands for the value.
    pub open spec fn number(self) -> u8 {
        match self {
            LBAPerformance::Unkown => 0,
            LBAPerformance::Best => 1,
            LBAPerformance::Better => 2,
            LBAPerformance::Good => 3,
            LBAPerformance::Degraded => 4,
        }
    }

    /// The value that a number stands for, if it stands for one.
    pub open spec fn numbered(n: u8) -> Option<LBAPerformance> {
        if n == 0 {
            Some(LBAPerformance::Unkown)
        } else if n == 1 {
            Some(LBAPerformance::Best)
        } else if n == 2 {
            Some(LBAPerformance::Better)
        } else if n == 3 {
            Some(LBAPerformance::Good)
        } else if n == 4 {
            Some(LBAPerformance::Degraded)
        } else {
            None
        }
    }

    /// Returns the number that stands for the value.
    pub fn to_value(self) -> (r: u8)
        ensures
            r == self.number(),
            LBAPerformance::numbered(r) == Some(self),
    {
        match self {
            LBAPerformance::Unkown => 0,
            LBAPerformance::Best => 1,
            LBAPerformance::Better => 2,
            LBAPerformance::Good => 3,
            LBAPerformance::Degraded => 4,
        }
    }

    /// Reads the value from the number that stands for it.
    pub fn from_value(n: u8) -> (r: Option<LBAPerformance>)
        ensures
            r == LBAPerformance::numbered(n),
    {
        if n == 0 {
            Some(LBAPerformance::Unkown)
        } else if n == 1 {
            Some(LBAPerformance::Best)
        } else if n == 2 {
            Some(LBAPerformance::Better)
        } else if n == 3 {
            Some(LBAPerformance::Good)
        } else if n == 4 {
            Some(LBAPerformance::Degraded)
        } else {
            None
        }
    }
}

} // verus!
