//! Values of drives that use the ATA command set.
use vstd::prelude::*;

verus! {

/// Power mode status of a drive.
/// 
/// This is typically reported as "Drive is spun down" if the mode is [`PowerModeStatus::Standby`]
/// and "Drive is spun up" otherwise.
#[derive(Clone, Copy, Debug, PartialEq, Eq, Structural)]
#[non_exhaustive]
pub enum PowerModeStatus {
    /// Standby mode.
    ///
    /// This is typically reported as "Drive is spun down".
    Standby,
    /// Idle mode.
    Idle,
    /// Active/Idle
    Active,
}

impl PowerModeStatus {
    /// The number that stands for the value.
    pub open spec fn number(self) -> u8 {
        match self {
            PowerModeStatus::Standby => 0x00,
            PowerModeStatus::Idle => 0x80,
            PowerModeStatus::Active => 0xFF,
        }
    }

    /// The value that a number stands for, if it stands for one.
    pub open spec fn numbered(n: u8) -> Option<PowerModeStatus> {
        if n == 0x00 {
            Some(PowerModeStatus::Standby)
        } else if n == 0x80 {
            Some(PowerModeStatus::Idle)
        } else if n == 0xFF {
            Some(PowerModeStatus::Active)
        } else {
            None
        }
    }

    /// Returns the number that stands for the value.
    pub fn to_value(self) -> (r: u8)
        ensures
            r == self.number(),
            PowerModeStatus::numbered(r) == Some(self),
    {
        match self {
            PowerModeStatus::Standby => 0x00,
            PowerModeStatus::Idle => 0x80,
            PowerModeStatus::Active => 0xFF,
        }
    }

    /// Reads the value from the number that stands for it.
    pub fn from_value(n: u8) -> (r: Option<PowerModeStatus>)
        ensures
            r == PowerModeStatus::numbered(n),
    {
        if n == 0x00 {
            Some(PowerModeStatus::Standby)
        } else if n == 0x80 {
            Some(PowerModeStatus::Idle)
        } else if n == 0xFF {
            Some(PowerModeStatus::Active)
        } else {
            None
        }
    }
}

/// One SMART attribute of a drive.
#[derive(Clone, Debug)]
pub struct SmartAttribute {
    /// Attribute Identifier.
    pub id: u8,
    /// The identifier as a string.
    ///
    /// Should be used as the authoritative identifier for the attribute
    /// since it is derived from the numerical [`Self::id`] and the disk's `IDENTIFY` data and thus
    /// handles ID collisions between drives of different make and model.
    pub name: String,
    /// 16-bit attribute flags (bit `0` is prefail/oldage, bit `1 is online/offline).
    pub flags: u16,
    /// The current value or `-1` if unknown.
    pub value: i32,
    /// The worst value or `-1` if unknown.
    pub worst: i32,
    /// The threshold or `-1` if unknown.
    pub threshold: i32,
    /// An interpretation of the value - must be ignored if [`Self::pretty_unit`] is `0`.
    pub pretty: i64,
    /// The unit of the [`Self::pretty`] value.
    pub pretty_unit: PrettyUnit,
}

/// The unit of the [`SmartAttribute::pretty`] value.
#[derive(Clone, Copy, Debug, PartialEq, Eq, Structural)]
#[non_exhaustive]
pub enum PrettyUnit {
    /// The unit is not known.
    Unknown,
    /// A plain number.
    Dimentionless,
    /// Milliseconds.
    Milliseconds,
    /// Sectors.
    Sectors,
    /// Millikelvin.
    Millikelvin,
}

impl PrettyUnit {
    /// The number that stands for the value.
    pub open spec fn number(self) -> i32 {
        match self {
            PrettyUnit::Unknown => 0,
            PrettyUnit::Dimentionless => 1,
            PrettyUnit::Milliseconds => 2,
            PrettyUnit::Sectors => 3,
            PrettyUnit::Millikelvin => 4,
        }
    }

    /// The value that a number stands for, if it stands for one.
    pub open spec fn numbered(n: i32) -> Option<PrettyUnit> {
        if n == 0 {
            Some(PrettyUnit::Unknown)
        } else if n == 1 {
            Some(PrettyUnit::Dimentionless)
        } else if n == 2 {
            Some(PrettyUnit::Milliseconds)
        } else if n == 3 {
            Some(PrettyUnit::Sectors)
        } else if n == 4 {
            Some(PrettyUnit::Millikelvin)
        } else {
            None
        }
    }

    /// Returns the number that stands for the value.
    pub fn to_value(self) -> (r: i32)
        ensures
            r == self.number(),
            PrettyUnit::numbered(r) == Some(self),
    {
        match self {
            PrettyUnit::Unknown => 0,
            PrettyUnit::Dimentionless => 1,
            PrettyUnit::Milliseconds => 2,
            PrettyUnit::Sectors => 3,
            PrettyUnit::Millikelvin => 4,
        }
    }

    /// Reads the value from the number that stands for it.
    pub fn from_value(n: i32) -> (r: Option<PrettyUnit>)
        ensures
            r == PrettyUnit::numbered(n),
    {
        if n == 0 {
            Some(PrettyUnit::Unknown)
        } else if n == 1 {
            Some(PrettyUnit::Dimentionless)
        } else if n == 2 {
            Some(PrettyUnit::Milliseconds)
        } else if n == 3 {
            Some(PrettyUnit::Sectors)
        } else if n == 4 {
            Some(PrettyUnit::Millikelvin)
        } else {
            None
        }
    }
}

/// Type of test to run.
#[derive(Clone, Copy, Debug, PartialEq, Eq, Structural)]
#[non_exhaustive]
pub enum SelfTestType {
    /// Short self-test
    Short,
    /// Extended self-test
    Extended,
    /// Conveyance self-test
    Conveyance,
    /// Offline self-test (since 2.11.0)
    Offline,
}

impl SelfTestType {
    /// The service's word for the value.
    pub open spec fn word(self) -> Seq<char> {
        match self {
            SelfTestType::Short => "short"@,
            SelfTestType::Extended => "extended"@,
            SelfTestType::Conveyance => "conveyance"@,
            SelfTestType::Offline => "offline"@,
        }
    }

    /// The value that a word of the service stands for, if it stands for one.
    pub open spec fn named(s: Seq<char>) -> Option<SelfTestType> {
        if s == "short"@ {
            Some(SelfTestType::Short)
        } else if s == "extended"@ {
            Some(SelfTestType::Extended)
        } else if s == "conveyance"@ {
            Some(SelfTestType::Conveyance)
        } else if s == "offline"@ {
            Some(SelfTestType::Offline)
        } else {
            None
        }
    }

    /// Returns the service's word for the value.
    pub fn as_str(self) -> (r: &'static str)
        ensures
            r@ == self.word(),
    {
        match self {
            SelfTestType::Short => "short",
            SelfTestType::Extended => "extended",
            SelfTestType::Conveyance => "conveyance",
            SelfTestType::Offline => "offline",
        }
    }

    /// Reads the value from the service's word for it.
    pub fn from_str(s: &str) -> (r: Option<SelfTestType>)
        ensures
            r == SelfTestType::named(s@),
    {
        if s.eq("short") {
            Some(SelfTestType::Short)
        } else if s.eq("extended") {
            Some(SelfTestType::Extended)
        } else if s.eq("conveyance") {
            Some(SelfTestType::Conveyance)
        } else if s.eq("offline") {
            Some(SelfTestType::Offline)
        } else {
            None
        }
    }
}

/// Indicates the result of a SMART selftest.
#[derive(Clone, Copy, Debug, PartialEq, Eq, Structural)]
#[non_exhaustive]
pub enum SelfTestStatus {
    /// Last self-test was a success (or never ran)
    Success,
    /// Last self-test was aborted
    Aborted,
    /// Last self-test was interrupted
    Interrupted,
    /// Last self-test did not complete
    Fatal,
    /// Last self-test failed (Unknown)
    ErrorUnknown,
    /// Last self-test failed (Electrical)
    ErrorElectrical,
    /// Last self-test failed (Servo)
    ErrorServo,
    /// Last self-test failed (Read)
    ErrorRead,
    /// Last self-test failed (Damage)
    ErrorHandling,
    /// Self-test is currently in progress
    Inprogress,
}

impl SelfTestStatus {
    /// The service's word for the value.
    pub open spec fn word(self) -> Seq<char> {
        match self {
            SelfTestStatus::Success => "success"@,
            SelfTestStatus::Aborted => "aborted"@,
            SelfTestStatus::Interrupted => "interrupted"@,
            SelfTestStatus::Fatal => "fatal"@,
            SelfTestStatus::ErrorUnknown => "error_unknown"@,
            SelfTestStatus::ErrorElectrical => "error_electrical"@,
            SelfTestStatus::ErrorServo => "error_servo"@,
            SelfTestStatus::ErrorRead => "error_read"@,
            SelfTestStatus::ErrorHandling => "error_handling"@,
            SelfTestStatus::Inprogress => "inprogress"@,
        }
    }

    /// The value that a word of the service stands for, if it stands for one.
    pub open spec fn named(s: Seq<char>) -> Option<SelfTestStatus> {
        if s == "success"@ {
            Some(SelfTestStatus::Success)
        } else if s == "aborted"@ {
            Some(SelfTestStatus::Aborted)
        } else if s == "interrupted"@ {
            Some(SelfTestStatus::Interrupted)
        } else if s == "fatal"@ {
            Some(SelfTestStatus::Fatal)
        } else if s == "error_unknown"@ {
            Some(SelfTestStatus::ErrorUnknown)
        } else if s == "error_electrical"@ {
            Some(SelfTestStatus::ErrorElectrical)
        } else if s == "error_servo"@ {
            Some(SelfTestStatus::ErrorServo)
        } else if s == "error_read"@ {
            Some(SelfTestStatus::ErrorRead)
        } else if s == "error_handling"@ {
            Some(SelfTestStatus::ErrorHandling)
        } else if s == "inprogress"@ {
            Some(SelfTestStatus::Inprogress)
        } else {
            None
        }
    }

    /// Returns the service's word for the value.
    pub fn as_str(self) -> (r: &'static str)
        ensures
            r@ == self.word(),
    {
        match self {
            SelfTestStatus::Success => "success",
            SelfTestStatus::Aborted => "aborted",
            SelfTestStatus::Interrupted => "interrupted",
            SelfTestStatus::Fatal => "fatal",
            SelfTestStatus::ErrorUnknown => "error_unknown",
            SelfTestStatus::ErrorElectrical => "error_electrical",
            SelfTestStatus::ErrorServo => "error_servo",
            SelfTestStatus::ErrorRead => "error_read",
            SelfTestStatus::ErrorHandling => "error_handling",
            SelfTestStatus::Inprogress => "inprogress",
        }
    }

    /// Reads the value from the service's word for it.
    pub fn from_str(s: &str) -> (r: Option<SelfTestStatus>)
        ensures
            r == SelfTestStatus::named(s@),
    {
        if s.eq("success") {
            Some(SelfTestStatus::Success)
        } else if s.eq("aborted") {
            Some(SelfTestStatus::Aborted)
        } else if s.eq("interrupted") {
            Some(SelfTestStatus::Interrupted)
        } else if s.eq("fatal") {
            Some(SelfTestStatus::Fatal)
        } else if s.eq("error_unknown") {
            Some(SelfTestStatus::ErrorUnknown)
        } else if s.eq("error_electrical") {
            Some(SelfTestStatus::ErrorElectrical)
        } else if s.eq("error_servo") {
            Some(SelfTestStatus::ErrorServo)
        } else if s.eq("error_read") {
            Some(SelfTestStatus::ErrorRead)
        } else if s.eq("error_handling") {
            Some(SelfTestStatus::ErrorHandling)
        } else if s.eq("inprogress") {
            Some(SelfTestStatus::Inprogress)
        } else {
            None
        }
    }
}

} // verus!
