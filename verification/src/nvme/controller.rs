//! Values of a controller device in a NVM subsystem.
use vstd::prelude::*;

verus! {

/// Indicates the type of sanitize action to take.
#[derive(Clone, Copy, Debug, PartialEq, Eq, Structural)]
pub enum SanitizeAction {
    /// Erase the blocks.
    BlockErase,
    /// Overwrite the media. The number of passes (1-15), the 32-bit pattern and
    /// whether the pattern is inverted between passes can be set by options.
    Overwrite,
    /// Erase the key that the media is encrypted with.
    CryptoErase,
}

impl SanitizeAction {
    /// The service's word for the value.
    pub open spec fn word(self) -> Seq<char> {
        match self {
            SanitizeAction::BlockErase => "block-erase"@,
            SanitizeAction::Overwrite => "overwrite"@,
            SanitizeAction::CryptoErase => "crypto-erase"@,
        }
    }

    /// The value that a word of the service stands for, if it stands for one.
    pub open spec fn named(s: Seq<char>) -> Option<SanitizeAction> {
        if s == "block-erase"@ {
            Some(SanitizeAction::BlockErase)
        } else if s == "overwrite"@ {
            Some(SanitizeAction::Overwrite)
        } else if s == "crypto-erase"@ {
            Some(SanitizeAction::CryptoErase)
        } else {
            None
        }
    }

    /// Returns the service's word for the value.
    pub fn as_str(self) -> (r: &'static str)
        ensures
            r@ == self.word(),
    {
        match self {
            SanitizeAction::BlockErase => "block-erase",
            SanitizeAction::Overwrite => "overwrite",
            SanitizeAction::CryptoErase => "crypto-erase",
        }
    }

    /// Reads the value from the service's word for it.
    pub fn from_str(s: &str) -> (r: Option<SanitizeAction>)
        ensures
            r == SanitizeAction::named(s@),
    {
        if s.eq("block-erase") {
            Some(SanitizeAction::BlockErase)
        } else if s.eq("overwrite") {
            Some(SanitizeAction::Overwrite)
        } else if s.eq("crypto-erase") {
            Some(SanitizeAction::CryptoErase)
        } else {
            None
        }
    }
}

/// Information about the most recent sanitize operation.
#[derive(Clone, Copy, Debug, PartialEq, Eq, Structural)]
#[non_exhaustive]
pub enum SanitizeStatus {
    /// The NVM subsystem has never been sanitized (or the status is unknown).
    NeverSanitized,
    /// Operation completed successfully.
    Success,
    /// The most recent sanitize operation failed.
    Failure,
    /// A sanitize operation is currently in progress.
    Inprogress,
}

impl SanitizeStatus {
    /// The service's word for the value.
    pub open spec fn word(self) -> Seq<char> {
        match self {
            SanitizeStatus::NeverSanitized => "never_sanitized"@,
            SanitizeStatus::Success => "success"@,
            SanitizeStatus::Failure => "failure"@,
            SanitizeStatus::Inprogress => "inprogress"@,
        }
    }

    /// The value that a word of the service stands for, if it stands for one.
    pub open spec fn named(s: Seq<char>) -> Option<SanitizeStatus> {
        if s == "never_sanitized"@ {
            Some(SanitizeStatus::NeverSanitized)
        } else if s == "success"@ {
            Some(SanitizeStatus::Success)
        } else if s == "failure"@ {
            Some(SanitizeStatus::Failure)
        } else if s == "inprogress"@ {
            Some(SanitizeStatus::Inprogress)
        } else {
            None
        }
    }

    /// Returns the service's word for the value.
    pub fn as_str(self) -> (r: &'static str)
        ensures
            r@ == self.word(),
    {
        match self {
            SanitizeStatus::NeverSanitized => "never_sanitized",
            SanitizeStatus::Success => "success",
            SanitizeStatus::Failure => "failure",
            SanitizeStatus::Inprogress => "inprogress",
        }
    }

    /// Reads the value from the service's word for it.
    pub fn from_str(s: &str) -> (r: Option<SanitizeStatus>)
        ensures
            r == SanitizeStatus::named(s@),
    {
        if s.eq("never_sanitized") {
            Some(SanitizeStatus::NeverSanitized)
        } else if s.eq("success") {
            Some(SanitizeStatus::Success)
        } else if s.eq("failure") {
            Some(SanitizeStatus::Failure)
        } else if s.eq("inprogress") {
            Some(SanitizeStatus::Inprogress)
        } else {
            None
        }
    }
}

/// A critical warning about the state of a controller.
#[derive(Clone, Copy, Debug, PartialEq, Eq, Structural)]
#[non_exhaustive]
pub enum SmartCriticalWarning {
    /// The available spare capacity has fallen below the threshold.
    Spare,
    /// A temperature is either greater than or equal to an over temperature threshold;
    /// or less than or equal to an under temperature threshold.
    Temperature,
    /// The NVM subsystem reliability has been degraded due to significant media
    /// related errors or any internal error that degrades NVM subsystem reliability.
    Degraded,
    /// All of the media has been placed in read only mode.
    ///
    /// Unrelated to the write protection state of a namespace.
    Readonly,
    /// The volatile memory backup device has failed.
    ///
    /// Only valid if the controller has a volatile memory backup solution
    VolatileMem,
    /// Persistent Memory Region has become read-only or unreliable.
    PmrReadonly,
}

impl SmartCriticalWarning {
    /// The service's word for the value.
    pub open spec fn word(self) -> Seq<char> {
        match self {
            SmartCriticalWarning::Spare => "spare"@,
            SmartCriticalWarning::Temperature => "temperature"@,
            SmartCriticalWarning::Degraded => "degraded"@,
            SmartCriticalWarning::Readonly => "readonly"@,
            SmartCriticalWarning::VolatileMem => "volatile_mem"@,
            SmartCriticalWarning::PmrReadonly => "pmr_readonly"@,
        }
    }

    /// The value that a word of the service stands for, if it stands for one.
    pub open spec fn named(s: Seq<char>) -> Option<SmartCriticalWarning> {
        if s == "spare"@ {
            Some(SmartCriticalWarning::Spare)
        } else if s == "temperature"@ {
            Some(SmartCriticalWarning::Temperature)
        } else if s == "degraded"@ {
            Some(SmartCriticalWarning::Degraded)
        } else if s == "readonly"@ {
            Some(SmartCriticalWarning::Readonly)
        } else if s == "volatile_mem"@ {
            Some(SmartCriticalWarning::VolatileMem)
        } else if s == "pmr_readonly"@ {
            Some(SmartCriticalWarning::PmrReadonly)
        } else {
            None
        }
    }

    /// Returns the service's word for the value.
    pub fn as_str(self) -> (r: &'static str)
        ensures
            r@ == self.word(),
    {
        match self {
            SmartCriticalWarning::Spare => "spare",
            SmartCriticalWarning::Temperature => "temperature",
            SmartCriticalWarning::Degraded => "degraded",
            SmartCriticalWarning::Readonly => "readonly",
            SmartCriticalWarning::VolatileMem => "volatile_mem",
            SmartCriticalWarning::PmrReadonly => "pmr_readonly",
        }
    }

    /// Reads the value from the service's word for it.
    pub fn from_str(s: &str) -> (r: Option<SmartCriticalWarning>)
        ensures
            r == SmartCriticalWarning::named(s@),
    {
        if s.eq("spare") {
            Some(SmartCriticalWarning::Spare)
        } else if s.eq("temperature") {
            Some(SmartCriticalWarning::Temperature)
        } else if s.eq("degraded") {
            Some(SmartCriticalWarning::Degraded)
        } else if s.eq("readonly") {
            Some(SmartCriticalWarning::Readonly)
        } else if s.eq("volatile_mem") {
            Some(SmartCriticalWarning::VolatileMem)
        } else if s.eq("pmr_readonly") {
            Some(SmartCriticalWarning::PmrReadonly)
        } else {
            None
        }
    }
}

/// SMART attributes of a controller.
#[derive(Clone, Debug)]
#[non_exhaustive]
pub struct SmartAttribute {
    /// Available Spare.
    ///
    /// A normalized percentage (0% to 100%) of the remaining spare capacity available.
    pub avail_spare: u8,
    /// Available Spare Threshold.
    ///
    /// A normalized percentage (0% to 100%) of the available spare threshold.
    pub spare_thresh: u8,
    /// Percentage Used.
    ///
    /// A vendor specific estimate of the percentage drive life used based
    /// on the actual usage and the manufacturer's prediction.
    /// A value of 100 indicates that the estimated endurance has been consumed,
    /// but may not indicate an NVM subsystem failure.
    /// The value is allowed to exceed 100.
    pub percent_used: u8,
    /// An estimated calculation of total data read in bytes based on calculation
    /// of data units read from the host.
    pub total_data_read: u64,
    /// An estimated calculation of total data written in bytes based on calculation
    /// of data units written by the host.
    pub total_data_written: u64,
    /// Amount of time the controller is busy with I/O commands, reported in minutes.
    pub ctrl_busy_time: u64,
    /// The number of power cycles.
    pub power_cycles: u64,
    /// The number of unsafe shutdowns as a result of a Shutdown Notification
    /// not received prior to loss of power.
    pub unsafe_shutdowns: u64,
    /// Media and Data Integrity Errors.
    ///
    /// The number of occurrences where the controller detected an unrecovered data
    /// integrity error (e.g. uncorrectable ECC, CRC checksum failure, or LBA tag mismatch).
    pub media_errors: u64,
    /// Number of Error Information Log Entries.
    ///
    /// The number of Error Information log entries over the life of the controller.
    pub num_err_log_entries: u64,
    /// Array of the current temperature reported by temperature sensors 1-8 in Kelvins
    /// or 0 when the particular sensor is not available.
    pub temp_sensors: Vec<u16>,
    /// Warning Composite Temperature Threshold (WCTEMP).
    ///
    /// Indicates the minimum Composite Temperature value that indicates an
    /// overheating condition during which controller operation continues.
    pub wctemp: u16,
    /// Critical Composite Temperature Threshold (CCTEMP).
    ///
    /// Indicates the minimum Composite Temperature value that indicates a
    /// critical overheating condition (e.g., may prevent continued normal
    /// operation, possibility of data loss, automatic device shutdown,
    /// extreme performance throttling, or permanent damage).
    pub cctemp: u16,
    /// Warning Composite Temperature Time.
    ///
    /// The amount of time in minutes that the Composite Temperature is
    /// greater than or equal to the Warning Composite Temperature Threshold
    /// ([`Self::wctemp`]) and less than the Critical Composite Temperature
    /// Threshold ([`Self::cctemp`]).
    pub warning_temp_time: u32,
    /// Critical Composite Temperature Time.
    ///
    /// The amount of time in minutes that the Composite Temperature is
    /// greater than or equal to the Critical Composite Temperature Threshold
    /// ([`Self::cctemp`]).
    pub critical_temp_time: u32,
}

/// Indicates the result of a device self-test.
#[derive(Clone, Copy, Debug, PartialEq, Eq, Structural)]
#[non_exhaustive]
pub enum SmartSelftestStatus {
    /// Operation completed without error (or never ran).
    Success,
    /// Operation was aborted by a Device Self-test command.
    Aborted,
    /// Operation was aborted by a Controller Level Reset.
    CtrlReset,
    /// Operation was aborted due to a removal of a namespace
    /// from the namespace inventory.
    NsRemoved,
    /// Operation was aborted due to the processing of a
    /// Format NVM command.
    AbortedFormat,
    /// A fatal error or unknown test error occurred while the
    /// controller was executing the device self-test operation
    /// and the operation did not complete.
    FatalError,
    /// Operation completed with a segment that failed and the
    /// segment that failed is not known.
    UnknownSegFail,
    /// Operation completed with one or more failed segments.
    KnownSegFail,
    /// Operation was aborted for unknown reason.
    AbortedUnknown,
    /// Operation was aborted due to a sanitize operation.
    AbortedSanitize,
    /// Self-test operation is currently in progress.
    Inprogress,
}

impl SmartSelftestStatus {
    /// The service's word for the value.
    pub open spec fn word(self) -> Seq<char> {
        match self {
            SmartSelftestStatus::Success => "success"@,
            SmartSelftestStatus::Aborted => "aborted"@,
            SmartSelftestStatus::CtrlReset => "ctrl_reset"@,
            SmartSelftestStatus::NsRemoved => "ns_removed"@,
            SmartSelftestStatus::AbortedFormat => "aborted_format"@,
            SmartSelftestStatus::FatalError => "fatal_error"@,
            SmartSelftestStatus::UnknownSegFail => "unknown_seg_fail"@,
            SmartSelftestStatus::KnownSegFail => "known_seg_fail"@,
            SmartSelftestStatus::AbortedUnknown => "aborted_unknown"@,
            SmartSelftestStatus::AbortedSanitize => "aborted_sanitize"@,
            SmartSelftestStatus::Inprogress => "inprogress"@,
        }
    }

    /// The value that a word of the service stands for, if it stands for one.
    pub open spec fn named(s: Seq<char>) -> Option<SmartSelftestStatus> {
        if s == "success"@ {
            Some(SmartSelftestStatus::Success)
        } else if s == "aborted"@ {
            Some(SmartSelftestStatus::Aborted)
        } else if s == "ctrl_reset"@ {
            Some(SmartSelftestStatus::CtrlReset)
        } else if s == "ns_removed"@ {
            Some(SmartSelftestStatus::NsRemoved)
        } else if s == "aborted_format"@ {
            Some(SmartSelftestStatus::AbortedFormat)
        } else if s == "fatal_error"@ {
            Some(SmartSelftestStatus::FatalError)
        } else if s == "unknown_seg_fail"@ {
            Some(SmartSelftestStatus::UnknownSegFail)
        } else if s == "known_seg_fail"@ {
            Some(SmartSelftestStatus::KnownSegFail)
        } else if s == "aborted_unknown"@ {
            Some(SmartSelftestStatus::AbortedUnknown)
        } else if s == "aborted_sanitize"@ {
            Some(SmartSelftestStatus::AbortedSanitize)
        } else if s == "inprogress"@ {
            Some(SmartSelftestStatus::Inprogress)
        } else {
            None
        }
    }

    /// Returns the service's word for the value.
    pub fn as_str(self) -> (r: &'static str)
        ensures
            r@ == self.word(),
    {
        match self {
            SmartSelftestStatus::Success => "success",
            SmartSelftestStatus::Aborted => "aborted",
            SmartSelftestStatus::CtrlReset => "ctrl_reset",
            SmartSelftestStatus::NsRemoved => "ns_removed",
            SmartSelftestStatus::AbortedFormat => "aborted_format",
            SmartSelftestStatus::FatalError => "fatal_error",
            SmartSelftestStatus::UnknownSegFail => "unknown_seg_fail",
            SmartSelftestStatus::KnownSegFail => "known_seg_fail",
            SmartSelftestStatus::AbortedUnknown => "aborted_unknown",
            SmartSelftestStatus::AbortedSanitize => "aborted_sanitize",
            SmartSelftestStatus::Inprogress => "inprogress",
        }
    }

    /// Reads the value from the service's word for it.
    pub fn from_str(s: &str) -> (r: Option<SmartSelftestStatus>)
        ensures
            r == SmartSelftestStatus::named(s@),
    {
        if s.eq("success") {
            Some(SmartSelftestStatus::Success)
        } else if s.eq("aborted") {
            Some(SmartSelftestStatus::Aborted)
        } else if s.eq("ctrl_reset") {
            Some(SmartSelftestStatus::CtrlReset)
        } else if s.eq("ns_removed") {
            Some(SmartSelftestStatus::NsRemoved)
        } else if s.eq("aborted_format") {
            Some(SmartSelftestStatus::AbortedFormat)
        } else if s.eq("fatal_error") {
            Some(SmartSelftestStatus::FatalError)
        } else if s.eq("unknown_seg_fail") {
            Some(SmartSelftestStatus::UnknownSegFail)
        } else if s.eq("known_seg_fail") {
            Some(SmartSelftestStatus::KnownSegFail)
        } else if s.eq("aborted_unknown") {
            Some(SmartSelftestStatus::AbortedUnknown)
        } else if s.eq("aborted_sanitize") {
            Some(SmartSelftestStatus::AbortedSanitize)
        } else if s.eq("inprogress") {
            Some(SmartSelftestStatus::Inprogress)
        } else {
            None
        }
    }
}

/// Controller operating state.
#[derive(Clone, Copy, Debug, PartialEq, Eq, Structural)]
#[non_exhaustive]
pub enum State {
    /// Controller is up and running.
    Live,
    /// Controller has been created.
    New,
    /// Controller is resetting.
    Resetting,
    /// Controller is connecting.
    Connecting,
    /// Controller is being deleted.
    Deleting,
    /// Controller is being deleted and takes no I/O.
    DeletingNoIO,
    /// Controller is dead.
    Dead,
}

impl State {
    /// The service's word for the value.
    pub open spec fn word(self) -> Seq<char> {
        match self {
            State::Live => "live"@,
            State::New => "new"@,
            State::Resetting => "resetting"@,
            State::Connecting => "connecting"@,
            State::Deleting => "deleting"@,
            State::DeletingNoIO => "deleting (no IO)"@,
            State::Dead => "dead"@,
        }
    }

    /// The value that a word of the service stands for, if it stands for one.
    pub open spec fn named(s: Seq<char>) -> Option<State> {
        if s == "live"@ {
            Some(State::Live)
        } else if s == "new"@ {
            Some(State::New)
        } else if s == "resetting"@ {
            Some(State::Resetting)
        } else if s == "connecting"@ {
            Some(State::Connecting)
        } else if s == "deleting"@ {
            Some(State::Deleting)
        } else if s == "deleting (no IO)"@ {
            Some(State::DeletingNoIO)
        } else if s == "dead"@ {
            Some(State::Dead)
        } else {
            None
        }
    }

    /// Returns the service's word for the value.
    pub fn as_str(self) -> (r: &'static str)
        ensures
            r@ == self.word(),
    {
        match self {
            State::Live => "live",
            State::New => "new",
            State::Resetting => "resetting",
            State::Connecting => "connecting",
            State::Deleting => "deleting",
            State::DeletingNoIO => "deleting (no IO)",
            State::Dead => "dead",
        }
    }

    /// Reads the value from the service's word for it.
    pub fn from_str(s: &str) -> (r: Option<State>)
        ensures
            r == State::named(s@),
    {
        if s.eq("live") {
            Some(State::Live)
        } else if s.eq("new") {
            Some(State::New)
        } else if s.eq("resetting") {
            Some(State::Resetting)
        } else if s.eq("connecting") {
            Some(State::Connecting)
        } else if s.eq("deleting") {
            Some(State::Deleting)
        } else if s.eq("deleting (no IO)") {
            Some(State::DeletingNoIO)
        } else if s.eq("dead") {
            Some(State::Dead)
        } else {
            None
        }
    }
}

/// Type of selftest to run.
#[derive(Clone, Copy, Debug, PartialEq, Eq, Structural)]
#[non_exhaustive]
pub enum SelfTestType {
    /// Short self-test
    Short,
    /// Extended self-test
    Extended,
    /// A self-test that the vendor defines.
    VendorSpecific,
}

impl SelfTestType {
    /// The service's word for the value.
    pub open spec fn word(self) -> Seq<char> {
        match self {
            SelfTestType::Short => "short"@,
            SelfTestType::Extended => "extended"@,
            SelfTestType::VendorSpecific => "vendor-specific"@,
        }
    }

    /// The value that a word of the service stands for, if it stands for one.
    pub open spec fn named(s: Seq<char>) -> Option<SelfTestType> {
        if s == "short"@ {
            Some(SelfTestType::Short)
        } else if s == "extended"@ {
            Some(SelfTestType::Extended)
        } else if s == "vendor-specific"@ {
            Some(SelfTestType::VendorSpecific)
        } else {
            None
        }
    }

    /// Returns the service's word for the value.
    pub fn as_str(self) -> (r: &'static str)
        ensures
            r@ == self.word(),
    {
        match self {
            SelfTestType::Short => "short",
            SelfTestType::Extended => "extended",
            SelfTestType::VendorSpecific => "vendor-specific",
        }
    }

    /// Reads the value from the service's word for it.
    pub fn from_str(s: &str) -> (r: Option<SelfTestType>)
        ensures
            r == SelfTestType::named(s@),
    {
        if s.eq("short") {
            Some(SelfTestType::Short)
        } else if s.eq("extended") {
            Some(SelfTestType::Extended)
        } else if s.eq("vendor-specific") {
            Some(SelfTestType::VendorSpecific)
        } else {
            None
        }
    }
}

} // verus!
