//! Errors of the storage service.
use vstd::prelude::*;
use vstd::string::*;
use vstd::std_specs::convert::FromSpecImpl;

verus! {

/// Alias for a `Result` with the error type [`Error`].
pub type Result<T> = std::result::Result<T, Error>;

/// An error of the message bus, as far as the library tells errors apart.
#[derive(Clone, Debug, PartialEq, Eq)]
pub enum BusError {
    /// The object does not expose the interface asked for.
    InterfaceNotFound,
    /// A call was answered with an error, which has a name and may have a detail.
    MethodError {
        /// Name of the error, such as `org.freedesktop.UDisks2.Error.Failed`.
        name: String,
        /// What the service said about it.
        detail: Option<String>,
    },
    /// Any other failure, with the words that describe it.
    Other(String),
}

/// The error type of the library.
///
/// Possible errors and their corresponding D-Bus error names.
#[derive(Clone, Debug, PartialEq, Eq)]
pub enum Error {
    /// The operation failed.
    Failed,
    /// The operation was cancelled.
    Cancelled,
    /// The operation has already been cancelled.
    AlreadyCancelled,
    /// Not authorized to perform the requested operation.
    NotAuthorized,
    /// Like [`Error::NotAuthorized`] but authorization can be obtained through e.g. authentication.
    NotAuthorizedCanObtain,
    /// Like [`Error::NotAuthorized`] but an authentication was shown and the user dismissed it.
    NotAuthorizedDismissed,
    /// The device is already mounted.
    AlreadyMounted,
    /// The device is not mounted.
    NotMounted,
    /// Not permitted to use the requested option.
    OptionNotPermitted,
    /// The device is mounted by another user.
    MountedByOtherUser,
    /// The device is already unmounting.
    AlreadyUnmounting,
    /// The operation is not supported due to missing driver/tool support.
    NotSupported,
    /// The operation timed out.
    TimedOut,
    /// The operation would wake up a disk that is in a deep-sleep state.
    WouldWakeup,
    /// Attempting to unmount a device that is busy.
    DeviceBusy,
    /// An error of an iSCSI operation.
    Iscsi(Iscsi),
    /// The operation failed due to an error of the message bus.
    Bus(BusError),
}

/// What went wrong in an iSCSI operation.
#[derive(Clone, Copy, Debug, PartialEq, Eq, Structural)]
pub enum Iscsi {
    /// The daemon could not be reached.
    DaemonTransportFailed,
    /// The host was not found.
    HostNotFound,
    /// The discovery database failed.
    Idmb,
    /// The login failed.
    LoginFailed,
    /// The login failed for want of authorization.
    LoginAuthFailed,
    /// The login failed for good.
    LoginFatal,
    /// The logout failed.
    LogoutFailed,
    /// No firmware was found.
    NoFirmware,
    /// No objects were found.
    NoObjectsFound,
    /// There is no connection.
    NotConnected,
    /// The transport failed.
    TransportFailed,
    /// The discovery type is not known.
    UnknownDiscoveryType,
}

impl Error {
    /// The error that a name of the service stands for, if it is one of the
    /// service's own.
    pub open spec fn named(name: Seq<char>) -> Option<Error> {
        if name == "org.freedesktop.UDisks2.Error.Failed"@ {
            Some(Error::Failed)
        } else if name == "org.freedesktop.UDisks2.Error.Cancelled"@ {
            Some(Error::Cancelled)
        } else if name == "org.freedesktop.UDisks2.Error.AlreadyCancelled"@ {
            Some(Error::AlreadyCancelled)
        } else if name == "org.freedesktop.UDisks2.Error.NotAuthorized"@ {
            Some(Error::NotAuthorized)
        } else if name == "org.freedesktop.UDisks2.Error.NotAuthorizedCanObtain"@ {
            Some(Error::NotAuthorizedCanObtain)
        } else if name == "org.freedesktop.UDisks2.Error.NotAuthorizedDismissed"@ {
            Some(Error::NotAuthorizedDismissed)
        } else if name == "org.freedesktop.UDisks2.Error.AlreadyMounted"@ {
            Some(Error::AlreadyMounted)
        } else if name == "org.freedesktop.UDisks2.Error.NotMounted"@ {
            Some(Error::NotMounted)
        } else if name == "org.freedesktop.UDisks2.Error.OptionNotPermitted"@ {
            Some(Error::OptionNotPermitted)
        } else if name == "org.freedesktop.UDisks2.Error.MountedByOtherUser"@ {
            Some(Error::MountedByOtherUser)
        } else if name == "org.freedesktop.UDisks2.Error.AlreadyUnmounting"@ {
            Some(Error::AlreadyUnmounting)
        } else if name == "org.freedesktop.UDisks2.Error.NotSupported"@ {
            Some(Error::NotSupported)
        } else if name == "org.freedesktop.UDisks2.Error.Timedout"@ {
            Some(Error::TimedOut)
        } else if name == "org.freedesktop.UDisks2.Error.WouldWakeup"@ {
            Some(Error::WouldWakeup)
        } else if name == "org.freedesktop.UDisks2.Error.DeviceBusy"@ {
            Some(Error::DeviceBusy)
        } else if name == "org.freedesktop.UDisks2.Error.ISCSI.DaemonTransportFailed"@ {
            Some(Error::Iscsi(Iscsi::DaemonTransportFailed))
        } else if name == "org.freedesktop.UDisks2.Error.ISCSI.HostNotFound"@ {
            Some(Error::Iscsi(Iscsi::HostNotFound))
        } else if name == "org.freedesktop.UDisks2.Error.ISCSI.IDMB"@ {
            Some(Error::Iscsi(Iscsi::Idmb))
        } else if name == "org.freedesktop.UDisks2.Error.ISCSI.LoginFailed"@ {
            Some(Error::Iscsi(Iscsi::LoginFailed))
        } else if name == "org.freedesktop.UDisks2.Error.ISCSI.LoginAuthFailed"@ {
            Some(Error::Iscsi(Iscsi::LoginAuthFailed))
        } else if name == "org.freedesktop.UDisks2.Error.ISCSI.LoginFatal"@ {
            Some(Error::Iscsi(Iscsi::LoginFatal))
        } else if name == "org.freedesktop.UDisks2.Error.ISCSI.LogoutFailed"@ {
            Some(Error::Iscsi(Iscsi::LogoutFailed))
        } else if name == "org.freedesktop.UDisks2.Error.ISCSI.NoFirmware"@ {
            Some(Error::Iscsi(Iscsi::NoFirmware))
        } else if name == "org.freedesktop.UDisks2.Error.ISCSI.NoObjectsFound"@ {
            Some(Error::Iscsi(Iscsi::NoObjectsFound))
        } else if name == "org.freedesktop.UDisks2.Error.ISCSI.NotConnected"@ {
            Some(Error::Iscsi(Iscsi::NotConnected))
        } else if name == "org.freedesktop.UDisks2.Error.ISCSI.TransportFailed"@ {
            Some(Error::Iscsi(Iscsi::TransportFailed))
        } else if name == "org.freedesktop.UDisks2.Error.ISCSI.UnknownDiscoveryType"@ {
            Some(Error::Iscsi(Iscsi::UnknownDiscoveryType))
        } else {
            None
        }
    }

    /// Reads an error of the service from its name.
    pub fn from_name(name: &str) -> (r: Option<Error>)
        ensures
            r == Error::named(name@),
    {
        if name.eq("org.freedesktop.UDisks2.Error.Failed") {
            Some(Error::Failed)
        } else if name.eq("org.freedesktop.UDisks2.Error.Cancelled") {
            Some(Error::Cancelled)
        } else if name.eq("org.freedesktop.UDisks2.Error.AlreadyCancelled") {
            Some(Error::AlreadyCancelled)
        } else if name.eq("org.freedesktop.UDisks2.Error.NotAuthorized") {
            Some(Error::NotAuthorized)
        } else if name.eq("org.freedesktop.UDisks2.Error.NotAuthorizedCanObtain") {
            Some(Error::NotAuthorizedCanObtain)
        } else if name.eq("org.freedesktop.UDisks2.Error.NotAuthorizedDismissed") {
            Some(Error::NotAuthorizedDismissed)
        } else if name.eq("org.freedesktop.UDisks2.Error.AlreadyMounted") {
            Some(Error::AlreadyMounted)
        } else if name.eq("org.freedesktop.UDisks2.Error.NotMounted") {
            Some(Error::NotMounted)
        } else if name.eq("org.freedesktop.UDisks2.Error.OptionNotPermitted") {
            Some(Error::OptionNotPermitted)
        } else if name.eq("org.freedesktop.UDisks2.Error.MountedByOtherUser") {
            Some(Error::MountedByOtherUser)
        } else if name.eq("org.freedesktop.UDisks2.Error.AlreadyUnmounting") {
            Some(Error::AlreadyUnmounting)
        } else if name.eq("org.freedesktop.UDisks2.Error.NotSupported") {
            Some(Error::NotSupported)
        } else if name.eq("org.freedesktop.UDisks2.Error.Timedout") {
            Some(Error::TimedOut)
        } else if name.eq("org.freedesktop.UDisks2.Error.WouldWakeup") {
            Some(Error::WouldWakeup)
        } else if name.eq("org.freedesktop.UDisks2.Error.DeviceBusy") {
            Some(Error::DeviceBusy)
        } else if name.eq("org.freedesktop.UDisks2.Error.ISCSI.DaemonTransportFailed") {
            Some(Error::Iscsi(Iscsi::DaemonTransportFailed))
        } else if name.eq("org.freedesktop.UDisks2.Error.ISCSI.HostNotFound") {
            Some(Error::Iscsi(Iscsi::HostNotFound))
        } else if name.eq("org.freedesktop.UDisks2.Error.ISCSI.IDMB") {
            Some(Error::Iscsi(Iscsi::Idmb))
        } else if name.eq("org.freedesktop.UDisks2.Error.ISCSI.LoginFailed") {
            Some(Error::Iscsi(Iscsi::LoginFailed))
        } else if name.eq("org.freedesktop.UDisks2.Error.ISCSI.LoginAuthFailed") {
            Some(Error::Iscsi(Iscsi::LoginAuthFailed))
        } else if name.eq("org.freedesktop.UDisks2.Error.ISCSI.LoginFatal") {
            Some(Error::Iscsi(Iscsi::LoginFatal))
        } else if name.eq("org.freedesktop.UDisks2.Error.ISCSI.LogoutFailed") {
            Some(Error::Iscsi(Iscsi::LogoutFailed))
        } else if name.eq("org.freedesktop.UDisks2.Error.ISCSI.NoFirmware") {
            Some(Error::Iscsi(Iscsi::NoFirmware))
        } else if name.eq("org.freedesktop.UDisks2.Error.ISCSI.NoObjectsFound") {
            Some(Error::Iscsi(Iscsi::NoObjectsFound))
        } else if name.eq("org.freedesktop.UDisks2.Error.ISCSI.NotConnected") {
            Some(Error::Iscsi(Iscsi::NotConnected))
        } else if name.eq("org.freedesktop.UDisks2.Error.ISCSI.TransportFailed") {
            Some(Error::Iscsi(Iscsi::TransportFailed))
        } else if name.eq("org.freedesktop.UDisks2.Error.ISCSI.UnknownDiscoveryType") {
            Some(Error::Iscsi(Iscsi::UnknownDiscoveryType))
        } else {
            None
        }
    }

    /// The error that a failure of the message bus amounts to: the service's
    /// own error where a call was answered with one of its names, else the
    /// failure itself.
    pub open spec fn of_bus(value: BusError) -> Error {
        match value {
            BusError::MethodError { name, detail } => match Error::named(name@) {
                Some(e) => e,
                None => Error::Bus(value),
            },
            _ => Error::Bus(value),
        }
    }

    /// The condition under which every lookup of an interface fails.
    pub open spec fn not_found() -> Error {
        Error::Bus(BusError::InterfaceNotFound)
    }

    /// The words that describe the error.
    pub open spec fn spec_message(self) -> Seq<char> {
        match self {
            Error::Failed => "The operation failed"@,
            Error::Cancelled => "The operation was cancelled."@,
            Error::AlreadyCancelled => "The operation has already been cancelled."@,
            Error::NotAuthorized => "Not authorized to perform the requested operation."@,
            Error::NotAuthorizedCanObtain => "Like `Error::NotAuthorized` but authorization can be obtained through e.g. authentication."@,
            Error::NotAuthorizedDismissed => "Like `Error::NotAuthorized` but an authentication was shown and the user dismissed it."@,
            Error::AlreadyMounted => "The device is already mounted."@,
            Error::NotMounted => "The device is not mounted."@,
            Error::OptionNotPermitted => "Not permitted to use the requested option."@,
            Error::MountedByOtherUser => "The device is mounted by another user."@,
            Error::AlreadyUnmounting => "The device is already unmounting."@,
            Error::NotSupported => "The operation is not supported due to missing driver/tool support."@,
            Error::TimedOut => "The operation timed out."@,
            Error::WouldWakeup => "The operation would wake up a disk that is in a deep-sleep state."@,
            Error::DeviceBusy => "Attempting to unmount a device that is busy."@,
            Error::Iscsi(_) => "An ISCSI error occured."@,
            Error::Bus(e) => e.spec_message(),
        }
    }

    /// The words that describe the error.
    pub fn message(&self) -> (r: String)
        ensures
            r@ == self.spec_message(),
    {
        match self {
            Error::Failed => "The operation failed".to_owned(),
            Error::Cancelled => "The operation was cancelled.".to_owned(),
            Error::AlreadyCancelled => "The operation has already been cancelled.".to_owned(),
            Error::NotAuthorized => "Not authorized to perform the requested operation.".to_owned(),
            Error::NotAuthorizedCanObtain => "Like `Error::NotAuthorized` but authorization can be obtained through e.g. authentication.".to_owned(),
            Error::NotAuthorizedDismissed => "Like `Error::NotAuthorized` but an authentication was shown and the user dismissed it.".to_owned(),
            Error::AlreadyMounted => "The device is already mounted.".to_owned(),
            Error::NotMounted => "The device is not mounted.".to_owned(),
            Error::OptionNotPermitted => "Not permitted to use the requested option.".to_owned(),
            Error::MountedByOtherUser => "The device is mounted by another user.".to_owned(),
            Error::AlreadyUnmounting => "The device is already unmounting.".to_owned(),
            Error::NotSupported => "The operation is not supported due to missing driver/tool support.".to_owned(),
            Error::TimedOut => "The operation timed out.".to_owned(),
            Error::WouldWakeup => "The operation would wake up a disk that is in a deep-sleep state.".to_owned(),
            Error::DeviceBusy => "Attempting to unmount a device that is busy.".to_owned(),
            Error::Iscsi(_) => "An ISCSI error occured.".to_owned(),
            Error::Bus(e) => e.message(),
        }
    }
}

impl BusError {
    /// The words that describe the failure.
    pub open spec fn spec_message(self) -> Seq<char> {
        match self {
            BusError::InterfaceNotFound => "Interface not found"@,
            BusError::MethodError { name, detail } => name@ + ": "@ + match detail {
                Some(d) => d@,
                None => "no details"@,
            },
            BusError::Other(text) => text@,
        }
    }

    /// The words that describe the failure.
    pub fn message(&self) -> (r: String)
        ensures
            r@ == self.spec_message(),
    {
        match self {
            BusError::InterfaceNotFound => "Interface not found".to_owned(),
            BusError::MethodError { name, detail } => {
                let mut r = name.clone();
                r.append(": ");
                match detail {
                    Some(d) => r.append(d.as_str()),
                    None => r.append("no details"),
                }
                r
            },
            BusError::Other(text) => text.clone(),
        }
    }
}

impl From<BusError> for Error {
    fn from(value: BusError) -> (r: Error) {
        let known = match &value {
            BusError::MethodError { name, detail } => Error::from_name(name.as_str()),
            _ => None,
        };
        match known {
            Some(e) => e,
            None => Error::Bus(value),
        }
    }
}

impl FromSpecImpl<BusError> for Error {
    open spec fn obeys_from_spec() -> bool {
        true
    }

    open spec fn from_spec(value: BusError) -> Error {
        Error::of_bus(value)
    }
}

} // verus!
