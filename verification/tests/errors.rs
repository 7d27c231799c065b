use udisks2::error::{BusError, Error, Iscsi};

fn method_error(name: &str) -> BusError {
    BusError::MethodError { name: name.to_string(), detail: Some("why".to_string()) }
}

#[test]
fn errors_of_the_service_are_read_from_their_names() {
    let cases = [
        ("Failed", Error::Failed),
        ("Cancelled", Error::Cancelled),
        ("AlreadyCancelled", Error::AlreadyCancelled),
        ("NotAuthorized", Error::NotAuthorized),
        ("NotAuthorizedCanObtain", Error::NotAuthorizedCanObtain),
        ("NotAuthorizedDismissed", Error::NotAuthorizedDismissed),
        ("AlreadyMounted", Error::AlreadyMounted),
        ("NotMounted", Error::NotMounted),
        ("OptionNotPermitted", Error::OptionNotPermitted),
        ("MountedByOtherUser", Error::MountedByOtherUser),
        ("AlreadyUnmounting", Error::AlreadyUnmounting),
        ("NotSupported", Error::NotSupported),
        ("Timedout", Error::TimedOut),
        ("WouldWakeup", Error::WouldWakeup),
        ("DeviceBusy", Error::DeviceBusy),
        ("ISCSI.DaemonTransportFailed", Error::Iscsi(Iscsi::DaemonTransportFailed)),
        ("ISCSI.HostNotFound", Error::Iscsi(Iscsi::HostNotFound)),
        ("ISCSI.IDMB", Error::Iscsi(Iscsi::Idmb)),
        ("ISCSI.LoginFailed", Error::Iscsi(Iscsi::LoginFailed)),
        ("ISCSI.LoginAuthFailed", Error::Iscsi(Iscsi::LoginAuthFailed)),
        ("ISCSI.LoginFatal", Error::Iscsi(Iscsi::LoginFatal)),
        ("ISCSI.LogoutFailed", Error::Iscsi(Iscsi::LogoutFailed)),
        ("ISCSI.NoFirmware", Error::Iscsi(Iscsi::NoFirmware)),
        ("ISCSI.NoObjectsFound", Error::Iscsi(Iscsi::NoObjectsFound)),
        ("ISCSI.NotConnected", Error::Iscsi(Iscsi::NotConnected)),
        ("ISCSI.TransportFailed", Error::Iscsi(Iscsi::TransportFailed)),
        ("ISCSI.UnknownDiscoveryType", Error::Iscsi(Iscsi::UnknownDiscoveryType)),
    ];
    for (name, expected) in cases {
        let full = format!("org.freedesktop.UDisks2.Error.{}", name);
        assert_eq!(Error::from_name(&full), Some(expected.clone()));
        assert_eq!(Error::from(method_error(&full)), expected);
    }
}

#[test]
fn any_other_failure_of_the_bus_is_kept() {
    assert_eq!(Error::from_name("org.freedesktop.UDisks2.Error.TimedOut"), None);
    assert_eq!(Error::from_name("org.freedesktop.DBus.Error.Failed"), None);
    assert_eq!(Error::from_name(""), None);
    let other = method_error("org.freedesktop.DBus.Error.AccessDenied");
    assert_eq!(Error::from(other.clone()), Error::Bus(other));
    assert_eq!(
        Error::from(BusError::InterfaceNotFound),
        Error::Bus(BusError::InterfaceNotFound)
    );
    let text = BusError::Other("Invalid GUID".to_string());
    assert_eq!(Error::from(text.clone()), Error::Bus(text));
}

#[test]
fn errors_in_words() {
    assert_eq!(Error::Failed.message(), "The operation failed");
    assert_eq!(Error::Cancelled.message(), "The operation was cancelled.");
    assert_eq!(Error::AlreadyCancelled.message(), "The operation has already been cancelled.");
    assert_eq!(
        Error::NotAuthorized.message(),
        "Not authorized to perform the requested operation."
    );
    assert_eq!(Error::AlreadyMounted.message(), "The device is already mounted.");
    assert_eq!(Error::NotMounted.message(), "The device is not mounted.");
    assert_eq!(Error::TimedOut.message(), "The operation timed out.");
    assert_eq!(Error::DeviceBusy.message(), "Attempting to unmount a device that is busy.");
    assert_eq!(Error::Iscsi(Iscsi::Idmb).message(), "An ISCSI error occured.");
    assert_eq!(Error::Bus(BusError::InterfaceNotFound).message(), "Interface not found");
    assert_eq!(Error::Bus(method_error("a.b.C")).message(), "a.b.C: why");
    assert_eq!(
        Error::Bus(BusError::MethodError { name: "a.b.C".to_string(), detail: None }).message(),
        "a.b.C: no details"
    );
    assert_eq!(Error::Bus(BusError::Other("Invalid GUID".to_string())).message(), "Invalid GUID");
    assert_eq!(BusError::InterfaceNotFound.message(), "Interface not found");
}
