use serial_exchange::directory::{list_transports, listing_failure_line, port_report};
use serial_exchange::error::SerialError;
use serial_exchange::handle::open_transport;

fn names(list: &[&str]) -> Vec<String> {
    list.iter().map(|name| name.to_string()).collect()
}

#[test]
fn no_devices_is_an_empty_list_not_an_error() {
    assert_eq!(list_transports(Ok(Vec::new())), Ok(Vec::new()));
}

#[test]
fn devices_are_listed_as_reported() {
    let found = names(&["/dev/ttyUSB1", "/dev/ttyUSB0", "/dev/ttyUSB1"]);
    assert_eq!(list_transports(Ok(found.clone())), Ok(found));
}

#[test]
fn failed_enumeration_is_a_listing_error() {
    assert_eq!(
        list_transports(Err("permission denied".to_string())),
        Err(SerialError::ListPortsError("permission denied".to_string()))
    );
}

#[test]
fn report_of_no_ports() {
    assert_eq!(port_report(&Vec::new()), names(&["No serial ports found."]));
}

#[test]
fn report_of_some_ports() {
    assert_eq!(
        port_report(&names(&["COM6", "COM3"])),
        names(&["Available serial ports:", "COM6", "COM3"])
    );
    assert_eq!(port_report(&names(&[""])), names(&["Available serial ports:", ""]));
}

#[test]
fn report_of_a_listing_failure() {
    assert_eq!(listing_failure_line("no driver"), "Error listing ports: no driver");
    assert_eq!(listing_failure_line(""), "Error listing ports: ");
}

#[test]
fn opened_transport_gives_a_handle() {
    let handle = open_transport("simulated://A", 9600, Ok(())).unwrap();
    assert_eq!(handle.identifier(), "simulated://A");
    assert_eq!(handle.speed(), 9600);
}

#[test]
fn exclusively_held_identifier_fails_to_open() {
    let first = open_transport("/dev/ttyS0", 9600, Ok(()));
    assert!(first.is_ok());
    let second = open_transport("/dev/ttyS0", 9600, Err("Device or resource busy".to_string()));
    assert_eq!(
        second,
        Err(SerialError::OpenPortError(
            "/dev/ttyS0".to_string(),
            "Device or resource busy".to_string()
        ))
    );
}

#[test]
fn refused_open_names_identifier_and_cause() {
    assert_eq!(
        open_transport("COM9", 0, Err("invalid speed".to_string())),
        Err(SerialError::OpenPortError("COM9".to_string(), "invalid speed".to_string()))
    );
    assert_eq!(
        open_transport("", 115200, Err("No such file or directory".to_string())),
        Err(SerialError::OpenPortError(String::new(), "No such file or directory".to_string()))
    );
}

#[test]
fn closing_a_handle_releases_its_identifier() {
    let handle = open_transport("simulated://A", 9600, Ok(())).unwrap();
    assert_eq!(handle.close(), "simulated://A");
    let again = open_transport("simulated://A", 19200, Ok(())).unwrap();
    assert_eq!(again.speed(), 19200);
}
