use serial_session::errors::TransportErrorKind;
use serial_session::events::Event;
use serial_session::framing::BufferingMode;
use serial_session::manager::PortManager;

fn id(name: &str) -> Vec<u8> {
    name.as_bytes().to_vec()
}

fn data(device: &str, message: &str) -> Event {
    Event::Data { device: id(device), message: message.as_bytes().to_vec() }
}

fn disconnected(device: &str) -> Event {
    Event::Disconnected { device: id(device) }
}

#[test]
fn open_registers_and_close_removes() {
    let mut m = PortManager::new();
    assert!(m.open_port(&id("a"), 9600, 100, BufferingMode::Raw, true));
    assert!(m.is_open(&id("a")));
    assert!(!m.is_open(&id("b")));
    m.close_port(&id("a"));
    assert!(!m.is_open(&id("a")));
}

#[test]
fn open_failure_leaves_no_trace() {
    let mut m = PortManager::new();
    assert!(!m.open_port(&id("a"), 9600, 100, BufferingMode::Raw, false));
    assert!(!m.is_open(&id("a")));
    assert_eq!(m.port_count(), 0);
}

#[test]
fn reopen_tears_the_old_entry_down_first() {
    let mut m = PortManager::new();
    assert!(m.open_port(&id("a"), 9600, 100, BufferingMode::Raw, true));
    assert!(m.open_port(&id("a"), 115200, 50, BufferingMode::LineDelimited, true));
    // one entry, one reader task: never two for the same id
    assert_eq!(m.port_count(), 1);
    assert!(m.is_open(&id("a")));
    // a reopen that fails to acquire also closes the old entry
    assert!(!m.open_port(&id("a"), 9600, 100, BufferingMode::Raw, false));
    assert!(!m.is_open(&id("a")));
    assert_eq!(m.port_count(), 0);
}

#[test]
fn close_port_is_idempotent_and_tolerates_unknown_ids() {
    let mut m = PortManager::new();
    m.close_port(&id("never-opened"));
    assert!(m.open_port(&id("a"), 9600, 100, BufferingMode::Raw, true));
    m.close_port(&id("a"));
    m.close_port(&id("a"));
    assert!(!m.is_open(&id("a")));
    assert_eq!(m.port_count(), 0);
}

#[test]
fn poll_drains_everything_in_arrival_order_and_only_once() {
    let mut m = PortManager::new();
    assert!(m.open_port(&id("a"), 9600, 100, BufferingMode::Raw, true));
    assert!(m.open_port(&id("b"), 9600, 100, BufferingMode::Raw, true));
    m.push_event(data("a", "one"));
    m.push_event(data("b", "two"));
    m.push_event(data("a", "three"));
    let drained = m.poll_events();
    assert_eq!(
        drained,
        vec![data("a", "one"), data("b", "two"), data("a", "three")]
    );
    // nothing happened since: the second poll returns an empty list
    let again = m.poll_events();
    assert!(again.is_empty());
}

#[test]
fn poll_closes_devices_whose_disconnection_was_drained() {
    let mut m = PortManager::new();
    assert!(m.open_port(&id("a"), 9600, 100, BufferingMode::Raw, true));
    assert!(m.open_port(&id("b"), 9600, 100, BufferingMode::Raw, true));
    m.push_event(data("a", "last words"));
    m.push_event(disconnected("a"));
    let drained = m.poll_events();
    assert_eq!(drained.len(), 2);
    assert!(!m.is_open(&id("a")));
    assert!(m.is_open(&id("b")));
}

#[test]
fn poll_tolerates_notices_for_devices_already_closed() {
    let mut m = PortManager::new();
    m.push_event(disconnected("gone"));
    let drained = m.poll_events();
    assert_eq!(drained, vec![disconnected("gone")]);
    assert!(m.poll_events().is_empty());
}

#[test]
fn set_delimiter_needs_a_registered_device() {
    let mut m = PortManager::new();
    assert!(!m.set_delimiter(&id("a"), b'|'));
    assert!(m.open_port(&id("a"), 9600, 100, BufferingMode::Raw, true));
    assert!(m.set_delimiter(&id("a"), b'|'));
}

#[test]
fn write_port_needs_a_registered_device_and_a_successful_write() {
    let mut m = PortManager::new();
    assert!(!m.write_port(&id("a"), Ok(())));
    assert!(m.open_port(&id("a"), 9600, 100, BufferingMode::Raw, true));
    assert!(m.write_port(&id("a"), Ok(())));
    assert!(!m.write_port(&id("a"), Err(TransportErrorKind::TimedOut)));
}

#[test]
fn reconfigure_port_applies_fields_independently() {
    let mut m = PortManager::new();
    assert!(!m.reconfigure_port(&id("a"), 9600, 8, 0, 1, 0, 100));
    assert!(m.open_port(&id("a"), 9600, 100, BufferingMode::Raw, true));
    assert!(m.reconfigure_port(&id("a"), 19200, 7, 1, 2, 0, 40));
    // an out-of-domain data-bit count fails the call but the rest applies
    assert!(!m.reconfigure_port(&id("a"), 38400, 5, 0, 1, 0, 80));
    assert!(m.is_open(&id("a")));
}
