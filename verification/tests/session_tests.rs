use serial_session::errors::TransportErrorKind;
use serial_session::session::{read_string, readline_feed, write_string, writeline, Session};

fn open_session() -> Session {
    let mut s = Session::new();
    s.set_port(b"COM3".to_vec());
    assert!(s.open(true));
    s
}

#[test]
fn open_without_a_name_is_a_config_error() {
    let mut s = Session::new();
    assert!(!s.open_allowed());
    assert!(!s.open(true));
    assert!(!s.is_open());
}

#[test]
fn open_failure_leaves_the_session_empty() {
    let mut s = Session::new();
    s.set_port(b"COM9".to_vec());
    assert!(s.open_allowed());
    assert!(!s.open(false));
    assert!(!s.is_open());
    assert!(!s.is_connected());
}

#[test]
fn open_success_holds_the_transport() {
    let s = open_session();
    assert!(s.is_open());
    assert!(s.is_connected());
    assert_eq!(s.port_name(), &b"COM3".to_vec());
}

#[test]
fn close_is_idempotent() {
    let mut s = open_session();
    s.close();
    assert!(!s.is_open());
    s.close();
    assert!(!s.is_open());
}

#[test]
fn probe_refreshes_the_cached_flag() {
    let mut s = open_session();
    assert!(s.probe(Ok(0)));
    assert!(s.is_connected());
    assert!(s.probe(Err(TransportErrorKind::TimedOut)));
    assert!(s.is_connected());
}

#[test]
fn probe_disconnection_tears_down() {
    let mut s = open_session();
    assert!(!s.probe(Err(TransportErrorKind::NoDevice)));
    assert!(!s.is_open());
    assert!(!s.is_connected());
}

#[test]
fn write_disconnection_clears_the_flag_and_the_next_probe_is_dead() {
    let mut s = open_session();
    assert!(!s.write(Err(TransportErrorKind::BrokenPipe)));
    assert!(!s.is_connected());
    assert!(!s.probe(Ok(17)));
}

#[test]
fn read_disconnection_clears_the_flag_and_the_next_probe_is_dead() {
    let mut s = open_session();
    let data = s.read(Err(TransportErrorKind::ConnectionAborted));
    assert!(data.is_empty());
    assert!(!s.is_connected());
    assert!(!s.probe(Ok(0)));
}

#[test]
fn transient_and_other_errors_keep_the_session_open() {
    let mut s = open_session();
    assert!(!s.write(Err(TransportErrorKind::Other)));
    assert!(s.is_open());
    let data = s.read(Err(TransportErrorKind::TimedOut));
    assert!(data.is_empty());
    assert!(s.is_open());
    assert!(s.is_connected());
}

#[test]
fn successful_read_hands_the_data_through() {
    let mut s = open_session();
    let data = s.read(Ok(b"hello".to_vec()));
    assert_eq!(data, b"hello".to_vec());
    assert!(s.is_connected());
}

#[test]
fn readline_timeout_returns_the_partial_line() {
    let mut s = open_session();
    let mut line = Vec::new();
    assert!(!s.readline_step(&mut line, Ok(b"hel".to_vec())));
    assert!(s.readline_step(&mut line, Err(TransportErrorKind::TimedOut)));
    assert_eq!(line, b"hel".to_vec());
    assert!(s.is_open(), "a timeout is not an error state");
}

#[test]
fn readline_completes_on_a_line_feed_and_strips_the_carriage_return() {
    let mut s = open_session();
    let mut line = Vec::new();
    assert!(!s.readline_step(&mut line, Ok(b"ab".to_vec())));
    assert!(s.readline_step(&mut line, Ok(b"cd\r\n".to_vec())));
    assert_eq!(line, b"abcd".to_vec());
}

#[test]
fn readline_keeps_a_carriage_return_inside_the_line() {
    let mut s = open_session();
    let mut line = Vec::new();
    assert!(s.readline_step(&mut line, Ok(b"a\rb\n".to_vec())));
    assert_eq!(line, b"a\rb".to_vec(), "only the carriage return before the line feed is stripped");
}

#[test]
fn readline_strips_the_carriage_return_across_a_chunk_boundary() {
    let mut line = Vec::new();
    assert!(!readline_feed(&mut line, b"a\r"));
    assert!(readline_feed(&mut line, b"\n"));
    assert_eq!(line, b"a".to_vec());
}

#[test]
fn readline_ends_on_end_of_data() {
    let mut s = open_session();
    let mut line = Vec::new();
    assert!(!s.readline_step(&mut line, Ok(b"x".to_vec())));
    assert!(s.readline_step(&mut line, Ok(Vec::new())));
    assert_eq!(line, b"x".to_vec());
}

#[test]
fn readline_disconnection_keeps_the_partial_line_but_tears_down() {
    let mut s = open_session();
    let mut line = Vec::new();
    assert!(!s.readline_step(&mut line, Ok(b"par".to_vec())));
    assert!(s.readline_step(&mut line, Err(TransportErrorKind::UnexpectedEof)));
    assert_eq!(line, b"par".to_vec());
    assert!(!s.is_open());
}

#[test]
fn readline_feed_drops_bytes_behind_the_line_feed() {
    let mut line = Vec::new();
    assert!(readline_feed(&mut line, b"one\ntwo"));
    assert_eq!(line, b"one".to_vec());
}

#[test]
fn bytes_available_reports_the_count_and_only_disconnections_tear_down() {
    let mut s = open_session();
    assert_eq!(s.bytes_available(Ok(42)), 42);
    assert_eq!(s.bytes_available(Err(TransportErrorKind::Other)), 0);
    assert!(s.is_open());
    assert_eq!(s.bytes_available(Err(TransportErrorKind::NoDevice)), 0);
    assert!(!s.is_open());
    assert_eq!(s.bytes_available(Ok(7)), 0, "no transport, nothing available");
}

#[test]
fn clear_buffer_handles_errors_like_write() {
    let mut s = open_session();
    assert!(s.clear_buffer(Ok(())));
    assert!(!s.clear_buffer(Err(TransportErrorKind::Other)));
    assert!(s.is_open());
    assert!(!s.clear_buffer(Err(TransportErrorKind::NotConnected)));
    assert!(!s.is_open());
}

#[test]
fn writeline_appends_one_line_feed() {
    assert_eq!(writeline("ping"), b"ping\n".to_vec());
    assert_eq!(writeline(""), b"\n".to_vec());
}

#[test]
fn write_string_is_the_plain_encoding() {
    assert_eq!(write_string("ping"), b"ping".to_vec());
}

#[test]
fn read_string_decodes_valid_utf8() {
    assert_eq!(read_string(&b"hello".to_vec()), "hello".to_string());
    assert_eq!(read_string(&"héllo".as_bytes().to_vec()), "héllo".to_string());
}

#[test]
fn read_string_yields_empty_on_invalid_utf8() {
    assert_eq!(read_string(&vec![0xff, 0xfe]), String::new());
    assert_eq!(read_string(&vec![0xc3]), String::new());
}

#[test]
fn setters_delegate_to_the_configuration() {
    let mut s = Session::new();
    s.set_baud_rate(115200);
    s.set_timeout(50);
    assert!(s.set_data_bits(6));
    assert!(!s.set_data_bits(5));
    assert!(s.set_parity(2));
    assert!(s.set_stop_bits(2));
    assert!(s.set_flow_control(1));
    let c = s.config();
    assert_eq!(c.baud, 115200);
    assert_eq!(c.timeout_ms, 50);
    assert_eq!(c.data_bits, 6);
    assert_eq!(c.stop_bits, 2);
}
