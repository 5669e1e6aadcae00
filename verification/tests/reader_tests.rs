use serial_session::errors::TransportErrorKind;
use serial_session::events::Event;
use serial_session::framing::{BufferingMode, Framer};
use serial_session::reader::{reader_step, ReaderStatus};

fn device() -> Vec<u8> {
    b"dev0".to_vec()
}

fn data(message: &[u8]) -> Event {
    Event::Data { device: device(), message: message.to_vec() }
}

#[test]
fn a_cancelled_turn_exits_without_an_event() {
    let mut f = Framer::new(BufferingMode::LineDelimited);
    let (events, status) = reader_step(&mut f, &device(), true, Ok(b"ignored".to_vec()));
    assert!(events.is_empty());
    assert_eq!(status, ReaderStatus::Stopped);
}

#[test]
fn a_chunk_becomes_framed_messages() {
    let mut f = Framer::new(BufferingMode::LineDelimited);
    let (events, status) = reader_step(&mut f, &device(), false, Ok(b"a\nb\nc".to_vec()));
    assert_eq!(events, vec![data(b"a\n"), data(b"b\n")]);
    assert_eq!(status, ReaderStatus::Running);
}

#[test]
fn a_timeout_flushes_the_partial_frame() {
    let mut f = Framer::new(BufferingMode::LineDelimited);
    let (none, _) = reader_step(&mut f, &device(), false, Ok(b"part".to_vec()));
    assert!(none.is_empty());
    let (events, status) =
        reader_step(&mut f, &device(), false, Err(TransportErrorKind::TimedOut));
    assert_eq!(events, vec![data(b"part")]);
    assert_eq!(status, ReaderStatus::Running);
    // the accumulator is now empty: nothing more to flush
    let (again, _) = reader_step(&mut f, &device(), false, Err(TransportErrorKind::TimedOut));
    assert!(again.is_empty());
}

#[test]
fn an_empty_read_flushes_like_a_timeout() {
    let mut f = Framer::new(BufferingMode::CustomDelimiter(b';'));
    let (_, _) = reader_step(&mut f, &device(), false, Ok(b"tail".to_vec()));
    let (events, status) = reader_step(&mut f, &device(), false, Ok(Vec::new()));
    assert_eq!(events, vec![data(b"tail")]);
    assert_eq!(status, ReaderStatus::Running);
}

#[test]
fn raw_mode_never_flushes_on_timeout() {
    let mut f = Framer::new(BufferingMode::Raw);
    let (events, _) = reader_step(&mut f, &device(), false, Ok(b"A".to_vec()));
    assert_eq!(events, vec![data(b"A")]);
    let (none, status) = reader_step(&mut f, &device(), false, Err(TransportErrorKind::TimedOut));
    assert!(none.is_empty());
    assert_eq!(status, ReaderStatus::Running);
}

#[test]
fn a_disconnection_emits_one_notice_and_stops() {
    let mut f = Framer::new(BufferingMode::LineDelimited);
    let (events, status) =
        reader_step(&mut f, &device(), false, Err(TransportErrorKind::NoDevice));
    assert_eq!(events, vec![Event::Disconnected { device: device() }]);
    assert_eq!(status, ReaderStatus::Stopped);
}

#[test]
fn any_other_error_keeps_the_task_running_without_events() {
    let mut f = Framer::new(BufferingMode::LineDelimited);
    let (events, status) = reader_step(&mut f, &device(), false, Err(TransportErrorKind::Other));
    assert!(events.is_empty());
    assert_eq!(status, ReaderStatus::Running);
}
