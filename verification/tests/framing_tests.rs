use serial_session::framing::{buffering_mode_of_code, BufferingMode, Framer};

#[test]
fn line_delimited_joins_chunks_and_flushes_partial_on_timeout() {
    // a scripted transport returns "ab", then "c\n", then "de"
    let mut f = Framer::new(BufferingMode::LineDelimited);
    let none = f.feed(b"ab");
    assert!(none.is_empty());
    let first = f.feed(b"c\n");
    assert_eq!(first, vec![b"abc\n".to_vec()]);
    let rest = f.feed(b"de");
    assert!(rest.is_empty());
    // the subsequent timeout flushes the partial frame
    let flushed = f.on_timeout();
    assert_eq!(flushed, Some(b"de".to_vec()));
    assert_eq!(f.on_timeout(), None);
}

#[test]
fn custom_delimiter_frames_on_the_chosen_byte() {
    let mut f = Framer::new(BufferingMode::CustomDelimiter(b'|'));
    let msgs = f.feed(b"x|y|z");
    assert_eq!(msgs, vec![b"x|".to_vec(), b"y|".to_vec()]);
    // "z" is retained until the next delimiter or a timeout
    assert_eq!(f.feed(b"!|"), vec![b"z!|".to_vec()]);
    let more = f.feed(b"q");
    assert!(more.is_empty());
    assert_eq!(f.on_timeout(), Some(b"q".to_vec()));
}

#[test]
fn raw_mode_never_concatenates_chunks() {
    let mut f = Framer::new(BufferingMode::Raw);
    assert_eq!(f.feed(b"A"), vec![b"A".to_vec()]);
    assert_eq!(f.feed(b"B"), vec![b"B".to_vec()]);
    // every chunk was already emitted, so a timeout has nothing to flush
    assert_eq!(f.on_timeout(), None);
}

#[test]
fn raw_mode_ignores_empty_chunks() {
    let mut f = Framer::new(BufferingMode::Raw);
    let msgs = f.feed(b"");
    assert!(msgs.is_empty());
}

#[test]
fn delimiter_is_included_in_the_emitted_message() {
    let mut f = Framer::new(BufferingMode::LineDelimited);
    let msgs = f.feed(b"ok\n");
    assert_eq!(msgs, vec![b"ok\n".to_vec()]);
}

#[test]
fn mode_change_keeps_the_accumulator() {
    let mut f = Framer::new(BufferingMode::LineDelimited);
    assert!(f.feed(b"par").is_empty());
    f.set_mode(BufferingMode::CustomDelimiter(b';'));
    assert_eq!(f.mode(), BufferingMode::CustomDelimiter(b';'));
    // the bytes collected before the change complete under the new delimiter
    assert_eq!(f.feed(b"tial;"), vec![b"partial;".to_vec()]);
}

#[test]
fn mode_codes_decode_as_documented() {
    assert_eq!(buffering_mode_of_code(0), Some(BufferingMode::Raw));
    assert_eq!(buffering_mode_of_code(1), Some(BufferingMode::LineDelimited));
    assert_eq!(buffering_mode_of_code(2), Some(BufferingMode::CustomDelimiter(b'\n')));
    assert_eq!(buffering_mode_of_code(3), None);
    assert_eq!(buffering_mode_of_code(255), None);
}

#[test]
fn several_frames_in_one_chunk_come_out_in_order() {
    let mut f = Framer::new(BufferingMode::LineDelimited);
    let msgs = f.feed(b"one\ntwo\nthr");
    assert_eq!(msgs, vec![b"one\n".to_vec(), b"two\n".to_vec()]);
    assert_eq!(f.on_timeout(), Some(b"thr".to_vec()));
}
