//! One synchronous serial session: a cached liveness flag around one
//! transport, refreshed by an active probe, and torn down the moment any
//! operation's error is classified as a disconnection.
//!
//! The session never touches a device itself. The host performs each
//! transport call and hands its outcome to the matching transition here,
//! which decides the result and the next state. The cached `connected` flag
//! is never ground truth: I/O transitions demand a live probe first, and a
//! probe is the only thing that sets the flag.

use vstd::prelude::*;
use vstd::string::StrSliceExecFns;
use vstd::string::StringSliceAdditionalSpecFns;
use vstd::utf8::encode_utf8;
use vstd::utf8::valid_utf8;

use crate::config::TransportConfig;
use crate::errors::ErrorClass;
use crate::errors::TransportErrorKind;
use crate::errors::classify;
use crate::errors::is_disconnection;

verus! {

/// The abstract state of a session: the configured device name, the
/// transport configuration, whether a transport is held, and the cached
/// liveness flag.
pub ghost struct SessionView {
    pub name: Seq<u8>,
    pub config: TransportConfig,
    pub attached: bool,
    pub connected: bool,
}

impl SessionView {
    /// The cached flag can only be set while a transport is held, and the
    /// configuration lies in its domains.
    pub open spec fn wf(self) -> bool {
        (self.connected ==> self.attached) && self.config.wf()
    }

    /// The session after a teardown: the transport is discarded and the
    /// cached flag cleared; name and configuration are kept.
    pub open spec fn torn_down(self) -> SessionView {
        SessionView { attached: false, connected: false, ..self }
    }
}

/// The session after a transport operation failed with `kind`: torn down on
/// a disconnection, untouched on anything else.
pub open spec fn error_next(s: SessionView, kind: TransportErrorKind) -> SessionView {
    if is_disconnection(kind) {
        s.torn_down()
    } else {
        s
    }
}

/// The session after `open`: unchanged when the name is unset (a
/// configuration error) — otherwise holding a live transport on success and
/// left empty on failure.
pub open spec fn open_next(s: SessionView, acquired: bool) -> SessionView {
    if s.name.len() == 0 {
        s
    } else if acquired {
        SessionView { attached: true, connected: true, ..s }
    } else {
        s.torn_down()
    }
}

/// `open` succeeds exactly when the name is set and the transport was
/// acquired.
pub open spec fn open_ok(s: SessionView, acquired: bool) -> bool {
    s.name.len() > 0 && acquired
}

/// The session after a probe whose non-destructive query ended in `query`:
/// with no transport held nothing changes; a disconnection-classified error
/// tears the session down; every other outcome refreshes the cached flag.
pub open spec fn probe_next(s: SessionView, query: Result<u32, TransportErrorKind>) -> SessionView {
    if !s.attached {
        s
    } else if query matches Err(k) && is_disconnection(k) {
        s.torn_down()
    } else {
        SessionView { connected: true, ..s }
    }
}

/// A probe reports alive exactly when a transport is held and the query's
/// error, if any, is no disconnection.
pub open spec fn probe_ok(s: SessionView, query: Result<u32, TransportErrorKind>) -> bool {
    s.attached && !(query matches Err(k) && is_disconnection(k))
}

/// A line with the one carriage return immediately before its end, if any,
/// stripped.
pub open spec fn strip_trailing_cr(line: Seq<u8>) -> Seq<u8> {
    if line.len() > 0 && line.last() == 13 {
        line.drop_last()
    } else {
        line
    }
}

/// The line accumulated and whether a line feed ended it, after scanning
/// `chunk` with `acc` already collected: a line feed completes the line,
/// stripping the carriage return immediately preceding it (bytes behind the
/// line feed in the chunk are dropped); every other byte, a carriage return
/// elsewhere included, is appended.
pub open spec fn line_feed(acc: Seq<u8>, chunk: Seq<u8>) -> (Seq<u8>, bool)
    decreases chunk.len(),
{
    if chunk.len() == 0 {
        (acc, false)
    } else if chunk.first() == 10 {
        (strip_trailing_cr(acc), true)
    } else {
        line_feed(acc.push(chunk.first()), chunk.drop_first())
    }
}

/// One serial session.
#[derive(Debug)]
pub struct Session {
    port_name: Vec<u8>,
    config: TransportConfig,
    attached: bool,
    connected: bool,
}

impl View for Session {
    type V = SessionView;

    closed spec fn view(&self) -> SessionView {
        SessionView {
            name: self.port_name@,
            config: self.config,
            attached: self.attached,
            connected: self.connected,
        }
    }
}

impl Session {
    /// An empty session: no device name, the default configuration, no
    /// transport.
    pub fn new() -> (s: Session)
        ensures
            s@ == (SessionView {
                name: Seq::<u8>::empty(),
                config: TransportConfig {
                    baud: 9600,
                    data_bits: 8,
                    parity: crate::config::Parity::Off,
                    stop_bits: 1,
                    flow_control: crate::config::FlowControl::Off,
                    timeout_ms: 1000,
                },
                attached: false,
                connected: false,
            }),
            s@.wf(),
    {
        Session { port_name: Vec::new(), config: TransportConfig::new(), attached: false, connected: false }
    }

    /// Select the device, as the byte string of its OS name.
    pub fn set_port(&mut self, name: Vec<u8>)
        ensures
            final(self)@ == (SessionView { name: name@, ..old(self)@ }),
    {
        self.port_name = name;
    }

    /// The configured device name.
    pub fn port_name(&self) -> (name: &Vec<u8>)
        ensures
            name@ == self@.name,
    {
        &self.port_name
    }

    /// The current transport configuration, for the host to mirror onto the
    /// device.
    pub fn config(&self) -> (c: TransportConfig)
        ensures
            c == self@.config,
    {
        self.config
    }

    /// Set the baud rate.
    pub fn set_baud_rate(&mut self, baud: u32)
        ensures
            final(self)@ == (SessionView {
                config: TransportConfig { baud, ..old(self)@.config },
                ..old(self)@
            }),
    {
        self.config.set_baud(baud);
    }

    /// Set the read timeout in milliseconds.
    pub fn set_timeout(&mut self, timeout_ms: u64)
        ensures
            final(self)@ == (SessionView {
                config: TransportConfig { timeout_ms, ..old(self)@.config },
                ..old(self)@
            }),
    {
        self.config.set_timeout_ms(timeout_ms);
    }

    /// Set the data-bit count; out-of-domain values are rejected and the
    /// previous value kept.
    pub fn set_data_bits(&mut self, v: u8) -> (ok: bool)
        ensures
            ok == crate::config::valid_data_bits(v),
            ok ==> final(self)@ == (SessionView {
                config: TransportConfig { data_bits: v, ..old(self)@.config },
                ..old(self)@
            }),
            !ok ==> final(self)@ == old(self)@,
    {
        self.config.set_data_bits(v)
    }

    /// Set the stop-bit count; out-of-domain values are rejected and the
    /// previous value kept.
    pub fn set_stop_bits(&mut self, v: u8) -> (ok: bool)
        ensures
            ok == crate::config::valid_stop_bits(v),
            ok ==> final(self)@ == (SessionView {
                config: TransportConfig { stop_bits: v, ..old(self)@.config },
                ..old(self)@
            }),
            !ok ==> final(self)@ == old(self)@,
    {
        self.config.set_stop_bits(v)
    }

    /// Set the parity by its numeric code; unknown codes are rejected and
    /// the previous value kept.
    pub fn set_parity(&mut self, code: u8) -> (ok: bool)
        ensures
            ok == crate::config::parity_of_code(code) is Some,
            crate::config::parity_of_code(code) matches Some(p) ==> final(self)@ == (SessionView {
                config: TransportConfig { parity: p, ..old(self)@.config },
                ..old(self)@
            }),
            !ok ==> final(self)@ == old(self)@,
    {
        self.config.set_parity(code)
    }

    /// Set the flow control by its numeric code; unknown codes are rejected
    /// and the previous value kept.
    pub fn set_flow_control(&mut self, code: u8) -> (ok: bool)
        ensures
            ok == crate::config::flow_control_of_code(code) is Some,
            crate::config::flow_control_of_code(code) matches Some(f) ==> final(self)@
                == (SessionView {
                config: TransportConfig { flow_control: f, ..old(self)@.config },
                ..old(self)@
            }),
            !ok ==> final(self)@ == old(self)@,
    {
        self.config.set_flow_control(code)
    }

    /// Whether `open` would attempt an acquisition: the device name must be
    /// set. The host acquires a transport only when this holds.
    pub fn open_allowed(&self) -> (ok: bool)
        ensures
            ok == (self@.name.len() > 0),
    {
        self.port_name.len() > 0
    }

    /// Complete an `open`: with the name unset nothing is attempted and the
    /// call fails; otherwise `acquired` says whether the host obtained a
    /// transport with this session's configuration, and failure leaves the
    /// session empty. Never an error, only `false`.
    pub fn open(&mut self, acquired: bool) -> (ok: bool)
        ensures
            ok == open_ok(old(self)@, acquired),
            final(self)@ == open_next(old(self)@, acquired),
    {
        if self.port_name.len() == 0 {
            return false;
        }
        if acquired {
            self.attached = true;
            self.connected = true;
            true
        } else {
            self.attached = false;
            self.connected = false;
            false
        }
    }

    /// Discard the transport and clear the cached flag. Idempotent; no error
    /// path.
    pub fn close(&mut self)
        ensures
            final(self)@ == old(self)@.torn_down(),
    {
        self.attached = false;
        self.connected = false;
    }

    /// Whether a transport is held. The flag is a cache: only a probe may be
    /// trusted for an I/O decision.
    pub fn is_open(&self) -> (held: bool)
        ensures
            held == self@.attached,
    {
        self.attached
    }

    /// The cached liveness flag.
    pub fn is_connected(&self) -> (alive: bool)
        ensures
            alive == self@.connected,
    {
        self.connected
    }

    /// Record a failed transport operation: a disconnection-classified error
    /// tears the session down, anything else leaves it untouched.
    fn note_error(&mut self, kind: TransportErrorKind)
        ensures
            final(self)@ == error_next(old(self)@, kind),
    {
        if classify(kind) == ErrorClass::Disconnection {
            self.attached = false;
            self.connected = false;
        }
    }

    /// The liveness probe. `query` is the outcome of the non-destructive
    /// bytes-available call the host made on the held transport; when no
    /// transport is held there is nothing to query and the argument is
    /// ignored. A disconnection-classified error tears the session down and
    /// the probe reports dead; every other outcome refreshes the cached flag
    /// and reports alive.
    pub fn probe(&mut self, query: Result<u32, TransportErrorKind>) -> (alive: bool)
        ensures
            alive == probe_ok(old(self)@, query),
            final(self)@ == probe_next(old(self)@, query),
    {
        if !self.attached {
            return false;
        }
        match query {
            Ok(_) => {
                self.connected = true;
                true
            },
            Err(kind) => {
                if classify(kind) == ErrorClass::Disconnection {
                    self.attached = false;
                    self.connected = false;
                    false
                } else {
                    self.connected = true;
                    true
                }
            },
        }
    }

    /// Complete a write. Demands a live probe first. `outcome` is what the
    /// host's write-and-flush on the transport returned: success succeeds; a
    /// disconnection-classified error tears the session down; a transient or
    /// other error leaves it open; every failure returns `false`.
    pub fn write(&mut self, outcome: Result<(), TransportErrorKind>) -> (ok: bool)
        requires
            old(self)@.connected,
        ensures
            ok == outcome is Ok,
            outcome is Ok ==> final(self)@ == old(self)@,
            outcome matches Err(k) ==> final(self)@ == error_next(old(self)@, k),
    {
        match outcome {
            Ok(_) => true,
            Err(kind) => {
                self.note_error(kind);
                false
            },
        }
    }

    /// Complete a read. Demands a live probe first. `outcome` is what the
    /// host's bounded read returned: data is handed through; any error
    /// yields an empty result, tearing the session down exactly when it is
    /// classified as a disconnection (a transient error is just "no data").
    pub fn read(&mut self, outcome: Result<Vec<u8>, TransportErrorKind>) -> (data: Vec<u8>)
        requires
            old(self)@.connected,
        ensures
            outcome matches Ok(chunk) ==> data@ == chunk@ && final(self)@ == old(self)@,
            outcome matches Err(k) ==> data@ == Seq::<u8>::empty() && final(self)@ == error_next(
                old(self)@,
                k,
            ),
    {
        match outcome {
            Ok(chunk) => chunk,
            Err(kind) => {
                self.note_error(kind);
                Vec::new()
            },
        }
    }

    /// Complete a buffer clear. Demands a live probe first; handled like a
    /// write.
    pub fn clear_buffer(&mut self, outcome: Result<(), TransportErrorKind>) -> (ok: bool)
        requires
            old(self)@.connected,
        ensures
            ok == outcome is Ok,
            outcome is Ok ==> final(self)@ == old(self)@,
            outcome matches Err(k) ==> final(self)@ == error_next(old(self)@, k),
    {
        match outcome {
            Ok(_) => true,
            Err(kind) => {
                self.note_error(kind);
                false
            },
        }
    }

    /// Complete a bytes-available query. The lower-overhead variant: no
    /// probe first, the query itself is the evidence. Any error yields 0,
    /// and only a disconnection-classified error tears the session down;
    /// with no transport held the argument is ignored and 0 is returned.
    pub fn bytes_available(&mut self, outcome: Result<u32, TransportErrorKind>) -> (n: u32)
        ensures
            !old(self)@.attached ==> n == 0 && final(self)@ == old(self)@,
            outcome matches Ok(c) ==> (old(self)@.attached ==> n == c && final(self)@ == old(
                self,
            )@),
            outcome matches Err(k) ==> (old(self)@.attached ==> n == 0 && final(self)@
                == error_next(old(self)@, k)),
    {
        if !self.attached {
            return 0;
        }
        match outcome {
            Ok(c) => c,
            Err(kind) => {
                self.note_error(kind);
                0
            },
        }
    }

    /// One turn of `readline`'s accumulate loop. Demands a live probe before
    /// the first turn. `outcome` is what the host's read returned; `line` is
    /// the line collected so far. A chunk is scanned as [`line_feed`] says,
    /// and the line is complete when it returns true. End of data, a timeout
    /// or any other error also ends the line: the partial line is kept, never
    /// discarded, and the session is torn down exactly on a disconnection.
    pub fn readline_step(
        &mut self,
        line: &mut Vec<u8>,
        outcome: Result<Vec<u8>, TransportErrorKind>,
    ) -> (done: bool)
        requires
            old(self)@.connected,
        ensures
            outcome matches Ok(chunk) ==> ({
                &&& final(self)@ == old(self)@
                &&& (chunk@.len() > 0 ==> final(line)@ == line_feed(old(line)@, chunk@).0 && done
                    == line_feed(old(line)@, chunk@).1)
                &&& (chunk@.len() == 0 ==> done && final(line)@ == old(line)@)
            }),
            outcome matches Err(k) ==> done && final(line)@ == old(line)@ && final(self)@
                == error_next(old(self)@, k),
    {
        match outcome {
            Ok(chunk) => {
                if chunk.len() == 0 {
                    true
                } else {
                    readline_feed(line, chunk.as_slice())
                }
            },
            Err(kind) => {
                self.note_error(kind);
                true
            },
        }
    }
}

/// Scan one chunk for a line end, appending to `line` as [`line_feed`]
/// says; returns whether a line feed was found.
pub fn readline_feed(line: &mut Vec<u8>, chunk: &[u8]) -> (done: bool)
    ensures
        final(line)@ == line_feed(old(line)@, chunk@).0,
        done == line_feed(old(line)@, chunk@).1,
{
    let mut i: usize = 0;
    proof {
        assert(chunk@.skip(0) =~= chunk@);
    }
    while i < chunk.len()
        invariant
            i <= chunk.len(),
            line_feed(old(line)@, chunk@) == line_feed(line@, chunk@.skip(i as int)),
        decreases chunk.len() - i,
    {
        proof {
            let rest = chunk@.skip(i as int);
            assert(rest.drop_first() =~= chunk@.skip(i + 1));
            assert(rest.first() == chunk@[i as int]);
        }
        let b = chunk[i];
        if b == 10 {
            proof {
                assert(line_feed(line@, chunk@.skip(i as int)) == (strip_trailing_cr(line@), true));
            }
            if line.len() > 0 && line[line.len() - 1] == 13 {
                line.pop();
            }
            return true;
        }
        line.push(b);
        i = i + 1;
    }
    proof {
        assert(chunk@.skip(chunk@.len() as int) =~= Seq::<u8>::empty());
    }
    false
}

/// The bytes `writeline` sends: the text followed by one line feed.
pub fn writeline(data: &str) -> (bytes: Vec<u8>)
    ensures
        bytes@ == data.spec_bytes().push(10),
{
    let mut bytes = data.as_bytes_vec();
    bytes.push(10);
    bytes
}

/// The bytes `write_string` sends: the text's encoding, unchanged.
pub fn write_string(data: &str) -> (bytes: Vec<u8>)
    ensures
        bytes@ == data.spec_bytes(),
{
    data.as_bytes_vec()
}

/// Relies on core::str::from_utf8: it returns `Ok` exactly when the bytes
/// are valid UTF-8, and the string it then returns consists of those bytes.
#[verifier::external_body]
fn decode_utf8_bytes(bytes: &Vec<u8>) -> (text: Option<String>)
    ensures
        text is Some <==> valid_utf8(bytes@),
        text matches Some(s) ==> encode_utf8(s@) == bytes@,
{
    match core::str::from_utf8(bytes.as_slice()) {
        Ok(s) => Some(s.to_string()),
        Err(_) => None,
    }
}

/// Decode received bytes as text. An invalid encoding is not fatal: it
/// yields the empty string and the caller's session is untouched.
pub fn read_string(bytes: &Vec<u8>) -> (text: String)
    ensures
        valid_utf8(bytes@) ==> encode_utf8(text@) == bytes@,
        !valid_utf8(bytes@) ==> text@ == Seq::<char>::empty(),
{
    match decode_utf8_bytes(bytes) {
        Some(s) => s,
        None => String::new(),
    }
}

/// A transient error never closes the session: the state after a timeout or
/// would-block failure is the state before it.
pub proof fn lemma_transient_keeps_session(s: SessionView, kind: TransportErrorKind)
    requires
        crate::errors::classify_spec(kind) is Transient,
    ensures
        error_next(s, kind) == s,
{
}

/// An error classified as a disconnection during a write or a read clears
/// the cached flag and discards the transport, and every later probe reports
/// dead and changes nothing, whatever its query returns.
pub proof fn lemma_disconnection_closes_session(
    s: SessionView,
    kind: TransportErrorKind,
    query: Result<u32, TransportErrorKind>,
)
    requires
        crate::errors::classify_spec(kind) is Disconnection,
    ensures
        !error_next(s, kind).connected,
        !error_next(s, kind).attached,
        !probe_ok(error_next(s, kind), query),
        probe_next(error_next(s, kind), query) == error_next(s, kind),
{
}

} // verus!
