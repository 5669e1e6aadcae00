//! The buffering state machine: turning a stream of read chunks into framed
//! messages under a selectable policy.
//!
//! In `Raw` mode every nonempty chunk is one message and the accumulator is
//! never used. In the delimited modes every byte is appended to the
//! accumulator, and whenever the delimiter byte has just been appended the
//! accumulator is emitted as one message (delimiter included) and cleared. A
//! read timeout flushes a nonempty accumulator as one message, so a partial
//! frame is never held back indefinitely.

use vstd::prelude::*;

verus! {

/// The framing policy: raw chunks, line-feed-delimited frames, or frames
/// ended by a caller-chosen delimiter byte.
#[derive(Clone, Copy, Debug, PartialEq, Eq, Structural)]
pub enum BufferingMode {
    Raw,
    LineDelimited,
    CustomDelimiter(u8),
}

/// The numeric codes under which a host selects a buffering mode. The
/// custom-delimiter code starts at the line feed, until a delimiter is set.
pub open spec fn mode_of_code(code: u8) -> Option<BufferingMode> {
    if code == 0 {
        Some(BufferingMode::Raw)
    } else if code == 1 {
        Some(BufferingMode::LineDelimited)
    } else if code == 2 {
        Some(BufferingMode::CustomDelimiter(10))
    } else {
        None
    }
}

/// Decode a numeric mode code; an unknown code is rejected.
pub fn buffering_mode_of_code(code: u8) -> (m: Option<BufferingMode>)
    ensures
        m == mode_of_code(code),
{
    if code == 0 {
        Some(BufferingMode::Raw)
    } else if code == 1 {
        Some(BufferingMode::LineDelimited)
    } else if code == 2 {
        Some(BufferingMode::CustomDelimiter(10))
    } else {
        None
    }
}

/// The delimiter byte a mode frames on, if it frames at all.
pub open spec fn delimiter_of(mode: BufferingMode) -> Option<u8> {
    match mode {
        BufferingMode::Raw => None,
        BufferingMode::LineDelimited => Some(10u8),
        BufferingMode::CustomDelimiter(d) => Some(d),
    }
}

/// The messages emitted when `chunk` arrives with `acc` already accumulated.
/// In `Raw` mode a nonempty chunk is one message, verbatim. In a delimited
/// mode the bytes are appended one by one and the accumulator is emitted,
/// delimiter included, each time the delimiter is appended.
pub open spec fn feed_messages(mode: BufferingMode, acc: Seq<u8>, chunk: Seq<u8>) -> Seq<Seq<u8>>
    decreases chunk.len(),
{
    match delimiter_of(mode) {
        None => if chunk.len() == 0 {
            Seq::empty()
        } else {
            seq![chunk]
        },
        Some(d) => if chunk.len() == 0 {
            Seq::empty()
        } else {
            let stepped = acc.push(chunk.first());
            if chunk.first() == d {
                seq![stepped] + feed_messages(mode, Seq::empty(), chunk.drop_first())
            } else {
                feed_messages(mode, stepped, chunk.drop_first())
            }
        },
    }
}

/// The accumulator left behind after `chunk` arrives with `acc` already
/// accumulated: the bytes after the last delimiter. `Raw` mode never touches
/// the accumulator.
pub open spec fn feed_acc(mode: BufferingMode, acc: Seq<u8>, chunk: Seq<u8>) -> Seq<u8>
    decreases chunk.len(),
{
    match delimiter_of(mode) {
        None => acc,
        Some(d) => if chunk.len() == 0 {
            acc
        } else {
            if chunk.first() == d {
                feed_acc(mode, Seq::empty(), chunk.drop_first())
            } else {
                feed_acc(mode, acc.push(chunk.first()), chunk.drop_first())
            }
        },
    }
}

/// The message a read timeout flushes: the accumulator, if the mode frames
/// and the accumulator is nonempty; nothing otherwise.
pub open spec fn timeout_message(mode: BufferingMode, acc: Seq<u8>) -> Option<Seq<u8>> {
    if delimiter_of(mode) is Some && acc.len() > 0 {
        Some(acc)
    } else {
        None
    }
}

/// The abstract state of a framer: its mode and its accumulated bytes.
pub ghost struct FramerView {
    pub mode: BufferingMode,
    pub acc: Seq<u8>,
}

/// One per-device buffering state machine.
#[derive(Debug)]
pub struct Framer {
    mode: BufferingMode,
    acc: Vec<u8>,
}

impl View for Framer {
    type V = FramerView;

    closed spec fn view(&self) -> FramerView {
        FramerView { mode: self.mode, acc: self.acc@ }
    }
}

impl Framer {
    /// A framer with an empty accumulator.
    pub fn new(mode: BufferingMode) -> (f: Framer)
        ensures
            f@ == (FramerView { mode, acc: Seq::<u8>::empty() }),
    {
        Framer { mode, acc: Vec::new() }
    }

    /// The current mode.
    pub fn mode(&self) -> (m: BufferingMode)
        ensures
            m == self@.mode,
    {
        self.mode
    }

    /// Switch the policy. The change takes effect on the next chunk: bytes
    /// already accumulated are kept, never reinterpreted retroactively.
    pub fn set_mode(&mut self, mode: BufferingMode)
        ensures
            final(self)@ == (FramerView { mode, acc: old(self)@.acc }),
    {
        self.mode = mode;
    }

    /// Feed one read chunk; returns the messages it completes, in order.
    pub fn feed(&mut self, chunk: &[u8]) -> (msgs: Vec<Vec<u8>>)
        ensures
            msgs.deep_view() == feed_messages(old(self)@.mode, old(self)@.acc, chunk@),
            final(self)@.acc == feed_acc(old(self)@.mode, old(self)@.acc, chunk@),
            final(self)@.mode == old(self)@.mode,
    {
        let ghost mode = self@.mode;
        let ghost acc0 = self@.acc;
        let d: u8 = match self.mode {
            BufferingMode::Raw => {
                let mut msgs: Vec<Vec<u8>> = Vec::new();
                if chunk.len() > 0 {
                    msgs.push(vstd::slice::slice_to_vec(chunk));
                }
                assert(msgs.deep_view() =~~= feed_messages(mode, acc0, chunk@));
                return msgs;
            },
            BufferingMode::LineDelimited => 10,
            BufferingMode::CustomDelimiter(d) => d,
        };
        let mut msgs: Vec<Vec<u8>> = Vec::new();
        let mut i: usize = 0;
        proof {
            assert(chunk@.skip(0) =~= chunk@);
        }
        while i < chunk.len()
            invariant
                i <= chunk.len(),
                delimiter_of(mode) == Some(d),
                self.mode == mode,
                feed_messages(mode, acc0, chunk@) =~~= msgs.deep_view() + feed_messages(
                    mode,
                    self.acc@,
                    chunk@.skip(i as int),
                ),
                feed_acc(mode, acc0, chunk@) == feed_acc(mode, self.acc@, chunk@.skip(i as int)),
            decreases chunk.len() - i,
        {
            let ghost rest = chunk@.skip(i as int);
            proof {
                assert(rest.drop_first() =~= chunk@.skip(i + 1));
                assert(rest.first() == chunk@[i as int]);
            }
            let b = chunk[i];
            self.acc.push(b);
            if b == d {
                let mut done: Vec<u8> = Vec::new();
                core::mem::swap(&mut done, &mut self.acc);
                let ghost before = msgs.deep_view();
                msgs.push(done);
                proof {
                    assert(msgs.deep_view() =~~= before + seq![done@]);
                }
            }
            i = i + 1;
        }
        proof {
            assert(chunk@.skip(chunk@.len() as int) =~= Seq::<u8>::empty());
            assert(msgs.deep_view() + feed_messages(mode, self.acc@, Seq::<u8>::empty())
                =~~= msgs.deep_view());
        }
        msgs
    }

    /// Flush on a read timeout: a framing mode with a nonempty accumulator
    /// emits it as one message and clears it; otherwise nothing is emitted.
    /// `Raw` mode never emits here, since every chunk was already emitted.
    pub fn on_timeout(&mut self) -> (msg: Option<Vec<u8>>)
        ensures
            msg.deep_view() == timeout_message(old(self)@.mode, old(self)@.acc),
            final(self)@.mode == old(self)@.mode,
            final(self)@.acc == if timeout_message(old(self)@.mode, old(self)@.acc) is Some {
                Seq::<u8>::empty()
            } else {
                old(self)@.acc
            },
    {
        match self.mode {
            BufferingMode::Raw => None,
            _ => {
                if self.acc.len() > 0 {
                    let mut done: Vec<u8> = Vec::new();
                    core::mem::swap(&mut done, &mut self.acc);
                    Some(done)
                } else {
                    None
                }
            },
        }
    }
}

/// In `Raw` mode chunks are never concatenated and never held back: feeding
/// any two nonempty chunks in turn emits exactly the first chunk as one
/// message and then the second chunk as one message, whatever was fed before.
pub proof fn lemma_raw_keeps_chunks_apart(f: FramerView, c1: Seq<u8>, c2: Seq<u8>)
    requires
        f.mode is Raw,
        c1.len() > 0,
        c2.len() > 0,
    ensures
        feed_messages(f.mode, f.acc, c1) == seq![c1],
        feed_messages(f.mode, feed_acc(f.mode, f.acc, c1), c2) == seq![c2],
        timeout_message(f.mode, feed_acc(f.mode, f.acc, c1)) is None,
{
}

} // verus!
