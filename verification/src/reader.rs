//! One turn of a reader task's loop: feed the outcome of one bounded read to
//! the device's buffering state machine and decide which events to push and
//! whether to keep running.
//!
//! The loop itself lives with the host (it owns the transport, the sleep and
//! the cancellation flag); each turn's decision is taken here. A turn that
//! observes the cancellation flag exits without an event. A chunk of data
//! becomes zero or more framed messages. A timeout — or a read that returned
//! nothing — flushes a partial frame, bounding its latency. An error
//! classified as a disconnection emits a single disconnection notice and
//! stops the task; any other error keeps it running.

use vstd::prelude::*;

use crate::errors::ErrorClass;
use crate::errors::TransportErrorKind;
use crate::errors::classify;
use crate::errors::classify_spec;
use crate::events::Event;
use crate::events::EventView;
use crate::events::clone_bytes;
use crate::framing::Framer;
use crate::framing::FramerView;
use crate::framing::feed_acc;
use crate::framing::feed_messages;
use crate::framing::timeout_message;

verus! {

/// Whether the task runs on after a turn.
#[derive(Clone, Copy, Debug, PartialEq, Eq, Structural)]
pub enum ReaderStatus {
    Running,
    /// Terminal: reached by cooperative cancellation or by an unrecoverable
    /// read error.
    Stopped,
}

/// The read outcome of one turn, with the chunk abstracted to its bytes.
pub type ReadOutcome = Result<Seq<u8>, TransportErrorKind>;

/// The bytes of an exec read outcome.
pub open spec fn outcome_view(outcome: Result<Vec<u8>, TransportErrorKind>) -> ReadOutcome {
    match outcome {
        Ok(chunk) => Ok(chunk@),
        Err(k) => Err(k),
    }
}

/// Each framed message as a data event for `device`.
pub open spec fn data_events(device: Seq<u8>, msgs: Seq<Seq<u8>>) -> Seq<EventView> {
    msgs.map_values(|m: Seq<u8>| EventView::Data { device, message: m })
}

/// The events a timeout flush produces: the partial frame, if there is one.
pub open spec fn flush_events(f: FramerView, device: Seq<u8>) -> Seq<EventView> {
    match timeout_message(f.mode, f.acc) {
        Some(m) => seq![EventView::Data { device, message: m }],
        None => Seq::empty(),
    }
}

/// The accumulator after a timeout flush.
pub open spec fn flush_acc(f: FramerView) -> Seq<u8> {
    if timeout_message(f.mode, f.acc) is Some {
        Seq::empty()
    } else {
        f.acc
    }
}

/// The events one turn pushes: nothing when cancelled; the framed messages
/// of a nonempty chunk; a flushed partial frame on no-data or a transient
/// error; one disconnection notice on a disconnection; nothing on any other
/// error.
pub open spec fn reader_events(
    f: FramerView,
    device: Seq<u8>,
    cancelled: bool,
    outcome: ReadOutcome,
) -> Seq<EventView> {
    if cancelled {
        Seq::empty()
    } else {
        match outcome {
            Ok(chunk) => if chunk.len() > 0 {
                data_events(device, feed_messages(f.mode, f.acc, chunk))
            } else {
                flush_events(f, device)
            },
            Err(k) => match classify_spec(k) {
                ErrorClass::Transient => flush_events(f, device),
                ErrorClass::Disconnection => seq![EventView::Disconnected { device }],
                ErrorClass::Other => Seq::empty(),
            },
        }
    }
}

/// The accumulator one turn leaves behind.
pub open spec fn reader_acc_next(f: FramerView, cancelled: bool, outcome: ReadOutcome) -> Seq<u8> {
    if cancelled {
        f.acc
    } else {
        match outcome {
            Ok(chunk) => if chunk.len() > 0 {
                feed_acc(f.mode, f.acc, chunk)
            } else {
                flush_acc(f)
            },
            Err(k) => if classify_spec(k) is Transient {
                flush_acc(f)
            } else {
                f.acc
            },
        }
    }
}

/// Whether the task runs on: it stops on cancellation and on an error
/// classified as a disconnection, and on nothing else.
pub open spec fn reader_status_next(cancelled: bool, outcome: ReadOutcome) -> ReaderStatus {
    if cancelled {
        ReaderStatus::Stopped
    } else {
        match outcome {
            Ok(_) => ReaderStatus::Running,
            Err(k) => if classify_spec(k) is Disconnection {
                ReaderStatus::Stopped
            } else {
                ReaderStatus::Running
            },
        }
    }
}

/// Flush the framer's partial frame into events for `device`.
fn flush_into_events(framer: &mut Framer, device: &Vec<u8>) -> (events: Vec<Event>)
    ensures
        events.deep_view() == flush_events(old(framer)@, device@),
        final(framer)@.mode == old(framer)@.mode,
        final(framer)@.acc == flush_acc(old(framer)@),
{
    let mut events: Vec<Event> = Vec::new();
    match framer.on_timeout() {
        Some(message) => {
            proof {
                assert(timeout_message(old(framer)@.mode, old(framer)@.acc) == Some(message@));
            }
            events.push(Event::Data { device: clone_bytes(device), message });
            proof {
                assert(events.deep_view() =~~= flush_events(old(framer)@, device@));
            }
        },
        None => {
            proof {
                assert(events.deep_view() =~~= flush_events(old(framer)@, device@));
            }
        },
    }
    events
}

/// One turn of the reader task for `device`: `cancelled` is the cancellation
/// flag as observed at the start of the turn, `outcome` is what the bounded
/// read on the shared transport returned (ignored when cancelled, since a
/// cancelled turn makes no read). Returns the events to push, in order, and
/// whether the task runs on.
pub fn reader_step(
    framer: &mut Framer,
    device: &Vec<u8>,
    cancelled: bool,
    outcome: Result<Vec<u8>, TransportErrorKind>,
) -> (r: (Vec<Event>, ReaderStatus))
    ensures
        r.0.deep_view() == reader_events(old(framer)@, device@, cancelled, outcome_view(outcome)),
        r.1 == reader_status_next(cancelled, outcome_view(outcome)),
        final(framer)@.mode == old(framer)@.mode,
        final(framer)@.acc == reader_acc_next(old(framer)@, cancelled, outcome_view(outcome)),
{
    if cancelled {
        let events: Vec<Event> = Vec::new();
        proof {
            assert(events.deep_view() =~~= Seq::<EventView>::empty());
        }
        return (events, ReaderStatus::Stopped);
    }
    match outcome {
        Ok(chunk) => {
            if chunk.len() > 0 {
                let msgs = framer.feed(chunk.as_slice());
                let events = messages_to_events(device, msgs);
                (events, ReaderStatus::Running)
            } else {
                (flush_into_events(framer, device), ReaderStatus::Running)
            }
        },
        Err(kind) => {
            match classify(kind) {
                ErrorClass::Transient => (flush_into_events(framer, device), ReaderStatus::Running),
                ErrorClass::Disconnection => {
                    let mut events: Vec<Event> = Vec::new();
                    events.push(Event::Disconnected { device: clone_bytes(device) });
                    proof {
                        assert(events.deep_view() =~~= seq![
                            EventView::Disconnected { device: device@ },
                        ]);
                    }
                    (events, ReaderStatus::Stopped)
                },
                ErrorClass::Other => {
                    let events: Vec<Event> = Vec::new();
                    proof {
                        assert(events.deep_view() =~~= Seq::<EventView>::empty());
                    }
                    (events, ReaderStatus::Running)
                },
            }
        },
    }
}

/// Wrap each framed message as a data event for `device`, in order.
fn messages_to_events(device: &Vec<u8>, msgs: Vec<Vec<u8>>) -> (events: Vec<Event>)
    ensures
        events.deep_view() == data_events(device@, msgs.deep_view()),
{
    let mut events: Vec<Event> = Vec::new();
    let mut i: usize = 0;
    while i < msgs.len()
        invariant
            i <= msgs.len(),
            events.deep_view() =~~= data_events(device@, msgs.deep_view().take(i as int)),
        decreases msgs.len() - i,
    {
        let message = clone_bytes(&msgs[i]);
        events.push(Event::Data { device: clone_bytes(device), message });
        proof {
            assert(msgs.deep_view()[i as int] == msgs@[i as int]@);
            assert(msgs.deep_view().take(i + 1) =~= msgs.deep_view().take(i as int).push(
                msgs.deep_view()[i as int],
            ));
            assert(data_events(device@, msgs.deep_view().take(i + 1)) =~~= data_events(
                device@,
                msgs.deep_view().take(i as int),
            ).push(EventView::Data { device: device@, message: msgs.deep_view()[i as int] }));
        }
        i = i + 1;
    }
    proof {
        assert(msgs.deep_view().take(msgs.deep_view().len() as int) =~~= msgs.deep_view());
    }
    events
}

} // verus!
