//! Events produced by reader tasks and drained, in arrival order, by the
//! manager's poll operation.

use vstd::prelude::*;

verus! {

/// The abstract content of one event.
pub ghost enum EventView {
    /// One framed message from one device.
    Data { device: Seq<u8>, message: Seq<u8> },
    /// The device is gone; no further event follows for it until reopened.
    Disconnected { device: Seq<u8> },
}

impl EventView {
    /// The device the event is about.
    pub open spec fn device(self) -> Seq<u8> {
        match self {
            EventView::Data { device, .. } => device,
            EventView::Disconnected { device } => device,
        }
    }
}

/// One entry of the shared event queue.
#[derive(Debug, PartialEq, Eq)]
pub enum Event {
    /// One framed message from one device.
    Data { device: Vec<u8>, message: Vec<u8> },
    /// The device is gone; no further event follows for it until reopened.
    Disconnected { device: Vec<u8> },
}

impl View for Event {
    type V = EventView;

    open spec fn view(&self) -> EventView {
        match self {
            Event::Data { device, message } => EventView::Data {
                device: device@,
                message: message@,
            },
            Event::Disconnected { device } => EventView::Disconnected { device: device@ },
        }
    }
}

impl DeepView for Event {
    type V = EventView;

    open spec fn deep_view(&self) -> EventView {
        self.view()
    }
}

impl Event {
    /// The device the event is about.
    pub fn device(&self) -> (d: &Vec<u8>)
        ensures
            d@ == self@.device(),
    {
        match self {
            Event::Data { device, .. } => device,
            Event::Disconnected { device } => device,
        }
    }

    /// Whether this is a disconnection notice.
    pub fn is_disconnected(&self) -> (r: bool)
        ensures
            r == (self@ is Disconnected),
    {
        match self {
            Event::Data { .. } => false,
            Event::Disconnected { .. } => true,
        }
    }
}

/// A copy of a byte string with the same contents.
pub fn clone_bytes(v: &Vec<u8>) -> (r: Vec<u8>)
    ensures
        r@ == v@,
{
    vstd::slice::slice_to_vec(v.as_slice())
}

/// Whether two byte strings hold the same bytes.
pub fn bytes_eq(a: &Vec<u8>, b: &Vec<u8>) -> (r: bool)
    ensures
        r == (a@ == b@),
{
    if a.len() != b.len() {
        return false;
    }
    let mut i: usize = 0;
    while i < a.len()
        invariant
            i <= a.len(),
            a@.len() == b@.len(),
            forall|j: int| 0 <= j < i ==> a@[j] == b@[j],
        decreases a.len() - i,
    {
        if a[i] != b[i] {
            return false;
        }
        i = i + 1;
    }
    proof {
        assert(a@ =~= b@);
    }
    true
}

} // verus!
