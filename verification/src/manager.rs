//! The multi-port registry: one entry per open device, and the single
//! ordered event queue that reader tasks fill and `poll_events` drains.
//!
//! The registry never holds two entries for one device: `open_port` closes
//! the previous entry before it registers the new one, so there is never a
//! second reader task for the same id. The host owns the transports, the
//! tasks and the real queue; it mirrors every transition taken here onto
//! them and hands arriving events back through `push_event`.

use vstd::prelude::*;

use crate::config::TransportConfig;
use crate::config::Parity;
use crate::config::FlowControl;
use crate::errors::TransportErrorKind;
use crate::events::Event;
use crate::events::EventView;
use crate::events::bytes_eq;
use crate::events::clone_bytes;
use crate::framing::BufferingMode;

verus! {

/// The abstract content of one registry entry: the device, its buffering
/// policy, and the configuration its transport was given.
pub ghost struct EntryView {
    pub device: Seq<u8>,
    pub mode: BufferingMode,
    pub config: TransportConfig,
}

/// The abstract state of the manager: the registry, in registration order,
/// and the queued events, in arrival order.
pub ghost struct ManagerView {
    pub entries: Seq<EntryView>,
    pub events: Seq<EventView>,
}

/// Whether some entry is registered for `id`.
pub open spec fn has_device(entries: Seq<EntryView>, id: Seq<u8>) -> bool {
    exists|i: int| 0 <= i < entries.len() && entries[i].device == id
}

/// How many entries are registered for `id`.
pub open spec fn count_device(entries: Seq<EntryView>, id: Seq<u8>) -> nat
    decreases entries.len(),
{
    if entries.len() == 0 {
        0
    } else {
        (if entries.first().device == id {
            1nat
        } else {
            0nat
        }) + count_device(entries.drop_first(), id)
    }
}

/// No device has two entries.
pub open spec fn unique_devices(entries: Seq<EntryView>) -> bool {
    forall|id: Seq<u8>| count_device(entries, id) <= 1
}

/// The registry without the first entry for `id`; unchanged when none is
/// registered.
pub open spec fn remove_device(entries: Seq<EntryView>, id: Seq<u8>) -> Seq<EntryView>
    decreases entries.len(),
{
    if entries.len() == 0 {
        entries
    } else if entries.first().device == id {
        entries.drop_first()
    } else {
        seq![entries.first()] + remove_device(entries.drop_first(), id)
    }
}

/// The registry with the first entry for `id` replaced by `f` of it;
/// unchanged when none is registered.
pub open spec fn update_device(
    entries: Seq<EntryView>,
    id: Seq<u8>,
    f: spec_fn(EntryView) -> EntryView,
) -> Seq<EntryView>
    decreases entries.len(),
{
    if entries.len() == 0 {
        entries
    } else if entries.first().device == id {
        seq![f(entries.first())] + entries.drop_first()
    } else {
        seq![entries.first()] + update_device(entries.drop_first(), id, f)
    }
}

/// The first entry registered for `id`, if any.
pub open spec fn device_entry(entries: Seq<EntryView>, id: Seq<u8>) -> Option<EntryView>
    decreases entries.len(),
{
    if entries.len() == 0 {
        None
    } else if entries.first().device == id {
        Some(entries.first())
    } else {
        device_entry(entries.drop_first(), id)
    }
}

/// The configuration `open_port` gives a fresh transport: the defaults with
/// the caller's baud rate and timeout.
pub open spec fn open_config(baud: u32, timeout_ms: u64) -> TransportConfig {
    TransportConfig {
        baud,
        data_bits: 8,
        parity: Parity::Off,
        stop_bits: 1,
        flow_control: FlowControl::Off,
        timeout_ms,
    }
}

/// The manager after `close_port`: the device's entry is gone (its reader
/// task was cancelled and joined by the host); queued events are kept.
pub open spec fn close_next(m: ManagerView, id: Seq<u8>) -> ManagerView {
    ManagerView { entries: remove_device(m.entries, id), ..m }
}

/// The manager after `open_port`: the previous entry for the device is
/// always closed first; on acquisition the fresh entry is registered, on
/// failure nothing more changes.
pub open spec fn open_next(
    m: ManagerView,
    id: Seq<u8>,
    config: TransportConfig,
    mode: BufferingMode,
    acquired: bool,
) -> ManagerView {
    if acquired {
        ManagerView {
            entries: remove_device(m.entries, id).push(EntryView { device: id, mode, config }),
            ..m
        }
    } else {
        close_next(m, id)
    }
}

/// The manager after one event arrived.
pub open spec fn push_next(m: ManagerView, ev: EventView) -> ManagerView {
    ManagerView { events: m.events.push(ev), ..m }
}

/// The registry after reacting to a drained event: a disconnection notice
/// closes its device's entry (silently nothing when it was already closed),
/// data changes nothing.
pub open spec fn drain_step(entries: Seq<EntryView>, ev: EventView) -> Seq<EntryView> {
    match ev {
        EventView::Disconnected { device } => remove_device(entries, device),
        EventView::Data { .. } => entries,
    }
}

/// The registry after reacting to all drained events, in arrival order.
pub open spec fn drain_entries(entries: Seq<EntryView>, evs: Seq<EventView>) -> Seq<EntryView>
    decreases evs.len(),
{
    if evs.len() == 0 {
        entries
    } else {
        drain_entries(drain_step(entries, evs.first()), evs.drop_first())
    }
}

/// The manager after `poll_events`: the queue is drained whole, and each
/// drained disconnection notice has closed its device's entry.
pub open spec fn poll_next(m: ManagerView) -> ManagerView {
    ManagerView { entries: drain_entries(m.entries, m.events), events: Seq::empty() }
}

/// One registry entry.
#[derive(Debug)]
struct PortEntry {
    device: Vec<u8>,
    mode: BufferingMode,
    config: TransportConfig,
}

impl View for PortEntry {
    type V = EntryView;

    closed spec fn view(&self) -> EntryView {
        EntryView { device: self.device@, mode: self.mode, config: self.config }
    }
}

impl DeepView for PortEntry {
    type V = EntryView;

    closed spec fn deep_view(&self) -> EntryView {
        self.view()
    }
}

/// The multi-port manager.
#[derive(Debug)]
pub struct PortManager {
    entries: Vec<PortEntry>,
    events: Vec<Event>,
}

impl View for PortManager {
    type V = ManagerView;

    closed spec fn view(&self) -> ManagerView {
        ManagerView { entries: self.entries.deep_view(), events: self.events.deep_view() }
    }
}

impl PortManager {
    /// A manager with no devices and an empty queue.
    pub fn new() -> (m: PortManager)
        ensures
            m@ == (ManagerView { entries: Seq::<EntryView>::empty(), events: Seq::<
                EventView,
            >::empty() }),
    {
        let m = PortManager { entries: Vec::new(), events: Vec::new() };
        proof {
            assert(m.entries.deep_view() =~= Seq::<EntryView>::empty());
            assert(m.events.deep_view() =~= Seq::<EventView>::empty());
        }
        m
    }

    /// The index of the device's entry, scanning in registration order.
    fn find_device(&self, id: &Vec<u8>) -> (r: Option<usize>)
        ensures
            r matches Some(i) ==> ({
                &&& 0 <= i < self@.entries.len()
                &&& self@.entries[i as int].device == id@
                &&& forall|j: int| 0 <= j < i ==> self@.entries[j].device != id@
            }),
            r is None ==> !has_device(self@.entries, id@),
    {
        let mut i: usize = 0;
        while i < self.entries.len()
            invariant
                i <= self.entries.len(),
                forall|j: int| 0 <= j < i ==> self@.entries[j].device != id@,
            decreases self.entries.len() - i,
        {
            proof {
                assert(self@.entries[i as int] == self.entries@[i as int]@);
            }
            if bytes_eq(&self.entries[i].device, id) {
                return Some(i);
            }
            i = i + 1;
        }
        None
    }

    /// Whether the device is registered. Membership only: no liveness probe.
    pub fn is_open(&self, id: &Vec<u8>) -> (r: bool)
        ensures
            r == has_device(self@.entries, id@),
    {
        match self.find_device(id) {
            Some(_) => true,
            None => false,
        }
    }

    /// The configuration registered for the device — what the host must
    /// mirror onto its transport — or nothing when it is not registered.
    pub fn port_config(&self, id: &Vec<u8>) -> (c: Option<TransportConfig>)
        ensures
            c == match device_entry(self@.entries, id@) {
                Some(e) => Some(e.config),
                None => None,
            },
    {
        match self.find_device(id) {
            Some(i) => {
                proof {
                    lemma_entry_at_first(self@.entries, id@, i as int);
                }
                Some(self.entries[i].config)
            },
            None => {
                proof {
                    lemma_has_count(self@.entries, id@);
                    lemma_entry_absent(self@.entries, id@);
                }
                None
            },
        }
    }

    /// The buffering mode registered for the device, or nothing when it is
    /// not registered.
    pub fn port_mode(&self, id: &Vec<u8>) -> (m: Option<BufferingMode>)
        ensures
            m == match device_entry(self@.entries, id@) {
                Some(e) => Some(e.mode),
                None => None,
            },
    {
        match self.find_device(id) {
            Some(i) => {
                proof {
                    lemma_entry_at_first(self@.entries, id@, i as int);
                }
                Some(self.entries[i].mode)
            },
            None => {
                proof {
                    lemma_has_count(self@.entries, id@);
                    lemma_entry_absent(self@.entries, id@);
                }
                None
            },
        }
    }

    /// How many devices are open.
    pub fn port_count(&self) -> (n: usize)
        ensures
            n == self@.entries.len(),
    {
        self.entries.len()
    }

    /// Close a device: remove its entry, with the host having set the
    /// entry's cancellation flag and joined its reader task first.
    /// Idempotent, and a no-op for a device that was never opened; no error
    /// path either way.
    pub fn close_port(&mut self, id: &Vec<u8>)
        ensures
            final(self)@ == close_next(old(self)@, id@),
    {
        match self.find_device(id) {
            Some(i) => {
                self.entries.remove(i);
                proof {
                    lemma_remove_at_first(old(self)@.entries, id@, i as int);
                    assert(self.entries.deep_view() =~= old(self)@.entries.remove(i as int));
                }
            },
            None => {
                proof {
                    lemma_has_count(old(self)@.entries, id@);
                    lemma_remove_absent(old(self)@.entries, id@);
                }
            },
        }
    }

    /// Open a device: the previous entry, if any, is fully closed first —
    /// never two entries, never two reader tasks, for one id. `acquired`
    /// says whether the host obtained a transport under [`open_config`];
    /// without one, the registry keeps no trace of the device and the call
    /// fails.
    pub fn open_port(
        &mut self,
        id: &Vec<u8>,
        baud: u32,
        timeout_ms: u64,
        mode: BufferingMode,
        acquired: bool,
    ) -> (ok: bool)
        ensures
            ok == acquired,
            final(self)@ == open_next(old(self)@, id@, open_config(baud, timeout_ms), mode, acquired),
    {
        self.close_port(id);
        if acquired {
            let mut config = TransportConfig::new();
            config.set_baud(baud);
            config.set_timeout_ms(timeout_ms);
            let ghost mid = self@.entries;
            self.entries.push(PortEntry { device: clone_bytes(id), mode, config });
            proof {
                assert(self.entries.deep_view() =~= mid.push(
                    EntryView { device: id@, mode, config: open_config(baud, timeout_ms) },
                ));
            }
            true
        } else {
            false
        }
    }

    /// Record one arriving event at the back of the queue.
    pub fn push_event(&mut self, event: Event)
        ensures
            final(self)@ == push_next(old(self)@, event@),
    {
        let ghost before = self@.events;
        let ghost ev = event@;
        self.events.push(event);
        proof {
            assert(self.events.deep_view() =~= before.push(ev));
        }
    }

    /// Whether a write to the device can succeed, given what the host's
    /// write on the shared transport returned: the device must be registered
    /// and the write must have gone through. Changes nothing.
    pub fn write_port(&self, id: &Vec<u8>, outcome: Result<(), TransportErrorKind>) -> (ok: bool)
        ensures
            ok == (has_device(self@.entries, id@) && outcome is Ok),
    {
        match self.find_device(id) {
            Some(_) => outcome.is_ok(),
            None => false,
        }
    }

    /// Switch the device's buffering policy to a custom delimiter; rejected
    /// when the device is not registered. Takes effect on the task's next
    /// chunk.
    pub fn set_delimiter(&mut self, id: &Vec<u8>, delimiter: u8) -> (ok: bool)
        ensures
            ok == has_device(old(self)@.entries, id@),
            final(self)@.events == old(self)@.events,
            final(self)@.entries == update_device(
                old(self)@.entries,
                id@,
                |e: EntryView|
                    EntryView {
                        mode: BufferingMode::CustomDelimiter(delimiter),
                        ..e
                    },
            ),
    {
        let ghost f = |e: EntryView|
            EntryView { mode: BufferingMode::CustomDelimiter(delimiter), ..e };
        match self.find_device(id) {
            Some(i) => {
                let mut entry = self.entries.remove(i);
                entry.mode = BufferingMode::CustomDelimiter(delimiter);
                self.entries.insert(i, entry);
                proof {
                    lemma_update_at_first(old(self)@.entries, id@, f, i as int);
                    assert(self.entries.deep_view() =~= old(self)@.entries.update(
                        i as int,
                        f(old(self)@.entries[i as int]),
                    ));
                }
                true
            },
            None => {
                proof {
                    lemma_has_count(old(self)@.entries, id@);
                    lemma_update_absent(old(self)@.entries, id@, f);
                }
                false
            },
        }
    }

    /// Reconfigure the device's transport, applying each field
    /// independently and continuing past individual rejections; the host
    /// mirrors the resulting configuration onto the shared transport.
    /// Succeeds when the device is registered and every field was accepted.
    pub fn reconfigure_port(
        &mut self,
        id: &Vec<u8>,
        baud: u32,
        data_bits: u8,
        parity_code: u8,
        stop_bits: u8,
        flow_code: u8,
        timeout_ms: u64,
    ) -> (ok: bool)
        ensures
            ok == (has_device(old(self)@.entries, id@) && TransportConfig::apply_all_ok(
                data_bits,
                parity_code,
                stop_bits,
                flow_code,
            )),
            final(self)@.events == old(self)@.events,
            final(self)@.entries == update_device(
                old(self)@.entries,
                id@,
                |e: EntryView|
                    EntryView {
                        config: e.config.apply_all_next(
                            baud,
                            data_bits,
                            parity_code,
                            stop_bits,
                            flow_code,
                            timeout_ms,
                        ),
                        ..e
                    },
            ),
    {
        let ghost f = |e: EntryView|
            EntryView {
                config: e.config.apply_all_next(
                    baud,
                    data_bits,
                    parity_code,
                    stop_bits,
                    flow_code,
                    timeout_ms,
                ),
                ..e
            };
        match self.find_device(id) {
            Some(i) => {
                let mut entry = self.entries.remove(i);
                let accepted = entry.config.apply_all(
                    baud,
                    data_bits,
                    parity_code,
                    stop_bits,
                    flow_code,
                    timeout_ms,
                );
                self.entries.insert(i, entry);
                proof {
                    lemma_update_at_first(old(self)@.entries, id@, f, i as int);
                    assert(self.entries.deep_view() =~= old(self)@.entries.update(
                        i as int,
                        f(old(self)@.entries[i as int]),
                    ));
                }
                accepted
            },
            None => {
                proof {
                    lemma_has_count(old(self)@.entries, id@);
                    lemma_update_absent(old(self)@.entries, id@, f);
                }
                false
            },
        }
    }

    /// Drain the whole queue, never waiting for new events, and return the
    /// drained events in arrival order. Each drained disconnection notice
    /// closes its device's entry to reclaim resources; a notice for a device
    /// already closed is tolerated silently.
    pub fn poll_events(&mut self) -> (drained: Vec<Event>)
        ensures
            drained.deep_view() == old(self)@.events,
            final(self)@ == poll_next(old(self)@),
    {
        let mut drained: Vec<Event> = Vec::new();
        core::mem::swap(&mut drained, &mut self.events);
        proof {
            assert(self.events.deep_view() =~= Seq::<EventView>::empty());
        }
        let ghost evs = drained.deep_view();
        let ghost entries0 = self@.entries;
        let mut i: usize = 0;
        while i < drained.len()
            invariant
                i <= drained.len(),
                drained.deep_view() == evs,
                self@.events == Seq::<EventView>::empty(),
                self@.entries == drain_entries(entries0, evs.take(i as int)),
            decreases drained.len() - i,
        {
            proof {
                assert(drained.deep_view()[i as int] == drained@[i as int]@);
                lemma_drain_snoc(entries0, evs.take(i as int), evs[i as int]);
                assert(evs.take(i + 1) =~= evs.take(i as int).push(evs[i as int]));
            }
            if drained[i].is_disconnected() {
                let device = clone_bytes(drained[i].device());
                self.close_port(&device);
            }
            i = i + 1;
        }
        proof {
            assert(evs.take(evs.len() as int) =~= evs);
        }
        drained
    }
}

/// Removing the entry at the first index whose device is `id` is what
/// `remove_device` says.
proof fn lemma_remove_at_first(entries: Seq<EntryView>, id: Seq<u8>, i: int)
    requires
        0 <= i < entries.len(),
        entries[i].device == id,
        forall|j: int| 0 <= j < i ==> entries[j].device != id,
    ensures
        remove_device(entries, id) == entries.remove(i),
    decreases i,
{
    if i == 0 {
        assert(remove_device(entries, id) =~= entries.remove(0));
    } else {
        let rest = entries.drop_first();
        assert forall|j: int| 0 <= j < i - 1 implies rest[j].device != id by {
            assert(rest[j] == entries[j + 1]);
        }
        lemma_remove_at_first(rest, id, i - 1);
        assert(remove_device(entries, id) =~= entries.remove(i));
    }
}

/// The entry at the first index whose device is `id` is what `device_entry`
/// says.
proof fn lemma_entry_at_first(entries: Seq<EntryView>, id: Seq<u8>, i: int)
    requires
        0 <= i < entries.len(),
        entries[i].device == id,
        forall|j: int| 0 <= j < i ==> entries[j].device != id,
    ensures
        device_entry(entries, id) == Some(entries[i]),
    decreases i,
{
    if i > 0 {
        let rest = entries.drop_first();
        assert forall|j: int| 0 <= j < i - 1 implies rest[j].device != id by {
            assert(rest[j] == entries[j + 1]);
        }
        lemma_entry_at_first(rest, id, i - 1);
    }
}

/// A device with no entry has none to hand out.
proof fn lemma_entry_absent(entries: Seq<EntryView>, id: Seq<u8>)
    requires
        count_device(entries, id) == 0,
    ensures
        device_entry(entries, id) is None,
    decreases entries.len(),
{
    if entries.len() > 0 {
        lemma_entry_absent(entries.drop_first(), id);
    }
}

/// Replacing the entry at the first index whose device is `id` is what
/// `update_device` says.
proof fn lemma_update_at_first(
    entries: Seq<EntryView>,
    id: Seq<u8>,
    f: spec_fn(EntryView) -> EntryView,
    i: int,
)
    requires
        0 <= i < entries.len(),
        entries[i].device == id,
        forall|j: int| 0 <= j < i ==> entries[j].device != id,
    ensures
        update_device(entries, id, f) == entries.update(i, f(entries[i])),
    decreases i,
{
    if i == 0 {
        assert(update_device(entries, id, f) =~= entries.update(0, f(entries[0])));
    } else {
        let rest = entries.drop_first();
        assert forall|j: int| 0 <= j < i - 1 implies rest[j].device != id by {
            assert(rest[j] == entries[j + 1]);
        }
        lemma_update_at_first(rest, id, f, i - 1);
        assert(update_device(entries, id, f) =~= entries.update(i, f(entries[i])));
    }
}

/// A device with no entry is counted zero times, and one with an entry at
/// least once.
proof fn lemma_has_count(entries: Seq<EntryView>, id: Seq<u8>)
    ensures
        has_device(entries, id) <==> count_device(entries, id) >= 1,
    decreases entries.len(),
{
    if entries.len() == 0 {
    } else {
        let rest = entries.drop_first();
        lemma_has_count(rest, id);
        if entries.first().device == id {
            assert(has_device(entries, id));
        } else {
            if has_device(entries, id) {
                let i = choose|i: int| 0 <= i < entries.len() && entries[i].device == id;
                assert(rest[i - 1] == entries[i]);
                assert(has_device(rest, id));
            }
            if has_device(rest, id) {
                let i = choose|i: int| 0 <= i < rest.len() && rest[i].device == id;
                assert(entries[i + 1] == rest[i]);
                assert(has_device(entries, id));
            }
        }
    }
}

/// Removing a device that has no entry changes nothing.
proof fn lemma_remove_absent(entries: Seq<EntryView>, id: Seq<u8>)
    requires
        count_device(entries, id) == 0,
    ensures
        remove_device(entries, id) == entries,
    decreases entries.len(),
{
    if entries.len() == 0 {
    } else {
        lemma_remove_absent(entries.drop_first(), id);
        assert(remove_device(entries, id) =~= entries);
    }
}

/// Replacing the entry of a device that has none changes nothing.
proof fn lemma_update_absent(
    entries: Seq<EntryView>,
    id: Seq<u8>,
    f: spec_fn(EntryView) -> EntryView,
)
    requires
        count_device(entries, id) == 0,
    ensures
        update_device(entries, id, f) == entries,
    decreases entries.len(),
{
    if entries.len() == 0 {
    } else {
        lemma_update_absent(entries.drop_first(), id, f);
        assert(update_device(entries, id, f) =~= entries);
    }
}

/// What one more entry at the back does to a count.
proof fn lemma_count_push(entries: Seq<EntryView>, e: EntryView, id: Seq<u8>)
    ensures
        count_device(entries.push(e), id) == count_device(entries, id) + (if e.device == id {
            1nat
        } else {
            0nat
        }),
    decreases entries.len(),
{
    if entries.len() == 0 {
        assert(entries.push(e).drop_first() =~= Seq::<EntryView>::empty());
        assert(entries.push(e).first() == e);
        assert(count_device(Seq::<EntryView>::empty(), id) == 0);
    } else {
        assert(entries.push(e).drop_first() =~= entries.drop_first().push(e));
        assert(entries.push(e).first() == entries.first());
        lemma_count_push(entries.drop_first(), e, id);
    }
}

/// What removing a device's first entry does to each count: that device
/// loses one entry if it had any, every other device keeps its count.
proof fn lemma_count_remove(entries: Seq<EntryView>, id: Seq<u8>, other: Seq<u8>)
    ensures
        count_device(remove_device(entries, id), other) == if other == id {
            if count_device(entries, id) >= 1 {
                (count_device(entries, id) - 1) as nat
            } else {
                0nat
            }
        } else {
            count_device(entries, other)
        },
    decreases entries.len(),
{
    if entries.len() == 0 {
    } else {
        let rest = entries.drop_first();
        if entries.first().device == id {
        } else {
            lemma_count_remove(rest, id, other);
            let removed = seq![entries.first()] + remove_device(rest, id);
            assert(removed.drop_first() =~= remove_device(rest, id));
            assert(removed.first() == entries.first());
        }
    }
}

/// Reacting to one more drained event reacts to it last.
proof fn lemma_drain_snoc(entries: Seq<EntryView>, evs: Seq<EventView>, ev: EventView)
    ensures
        drain_entries(entries, evs.push(ev)) == drain_step(drain_entries(entries, evs), ev),
    decreases evs.len(),
{
    if evs.len() == 0 {
        assert(evs.push(ev).drop_first() =~= Seq::<EventView>::empty());
        assert(evs.push(ev).first() == ev);
        assert(drain_entries(drain_step(entries, ev), Seq::<EventView>::empty()) == drain_step(
            entries,
            ev,
        ));
        assert(drain_entries(entries, evs) == entries);
    } else {
        assert(evs.push(ev).drop_first() =~= evs.drop_first().push(ev));
        assert(evs.push(ev).first() == evs.first());
        lemma_drain_snoc(drain_step(entries, evs.first()), evs.drop_first(), ev);
    }
}

/// Opening a device that is already open tears the old entry down before
/// the new one is registered: afterwards the registry holds exactly one
/// entry for the device when a transport was acquired, and none when not —
/// never two entries, so never two reader tasks. Registration stays free of
/// duplicates for every device.
pub proof fn lemma_open_port_exclusive(
    m: ManagerView,
    id: Seq<u8>,
    config: TransportConfig,
    mode: BufferingMode,
    acquired: bool,
)
    requires
        unique_devices(m.entries),
    ensures
        count_device(open_next(m, id, config, mode, acquired).entries, id) == if acquired {
            1nat
        } else {
            0nat
        },
        unique_devices(open_next(m, id, config, mode, acquired).entries),
{
    let removed = remove_device(m.entries, id);
    assert forall|other: Seq<u8>| count_device(removed, other) <= 1 by {
        lemma_count_remove(m.entries, id, other);
    }
    lemma_count_remove(m.entries, id, id);
    if acquired {
        let e = EntryView { device: id, mode, config };
        assert forall|other: Seq<u8>| count_device(removed.push(e), other)
            <= 1 by {
            lemma_count_push(removed, e, other);
            lemma_count_remove(m.entries, id, other);
        }
        lemma_count_push(removed, e, id);
    }
}

/// `close_port` is idempotent: closing a device twice is the same as
/// closing it once, and closing a device that was never opened changes
/// nothing. Neither call fails, and a close is never undone.
pub proof fn lemma_close_port_idempotent(m: ManagerView, id: Seq<u8>)
    requires
        unique_devices(m.entries),
    ensures
        close_next(close_next(m, id), id) == close_next(m, id),
        !has_device(m.entries, id) ==> close_next(m, id) == m,
        !has_device(close_next(m, id).entries, id),
{
    lemma_count_remove(m.entries, id, id);
    lemma_has_count(m.entries, id);
    lemma_has_count(remove_device(m.entries, id), id);
    lemma_remove_absent(remove_device(m.entries, id), id);
    if !has_device(m.entries, id) {
        lemma_remove_absent(m.entries, id);
    }
}

/// Polling drains the queue whole: with no intervening activity a second
/// `poll_events` returns the empty list and changes nothing further.
pub proof fn lemma_poll_drains_completely(m: ManagerView)
    ensures
        poll_next(m).events == Seq::<EventView>::empty(),
        poll_next(poll_next(m)) == poll_next(m),
{
}

} // verus!
