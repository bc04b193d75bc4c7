//! The queue of events that the Wayland backend collects during one
//! dispatch and delivers to the application afterwards.
//!
//! Window creation can roundtrip the compositor from an application
//! callback, which can queue events for a popup that is destroyed later in
//! the same iteration. Retiring a window therefore removes its pending
//! events, while device events and the events of live windows keep their
//! order.
use vstd::prelude::*;

verus! {

/// Identifies a window.
#[derive(Clone, Copy, Debug, PartialEq, Eq, Hash, Structural)]
pub struct WindowId(usize);

impl WindowId {
    pub fn from_raw(id: usize) -> (r: WindowId)
        ensures
            r.raw() == id,
    {
        WindowId(id)
    }

    pub fn into_raw(self) -> (r: usize)
        ensures
            r == self.raw(),
    {
        self.0
    }

    /// The number that identifies the window.
    pub closed spec fn raw(self) -> usize {
        self.0
    }

    /// Windows are the same exactly when their numbers are.
    pub proof fn lemma_raw_identifies(self, other: WindowId)
        ensures
            (self == other) <==> (self.raw() == other.raw()),
    {
    }
}

/// An event for the application: one that belongs to a window, or one
/// that comes from a device.
#[derive(Debug)]
pub enum Event<W, D> {
    WindowEvent { window_id: WindowId, event: W },
    DeviceEvent { event: D },
}

impl<W, D> Event<W, D> {
    /// This event belongs to the window `id`.
    pub open spec fn targets(self, id: WindowId) -> bool {
        match self {
            Event::WindowEvent { window_id, .. } => window_id == id,
            Event::DeviceEvent { .. } => false,
        }
    }
}

/// Whether an event stays when the window `id` is retired.
pub open spec fn outlives<W, D>(id: WindowId) -> spec_fn(Event<W, D>) -> bool {
    |e: Event<W, D>| !e.targets(id)
}

/// The events of `events` that do not belong to the window `id`, in order.
pub open spec fn without_window<W, D>(events: Seq<Event<W, D>>, id: WindowId) -> Seq<Event<W, D>> {
    events.filter(outlives(id))
}

/// Pending events, in the order in which they were pushed.
pub struct EventSink<W, D> {
    window_events: Vec<Event<W, D>>,
}

impl<W, D> View for EventSink<W, D> {
    type V = Seq<Event<W, D>>;

    closed spec fn view(&self) -> Seq<Event<W, D>> {
        self.window_events@
    }
}

impl<W, D> EventSink<W, D> {
    pub fn new() -> (r: Self)
        ensures
            r@ == Seq::<Event<W, D>>::empty(),
    {
        EventSink { window_events: Vec::new() }
    }

    /// Whether no event is pending.
    pub fn is_empty(&self) -> (r: bool)
        ensures
            r == (self@.len() == 0),
    {
        self.window_events.len() == 0
    }

    /// Queues an event from a device.
    pub fn push_device_event(&mut self, event: D)
        ensures
            final(self)@ == old(self)@.push(Event::DeviceEvent { event }),
    {
        self.window_events.push(Event::DeviceEvent { event });
    }

    /// Queues an event for the window `window_id`.
    pub fn push_window_event(&mut self, event: W, window_id: WindowId)
        ensures
            final(self)@ == old(self)@.push(Event::WindowEvent { window_id, event }),
    {
        self.window_events.push(Event::WindowEvent { window_id, event });
    }

    /// Moves the events of `other` behind those of `self`.
    pub fn append(&mut self, other: &mut Self)
        ensures
            final(self)@ == old(self)@ + old(other)@,
            final(other)@ == Seq::<Event<W, D>>::empty(),
    {
        self.window_events.append(&mut other.window_events);
    }

    /// Drops the pending events of a retired window; all other events keep
    /// their order.
    pub fn remove_window(&mut self, window_id: WindowId)
        ensures
            final(self)@ == without_window(old(self)@, window_id),
    {
        let mut pending: Vec<Event<W, D>> = Vec::new();
        std::mem::swap(&mut pending, &mut self.window_events);
        let ghost all = pending@;
        let ghost keep = outlives::<W, D>(window_id);
        let mut kept: Vec<Event<W, D>> = Vec::new();
        for event in it: pending.into_iter()
            invariant
                it.seq() == all,
                keep == outlives::<W, D>(window_id),
                kept@ == all.take(it.index() as int).filter(keep),
        {
            let ghost i = it.index() as int;
            let retired = match &event {
                Event::WindowEvent { window_id: id, .. } => *id == window_id,
                Event::DeviceEvent { .. } => false,
            };
            proof {
                assert(all.take(i + 1).drop_last() =~= all.take(i));
                reveal_with_fuel(Seq::<_>::filter, 1);
            }
            if !retired {
                kept.push(event);
            }
        }
        proof {
            assert(all.take(all.len() as int) =~= all);
        }
        self.window_events = kept;
    }

    /// Hands out all pending events in order and leaves the sink empty.
    pub fn drain(&mut self) -> (r: Vec<Event<W, D>>)
        ensures
            r@ == old(self)@,
            final(self)@ == Seq::<Event<W, D>>::empty(),
    {
        let mut pending: Vec<Event<W, D>> = Vec::new();
        std::mem::swap(&mut pending, &mut self.window_events);
        pending
    }
}

/// Filtering keeps a sequence whose elements all pass.
proof fn lemma_filter_keeps_all<A>(s: Seq<A>, pred: spec_fn(A) -> bool)
    requires
        forall|i: int| 0 <= i < s.len() ==> pred(#[trigger] s[i]),
    ensures
        s.filter(pred) == s,
    decreases s.len(),
{
    reveal(Seq::filter);
    if s.len() > 0 {
        lemma_filter_keeps_all(s.drop_last(), pred);
        assert(s.drop_last().push(s.last()) =~= s);
    }
}

/// Retiring a window removes every pending event of that window and keeps
/// every other event, in order; retiring it again changes nothing, and
/// retiring a window with no pending event changes nothing either.
pub proof fn law_retirement<W, D>(events: Seq<Event<W, D>>, id: WindowId)
    ensures
        forall|i: int|
            0 <= i < without_window(events, id).len() ==> !(#[trigger] without_window(
                events,
                id,
            )[i]).targets(id),
        without_window(without_window(events, id), id) == without_window(events, id),
        (forall|i: int| 0 <= i < events.len() ==> !(#[trigger] events[i]).targets(id))
            ==> without_window(events, id) == events,
{
    let f = without_window(events, id);
    assert forall|i: int| 0 <= i < f.len() implies !(#[trigger] f[i]).targets(id) by {
        events.lemma_filter_pred(outlives(id), i);
    }
    assert forall|i: int| 0 <= i < f.len() implies (outlives::<W, D>(id))(#[trigger] f[i]) by {
        events.lemma_filter_pred(outlives(id), i);
    }
    lemma_filter_keeps_all(f, outlives(id));
    if forall|i: int| 0 <= i < events.len() ==> !(#[trigger] events[i]).targets(id) {
        lemma_filter_keeps_all(events, outlives(id));
    }
}

} // verus!
