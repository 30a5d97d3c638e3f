//! The decisions of the dispatch loop: which events reach the notification
//! sink, and at which priority.
use vstd::prelude::*;
use crate::model::{AdapterStatus, BatEvent, BatLvl};
use crate::priority::{EvPriority, PriorityThreshold};

verus! {

/// An event handed to the notification sink, with its priority.
#[derive(Clone, Copy, Debug, PartialEq, Eq, Structural)]
pub struct Notification {
    pub event: BatEvent,
    pub priority: EvPriority,
}

impl Notification {
    pub fn new(event: BatEvent, priority: EvPriority) -> (r: Notification)
        ensures
            r.event == event,
            r.priority == priority,
    {
        Notification { event, priority }
    }
}

/// What the dispatch loop remembers between two events.
#[derive(Clone, Copy, Debug, PartialEq, Eq, Structural)]
pub struct DispatchState {
    /// Whether the adapter was last seen connected.
    pub adapter_connected: bool,
    /// The priority of the last battery notice since the last adapter change.
    pub last_battery_priority: Option<EvPriority>,
}

/// The state and the notice, if any, after one event.
pub open spec fn step(s: DispatchState, e: BatEvent, t: PriorityThreshold) -> (DispatchState, Option<
    Notification,
>) {
    match e {
        BatEvent::Adapter(status) => (
            DispatchState {
                adapter_connected: status == AdapterStatus::Connected,
                last_battery_priority: None,
            },
            Some(Notification { event: e, priority: EvPriority::Low }),
        ),
        BatEvent::Battery(lvl) => {
            if s.adapter_connected {
                (s, None)
            } else {
                let p = t.classify(lvl@);
                if p == s.last_battery_priority {
                    (s, None)
                } else {
                    match p {
                        Some(q) => (
                            DispatchState { last_battery_priority: p, ..s },
                            Some(Notification { event: e, priority: q }),
                        ),
                        None => (s, None),
                    }
                }
            }
        },
    }
}

/// The final state and the notices, in order, after a sequence of events.
pub open spec fn run(s: DispatchState, evs: Seq<BatEvent>, t: PriorityThreshold) -> (DispatchState, Seq<
    Notification,
>)
    decreases evs.len(),
{
    if evs.len() == 0 {
        (s, Seq::empty())
    } else {
        let (s1, n) = step(s, evs[0], t);
        let (s2, rest) = run(s1, evs.subrange(1, evs.len() as int), t);
        match n {
            Some(x) => (s2, seq![x] + rest),
            None => (s2, rest),
        }
    }
}

impl DispatchState {
    /// The state at start: adapter not connected, nothing reported.
    pub fn new() -> (r: DispatchState)
        ensures
            !r.adapter_connected,
            r.last_battery_priority is None,
    {
        DispatchState { adapter_connected: false, last_battery_priority: None }
    }

    /// Takes one event; returns the notice to hand to the sink, if any.
    pub fn on_event(&mut self, event: BatEvent, threshold: &PriorityThreshold) -> (r: Option<
        Notification,
    >)
        ensures
            (*final(self), r) == step(*old(self), event, *threshold),
    {
        match event {
            BatEvent::Adapter(status) => {
                self.adapter_connected = match status {
                    AdapterStatus::Connected => true,
                    AdapterStatus::Disconnected => false,
                };
                self.last_battery_priority = None;
                Some(Notification::new(event, EvPriority::Low))
            },
            BatEvent::Battery(lvl) => {
                if self.adapter_connected {
                    return None;
                }
                let prio = threshold.priority(lvl);
                if prio == self.last_battery_priority {
                    return None;
                }
                match prio {
                    Some(q) => {
                        self.last_battery_priority = prio;
                        Some(Notification::new(event, q))
                    },
                    None => None,
                }
            },
        }
    }
}

/// Two battery readings in a row of the same priority, while the adapter is
/// disconnected, give exactly one notice: the first, where that priority is
/// one and differs from the one last reported. The second is never reported.
pub proof fn lemma_same_priority_once(
    s: DispatchState,
    a: BatEvent,
    b: BatEvent,
    t: PriorityThreshold,
)
    requires
        !s.adapter_connected,
        a is Battery,
        b is Battery,
        t.classify(a->Battery_0@) == t.classify(b->Battery_0@),
    ensures
        run(s, seq![a, b], t).1.len() == (if t.classify(a->Battery_0@) is Some
            && t.classify(a->Battery_0@) != s.last_battery_priority { 1int } else { 0int }),
        step(step(s, a, t).0, b, t).1 is None,
{
    let evs = seq![a, b];
    assert(evs.subrange(1, 2) =~= seq![b]);
    assert(evs.subrange(1, 2).subrange(1, 1) =~= Seq::<BatEvent>::empty());
    reveal_with_fuel(run, 3);
}

/// A battery reading with no priority gives no notice and leaves the state,
/// and so the memory of the last notice, as it was.
pub proof fn lemma_no_priority_keeps_state(s: DispatchState, lvl: BatLvl, t: PriorityThreshold)
    requires
        t.classify(lvl@) is None,
    ensures
        step(s, BatEvent::Battery(lvl), t) == (s, None::<Notification>),
{
}

/// An adapter change is always reported, at low priority, and clears the
/// memory of the last battery notice.
pub proof fn lemma_adapter_always_reported(s: DispatchState, status: AdapterStatus, t: PriorityThreshold)
    ensures
        step(s, BatEvent::Adapter(status), t).1 == Some(
            Notification { event: BatEvent::Adapter(status), priority: EvPriority::Low },
        ),
        step(s, BatEvent::Adapter(status), t).0.last_battery_priority is None,
        step(s, BatEvent::Adapter(status), t).0.adapter_connected == (status
            == AdapterStatus::Connected),
{
}

/// While the adapter is connected, any number of battery readings give no
/// notice and leave the state as it was.
pub proof fn lemma_connected_silences_battery(
    s: DispatchState,
    evs: Seq<BatEvent>,
    t: PriorityThreshold,
)
    requires
        s.adapter_connected,
        forall|i: int| 0 <= i < evs.len() ==> #[trigger] evs[i] is Battery,
    ensures
        run(s, evs, t).1.len() == 0,
        run(s, evs, t).0 == s,
    decreases evs.len(),
{
    if evs.len() > 0 {
        let rest = evs.subrange(1, evs.len() as int);
        assert forall|i: int| 0 <= i < rest.len() implies #[trigger] rest[i] is Battery by {
            assert(rest[i] == evs[i + 1]);
        }
        assert(evs[0] is Battery);
        lemma_connected_silences_battery(s, rest, t);
    }
}

} // verus!
