use vstd::prelude::*;

verus! {

/// Microseconds between two scheduled refreshes of the tracked-device list.
pub const DEVICE_REFRESH_INTERVAL_US: u64 = 30_000_000;

/// An event reported by the VR runtime, as far as the frame loop reads it.
#[derive(PartialEq, Eq, Structural, Clone, Copy, Debug)]
pub enum RuntimeEvent {
    Quit,
    DeviceActivated,
    DeviceDeactivated,
    DeviceUpdated,
    Other,
}

impl RuntimeEvent {
    /// Whether the event changes the set of tracked devices.
    pub open spec fn changes_topology(self) -> bool {
        self is DeviceActivated || self is DeviceDeactivated || self is DeviceUpdated
    }
}

/// Whether any event of `events` changes the set of tracked devices.
pub open spec fn any_topology_change(events: Seq<RuntimeEvent>) -> bool {
    exists|i: int| 0 <= i < events.len() && (#[trigger] events[i]).changes_topology()
}

/// When the tracked-device list is next to be refreshed.
pub struct DeviceRefreshTimer {
    /// The instant, in microseconds, from which a refresh is due.
    pub next_due: u64,
}

impl DeviceRefreshTimer {
    /// A timer that is due at once, at `now`.
    pub fn new(now: u64) -> (r: DeviceRefreshTimer)
        ensures
            r.next_due == now,
    {
        DeviceRefreshTimer { next_due: now }
    }

    /// Makes the refresh due at `now`, whatever was scheduled before.
    pub fn mark_due(&mut self, now: u64)
        ensures
            final(self).next_due == now,
    {
        self.next_due = now;
    }

    pub fn is_due(&self, now: u64) -> (r: bool)
        ensures
            r == (self.next_due <= now),
    {
        self.next_due <= now
    }

    /// Records a refresh made at `now`: the next one falls due one interval on.
    pub fn refreshed(&mut self, now: u64)
        requires
            now + DEVICE_REFRESH_INTERVAL_US <= u64::MAX,
        ensures
            final(self).next_due == now + DEVICE_REFRESH_INTERVAL_US,
    {
        self.next_due = now + DEVICE_REFRESH_INTERVAL_US;
    }

    /// Takes in the events polled at `now`, in order. Returns `true` on a quit
    /// event, and then reads no further event. Otherwise a topology change
    /// among them makes the refresh due at `now`, however many there were.
    pub fn take_events(&mut self, events: &Vec<RuntimeEvent>, now: u64) -> (quit: bool)
        ensures
            quit == events@.contains(RuntimeEvent::Quit),
            !quit ==> final(self).next_due == if any_topology_change(events@) {
                now
            } else {
                old(self).next_due
            },
    {
        let mut i: usize = 0;
        while i < events.len()
            invariant
                i <= events@.len(),
                forall|j: int| 0 <= j < i ==> events@[j] != RuntimeEvent::Quit,
                self.next_due == if any_topology_change(events@.subrange(0, i as int)) {
                    now
                } else {
                    old(self).next_due
                },
            decreases events@.len() - i,
        {
            let ghost before = events@.subrange(0, i as int);
            let ev = events[i];
            assert(events@.subrange(0, i + 1) == before.push(ev));
            match ev {
                RuntimeEvent::Quit => {
                    return true;
                },
                RuntimeEvent::DeviceActivated
                | RuntimeEvent::DeviceDeactivated
                | RuntimeEvent::DeviceUpdated => {
                    self.mark_due(now);
                    assert(before.push(ev)[i as int] == ev);
                },
                RuntimeEvent::Other => {
                    proof {
                        let after = before.push(ev);
                        if any_topology_change(after) {
                            let k = choose|k: int|
                                0 <= k < after.len() && (#[trigger] after[k]).changes_topology();
                            assert(before[k] == after[k]);
                        }
                    }
                },
            }
            proof {
                if any_topology_change(before) {
                    let k = choose|k: int| 0 <= k < before.len() && (#[trigger] before[k]).changes_topology();
                    assert(before.push(ev)[k] == before[k]);
                }
            }
            i = i + 1;
        }
        assert(events@.subrange(0, events@.len() as int) == events@);
        false
    }
}

} // verus!
