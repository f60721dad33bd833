use vstd::prelude::*;

verus! {

/// Identifies one overlay in the overlay container.
pub type OverlaySelector = u64;

/// Deferred work: on application state only, or on it and one overlay.
pub enum Task<P> {
    Global(P),
    Overlay(OverlaySelector, P),
}

/// What to run for a due task, once its overlay has been looked up.
pub enum Dispatch<P> {
    Global(P),
    /// The index of the target overlay in the container, and the work.
    Overlay(usize, P),
}

/// A task together with the instant (microseconds) from which it is due.
pub struct ScheduledEntry<P> {
    pub due: u64,
    pub task: P,
}

/// The tasks of `s` whose due time is at or before `now`, in order.
pub open spec fn due_tasks<P>(s: Seq<ScheduledEntry<P>>, now: u64) -> Seq<P>
    decreases s.len(),
{
    if s.len() == 0 {
        Seq::empty()
    } else {
        let rest = due_tasks(s.drop_last(), now);
        if s.last().due <= now {
            rest.push(s.last().task)
        } else {
            rest
        }
    }
}

/// The entries of `s` that are not yet due at `now`, in order.
pub open spec fn later_entries<P>(s: Seq<ScheduledEntry<P>>, now: u64) -> Seq<ScheduledEntry<P>>
    decreases s.len(),
{
    if s.len() == 0 {
        Seq::empty()
    } else {
        let rest = later_entries(s.drop_last(), now);
        if s.last().due <= now {
            rest
        } else {
            rest.push(s.last())
        }
    }
}

/// The entries not yet due are exactly the later ones, and together with the
/// due ones they account for every entry once.
pub proof fn lemma_partition<P>(s: Seq<ScheduledEntry<P>>, now: u64)
    ensures
        due_tasks(s, now).len() + later_entries(s, now).len() == s.len(),
        forall|i: int|
            0 <= i < later_entries(s, now).len() ==> #[trigger] later_entries(s, now)[i].due > now,
    decreases s.len(),
{
    if s.len() > 0 {
        lemma_partition(s.drop_last(), now);
    }
}

/// The tasks of `s` that fall due after `lo` and at or before `hi`, in order.
pub open spec fn tasks_due_between<P>(s: Seq<ScheduledEntry<P>>, lo: u64, hi: u64) -> Seq<P>
    decreases s.len(),
{
    if s.len() == 0 {
        Seq::empty()
    } else {
        let rest = tasks_due_between(s.drop_last(), lo, hi);
        if lo < s.last().due <= hi {
            rest.push(s.last().task)
        } else {
            rest
        }
    }
}

/// Retrieving at `t1` and then at a later `t2`: the second retrieval delivers,
/// in submission order, exactly the tasks that fell due after `t1`, and what is
/// left is what a single retrieval at `t2` would have left. So no task comes
/// early, none comes twice, and none is lost.
pub proof fn lemma_successive_retrievals<P>(s: Seq<ScheduledEntry<P>>, t1: u64, t2: u64)
    requires
        t1 <= t2,
    ensures
        due_tasks(later_entries(s, t1), t2) == tasks_due_between(s, t1, t2),
        later_entries(later_entries(s, t1), t2) == later_entries(s, t2),
        due_tasks(s, t1).len() + tasks_due_between(s, t1, t2).len() == due_tasks(s, t2).len(),
    decreases s.len(),
{
    if s.len() > 0 {
        let init = s.drop_last();
        let e = s.last();
        lemma_successive_retrievals(init, t1, t2);
        if e.due > t1 {
            let l1 = later_entries(init, t1);
            assert(later_entries(s, t1).drop_last() == l1);
        }
    }
}

/// Tasks waiting for their due time, kept in submission order.
pub struct TaskQueue<P> {
    entries: Vec<ScheduledEntry<P>>,
}

impl<P> TaskQueue<P> {
    /// The waiting entries, oldest submission first.
    pub closed spec fn view(&self) -> Seq<ScheduledEntry<P>> {
        self.entries@
    }

    pub fn new() -> (r: TaskQueue<P>)
        ensures
            r@ == Seq::<ScheduledEntry<P>>::empty(),
    {
        TaskQueue { entries: Vec::new() }
    }

    pub fn len(&self) -> (r: usize)
        ensures
            r == self@.len(),
    {
        self.entries.len()
    }

    /// Enqueues `task`, due from instant `due`, behind every earlier submission.
    pub fn submit(&mut self, task: P, due: u64)
        ensures
            final(self)@ == old(self)@.push(ScheduledEntry { due, task }),
    {
        self.entries.push(ScheduledEntry { due, task });
    }

    /// Moves every task due at `now` to the back of `buffer`, in submission
    /// order, and keeps the others, in their order, for a later retrieval.
    pub fn retrieve_due(&mut self, now: u64, buffer: &mut Vec<P>)
        ensures
            final(buffer)@ == old(buffer)@ + due_tasks(old(self)@, now),
            final(self)@ == later_entries(old(self)@, now),
    {
        let mut pending: Vec<ScheduledEntry<P>> = Vec::new();
        std::mem::swap(&mut pending, &mut self.entries);
        let ghost all = pending@;
        // Reverse into `newest_first`, so that popping it yields the oldest.
        let mut newest_first: Vec<ScheduledEntry<P>> = Vec::new();
        while pending.len() > 0
            invariant
                all == pending@ + newest_first@.reverse(),
            decreases pending.len(),
        {
            let e = pending.pop().unwrap();
            proof {
                assert(newest_first@.push(e).reverse() == seq![e] + newest_first@.reverse());
            }
            newest_first.push(e);
        }
        assert(newest_first@.reverse() == all);
        let ghost start = buffer@;
        while newest_first.len() > 0
            invariant
                all == all.subrange(0, all.len() - newest_first@.len()) + newest_first@.reverse(),
                buffer@ == start + due_tasks(all.subrange(0, all.len() - newest_first@.len()), now),
                self.entries@ == later_entries(all.subrange(0, all.len() - newest_first@.len()), now),
            decreases newest_first.len(),
        {
            let ghost k = all.len() - newest_first@.len();
            let e = newest_first.pop().unwrap();
            proof {
                assert(all[k] == e);
                assert(all.subrange(0, k + 1).drop_last() == all.subrange(0, k));
            }
            if e.due <= now {
                buffer.push(e.task);
            } else {
                self.entries.push(e);
            }
        }
        assert(all.subrange(0, all.len() as int) == all);
    }
}

/// The first index of `sel` in `overlays`, if it is there.
pub fn find_overlay(overlays: &Vec<OverlaySelector>, sel: OverlaySelector) -> (r: Option<usize>)
    ensures
        r matches Some(i) ==> i < overlays@.len() && overlays@[i as int] == sel && forall|j: int|
            0 <= j < i ==> overlays@[j] != sel,
        r is None <==> !overlays@.contains(sel),
{
    let mut i: usize = 0;
    while i < overlays.len()
        invariant
            i <= overlays@.len(),
            forall|j: int| 0 <= j < i ==> overlays@[j] != sel,
        decreases overlays@.len() - i,
    {
        if overlays[i] == sel {
            return Some(i);
        }
        i = i + 1;
    }
    None
}

impl<P> Task<P> {
    /// Looks up the overlay that an overlay-scoped task targets. One whose overlay
    /// is gone yields `None`: it is skipped.
    pub fn into_dispatch(self, overlays: &Vec<OverlaySelector>) -> (r: Option<Dispatch<P>>)
        ensures
            self matches Task::Global(f) ==> r == Some(Dispatch::Global(f)),
            self matches Task::Overlay(sel, f) ==> (if overlays@.contains(sel) {
                r matches Some(Dispatch::Overlay(i, g)) && g == f && i < overlays@.len()
                    && overlays@[i as int] == sel
            } else {
                r is None
            }),
    {
        match self {
            Task::Global(f) => Some(Dispatch::Global(f)),
            Task::Overlay(sel, f) => match find_overlay(overlays, sel) {
                Some(i) => Some(Dispatch::Overlay(i, f)),
                None => None,
            },
        }
    }
}

} // verus!
