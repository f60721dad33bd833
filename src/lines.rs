use vstd::prelude::*;

verus! {

/// Identifies one line visual of a [`LinePool`]; never reused for another.
pub type LineHandle = usize;

/// The geometry of a line for the current frame: from `origin` (a pose) along
/// its forward axis for `length` millionths of a unit.
pub struct LineDraw<P> {
    pub origin: P,
    pub length: u64,
}

/// The line visuals of the pointers, and the geometry drawn since the last
/// update.
pub struct LinePool<P> {
    /// Whether each handle ever handed out is still held.
    live: Vec<bool>,
    /// At most one draw per handle, in the order the handles were first drawn.
    pending: Vec<(LineHandle, LineDraw<P>)>,
}

/// The index in `pending` of the draw for `h`, if there is one.
pub open spec fn pending_index<P>(pending: Seq<(LineHandle, LineDraw<P>)>, h: LineHandle) -> Option<int> {
    if exists|i: int| 0 <= i < pending.len() && (#[trigger] pending[i]).0 == h {
        Some(choose|i: int| 0 <= i < pending.len() && (#[trigger] pending[i]).0 == h)
    } else {
        None
    }
}

impl<P> LinePool<P> {
    /// For each handle handed out, whether it is still held.
    pub closed spec fn handles(&self) -> Seq<bool> {
        self.live@
    }

    /// The draws waiting for the next update.
    pub closed spec fn pending(&self) -> Seq<(LineHandle, LineDraw<P>)> {
        self.pending@
    }

    pub open spec fn holds(&self, h: LineHandle) -> bool {
        h < self.handles().len() && self.handles()[h as int]
    }

    pub open spec fn wf(&self) -> bool {
        &&& forall|i: int| 0 <= i < self.pending().len() ==> self.holds(#[trigger] self.pending()[i].0)
        &&& forall|i: int, j: int|
            0 <= i < j < self.pending().len() ==> (#[trigger] self.pending()[i]).0
                != (#[trigger] self.pending()[j]).0
    }

    pub fn new() -> (r: LinePool<P>)
        ensures
            r.wf(),
            r.handles().len() == 0,
            r.pending().len() == 0,
    {
        LinePool { live: Vec::new(), pending: Vec::new() }
    }

    /// Reserves a new line visual and returns its handle.
    pub fn allocate(&mut self) -> (h: LineHandle)
        requires
            old(self).wf(),
            old(self).handles().len() < usize::MAX,
        ensures
            final(self).wf(),
            h == old(self).handles().len(),
            final(self).handles() == old(self).handles().push(true),
            final(self).pending() == old(self).pending(),
    {
        let h = self.live.len();
        self.live.push(true);
        assert(self.pending() == old(self).pending());
        assert forall|i: int| 0 <= i < self.pending().len() implies self.holds(
            #[trigger] self.pending()[i].0,
        ) by {
            assert(old(self).pending()[i] == self.pending()[i]);
            assert(old(self).holds(old(self).pending()[i].0));
        }
        h
    }

    fn find_pending(&self, h: LineHandle) -> (r: Option<usize>)
        ensures
            r matches Some(i) ==> i < self.pending().len() && self.pending()[i as int].0 == h,
            r is None ==> forall|i: int| 0 <= i < self.pending().len() ==> (#[trigger] self.pending()[i]).0 != h,
    {
        let mut i: usize = 0;
        while i < self.pending.len()
            invariant
                i <= self.pending@.len(),
                forall|j: int| 0 <= j < i ==> (#[trigger] self.pending@[j]).0 != h,
            decreases self.pending@.len() - i,
        {
            if self.pending[i].0 == h {
                return Some(i);
            }
            i = i + 1;
        }
        None
    }

    /// Sets the geometry of line `h` for this frame, replacing any geometry
    /// drawn for it since the last update.
    pub fn draw_from(&mut self, h: LineHandle, origin: P, length: u64)
        requires
            old(self).wf(),
            old(self).holds(h),
        ensures
            final(self).wf(),
            final(self).handles() == old(self).handles(),
            final(self).pending() == match pending_index(old(self).pending(), h) {
                Some(i) => old(self).pending().update(i, (h, LineDraw { origin, length })),
                None => old(self).pending().push((h, LineDraw { origin, length })),
            },
    {
        let draw = LineDraw { origin, length };
        match self.find_pending(h) {
            Some(i) => {
                proof {
                    let k = choose|k: int| 0 <= k < self.pending@.len() && (#[trigger] self.pending@[k]).0 == h;
                    assert(k == i as int);
                }
                self.pending.set(i, (h, draw));
            },
            None => {
                self.pending.push((h, draw));
            },
        }
    }

    /// Gives up line `h`; its handle is not handed out again.
    pub fn release(&mut self, h: LineHandle)
        requires
            old(self).wf(),
            h < old(self).handles().len(),
        ensures
            final(self).wf(),
            final(self).handles() == old(self).handles().update(h as int, false),
            final(self).pending() == match pending_index(old(self).pending(), h) {
                Some(i) => old(self).pending().remove(i),
                None => old(self).pending(),
            },
    {
        if let Some(i) = self.find_pending(h) {
            proof {
                let k = choose|k: int| 0 <= k < self.pending@.len() && (#[trigger] self.pending@[k]).0 == h;
                assert(k == i as int);
            }
            self.pending.remove(i);
        }
        self.live.set(h, false);
    }

    /// Hands over every draw since the last update, as one batch, and starts
    /// the next frame with none.
    pub fn update(&mut self) -> (batch: Vec<(LineHandle, LineDraw<P>)>)
        requires
            old(self).wf(),
        ensures
            final(self).wf(),
            batch@ == old(self).pending(),
            final(self).pending().len() == 0,
            final(self).handles() == old(self).handles(),
    {
        let mut batch: Vec<(LineHandle, LineDraw<P>)> = Vec::new();
        std::mem::swap(&mut batch, &mut self.pending);
        batch
    }
}

} // verus!
