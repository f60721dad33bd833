use vstd::prelude::*;
use crate::interaction::{nearest_hit, ray_length, ray_length_of, has_hit, is_nearest_hit};
use crate::lines::{LineDraw, LineHandle, LinePool, pending_index};
use crate::pacing::{FramePacer, frame_interval_of, sleep_of};
use crate::refresh::{
    DEVICE_REFRESH_INTERVAL_US, DeviceRefreshTimer, RuntimeEvent, any_topology_change,
};

verus! {

/// Number of pointers: one per hand.
pub const POINTER_COUNT: usize = 2;

/// One hand's interaction ray.
#[derive(Clone, Copy)]
pub struct Pointer {
    /// 0 or 1, for the two hands.
    pub hand: usize,
    /// The line visual that this pointer owns for its whole life.
    pub line: LineHandle,
    /// The distance of the overlay it hovers, or `None` when idle.
    pub hover: Option<u64>,
}

/// How a frame begins, once the runtime's events are taken in.
pub enum FrameStart {
    /// A quit event came: the loop ends here.
    Quit,
    /// The frame runs; the tracked devices are refreshed first when told so.
    Continue { refresh_devices: bool },
}

/// What the frame loop carries from one frame to the next.
pub struct FrameLoop<P> {
    pub refresh: DeviceRefreshTimer,
    pub pacer: FramePacer,
    pub lines: LinePool<P>,
    pub pointers: Vec<Pointer>,
}

impl<P> FrameLoop<P> {
    pub open spec fn pointers(&self) -> Seq<Pointer> {
        self.pointers@
    }

    /// Two pointers, one per hand, each holding its own line.
    pub open spec fn wf(&self) -> bool {
        &&& self.pacer.wf()
        &&& self.lines.wf()
        &&& self.pointers().len() == POINTER_COUNT
        &&& forall|i: int|
            0 <= i < POINTER_COUNT ==> (#[trigger] self.pointers()[i]).hand == i
                && self.lines.holds(self.pointers()[i].line)
        &&& self.pointers()[0].line != self.pointers()[1].line
    }

    /// The loop state at startup, at instant `now`, for a display refreshing at
    /// `refresh_mhz` millihertz: both pointers idle with a line each, and a
    /// device refresh due at once. `None` when the rate gives no frame interval.
    pub fn new(refresh_mhz: u64, now: u64) -> (r: Option<FrameLoop<P>>)
        ensures
            r is Some <==> refresh_mhz > 0 && frame_interval_of(refresh_mhz as nat) > 0,
            r matches Some(f) ==> {
                &&& f.wf()
                &&& f.refresh.next_due == now
                &&& f.pacer.interval_us as nat == frame_interval_of(refresh_mhz as nat)
                &&& f.lines.pending().len() == 0
                &&& forall|i: int| 0 <= i < POINTER_COUNT ==> (#[trigger] f.pointers()[i]).hover is None
            },
    {
        let pacer = match FramePacer::new(refresh_mhz) {
            Some(p) => p,
            None => return None,
        };
        let mut lines: LinePool<P> = LinePool::new();
        let left = lines.allocate();
        let right = lines.allocate();
        let mut pointers: Vec<Pointer> = Vec::new();
        pointers.push(Pointer { hand: 0, line: left, hover: None });
        pointers.push(Pointer { hand: 1, line: right, hover: None });
        Some(FrameLoop { refresh: DeviceRefreshTimer::new(now), pacer, lines, pointers })
    }

    pub fn pointer(&self, hand: usize) -> (r: Pointer)
        requires
            self.wf(),
            hand < POINTER_COUNT,
        ensures
            r == self.pointers()[hand as int],
    {
        self.pointers[hand]
    }

    /// Takes in the events polled at `now` and decides how the frame begins:
    /// it ends the loop on a quit event; otherwise it refreshes the devices
    /// when a topology change came or the refresh fell due, and then schedules
    /// the next refresh one interval after `now`.
    pub fn begin_frame(&mut self, events: &Vec<RuntimeEvent>, now: u64) -> (r: FrameStart)
        requires
            old(self).wf(),
            now + DEVICE_REFRESH_INTERVAL_US <= u64::MAX,
        ensures
            final(self).wf(),
            final(self).pacer == old(self).pacer,
            final(self).lines == old(self).lines,
            final(self).pointers() == old(self).pointers(),
            r is Quit <==> events@.contains(RuntimeEvent::Quit),
            r matches FrameStart::Continue { refresh_devices } ==> {
                &&& refresh_devices == (any_topology_change(events@) || old(self).refresh.next_due <= now)
                &&& final(self).refresh.next_due == if refresh_devices {
                    now + DEVICE_REFRESH_INTERVAL_US
                } else {
                    old(self).refresh.next_due as int
                }
            },
    {
        if self.refresh.take_events(events, now) {
            return FrameStart::Quit;
        }
        if self.refresh.is_due(now) {
            self.refresh.refreshed(now);
            FrameStart::Continue { refresh_devices: true }
        } else {
            FrameStart::Continue { refresh_devices: false }
        }
    }

    /// Resolves the interaction of pointer `hand`, posed at `pose`, from what
    /// its ray hits on each overlay, and draws its line from the pose: to the
    /// hit when it is significant, at the default length otherwise.
    pub fn point(&mut self, hand: usize, pose: P, hits: &Vec<Option<u64>>) -> (r: Option<u64>)
        requires
            old(self).wf(),
            hand < POINTER_COUNT,
        ensures
            final(self).wf(),
            r matches Some(d) ==> is_nearest_hit(hits@, d),
            r is None <==> !has_hit(hits@),
            final(self).pointers() == old(self).pointers().update(
                hand as int,
                Pointer { hover: r, ..old(self).pointers()[hand as int] },
            ),
            final(self).lines.handles() == old(self).lines.handles(),
            ({
                let h = old(self).pointers()[hand as int].line;
                let d = LineDraw { origin: pose, length: ray_length_of(r) };
                final(self).lines.pending() == match pending_index(old(self).lines.pending(), h) {
                    Some(i) => old(self).lines.pending().update(i, (h, d)),
                    None => old(self).lines.pending().push((h, d)),
                }
            }),
            final(self).refresh == old(self).refresh,
            final(self).pacer == old(self).pacer,
    {
        let p = self.pointers[hand];
        let hover = nearest_hit(hits);
        self.pointers.set(hand, Pointer { hover, ..p });
        self.lines.draw_from(p.line, pose, ray_length(hover));
        hover
    }

    /// Hands over the frame's line geometry as one batch.
    pub fn flush_lines(&mut self) -> (batch: Vec<(LineHandle, LineDraw<P>)>)
        requires
            old(self).wf(),
        ensures
            final(self).wf(),
            batch@ == old(self).lines.pending(),
            final(self).lines.pending().len() == 0,
            final(self).lines.handles() == old(self).lines.handles(),
            final(self).pointers() == old(self).pointers(),
            final(self).refresh == old(self).refresh,
            final(self).pacer == old(self).pacer,
    {
        self.lines.update()
    }

    /// Microseconds to sleep at the end of the frame.
    pub fn pace(&self, since_vsync_us: Option<u64>) -> (r: u64)
        requires
            self.wf(),
        ensures
            r as nat == sleep_of(self.pacer.interval_us as nat, since_vsync_us),
    {
        self.pacer.sleep_micros(since_vsync_us)
    }
}

/// The indices of the overlays that want to be visible, in order.
pub open spec fn visible_indices(want_visible: Seq<bool>) -> Seq<usize>
    decreases want_visible.len(),
{
    if want_visible.len() == 0 {
        Seq::empty()
    } else {
        let rest = visible_indices(want_visible.drop_last());
        if want_visible.last() {
            rest.push((want_visible.len() - 1) as usize)
        } else {
            rest
        }
    }
}

/// The overlays to render this frame: those that want to be visible.
pub fn overlays_to_render(want_visible: &Vec<bool>) -> (r: Vec<usize>)
    ensures
        r@ == visible_indices(want_visible@),
{
    let mut r: Vec<usize> = Vec::new();
    let mut i: usize = 0;
    while i < want_visible.len()
        invariant
            i <= want_visible@.len(),
            r@ == visible_indices(want_visible@.subrange(0, i as int)),
        decreases want_visible@.len() - i,
    {
        assert(want_visible@.subrange(0, i + 1).drop_last() == want_visible@.subrange(0, i as int));
        if want_visible[i] {
            r.push(i);
        }
        i = i + 1;
    }
    assert(want_visible@.subrange(0, want_visible@.len() as int) == want_visible@);
    r
}

} // verus!
