use vstd::prelude::*;

verus! {

/// Microseconds in one millisecond.
pub const MICROS_PER_MILLI: u64 = 1000;

/// One refresh period in milliseconds is this divided by the rate in
/// millihertz: `1000 / R` for a rate of `R` Hz.
pub const MILLIHERTZ_MILLIS: u64 = 1_000_000;

/// The frame interval, in microseconds, for a display refreshing at
/// `refresh_mhz` millihertz: whole milliseconds of one refresh period.
pub open spec fn frame_interval_of(refresh_mhz: nat) -> nat
    recommends
        refresh_mhz > 0,
{
    (MILLIHERTZ_MILLIS as nat / refresh_mhz) * MICROS_PER_MILLI as nat
}

/// How long to sleep at the end of a frame: the rest of the current interval
/// when the time since the last vsync is known, a whole interval otherwise.
pub open spec fn sleep_of(interval: nat, since_vsync: Option<u64>) -> nat
    recommends
        interval > 0,
{
    match since_vsync {
        Some(e) => (interval - (e as nat % interval)) as nat,
        None => interval,
    }
}

/// Paces the frame loop to the display's refresh rate.
pub struct FramePacer {
    /// Length of one frame, in microseconds.
    pub interval_us: u64,
}

impl FramePacer {
    pub open spec fn wf(&self) -> bool {
        self.interval_us > 0
    }

    /// A pacer for a display refreshing at `refresh_mhz` millihertz; `None`
    /// when that rate gives no whole millisecond per frame.
    pub fn new(refresh_mhz: u64) -> (r: Option<FramePacer>)
        ensures
            refresh_mhz == 0 ==> r is None,
            refresh_mhz > 0 ==> (r is Some <==> frame_interval_of(refresh_mhz as nat) > 0),
            r matches Some(p) ==> p.wf() && p.interval_us as nat == frame_interval_of(
                refresh_mhz as nat,
            ),
    {
        if refresh_mhz == 0 {
            return None;
        }
        let millis: u64 = MILLIHERTZ_MILLIS / refresh_mhz;
        if millis == 0 {
            return None;
        }
        assert(millis <= MILLIHERTZ_MILLIS) by (nonlinear_arith)
            requires
                millis == MILLIHERTZ_MILLIS / refresh_mhz,
                refresh_mhz > 0,
        ;
        Some(FramePacer { interval_us: millis * MICROS_PER_MILLI })
    }

    /// Microseconds to sleep before the next frame, given the time since the
    /// last vsync when the runtime could report it.
    pub fn sleep_micros(&self, since_vsync_us: Option<u64>) -> (r: u64)
        requires
            self.wf(),
        ensures
            r as nat == sleep_of(self.interval_us as nat, since_vsync_us),
            0 < r <= self.interval_us,
    {
        match since_vsync_us {
            Some(e) => self.interval_us - e % self.interval_us,
            None => self.interval_us,
        }
    }
}

} // verus!
