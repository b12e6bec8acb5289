use vstd::prelude::*;

verus! {

pub const NANOS_PER_SEC: u64 = 1_000_000_000;

#[verifier::external_type_specification]
#[verifier::external_body]
pub struct ExInstant(web_time::Instant);

/// Relies on web_time::Instant::now: reads the monotonic clock.
#[verifier::external_body]
fn clock_now() -> web_time::Instant {
    web_time::Instant::now()
}

/// Relies on web_time::Instant::elapsed: the time since `origin` in whole nanoseconds,
/// saturated to `u64`. Nothing is known of the value: it is whatever the clock says.
#[verifier::external_body]
fn nanos_since(origin: &web_time::Instant) -> u64 {
    u64::try_from(origin.elapsed().as_nanos()).unwrap_or(u64::MAX)
}

/// Time from `earlier` to `later` in nanoseconds, zero if the clock went back.
pub open spec fn elapsed(later: u64, earlier: u64) -> u64 {
    if later >= earlier {
        (later - earlier) as u64
    } else {
        0
    }
}

/// Nanoseconds in a thousand seconds: a frame rate in thousandths of a frame per second is
/// this over the frame time in nanoseconds.
pub const MILLI_FPS_NANOS: u64 = 1_000_000_000_000;

/// The frame rate `1 / frame_time` in thousandths of a frame per second, rounded up, so that
/// any positive frame time gives a positive estimate; a frame that took no time gives the
/// largest value, standing for an unbounded rate.
pub open spec fn fps_estimate(frame_time: u64) -> u64 {
    if frame_time == 0 {
        u64::MAX
    } else {
        ((MILLI_FPS_NANOS as int + frame_time as int - 1) / frame_time as int) as u64
    }
}

fn compute_fps_estimate(frame_time: u64) -> (r: u64)
    ensures
        r == fps_estimate(frame_time),
        frame_time > 0 ==> r > 0,
{
    if frame_time == 0 {
        u64::MAX
    } else {
        let num: u128 = MILLI_FPS_NANOS as u128 + frame_time as u128 - 1;
        let q: u128 = num / (frame_time as u128);
        assert(q <= MILLI_FPS_NANOS as u128) by {
            vstd::arithmetic::div_mod::lemma_div_is_ordered(
                num as int,
                MILLI_FPS_NANOS as int * frame_time as int,
                frame_time as int,
            );
            vstd::arithmetic::div_mod::lemma_div_by_multiple(MILLI_FPS_NANOS as int, frame_time as int);
            assert(num as int <= MILLI_FPS_NANOS as int * frame_time as int) by (nonlinear_arith)
                requires
                    num as int == MILLI_FPS_NANOS as int + frame_time as int - 1,
                    frame_time >= 1,
            ;
        }
        assert(q >= 1) by {
            vstd::arithmetic::div_mod::lemma_div_is_ordered(
                frame_time as int,
                num as int,
                frame_time as int,
            );
            vstd::arithmetic::div_mod::lemma_div_by_multiple(1, frame_time as int);
        }
        q as u64
    }
}

/// What a tick at `now` does to the timer `t`, giving `u`.
pub open spec fn ticked(t: FrameTimer, now: u64, u: FrameTimer) -> bool {
    &&& u.spec_last_tick() == now
    &&& u.spec_frame_time() == elapsed(now, t.spec_last_tick())
    &&& u.spec_fps() == fps_estimate(u.spec_frame_time())
    &&& u.spec_last_log() == t.spec_last_log()
    &&& u.spec_last_effective_frame() == t.spec_last_effective_frame()
}

/// What a log check at `now` does to `t`, giving `u` and `due`.
pub open spec fn logged(t: FrameTimer, now: u64, u: FrameTimer, due: bool) -> bool {
    &&& due == (elapsed(t.spec_last_tick(), t.spec_last_log()) > NANOS_PER_SEC)
    &&& u.spec_last_log() == (if due {
        now
    } else {
        t.spec_last_log()
    })
    &&& u.spec_last_tick() == t.spec_last_tick()
    &&& u.spec_last_effective_frame() == t.spec_last_effective_frame()
    &&& u.spec_frame_time() == t.spec_frame_time()
    &&& u.spec_fps() == t.spec_fps()
}

/// Whether a render is due, `since_effective` nanoseconds after the last effective one:
/// always when no positive target is set, else once `1 / target_fps` seconds have gone by.
pub open spec fn refresh_due(since_effective: u64, target_fps: i32) -> bool {
    target_fps <= 0 || since_effective as int * target_fps as int >= NANOS_PER_SEC as int
}

/// Frame timing on one timeline: times are nanoseconds since the timer was made.
pub struct FrameTimer {
    clock: web_time::Instant,
    last_tick: u64,
    last_log: u64,
    last_effective_frame: u64,
    frame_time: u64,
    fps: u64,
}

impl FrameTimer {
    pub closed spec fn spec_last_tick(&self) -> u64 {
        self.last_tick
    }

    pub closed spec fn spec_last_log(&self) -> u64 {
        self.last_log
    }

    pub closed spec fn spec_last_effective_frame(&self) -> u64 {
        self.last_effective_frame
    }

    pub closed spec fn spec_fps(&self) -> u64 {
        self.fps
    }

    pub closed spec fn spec_frame_time(&self) -> u64 {
        self.frame_time
    }

    /// A timer whose timeline starts now.
    pub fn new() -> (r: Self)
        ensures
            r.spec_last_tick() == 0,
            r.spec_last_log() == 0,
            r.spec_last_effective_frame() == 0,
            r.spec_frame_time() == 0,
            r.spec_fps() == 0,
    {
        FrameTimer {
            clock: clock_now(),
            last_tick: 0,
            last_log: 0,
            last_effective_frame: 0,
            frame_time: 0,
            fps: 0,
        }
    }

    /// Records a tick at `now`: the frame time is the time since the previous tick.
    pub fn tick(&mut self, now: u64)
        ensures
            ticked(*old(self), now, *final(self)),
    {
        let frame_time = if now >= self.last_tick {
            now - self.last_tick
        } else {
            0
        };
        self.fps = compute_fps_estimate(frame_time);
        self.frame_time = frame_time;
        self.last_tick = now;
    }

    /// Records a tick at the clock's current time.
    pub fn update(&mut self)
        ensures
            exists|now: u64| ticked(*old(self), now, *final(self)),
    {
        let now = nanos_since(&self.clock);
        self.tick(now);
    }

    /// Whether a frame-time diagnostic is due: more than a second between the last one and
    /// the latest tick. When it is, the last-log time becomes `now`.
    pub fn log_at(&mut self, now: u64) -> (due: bool)
        ensures
            logged(*old(self), now, *final(self), due),
    {
        let since = if self.last_tick >= self.last_log {
            self.last_tick - self.last_log
        } else {
            0
        };
        if since > NANOS_PER_SEC {
            self.last_log = now;
            true
        } else {
            false
        }
    }

    /// The same check at the clock's current time.
    pub fn log(&mut self) -> (due: bool)
        ensures
            exists|now: u64| logged(*old(self), now, *final(self), due),
    {
        let now = nanos_since(&self.clock);
        self.log_at(now)
    }

    /// Whether the latest tick may render at `target_fps` frames per second; when it may,
    /// that tick becomes the last effective render.
    pub fn is_it_time_to_refresh(&mut self, target_fps: i32) -> (r: bool)
        ensures
            r == refresh_due(
                elapsed(old(self).spec_last_tick(), old(self).spec_last_effective_frame()),
                target_fps,
            ),
            final(self).spec_last_effective_frame() == (if r {
                old(self).spec_last_tick()
            } else {
                old(self).spec_last_effective_frame()
            }),
            final(self).spec_last_tick() == old(self).spec_last_tick(),
            final(self).spec_last_log() == old(self).spec_last_log(),
            final(self).spec_frame_time() == old(self).spec_frame_time(),
            final(self).spec_fps() == old(self).spec_fps(),
    {
        let due = if target_fps > 0 {
            let since: u64 = if self.last_tick >= self.last_effective_frame {
                self.last_tick - self.last_effective_frame
            } else {
                0
            };
            let t: u64 = target_fps as u64;
            assert(since as int * t as int <= 0xffff_ffff_ffff_ffff * 0xffff_ffff_ffff_ffff)
                by (nonlinear_arith)
                requires
                    since <= 0xffff_ffff_ffff_ffffu64,
                    t <= 0xffff_ffff_ffff_ffffu64,
            ;
            (since as u128) * (t as u128) >= NANOS_PER_SEC as u128
        } else {
            true
        };
        if due {
            self.last_effective_frame = self.last_tick;
        }
        due
    }

    /// The duration of the latest frame, in nanoseconds.
    pub fn frame_time(&self) -> (r: u64)
        ensures
            r == self.spec_frame_time(),
    {
        self.frame_time
    }

    /// The latest frame-rate estimate, in thousandths of a frame per second (see
    /// `fps_estimate`; zero before the first tick).
    pub fn fps(&self) -> (r: u64)
        ensures
            r == self.spec_fps(),
    {
        self.fps
    }
}

/// Averages over one reporting period.
#[derive(Clone, Copy, Debug, PartialEq, Eq, Structural)]
pub struct FrameStats {
    /// Mean frame time in nanoseconds.
    pub frame_time: u64,
    /// Frames per second, rounded down.
    pub fps: u64,
}

/// The averages for `count` frames over `period` nanoseconds.
pub open spec fn period_stats(period: u64, count: u64) -> FrameStats {
    FrameStats {
        frame_time: (period / count) as u64,
        fps: ((count as int * NANOS_PER_SEC as int) / period as int) as u64,
    }
}

/// What counting a frame at `now` does to the counter `c`, giving `d` and the report `r`.
pub open spec fn counted(c: FrameCounter, now: u64, d: FrameCounter, r: Option<FrameStats>) -> bool {
    let count = if c.spec_frame_count() == u64::MAX {
        u64::MAX
    } else {
        (c.spec_frame_count() + 1) as u64
    };
    let period = elapsed(now, c.spec_last_printed());
    if period > NANOS_PER_SEC {
        &&& r == Some(period_stats(period, count))
        &&& d.spec_last_printed() == now
        &&& d.spec_frame_count() == 0
    } else {
        &&& r == None::<FrameStats>
        &&& d.spec_last_printed() == c.spec_last_printed()
        &&& d.spec_frame_count() == count
    }
}

/// Counts frames and reports their averages about once a second.
pub struct FrameCounter {
    clock: web_time::Instant,
    last_printed: u64,
    frame_count: u64,
}

impl FrameCounter {
    pub closed spec fn spec_last_printed(&self) -> u64 {
        self.last_printed
    }

    pub closed spec fn spec_frame_count(&self) -> u64 {
        self.frame_count
    }

    /// A counter whose timeline starts now.
    pub fn new() -> (r: Self)
        ensures
            r.spec_last_printed() == 0,
            r.spec_frame_count() == 0,
    {
        FrameCounter { clock: clock_now(), last_printed: 0, frame_count: 0 }
    }

    /// Counts a frame at `now`. Once more than a second has gone by since the last report,
    /// returns the period's averages and starts a new period at `now`.
    pub fn tick(&mut self, now: u64) -> (r: Option<FrameStats>)
        ensures
            counted(*old(self), now, *final(self), r),
    {
        if self.frame_count < u64::MAX {
            self.frame_count = self.frame_count + 1;
        }
        let period = if now >= self.last_printed {
            now - self.last_printed
        } else {
            0
        };
        if period > NANOS_PER_SEC {
            let count = self.frame_count;
            let wide = (count as u128) * (NANOS_PER_SEC as u128);
            let fps = wide / (period as u128);
            assert((count as int * NANOS_PER_SEC as int) / period as int <= count as int) by {
                assert((count as int * NANOS_PER_SEC as int) <= count as int * period as int)
                    by (nonlinear_arith)
                    requires
                        period > NANOS_PER_SEC,
                ;
                vstd::arithmetic::div_mod::lemma_div_is_ordered(
                    count as int * NANOS_PER_SEC as int,
                    count as int * period as int,
                    period as int,
                );
                vstd::arithmetic::div_mod::lemma_div_by_multiple(count as int, period as int);
            }
            let stats = FrameStats { frame_time: period / count, fps: fps as u64 };
            self.last_printed = now;
            self.frame_count = 0;
            Some(stats)
        } else {
            None
        }
    }

    /// Counts a frame at the clock's current time.
    pub fn update(&mut self) -> (r: Option<FrameStats>)
        ensures
            exists|now: u64| counted(*old(self), now, *final(self), r),
    {
        let now = nanos_since(&self.clock);
        self.tick(now)
    }
}

/// With a positive target, a render is refused while less than `1 / target_fps` seconds
/// have gone by since the last effective one, and allowed at every later time once due.
pub proof fn lemma_refresh_threshold(since: u64, later: u64, target_fps: i32)
    requires
        target_fps > 0,
        since <= later,
    ensures
        refresh_due(since, target_fps) ==> refresh_due(later, target_fps),
        (since as int) * (target_fps as int) < NANOS_PER_SEC as int ==> !refresh_due(
            since,
            target_fps,
        ),
{
    assert(since as int * target_fps as int <= later as int * target_fps as int)
        by (nonlinear_arith)
        requires
            since <= later,
            target_fps > 0,
    ;
}

/// Without a positive target every tick renders.
pub proof fn lemma_unlimited_always_renders(since: u64, target_fps: i32)
    requires
        target_fps <= 0,
    ensures
        refresh_due(since, target_fps),
{
}

} // verus!
