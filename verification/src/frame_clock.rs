use vstd::prelude::*;

verus! {

/// Nanoseconds in a second.
pub const NANOS_PER_SECOND: u64 = 1_000_000_000;

/// The duration of one frame at `framerate` frames per second, in whole
/// nanoseconds.
pub open spec fn frame_nanos(framerate: u32) -> int {
    NANOS_PER_SECOND as int / framerate as int
}

/// How long to block so that a frame takes `target`, once `elapsed` of it
/// has passed: the part of the target that is left, and nothing where the
/// target has passed already.
pub open spec fn delay_for(target: int, elapsed: int) -> int {
    if elapsed < target {
        target - elapsed
    } else {
        0
    }
}

/// Whether `stamps` can be the times recorded by a loop that is paced to
/// `target`.
///
/// Frame `k` begins with the time `stamps[k]` recorded, decides on its delay
/// at `decided[k]`, blocks for it and records `stamps[k + 1]` no earlier
/// than the delay asks and no later than `overshoot` after that.
pub open spec fn paced(target: int, overshoot: int, stamps: Seq<int>, decided: Seq<int>) -> bool {
    &&& stamps.len() == decided.len() + 1
    &&& forall|k: int|
        0 <= k < decided.len() ==> {
            &&& stamps[k] <= #[trigger] decided[k]
            &&& decided[k] + delay_for(target, decided[k] - stamps[k]) <= stamps[k + 1]
            &&& stamps[k + 1] <= decided[k] + delay_for(target, decided[k] - stamps[k])
                + overshoot
        }
}

/// Paces frames: holds the time at which the last frame was recorded and the
/// duration that a frame is meant to take.
///
/// Times are nanoseconds on a clock that never runs backwards, counted from
/// an origin that the owner of the clock chooses. A target duration of zero
/// means that frames are not paced.
#[derive(Debug, Clone, Copy, PartialEq, Eq, Structural)]
pub struct FrameClock {
    target_frame_nanos: u64,
    last_frame_nanos: u64,
}

impl FrameClock {
    /// The duration that a frame is meant to take.
    pub closed spec fn target(&self) -> u64 {
        self.target_frame_nanos
    }

    /// The time at which the last frame was recorded.
    pub closed spec fn last_frame(&self) -> u64 {
        self.last_frame_nanos
    }

    /// The time that has passed at `now` since the last frame was recorded;
    /// zero where `now` lies before it.
    pub open spec fn elapsed_at(&self, now: u64) -> int {
        if now >= self.last_frame() {
            now - self.last_frame()
        } else {
            0
        }
    }

    /// How long to block at `now` so that the frame takes its target
    /// duration: the part of the target that has not passed yet.
    pub open spec fn delay_at(&self, now: u64) -> int {
        delay_for(self.target() as int, self.elapsed_at(now))
    }

    /// A clock for `target_framerate` frames per second whose last frame was
    /// recorded at `now`.
    pub fn new(target_framerate: u32, now: u64) -> (clock: FrameClock)
        requires
            target_framerate > 0,
        ensures
            clock.target() == frame_nanos(target_framerate),
            clock.last_frame() == now,
    {
        FrameClock {
            target_frame_nanos: NANOS_PER_SECOND / (target_framerate as u64),
            last_frame_nanos: now,
        }
    }

    /// Sets the target duration to that of `target_framerate` frames per
    /// second.
    pub fn set_target_fps(&mut self, target_framerate: u32)
        requires
            target_framerate > 0,
        ensures
            final(self).target() == frame_nanos(target_framerate),
            final(self).last_frame() == old(self).last_frame(),
    {
        self.target_frame_nanos = NANOS_PER_SECOND / (target_framerate as u64);
    }

    /// The duration that a frame is meant to take, in nanoseconds.
    pub fn target_frame_nanos(&self) -> (nanos: u64)
        ensures
            nanos == self.target(),
    {
        self.target_frame_nanos
    }

    /// The time at which the last frame was recorded.
    pub fn last_frame_nanos(&self) -> (nanos: u64)
        ensures
            nanos == self.last_frame(),
    {
        self.last_frame_nanos
    }

    /// The nanoseconds that have passed at `now` since the last frame.
    pub fn elapsed(&self, now: u64) -> (nanos: u64)
        ensures
            nanos == self.elapsed_at(now),
    {
        if now >= self.last_frame_nanos {
            now - self.last_frame_nanos
        } else {
            0
        }
    }

    /// The whole microseconds that have passed at `now` since the last
    /// frame.
    pub fn frame_time_micros(&self, now: u64) -> (micros: u64)
        ensures
            micros == self.elapsed_at(now) / 1000,
    {
        self.elapsed(now) / 1000
    }

    /// The nanoseconds for which to block at `now`; zero where the target
    /// duration has passed already.
    pub fn pacing_delay(&self, now: u64) -> (nanos: u64)
        ensures
            nanos == self.delay_at(now),
    {
        let elapsed: u64 = self.elapsed(now);
        if elapsed < self.target_frame_nanos {
            self.target_frame_nanos - elapsed
        } else {
            0
        }
    }

    /// Records that a frame was completed at `now`.
    pub fn record_frame(&mut self, now: u64)
        ensures
            final(self).last_frame() == now,
            final(self).target() == old(self).target(),
    {
        self.last_frame_nanos = now;
    }

    /// Every framerate up to a billion frames per second has a target
    /// duration above zero, and so is paced; a higher one has none.
    pub proof fn lemma_frame_nanos_positive(framerate: u32)
        requires
            framerate > 0,
        ensures
            frame_nanos(framerate) > 0 <==> framerate <= NANOS_PER_SECOND,
            0 <= frame_nanos(framerate) <= NANOS_PER_SECOND,
    {
        let n = NANOS_PER_SECOND as int;
        let f = framerate as int;
        assert(0 <= n / f <= n && (n / f > 0 <==> f <= n)) by (nonlinear_arith)
            requires
                n == 1_000_000_000,
                f > 0,
        ;
    }

    /// The pacing lower bound: whoever blocks at `now` for at least the
    /// delay resumes no earlier than one target duration after the last
    /// frame, so two recorded frames are at least that far apart.
    pub proof fn lemma_pacing_lower_bound(clock: FrameClock, now: u64, resumed: u64)
        requires
            clock.last_frame() <= now,
            now + clock.delay_at(now) <= resumed,
        ensures
            resumed - clock.last_frame() >= clock.target(),
    {
    }

    /// The same bound for one call that begins as the last frame is
    /// recorded: where its work takes less than the target duration, the
    /// call as a whole takes at least the target duration.
    pub proof fn lemma_paced_call_duration(clock: FrameClock, began: u64, now: u64, resumed: u64)
        requires
            began == clock.last_frame(),
            began <= now,
            now - began < clock.target(),
            now + clock.delay_at(now) <= resumed,
        ensures
            clock.delay_at(now) == clock.target() - (now - began),
            resumed - began >= clock.target(),
    {
    }

    /// No negative sleep: where the target duration has passed already,
    /// there is no delay at all.
    pub proof fn lemma_no_delay_when_late(clock: FrameClock, now: u64)
        requires
            clock.elapsed_at(now) >= clock.target(),
        ensures
            clock.delay_at(now) == 0,
    {
    }

    /// The first `frames` frames of a paced loop take at least `frames`
    /// target durations, and at most that many target durations, overshoots
    /// and lags.
    proof fn lemma_paced_prefix(
        target: int,
        overshoot: int,
        lag: int,
        stamps: Seq<int>,
        decided: Seq<int>,
        frames: int,
    )
        requires
            0 <= target,
            0 <= overshoot,
            0 <= lag,
            paced(target, overshoot, stamps, decided),
            forall|k: int|
                0 <= k < decided.len() ==> (#[trigger] decided[k]) - stamps[k] <= target + lag,
            0 <= frames <= decided.len(),
        ensures
            frames * target <= stamps[frames] - stamps[0],
            stamps[frames] - stamps[0] <= frames * (target + overshoot + lag),
        decreases frames,
    {
        if frames > 0 {
            Self::lemma_paced_prefix(target, overshoot, lag, stamps, decided, frames - 1);
            let k = frames - 1;
            assert(stamps[k] <= decided[k] <= stamps[k] + target + lag);
            assert(target <= stamps[k + 1] - stamps[k] <= target + overshoot + lag);
            assert(frames * target == k * target + target) by (nonlinear_arith)
                requires
                    frames == k + 1,
            ;
            assert(frames * (target + overshoot + lag) == k * (target + overshoot + lag) + (target
                + overshoot + lag)) by (nonlinear_arith)
                requires
                    frames == k + 1,
            ;
        }
    }

    /// The frame rate of a paced loop, from both sides.
    ///
    /// Let a loop record `stamps` while it is paced to `target`: each frame
    /// decides on its delay no later than `target + lag` after the time
    /// recorded before it (work of less than `target`, after a gap of at
    /// most `lag` since that time) and records its own time at most
    /// `overshoot` after the delay has ended. Then its `n` frames take at
    /// least `n` target durations, so no more frames are recorded than the
    /// target rate allows, and at most `n` times `target + overshoot + lag`,
    /// so hardly fewer where overshoot and lag are small.
    pub proof fn lemma_paced_span(
        target: int,
        overshoot: int,
        lag: int,
        stamps: Seq<int>,
        decided: Seq<int>,
    )
        requires
            0 <= target,
            0 <= overshoot,
            0 <= lag,
            paced(target, overshoot, stamps, decided),
            forall|k: int|
                0 <= k < decided.len() ==> (#[trigger] decided[k]) - stamps[k] <= target + lag,
        ensures
            decided.len() * target <= stamps.last() - stamps[0],
            stamps.last() - stamps[0] <= decided.len() * (target + overshoot + lag),
    {
        Self::lemma_paced_prefix(target, overshoot, lag, stamps, decided, decided.len() as int);
    }

    /// At a target of 60 frames per second, a paced loop records at most 60
    /// frames in any span of up to a second; and where overshoot and lag
    /// together stay within a quarter of a millisecond, it records at least
    /// 60 in any span of a second or more.
    pub proof fn lemma_sixty_frames_per_second(
        overshoot: int,
        lag: int,
        stamps: Seq<int>,
        decided: Seq<int>,
    )
        requires
            0 <= overshoot,
            0 <= lag,
            paced(frame_nanos(60), overshoot, stamps, decided),
            forall|k: int|
                0 <= k < decided.len() ==> (#[trigger] decided[k]) - stamps[k] <= frame_nanos(60)
                    + lag,
        ensures
            stamps.last() - stamps[0] <= NANOS_PER_SECOND ==> decided.len() <= 60,
            overshoot + lag <= 250_000 && stamps.last() - stamps[0] >= NANOS_PER_SECOND
                ==> decided.len() >= 60,
    {
        let target = frame_nanos(60);
        assert(target == 16_666_666);
        Self::lemma_paced_span(target, overshoot, lag, stamps, decided);
        let n = decided.len() as int;
        if n >= 61 {
            assert(n * target >= 61 * target) by (nonlinear_arith)
                requires
                    n >= 61,
                    target >= 0,
            ;
        }
        if n <= 59 && overshoot + lag <= 250_000 {
            assert(n * (target + overshoot + lag) <= 59 * (target + 250_000)) by (nonlinear_arith)
                requires
                    0 <= n <= 59,
                    0 <= target + overshoot + lag <= target + 250_000,
            ;
        }
    }
}

} // verus!
