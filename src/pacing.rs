//! Frame pacing for the render driver, and the bounded sleeps both drivers
//! take between passes. Times are in microseconds.
use vstd::prelude::*;

verus! {

/// A wait shorter than this is not slept at all: the next pass comes soon enough.
pub const MIN_SLEEP_US: u64 = 1500;

/// Milliseconds to sleep at `now` to wake before `deadline`: a wait above
/// the threshold is slept in whole milliseconds, one less than it holds.
pub open spec fn sleep_ms_spec(now: int, deadline: int) -> int {
    if deadline - now > MIN_SLEEP_US {
        (deadline - now) / 1000 - 1
    } else {
        0
    }
}

/// Sleep length for a deadline one `interval` after `last`.
pub fn sleep_ms_for(now: u64, last: u64, interval: u64) -> (r: u64)
    ensures
        r == sleep_ms_spec(now as int, last + interval),
        r > 0 ==> now + r * 1000 + 1000 <= last + interval,
{
    let deadline: u128 = last as u128 + interval as u128;
    if deadline > now as u128 && deadline - now as u128 > MIN_SLEEP_US as u128 {
        let rem: u128 = deadline - now as u128;
        let ms: u128 = rem / 1000 - 1;
        assert(ms * 1000 + 1000 <= rem) by (nonlinear_arith)
            requires
                ms == rem / 1000 - 1,
                rem > 1500,
        ;
        ms as u64
    } else {
        0
    }
}

/// Simulation ticks per second.
pub const TICK_RATE_HZ: u64 = 25;

/// Upper bound on rendered frames per second.
pub const MAX_RENDER_RATE_HZ: u64 = 60;

/// Microseconds between events that happen `rate_hz` times a second.
pub fn period_us(rate_hz: u64) -> (r: u64)
    requires
        rate_hz > 0,
    ensures
        r == 1_000_000int / (rate_hz as int),
{
    1_000_000 / rate_hz
}

/// What the render driver does on this pass.
#[derive(Clone, Copy, Debug, PartialEq, Eq, Structural)]
pub enum FrameDecision {
    /// Submit a frame now.
    Render,
    /// Too early: sleep this long (possibly not at all) and look again.
    Wait { sleep_ms: u64 },
}

/// The pacer as numbers: when the last frame went out, and the least time
/// between two frames.
pub struct PacerView {
    pub last_frame: int,
    pub min_interval_us: int,
}

impl PacerView {
    /// Whether a frame may go out at `now`.
    pub open spec fn frame_due(self, now: int) -> bool {
        now >= self.last_frame + self.min_interval_us
    }
}

/// Caps the frame rate without tying it to the simulation's tick rate.
pub struct FramePacer {
    last_frame: u64,
    min_interval_us: u64,
}

impl View for FramePacer {
    type V = PacerView;

    closed spec fn view(&self) -> PacerView {
        PacerView { last_frame: self.last_frame as int, min_interval_us: self.min_interval_us as int }
    }
}

impl FramePacer {
    /// A pacer whose last frame went out at `now`.
    pub fn new(now: u64, min_interval_us: u64) -> (r: Self)
        ensures
            r@ == (PacerView { last_frame: now as int, min_interval_us: min_interval_us as int }),
    {
        FramePacer { last_frame: now, min_interval_us }
    }

    /// Time the last frame went out.
    pub fn last_frame(&self) -> (r: u64)
        ensures
            r == self@.last_frame,
    {
        self.last_frame
    }

    /// Renders when the interval since the last frame has passed, and then
    /// counts `now` as the last frame; otherwise says how long to sleep,
    /// short of the deadline.
    pub fn poll(&mut self, now: u64) -> (r: FrameDecision)
        ensures
            old(self)@.frame_due(now as int) ==> r == FrameDecision::Render && final(self)@ == (
            PacerView { last_frame: now as int, ..old(self)@ }),
            !old(self)@.frame_due(now as int) ==> final(self)@ == old(self)@ && r == (
            FrameDecision::Wait {
                sleep_ms: sleep_ms_spec(
                    now as int,
                    old(self)@.last_frame + old(self)@.min_interval_us,
                ) as u64,
            }),
    {
        if now >= self.last_frame && now - self.last_frame >= self.min_interval_us {
            self.last_frame = now;
            FrameDecision::Render
        } else {
            FrameDecision::Wait { sleep_ms: sleep_ms_for(now, self.last_frame, self.min_interval_us) }
        }
    }
}

} // verus!
