//! One pass of each worker: the simulation driver drains its events into the
//! input state and counts the ticks due; the render driver adopts the newest
//! snapshot and paces frames. The workers themselves only perform what a
//! pass decides.
use vstd::prelude::*;

use crate::event::{Rect, WindowEvent};
use crate::input::{last_resize, InputState};
use crate::pacing::{FrameDecision, FramePacer, PacerView, sleep_ms_spec};
use crate::ticker::{ClockView, TickClock};

verus! {

/// What a simulation pass asks its worker to do.
#[derive(Clone, Copy, Debug, PartialEq, Eq, Structural)]
pub struct SimPass {
    /// Client area of the last resize drained, for the camera's aspect ratio.
    pub resize: Option<Rect>,
    /// Ticks to run, each with the same input and the fixed tick length.
    pub ticks: u64,
}

/// Input state and tick clock of the simulation worker.
pub struct SimDriver {
    pub input: InputState,
    pub clock: TickClock,
}

impl SimDriver {
    /// The clock is well formed.
    pub open spec fn wf(self) -> bool {
        self.clock.wf()
    }

    /// Nothing held; the first tick ends one tick length after `start`.
    pub fn new(start: u64, tick_us: u64) -> (r: Self)
        requires
            tick_us > 0,
        ensures
            r.wf(),
            r.input == InputState::new_spec(),
            r.clock@ == (ClockView { last_tick: start as int, tick_us: tick_us as int, ticks: 0 }),
    {
        SimDriver { input: InputState::new(), clock: TickClock::new(start, tick_us) }
    }

    /// Applies the drained events in order, then runs the clock up to `now`.
    pub fn begin_pass(&mut self, events: &Vec<WindowEvent>, now: u64) -> (r: SimPass)
        requires
            old(self).wf(),
        ensures
            final(self).wf(),
            final(self).input == old(self).input.after_events(events@),
            final(self).clock@ == old(self).clock@.advanced(now as int),
            r.resize == last_resize(events@),
            r.ticks == old(self).clock@.due(now as int),
    {
        let resize = self.input.apply_events(events);
        let ticks = self.clock.advance(now);
        SimPass { resize, ticks }
    }

    /// Clears the pointer delta after the pass's ticks consumed it, and says
    /// how long to sleep before the next tick boundary.
    pub fn end_pass(&mut self, now: u64) -> (sleep_ms: u64)
        requires
            old(self).wf(),
        ensures
            final(self).wf(),
            final(self).clock@ == old(self).clock@,
            final(self).input == (InputState { mouse_x: 0, mouse_y: 0, ..old(self).input }),
            sleep_ms == sleep_ms_spec(now as int, old(self).clock@.last_tick + old(self).clock@.tick_us),
    {
        self.input.post_update_reset();
        self.clock.idle_sleep_ms(now)
    }
}

/// Frame pacer of the render worker and the snapshot it draws from.
pub struct RenderDriver<T> {
    pub pacer: FramePacer,
    pub current: Option<T>,
}

impl<T: Copy> RenderDriver<T> {
    /// No snapshot yet; the last frame counts as sent at `now`.
    pub fn new(now: u64, min_interval_us: u64) -> (r: Self)
        ensures
            r.pacer@ == (PacerView { last_frame: now as int, min_interval_us: min_interval_us as int }),
            r.current == None::<T>,
    {
        RenderDriver { pacer: FramePacer::new(now, min_interval_us), current: None }
    }

    /// Adopts `fresh` if a take returned one, keeps the held snapshot
    /// otherwise, and decides whether to send a frame at `now`. Nothing here
    /// waits for the simulation.
    pub fn pass(&mut self, fresh: Option<T>, now: u64) -> (r: FrameDecision)
        ensures
            fresh.is_some() ==> final(self).current == fresh,
            fresh.is_none() ==> final(self).current == old(self).current,
            old(self).pacer@.frame_due(now as int) ==> r == FrameDecision::Render
                && final(self).pacer@ == (PacerView { last_frame: now as int, ..old(self).pacer@ }),
            !old(self).pacer@.frame_due(now as int) ==> final(self).pacer@ == old(self).pacer@ && r == (
            FrameDecision::Wait {
                sleep_ms: sleep_ms_spec(
                    now as int,
                    old(self).pacer@.last_frame + old(self).pacer@.min_interval_us,
                ) as u64,
            }),
    {
        if fresh.is_some() {
            self.current = fresh;
        }
        self.pacer.poll(now)
    }

    /// The snapshot the next frame is drawn from.
    pub fn current(&self) -> (r: Option<T>)
        ensures
            r == self.current,
    {
        self.current
    }
}

} // verus!
