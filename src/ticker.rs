//! Fixed-step simulation clock: decides how many ticks of constant length are
//! due at a given moment, independent of how often it is asked.
use vstd::prelude::*;
use vstd::arithmetic::div_mod::{lemma_div_multiples_vanish_fancy, lemma_fundamental_div_mod};

use crate::pacing::{sleep_ms_for, sleep_ms_spec};

verus! {

/// The clock as numbers: the last tick boundary, the tick length and the
/// number of ticks run so far. Times are in microseconds.
pub struct ClockView {
    pub last_tick: int,
    pub tick_us: int,
    pub ticks: int,
}

impl ClockView {
    /// Ticks whose boundary has passed at `now`; none if `now` lies before the
    /// last boundary.
    pub open spec fn due(self, now: int) -> int {
        if now >= self.last_tick {
            (now - self.last_tick) / self.tick_us
        } else {
            0
        }
    }

    /// The clock after running every tick due at `now`.
    pub open spec fn advanced(self, now: int) -> ClockView {
        ClockView {
            last_tick: self.last_tick + self.due(now) * self.tick_us,
            tick_us: self.tick_us,
            ticks: self.ticks + self.due(now),
        }
    }

    /// The clock after running exactly one tick.
    pub open spec fn stepped(self) -> ClockView {
        ClockView { last_tick: self.last_tick + self.tick_us, tick_us: self.tick_us, ticks: self.ticks + 1 }
    }
}

/// Tick boundaries and the tick count of the simulation.
pub struct TickClock {
    last_tick: u64,
    tick_us: u64,
    ticks: u64,
}

impl View for TickClock {
    type V = ClockView;

    closed spec fn view(&self) -> ClockView {
        ClockView { last_tick: self.last_tick as int, tick_us: self.tick_us as int, ticks: self.ticks as int }
    }
}

impl TickClock {
    /// The tick length is positive, and the count is small enough that it
    /// never overflows before the boundary does.
    pub closed spec fn wf(self) -> bool {
        &&& self.tick_us > 0
        &&& self.ticks * self.tick_us <= self.last_tick
    }

    /// A clock whose first tick ends one tick length after `start`.
    pub fn new(start: u64, tick_us: u64) -> (r: Self)
        requires
            tick_us > 0,
        ensures
            r.wf(),
            r@ == (ClockView { last_tick: start as int, tick_us: tick_us as int, ticks: 0 }),
    {
        TickClock { last_tick: start, tick_us, ticks: 0 }
    }

    /// Time of the last tick boundary.
    pub fn last_tick(&self) -> (r: u64)
        ensures
            r == self@.last_tick,
    {
        self.last_tick
    }

    /// Number of ticks run so far.
    pub fn ticks(&self) -> (r: u64)
        ensures
            r == self@.ticks,
    {
        self.ticks
    }

    /// Tick length.
    pub fn tick_us(&self) -> (r: u64)
        requires
            self.wf(),
        ensures
            r == self@.tick_us,
            r > 0,
    {
        self.tick_us
    }

    /// Runs one tick if one is due at `now`: the boundary moves by exactly one
    /// tick length, whatever the delay.
    pub fn take_due_tick(&mut self, now: u64) -> (r: bool)
        requires
            old(self).wf(),
        ensures
            final(self).wf(),
            r == (old(self)@.due(now as int) > 0),
            r ==> final(self)@ == old(self)@.stepped(),
            !r ==> final(self)@ == old(self)@,
    {
        proof {
            lemma_due_positive(self@, now as int);
        }
        if now >= self.last_tick && now - self.last_tick >= self.tick_us {
            assert(self.ticks + 1 <= self.last_tick + self.tick_us) by (nonlinear_arith)
                requires
                    self.ticks * self.tick_us <= self.last_tick,
                    self.tick_us > 0,
            ;
            assert((self.ticks + 1) * self.tick_us == self.ticks * self.tick_us + self.tick_us)
                by (nonlinear_arith);
            self.last_tick = self.last_tick + self.tick_us;
            self.ticks = self.ticks + 1;
            true
        } else {
            false
        }
    }

    /// Runs every tick due at `now` and returns how many that was. A clock
    /// that fell behind catches up in full: no tick is skipped.
    pub fn advance(&mut self, now: u64) -> (r: u64)
        requires
            old(self).wf(),
        ensures
            final(self).wf(),
            r == old(self)@.due(now as int),
            final(self)@ == old(self)@.advanced(now as int),
    {
        if now < self.last_tick {
            return 0;
        }
        let elapsed = now - self.last_tick;
        let n = elapsed / self.tick_us;
        proof {
            lemma_fundamental_div_mod(elapsed as int, self.tick_us as int);
            assert(n * self.tick_us <= elapsed) by (nonlinear_arith)
                requires
                    elapsed == self.tick_us * n + elapsed % self.tick_us,
                    elapsed % self.tick_us >= 0,
            ;
            assert((self.ticks + n) * self.tick_us == self.ticks * self.tick_us + n * self.tick_us)
                by (nonlinear_arith);
            assert(self.ticks + n <= (self.ticks + n) * self.tick_us) by (nonlinear_arith)
                requires
                    self.tick_us > 0,
                    self.ticks >= 0,
                    n >= 0,
            ;
        }
        self.last_tick = self.last_tick + n * self.tick_us;
        self.ticks = self.ticks + n;
        n
    }

    /// Milliseconds to sleep before the next tick boundary, leaving headroom
    /// so as not to sleep past it; zero when it is too close to sleep at all.
    pub fn idle_sleep_ms(&self, now: u64) -> (r: u64)
        requires
            self.wf(),
        ensures
            r == sleep_ms_spec(now as int, self@.last_tick + self@.tick_us),
    {
        sleep_ms_for(now, self.last_tick, self.tick_us)
    }
}

proof fn lemma_due_positive(c: ClockView, now: int)
    requires
        c.tick_us > 0,
    ensures
        (c.due(now) > 0) == (now >= c.last_tick && now - c.last_tick >= c.tick_us),
{
    if now >= c.last_tick {
        let e = now - c.last_tick;
        if e >= c.tick_us {
            vstd::arithmetic::div_mod::lemma_div_is_ordered(c.tick_us, e, c.tick_us);
            vstd::arithmetic::div_mod::lemma_div_by_self(c.tick_us);
        } else {
            vstd::arithmetic::div_mod::lemma_basic_div(e, c.tick_us);
        }
    }
}

/// Tick cadence does not depend on scheduling: running the due ticks at
/// `t1` and then at a later `t2` leaves the clock exactly where running them
/// once at `t2` would, with the same number of ticks run.
pub proof fn lemma_ticks_independent_of_passes(c: ClockView, t1: int, t2: int)
    requires
        c.tick_us > 0,
        t1 <= t2,
    ensures
        c.advanced(t1).advanced(t2) == c.advanced(t2),
        c.due(t1) + c.advanced(t1).due(t2) == c.due(t2),
{
    let k = c.tick_us;
    if t1 >= c.last_tick {
        let n1 = c.due(t1);
        let e1 = t1 - c.last_tick;
        let e2 = t2 - c.last_tick;
        lemma_fundamental_div_mod(e1, k);
        assert(n1 * k <= e1) by (nonlinear_arith)
            requires
                e1 == k * n1 + e1 % k,
                e1 % k >= 0,
        ;
        let b = e2 - n1 * k;
        assert(b >= 0);
        lemma_fundamental_div_mod(b, k);
        lemma_div_multiples_vanish_fancy(n1 + b / k, b % k, k);
        assert(e2 == k * (n1 + b / k) + b % k) by (nonlinear_arith)
            requires
                b == e2 - n1 * k,
                b == k * (b / k) + b % k,
        ;
        assert(c.advanced(t1).due(t2) == b / k);
        assert((n1 + b / k) * k == n1 * k + (b / k) * k) by (nonlinear_arith);
    }
}

} // verus!
