//! The fixed-tick scheduler: deadline arithmetic for a render loop that
//! tolerates wake-up jitter without drifting.
//!
//! Deadlines live on a fixed grid: every deadline is the origin plus a whole
//! number of tick lengths. When a wake-up overshoots its deadline, the next
//! deadline moves to the first grid point strictly after the wake-up time —
//! the overshoot is absorbed, never compounded, and at most one tick fires
//! per wake-up.

use vstd::prelude::*;

verus! {

/// A configuration the scheduler rejects before the loop starts.
#[derive(Copy, Clone, Debug, PartialEq, Eq, Structural)]
pub enum ConfigError {
    /// The requested tick rate or tick length was not positive.
    NonPositiveRate,
}

/// What the loop must do after consulting the scheduler at some instant.
#[derive(Copy, Clone, Debug, PartialEq, Eq, Structural)]
pub enum SchedulerAction {
    /// The deadline was reached: drain events and render once.
    Tick,

    /// The deadline is ahead: suspend for this many nanoseconds and retry.
    Wait(u64),
}

/// The deadline state of the fixed-tick loop, in nanoseconds.
pub struct Scheduler {
    tick_length: u64,
    next_tick: u64,
    origin: Ghost<u64>,
}

/// The deadline that follows `deadline` once a tick fired at time `now`:
/// the first grid point (a multiple of `tick_length` from `deadline`)
/// strictly after `now`.
pub open spec fn spec_next_deadline(deadline: int, tick_length: int, now: int) -> int {
    deadline + tick_length + ((now - deadline) - ((now - deadline) % tick_length))
}

impl Scheduler {
    /// The length of one tick in nanoseconds.
    pub closed spec fn tick_length(&self) -> u64 {
        self.tick_length
    }

    /// The deadline of the next tick.
    pub closed spec fn next_tick(&self) -> u64 {
        self.next_tick
    }

    /// The instant the grid of deadlines is anchored at.
    pub closed spec fn origin(&self) -> u64 {
        self.origin@
    }

    /// The tick length is positive and the deadline lies on the grid.
    pub open spec fn wf(&self) -> bool {
        &&& self.tick_length() > 0
        &&& self.origin() <= self.next_tick()
        &&& (self.next_tick() - self.origin()) % (self.tick_length() as int) == 0
    }

    /// A scheduler whose first deadline is `now` and whose grid is anchored
    /// there. A zero tick length is a configuration error, rejected before
    /// the loop starts.
    pub fn new(tick_length: u64, now: u64) -> (r: Result<Scheduler, ConfigError>)
        ensures
            match r {
                Ok(s) => tick_length > 0 && s.wf() && s.tick_length() == tick_length
                    && s.next_tick() == now && s.origin() == now,
                Err(e) => tick_length == 0 && e == ConfigError::NonPositiveRate,
            },
    {
        if tick_length == 0 {
            Err(ConfigError::NonPositiveRate)
        } else {
            proof {
                vstd::arithmetic::div_mod::lemma_small_mod(0nat, tick_length as nat);
            }
            Ok(Scheduler { tick_length, next_tick: now, origin: Ghost(now) })
        }
    }

    /// Consult the scheduler at instant `now`. At or past the deadline the
    /// answer is `Tick` and the deadline advances to the first grid point
    /// strictly after `now` — by at least one tick length, and to no later
    /// than one tick length after `now`. Before the deadline the answer is
    /// `Wait` for exactly the remaining time, and nothing changes.
    pub fn step(&mut self, now: u64) -> (a: SchedulerAction)
        requires
            old(self).wf(),
            now <= u64::MAX - old(self).tick_length(),
        ensures
            final(self).wf(),
            final(self).tick_length() == old(self).tick_length(),
            final(self).origin() == old(self).origin(),
            now < old(self).next_tick() ==> {
                &&& a == SchedulerAction::Wait((old(self).next_tick() - now) as u64)
                &&& final(self).next_tick() == old(self).next_tick()
            },
            now >= old(self).next_tick() ==> {
                &&& a == SchedulerAction::Tick
                &&& final(self).next_tick() as int == spec_next_deadline(
                    old(self).next_tick() as int,
                    old(self).tick_length() as int,
                    now as int,
                )
                &&& now < final(self).next_tick() <= now + old(self).tick_length()
                &&& final(self).next_tick() >= old(self).next_tick() + old(self).tick_length()
            },
    {
        if now >= self.next_tick {
            let diff: u64 = now - self.next_tick;
            let rem: u64 = diff % self.tick_length;
            proof {
                let d: int = diff as int;
                let l: int = self.tick_length as int;
                assert(0 <= d % l < l && d % l <= d && (d - d % l) % l == 0) by (nonlinear_arith)
                    requires
                        l > 0,
                        d >= 0,
                ;
            }
            let delta: u64 = diff - rem;
            self.next_tick = self.next_tick + delta + self.tick_length;
            proof {
                let o: int = self.origin@ as int;
                let n: int = old(self).next_tick as int;
                let l: int = self.tick_length as int;
                let dl: int = delta as int;
                vstd::arithmetic::div_mod::lemma_add_mod_noop(n - o, dl, l);
                vstd::arithmetic::div_mod::lemma_add_mod_noop(n - o + dl, l, l);
                vstd::arithmetic::div_mod::lemma_mod_self_0(l);
                vstd::arithmetic::div_mod::lemma_small_mod(0nat, l as nat);
                assert((n - o + dl) % l == 0);
                assert((n + dl + l - o) % l == 0);
            }
            SchedulerAction::Tick
        } else {
            SchedulerAction::Wait(self.next_tick - now)
        }
    }
}

/// The deadline after a run of ticks whose wake-up instants were `wakes`,
/// starting from deadline `d0` with tick length `tick_length`.
pub open spec fn spec_deadlines(d0: int, tick_length: int, wakes: Seq<int>) -> int
    decreases wakes.len(),
{
    if wakes.len() == 0 {
        d0
    } else {
        spec_next_deadline(spec_deadlines(d0, tick_length, wakes.drop_last()), tick_length, wakes.last())
    }
}

/// Whether each wake-up of a run happened at or after its deadline, and
/// overshot it by at most `eps`.
pub open spec fn wakes_bounded(d0: int, tick_length: int, wakes: Seq<int>, eps: int) -> bool
    decreases wakes.len(),
{
    if wakes.len() == 0 {
        true
    } else {
        let d: int = spec_deadlines(d0, tick_length, wakes.drop_last());
        wakes_bounded(d0, tick_length, wakes.drop_last(), eps) && d <= wakes.last() <= d + eps
    }
}

/// Law: the scheduler does not drift. Over any run of ticks whose wake-up
/// overshoots are bounded by `eps`, every tick advances the deadline by at
/// least one tick length and at most one tick length plus `eps`; so after
/// `n` ticks the deadline has moved by between `n` tick lengths and `n`
/// times (tick length + `eps`) — the deviation of the average tick period
/// from the tick length stays within `eps`, however long the run.
pub proof fn lemma_no_drift(d0: int, tick_length: int, wakes: Seq<int>, eps: int)
    requires
        tick_length > 0,
        eps >= 0,
        wakes_bounded(d0, tick_length, wakes, eps),
    ensures
        d0 + tick_length * wakes.len() <= spec_deadlines(d0, tick_length, wakes) <= d0 + (
        tick_length + eps) * wakes.len(),
    decreases wakes.len(),
{
    if wakes.len() == 0 {
    } else {
        lemma_no_drift(d0, tick_length, wakes.drop_last(), eps);
        let n: int = wakes.len() as int;
        let prev: int = spec_deadlines(d0, tick_length, wakes.drop_last());
        let w: int = wakes.last();
        let d: int = spec_deadlines(d0, tick_length, wakes);
        let o: int = w - prev;
        assert(0 <= o % tick_length < tick_length && o % tick_length <= o) by (nonlinear_arith)
            requires
                tick_length > 0,
                o >= 0,
        ;
        assert(prev + tick_length <= d <= prev + tick_length + eps);
        assert(tick_length * (n - 1) + tick_length == tick_length * n) by (nonlinear_arith);
        assert((tick_length + eps) * (n - 1) + (tick_length + eps) == (tick_length + eps) * n)
            by (nonlinear_arith);
    }
}

} // verus!
