//! The polling schedule: which ticks check online and which offline.
use vstd::prelude::*;

verus! {

/// Whether a pass uses the network (and renews the caches) or only the
/// caches of the last online pass.
#[derive(Clone, Copy, Debug, PartialEq, Eq, Structural)]
pub enum CheckType {
    Online,
    Offline,
}

/// The cycle counter of the polling loop: a tick checks online when the
/// counter is at 0, and every `online_check_period`-th tick it is.
#[derive(Clone, Copy, Debug)]
pub struct Scheduler {
    counter: usize,
    online_check_period: usize,
}

/// The kind of pass that a tick at counter `counter` runs.
pub open spec fn tick_check(counter: nat) -> CheckType {
    if counter == 0 {
        CheckType::Online
    } else {
        CheckType::Offline
    }
}

/// The counter after a tick at counter `counter`.
pub open spec fn next_counter(counter: nat, period: nat) -> nat {
    if counter + 1 >= period {
        0
    } else {
        (counter + 1) as nat
    }
}

/// The counter after `n` ticks from a counter at 0.
pub open spec fn counter_after_ticks(period: nat, n: nat) -> nat
    decreases n,
{
    if n == 0 {
        0
    } else {
        next_counter(counter_after_ticks(period, (n - 1) as nat), period)
    }
}

impl Scheduler {
    /// The counter, as a number.
    pub closed spec fn counter(self) -> nat {
        self.counter as nat
    }

    /// The number of ticks from one online pass to the next.
    pub closed spec fn period(self) -> nat {
        self.online_check_period as nat
    }

    /// The counter stays below the period (at 0 for a period of 0).
    pub closed spec fn wf(self) -> bool {
        self.counter == 0 || self.counter < self.online_check_period
    }

    /// A schedule whose first tick checks online.
    pub fn new(online_check_period: usize) -> (r: Scheduler)
        ensures
            r.wf(),
            r.counter() == 0,
            r.period() == online_check_period,
    {
        Scheduler { counter: 0, online_check_period }
    }

    /// A regular tick: the kind of pass to run, with the counter moved on.
    pub fn tick(&mut self) -> (r: CheckType)
        requires
            old(self).wf(),
        ensures
            final(self).wf(),
            r == tick_check(old(self).counter()),
            final(self).counter() == next_counter(old(self).counter(), old(self).period()),
            final(self).period() == old(self).period(),
    {
        let r = if self.counter == 0 {
            CheckType::Online
        } else {
            CheckType::Offline
        };
        if self.counter + 1 >= self.online_check_period {
            self.counter = 0;
        } else {
            self.counter = self.counter + 1;
        }
        r
    }

    /// A forced refresh: an online pass now, and the counter reset so that
    /// the next regular tick checks online too.
    pub fn force_refresh(&mut self) -> (r: CheckType)
        requires
            old(self).wf(),
        ensures
            final(self).wf(),
            r == CheckType::Online,
            final(self).counter() == 0,
            final(self).period() == old(self).period(),
    {
        self.counter = 0;
        CheckType::Online
    }
}

/// From a fresh schedule with period `k`, the tick numbered `t` (from 0)
/// checks online exactly when `t` is a multiple of `k`.
pub proof fn lemma_every_kth_tick_online(k: nat, t: nat)
    requires
        k >= 1,
    ensures
        counter_after_ticks(k, t) == t % k,
        tick_check(counter_after_ticks(k, t)) == CheckType::Online <==> t % k == 0,
    decreases t,
{
    if t > 0 {
        lemma_every_kth_tick_online(k, (t - 1) as nat);
        let c = ((t - 1) as nat) % k;
        assert(((t - 1) as nat) == k * (((t - 1) as nat) / k) + c) by (nonlinear_arith)
            requires
                k >= 1,
                c == ((t - 1) as nat) % k,
        ;
        if c + 1 >= k {
            assert(t == k * (((t - 1) as nat) / k + 1)) by (nonlinear_arith)
                requires
                    ((t - 1) as nat) == k * (((t - 1) as nat) / k) + c,
                    c + 1 == k,
                    t >= 1,
            ;
            vstd::arithmetic::div_mod::lemma_mod_multiples_basic(
                (((t - 1) as nat) / k + 1) as int,
                k as int,
            );
        } else {
            vstd::arithmetic::div_mod::lemma_mod_add_multiples_vanish(
                (c + 1) as int,
                k as int,
            );
            assert(t == k * (((t - 1) as nat) / k) + (c + 1)) by (nonlinear_arith)
                requires
                    ((t - 1) as nat) == k * (((t - 1) as nat) / k) + c,
                    t >= 1,
            ;
            vstd::arithmetic::div_mod::lemma_mod_multiples_vanish(
                (((t - 1) as nat) / k) as int,
                (c + 1) as int,
                k as int,
            );
            vstd::arithmetic::div_mod::lemma_small_mod((c + 1) as nat, k);
        }
    }
}

/// After a forced refresh (`force_refresh`), whatever the phase of the
/// counter before it, the next regular tick checks online.
pub proof fn lemma_refresh_makes_next_tick_online(before: Scheduler, after: Scheduler)
    requires
        before.wf(),
        after.counter() == 0,
        after.period() == before.period(),
    ensures
        tick_check(after.counter()) == CheckType::Online,
{
}

} // verus!
