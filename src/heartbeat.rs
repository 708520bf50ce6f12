use vstd::prelude::*;

verus! {

/// Number of ticks between two heavy keepalive actions.
pub const HEAVY_PERIOD: u64 = 15;

/// Number of heavy keepalive actions performed during the first `t` ticks:
/// one for every tick whose number is a multiple of the heavy period.
pub open spec fn heavy_count(t: nat) -> nat
    decreases t,
{
    if t == 0 {
        0
    } else if t % (HEAVY_PERIOD as nat) == 0 {
        heavy_count((t - 1) as nat) + 1
    } else {
        heavy_count((t - 1) as nat)
    }
}

/// The keepalive action a monitor performs on one tick.
#[derive(Clone, Copy, Debug, PartialEq, Eq, Structural)]
pub enum Keepalive {
    /// Re-open of the already-open handle only.
    Light,
    /// Re-open followed by a deeper round trip that resets idle timers.
    Heavy,
}

/// Whether tick number `tick` (counted from one) performs the heavy action.
pub open spec fn is_heavy_tick(tick: nat) -> bool {
    tick % (HEAVY_PERIOD as nat) == 0
}

/// Decides the keepalive action of tick number `tick`.
pub fn keepalive_for_tick(tick: u64) -> (k: Keepalive)
    ensures
        (k == Keepalive::Heavy) == is_heavy_tick(tick as nat),
{
    if tick % HEAVY_PERIOD == 0 {
        Keepalive::Heavy
    } else {
        Keepalive::Light
    }
}

} // verus!

verus! {

/// The tick counter of one heartbeat monitor, with the number of heavy
/// keepalive actions it has performed.
#[derive(Debug, PartialEq, Eq)]
pub struct Heartbeat {
    pub ticks: u64,
    pub heavy: u64,
}

impl Heartbeat {
    pub open spec fn wf(&self) -> bool {
        self.heavy as nat == heavy_count(self.ticks as nat)
    }

    pub fn new() -> (r: Self)
        ensures
            r.wf(),
            r.ticks == 0,
            r.heavy == 0,
    {
        Heartbeat { ticks: 0, heavy: 0 }
    }

    /// One wake of the monitor after its interval. While `running` (the
    /// cancellation flag is still set) it counts the tick and returns the
    /// keepalive action to perform; once cancelled it returns `None` and the
    /// monitor ends. Keepalive failures are the caller's to swallow: nothing here
    /// depends on them.
    pub fn step(&mut self, running: bool) -> (r: Option<Keepalive>)
        requires
            old(self).wf(),
            old(self).ticks < u64::MAX,
        ensures
            final(self).wf(),
            !running ==> r is None && *final(self) == *old(self),
            running ==> {
                &&& final(self).ticks == old(self).ticks + 1
                &&& r is Some
                &&& (r->Some_0 == Keepalive::Heavy) == is_heavy_tick(final(self).ticks as nat)
            },
    {
        if !running {
            return None;
        }
        self.ticks = self.ticks + 1;
        let k = keepalive_for_tick(self.ticks);
        if k == Keepalive::Heavy {
            proof {
                lemma_heavy_count_le(self.ticks as nat);
            }
            self.heavy = self.heavy + 1;
        }
        Some(k)
    }
}

proof fn lemma_heavy_count_le(t: nat)
    ensures
        heavy_count(t) <= t,
    decreases t,
{
    if t > 0 {
        lemma_heavy_count_le((t - 1) as nat);
    }
}

/// A monitor that has run for `t` intervals has performed `floor(t / 15)`
/// heavy keepalive actions; every other tick performed only the light one.
pub proof fn lemma_heavy_ticks(t: nat)
    ensures
        heavy_count(t) == t / (HEAVY_PERIOD as nat),
    decreases t,
{
    if t > 0 {
        lemma_heavy_ticks((t - 1) as nat);
        let p = HEAVY_PERIOD as nat;
        assert(t / p == (t - 1) as nat / p + (if t % p == 0 { 1nat } else { 0nat })) by {
            vstd::arithmetic::div_mod::lemma_fundamental_div_mod(t as int, p as int);
            vstd::arithmetic::div_mod::lemma_fundamental_div_mod((t - 1) as int, p as int);
        };
    }
}

} // verus!
