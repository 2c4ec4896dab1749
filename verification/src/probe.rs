//! Health probes: freshness tokens that a worker ticks and a check reads.

use crate::clock::duration_nanos;
use crate::clock::load_cell;
use crate::clock::elapsed_between;
use crate::clock::instant_nanos;
use crate::clock::nanos_of;
use crate::clock::new_cell;
use crate::clock::now;
use crate::clock::same_cell;
use crate::clock::share_cell;
use crate::clock::store_cell;
use crate::clock::TickCell;
use atomic::Atomic;
use std::sync::Arc;
use std::time::Duration;
use std::time::Instant;
use vstd::prelude::*;

verus! {

/// A probe ticked at `last_tick` is fresh at `now` while no more than `margin`
/// has passed. All three are nanoseconds on one monotonic clock.
pub open spec fn fresh_at(last_tick: int, now: int, margin: nat) -> bool {
    now - last_tick <= margin
}

/// Freshness in terms of the time elapsed since the last tick.
pub open spec fn within(elapsed: nat, margin: nat) -> bool {
    elapsed <= margin
}

/// Whether `elapsed` nanoseconds since the last tick are still inside a margin
/// of `margin` nanoseconds.
pub fn within_margin(elapsed: u128, margin: u128) -> (ok: bool)
    ensures
        ok == within(elapsed as nat, margin as nat),
        ok == fresh_at(0, elapsed as int, margin as nat),
{
    elapsed <= margin
}

/// Right after a tick a probe is fresh whatever its margin, and it stays fresh
/// up to the margin; once more than the margin has passed without another tick
/// it is fresh no longer.
pub proof fn lemma_fresh_until_margin(last_tick: int, margin: nat, now: int)
    requires
        last_tick <= now,
    ensures
        fresh_at(last_tick, last_tick, margin),
        now <= last_tick + margin ==> fresh_at(last_tick, now, margin),
        now > last_tick + margin ==> !fresh_at(last_tick, now, margin),
        fresh_at(last_tick, now, margin) == within((now - last_tick) as nat, margin),
{
}

/// A named freshness token. Its timestamp lives in a cell that every clone of
/// the probe shares, so a tick through one clone is seen through all.
#[derive(Debug)]
pub struct HealthProbe {
    name: String,
    margin: Duration,
    time: TickCell,
}

impl HealthProbe {
    /// The probe's name.
    pub closed spec fn spec_name(&self) -> Seq<char> {
        self.name@
    }

    /// The time the probe may stay unticked before it stops being valid.
    pub closed spec fn spec_margin(&self) -> Duration {
        self.margin
    }

    /// The shared timestamp cell; it is the probe's identity.
    pub closed spec fn cell(&self) -> Atomic<Instant> {
        *self.time
    }

    /// A probe named `name`, ticked now.
    pub fn new(name: &str, margin: Duration) -> (probe: HealthProbe)
        ensures
            probe.spec_name() == name@,
            probe.spec_margin() == margin,
    {
        HealthProbe { name: name.to_owned(), margin, time: Arc::new(new_cell(now())) }
    }

    /// Sets the shared timestamp to the current time. Name, margin and cell
    /// stay what they were.
    pub fn tick(&mut self)
        ensures
            *final(self) == *old(self),
    {
        store_cell(&self.time, now());
    }

    /// A probe with this margin, last ticked at `last_tick`, is fresh when the
    /// clock reads `now`.
    pub open spec fn fresh_between(&self, last_tick: Instant, now: Instant) -> bool {
        fresh_at(instant_nanos(last_tick), instant_nanos(now), duration_nanos(self.spec_margin()))
    }

    /// Whether the last tick lies within the margin of the current time. The
    /// answer is the freshness of the probe for the timestamp that the shared
    /// cell held and for the reading that the clock gave; which these were
    /// depends on who ticked last and on the clock.
    pub fn valid(&self) -> (ok: bool)
        ensures
            exists|last_tick: Instant, now: Instant|
                ok == #[trigger] self.fresh_between(last_tick, now),
    {
        let last = load_cell(&self.time);
        let current = now();
        let ok = self.valid_between(&last, &current);
        assert(ok == self.fresh_between(last, current));
        ok
    }

    /// Whether a probe with this margin, last ticked at `last_tick`, is valid
    /// when the clock reads `now`.
    pub fn valid_between(&self, last_tick: &Instant, now: &Instant) -> (ok: bool)
        ensures
            ok == fresh_at(
                instant_nanos(*last_tick),
                instant_nanos(*now),
                duration_nanos(self.spec_margin()),
            ),
    {
        let elapsed = elapsed_between(last_tick, now);
        self.valid_after(&elapsed)
    }

    /// Whether the probe is valid when `elapsed` has passed since its last
    /// tick: the margin is not exceeded.
    pub fn valid_after(&self, elapsed: &Duration) -> (ok: bool)
        ensures
            ok == within(duration_nanos(*elapsed), duration_nanos(self.spec_margin())),
    {
        within_margin(nanos_of(elapsed), nanos_of(&self.margin))
    }

    /// The probe's name.
    pub fn name(&self) -> (name: &str)
        ensures
            name@ == self.spec_name(),
    {
        self.name.as_str()
    }

    /// The probe's margin.
    pub fn margin(&self) -> (margin: Duration)
        ensures
            margin == self.spec_margin(),
    {
        self.margin
    }

    /// The time of the last tick as the cell holds it at this moment.
    pub fn last_tick(&self) -> Instant {
        load_cell(&self.time)
    }

    /// Whether `other` is a view of this same probe, that is, shares its cell.
    pub fn same_probe(&self, other: &HealthProbe) -> (same: bool)
        ensures
            same == (self.cell() == other.cell()),
    {
        same_cell(&self.time, &other.time)
    }
}

impl Clone for HealthProbe {
    /// Another view of the same probe: equal name and margin, the same cell.
    fn clone(&self) -> (copy: HealthProbe)
        ensures
            copy == *self,
    {
        HealthProbe { name: self.name.clone(), margin: self.margin, time: share_cell(&self.time) }
    }
}

} // verus!
