//! A plain worker: it keeps one liveness probe ticking until it is told to
//! stop.

use crate::check::HealthCheck;
use crate::clock::duration_nanos;
use crate::clock::seconds;
use crate::probe::HealthProbe;
use std::time::Duration;
use vstd::prelude::*;

verus! {

/// The seconds that the worker's probe may stay unticked.
pub const ALIVE_MARGIN_SECS: u64 = 30;

/// The seconds that the probe of the host's own timer may stay unticked.
pub const TIMER_MARGIN_SECS: u64 = 60;

/// The seconds that the host's own timer pauses between two ticks.
pub const TIMER_SLEEP_SECS: u64 = 5;

/// What a worker does after one look at its stop flag.
#[derive(Debug)]
pub enum WorkerStep {
    /// Sleep this long, then look again.
    Sleep(Duration),
    /// Leave the loop and take the probe out of its check.
    Leave,
}

/// A worker that ticks its probe, sleeps, and starts over.
#[derive(Debug)]
pub struct SimplePicoLoop {
    name: String,
    loop_sleep: Duration,
}

impl SimplePicoLoop {
    /// The worker's name.
    pub closed spec fn spec_name(&self) -> Seq<char> {
        self.name@
    }

    /// The pause between two ticks.
    pub closed spec fn spec_loop_sleep(&self) -> Duration {
        self.loop_sleep
    }

    /// A worker named `name` that pauses `loop_sleep` between two ticks.
    pub fn new(name: &str, loop_sleep: Duration) -> (worker: SimplePicoLoop)
        ensures
            worker.spec_name() == name@,
            worker.spec_loop_sleep() == loop_sleep,
    {
        SimplePicoLoop { name: name.to_owned(), loop_sleep }
    }

    /// The worker's status line: its name.
    pub fn status(&self) -> (status: &str)
        ensures
            status@ == self.spec_name(),
    {
        self.name.as_str()
    }

    /// The pause between two ticks.
    pub fn loop_sleep(&self) -> (pause: Duration)
        ensures
            pause == self.spec_loop_sleep(),
    {
        self.loop_sleep
    }

    /// Before the loop: makes the worker's probe, named after the worker and
    /// good for thirty seconds, and enrols it in `alive_check`.
    pub fn enrol(&self, alive_check: &mut HealthCheck) -> (probe: HealthProbe)
        ensures
            probe.spec_name() == self.spec_name(),
            duration_nanos(probe.spec_margin()) == ALIVE_MARGIN_SECS * 1_000_000_000,
            final(alive_check).probes() == old(alive_check).probes().push(probe),
            final(alive_check).spec_name() == old(alive_check).spec_name(),
    {
        let probe = HealthProbe::new(self.name.as_str(), seconds(ALIVE_MARGIN_SECS));
        alive_check.add(&probe);
        probe
    }

    /// One turn of the loop. While the worker is alive it ticks the probe and
    /// asks for its pause; once it has been told to stop it leaves.
    pub fn turn(&self, probe: &mut HealthProbe, alive: bool) -> (step: WorkerStep)
        ensures
            *final(probe) == *old(probe),
            step == if alive {
                WorkerStep::Sleep(self.spec_loop_sleep())
            } else {
                WorkerStep::Leave
            },
    {
        if alive {
            probe.tick();
            WorkerStep::Sleep(self.loop_sleep)
        } else {
            WorkerStep::Leave
        }
    }
}

/// The probe of the host's own timer: named `Timer` and good for sixty
/// seconds.
pub fn timer_probe() -> (probe: HealthProbe)
    ensures
        probe.spec_name() == "Timer"@,
        duration_nanos(probe.spec_margin()) == TIMER_MARGIN_SECS * 1_000_000_000,
{
    HealthProbe::new("Timer", seconds(TIMER_MARGIN_SECS))
}

/// The worker that keeps `probe` ticking as the host's own timer does: it goes
/// by the probe's name and pauses five seconds between two ticks.
pub fn ticker_for(probe: &HealthProbe) -> (worker: SimplePicoLoop)
    ensures
        worker.spec_name() == probe.spec_name(),
        duration_nanos(worker.spec_loop_sleep()) == TIMER_SLEEP_SECS * 1_000_000_000,
{
    SimplePicoLoop::new(probe.name(), seconds(TIMER_SLEEP_SECS))
}

} // verus!
