use vstd::prelude::*;

use crate::error::MonitorError;
use crate::progress::{end_boundary, Progress, EPOCH_SLOTS};
use crate::registry::{observed, ThreadRegistry};
use crate::stats::{StatSnapshot, ThreadStats};

verus! {

/// Where a sampling run stands.
#[derive(Clone, Copy, Debug, PartialEq, Eq, Structural)]
pub enum Phase {
    /// The target is alive; the stop boundary is not yet fixed.
    Init,
    /// Rounds of sampling go on.
    Sampling,
    /// The progress reached the stop boundary: the registry is the result.
    StoppedByBoundary,
    /// The target process was not alive at the start.
    StoppedByAbsence,
    /// The run was aborted by the error it holds.
    Failed(MonitorError),
}

/// What the driver of the run does after a progress reading.
#[derive(Clone, Copy, Debug, PartialEq, Eq, Structural)]
pub enum Action {
    /// Read every thread of the target and hand each to `on_thread`.
    SampleThreads,
    /// Stop: the phase tells how the run ended.
    Stop,
}

/// The share of the last epoch before `end` that lies behind `slot`, in
/// whole percent, floored, and zero while more than an epoch remains.
pub open spec fn percent_of_last_epoch(end: int, slot: int) -> int {
    if end - slot >= EPOCH_SLOTS {
        0
    } else {
        ((EPOCH_SLOTS - (end - slot)) * 100) / EPOCH_SLOTS as int
    }
}

/// One sampling run: its stop boundary in slots, its phase, and the
/// statistics gathered so far.
pub struct SamplingLoop {
    pub end_slot: u128,
    pub phase: Phase,
    pub registry: ThreadRegistry,
}

impl SamplingLoop {
    pub open spec fn wf(&self) -> bool {
        self.registry.wf()
    }

    /// A run on a target that is alive or not. A dead target ends the run at
    /// once, with nothing to report.
    pub fn new(alive: bool) -> (r: SamplingLoop)
        ensures
            r.wf(),
            r.registry@ == Map::<Seq<char>, ThreadStats>::empty(),
            r.end_slot == 0,
            r.phase == (if alive {
                Phase::Init
            } else {
                Phase::StoppedByAbsence
            }),
    {
        SamplingLoop {
            end_slot: 0,
            phase: if alive {
                Phase::Init
            } else {
                Phase::StoppedByAbsence
            },
            registry: ThreadRegistry::new(),
        }
    }

    /// Fixes the stop boundary from the progress read at the start, or fails
    /// the run with the error of that reading.
    pub fn begin(&mut self, start: Result<Progress, MonitorError>)
        requires
            old(self).wf(),
            old(self).phase == Phase::Init,
        ensures
            final(self).wf(),
            final(self).registry@ == old(self).registry@,
            match start {
                Ok(p) => final(self).phase == Phase::Sampling && final(self).end_slot
                    == end_boundary(p.slot),
                Err(e) => final(self).phase == Phase::Failed(e) && final(self).end_slot
                    == old(self).end_slot,
            },
    {
        match start {
            Ok(p) => {
                self.end_slot = p.end_point();
                self.phase = Phase::Sampling;
            },
            Err(e) => {
                self.phase = Phase::Failed(e);
            },
        }
    }

    /// Decides on a fresh progress reading: sample another round while it is
    /// below the stop boundary, stop once it is at or past it, and fail the run
    /// on an error of the reading.
    pub fn on_progress(&mut self, reading: Result<Progress, MonitorError>) -> (r: Action)
        requires
            old(self).wf(),
            old(self).phase == Phase::Sampling,
        ensures
            final(self).wf(),
            final(self).registry@ == old(self).registry@,
            final(self).end_slot == old(self).end_slot,
            match reading {
                Ok(p) => if (p.slot as int) < old(self).end_slot {
                    r == Action::SampleThreads && final(self).phase == Phase::Sampling
                } else {
                    r == Action::Stop && final(self).phase == Phase::StoppedByBoundary
                },
                Err(e) => r == Action::Stop && final(self).phase == Phase::Failed(e),
            },
    {
        match reading {
            Ok(p) => if (p.slot as u128) < self.end_slot {
                Action::SampleThreads
            } else {
                self.phase = Phase::StoppedByBoundary;
                Action::Stop
            },
            Err(e) => {
                self.phase = Phase::Failed(e);
                Action::Stop
            },
        }
    }

    /// How far through the last epoch of the run `p` lies, in whole percent.
    pub fn percent_done(&self, p: Progress) -> (r: u64)
        requires
            (p.slot as int) < self.end_slot,
        ensures
            r == percent_of_last_epoch(self.end_slot as int, p.slot as int),
    {
        let remaining = self.end_slot - p.slot as u128;
        if remaining >= EPOCH_SLOTS as u128 {
            0
        } else {
            let behind = EPOCH_SLOTS - remaining as u64;
            behind * 100 / EPOCH_SLOTS
        }
    }

    /// Takes one thread of a round: its name and snapshot go into the
    /// registry. An error in reading the thread, or of the update, fails the
    /// run; the registry keeps what the update had already counted. Returns
    /// whether the run goes on.
    pub fn on_thread(&mut self, thread: Result<(String, StatSnapshot), MonitorError>) -> (r: bool)
        requires
            old(self).wf(),
            old(self).phase == Phase::Sampling,
            thread matches Ok((name, stat)) ==> old(self).registry.admits(name@, stat),
        ensures
            final(self).wf(),
            final(self).end_slot == old(self).end_slot,
            r == (final(self).phase == Phase::Sampling),
            match thread {
                Ok((name, stat)) => {
                    &&& final(self).registry@ == observed(old(self).registry@, name@, stat)
                    &&& final(self).phase == match ThreadStats::update_outcome(stat) {
                        Ok(_) => Phase::Sampling,
                        Err(e) => Phase::Failed(e),
                    }
                },
                Err(e) => {
                    &&& final(self).registry@ == old(self).registry@
                    &&& final(self).phase == Phase::Failed(e)
                },
            },
    {
        match thread {
            Ok((name, stat)) => match self.registry.observe(name, stat) {
                Ok(()) => true,
                Err(e) => {
                    self.phase = Phase::Failed(e);
                    false
                },
            },
            Err(e) => {
                self.phase = Phase::Failed(e);
                false
            },
        }
    }

    /// The statistics, once the run has stopped at its boundary; nothing for a
    /// run that is still going, failed, or found no live target.
    pub fn report(&self) -> (r: Option<&ThreadRegistry>)
        ensures
            r == (if self.phase == Phase::StoppedByBoundary {
                Some(&self.registry)
            } else {
                None
            }),
    {
        match self.phase {
            Phase::StoppedByBoundary => Some(&self.registry),
            _ => None,
        }
    }

    /// The process exit status for a finished run: 0 at the boundary, 1 for a
    /// target that was not alive or a run that failed.
    pub fn exit_code(&self) -> (r: Option<i32>)
        ensures
            r == match self.phase {
                Phase::Init | Phase::Sampling => None::<i32>,
                Phase::StoppedByBoundary => Some(0i32),
                Phase::StoppedByAbsence | Phase::Failed(_) => Some(1i32),
            },
    {
        match self.phase {
            Phase::Init | Phase::Sampling => None,
            Phase::StoppedByBoundary => Some(0),
            Phase::StoppedByAbsence | Phase::Failed(_) => Some(1),
        }
    }
}

} // verus!
