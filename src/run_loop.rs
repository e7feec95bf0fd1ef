//! The run loop: a fixed number of cycles, with adaptive pacing between them.
use vstd::prelude::*;
use crate::config::{Config, CycleOutcome};
use crate::pacing::{spec_next_interval, next_interval};

verus! {

/// Progress of a run and its pacing interval.
#[derive(Clone, Copy, Debug)]
pub struct RunLoop {
    /// The configured base interval, in milliseconds.
    pub base_ms: u64,
    /// The interval to sleep after the current cycle, in milliseconds.
    pub interval_ms: u64,
    /// Index of the next cycle to run.
    pub next_index: u32,
    /// Number of cycles in the run.
    pub total: u32,
}

impl RunLoop {
    /// Well-formed: no more cycles have run than the run holds.
    pub open spec fn wf(self) -> bool {
        self.next_index <= self.total
    }

    /// The cycle to run next, if the run is not over.
    pub open spec fn spec_next_cycle(self) -> Option<u32> {
        if self.next_index < self.total {
            Some(self.next_index)
        } else {
            None
        }
    }

    /// The state of a run that has not started.
    pub open spec fn spec_new(cfg: Config) -> RunLoop {
        RunLoop {
            base_ms: cfg.interval_ms,
            interval_ms: cfg.interval_ms,
            next_index: 0,
            total: cfg.scrape_count,
        }
    }

    /// The state after the current cycle ended with `outcome`.
    pub open spec fn spec_finish(self, outcome: CycleOutcome) -> RunLoop {
        RunLoop {
            interval_ms: spec_next_interval(self.base_ms, self.interval_ms, outcome is Success),
            next_index: (self.next_index + 1) as u32,
            ..self
        }
    }

    /// Starts a run of `cfg.scrape_count` cycles at the base interval.
    pub fn new(cfg: &Config) -> (r: RunLoop)
        ensures
            r == RunLoop::spec_new(*cfg),
            r.wf(),
    {
        RunLoop {
            base_ms: cfg.interval_ms,
            interval_ms: cfg.interval_ms,
            next_index: 0,
            total: cfg.scrape_count,
        }
    }

    /// The index of the cycle to run next, or `None` once all have run.
    pub fn next_cycle(&self) -> (r: Option<u32>)
        ensures
            r == self.spec_next_cycle(),
    {
        if self.next_index < self.total {
            Some(self.next_index)
        } else {
            None
        }
    }

    /// Records how the current cycle ended and returns how many
    /// milliseconds to sleep before the next one.
    pub fn finish_cycle(&mut self, outcome: CycleOutcome) -> (r: u64)
        requires
            old(self).wf(),
            old(self).next_index < old(self).total,
        ensures
            *final(self) == old(self).spec_finish(outcome),
            final(self).wf(),
            r == final(self).interval_ms,
    {
        let success = match outcome {
            CycleOutcome::Success => true,
            CycleOutcome::Failure(_) => false,
        };
        self.interval_ms = next_interval(self.base_ms, self.interval_ms, success);
        self.next_index = self.next_index + 1;
        self.interval_ms
    }
}

/// The run state after cycles ending with `outcomes`, in order.
pub open spec fn spec_run(cfg: Config, outcomes: Seq<CycleOutcome>) -> RunLoop
    decreases outcomes.len(),
{
    if outcomes.len() == 0 {
        RunLoop::spec_new(cfg)
    } else {
        spec_run(cfg, outcomes.drop_last()).spec_finish(outcomes.last())
    }
}

/// A run configured for zero cycles runs none: it is over before it starts.
pub proof fn lemma_zero_count_runs_nothing(cfg: Config)
    requires
        cfg.scrape_count == 0,
    ensures
        RunLoop::spec_new(cfg).spec_next_cycle() is None,
{
}

/// A run offers exactly `scrape_count` cycles, numbered from zero: after `k`
/// of them have ended, whatever their outcomes, the next is cycle `k` while
/// `k` is below the count, and there is none once `k` reaches it.
pub proof fn lemma_run_length(cfg: Config, outcomes: Seq<CycleOutcome>)
    requires
        outcomes.len() <= cfg.scrape_count,
    ensures
        spec_run(cfg, outcomes).wf(),
        spec_run(cfg, outcomes).total == cfg.scrape_count,
        spec_run(cfg, outcomes).base_ms == cfg.interval_ms,
        spec_run(cfg, outcomes).next_index == outcomes.len(),
        spec_run(cfg, outcomes).spec_next_cycle() == if outcomes.len() < cfg.scrape_count {
            Some(outcomes.len() as u32)
        } else {
            None
        },
    decreases outcomes.len(),
{
    if outcomes.len() > 0 {
        lemma_run_length(cfg, outcomes.drop_last());
    }
}

/// After a successful cycle the run sleeps for exactly the base interval,
/// whatever backoff had accumulated.
pub proof fn lemma_success_restores_base(r: RunLoop)
    ensures
        r.spec_finish(CycleOutcome::Success).interval_ms == r.base_ms,
{
}

} // verus!
