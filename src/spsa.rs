//! The SPSA evaluation cycle as an explicit state machine: a plus window, a
//! minus window, then a gradient update. The state machine decides when each
//! window opens and closes; the caller does the arithmetic on the values.
use vstd::prelude::*;

verus! {

/// Which side of a perturbation is being evaluated.
#[derive(Clone, Copy, Debug, PartialEq, Eq, Structural)]
pub enum PerturbationDirection {
    Plus,
    Minus,
}

/// Why an observation proposes no change.
#[derive(Clone, Copy, Debug, PartialEq, Eq, Structural)]
pub enum NoChangeReason {
    EvalTimeout,
    SafeMode,
    ConstraintViolation,
    CooldownActive,
    BudgetExhausted,
}

/// Why an observation could not be processed.
#[derive(Clone, Debug)]
pub enum ProposalError {
    InvalidDigest(String),
    InternalError(String),
}

/// Where the cycle stands.
#[derive(Clone, Copy, Debug, PartialEq, Eq, Structural)]
pub enum SpsaPhase {
    /// No perturbation in flight.
    Ready,
    /// Collecting objective samples under `+delta`.
    WaitingPlus { perturbation_id: u64, samples: u32, started_us: u64 },
    /// Collecting objective samples under `-delta`.
    WaitingMinus { perturbation_id: u64, samples: u32, started_us: u64 },
}

/// What one observation calls for.
#[derive(Clone, Copy, Debug, PartialEq, Eq, Structural)]
pub enum SpsaStep {
    /// Draw a perturbation and propose `+delta` under this id.
    StartPlus { perturbation_id: u64 },
    /// Record the objective into the plus window.
    AccumulatePlus,
    /// Record the objective into the plus window, close it, and propose
    /// `-delta` under this id.
    StartMinus { perturbation_id: u64 },
    /// Record the objective into the minus window.
    AccumulateMinus,
    /// Record the objective into the minus window, close it, and propose the
    /// gradient update of this iteration.
    Complete { iteration: u64 },
    /// The window ran past its limit: abandon the perturbation.
    Timeout,
}

/// The cycle's state and counters.
#[derive(Clone, Copy, Debug, PartialEq, Eq, Structural)]
pub struct SpsaCycle {
    pub phase: SpsaPhase,
    /// Completed updates (`k`).
    pub iteration: u64,
    /// Id that the next perturbation gets.
    pub next_perturbation_id: u64,
    /// Samples each window needs before it closes.
    pub min_samples: u32,
    /// Longest a window may stay open, in microseconds.
    pub max_window_us: u64,
}

/// Whether a window opened at `started` has run past `max` at `now`.
pub open spec fn window_expired(started: u64, max: u64, now: u64) -> bool {
    now > started && now - started > max
}

/// `n + 1`, held at `u32::MAX`.
pub open spec fn samples_inc(n: u32) -> u32 {
    if n == u32::MAX {
        n
    } else {
        (n + 1) as u32
    }
}

/// The cycle after one observation at `now`, and what it calls for.
pub open spec fn cycle_step(c: SpsaCycle, now: u64) -> (SpsaCycle, SpsaStep) {
    match c.phase {
        SpsaPhase::Ready => (
            SpsaCycle {
                phase: SpsaPhase::WaitingPlus {
                    perturbation_id: c.next_perturbation_id,
                    samples: 0,
                    started_us: now,
                },
                next_perturbation_id: (c.next_perturbation_id + 1) as u64,
                ..c
            },
            SpsaStep::StartPlus { perturbation_id: c.next_perturbation_id },
        ),
        SpsaPhase::WaitingPlus { perturbation_id, samples, started_us } => {
            if window_expired(started_us, c.max_window_us, now) {
                (SpsaCycle { phase: SpsaPhase::Ready, ..c }, SpsaStep::Timeout)
            } else if samples_inc(samples) >= c.min_samples {
                (
                    SpsaCycle {
                        phase: SpsaPhase::WaitingMinus { perturbation_id, samples: 0, started_us: now },
                        ..c
                    },
                    SpsaStep::StartMinus { perturbation_id },
                )
            } else {
                (
                    SpsaCycle {
                        phase: SpsaPhase::WaitingPlus {
                            perturbation_id,
                            samples: samples_inc(samples),
                            started_us,
                        },
                        ..c
                    },
                    SpsaStep::AccumulatePlus,
                )
            }
        },
        SpsaPhase::WaitingMinus { perturbation_id, samples, started_us } => {
            if window_expired(started_us, c.max_window_us, now) {
                (SpsaCycle { phase: SpsaPhase::Ready, ..c }, SpsaStep::Timeout)
            } else if samples_inc(samples) >= c.min_samples {
                (
                    SpsaCycle {
                        phase: SpsaPhase::Ready,
                        iteration: (c.iteration + 1) as u64,
                        ..c
                    },
                    SpsaStep::Complete { iteration: c.iteration },
                )
            } else {
                (
                    SpsaCycle {
                        phase: SpsaPhase::WaitingMinus {
                            perturbation_id,
                            samples: samples_inc(samples),
                            started_us,
                        },
                        ..c
                    },
                    SpsaStep::AccumulateMinus,
                )
            }
        },
    }
}

impl SpsaCycle {
    /// A ready cycle at iteration zero.
    pub fn new(min_samples: u32, max_window_us: u64) -> (r: Self)
        ensures
            r == (SpsaCycle {
                phase: SpsaPhase::Ready,
                iteration: 0,
                next_perturbation_id: 0,
                min_samples,
                max_window_us,
            }),
    {
        SpsaCycle {
            phase: SpsaPhase::Ready,
            iteration: 0,
            next_perturbation_id: 0,
            min_samples,
            max_window_us,
        }
    }

    /// Advances the cycle by one observation at `now_us`.
    pub fn observe(&mut self, now_us: u64) -> (r: SpsaStep)
        requires
            old(self).iteration < u64::MAX,
            old(self).next_perturbation_id < u64::MAX,
        ensures
            (*final(self), r) == cycle_step(*old(self), now_us),
    {
        match self.phase {
            SpsaPhase::Ready => {
                let id = self.next_perturbation_id;
                self.phase = SpsaPhase::WaitingPlus { perturbation_id: id, samples: 0, started_us: now_us };
                self.next_perturbation_id = id + 1;
                SpsaStep::StartPlus { perturbation_id: id }
            },
            SpsaPhase::WaitingPlus { perturbation_id, samples, started_us } => {
                if now_us > started_us && now_us - started_us > self.max_window_us {
                    self.phase = SpsaPhase::Ready;
                    SpsaStep::Timeout
                } else if samples.saturating_add(1) >= self.min_samples {
                    self.phase = SpsaPhase::WaitingMinus { perturbation_id, samples: 0, started_us: now_us };
                    SpsaStep::StartMinus { perturbation_id }
                } else {
                    self.phase = SpsaPhase::WaitingPlus {
                        perturbation_id,
                        samples: samples.saturating_add(1),
                        started_us,
                    };
                    SpsaStep::AccumulatePlus
                }
            },
            SpsaPhase::WaitingMinus { perturbation_id, samples, started_us } => {
                if now_us > started_us && now_us - started_us > self.max_window_us {
                    self.phase = SpsaPhase::Ready;
                    SpsaStep::Timeout
                } else if samples.saturating_add(1) >= self.min_samples {
                    let k = self.iteration;
                    self.phase = SpsaPhase::Ready;
                    self.iteration = k + 1;
                    SpsaStep::Complete { iteration: k }
                } else {
                    self.phase = SpsaPhase::WaitingMinus {
                        perturbation_id,
                        samples: samples.saturating_add(1),
                        started_us,
                    };
                    SpsaStep::AccumulateMinus
                }
            },
        }
    }

    /// Completed updates so far.
    pub fn iteration(&self) -> (r: u64)
        ensures
            r == self.iteration,
    {
        self.iteration
    }
}

/// The iteration counter moves only on `Complete`, and then by exactly one.
pub proof fn lemma_iteration_moves_only_on_complete(c: SpsaCycle, now: u64)
    requires
        c.iteration < u64::MAX,
    ensures
        cycle_step(c, now).1 is Complete ==> cycle_step(c, now).1 == (SpsaStep::Complete {
            iteration: c.iteration,
        }) && cycle_step(c, now).0.iteration == c.iteration + 1,
        !(cycle_step(c, now).1 is Complete) ==> cycle_step(c, now).0.iteration
            == c.iteration,
{
}

/// With one sample per window, the two observations that follow a plus
/// proposal (each inside the window limit) close the plus window, then
/// complete the cycle: the iteration advances by exactly one and the cycle
/// is ready again.
pub proof fn lemma_round_trip(c: SpsaCycle, t1: u64, t2: u64)
    requires
        c.phase matches SpsaPhase::WaitingPlus { started_us, .. } && !window_expired(
            started_us,
            c.max_window_us,
            t1,
        ),
        !window_expired(t1, c.max_window_us, t2),
        c.min_samples <= 1,
        c.iteration < u64::MAX,
    ensures
        cycle_step(c, t1).1 matches SpsaStep::StartMinus { .. },
        cycle_step(cycle_step(c, t1).0, t2).1 == (SpsaStep::Complete { iteration: c.iteration }),
        cycle_step(cycle_step(c, t1).0, t2).0.iteration == c.iteration + 1,
        cycle_step(cycle_step(c, t1).0, t2).0.phase == SpsaPhase::Ready,
{
}

/// Determinism: two cycles in the same state that observe the same
/// timestamps take the same steps and end in the same state.
pub proof fn lemma_deterministic(a: SpsaCycle, b: SpsaCycle, times: Seq<u64>)
    requires
        a == b,
    ensures
        run_cycle(a, times) == run_cycle(b, times),
{
}

/// The state and the steps after observing at each of `times` in turn.
pub open spec fn run_cycle(c: SpsaCycle, times: Seq<u64>) -> (SpsaCycle, Seq<SpsaStep>)
    decreases times.len(),
{
    if times.len() == 0 {
        (c, Seq::empty())
    } else {
        let (c1, s) = cycle_step(c, times[0]);
        let (cn, rest) = run_cycle(c1, times.drop_first());
        (cn, seq![s] + rest)
    }
}

} // verus!
