//! Safety executor: gates each proposed configuration, publishes it through
//! the config cell, audits it, and latches SafeMode when a guard trips.
use vstd::prelude::*;
use crate::audit::{AuditEvent, AuditQueue, EnqueueResult, EventType, enqueue_outcome};
use crate::config_atomic::{AtomicConfig, ConfigSnapshot, published, baseline_captured, rolled_back};
use crate::control_safety::{
    ControlSafety, SafeMode, SafeModeExit, SafeModeReason, first_thrashing, fresh_history, history_after, regressions_after,
    timer_expired,
};
use std::sync::Arc;

verus! {

/// Why an apply or rollback was refused.
#[derive(Clone, Copy, Debug, PartialEq, Eq, Structural)]
pub enum Violation {
    /// A delta component is larger than the per-step limit.
    DeltaTooLarge { param_id: usize },
    /// Less than the minimum interval has passed since the last apply.
    RateLimitExceeded { elapsed_us: u64, min_interval_us: u64 },
    /// A new value falls outside its parameter's bounds.
    OutOfBounds { param_id: usize },
    /// The proposal names a parameter the registry does not hold.
    UnknownParameter { param_id: usize },
    /// Too many sign reversals inside the window.
    Thrashing { param_id: usize, flips: u32, limit: u32 },
    /// Cumulative movement inside the window is over budget.
    BudgetExhausted,
    /// Too many consecutive objective regressions.
    ObjectiveRegression { count: u32, limit: u32 },
    /// The audit queue refused the event.
    AuditQueueFull,
    /// Rollback without a captured baseline.
    NoBaseline,
}

/// Receipt of an apply: the generation now current.
#[derive(Clone, Copy, Debug, PartialEq, Eq, Structural)]
pub struct ApplyReceipt {
    pub new_generation: u64,
    pub apply_latency_us: u64,
}

/// Receipt of a rollback: the generation that republished the baseline.
#[derive(Clone, Debug)]
pub struct RollbackReceipt {
    pub reverted_to_generation: u64,
    pub reason: String,
}

/// Executor limits that involve no parameter values.
#[derive(Clone, Copy, Debug, PartialEq, Eq, Structural)]
pub struct GateLimits {
    pub min_interval_us: u64,
    pub direction_flip_limit: u32,
    pub cooldown_after_flip_us: u64,
    pub regression_count_limit: u32,
}

/// Whether an apply at `now` respects the minimum interval after `last`.
pub open spec fn rate_permits(last: Option<u64>, min_interval_us: u64, now: u64) -> bool {
    match last {
        None => true,
        Some(t) => now >= t && now - t >= min_interval_us,
    }
}

/// Gates, config cell, audit queue and SafeMode latch of one engine.
pub struct SafetyExecutor<V> {
    config: AtomicConfig<V>,
    audit: AuditQueue,
    control: ControlSafety,
    limits: GateLimits,
    num_params: usize,
    last_apply_us: Option<u64>,
    run_id: u64,
}

impl<V: Copy> SafetyExecutor<V> {
    pub closed spec fn spec_config(&self) -> AtomicConfig<V> {
        self.config
    }

    pub closed spec fn spec_audit(&self) -> AuditQueue {
        self.audit
    }

    pub closed spec fn spec_control(&self) -> ControlSafety {
        self.control
    }

    pub closed spec fn spec_limits(&self) -> GateLimits {
        self.limits
    }

    pub closed spec fn spec_num_params(&self) -> nat {
        self.num_params as nat
    }

    pub closed spec fn spec_last_apply(&self) -> Option<u64> {
        self.last_apply_us
    }

    pub closed spec fn spec_run_id(&self) -> u64 {
        self.run_id
    }

    /// The generation readers currently see.
    pub open spec fn current_generation(&self) -> u64 {
        self.spec_config().spec_generation()
    }

    /// The parameters readers currently see.
    pub open spec fn current_params(&self) -> Seq<V> {
        self.spec_config().current_snapshot().params@
    }

    /// Whether the SafeMode latch is set.
    pub open spec fn latched(&self) -> bool {
        self.spec_control().spec_safe_mode() is Some
    }

    pub closed spec fn wf(&self) -> bool {
        &&& self.config.wf()
        &&& self.audit.wf()
        &&& self.control.spec_histories().len() == self.num_params
        &&& self.control.spec_flip_limit() == self.limits.direction_flip_limit
        &&& self.control.spec_cooldown() == self.limits.cooldown_after_flip_us
        &&& self.control.spec_regression_limit() == self.limits.regression_count_limit
        &&& self.config.current_snapshot().params@.len() == self.num_params
        &&& (self.config.baseline_snapshot() matches Some(b) ==> b.params@.len()
            == self.num_params)
    }

    /// An executor over `initial` at generation zero, no baseline, not latched.
    pub fn new(initial: Vec<V>, limits: GateLimits, audit_capacity: usize, run_id: u64) -> (r:
        Self)
        requires
            0 < audit_capacity <= usize::MAX / 2,
        ensures
            r.wf(),
            r.current_generation() == 0,
            r.current_params() == initial@,
            r.spec_config().baseline_snapshot() is None,
            !r.latched(),
            r.spec_limits() == limits,
            r.spec_num_params() == initial@.len(),
            r.spec_last_apply() is None,
            r.spec_audit().events() == Seq::<AuditEvent>::empty(),
            r.spec_audit().spec_capacity() == audit_capacity,
            r.spec_run_id() == run_id,
            r.spec_control().spec_histories() == Seq::new(
                initial@.len(),
                |i: int| fresh_history(),
            ),
            r.spec_control().spec_regressions() == 0,
    {
        let n = initial.len();
        SafetyExecutor {
            config: AtomicConfig::new(initial),
            audit: AuditQueue::new(audit_capacity),
            control: ControlSafety::new(
                n,
                limits.direction_flip_limit,
                limits.cooldown_after_flip_us,
                limits.regression_count_limit,
            ),
            limits,
            num_params: n,
            last_apply_us: None,
            run_id,
        }
    }

    /// A shared handle to the current snapshot.
    pub fn snapshot(&self) -> (r: Arc<ConfigSnapshot<V>>)
        ensures
            *r == self.spec_config().current_snapshot(),
    {
        self.config.snapshot()
    }

    /// The current generation.
    pub fn generation(&self) -> (r: u64)
        ensures
            r == self.current_generation(),
    {
        self.config.generation()
    }

    /// The number of parameters.
    pub fn num_params(&self) -> (r: usize)
        ensures
            r == self.spec_num_params(),
    {
        self.num_params
    }

    /// The active SafeMode latch, if any.
    pub fn safe_mode(&self) -> (r: Option<SafeMode>)
        ensures
            r == self.spec_control().spec_safe_mode(),
    {
        self.control.safe_mode()
    }

    /// The audit queue, for an out-of-band drainer.
    pub fn audit_queue(&self) -> (r: &AuditQueue)
        ensures
            *r == self.spec_audit(),
    {
        &self.audit
    }

    /// Offers an event to the audit queue. `Full` means the event was refused
    /// and SafeMode is now latched until an operator reset.
    pub fn record_event(&mut self, event: AuditEvent, now_us: u64) -> (r: EnqueueResult)
        requires
            old(self).wf(),
        ensures
            final(self).wf(),
            r == enqueue_outcome(old(self).spec_audit().events().len(), old(self).spec_audit().spec_capacity()),
            r != EnqueueResult::Full ==> final(self).spec_audit().events() == old(self).spec_audit().events().push(event)
                && final(self).spec_control() == old(self).spec_control(),
            r == EnqueueResult::Full ==> final(self).spec_audit().events() == old(self).spec_audit().events()
                && final(self).spec_control().spec_safe_mode() == Some(
                SafeMode {
                    entered_at_us: now_us,
                    reason: SafeModeReason::AuditQueueFull,
                    exit_condition: SafeModeExit::ManualReset,
                },
            ),
            final(self).spec_audit().spec_capacity() == old(self).spec_audit().spec_capacity(),
            final(self).spec_config() == old(self).spec_config(),
            final(self).spec_limits() == old(self).spec_limits(),
            final(self).spec_last_apply() == old(self).spec_last_apply(),
            final(self).spec_num_params() == old(self).spec_num_params(),
            final(self).spec_run_id() == old(self).spec_run_id(),
    {
        let outcome = self.audit.enqueue(event);
        if outcome == EnqueueResult::Full {
            self.control.enter_manual_safe_mode(SafeModeReason::AuditQueueFull, now_us);
        }
        outcome
    }

    /// The run id stamped on audit events.
    pub fn run_id(&self) -> (r: u64)
        ensures
            r == self.spec_run_id(),
    {
        self.run_id
    }

    /// Removes and returns every pending audit event, oldest first.
    pub fn drain_audit(&mut self) -> (r: Vec<AuditEvent>)
        requires
            old(self).wf(),
        ensures
            final(self).wf(),
            r@ == old(self).spec_audit().events(),
            final(self).spec_audit().events() == Seq::<AuditEvent>::empty(),
            final(self).spec_config() == old(self).spec_config(),
            final(self).spec_control() == old(self).spec_control(),
            final(self).spec_limits() == old(self).spec_limits(),
            final(self).spec_last_apply() == old(self).spec_last_apply(),
            final(self).spec_num_params() == old(self).spec_num_params(),
    {
        self.audit.drain()
    }

    /// Operator reset of the SafeMode latch.
    pub fn reset_safe_mode(&mut self)
        requires
            old(self).wf(),
        ensures
            final(self).wf(),
            !final(self).latched(),
            final(self).spec_config() == old(self).spec_config(),
            final(self).spec_audit() == old(self).spec_audit(),
            final(self).spec_limits() == old(self).spec_limits(),
            final(self).spec_last_apply() == old(self).spec_last_apply(),
            final(self).spec_num_params() == old(self).spec_num_params(),
    {
        self.control.reset_safe_mode();
    }

    /// Captures the current snapshot as the rollback baseline.
    pub fn set_baseline(&mut self)
        requires
            old(self).wf(),
        ensures
            final(self).wf(),
            baseline_captured(old(self).spec_config(), final(self).spec_config()),
            final(self).spec_audit() == old(self).spec_audit(),
            final(self).spec_control() == old(self).spec_control(),
            final(self).spec_limits() == old(self).spec_limits(),
            final(self).spec_last_apply() == old(self).spec_last_apply(),
            final(self).spec_num_params() == old(self).spec_num_params(),
    {
        self.config.set_baseline();
    }
}

/// Microseconds from `last` to `now`, zero when `now` is earlier.
pub open spec fn elapsed_since(last: u64, now: u64) -> u64 {
    if now >= last {
        (now - last) as u64
    } else {
        0
    }
}

impl<V: Copy> SafetyExecutor<V> {
    /// Whether the latch still holds at `now`, after its timer is consulted.
    pub open spec fn held_at(&self, now: u64) -> bool {
        self.latched() && !timer_expired(self.spec_control().spec_safe_mode().unwrap(), now)
    }

    /// The first gate that refuses a proposal, in gate order: rate, the value
    /// gates (`value_gate`, the first failure among delta size and bounds),
    /// parameter count, direction flips, delta budget.
    pub open spec fn refusal(
        &self,
        new_len: nat,
        dirs: Seq<i8>,
        value_gate: Option<Violation>,
        over_budget: bool,
        now: u64,
    ) -> Option<Violation> {
        let n = self.spec_num_params();
        let hs = self.spec_control().spec_histories();
        let limit = self.spec_limits().direction_flip_limit;
        if !rate_permits(self.spec_last_apply(), self.spec_limits().min_interval_us, now) {
            Some(
                Violation::RateLimitExceeded {
                    elapsed_us: elapsed_since(self.spec_last_apply().unwrap(), now),
                    min_interval_us: self.spec_limits().min_interval_us,
                },
            )
        } else if value_gate is Some {
            value_gate
        } else if new_len != n || dirs.len() != n {
            Some(Violation::UnknownParameter { param_id: n as usize })
        } else if first_thrashing(hs, dirs, now, limit) is Some {
            let i = first_thrashing(hs, dirs, now, limit).unwrap() as int;
            Some(
                Violation::Thrashing {
                    param_id: i as usize,
                    flips: history_after(hs[i], dirs[i], now).flip_count,
                    limit,
                },
            )
        } else if over_budget {
            Some(Violation::BudgetExhausted)
        } else {
            None
        }
    }

    /// The rate gate alone: `RateLimitExceeded` when less than the minimum
    /// interval has passed since the last apply.
    pub fn check_rate_limit(&self, now_us: u64) -> (r: Result<(), Violation>)
        ensures
            rate_permits(self.spec_last_apply(), self.spec_limits().min_interval_us, now_us) ==> r
                is Ok,
            !rate_permits(self.spec_last_apply(), self.spec_limits().min_interval_us, now_us) ==> r
                == Err::<(), Violation>(
                Violation::RateLimitExceeded {
                    elapsed_us: elapsed_since(self.spec_last_apply().unwrap(), now_us),
                    min_interval_us: self.spec_limits().min_interval_us,
                },
            ),
    {
        match self.last_apply_us {
            Some(t) => {
                if now_us >= t && now_us - t >= self.limits.min_interval_us {
                    Ok(())
                } else {
                    Err(
                        Violation::RateLimitExceeded {
                            elapsed_us: now_us.saturating_sub(t),
                            min_interval_us: self.limits.min_interval_us,
                        },
                    )
                }
            },
            None => Ok(()),
        }
    }

    /// The captured rollback baseline, if any.
    pub fn baseline(&self) -> (r: Option<Arc<ConfigSnapshot<V>>>)
        ensures
            match r {
                Some(b) => self.spec_config().baseline_snapshot() == Some(*b),
                None => self.spec_config().baseline_snapshot() is None,
            },
    {
        self.config.baseline()
    }

    /// A receipt for a proposal that changes nothing.
    pub fn no_change(&self) -> (r: ApplyReceipt)
        ensures
            r == (ApplyReceipt { new_generation: self.current_generation(), apply_latency_us: 0 }),
    {
        ApplyReceipt { new_generation: self.config.generation(), apply_latency_us: 0 }
    }

    /// Applies a proposed configuration `new_params` at `now_us`.
    ///
    /// `dirs` holds the sign of each delta component; `value_gate` is the
    /// first failure of the per-step delta or bounds gates, which the caller
    /// evaluates on the values; `over_budget` says whether the delta would
    /// exceed the cumulative budget of its window. While SafeMode holds, the
    /// proposal is accepted as a no-op. A refused proposal leaves the
    /// configuration as it was; one that passes every gate is published and
    /// audited, and if the audit queue is full the publish stands, SafeMode
    /// latches until an operator reset, and `AuditQueueFull` is returned.
    pub fn apply(
        &mut self,
        new_params: Vec<V>,
        dirs: &[i8],
        value_gate: Option<Violation>,
        over_budget: bool,
        proposal_id: u64,
        now_us: u64,
    ) -> (r: Result<ApplyReceipt, Violation>)
        requires
            old(self).wf(),
            old(self).current_generation() < u64::MAX,
        ensures
            final(self).wf(),
            final(self).spec_limits() == old(self).spec_limits(),
            final(self).spec_num_params() == old(self).spec_num_params(),
            final(self).spec_run_id() == old(self).spec_run_id(),
            final(self).spec_audit().spec_capacity() == old(self).spec_audit().spec_capacity(),
            // The regression counter is not touched by an apply.
            final(self).spec_control().spec_regressions() == old(self).spec_control().spec_regressions(),
            // Only a published proposal moves the direction histories.
            (old(self).held_at(now_us) || old(self).refusal(
                new_params@.len(),
                dirs@,
                value_gate,
                over_budget,
                now_us,
            ) is Some) ==> final(self).spec_control().spec_histories() == old(
                self).spec_control().spec_histories(),
            // A refusal other than a flip or budget one leaves the latch clear.
            !old(self).held_at(now_us) && old(self).refusal(
                new_params@.len(),
                dirs@,
                value_gate,
                over_budget,
                now_us,
            ) is Some && !(value_gate is None && ((r matches Err(Violation::Thrashing { .. })) || r
                == Err::<ApplyReceipt, Violation>(Violation::BudgetExhausted))) ==> !final(
                self).latched(),
            // SafeMode: a no-op that leaves the configuration alone.
            old(self).held_at(now_us) ==> r == Ok::<ApplyReceipt, Violation>(
                ApplyReceipt { new_generation: old(self).current_generation(), apply_latency_us: 0 },
            ) && final(self).spec_config() == old(self).spec_config() && final(self).spec_audit() == old(self).spec_audit() && final(self).spec_last_apply() == old(self).spec_last_apply() && final(self).spec_control().spec_safe_mode() == old(
                self).spec_control().spec_safe_mode(),
            // A refused proposal leaves the configuration alone.
            !old(self).held_at(now_us) && old(self).refusal(
                new_params@.len(),
                dirs@,
                value_gate,
                over_budget,
                now_us,
            ) is Some ==> r == Err::<ApplyReceipt, Violation>(
                old(self).refusal(new_params@.len(), dirs@, value_gate, over_budget, now_us).unwrap(),
            ) && final(self).spec_config() == old(self).spec_config() && final(self).spec_audit() == old(self).spec_audit() && final(self).spec_last_apply() == old(self).spec_last_apply(),
            // Flip and budget refusals latch SafeMode on a timer.
            !old(self).held_at(now_us) && value_gate is None && (r matches Err(Violation::Thrashing { .. })) ==> final(self).spec_control().spec_safe_mode() == Some(
                SafeMode {
                    entered_at_us: now_us,
                    reason: SafeModeReason::Thrashing,
                    exit_condition: SafeModeExit::Timer {
                        remaining_us: old(self).spec_limits().cooldown_after_flip_us,
                    },
                },
            ),
            !old(self).held_at(now_us) && value_gate is None && old(self).refusal(
                new_params@.len(),
                dirs@,
                value_gate,
                over_budget,
                now_us,
            ) == Some(Violation::BudgetExhausted) ==> final(self).spec_control().spec_safe_mode()
                == Some(
                SafeMode {
                    entered_at_us: now_us,
                    reason: SafeModeReason::BudgetExhausted,
                    exit_condition: SafeModeExit::Timer {
                        remaining_us: old(self).spec_limits().cooldown_after_flip_us,
                    },
                },
            ),
            // Passing every gate publishes the proposal as the next generation.
            !old(self).held_at(now_us) && old(self).refusal(
                new_params@.len(),
                dirs@,
                value_gate,
                over_budget,
                now_us,
            ) is None ==> published(old(self).spec_config(), final(self).spec_config(), new_params@)
                && final(self).spec_last_apply() == Some(now_us) && final(self).spec_control().spec_histories() == Seq::new(
                dirs@.len(),
                |i: int| history_after(old(self).spec_control().spec_histories()[i], dirs@[i], now_us),
            ) && (enqueue_outcome(
                old(self).spec_audit().events().len(),
                old(self).spec_audit().spec_capacity(),
            ) == EnqueueResult::Full ==> r == Err::<ApplyReceipt, Violation>(
                Violation::AuditQueueFull,
            ) && final(self).spec_audit().events() == old(self).spec_audit().events() && final(self).spec_control().spec_safe_mode() == Some(
                SafeMode {
                    entered_at_us: now_us,
                    reason: SafeModeReason::AuditQueueFull,
                    exit_condition: SafeModeExit::ManualReset,
                },
            )) && (enqueue_outcome(
                old(self).spec_audit().events().len(),
                old(self).spec_audit().spec_capacity(),
            ) != EnqueueResult::Full ==> r == Ok::<ApplyReceipt, Violation>(
                ApplyReceipt {
                    new_generation: (old(self).current_generation() + 1) as u64,
                    apply_latency_us: 0,
                },
            ) && !final(self).latched() && final(self).spec_audit().events().len() == old(self).spec_audit().events().len()
                + 1 && final(self).spec_audit().events().last().event_type == EventType::Apply
                && final(self).spec_audit().events().last().config_version == old(self).current_generation() + 1 && final(self).spec_audit().events().last().proposal_id
                == Some(proposal_id) && final(self).spec_audit().events().last().timestamp_us
                == now_us && final(self).spec_audit().events().last().run_id == old(self).spec_run_id() && final(self).spec_audit().events().drop_last() == old(self).spec_audit().events()),
            // Rate safety: the configuration changes only at least the minimum
            // interval after the previous change.
            final(self).current_generation() != old(self).current_generation() ==> rate_permits(
                old(self).spec_last_apply(),
                old(self).spec_limits().min_interval_us,
                now_us,
            ) && final(self).spec_last_apply() == Some(now_us),
    {
        let ghost pre = *old(self);
        self.control.try_exit_safe_mode(now_us);
        if self.control.is_safe_mode() {
            return Ok(ApplyReceipt { new_generation: self.config.generation(), apply_latency_us: 0 });
        }
        let min_interval = self.limits.min_interval_us;
        match self.last_apply_us {
            Some(t) => {
                if !(now_us >= t && now_us - t >= min_interval) {
                    return Err(
                        Violation::RateLimitExceeded {
                            elapsed_us: now_us.saturating_sub(t),
                            min_interval_us: min_interval,
                        },
                    );
                }
            },
            None => {},
        }
        match value_gate {
            Some(v) => {
                return Err(v);
            },
            None => {},
        }
        if new_params.len() != self.num_params || dirs.len() != self.num_params {
            return Err(Violation::UnknownParameter { param_id: self.num_params });
        }
        match self.control.thrashing_param(dirs, now_us) {
            Some((i, flips)) => {
                let cooldown = self.limits.cooldown_after_flip_us;
                self.control.enter_safe_mode(SafeModeReason::Thrashing, now_us, cooldown);
                return Err(
                    Violation::Thrashing {
                        param_id: i,
                        flips,
                        limit: self.limits.direction_flip_limit,
                    },
                );
            },
            None => {},
        }
        if over_budget {
            let cooldown = self.limits.cooldown_after_flip_us;
            self.control.enter_safe_mode(SafeModeReason::BudgetExhausted, now_us, cooldown);
            return Err(Violation::BudgetExhausted);
        }
        let new_gen = self.config.swap(new_params);
        self.control.record_directions(dirs, now_us);
        self.last_apply_us = Some(now_us);
        let event = AuditEvent::new(EventType::Apply, now_us, self.run_id, new_gen).with_proposal_id(
            proposal_id,
        );
        let outcome = self.audit.enqueue(event);
        if outcome == EnqueueResult::Full {
            self.control.enter_manual_safe_mode(SafeModeReason::AuditQueueFull, now_us);
            return Err(Violation::AuditQueueFull);
        }
        Ok(ApplyReceipt { new_generation: new_gen, apply_latency_us: 0 })
    }
}

impl<V: Copy> SafetyExecutor<V> {
    /// Republishes the baseline's parameters as the next generation and
    /// audits it; `NoBaseline` when none was captured. If the audit queue is
    /// full the rollback stands, SafeMode latches until an operator reset, and
    /// `AuditQueueFull` is returned.
    pub fn rollback(&mut self, now_us: u64) -> (r: Result<RollbackReceipt, Violation>)
        requires
            old(self).wf(),
            old(self).current_generation() < u64::MAX,
        ensures
            final(self).wf(),
            final(self).spec_limits() == old(self).spec_limits(),
            final(self).spec_num_params() == old(self).spec_num_params(),
            final(self).spec_run_id() == old(self).spec_run_id(),
            final(self).spec_last_apply() == old(self).spec_last_apply(),
            final(self).spec_audit().spec_capacity() == old(self).spec_audit().spec_capacity(),
            old(self).spec_config().baseline_snapshot() is None ==> r == Err::<
                RollbackReceipt,
                Violation,
            >(Violation::NoBaseline) && final(self).spec_config() == old(self).spec_config()
                && final(self).spec_audit() == old(self).spec_audit() && final(self).spec_control()
                == old(self).spec_control(),
            old(self).spec_config().baseline_snapshot() is Some ==> rolled_back(
                old(self).spec_config(),
                final(self).spec_config(),
            ),
            old(self).spec_config().baseline_snapshot() is Some && enqueue_outcome(
                old(self).spec_audit().events().len(),
                old(self).spec_audit().spec_capacity(),
            ) != EnqueueResult::Full ==> r is Ok && r.unwrap().reverted_to_generation == old(
                self).current_generation() + 1,
            old(self).spec_config().baseline_snapshot() is Some && enqueue_outcome(
                old(self).spec_audit().events().len(),
                old(self).spec_audit().spec_capacity(),
            ) != EnqueueResult::Full ==> final(self).spec_audit().events().drop_last() == old(
                self).spec_audit().events() && final(self).spec_audit().events().len() == old(
                self).spec_audit().events().len() + 1 && final(self).spec_audit().events().last().event_type
                == EventType::Rollback && final(self).spec_control() == old(self).spec_control(),
            old(self).spec_config().baseline_snapshot() is Some && enqueue_outcome(
                old(self).spec_audit().events().len(),
                old(self).spec_audit().spec_capacity(),
            ) == EnqueueResult::Full ==> r == Err::<RollbackReceipt, Violation>(
                Violation::AuditQueueFull,
            ) && final(self).spec_audit().events() == old(self).spec_audit().events()
                && final(self).spec_control().spec_safe_mode() == Some(
                SafeMode {
                    entered_at_us: now_us,
                    reason: SafeModeReason::AuditQueueFull,
                    exit_condition: SafeModeExit::ManualReset,
                },
            ) && final(self).spec_control().spec_histories() == old(self).spec_control().spec_histories()
                && final(self).spec_control().spec_regressions() == old(self).spec_control().spec_regressions(),
    {
        match self.config.rollback() {
            None => Err(Violation::NoBaseline),
            Some(new_gen) => {
                let event = AuditEvent::new(EventType::Rollback, now_us, self.run_id, new_gen);
                let outcome = self.audit.enqueue(event);
                if outcome == EnqueueResult::Full {
                    self.control.enter_manual_safe_mode(SafeModeReason::AuditQueueFull, now_us);
                    return Err(Violation::AuditQueueFull);
                }
                Ok(RollbackReceipt { reverted_to_generation: new_gen, reason: "baseline".to_owned() })
            },
        }
    }

    /// Records whether the latest objective regressed against the previous
    /// one; latches SafeMode once the run of regressions reaches the limit.
    pub fn record_regression(&mut self, regressed: bool, now_us: u64) -> (r: bool)
        requires
            old(self).wf(),
        ensures
            final(self).wf(),
            r == (regressed && regressions_after(old(self).spec_control().spec_regressions(), regressed)
                >= old(self).spec_limits().regression_count_limit),
            r ==> final(self).spec_control().spec_safe_mode() == Some(
                SafeMode {
                    entered_at_us: now_us,
                    reason: SafeModeReason::ObjectiveRegression,
                    exit_condition: SafeModeExit::Timer {
                        remaining_us: old(self).spec_limits().cooldown_after_flip_us,
                    },
                },
            ),
            !r ==> final(self).spec_control().spec_safe_mode() == old(self).spec_control().spec_safe_mode(),
            final(self).spec_config() == old(self).spec_config(),
            final(self).spec_audit() == old(self).spec_audit(),
            final(self).spec_limits() == old(self).spec_limits(),
            final(self).spec_last_apply() == old(self).spec_last_apply(),
            final(self).spec_num_params() == old(self).spec_num_params(),
            final(self).spec_run_id() == old(self).spec_run_id(),
    {
        self.control.record_regression(regressed, now_us)
    }
}

} // verus!
