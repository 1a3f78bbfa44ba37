//! Control safety: direction-flip and regression tracking, and the SafeMode
//! latch that turns proposals into no-ops until it clears.
use vstd::prelude::*;

verus! {

/// Length of the rolling flip window, in microseconds.
pub const WINDOW_US: u64 = 60_000_000;

/// Why SafeMode was entered.
#[derive(Clone, Copy, Debug, PartialEq, Eq, Structural)]
pub enum SafeModeReason {
    Thrashing,
    BudgetExhausted,
    ObjectiveRegression,
    AuditQueueFull,
    RepeatedViolations,
    ManualTrigger,
}

/// How SafeMode is left.
#[derive(Clone, Copy, Debug, PartialEq, Eq, Structural)]
pub enum SafeModeExit {
    /// Clears once this long has passed since entry.
    Timer { remaining_us: u64 },
    /// Clears only on an operator reset.
    ManualReset,
}

/// An active SafeMode latch.
#[derive(Clone, Copy, Debug, PartialEq, Eq, Structural)]
pub struct SafeMode {
    pub entered_at_us: u64,
    pub reason: SafeModeReason,
    pub exit_condition: SafeModeExit,
}

/// Sign history of one parameter's accepted deltas.
#[derive(Clone, Copy, Debug, PartialEq, Eq, Structural)]
pub struct DirectionHistory {
    pub last_direction: Option<i8>,
    pub flip_count: u32,
    pub window_start_us: u64,
}

/// Whether the window that started at `start` is stale at `now`.
pub open spec fn window_stale(start: u64, now: u64) -> bool {
    now > start && now - start > WINDOW_US
}

/// Whether accepting a delta of sign `d` reverses the last nonzero sign.
pub open spec fn is_flip(h: DirectionHistory, d: i8) -> bool {
    d != 0 && match h.last_direction {
        Some(l) => l != 0 && l != d,
        None => false,
    }
}

/// `n + 1`, held at `u32::MAX`.
pub open spec fn sat_inc(n: u32) -> u32 {
    if n == u32::MAX {
        n
    } else {
        (n + 1) as u32
    }
}

/// The history after accepting a delta of sign `d` at `now`.
pub open spec fn history_after(h: DirectionHistory, d: i8, now: u64) -> DirectionHistory {
    let base = if window_stale(h.window_start_us, now) {
        DirectionHistory { last_direction: h.last_direction, flip_count: 0, window_start_us: now }
    } else {
        h
    };
    if d == 0 {
        base
    } else {
        DirectionHistory {
            last_direction: Some(d),
            flip_count: if is_flip(base, d) {
                sat_inc(base.flip_count)
            } else {
                base.flip_count
            },
            window_start_us: base.window_start_us,
        }
    }
}

/// The history of a parameter that has seen no delta yet.
pub open spec fn fresh_history() -> DirectionHistory {
    DirectionHistory { last_direction: None, flip_count: 0, window_start_us: 0 }
}

/// Whether SafeMode, entered as `m`, has cleared by `now`.
pub open spec fn timer_expired(m: SafeMode, now: u64) -> bool {
    match m.exit_condition {
        SafeModeExit::Timer { remaining_us } => (if now >= m.entered_at_us {
            now - m.entered_at_us
        } else {
            0
        }) >= remaining_us,
        SafeModeExit::ManualReset => false,
    }
}

fn history_step(h: DirectionHistory, d: i8, now: u64) -> (r: DirectionHistory)
    ensures
        r == history_after(h, d, now),
{
    let mut base = h;
    if now > h.window_start_us && now - h.window_start_us > WINDOW_US {
        base = DirectionHistory {
            last_direction: h.last_direction,
            flip_count: 0,
            window_start_us: now,
        };
    }
    if d == 0 {
        base
    } else {
        let flipped = match base.last_direction {
            Some(l) => l != 0 && l != d,
            None => false,
        };
        DirectionHistory {
            last_direction: Some(d),
            flip_count: if flipped {
                base.flip_count.saturating_add(1)
            } else {
                base.flip_count
            },
            window_start_us: base.window_start_us,
        }
    }
}

/// Per-parameter tracking and the SafeMode latch.
#[derive(Clone, Debug)]
pub struct ControlSafety {
    direction_flip_limit: u32,
    cooldown_after_flip_us: u64,
    regression_count_limit: u32,
    histories: Vec<DirectionHistory>,
    consecutive_regressions: u32,
    safe_mode: Option<SafeMode>,
}

impl ControlSafety {
    pub closed spec fn spec_safe_mode(&self) -> Option<SafeMode> {
        self.safe_mode
    }

    pub closed spec fn spec_histories(&self) -> Seq<DirectionHistory> {
        self.histories@
    }

    pub closed spec fn spec_flip_limit(&self) -> u32 {
        self.direction_flip_limit
    }

    pub closed spec fn spec_cooldown(&self) -> u64 {
        self.cooldown_after_flip_us
    }

    pub closed spec fn spec_regression_limit(&self) -> u32 {
        self.regression_count_limit
    }

    pub closed spec fn spec_regressions(&self) -> u32 {
        self.consecutive_regressions
    }

    /// Same limits and same number of tracked parameters.
    pub open spec fn same_setup(&self, other: &Self) -> bool {
        &&& self.spec_flip_limit() == other.spec_flip_limit()
        &&& self.spec_cooldown() == other.spec_cooldown()
        &&& self.spec_regression_limit() == other.spec_regression_limit()
        &&& self.spec_histories().len() == other.spec_histories().len()
    }

    /// Tracking for `num_params` parameters, not in SafeMode.
    pub fn new(
        num_params: usize,
        direction_flip_limit: u32,
        cooldown_after_flip_us: u64,
        regression_count_limit: u32,
    ) -> (r: Self)
        ensures
            r.spec_safe_mode() is None,
            r.spec_histories() == Seq::new(num_params as nat, |i: int| fresh_history()),
            r.spec_flip_limit() == direction_flip_limit,
            r.spec_cooldown() == cooldown_after_flip_us,
            r.spec_regression_limit() == regression_count_limit,
            r.spec_regressions() == 0,
    {
        let mut histories: Vec<DirectionHistory> = Vec::new();
        let mut i: usize = 0;
        while i < num_params
            invariant
                i <= num_params,
                histories@ == Seq::new(i as nat, |k: int| fresh_history()),
            decreases num_params - i,
        {
            histories.push(DirectionHistory { last_direction: None, flip_count: 0, window_start_us: 0 });
            i = i + 1;
            assert(histories@ =~= Seq::new(i as nat, |k: int| fresh_history()));
        }
        ControlSafety {
            direction_flip_limit,
            cooldown_after_flip_us,
            regression_count_limit,
            histories,
            consecutive_regressions: 0,
            safe_mode: None,
        }
    }

    /// Whether the latch is set.
    pub fn is_safe_mode(&self) -> (r: bool)
        ensures
            r == self.spec_safe_mode() is Some,
    {
        self.safe_mode.is_some()
    }

    /// The active latch, if any.
    pub fn safe_mode(&self) -> (r: Option<SafeMode>)
        ensures
            r == self.spec_safe_mode(),
    {
        self.safe_mode
    }

    /// Sets the latch with a timer exit of `cooldown_us`, replacing any
    /// earlier one.
    pub fn enter_safe_mode(&mut self, reason: SafeModeReason, now_us: u64, cooldown_us: u64)
        ensures
            final(self).spec_safe_mode() == Some(
                SafeMode {
                    entered_at_us: now_us,
                    reason,
                    exit_condition: SafeModeExit::Timer { remaining_us: cooldown_us },
                },
            ),
            final(self).same_setup(old(self)),
            final(self).spec_histories() == old(self).spec_histories(),
            final(self).spec_regressions() == old(self).spec_regressions(),
    {
        self.safe_mode = Some(
            SafeMode {
                entered_at_us: now_us,
                reason,
                exit_condition: SafeModeExit::Timer { remaining_us: cooldown_us },
            },
        );
    }

    /// Sets the latch with a manual-reset exit, replacing any earlier one.
    pub fn enter_manual_safe_mode(&mut self, reason: SafeModeReason, now_us: u64)
        ensures
            final(self).spec_safe_mode() == Some(
                SafeMode { entered_at_us: now_us, reason, exit_condition: SafeModeExit::ManualReset },
            ),
            final(self).same_setup(old(self)),
            final(self).spec_histories() == old(self).spec_histories(),
            final(self).spec_regressions() == old(self).spec_regressions(),
    {
        self.safe_mode = Some(
            SafeMode { entered_at_us: now_us, reason, exit_condition: SafeModeExit::ManualReset },
        );
    }

    /// Clears a timer latch whose time has run out; true iff it cleared.
    pub fn try_exit_safe_mode(&mut self, now_us: u64) -> (r: bool)
        ensures
            r == (old(self).spec_safe_mode() is Some && timer_expired(
                old(self).spec_safe_mode().unwrap(),
                now_us,
            )),
            r ==> final(self).spec_safe_mode() is None,
            !r ==> final(self).spec_safe_mode() == old(self).spec_safe_mode(),
            final(self).same_setup(old(self)),
            final(self).spec_histories() == old(self).spec_histories(),
            final(self).spec_regressions() == old(self).spec_regressions(),
    {
        match self.safe_mode {
            Some(mode) => {
                match mode.exit_condition {
                    SafeModeExit::Timer { remaining_us } => {
                        let elapsed = now_us.saturating_sub(mode.entered_at_us);
                        if elapsed >= remaining_us {
                            self.safe_mode = None;
                            true
                        } else {
                            false
                        }
                    },
                    SafeModeExit::ManualReset => false,
                }
            },
            None => false,
        }
    }

    /// Operator reset: clears the latch.
    pub fn reset_safe_mode(&mut self)
        ensures
            final(self).spec_safe_mode() is None,
            final(self).same_setup(old(self)),
            final(self).spec_histories() == old(self).spec_histories(),
            final(self).spec_regressions() == old(self).spec_regressions(),
    {
        self.safe_mode = None;
    }
}

/// The first parameter whose flip count, after accepting `dirs` at `now`,
/// would exceed `limit`.
pub open spec fn first_thrashing(hs: Seq<DirectionHistory>, dirs: Seq<i8>, now: u64, limit: u32) -> Option<nat>
    recommends
        hs.len() == dirs.len(),
{
    if exists|i: int| 0 <= i < hs.len() && #[trigger] history_after(hs[i], dirs[i], now).flip_count > limit {
        let i = choose|i: int| 0 <= i < hs.len() && history_after(hs[i], dirs[i], now).flip_count > limit
            && forall|j: int| 0 <= j < i ==> !(#[trigger] history_after(hs[j], dirs[j], now).flip_count > limit);
        Some(i as nat)
    } else {
        None
    }
}

/// Consecutive regression count after one more record.
pub open spec fn regressions_after(count: u32, regressed: bool) -> u32 {
    if regressed {
        sat_inc(count)
    } else {
        0
    }
}

impl ControlSafety {
    /// The first parameter that accepting `dirs` at `now` would push past the
    /// flip limit, with its would-be flip count.
    pub fn thrashing_param(&self, dirs: &[i8], now_us: u64) -> (r: Option<(usize, u32)>)
        requires
            dirs@.len() == self.spec_histories().len(),
        ensures
            match first_thrashing(self.spec_histories(), dirs@, now_us, self.spec_flip_limit()) {
                Some(i) => r == Some((i as usize, history_after(self.spec_histories()[i as int], dirs@[i as int], now_us).flip_count)),
                None => r is None,
            },
    {
        let mut i: usize = 0;
        while i < dirs.len()
            invariant
                i <= dirs@.len(),
                dirs@.len() == self.histories@.len(),
                forall|j: int| 0 <= j < i ==> !(#[trigger] history_after(self.histories@[j], dirs@[j], now_us).flip_count > self.direction_flip_limit),
            decreases dirs@.len() - i,
        {
            let h = history_step(self.histories[i], dirs[i], now_us);
            if h.flip_count > self.direction_flip_limit {
                proof {
                    let hs = self.histories@;
                    let c = choose|c: int| 0 <= c < hs.len() && history_after(hs[c], dirs@[c], now_us).flip_count > self.direction_flip_limit
                        && forall|j: int| 0 <= j < c ==> !(#[trigger] history_after(hs[j], dirs@[j], now_us).flip_count > self.direction_flip_limit);
                    assert(c == i as int) by {
                        if c > i as int {
                            assert(!(history_after(hs[i as int], dirs@[i as int], now_us).flip_count > self.direction_flip_limit));
                        }
                    }
                }
                return Some((i, h.flip_count));
            }
            i = i + 1;
        }
        None
    }

    /// Records the signs of an accepted delta at `now`.
    pub fn record_directions(&mut self, dirs: &[i8], now_us: u64)
        requires
            dirs@.len() == old(self).spec_histories().len(),
        ensures
            final(self).spec_histories() == Seq::new(dirs@.len(), |i: int| history_after(old(self).spec_histories()[i], dirs@[i], now_us)),
            final(self).same_setup(old(self)),
            final(self).spec_safe_mode() == old(self).spec_safe_mode(),
            final(self).spec_regressions() == old(self).spec_regressions(),
    {
        let mut i: usize = 0;
        while i < dirs.len()
            invariant
                i <= dirs@.len(),
                dirs@.len() == old(self).histories@.len(),
                self.histories@.len() == dirs@.len(),
                self.direction_flip_limit == old(self).direction_flip_limit,
                self.cooldown_after_flip_us == old(self).cooldown_after_flip_us,
                self.regression_count_limit == old(self).regression_count_limit,
                self.safe_mode == old(self).safe_mode,
                self.consecutive_regressions == old(self).consecutive_regressions,
                forall|j: int| 0 <= j < i ==> self.histories@[j] == history_after(old(self).histories@[j], dirs@[j], now_us),
                forall|j: int| i <= j < dirs@.len() ==> self.histories@[j] == old(self).histories@[j],
            decreases dirs@.len() - i,
        {
            let h = history_step(self.histories[i], dirs[i], now_us);
            self.histories.set(i, h);
            i = i + 1;
        }
        assert(self.histories@ =~= Seq::new(dirs@.len(), |i: int| history_after(old(self).histories@[i], dirs@[i], now_us)));
    }

    /// Records whether the objective regressed; latches
    /// `SafeMode(ObjectiveRegression)` once the run of regressions reaches the
    /// limit. Returns whether it latched.
    pub fn record_regression(&mut self, regressed: bool, now_us: u64) -> (r: bool)
        ensures
            final(self).spec_regressions() == regressions_after(old(self).spec_regressions(), regressed),
            r == (regressed && regressions_after(old(self).spec_regressions(), regressed) >= old(self).spec_regression_limit()),
            r ==> final(self).spec_safe_mode() == Some(
                SafeMode {
                    entered_at_us: now_us,
                    reason: SafeModeReason::ObjectiveRegression,
                    exit_condition: SafeModeExit::Timer { remaining_us: old(self).spec_cooldown() },
                },
            ),
            !r ==> final(self).spec_safe_mode() == old(self).spec_safe_mode(),
            final(self).same_setup(old(self)),
            final(self).spec_histories() == old(self).spec_histories(),
    {
        if regressed {
            self.consecutive_regressions = self.consecutive_regressions.saturating_add(1);
            if self.consecutive_regressions >= self.regression_count_limit {
                let cooldown = self.cooldown_after_flip_us;
                self.enter_safe_mode(SafeModeReason::ObjectiveRegression, now_us, cooldown);
                return true;
            }
        } else {
            self.consecutive_regressions = 0;
        }
        false
    }
}

} // verus!
