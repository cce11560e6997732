//! The filter strategies: the policy that decides, for a call or a timer
//! expiry, whether something runs now, runs later, or is discarded.
//!
//! A strategy never sees arguments. It is told whether a call is recorded and
//! not yet run, and answers with a decision and a command for the host's timer.

use vstd::prelude::*;
use crate::timer::{Timer, TimerCommand, due, remaining, cancel_command};

verus! {

/// Which edges of a burst a throttled function runs on.
#[derive(Clone, Copy, Debug, PartialEq, Eq, Structural)]
pub struct ThrottleOptions {
    /// Run the first call of a burst at once.
    pub leading: bool,
    /// Run the last call of a burst when the window closes.
    pub trailing: bool,
}

impl Default for ThrottleOptions {
    /// Both edges.
    fn default() -> (options: ThrottleOptions)
        ensures
            options == (ThrottleOptions { leading: true, trailing: true }),
    {
        ThrottleOptions { leading: true, trailing: true }
    }
}

impl ThrottleOptions {
    /// These options with the leading edge set as given.
    pub fn leading(self, leading: bool) -> (options: ThrottleOptions)
        ensures
            options == (ThrottleOptions { leading, trailing: self.trailing }),
    {
        ThrottleOptions { leading, trailing: self.trailing }
    }

    /// These options with the trailing edge set as given.
    pub fn trailing(self, trailing: bool) -> (options: ThrottleOptions)
        ensures
            options == (ThrottleOptions { leading: self.leading, trailing }),
    {
        ThrottleOptions { leading: self.leading, trailing }
    }
}

/// The two disciplines.
#[derive(Clone, Copy, Debug, PartialEq, Eq, Structural)]
pub enum FilterKind {
    /// At most one run per window; the window is anchored at the first call of a burst.
    Throttle(ThrottleOptions),
    /// One run, once no call has arrived for a whole window.
    Debounce,
}

/// What becomes of the arguments of a call.
#[derive(Clone, Copy, Debug, PartialEq, Eq, Structural)]
pub enum CallVerdict {
    /// They run before the call returns.
    RunNow,
    /// They are recorded, and run at an expiry unless a later call replaces them.
    RunLater,
    /// They are recorded, but the strategy has no trailing edge: no expiry runs them.
    Discard,
}

/// The decision on a call.
#[derive(Clone, Copy, Debug, PartialEq, Eq, Structural)]
pub struct CallDecision {
    /// The armed deadline had been reached with a call recorded: that call
    /// runs first, as if the expiry had been delivered before this call.
    pub flush: bool,
    /// What becomes of this call's arguments.
    pub verdict: CallVerdict,
    pub timer: TimerCommand,
}

/// What an expiry notification amounts to.
#[derive(Clone, Copy, Debug, PartialEq, Eq, Structural)]
pub enum ExpiryVerdict {
    /// No expiry: nothing is armed, or the deadline lies ahead.
    Ignore,
    /// The recorded call runs.
    Run,
    /// The window closes with nothing to run; a recorded call is discarded.
    Discard,
}

/// The decision on an expiry notification.
#[derive(Clone, Copy, Debug, PartialEq, Eq, Structural)]
pub struct ExpiryDecision {
    pub verdict: ExpiryVerdict,
    pub timer: TimerCommand,
}

/// A strategy as a mathematical value: its view.
pub struct StrategyModel {
    pub kind: FilterKind,
    /// The window as configured; zero and below mean no limiting.
    pub window_ms: int,
    /// The armed deadline, if a timer is pending.
    pub deadline: Option<int>,
    /// When the wrapped function last ran.
    pub last_exec_at: Option<int>,
}

/// The verdict on a call that does not run at once.
pub open spec fn deferred(options: ThrottleOptions) -> CallVerdict {
    if options.trailing {
        CallVerdict::RunLater
    } else {
        CallVerdict::Discard
    }
}

/// The strategy's answer to a call at `now`, and the strategy afterwards.
///
/// - A window of zero or less bypasses the timer: the call runs, and any
///   pending timer is cancelled.
/// - A deadline reached at `now` counts as expired before the call: under
///   debounce, and under throttle with a trailing edge, a recorded call is flushed.
/// - Debounce restarts the window at `now`.
/// - Throttle leaves a window that is still open untouched; otherwise the call
///   opens a window at `now`, and runs at once if there is a leading edge.
pub open spec fn decide_call(s: StrategyModel, now: int, has_pending: bool) -> (
    StrategyModel,
    CallDecision,
) {
    if s.window_ms <= 0 {
        (
            StrategyModel { deadline: None, last_exec_at: Some(now), ..s },
            CallDecision {
                flush: false,
                verdict: CallVerdict::RunNow,
                timer: cancel_command(s.deadline),
            },
        )
    } else {
        let reopened = StrategyModel { deadline: Some(now + s.window_ms), ..s };
        let arm = TimerCommand::Arm(s.window_ms as u64);
        match s.kind {
            FilterKind::Debounce => {
                let flush = due(s.deadline, now) && has_pending;
                (
                    StrategyModel {
                        last_exec_at: if flush {
                            Some(now)
                        } else {
                            s.last_exec_at
                        },
                        ..reopened
                    },
                    CallDecision { flush, verdict: CallVerdict::RunLater, timer: arm },
                )
            },
            FilterKind::Throttle(options) => {
                if s.deadline is Some && !due(s.deadline, now) {
                    (
                        s,
                        CallDecision {
                            flush: false,
                            verdict: deferred(options),
                            timer: TimerCommand::Keep,
                        },
                    )
                } else if due(s.deadline, now) && options.trailing && has_pending {
                    (
                        StrategyModel { last_exec_at: Some(now), ..reopened },
                        CallDecision { flush: true, verdict: deferred(options), timer: arm },
                    )
                } else if options.leading {
                    (
                        StrategyModel { last_exec_at: Some(now), ..reopened },
                        CallDecision { flush: false, verdict: CallVerdict::RunNow, timer: arm },
                    )
                } else {
                    (
                        reopened,
                        CallDecision { flush: false, verdict: deferred(options), timer: arm },
                    )
                }
            },
        }
    }
}

/// The strategy's answer to an expiry notification at `now`, and the strategy
/// afterwards.
///
/// - With nothing armed the notification is stale and changes nothing.
/// - Before the deadline it is early: the deadline stands, and the host is
///   told to wait out the rest.
/// - At or after the deadline the window closes. Debounce runs the recorded
///   call. Throttle runs it if there is a trailing edge, and opens the next
///   window at `now` for as long as the window now configured.
pub open spec fn decide_expiry(s: StrategyModel, now: int, has_pending: bool) -> (
    StrategyModel,
    ExpiryDecision,
) {
    if s.deadline is None {
        (s, ExpiryDecision { verdict: ExpiryVerdict::Ignore, timer: TimerCommand::Keep })
    } else if !due(s.deadline, now) {
        (
            s,
            ExpiryDecision {
                verdict: ExpiryVerdict::Ignore,
                timer: TimerCommand::Arm(remaining(s.deadline, now) as u64),
            },
        )
    } else {
        let closed = StrategyModel { deadline: None, ..s };
        let ran = StrategyModel { last_exec_at: Some(now), ..closed };
        let run_trailing = match s.kind {
            FilterKind::Debounce => true,
            FilterKind::Throttle(options) => options.trailing,
        };
        if !(has_pending && run_trailing) {
            (closed, ExpiryDecision { verdict: ExpiryVerdict::Discard, timer: TimerCommand::Keep })
        } else if s.kind is Throttle && s.window_ms > 0 {
            (
                StrategyModel { deadline: Some(now + s.window_ms), ..ran },
                ExpiryDecision {
                    verdict: ExpiryVerdict::Run,
                    timer: TimerCommand::Arm(s.window_ms as u64),
                },
            )
        } else {
            (ran, ExpiryDecision { verdict: ExpiryVerdict::Run, timer: TimerCommand::Keep })
        }
    }
}

/// The strategy after disposal: nothing armed, no timing mark left.
pub open spec fn disposed(s: StrategyModel) -> StrategyModel {
    StrategyModel { deadline: None, last_exec_at: None, ..s }
}

/// A filter strategy with its window and its timing marks.
#[derive(Clone, Copy, Debug)]
pub struct FilterStrategy {
    kind: FilterKind,
    window_ms: i64,
    timer: Timer,
    last_exec_at: Option<u64>,
}

impl View for FilterStrategy {
    type V = StrategyModel;

    closed spec fn view(&self) -> StrategyModel {
        StrategyModel {
            kind: self.kind,
            window_ms: self.window_ms as int,
            deadline: self.timer@,
            last_exec_at: match self.last_exec_at {
                Some(at) => Some(at as int),
                None => None,
            },
        }
    }
}

/// The model of a strategy that has seen nothing yet.
pub open spec fn fresh(kind: FilterKind, window_ms: int) -> StrategyModel {
    StrategyModel { kind, window_ms, deadline: None, last_exec_at: None }
}

/// A throttle strategy with the given window, in milliseconds.
pub fn throttle_filter(ms: i64, options: ThrottleOptions) -> (strategy: FilterStrategy)
    ensures
        strategy@ == fresh(FilterKind::Throttle(options), ms as int),
{
    FilterStrategy {
        kind: FilterKind::Throttle(options),
        window_ms: ms,
        timer: Timer::new(),
        last_exec_at: None,
    }
}

/// A debounce strategy with the given window, in milliseconds.
pub fn debounce_filter(ms: i64) -> (strategy: FilterStrategy)
    ensures
        strategy@ == fresh(FilterKind::Debounce, ms as int),
{
    FilterStrategy {
        kind: FilterKind::Debounce,
        window_ms: ms,
        timer: Timer::new(),
        last_exec_at: None,
    }
}

impl FilterStrategy {
    /// The discipline.
    pub fn kind(&self) -> (kind: FilterKind)
        ensures
            kind == self@.kind,
    {
        self.kind
    }

    /// The window as configured, in milliseconds.
    pub fn window_ms(&self) -> (ms: i64)
        ensures
            ms == self@.window_ms,
    {
        self.window_ms
    }

    /// Whether a timer is pending.
    pub fn has_pending_timer(&self) -> (armed: bool)
        ensures
            armed == (self@.deadline is Some),
    {
        self.timer.is_armed()
    }

    /// When the wrapped function last ran.
    pub fn last_exec_at(&self) -> (at: Option<u64>)
        ensures
            match at {
                Some(t) => self@.last_exec_at == Some(t as int),
                None => self@.last_exec_at is None,
            },
    {
        self.last_exec_at
    }

    /// Takes a new window. A pending timer keeps its deadline: the new window
    /// counts from the next decision that arms one.
    pub fn set_window_ms(&mut self, ms: i64)
        ensures
            final(self)@ == (StrategyModel { window_ms: ms as int, ..old(self)@ }),
    {
        self.window_ms = ms;
    }

    /// Decides on a call at `now`. `has_pending` says whether a call is
    /// recorded and has not run.
    pub fn on_call(&mut self, now: u64, has_pending: bool) -> (decision: CallDecision)
        ensures
            (final(self)@, decision) == decide_call(old(self)@, now as int, has_pending),
    {
        if self.window_ms <= 0 {
            let timer = if self.timer.is_armed() {
                TimerCommand::Cancel
            } else {
                TimerCommand::Keep
            };
            self.timer.cancel();
            self.last_exec_at = Some(now);
            return CallDecision { flush: false, verdict: CallVerdict::RunNow, timer };
        }
        let window: u64 = self.window_ms as u64;
        let reached = self.timer.is_due(now);
        let later = match self.kind {
            FilterKind::Throttle(options) if !options.trailing => CallVerdict::Discard,
            _ => CallVerdict::RunLater,
        };
        let leading = match self.kind {
            FilterKind::Throttle(options) => options.leading,
            FilterKind::Debounce => false,
        };
        let trailing = later == CallVerdict::RunLater;
        if self.kind != FilterKind::Debounce && self.timer.is_armed() && !reached {
            return CallDecision { flush: false, verdict: later, timer: TimerCommand::Keep };
        }
        let flush = reached && trailing && has_pending;
        let run_now = !flush && leading;
        if flush || run_now {
            self.last_exec_at = Some(now);
        }
        self.timer.schedule(now, window);
        CallDecision {
            flush,
            verdict: if run_now {
                CallVerdict::RunNow
            } else {
                later
            },
            timer: TimerCommand::Arm(window),
        }
    }

    /// Decides on an expiry notification at `now`. `has_pending` says whether
    /// a call is recorded and has not run.
    pub fn on_expiry(&mut self, now: u64, has_pending: bool) -> (decision: ExpiryDecision)
        ensures
            (final(self)@, decision) == decide_expiry(old(self)@, now as int, has_pending),
    {
        if !self.timer.is_armed() {
            return ExpiryDecision { verdict: ExpiryVerdict::Ignore, timer: TimerCommand::Keep };
        }
        if !self.timer.is_due(now) {
            return ExpiryDecision {
                verdict: ExpiryVerdict::Ignore,
                timer: TimerCommand::Arm(self.timer.remaining(now)),
            };
        }
        self.timer.cancel();
        let run_trailing = match self.kind {
            FilterKind::Debounce => true,
            FilterKind::Throttle(options) => options.trailing,
        };
        if !(has_pending && run_trailing) {
            return ExpiryDecision { verdict: ExpiryVerdict::Discard, timer: TimerCommand::Keep };
        }
        self.last_exec_at = Some(now);
        if self.kind != FilterKind::Debounce && self.window_ms > 0 {
            let window: u64 = self.window_ms as u64;
            self.timer.schedule(now, window);
            ExpiryDecision { verdict: ExpiryVerdict::Run, timer: TimerCommand::Arm(window) }
        } else {
            ExpiryDecision { verdict: ExpiryVerdict::Run, timer: TimerCommand::Keep }
        }
    }

    /// Forgets every timing mark, for disposal. The answer tells the host to
    /// cancel the timer that was pending.
    pub fn reset(&mut self) -> (timer: TimerCommand)
        ensures
            final(self)@ == disposed(old(self)@),
            timer == cancel_command(old(self)@.deadline),
    {
        let timer = if self.timer.is_armed() {
            TimerCommand::Cancel
        } else {
            TimerCommand::Keep
        };
        self.timer.cancel();
        self.last_exec_at = None;
        timer
    }
}

} // verus!
