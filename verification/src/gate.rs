//! A gate: a strategy together with the one slot for a call that is
//! recorded and has not run. Every call and every timer expiry passes through
//! it, and it answers with the arguments to run, if any, and a timer command.

use vstd::prelude::*;
use crate::strategy::{
    CallVerdict, ExpiryVerdict, FilterStrategy, StrategyModel, decide_call, decide_expiry,
    disposed,
};
use crate::timer::{TimerCommand, cancel_command};

verus! {

/// What reaches a gate.
#[derive(Debug)]
pub enum Event<A> {
    /// The wrapped function is called with `arg` at time `now`.
    Call { now: u64, arg: A },
    /// The host's timer reports at time `now` that it has fired.
    Expire { now: u64 },
    /// The configured window changes.
    SetWindow { window_ms: i64 },
    /// The owning scope ends.
    Dispose,
}

/// What a gate answers.
#[derive(Debug)]
pub struct Step<A> {
    /// The arguments to run the wrapped function with, now.
    pub run: Option<A>,
    pub timer: TimerCommand,
}

/// A gate as a mathematical value: its view.
pub struct GateModel<A> {
    pub strategy: StrategyModel,
    /// The arguments of the latest call that has not run.
    pub pending: Option<A>,
}

impl<A> GateModel<A> {
    /// With no timer pending nothing is recorded, and a debounce timer is
    /// never pending without a recorded call.
    pub open spec fn wf(self) -> bool {
        &&& self.strategy.deadline is None ==> self.pending is None
        &&& self.strategy.kind is Debounce && self.strategy.deadline is Some
            ==> self.pending is Some
    }
}

/// A call with `arg` at `now`: every call that does not run at once is
/// recorded in place of the one before it, and a flushed call is the recorded
/// one.
pub open spec fn step_call<A>(g: GateModel<A>, now: int, arg: A) -> (GateModel<A>, Step<A>) {
    let (strategy, decision) = decide_call(g.strategy, now, g.pending is Some);
    if decision.verdict is RunNow {
        (
            GateModel { strategy, pending: None },
            Step { run: Some(arg), timer: decision.timer },
        )
    } else {
        (
            GateModel { strategy, pending: Some(arg) },
            Step {
                run: if decision.flush {
                    g.pending
                } else {
                    None
                },
                timer: decision.timer,
            },
        )
    }
}

/// An expiry notification at `now`: a notification that is no expiry leaves
/// the recorded call where it is; an expiry empties the slot, whether the
/// call runs or not.
pub open spec fn step_expire<A>(g: GateModel<A>, now: int) -> (GateModel<A>, Step<A>) {
    let (strategy, decision) = decide_expiry(g.strategy, now, g.pending is Some);
    match decision.verdict {
        ExpiryVerdict::Ignore => (
            GateModel { strategy, pending: g.pending },
            Step { run: None, timer: decision.timer },
        ),
        ExpiryVerdict::Run => (
            GateModel { strategy, pending: None },
            Step { run: g.pending, timer: decision.timer },
        ),
        ExpiryVerdict::Discard => (
            GateModel { strategy, pending: None },
            Step { run: None, timer: decision.timer },
        ),
    }
}

/// A change of the window: nothing else moves, the pending deadline included.
pub open spec fn step_set_window<A>(g: GateModel<A>, window_ms: int) -> (GateModel<A>, Step<A>) {
    (
        GateModel { strategy: StrategyModel { window_ms, ..g.strategy }, pending: g.pending },
        Step { run: None, timer: TimerCommand::Keep },
    )
}

/// Disposal: the timer is cancelled, the recorded call and the timing marks
/// are dropped, and nothing runs.
pub open spec fn step_dispose<A>(g: GateModel<A>) -> (GateModel<A>, Step<A>) {
    (
        GateModel { strategy: disposed(g.strategy), pending: None },
        Step { run: None, timer: cancel_command(g.strategy.deadline) },
    )
}

/// The transition function of a gate.
pub open spec fn step<A>(g: GateModel<A>, event: Event<A>) -> (GateModel<A>, Step<A>) {
    match event {
        Event::Call { now, arg } => step_call(g, now as int, arg),
        Event::Expire { now } => step_expire(g, now as int),
        Event::SetWindow { window_ms } => step_set_window(g, window_ms as int),
        Event::Dispose => step_dispose(g),
    }
}

/// A strategy and the slot for the latest call that has not run.
#[derive(Debug)]
pub struct Gate<A> {
    strategy: FilterStrategy,
    pending: Option<A>,
}

impl<A> View for Gate<A> {
    type V = GateModel<A>;

    closed spec fn view(&self) -> GateModel<A> {
        GateModel { strategy: self.strategy@, pending: self.pending }
    }
}

impl<A> Gate<A> {
    /// A gate in front of `strategy`, with nothing recorded. A strategy that
    /// has a timer pending is taken without it.
    pub fn new(strategy: FilterStrategy) -> (gate: Gate<A>)
        ensures
            gate@ == (GateModel::<A> { strategy: disposed(strategy@), pending: None }),
            gate@.wf(),
    {
        let mut strategy = strategy;
        let _ = strategy.reset();
        Gate { strategy, pending: None }
    }

    /// The strategy, with its window and timing marks.
    pub fn strategy(&self) -> (strategy: &FilterStrategy)
        ensures
            strategy@ == self@.strategy,
    {
        &self.strategy
    }

    /// Whether a call is recorded and has not run.
    pub fn has_pending(&self) -> (recorded: bool)
        ensures
            recorded == (self@.pending is Some),
    {
        self.pending.is_some()
    }

    /// The arguments of the recorded call.
    pub fn pending_args(&self) -> (args: Option<&A>)
        ensures
            match args {
                Some(a) => self@.pending == Some(*a),
                None => self@.pending is None,
            },
    {
        self.pending.as_ref()
    }

    /// A call with `arg` at `now`.
    pub fn call(&mut self, now: u64, arg: A) -> (answer: Step<A>)
        requires
            old(self)@.wf(),
        ensures
            final(self)@.wf(),
            (final(self)@, answer) == step_call(old(self)@, now as int, arg),
    {
        let decision = self.strategy.on_call(now, self.pending.is_some());
        let recorded = self.pending.take();
        match decision.verdict {
            CallVerdict::RunNow => Step { run: Some(arg), timer: decision.timer },
            _ => {
                self.pending = Some(arg);
                Step {
                    run: if decision.flush {
                        recorded
                    } else {
                        None
                    },
                    timer: decision.timer,
                }
            },
        }
    }

    /// The host's timer reports at `now` that it has fired.
    pub fn expire(&mut self, now: u64) -> (answer: Step<A>)
        requires
            old(self)@.wf(),
        ensures
            final(self)@.wf(),
            (final(self)@, answer) == step_expire(old(self)@, now as int),
    {
        let decision = self.strategy.on_expiry(now, self.pending.is_some());
        match decision.verdict {
            ExpiryVerdict::Ignore => Step { run: None, timer: decision.timer },
            ExpiryVerdict::Run => Step { run: self.pending.take(), timer: decision.timer },
            ExpiryVerdict::Discard => {
                self.pending = None;
                Step { run: None, timer: decision.timer }
            },
        }
    }

    /// The configured window changes to `ms`.
    pub fn set_window_ms(&mut self, ms: i64) -> (answer: Step<A>)
        requires
            old(self)@.wf(),
        ensures
            final(self)@.wf(),
            (final(self)@, answer) == step_set_window(old(self)@, ms as int),
    {
        self.strategy.set_window_ms(ms);
        Step { run: None, timer: TimerCommand::Keep }
    }

    /// The owning scope ends.
    pub fn dispose(&mut self) -> (answer: Step<A>)
        requires
            old(self)@.wf(),
        ensures
            final(self)@.wf(),
            (final(self)@, answer) == step_dispose(old(self)@),
    {
        let timer = self.strategy.reset();
        self.pending = None;
        Step { run: None, timer }
    }

    /// The single entry point: takes any event through this gate.
    pub fn handle(&mut self, event: Event<A>) -> (answer: Step<A>)
        requires
            old(self)@.wf(),
        ensures
            final(self)@.wf(),
            (final(self)@, answer) == step(old(self)@, event),
    {
        match event {
            Event::Call { now, arg } => self.call(now, arg),
            Event::Expire { now } => self.expire(now),
            Event::SetWindow { window_ms } => self.set_window_ms(window_ms),
            Event::Dispose => self.dispose(),
        }
    }
}

} // verus!
