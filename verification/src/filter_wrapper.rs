//! The filter wrappers: a callable behind a gate, with the slot that holds
//! the result of its latest run.
//!
//! A wrapper is driven by its host: `call` when the wrapped function is
//! invoked, `expire` when the host's timer fires, each with the host's clock
//! in milliseconds. The wrapper runs the callable itself, when its strategy
//! says so, and tells the host what to do with the timer. Between a call and
//! the run that it leads to, the slot keeps the result of the run before.
//! What the callable returns is stored as it is, an error value included; a
//! callable that panics leaves the slot as it was.

use vstd::prelude::*;
use crate::gate::{Gate, GateModel, Step, step_call, step_dispose, step_expire, step_set_window};
use crate::strategy::{FilterStrategy, disposed};
use crate::timer::TimerCommand;

verus! {

/// What the host learns from a step of a wrapper.
#[derive(Clone, Copy, Debug, PartialEq, Eq, Structural)]
pub struct Outcome {
    /// The wrapped function ran, and the result slot holds what it returned.
    pub ran: bool,
    pub timer: TimerCommand,
}

/// The outcome that reports an answer of a gate.
pub open spec fn outcome_of<A>(answer: Step<A>) -> Outcome {
    Outcome { ran: answer.run is Some, timer: answer.timer }
}

/// A function of one argument behind a gate.
pub struct FilterWrapperWithArg<A, R, F> {
    gate: Gate<A>,
    original: F,
    result: Option<R>,
}

impl<A, R, F> View for FilterWrapperWithArg<A, R, F> {
    type V = GateModel<A>;

    closed spec fn view(&self) -> GateModel<A> {
        self.gate@
    }
}

impl<A, R, F: Fn(A) -> R> FilterWrapperWithArg<A, R, F> {
    /// The wrapped function.
    pub closed spec fn original(&self) -> F {
        self.original
    }

    /// What the latest run returned.
    pub closed spec fn result(&self) -> Option<R> {
        self.result
    }

    /// Its gate is well-formed, and the wrapped function accepts the
    /// arguments that are recorded for it.
    pub open spec fn wf(&self) -> bool {
        &&& self@.wf()
        &&& self@.pending matches Some(arg) ==> self.original().requires((arg,))
    }

    /// The slot after a step that ran the arguments `run`, if any: a result
    /// of the wrapped function on them, or what the slot held before.
    pub open spec fn slot_after(&self, before: Option<R>, run: Option<A>) -> bool {
        match run {
            Some(arg) => self.result() matches Some(r) && self.original().ensures((arg,), r),
            None => self.result() == before,
        }
    }

    fn settle(&mut self, answer: Step<A>) -> (outcome: Outcome)
        requires
            answer.run matches Some(arg) ==> old(self).original().requires((arg,)),
        ensures
            final(self).gate == old(self).gate,
            final(self).original() == old(self).original(),
            final(self).slot_after(old(self).result(), answer.run),
            outcome == outcome_of(answer),
    {
        let timer = answer.timer;
        match answer.run {
            Some(arg) => {
                let returned = (self.original)(arg);
                self.result = Some(returned);
                Outcome { ran: true, timer }
            },
            None => Outcome { ran: false, timer },
        }
    }

    /// The wrapped function is called with `arg` at `now`.
    pub fn call(&mut self, now: u64, arg: A) -> (outcome: Outcome)
        requires
            old(self).wf(),
            old(self).original().requires((arg,)),
        ensures
            final(self).wf(),
            final(self).original() == old(self).original(),
            final(self)@ == step_call(old(self)@, now as int, arg).0,
            outcome == outcome_of(step_call(old(self)@, now as int, arg).1),
            final(self).slot_after(old(self).result(), step_call(old(self)@, now as int, arg).1.run),
    {
        let answer = self.gate.call(now, arg);
        self.settle(answer)
    }

    /// The host's timer reports at `now` that it has fired.
    pub fn expire(&mut self, now: u64) -> (outcome: Outcome)
        requires
            old(self).wf(),
        ensures
            final(self).wf(),
            final(self).original() == old(self).original(),
            final(self)@ == step_expire(old(self)@, now as int).0,
            outcome == outcome_of(step_expire(old(self)@, now as int).1),
            final(self).slot_after(old(self).result(), step_expire(old(self)@, now as int).1.run),
    {
        let answer = self.gate.expire(now);
        self.settle(answer)
    }

    /// The configured window changes to `ms`. Nothing runs, and a pending
    /// timer keeps its deadline.
    pub fn set_window_ms(&mut self, ms: i64)
        requires
            old(self).wf(),
        ensures
            final(self).wf(),
            final(self).original() == old(self).original(),
            final(self).result() == old(self).result(),
            final(self)@ == step_set_window(old(self)@, ms as int).0,
    {
        let _ = self.gate.set_window_ms(ms);
    }

    /// The owning scope ends: the recorded call is dropped and will not run.
    /// The answer tells the host to cancel the timer that was pending.
    pub fn dispose(&mut self) -> (timer: TimerCommand)
        requires
            old(self).wf(),
        ensures
            final(self).wf(),
            final(self).original() == old(self).original(),
            final(self).result() == old(self).result(),
            final(self)@ == step_dispose(old(self)@).0,
            timer == step_dispose(old(self)@).1.timer,
    {
        let answer = self.gate.dispose();
        answer.timer
    }

    /// The result of the latest run, if the wrapped function has run.
    pub fn last_result(&self) -> (result: Option<&R>)
        ensures
            match result {
                Some(r) => self.result() == Some(*r),
                None => self.result() is None,
            },
    {
        self.result.as_ref()
    }

    /// This wrapper's gate, with its strategy and the recorded call.
    pub fn gate(&self) -> (gate: &Gate<A>)
        ensures
            gate@ == self@,
    {
        &self.gate
    }
}

/// A function without arguments behind a gate.
pub struct FilterWrapper<R, F> {
    gate: Gate<()>,
    original: F,
    result: Option<R>,
}

impl<R, F> View for FilterWrapper<R, F> {
    type V = GateModel<()>;

    closed spec fn view(&self) -> GateModel<()> {
        self.gate@
    }
}

impl<R, F: Fn() -> R> FilterWrapper<R, F> {
    /// The wrapped function.
    pub closed spec fn original(&self) -> F {
        self.original
    }

    /// What the latest run returned.
    pub closed spec fn result(&self) -> Option<R> {
        self.result
    }

    /// Its gate is well-formed, and the wrapped function may be called while
    /// a call is recorded for it.
    pub open spec fn wf(&self) -> bool {
        &&& self@.wf()
        &&& self@.pending is Some ==> self.original().requires(())
    }

    /// The slot after a step that ran the wrapped function, or did not: one
    /// of its results, or what the slot held before.
    pub open spec fn slot_after(&self, before: Option<R>, ran: bool) -> bool {
        if ran {
            self.result() matches Some(r) && self.original().ensures((), r)
        } else {
            self.result() == before
        }
    }

    fn settle(&mut self, answer: Step<()>) -> (outcome: Outcome)
        requires
            answer.run is Some ==> old(self).original().requires(()),
        ensures
            final(self).gate == old(self).gate,
            final(self).original() == old(self).original(),
            final(self).slot_after(old(self).result(), answer.run is Some),
            outcome == outcome_of(answer),
    {
        let timer = answer.timer;
        match answer.run {
            Some(_) => {
                let returned = (self.original)();
                self.result = Some(returned);
                Outcome { ran: true, timer }
            },
            None => Outcome { ran: false, timer },
        }
    }

    /// The wrapped function is called at `now`.
    pub fn call(&mut self, now: u64) -> (outcome: Outcome)
        requires
            old(self).wf(),
            old(self).original().requires(()),
        ensures
            final(self).wf(),
            final(self).original() == old(self).original(),
            final(self)@ == step_call(old(self)@, now as int, ()).0,
            outcome == outcome_of(step_call(old(self)@, now as int, ()).1),
            final(self).slot_after(old(self).result(), outcome.ran),
    {
        let answer = self.gate.call(now, ());
        self.settle(answer)
    }

    /// The host's timer reports at `now` that it has fired.
    pub fn expire(&mut self, now: u64) -> (outcome: Outcome)
        requires
            old(self).wf(),
        ensures
            final(self).wf(),
            final(self).original() == old(self).original(),
            final(self)@ == step_expire(old(self)@, now as int).0,
            outcome == outcome_of(step_expire(old(self)@, now as int).1),
            final(self).slot_after(old(self).result(), outcome.ran),
    {
        let answer = self.gate.expire(now);
        self.settle(answer)
    }

    /// The configured window changes to `ms`. Nothing runs, and a pending
    /// timer keeps its deadline.
    pub fn set_window_ms(&mut self, ms: i64)
        requires
            old(self).wf(),
        ensures
            final(self).wf(),
            final(self).original() == old(self).original(),
            final(self).result() == old(self).result(),
            final(self)@ == step_set_window(old(self)@, ms as int).0,
    {
        let _ = self.gate.set_window_ms(ms);
    }

    /// The owning scope ends: the recorded call is dropped and will not run.
    /// The answer tells the host to cancel the timer that was pending.
    pub fn dispose(&mut self) -> (timer: TimerCommand)
        requires
            old(self).wf(),
        ensures
            final(self).wf(),
            final(self).original() == old(self).original(),
            final(self).result() == old(self).result(),
            final(self)@ == step_dispose(old(self)@).0,
            timer == step_dispose(old(self)@).1.timer,
    {
        let answer = self.gate.dispose();
        answer.timer
    }

    /// The result of the latest run, if the wrapped function has run.
    pub fn last_result(&self) -> (result: Option<&R>)
        ensures
            match result {
                Some(r) => self.result() == Some(*r),
                None => self.result() is None,
            },
    {
        self.result.as_ref()
    }

    /// This wrapper's gate, with its strategy and the recorded call.
    pub fn gate(&self) -> (gate: &Gate<()>)
        ensures
            gate@ == self@,
    {
        &self.gate
    }
}

/// Puts `func` behind a gate with the strategy `filter`.
pub fn create_filter_wrapper<R, F: Fn() -> R>(filter: FilterStrategy, func: F) -> (wrapper:
    FilterWrapper<R, F>)
    ensures
        wrapper.wf(),
        wrapper@ == (GateModel::<()> { strategy: disposed(filter@), pending: None }),
        wrapper.original() == func,
        wrapper.result() is None,
{
    FilterWrapper { gate: Gate::new(filter), original: func, result: None }
}

/// Puts `func`, a function of one argument, behind a gate with the strategy
/// `filter`.
pub fn create_filter_wrapper_with_arg<A, R, F: Fn(A) -> R>(filter: FilterStrategy, func: F) -> (wrapper:
    FilterWrapperWithArg<A, R, F>)
    ensures
        wrapper.wf(),
        wrapper@ == (GateModel::<A> { strategy: disposed(filter@), pending: None }),
        wrapper.original() == func,
        wrapper.result() is None,
{
    FilterWrapperWithArg { gate: Gate::new(filter), original: func, result: None }
}

} // verus!
