//! Runs of a gate: what a sequence of events makes the wrapped function do.

use vstd::prelude::*;
use crate::gate::{Event, GateModel, Step, step};

verus! {

/// One run of the wrapped function: when, and with which arguments.
pub struct Execution<A> {
    pub at: int,
    pub arg: A,
}

/// The time an event carries; zero for an event that carries none.
pub open spec fn time_of<A>(event: Event<A>) -> int {
    match event {
        Event::Call { now, .. } => now as int,
        Event::Expire { now } => now as int,
        Event::SetWindow { .. } => 0,
        Event::Dispose => 0,
    }
}

/// The execution that an answer stands for: the arguments it hands out run
/// at the time of the event that it answers.
pub open spec fn executed<A>(event: Event<A>, answer: Step<A>) -> Seq<Execution<A>> {
    match answer.run {
        Some(arg) => seq![Execution { at: time_of(event), arg }],
        None => Seq::empty(),
    }
}

/// What `g` has become after `events`, taken in order, and the executions on the way.
pub open spec fn run<A>(g: GateModel<A>, events: Seq<Event<A>>) -> (
    GateModel<A>,
    Seq<Execution<A>>,
)
    decreases events.len(),
{
    if events.len() == 0 {
        (g, Seq::empty())
    } else {
        let (before, earlier) = run(g, events.drop_last());
        let (after, answer) = step(before, events.last());
        (after, earlier + executed(events.last(), answer))
    }
}

/// The calls with the arguments `args` at the times `times`, as events.
pub open spec fn burst<A>(times: Seq<u64>, args: Seq<A>) -> Seq<Event<A>> {
    Seq::new(times.len(), |i: int| Event::Call { now: times[i], arg: args[i] })
}

/// Every event is a call or an expiry notification.
pub open spec fn timed<A>(events: Seq<Event<A>>) -> bool {
    forall|i: int| 0 <= i < events.len() ==> events[i] is Call || events[i] is Expire
}

/// Time does not run backwards from one event to the next.
pub open spec fn in_order<A>(events: Seq<Event<A>>) -> bool {
    forall|i: int, j: int|
        0 <= i <= j < events.len() ==> time_of(events[i]) <= time_of(events[j])
}

/// `run` on a sequence with one more event at its end.
pub proof fn run_push<A>(g: GateModel<A>, events: Seq<Event<A>>, event: Event<A>)
    ensures
        run(g, events.push(event)) == ({
            let (before, earlier) = run(g, events);
            let (after, answer) = step(before, event);
            (after, earlier + executed(event, answer))
        }),
{
    assert(events.push(event).drop_last() =~= events);
}

} // verus!
