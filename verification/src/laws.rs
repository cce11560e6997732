//! The timing guarantees of the filters, proved of every run of a gate.

use vstd::prelude::*;
use crate::gate::{Event, GateModel, step_call, step_dispose, step_expire};
use crate::strategy::{FilterKind, ThrottleOptions};
use crate::timer::{TimerCommand, due};
use crate::trace::{Execution, burst, in_order, run, run_push, time_of, timed};

verus! {

/// The executions of calls that all run at once: one per call, at the time of
/// the call and with its arguments.
pub open spec fn each_call<A>(times: Seq<u64>, args: Seq<A>) -> Seq<Execution<A>> {
    Seq::new(times.len(), |i: int| Execution { at: times[i] as int, arg: args[i] })
}

/// One execution, or none.
pub open spec fn edge<A>(runs: bool, at: int, arg: A) -> Seq<Execution<A>> {
    if runs {
        seq![Execution { at, arg }]
    } else {
        Seq::empty()
    }
}

/// Whatever events arrive, a gate stays well-formed: a call is recorded only
/// while a timer is pending, so nothing waits for an expiry that will not
/// come, and a debounce timer is pending only for a recorded call.
pub proof fn gate_stays_well_formed<A>(g: GateModel<A>, events: Seq<Event<A>>)
    requires
        g.wf(),
    ensures
        run(g, events).0.wf(),
    decreases events.len(),
{
    if events.len() > 0 {
        gate_stays_well_formed(g, events.drop_last());
    }
}

/// The timing mark follows the runs: as long as nothing disposes of it,
/// the strategy's mark is the time of the latest execution, and without an
/// execution it is what it was.
pub proof fn last_run_is_marked<A>(g: GateModel<A>, events: Seq<Event<A>>)
    requires
        forall|i: int| 0 <= i < events.len() ==> !(events[i] is Dispose),
    ensures
        ({
            let (after, done) = run(g, events);
            after.strategy.last_exec_at == if done.len() > 0 {
                Some(done.last().at)
            } else {
                g.strategy.last_exec_at
            }
        }),
    decreases events.len(),
{
    if events.len() > 0 {
        last_run_is_marked(g, events.drop_last());
    }
}

/// With a window of zero or less every call runs the wrapped function before
/// it returns, whatever the strategy and whatever was pending.
pub proof fn zero_window_bypass<A>(g: GateModel<A>, times: Seq<u64>, args: Seq<A>)
    requires
        g.strategy.window_ms <= 0,
        times.len() == args.len(),
    ensures
        run(g, burst(times, args)).1 == each_call(times, args),
        run(g, burst(times, args)).0.strategy.window_ms == g.strategy.window_ms,
    decreases times.len(),
{
    if times.len() == 0 {
        assert(run(g, burst(times, args)).1 =~= each_call(times, args));
    } else {
        let head_times = times.drop_last();
        let head_args = args.drop_last();
        zero_window_bypass(g, head_times, head_args);
        assert(burst(times, args).drop_last() =~= burst(head_times, head_args));
        assert(each_call(head_times, head_args).push(
            Execution { at: times.last() as int, arg: args.last() },
        ) =~= each_call(times, args));
        assert(run(g, burst(times, args)).1 =~= each_call(times, args));
    }
}

/// After disposal nothing that was pending runs: whatever notifications and
/// window changes follow, as long as no new call is made, the wrapped
/// function does not run again.
pub proof fn disposal_safety<A>(g: GateModel<A>, events: Seq<Event<A>>)
    requires
        forall|i: int| 0 <= i < events.len() ==> !(events[i] is Call),
    ensures
        run(step_dispose(g).0, events).1 == Seq::<Execution<A>>::empty(),
        run(step_dispose(g).0, events).0.strategy.deadline is None,
        run(step_dispose(g).0, events).0.pending is None,
    decreases events.len(),
{
    if events.len() > 0 {
        disposal_safety(g, events.drop_last());
        assert(run(step_dispose(g).0, events).1 =~= Seq::<Execution<A>>::empty());
    }
}

/// A debounced call at `now` takes the place of the call recorded before it
/// and restarts the window: the timer is re-armed for `now` plus the window,
/// and the next expiry, which is none before that deadline, runs this call's
/// arguments. The call recorded before runs only if its own deadline had
/// been reached already.
pub proof fn debounce_reset<A>(g: GateModel<A>, now: u64, arg: A, end: u64)
    requires
        g.wf(),
        g.strategy.kind is Debounce,
        g.strategy.window_ms > 0,
    ensures
        ({
            let (after, answer) = step_call(g, now as int, arg);
            &&& answer.timer == TimerCommand::Arm(g.strategy.window_ms as u64)
            &&& answer.run == if due(g.strategy.deadline, now as int) {
                g.pending
            } else {
                None
            }
            &&& after.strategy.deadline == Some(now + g.strategy.window_ms)
            &&& after.pending == Some(arg)
            &&& step_expire(after, end as int).1.run == if end >= now + g.strategy.window_ms {
                Some(arg)
            } else {
                None
            }
        }),
{
}

/// Each call but the first comes less than a window after the one before it.
pub open spec fn close_together(times: Seq<u64>, window_ms: int) -> bool {
    forall|i: int| 0 < i < times.len() ==> (#[trigger] times[i]) < times[i - 1] + window_ms
}

/// Every call comes before the window that the first call opens has closed.
pub open spec fn within_one_window(times: Seq<u64>, window_ms: int) -> bool {
    forall|i: int| 0 <= i < times.len() ==> (#[trigger] times[i]) < times[0] + window_ms
}

/// A gate after a burst of debounced calls, each made before the window of
/// the one before it has closed: nothing has run, the last call is the one
/// recorded, and the window closes one window after it.
proof fn debounce_burst_waits<A>(g: GateModel<A>, times: Seq<u64>, args: Seq<A>)
    requires
        g.wf(),
        g.strategy.kind is Debounce,
        g.strategy.window_ms > 0,
        g.strategy.deadline is None,
        times.len() == args.len(),
        times.len() >= 1,
        close_together(times, g.strategy.window_ms),
    ensures
        ({
            let (after, done) = run(g, burst(times, args));
            &&& done == Seq::<Execution<A>>::empty()
            &&& after.pending == Some(args.last())
            &&& after.strategy.deadline == Some(times.last() + g.strategy.window_ms)
            &&& after.strategy.kind == g.strategy.kind
            &&& after.strategy.window_ms == g.strategy.window_ms
        }),
    decreases times.len(),
{
    let head_times = times.drop_last();
    let head_args = args.drop_last();
    assert(burst(times, args).drop_last() =~= burst(head_times, head_args));
    if times.len() == 1 {
        assert(run(g, burst(head_times, head_args)).1 =~= Seq::<Execution<A>>::empty());
    } else {
        debounce_burst_waits(g, head_times, head_args);
        assert(head_times.last() == times[times.len() - 2]);
    }
    assert(run(g, burst(times, args)).1 =~= Seq::<Execution<A>>::empty());
}

/// Debounced calls that each come less than a window after the one before
/// run the wrapped function exactly once: with the arguments of the last
/// call, at the first expiry that is at least a window after it, and not
/// before.
pub proof fn debounce_quiescence<A>(g: GateModel<A>, times: Seq<u64>, args: Seq<A>, end: u64)
    requires
        g.wf(),
        g.strategy.kind is Debounce,
        g.strategy.window_ms > 0,
        g.strategy.deadline is None,
        times.len() == args.len(),
        times.len() >= 1,
        close_together(times, g.strategy.window_ms),
    ensures
        run(g, burst(times, args)).1 == Seq::<Execution<A>>::empty(),
        run(g, burst(times, args).push(Event::Expire { now: end })).1 == edge(
            end >= times.last() + g.strategy.window_ms,
            end as int,
            args.last(),
        ),
{
    debounce_burst_waits(g, times, args);
    run_push(g, burst(times, args), Event::Expire { now: end });
    assert(run(g, burst(times, args).push(Event::Expire { now: end })).1 =~= edge(
        end >= times.last() + g.strategy.window_ms,
        end as int,
        args.last(),
    ));
}

/// The call that a throttle has recorded after a burst of calls into an idle
/// gate: the last one, unless it was the only one and ran on the leading edge.
pub open spec fn held_back<A>(options: ThrottleOptions, args: Seq<A>) -> Option<A> {
    if options.leading && args.len() == 1 {
        None
    } else {
        Some(args.last())
    }
}

/// A gate after a burst of throttled calls into an idle gate, all within
/// the window that the first of them opens.
proof fn throttle_burst_cools<A>(
    g: GateModel<A>,
    options: ThrottleOptions,
    times: Seq<u64>,
    args: Seq<A>,
)
    requires
        g.wf(),
        g.strategy.kind == FilterKind::Throttle(options),
        g.strategy.window_ms > 0,
        g.strategy.deadline is None,
        times.len() == args.len(),
        times.len() >= 1,
        within_one_window(times, g.strategy.window_ms),
    ensures
        ({
            let (after, done) = run(g, burst(times, args));
            &&& done == edge(options.leading, times[0] as int, args[0])
            &&& after.pending == held_back(options, args)
            &&& after.strategy.deadline == Some(times[0] + g.strategy.window_ms)
            &&& after.strategy.kind == g.strategy.kind
            &&& after.strategy.window_ms == g.strategy.window_ms
        }),
    decreases times.len(),
{
    let head_times = times.drop_last();
    let head_args = args.drop_last();
    assert(burst(times, args).drop_last() =~= burst(head_times, head_args));
    if times.len() == 1 {
        assert(run(g, burst(head_times, head_args)).1 =~= Seq::<Execution<A>>::empty());
    } else {
        throttle_burst_cools(g, options, head_times, head_args);
    }
    assert(run(g, burst(times, args)).1 =~= edge(options.leading, times[0] as int, args[0]));
}

/// A burst of throttled calls within one window collapses to at most two
/// executions: the first call on the leading edge, at once, and the last call
/// on the trailing edge, when the window closes. With both edges on, a burst
/// of two or more calls runs exactly the first and the last.
pub proof fn throttle_burst_collapse<A>(
    g: GateModel<A>,
    options: ThrottleOptions,
    times: Seq<u64>,
    args: Seq<A>,
    end: u64,
)
    requires
        g.wf(),
        g.strategy.kind == FilterKind::Throttle(options),
        g.strategy.window_ms > 0,
        g.strategy.deadline is None,
        times.len() == args.len(),
        times.len() >= 1,
        within_one_window(times, g.strategy.window_ms),
        end >= times[0] + g.strategy.window_ms,
    ensures
        run(g, burst(times, args).push(Event::Expire { now: end })).1 == edge(
            options.leading,
            times[0] as int,
            args[0],
        ) + edge(
            options.trailing && held_back(options, args) is Some,
            end as int,
            args.last(),
        ),
        run(g, burst(times, args).push(Event::Expire { now: end })).1.len() <= 2,
{
    throttle_burst_cools(g, options, times, args);
    run_push(g, burst(times, args), Event::Expire { now: end });
    assert(run(g, burst(times, args).push(Event::Expire { now: end })).1 =~= edge(
        options.leading,
        times[0] as int,
        args[0],
    ) + edge(options.trailing && held_back(options, args) is Some, end as int, args.last()));
}

/// A throttled call into an idle gate runs at once where there is a leading
/// edge: the first run of a burst waits for nothing.
pub proof fn throttle_leading_edge<A>(g: GateModel<A>, options: ThrottleOptions, now: u64, arg: A)
    requires
        g.strategy.kind == FilterKind::Throttle(options),
        options.leading,
        g.strategy.deadline is None,
    ensures
        step_call(g, now as int, arg).1.run == Some(arg),
{
}

/// What a throttle keeps true of the executions `done` of a run that has
/// reached the time `clock`: they are a window apart, and the next one cannot
/// come less than a window after the last.
pub open spec fn spaced<A>(g: GateModel<A>, window_ms: int, done: Seq<Execution<A>>, clock: int) -> bool {
    &&& g.strategy.kind is Throttle
    &&& g.strategy.window_ms == window_ms
    &&& forall|i: int, j: int| 0 <= i < j < done.len() ==> done[j].at - done[i].at >= window_ms
    &&& done.len() > 0 ==> {
        &&& done.last().at <= clock
        &&& match g.strategy.deadline {
            Some(deadline) => deadline >= done.last().at + window_ms,
            None => clock >= done.last().at + window_ms,
        }
    }
}

/// The time that a run has reached: that of its last event.
pub open spec fn clock<A>(events: Seq<Event<A>>) -> int {
    if events.len() == 0 {
        0
    } else {
        time_of(events.last())
    }
}

/// A throttle keeps `spaced` along every run of calls and expiries in which
/// time does not run backwards.
proof fn throttle_stays_spaced<A>(g: GateModel<A>, events: Seq<Event<A>>)
    requires
        g.strategy.kind is Throttle,
        g.strategy.window_ms > 0,
        timed(events),
        in_order(events),
    ensures
        spaced(run(g, events).0, g.strategy.window_ms, run(g, events).1, clock(events)),
    decreases events.len(),
{
    let window_ms = g.strategy.window_ms;
    if events.len() > 0 {
        let head = events.drop_last();
        let event = events.last();
        throttle_stays_spaced(g, head);
        let (before, earlier) = run(g, head);
        let (after, done) = run(g, events);
        let now = time_of(event);
        assert(event is Call || event is Expire);
        if head.len() > 0 {
            assert(head.last() == events[events.len() - 2]);
            assert(clock(head) <= now);
        }
        if done.len() > earlier.len() {
            assert(done.len() == earlier.len() + 1);
            assert(done.last().at == now);
            assert forall|i: int, j: int| 0 <= i < j < done.len() implies done[j].at - done[i].at
                >= window_ms by {
                if j < earlier.len() {
                    assert(done[i] == earlier[i] && done[j] == earlier[j]);
                } else {
                    assert(done[i] == earlier[i]);
                    if i < earlier.len() - 1 {
                        assert(earlier.last().at - earlier[i].at >= window_ms);
                    }
                }
            }
        } else {
            assert(done =~= earlier);
        }
    }
}

/// Under a throttle with a positive window that does not change, any two
/// executions of the wrapped function are at least a window apart, whatever
/// calls and expiries arrive and whichever edges are on, as long as time does
/// not run backwards.
pub proof fn throttle_spacing<A>(g: GateModel<A>, events: Seq<Event<A>>, i: int, j: int)
    requires
        g.strategy.kind is Throttle,
        g.strategy.window_ms > 0,
        timed(events),
        in_order(events),
        0 <= i < j < run(g, events).1.len(),
    ensures
        run(g, events).1[j].at - run(g, events).1[i].at >= g.strategy.window_ms,
{
    throttle_stays_spaced(g, events);
}

} // verus!
