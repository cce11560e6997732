//! Throttled functions: at most one run per window.

use vstd::prelude::*;
use crate::filter_wrapper::{
    FilterWrapper, FilterWrapperWithArg, create_filter_wrapper, create_filter_wrapper_with_arg,
};
use crate::gate::GateModel;
use crate::strategy::{FilterKind, ThrottleOptions, fresh, throttle_filter};

verus! {

/// Throttles `func` to one run per `ms` milliseconds, on both edges of a
/// burst: the first call runs at once, and the last call made while the
/// window was open runs when it closes.
///
/// A window of zero or less means no throttling.
pub fn use_throttle_fn<F, R>(func: F, ms: i64) -> (throttled: FilterWrapper<R, F>) where
    F: Fn() -> R,
    ensures
        throttled.wf(),
        throttled@ == (GateModel::<()> {
            strategy: fresh(
                FilterKind::Throttle(ThrottleOptions { leading: true, trailing: true }),
                ms as int,
            ),
            pending: None,
        }),
        throttled.original() == func,
        throttled.result() is None,
{
    use_throttle_fn_with_options(func, ms, ThrottleOptions::default())
}

/// Throttles `func` to one run per `ms` milliseconds, on the edges that
/// `options` names. With neither edge on, nothing ever runs.
pub fn use_throttle_fn_with_options<F, R>(func: F, ms: i64, options: ThrottleOptions) -> (throttled:
    FilterWrapper<R, F>) where F: Fn() -> R
    ensures
        throttled.wf(),
        throttled@ == (GateModel::<()> {
            strategy: fresh(FilterKind::Throttle(options), ms as int),
            pending: None,
        }),
        throttled.original() == func,
        throttled.result() is None,
{
    create_filter_wrapper(throttle_filter(ms, options), func)
}

/// Throttles `func`, a function of one argument, on both edges of a burst.
/// The trailing run gets the argument of the last call of the burst.
pub fn use_throttle_fn_with_arg<F, Arg, R>(func: F, ms: i64) -> (throttled: FilterWrapperWithArg<
    Arg,
    R,
    F,
>) where F: Fn(Arg) -> R
    ensures
        throttled.wf(),
        throttled@ == (GateModel::<Arg> {
            strategy: fresh(
                FilterKind::Throttle(ThrottleOptions { leading: true, trailing: true }),
                ms as int,
            ),
            pending: None,
        }),
        throttled.original() == func,
        throttled.result() is None,
{
    use_throttle_fn_with_arg_and_options(func, ms, ThrottleOptions::default())
}

/// Throttles `func`, a function of one argument, on the edges that `options`
/// names.
pub fn use_throttle_fn_with_arg_and_options<F, Arg, R>(
    func: F,
    ms: i64,
    options: ThrottleOptions,
) -> (throttled: FilterWrapperWithArg<Arg, R, F>) where F: Fn(Arg) -> R
    ensures
        throttled.wf(),
        throttled@ == (GateModel::<Arg> {
            strategy: fresh(FilterKind::Throttle(options), ms as int),
            pending: None,
        }),
        throttled.original() == func,
        throttled.result() is None,
{
    create_filter_wrapper_with_arg(throttle_filter(ms, options), func)
}

} // verus!
