//! Debounced functions: one run, once the calls have stopped for a window.

use vstd::prelude::*;
use crate::filter_wrapper::{
    FilterWrapper, FilterWrapperWithArg, create_filter_wrapper, create_filter_wrapper_with_arg,
};
use crate::gate::GateModel;
use crate::strategy::{FilterKind, debounce_filter, fresh};

verus! {

/// Debounces `func`: each call restarts a window of `ms` milliseconds, and
/// `func` runs when a window closes.
///
/// A window of zero or less means no debouncing.
pub fn use_debounce_fn<F, R>(func: F, ms: i64) -> (debounced: FilterWrapper<R, F>) where
    F: Fn() -> R,
    ensures
        debounced.wf(),
        debounced@ == (GateModel::<()> {
            strategy: fresh(FilterKind::Debounce, ms as int),
            pending: None,
        }),
        debounced.original() == func,
        debounced.result() is None,
{
    create_filter_wrapper(debounce_filter(ms), func)
}

/// Debounces `func`, a function of one argument. The run gets the argument of
/// the latest call.
pub fn use_debounce_fn_with_arg<F, Arg, R>(func: F, ms: i64) -> (debounced: FilterWrapperWithArg<
    Arg,
    R,
    F,
>) where F: Fn(Arg) -> R
    ensures
        debounced.wf(),
        debounced@ == (GateModel::<Arg> {
            strategy: fresh(FilterKind::Debounce, ms as int),
            pending: None,
        }),
        debounced.original() == func,
        debounced.result() is None,
{
    create_filter_wrapper_with_arg(debounce_filter(ms), func)
}

} // verus!
