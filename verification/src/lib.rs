//! Rate-limiting filters around a callable: throttling and debouncing as a
//! state machine over calls and timer expiries, with the timing guarantees proved.

pub mod filter_wrapper;
pub mod gate;
pub mod laws;
pub mod strategy;
pub mod timer;
pub mod trace;
pub mod use_debounce_fn;
pub mod use_media_query;
pub mod use_throttle_fn;

pub use crate::filter_wrapper::{
    create_filter_wrapper, create_filter_wrapper_with_arg, FilterWrapper, FilterWrapperWithArg,
    Outcome,
};
pub use crate::strategy::{debounce_filter, throttle_filter, FilterKind, FilterStrategy, ThrottleOptions};
pub use crate::timer::TimerCommand;
pub use crate::use_debounce_fn::{use_debounce_fn, use_debounce_fn_with_arg};
pub use crate::use_media_query::{use_media_query, MediaQuery, MediaQueryUpdate};
pub use crate::use_throttle_fn::{
    use_throttle_fn, use_throttle_fn_with_arg, use_throttle_fn_with_arg_and_options,
    use_throttle_fn_with_options,
};
