use std::cell::RefCell;

use leptos_use::{
    use_throttle_fn, use_throttle_fn_with_arg, use_throttle_fn_with_arg_and_options,
    use_throttle_fn_with_options, Outcome, ThrottleOptions, TimerCommand,
};

fn ran(timer: TimerCommand) -> Outcome {
    Outcome { ran: true, timer }
}

fn held(timer: TimerCommand) -> Outcome {
    Outcome { ran: false, timer }
}

#[test]
fn throttle_runs_first_call_and_last_call_of_the_window() {
    let log: RefCell<Vec<&str>> = RefCell::new(Vec::new());
    let mut throttled = use_throttle_fn_with_arg(|arg: &'static str| log.borrow_mut().push(arg), 1000);

    assert_eq!(throttled.call(0, "t=0"), ran(TimerCommand::Arm(1000)));
    assert_eq!(*log.borrow(), vec!["t=0"]);
    assert_eq!(throttled.call(100, "t=100"), held(TimerCommand::Keep));
    assert_eq!(*log.borrow(), vec!["t=0"]);
    assert_eq!(throttled.expire(1000), ran(TimerCommand::Arm(1000)));
    assert_eq!(*log.borrow(), vec!["t=0", "t=100"]);

    // The call at 1100 is not folded into the run at 1000: it waits for its own window.
    assert_eq!(throttled.call(1100, "t=1100"), held(TimerCommand::Keep));
    assert_eq!(*log.borrow(), vec!["t=0", "t=100"]);
    assert_eq!(throttled.expire(2000), ran(TimerCommand::Arm(1000)));
    assert_eq!(*log.borrow(), vec!["t=0", "t=100", "t=1100"]);
    assert_eq!(throttled.expire(3000), held(TimerCommand::Keep));
    assert_eq!(*log.borrow(), vec!["t=0", "t=100", "t=1100"]);
}

#[test]
fn throttle_burst_collapses_to_first_and_last() {
    let log: RefCell<Vec<u32>> = RefCell::new(Vec::new());
    let mut throttled = use_throttle_fn_with_arg(|arg: u32| log.borrow_mut().push(arg), 500);

    for i in 0..50u32 {
        let outcome = throttled.call(10_000 + u64::from(i) * 10, i);
        assert_eq!(outcome.ran, i == 0);
    }
    assert_eq!(*log.borrow(), vec![0]);
    assert_eq!(throttled.expire(10_499), held(TimerCommand::Arm(1)));
    assert_eq!(throttled.expire(10_500), ran(TimerCommand::Arm(500)));
    assert_eq!(*log.borrow(), vec![0, 49]);
}

#[test]
fn throttle_single_call_runs_once() {
    let count = RefCell::new(0u32);
    let mut throttled = use_throttle_fn(|| *count.borrow_mut() += 1, 1000);

    assert_eq!(throttled.call(5), ran(TimerCommand::Arm(1000)));
    assert_eq!(throttled.expire(1005), held(TimerCommand::Keep));
    assert_eq!(*count.borrow(), 1);
    assert!(!throttled.gate().strategy().has_pending_timer());
}

#[test]
fn throttle_keeps_runs_a_window_apart() {
    let times: RefCell<Vec<u64>> = RefCell::new(Vec::new());
    let mut throttled = use_throttle_fn_with_arg(|now: u64| times.borrow_mut().push(now), 300);

    // A call every 70 ms; the host's timer is served whenever it is due.
    let mut deadline: Option<u64> = None;
    let mut now = 0u64;
    while now <= 3000 {
        if let Some(at) = deadline {
            if at <= now {
                deadline = match throttled.expire(at).timer {
                    TimerCommand::Arm(delay) => Some(at + delay),
                    _ => None,
                };
            }
        }
        match throttled.call(now, now).timer {
            TimerCommand::Arm(delay) => deadline = Some(now + delay),
            TimerCommand::Cancel => deadline = None,
            TimerCommand::Keep => {}
        }
        now += 70;
    }
    let times = times.borrow();
    assert!(times.len() >= 10);
    assert_eq!(times[0], 0);
    assert_eq!(times[1], 280);
}

#[test]
fn throttle_spacing_is_measured_between_runs() {
    let runs: RefCell<Vec<u64>> = RefCell::new(Vec::new());
    let clock = RefCell::new(0u64);
    let mut throttled = use_throttle_fn(|| runs.borrow_mut().push(*clock.borrow()), 300);

    let mut deadline: Option<u64> = None;
    for now in (0..3000u64).step_by(70) {
        if let Some(at) = deadline {
            if at <= now {
                *clock.borrow_mut() = at;
                deadline = match throttled.expire(at).timer {
                    TimerCommand::Arm(delay) => Some(at + delay),
                    _ => None,
                };
            }
        }
        *clock.borrow_mut() = now;
        if let TimerCommand::Arm(delay) = throttled.call(now).timer {
            deadline = Some(now + delay);
        }
    }
    let runs = runs.borrow();
    assert_eq!(runs[..4], [0, 300, 600, 900]);
    for pair in runs.windows(2) {
        assert!(pair[1] - pair[0] >= 300);
    }
}

#[test]
fn throttle_without_leading_edge_runs_only_at_expiry() {
    let log: RefCell<Vec<u8>> = RefCell::new(Vec::new());
    let options = ThrottleOptions::default().leading(false);
    let mut throttled =
        use_throttle_fn_with_arg_and_options(|arg: u8| log.borrow_mut().push(arg), 1000, options);

    assert_eq!(throttled.call(0, 1), held(TimerCommand::Arm(1000)));
    assert_eq!(throttled.call(400, 2), held(TimerCommand::Keep));
    assert!(log.borrow().is_empty());
    assert_eq!(throttled.expire(1000), ran(TimerCommand::Arm(1000)));
    assert_eq!(*log.borrow(), vec![2]);
    assert_eq!(throttled.expire(2000), held(TimerCommand::Keep));
    assert_eq!(*log.borrow(), vec![2]);
}

#[test]
fn throttle_without_trailing_edge_drops_calls_of_the_window() {
    let log: RefCell<Vec<u8>> = RefCell::new(Vec::new());
    let options = ThrottleOptions::default().trailing(false);
    let mut throttled =
        use_throttle_fn_with_arg_and_options(|arg: u8| log.borrow_mut().push(arg), 1000, options);

    assert_eq!(throttled.call(0, 1), ran(TimerCommand::Arm(1000)));
    assert_eq!(throttled.call(400, 2), held(TimerCommand::Keep));
    assert_eq!(throttled.gate().pending_args(), Some(&2));
    assert_eq!(throttled.expire(1000), held(TimerCommand::Keep));
    assert_eq!(throttled.gate().pending_args(), None);
    assert_eq!(throttled.call(1000, 3), ran(TimerCommand::Arm(1000)));
    assert_eq!(*log.borrow(), vec![1, 3]);
}

#[test]
fn throttle_with_neither_edge_never_runs() {
    let count = RefCell::new(0u32);
    let options = ThrottleOptions { leading: false, trailing: false };
    let mut throttled = use_throttle_fn_with_options(|| *count.borrow_mut() += 1, 1000, options);

    assert_eq!(throttled.call(0), held(TimerCommand::Arm(1000)));
    assert_eq!(throttled.call(10), held(TimerCommand::Keep));
    assert!(throttled.gate().has_pending());
    assert_eq!(throttled.expire(1000), held(TimerCommand::Keep));
    assert!(!throttled.gate().has_pending());
    assert_eq!(throttled.call(5000), held(TimerCommand::Arm(1000)));
    assert_eq!(throttled.expire(6000), held(TimerCommand::Keep));
    assert_eq!(*count.borrow(), 0);
    assert!(throttled.last_result().is_none());
}

#[test]
fn throttle_call_at_the_deadline_counts_the_window_as_closed() {
    let log: RefCell<Vec<u8>> = RefCell::new(Vec::new());
    let mut throttled = use_throttle_fn_with_arg(|arg: u8| log.borrow_mut().push(arg), 1000);

    assert_eq!(throttled.call(0, 1), ran(TimerCommand::Arm(1000)));
    assert_eq!(throttled.call(500, 2), held(TimerCommand::Keep));
    // The expiry has not been delivered, but its time has come: the recorded
    // call runs, and this one is recorded for the window that opens now.
    assert_eq!(throttled.call(1000, 3), ran(TimerCommand::Arm(1000)));
    assert_eq!(*log.borrow(), vec![1, 2]);
    assert_eq!(throttled.gate().pending_args(), Some(&3));
    assert_eq!(throttled.expire(1999), held(TimerCommand::Arm(1)));
    assert_eq!(throttled.expire(2000), ran(TimerCommand::Arm(1000)));
    assert_eq!(*log.borrow(), vec![1, 2, 3]);
}

#[test]
fn throttle_call_after_a_quiet_window_leads_again() {
    let log: RefCell<Vec<u8>> = RefCell::new(Vec::new());
    let mut throttled = use_throttle_fn_with_arg(|arg: u8| log.borrow_mut().push(arg), 1000);

    assert_eq!(throttled.call(0, 1), ran(TimerCommand::Arm(1000)));
    // No expiry was delivered; at 1000 the window is over all the same.
    assert_eq!(throttled.call(1000, 2), ran(TimerCommand::Arm(1000)));
    assert_eq!(*log.borrow(), vec![1, 2]);
    assert_eq!(throttled.gate().strategy().last_exec_at(), Some(1000));
}

#[test]
fn throttle_zero_window_runs_every_call() {
    let log: RefCell<Vec<u8>> = RefCell::new(Vec::new());
    let mut throttled = use_throttle_fn_with_arg(|arg: u8| log.borrow_mut().push(arg), 0);

    assert_eq!(throttled.call(7, 1), ran(TimerCommand::Keep));
    assert_eq!(throttled.call(7, 2), ran(TimerCommand::Keep));
    assert_eq!(throttled.call(8, 3), ran(TimerCommand::Keep));
    assert_eq!(*log.borrow(), vec![1, 2, 3]);
    assert!(!throttled.gate().strategy().has_pending_timer());
}

#[test]
fn throttle_negative_window_is_no_window() {
    let log: RefCell<Vec<u8>> = RefCell::new(Vec::new());
    let options = ThrottleOptions { leading: false, trailing: false };
    let mut throttled =
        use_throttle_fn_with_arg_and_options(|arg: u8| log.borrow_mut().push(arg), -250, options);

    assert_eq!(throttled.call(0, 1), ran(TimerCommand::Keep));
    assert_eq!(throttled.call(0, 2), ran(TimerCommand::Keep));
    assert_eq!(*log.borrow(), vec![1, 2]);
}

#[test]
fn throttle_window_change_leaves_the_armed_deadline() {
    let log: RefCell<Vec<u8>> = RefCell::new(Vec::new());
    let mut throttled = use_throttle_fn_with_arg(|arg: u8| log.borrow_mut().push(arg), 1000);

    assert_eq!(throttled.call(0, 1), ran(TimerCommand::Arm(1000)));
    assert_eq!(throttled.call(10, 2), held(TimerCommand::Keep));
    throttled.set_window_ms(200);
    assert_eq!(throttled.gate().strategy().window_ms(), 200);
    assert_eq!(throttled.expire(300), held(TimerCommand::Arm(700)));
    // The window that opens at the expiry has the new length.
    assert_eq!(throttled.expire(1000), ran(TimerCommand::Arm(200)));
    assert_eq!(throttled.call(1100, 3), held(TimerCommand::Keep));
    assert_eq!(throttled.expire(1200), ran(TimerCommand::Arm(200)));
    assert_eq!(*log.borrow(), vec![1, 2, 3]);
}

#[test]
fn throttle_window_set_to_zero_cancels_the_pending_timer_at_the_next_call() {
    let log: RefCell<Vec<u8>> = RefCell::new(Vec::new());
    let mut throttled = use_throttle_fn_with_arg(|arg: u8| log.borrow_mut().push(arg), 1000);

    assert_eq!(throttled.call(0, 1), ran(TimerCommand::Arm(1000)));
    assert_eq!(throttled.call(10, 2), held(TimerCommand::Keep));
    throttled.set_window_ms(0);
    assert!(throttled.gate().strategy().has_pending_timer());
    assert_eq!(throttled.call(20, 3), ran(TimerCommand::Cancel));
    assert_eq!(*log.borrow(), vec![1, 3]);
    assert!(!throttled.gate().has_pending());
    assert_eq!(throttled.expire(1000), held(TimerCommand::Keep));
    assert_eq!(*log.borrow(), vec![1, 3]);
}

#[test]
fn throttle_disposal_drops_the_trailing_call() {
    let log: RefCell<Vec<u8>> = RefCell::new(Vec::new());
    let mut throttled = use_throttle_fn_with_arg(|arg: u8| log.borrow_mut().push(arg), 1000);

    assert_eq!(throttled.call(0, 1), ran(TimerCommand::Arm(1000)));
    assert_eq!(throttled.call(10, 2), held(TimerCommand::Keep));
    assert_eq!(throttled.dispose(), TimerCommand::Cancel);
    assert_eq!(throttled.expire(1000), held(TimerCommand::Keep));
    assert_eq!(throttled.expire(5000), held(TimerCommand::Keep));
    assert_eq!(*log.borrow(), vec![1]);
    assert_eq!(throttled.dispose(), TimerCommand::Keep);
    assert_eq!(throttled.gate().strategy().last_exec_at(), None);
}

#[test]
fn throttle_result_slot_keeps_the_last_completed_result() {
    let mut throttled = use_throttle_fn_with_arg(|arg: u32| arg * 2, 1000);

    assert_eq!(throttled.last_result(), None);
    assert!(throttled.call(0, 1).ran);
    assert_eq!(throttled.last_result(), Some(&2));
    assert!(!throttled.call(100, 5).ran);
    assert_eq!(throttled.last_result(), Some(&2));
    assert!(!throttled.call(200, 7).ran);
    assert_eq!(throttled.last_result(), Some(&2));
    assert!(throttled.expire(1000).ran);
    assert_eq!(throttled.last_result(), Some(&14));
}

#[test]
fn throttle_result_slot_stores_an_error_value_as_returned() {
    let mut throttled = use_throttle_fn_with_arg(
        |arg: i32| if arg >= 0 { Ok(arg) } else { Err(format!("negative: {arg}")) },
        0,
    );

    assert!(throttled.call(0, 4).ran);
    assert_eq!(throttled.last_result(), Some(&Ok(4)));
    assert!(throttled.call(1, -3).ran);
    assert_eq!(throttled.last_result(), Some(&Err(String::from("negative: -3"))));
    // Nothing is retried: the next call is a call like any other.
    assert!(throttled.call(2, 5).ran);
    assert_eq!(throttled.last_result(), Some(&Ok(5)));
}

#[test]
fn throttle_options_default_and_builders() {
    let options = ThrottleOptions::default();
    assert_eq!(options, ThrottleOptions { leading: true, trailing: true });
    assert_eq!(options.leading(false), ThrottleOptions { leading: false, trailing: true });
    assert_eq!(options.trailing(false), ThrottleOptions { leading: true, trailing: false });
    assert_eq!(
        options.leading(false).trailing(false).leading(true),
        ThrottleOptions { leading: true, trailing: false }
    );
}
