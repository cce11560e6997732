//! The timer primitive: one deadline slot, armed and cancelled by the filter,
//! served by whatever real timer the host owns.

use vstd::prelude::*;

verus! {

/// What the host does with its one real timer after the filter has taken a step.
#[derive(Clone, Copy, Debug, PartialEq, Eq, Structural)]
pub enum TimerCommand {
    /// Leave the timer as it is.
    Keep,
    /// Cancel the live timer, if there is one, and start one that fires after
    /// this many milliseconds.
    Arm(u64),
    /// Cancel the live timer, if there is one.
    Cancel,
}

/// A deadline has been reached at `now`: there is one, and it is not in the future.
pub open spec fn due(deadline: Option<int>, now: int) -> bool {
    deadline matches Some(d) && d <= now
}

/// Milliseconds from `now` to the deadline, as far as a `u64` can say it;
/// zero where there is no deadline or it has been reached.
pub open spec fn remaining(deadline: Option<int>, now: int) -> int {
    match deadline {
        Some(d) => if d <= now {
            0
        } else if d - now > u64::MAX {
            u64::MAX as int
        } else {
            d - now
        },
        None => 0,
    }
}

/// The command that takes a live timer away: nothing to do where none is live.
pub open spec fn cancel_command(deadline: Option<int>) -> TimerCommand {
    if deadline is Some {
        TimerCommand::Cancel
    } else {
        TimerCommand::Keep
    }
}

/// At most one armed deadline, in milliseconds on the host's clock.
///
/// The view is the deadline, if one is armed. Arming replaces the previous
/// deadline, so there is never a second one to fire.
#[derive(Clone, Copy, Debug)]
pub struct Timer {
    armed: bool,
    at: u64,
    delay: u64,
}

impl View for Timer {
    type V = Option<int>;

    closed spec fn view(&self) -> Option<int> {
        if self.armed {
            Some(self.at + self.delay)
        } else {
            None
        }
    }
}

impl Timer {
    /// A timer with nothing armed.
    pub fn new() -> (timer: Timer)
        ensures
            timer@ is None,
    {
        Timer { armed: false, at: 0, delay: 0 }
    }

    /// Arms the deadline `now + delay_ms`, replacing whatever was armed.
    pub fn schedule(&mut self, now: u64, delay_ms: u64)
        ensures
            final(self)@ == Some(now + delay_ms),
    {
        self.armed = true;
        self.at = now;
        self.delay = delay_ms;
    }

    /// Disarms the timer. Cancelling a timer that is not armed changes nothing.
    pub fn cancel(&mut self)
        ensures
            final(self)@ is None,
    {
        self.armed = false;
    }

    /// Whether a deadline is armed.
    pub fn is_armed(&self) -> (armed: bool)
        ensures
            armed == (self@ is Some),
    {
        self.armed
    }

    /// Whether the armed deadline has been reached at `now`.
    pub fn is_due(&self, now: u64) -> (reached: bool)
        ensures
            reached == due(self@, now as int),
    {
        self.armed && now >= self.at && now - self.at >= self.delay
    }

    /// Milliseconds from `now` until the armed deadline.
    pub fn remaining(&self, now: u64) -> (left: u64)
        ensures
            left == remaining(self@, now as int),
    {
        if !self.armed {
            0
        } else if now >= self.at {
            let elapsed: u64 = now - self.at;
            if elapsed >= self.delay {
                0
            } else {
                self.delay - elapsed
            }
        } else {
            let ahead: u64 = self.at - now;
            if ahead > u64::MAX - self.delay {
                u64::MAX
            } else {
                self.delay + ahead
            }
        }
    }
}

} // verus!
