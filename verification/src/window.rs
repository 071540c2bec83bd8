//! The daily window of a security policy: day-bucketed counters and the
//! function allow-list.

use vstd::prelude::*;
use crate::error::ErrorCode;
use crate::state::{SecurityPolicy, SecurityPolicyView};

verus! {

/// Number of seconds in one day of the window.
pub const SECONDS_PER_DAY: i64 = 86400;

/// The day that a timestamp falls on: the timestamp divided by the length of
/// a day, rounded towards zero.
pub open spec fn day_number(timestamp: int) -> int {
    if timestamp >= 0 {
        timestamp / 86400
    } else {
        -((-timestamp) / 86400)
    }
}

/// Computes [`day_number`].
pub fn day_of(timestamp: i64) -> (day: i64)
    ensures
        day == day_number(timestamp as int),
{
    timestamp / SECONDS_PER_DAY
}

/// The counters of a policy: the part of it that an action changes.
#[derive(Clone, Copy, Debug, PartialEq, Eq)]
pub struct Window {
    /// How many actions were performed on `last_day`.
    pub daily_tx_count: u32,
    /// The amount moved on `last_day`.
    pub daily_amount: u64,
    /// The day that the counters are for.
    pub last_day: i64,
}

/// What a [`Window`] holds.
pub struct WindowView {
    pub daily_tx_count: nat,
    pub daily_amount: nat,
    pub last_day: int,
}

impl View for Window {
    type V = WindowView;

    open spec fn view(&self) -> WindowView {
        WindowView {
            daily_tx_count: self.daily_tx_count as nat,
            daily_amount: self.daily_amount as nat,
            last_day: self.last_day as int,
        }
    }
}

impl SecurityPolicyView {
    /// The counters of the policy.
    pub open spec fn window(self) -> WindowView {
        WindowView {
            daily_tx_count: self.daily_tx_count,
            daily_amount: self.daily_amount,
            last_day: self.last_day,
        }
    }

    /// The policy with its counters replaced.
    pub open spec fn with_window(self, window: WindowView) -> SecurityPolicyView {
        SecurityPolicyView {
            daily_tx_count: window.daily_tx_count,
            daily_amount: window.daily_amount,
            last_day: window.last_day,
            ..self
        }
    }
}

/// The counters that an action at `timestamp` leaves behind, or why the
/// action is refused.
///
/// On a day other than the one the counters are for, the counters start
/// afresh and the action is let through whatever the limits say: it is the
/// first action of its day. On the same day the action is refused once the
/// daily budget is used up, and otherwise when the allow-list does not let
/// `function_id` through. An action that is let through is counted once.
pub open spec fn next_window(policy: SecurityPolicyView, timestamp: int, function_id: u8) -> Result<
    WindowView,
    ErrorCode,
> {
    let today = day_number(timestamp);
    if policy.last_day != today {
        Ok(WindowView { daily_tx_count: 1, daily_amount: 0, last_day: today })
    } else if policy.daily_tx_count >= policy.max_tx_per_day {
        Err(ErrorCode::DailyTxLimitExceeded)
    } else if !policy.permits(function_id) {
        Err(ErrorCode::FunctionNotAllowed)
    } else {
        Ok(WindowView { daily_tx_count: policy.daily_tx_count + 1, ..policy.window() })
    }
}

/// The policy that an action at `timestamp` leaves behind, or why the action
/// is refused: [`next_window`] applied to the policy.
pub open spec fn window_step(policy: SecurityPolicyView, timestamp: int, function_id: u8) -> Result<
    SecurityPolicyView,
    ErrorCode,
> {
    match next_window(policy, timestamp, function_id) {
        Ok(window) => Ok(policy.with_window(window)),
        Err(e) => Err(e),
    }
}

/// [`window_step`] for a policy that may be absent. Without a policy every
/// action is let through.
pub open spec fn optional_window_step(
    policy: Option<SecurityPolicyView>,
    timestamp: int,
    function_id: u8,
) -> Result<Option<SecurityPolicyView>, ErrorCode> {
    match policy {
        None => Ok(None),
        Some(p) => match window_step(p, timestamp, function_id) {
            Ok(q) => Ok(Some(q)),
            Err(e) => Err(e),
        },
    }
}

/// Whether `function_id` occurs in `allowed`.
fn contains_function(allowed: &Vec<u8>, function_id: u8) -> (found: bool)
    ensures
        found == allowed@.contains(function_id),
{
    let mut i: usize = 0;
    while i < allowed.len()
        invariant
            i <= allowed@.len(),
            forall|j: int| 0 <= j < i ==> allowed@[j] != function_id,
        decreases allowed@.len() - i,
    {
        if allowed[i] == function_id {
            return true;
        }
        i += 1;
    }
    false
}

impl SecurityPolicy {
    /// Whether the allow-list lets `function_id` through.
    pub fn permits(&self, function_id: u8) -> (allowed: bool)
        ensures
            allowed == self@.permits(function_id),
    {
        self.allowed_functions.len() == 0 || contains_function(&self.allowed_functions, function_id)
    }

    /// The counters of the policy.
    pub fn window(&self) -> (window: Window)
        ensures
            window@ == self@.window(),
    {
        Window {
            daily_tx_count: self.daily_tx_count,
            daily_amount: self.daily_amount,
            last_day: self.last_day,
        }
    }

    /// Computes [`next_window`] and leaves the policy as it is.
    pub fn next_window(&self, timestamp: i64, function_id: u8) -> (r: Result<Window, ErrorCode>)
        ensures
            next_window(self@, timestamp as int, function_id) == (match r {
                Ok(window) => Ok(window@),
                Err(e) => Err(e),
            }),
    {
        let today = day_of(timestamp);
        if self.last_day != today {
            Ok(Window { daily_tx_count: 1, daily_amount: 0, last_day: today })
        } else if self.daily_tx_count >= self.max_tx_per_day {
            Err(ErrorCode::DailyTxLimitExceeded)
        } else if !self.permits(function_id) {
            Err(ErrorCode::FunctionNotAllowed)
        } else {
            Ok(
                Window {
                    daily_tx_count: self.daily_tx_count + 1,
                    daily_amount: self.daily_amount,
                    last_day: self.last_day,
                },
            )
        }
    }

    /// Replaces the counters of the policy.
    pub fn set_window(&mut self, window: Window)
        ensures
            final(self)@ == old(self)@.with_window(window@),
            final(self).user_id == old(self).user_id,
            final(self).allowed_functions == old(self).allowed_functions,
    {
        self.daily_tx_count = window.daily_tx_count;
        self.daily_amount = window.daily_amount;
        self.last_day = window.last_day;
    }

    /// Counts an action at `timestamp` against the policy, or refuses it and
    /// leaves the policy as it is.
    pub fn record_action(&mut self, timestamp: i64, function_id: u8) -> (r: Result<(), ErrorCode>)
        ensures
            window_step(old(self)@, timestamp as int, function_id) == (match r {
                Ok(()) => Ok(final(self)@),
                Err(e) => Err(e),
            }),
            r is Err ==> *final(self) == *old(self),
    {
        match self.next_window(timestamp, function_id) {
            Ok(window) => {
                self.set_window(window);
                Ok(())
            },
            Err(e) => Err(e),
        }
    }
}

} // verus!
