//! Double CTRL+C exit detection.

use vstd::prelude::*;
use std::time::{Duration, Instant};

verus! {

#[verifier::external_type_specification]
#[verifier::external_body]
pub struct ExInstant(Instant);

/// `Instant::now`: reads the monotonic clock; nothing is stated of the value.
#[verifier::external_body]
fn instant_now() -> Instant {
    Instant::now()
}

/// `Instant::duration_since`: time elapsed from `earlier` to `later` (zero when
/// `later` is earlier). It depends on clock readings, so nothing is stated.
#[verifier::external_body]
fn duration_since(later: Instant, earlier: Instant) -> Duration {
    later.duration_since(earlier)
}

/// `Duration::as_millis`: whole milliseconds of a duration; the duration is
/// opaque here, so nothing is stated of the number.
#[verifier::external_body]
fn duration_as_millis(d: Duration) -> u128 {
    d.as_millis()
}

/// Presses further apart than this (in milliseconds) start a new count.
pub const RESET_DURATION_MS: u128 = 2000;

/// Exit detection state
#[derive(Debug, Clone, Default)]
pub struct ExitState {
    /// Consecutive CTRL+C press count for exit detection
    ctrl_c_press_count: u8,
    /// Last CTRL+C press timestamp (for reset)
    last_ctrl_c_time: Option<Instant>,
}

impl ExitState {
    /// Presses counted so far.
    pub closed spec fn press_count(&self) -> nat {
        self.ctrl_c_press_count as nat
    }

    /// When the latest press was recorded, if one was since the last reset;
    /// the next press's interval is measured from it.
    pub closed spec fn last_press(&self) -> Option<Instant> {
        self.last_ctrl_c_time
    }

    /// Whether a press has been recorded since the last reset.
    pub open spec fn has_last_press(&self) -> bool {
        self.last_press().is_some()
    }

    pub fn new() -> (s: Self)
        ensures
            s.press_count() == 0,
            s.last_press().is_none(),
    {
        ExitState { ctrl_c_press_count: 0, last_ctrl_c_time: None }
    }

    /// Counts a press made at `now`, `since_last_ms` milliseconds after the
    /// previous recorded press (ignored when there is none). Returns whether
    /// this is the second press of a run, which means exit.
    pub fn register_press(&mut self, now: Instant, since_last_ms: u128) -> (exit: bool)
        requires
            old(self).press_count() < 255,
        ensures
            final(self).press_count() == (if old(self).has_last_press() && since_last_ms > RESET_DURATION_MS {
                0
            } else {
                old(self).press_count()
            }) + 1,
            final(self).last_press() == Some(now),
            exit == (final(self).press_count() >= 2),
    {
        if self.last_ctrl_c_time.is_some() && since_last_ms > RESET_DURATION_MS {
            self.ctrl_c_press_count = 0;
        }
        self.ctrl_c_press_count = self.ctrl_c_press_count + 1;
        self.last_ctrl_c_time = Some(now);
        self.ctrl_c_press_count >= 2
    }

    /// Record a CTRL+C press and return whether it should trigger exit
    pub fn record_ctrl_c_press(&mut self) -> (exit: bool)
        requires
            old(self).press_count() < 255,
        ensures
            final(self).has_last_press(),
            !old(self).has_last_press() ==> final(self).press_count() == old(self).press_count() + 1,
            old(self).has_last_press() ==> final(self).press_count() == old(self).press_count() + 1
                || final(self).press_count() == 1,
            exit == (final(self).press_count() >= 2),
    {
        let now = instant_now();
        let since = match self.last_ctrl_c_time {
            Some(last) => duration_as_millis(duration_since(now, last)),
            None => 0,
        };
        self.register_press(now, since)
    }

    /// Reset CTRL+C press count
    pub fn reset_ctrl_c_count(&mut self)
        ensures
            final(self).press_count() == 0,
            final(self).last_press().is_none(),
    {
        self.ctrl_c_press_count = 0;
        self.last_ctrl_c_time = None;
    }
}

} // verus!
