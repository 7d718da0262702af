//! The status-LED blinker, as a state machine: a square wave of
//! [`HALF_PERIOD_MS`] high and [`HALF_PERIOD_MS`] low, forever.
//!
//! The driver owns the LED pin. Each step tells it which level to set and to
//! sleep half a period; when the sleep elapses it asks for the next step.

use vstd::prelude::*;

verus! {

/// Milliseconds the LED spends at each level: 1500 ms high, 1500 ms low.
pub const HALF_PERIOD_MS: u64 = 1_500;

/// The level the LED was last set to.
#[derive(Clone, Copy, Debug, PartialEq, Eq, Structural)]
pub enum BlinkPhase {
    /// The LED is off; the next step turns it on.
    LedLow,
    /// The LED is on; the next step turns it off.
    LedHigh,
}

/// What the driver must do next: set the LED to a level, then sleep
/// [`HALF_PERIOD_MS`].
#[derive(Clone, Copy, Debug, PartialEq, Eq, Structural)]
pub enum BlinkAction {
    /// Set the LED high, then sleep half a period.
    SetHigh,
    /// Set the LED low, then sleep half a period.
    SetLow,
}

/// One transition of the blinker: toggle to the other level.
pub open spec fn blink_step_spec(phase: BlinkPhase) -> (BlinkPhase, BlinkAction) {
    match phase {
        BlinkPhase::LedLow => (BlinkPhase::LedHigh, BlinkAction::SetHigh),
        BlinkPhase::LedHigh => (BlinkPhase::LedLow, BlinkAction::SetLow),
    }
}

/// Performs one transition of the blinker.
pub fn blink_step(phase: BlinkPhase) -> (r: (BlinkPhase, BlinkAction))
    ensures
        r == blink_step_spec(phase),
{
    match phase {
        BlinkPhase::LedLow => (BlinkPhase::LedHigh, BlinkAction::SetHigh),
        BlinkPhase::LedHigh => (BlinkPhase::LedLow, BlinkAction::SetLow),
    }
}

/// Law: the blinker alternates. Every step changes the level, and two steps
/// return to it, so the LED is a square wave with half-period
/// [`HALF_PERIOD_MS`].
pub proof fn lemma_blink_alternates(phase: BlinkPhase)
    ensures
        blink_step_spec(phase).0 != phase,
        blink_step_spec(blink_step_spec(phase).0).0 == phase,
{
}

} // verus!
