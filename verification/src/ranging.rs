//! The measurement cycle of the ultrasonic sensor, as a state machine.
//!
//! The driver owns the trigger pin, the echo pin and the PWM channel, and
//! performs each [`Action`] this module hands it: it sets pin levels, sleeps,
//! waits for echo edges and writes the PWM duty. When the action's suspension
//! is over it reports an [`Event`] — with the instant, in microseconds of a
//! monotonic clock, at which an echo edge was seen — and asks for the next
//! step. The cycle order is load-bearing: settle the trigger low, hold it
//! high for the datasheet's pulse width, time the echo window, wait out the
//! inter-cycle delay, then report the distance as a PWM duty.
//!
//! Policy for a timing inversion (echo fall before echo rise): the clock is
//! monotonic, so an inversion means broken wiring or a broken driver. The
//! machine enters [`Phase::Faulted`] and answers [`Action::Halt`] forever; it
//! never invents a reading. The driver decides how to halt.

use vstd::prelude::*;
use crate::distance::calculate_speed;
use crate::distance::speed_spec;
use crate::distance::SCALE;

verus! {

/// Milliseconds the trigger is held low before a pulse, settling any prior
/// echo.
pub const SETTLE_MS: u64 = 10;

/// Microseconds the trigger is held high: the pulse width the sensor's
/// datasheet mandates.
pub const PULSE_MICROS: u64 = 10;

/// Milliseconds between the echo's fall and the duty report.
pub const REPORT_DELAY_MS: u64 = 100;

/// Where the measurement cycle stands.
#[derive(Clone, Copy, Debug, PartialEq, Eq, Structural)]
pub enum Phase {
    /// Between cycles; nothing in flight.
    Idle,
    /// Trigger held low, settling.
    TriggerLow,
    /// Trigger held high, emitting the pulse.
    TriggerHigh,
    /// Pulse sent; waiting for the echo pin to rise.
    AwaitingEchoRise,
    /// Echo pin high; waiting for it to fall.
    AwaitingEchoFall {
        /// Instant of the rising edge, microseconds.
        rise_at: u64,
    },
    /// Echo timed; waiting out the inter-cycle delay.
    Computing {
        /// Echo round-trip time, microseconds.
        elapsed: u64,
    },
    /// A timing inversion or a protocol violation occurred; unrecoverable.
    Faulted,
}

/// What the driver reports back after performing an action.
#[derive(Clone, Copy, Debug, PartialEq, Eq, Structural)]
pub enum Event {
    /// Begin a measurement cycle (from idle), or acknowledge a duty write.
    Start,
    /// The requested sleep has elapsed.
    SleepDone,
    /// The echo pin went high at this instant, microseconds.
    EchoRose {
        /// Instant of the edge.
        at: u64,
    },
    /// The echo pin went low at this instant, microseconds.
    EchoFell {
        /// Instant of the edge.
        at: u64,
    },
}

/// What the driver must do next. Every variant but the last suspends, and
/// names the event that answers it.
#[derive(Clone, Copy, Debug, PartialEq, Eq, Structural)]
pub enum Action {
    /// Set the trigger pin low and sleep [`SETTLE_MS`]; answer `SleepDone`.
    SettleTriggerLow,
    /// Set the trigger pin high and sleep [`PULSE_MICROS`]; answer
    /// `SleepDone`.
    PulseTriggerHigh,
    /// Set the trigger pin low, then wait for the echo pin to rise; answer
    /// `EchoRose` with the instant.
    EndPulseAwaitRise,
    /// Wait for the echo pin to fall; answer `EchoFell` with the instant.
    AwaitFall,
    /// Sleep [`REPORT_DELAY_MS`]; answer `SleepDone`.
    DelayBeforeReport,
    /// Write this PWM duty, then answer `Start` to begin the next cycle.
    SetDuty {
        /// Whole centimeters of the reading, times 100.
        duty: u16,
    },
    /// Unrecoverable fault; stop driving the cycle.
    Halt,
}

/// The duty reported for an echo of `elapsed` microseconds: the reading's
/// whole centimeters, fraction discarded, times 100. At most 40 000, since a
/// reading never exceeds 400 cm.
pub open spec fn duty_spec(elapsed: u64) -> u16 {
    ((speed_spec(elapsed).centimeters / SCALE) * 100) as u16
}

/// One transition of the measurement cycle: from a phase and the event the
/// driver reports, to the next phase and the next action. Total: an event
/// that the phase does not expect is a protocol violation and faults the
/// machine, as a timing inversion does.
pub open spec fn step_spec(phase: Phase, event: Event) -> (Phase, Action) {
    match (phase, event) {
        (Phase::Idle, Event::Start) => (Phase::TriggerLow, Action::SettleTriggerLow),
        (Phase::TriggerLow, Event::SleepDone) => (Phase::TriggerHigh, Action::PulseTriggerHigh),
        (Phase::TriggerHigh, Event::SleepDone) => (
            Phase::AwaitingEchoRise,
            Action::EndPulseAwaitRise,
        ),
        (Phase::AwaitingEchoRise, Event::EchoRose { at }) => (
            Phase::AwaitingEchoFall { rise_at: at },
            Action::AwaitFall,
        ),
        (Phase::AwaitingEchoFall { rise_at }, Event::EchoFell { at }) => if rise_at <= at {
            (Phase::Computing { elapsed: (at - rise_at) as u64 }, Action::DelayBeforeReport)
        } else {
            (Phase::Faulted, Action::Halt)
        },
        (Phase::Computing { elapsed }, Event::SleepDone) => (
            Phase::Idle,
            Action::SetDuty { duty: duty_spec(elapsed) },
        ),
        _ => (Phase::Faulted, Action::Halt),
    }
}

/// Performs one transition of the measurement cycle.
pub fn ranging_step(phase: Phase, event: Event) -> (r: (Phase, Action))
    ensures
        r == step_spec(phase, event),
{
    match (phase, event) {
        (Phase::Idle, Event::Start) => (Phase::TriggerLow, Action::SettleTriggerLow),
        (Phase::TriggerLow, Event::SleepDone) => (Phase::TriggerHigh, Action::PulseTriggerHigh),
        (Phase::TriggerHigh, Event::SleepDone) => (
            Phase::AwaitingEchoRise,
            Action::EndPulseAwaitRise,
        ),
        (Phase::AwaitingEchoRise, Event::EchoRose { at }) => (
            Phase::AwaitingEchoFall { rise_at: at },
            Action::AwaitFall,
        ),
        (Phase::AwaitingEchoFall { rise_at }, Event::EchoFell { at }) => if rise_at <= at {
            (Phase::Computing { elapsed: at - rise_at }, Action::DelayBeforeReport)
        } else {
            (Phase::Faulted, Action::Halt)
        },
        (Phase::Computing { elapsed }, Event::SleepDone) => {
            let reading = calculate_speed(elapsed);
            let whole: u64 = reading.centimeters / SCALE;
            assert(whole <= 400);
            (Phase::Idle, Action::SetDuty { duty: (whole as u16) * 100 })
        },
        _ => (Phase::Faulted, Action::Halt),
    }
}

/// Law: one successful cycle, step by step. From idle, with a rising edge at
/// `t0` and a falling edge at `t1 >= t0`, the machine emits exactly the
/// cycle's six actions in order — settle low, pulse high, end pulse and
/// await the rise, await the fall, wait out the report delay, write the duty
/// for the elapsed time `t1 - t0` — and returns to idle.
pub proof fn lemma_cycle_protocol(t0: u64, t1: u64)
    requires
        t0 <= t1,
    ensures
        step_spec(Phase::Idle, Event::Start) == (Phase::TriggerLow, Action::SettleTriggerLow),
        step_spec(Phase::TriggerLow, Event::SleepDone) == (
            Phase::TriggerHigh,
            Action::PulseTriggerHigh,
        ),
        step_spec(Phase::TriggerHigh, Event::SleepDone) == (
            Phase::AwaitingEchoRise,
            Action::EndPulseAwaitRise,
        ),
        step_spec(Phase::AwaitingEchoRise, (Event::EchoRose { at: t0 })) == (
            (Phase::AwaitingEchoFall { rise_at: t0 }),
            Action::AwaitFall,
        ),
        step_spec((Phase::AwaitingEchoFall { rise_at: t0 }), (Event::EchoFell { at: t1 })) == (
            (Phase::Computing { elapsed: (t1 - t0) as u64 }),
            Action::DelayBeforeReport,
        ),
        step_spec((Phase::Computing { elapsed: (t1 - t0) as u64 }), Event::SleepDone) == (
            Phase::Idle,
            (Action::SetDuty { duty: duty_spec((t1 - t0) as u64) }),
        ),
{
}

/// Law: a timing inversion — the falling edge reported before the rising
/// edge — faults the machine instead of producing a reading.
pub proof fn lemma_inversion_faults(t0: u64, t1: u64)
    requires
        t1 < t0,
    ensures
        step_spec((Phase::AwaitingEchoFall { rise_at: t0 }), (Event::EchoFell { at: t1 })) == (
            Phase::Faulted,
            Action::Halt,
        ),
{
}

/// Law: a fault is permanent: whatever the driver reports, a faulted
/// machine stays faulted and keeps answering `Halt`.
pub proof fn lemma_fault_is_permanent(event: Event)
    ensures
        step_spec(Phase::Faulted, event) == (Phase::Faulted, Action::Halt),
{
}

} // verus!
