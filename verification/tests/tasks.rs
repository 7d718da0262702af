use ultrasonic_ranger::blink::blink_step;
use ultrasonic_ranger::blink::BlinkAction;
use ultrasonic_ranger::blink::BlinkPhase;
use ultrasonic_ranger::ranging::ranging_step;
use ultrasonic_ranger::ranging::Action;
use ultrasonic_ranger::ranging::Event;
use ultrasonic_ranger::ranging::Phase;

/// Drives one full successful cycle and returns the actions in order.
fn drive_cycle(rise_at: u64, fall_at: u64) -> (Vec<Action>, Phase) {
    let mut phase = Phase::Idle;
    let mut actions: Vec<Action> = Vec::new();
    let events = [
        Event::Start,
        Event::SleepDone,
        Event::SleepDone,
        Event::EchoRose { at: rise_at },
        Event::EchoFell { at: fall_at },
        Event::SleepDone,
    ];
    for event in events {
        let (next, action) = ranging_step(phase, event);
        phase = next;
        actions.push(action);
    }
    (actions, phase)
}

#[test]
fn cycle_emits_the_protocol_in_order() {
    // Rise at 1000 us, fall at 6000 us: elapsed 5000 us, 85.75 cm,
    // duty 85 * 100.
    let (actions, end) = drive_cycle(1_000, 6_000);
    assert_eq!(
        actions,
        vec![
            Action::SettleTriggerLow,
            Action::PulseTriggerHigh,
            Action::EndPulseAwaitRise,
            Action::AwaitFall,
            Action::DelayBeforeReport,
            Action::SetDuty { duty: 8_500 },
        ]
    );
    assert_eq!(end, Phase::Idle);
}

#[test]
fn out_of_window_echo_reports_max_range_duty() {
    // Elapsed 50 us: crosstalk, clamped to 400 cm, duty 400 * 100.
    let (actions, end) = drive_cycle(2_000, 2_050);
    assert_eq!(*actions.last().unwrap(), Action::SetDuty { duty: 40_000 });
    assert_eq!(end, Phase::Idle);
}

#[test]
fn zero_reading_reports_zero_duty() {
    // Elapsed 110 us: inside the window, raw 1.8865 cm < 2 cm, zero reading.
    let (actions, end) = drive_cycle(500, 610);
    assert_eq!(*actions.last().unwrap(), Action::SetDuty { duty: 0 });
    assert_eq!(end, Phase::Idle);
}

#[test]
fn timing_inversion_faults() {
    let phase = Phase::AwaitingEchoFall { rise_at: 6_000 };
    let (next, action) = ranging_step(phase, Event::EchoFell { at: 5_999 });
    assert_eq!(next, Phase::Faulted);
    assert_eq!(action, Action::Halt);
}

#[test]
fn equal_instants_are_not_an_inversion() {
    let phase = Phase::AwaitingEchoFall { rise_at: 6_000 };
    let (next, action) = ranging_step(phase, Event::EchoFell { at: 6_000 });
    assert_eq!(next, Phase::Computing { elapsed: 0 });
    assert_eq!(action, Action::DelayBeforeReport);
}

#[test]
fn unexpected_event_faults() {
    let (next, action) = ranging_step(Phase::Idle, Event::SleepDone);
    assert_eq!(next, Phase::Faulted);
    assert_eq!(action, Action::Halt);
}

#[test]
fn fault_is_permanent() {
    let (next, action) = ranging_step(Phase::Faulted, Event::Start);
    assert_eq!(next, Phase::Faulted);
    assert_eq!(action, Action::Halt);
    let (next, action) = ranging_step(next, Event::EchoRose { at: 7 });
    assert_eq!(next, Phase::Faulted);
    assert_eq!(action, Action::Halt);
}

#[test]
fn blink_alternates_forever() {
    let mut phase = BlinkPhase::LedLow;
    for round in 0..6 {
        let (next, action) = blink_step(phase);
        if round % 2 == 0 {
            assert_eq!(next, BlinkPhase::LedHigh);
            assert_eq!(action, BlinkAction::SetHigh);
        } else {
            assert_eq!(next, BlinkPhase::LedLow);
            assert_eq!(action, BlinkAction::SetLow);
        }
        phase = next;
    }
}

#[test]
fn interleaved_blinking_leaves_the_cycle_unchanged() {
    // Run the same cycle twice, the second time stepping the blinker at
    // every suspension point, and compare the cycle's actions and phases.
    let (alone, end_alone) = drive_cycle(1_000, 6_000);

    let mut phase = Phase::Idle;
    let mut blink = BlinkPhase::LedLow;
    let mut actions: Vec<Action> = Vec::new();
    let events = [
        Event::Start,
        Event::SleepDone,
        Event::SleepDone,
        Event::EchoRose { at: 1_000 },
        Event::EchoFell { at: 6_000 },
        Event::SleepDone,
    ];
    for event in events {
        let (b, _) = blink_step(blink);
        blink = b;
        let (next, action) = ranging_step(phase, event);
        phase = next;
        actions.push(action);
        let (b, _) = blink_step(blink);
        blink = b;
    }
    assert_eq!(actions, alone);
    assert_eq!(phase, end_alone);
}
