//! The two tasks under one cooperative executor.
//!
//! A single-threaded executor interleaves the measurement cycle and the
//! blinker, switching only at suspension points; the schedule — which task
//! runs next, and what event its driver reports — is outside the tasks'
//! control. The tasks own disjoint pins and share no state, so neither can
//! disturb the other: this module states that as a theorem over every
//! schedule.

use vstd::prelude::*;
use crate::blink::BlinkPhase;
use crate::blink::blink_step_spec;
use crate::ranging::Event;
use crate::ranging::Phase;
use crate::ranging::step_spec;

verus! {

/// Which task the executor resumes.
#[derive(Clone, Copy, Debug, PartialEq, Eq, Structural)]
pub enum TaskId {
    /// The measurement cycle.
    Ranging,
    /// The blinker.
    Blink,
}

/// The phases of both tasks, side by side.
#[derive(Clone, Copy, Debug, PartialEq, Eq, Structural)]
pub struct SystemState {
    /// The measurement cycle's phase.
    pub ranging: Phase,
    /// The blinker's phase.
    pub blink: BlinkPhase,
}

/// One executor step: resume `task`, delivering `event` if it is the
/// measurement cycle (the blinker's only event is its sleep elapsing).
/// Each task steps its own phase; the other task's phase is untouched.
pub open spec fn sys_step_spec(s: SystemState, task: TaskId, event: Event) -> SystemState {
    match task {
        TaskId::Ranging => SystemState {
            ranging: step_spec(s.ranging, event).0,
            blink: s.blink,
        },
        TaskId::Blink => SystemState {
            ranging: s.ranging,
            blink: blink_step_spec(s.blink).0,
        },
    }
}

/// The system after the executor has run a whole schedule, first entry
/// first.
pub open spec fn sys_run_spec(s: SystemState, sched: Seq<(TaskId, Event)>) -> SystemState
    decreases sched.len(),
{
    if sched.len() == 0 {
        s
    } else {
        sys_run_spec(sys_step_spec(s, sched[0].0, sched[0].1), sched.drop_first())
    }
}

/// The measurement cycle run on its own, with no executor and no blinker.
pub open spec fn ranging_run_spec(phase: Phase, events: Seq<Event>) -> Phase
    decreases events.len(),
{
    if events.len() == 0 {
        phase
    } else {
        ranging_run_spec(step_spec(phase, events[0]).0, events.drop_first())
    }
}

/// The events a schedule delivers to the measurement cycle, in order.
pub open spec fn ranging_events(sched: Seq<(TaskId, Event)>) -> Seq<Event>
    decreases sched.len(),
{
    if sched.len() == 0 {
        Seq::<Event>::empty()
    } else if sched[0].0 is Ranging {
        seq![sched[0].1] + ranging_events(sched.drop_first())
    } else {
        ranging_events(sched.drop_first())
    }
}

/// Law: a blinker step never moves the measurement cycle's phase.
pub proof fn lemma_blink_step_preserves_ranging(s: SystemState, event: Event)
    ensures
        sys_step_spec(s, TaskId::Blink, event).ranging == s.ranging,
{
}

/// Law: the blinker does not disturb the measurement cycle. Under any
/// schedule — however the executor interleaves the two tasks — the
/// measurement cycle ends in exactly the phase it reaches when run alone on
/// the events the schedule delivered to it. Its trigger/echo sequence
/// therefore depends on the executor only through when its own events
/// arrive, never on the blinker.
pub proof fn lemma_blink_does_not_disturb_ranging(s: SystemState, sched: Seq<(TaskId, Event)>)
    ensures
        sys_run_spec(s, sched).ranging == ranging_run_spec(s.ranging, ranging_events(sched)),
    decreases sched.len(),
{
    if sched.len() == 0 {
    } else {
        let stepped = sys_step_spec(s, sched[0].0, sched[0].1);
        lemma_blink_does_not_disturb_ranging(stepped, sched.drop_first());
        if sched[0].0 is Ranging {
            let evs = ranging_events(sched);
            assert(evs == seq![sched[0].1] + ranging_events(sched.drop_first()));
            assert(evs[0] == sched[0].1);
            assert(evs.drop_first() =~= ranging_events(sched.drop_first()));
        } else {
            assert(stepped.ranging == s.ranging);
        }
    }
}

} // verus!
