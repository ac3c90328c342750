//! The transition table: what each event does to each state.

use vstd::prelude::*;
use crate::action::Action;
use crate::state::AlarmState;

verus! {

/// An inbound event. Motion events carry the darkness flag that the caller
/// obtained for the moment of the event.
#[derive(Clone, Copy, PartialEq, Eq, Debug, Structural)]
pub enum Event {
    /// The code that toggles between disarmed and armed-away was entered.
    ArmDisarmToggle,
    /// The code that toggles between disarmed and armed-home was entered.
    ArmDisarmQuietToggle,
    /// An exterior sensor reported a breach.
    TriggerAway,
    /// An interior sensor reported a breach.
    TriggerHome,
    /// Motion was seen downstairs.
    MotionDownstairs { dark: bool },
    /// Motion was seen upstairs.
    MotionUpstairs { dark: bool },
}

/// What an event leads to: the state afterwards, the action to carry out, if
/// any, and whether the state has to be written to the store.
#[derive(Clone, Copy, PartialEq, Eq, Debug)]
pub struct Outcome {
    /// The state after the event.
    pub state: AlarmState,
    /// The actuator action that accompanies the event.
    pub action: Option<Action>,
    /// Whether `state` is to be stored before the event counts as handled.
    pub persist: bool,
}

/// A transition to `state`, accompanied by `action` and a write to the store.
pub open spec fn moved(state: AlarmState, action: Action) -> Outcome {
    Outcome { state, action: Some(action), persist: true }
}

/// No transition: the state stays, nothing is stored, and `action` is at most
/// a side effect that leaves no trace in the state.
pub open spec fn stayed(state: AlarmState, action: Option<Action>) -> Outcome {
    Outcome { state, action, persist: false }
}

/// The transition table.
pub open spec fn outcome_of(state: AlarmState, event: Event) -> Outcome {
    match event {
        Event::ArmDisarmToggle => if state == AlarmState::Disarmed {
            moved(AlarmState::ArmedAway, Action::ArmAway)
        } else {
            moved(AlarmState::Disarmed, Action::Disarm)
        },
        Event::ArmDisarmQuietToggle => if state == AlarmState::Disarmed {
            moved(AlarmState::ArmedHome, Action::ArmQuiet)
        } else {
            moved(AlarmState::Disarmed, Action::DisarmQuiet)
        },
        Event::TriggerAway => if state.is_armed() {
            moved(AlarmState::Alarm, Action::AlarmTrigger)
        } else {
            stayed(state, None)
        },
        Event::TriggerHome => if state == AlarmState::ArmedHome {
            moved(AlarmState::Alarm, Action::AlarmTrigger)
        } else {
            stayed(state, None)
        },
        Event::MotionDownstairs { dark } => if dark && state == AlarmState::Disarmed {
            stayed(state, Some(Action::LightStaircase))
        } else {
            stayed(state, None)
        },
        Event::MotionUpstairs { dark } => if dark && state == AlarmState::Disarmed {
            stayed(state, Some(Action::LightStaircase))
        } else if dark && state.is_armed() {
            stayed(state, Some(Action::LightDesklamp))
        } else {
            stayed(state, None)
        },
    }
}

/// The state after a run of events, handled one after another.
pub open spec fn state_after(state: AlarmState, events: Seq<Event>) -> AlarmState
    decreases events.len(),
{
    if events.len() == 0 {
        state
    } else {
        outcome_of(state_after(state, events.drop_last()), events.last()).state
    }
}

/// The state that the store holds after a run of events, where it held
/// `stored` before and every write that an outcome asks for is made.
pub open spec fn stored_after(stored: AlarmState, state: AlarmState, events: Seq<Event>)
    -> AlarmState
    decreases events.len(),
{
    if events.len() == 0 {
        stored
    } else {
        let outcome = outcome_of(state_after(state, events.drop_last()), events.last());
        if outcome.persist {
            outcome.state
        } else {
            stored_after(stored, state, events.drop_last())
        }
    }
}

} // verus!
