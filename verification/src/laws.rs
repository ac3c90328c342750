//! Laws of the transition table, each proved for every state and every run
//! of events.

use vstd::prelude::*;
use crate::action::Action;
use crate::machine::{outcome_of, state_after, stored_after, Event};
use crate::state::AlarmState;

verus! {

/// The armed state that a toggle event leads to from `Disarmed`.
pub open spec fn armed_by(toggle: Event) -> AlarmState {
    if toggle == Event::ArmDisarmQuietToggle {
        AlarmState::ArmedHome
    } else {
        AlarmState::ArmedAway
    }
}

/// Whether an event is one of the two toggles.
pub open spec fn is_toggle(event: Event) -> bool {
    event == Event::ArmDisarmToggle || event == Event::ArmDisarmQuietToggle
}

/// Whether an event reports motion.
pub open spec fn is_motion(event: Event) -> bool {
    event is MotionDownstairs || event is MotionUpstairs
}

/// A toggle arms a disarmed alarm, in the mode that belongs to the toggle,
/// and disarms it from every other state; either way the new state is stored.
pub proof fn lemma_toggle(state: AlarmState, toggle: Event)
    requires
        is_toggle(toggle),
    ensures
        state == AlarmState::Disarmed ==> outcome_of(state, toggle).state == armed_by(toggle),
        state != AlarmState::Disarmed ==> outcome_of(state, toggle).state == AlarmState::Disarmed,
        outcome_of(state, toggle).state != state,
        outcome_of(state, toggle).persist,
        outcome_of(state, toggle).action is Some,
{
}

/// An exterior breach while the alarm is disarmed or already raised is a
/// no-op: the state stays, no action is due and nothing is stored.
pub proof fn lemma_trigger_away_noop(state: AlarmState)
    requires
        state == AlarmState::Disarmed || state == AlarmState::Alarm,
    ensures
        outcome_of(state, Event::TriggerAway).state == state,
        outcome_of(state, Event::TriggerAway).action is None,
        !outcome_of(state, Event::TriggerAway).persist,
{
}

/// An exterior breach in either armed mode raises the alarm, with the one
/// alarm action, and stores the new state.
pub proof fn lemma_trigger_away_raises(state: AlarmState)
    requires
        state == AlarmState::ArmedAway || state == AlarmState::ArmedHome,
    ensures
        outcome_of(state, Event::TriggerAway).state == AlarmState::Alarm,
        outcome_of(state, Event::TriggerAway).action == Some(Action::AlarmTrigger),
        outcome_of(state, Event::TriggerAway).persist,
{
}

/// A breach event repeated right after itself changes nothing more: the
/// second one finds the alarm raised or disarmed, and is a no-op.
pub proof fn lemma_trigger_repeated_is_noop(state: AlarmState, trigger: Event)
    requires
        trigger == Event::TriggerAway || trigger == Event::TriggerHome,
    ensures
        ({
            let first = outcome_of(state, trigger);
            let second = outcome_of(first.state, trigger);
            second.state == first.state && second.action is None && !second.persist
        }),
{
}

/// An interior breach raises the alarm from armed-home and is a no-op in
/// every other state.
pub proof fn lemma_trigger_home(state: AlarmState)
    ensures
        state == AlarmState::ArmedHome ==> outcome_of(state, Event::TriggerHome).state
            == AlarmState::Alarm && outcome_of(state, Event::TriggerHome).action == Some(
            Action::AlarmTrigger,
        ) && outcome_of(state, Event::TriggerHome).persist,
        state != AlarmState::ArmedHome ==> outcome_of(state, Event::TriggerHome).state == state
            && outcome_of(state, Event::TriggerHome).action is None && !outcome_of(
            state,
            Event::TriggerHome,
        ).persist,
{
}

/// A motion event never changes the state and never asks for a write,
/// whatever the state and whether or not it is dark.
pub proof fn lemma_motion_keeps_state(state: AlarmState, motion: Event)
    requires
        is_motion(motion),
    ensures
        outcome_of(state, motion).state == state,
        !outcome_of(state, motion).persist,
{
}

/// Motion in daylight asks for no action.
pub proof fn lemma_motion_in_daylight(state: AlarmState)
    ensures
        outcome_of(state, Event::MotionDownstairs { dark: false }).action is None,
        outcome_of(state, Event::MotionUpstairs { dark: false }).action is None,
{
}

/// An outcome asks for a write exactly when the event changed the state, and
/// no state changes without an action.
pub proof fn lemma_write_iff_changed(state: AlarmState, event: Event)
    ensures
        outcome_of(state, event).persist <==> outcome_of(state, event).state != state,
        outcome_of(state, event).persist ==> outcome_of(state, event).action is Some,
{
}

/// The alarm is raised only by a breach event, and only from an armed state.
pub proof fn lemma_alarm_only_from_armed(state: AlarmState, event: Event)
    requires
        outcome_of(state, event).state == AlarmState::Alarm,
        state != AlarmState::Alarm,
    ensures
        state.is_armed(),
        event == Event::TriggerAway || event == Event::TriggerHome,
{
}

/// Handling one more event after a run is handling the run, then the event.
pub proof fn lemma_state_after_push(state: AlarmState, events: Seq<Event>, event: Event)
    ensures
        state_after(state, events.push(event)) == outcome_of(
            state_after(state, events),
            event,
        ).state,
{
    assert(events.push(event).drop_last() =~= events);
}

/// A store that holds the current state before a run of events holds the
/// current state after it: every change of state is written, and nothing but
/// the new state is ever written.
pub proof fn lemma_store_tracks_state(state: AlarmState, events: Seq<Event>)
    ensures
        stored_after(state, state, events) == state_after(state, events),
    decreases events.len(),
{
    if events.len() > 0 {
        lemma_store_tracks_state(state, events.drop_last());
        lemma_write_iff_changed(state_after(state, events.drop_last()), events.last());
    }
}

/// A run of motion events, however long, leaves the state where it was.
pub proof fn lemma_motion_run_keeps_state(state: AlarmState, events: Seq<Event>)
    requires
        forall|i: int| 0 <= i < events.len() ==> is_motion(#[trigger] events[i]),
    ensures
        state_after(state, events) == state,
    decreases events.len(),
{
    if events.len() > 0 {
        lemma_motion_run_keeps_state(state, events.drop_last());
    }
}

/// A run of one and the same toggle from `Disarmed` ends armed after an odd
/// number of events and disarmed after an even number. The events are all
/// alike, so this is the result of every order in which they can be handled
/// one after another.
pub proof fn lemma_toggle_run(toggle: Event, events: Seq<Event>)
    requires
        is_toggle(toggle),
        forall|i: int| 0 <= i < events.len() ==> #[trigger] events[i] == toggle,
    ensures
        state_after(AlarmState::Disarmed, events) == if events.len() % 2 == 0 {
            AlarmState::Disarmed
        } else {
            armed_by(toggle)
        },
        stored_after(AlarmState::Disarmed, AlarmState::Disarmed, events) == state_after(
            AlarmState::Disarmed,
            events,
        ),
    decreases events.len(),
{
    lemma_store_tracks_state(AlarmState::Disarmed, events);
    if events.len() > 0 {
        lemma_toggle_run(toggle, events.drop_last());
    }
}

} // verus!
