//! The alarm controller: the current state and the operations on it.

use vstd::prelude::*;
use crate::action::Action;
use crate::machine::{outcome_of, Event, Outcome};
use crate::state::{lemma_parse_exact, AlarmState};
use crate::store::{load_alarm_state, loaded_state, record_view};

verus! {

/// The alarm controller: the one place where the current state lives. It is
/// changed only through the event operations below. Each of them takes the
/// controller exclusively and returns a settled outcome, so no event ever
/// sees another half applied, and callers that share a controller have to
/// serialize their events.
///
/// An operation never fails: an event to which no transition applies leaves
/// the state as it is and asks for nothing.
pub struct AlarmController {
    current_state: AlarmState,
}

impl View for AlarmController {
    type V = AlarmState;

    closed spec fn view(&self) -> AlarmState {
        self.current_state
    }
}

impl AlarmController {
    /// A controller that starts in `initial`.
    pub fn new(initial: AlarmState) -> (controller: AlarmController)
        ensures
            controller@ == initial,
    {
        AlarmController { current_state: initial }
    }

    /// A controller seeded from the stored record, or from `None` where no
    /// record could be read. It starts `Disarmed` unless the record holds
    /// exactly the canonical bytes of another state.
    pub fn restore(record: Option<&[u8]>) -> (controller: AlarmController)
        ensures
            controller@ == loaded_state(record_view(record)),
    {
        AlarmController { current_state: load_alarm_state(record) }
    }

    /// The current state.
    pub fn current_state(&self) -> (state: AlarmState)
        ensures
            state == self@,
    {
        self.current_state
    }

    /// The status reply: the canonical text of the current state.
    pub fn get_status(&self) -> (status: String)
        ensures
            status@ == self@.canonical_text(),
            AlarmState::parse(status@) == Some(self@),
    {
        proof {
            lemma_parse_exact(self@.canonical_text(), self@);
        }
        self.current_state.to_string()
    }

    /// Toggles between disarmed and armed-away: a disarmed alarm is armed for
    /// an empty house, and any other state, a raised alarm too, is disarmed.
    pub fn arm_disarm_toggle(&mut self) -> (outcome: Outcome)
        ensures
            outcome == outcome_of(old(self)@, Event::ArmDisarmToggle),
            final(self)@ == outcome.state,
            old(self)@ == AlarmState::Disarmed ==> final(self)@ == AlarmState::ArmedAway
                && outcome.action == Some(Action::ArmAway),
            old(self)@ != AlarmState::Disarmed ==> final(self)@ == AlarmState::Disarmed
                && outcome.action == Some(Action::Disarm),
            outcome.persist,
    {
        let action = if self.current_state == AlarmState::Disarmed {
            self.current_state = AlarmState::ArmedAway;
            Action::ArmAway
        } else {
            self.current_state = AlarmState::Disarmed;
            Action::Disarm
        };
        Outcome { state: self.current_state, action: Some(action), persist: true }
    }

    /// Toggles between disarmed and armed-home: a disarmed alarm is armed
    /// with occupants present, and any other state is disarmed.
    pub fn arm_disarm_quiet_toggle(&mut self) -> (outcome: Outcome)
        ensures
            outcome == outcome_of(old(self)@, Event::ArmDisarmQuietToggle),
            final(self)@ == outcome.state,
            old(self)@ == AlarmState::Disarmed ==> final(self)@ == AlarmState::ArmedHome
                && outcome.action == Some(Action::ArmQuiet),
            old(self)@ != AlarmState::Disarmed ==> final(self)@ == AlarmState::Disarmed
                && outcome.action == Some(Action::DisarmQuiet),
            outcome.persist,
    {
        let action = if self.current_state == AlarmState::Disarmed {
            self.current_state = AlarmState::ArmedHome;
            Action::ArmQuiet
        } else {
            self.current_state = AlarmState::Disarmed;
            Action::DisarmQuiet
        };
        Outcome { state: self.current_state, action: Some(action), persist: true }
    }

    /// An exterior breach: raises the alarm from either armed mode, and does
    /// nothing at all while the alarm is disarmed or already raised.
    pub fn trigger_away(&mut self) -> (outcome: Outcome)
        ensures
            outcome == outcome_of(old(self)@, Event::TriggerAway),
            final(self)@ == outcome.state,
            old(self)@.is_armed() ==> final(self)@ == AlarmState::Alarm && outcome.action == Some(
                Action::AlarmTrigger,
            ) && outcome.persist,
            !old(self)@.is_armed() ==> final(self)@ == old(self)@ && outcome.action is None
                && !outcome.persist,
    {
        if self.current_state == AlarmState::ArmedAway || self.current_state
            == AlarmState::ArmedHome {
            self.current_state = AlarmState::Alarm;
            Outcome { state: self.current_state, action: Some(Action::AlarmTrigger), persist: true }
        } else {
            Outcome { state: self.current_state, action: None, persist: false }
        }
    }

    /// An interior breach: raises the alarm from armed-home only, and does
    /// nothing at all in any other state.
    pub fn trigger_home(&mut self) -> (outcome: Outcome)
        ensures
            outcome == outcome_of(old(self)@, Event::TriggerHome),
            final(self)@ == outcome.state,
            old(self)@ == AlarmState::ArmedHome ==> final(self)@ == AlarmState::Alarm
                && outcome.action == Some(Action::AlarmTrigger) && outcome.persist,
            old(self)@ != AlarmState::ArmedHome ==> final(self)@ == old(self)@
                && outcome.action is None && !outcome.persist,
    {
        if self.current_state == AlarmState::ArmedHome {
            self.current_state = AlarmState::Alarm;
            Outcome { state: self.current_state, action: Some(Action::AlarmTrigger), persist: true }
        } else {
            Outcome { state: self.current_state, action: None, persist: false }
        }
    }

    /// Motion downstairs: lights the staircase where it is dark and the alarm
    /// is disarmed. The state is only read.
    pub fn trigger_motion_downstairs(&self, dark: bool) -> (outcome: Outcome)
        ensures
            outcome == outcome_of(self@, Event::MotionDownstairs { dark }),
            outcome.state == self@,
            !outcome.persist,
            outcome.action == if dark && self@ == AlarmState::Disarmed {
                Some(Action::LightStaircase)
            } else {
                None
            },
    {
        let action = if dark && self.current_state == AlarmState::Disarmed {
            Some(Action::LightStaircase)
        } else {
            None
        };
        Outcome { state: self.current_state, action, persist: false }
    }

    /// Motion upstairs: where it is dark, lights the staircase while the
    /// alarm is disarmed and the desk lamp while it is armed. The state is
    /// only read.
    pub fn trigger_motion_upstairs(&self, dark: bool) -> (outcome: Outcome)
        ensures
            outcome == outcome_of(self@, Event::MotionUpstairs { dark }),
            outcome.state == self@,
            !outcome.persist,
            outcome.action == if dark && self@ == AlarmState::Disarmed {
                Some(Action::LightStaircase)
            } else if dark && self@.is_armed() {
                Some(Action::LightDesklamp)
            } else {
                None
            },
    {
        let mut action: Option<Action> = None;
        if dark {
            if self.current_state == AlarmState::Disarmed {
                action = Some(Action::LightStaircase);
            } else if self.current_state == AlarmState::ArmedAway || self.current_state
                == AlarmState::ArmedHome {
                action = Some(Action::LightDesklamp);
            }
        }
        Outcome { state: self.current_state, action, persist: false }
    }

    /// Handles one event, whichever it is.
    pub fn handle(&mut self, event: Event) -> (outcome: Outcome)
        ensures
            outcome == outcome_of(old(self)@, event),
            final(self)@ == outcome.state,
            outcome.persist <==> final(self)@ != old(self)@,
    {
        match event {
            Event::ArmDisarmToggle => self.arm_disarm_toggle(),
            Event::ArmDisarmQuietToggle => self.arm_disarm_quiet_toggle(),
            Event::TriggerAway => self.trigger_away(),
            Event::TriggerHome => self.trigger_home(),
            Event::MotionDownstairs { dark } => self.trigger_motion_downstairs(dark),
            Event::MotionUpstairs { dark } => self.trigger_motion_upstairs(dark),
        }
    }
}

} // verus!
