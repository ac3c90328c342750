//! The actuator actions that may accompany an event.

use vstd::prelude::*;

verus! {

/// An action of the outside world, named here and carried out by the caller.
/// The controller only decides which one is due; it never waits for it.
#[derive(Clone, Copy, PartialEq, Eq, Debug, Structural)]
pub enum Action {
    /// Announce that the alarm was armed for an empty house.
    ArmAway,
    /// Announce, quietly, that the alarm was armed with occupants present.
    ArmQuiet,
    /// Announce that the alarm was disarmed.
    Disarm,
    /// Announce, quietly, that the alarm was disarmed.
    DisarmQuiet,
    /// Sound the alarm.
    AlarmTrigger,
    /// Switch on the staircase light.
    LightStaircase,
    /// Switch on the desk lamp.
    LightDesklamp,
}

impl Action {
    /// The path of the script that carries the action out.
    pub open spec fn script_path(self) -> Seq<char> {
        match self {
            Action::ArmAway => "./armedaway.sh"@,
            Action::ArmQuiet => "./armedawayquiet.sh"@,
            Action::Disarm => "./disarmed.sh"@,
            Action::DisarmQuiet => "./disarmedquiet.sh"@,
            Action::AlarmTrigger => "./alarm.sh"@,
            Action::LightStaircase => "./light_staircase.sh"@,
            Action::LightDesklamp => "./light_desklamp.sh"@,
        }
    }

    /// The path of the script that carries the action out.
    pub fn script(&self) -> (path: &'static str)
        ensures
            path@ == self.script_path(),
    {
        match self {
            Action::ArmAway => "./armedaway.sh",
            Action::ArmQuiet => "./armedawayquiet.sh",
            Action::Disarm => "./disarmed.sh",
            Action::DisarmQuiet => "./disarmedquiet.sh",
            Action::AlarmTrigger => "./alarm.sh",
            Action::LightStaircase => "./light_staircase.sh",
            Action::LightDesklamp => "./light_desklamp.sh",
        }
    }
}

} // verus!
