use home_alarm::action::Action;
use home_alarm::state::AlarmState;

const ALL: [AlarmState; 4] =
    [AlarmState::Disarmed, AlarmState::ArmedHome, AlarmState::ArmedAway, AlarmState::Alarm];

#[test]
fn canonical_text_of_each_state() {
    assert_eq!(AlarmState::Disarmed.as_str(), "disarmed");
    assert_eq!(AlarmState::ArmedHome.as_str(), "armed_home");
    assert_eq!(AlarmState::ArmedAway.as_str(), "armed_away");
    assert_eq!(AlarmState::Alarm.as_str(), "alarm");
}

#[test]
fn owned_text_matches_borrowed_text() {
    for state in ALL {
        assert_eq!(state.to_string(), state.as_str());
    }
    assert_eq!(AlarmState::ArmedAway.to_string(), String::from("armed_away"));
}

#[test]
fn canonical_bytes_of_each_state() {
    assert_eq!(AlarmState::Disarmed.to_bytes(), b"disarmed".to_vec());
    assert_eq!(AlarmState::ArmedHome.to_bytes(), b"armed_home".to_vec());
    assert_eq!(AlarmState::ArmedAway.to_bytes(), b"armed_away".to_vec());
    assert_eq!(AlarmState::Alarm.to_bytes(), vec![97u8, 108, 97, 114, 109]);
}

#[test]
fn from_bytes_reads_each_canonical_form() {
    assert_eq!(AlarmState::from_bytes(b"disarmed"), Some(AlarmState::Disarmed));
    assert_eq!(AlarmState::from_bytes(b"armed_home"), Some(AlarmState::ArmedHome));
    assert_eq!(AlarmState::from_bytes(b"armed_away"), Some(AlarmState::ArmedAway));
    assert_eq!(AlarmState::from_bytes(b"alarm"), Some(AlarmState::Alarm));
}

#[test]
fn from_bytes_inverts_to_bytes() {
    for state in ALL {
        assert_eq!(AlarmState::from_bytes(&state.to_bytes()), Some(state));
        assert_eq!(AlarmState::from_bytes(state.as_str().as_bytes()), Some(state));
    }
}

#[test]
fn from_bytes_refuses_everything_else() {
    assert_eq!(AlarmState::from_bytes(b""), None);
    assert_eq!(AlarmState::from_bytes(b"armed_homee"), None);
    assert_eq!(AlarmState::from_bytes(b"armed_hom"), None);
    assert_eq!(AlarmState::from_bytes(b"armed_"), None);
    assert_eq!(AlarmState::from_bytes(b"armed"), None);
    assert_eq!(AlarmState::from_bytes(b"Disarmed"), None);
    assert_eq!(AlarmState::from_bytes(b"ALARM"), None);
    assert_eq!(AlarmState::from_bytes(b"alarm\n"), None);
    assert_eq!(AlarmState::from_bytes(b" alarm"), None);
    assert_eq!(AlarmState::from_bytes(b"alarn"), None);
    assert_eq!(AlarmState::from_bytes(b"armed-away"), None);
    assert_eq!(AlarmState::from_bytes(b"armed_away\0"), None);
    assert_eq!(AlarmState::from_bytes(&[0xff, 0xfe, 0x00]), None);
    assert_eq!(AlarmState::from_bytes(b"disarmedalarm"), None);
}

#[test]
fn canonical_forms_are_pairwise_distinct() {
    for first in ALL {
        for second in ALL {
            if first != second {
                assert_ne!(first.as_str(), second.as_str());
                assert_ne!(first.to_bytes(), second.to_bytes());
            }
        }
    }
}

#[test]
fn script_of_each_action() {
    assert_eq!(Action::ArmAway.script(), "./armedaway.sh");
    assert_eq!(Action::ArmQuiet.script(), "./armedawayquiet.sh");
    assert_eq!(Action::Disarm.script(), "./disarmed.sh");
    assert_eq!(Action::DisarmQuiet.script(), "./disarmedquiet.sh");
    assert_eq!(Action::AlarmTrigger.script(), "./alarm.sh");
    assert_eq!(Action::LightStaircase.script(), "./light_staircase.sh");
    assert_eq!(Action::LightDesklamp.script(), "./light_desklamp.sh");
}

#[test]
fn from_text_reads_each_canonical_form() {
    assert_eq!(AlarmState::from_text("disarmed"), Some(AlarmState::Disarmed));
    assert_eq!(AlarmState::from_text("armed_home"), Some(AlarmState::ArmedHome));
    assert_eq!(AlarmState::from_text("armed_away"), Some(AlarmState::ArmedAway));
    assert_eq!(AlarmState::from_text("alarm"), Some(AlarmState::Alarm));
}

#[test]
fn from_text_inverts_as_str() {
    for state in ALL {
        assert_eq!(AlarmState::from_text(state.as_str()), Some(state));
        assert_eq!(AlarmState::from_text(&state.to_string()), Some(state));
    }
}

#[test]
fn from_text_refuses_everything_else() {
    assert_eq!(AlarmState::from_text(""), None);
    assert_eq!(AlarmState::from_text("armed_homee"), None);
    assert_eq!(AlarmState::from_text("armed_home "), None);
    assert_eq!(AlarmState::from_text("\tdisarmed"), None);
    assert_eq!(AlarmState::from_text("Armed_Away"), None);
    assert_eq!(AlarmState::from_text("armed home"), None);
    assert_eq!(AlarmState::from_text("alärm"), None);
    assert_eq!(AlarmState::from_text("ArmedAway"), None);
}
