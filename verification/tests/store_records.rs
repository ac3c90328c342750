use home_alarm::controller::AlarmController;
use home_alarm::state::AlarmState;
use home_alarm::store::{load_alarm_state, persist_alarm_state};

#[test]
fn record_is_the_canonical_text_and_nothing_else() {
    assert_eq!(persist_alarm_state(AlarmState::Disarmed), b"disarmed".to_vec());
    assert_eq!(persist_alarm_state(AlarmState::ArmedHome), b"armed_home".to_vec());
    assert_eq!(persist_alarm_state(AlarmState::ArmedAway), b"armed_away".to_vec());
    assert_eq!(persist_alarm_state(AlarmState::Alarm), b"alarm".to_vec());
}

#[test]
fn load_after_persist_gives_the_state_back() {
    let states =
        [AlarmState::Disarmed, AlarmState::ArmedHome, AlarmState::ArmedAway, AlarmState::Alarm];
    for state in states {
        let record = persist_alarm_state(state);
        assert_eq!(load_alarm_state(Some(&record)), state);
    }
}

#[test]
fn load_reads_each_canonical_record() {
    assert_eq!(load_alarm_state(Some(b"disarmed")), AlarmState::Disarmed);
    assert_eq!(load_alarm_state(Some(b"armed_home")), AlarmState::ArmedHome);
    assert_eq!(load_alarm_state(Some(b"armed_away")), AlarmState::ArmedAway);
    assert_eq!(load_alarm_state(Some(b"alarm")), AlarmState::Alarm);
}

#[test]
fn missing_record_loads_as_disarmed() {
    assert_eq!(load_alarm_state(None), AlarmState::Disarmed);
}

#[test]
fn corrupted_record_loads_as_disarmed() {
    assert_eq!(load_alarm_state(Some(b"armed_homee")), AlarmState::Disarmed);
}

#[test]
fn garbled_records_load_as_disarmed() {
    assert_eq!(load_alarm_state(Some(b"")), AlarmState::Disarmed);
    assert_eq!(load_alarm_state(Some(b"armed")), AlarmState::Disarmed);
    assert_eq!(load_alarm_state(Some(b"ARMED_AWAY")), AlarmState::Disarmed);
    assert_eq!(load_alarm_state(Some(b"armed_away\n")), AlarmState::Disarmed);
    assert_eq!(load_alarm_state(Some(b"  alarm  ")), AlarmState::Disarmed);
    assert_eq!(load_alarm_state(Some(b"alarm!")), AlarmState::Disarmed);
    assert_eq!(load_alarm_state(Some(&[0x80, 0x81])), AlarmState::Disarmed);
    assert_eq!(load_alarm_state(Some(b"armed_home armed_away")), AlarmState::Disarmed);
}

#[test]
fn controller_is_seeded_from_the_record() {
    assert_eq!(AlarmController::restore(None).current_state(), AlarmState::Disarmed);
    assert_eq!(
        AlarmController::restore(Some(b"armed_away")).current_state(),
        AlarmState::ArmedAway
    );
    assert_eq!(AlarmController::restore(Some(b"alarm")).current_state(), AlarmState::Alarm);
    assert_eq!(
        AlarmController::restore(Some(b"armed_homee")).current_state(),
        AlarmState::Disarmed
    );
}

#[test]
fn restart_resumes_the_persisted_state() {
    let mut before = AlarmController::new(AlarmState::Disarmed);
    let outcome = before.arm_disarm_quiet_toggle();
    assert!(outcome.persist);
    let record = persist_alarm_state(outcome.state);
    let after = AlarmController::restore(Some(&record));
    assert_eq!(after.current_state(), AlarmState::ArmedHome);
    assert_eq!(after.get_status(), "armed_home");
}
