use defender_monitor::command::{toggle_decision, toggle_refusal_message, ToggleDecision};
use defender_monitor::poller::{cycle, run_cycles, CycleReport, POLL_INTERVAL_SECS};
use defender_monitor::shared::SharedStatus;
use defender_monitor::status::{
    icon_name, interpret_query, map_observation, status_message, FieldValue, ObserveError,
    ProtectionState,
};

#[test]
fn observation_mapping() {
    assert_eq!(map_observation(Ok(true)), ProtectionState::Enabled);
    assert_eq!(map_observation(Ok(false)), ProtectionState::Disabled);
    assert_eq!(
        map_observation(Err(ObserveError::ConnectionFailed)),
        ProtectionState::Unknown
    );
    assert_eq!(
        map_observation(Err(ObserveError::FieldMissing)),
        ProtectionState::Unknown
    );
}

#[test]
fn icon_names_are_distinct_per_state() {
    assert_eq!(icon_name(ProtectionState::Enabled), "defender_enabled");
    assert_eq!(icon_name(ProtectionState::Disabled), "defender_disabled");
    assert_eq!(icon_name(ProtectionState::Unknown), "defender_unknown");
}

#[test]
fn status_messages() {
    assert_eq!(
        status_message(ProtectionState::Enabled),
        "Windows Defender real-time protection is ENABLED"
    );
    assert_eq!(
        status_message(ProtectionState::Disabled),
        "Windows Defender real-time protection is DISABLED"
    );
    assert_eq!(
        status_message(ProtectionState::Unknown),
        "Windows Defender status is UNKNOWN"
    );
}

#[test]
fn query_interpretation_takes_first_row_boolean() {
    assert_eq!(interpret_query(&vec![FieldValue::Bool(true)]), Ok(true));
    assert_eq!(
        interpret_query(&vec![FieldValue::Bool(false), FieldValue::Bool(true)]),
        Ok(false)
    );
}

#[test]
fn query_interpretation_rejects_missing_field() {
    assert_eq!(
        interpret_query(&vec![]),
        Err(ObserveError::FieldMissing)
    );
    assert_eq!(
        interpret_query(&vec![FieldValue::Absent]),
        Err(ObserveError::FieldMissing)
    );
    assert_eq!(
        interpret_query(&vec![FieldValue::WrongType, FieldValue::Bool(true)]),
        Err(ObserveError::FieldMissing)
    );
}

#[test]
fn shared_status_starts_unknown() {
    let s = SharedStatus::new();
    assert_eq!(s.read(), ProtectionState::Unknown);
}

#[test]
fn shared_status_adopt_reports_transitions() {
    let mut s = SharedStatus::new();
    assert!(s.adopt(ProtectionState::Enabled));
    assert_eq!(s.read(), ProtectionState::Enabled);
    assert!(!s.adopt(ProtectionState::Enabled));
    assert!(s.adopt(ProtectionState::Unknown));
    assert_eq!(s.read(), ProtectionState::Unknown);
}

#[test]
fn cycle_adopts_mapped_value_and_fires_on_transition() {
    let mut s = SharedStatus::new();
    let icon = cycle(&mut s, Ok(true));
    assert_eq!(s.read(), ProtectionState::Enabled);
    assert_eq!(icon, Some(ProtectionState::Enabled));
}

#[test]
fn cycle_is_silent_on_repeat() {
    let mut s = SharedStatus::new();
    assert_eq!(cycle(&mut s, Ok(false)), Some(ProtectionState::Disabled));
    assert_eq!(cycle(&mut s, Ok(false)), None);
    assert_eq!(s.read(), ProtectionState::Disabled);
}

#[test]
fn transition_into_unknown_still_fires() {
    let mut s = SharedStatus::new();
    assert_eq!(cycle(&mut s, Ok(true)), Some(ProtectionState::Enabled));
    assert_eq!(
        cycle(&mut s, Err(ObserveError::ConnectionFailed)),
        Some(ProtectionState::Unknown)
    );
}

#[test]
fn cycles_are_ten_seconds_apart() {
    assert_eq!(POLL_INTERVAL_SECS, 10);
}

#[test]
fn scenario_a_icon_fires_after_first_and_third_cycle_only() {
    let mut s = SharedStatus::new();
    let observations = vec![Ok(true), Ok(true), Ok(false)];
    let reports = run_cycles(&mut s, &observations);
    assert_eq!(
        reports,
        vec![
            CycleReport {
                status: ProtectionState::Enabled,
                icon_update: Some(ProtectionState::Enabled),
            },
            CycleReport {
                status: ProtectionState::Enabled,
                icon_update: None,
            },
            CycleReport {
                status: ProtectionState::Disabled,
                icon_update: Some(ProtectionState::Disabled),
            },
        ]
    );
    assert_eq!(s.read(), ProtectionState::Disabled);
}

#[test]
fn scenario_b_two_failures_then_disabled_fire_one_icon_update() {
    let mut s = SharedStatus::new();
    let observations = vec![
        Err(ObserveError::ConnectionFailed),
        Err(ObserveError::FieldMissing),
        Ok(false),
    ];
    let reports = run_cycles(&mut s, &observations);
    assert_eq!(
        reports,
        vec![
            CycleReport {
                status: ProtectionState::Unknown,
                icon_update: None,
            },
            CycleReport {
                status: ProtectionState::Unknown,
                icon_update: None,
            },
            CycleReport {
                status: ProtectionState::Disabled,
                icon_update: Some(ProtectionState::Disabled),
            },
        ]
    );
    assert_eq!(s.read(), ProtectionState::Disabled);
}

#[test]
fn toggle_from_enabled_applies_false() {
    assert_eq!(
        toggle_decision(ProtectionState::Enabled),
        ToggleDecision::Apply { target: false }
    );
}

#[test]
fn toggle_from_disabled_applies_true() {
    assert_eq!(
        toggle_decision(ProtectionState::Disabled),
        ToggleDecision::Apply { target: true }
    );
}

#[test]
fn scenario_c_toggle_from_unknown_launches_nothing() {
    assert_eq!(
        toggle_decision(ProtectionState::Unknown),
        ToggleDecision::RefuseUnknown
    );
    assert_eq!(toggle_refusal_message(), "Cannot toggle: status unknown");
}
