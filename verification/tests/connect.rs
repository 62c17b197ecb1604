use weefee::connect::{
    after_poll, failure_for_reason, plan_connection, refused_activation, ConnectPlan, WaitOutcome,
    WaitPolicy,
};
use weefee::error::NetError;
use weefee::profiles::SavedConnection;
use weefee::scan::AccessPoint;

fn profile(path: &str, ssid: &str) -> SavedConnection {
    SavedConnection {
        path: path.to_string(),
        ssid: ssid.to_string(),
        priority: None,
        autoconnect: None,
        autoconnect_retries: None,
    }
}

fn point(path: &str, ssid: Option<&str>) -> AccessPoint {
    AccessPoint {
        path: path.to_string(),
        ssid: ssid.map(|s| s.as_bytes().to_vec()),
        strength: None,
        frequency: None,
        wpa_flags: None,
        rsn_flags: None,
    }
}

const GRACE: WaitPolicy = WaitPolicy { poll_interval_ms: 200, ceiling_ms: 30_000, grace_ms: Some(2_000) };

#[test]
fn standard_policy() {
    assert_eq!(
        WaitPolicy::standard(),
        WaitPolicy { poll_interval_ms: 200, ceiling_ms: 30_000, grace_ms: None }
    );
}

#[test]
fn known_network_is_activated_from_its_profile() {
    let saved = vec![profile("/p/1", "Cafe"), profile("/p/2", "Home"), profile("/p/3", "Home")];
    let seen = vec![point("/ap/1", None), point("/ap/2", Some("Cafe")), point("/ap/3", Some("Home")), point("/ap/4", Some("Home"))];
    assert_eq!(
        plan_connection("Home", "typed", &saved, &seen),
        ConnectPlan::ActivateSaved { profile: "/p/2".to_string(), access_point: "/ap/3".to_string() }
    );
    assert_eq!(
        plan_connection("Home", "", &saved, &seen),
        plan_connection("Home", "anything", &saved, &seen)
    );
}

#[test]
fn known_network_out_of_sight_leaves_the_access_point_open() {
    let saved = vec![profile("/p/2", "Home")];
    let seen = vec![point("/ap/1", None), point("/ap/2", Some("Cafe"))];
    assert_eq!(
        plan_connection("Home", "", &saved, &seen),
        ConnectPlan::ActivateSaved { profile: "/p/2".to_string(), access_point: "/".to_string() }
    );
}

#[test]
fn unknown_network_gets_a_profile_with_its_password() {
    let saved = vec![profile("/p/1", "Home")];
    assert_eq!(
        plan_connection("Cafe", "secret", &saved, &Vec::new()),
        ConnectPlan::CreateProfile { ssid: "Cafe".to_string(), psk: Some("secret".to_string()) }
    );
}

#[test]
fn unknown_network_without_password_gets_no_security_section() {
    assert_eq!(
        plan_connection("Cafe", "", &Vec::new(), &Vec::new()),
        ConnectPlan::CreateProfile { ssid: "Cafe".to_string(), psk: None }
    );
}

#[test]
fn plans_say_whether_they_create_a_profile() {
    assert!(plan_connection("Cafe", "", &Vec::new(), &Vec::new()).creates_profile());
    assert!(!plan_connection("Cafe", "x", &vec![profile("/p", "Cafe")], &Vec::new()).creates_profile());
}

#[test]
fn refusal_of_a_saved_profile() {
    assert_eq!(refused_activation(false, "GDBus.Error: AlreadyActive"), Ok(()));
    assert_eq!(refused_activation(false, "connection is already active"), Ok(()));
    assert_eq!(
        refused_activation(false, "no secrets, wrong password"),
        Err(NetError::ActivationRejected("Failed to activate: no secrets, wrong password".to_string()))
    );
    assert_eq!(
        refused_activation(false, ""),
        Err(NetError::ActivationRejected("Failed to activate: ".to_string()))
    );
}

#[test]
fn refusal_of_a_new_profile() {
    assert_eq!(refused_activation(true, "no secrets provided"), Err(NetError::IncorrectPassword));
    assert_eq!(refused_activation(true, "802-1x not supported"), Err(NetError::IncorrectPassword));
    assert_eq!(refused_activation(true, "invalid password"), Err(NetError::IncorrectPassword));
    assert_eq!(
        refused_activation(true, "AlreadyActive"),
        Err(NetError::ActivationRejected("Failed to activate: AlreadyActive".to_string()))
    );
    assert_eq!(
        refused_activation(true, "device busy"),
        Err(NetError::ActivationRejected("Failed to activate: device busy".to_string()))
    );
}

#[test]
fn reasons_of_a_deactivation() {
    assert_eq!(failure_for_reason(Some(7)), NetError::IncorrectPassword);
    assert_eq!(failure_for_reason(Some(8)), NetError::IncorrectPassword);
    assert_eq!(
        failure_for_reason(Some(9)),
        NetError::ActivationRejected("Connection failed (reason: 9)".to_string())
    );
    assert_eq!(
        failure_for_reason(Some(0)),
        NetError::ActivationRejected("Connection failed (reason: 0)".to_string())
    );
    assert_eq!(
        failure_for_reason(Some(4294967295)),
        NetError::ActivationRejected("Connection failed (reason: 4294967295)".to_string())
    );
    assert_eq!(failure_for_reason(None), NetError::ActivationRejected("Connection failed".to_string()));
}

#[test]
fn activated_state_ends_the_wait() {
    let p = WaitPolicy::standard();
    assert_eq!(after_poll(&p, true, None, 0, Some(2)), WaitOutcome::Connected);
    assert_eq!(after_poll(&p, false, Some(100), 30_000, Some(2)), WaitOutcome::Connected);
}

#[test]
fn deactivated_state_fails_and_removes_only_new_profiles() {
    let p = WaitPolicy::standard();
    assert_eq!(after_poll(&p, true, None, 400, Some(4)), WaitOutcome::Deactivated { delete_profile: true });
    assert_eq!(after_poll(&p, false, None, 400, Some(4)), WaitOutcome::Deactivated { delete_profile: false });
}

#[test]
fn other_states_keep_waiting() {
    let p = WaitPolicy::standard();
    for state in [0, 1, 3, 5, 100] {
        assert_eq!(
            after_poll(&p, true, Some(200), 400, Some(state)),
            WaitOutcome::KeepWaiting { failing_since_ms: None }
        );
    }
}

#[test]
fn wait_times_out_past_the_ceiling() {
    let p = WaitPolicy::standard();
    for reading in [None, Some(1), Some(2), Some(4)] {
        assert_eq!(
            after_poll(&p, true, None, 30_001, reading),
            WaitOutcome::GaveUp { error: NetError::Timeout, delete_profile: true }
        );
        assert_eq!(
            after_poll(&p, false, None, 30_001, reading),
            WaitOutcome::GaveUp { error: NetError::Timeout, delete_profile: false }
        );
    }
    assert_eq!(
        after_poll(&p, true, None, 30_000, Some(1)),
        WaitOutcome::KeepWaiting { failing_since_ms: None }
    );
}

#[test]
fn unreadable_state_is_tolerated_without_grace_period() {
    let p = WaitPolicy::standard();
    assert_eq!(after_poll(&p, true, None, 200, None), WaitOutcome::KeepWaiting { failing_since_ms: Some(200) });
    assert_eq!(
        after_poll(&p, true, Some(200), 29_800, None),
        WaitOutcome::KeepWaiting { failing_since_ms: Some(200) }
    );
    assert_eq!(
        after_poll(&p, false, Some(0), 30_000, None),
        WaitOutcome::KeepWaiting { failing_since_ms: Some(0) }
    );
}

#[test]
fn grace_period_applies_to_new_profiles_only() {
    assert_eq!(after_poll(&GRACE, true, None, 0, None), WaitOutcome::KeepWaiting { failing_since_ms: Some(0) });
    assert_eq!(
        after_poll(&GRACE, true, Some(0), 2_000, None),
        WaitOutcome::KeepWaiting { failing_since_ms: Some(0) }
    );
    assert_eq!(
        after_poll(&GRACE, true, Some(0), 2_001, None),
        WaitOutcome::GaveUp { error: NetError::IncorrectPassword, delete_profile: true }
    );
    assert_eq!(
        after_poll(&GRACE, false, Some(0), 2_001, None),
        WaitOutcome::KeepWaiting { failing_since_ms: Some(0) }
    );
    assert_eq!(
        after_poll(&GRACE, true, Some(1_000), 2_500, None),
        WaitOutcome::KeepWaiting { failing_since_ms: Some(1_000) }
    );
    assert_eq!(
        after_poll(&GRACE, true, Some(5_000), 100, None),
        WaitOutcome::KeepWaiting { failing_since_ms: Some(5_000) }
    );
}

#[test]
fn a_readable_state_ends_a_run_of_failures() {
    assert_eq!(
        after_poll(&GRACE, true, Some(0), 1_800, Some(1)),
        WaitOutcome::KeepWaiting { failing_since_ms: None }
    );
    assert_eq!(
        after_poll(&GRACE, true, None, 2_200, None),
        WaitOutcome::KeepWaiting { failing_since_ms: Some(2_200) }
    );
}

#[test]
fn a_whole_wait_for_a_new_profile_that_never_answers() {
    let policy = WaitPolicy::standard();
    let mut failing = None;
    let mut elapsed = 0;
    let mut polls = 0;
    let end = loop {
        match after_poll(&policy, true, failing, elapsed, None) {
            WaitOutcome::KeepWaiting { failing_since_ms } => {
                failing = failing_since_ms;
                elapsed += policy.poll_interval_ms;
                polls += 1;
            }
            other => break other,
        }
    };
    assert_eq!(end, WaitOutcome::GaveUp { error: NetError::Timeout, delete_profile: true });
    assert_eq!(polls, 151);
}
