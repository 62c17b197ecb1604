use weefee::app::{App, AppState, Msg, Session};
use weefee::error::NetError;
use weefee::network::{WifiDeviceInfo, WifiInfo};

fn network(ssid: &str, strength: u8, active: bool, weak: bool, known: bool) -> WifiInfo {
    WifiInfo {
        ssid: ssid.to_string(),
        strength,
        security: if weak { "Open".to_string() } else { "WPA2".to_string() },
        active,
        weak_security: weak,
        known,
        priority: None,
        autoconnect: None,
        autoconnect_retries: None,
        frequency: None,
    }
}

fn session(app: &App) -> &Session {
    match app {
        App::Running(session) => session,
        App::Quitting => panic!("the application is quitting"),
    }
}

fn with_networks(networks: Vec<WifiInfo>) -> App {
    let mut app = App::new();
    app.update(Msg::NetworksFound(networks));
    app
}

fn password_dialog(text: &str) -> App {
    let mut app = with_networks(vec![network("Cafe", 60, false, false, false)]);
    app.update(Msg::EnterInput);
    for c in text.chars() {
        app.update(Msg::Input(c));
    }
    app
}

fn cursor_of(app: &App) -> usize {
    match &session(app).state {
        AppState::EditingPassword { cursor, .. } => *cursor,
        other => panic!("not editing: {:?}", other),
    }
}

fn password_of(app: &App) -> String {
    match &session(app).state {
        AppState::EditingPassword { password, .. } => password.clone(),
        other => panic!("not editing: {:?}", other),
    }
}

#[test]
fn starts_browsing_with_nothing_selected() {
    let app = App::new();
    let s = session(&app);
    assert!(s.networks.is_empty());
    assert_eq!(s.selected_index, None);
    assert_eq!(s.device_info, None);
    assert_eq!(s.state, AppState::Normal);
    assert!(!s.is_scanning);
    assert!(!s.d_pressed);
}

#[test]
fn first_scan_selects_first_entry() {
    let app = with_networks(vec![
        network("A", 80, false, false, false),
        network("B", 30, true, false, true),
    ]);
    let s = session(&app);
    assert_eq!(s.selected_index, Some(0));
    assert_eq!(s.active_ssid, Some("B".to_string()));
}

#[test]
fn enter_on_unknown_secure_network_asks_for_password() {
    let mut app = with_networks(vec![network("Cafe", 60, false, false, false)]);
    app.update(Msg::EnterInput);
    assert_eq!(
        session(&app).state,
        AppState::EditingPassword {
            ssid: "Cafe".to_string(),
            password: String::new(),
            cursor: 0,
            error_message: None,
        }
    );
}

#[test]
fn enter_on_active_network_asks_to_disconnect() {
    let mut app = with_networks(vec![network("Home", 90, true, false, true)]);
    app.update(Msg::EnterInput);
    assert_eq!(session(&app).state, AppState::ConfirmDisconnect);
}

#[test]
fn enter_on_weak_network_warns_first() {
    let mut app = with_networks(vec![network("Free", 40, false, true, true)]);
    app.update(Msg::EnterInput);
    assert_eq!(
        session(&app).state,
        AppState::ConfirmWeakSecurity { ssid: "Free".to_string(), security_type: "Open".to_string() }
    );
}

#[test]
fn enter_on_known_secure_network_connects_at_once() {
    let mut app = with_networks(vec![network("Home", 70, false, false, true)]);
    app.update(Msg::EnterInput);
    assert_eq!(session(&app).state, AppState::Connecting { ssid: "Home".to_string(), spinner: 0 });
}

#[test]
fn enter_without_selection_changes_nothing() {
    let mut app = App::new();
    app.update(Msg::EnterInput);
    assert_eq!(session(&app).state, AppState::Normal);
}

#[test]
fn incorrect_password_returns_to_empty_password_dialog() {
    let mut app = password_dialog("secret");
    app.update(Msg::SubmitConnection);
    assert_eq!(session(&app).state, AppState::Connecting { ssid: "Cafe".to_string(), spinner: 0 });
    app.update(Msg::ConnectionFailure(NetError::IncorrectPassword));
    assert_eq!(
        session(&app).state,
        AppState::EditingPassword {
            ssid: "Cafe".to_string(),
            password: String::new(),
            cursor: 0,
            error_message: Some("Incorrect password. Try again.".to_string()),
        }
    );
}

#[test]
fn other_connection_failure_shows_error() {
    let mut app = password_dialog("secret");
    app.update(Msg::SubmitConnection);
    app.update(Msg::ConnectionFailure(NetError::Timeout));
    assert_eq!(
        session(&app).state,
        AppState::ShowingError { message: "Connection failed: Connection timeout".to_string() }
    );
}

#[test]
fn incorrect_password_outside_connecting_shows_error() {
    let mut app = with_networks(vec![network("Cafe", 60, false, false, false)]);
    app.update(Msg::ConnectionFailure(NetError::IncorrectPassword));
    assert_eq!(
        session(&app).state,
        AppState::ShowingError { message: "Connection failed: Incorrect password".to_string() }
    );
}

#[test]
fn connection_success_returns_to_browsing() {
    let mut app = with_networks(vec![network("Home", 70, false, false, true)]);
    app.update(Msg::EnterInput);
    app.update(Msg::ConnectionSuccess);
    assert_eq!(session(&app).state, AppState::Normal);
}

#[test]
fn cancel_keeps_selection() {
    let list = || {
        vec![
            network("A", 80, true, false, true),
            network("B", 60, false, true, false),
            network("C", 40, false, false, false),
        ]
    };
    for index in 0..3 {
        let mut app = with_networks(list());
        for _ in 0..index {
            app.update(Msg::MoveDown);
        }
        app.update(Msg::EnterInput);
        assert_ne!(session(&app).state, AppState::Normal);
        app.update(Msg::CancelInput);
        assert_eq!(session(&app).state, AppState::Normal);
        assert_eq!(session(&app).selected_index, Some(index));
    }
    let mut app = with_networks(list());
    app.update(Msg::Error("boom".to_string()));
    app.update(Msg::CancelInput);
    assert_eq!(session(&app).state, AppState::Normal);
    assert_eq!(session(&app).selected_index, Some(0));
    let mut app = with_networks(list());
    app.update(Msg::ConfirmForget);
    app.update(Msg::CancelInput);
    assert_eq!(session(&app).state, AppState::Normal);
    assert_eq!(session(&app).selected_index, Some(0));
}

#[test]
fn quit_wins_from_any_mode_and_is_final() {
    let mut app = password_dialog("abc");
    app.update(Msg::Quit);
    assert!(matches!(app, App::Quitting));
    app.update(Msg::NetworksFound(vec![network("A", 1, false, false, false)]));
    assert!(matches!(app, App::Quitting));
    app.update(Msg::EnterInput);
    assert!(matches!(app, App::Quitting));
}

#[test]
fn word_motion_over_hello_world() {
    let mut app = password_dialog("hello world");
    assert_eq!(cursor_of(&app), 11);
    app.update(Msg::MoveCursorWordLeft);
    assert_eq!(cursor_of(&app), 6);
    app.update(Msg::MoveCursorWordLeft);
    assert_eq!(cursor_of(&app), 0);
    app.update(Msg::MoveCursorWordRight);
    assert_eq!(cursor_of(&app), 5);
    app.update(Msg::MoveCursorWordRight);
    assert_eq!(cursor_of(&app), 11);
    assert_eq!(password_of(&app), "hello world");
}

#[test]
fn typing_and_deleting_in_password_dialog() {
    let mut app = password_dialog("abc");
    assert_eq!(password_of(&app), "abc");
    assert_eq!(cursor_of(&app), 3);
    app.update(Msg::MoveCursorLeft);
    assert_eq!(cursor_of(&app), 2);
    app.update(Msg::Input('X'));
    assert_eq!(password_of(&app), "abXc");
    assert_eq!(cursor_of(&app), 3);
    app.update(Msg::Backspace);
    assert_eq!(password_of(&app), "abc");
    assert_eq!(cursor_of(&app), 2);
    app.update(Msg::MoveCursorRight);
    assert_eq!(cursor_of(&app), 3);
    app.update(Msg::MoveCursorRight);
    assert_eq!(cursor_of(&app), 3);
    app.update(Msg::MoveCursorLeft);
    app.update(Msg::MoveCursorLeft);
    app.update(Msg::MoveCursorLeft);
    app.update(Msg::MoveCursorLeft);
    assert_eq!(cursor_of(&app), 0);
    app.update(Msg::Backspace);
    assert_eq!(password_of(&app), "abc");
}

#[test]
fn delete_previous_word() {
    let mut app = password_dialog("one two  ");
    app.update(Msg::DeletePrevWord);
    assert_eq!(password_of(&app), "one ");
    assert_eq!(cursor_of(&app), 4);
    app.update(Msg::DeletePrevWord);
    assert_eq!(password_of(&app), "");
    assert_eq!(cursor_of(&app), 0);
    app.update(Msg::DeletePrevWord);
    assert_eq!(password_of(&app), "");
    assert_eq!(cursor_of(&app), 0);
}

#[test]
fn editing_outside_password_dialog_changes_nothing() {
    let mut app = with_networks(vec![network("Home", 70, false, false, true)]);
    app.update(Msg::Input('x'));
    app.update(Msg::Backspace);
    app.update(Msg::DeletePrevWord);
    assert_eq!(session(&app).state, AppState::Normal);
}

#[test]
fn device_info_is_absent_until_reported() {
    let mut app = App::new();
    assert_eq!(session(&app).device_info, None);
    app.update(Msg::DeviceInfoUpdate(WifiDeviceInfo { wifi_enabled: false }));
    assert_eq!(session(&app).device_info, Some(WifiDeviceInfo { wifi_enabled: false }));
}

#[test]
fn selection_moves_within_the_list() {
    let mut app = with_networks(vec![
        network("A", 80, false, false, false),
        network("B", 60, false, false, false),
        network("C", 40, false, false, false),
    ]);
    assert_eq!(session(&app).selected_index, Some(0));
    app.update(Msg::MoveUp);
    assert_eq!(session(&app).selected_index, Some(0));
    app.update(Msg::MoveDown);
    app.update(Msg::MoveDown);
    assert_eq!(session(&app).selected_index, Some(2));
    app.update(Msg::MoveDown);
    assert_eq!(session(&app).selected_index, Some(2));
    app.update(Msg::MoveUp);
    assert_eq!(session(&app).selected_index, Some(1));
}

#[test]
fn moving_in_an_empty_list_selects_nothing() {
    let mut app = App::new();
    app.update(Msg::MoveDown);
    assert_eq!(session(&app).selected_index, None);
    app.update(Msg::MoveUp);
    assert_eq!(session(&app).selected_index, None);
}

#[test]
fn selection_follows_the_ssid_across_scans() {
    let mut app = with_networks(vec![
        network("A", 80, false, false, false),
        network("B", 60, false, false, false),
    ]);
    app.update(Msg::MoveDown);
    app.update(Msg::NetworksFound(vec![
        network("C", 90, false, false, false),
        network("D", 85, false, false, false),
        network("B", 60, false, false, false),
        network("A", 10, false, false, false),
    ]));
    assert_eq!(session(&app).selected_index, Some(2));
    assert_eq!(session(&app).networks.len(), 4);
}

#[test]
fn selection_stays_in_bounds_when_its_network_is_gone_while_browsing() {
    let mut app = with_networks(vec![
        network("A", 80, false, false, false),
        network("B", 60, false, false, false),
        network("C", 40, false, false, false),
    ]);
    app.update(Msg::MoveDown);
    app.update(Msg::MoveDown);
    app.update(Msg::NetworksFound(vec![
        network("A", 80, false, false, false),
        network("B", 60, false, false, false),
    ]));
    assert_eq!(session(&app).selected_index, Some(1));
    app.update(Msg::MoveUp);
    app.update(Msg::NetworksFound(vec![
        network("X", 80, false, false, false),
        network("Y", 60, false, false, false),
    ]));
    assert_eq!(session(&app).selected_index, Some(0));
    app.update(Msg::NetworksFound(Vec::new()));
    assert_eq!(session(&app).selected_index, None);
    assert_eq!(session(&app).state, AppState::Normal);
    app.update(Msg::NetworksFound(vec![network("Z", 1, false, false, false)]));
    assert_eq!(session(&app).selected_index, Some(0));
}

#[test]
fn password_dialog_of_a_vanished_network_turns_into_an_error() {
    let mut app = password_dialog("abc");
    app.update(Msg::NetworksFound(vec![network("Other", 10, false, false, false)]));
    assert_eq!(
        session(&app).state,
        AppState::ShowingError { message: "Network \"Cafe\" is no longer available.".to_string() }
    );
    assert_eq!(session(&app).selected_index, None);
    app.update(Msg::EnterInput);
    assert_eq!(
        session(&app).state,
        AppState::ShowingError { message: "Network \"Cafe\" is no longer available.".to_string() }
    );
    app.update(Msg::NetworksFound(vec![network("Other", 10, false, false, false)]));
    assert_eq!(session(&app).selected_index, None);
    app.update(Msg::DismissError);
    assert_eq!(session(&app).state, AppState::Normal);
    assert_eq!(session(&app).selected_index, None);
}

#[test]
fn open_dialog_drops_the_selection_when_its_network_is_gone() {
    let mut app = with_networks(vec![network("Free", 50, false, true, false)]);
    app.update(Msg::EnterInput);
    let dialog = AppState::ConfirmWeakSecurity { ssid: "Free".to_string(), security_type: "Open".to_string() };
    assert_eq!(session(&app).state, dialog);
    app.update(Msg::NetworksFound(vec![network("Other", 10, false, false, true)]));
    assert_eq!(session(&app).state, dialog);
    assert_eq!(session(&app).selected_index, None);
    app.update(Msg::SubmitConnection);
    assert_eq!(session(&app).state, dialog);
}

#[test]
fn password_dialog_survives_a_scan_that_still_shows_its_network() {
    let mut app = password_dialog("abc");
    app.update(Msg::NetworksFound(vec![
        network("Other", 90, false, false, false),
        network("Cafe", 10, false, false, false),
    ]));
    assert_eq!(password_of(&app), "abc");
    assert_eq!(cursor_of(&app), 3);
    assert_eq!(session(&app).selected_index, Some(1));
}

#[test]
fn scanning_flag_follows_scans() {
    let mut app = App::new();
    app.update(Msg::Scan);
    assert!(session(&app).is_scanning);
    app.update(Msg::NetworksFound(Vec::new()));
    assert!(!session(&app).is_scanning);
    app.update(Msg::Scan);
    app.update(Msg::Error("Failed initial scan".to_string()));
    assert!(!session(&app).is_scanning);
    assert_eq!(session(&app).state, AppState::ShowingError { message: "Failed initial scan".to_string() });
}

#[test]
fn active_ssid_is_that_of_the_first_active_entry() {
    let mut app = with_networks(vec![
        network("A", 80, false, false, false),
        network("B", 60, true, false, true),
        network("C", 40, true, false, true),
    ]);
    assert_eq!(session(&app).active_ssid, Some("B".to_string()));
    app.update(Msg::NetworksFound(vec![network("A", 80, false, false, false)]));
    assert_eq!(session(&app).active_ssid, None);
}

#[test]
fn tick_moves_the_spinner_while_connecting() {
    let mut app = with_networks(vec![network("Home", 70, false, false, true)]);
    app.update(Msg::Tick);
    assert_eq!(session(&app).state, AppState::Normal);
    app.update(Msg::EnterInput);
    app.update(Msg::Tick);
    assert_eq!(session(&app).state, AppState::Connecting { ssid: "Home".to_string(), spinner: 1 });
    for _ in 0..126 {
        app.update(Msg::Tick);
    }
    assert_eq!(session(&app).state, AppState::Connecting { ssid: "Home".to_string(), spinner: 127 });
    app.update(Msg::Tick);
    assert_eq!(session(&app).state, AppState::Connecting { ssid: "Home".to_string(), spinner: 0 });
}

#[test]
fn detail_view_toggles() {
    let mut app = App::new();
    app.update(Msg::DPressed);
    assert!(session(&app).d_pressed);
    app.update(Msg::DPressed);
    assert!(!session(&app).d_pressed);
}

#[test]
fn success_messages_return_to_browsing() {
    for message in [Msg::DisconnectSuccess, Msg::ForgetSuccess, Msg::SubmitDisconnect, Msg::SubmitForget, Msg::DismissError] {
        let mut app = with_networks(vec![network("Home", 70, true, false, true)]);
        app.update(Msg::EnterInput);
        app.update(message);
        assert_eq!(session(&app).state, AppState::Normal);
        assert_eq!(session(&app).selected_index, Some(0));
    }
}

#[test]
fn word_motion_passes_over_runs_of_spaces() {
    let mut app = password_dialog("  ab   cd  ");
    assert_eq!(cursor_of(&app), 11);
    app.update(Msg::MoveCursorWordLeft);
    assert_eq!(cursor_of(&app), 7);
    app.update(Msg::MoveCursorWordLeft);
    assert_eq!(cursor_of(&app), 2);
    app.update(Msg::MoveCursorWordLeft);
    assert_eq!(cursor_of(&app), 0);
    app.update(Msg::MoveCursorWordLeft);
    assert_eq!(cursor_of(&app), 0);
    app.update(Msg::MoveCursorWordRight);
    assert_eq!(cursor_of(&app), 4);
    app.update(Msg::MoveCursorWordRight);
    assert_eq!(cursor_of(&app), 9);
    app.update(Msg::MoveCursorWordRight);
    assert_eq!(cursor_of(&app), 11);
    app.update(Msg::MoveCursorWordRight);
    assert_eq!(cursor_of(&app), 11);
}

#[test]
fn words_end_at_spaces_only() {
    let mut app = password_dialog("foo-bar baz");
    app.update(Msg::MoveCursorWordLeft);
    assert_eq!(cursor_of(&app), 8);
    app.update(Msg::MoveCursorWordLeft);
    assert_eq!(cursor_of(&app), 0);
    app.update(Msg::MoveCursorWordRight);
    assert_eq!(cursor_of(&app), 7);
}

#[test]
fn editing_counts_code_points() {
    let mut app = password_dialog("né");
    assert_eq!(cursor_of(&app), 2);
    app.update(Msg::Input('ß'));
    assert_eq!(password_of(&app), "néß");
    assert_eq!(cursor_of(&app), 3);
    app.update(Msg::MoveCursorLeft);
    app.update(Msg::Backspace);
    assert_eq!(password_of(&app), "nß");
    assert_eq!(cursor_of(&app), 1);
    app.update(Msg::DeletePrevWord);
    assert_eq!(password_of(&app), "ß");
    assert_eq!(cursor_of(&app), 0);
}
