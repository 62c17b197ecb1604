use weefee::app::{App, Msg};
use weefee::keys::{key_message, InputMode, Key, Modifiers};
use weefee::network::WifiInfo;

fn message(mode: InputMode, key: Key, modifiers: Modifiers) -> String {
    format!("{:?}", key_message(mode, key, modifiers))
}

fn plain(mode: InputMode, key: Key) -> String {
    message(mode, key, Modifiers::Plain)
}

const MODES: [InputMode; 7] = [
    InputMode::Normal,
    InputMode::Editing,
    InputMode::Connecting,
    InputMode::Error,
    InputMode::ConfirmDisconnect,
    InputMode::ConfirmForget,
    InputMode::ConfirmWeakSecurity,
];

const KEYS: [Key; 14] = [
    Key::Char('a'),
    Key::Char('c'),
    Key::Char('q'),
    Key::Char('y'),
    Key::Char('n'),
    Key::Char('j'),
    Key::Enter,
    Key::Esc,
    Key::Backspace,
    Key::Left,
    Key::Right,
    Key::Up,
    Key::Down,
    Key::Other,
];

#[test]
fn browsing_keys() {
    let m = InputMode::Normal;
    assert_eq!(plain(m, Key::Up), "Some(MoveUp)");
    assert_eq!(plain(m, Key::Char('k')), "Some(MoveUp)");
    assert_eq!(plain(m, Key::Down), "Some(MoveDown)");
    assert_eq!(plain(m, Key::Char('j')), "Some(MoveDown)");
    assert_eq!(plain(m, Key::Enter), "Some(EnterInput)");
    assert_eq!(plain(m, Key::Char('f')), "Some(ConfirmForget)");
    assert_eq!(plain(m, Key::Char('a')), "Some(ToggleAutoconnect)");
    assert_eq!(message(m, Key::Char('A'), Modifiers::Other), "Some(ToggleAutoconnect)");
    assert_eq!(plain(m, Key::Char('d')), "Some(DPressed)");
    assert_eq!(plain(m, Key::Char('q')), "Some(Quit)");
    assert_eq!(message(m, Key::Char('c'), Modifiers::Control), "Some(Quit)");
    assert_eq!(plain(m, Key::Char('c')), "None");
    assert_eq!(plain(m, Key::Char('r')), "Some(Scan)");
    assert_eq!(plain(m, Key::Char('s')), "Some(Scan)");
    assert_eq!(plain(m, Key::Esc), "None");
    assert_eq!(plain(m, Key::Char('x')), "None");
    assert_eq!(plain(m, Key::Other), "None");
}

#[test]
fn password_keys() {
    let m = InputMode::Editing;
    assert_eq!(plain(m, Key::Char('q')), "Some(Input('q'))");
    assert_eq!(message(m, Key::Char('Q'), Modifiers::Other), "Some(Input('Q'))");
    assert_eq!(plain(m, Key::Char(' ')), "Some(Input(' '))");
    assert_eq!(plain(m, Key::Backspace), "Some(Backspace)");
    assert_eq!(message(m, Key::Backspace, Modifiers::Control), "Some(DeletePrevWord)");
    assert_eq!(message(m, Key::Backspace, Modifiers::Alt), "Some(DeletePrevWord)");
    assert_eq!(message(m, Key::Char('h'), Modifiers::Control), "Some(DeletePrevWord)");
    assert_eq!(plain(m, Key::Left), "Some(MoveCursorLeft)");
    assert_eq!(message(m, Key::Left, Modifiers::Control), "Some(MoveCursorWordLeft)");
    assert_eq!(message(m, Key::Left, Modifiers::Alt), "Some(MoveCursorWordLeft)");
    assert_eq!(message(m, Key::Left, Modifiers::Other), "Some(MoveCursorLeft)");
    assert_eq!(plain(m, Key::Right), "Some(MoveCursorRight)");
    assert_eq!(message(m, Key::Right, Modifiers::Control), "Some(MoveCursorWordRight)");
    assert_eq!(message(m, Key::Right, Modifiers::Alt), "Some(MoveCursorWordRight)");
    assert_eq!(plain(m, Key::Enter), "Some(SubmitConnection)");
    assert_eq!(plain(m, Key::Esc), "Some(CancelInput)");
    assert_eq!(message(m, Key::Char('c'), Modifiers::Control), "Some(Quit)");
    assert_eq!(plain(m, Key::Char('c')), "Some(Input('c'))");
    assert_eq!(plain(m, Key::Up), "None");
}

#[test]
fn connecting_ignores_every_key() {
    for key in KEYS {
        for modifiers in [Modifiers::Plain, Modifiers::Control, Modifiers::Alt, Modifiers::Other] {
            assert_eq!(message(InputMode::Connecting, key, modifiers), "None");
        }
    }
}

#[test]
fn error_keys() {
    let m = InputMode::Error;
    assert_eq!(plain(m, Key::Enter), "Some(DismissError)");
    assert_eq!(plain(m, Key::Esc), "Some(DismissError)");
    assert_eq!(message(m, Key::Char('c'), Modifiers::Control), "Some(Quit)");
    assert_eq!(plain(m, Key::Char('y')), "None");
    assert_eq!(plain(m, Key::Char('q')), "None");
}

#[test]
fn confirmation_keys() {
    let dialogs = [
        (InputMode::ConfirmDisconnect, "Some(SubmitDisconnect)"),
        (InputMode::ConfirmForget, "Some(SubmitForget)"),
        (InputMode::ConfirmWeakSecurity, "Some(SubmitConnection)"),
    ];
    for (m, yes) in dialogs {
        assert_eq!(plain(m, Key::Enter), yes);
        assert_eq!(plain(m, Key::Char('y')), yes);
        assert_eq!(message(m, Key::Char('Y'), Modifiers::Other), yes);
        assert_eq!(plain(m, Key::Esc), "Some(CancelInput)");
        assert_eq!(plain(m, Key::Char('n')), "Some(CancelInput)");
        assert_eq!(message(m, Key::Char('N'), Modifiers::Other), "Some(CancelInput)");
        assert_eq!(message(m, Key::Char('c'), Modifiers::Control), "Some(Quit)");
        assert_eq!(plain(m, Key::Char('c')), "None");
        assert_eq!(plain(m, Key::Char('q')), "None");
        assert_eq!(plain(m, Key::Up), "None");
    }
}

#[test]
fn control_c_quits_wherever_keys_are_read() {
    for mode in MODES {
        let expected = if mode == InputMode::Connecting { "None" } else { "Some(Quit)" };
        assert_eq!(message(mode, Key::Char('c'), Modifiers::Control), expected);
    }
}

#[test]
fn input_mode_follows_the_modal_state() {
    let net = |ssid: &str, active: bool, weak: bool, known: bool| WifiInfo {
        ssid: ssid.to_string(),
        strength: 50,
        security: "WPA2".to_string(),
        active,
        weak_security: weak,
        known,
        priority: None,
        autoconnect: None,
        autoconnect_retries: None,
        frequency: None,
    };
    let mut app = App::new();
    assert_eq!(app.input_mode(), InputMode::Normal);
    app.update(Msg::NetworksFound(vec![
        net("Active", true, false, true),
        net("Weak", false, true, false),
        net("Known", false, false, true),
        net("New", false, false, false),
    ]));
    app.update(Msg::EnterInput);
    assert_eq!(app.input_mode(), InputMode::ConfirmDisconnect);
    app.update(Msg::CancelInput);
    assert_eq!(app.input_mode(), InputMode::Normal);
    app.update(Msg::MoveDown);
    app.update(Msg::EnterInput);
    assert_eq!(app.input_mode(), InputMode::ConfirmWeakSecurity);
    app.update(Msg::CancelInput);
    app.update(Msg::MoveDown);
    app.update(Msg::EnterInput);
    assert_eq!(app.input_mode(), InputMode::Connecting);
    app.update(Msg::ConnectionSuccess);
    app.update(Msg::MoveDown);
    app.update(Msg::EnterInput);
    assert_eq!(app.input_mode(), InputMode::Editing);
    app.update(Msg::Error("x".to_string()));
    assert_eq!(app.input_mode(), InputMode::Error);
    app.update(Msg::ConfirmForget);
    assert_eq!(app.input_mode(), InputMode::ConfirmForget);
    app.update(Msg::Quit);
    assert_eq!(app.input_mode(), InputMode::Normal);
}
