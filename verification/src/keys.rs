//! Key bindings: which message a key stands for in each mode.

use vstd::prelude::*;
use crate::app::{App, AppState, AppStateView, AppView, Msg};

verus! {

/// The kind of the modal sub-state, which decides how keys are read. The key
/// reader holds a copy of it that is refreshed after every state update.
#[derive(Clone, Copy, Debug, PartialEq, Eq)]
pub enum InputMode {
    Normal,
    Editing,
    Connecting,
    Error,
    ConfirmDisconnect,
    ConfirmForget,
    ConfirmWeakSecurity,
}

/// A key, as far as the bindings tell keys apart.
#[derive(Clone, Copy, Debug, PartialEq, Eq)]
pub enum Key {
    Char(char),
    Enter,
    Esc,
    Backspace,
    Left,
    Right,
    Up,
    Down,
    Other,
}

/// The modifier keys held with a key, as far as the bindings tell them apart.
#[derive(Clone, Copy, Debug, PartialEq, Eq)]
pub enum Modifiers {
    /// No modifier key.
    Plain,
    /// Control and nothing else.
    Control,
    /// Alt and nothing else.
    Alt,
    /// Anything else, such as Shift or several at once.
    Other,
}

/// The kind of a modal sub-state.
pub open spec fn mode_of(state: AppStateView) -> InputMode {
    match state {
        AppStateView::Normal => InputMode::Normal,
        AppStateView::EditingPassword { .. } => InputMode::Editing,
        AppStateView::Connecting { .. } => InputMode::Connecting,
        AppStateView::ShowingError { .. } => InputMode::Error,
        AppStateView::ConfirmDisconnect => InputMode::ConfirmDisconnect,
        AppStateView::ConfirmForget => InputMode::ConfirmForget,
        AppStateView::ConfirmWeakSecurity { .. } => InputMode::ConfirmWeakSecurity,
    }
}

/// Whether the key is Control-C, which quits from every mode that reads keys.
pub open spec fn is_interrupt(key: Key, modifiers: Modifiers) -> bool {
    key == Key::Char('c') && modifiers is Control
}

/// Whether the key confirms a dialog: Enter, `y` or `Y`.
pub open spec fn confirms(key: Key) -> bool {
    key is Enter || key == Key::Char('y') || key == Key::Char('Y')
}

/// Whether the key cancels a dialog: Esc, `n` or `N`.
pub open spec fn cancels(key: Key) -> bool {
    key is Esc || key == Key::Char('n') || key == Key::Char('N')
}

/// Whether the key is held with Control or with Alt, which turns a step by
/// character into a step by word.
pub open spec fn by_word(modifiers: Modifiers) -> bool {
    modifiers is Control || modifiers is Alt
}

/// The message of a key while browsing.
pub open spec fn browsing_key(key: Key, modifiers: Modifiers) -> Option<Msg> {
    match key {
        Key::Char(c) => if c == 'd' {
            Some(Msg::DPressed)
        } else if c == 'q' {
            Some(Msg::Quit)
        } else if c == 'c' {
            if modifiers is Control {
                Some(Msg::Quit)
            } else {
                None
            }
        } else if c == 'j' {
            Some(Msg::MoveDown)
        } else if c == 'k' {
            Some(Msg::MoveUp)
        } else if c == 'r' || c == 's' {
            Some(Msg::Scan)
        } else if c == 'f' {
            Some(Msg::ConfirmForget)
        } else if c == 'a' || c == 'A' {
            Some(Msg::ToggleAutoconnect)
        } else {
            None
        },
        Key::Down => Some(Msg::MoveDown),
        Key::Up => Some(Msg::MoveUp),
        Key::Enter => Some(Msg::EnterInput),
        _ => None,
    }
}

/// The message of a key in the password dialog.
pub open spec fn editing_key(key: Key, modifiers: Modifiers) -> Option<Msg> {
    match key {
        Key::Enter => Some(Msg::SubmitConnection),
        Key::Esc => Some(Msg::CancelInput),
        Key::Backspace => if by_word(modifiers) {
            Some(Msg::DeletePrevWord)
        } else {
            Some(Msg::Backspace)
        },
        Key::Left => if by_word(modifiers) {
            Some(Msg::MoveCursorWordLeft)
        } else {
            Some(Msg::MoveCursorLeft)
        },
        Key::Right => if by_word(modifiers) {
            Some(Msg::MoveCursorWordRight)
        } else {
            Some(Msg::MoveCursorRight)
        },
        Key::Char(c) => if c == 'h' && modifiers is Control {
            Some(Msg::DeletePrevWord)
        } else if c == 'c' && modifiers is Control {
            Some(Msg::Quit)
        } else {
            Some(Msg::Input(c))
        },
        _ => None,
    }
}

/// The message of a key in a dialog that asks yes or no, where `yes` is what
/// confirming it sends.
pub open spec fn dialog_key(key: Key, modifiers: Modifiers, yes: Msg) -> Option<Msg> {
    if confirms(key) {
        Some(yes)
    } else if cancels(key) {
        Some(Msg::CancelInput)
    } else if is_interrupt(key, modifiers) {
        Some(Msg::Quit)
    } else {
        None
    }
}

/// The message that a key stands for in a mode, if it stands for one. While
/// connecting no key does.
pub open spec fn bound(mode: InputMode, key: Key, modifiers: Modifiers) -> Option<Msg> {
    match mode {
        InputMode::Normal => browsing_key(key, modifiers),
        InputMode::Editing => editing_key(key, modifiers),
        InputMode::Connecting => None,
        InputMode::Error => if key is Enter || key is Esc {
            Some(Msg::DismissError)
        } else if is_interrupt(key, modifiers) {
            Some(Msg::Quit)
        } else {
            None
        },
        InputMode::ConfirmDisconnect => dialog_key(key, modifiers, Msg::SubmitDisconnect),
        InputMode::ConfirmForget => dialog_key(key, modifiers, Msg::SubmitForget),
        InputMode::ConfirmWeakSecurity => dialog_key(key, modifiers, Msg::SubmitConnection),
    }
}

/// The message of a key while browsing.
fn browsing(key: Key, modifiers: Modifiers) -> (message: Option<Msg>)
    ensures
        message == browsing_key(key, modifiers),
{
    match key {
        Key::Char(c) => if c == 'd' {
            Some(Msg::DPressed)
        } else if c == 'q' {
            Some(Msg::Quit)
        } else if c == 'c' {
            match modifiers {
                Modifiers::Control => Some(Msg::Quit),
                _ => None,
            }
        } else if c == 'j' {
            Some(Msg::MoveDown)
        } else if c == 'k' {
            Some(Msg::MoveUp)
        } else if c == 'r' || c == 's' {
            Some(Msg::Scan)
        } else if c == 'f' {
            Some(Msg::ConfirmForget)
        } else if c == 'a' || c == 'A' {
            Some(Msg::ToggleAutoconnect)
        } else {
            None
        },
        Key::Down => Some(Msg::MoveDown),
        Key::Up => Some(Msg::MoveUp),
        Key::Enter => Some(Msg::EnterInput),
        _ => None,
    }
}

/// The message of a key in the password dialog.
fn editing(key: Key, modifiers: Modifiers) -> (message: Option<Msg>)
    ensures
        message == editing_key(key, modifiers),
{
    let control = match modifiers {
        Modifiers::Control => true,
        _ => false,
    };
    let word = match modifiers {
        Modifiers::Control => true,
        Modifiers::Alt => true,
        _ => false,
    };
    match key {
        Key::Enter => Some(Msg::SubmitConnection),
        Key::Esc => Some(Msg::CancelInput),
        Key::Backspace => if word {
            Some(Msg::DeletePrevWord)
        } else {
            Some(Msg::Backspace)
        },
        Key::Left => if word {
            Some(Msg::MoveCursorWordLeft)
        } else {
            Some(Msg::MoveCursorLeft)
        },
        Key::Right => if word {
            Some(Msg::MoveCursorWordRight)
        } else {
            Some(Msg::MoveCursorRight)
        },
        Key::Char(c) => if c == 'h' && control {
            Some(Msg::DeletePrevWord)
        } else if c == 'c' && control {
            Some(Msg::Quit)
        } else {
            Some(Msg::Input(c))
        },
        _ => None,
    }
}

/// The message of a key in a dialog that asks yes or no.
fn dialog(key: Key, modifiers: Modifiers, yes: Msg) -> (message: Option<Msg>)
    ensures
        message == dialog_key(key, modifiers, yes),
{
    let control = match modifiers {
        Modifiers::Control => true,
        _ => false,
    };
    match key {
        Key::Enter => Some(yes),
        Key::Esc => Some(Msg::CancelInput),
        Key::Char(c) => if c == 'y' || c == 'Y' {
            Some(yes)
        } else if c == 'n' || c == 'N' {
            Some(Msg::CancelInput)
        } else if c == 'c' && control {
            Some(Msg::Quit)
        } else {
            None
        },
        _ => None,
    }
}

/// The message that a key stands for in a mode, if it stands for one.
pub fn key_message(mode: InputMode, key: Key, modifiers: Modifiers) -> (message: Option<Msg>)
    ensures
        message == bound(mode, key, modifiers),
{
    match mode {
        InputMode::Normal => browsing(key, modifiers),
        InputMode::Editing => editing(key, modifiers),
        InputMode::Connecting => None,
        InputMode::Error => match key {
            Key::Enter => Some(Msg::DismissError),
            Key::Esc => Some(Msg::DismissError),
            Key::Char(c) => match modifiers {
                Modifiers::Control => if c == 'c' {
                    Some(Msg::Quit)
                } else {
                    None
                },
                _ => None,
            },
            _ => None,
        },
        InputMode::ConfirmDisconnect => dialog(key, modifiers, Msg::SubmitDisconnect),
        InputMode::ConfirmForget => dialog(key, modifiers, Msg::SubmitForget),
        InputMode::ConfirmWeakSecurity => dialog(key, modifiers, Msg::SubmitConnection),
    }
}

impl AppState {
    /// The kind of this modal sub-state.
    pub fn input_mode(&self) -> (mode: InputMode)
        ensures
            mode == mode_of(self@),
    {
        match self {
            AppState::Normal => InputMode::Normal,
            AppState::EditingPassword { .. } => InputMode::Editing,
            AppState::Connecting { .. } => InputMode::Connecting,
            AppState::ShowingError { .. } => InputMode::Error,
            AppState::ConfirmDisconnect => InputMode::ConfirmDisconnect,
            AppState::ConfirmForget => InputMode::ConfirmForget,
            AppState::ConfirmWeakSecurity { .. } => InputMode::ConfirmWeakSecurity,
        }
    }
}

impl App {
    /// The mode in which keys are to be read: that of the modal sub-state,
    /// and browsing once the application is quitting.
    pub fn input_mode(&self) -> (mode: InputMode)
        ensures
            mode == match self@ {
                AppView::Running(session) => mode_of(session.state),
                AppView::Quitting => InputMode::Normal,
            },
    {
        match self {
            App::Running(session) => session.state.input_mode(),
            App::Quitting => InputMode::Normal,
        }
    }
}

/// While a connection is being made every key is ignored.
pub proof fn connecting_ignores_keys(key: Key, modifiers: Modifiers)
    ensures
        bound(InputMode::Connecting, key, modifiers) is None,
{
}

} // verus!
