//! The application state machine: one owned value that advances by one
//! message at a time and does no I/O.

use vstd::prelude::*;
use crate::editor::{edit, edited, EditRequest};
use crate::error::{error_text, NetError, NetErrorView};
use crate::text::text_view;
use crate::network::{
    active_ssid_of, find_ssid, first_active, lemma_position_from, position, views_of,
    WifiDeviceInfo, WifiInfo, WifiInfoView,
};

verus! {

/// Everything the state machine reacts to: keys already interpreted, timer
/// ticks, and what the network worker reports.
#[derive(Debug)]
pub enum Msg {
    /// The key reader saw no key within its poll interval.
    Tick,
    /// Leave the program.
    Quit,
    /// Move the selection one entry up.
    MoveUp,
    /// Move the selection one entry down.
    MoveDown,
    /// A rescan was asked for.
    Scan,
    /// A scan finished with this list.
    NetworksFound(Vec<WifiInfo>),
    /// The radio state was read.
    DeviceInfoUpdate(WifiDeviceInfo),
    /// Something failed outside any dialog; the text is shown as it is.
    Error(String),
    /// The error dialog was dismissed.
    DismissError,
    /// Enter was pressed on the selected network.
    EnterInput,
    /// A printable character was typed into the password field.
    Input(char),
    /// Backspace in the password field.
    Backspace,
    /// Cursor one character left in the password field.
    MoveCursorLeft,
    /// Cursor one character right in the password field.
    MoveCursorRight,
    /// Cursor one word left in the password field.
    MoveCursorWordLeft,
    /// Cursor one word right in the password field.
    MoveCursorWordRight,
    /// Delete the word before the cursor in the password field.
    DeletePrevWord,
    /// The password dialog or the weak-security warning was confirmed.
    SubmitConnection,
    /// A dialog was cancelled.
    CancelInput,
    /// The worker connected.
    ConnectionSuccess,
    /// The worker could not connect.
    ConnectionFailure(NetError),
    /// The disconnect dialog was confirmed.
    SubmitDisconnect,
    /// The worker disconnected.
    DisconnectSuccess,
    /// The worker could not disconnect; the text says why.
    DisconnectFailure(String),
    /// Forgetting the selected network was asked for.
    ConfirmForget,
    /// The forget dialog was confirmed.
    SubmitForget,
    /// The worker removed the saved profiles.
    ForgetSuccess,
    /// The worker could not remove the saved profiles; the text says why.
    ForgetFailure(String),
    /// The detail view was switched on or off.
    DPressed,
    /// Switching autoconnect of the selected network was asked for.
    ToggleAutoconnect,
    /// The worker switched autoconnect.
    AutoconnectSuccess,
    /// The worker could not switch autoconnect; the text says why.
    AutoconnectFailure(String),
}

/// The modal sub-state. Each variant carries only what is valid in that mode.
#[derive(Debug, PartialEq, Eq)]
pub enum AppState {
    /// Browsing the list.
    Normal,
    /// Typing the password for `ssid`. `cursor` counts the code points of
    /// `password` before it.
    EditingPassword { ssid: String, password: String, cursor: usize, error_message: Option<String> },
    /// Waiting for the worker to connect to `ssid`. `spinner` is the frame of
    /// the progress animation.
    Connecting { ssid: String, spinner: i8 },
    /// Showing an error until it is dismissed.
    ShowingError { message: String },
    /// Asking whether to disconnect from the active network.
    ConfirmDisconnect,
    /// Asking whether to forget the selected network.
    ConfirmForget,
    /// Warning before connecting to a network with weak or no security.
    ConfirmWeakSecurity { ssid: String, security_type: String },
}

/// Mathematical value of an [`AppState`].
pub enum AppStateView {
    Normal,
    EditingPassword {
        ssid: Seq<char>,
        password: Seq<char>,
        cursor: nat,
        error_message: Option<Seq<char>>,
    },
    Connecting { ssid: Seq<char>, spinner: i8 },
    ShowingError { message: Seq<char> },
    ConfirmDisconnect,
    ConfirmForget,
    ConfirmWeakSecurity { ssid: Seq<char>, security_type: Seq<char> },
}

impl View for AppState {
    type V = AppStateView;

    open spec fn view(&self) -> AppStateView {
        match *self {
            AppState::Normal => AppStateView::Normal,
            AppState::EditingPassword { ssid, password, cursor, error_message } => {
                AppStateView::EditingPassword {
                    ssid: ssid@,
                    password: password@,
                    cursor: cursor as nat,
                    error_message: text_view(error_message),
                }
            },
            AppState::Connecting { ssid, spinner } => AppStateView::Connecting {
                ssid: ssid@,
                spinner,
            },
            AppState::ShowingError { message } => AppStateView::ShowingError { message: message@ },
            AppState::ConfirmDisconnect => AppStateView::ConfirmDisconnect,
            AppState::ConfirmForget => AppStateView::ConfirmForget,
            AppState::ConfirmWeakSecurity { ssid, security_type } => {
                AppStateView::ConfirmWeakSecurity { ssid: ssid@, security_type: security_type@ }
            },
        }
    }
}

/// What the application holds while it is running.
#[derive(Debug)]
pub struct Session {
    /// The networks of the latest scan.
    pub networks: Vec<WifiInfo>,
    /// Index of the selected network, if one is selected.
    pub selected_index: Option<usize>,
    /// Whether a scan was asked for and has not reported yet.
    pub is_scanning: bool,
    /// SSID of the first active network of the latest scan.
    pub active_ssid: Option<String>,
    /// Radio state; absent until it was read for the first time.
    pub device_info: Option<WifiDeviceInfo>,
    /// The modal sub-state.
    pub state: AppState,
    /// Whether the detail view is on.
    pub d_pressed: bool,
}

/// Mathematical value of a [`Session`].
pub struct SessionView {
    pub networks: Seq<WifiInfoView>,
    pub selected_index: Option<usize>,
    pub is_scanning: bool,
    pub active_ssid: Option<Seq<char>>,
    pub device_info: Option<WifiDeviceInfo>,
    pub state: AppStateView,
    pub d_pressed: bool,
}

impl View for Session {
    type V = SessionView;

    open spec fn view(&self) -> SessionView {
        SessionView {
            networks: views_of(self.networks@),
            selected_index: self.selected_index,
            is_scanning: self.is_scanning,
            active_ssid: text_view(self.active_ssid),
            device_info: self.device_info,
            state: self.state@,
            d_pressed: self.d_pressed,
        }
    }
}

/// The application: either on its way out, or running with its session.
#[derive(Debug)]
pub enum App {
    /// Terminal: no further message changes anything.
    Quitting,
    /// Running.
    Running(Session),
}

/// Mathematical value of an [`App`].
pub enum AppView {
    Quitting,
    Running(SessionView),
}

impl View for App {
    type V = AppView;

    open spec fn view(&self) -> AppView {
        match *self {
            App::Quitting => AppView::Quitting,
            App::Running(session) => AppView::Running(session@),
        }
    }
}

/// The next frame of the progress animation: one further, and back to the
/// first after the last.
pub open spec fn next_frame(spinner: i8) -> i8 {
    if spinner == i8::MAX {
        0
    } else {
        (spinner + 1) as i8
    }
}

/// The dialog text for a failure: what failed, then why.
pub open spec fn failure_message(prefix: Seq<char>, reason: Seq<char>) -> Seq<char> {
    prefix + reason
}

/// The error shown when the network of an open password dialog is gone.
pub open spec fn vanished_message(ssid: Seq<char>) -> Seq<char> {
    "Network \""@ + ssid + "\" is no longer available."@
}

impl SessionView {
    /// The selection points into the list, the cursor of an open password
    /// dialog stands within its text, and the active SSID is that of the list.
    pub open spec fn wf(self) -> bool {
        &&& self.selected_index matches Some(i) ==> i < self.networks.len()
        &&& self.state matches AppStateView::EditingPassword { password, cursor, .. } ==> cursor
            <= password.len()
        &&& self.active_ssid == first_active(self.networks)
    }

    /// The selected network, if the selection points at one.
    pub open spec fn selected_network(self) -> Option<WifiInfoView> {
        match self.selected_index {
            Some(i) => if i < self.networks.len() {
                Some(self.networks[i as int])
            } else {
                None
            },
            None => None,
        }
    }

    /// After a timer tick: the progress animation, if one is shown, moves on.
    pub open spec fn ticked(self) -> SessionView {
        self.with_state(ticked_state(self.state))
    }

    /// After "up": with nothing selected the first entry, else one entry up
    /// unless the first is selected.
    pub open spec fn moved_up(self) -> SessionView {
        match self.selected_index {
            None => if self.networks.len() > 0 {
                SessionView { selected_index: Some(0), ..self }
            } else {
                self
            },
            Some(i) => if i > 0 {
                SessionView { selected_index: Some((i - 1) as usize), ..self }
            } else {
                self
            },
        }
    }

    /// After "down": with nothing selected the first entry, else one entry
    /// down unless the last is selected.
    pub open spec fn moved_down(self) -> SessionView {
        match self.selected_index {
            None => if self.networks.len() > 0 {
                SessionView { selected_index: Some(0), ..self }
            } else {
                self
            },
            Some(i) => if i + 1 < self.networks.len() {
                SessionView { selected_index: Some((i + 1) as usize), ..self }
            } else {
                self
            },
        }
    }

    /// After a scan reported `found`. The selection follows the SSID that was
    /// selected. Where that SSID is gone, an open password dialog for it turns
    /// into an error, any open dialog drops the selection, and while browsing
    /// the selection stays at its index as far as the new list reaches. With
    /// nothing selected before, browsing selects the first entry.
    pub open spec fn refreshed(self, found: Seq<WifiInfoView>) -> SessionView {
        let base = SessionView {
            networks: found,
            is_scanning: false,
            active_ssid: first_active(found),
            ..self
        };
        match self.selected_network() {
            Some(previous) => match position(found, previous.ssid) {
                Some(j) => SessionView { selected_index: Some(j as usize), ..base },
                None => {
                    let state = match self.state {
                        AppStateView::EditingPassword { ssid, .. } => if ssid == previous.ssid {
                            AppStateView::ShowingError { message: vanished_message(ssid) }
                        } else {
                            self.state
                        },
                        _ => self.state,
                    };
                    let selected_index = if !(state is Normal) || found.len() == 0 {
                        None
                    } else if self.selected_index->0 < found.len() {
                        self.selected_index
                    } else {
                        Some((found.len() - 1) as usize)
                    };
                    SessionView { state, selected_index, ..base }
                },
            },
            None => SessionView {
                selected_index: if self.state is Normal && found.len() > 0 {
                    Some(0)
                } else {
                    None
                },
                ..base
            },
        }
    }

    /// After Enter on the list: what the selected network calls for.
    pub open spec fn entered(self) -> SessionView {
        match self.selected_network() {
            Some(network) => SessionView { state: dialog_for(network), ..self },
            None => self,
        }
    }

    /// After an editing step: only an open password dialog changes.
    pub open spec fn password_edited(self, request: EditRequest) -> SessionView {
        self.with_state(edited_state(self.state, request))
    }

    /// After a dialog was confirmed for connecting. The weak-security warning
    /// goes on to connecting where the selected network is known and to the
    /// password dialog where it is not; the password dialog goes on to
    /// connecting. In any other mode nothing changes.
    pub open spec fn submitted(self) -> SessionView {
        self.with_state(submitted_state(self.state, self.selected_network()))
    }

    /// After the worker could not connect. Wrong credentials lead from
    /// connecting back to an empty password dialog for the same network, with
    /// the error set; anything else is shown as an error.
    pub open spec fn connection_failed(self, error: NetErrorView) -> SessionView {
        self.with_state(failed_connection_state(self.state, error))
    }

    /// With an error dialog that says what failed and why.
    pub open spec fn failed(self, prefix: Seq<char>, reason: Seq<char>) -> SessionView {
        self.with_state(failure_dialog(prefix, reason))
    }

    /// With the given modal sub-state.
    pub open spec fn with_state(self, state: AppStateView) -> SessionView {
        SessionView { state, ..self }
    }
}

/// The modal sub-state after a timer tick.
pub open spec fn ticked_state(state: AppStateView) -> AppStateView {
    match state {
        AppStateView::Connecting { ssid, spinner } => AppStateView::Connecting {
            ssid,
            spinner: next_frame(spinner),
        },
        _ => state,
    }
}

/// The modal sub-state after an editing step.
pub open spec fn edited_state(state: AppStateView, request: EditRequest) -> AppStateView {
    match state {
        AppStateView::EditingPassword { ssid, password, cursor, error_message } => {
            AppStateView::EditingPassword {
                ssid,
                password: edited(password, cursor, request).0,
                cursor: edited(password, cursor, request).1,
                error_message,
            }
        },
        _ => state,
    }
}

/// The modal sub-state after a dialog was confirmed for connecting, with
/// `selected` the network that the selection points at.
pub open spec fn submitted_state(
    state: AppStateView,
    selected: Option<WifiInfoView>,
) -> AppStateView {
    match state {
        AppStateView::ConfirmWeakSecurity { ssid, .. } => match selected {
            Some(network) => if network.known {
                AppStateView::Connecting { ssid, spinner: 0 }
            } else {
                empty_password_dialog(ssid, None)
            },
            None => state,
        },
        AppStateView::EditingPassword { ssid, .. } => AppStateView::Connecting { ssid, spinner: 0 },
        _ => state,
    }
}

/// The modal sub-state after the worker could not connect.
pub open spec fn failed_connection_state(state: AppStateView, error: NetErrorView) -> AppStateView {
    match state {
        AppStateView::Connecting { ssid, .. } => if error is IncorrectPassword {
            empty_password_dialog(ssid, Some("Incorrect password. Try again."@))
        } else {
            failure_dialog("Connection failed: "@, error_text(error))
        },
        _ => failure_dialog("Connection failed: "@, error_text(error)),
    }
}

/// An error dialog that says what failed and why.
pub open spec fn failure_dialog(prefix: Seq<char>, reason: Seq<char>) -> AppStateView {
    AppStateView::ShowingError { message: failure_message(prefix, reason) }
}

/// A password dialog for `ssid` with nothing typed yet.
pub open spec fn empty_password_dialog(
    ssid: Seq<char>,
    error_message: Option<Seq<char>>,
) -> AppStateView {
    AppStateView::EditingPassword { ssid, password: Seq::empty(), cursor: 0, error_message }
}

/// The dialog that Enter opens on a network: disconnecting where it is active,
/// else a warning where its security is weak, else connecting at once where it
/// is known, else the password dialog.
pub open spec fn dialog_for(network: WifiInfoView) -> AppStateView {
    if network.active {
        AppStateView::ConfirmDisconnect
    } else if network.weak_security {
        AppStateView::ConfirmWeakSecurity { ssid: network.ssid, security_type: network.security }
    } else if network.known {
        AppStateView::Connecting { ssid: network.ssid, spinner: 0 }
    } else {
        empty_password_dialog(network.ssid, None)
    }
}

/// The state at startup: nothing found, nothing selected, radio state not yet
/// read, browsing.
pub open spec fn initial() -> AppView {
    AppView::Running(
        SessionView {
            networks: Seq::empty(),
            selected_index: None,
            is_scanning: false,
            active_ssid: None,
            device_info: None,
            state: AppStateView::Normal,
            d_pressed: false,
        },
    )
}

/// The session after `message`, for every message but `Quit`.
pub open spec fn session_step(session: SessionView, message: Msg) -> SessionView {
    match message {
        Msg::Tick => session.ticked(),
        Msg::Quit => session,
        Msg::MoveUp => session.moved_up(),
        Msg::MoveDown => session.moved_down(),
        Msg::Scan => SessionView { is_scanning: true, ..session },
        Msg::NetworksFound(found) => session.refreshed(views_of(found@)),
        Msg::DeviceInfoUpdate(info) => SessionView { device_info: Some(info), ..session },
        Msg::Error(text) => SessionView {
            state: AppStateView::ShowingError { message: text@ },
            is_scanning: false,
            ..session
        },
        Msg::DismissError => session.with_state(AppStateView::Normal),
        Msg::EnterInput => session.entered(),
        Msg::Input(c) => session.password_edited(EditRequest::Insert(c)),
        Msg::Backspace => session.password_edited(EditRequest::DeletePrevChar),
        Msg::MoveCursorLeft => session.password_edited(EditRequest::PrevChar),
        Msg::MoveCursorRight => session.password_edited(EditRequest::NextChar),
        Msg::MoveCursorWordLeft => session.password_edited(EditRequest::PrevWord),
        Msg::MoveCursorWordRight => session.password_edited(EditRequest::NextWord),
        Msg::DeletePrevWord => session.password_edited(EditRequest::DeletePrevWord),
        Msg::SubmitConnection => session.submitted(),
        Msg::CancelInput => session.with_state(AppStateView::Normal),
        Msg::ConnectionSuccess => session.with_state(AppStateView::Normal),
        Msg::ConnectionFailure(error) => session.connection_failed(error@),
        Msg::SubmitDisconnect => session.with_state(AppStateView::Normal),
        Msg::DisconnectSuccess => session.with_state(AppStateView::Normal),
        Msg::DisconnectFailure(reason) => session.failed("Disconnect failed: "@, reason@),
        Msg::ConfirmForget => session.with_state(AppStateView::ConfirmForget),
        Msg::SubmitForget => session.with_state(AppStateView::Normal),
        Msg::ForgetSuccess => session.with_state(AppStateView::Normal),
        Msg::ForgetFailure(reason) => session.failed("Failed to forget network: "@, reason@),
        Msg::DPressed => SessionView { d_pressed: !session.d_pressed, ..session },
        Msg::ToggleAutoconnect => session,
        Msg::AutoconnectSuccess => session,
        Msg::AutoconnectFailure(reason) => session.failed(
            "Failed to toggle auto-connect: "@,
            reason@,
        ),
    }
}

/// The application after `message`. `Quit` ends it from any mode, and once it
/// is quitting nothing changes any more.
pub open spec fn step(app: AppView, message: Msg) -> AppView {
    match app {
        AppView::Quitting => AppView::Quitting,
        AppView::Running(session) => if message is Quit {
            AppView::Quitting
        } else {
            AppView::Running(session_step(session, message))
        },
    }
}

impl AppView {
    /// A quitting application is well-formed; a running one where its session is.
    pub open spec fn wf(self) -> bool {
        match self {
            AppView::Quitting => true,
            AppView::Running(session) => session.wf(),
        }
    }
}

/// `prefix` followed by `reason`, as an error dialog.
fn failure(prefix: &str, reason: &str) -> (state: AppState)
    ensures
        state@ == failure_dialog(prefix@, reason@),
{
    let mut message = prefix.to_owned();
    message.append(reason);
    AppState::ShowingError { message }
}

/// The dialog that Enter opens on `network`.
fn open_dialog(network: &WifiInfo) -> (state: AppState)
    ensures
        state@ == dialog_for(network@),
{
    if network.active {
        AppState::ConfirmDisconnect
    } else if network.weak_security {
        AppState::ConfirmWeakSecurity {
            ssid: network.ssid.clone(),
            security_type: network.security.clone(),
        }
    } else if network.known {
        AppState::Connecting { ssid: network.ssid.clone(), spinner: 0 }
    } else {
        AppState::EditingPassword {
            ssid: network.ssid.clone(),
            password: String::new(),
            cursor: 0,
            error_message: None,
        }
    }
}

/// The modal sub-state after a timer tick.
fn tick(state: AppState) -> (next: AppState)
    ensures
        next@ == ticked_state(state@),
{
    match state {
        AppState::Connecting { ssid, spinner } => AppState::Connecting {
            ssid,
            spinner: if spinner == i8::MAX {
                0
            } else {
                spinner + 1
            },
        },
        other => other,
    }
}

/// The modal sub-state after an editing step.
fn edit_password(state: AppState, request: EditRequest) -> (next: AppState)
    ensures
        next@ == edited_state(state@, request),
        state@ is EditingPassword ==> (next@ matches AppStateView::EditingPassword {
            password,
            cursor,
            ..
        } && cursor <= password.len()),
{
    match state {
        AppState::EditingPassword { ssid, password, cursor, error_message } => {
            let (text, moved) = edit(password.as_str(), cursor, request);
            AppState::EditingPassword { ssid, password: text, cursor: moved, error_message }
        },
        other => other,
    }
}

/// The modal sub-state after a dialog was confirmed for connecting.
fn submit(state: AppState, selected: Option<&WifiInfo>) -> (next: AppState)
    ensures
        next@ == submitted_state(
            state@,
            match selected {
                Some(network) => Some(network@),
                None => None,
            },
        ),
{
    match state {
        AppState::ConfirmWeakSecurity { ssid, security_type } => match selected {
            Some(network) => if network.known {
                AppState::Connecting { ssid, spinner: 0 }
            } else {
                AppState::EditingPassword {
                    ssid,
                    password: String::new(),
                    cursor: 0,
                    error_message: None,
                }
            },
            None => AppState::ConfirmWeakSecurity { ssid, security_type },
        },
        AppState::EditingPassword { ssid, .. } => AppState::Connecting { ssid, spinner: 0 },
        other => other,
    }
}

/// The modal sub-state after the worker could not connect.
fn connection_failure(state: AppState, error: &NetError) -> (next: AppState)
    ensures
        next@ == failed_connection_state(state@, error@),
{
    let wrong_password = match error {
        NetError::IncorrectPassword => true,
        _ => false,
    };
    match state {
        AppState::Connecting { ssid, .. } => if wrong_password {
            AppState::EditingPassword {
                ssid,
                password: String::new(),
                cursor: 0,
                error_message: Some("Incorrect password. Try again.".to_owned()),
            }
        } else {
            let reason = error.describe();
            failure("Connection failed: ", reason.as_str())
        },
        _ => {
            let reason = error.describe();
            failure("Connection failed: ", reason.as_str())
        },
    }
}

impl Session {
    /// The selected network, if the selection points at one.
    pub fn selected_network(&self) -> (network: Option<&WifiInfo>)
        ensures
            match network {
                Some(n) => self@.selected_network() == Some(n@),
                None => self@.selected_network() is None,
            },
    {
        match self.selected_index {
            Some(i) => if i < self.networks.len() {
                assert(views_of(self.networks@)[i as int] == self.networks@[i as int]@);
                Some(&self.networks[i])
            } else {
                None
            },
            None => None,
        }
    }

    /// Takes over the list that a scan reported.
    fn refresh(self, found: Vec<WifiInfo>) -> (next: Session)
        ensures
            next@ == self@.refreshed(views_of(found@)),
            self@.wf() ==> next@.wf(),
    {
        let previous: Option<String> = match self.selected_network() {
            Some(network) => Some(network.ssid.clone()),
            None => None,
        };
        let Session { selected_index, device_info, state, d_pressed, .. } = self;
        let active_ssid = active_ssid_of(&found);
        let mut state = state;
        let mut selected: Option<usize> = None;
        match previous {
            Some(ssid) => {
                let position = find_ssid(&found, &ssid);
                proof {
                    lemma_position_from(views_of(found@), ssid@, 0);
                }
                match position {
                    Some(j) => {
                        selected = Some(j);
                    },
                    None => {
                        state =
                        match state {
                            AppState::EditingPassword { ssid: target, password, cursor, error_message } => {
                                if target == ssid {
                                    let mut message = "Network \"".to_owned();
                                    message.append(target.as_str());
                                    message.append("\" is no longer available.");
                                    AppState::ShowingError { message }
                                } else {
                                    AppState::EditingPassword {
                                        ssid: target,
                                        password,
                                        cursor,
                                        error_message,
                                    }
                                }
                            },
                            other => other,
                        };
                        let browsing = match state {
                            AppState::Normal => true,
                            _ => false,
                        };
                        if browsing && found.len() > 0 {
                            let i: usize = match selected_index {
                                Some(i) => i,
                                None => 0,
                            };
                            selected = if i < found.len() {
                                Some(i)
                            } else {
                                Some(found.len() - 1)
                            };
                        }
                    },
                }
            },
            None => {
                let browsing = match state {
                    AppState::Normal => true,
                    _ => false,
                };
                if browsing && found.len() > 0 {
                    selected = Some(0);
                }
            },
        }
        Session {
            networks: found,
            selected_index: selected,
            is_scanning: false,
            active_ssid,
            device_info,
            state,
            d_pressed,
        }
    }

    /// The session after `message`.
    pub fn advance(self, message: Msg) -> (next: Session)
        ensures
            next@ == session_step(self@, message),
            self@.wf() ==> next@.wf(),
    {
        match message {
            Msg::NetworksFound(found) => self.refresh(found),
            other => self.advance_in_place(other),
        }
    }

    /// The session after a message that leaves the list as it is.
    fn advance_in_place(self, message: Msg) -> (next: Session)
        requires
            !(message is NetworksFound),
        ensures
            next@ == session_step(self@, message),
            self@.wf() ==> next@.wf(),
    {
        let entered: Option<AppState> = match self.selected_network() {
            Some(network) => Some(open_dialog(network)),
            None => None,
        };
        let Session {
            networks,
            selected_index,
            is_scanning,
            active_ssid,
            device_info,
            state,
            d_pressed,
        } = self;
        let mut selected_index = selected_index;
        let mut is_scanning = is_scanning;
        let mut device_info = device_info;
        let mut state = state;
        let mut d_pressed = d_pressed;
        match message {
            Msg::Tick => {
                state = tick(state);
            },
            Msg::Quit => {},
            Msg::MoveUp => {
                selected_index =
                match selected_index {
                    None => if networks.len() > 0 {
                        Some(0)
                    } else {
                        None
                    },
                    Some(i) => if i > 0 {
                        Some(i - 1)
                    } else {
                        Some(i)
                    },
                };
            },
            Msg::MoveDown => {
                selected_index =
                match selected_index {
                    None => if networks.len() > 0 {
                        Some(0)
                    } else {
                        None
                    },
                    Some(i) => if networks.len() > 0 && i < networks.len() - 1 {
                        Some(i + 1)
                    } else {
                        Some(i)
                    },
                };
            },
            Msg::Scan => {
                is_scanning = true;
            },
            Msg::NetworksFound(_) => {},
            Msg::DeviceInfoUpdate(info) => {
                device_info = Some(info);
            },
            Msg::Error(text) => {
                state = AppState::ShowingError { message: text };
                is_scanning = false;
            },
            Msg::DismissError => {
                state = AppState::Normal;
            },
            Msg::EnterInput => {
                match entered {
                    Some(dialog) => {
                        state = dialog;
                    },
                    None => {},
                }
            },
            Msg::Input(c) => {
                state = edit_password(state, EditRequest::Insert(c));
            },
            Msg::Backspace => {
                state = edit_password(state, EditRequest::DeletePrevChar);
            },
            Msg::MoveCursorLeft => {
                state = edit_password(state, EditRequest::PrevChar);
            },
            Msg::MoveCursorRight => {
                state = edit_password(state, EditRequest::NextChar);
            },
            Msg::MoveCursorWordLeft => {
                state = edit_password(state, EditRequest::PrevWord);
            },
            Msg::MoveCursorWordRight => {
                state = edit_password(state, EditRequest::NextWord);
            },
            Msg::DeletePrevWord => {
                state = edit_password(state, EditRequest::DeletePrevWord);
            },
            Msg::SubmitConnection => {
                state =
                match selected_index {
                    Some(i) => if i < networks.len() {
                        assert(views_of(networks@)[i as int] == networks@[i as int]@);
                        submit(state, Some(&networks[i]))
                    } else {
                        submit(state, None)
                    },
                    None => submit(state, None),
                };
            },
            Msg::CancelInput => {
                state = AppState::Normal;
            },
            Msg::ConnectionSuccess => {
                state = AppState::Normal;
            },
            Msg::ConnectionFailure(error) => {
                state = connection_failure(state, &error);
            },
            Msg::SubmitDisconnect => {
                state = AppState::Normal;
            },
            Msg::DisconnectSuccess => {
                state = AppState::Normal;
            },
            Msg::DisconnectFailure(reason) => {
                state = failure("Disconnect failed: ", reason.as_str());
            },
            Msg::ConfirmForget => {
                state = AppState::ConfirmForget;
            },
            Msg::SubmitForget => {
                state = AppState::Normal;
            },
            Msg::ForgetSuccess => {
                state = AppState::Normal;
            },
            Msg::ForgetFailure(reason) => {
                state = failure("Failed to forget network: ", reason.as_str());
            },
            Msg::DPressed => {
                d_pressed = !d_pressed;
            },
            Msg::ToggleAutoconnect => {},
            Msg::AutoconnectSuccess => {},
            Msg::AutoconnectFailure(reason) => {
                state = failure("Failed to toggle auto-connect: ", reason.as_str());
            },
        }
        Session {
            networks,
            selected_index,
            is_scanning,
            active_ssid,
            device_info,
            state,
            d_pressed,
        }
    }
}

impl App {
    /// The application at startup.
    pub fn new() -> (app: App)
        ensures
            app@ == initial(),
            app@.wf(),
    {
        let app = App::Running(
            Session {
                networks: Vec::new(),
                selected_index: None,
                is_scanning: false,
                active_ssid: None,
                device_info: None,
                state: AppState::Normal,
                d_pressed: false,
            },
        );
        assert(views_of(Seq::<WifiInfo>::empty()) == Seq::<WifiInfoView>::empty());
        app
    }

    /// The application after `message`.
    pub fn apply(self, message: Msg) -> (next: App)
        ensures
            next@ == step(self@, message),
            self@.wf() ==> next@.wf(),
    {
        match self {
            App::Quitting => App::Quitting,
            App::Running(session) => match message {
                Msg::Quit => App::Quitting,
                other => App::Running(session.advance(other)),
            },
        }
    }

    /// Applies `message` in place.
    pub fn update(&mut self, message: Msg)
        ensures
            final(self)@ == step(old(self)@, message),
            old(self)@.wf() ==> final(self)@.wf(),
    {
        let mut current = App::Quitting;
        core::mem::swap(self, &mut current);
        *self = current.apply(message);
    }
}

/// Cancelling a confirmation, an error or the password dialog leads back to
/// browsing, and leaves the list and the selection as they were.
pub proof fn cancel_returns_to_browsing(session: SessionView)
    requires
        session.state is ConfirmDisconnect || session.state is ConfirmForget
            || session.state is ConfirmWeakSecurity || session.state is ShowingError
            || session.state is EditingPassword,
    ensures
        step(AppView::Running(session), Msg::CancelInput) == AppView::Running(
            SessionView { state: AppStateView::Normal, ..session },
        ),
{
}

/// `Quit` ends the application from every mode, and a quitting application
/// stays as it is whatever arrives.
pub proof fn quit_always_wins(app: AppView, message: Msg)
    ensures
        step(app, Msg::Quit) == AppView::Quitting,
        step(AppView::Quitting, message) == AppView::Quitting,
{
}

} // verus!
