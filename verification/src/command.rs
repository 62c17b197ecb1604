//! Between the state machine and the network worker: which command a message
//! sets off, and which message reports a command's outcome.

use vstd::prelude::*;
use crate::app::{
    dialog_for, session_step, App, AppState, AppStateView, AppView, Msg, Session, SessionView,
};
use crate::error::{error_text, NetError};
use crate::network::{
    find_ssid, lemma_position_from, position, views_of, WifiInfo, WifiInfoView,
};

verus! {

/// What the network worker can be asked to do.
#[derive(Debug, PartialEq, Eq)]
pub enum NetCmd {
    /// Scan for networks.
    Scan,
    /// Connect to the network with this SSID, with this password.
    Connect(String, String),
    /// Disconnect the wireless device.
    Disconnect,
    /// Remove the saved profiles of the network with this SSID.
    Forget(String),
    /// Switch the autoconnect flag of the network with this SSID.
    ToggleAutoconnect(String),
}

/// Mathematical value of a [`NetCmd`].
pub enum NetCmdView {
    Scan,
    Connect(Seq<char>, Seq<char>),
    Disconnect,
    Forget(Seq<char>),
    ToggleAutoconnect(Seq<char>),
}

impl View for NetCmd {
    type V = NetCmdView;

    open spec fn view(&self) -> NetCmdView {
        match *self {
            NetCmd::Scan => NetCmdView::Scan,
            NetCmd::Connect(ssid, password) => NetCmdView::Connect(ssid@, password@),
            NetCmd::Disconnect => NetCmdView::Disconnect,
            NetCmd::Forget(ssid) => NetCmdView::Forget(ssid@),
            NetCmd::ToggleAutoconnect(ssid) => NetCmdView::ToggleAutoconnect(ssid@),
        }
    }
}

/// The value of an optional command.
pub open spec fn command_view(command: Option<NetCmd>) -> Option<NetCmdView> {
    match command {
        Some(c) => Some(c@),
        None => None,
    }
}

/// Whether the list shows `ssid` as a network with a saved profile.
pub open spec fn known_in(networks: Seq<WifiInfoView>, ssid: Seq<char>) -> bool {
    position(networks, ssid) matches Some(j) && networks[j].known
}

/// The password that goes to the worker for `ssid`: what was typed, but
/// nothing for a network with a saved profile, whose stored credentials are
/// used.
pub open spec fn password_to_send(
    networks: Seq<WifiInfoView>,
    ssid: Seq<char>,
    typed: Seq<char>,
) -> Seq<char> {
    if known_in(networks, ssid) {
        Seq::empty()
    } else {
        typed
    }
}

/// The error shown when autoconnect is to be switched for a network without
/// a saved profile.
pub open spec fn not_saved_message() -> Seq<char> {
    "Cannot toggle auto-connect: network is not saved/known. Connect to it first."@
}

/// The command that `message` sets off in a running session, if any.
pub open spec fn command_for(session: SessionView, message: Msg) -> Option<NetCmdView> {
    match message {
        Msg::Scan => Some(NetCmdView::Scan),
        Msg::SubmitConnection => match session.state {
            AppStateView::EditingPassword { ssid, password, .. } => Some(
                NetCmdView::Connect(ssid, password_to_send(session.networks, ssid, password)),
            ),
            AppStateView::ConfirmWeakSecurity { ssid, .. } => match session.selected_network() {
                Some(network) => if network.known {
                    Some(NetCmdView::Connect(ssid, Seq::empty()))
                } else {
                    None
                },
                None => None,
            },
            _ => None,
        },
        Msg::SubmitDisconnect => Some(NetCmdView::Disconnect),
        Msg::SubmitForget => match session.selected_network() {
            Some(network) => if network.known {
                Some(NetCmdView::Forget(network.ssid))
            } else {
                None
            },
            None => None,
        },
        Msg::EnterInput => match session.selected_network() {
            Some(network) => if dialog_for(network) is Connecting {
                Some(NetCmdView::Connect(network.ssid, Seq::empty()))
            } else {
                None
            },
            None => None,
        },
        Msg::ToggleAutoconnect => match session.selected_network() {
            Some(network) => if session.d_pressed && network.known {
                Some(NetCmdView::ToggleAutoconnect(network.ssid))
            } else {
                None
            },
            None => None,
        },
        _ => None,
    }
}

/// The session after `message` has come off the queue. Forgetting is offered for a selected network with a saved profile
/// only. Switching autoconnect is heard only in the detail view, and answers
/// with an error for a selected network without a saved profile. Every other
/// message is applied as it is.
pub open spec fn session_routed(session: SessionView, message: Msg) -> SessionView {
    match message {
        Msg::ConfirmForget => match session.selected_network() {
            Some(network) => if network.known {
                session_step(session, message)
            } else {
                session
            },
            None => session,
        },
        Msg::ToggleAutoconnect => match session.selected_network() {
            Some(network) => if session.d_pressed && !network.known {
                session.with_state(AppStateView::ShowingError { message: not_saved_message() })
            } else {
                session
            },
            None => session,
        },
        _ => session_step(session, message),
    }
}

/// The application after `message`, and the command for the worker that the
/// message sets off.
pub open spec fn routed(app: AppView, message: Msg) -> (AppView, Option<NetCmdView>) {
    match app {
        AppView::Quitting => (AppView::Quitting, None),
        AppView::Running(session) => if message is Quit {
            (AppView::Quitting, None)
        } else {
            (AppView::Running(session_routed(session, message)), command_for(session, message))
        },
    }
}

/// What is done with a message before the state machine sees it.
enum Handling {
    /// Apply it.
    Pass,
    /// Drop it.
    Drop,
    /// Answer it with the error for a network that is not saved.
    Refuse,
}

/// Whether the list shows `ssid` as a network with a saved profile.
fn is_known(networks: &Vec<WifiInfo>, ssid: &String) -> (known: bool)
    ensures
        known == known_in(views_of(networks@), ssid@),
{
    match find_ssid(networks, ssid) {
        Some(j) => {
            proof {
                lemma_position_from(views_of(networks@), ssid@, 0);
            }
            assert(views_of(networks@)[j as int] == networks@[j as int]@);
            networks[j].known
        },
        None => false,
    }
}

/// The command that `message` sets off in `session`, if any.
fn command_of(session: &Session, message: &Msg) -> (command: Option<NetCmd>)
    ensures
        command_view(command) == command_for(session@, *message),
{
    match message {
        Msg::Scan => Some(NetCmd::Scan),
        Msg::SubmitConnection => match &session.state {
            AppState::EditingPassword { ssid, password, .. } => {
                let secret = if is_known(&session.networks, ssid) {
                    String::new()
                } else {
                    password.clone()
                };
                Some(NetCmd::Connect(ssid.clone(), secret))
            },
            AppState::ConfirmWeakSecurity { ssid, .. } => {
                match session.selected_network() {
                    Some(network) => if network.known {
                        Some(NetCmd::Connect(ssid.clone(), String::new()))
                    } else {
                        None
                    },
                    None => None,
                }
            },
            _ => None,
        },
        Msg::SubmitDisconnect => Some(NetCmd::Disconnect),
        Msg::SubmitForget => match session.selected_network() {
            Some(network) => if network.known {
                Some(NetCmd::Forget(network.ssid.clone()))
            } else {
                None
            },
            None => None,
        },
        Msg::EnterInput => match session.selected_network() {
            Some(network) => if !network.active && !network.weak_security && network.known {
                Some(NetCmd::Connect(network.ssid.clone(), String::new()))
            } else {
                None
            },
            None => None,
        },
        Msg::ToggleAutoconnect => match session.selected_network() {
            Some(network) => if session.d_pressed && network.known {
                Some(NetCmd::ToggleAutoconnect(network.ssid.clone()))
            } else {
                None
            },
            None => None,
        },
        _ => None,
    }
}

/// What is done with `message` in `session`.
fn handling_of(session: &Session, message: &Msg) -> (handling: Handling)
    ensures
        match handling {
            Handling::Pass => session_routed(session@, *message) == session_step(session@, *message),
            Handling::Drop => session_routed(session@, *message) == session@,
            Handling::Refuse => session_routed(session@, *message) == session@.with_state(
                AppStateView::ShowingError { message: not_saved_message() },
            ),
        },
{
    match message {
        Msg::ConfirmForget => match session.selected_network() {
            Some(network) => if network.known {
                Handling::Pass
            } else {
                Handling::Drop
            },
            None => Handling::Drop,
        },
        Msg::ToggleAutoconnect => match session.selected_network() {
            Some(network) => if session.d_pressed && !network.known {
                Handling::Refuse
            } else {
                Handling::Drop
            },
            None => Handling::Drop,
        },
        _ => Handling::Pass,
    }
}

/// The session with the error for a network that is not saved.
fn refuse(session: Session) -> (next: Session)
    ensures
        next@ == session@.with_state(AppStateView::ShowingError { message: not_saved_message() }),
        session@.wf() ==> next@.wf(),
{
    let Session { networks, selected_index, is_scanning, active_ssid, device_info, d_pressed, .. } =
        session;
    Session {
        networks,
        selected_index,
        is_scanning,
        active_ssid,
        device_info,
        state: AppState::ShowingError {
            message: "Cannot toggle auto-connect: network is not saved/known. Connect to it first.".to_owned(),
        },
        d_pressed,
    }
}

/// Takes one message off the queue: applies it to the application, unless it
/// is to be dropped or refused, and returns the command that it sets off for
/// the network worker.
pub fn dispatch(app: &mut App, message: Msg) -> (command: Option<NetCmd>)
    ensures
        final(app)@ == routed(old(app)@, message).0,
        command_view(command) == routed(old(app)@, message).1,
        old(app)@.wf() ==> final(app)@.wf(),
{
    let mut current = App::Quitting;
    core::mem::swap(app, &mut current);
    match current {
        App::Quitting => None,
        App::Running(session) => {
            let quit = match &message {
                Msg::Quit => true,
                _ => false,
            };
            if quit {
                return None;
            }
            let command = command_of(&session, &message);
            let next = match handling_of(&session, &message) {
                Handling::Pass => session.advance(message),
                Handling::Drop => session,
                Handling::Refuse => refuse(session),
            };
            *app = App::Running(next);
            command
        },
    }
}

impl NetCmd {
    /// Whether the worker scans again once it has carried out this command,
    /// so that the list shows what has come of it. It does after every
    /// command that is not itself a scan, whether it succeeded or failed.
    pub fn then_rescans(&self) -> (again: bool)
        ensures
            again == !(self@ is Scan),
    {
        match self {
            NetCmd::Scan => false,
            _ => true,
        }
    }
}

/// The message that reports the outcome of a command to the state machine.
/// A scan reports through its list instead.
pub fn reply(command: &NetCmd, outcome: Result<(), NetError>) -> (message: Option<Msg>)
    ensures
        match command@ {
            NetCmdView::Scan => message is None,
            NetCmdView::Connect(_, _) => match outcome {
                Ok(_) => message == Some(Msg::ConnectionSuccess),
                Err(e) => message matches Some(Msg::ConnectionFailure(f)) && f@ == e@,
            },
            NetCmdView::Disconnect => match outcome {
                Ok(_) => message == Some(Msg::DisconnectSuccess),
                Err(e) => message matches Some(Msg::DisconnectFailure(t)) && t@ == error_text(e@),
            },
            NetCmdView::Forget(_) => match outcome {
                Ok(_) => message == Some(Msg::ForgetSuccess),
                Err(e) => message matches Some(Msg::ForgetFailure(t)) && t@ == error_text(e@),
            },
            NetCmdView::ToggleAutoconnect(_) => match outcome {
                Ok(_) => message == Some(Msg::AutoconnectSuccess),
                Err(e) => message matches Some(Msg::AutoconnectFailure(t)) && t@ == error_text(
                    e@,
                ),
            },
        },
{
    match command {
        NetCmd::Scan => None,
        NetCmd::Connect(_, _) => match outcome {
            Ok(_) => Some(Msg::ConnectionSuccess),
            Err(e) => Some(Msg::ConnectionFailure(e)),
        },
        NetCmd::Disconnect => match outcome {
            Ok(_) => Some(Msg::DisconnectSuccess),
            Err(e) => Some(Msg::DisconnectFailure(e.describe())),
        },
        NetCmd::Forget(_) => match outcome {
            Ok(_) => Some(Msg::ForgetSuccess),
            Err(e) => Some(Msg::ForgetFailure(e.describe())),
        },
        NetCmd::ToggleAutoconnect(_) => match outcome {
            Ok(_) => Some(Msg::AutoconnectSuccess),
            Err(e) => Some(Msg::AutoconnectFailure(e.describe())),
        },
    }
}

/// The message that reports a scan. A list is always passed on. A failure is
/// reported where the scan was asked for as such, and passed over in silence
/// where it only followed another command.
pub fn scan_report(asked_for: bool, result: Result<Vec<WifiInfo>, NetError>) -> (message: Option<
    Msg,
>)
    ensures
        match result {
            Ok(list) => message matches Some(Msg::NetworksFound(found)) && found == list,
            Err(e) => if asked_for {
                message matches Some(Msg::Error(t)) && t@ == error_text(e@)
            } else {
                message is None
            },
        },
{
    match result {
        Ok(list) => Some(Msg::NetworksFound(list)),
        Err(e) => if asked_for {
            Some(Msg::Error(e.describe()))
        } else {
            None
        },
    }
}

/// No password is sent to the worker for a network that the list shows with
/// a saved profile.
pub proof fn known_network_gets_no_password(session: SessionView, message: Msg)
    ensures
        command_for(session, message) matches Some(NetCmdView::Connect(ssid, password)) ==> (
        known_in(session.networks, ssid) ==> password.len() == 0),
{
}

/// Only a network with a saved profile is ever asked to be forgotten or to
/// have its autoconnect flag switched, and the latter only in the detail view.
pub proof fn only_saved_networks_are_changed(session: SessionView, message: Msg)
    ensures
        command_for(session, message) matches Some(NetCmdView::Forget(ssid)) ==> (
        session.selected_network() matches Some(n) && n.ssid == ssid && n.known),
        command_for(session, message) matches Some(NetCmdView::ToggleAutoconnect(ssid)) ==> (
        session.selected_network() matches Some(n) && n.ssid == ssid && n.known
            && session.d_pressed),
{
}

} // verus!
