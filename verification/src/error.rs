//! Failures of the protocol client.

use vstd::prelude::*;

verus! {

/// Why an operation of the protocol client failed.
#[derive(Debug, PartialEq, Eq)]
pub enum NetError {
    /// The network-management service could not be reached.
    ServiceUnavailable,
    /// No wireless device was found.
    NoWirelessDevice,
    /// The service refused or gave up the activation; the text says why.
    ActivationRejected(String),
    /// The credentials were not accepted.
    IncorrectPassword,
    /// The activation did not finish in time.
    Timeout,
    /// No saved profile matches the network.
    UnknownNetwork,
    /// A request to the service failed; the text says which.
    OperationFailed(String),
}

/// Mathematical value of a [`NetError`].
pub enum NetErrorView {
    ServiceUnavailable,
    NoWirelessDevice,
    ActivationRejected(Seq<char>),
    IncorrectPassword,
    Timeout,
    UnknownNetwork,
    OperationFailed(Seq<char>),
}

impl View for NetError {
    type V = NetErrorView;

    open spec fn view(&self) -> NetErrorView {
        match *self {
            NetError::ServiceUnavailable => NetErrorView::ServiceUnavailable,
            NetError::NoWirelessDevice => NetErrorView::NoWirelessDevice,
            NetError::ActivationRejected(reason) => NetErrorView::ActivationRejected(reason@),
            NetError::IncorrectPassword => NetErrorView::IncorrectPassword,
            NetError::Timeout => NetErrorView::Timeout,
            NetError::UnknownNetwork => NetErrorView::UnknownNetwork,
            NetError::OperationFailed(context) => NetErrorView::OperationFailed(context@),
        }
    }
}

/// The sentence shown to the user for a failure.
pub open spec fn error_text(error: NetErrorView) -> Seq<char> {
    match error {
        NetErrorView::ServiceUnavailable => "Network service unavailable"@,
        NetErrorView::NoWirelessDevice => "No WiFi device found"@,
        NetErrorView::ActivationRejected(reason) => reason,
        NetErrorView::IncorrectPassword => "Incorrect password"@,
        NetErrorView::Timeout => "Connection timeout"@,
        NetErrorView::UnknownNetwork => "Network not found in saved connections"@,
        NetErrorView::OperationFailed(context) => context,
    }
}

impl Clone for NetError {
    fn clone(&self) -> (res: Self)
        ensures
            res == *self,
    {
        match self {
            NetError::ServiceUnavailable => NetError::ServiceUnavailable,
            NetError::NoWirelessDevice => NetError::NoWirelessDevice,
            NetError::ActivationRejected(reason) => NetError::ActivationRejected(reason.clone()),
            NetError::IncorrectPassword => NetError::IncorrectPassword,
            NetError::Timeout => NetError::Timeout,
            NetError::UnknownNetwork => NetError::UnknownNetwork,
            NetError::OperationFailed(context) => NetError::OperationFailed(context.clone()),
        }
    }
}

impl NetError {
    /// The sentence shown to the user for this failure.
    pub fn describe(&self) -> (text: String)
        ensures
            text@ == error_text(self@),
    {
        match self {
            NetError::ServiceUnavailable => "Network service unavailable".to_owned(),
            NetError::NoWirelessDevice => "No WiFi device found".to_owned(),
            NetError::ActivationRejected(reason) => reason.clone(),
            NetError::IncorrectPassword => "Incorrect password".to_owned(),
            NetError::Timeout => "Connection timeout".to_owned(),
            NetError::UnknownNetwork => "Network not found in saved connections".to_owned(),
            NetError::OperationFailed(context) => context.clone(),
        }
    }
}

} // verus!
