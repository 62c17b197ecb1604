//! Connecting: what to ask of the host for a network, what a refusal means,
//! and the wait for the activation to end.

use vstd::prelude::*;
use crate::error::{NetError, NetErrorView};
use crate::profiles::{
    find_profile, lemma_profile_from, profile_for, profile_views, SavedConnection,
    SavedConnectionView,
};
use crate::scan::{access_point_views, AccessPoint, AccessPointView};
use crate::text::{contains, decimal, decimal_text, decode_lossy, lossy_text, text_contains};

verus! {

/// State of an activation: it succeeded.
pub const ACTIVATION_ACTIVATED: u32 = 2;

/// State of an activation: it ended without a connection.
pub const ACTIVATION_DEACTIVATED: u32 = 4;

/// Reason of a failed activation: the secrets were missing.
pub const REASON_NO_SECRETS: u32 = 7;

/// Reason of a failed activation: the peer disconnected during authentication.
pub const REASON_SUPPLICANT_DISCONNECT: u32 = 8;

/// What to ask of the host in order to connect.
#[derive(Debug, PartialEq, Eq)]
pub enum ConnectPlan {
    /// Activate the saved profile at `profile` on the access point at
    /// `access_point`; "/" leaves the choice to the host. The stored
    /// credentials are used.
    ActivateSaved { profile: String, access_point: String },
    /// Create a profile for `ssid` and activate it. `psk` is the pre-shared
    /// key of its security section; without one the profile has no such
    /// section.
    CreateProfile { ssid: String, psk: Option<String> },
}

/// Mathematical value of a [`ConnectPlan`].
pub enum ConnectPlanView {
    ActivateSaved { profile: Seq<char>, access_point: Seq<char> },
    CreateProfile { ssid: Seq<char>, psk: Option<Seq<char>> },
}

impl View for ConnectPlan {
    type V = ConnectPlanView;

    open spec fn view(&self) -> ConnectPlanView {
        match *self {
            ConnectPlan::ActivateSaved { profile, access_point } => ConnectPlanView::ActivateSaved {
                profile: profile@,
                access_point: access_point@,
            },
            ConnectPlan::CreateProfile { ssid, psk } => ConnectPlanView::CreateProfile {
                ssid: ssid@,
                psk: match psk {
                    Some(key) => Some(key@),
                    None => None,
                },
            },
        }
    }
}

impl ConnectPlan {
    /// Whether the plan creates a profile, which is to be removed again where
    /// the connection fails.
    pub fn creates_profile(&self) -> (new: bool)
        ensures
            new == (self@ is CreateProfile),
    {
        match self {
            ConnectPlan::CreateProfile { .. } => true,
            ConnectPlan::ActivateSaved { .. } => false,
        }
    }
}

/// Index of the first access point at or after `from` whose SSID was read
/// and, as text, is `ssid`.
pub open spec fn access_point_from(seen: Seq<AccessPointView>, ssid: Seq<char>, from: int) -> Option<
    int,
>
    decreases seen.len() - from,
{
    if from < 0 || from >= seen.len() {
        None
    } else if seen[from].ssid is Some && lossy_text(seen[from].ssid->0) == ssid {
        Some(from)
    } else {
        access_point_from(seen, ssid, from + 1)
    }
}

/// The plan for connecting to `ssid`. A network with a saved profile is
/// activated from its first profile, on the first access point seen under its
/// name, and `password` plays no part. Any other network gets a new profile,
/// with a security section only where a password was given.
pub open spec fn planned(
    ssid: Seq<char>,
    password: Seq<char>,
    saved: Seq<SavedConnectionView>,
    seen: Seq<AccessPointView>,
) -> ConnectPlanView {
    match profile_for(saved, ssid) {
        Some(i) => ConnectPlanView::ActivateSaved {
            profile: saved[i].path,
            access_point: match access_point_from(seen, ssid, 0) {
                Some(j) => seen[j].path,
                None => "/"@,
            },
        },
        None => ConnectPlanView::CreateProfile {
            ssid,
            psk: if password.len() == 0 {
                None
            } else {
                Some(password)
            },
        },
    }
}

/// The message of a refused activation.
pub open spec fn refusal_text(complaint: Seq<char>) -> Seq<char> {
    "Failed to activate: "@ + complaint
}

/// Whether the host's complaint says that the connection is active already.
pub open spec fn says_already_active(complaint: Seq<char>) -> bool {
    text_contains(complaint, "AlreadyActive"@) || text_contains(complaint, "already active"@)
}

/// Whether the host's complaint is about the credentials.
pub open spec fn blames_credentials(complaint: Seq<char>) -> bool {
    text_contains(complaint, "secrets"@) || text_contains(complaint, "802-1x"@) || text_contains(
        complaint,
        "password"@,
    )
}

/// The message for a failed activation with the host's reason code, where it
/// could be read.
pub open spec fn reason_text(reason: Option<u32>) -> Seq<char> {
    match reason {
        Some(code) => "Connection failed (reason: "@ + decimal(code as nat) + ")"@,
        None => "Connection failed"@,
    }
}

/// The failure that the reason of a deactivation stands for: missing secrets
/// and a peer that disconnected during authentication mean wrong credentials,
/// anything else a rejected activation.
pub open spec fn failure_for(reason: Option<u32>) -> NetErrorView {
    if reason == Some(REASON_NO_SECRETS) || reason == Some(REASON_SUPPLICANT_DISCONNECT) {
        NetErrorView::IncorrectPassword
    } else {
        NetErrorView::ActivationRejected(reason_text(reason))
    }
}

/// How long and how often to wait for an activation. All times are in
/// milliseconds.
#[derive(Clone, Copy, Debug, PartialEq, Eq)]
pub struct WaitPolicy {
    /// The pause between two readings of the activation state.
    pub poll_interval_ms: u64,
    /// The time after which the wait is given up.
    pub ceiling_ms: u64,
    /// For a new profile: how long the state may stay unreadable before that
    /// is taken for rejected credentials. Without a value it never is.
    pub grace_ms: Option<u64>,
}

/// What to do after one reading of the activation state.
#[derive(Debug, PartialEq, Eq)]
pub enum WaitOutcome {
    /// Pause, then read again. `failing_since_ms` is the time of the first of
    /// the readings that have failed in a row, to be handed in with the next.
    KeepWaiting { failing_since_ms: Option<u64> },
    /// The connection is up.
    Connected,
    /// The activation ended without a connection: read the reason, which says
    /// what failed.
    Deactivated { delete_profile: bool },
    /// The wait is over without an answer from the activation.
    GaveUp { error: NetError, delete_profile: bool },
}

/// Mathematical value of a [`WaitOutcome`].
pub enum WaitOutcomeView {
    KeepWaiting { failing_since_ms: Option<u64> },
    Connected,
    Deactivated { delete_profile: bool },
    GaveUp { error: NetErrorView, delete_profile: bool },
}

impl View for WaitOutcome {
    type V = WaitOutcomeView;

    open spec fn view(&self) -> WaitOutcomeView {
        match *self {
            WaitOutcome::KeepWaiting { failing_since_ms } => WaitOutcomeView::KeepWaiting {
                failing_since_ms,
            },
            WaitOutcome::Connected => WaitOutcomeView::Connected,
            WaitOutcome::Deactivated { delete_profile } => WaitOutcomeView::Deactivated {
                delete_profile,
            },
            WaitOutcome::GaveUp { error, delete_profile } => WaitOutcomeView::GaveUp {
                error: error@,
                delete_profile,
            },
        }
    }
}

impl WaitOutcomeView {
    /// Whether the outcome ends the wait with a failure.
    pub open spec fn fails(self) -> bool {
        self is Deactivated || self is GaveUp
    }

    /// Whether the outcome asks for the profile to be removed.
    pub open spec fn deletes_profile(self) -> bool {
        match self {
            WaitOutcomeView::Deactivated { delete_profile } => delete_profile,
            WaitOutcomeView::GaveUp { delete_profile, .. } => delete_profile,
            _ => false,
        }
    }
}

/// The time since which the readings have failed in a row, with the reading
/// at `elapsed_ms` being a failed one.
pub open spec fn failing_since(failing_since_ms: Option<u64>, elapsed_ms: u64) -> u64 {
    match failing_since_ms {
        Some(since) => since,
        None => elapsed_ms,
    }
}

/// What to do after the activation state was read `elapsed_ms` after the
/// start of the wait. Past the ceiling the wait times out, whatever was read.
/// Before that an activated state ends it with success and a deactivated one
/// with a failure; any other state means to go on. A state that could not be
/// read means to go on too, unless the profile is new, a grace period is set,
/// and the readings have failed for longer than that: this is taken for
/// rejected credentials. Every failure of a new profile asks for its removal,
/// and none of a profile that was there before.
pub open spec fn polled(
    policy: WaitPolicy,
    new_profile: bool,
    failing_since_ms: Option<u64>,
    elapsed_ms: u64,
    reading: Option<u32>,
) -> WaitOutcomeView {
    if elapsed_ms > policy.ceiling_ms {
        WaitOutcomeView::GaveUp { error: NetErrorView::Timeout, delete_profile: new_profile }
    } else {
        match reading {
            Some(state) => if state == ACTIVATION_ACTIVATED {
                WaitOutcomeView::Connected
            } else if state == ACTIVATION_DEACTIVATED {
                WaitOutcomeView::Deactivated { delete_profile: new_profile }
            } else {
                WaitOutcomeView::KeepWaiting { failing_since_ms: None }
            },
            None => {
                let since = failing_since(failing_since_ms, elapsed_ms);
                if new_profile && policy.grace_ms is Some && elapsed_ms - since
                    > policy.grace_ms->0 {
                    WaitOutcomeView::GaveUp {
                        error: NetErrorView::IncorrectPassword,
                        delete_profile: true,
                    }
                } else {
                    WaitOutcomeView::KeepWaiting { failing_since_ms: Some(since) }
                }
            },
        }
    }
}

impl WaitPolicy {
    /// Read every 200 ms, give up after 30 s, and never take unreadable
    /// states for rejected credentials.
    pub fn standard() -> (policy: WaitPolicy)
        ensures
            policy == (WaitPolicy { poll_interval_ms: 200, ceiling_ms: 30_000, grace_ms: None }),
    {
        WaitPolicy { poll_interval_ms: 200, ceiling_ms: 30_000, grace_ms: None }
    }
}

/// Index of the first access point whose SSID was read and, as text, is `ssid`.
fn find_access_point(seen: &Vec<AccessPoint>, ssid: &str) -> (found: Option<usize>)
    ensures
        found matches Some(j) ==> access_point_from(access_point_views(seen@), ssid@, 0) == Some(
            j as int,
        ) && j < seen.len(),
        found is None ==> access_point_from(access_point_views(seen@), ssid@, 0) is None,
{
    let wanted = ssid.to_owned();
    let mut i: usize = 0;
    while i < seen.len()
        invariant
            i <= seen.len(),
            wanted@ == ssid@,
            access_point_from(access_point_views(seen@), ssid@, 0) == access_point_from(
                access_point_views(seen@),
                ssid@,
                i as int,
            ),
        decreases seen.len() - i,
    {
        assert(access_point_views(seen@)[i as int] == seen@[i as int]@);
        let named = match &seen[i].ssid {
            Some(bytes) => decode_lossy(bytes) == wanted,
            None => false,
        };
        if named {
            return Some(i);
        }
        i += 1;
    }
    None
}

/// What to ask of the host in order to connect to `ssid`, given the saved
/// profiles and the access points that the device sees.
pub fn plan_connection(
    ssid: &str,
    password: &str,
    saved: &Vec<SavedConnection>,
    seen: &Vec<AccessPoint>,
) -> (plan: ConnectPlan)
    ensures
        plan@ == planned(ssid@, password@, profile_views(saved@), access_point_views(seen@)),
{
    match find_profile(saved, ssid) {
        Some(i) => {
            proof {
                lemma_profile_from(profile_views(saved@), ssid@, 0);
            }
            assert(profile_views(saved@)[i as int] == saved@[i as int]@);
            let access_point = match find_access_point(seen, ssid) {
                Some(j) => {
                    assert(access_point_views(seen@)[j as int] == seen@[j as int]@);
                    seen[j].path.clone()
                },
                None => "/".to_owned(),
            };
            ConnectPlan::ActivateSaved { profile: saved[i].path.clone(), access_point }
        },
        None => ConnectPlan::CreateProfile {
            ssid: ssid.to_owned(),
            psk: if password.unicode_len() == 0 {
                None
            } else {
                Some(password.to_owned())
            },
        },
    }
}

/// What connecting comes to where the host refuses the activation at once
/// and says `complaint`. For a saved profile a complaint that the connection
/// is active already counts as success. For a new profile a complaint about
/// the credentials means a wrong password. Any other refusal is passed on.
pub fn refused_activation(new_profile: bool, complaint: &str) -> (outcome: Result<(), NetError>)
    ensures
        outcome is Ok <==> !new_profile && says_already_active(complaint@),
        outcome matches Err(e) ==> e@ == (if new_profile && blames_credentials(complaint@) {
            NetErrorView::IncorrectPassword
        } else {
            NetErrorView::ActivationRejected(refusal_text(complaint@))
        }),
{
    if new_profile {
        if contains(complaint, "secrets") || contains(complaint, "802-1x") || contains(
            complaint,
            "password",
        ) {
            return Err(NetError::IncorrectPassword);
        }
    } else if contains(complaint, "AlreadyActive") || contains(complaint, "already active") {
        return Ok(());
    }
    let mut text = "Failed to activate: ".to_owned();
    text.append(complaint);
    Err(NetError::ActivationRejected(text))
}

/// The failure that the reason of a deactivation stands for. `reason` is the
/// host's reason code, where it could be read.
pub fn failure_for_reason(reason: Option<u32>) -> (error: NetError)
    ensures
        error@ == failure_for(reason),
{
    match reason {
        Some(code) => {
            if code == REASON_NO_SECRETS || code == REASON_SUPPLICANT_DISCONNECT {
                NetError::IncorrectPassword
            } else {
                let mut text = "Connection failed (reason: ".to_owned();
                let number = decimal_text(code);
                text.append(number.as_str());
                text.append(")");
                NetError::ActivationRejected(text)
            }
        },
        None => NetError::ActivationRejected("Connection failed".to_owned()),
    }
}

/// What to do after the activation state was read. `elapsed_ms` is the time
/// since the wait began, `reading` the state where it could be read, and
/// `failing_since_ms` what the outcome before this one handed out, or nothing
/// at the first reading.
pub fn after_poll(
    policy: &WaitPolicy,
    new_profile: bool,
    failing_since_ms: Option<u64>,
    elapsed_ms: u64,
    reading: Option<u32>,
) -> (outcome: WaitOutcome)
    ensures
        outcome@ == polled(*policy, new_profile, failing_since_ms, elapsed_ms, reading),
        outcome@.fails() ==> outcome@.deletes_profile() == new_profile,
        !outcome@.fails() ==> !outcome@.deletes_profile(),
{
    if elapsed_ms > policy.ceiling_ms {
        return WaitOutcome::GaveUp { error: NetError::Timeout, delete_profile: new_profile };
    }
    match reading {
        Some(state) => if state == ACTIVATION_ACTIVATED {
            WaitOutcome::Connected
        } else if state == ACTIVATION_DEACTIVATED {
            WaitOutcome::Deactivated { delete_profile: new_profile }
        } else {
            WaitOutcome::KeepWaiting { failing_since_ms: None }
        },
        None => {
            let since: u64 = match failing_since_ms {
                Some(since) => since,
                None => elapsed_ms,
            };
            let unanswered = match policy.grace_ms {
                Some(grace) => new_profile && elapsed_ms >= since && elapsed_ms - since > grace,
                None => false,
            };
            if unanswered {
                WaitOutcome::GaveUp { error: NetError::IncorrectPassword, delete_profile: true }
            } else {
                WaitOutcome::KeepWaiting { failing_since_ms: Some(since) }
            }
        },
    }
}

/// A connection attempt that fails while waiting asks for the removal of the
/// profile exactly where the attempt had created it: a network that was
/// unknown does not stay known, and a profile that was there before stays.
pub proof fn only_new_profiles_are_removed(
    policy: WaitPolicy,
    new_profile: bool,
    failing_since_ms: Option<u64>,
    elapsed_ms: u64,
    reading: Option<u32>,
)
    ensures
        ({
            let outcome = polled(policy, new_profile, failing_since_ms, elapsed_ms, reading);
            &&& outcome.fails() ==> outcome.deletes_profile() == new_profile
            &&& !outcome.fails() ==> !outcome.deletes_profile()
        }),
{
}

/// The wait ends: past the ceiling no reading asks to go on.
pub proof fn wait_ends_at_the_ceiling(
    policy: WaitPolicy,
    new_profile: bool,
    failing_since_ms: Option<u64>,
    elapsed_ms: u64,
    reading: Option<u32>,
)
    requires
        elapsed_ms > policy.ceiling_ms,
    ensures
        polled(policy, new_profile, failing_since_ms, elapsed_ms, reading)
            == (WaitOutcomeView::GaveUp {
            error: NetErrorView::Timeout,
            delete_profile: new_profile,
        }),
{
}

/// A network with a saved profile is connected from that profile, whatever
/// password comes with the request.
pub proof fn known_network_ignores_password(
    ssid: Seq<char>,
    password: Seq<char>,
    other: Seq<char>,
    saved: Seq<SavedConnectionView>,
    seen: Seq<AccessPointView>,
)
    requires
        profile_for(saved, ssid) is Some,
    ensures
        planned(ssid, password, saved, seen) is ActivateSaved,
        planned(ssid, password, saved, seen) == planned(ssid, other, saved, seen),
{
}

} // verus!
