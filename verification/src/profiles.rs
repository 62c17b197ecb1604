//! Saved connection profiles: reading them, finding the one for a network,
//! forgetting them and switching their autoconnect flag.

use vstd::prelude::*;
use crate::error::{NetError, NetErrorView};
use crate::text::{decode_lossy, lossy_text, lowercased, to_lowercase, trim, trimmed};

verus! {

/// The connection type that marks a profile as a wireless one.
pub const WIRELESS_TYPE: &'static str = "802-11-wireless";

/// A saved profile of the host, as far as this library reads it.
#[derive(Debug, PartialEq, Eq)]
pub struct SavedConnection {
    /// Where the host keeps the profile.
    pub path: String,
    /// The network that the profile is for.
    pub ssid: String,
    /// Autoconnect priority, if the profile states one.
    pub priority: Option<i32>,
    /// Autoconnect flag; absent means the provider's default.
    pub autoconnect: Option<bool>,
    /// Autoconnect retry limit, if the profile states one.
    pub autoconnect_retries: Option<i32>,
}

/// Mathematical value of a [`SavedConnection`].
pub struct SavedConnectionView {
    pub path: Seq<char>,
    pub ssid: Seq<char>,
    pub priority: Option<i32>,
    pub autoconnect: Option<bool>,
    pub autoconnect_retries: Option<i32>,
}

impl View for SavedConnection {
    type V = SavedConnectionView;

    open spec fn view(&self) -> SavedConnectionView {
        SavedConnectionView {
            path: self.path@,
            ssid: self.ssid@,
            priority: self.priority,
            autoconnect: self.autoconnect,
            autoconnect_retries: self.autoconnect_retries,
        }
    }
}

impl Clone for SavedConnection {
    fn clone(&self) -> (res: Self)
        ensures
            res == *self,
    {
        SavedConnection {
            path: self.path.clone(),
            ssid: self.ssid.clone(),
            priority: self.priority,
            autoconnect: self.autoconnect,
            autoconnect_retries: self.autoconnect_retries,
        }
    }
}

/// The values of a list of profiles, entry by entry.
pub open spec fn profile_views(saved: Seq<SavedConnection>) -> Seq<SavedConnectionView> {
    saved.map_values(|c: SavedConnection| c@)
}

/// What was read of the settings of one stored profile. A setting that the
/// profile lacks, or that could not be read, is absent.
#[derive(Debug)]
pub struct ProfileSettings {
    /// The connection type.
    pub connection_type: Option<String>,
    /// The bytes of the SSID of the wireless section.
    pub ssid: Option<Vec<u8>>,
    /// The autoconnect priority.
    pub priority: Option<i64>,
    /// The autoconnect retry limit.
    pub autoconnect_retries: Option<i64>,
}

/// Mathematical value of [`ProfileSettings`].
pub struct ProfileSettingsView {
    pub connection_type: Option<Seq<char>>,
    pub ssid: Option<Seq<u8>>,
    pub priority: Option<i64>,
    pub autoconnect_retries: Option<i64>,
}

impl View for ProfileSettings {
    type V = ProfileSettingsView;

    open spec fn view(&self) -> ProfileSettingsView {
        ProfileSettingsView {
            connection_type: match self.connection_type {
                Some(t) => Some(t@),
                None => None,
            },
            ssid: match self.ssid {
                Some(bytes) => Some(bytes@),
                None => None,
            },
            priority: self.priority,
            autoconnect_retries: self.autoconnect_retries,
        }
    }
}

/// A 64-bit setting cut down to the 32 bits that the host stores.
pub open spec fn narrowed(value: Option<i64>) -> Option<i32> {
    match value {
        Some(v) => Some(v as i32),
        None => None,
    }
}

/// The SSID of a profile, where the profile is a wireless one that names an SSID.
pub open spec fn wireless_ssid(settings: ProfileSettingsView) -> Option<Seq<char>> {
    if settings.connection_type == Some(WIRELESS_TYPE@) && settings.ssid is Some {
        Some(lossy_text(settings.ssid->0))
    } else {
        None
    }
}

/// The saved connection that the settings of the profile at `path` describe,
/// where the profile is a wireless one that names an SSID.
pub open spec fn saved_from(
    path: Seq<char>,
    settings: ProfileSettingsView,
    autoconnect: Option<bool>,
) -> Option<SavedConnectionView> {
    match wireless_ssid(settings) {
        Some(ssid) => Some(
            SavedConnectionView {
                path,
                ssid,
                priority: narrowed(settings.priority),
                autoconnect,
                autoconnect_retries: narrowed(settings.autoconnect_retries),
            },
        ),
        None => None,
    }
}

/// Index of the first profile at or after `from` that is for `ssid`.
pub open spec fn profile_from(saved: Seq<SavedConnectionView>, ssid: Seq<char>, from: int) -> Option<
    int,
>
    decreases saved.len() - from,
{
    if from < 0 || from >= saved.len() {
        None
    } else if saved[from].ssid == ssid {
        Some(from)
    } else {
        profile_from(saved, ssid, from + 1)
    }
}

/// Index of the first profile that is for `ssid`.
pub open spec fn profile_for(saved: Seq<SavedConnectionView>, ssid: Seq<char>) -> Option<int> {
    profile_from(saved, ssid, 0)
}

/// The paths of all profiles that are for `ssid`, in their order.
pub open spec fn paths_for(saved: Seq<SavedConnectionView>, ssid: Seq<char>) -> Seq<Seq<char>>
    decreases saved.len(),
{
    if saved.len() == 0 {
        Seq::empty()
    } else if saved.last().ssid == ssid {
        paths_for(saved.drop_last(), ssid).push(saved.last().path)
    } else {
        paths_for(saved.drop_last(), ssid)
    }
}

/// The values of a list of texts, entry by entry.
pub open spec fn text_views(texts: Seq<String>) -> Seq<Seq<char>> {
    texts.map_values(|t: String| t@)
}

/// Whether forgetting a network succeeded, given for each of its profiles
/// whether the host removed it: it did where one profile at least was
/// removed, and also where there was none to remove.
pub open spec fn forgotten(removed: Seq<bool>) -> bool {
    removed.len() == 0 || removed.contains(true)
}

/// What the host reports of an autoconnect flag: "no", "false" and "0" switch
/// it off, in any case and with white space around; anything else, and a
/// report that could not be had, leaves it on.
pub open spec fn autoconnect_reported(succeeded: bool, output: Seq<char>) -> bool {
    let word = lowercased(trimmed(output));
    !(succeeded && (word == "no"@ || word == "false"@ || word == "0"@))
}

/// The flag after switching: the opposite of the stored one, and off where
/// none is stored, since that stands for on.
pub open spec fn toggled(autoconnect: Option<bool>) -> bool {
    match autoconnect {
        Some(on) => !on,
        None => false,
    }
}

/// Where a profile was found, it lies at or after `from`, within the list, and
/// is for the SSID; where none was, no profile from there on is for it.
pub proof fn lemma_profile_from(saved: Seq<SavedConnectionView>, ssid: Seq<char>, from: int)
    requires
        0 <= from,
    ensures
        profile_from(saved, ssid, from) matches Some(j) ==> from <= j < saved.len()
            && saved[j].ssid == ssid,
        profile_from(saved, ssid, from) is None ==> forall|k: int|
            from <= k < saved.len() ==> saved[k].ssid != ssid,
    decreases saved.len() - from,
{
    if from < saved.len() && saved[from].ssid != ssid {
        lemma_profile_from(saved, ssid, from + 1);
    }
}

/// No path is listed for an SSID that no profile is for.
pub proof fn lemma_paths_for_none(saved: Seq<SavedConnectionView>, ssid: Seq<char>)
    requires
        forall|k: int| 0 <= k < saved.len() ==> saved[k].ssid != ssid,
    ensures
        paths_for(saved, ssid).len() == 0,
    decreases saved.len(),
{
    if saved.len() > 0 {
        lemma_paths_for_none(saved.drop_last(), ssid);
    }
}

/// The SSID of a profile, where the profile is a wireless one that names an SSID.
pub fn profile_ssid(settings: &ProfileSettings) -> (ssid: Option<String>)
    ensures
        match ssid {
            Some(text) => wireless_ssid(settings@) == Some(text@),
            None => wireless_ssid(settings@) is None,
        },
{
    let wireless = match &settings.connection_type {
        Some(t) => {
            let expected = WIRELESS_TYPE.to_owned();
            *t == expected
        },
        None => false,
    };
    if !wireless {
        return None;
    }
    match &settings.ssid {
        Some(bytes) => Some(decode_lossy(bytes)),
        None => None,
    }
}

/// A 64-bit setting cut down to the 32 bits that the host stores.
fn narrow(value: Option<i64>) -> (r: Option<i32>)
    ensures
        r == narrowed(value),
{
    match value {
        Some(v) => Some(#[verifier::truncate] (v as i32)),
        None => None,
    }
}

/// The saved connection that the settings of the profile at `path` describe.
/// `autoconnect` is the flag as it was read for the profile's SSID. Profiles
/// that are not wireless ones, or name no SSID, give nothing.
pub fn saved_connection(path: String, settings: &ProfileSettings, autoconnect: Option<bool>) -> (saved:
    Option<SavedConnection>)
    ensures
        match saved {
            Some(c) => saved_from(path@, settings@, autoconnect) == Some(c@),
            None => saved_from(path@, settings@, autoconnect) is None,
        },
{
    match profile_ssid(settings) {
        Some(ssid) => Some(
            SavedConnection {
                path,
                ssid,
                priority: narrow(settings.priority),
                autoconnect,
                autoconnect_retries: narrow(settings.autoconnect_retries),
            },
        ),
        None => None,
    }
}

/// Index of the first profile that is for `ssid`.
pub fn find_profile(saved: &Vec<SavedConnection>, ssid: &str) -> (found: Option<usize>)
    ensures
        found matches Some(i) ==> profile_for(profile_views(saved@), ssid@) == Some(i as int),
        found is None ==> profile_for(profile_views(saved@), ssid@) is None,
{
    let wanted = ssid.to_owned();
    let mut i: usize = 0;
    while i < saved.len()
        invariant
            i <= saved.len(),
            wanted@ == ssid@,
            profile_for(profile_views(saved@), ssid@) == profile_from(
                profile_views(saved@),
                ssid@,
                i as int,
            ),
        decreases saved.len() - i,
    {
        assert(profile_views(saved@)[i as int] == saved@[i as int]@);
        if saved[i].ssid == wanted {
            return Some(i);
        }
        i += 1;
    }
    None
}

/// The paths of all profiles that are for `ssid`: a host may hold several, and
/// forgetting the network removes each of them.
pub fn profiles_to_forget(saved: &Vec<SavedConnection>, ssid: &str) -> (paths: Vec<String>)
    ensures
        text_views(paths@) == paths_for(profile_views(saved@), ssid@),
{
    let wanted = ssid.to_owned();
    let mut paths: Vec<String> = Vec::new();
    let mut i: usize = 0;
    assert(profile_views(saved@).take(0) == Seq::<SavedConnectionView>::empty());
    assert(text_views(paths@) == Seq::<Seq<char>>::empty());
    while i < saved.len()
        invariant
            i <= saved.len(),
            wanted@ == ssid@,
            text_views(paths@) == paths_for(profile_views(saved@).take(i as int), ssid@),
        decreases saved.len() - i,
    {
        let ghost all = profile_views(saved@);
        let ghost before = text_views(paths@);
        assert(all.take(i + 1).drop_last() == all.take(i as int));
        assert(all.take(i + 1).last() == saved@[i as int]@);
        if saved[i].ssid == wanted {
            paths.push(saved[i].path.clone());
            assert(text_views(paths@) == before.push(saved@[i as int].path@));
        }
        i += 1;
    }
    assert(profile_views(saved@).take(saved.len() as int) == profile_views(saved@));
    paths
}

/// Whether forgetting a network succeeded, given for each of its profiles
/// whether the host removed it. Fails only where there were profiles and none
/// of them was removed.
pub fn forget_outcome(removed: &Vec<bool>) -> (outcome: Result<(), NetError>)
    ensures
        outcome is Ok <==> forgotten(removed@),
        outcome matches Err(e) ==> e@ == NetErrorView::OperationFailed(
            "Failed to delete connection"@,
        ),
{
    if removed.len() == 0 {
        return Ok(());
    }
    let mut i: usize = 0;
    while i < removed.len()
        invariant
            i <= removed.len(),
            forall|j: int| 0 <= j < i ==> !removed@[j],
        decreases removed.len() - i,
    {
        if removed[i] {
            return Ok(());
        }
        i += 1;
    }
    Err(NetError::OperationFailed("Failed to delete connection".to_owned()))
}

/// What the host reports of an autoconnect flag. `succeeded` says whether the
/// report could be had, `output` is what it printed.
pub fn autoconnect_from_report(succeeded: bool, output: &str) -> (on: bool)
    ensures
        on == autoconnect_reported(succeeded, output@),
{
    if !succeeded {
        return true;
    }
    let word = to_lowercase(trim(output));
    let off = word == "no".to_owned() || word == "false".to_owned() || word == "0".to_owned();
    !off
}

/// The autoconnect flag to store for `ssid` when the user switches it: the
/// opposite of what its first profile holds. Fails where no profile is for
/// the network.
pub fn autoconnect_after_toggle(saved: &Vec<SavedConnection>, ssid: &str) -> (flag: Result<
    bool,
    NetError,
>)
    ensures
        match profile_for(profile_views(saved@), ssid@) {
            Some(i) => flag == Ok::<bool, NetError>(toggled(profile_views(saved@)[i].autoconnect)),
            None => flag matches Err(e) && e@ == NetErrorView::UnknownNetwork,
        },
{
    match find_profile(saved, ssid) {
        Some(i) => {
            proof {
                lemma_profile_from(profile_views(saved@), ssid@, 0);
            }
            assert(profile_views(saved@)[i as int] == saved@[i as int]@);
            match saved[i].autoconnect {
                Some(on) => Ok(!on),
                None => Ok(false),
            }
        },
        None => Err(NetError::UnknownNetwork),
    }
}

/// What a request to the host comes to: success, or a failure that carries
/// `context` to say what was asked.
pub fn request_outcome(succeeded: bool, context: &str) -> (outcome: Result<(), NetError>)
    ensures
        outcome is Ok <==> succeeded,
        outcome matches Err(e) ==> e@ == NetErrorView::OperationFailed(context@),
{
    if succeeded {
        Ok(())
    } else {
        Err(NetError::OperationFailed(context.to_owned()))
    }
}

/// Forgetting a network again right after its profiles were removed does not
/// fail: no profile is left to remove, and that counts as success.
pub proof fn forgetting_twice_succeeds(
    saved: Seq<SavedConnectionView>,
    ssid: Seq<char>,
    removed: Seq<bool>,
)
    requires
        removed.len() == paths_for(saved.filter(|c: SavedConnectionView| c.ssid != ssid), ssid).len(),
    ensures
        paths_for(saved.filter(|c: SavedConnectionView| c.ssid != ssid), ssid).len() == 0,
        forgotten(removed),
{
    let left = saved.filter(|c: SavedConnectionView| c.ssid != ssid);
    assert forall|k: int| 0 <= k < left.len() implies left[k].ssid != ssid by {
        saved.lemma_filter_pred(|c: SavedConnectionView| c.ssid != ssid, k);
    }
    lemma_paths_for_none(left, ssid);
}

} // verus!
