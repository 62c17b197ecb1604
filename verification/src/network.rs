//! The data the protocol client reports: discovered networks and the radio state.

use vstd::prelude::*;
use crate::text::text_view;

verus! {

/// One wireless network as shown in the list. A scan result holds at most one
/// entry per SSID.
#[derive(Debug, PartialEq, Eq)]
pub struct WifiInfo {
    /// Network name; entries are told apart by it.
    pub ssid: String,
    /// Signal strength in percent.
    pub strength: u8,
    /// Human-readable security label.
    pub security: String,
    /// Whether the device is associated with this network and fully activated.
    pub active: bool,
    /// Whether the network offers no real protection.
    pub weak_security: bool,
    /// Whether a saved profile exists for this SSID.
    pub known: bool,
    /// Autoconnect priority of the saved profile, if any.
    pub priority: Option<i32>,
    /// Autoconnect flag of the saved profile; absent means the provider's default.
    pub autoconnect: Option<bool>,
    /// Autoconnect retry limit of the saved profile, if any.
    pub autoconnect_retries: Option<i32>,
    /// Channel frequency in MHz, if it could be read.
    pub frequency: Option<u32>,
}

/// Mathematical value of a [`WifiInfo`].
pub struct WifiInfoView {
    pub ssid: Seq<char>,
    pub strength: u8,
    pub security: Seq<char>,
    pub active: bool,
    pub weak_security: bool,
    pub known: bool,
    pub priority: Option<i32>,
    pub autoconnect: Option<bool>,
    pub autoconnect_retries: Option<i32>,
    pub frequency: Option<u32>,
}

impl View for WifiInfo {
    type V = WifiInfoView;

    open spec fn view(&self) -> WifiInfoView {
        WifiInfoView {
            ssid: self.ssid@,
            strength: self.strength,
            security: self.security@,
            active: self.active,
            weak_security: self.weak_security,
            known: self.known,
            priority: self.priority,
            autoconnect: self.autoconnect,
            autoconnect_retries: self.autoconnect_retries,
            frequency: self.frequency,
        }
    }
}

impl Clone for WifiInfo {
    fn clone(&self) -> (res: Self)
        ensures
            res == *self,
    {
        WifiInfo {
            ssid: self.ssid.clone(),
            strength: self.strength,
            security: self.security.clone(),
            active: self.active,
            weak_security: self.weak_security,
            known: self.known,
            priority: self.priority,
            autoconnect: self.autoconnect,
            autoconnect_retries: self.autoconnect_retries,
            frequency: self.frequency,
        }
    }
}

/// The values of a list of networks, entry by entry.
pub open spec fn views_of(networks: Seq<WifiInfo>) -> Seq<WifiInfoView> {
    networks.map_values(|n: WifiInfo| n@)
}

/// State of the wireless radio, refreshed on every scan cycle.
#[derive(Debug, Clone, Copy, PartialEq, Eq, Structural)]
pub struct WifiDeviceInfo {
    pub wifi_enabled: bool,
}

/// SSID of the first active entry of a list, if any entry is active.
pub open spec fn first_active(networks: Seq<WifiInfoView>) -> Option<Seq<char>>
    decreases networks.len(),
{
    if networks.len() == 0 {
        None
    } else if networks[0].active {
        Some(networks[0].ssid)
    } else {
        first_active(networks.drop_first())
    }
}

/// Index of the first entry at or after `from` that carries `ssid`.
pub open spec fn position_from(networks: Seq<WifiInfoView>, ssid: Seq<char>, from: int) -> Option<
    int,
>
    decreases networks.len() - from,
{
    if from < 0 || from >= networks.len() {
        None
    } else if networks[from].ssid == ssid {
        Some(from)
    } else {
        position_from(networks, ssid, from + 1)
    }
}

/// Index of the first entry that carries `ssid`.
pub open spec fn position(networks: Seq<WifiInfoView>, ssid: Seq<char>) -> Option<int> {
    position_from(networks, ssid, 0)
}

/// Where a position was found, it lies at or after `from`, within the list,
/// and at an entry that carries the SSID.
pub proof fn lemma_position_from(networks: Seq<WifiInfoView>, ssid: Seq<char>, from: int)
    requires
        0 <= from,
    ensures
        position_from(networks, ssid, from) matches Some(j) ==> from <= j < networks.len()
            && networks[j].ssid == ssid,
        position_from(networks, ssid, from) is None ==> forall|k: int|
            from <= k < networks.len() ==> networks[k].ssid != ssid,
    decreases networks.len() - from,
{
    if from < networks.len() && networks[from].ssid != ssid {
        lemma_position_from(networks, ssid, from + 1);
    }
}

/// Index of the first entry that carries `ssid`.
pub fn find_ssid(networks: &Vec<WifiInfo>, ssid: &String) -> (found: Option<usize>)
    ensures
        found matches Some(i) ==> position(views_of(networks@), ssid@) == Some(i as int),
        found is None ==> position(views_of(networks@), ssid@) is None,
{
    let mut i: usize = 0;
    while i < networks.len()
        invariant
            i <= networks.len(),
            position(views_of(networks@), ssid@) == position_from(
                views_of(networks@),
                ssid@,
                i as int,
            ),
        decreases networks.len() - i,
    {
        assert(views_of(networks@)[i as int] == networks@[i as int]@);
        if networks[i].ssid == *ssid {
            return Some(i);
        }
        i += 1;
    }
    None
}

/// SSID of the first active entry, if any entry is active.
pub fn active_ssid_of(networks: &Vec<WifiInfo>) -> (ssid: Option<String>)
    ensures
        text_view(ssid) == first_active(views_of(networks@)),
{
    let mut i: usize = 0;
    assert(views_of(networks@).skip(0) == views_of(networks@));
    while i < networks.len()
        invariant
            i <= networks.len(),
            first_active(views_of(networks@)) == first_active(views_of(networks@).skip(i as int)),
        decreases networks.len() - i,
    {
        let ghost rest = views_of(networks@).skip(i as int);
        assert(rest[0] == networks@[i as int]@);
        assert(rest.drop_first() == views_of(networks@).skip(i + 1));
        if networks[i].active {
            return Some(networks[i].ssid.clone());
        }
        i += 1;
    }
    None
}

} // verus!
