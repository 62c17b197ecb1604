//! From what a scan read off the bus to the list that is shown: one entry per
//! SSID, the active network first, then the strongest signals.

use vstd::prelude::*;
use crate::error::{NetError, NetErrorView};
use crate::network::{find_ssid, lemma_position_from, views_of, WifiInfo, WifiInfoView};
use crate::profiles::{
    find_profile, lemma_profile_from, profile_for, profile_views, SavedConnection,
    SavedConnectionView,
};
use crate::security::{decode_security, is_weak_security, security_label};
use crate::text::{
    decode_lossy, lemma_text_less_irreflexive, lemma_text_less_total, lemma_text_less_transitive,
    lossy_text, precedes, text_less, text_view,
};

verus! {

/// Whether entry `i` is the one that is kept for its SSID among the first `n`
/// entries of `raw`: the first active entry of that SSID or, where none of
/// them is active, the first entry.
pub open spec fn survives(raw: Seq<WifiInfoView>, n: int, i: int) -> bool {
    &&& 0 <= i < n <= raw.len()
    &&& forall|j: int|
        0 <= j < n && (#[trigger] raw[j]).ssid == raw[i].ssid ==> if raw[i].active {
            j < i ==> !raw[j].active
        } else {
            !raw[j].active && i <= j
        }
}

/// Whether `entry` is what the first `n` entries of `raw` keep for its SSID.
pub open spec fn kept_among(raw: Seq<WifiInfoView>, n: int, entry: WifiInfoView) -> bool {
    exists|i: int| survives(raw, n, i) && raw[i] == entry
}

/// Whether `entry` is what `raw` keeps for its SSID.
pub open spec fn kept(raw: Seq<WifiInfoView>, entry: WifiInfoView) -> bool {
    kept_among(raw, raw.len() as int, entry)
}

/// Whether some entry of `list` carries `ssid`.
pub open spec fn lists_ssid(list: Seq<WifiInfoView>, ssid: Seq<char>) -> bool {
    exists|k: int| 0 <= k < list.len() && (#[trigger] list[k]).ssid == ssid
}

/// The order of the list: active entries first, in the order of their SSIDs;
/// then the others from the strongest signal down, those of equal strength in
/// the order of their SSIDs.
pub open spec fn ranks_before(a: WifiInfoView, b: WifiInfoView) -> bool {
    if a.active != b.active {
        a.active
    } else if !a.active && a.strength != b.strength {
        a.strength > b.strength
    } else {
        text_less(a.ssid, b.ssid)
    }
}

/// Whether each entry of `list` ranks before all that follow it.
pub open spec fn ranked(list: Seq<WifiInfoView>) -> bool {
    forall|k: int, l: int| 0 <= k < l < list.len() ==> ranks_before(list[k], list[l])
}

/// Whether no two entries of `list` carry the same SSID.
pub open spec fn distinct_ssids(list: Seq<WifiInfoView>) -> bool {
    forall|k: int, l: int|
        0 <= k < list.len() && 0 <= l < list.len() && k != l ==> (#[trigger] list[k]).ssid != (
        #[trigger] list[l]).ssid
}

/// Whether `out` is the list to show for the scan result `raw`: it holds, for
/// each SSID of `raw` and for no other, the entry that `raw` keeps for it, in
/// the order of the list. Only one list is.
pub open spec fn arranged(raw: Seq<WifiInfoView>, out: Seq<WifiInfoView>) -> bool {
    &&& forall|k: int| 0 <= k < out.len() ==> kept(raw, #[trigger] out[k])
    &&& forall|i: int| 0 <= i < raw.len() ==> lists_ssid(out, (#[trigger] raw[i]).ssid)
    &&& ranked(out)
}

/// Whether every SSID that is active somewhere in `raw` is active in `out`.
pub open spec fn active_survives(raw: Seq<WifiInfoView>, out: Seq<WifiInfoView>) -> bool {
    forall|i: int|
        0 <= i < raw.len() && (#[trigger] raw[i]).active ==> exists|k: int|
            0 <= k < out.len() && (#[trigger] out[k]).ssid == raw[i].ssid && out[k].active
}

/// Whether the active entries of `list` come before all others, and the
/// others never gain in strength from one to the next.
pub open spec fn active_first_then_strongest(list: Seq<WifiInfoView>) -> bool {
    forall|k: int, l: int|
        0 <= k < l < list.len() ==> {
            &&& (#[trigger] list[l]).active ==> (#[trigger] list[k]).active
            &&& !list[k].active ==> list[k].strength >= list[l].strength
        }
}

/// Whether `entry` is one of the first `n` entries of `list`.
pub open spec fn among_first(list: Seq<WifiInfoView>, n: int, entry: WifiInfoView) -> bool {
    exists|j: int| 0 <= j < n && j < list.len() && #[trigger] list[j] == entry
}

/// The order of the list carries over: what ranks before an entry ranks before
/// all that the entry ranks before.
pub proof fn lemma_ranks_transitive(a: WifiInfoView, b: WifiInfoView, c: WifiInfoView)
    requires
        ranks_before(a, b),
        ranks_before(b, c),
    ensures
        ranks_before(a, c),
{
    if text_less(a.ssid, b.ssid) && text_less(b.ssid, c.ssid) {
        lemma_text_less_transitive(a.ssid, b.ssid, c.ssid);
    }
}

/// Of two entries with different SSIDs one ranks before the other.
pub proof fn lemma_ranks_total(a: WifiInfoView, b: WifiInfoView)
    requires
        a.ssid != b.ssid,
    ensures
        ranks_before(a, b) || ranks_before(b, a),
{
    lemma_text_less_total(a.ssid, b.ssid);
}

/// What is kept among the first `n` entries stays kept when entry `n` has
/// another SSID, or cannot take its place.
proof fn lemma_survivor_stays(raw: Seq<WifiInfoView>, n: int, s: int)
    requires
        survives(raw, n, s),
        n < raw.len(),
        raw[n].ssid != raw[s].ssid || raw[s].active || !raw[n].active,
    ensures
        survives(raw, n + 1, s),
{
}

/// Entry `n` is kept among the first `n + 1` where it is the first of its
/// SSID, or active after inactive ones only.
proof fn lemma_survivor_new(raw: Seq<WifiInfoView>, n: int)
    requires
        0 <= n < raw.len(),
        forall|j: int|
            0 <= j < n && (#[trigger] raw[j]).ssid == raw[n].ssid ==> raw[n].active
                && !raw[j].active,
    ensures
        survives(raw, n + 1, n),
{
}

/// Whether `a` ranks before `b`.
fn ranks_first(a: &WifiInfo, b: &WifiInfo) -> (r: bool)
    ensures
        r == ranks_before(a@, b@),
{
    if a.active != b.active {
        a.active
    } else if !a.active && a.strength != b.strength {
        a.strength > b.strength
    } else {
        precedes(a.ssid.as_str(), b.ssid.as_str())
    }
}

/// For each SSID of `raw`, the entry that `raw` keeps for it, in the order in
/// which the SSIDs first occur.
fn keep_survivors(raw: &Vec<WifiInfo>) -> (out: Vec<WifiInfo>)
    ensures
        forall|k: int| 0 <= k < out.len() ==> kept(views_of(raw@), #[trigger] views_of(out@)[k]),
        forall|i: int|
            0 <= i < raw.len() ==> lists_ssid(views_of(out@), (#[trigger] views_of(raw@)[i]).ssid),
        distinct_ssids(views_of(out@)),
{
    let mut out: Vec<WifiInfo> = Vec::new();
    let ghost r = views_of(raw@);
    let mut i: usize = 0;
    while i < raw.len()
        invariant
            i <= raw.len(),
            r == views_of(raw@),
            forall|k: int|
                0 <= k < out.len() ==> kept_among(r, i as int, #[trigger] views_of(out@)[k]),
            forall|j: int| 0 <= j < i ==> lists_ssid(views_of(out@), (#[trigger] r[j]).ssid),
            distinct_ssids(views_of(out@)),
        decreases raw.len() - i,
    {
        let ghost before = views_of(out@);
        let entry = raw[i].clone();
        assert(entry@ == r[i as int]);
        let place = find_ssid(&out, &entry.ssid);
        proof {
            lemma_position_from(before, entry.ssid@, 0);
        }
        match place {
            Some(k) => {
                let ghost s = choose|s: int| survives(r, i as int, s) && r[s] == before[k as int];
                assert(kept_among(r, i as int, before[k as int]));
                if !out[k].active && entry.active {
                    out.set(k, entry);
                    proof {
                        let after = views_of(out@);
                        assert(after =~= before.update(k as int, r[i as int]));
                        assert forall|j: int|
                            0 <= j < i && (#[trigger] r[j]).ssid == r[i as int].ssid implies r[i as int].active
                            && !r[j].active by {
                            assert(r[j].ssid == r[s].ssid);
                        }
                        lemma_survivor_new(r, i as int);
                        assert forall|m: int| 0 <= m < after.len() implies kept_among(
                            r,
                            i + 1,
                            #[trigger] after[m],
                        ) by {
                            if m == k {
                                assert(survives(r, i + 1, i as int) && r[i as int] == after[m]);
                            } else {
                                assert(kept_among(r, i as int, before[m]));
                                let t = choose|t: int| survives(r, i as int, t) && r[t] == before[m];
                                assert(before[m].ssid != before[k as int].ssid);
                                lemma_survivor_stays(r, i as int, t);
                                assert(survives(r, i + 1, t) && r[t] == after[m]);
                            }
                        }
                        assert forall|j: int| 0 <= j < i + 1 implies lists_ssid(
                            after,
                            (#[trigger] r[j]).ssid,
                        ) by {
                            if j == i {
                                assert(after[k as int].ssid == r[j].ssid);
                            } else {
                                assert(lists_ssid(before, r[j].ssid));
                                let m = choose|m: int|
                                    0 <= m < before.len() && (#[trigger] before[m]).ssid == r[j].ssid;
                                assert(after[m].ssid == r[j].ssid);
                            }
                        }
                    }
                } else {
                    proof {
                        assert forall|m: int| 0 <= m < before.len() implies kept_among(
                            r,
                            i + 1,
                            #[trigger] before[m],
                        ) by {
                            assert(kept_among(r, i as int, before[m]));
                            let t = choose|t: int| survives(r, i as int, t) && r[t] == before[m];
                            if m != k {
                                assert(before[m].ssid != before[k as int].ssid);
                            }
                            lemma_survivor_stays(r, i as int, t);
                            assert(survives(r, i + 1, t) && r[t] == before[m]);
                        }
                        assert forall|j: int| 0 <= j < i + 1 implies lists_ssid(
                            before,
                            (#[trigger] r[j]).ssid,
                        ) by {
                            if j == i {
                                assert(before[k as int].ssid == r[j].ssid);
                            }
                        }
                    }
                }
            },
            None => {
                out.push(entry);
                proof {
                    let after = views_of(out@);
                    assert(after =~= before.push(r[i as int]));
                    assert forall|j: int|
                        0 <= j < i && (#[trigger] r[j]).ssid == r[i as int].ssid implies r[i as int].active
                        && !r[j].active by {
                        assert(lists_ssid(before, r[j].ssid));
                    }
                    lemma_survivor_new(r, i as int);
                    assert forall|m: int| 0 <= m < after.len() implies kept_among(
                        r,
                        i + 1,
                        #[trigger] after[m],
                    ) by {
                        if m == before.len() {
                            assert(survives(r, i + 1, i as int) && r[i as int] == after[m]);
                        } else {
                            assert(kept_among(r, i as int, before[m]));
                            let t = choose|t: int| survives(r, i as int, t) && r[t] == before[m];
                            lemma_survivor_stays(r, i as int, t);
                            assert(survives(r, i + 1, t) && r[t] == after[m]);
                        }
                    }
                    assert forall|j: int| 0 <= j < i + 1 implies lists_ssid(
                        after,
                        (#[trigger] r[j]).ssid,
                    ) by {
                        if j == i {
                            assert(after[before.len() as int].ssid == r[j].ssid);
                        } else {
                            assert(lists_ssid(before, r[j].ssid));
                            let m = choose|m: int|
                                0 <= m < before.len() && (#[trigger] before[m]).ssid == r[j].ssid;
                            assert(after[m].ssid == r[j].ssid);
                        }
                    }
                }
            },
        }
        i += 1;
    }
    out
}

/// The entries of `list` in the order of the list.
fn sort_by_rank(list: &Vec<WifiInfo>) -> (out: Vec<WifiInfo>)
    requires
        distinct_ssids(views_of(list@)),
    ensures
        ranked(views_of(out@)),
        forall|k: int|
            0 <= k < out.len() ==> views_of(list@).contains(#[trigger] views_of(out@)[k]),
        forall|j: int|
            0 <= j < list.len() ==> views_of(out@).contains(#[trigger] views_of(list@)[j]),
{
    let mut out: Vec<WifiInfo> = Vec::new();
    let ghost l = views_of(list@);
    let mut i: usize = 0;
    while i < list.len()
        invariant
            i <= list.len(),
            l == views_of(list@),
            distinct_ssids(l),
            ranked(views_of(out@)),
            forall|k: int|
                0 <= k < out.len() ==> among_first(l, i as int, #[trigger] views_of(out@)[k]),
            forall|j: int| 0 <= j < i ==> views_of(out@).contains(#[trigger] l[j]),
        decreases list.len() - i,
    {
        let ghost before = views_of(out@);
        let entry = list[i].clone();
        assert(entry@ == l[i as int]);
        let mut p: usize = 0;
        while p < out.len() && !ranks_first(&entry, &out[p])
            invariant
                p <= out.len(),
                before == views_of(out@),
                forall|k: int| 0 <= k < p ==> !ranks_before(entry@, #[trigger] before[k]),
            decreases out.len() - p,
        {
            assert(before[p as int] == out@[p as int]@);
            p += 1;
        }
        assert(p < out.len() ==> before[p as int] == out@[p as int]@);
        out.insert(p, entry);
        proof {
            let after = views_of(out@);
            assert(after =~= before.insert(p as int, l[i as int]));
            assert forall|k: int| 0 <= k < before.len() implies (#[trigger] before[k]).ssid
                != l[i as int].ssid by {
                assert(among_first(l, i as int, before[k]));
                let j = choose|j: int| 0 <= j < i && j < l.len() && #[trigger] l[j] == before[k];
                assert(l[j].ssid != l[i as int].ssid);
            }
            assert forall|a: int, b: int| 0 <= a < b < after.len() implies ranks_before(
                after[a],
                after[b],
            ) by {
                if b == p {
                    assert(after[a] == before[a]);
                    lemma_ranks_total(before[a], l[i as int]);
                } else if a == p {
                    assert(after[b] == before[b - 1]);
                    if b - 1 > p {
                        lemma_ranks_transitive(l[i as int], before[p as int], before[b - 1]);
                    }
                } else {
                    let a0 = if a < p { a } else { a - 1 };
                    let b0 = if b < p { b } else { b - 1 };
                    assert(after[a] == before[a0] && after[b] == before[b0]);
                }
            }
            assert forall|k: int| 0 <= k < after.len() implies among_first(
                l,
                i + 1,
                #[trigger] after[k],
            ) by {
                if k == p {
                    assert(l[i as int] == after[k]);
                } else {
                    let k0 = if k < p { k } else { k - 1 };
                    assert(among_first(l, i as int, before[k0]));
                    let j = choose|j: int| 0 <= j < i && j < l.len() && #[trigger] l[j] == before[k0];
                    assert(l[j] == after[k]);
                }
            }
            assert forall|j: int| 0 <= j < i + 1 implies after.contains(#[trigger] l[j]) by {
                if j == i {
                    assert(after[p as int] == l[j]);
                } else {
                    assert(before.contains(l[j]));
                    let k = choose|k: int| 0 <= k < before.len() && before[k] == l[j];
                    let k1 = if k < p { k } else { k + 1 };
                    assert(after[k1] == l[j]);
                }
            }
        }
        i += 1;
    }
    proof {
        let o = views_of(out@);
        assert forall|k: int| 0 <= k < o.len() implies l.contains(#[trigger] o[k]) by {
            assert(among_first(l, i as int, o[k]));
            let j = choose|j: int| 0 <= j < i && j < l.len() && #[trigger] l[j] == o[k];
            assert(l[j] == o[k]);
        }
    }
    out
}

/// The device type that the host gives to wireless devices.
pub const DEVICE_TYPE_WIFI: u32 = 2;

/// The device state in which a connection is fully activated.
pub const DEVICE_STATE_ACTIVATED: u32 = 100;

/// What was read of one access point. A property that could not be read is
/// absent.
#[derive(Debug)]
pub struct AccessPoint {
    /// Where the host keeps the access point.
    pub path: String,
    /// The bytes of the SSID.
    pub ssid: Option<Vec<u8>>,
    /// Signal strength in percent.
    pub strength: Option<u8>,
    /// Channel frequency in MHz.
    pub frequency: Option<u32>,
    /// The legacy capability mask.
    pub wpa_flags: Option<u32>,
    /// The modern capability mask.
    pub rsn_flags: Option<u32>,
}

/// Mathematical value of an [`AccessPoint`].
pub struct AccessPointView {
    pub path: Seq<char>,
    pub ssid: Option<Seq<u8>>,
    pub strength: Option<u8>,
    pub frequency: Option<u32>,
    pub wpa_flags: Option<u32>,
    pub rsn_flags: Option<u32>,
}

impl View for AccessPoint {
    type V = AccessPointView;

    open spec fn view(&self) -> AccessPointView {
        AccessPointView {
            path: self.path@,
            ssid: match self.ssid {
                Some(bytes) => Some(bytes@),
                None => None,
            },
            strength: self.strength,
            frequency: self.frequency,
            wpa_flags: self.wpa_flags,
            rsn_flags: self.rsn_flags,
        }
    }
}

/// The values of a list of access points, entry by entry.
pub open spec fn access_point_views(seen: Seq<AccessPoint>) -> Seq<AccessPointView> {
    seen.map_values(|a: AccessPoint| a@)
}

/// What was read of the wireless device for a scan.
#[derive(Debug)]
pub struct ScanReading {
    /// The state of the device.
    pub device_state: Option<u32>,
    /// The path of the access point that the device calls its active one.
    pub active_access_point: Option<String>,
    /// The access points that the device sees.
    pub access_points: Vec<AccessPoint>,
}

/// The name of an access point: its SSID bytes read as text, and nothing where
/// they could not be read.
pub open spec fn name_of(point: AccessPointView) -> Seq<char> {
    match point.ssid {
        Some(bytes) => lossy_text(bytes),
        None => Seq::empty(),
    }
}

/// The access point that counts as the active one: the one that the device
/// reports, but only while the device is fully activated. In any other state
/// none does, whatever the device is associated with.
pub open spec fn authoritative(device_state: Option<u32>, active: Option<Seq<char>>) -> Option<
    Seq<char>,
> {
    if device_state == Some(DEVICE_STATE_ACTIVATED) {
        active
    } else {
        None
    }
}

/// The list entry for an access point with a name: what was read of it, with
/// defaults for what could not be read, and what the first saved profile for
/// its name adds.
pub open spec fn entry_for(
    point: AccessPointView,
    active: Option<Seq<char>>,
    saved: Seq<SavedConnectionView>,
) -> WifiInfoView {
    let wpa = point.wpa_flags.unwrap_or(0);
    let rsn = point.rsn_flags.unwrap_or(0);
    let profile = profile_for(saved, name_of(point));
    WifiInfoView {
        ssid: name_of(point),
        strength: point.strength.unwrap_or(0),
        security: security_label(wpa, rsn),
        active: active == Some(point.path),
        weak_security: is_weak_security(wpa, rsn),
        known: profile is Some,
        priority: match profile {
            Some(i) => saved[i].priority,
            None => None,
        },
        autoconnect: match profile {
            Some(i) => saved[i].autoconnect,
            None => None,
        },
        autoconnect_retries: match profile {
            Some(i) => saved[i].autoconnect_retries,
            None => None,
        },
        frequency: point.frequency,
    }
}

/// The entries for the access points that have a name, in the order in which
/// they were seen.
pub open spec fn collected(
    seen: Seq<AccessPointView>,
    active: Option<Seq<char>>,
    saved: Seq<SavedConnectionView>,
) -> Seq<WifiInfoView>
    decreases seen.len(),
{
    if seen.len() == 0 {
        Seq::empty()
    } else if name_of(seen.last()).len() == 0 {
        collected(seen.drop_last(), active, saved)
    } else {
        collected(seen.drop_last(), active, saved).push(entry_for(seen.last(), active, saved))
    }
}

/// Index of the first device at or after `from` whose type was read as wireless.
pub open spec fn wireless_from(types: Seq<Option<u32>>, from: int) -> Option<int>
    decreases types.len() - from,
{
    if from < 0 || from >= types.len() {
        None
    } else if types[from] == Some(DEVICE_TYPE_WIFI) {
        Some(from)
    } else {
        wireless_from(types, from + 1)
    }
}

/// The one entry that a list keeps for an SSID is kept only once.
proof fn lemma_survivor_unique(raw: Seq<WifiInfoView>, n: int, s: int, t: int)
    requires
        survives(raw, n, s),
        survives(raw, n, t),
        raw[s].ssid == raw[t].ssid,
    ensures
        s == t,
{
    assert(raw[s].ssid == raw[t].ssid);
    assert(raw[t].ssid == raw[s].ssid);
}

/// No entry ranks before itself.
pub proof fn lemma_ranks_irreflexive(a: WifiInfoView)
    ensures
        !ranks_before(a, a),
{
    lemma_text_less_irreflexive(a.ssid);
}

/// The list that is shown holds no SSID twice.
pub proof fn arranged_has_one_entry_per_ssid(raw: Seq<WifiInfoView>, out: Seq<WifiInfoView>)
    requires
        arranged(raw, out),
    ensures
        distinct_ssids(out),
{
    assert forall|k: int, l: int|
        0 <= k < out.len() && 0 <= l < out.len() && k != l implies (#[trigger] out[k]).ssid != (
    #[trigger] out[l]).ssid by {
        if out[k].ssid == out[l].ssid {
            assert(kept(raw, out[k]));
            assert(kept(raw, out[l]));
            let s = choose|s: int| survives(raw, raw.len() as int, s) && raw[s] == out[k];
            let t = choose|t: int| survives(raw, raw.len() as int, t) && raw[t] == out[l];
            lemma_survivor_unique(raw, raw.len() as int, s, t);
            lemma_ranks_irreflexive(out[k]);
            if k < l {
                assert(ranks_before(out[k], out[l]));
            } else {
                assert(ranks_before(out[l], out[k]));
            }
        }
    }
}

/// Where an SSID is active anywhere in the scan result, the entry that is
/// shown for it is the active one.
pub proof fn arranged_keeps_active(raw: Seq<WifiInfoView>, out: Seq<WifiInfoView>)
    requires
        arranged(raw, out),
    ensures
        active_survives(raw, out),
{
    assert forall|i: int| 0 <= i < raw.len() && (#[trigger] raw[i]).active implies exists|k: int|
        0 <= k < out.len() && (#[trigger] out[k]).ssid == raw[i].ssid && out[k].active by {
        assert(lists_ssid(out, raw[i].ssid));
        let k = choose|k: int| 0 <= k < out.len() && (#[trigger] out[k]).ssid == raw[i].ssid;
        assert(kept(raw, out[k]));
        let s = choose|s: int| survives(raw, raw.len() as int, s) && raw[s] == out[k];
        assert(raw[i].ssid == raw[s].ssid);
        assert(out[k].active);
    }
}

/// In the list that is shown all active entries come first, and after them
/// the signal strength never rises.
pub proof fn arranged_is_ordered(raw: Seq<WifiInfoView>, out: Seq<WifiInfoView>)
    requires
        arranged(raw, out),
    ensures
        active_first_then_strongest(out),
{
    assert forall|k: int, l: int| 0 <= k < l < out.len() implies {
        &&& (#[trigger] out[l]).active ==> (#[trigger] out[k]).active
        &&& !out[k].active ==> out[k].strength >= out[l].strength
    } by {
        assert(ranks_before(out[k], out[l]));
    }
}

/// Arranging a list that is already arranged gives the same list.
pub proof fn arranging_again_changes_nothing(raw: Seq<WifiInfoView>, out: Seq<WifiInfoView>)
    requires
        arranged(raw, out),
    ensures
        arranged(out, out),
{
    arranged_has_one_entry_per_ssid(raw, out);
    assert forall|k: int| 0 <= k < out.len() implies kept(out, #[trigger] out[k]) by {
        assert forall|j: int|
            0 <= j < out.len() && (#[trigger] out[j]).ssid == out[k].ssid implies j == k by {}
        assert(survives(out, out.len() as int, k));
    }
    assert forall|i: int| 0 <= i < out.len() implies lists_ssid(out, (#[trigger] out[i]).ssid) by {
        assert(out[i].ssid == out[i].ssid);
    }
}

/// Two ranked lists with the same entries are the same list.
proof fn lemma_ranked_lists_agree(a: Seq<WifiInfoView>, b: Seq<WifiInfoView>)
    requires
        ranked(a),
        ranked(b),
        forall|k: int| 0 <= k < a.len() ==> b.contains(#[trigger] a[k]),
        forall|k: int| 0 <= k < b.len() ==> a.contains(#[trigger] b[k]),
    ensures
        a == b,
    decreases a.len(),
{
    if a.len() == 0 {
        if b.len() > 0 {
            assert(a.contains(b[0]));
        }
        assert(a =~= b);
    } else if b.len() == 0 {
        assert(b.contains(a[0]));
    } else {
        assert(b.contains(a[0]));
        let m = choose|m: int| 0 <= m < b.len() && b[m] == a[0];
        assert(a.contains(b[0]));
        let n = choose|n: int| 0 <= n < a.len() && a[n] == b[0];
        lemma_ranks_irreflexive(a[0]);
        if m > 0 {
            assert(ranks_before(b[0], b[m]));
            if n > 0 {
                assert(ranks_before(a[0], a[n]));
                lemma_ranks_transitive(a[0], b[0], a[0]);
            }
        }
        assert(a[0] == b[0]);
        let x = a.drop_first();
        let y = b.drop_first();
        assert forall|k: int| 0 <= k < x.len() implies y.contains(#[trigger] x[k]) by {
            assert(b.contains(a[k + 1]));
            let j = choose|j: int| 0 <= j < b.len() && b[j] == a[k + 1];
            assert(ranks_before(a[0], a[k + 1]));
            assert(j != 0);
            assert(y[j - 1] == x[k]);
        }
        assert forall|k: int| 0 <= k < y.len() implies x.contains(#[trigger] y[k]) by {
            assert(a.contains(b[k + 1]));
            let j = choose|j: int| 0 <= j < a.len() && a[j] == b[k + 1];
            assert(ranks_before(b[0], b[k + 1]));
            assert(j != 0);
            assert(x[j - 1] == y[k]);
        }
        assert(ranked(x)) by {
            assert forall|k: int, l: int| 0 <= k < l < x.len() implies ranks_before(x[k], x[l]) by {
                assert(ranks_before(a[k + 1], a[l + 1]));
            }
        }
        assert(ranked(y)) by {
            assert forall|k: int, l: int| 0 <= k < l < y.len() implies ranks_before(y[k], y[l]) by {
                assert(ranks_before(b[k + 1], b[l + 1]));
            }
        }
        lemma_ranked_lists_agree(x, y);
        assert(a =~= seq![a[0]] + x);
        assert(b =~= seq![b[0]] + y);
    }
}

/// What a list keeps for an SSID is found in every arrangement of the list.
proof fn lemma_arranged_holds_kept(raw: Seq<WifiInfoView>, out: Seq<WifiInfoView>, entry: WifiInfoView)
    requires
        arranged(raw, out),
        kept(raw, entry),
    ensures
        out.contains(entry),
{
    let s = choose|s: int| survives(raw, raw.len() as int, s) && raw[s] == entry;
    assert(lists_ssid(out, raw[s].ssid));
    let k = choose|k: int| 0 <= k < out.len() && (#[trigger] out[k]).ssid == raw[s].ssid;
    assert(kept(raw, out[k]));
    let t = choose|t: int| survives(raw, raw.len() as int, t) && raw[t] == out[k];
    lemma_survivor_unique(raw, raw.len() as int, s, t);
    assert(out[k] == entry);
}

/// A scan result has one arrangement only.
pub proof fn arranged_is_unique(raw: Seq<WifiInfoView>, a: Seq<WifiInfoView>, b: Seq<WifiInfoView>)
    requires
        arranged(raw, a),
        arranged(raw, b),
    ensures
        a == b,
{
    assert forall|k: int| 0 <= k < a.len() implies b.contains(#[trigger] a[k]) by {
        lemma_arranged_holds_kept(raw, b, a[k]);
    }
    assert forall|k: int| 0 <= k < b.len() implies a.contains(#[trigger] b[k]) by {
        lemma_arranged_holds_kept(raw, a, b[k]);
    }
    lemma_ranked_lists_agree(a, b);
}

/// The list to show for the entries `raw` of a scan: for each SSID the entry
/// that is kept for it, the active ones first, then the strongest.
pub fn arrange(raw: Vec<WifiInfo>) -> (out: Vec<WifiInfo>)
    ensures
        arranged(views_of(raw@), views_of(out@)),
        distinct_ssids(views_of(out@)),
        active_survives(views_of(raw@), views_of(out@)),
        active_first_then_strongest(views_of(out@)),
{
    let unique = keep_survivors(&raw);
    let out = sort_by_rank(&unique);
    proof {
        let r = views_of(raw@);
        let u = views_of(unique@);
        let o = views_of(out@);
        assert forall|k: int| 0 <= k < o.len() implies kept(r, #[trigger] o[k]) by {
            assert(u.contains(o[k]));
            let j = choose|j: int| 0 <= j < u.len() && u[j] == o[k];
            assert(kept(r, u[j]));
        }
        assert forall|i: int| 0 <= i < r.len() implies lists_ssid(o, (#[trigger] r[i]).ssid) by {
            assert(lists_ssid(u, r[i].ssid));
            let m = choose|m: int| 0 <= m < u.len() && (#[trigger] u[m]).ssid == r[i].ssid;
            assert(o.contains(u[m]));
            let k = choose|k: int| 0 <= k < o.len() && o[k] == u[m];
            assert(o[k].ssid == r[i].ssid);
        }
        arranged_has_one_entry_per_ssid(r, o);
        arranged_keeps_active(r, o);
        arranged_is_ordered(r, o);
    }
    out
}

/// The list entry for an access point with the name `ssid`.
fn entry_of(
    point: &AccessPoint,
    ssid: String,
    active: &Option<String>,
    saved: &Vec<SavedConnection>,
) -> (entry: WifiInfo)
    requires
        ssid@ == name_of(point@),
    ensures
        entry@ == entry_for(point@, text_view(*active), profile_views(saved@)),
{
    let wpa: u32 = match point.wpa_flags {
        Some(flags) => flags,
        None => 0,
    };
    let rsn: u32 = match point.rsn_flags {
        Some(flags) => flags,
        None => 0,
    };
    let (security, weak_security) = decode_security(wpa, rsn);
    let is_active = match active {
        Some(path) => *path == point.path,
        None => false,
    };
    let profile = find_profile(saved, ssid.as_str());
    proof {
        lemma_profile_from(profile_views(saved@), ssid@, 0);
    }
    let (known, priority, autoconnect, autoconnect_retries) = match profile {
        Some(i) => {
            assert(profile_views(saved@)[i as int] == saved@[i as int]@);
            (true, saved[i].priority, saved[i].autoconnect, saved[i].autoconnect_retries)
        },
        None => (false, None, None, None),
    };
    WifiInfo {
        ssid,
        strength: match point.strength {
            Some(percent) => percent,
            None => 0,
        },
        security,
        active: is_active,
        weak_security,
        known,
        priority,
        autoconnect,
        autoconnect_retries,
        frequency: point.frequency,
    }
}

/// The name of an access point.
fn name(point: &AccessPoint) -> (ssid: String)
    ensures
        ssid@ == name_of(point@),
{
    match &point.ssid {
        Some(bytes) => decode_lossy(bytes),
        None => String::new(),
    }
}

/// The networks to show for what a scan read of the wireless device, joined
/// with the saved profiles. Access points without a name are left out; of
/// several with one name the active one is kept, else the first.
pub fn networks_from_scan(reading: &ScanReading, saved: &Vec<SavedConnection>) -> (out: Vec<
    WifiInfo,
>)
    ensures
        arranged(
            collected(
                access_point_views(reading.access_points@),
                authoritative(reading.device_state, text_view(reading.active_access_point)),
                profile_views(saved@),
            ),
            views_of(out@),
        ),
        distinct_ssids(views_of(out@)),
        active_survives(
            collected(
                access_point_views(reading.access_points@),
                authoritative(reading.device_state, text_view(reading.active_access_point)),
                profile_views(saved@),
            ),
            views_of(out@),
        ),
        active_first_then_strongest(views_of(out@)),
{
    let activated = match reading.device_state {
        Some(state) => state == DEVICE_STATE_ACTIVATED,
        None => false,
    };
    let active: Option<String> = if activated {
        match &reading.active_access_point {
            Some(path) => Some(path.clone()),
            None => None,
        }
    } else {
        None
    };
    let ghost seen = access_point_views(reading.access_points@);
    let ghost profiles = profile_views(saved@);
    let mut raw: Vec<WifiInfo> = Vec::new();
    let mut i: usize = 0;
    assert(seen.take(0) == Seq::<AccessPointView>::empty());
    assert(views_of(raw@) == Seq::<WifiInfoView>::empty());
    while i < reading.access_points.len()
        invariant
            i <= reading.access_points.len(),
            seen == access_point_views(reading.access_points@),
            profiles == profile_views(saved@),
            text_view(active) == authoritative(
                reading.device_state,
                text_view(reading.active_access_point),
            ),
            views_of(raw@) == collected(seen.take(i as int), text_view(active), profiles),
        decreases reading.access_points.len() - i,
    {
        let ghost before = views_of(raw@);
        let point = &reading.access_points[i];
        assert(seen.take(i + 1).drop_last() == seen.take(i as int));
        assert(seen.take(i + 1).last() == point@);
        let ssid = name(point);
        if ssid.as_str().unicode_len() > 0 {
            let entry = entry_of(point, ssid, &active, saved);
            raw.push(entry);
            assert(views_of(raw@) == before.push(entry@));
        }
        i += 1;
    }
    assert(seen.take(reading.access_points.len() as int) == seen);
    arrange(raw)
}

/// Index of the first device whose type was read as wireless.
pub fn first_wireless_device(types: &Vec<Option<u32>>) -> (found: Option<usize>)
    ensures
        found matches Some(i) ==> wireless_from(types@, 0) == Some(i as int),
        found is None ==> wireless_from(types@, 0) is None,
{
    let mut i: usize = 0;
    while i < types.len()
        invariant
            i <= types.len(),
            wireless_from(types@, 0) == wireless_from(types@, i as int),
        decreases types.len() - i,
    {
        let wireless = match types[i] {
            Some(t) => t == DEVICE_TYPE_WIFI,
            None => false,
        };
        if wireless {
            return Some(i);
        }
        i += 1;
    }
    None
}

/// The device to scan, given the device types where the devices could be
/// listed. Fails only where they could not; a host without a wireless device
/// has none to scan.
pub fn device_for_scan(types: Option<&Vec<Option<u32>>>) -> (device: Result<Option<usize>, NetError>)
    ensures
        match types {
            Some(t) => device matches Ok(found) && match found {
                Some(i) => wireless_from(t@, 0) == Some(i as int),
                None => wireless_from(t@, 0) is None,
            },
            None => device matches Err(e) && e@ == NetErrorView::ServiceUnavailable,
        },
{
    match types {
        Some(t) => Ok(first_wireless_device(t)),
        None => Err(NetError::ServiceUnavailable),
    }
}

/// The device to connect or disconnect, given the device types where the
/// devices could be listed. Fails where they could not, and where none of
/// them is wireless.
pub fn device_for_action(types: Option<&Vec<Option<u32>>>) -> (device: Result<usize, NetError>)
    ensures
        match types {
            Some(t) => match wireless_from(t@, 0) {
                Some(i) => device == Ok::<usize, NetError>(i as usize),
                None => device matches Err(e) && e@ == NetErrorView::NoWirelessDevice,
            },
            None => device matches Err(e) && e@ == NetErrorView::ServiceUnavailable,
        },
{
    match types {
        Some(t) => match first_wireless_device(t) {
            Some(i) => Ok(i),
            None => Err(NetError::NoWirelessDevice),
        },
        None => Err(NetError::ServiceUnavailable),
    }
}

/// The radio state, where it could be read.
pub fn device_status(wireless_enabled: Option<bool>) -> (status: Result<
    crate::network::WifiDeviceInfo,
    NetError,
>)
    ensures
        match wireless_enabled {
            Some(on) => status == Ok::<crate::network::WifiDeviceInfo, NetError>(
                crate::network::WifiDeviceInfo { wifi_enabled: on },
            ),
            None => status matches Err(e) && e@ == NetErrorView::ServiceUnavailable,
        },
{
    match wireless_enabled {
        Some(on) => Ok(crate::network::WifiDeviceInfo { wifi_enabled: on }),
        None => Err(NetError::ServiceUnavailable),
    }
}

} // verus!
