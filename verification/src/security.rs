//! Security classification of an access point from its capability bitmasks.

use vstd::prelude::*;

verus! {

/// Key management bit of the modern mask: pre-shared key (personal).
pub const KEY_MGMT_PSK: u32 = 0x100;

/// Key management bit of the modern mask: 802.1X (enterprise).
pub const KEY_MGMT_802_1X: u32 = 0x200;

/// Key management bit of the modern mask: SAE (WPA3 personal).
pub const KEY_MGMT_SAE: u32 = 0x1000;

/// The label shown for an access point with legacy mask `wpa` and modern mask `rsn`.
pub open spec fn security_label(wpa: u32, rsn: u32) -> Seq<char> {
    if wpa == 0 && rsn == 0 {
        "Open"@
    } else if rsn & KEY_MGMT_SAE != 0 {
        "WPA3"@
    } else if rsn & KEY_MGMT_PSK != 0 {
        "WPA2"@
    } else if rsn & KEY_MGMT_802_1X != 0 {
        "WPA2-Ent"@
    } else if rsn != 0 {
        "RSN"@
    } else {
        "WPA"@
    }
}

/// Whether a network with these masks counts as insecure: only an access point
/// that announces no protection at all does.
pub open spec fn is_weak_security(wpa: u32, rsn: u32) -> bool {
    wpa == 0 && rsn == 0
}

/// Maps the two capability bitmasks of an access point to its label and to
/// whether it is to be treated as insecure.
pub fn decode_security(wpa: u32, rsn: u32) -> (r: (String, bool))
    ensures
        r.0@ == security_label(wpa, rsn),
        r.1 == is_weak_security(wpa, rsn),
{
    if wpa == 0 && rsn == 0 {
        return ("Open".to_owned(), true);
    }
    let label = if rsn & KEY_MGMT_SAE != 0 {
        "WPA3"
    } else if rsn & KEY_MGMT_PSK != 0 {
        "WPA2"
    } else if rsn & KEY_MGMT_802_1X != 0 {
        "WPA2-Ent"
    } else if rsn != 0 {
        "RSN"
    } else {
        "WPA"
    };
    (label.to_owned(), false)
}

} // verus!
