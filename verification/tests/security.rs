use weefee::security::decode_security;

#[test]
fn no_flags_is_open_and_weak() {
    assert_eq!(decode_security(0, 0), ("Open".to_string(), true));
}

#[test]
fn sae_bit_is_wpa3() {
    assert_eq!(decode_security(0, 0x1000), ("WPA3".to_string(), false));
    assert_eq!(decode_security(0, 0x1100), ("WPA3".to_string(), false));
    assert_eq!(decode_security(0, 0x1300), ("WPA3".to_string(), false));
}

#[test]
fn psk_bit_is_wpa2() {
    assert_eq!(decode_security(0, 0x100), ("WPA2".to_string(), false));
    assert_eq!(decode_security(0, 0x300), ("WPA2".to_string(), false));
    assert_eq!(decode_security(0, 0x108), ("WPA2".to_string(), false));
}

#[test]
fn enterprise_bit_is_wpa2_ent() {
    assert_eq!(decode_security(0, 0x200), ("WPA2-Ent".to_string(), false));
}

#[test]
fn other_modern_flags_are_rsn() {
    assert_eq!(decode_security(0, 0x8), ("RSN".to_string(), false));
    assert_eq!(decode_security(0, 0x1), ("RSN".to_string(), false));
}

#[test]
fn legacy_flags_alone_are_wpa() {
    assert_eq!(decode_security(0x100, 0), ("WPA".to_string(), false));
    assert_eq!(decode_security(0x4, 0), ("WPA".to_string(), false));
}

#[test]
fn modern_flags_decide_where_both_masks_are_set() {
    assert_eq!(decode_security(0x104, 0x100), ("WPA2".to_string(), false));
    assert_eq!(decode_security(0x104, 0x1000), ("WPA3".to_string(), false));
    assert_eq!(decode_security(0x104, 0x8), ("RSN".to_string(), false));
}

#[test]
fn only_open_networks_are_weak() {
    for wpa in [0u32, 1, 4, 0x100, 0x200, u32::MAX] {
        for rsn in [0u32, 1, 8, 0x100, 0x200, 0x1000, u32::MAX] {
            let (_, weak) = decode_security(wpa, rsn);
            assert_eq!(weak, wpa == 0 && rsn == 0);
        }
    }
}
