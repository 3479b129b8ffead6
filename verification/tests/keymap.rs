use entanglo::keymap::{linux_to_mac, mac_to_linux, mac_to_linux_table, button_to_linux, linux_to_button};

#[test]
fn table_has_no_duplicate_mac_codes() {
    let mut codes: Vec<u16> = mac_to_linux_table().iter().map(|(mac, _)| *mac).collect();
    let before = codes.len();
    codes.sort_unstable();
    codes.dedup();
    assert_eq!(before, codes.len(), "duplicate macOS key code in table");
}

#[test]
fn table_has_no_duplicate_linux_codes() {
    let mut codes: Vec<u16> = mac_to_linux_table().iter().map(|(_, linux)| *linux).collect();
    let before = codes.len();
    codes.sort_unstable();
    codes.dedup();
    assert_eq!(before, codes.len(), "duplicate Linux KEY_* code in table");
}

#[test]
fn roundtrips_return_key() {
    assert_eq!(mac_to_linux(36), Some(28));
    assert_eq!(linux_to_mac(28), Some(36));
}

#[test]
fn every_table_pair_round_trips_both_ways() {
    let table = mac_to_linux_table();
    assert_eq!(table.len(), 83);
    for (mac, linux) in table {
        assert_eq!(mac_to_linux(mac), Some(linux));
        assert_eq!(linux_to_mac(linux), Some(mac));
    }
}

#[test]
fn unmapped_codes_have_no_translation() {
    assert_eq!(mac_to_linux(10), None);
    assert_eq!(mac_to_linux(200), None);
    assert_eq!(linux_to_mac(0), None);
    assert_eq!(linux_to_mac(0x110), None);
}

#[test]
fn letter_a_and_fn_key_translate() {
    assert_eq!(mac_to_linux(0), Some(30));
    assert_eq!(linux_to_mac(30), Some(0));
    assert_eq!(mac_to_linux(63), Some(464));
    assert_eq!(mac_to_linux(53), Some(1));
}

#[test]
fn mouse_buttons_map_both_ways() {
    assert_eq!(button_to_linux(0), Some(0x110));
    assert_eq!(button_to_linux(1), Some(0x111));
    assert_eq!(button_to_linux(2), Some(0x112));
    assert_eq!(button_to_linux(3), None);
    assert_eq!(linux_to_button(0x111), Some(1));
    assert_eq!(linux_to_button(30), None);
}

#[test]
fn top_row_digits_map_to_their_keys() {
    // Mac 5, 6, 7 are 23, 22, 26; Linux KEY_5, KEY_6, KEY_7 are 6, 7, 8.
    assert_eq!(mac_to_linux(23), Some(6));
    assert_eq!(mac_to_linux(22), Some(7));
    assert_eq!(mac_to_linux(26), Some(8));
    assert_eq!(linux_to_mac(6), Some(23));
    assert_eq!(linux_to_mac(7), Some(22));
    assert_eq!(linux_to_mac(8), Some(26));
    assert_eq!(mac_to_linux(10), None);
}
