use yowu_selkirk::bt::device::{
    display_name, find_characteristic, identify, uuid_from_u16, BtInfo, HeadsetType, BASE_UUID,
    COMMAND_CHARACTERISTIC, TARGET_NAME, UNKNOWN_NAME,
};

#[test]
fn headset_name_is_shown_in_full() {
    assert_eq!(HeadsetType::YowuSelkirk4.name(), "Yowu Selkirk 4");
}

#[test]
fn target_name_is_recognised() {
    assert_eq!(identify("YOWU-SELKIRK-4"), Some(HeadsetType::YowuSelkirk4));
    assert_eq!(identify(TARGET_NAME), Some(HeadsetType::YowuSelkirk4));
}

#[test]
fn lower_case_name_is_not_recognised() {
    assert_eq!(identify("yowu-selkirk-4"), None);
}

#[test]
fn longer_name_is_not_recognised() {
    assert_eq!(identify("YOWU-SELKIRK-4X"), None);
}

#[test]
fn near_misses_are_not_recognised() {
    assert_eq!(identify(""), None);
    assert_eq!(identify("YOWU-SELKIRK-"), None);
    assert_eq!(identify(" YOWU-SELKIRK-4"), None);
    assert_eq!(identify("YOWU-SELKIRK-4 "), None);
    assert_eq!(identify("YOWU_SELKIRK_4"), None);
    assert_eq!(identify("Yowu Selkirk 4"), None);
    assert_eq!(identify(UNKNOWN_NAME), None);
}

#[test]
fn missing_name_is_shown_as_the_placeholder() {
    assert_eq!(display_name(None), "name unknown");
    assert_eq!(display_name(None), UNKNOWN_NAME);
}

#[test]
fn advertised_name_is_shown_as_it_is() {
    assert_eq!(display_name(Some(String::from("Keyboard"))), "Keyboard");
    assert_eq!(display_name(Some(String::new())), "");
}

#[test]
fn short_uuid_is_placed_in_the_base_uuid() {
    assert_eq!(uuid_from_u16(0x2A06), 0x00002A06_0000_1000_8000_00805F9B34FB);
    assert_eq!(uuid_from_u16(COMMAND_CHARACTERISTIC), 0x00002A06_0000_1000_8000_00805F9B34FB);
    assert_eq!(uuid_from_u16(0), BASE_UUID);
    assert_eq!(uuid_from_u16(0xFFFF), 0x0000FFFF_0000_1000_8000_00805F9B34FB);
    assert_eq!(uuid_from_u16(0x1122), 0x00001122_0000_1000_8000_00805F9B34FB);
}

#[test]
fn first_matching_characteristic_is_found() {
    let wanted = uuid_from_u16(0x2A06);
    let other = uuid_from_u16(0x2A00);
    assert_eq!(find_characteristic(&vec![other, wanted, other, wanted], wanted), Some(1));
    assert_eq!(find_characteristic(&vec![wanted], wanted), Some(0));
    assert_eq!(find_characteristic(&vec![other, other, wanted], wanted), Some(2));
}

#[test]
fn absent_characteristic_is_not_found() {
    let wanted = uuid_from_u16(0x2A06);
    assert_eq!(find_characteristic(&vec![], wanted), None);
    assert_eq!(find_characteristic(&vec![uuid_from_u16(0x2A00), 0x2A06], wanted), None);
}

#[test]
fn peripheral_record_holds_what_was_seen() {
    let info = BtInfo {
        name: display_name(None),
        is_connected: false,
        address: [1, 2, 3, 4, 5, 6],
    };
    assert_eq!(info.name, "name unknown");
    assert!(!info.is_connected);
    assert_eq!(info.address, [1, 2, 3, 4, 5, 6]);
}
