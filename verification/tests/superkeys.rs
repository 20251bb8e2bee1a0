use dygma_api::defy;
use dygma_api::focus::superkeys as focus_superkeys;
use dygma_api::keycode::{decode, KeyKind};
use dygma_api::superkeys;
use dygma_api::wire::join_u16s;

const SUPERKEY_DATA: &str = "44 57 1 1 1 0 44 57 1 1 1 0 89 58 1 1 1 0 90 59 1 1 1 0 91 60 1 1 1 0 92 61 1 1 1 0 93 62 1 1 1 0 94 63 1 1 1 0 95 64 1 1 1 0 96 65 1 1 1 0 97 66 1 1 1 0 98 67 1 1 1 0 0 65535 65535 65535 65535 65535 65535 65535 65535 65535 65535 65535 65535 65535 65535 65535 65535 65535 65535 65535 65535 65535 65535 65535 65535 65535 65535 65535 65535 65535 65535 65535 65535 65535 65535 65535 65535 65535 65535 65535 65535 65535 65535 65535 65535 65535 65535 65535 65535 65535 65535 65535 65535 65535 65535 65535 65535 65535 65535 65535 65535 65535 65535 65535 65535 65535 65535 65535 65535 65535 65535 65535 65535 65535 65535 65535 65535 65535 65535 65535 65535 65535 65535 65535 65535 65535 65535 65535 65535 65535 65535 65535 65535 65535 65535 65535 65535 65535 65535 65535 65535 65535 65535 65535 65535 65535 65535 65535 65535 65535 65535 65535 65535 65535 65535 65535 65535 65535 65535 65535 65535 65535 65535 65535 65535 65535 65535 65535 65535 65535 65535 65535 65535 65535 65535 65535 65535 65535 65535 65535 65535 65535 65535 65535 65535 65535 65535 65535 65535 65535 65535 65535 65535 65535 65535 65535 65535 65535 65535 65535 65535 65535 65535 65535 65535 65535 65535 65535 65535 65535 65535 65535 65535 65535 65535 65535 65535 65535 65535 65535 65535 65535 65535 65535 65535 65535 65535 65535 65535 65535 65535 65535 65535 65535 65535 65535 65535 65535 65535 65535 65535 65535 65535 65535 65535 65535 65535 65535 65535 65535 65535 65535 65535 65535 65535 65535 65535 65535 65535 65535 65535 65535 65535 65535 65535 65535 65535 65535 65535 65535 65535 65535 65535 65535 65535 65535 65535 65535 65535 65535 65535 65535 65535 65535 65535 65535 65535 65535 65535 65535 65535 65535 65535 65535 65535 65535 65535 65535 65535 65535 65535 65535 65535 65535 65535 65535 65535 65535 65535 65535 65535 65535 65535 65535 65535 65535 65535 65535 65535 65535 65535 65535 65535 65535 65535 65535 65535 65535 65535 65535 65535 65535 65535 65535 65535 65535 65535 65535 65535 65535 65535 65535 65535 65535 65535 65535 65535 65535 65535 65535 65535 65535 65535 65535 65535 65535 65535 65535 65535 65535 65535 65535 65535 65535 65535 65535 65535 65535 65535 65535 65535 65535 65535 65535 65535 65535 65535 65535 65535 65535 65535 65535 65535 65535 65535 65535 65535 65535 65535 65535 65535 65535 65535 65535 65535 65535 65535 65535 65535 65535 65535 65535 65535 65535 65535 65535 65535 65535 65535 65535 65535 65535 65535 65535 65535 65535 65535 65535 65535 65535 65535 65535 65535 65535 65535 65535 65535 65535 65535 65535 65535 65535 65535 65535 65535 65535 65535 65535 65535 65535 65535 65535 65535 65535 65535 65535 65535 65535 65535 65535 65535 65535 65535 65535 65535 65535 65535 65535 65535 65535 65535 65535 65535 65535 65535 65535 65535 65535 65535 65535 65535 65535 65535 65535 65535 65535 65535 65535 65535 65535 ";

const DEFY_SUPERKEY_DATA: &str = "262 281 1 1 1 0 0 65535 65535 65535 65535 65535 65535 65535 65535 65535 65535 65535 65535 65535 65535 65535 65535 65535 65535 65535 65535 65535 65535 65535 65535 65535 65535 65535 65535 65535 65535 65535 65535 65535 65535 65535 65535 65535 65535 65535 65535 65535 65535 65535 65535 65535 65535 65535 65535 65535 65535 65535 65535 65535 65535 65535 65535 65535 65535 65535 65535 65535 65535 65535 65535 65535 65535 65535 65535 65535 65535 65535 65535 65535 65535 65535 65535 65535 65535 65535 65535 65535 65535 65535 65535 65535 65535 65535 65535 65535 65535 65535 65535 65535 65535 65535 65535 65535 65535 65535 65535 65535 65535 65535 65535 65535 65535 65535 65535 65535 65535 65535 65535 65535 65535 65535 65535 65535 65535 65535 65535 65535 65535 65535 65535 65535 65535 65535 65535 65535 65535 65535 65535 65535 65535 65535 65535 65535 65535 65535 65535 65535 65535 65535 65535 65535 65535 65535 65535 65535 65535 65535 65535 65535 65535 65535 65535 65535 65535 65535 65535 65535 65535 65535 65535 65535 65535 65535 65535 65535 65535 65535 65535 65535 65535 65535 65535 65535 65535 65535 65535 65535 65535 65535 65535 65535 65535 65535 65535 65535 65535 65535 65535 65535 65535 65535 65535 65535 65535 65535 65535 65535 65535 65535 65535 65535 65535 65535 65535 65535 65535 65535 65535 65535 65535 65535 65535 65535 65535 65535 65535 65535 65535 65535 65535 65535 65535 65535 65535 65535 65535 65535 65535 65535 65535 65535 65535 65535 65535 65535 65535 65535 65535 65535 65535 65535 65535 65535 65535 65535 65535 65535 65535 65535 65535 65535 65535 65535 65535 65535 65535 65535 65535 65535 65535 65535 65535 65535 65535 65535 65535 65535 65535 65535 65535 65535 65535 65535 65535 65535 65535 65535 65535 65535 65535 65535 65535 65535 65535 65535 65535 65535 65535 65535 65535 65535 65535 65535 65535 65535 65535 65535 65535 65535 65535 65535 65535 65535 65535 65535 65535 65535 65535 65535 65535 65535 65535 65535 65535 65535 65535 65535 65535 65535 65535 65535 65535 65535 65535 65535 65535 65535 65535 65535 65535 65535 65535 65535 65535 65535 65535 65535 65535 65535 65535 65535 65535 65535 65535 65535 65535 65535 65535 65535 65535 65535 65535 65535 65535 65535 65535 65535 65535 65535 65535 65535 65535 65535 65535 65535 65535 65535 65535 65535 65535 65535 65535 65535 65535 65535 65535 65535 65535 65535 65535 65535 65535 65535 65535 65535 65535 65535 65535 65535 65535 65535 65535 65535 65535 65535 65535 65535 65535 65535 65535 65535 65535 65535 65535 65535 65535 65535 65535 65535 65535 65535 65535 65535 65535 65535 65535 65535 65535 65535 65535 65535 65535 65535 65535 65535 65535 65535 65535 65535 65535 65535 65535 65535 65535 65535 65535 65535 65535 65535 65535 65535 65535 65535 65535 65535 65535 65535 65535 65535 65535 65535 65535 65535 65535 65535 65535 65535 65535 65535 65535 65535 65535 65535 65535 65535 65535 65535 65535 65535 65535 65535 65535 65535 65535 65535 65535 65535 65535 65535 65535 65535 65535 65535 65535 65535 65535 65535 65535 65535 65535 65535 65535 65535 65535 65535 65535 65535 65535 65535 65535 65535 ";

#[test]
fn parse_succeeds() {
    let _ = superkeys::SuperkeyMap::parse(SUPERKEY_DATA).unwrap();
}

#[test]
fn superkeys_parse_succeeds() {
    let _ = focus_superkeys::SuperkeyMap::parse(SUPERKEY_DATA).unwrap();
}

#[test]
fn superkeys_round_trips_from_str() {
    let map = defy::SuperkeyMap::parse(DEFY_SUPERKEY_DATA).unwrap();
    let data = map.to_superkey_map_data().unwrap();
    let str_data = join_u16s(&data);
    assert_eq!(format!("{str_data} "), DEFY_SUPERKEY_DATA);
}

#[test]
fn superkeys_parse_reads_actions() {
    let map = superkeys::SuperkeyMap::parse(SUPERKEY_DATA).unwrap();
    assert_eq!(map.0.len(), 12);
    let first = &map.0[0];
    // tap 44 is the space key, hold 57 is caps lock; 1 means no action
    assert_eq!(first.tap, Some(decode(44)));
    assert_eq!(first.hold, Some(decode(57)));
    assert_eq!(first.tap_hold, None);
    assert_eq!(first.double_tap, None);
    assert_eq!(first.double_tap_hold, None);
}

#[test]
fn superkeys_numbering_starts_at_one() {
    let map = defy::SuperkeyMap::parse(DEFY_SUPERKEY_DATA).unwrap();
    assert_eq!(map.0.len(), 1);
    assert_eq!(map.0[0].macro_number, 1);
}

#[test]
fn superkeys_capacity_overflow_is_an_error() {
    // 86 keys need 6 * 86 + 1 = 517 slots, more than the 512 available
    let mut keys = Vec::new();
    for _ in 0..86 {
        keys.push(defy::Superkey {
            macro_number: 0,
            tap: Some(decode(4)),
            hold: None,
            tap_hold: None,
            double_tap: None,
            double_tap_hold: None,
        });
    }
    let map = defy::SuperkeyMap(keys);
    assert_eq!(map.to_superkey_map_data(), Err(defy::TooManySuperkeysError));

    // 85 keys need 511 slots and still fit
    let mut keys = Vec::new();
    for _ in 0..85 {
        keys.push(defy::Superkey {
            macro_number: 0,
            tap: Some(decode(4)),
            hold: None,
            tap_hold: None,
            double_tap: None,
            double_tap_hold: None,
        });
    }
    let map = defy::SuperkeyMap(keys);
    assert_eq!(map.to_superkey_map_data().unwrap().len(), 512);
}

#[test]
fn superkeys_command_data_overflow_is_an_error() {
    let mut keys = Vec::new();
    for _ in 0..86 {
        keys.push(focus_superkeys::Superkey {
            tap: Some(decode(4)),
            hold: None,
            tap_hold: None,
            double_tap: None,
            double_tap_hold: None,
        });
    }
    let map = focus_superkeys::SuperkeyMap(keys);
    assert_eq!(
        map.to_command_data(512),
        Err(focus_superkeys::TooManySuperkeysError)
    );
}

#[test]
fn superkeys_empty_map_is_terminator_then_padding() {
    let map = focus_superkeys::SuperkeyMap(Vec::new());
    let data = map.to_command_data(4).unwrap();
    assert_eq!(data, "0 65535 65535 65535");
    // a zero capacity cannot even hold the map-ending token
    assert!(map.to_command_data(0).is_err());
}

#[test]
fn superkeys_no_key_code_reads_as_no_action() {
    // action code 0 decodes to the blank no-key, which means no action
    let map = superkeys::SuperkeyMap::parse("4 0 1 1 1 0 0 ").unwrap();
    assert_eq!(map.0.len(), 1);
    assert_eq!(map.0[0].tap, Some(decode(4)));
    assert_eq!(map.0[0].hold, None);
    // the transparent key is a real action
    let map = superkeys::SuperkeyMap::parse("65535 1 1 1 1 0 0 ").unwrap();
    assert!(matches!(map.0[0].tap, Some(KeyKind::Blank(_))));
}

#[test]
fn superkeys_reject_bad_trailer() {
    // the strict variant requires the trailer to be all fill sentinels
    assert!(superkeys::SuperkeyMap::parse("4 1 1 1 1 0 0 7 ").is_err());
    // the wire variant ignores the trailer
    assert!(focus_superkeys::SuperkeyMap::parse("4 1 1 1 1 0 0 7 ").is_ok());
}

#[test]
fn superkeys_reject_empty_map() {
    assert!(superkeys::SuperkeyMap::parse("0 ").is_err());
    assert!(superkeys::SuperkeyMap::parse("").is_err());
}

#[test]
fn superkeys_serialize_restores_wire_values() {
    let map = focus_superkeys::SuperkeyMap::parse("44 57 1 1 1 0 0 ").unwrap();
    let data = map.to_command_data(8).unwrap();
    assert_eq!(data, "44 57 1 1 1 0 0 65535");
}

#[test]
fn superkeys_accept_tab_separated_actions() {
    // the wire tolerates tabs as well as spaces after action values
    let map = superkeys::SuperkeyMap::parse("44\t57 1 1\t1 0 0 ").unwrap();
    assert_eq!(map.0.len(), 1);
    assert_eq!(map.0[0].tap, Some(decode(44)));
    assert!(focus_superkeys::SuperkeyMap::parse("44\t57 1 1\t1 0 0 ").is_ok());
}

#[test]
fn superkey_errors_describe_themselves() {
    let err = superkeys::SuperkeyMap::parse("nonsense").unwrap_err();
    assert!(err.message().contains("five superkey actions"));
    let err = defy::SuperkeyMap::parse("nonsense").unwrap_err();
    assert!(err.message().contains("superkey"));
    let err = focus_superkeys::TooManySuperkeysError;
    assert!(err.message().contains("too many superkeys"));
    assert!(defy::TooManySuperkeysError.message().contains("512"));
}
