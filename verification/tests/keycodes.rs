use dygma_api::keycode::{
    decode, encode, Alpha, Blank, DualFunctionModifier, KeyExpansion, KeyKind, Miscellaneous,
    Modifier, ModifierSet, ShiftSymbols, Spacing, Symbols,
};

#[test]
fn code_round_trip_all_codes() {
    let mut c: u32 = 0;
    while c <= 65535 {
        let key = decode(c as u16);
        assert_eq!(encode(key), c as u16);
        c += 1;
    }
}

#[test]
fn decode_base_keys() {
    assert_eq!(decode(0), KeyKind::Blank(Blank::NoKey));
    assert_eq!(decode(65535), KeyKind::Blank(Blank::Transparent));
    assert_eq!(decode(4), KeyKind::Alpha(Alpha::A, KeyExpansion::Plain));
    assert_eq!(decode(44), KeyKind::Spacing(Spacing::Space, KeyExpansion::Plain));
    assert_eq!(
        decode(20865),
        KeyKind::Miscellaneous(Miscellaneous::Shutdown, KeyExpansion::Plain)
    );
}

#[test]
fn decode_modifier_combinations() {
    // 0x0104: A with ctrl held
    let none = ModifierSet {
        ctrl: false,
        alt: false,
        alt_gr: false,
        os: false,
        shift: false,
    };
    assert_eq!(
        decode(260),
        KeyKind::Alpha(Alpha::A, KeyExpansion::Modified(ModifierSet { ctrl: true, ..none }))
    );
    // 4 + 0x1F00: A with every modifier held
    assert_eq!(
        decode(7940),
        KeyKind::Alpha(
            Alpha::A,
            KeyExpansion::Modified(ModifierSet {
                ctrl: true,
                alt: true,
                alt_gr: true,
                os: true,
                shift: true,
            })
        )
    );
    // shutdown carries modifiers through its own high bits
    assert_eq!(
        decode(21377),
        KeyKind::Miscellaneous(
            Miscellaneous::Shutdown,
            KeyExpansion::Modified(ModifierSet { alt: true, ..none })
        )
    );
}

#[test]
fn shifted_symbol_codes_decode_as_modified_symbols() {
    // 2093 is both shift+dash and the underscore table entry; the
    // modifier decomposition wins, as in the key table's match order
    let none = ModifierSet {
        ctrl: false,
        alt: false,
        alt_gr: false,
        os: false,
        shift: false,
    };
    assert_eq!(
        decode(2093),
        KeyKind::Symbols(Symbols::Dash, KeyExpansion::Modified(ModifierSet { shift: true, ..none }))
    );
    // the underscore variant still encodes to the same code
    assert_eq!(encode(KeyKind::ShiftSymbols(ShiftSymbols::Underscore)), 2093);
}

#[test]
fn decode_dual_function_keys() {
    // 49169 + 4: tap for A, hold for ctrl
    assert_eq!(
        decode(49173),
        KeyKind::Alpha(Alpha::A, KeyExpansion::Dual(DualFunctionModifier::Ctrl))
    );
    // 51218 + 44: tap for space, hold to shift to layer 1
    assert_eq!(
        decode(51262),
        KeyKind::Spacing(Spacing::Space, KeyExpansion::Dual(DualFunctionModifier::Layer1))
    );
}

#[test]
fn decode_slots_and_unknown() {
    match decode(53852) {
        KeyKind::Macros(s) => assert_eq!(s.index, 1),
        other => panic!("expected a macro slot, got {other:?}"),
    }
    match decode(54107) {
        KeyKind::SuperKeys(s) => assert_eq!(s.index, 128),
        other => panic!("expected a superkey slot, got {other:?}"),
    }
    assert_eq!(decode(3), KeyKind::Unknown(3));
    assert_eq!(decode(60000), KeyKind::Unknown(60000));
}

#[test]
fn modifier_values_match_the_masks() {
    assert_eq!(Modifier::Ctrl.as_modifier_value(), 0x0100);
    assert_eq!(Modifier::Alt.as_modifier_value(), 0x0200);
    assert_eq!(Modifier::AltGr.as_modifier_value(), 0x0400);
    assert_eq!(Modifier::Shift.as_modifier_value(), 0x0800);
    assert_eq!(Modifier::Os.as_modifier_value(), 0x1000);
    assert_eq!(DualFunctionModifier::Ctrl.as_modifier_value(), 49169);
    assert_eq!(DualFunctionModifier::Layer8.as_modifier_value(), 53010);
}

#[test]
fn dual_function_overflow_codes_stay_unknown() {
    // shutdown (20865) has no dual-function variants: every combination
    // would overflow 16 bits, so the table omits them
    assert_eq!(encode(decode(53125)), 53125);
    assert_eq!(decode(49169 + 200), KeyKind::Unknown(49369));
}
