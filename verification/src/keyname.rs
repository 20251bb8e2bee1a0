//! Symbolic key names: the human-readable display form of every key and
//! the parser that reads such a name back, insensitive to letter case
//! and to spaces.

use crate::keycode::{
    Alpha, Battery, Blank, Bluetooth, Digits, DualFunctionModifier, Energy, Fx, KeyExpansion,
    KeyKind, LayerLock, LayerMove, LayerShift, LedEffects, MacroSlot, Media, Miscellaneous,
    Modifiers, ModifierSet, MouseButtons, MouseMovement, MouseWarp, MouseWheele, Navigation,
    Numpad, Oneshot, Rf, ShiftSymbols, Spacing, SuperSlot, Symbols,
};
use crate::wire::{dec_render, digits_end, is_digit_char, render_u16, spec_read_uint};
use vstd::prelude::*;

verus! {

/// Error returned when parsing a string to a key fails.
#[derive(Clone, Copy, Debug, PartialEq, Eq, Structural)]
pub struct FromStrError;

/// A whitespace character, as trimming understands it.
pub open spec fn spec_is_ws(c: char) -> bool {
    c == ' ' || c == '\t' || c == '\r' || c == '\n'
}

/// Lowercase form of an ASCII letter; other characters stay themselves.
pub open spec fn spec_lower(c: char) -> char {
    if c == 'A' { 'a' } else if c == 'B' { 'b' } else if c == 'C' { 'c' }
    else if c == 'D' { 'd' } else if c == 'E' { 'e' } else if c == 'F' { 'f' }
    else if c == 'G' { 'g' } else if c == 'H' { 'h' } else if c == 'I' { 'i' }
    else if c == 'J' { 'j' } else if c == 'K' { 'k' } else if c == 'L' { 'l' }
    else if c == 'M' { 'm' } else if c == 'N' { 'n' } else if c == 'O' { 'o' }
    else if c == 'P' { 'p' } else if c == 'Q' { 'q' } else if c == 'R' { 'r' }
    else if c == 'S' { 's' } else if c == 'T' { 't' } else if c == 'U' { 'u' }
    else if c == 'V' { 'v' } else if c == 'W' { 'w' } else if c == 'X' { 'x' }
    else if c == 'Y' { 'y' } else if c == 'Z' { 'z' } else { c }
}

/// Lowercases one character.
pub fn lower_char(c: char) -> (r: char)
    ensures
        r == spec_lower(c),
{
    match c {
        'A' => 'a', 'B' => 'b', 'C' => 'c', 'D' => 'd', 'E' => 'e', 'F' => 'f',
        'G' => 'g', 'H' => 'h', 'I' => 'i', 'J' => 'j', 'K' => 'k', 'L' => 'l',
        'M' => 'm', 'N' => 'n', 'O' => 'o', 'P' => 'p', 'Q' => 'q', 'R' => 'r',
        'S' => 's', 'T' => 't', 'U' => 'u', 'V' => 'v', 'W' => 'w', 'X' => 'x',
        'Y' => 'y', 'Z' => 'z', _ => c,
    }
}

/// First non-whitespace position at or after `i`.
pub open spec fn trim_from(s: Seq<char>, i: int) -> int
    decreases s.len() - i,
    when 0 <= i
{
    if i >= s.len() || !spec_is_ws(s[i]) {
        i
    } else {
        trim_from(s, i + 1)
    }
}

/// End of the text once trailing whitespace before `e` is dropped.
pub open spec fn trim_to(s: Seq<char>, e: int) -> int
    decreases e,
    when e <= s.len()
{
    if e <= 0 || !spec_is_ws(s[e - 1]) {
        e
    } else {
        trim_to(s, e - 1)
    }
}

/// Spaces removed and letters lowercased.
pub open spec fn spec_squash(s: Seq<char>) -> Seq<char>
    decreases s.len(),
{
    if s.len() == 0 {
        Seq::empty()
    } else if s.last() == ' ' {
        spec_squash(s.drop_last())
    } else {
        spec_squash(s.drop_last()).push(spec_lower(s.last()))
    }
}

/// The normalized form of a key name: whitespace trimmed at the ends,
/// spaces removed inside, ASCII letters lowercased.
pub open spec fn spec_normalize(s: Seq<char>) -> Seq<char> {
    let a = trim_from(s, 0);
    let b = trim_to(s, s.len() as int);
    if a <= b {
        spec_squash(s.subrange(a, b))
    } else {
        Seq::empty()
    }
}

proof fn lemma_trim_from_bounds(s: Seq<char>, i: int)
    requires
        0 <= i <= s.len(),
    ensures
        i <= trim_from(s, i) <= s.len(),
    decreases s.len() - i,
{
    if i < s.len() && spec_is_ws(s[i]) {
        lemma_trim_from_bounds(s, i + 1);
    }
}

proof fn lemma_trim_to_bounds(s: Seq<char>, e: int)
    requires
        0 <= e <= s.len(),
    ensures
        0 <= trim_to(s, e) <= e,
    decreases e,
{
    if e > 0 && spec_is_ws(s[e - 1]) {
        lemma_trim_to_bounds(s, e - 1);
    }
}

fn is_ws(c: char) -> (r: bool)
    ensures
        r == spec_is_ws(c),
{
    c == ' ' || c == '\t' || c == '\r' || c == '\n'
}

/// Normalizes a key name for matching.
pub fn normalize(s: &str) -> (r: Vec<char>)
    requires
        s@.len() <= usize::MAX,
    ensures
        r@ == spec_normalize(s@),
{
    let len = s.unicode_len();
    proof {
        lemma_trim_from_bounds(s@, 0);
        lemma_trim_to_bounds(s@, s@.len() as int);
    }
    let mut a: usize = 0;
    while a < len && is_ws(s.get_char(a))
        invariant
            0 <= a <= len,
            len == s@.len(),
            trim_from(s@, a as int) == trim_from(s@, 0),
            a as int <= trim_from(s@, 0),
        decreases len - a,
    {
        a = a + 1;
        proof {
            lemma_trim_from_bounds(s@, a as int);
        }
    }
    let mut b: usize = len;
    while b > a && is_ws(s.get_char(b - 1))
        invariant
            a <= b <= len,
            len == s@.len(),
            a as int == trim_from(s@, 0),
            trim_to(s@, b as int) == trim_to(s@, s@.len() as int),
            trim_to(s@, s@.len() as int) <= b as int,
        decreases b,
    {
        b = b - 1;
        proof {
            lemma_trim_to_bounds(s@, b as int);
        }
    }
    let ghost ta = trim_from(s@, 0);
    let ghost tb = trim_to(s@, s@.len() as int);
    proof {
        assert(a as int == ta);
        if ta <= tb {
            assert(b as int == tb) by {
                if (b as int) > tb {
                    assert(spec_is_ws(s@[b - 1]));
                    assert(!spec_is_ws(s@[tb - 1]) || tb <= 0);
                    assert(trim_to(s@, b as int) <= b as int);
                }
            }
        }
    }
    let mut r: Vec<char> = Vec::new();
    let mut i: usize = a;
    while i < b
        invariant
            a <= i <= b <= len,
            len == s@.len(),
            r@ == spec_squash(s@.subrange(a as int, i as int)),
        decreases b - i,
    {
        let c = s.get_char(i);
        if c != ' ' {
            r.push(lower_char(c));
        }
        i = i + 1;
        proof {
            assert(s@.subrange(a as int, i as int).drop_last() =~= s@.subrange(
                a as int,
                i - 1 as int,
            ));
        }
    }
    proof {
        if ta <= tb {
            assert(r@ == spec_squash(s@.subrange(ta, tb)));
        } else {
            assert(a == b);
            assert(s@.subrange(a as int, a as int) =~= Seq::<char>::empty());
        }
    }
    r
}

/// The name has `lit` as its characters from `i` on, exactly to its end.
pub open spec fn spec_suffix_is(n: Seq<char>, i: int, lit: Seq<char>) -> bool {
    0 <= i <= n.len() && n.subrange(i, n.len() as int) == lit
}

/// The name has `lit` as its characters at position `i`.
pub open spec fn spec_has_at(n: Seq<char>, i: int, lit: Seq<char>) -> bool {
    0 <= i && i + lit.len() <= n.len() && n.subrange(i, i + lit.len()) == lit
}

/// Compares a whole name against a literal.
fn chars_eq(n: &Vec<char>, lit: &str) -> (r: bool)
    ensures
        r == (n@ == lit@),
{
    proof {
        assert(n@.subrange(0, n@.len() as int) =~= n@);
    }
    suffix_is(n, 0, lit)
}

/// Compares the name from position `i` to its end against a literal.
fn suffix_is(n: &Vec<char>, i: usize, lit: &str) -> (r: bool)
    requires
        i <= n@.len(),
    ensures
        r == spec_suffix_is(n@, i as int, lit@),
{
    let llen = lit.unicode_len();
    if n.len() - i != llen {
        proof {
            if spec_suffix_is(n@, i as int, lit@) {
                assert(n@.subrange(i as int, n@.len() as int).len() == lit@.len());
            }
        }
        return false;
    }
    let mut k: usize = 0;
    while k < llen
        invariant
            k <= llen,
            llen == lit@.len(),
            i + llen == n@.len(),
            n@.len() <= usize::MAX,
            forall|p: int| 0 <= p < k ==> n@[i + p] == lit@[p],
        decreases llen - k,
    {
        if n[i + k] != lit.get_char(k) {
            proof {
                if spec_suffix_is(n@, i as int, lit@) {
                    assert(n@.subrange(i as int, n@.len() as int)[k as int] == lit@[k as int]);
                }
            }
            return false;
        }
        k = k + 1;
    }
    proof {
        assert(n@.subrange(i as int, n@.len() as int) =~= lit@);
    }
    true
}

/// Tests whether the literal stands at position `i` of the name.
fn has_at(n: &Vec<char>, i: usize, lit: &str) -> (r: bool)
    requires
        i <= n@.len(),
    ensures
        r == spec_has_at(n@, i as int, lit@),
{
    let llen = lit.unicode_len();
    if n.len() - i < llen {
        proof {
            if spec_has_at(n@, i as int, lit@) {
            }
        }
        return false;
    }
    let mut k: usize = 0;
    while k < llen
        invariant
            k <= llen,
            llen == lit@.len(),
            i + llen <= n@.len(),
            n@.len() <= usize::MAX,
            forall|p: int| 0 <= p < k ==> n@[i + p] == lit@[p],
        decreases llen - k,
    {
        if n[i + k] != lit.get_char(k) {
            proof {
                if spec_has_at(n@, i as int, lit@) {
                    assert(n@.subrange(i as int, i + lit@.len())[k as int] == lit@[k as int]);
                }
            }
            return false;
        }
        k = k + 1;
    }
    proof {
        assert(n@.subrange(i as int, i + lit@.len()) =~= lit@);
    }
    true
}

/// Compares the name up to position `e` against a literal.
fn prefix_to_is(n: &Vec<char>, e: usize, lit: &str) -> (r: bool)
    requires
        e <= n@.len(),
    ensures
        r == (n@.subrange(0, e as int) == lit@),
{
    let llen = lit.unicode_len();
    if e != llen || llen > n.len() {
        proof {
            if n@.subrange(0, e as int) == lit@ {
                assert(n@.subrange(0, e as int).len() == lit@.len());
            }
        }
        return false;
    }
    let mut k: usize = 0;
    while k < llen
        invariant
            k <= llen,
            llen == lit@.len(),
            e == llen <= n@.len(),
            n@.len() <= usize::MAX,
            forall|p: int| 0 <= p < k ==> n@[p] == lit@[p],
        decreases llen - k,
    {
        if n[k] != lit.get_char(k) {
            proof {
                if n@.subrange(0, e as int) == lit@ {
                    assert(n@.subrange(0, e as int)[k as int] == lit@[k as int]);
                }
            }
            return false;
        }
        k = k + 1;
    }
    proof {
        assert(n@.subrange(0, e as int) =~= lit@);
    }
    true
}

/// Display name of a base key of this table.
pub open spec fn spec_blank_name(k: Blank) -> Seq<char> {
    match k {
        Blank::NoKey => "No Key"@,
        Blank::Transparent => "Transparent"@,
    }
}

fn blank_name(k: Blank) -> (r: &'static str)
    ensures
        r@ == spec_blank_name(k),
{
    match k {
        Blank::NoKey => "No Key",
        Blank::Transparent => "Transparent",
    }
}

/// Display name of a base key of this table.
pub open spec fn spec_spacing_name(k: Spacing) -> Seq<char> {
    match k {
        Spacing::Enter => "Enter"@,
        Spacing::Escape => "Escape"@,
        Spacing::Backspace => "Backspace"@,
        Spacing::Tab => "Tab"@,
        Spacing::Space => "Space"@,
        Spacing::Insert => "Insert"@,
        Spacing::Delete => "Delete"@,
    }
}

fn spacing_name(k: Spacing) -> (r: &'static str)
    ensures
        r@ == spec_spacing_name(k),
{
    match k {
        Spacing::Enter => "Enter",
        Spacing::Escape => "Escape",
        Spacing::Backspace => "Backspace",
        Spacing::Tab => "Tab",
        Spacing::Space => "Space",
        Spacing::Insert => "Insert",
        Spacing::Delete => "Delete",
    }
}

/// Display name of a base key of this table.
pub open spec fn spec_alpha_name(k: Alpha) -> Seq<char> {
    match k {
        Alpha::A => "A"@,
        Alpha::B => "B"@,
        Alpha::C => "C"@,
        Alpha::D => "D"@,
        Alpha::E => "E"@,
        Alpha::F => "F"@,
        Alpha::G => "G"@,
        Alpha::H => "H"@,
        Alpha::I => "I"@,
        Alpha::J => "J"@,
        Alpha::K => "K"@,
        Alpha::L => "L"@,
        Alpha::M => "M"@,
        Alpha::N => "N"@,
        Alpha::O => "O"@,
        Alpha::P => "P"@,
        Alpha::Q => "Q"@,
        Alpha::R => "R"@,
        Alpha::S => "S"@,
        Alpha::T => "T"@,
        Alpha::U => "U"@,
        Alpha::V => "V"@,
        Alpha::W => "W"@,
        Alpha::X => "X"@,
        Alpha::Y => "Y"@,
        Alpha::Z => "Z"@,
    }
}

fn alpha_name(k: Alpha) -> (r: &'static str)
    ensures
        r@ == spec_alpha_name(k),
{
    match k {
        Alpha::A => "A",
        Alpha::B => "B",
        Alpha::C => "C",
        Alpha::D => "D",
        Alpha::E => "E",
        Alpha::F => "F",
        Alpha::G => "G",
        Alpha::H => "H",
        Alpha::I => "I",
        Alpha::J => "J",
        Alpha::K => "K",
        Alpha::L => "L",
        Alpha::M => "M",
        Alpha::N => "N",
        Alpha::O => "O",
        Alpha::P => "P",
        Alpha::Q => "Q",
        Alpha::R => "R",
        Alpha::S => "S",
        Alpha::T => "T",
        Alpha::U => "U",
        Alpha::V => "V",
        Alpha::W => "W",
        Alpha::X => "X",
        Alpha::Y => "Y",
        Alpha::Z => "Z",
    }
}

/// Display name of a base key of this table.
pub open spec fn spec_digits_name(k: Digits) -> Seq<char> {
    match k {
        Digits::One => "1"@,
        Digits::Two => "2"@,
        Digits::Three => "3"@,
        Digits::Four => "4"@,
        Digits::Five => "5"@,
        Digits::Six => "Six"@,
        Digits::Seven => "7"@,
        Digits::Eight => "8"@,
        Digits::Nine => "9"@,
        Digits::Zero => "0"@,
    }
}

fn digits_name(k: Digits) -> (r: &'static str)
    ensures
        r@ == spec_digits_name(k),
{
    match k {
        Digits::One => "1",
        Digits::Two => "2",
        Digits::Three => "3",
        Digits::Four => "4",
        Digits::Five => "5",
        Digits::Six => "Six",
        Digits::Seven => "7",
        Digits::Eight => "8",
        Digits::Nine => "9",
        Digits::Zero => "0",
    }
}

/// Display name of a base key of this table.
pub open spec fn spec_numpad_name(k: Numpad) -> Seq<char> {
    match k {
        Numpad::NumLock => "Num Lock"@,
        Numpad::Divide => "Numpad /"@,
        Numpad::Times => "Numpad *"@,
        Numpad::Minus => "Numpad -"@,
        Numpad::Add => "Numpad +"@,
        Numpad::Enter => "Numpad Enter"@,
        Numpad::One => "Numpad 1"@,
        Numpad::Two => "Numpad 2"@,
        Numpad::Three => "Numpad 3"@,
        Numpad::Four => "Numpad 4"@,
        Numpad::Five => "Numpad 5"@,
        Numpad::Six => "Numpad 6"@,
        Numpad::Seven => "Numpad 7"@,
        Numpad::Eight => "Numpad 8"@,
        Numpad::Nine => "Numpad 9"@,
        Numpad::Zero => "Numpad 0"@,
        Numpad::Period => "Numpad ."@,
    }
}

fn numpad_name(k: Numpad) -> (r: &'static str)
    ensures
        r@ == spec_numpad_name(k),
{
    match k {
        Numpad::NumLock => "Num Lock",
        Numpad::Divide => "Numpad /",
        Numpad::Times => "Numpad *",
        Numpad::Minus => "Numpad -",
        Numpad::Add => "Numpad +",
        Numpad::Enter => "Numpad Enter",
        Numpad::One => "Numpad 1",
        Numpad::Two => "Numpad 2",
        Numpad::Three => "Numpad 3",
        Numpad::Four => "Numpad 4",
        Numpad::Five => "Numpad 5",
        Numpad::Six => "Numpad 6",
        Numpad::Seven => "Numpad 7",
        Numpad::Eight => "Numpad 8",
        Numpad::Nine => "Numpad 9",
        Numpad::Zero => "Numpad 0",
        Numpad::Period => "Numpad .",
    }
}

/// Display name of a base key of this table.
pub open spec fn spec_fx_name(k: Fx) -> Seq<char> {
    match k {
        Fx::F1 => "F1"@,
        Fx::F2 => "F2"@,
        Fx::F3 => "F3"@,
        Fx::F4 => "F4"@,
        Fx::F5 => "F5"@,
        Fx::F6 => "F6"@,
        Fx::F7 => "F7"@,
        Fx::F8 => "F8"@,
        Fx::F9 => "F9"@,
        Fx::F10 => "F10"@,
        Fx::F11 => "F11"@,
        Fx::F12 => "F12"@,
        Fx::F13 => "F13"@,
        Fx::F14 => "F14"@,
        Fx::F15 => "F15"@,
        Fx::F16 => "F16"@,
        Fx::F17 => "F17"@,
        Fx::F18 => "F18"@,
        Fx::F19 => "F19"@,
        Fx::F20 => "F20"@,
        Fx::F21 => "F21"@,
        Fx::F22 => "F22"@,
        Fx::F23 => "F23"@,
        Fx::F24 => "F24"@,
    }
}

fn fx_name(k: Fx) -> (r: &'static str)
    ensures
        r@ == spec_fx_name(k),
{
    match k {
        Fx::F1 => "F1",
        Fx::F2 => "F2",
        Fx::F3 => "F3",
        Fx::F4 => "F4",
        Fx::F5 => "F5",
        Fx::F6 => "F6",
        Fx::F7 => "F7",
        Fx::F8 => "F8",
        Fx::F9 => "F9",
        Fx::F10 => "F10",
        Fx::F11 => "F11",
        Fx::F12 => "F12",
        Fx::F13 => "F13",
        Fx::F14 => "F14",
        Fx::F15 => "F15",
        Fx::F16 => "F16",
        Fx::F17 => "F17",
        Fx::F18 => "F18",
        Fx::F19 => "F19",
        Fx::F20 => "F20",
        Fx::F21 => "F21",
        Fx::F22 => "F22",
        Fx::F23 => "F23",
        Fx::F24 => "F24",
    }
}

/// Display name of a base key of this table.
pub open spec fn spec_symbols_name(k: Symbols) -> Seq<char> {
    match k {
        Symbols::Dash => "`-``"@,
        Symbols::Equals => "`=`"@,
        Symbols::BracketLeft => "`[`"@,
        Symbols::BracketRight => "`]`"@,
        Symbols::Backslash => "`\\`"@,
        Symbols::Semicolon => "`;`"@,
        Symbols::SingleQuote => "`'``"@,
        Symbols::BackTick => "```"@,
        Symbols::Comma => "`,`"@,
        Symbols::Period => "`.`"@,
        Symbols::Slash => "`/`"@,
        Symbols::CapsLock => "Caps Lock"@,
        Symbols::IsoGTLT => "ISO `<>`"@,
    }
}

fn symbols_name(k: Symbols) -> (r: &'static str)
    ensures
        r@ == spec_symbols_name(k),
{
    match k {
        Symbols::Dash => "`-``",
        Symbols::Equals => "`=`",
        Symbols::BracketLeft => "`[`",
        Symbols::BracketRight => "`]`",
        Symbols::Backslash => "`\\`",
        Symbols::Semicolon => "`;`",
        Symbols::SingleQuote => "`'``",
        Symbols::BackTick => "```",
        Symbols::Comma => "`,`",
        Symbols::Period => "`.`",
        Symbols::Slash => "`/`",
        Symbols::CapsLock => "Caps Lock",
        Symbols::IsoGTLT => "ISO `<>`",
    }
}

/// Display name of a base key of this table.
pub open spec fn spec_shift_symbols_name(k: ShiftSymbols) -> Seq<char> {
    match k {
        ShiftSymbols::Underscore => "`_`"@,
        ShiftSymbols::Plus => "`+`"@,
        ShiftSymbols::BraceLeft => "`{{`"@,
        ShiftSymbols::BraceRight => "`}}`"@,
        ShiftSymbols::Pipe => "`|`"@,
        ShiftSymbols::Colon => "`:`"@,
        ShiftSymbols::DoubleQuote => "`\"`"@,
        ShiftSymbols::Tilde => "`~`"@,
        ShiftSymbols::LT => "`<`"@,
        ShiftSymbols::GT => "`>`"@,
        ShiftSymbols::QuestionMark => "`?`"@,
        ShiftSymbols::AltPipe => "Non-U.S. |"@,
    }
}

fn shift_symbols_name(k: ShiftSymbols) -> (r: &'static str)
    ensures
        r@ == spec_shift_symbols_name(k),
{
    match k {
        ShiftSymbols::Underscore => "`_`",
        ShiftSymbols::Plus => "`+`",
        ShiftSymbols::BraceLeft => "`{{`",
        ShiftSymbols::BraceRight => "`}}`",
        ShiftSymbols::Pipe => "`|`",
        ShiftSymbols::Colon => "`:`",
        ShiftSymbols::DoubleQuote => "`\"`",
        ShiftSymbols::Tilde => "`~`",
        ShiftSymbols::LT => "`<`",
        ShiftSymbols::GT => "`>`",
        ShiftSymbols::QuestionMark => "`?`",
        ShiftSymbols::AltPipe => "Non-U.S. |",
    }
}

/// Display name of a base key of this table.
pub open spec fn spec_modifiers_name(k: Modifiers) -> Seq<char> {
    match k {
        Modifiers::LeftCtrl => "Left Ctrl"@,
        Modifiers::LeftShift => "Left Shift"@,
        Modifiers::LeftAlt => "Left Shift"@,
        Modifiers::LeftOs => "Left OS"@,
        Modifiers::RightCtrl => "Right Ctrl"@,
        Modifiers::RightShift => "Right Shift"@,
        Modifiers::AltGr => "AltGr"@,
        Modifiers::RightOs => "Right OS"@,
    }
}

fn modifiers_name(k: Modifiers) -> (r: &'static str)
    ensures
        r@ == spec_modifiers_name(k),
{
    match k {
        Modifiers::LeftCtrl => "Left Ctrl",
        Modifiers::LeftShift => "Left Shift",
        Modifiers::LeftAlt => "Left Shift",
        Modifiers::LeftOs => "Left OS",
        Modifiers::RightCtrl => "Right Ctrl",
        Modifiers::RightShift => "Right Shift",
        Modifiers::AltGr => "AltGr",
        Modifiers::RightOs => "Right OS",
    }
}

/// Display name of a base key of this table.
pub open spec fn spec_media_name(k: Media) -> Seq<char> {
    match k {
        Media::Mute => "Mute"@,
        Media::NextTrack => "Next Track"@,
        Media::PreviousTrack => "Previous Track"@,
        Media::Stop => "Stop"@,
        Media::PlayPause => "Play/Pause"@,
        Media::VolumeUp => "Volume Up"@,
        Media::VolumeDown => "Volume Down"@,
        Media::Eject => "Eject"@,
        Media::Camera => "Camera"@,
        Media::BrightnessUp => "Brightness Up"@,
        Media::BrightnessDown => "Brightness Down"@,
        Media::Calculator => "Calculator"@,
        Media::Shuffle => "Shuffle"@,
    }
}

fn media_name(k: Media) -> (r: &'static str)
    ensures
        r@ == spec_media_name(k),
{
    match k {
        Media::Mute => "Mute",
        Media::NextTrack => "Next Track",
        Media::PreviousTrack => "Previous Track",
        Media::Stop => "Stop",
        Media::PlayPause => "Play/Pause",
        Media::VolumeUp => "Volume Up",
        Media::VolumeDown => "Volume Down",
        Media::Eject => "Eject",
        Media::Camera => "Camera",
        Media::BrightnessUp => "Brightness Up",
        Media::BrightnessDown => "Brightness Down",
        Media::Calculator => "Calculator",
        Media::Shuffle => "Shuffle",
    }
}

/// Display name of a base key of this table.
pub open spec fn spec_navigation_name(k: Navigation) -> Seq<char> {
    match k {
        Navigation::Home => "Home"@,
        Navigation::PageUp => "Page Up"@,
        Navigation::End => "End"@,
        Navigation::PageDown => "Page Down"@,
        Navigation::ArrowRight => "Right Arrow"@,
        Navigation::ArrowLeft => "Left Arrow"@,
        Navigation::ArrowDown => "Down Arrow"@,
        Navigation::ArrowUp => "Up Arrow"@,
        Navigation::Menu => "Menu"@,
    }
}

fn navigation_name(k: Navigation) -> (r: &'static str)
    ensures
        r@ == spec_navigation_name(k),
{
    match k {
        Navigation::Home => "Home",
        Navigation::PageUp => "Page Up",
        Navigation::End => "End",
        Navigation::PageDown => "Page Down",
        Navigation::ArrowRight => "Right Arrow",
        Navigation::ArrowLeft => "Left Arrow",
        Navigation::ArrowDown => "Down Arrow",
        Navigation::ArrowUp => "Up Arrow",
        Navigation::Menu => "Menu",
    }
}

/// Display name of a base key of this table.
pub open spec fn spec_mouse_movement_name(k: MouseMovement) -> Seq<char> {
    match k {
        MouseMovement::MouseUp => "Mouse Up"@,
        MouseMovement::MouseDown => "Mouse Down"@,
        MouseMovement::MouseLeft => "Mouse Left"@,
        MouseMovement::MouseRight => "Mouse Right"@,
    }
}

fn mouse_movement_name(k: MouseMovement) -> (r: &'static str)
    ensures
        r@ == spec_mouse_movement_name(k),
{
    match k {
        MouseMovement::MouseUp => "Mouse Up",
        MouseMovement::MouseDown => "Mouse Down",
        MouseMovement::MouseLeft => "Mouse Left",
        MouseMovement::MouseRight => "Mouse Right",
    }
}

/// Display name of a base key of this table.
pub open spec fn spec_mouse_wheele_name(k: MouseWheele) -> Seq<char> {
    match k {
        MouseWheele::WheelUp => "Mouse Wheele Up"@,
        MouseWheele::WheelDown => "Mouse Wheel Down"@,
        MouseWheele::WheelLeft => "Mouse Wheel Left"@,
        MouseWheele::WheelRight => "Mouse Wheele Right"@,
    }
}

fn mouse_wheele_name(k: MouseWheele) -> (r: &'static str)
    ensures
        r@ == spec_mouse_wheele_name(k),
{
    match k {
        MouseWheele::WheelUp => "Mouse Wheele Up",
        MouseWheele::WheelDown => "Mouse Wheel Down",
        MouseWheele::WheelLeft => "Mouse Wheel Left",
        MouseWheele::WheelRight => "Mouse Wheele Right",
    }
}

/// Display name of a base key of this table.
pub open spec fn spec_mouse_buttons_name(k: MouseButtons) -> Seq<char> {
    match k {
        MouseButtons::Left => "Mouse Button Left"@,
        MouseButtons::Right => "Mouse Button Right"@,
        MouseButtons::Middle => "Mouse Button Middle"@,
        MouseButtons::Back => "Mouse Button Back"@,
        MouseButtons::Forward => "Mouse Button Forward"@,
    }
}

fn mouse_buttons_name(k: MouseButtons) -> (r: &'static str)
    ensures
        r@ == spec_mouse_buttons_name(k),
{
    match k {
        MouseButtons::Left => "Mouse Button Left",
        MouseButtons::Right => "Mouse Button Right",
        MouseButtons::Middle => "Mouse Button Middle",
        MouseButtons::Back => "Mouse Button Back",
        MouseButtons::Forward => "Mouse Button Forward",
    }
}

/// Display name of a base key of this table.
pub open spec fn spec_mouse_warp_name(k: MouseWarp) -> Seq<char> {
    match k {
        MouseWarp::End => "Mouse Warp End"@,
        MouseWarp::NW => "Mouse Warp NW"@,
        MouseWarp::SW => "Mouse Warp SW"@,
        MouseWarp::NE => "Mouse Warp NE"@,
        MouseWarp::SE => "Mouse Warp SE"@,
    }
}

fn mouse_warp_name(k: MouseWarp) -> (r: &'static str)
    ensures
        r@ == spec_mouse_warp_name(k),
{
    match k {
        MouseWarp::End => "Mouse Warp End",
        MouseWarp::NW => "Mouse Warp NW",
        MouseWarp::SW => "Mouse Warp SW",
        MouseWarp::NE => "Mouse Warp NE",
        MouseWarp::SE => "Mouse Warp SE",
    }
}

/// Display name of a base key of this table.
pub open spec fn spec_led_effects_name(k: LedEffects) -> Seq<char> {
    match k {
        LedEffects::Next => "Next LED Effect"@,
        LedEffects::Previous => "Previous LED Effect"@,
        LedEffects::Toggle => "Toggle LED Effect"@,
    }
}

fn led_effects_name(k: LedEffects) -> (r: &'static str)
    ensures
        r@ == spec_led_effects_name(k),
{
    match k {
        LedEffects::Next => "Next LED Effect",
        LedEffects::Previous => "Previous LED Effect",
        LedEffects::Toggle => "Toggle LED Effect",
    }
}

/// Display name of a base key of this table.
pub open spec fn spec_battery_name(k: Battery) -> Seq<char> {
    match k {
        Battery::Status => "Battery Status"@,
    }
}

fn battery_name(k: Battery) -> (r: &'static str)
    ensures
        r@ == spec_battery_name(k),
{
    match k {
        Battery::Status => "Battery Status",
    }
}

/// Display name of a base key of this table.
pub open spec fn spec_bluetooth_name(k: Bluetooth) -> Seq<char> {
    match k {
        Bluetooth::Pair => "Bluetooth Pairing"@,
    }
}

fn bluetooth_name(k: Bluetooth) -> (r: &'static str)
    ensures
        r@ == spec_bluetooth_name(k),
{
    match k {
        Bluetooth::Pair => "Bluetooth Pairing",
    }
}

/// Display name of a base key of this table.
pub open spec fn spec_energy_name(k: Energy) -> Seq<char> {
    match k {
        Energy::Status => "Energy Status"@,
    }
}

fn energy_name(k: Energy) -> (r: &'static str)
    ensures
        r@ == spec_energy_name(k),
{
    match k {
        Energy::Status => "Energy Status",
    }
}

/// Display name of a base key of this table.
pub open spec fn spec_rf_name(k: Rf) -> Seq<char> {
    match k {
        Rf::Status => "Wireless RF Status"@,
    }
}

fn rf_name(k: Rf) -> (r: &'static str)
    ensures
        r@ == spec_rf_name(k),
{
    match k {
        Rf::Status => "Wireless RF Status",
    }
}

/// Display name of a base key of this table.
pub open spec fn spec_layer_lock_name(k: LayerLock) -> Seq<char> {
    match k {
        LayerLock::Layer1 => "Layer 1 Lock"@,
        LayerLock::Layer2 => "Layer 2 Lock"@,
        LayerLock::Layer3 => "Layer 3 Lock"@,
        LayerLock::Layer4 => "Layer 4 Lock"@,
        LayerLock::Layer5 => "Layer 5 Lock"@,
        LayerLock::Layer6 => "Layer 6 Lock"@,
        LayerLock::Layer7 => "Layer 7 Lock"@,
        LayerLock::Layer8 => "Layer 8 Lock"@,
        LayerLock::Layer9 => "Layer 9 Lock"@,
        LayerLock::Layer10 => "Layer 10 Lock"@,
    }
}

fn layer_lock_name(k: LayerLock) -> (r: &'static str)
    ensures
        r@ == spec_layer_lock_name(k),
{
    match k {
        LayerLock::Layer1 => "Layer 1 Lock",
        LayerLock::Layer2 => "Layer 2 Lock",
        LayerLock::Layer3 => "Layer 3 Lock",
        LayerLock::Layer4 => "Layer 4 Lock",
        LayerLock::Layer5 => "Layer 5 Lock",
        LayerLock::Layer6 => "Layer 6 Lock",
        LayerLock::Layer7 => "Layer 7 Lock",
        LayerLock::Layer8 => "Layer 8 Lock",
        LayerLock::Layer9 => "Layer 9 Lock",
        LayerLock::Layer10 => "Layer 10 Lock",
    }
}

/// Display name of a base key of this table.
pub open spec fn spec_layer_shift_name(k: LayerShift) -> Seq<char> {
    match k {
        LayerShift::Layer1 => "Layer 1 Shift"@,
        LayerShift::Layer2 => "Layer 2 Shift"@,
        LayerShift::Layer3 => "Layer 3 Shift"@,
        LayerShift::Layer4 => "Layer 4 Shift"@,
        LayerShift::Layer5 => "Layer 5 Shift"@,
        LayerShift::Layer6 => "Layer 6 Shift"@,
        LayerShift::Layer7 => "Layer 7 Shift"@,
        LayerShift::Layer8 => "Layer 8 Shift"@,
        LayerShift::Layer9 => "Layer 9 Shift"@,
        LayerShift::Layer10 => "Layer 10 Shift"@,
    }
}

fn layer_shift_name(k: LayerShift) -> (r: &'static str)
    ensures
        r@ == spec_layer_shift_name(k),
{
    match k {
        LayerShift::Layer1 => "Layer 1 Shift",
        LayerShift::Layer2 => "Layer 2 Shift",
        LayerShift::Layer3 => "Layer 3 Shift",
        LayerShift::Layer4 => "Layer 4 Shift",
        LayerShift::Layer5 => "Layer 5 Shift",
        LayerShift::Layer6 => "Layer 6 Shift",
        LayerShift::Layer7 => "Layer 7 Shift",
        LayerShift::Layer8 => "Layer 8 Shift",
        LayerShift::Layer9 => "Layer 9 Shift",
        LayerShift::Layer10 => "Layer 10 Shift",
    }
}

/// Display name of a base key of this table.
pub open spec fn spec_layer_move_name(k: LayerMove) -> Seq<char> {
    match k {
        LayerMove::Layer1 => "Layer 1 Move"@,
        LayerMove::Layer2 => "Layer 2 Move"@,
        LayerMove::Layer3 => "Layer 3 Move"@,
        LayerMove::Layer4 => "Layer 4 Move"@,
        LayerMove::Layer5 => "Layer 5 Move"@,
        LayerMove::Layer6 => "Layer 6 Move"@,
        LayerMove::Layer7 => "Layer 7 Move"@,
        LayerMove::Layer8 => "Layer 8 Move"@,
        LayerMove::Layer9 => "Layer 9 Move"@,
        LayerMove::Layer10 => "Layer 10 Move"@,
    }
}

fn layer_move_name(k: LayerMove) -> (r: &'static str)
    ensures
        r@ == spec_layer_move_name(k),
{
    match k {
        LayerMove::Layer1 => "Layer 1 Move",
        LayerMove::Layer2 => "Layer 2 Move",
        LayerMove::Layer3 => "Layer 3 Move",
        LayerMove::Layer4 => "Layer 4 Move",
        LayerMove::Layer5 => "Layer 5 Move",
        LayerMove::Layer6 => "Layer 6 Move",
        LayerMove::Layer7 => "Layer 7 Move",
        LayerMove::Layer8 => "Layer 8 Move",
        LayerMove::Layer9 => "Layer 9 Move",
        LayerMove::Layer10 => "Layer 10 Move",
    }
}

/// Display name of a base key of this table.
pub open spec fn spec_miscellaneous_name(k: Miscellaneous) -> Seq<char> {
    match k {
        Miscellaneous::PrintScreen => "Print Screen"@,
        Miscellaneous::ScrollLock => "Scroll Lock"@,
        Miscellaneous::Pause => "Pause"@,
        Miscellaneous::Shutdown => "Shutdown"@,
        Miscellaneous::Sleep => "Sleep"@,
    }
}

fn miscellaneous_name(k: Miscellaneous) -> (r: &'static str)
    ensures
        r@ == spec_miscellaneous_name(k),
{
    match k {
        Miscellaneous::PrintScreen => "Print Screen",
        Miscellaneous::ScrollLock => "Scroll Lock",
        Miscellaneous::Pause => "Pause",
        Miscellaneous::Shutdown => "Shutdown",
        Miscellaneous::Sleep => "Sleep",
    }
}

/// Display name of a base key of this table.
pub open spec fn spec_oneshot_name(k: Oneshot) -> Seq<char> {
    match k {
        Oneshot::Layer1 => "Oneshot Layer 1"@,
        Oneshot::Layer2 => "Oneshot Layer 2"@,
        Oneshot::Layer3 => "Oneshot Layer 3"@,
        Oneshot::Layer4 => "Oneshot Layer 4"@,
        Oneshot::Layer5 => "Oneshot Layer 5"@,
        Oneshot::Layer6 => "Oneshot Layer 6"@,
        Oneshot::Layer7 => "Oneshot Layer 7"@,
        Oneshot::Layer8 => "Oneshot Layer 8"@,
        Oneshot::LeftCtrl => "Oneshot Left Ctrl"@,
        Oneshot::LeftShift => "Oneshot Left Shift"@,
        Oneshot::LeftAlt => "Oneshot Left Alt"@,
        Oneshot::LeftOs => "Oneshot Left OS"@,
        Oneshot::RightCtrl => "Oneshot Right Ctrl"@,
        Oneshot::RightShift => "Oneshot Right Shift"@,
        Oneshot::AltGr => "Oneshot AltGr"@,
        Oneshot::RightOs => "Oneshot Right OS"@,
    }
}

fn oneshot_name(k: Oneshot) -> (r: &'static str)
    ensures
        r@ == spec_oneshot_name(k),
{
    match k {
        Oneshot::Layer1 => "Oneshot Layer 1",
        Oneshot::Layer2 => "Oneshot Layer 2",
        Oneshot::Layer3 => "Oneshot Layer 3",
        Oneshot::Layer4 => "Oneshot Layer 4",
        Oneshot::Layer5 => "Oneshot Layer 5",
        Oneshot::Layer6 => "Oneshot Layer 6",
        Oneshot::Layer7 => "Oneshot Layer 7",
        Oneshot::Layer8 => "Oneshot Layer 8",
        Oneshot::LeftCtrl => "Oneshot Left Ctrl",
        Oneshot::LeftShift => "Oneshot Left Shift",
        Oneshot::LeftAlt => "Oneshot Left Alt",
        Oneshot::LeftOs => "Oneshot Left OS",
        Oneshot::RightCtrl => "Oneshot Right Ctrl",
        Oneshot::RightShift => "Oneshot Right Shift",
        Oneshot::AltGr => "Oneshot AltGr",
        Oneshot::RightOs => "Oneshot Right OS",
    }
}

/// Display name of a dual-function overlay.
pub open spec fn spec_dual_name(d: DualFunctionModifier) -> Seq<char> {
    match d {
        DualFunctionModifier::Ctrl => "Ctrl"@,
        DualFunctionModifier::Alt => "Alt"@,
        DualFunctionModifier::AltGr => "AltGr"@,
        DualFunctionModifier::Os => "Os"@,
        DualFunctionModifier::Shift => "Shift"@,
        DualFunctionModifier::Layer1 => "Layer 1"@,
        DualFunctionModifier::Layer2 => "Layer 2"@,
        DualFunctionModifier::Layer3 => "Layer 3"@,
        DualFunctionModifier::Layer4 => "Layer 4"@,
        DualFunctionModifier::Layer5 => "Layer 5"@,
        DualFunctionModifier::Layer6 => "Layer 6"@,
        DualFunctionModifier::Layer7 => "Layer 7"@,
        DualFunctionModifier::Layer8 => "Layer 8"@,
    }
}

fn dual_name(d: DualFunctionModifier) -> (r: &'static str)
    ensures
        r@ == spec_dual_name(d),
{
    match d {
        DualFunctionModifier::Ctrl => "Ctrl",
        DualFunctionModifier::Alt => "Alt",
        DualFunctionModifier::AltGr => "AltGr",
        DualFunctionModifier::Os => "Os",
        DualFunctionModifier::Shift => "Shift",
        DualFunctionModifier::Layer1 => "Layer 1",
        DualFunctionModifier::Layer2 => "Layer 2",
        DualFunctionModifier::Layer3 => "Layer 3",
        DualFunctionModifier::Layer4 => "Layer 4",
        DualFunctionModifier::Layer5 => "Layer 5",
        DualFunctionModifier::Layer6 => "Layer 6",
        DualFunctionModifier::Layer7 => "Layer 7",
        DualFunctionModifier::Layer8 => "Layer 8",
    }
}

/// The modifier prefix of a modified key's display name: the held
/// modifiers in a fixed order, each followed by a separator.
pub open spec fn spec_mods_prefix(m: ModifierSet) -> Seq<char> {
    (if m.ctrl { "Ctrl + "@ } else { Seq::empty() }) + (if m.alt { "Alt + "@ } else { Seq::empty() })
        + (if m.alt_gr { "AltGr + "@ } else { Seq::empty() }) + (if m.os { "Os + "@ } else {
        Seq::empty()
    }) + (if m.shift { "Shift + "@ } else { Seq::empty() })
}

/// The display name of a base key's table row carried by an expansion.
pub open spec fn spec_expanded_name(base: Seq<char>, x: KeyExpansion) -> Seq<char> {
    match x {
        KeyExpansion::Plain => base,
        KeyExpansion::Modified(m) => spec_mods_prefix(m) + base,
        KeyExpansion::Dual(d) => base + " / "@ + spec_dual_name(d),
    }
}

/// The display name of a key.
pub open spec fn spec_display(k: KeyKind) -> Seq<char> {

    match k {
        KeyKind::Blank(b) => spec_blank_name(b),
        KeyKind::Spacing(b, x) => spec_expanded_name(spec_spacing_name(b), x),
        KeyKind::Alpha(b, x) => spec_expanded_name(spec_alpha_name(b), x),
        KeyKind::Digits(b, x) => spec_expanded_name(spec_digits_name(b), x),
        KeyKind::Numpad(b, x) => spec_expanded_name(spec_numpad_name(b), x),
        KeyKind::Fx(b, x) => spec_expanded_name(spec_fx_name(b), x),
        KeyKind::Symbols(b, x) => spec_expanded_name(spec_symbols_name(b), x),
        KeyKind::ShiftSymbols(b) => spec_shift_symbols_name(b),
        KeyKind::Modifiers(b, x) => spec_expanded_name(spec_modifiers_name(b), x),
        KeyKind::Media(b) => spec_media_name(b),
        KeyKind::Navigation(b, x) => spec_expanded_name(spec_navigation_name(b), x),
        KeyKind::MouseMovement(b) => spec_mouse_movement_name(b),
        KeyKind::MouseWheele(b) => spec_mouse_wheele_name(b),
        KeyKind::MouseButtons(b) => spec_mouse_buttons_name(b),
        KeyKind::MouseWarp(b) => spec_mouse_warp_name(b),
        KeyKind::LedEffects(b) => spec_led_effects_name(b),
        KeyKind::Battery(b) => spec_battery_name(b),
        KeyKind::Bluetooth(b) => spec_bluetooth_name(b),
        KeyKind::Energy(b) => spec_energy_name(b),
        KeyKind::Rf(b) => spec_rf_name(b),
        KeyKind::LayerLock(b) => spec_layer_lock_name(b),
        KeyKind::LayerShift(b) => spec_layer_shift_name(b),
        KeyKind::LayerMove(b) => spec_layer_move_name(b),
        KeyKind::Miscellaneous(b, x) => spec_expanded_name(spec_miscellaneous_name(b), x),
        KeyKind::Oneshot(b) => spec_oneshot_name(b),
        KeyKind::Macros(s) => "Macro "@ + dec_render(s.index as int),
        KeyKind::SuperKeys(s) => "Super Key "@ + dec_render(s.index as int),
        KeyKind::Unknown(c) => "<unknown "@ + dec_render(c as int) + ">"@,
    }
}

fn expanded_name(base: &str, x: KeyExpansion) -> (r: String)
    ensures
        r@ == spec_expanded_name(base@, x),
{
    match x {
        KeyExpansion::Plain => base.to_owned(),
        KeyExpansion::Modified(m) => {
            let mut out = String::new();
            if m.ctrl {
                out.append("Ctrl + ");
            }
            if m.alt {
                out.append("Alt + ");
            }
            if m.alt_gr {
                out.append("AltGr + ");
            }
            if m.os {
                out.append("Os + ");
            }
            if m.shift {
                out.append("Shift + ");
            }
            out.append(base);
            proof {
                assert(out@ =~= spec_mods_prefix(m) + base@);
            }
            out
        },
        KeyExpansion::Dual(d) => {
            let mut out = base.to_owned();
            out.append(" / ");
            out.append(dual_name(d));
            proof {
                assert(out@ =~= base@ + " / "@ + spec_dual_name(d));
            }
            out
        },
    }
}

/// The human-readable name of a key: its base table name, with the
/// modifier prefix or the dual-function suffix where the key carries
/// one.
pub fn display(k: KeyKind) -> (r: String)
    ensures
        r@ == spec_display(k),
{
    match k {

        KeyKind::Blank(b) => blank_name(b).to_owned(),
        KeyKind::Spacing(b, x) => expanded_name(spacing_name(b), x),
        KeyKind::Alpha(b, x) => expanded_name(alpha_name(b), x),
        KeyKind::Digits(b, x) => expanded_name(digits_name(b), x),
        KeyKind::Numpad(b, x) => expanded_name(numpad_name(b), x),
        KeyKind::Fx(b, x) => expanded_name(fx_name(b), x),
        KeyKind::Symbols(b, x) => expanded_name(symbols_name(b), x),
        KeyKind::ShiftSymbols(b) => shift_symbols_name(b).to_owned(),
        KeyKind::Modifiers(b, x) => expanded_name(modifiers_name(b), x),
        KeyKind::Media(b) => media_name(b).to_owned(),
        KeyKind::Navigation(b, x) => expanded_name(navigation_name(b), x),
        KeyKind::MouseMovement(b) => mouse_movement_name(b).to_owned(),
        KeyKind::MouseWheele(b) => mouse_wheele_name(b).to_owned(),
        KeyKind::MouseButtons(b) => mouse_buttons_name(b).to_owned(),
        KeyKind::MouseWarp(b) => mouse_warp_name(b).to_owned(),
        KeyKind::LedEffects(b) => led_effects_name(b).to_owned(),
        KeyKind::Battery(b) => battery_name(b).to_owned(),
        KeyKind::Bluetooth(b) => bluetooth_name(b).to_owned(),
        KeyKind::Energy(b) => energy_name(b).to_owned(),
        KeyKind::Rf(b) => rf_name(b).to_owned(),
        KeyKind::LayerLock(b) => layer_lock_name(b).to_owned(),
        KeyKind::LayerShift(b) => layer_shift_name(b).to_owned(),
        KeyKind::LayerMove(b) => layer_move_name(b).to_owned(),
        KeyKind::Miscellaneous(b, x) => expanded_name(miscellaneous_name(b), x),
        KeyKind::Oneshot(b) => oneshot_name(b).to_owned(),
        KeyKind::Macros(s) => {
            let mut out = String::from_str("Macro ");
            let num = render_u16(s.index as u16);
            out.append(num.as_str());
            out
        },
        KeyKind::SuperKeys(s) => {
            let mut out = String::from_str("Super Key ");
            let num = render_u16(s.index as u16);
            out.append(num.as_str());
            out
        },
        KeyKind::Unknown(c) => {
            let mut out = String::from_str("<unknown ");
            let num = render_u16(c);
            out.append(num.as_str());
            out.append(">");
            proof {
                assert(out@ =~= "<unknown "@ + dec_render(c as int) + ">"@);
            }
            out
        },
    }
}

/// The base key of this table a normalized name means.
pub open spec fn spec_parse_blank(n: Seq<char>) -> Option<KeyKind> {
    if n == "nokey"@ {
        Some(KeyKind::Blank(Blank::NoKey))
    } else if n == "transparent"@ {
        Some(KeyKind::Blank(Blank::Transparent))
    } else {
        None
    }
}

fn parse_blank(n: &Vec<char>) -> (r: Option<KeyKind>)
    ensures
        r == spec_parse_blank(n@),
{
    if chars_eq(n, "nokey") {
        Some(KeyKind::Blank(Blank::NoKey))
    } else if chars_eq(n, "transparent") {
        Some(KeyKind::Blank(Blank::Transparent))
    } else {
        None
    }
}

/// The base key of this table a normalized name means.
pub open spec fn spec_parse_spacing(n: Seq<char>) -> Option<KeyKind> {
    if n == "enter"@ {
        Some(KeyKind::Spacing(Spacing::Enter, KeyExpansion::Plain))
    } else if n == "escape"@ {
        Some(KeyKind::Spacing(Spacing::Escape, KeyExpansion::Plain))
    } else if n == "backspace"@ {
        Some(KeyKind::Spacing(Spacing::Backspace, KeyExpansion::Plain))
    } else if n == "tab"@ {
        Some(KeyKind::Spacing(Spacing::Tab, KeyExpansion::Plain))
    } else if n == "space"@ {
        Some(KeyKind::Spacing(Spacing::Space, KeyExpansion::Plain))
    } else if n == "insert"@ {
        Some(KeyKind::Spacing(Spacing::Insert, KeyExpansion::Plain))
    } else if n == "delete"@ {
        Some(KeyKind::Spacing(Spacing::Delete, KeyExpansion::Plain))
    } else {
        None
    }
}

fn parse_spacing(n: &Vec<char>) -> (r: Option<KeyKind>)
    ensures
        r == spec_parse_spacing(n@),
{
    if chars_eq(n, "enter") {
        Some(KeyKind::Spacing(Spacing::Enter, KeyExpansion::Plain))
    } else if chars_eq(n, "escape") {
        Some(KeyKind::Spacing(Spacing::Escape, KeyExpansion::Plain))
    } else if chars_eq(n, "backspace") {
        Some(KeyKind::Spacing(Spacing::Backspace, KeyExpansion::Plain))
    } else if chars_eq(n, "tab") {
        Some(KeyKind::Spacing(Spacing::Tab, KeyExpansion::Plain))
    } else if chars_eq(n, "space") {
        Some(KeyKind::Spacing(Spacing::Space, KeyExpansion::Plain))
    } else if chars_eq(n, "insert") {
        Some(KeyKind::Spacing(Spacing::Insert, KeyExpansion::Plain))
    } else if chars_eq(n, "delete") {
        Some(KeyKind::Spacing(Spacing::Delete, KeyExpansion::Plain))
    } else {
        None
    }
}

/// The base key of this table a normalized name means.
pub open spec fn spec_parse_alpha(n: Seq<char>) -> Option<KeyKind> {
    if n == "a"@ {
        Some(KeyKind::Alpha(Alpha::A, KeyExpansion::Plain))
    } else if n == "b"@ {
        Some(KeyKind::Alpha(Alpha::B, KeyExpansion::Plain))
    } else if n == "c"@ {
        Some(KeyKind::Alpha(Alpha::C, KeyExpansion::Plain))
    } else if n == "d"@ {
        Some(KeyKind::Alpha(Alpha::D, KeyExpansion::Plain))
    } else if n == "e"@ {
        Some(KeyKind::Alpha(Alpha::E, KeyExpansion::Plain))
    } else if n == "f"@ {
        Some(KeyKind::Alpha(Alpha::F, KeyExpansion::Plain))
    } else if n == "g"@ {
        Some(KeyKind::Alpha(Alpha::G, KeyExpansion::Plain))
    } else if n == "h"@ {
        Some(KeyKind::Alpha(Alpha::H, KeyExpansion::Plain))
    } else if n == "i"@ {
        Some(KeyKind::Alpha(Alpha::I, KeyExpansion::Plain))
    } else if n == "j"@ {
        Some(KeyKind::Alpha(Alpha::J, KeyExpansion::Plain))
    } else if n == "k"@ {
        Some(KeyKind::Alpha(Alpha::K, KeyExpansion::Plain))
    } else if n == "l"@ {
        Some(KeyKind::Alpha(Alpha::L, KeyExpansion::Plain))
    } else if n == "m"@ {
        Some(KeyKind::Alpha(Alpha::M, KeyExpansion::Plain))
    } else if n == "n"@ {
        Some(KeyKind::Alpha(Alpha::N, KeyExpansion::Plain))
    } else if n == "o"@ {
        Some(KeyKind::Alpha(Alpha::O, KeyExpansion::Plain))
    } else if n == "p"@ {
        Some(KeyKind::Alpha(Alpha::P, KeyExpansion::Plain))
    } else if n == "q"@ {
        Some(KeyKind::Alpha(Alpha::Q, KeyExpansion::Plain))
    } else if n == "r"@ {
        Some(KeyKind::Alpha(Alpha::R, KeyExpansion::Plain))
    } else if n == "s"@ {
        Some(KeyKind::Alpha(Alpha::S, KeyExpansion::Plain))
    } else if n == "t"@ {
        Some(KeyKind::Alpha(Alpha::T, KeyExpansion::Plain))
    } else if n == "u"@ {
        Some(KeyKind::Alpha(Alpha::U, KeyExpansion::Plain))
    } else if n == "v"@ {
        Some(KeyKind::Alpha(Alpha::V, KeyExpansion::Plain))
    } else if n == "w"@ {
        Some(KeyKind::Alpha(Alpha::W, KeyExpansion::Plain))
    } else if n == "x"@ {
        Some(KeyKind::Alpha(Alpha::X, KeyExpansion::Plain))
    } else if n == "y"@ {
        Some(KeyKind::Alpha(Alpha::Y, KeyExpansion::Plain))
    } else if n == "z"@ {
        Some(KeyKind::Alpha(Alpha::Z, KeyExpansion::Plain))
    } else {
        None
    }
}

fn parse_alpha(n: &Vec<char>) -> (r: Option<KeyKind>)
    ensures
        r == spec_parse_alpha(n@),
{
    if chars_eq(n, "a") {
        Some(KeyKind::Alpha(Alpha::A, KeyExpansion::Plain))
    } else if chars_eq(n, "b") {
        Some(KeyKind::Alpha(Alpha::B, KeyExpansion::Plain))
    } else if chars_eq(n, "c") {
        Some(KeyKind::Alpha(Alpha::C, KeyExpansion::Plain))
    } else if chars_eq(n, "d") {
        Some(KeyKind::Alpha(Alpha::D, KeyExpansion::Plain))
    } else if chars_eq(n, "e") {
        Some(KeyKind::Alpha(Alpha::E, KeyExpansion::Plain))
    } else if chars_eq(n, "f") {
        Some(KeyKind::Alpha(Alpha::F, KeyExpansion::Plain))
    } else if chars_eq(n, "g") {
        Some(KeyKind::Alpha(Alpha::G, KeyExpansion::Plain))
    } else if chars_eq(n, "h") {
        Some(KeyKind::Alpha(Alpha::H, KeyExpansion::Plain))
    } else if chars_eq(n, "i") {
        Some(KeyKind::Alpha(Alpha::I, KeyExpansion::Plain))
    } else if chars_eq(n, "j") {
        Some(KeyKind::Alpha(Alpha::J, KeyExpansion::Plain))
    } else if chars_eq(n, "k") {
        Some(KeyKind::Alpha(Alpha::K, KeyExpansion::Plain))
    } else if chars_eq(n, "l") {
        Some(KeyKind::Alpha(Alpha::L, KeyExpansion::Plain))
    } else if chars_eq(n, "m") {
        Some(KeyKind::Alpha(Alpha::M, KeyExpansion::Plain))
    } else if chars_eq(n, "n") {
        Some(KeyKind::Alpha(Alpha::N, KeyExpansion::Plain))
    } else if chars_eq(n, "o") {
        Some(KeyKind::Alpha(Alpha::O, KeyExpansion::Plain))
    } else if chars_eq(n, "p") {
        Some(KeyKind::Alpha(Alpha::P, KeyExpansion::Plain))
    } else if chars_eq(n, "q") {
        Some(KeyKind::Alpha(Alpha::Q, KeyExpansion::Plain))
    } else if chars_eq(n, "r") {
        Some(KeyKind::Alpha(Alpha::R, KeyExpansion::Plain))
    } else if chars_eq(n, "s") {
        Some(KeyKind::Alpha(Alpha::S, KeyExpansion::Plain))
    } else if chars_eq(n, "t") {
        Some(KeyKind::Alpha(Alpha::T, KeyExpansion::Plain))
    } else if chars_eq(n, "u") {
        Some(KeyKind::Alpha(Alpha::U, KeyExpansion::Plain))
    } else if chars_eq(n, "v") {
        Some(KeyKind::Alpha(Alpha::V, KeyExpansion::Plain))
    } else if chars_eq(n, "w") {
        Some(KeyKind::Alpha(Alpha::W, KeyExpansion::Plain))
    } else if chars_eq(n, "x") {
        Some(KeyKind::Alpha(Alpha::X, KeyExpansion::Plain))
    } else if chars_eq(n, "y") {
        Some(KeyKind::Alpha(Alpha::Y, KeyExpansion::Plain))
    } else if chars_eq(n, "z") {
        Some(KeyKind::Alpha(Alpha::Z, KeyExpansion::Plain))
    } else {
        None
    }
}

/// The base key of this table a normalized name means.
pub open spec fn spec_parse_digits(n: Seq<char>) -> Option<KeyKind> {
    if n == "1"@ {
        Some(KeyKind::Digits(Digits::One, KeyExpansion::Plain))
    } else if n == "one"@ {
        Some(KeyKind::Digits(Digits::One, KeyExpansion::Plain))
    } else if n == "2"@ {
        Some(KeyKind::Digits(Digits::Two, KeyExpansion::Plain))
    } else if n == "two"@ {
        Some(KeyKind::Digits(Digits::Two, KeyExpansion::Plain))
    } else if n == "3"@ {
        Some(KeyKind::Digits(Digits::Three, KeyExpansion::Plain))
    } else if n == "three"@ {
        Some(KeyKind::Digits(Digits::Three, KeyExpansion::Plain))
    } else if n == "4"@ {
        Some(KeyKind::Digits(Digits::Four, KeyExpansion::Plain))
    } else if n == "four"@ {
        Some(KeyKind::Digits(Digits::Four, KeyExpansion::Plain))
    } else if n == "5"@ {
        Some(KeyKind::Digits(Digits::Five, KeyExpansion::Plain))
    } else if n == "five"@ {
        Some(KeyKind::Digits(Digits::Five, KeyExpansion::Plain))
    } else if n == "six"@ {
        Some(KeyKind::Digits(Digits::Six, KeyExpansion::Plain))
    } else if n == "7"@ {
        Some(KeyKind::Digits(Digits::Seven, KeyExpansion::Plain))
    } else if n == "seven"@ {
        Some(KeyKind::Digits(Digits::Seven, KeyExpansion::Plain))
    } else if n == "8"@ {
        Some(KeyKind::Digits(Digits::Eight, KeyExpansion::Plain))
    } else if n == "eight"@ {
        Some(KeyKind::Digits(Digits::Eight, KeyExpansion::Plain))
    } else if n == "9"@ {
        Some(KeyKind::Digits(Digits::Nine, KeyExpansion::Plain))
    } else if n == "nine"@ {
        Some(KeyKind::Digits(Digits::Nine, KeyExpansion::Plain))
    } else if n == "0"@ {
        Some(KeyKind::Digits(Digits::Zero, KeyExpansion::Plain))
    } else if n == "zero"@ {
        Some(KeyKind::Digits(Digits::Zero, KeyExpansion::Plain))
    } else {
        None
    }
}

fn parse_digits(n: &Vec<char>) -> (r: Option<KeyKind>)
    ensures
        r == spec_parse_digits(n@),
{
    if chars_eq(n, "1") {
        Some(KeyKind::Digits(Digits::One, KeyExpansion::Plain))
    } else if chars_eq(n, "one") {
        Some(KeyKind::Digits(Digits::One, KeyExpansion::Plain))
    } else if chars_eq(n, "2") {
        Some(KeyKind::Digits(Digits::Two, KeyExpansion::Plain))
    } else if chars_eq(n, "two") {
        Some(KeyKind::Digits(Digits::Two, KeyExpansion::Plain))
    } else if chars_eq(n, "3") {
        Some(KeyKind::Digits(Digits::Three, KeyExpansion::Plain))
    } else if chars_eq(n, "three") {
        Some(KeyKind::Digits(Digits::Three, KeyExpansion::Plain))
    } else if chars_eq(n, "4") {
        Some(KeyKind::Digits(Digits::Four, KeyExpansion::Plain))
    } else if chars_eq(n, "four") {
        Some(KeyKind::Digits(Digits::Four, KeyExpansion::Plain))
    } else if chars_eq(n, "5") {
        Some(KeyKind::Digits(Digits::Five, KeyExpansion::Plain))
    } else if chars_eq(n, "five") {
        Some(KeyKind::Digits(Digits::Five, KeyExpansion::Plain))
    } else if chars_eq(n, "six") {
        Some(KeyKind::Digits(Digits::Six, KeyExpansion::Plain))
    } else if chars_eq(n, "7") {
        Some(KeyKind::Digits(Digits::Seven, KeyExpansion::Plain))
    } else if chars_eq(n, "seven") {
        Some(KeyKind::Digits(Digits::Seven, KeyExpansion::Plain))
    } else if chars_eq(n, "8") {
        Some(KeyKind::Digits(Digits::Eight, KeyExpansion::Plain))
    } else if chars_eq(n, "eight") {
        Some(KeyKind::Digits(Digits::Eight, KeyExpansion::Plain))
    } else if chars_eq(n, "9") {
        Some(KeyKind::Digits(Digits::Nine, KeyExpansion::Plain))
    } else if chars_eq(n, "nine") {
        Some(KeyKind::Digits(Digits::Nine, KeyExpansion::Plain))
    } else if chars_eq(n, "0") {
        Some(KeyKind::Digits(Digits::Zero, KeyExpansion::Plain))
    } else if chars_eq(n, "zero") {
        Some(KeyKind::Digits(Digits::Zero, KeyExpansion::Plain))
    } else {
        None
    }
}

/// The base key of this table a normalized name means.
pub open spec fn spec_parse_numpad(n: Seq<char>) -> Option<KeyKind> {
    if n == "numlock"@ {
        Some(KeyKind::Numpad(Numpad::NumLock, KeyExpansion::Plain))
    } else if n == "numpad/"@ {
        Some(KeyKind::Numpad(Numpad::Divide, KeyExpansion::Plain))
    } else if n == "divide"@ {
        Some(KeyKind::Numpad(Numpad::Divide, KeyExpansion::Plain))
    } else if n == "numpad*"@ {
        Some(KeyKind::Numpad(Numpad::Times, KeyExpansion::Plain))
    } else if n == "times"@ {
        Some(KeyKind::Numpad(Numpad::Times, KeyExpansion::Plain))
    } else if n == "numpad-"@ {
        Some(KeyKind::Numpad(Numpad::Minus, KeyExpansion::Plain))
    } else if n == "minus"@ {
        Some(KeyKind::Numpad(Numpad::Minus, KeyExpansion::Plain))
    } else if n == "numpad+"@ {
        Some(KeyKind::Numpad(Numpad::Add, KeyExpansion::Plain))
    } else if n == "add"@ {
        Some(KeyKind::Numpad(Numpad::Add, KeyExpansion::Plain))
    } else if n == "numpadenter"@ {
        Some(KeyKind::Numpad(Numpad::Enter, KeyExpansion::Plain))
    } else if n == "enter"@ {
        Some(KeyKind::Numpad(Numpad::Enter, KeyExpansion::Plain))
    } else if n == "numpad1"@ {
        Some(KeyKind::Numpad(Numpad::One, KeyExpansion::Plain))
    } else if n == "one"@ {
        Some(KeyKind::Numpad(Numpad::One, KeyExpansion::Plain))
    } else if n == "numpad2"@ {
        Some(KeyKind::Numpad(Numpad::Two, KeyExpansion::Plain))
    } else if n == "two"@ {
        Some(KeyKind::Numpad(Numpad::Two, KeyExpansion::Plain))
    } else if n == "numpad3"@ {
        Some(KeyKind::Numpad(Numpad::Three, KeyExpansion::Plain))
    } else if n == "three"@ {
        Some(KeyKind::Numpad(Numpad::Three, KeyExpansion::Plain))
    } else if n == "numpad4"@ {
        Some(KeyKind::Numpad(Numpad::Four, KeyExpansion::Plain))
    } else if n == "four"@ {
        Some(KeyKind::Numpad(Numpad::Four, KeyExpansion::Plain))
    } else if n == "numpad5"@ {
        Some(KeyKind::Numpad(Numpad::Five, KeyExpansion::Plain))
    } else if n == "five"@ {
        Some(KeyKind::Numpad(Numpad::Five, KeyExpansion::Plain))
    } else if n == "numpad6"@ {
        Some(KeyKind::Numpad(Numpad::Six, KeyExpansion::Plain))
    } else if n == "six"@ {
        Some(KeyKind::Numpad(Numpad::Six, KeyExpansion::Plain))
    } else if n == "numpad7"@ {
        Some(KeyKind::Numpad(Numpad::Seven, KeyExpansion::Plain))
    } else if n == "seven"@ {
        Some(KeyKind::Numpad(Numpad::Seven, KeyExpansion::Plain))
    } else if n == "numpad8"@ {
        Some(KeyKind::Numpad(Numpad::Eight, KeyExpansion::Plain))
    } else if n == "eight"@ {
        Some(KeyKind::Numpad(Numpad::Eight, KeyExpansion::Plain))
    } else if n == "numpad9"@ {
        Some(KeyKind::Numpad(Numpad::Nine, KeyExpansion::Plain))
    } else if n == "nine"@ {
        Some(KeyKind::Numpad(Numpad::Nine, KeyExpansion::Plain))
    } else if n == "numpad0"@ {
        Some(KeyKind::Numpad(Numpad::Zero, KeyExpansion::Plain))
    } else if n == "zero"@ {
        Some(KeyKind::Numpad(Numpad::Zero, KeyExpansion::Plain))
    } else if n == "numpad."@ {
        Some(KeyKind::Numpad(Numpad::Period, KeyExpansion::Plain))
    } else if n == "period"@ {
        Some(KeyKind::Numpad(Numpad::Period, KeyExpansion::Plain))
    } else {
        None
    }
}

fn parse_numpad(n: &Vec<char>) -> (r: Option<KeyKind>)
    ensures
        r == spec_parse_numpad(n@),
{
    if chars_eq(n, "numlock") {
        Some(KeyKind::Numpad(Numpad::NumLock, KeyExpansion::Plain))
    } else if chars_eq(n, "numpad/") {
        Some(KeyKind::Numpad(Numpad::Divide, KeyExpansion::Plain))
    } else if chars_eq(n, "divide") {
        Some(KeyKind::Numpad(Numpad::Divide, KeyExpansion::Plain))
    } else if chars_eq(n, "numpad*") {
        Some(KeyKind::Numpad(Numpad::Times, KeyExpansion::Plain))
    } else if chars_eq(n, "times") {
        Some(KeyKind::Numpad(Numpad::Times, KeyExpansion::Plain))
    } else if chars_eq(n, "numpad-") {
        Some(KeyKind::Numpad(Numpad::Minus, KeyExpansion::Plain))
    } else if chars_eq(n, "minus") {
        Some(KeyKind::Numpad(Numpad::Minus, KeyExpansion::Plain))
    } else if chars_eq(n, "numpad+") {
        Some(KeyKind::Numpad(Numpad::Add, KeyExpansion::Plain))
    } else if chars_eq(n, "add") {
        Some(KeyKind::Numpad(Numpad::Add, KeyExpansion::Plain))
    } else if chars_eq(n, "numpadenter") {
        Some(KeyKind::Numpad(Numpad::Enter, KeyExpansion::Plain))
    } else if chars_eq(n, "enter") {
        Some(KeyKind::Numpad(Numpad::Enter, KeyExpansion::Plain))
    } else if chars_eq(n, "numpad1") {
        Some(KeyKind::Numpad(Numpad::One, KeyExpansion::Plain))
    } else if chars_eq(n, "one") {
        Some(KeyKind::Numpad(Numpad::One, KeyExpansion::Plain))
    } else if chars_eq(n, "numpad2") {
        Some(KeyKind::Numpad(Numpad::Two, KeyExpansion::Plain))
    } else if chars_eq(n, "two") {
        Some(KeyKind::Numpad(Numpad::Two, KeyExpansion::Plain))
    } else if chars_eq(n, "numpad3") {
        Some(KeyKind::Numpad(Numpad::Three, KeyExpansion::Plain))
    } else if chars_eq(n, "three") {
        Some(KeyKind::Numpad(Numpad::Three, KeyExpansion::Plain))
    } else if chars_eq(n, "numpad4") {
        Some(KeyKind::Numpad(Numpad::Four, KeyExpansion::Plain))
    } else if chars_eq(n, "four") {
        Some(KeyKind::Numpad(Numpad::Four, KeyExpansion::Plain))
    } else if chars_eq(n, "numpad5") {
        Some(KeyKind::Numpad(Numpad::Five, KeyExpansion::Plain))
    } else if chars_eq(n, "five") {
        Some(KeyKind::Numpad(Numpad::Five, KeyExpansion::Plain))
    } else if chars_eq(n, "numpad6") {
        Some(KeyKind::Numpad(Numpad::Six, KeyExpansion::Plain))
    } else if chars_eq(n, "six") {
        Some(KeyKind::Numpad(Numpad::Six, KeyExpansion::Plain))
    } else if chars_eq(n, "numpad7") {
        Some(KeyKind::Numpad(Numpad::Seven, KeyExpansion::Plain))
    } else if chars_eq(n, "seven") {
        Some(KeyKind::Numpad(Numpad::Seven, KeyExpansion::Plain))
    } else if chars_eq(n, "numpad8") {
        Some(KeyKind::Numpad(Numpad::Eight, KeyExpansion::Plain))
    } else if chars_eq(n, "eight") {
        Some(KeyKind::Numpad(Numpad::Eight, KeyExpansion::Plain))
    } else if chars_eq(n, "numpad9") {
        Some(KeyKind::Numpad(Numpad::Nine, KeyExpansion::Plain))
    } else if chars_eq(n, "nine") {
        Some(KeyKind::Numpad(Numpad::Nine, KeyExpansion::Plain))
    } else if chars_eq(n, "numpad0") {
        Some(KeyKind::Numpad(Numpad::Zero, KeyExpansion::Plain))
    } else if chars_eq(n, "zero") {
        Some(KeyKind::Numpad(Numpad::Zero, KeyExpansion::Plain))
    } else if chars_eq(n, "numpad.") {
        Some(KeyKind::Numpad(Numpad::Period, KeyExpansion::Plain))
    } else if chars_eq(n, "period") {
        Some(KeyKind::Numpad(Numpad::Period, KeyExpansion::Plain))
    } else {
        None
    }
}

/// The base key of this table a normalized name means.
pub open spec fn spec_parse_fx(n: Seq<char>) -> Option<KeyKind> {
    if n == "f1"@ {
        Some(KeyKind::Fx(Fx::F1, KeyExpansion::Plain))
    } else if n == "f2"@ {
        Some(KeyKind::Fx(Fx::F2, KeyExpansion::Plain))
    } else if n == "f3"@ {
        Some(KeyKind::Fx(Fx::F3, KeyExpansion::Plain))
    } else if n == "f4"@ {
        Some(KeyKind::Fx(Fx::F4, KeyExpansion::Plain))
    } else if n == "f5"@ {
        Some(KeyKind::Fx(Fx::F5, KeyExpansion::Plain))
    } else if n == "f6"@ {
        Some(KeyKind::Fx(Fx::F6, KeyExpansion::Plain))
    } else if n == "f7"@ {
        Some(KeyKind::Fx(Fx::F7, KeyExpansion::Plain))
    } else if n == "f8"@ {
        Some(KeyKind::Fx(Fx::F8, KeyExpansion::Plain))
    } else if n == "f9"@ {
        Some(KeyKind::Fx(Fx::F9, KeyExpansion::Plain))
    } else if n == "f10"@ {
        Some(KeyKind::Fx(Fx::F10, KeyExpansion::Plain))
    } else if n == "f11"@ {
        Some(KeyKind::Fx(Fx::F11, KeyExpansion::Plain))
    } else if n == "f12"@ {
        Some(KeyKind::Fx(Fx::F12, KeyExpansion::Plain))
    } else if n == "f13"@ {
        Some(KeyKind::Fx(Fx::F13, KeyExpansion::Plain))
    } else if n == "f14"@ {
        Some(KeyKind::Fx(Fx::F14, KeyExpansion::Plain))
    } else if n == "f15"@ {
        Some(KeyKind::Fx(Fx::F15, KeyExpansion::Plain))
    } else if n == "f16"@ {
        Some(KeyKind::Fx(Fx::F16, KeyExpansion::Plain))
    } else if n == "f17"@ {
        Some(KeyKind::Fx(Fx::F17, KeyExpansion::Plain))
    } else if n == "f18"@ {
        Some(KeyKind::Fx(Fx::F18, KeyExpansion::Plain))
    } else if n == "f19"@ {
        Some(KeyKind::Fx(Fx::F19, KeyExpansion::Plain))
    } else if n == "f20"@ {
        Some(KeyKind::Fx(Fx::F20, KeyExpansion::Plain))
    } else if n == "f21"@ {
        Some(KeyKind::Fx(Fx::F21, KeyExpansion::Plain))
    } else if n == "f22"@ {
        Some(KeyKind::Fx(Fx::F22, KeyExpansion::Plain))
    } else if n == "f23"@ {
        Some(KeyKind::Fx(Fx::F23, KeyExpansion::Plain))
    } else if n == "f24"@ {
        Some(KeyKind::Fx(Fx::F24, KeyExpansion::Plain))
    } else {
        None
    }
}

fn parse_fx(n: &Vec<char>) -> (r: Option<KeyKind>)
    ensures
        r == spec_parse_fx(n@),
{
    if chars_eq(n, "f1") {
        Some(KeyKind::Fx(Fx::F1, KeyExpansion::Plain))
    } else if chars_eq(n, "f2") {
        Some(KeyKind::Fx(Fx::F2, KeyExpansion::Plain))
    } else if chars_eq(n, "f3") {
        Some(KeyKind::Fx(Fx::F3, KeyExpansion::Plain))
    } else if chars_eq(n, "f4") {
        Some(KeyKind::Fx(Fx::F4, KeyExpansion::Plain))
    } else if chars_eq(n, "f5") {
        Some(KeyKind::Fx(Fx::F5, KeyExpansion::Plain))
    } else if chars_eq(n, "f6") {
        Some(KeyKind::Fx(Fx::F6, KeyExpansion::Plain))
    } else if chars_eq(n, "f7") {
        Some(KeyKind::Fx(Fx::F7, KeyExpansion::Plain))
    } else if chars_eq(n, "f8") {
        Some(KeyKind::Fx(Fx::F8, KeyExpansion::Plain))
    } else if chars_eq(n, "f9") {
        Some(KeyKind::Fx(Fx::F9, KeyExpansion::Plain))
    } else if chars_eq(n, "f10") {
        Some(KeyKind::Fx(Fx::F10, KeyExpansion::Plain))
    } else if chars_eq(n, "f11") {
        Some(KeyKind::Fx(Fx::F11, KeyExpansion::Plain))
    } else if chars_eq(n, "f12") {
        Some(KeyKind::Fx(Fx::F12, KeyExpansion::Plain))
    } else if chars_eq(n, "f13") {
        Some(KeyKind::Fx(Fx::F13, KeyExpansion::Plain))
    } else if chars_eq(n, "f14") {
        Some(KeyKind::Fx(Fx::F14, KeyExpansion::Plain))
    } else if chars_eq(n, "f15") {
        Some(KeyKind::Fx(Fx::F15, KeyExpansion::Plain))
    } else if chars_eq(n, "f16") {
        Some(KeyKind::Fx(Fx::F16, KeyExpansion::Plain))
    } else if chars_eq(n, "f17") {
        Some(KeyKind::Fx(Fx::F17, KeyExpansion::Plain))
    } else if chars_eq(n, "f18") {
        Some(KeyKind::Fx(Fx::F18, KeyExpansion::Plain))
    } else if chars_eq(n, "f19") {
        Some(KeyKind::Fx(Fx::F19, KeyExpansion::Plain))
    } else if chars_eq(n, "f20") {
        Some(KeyKind::Fx(Fx::F20, KeyExpansion::Plain))
    } else if chars_eq(n, "f21") {
        Some(KeyKind::Fx(Fx::F21, KeyExpansion::Plain))
    } else if chars_eq(n, "f22") {
        Some(KeyKind::Fx(Fx::F22, KeyExpansion::Plain))
    } else if chars_eq(n, "f23") {
        Some(KeyKind::Fx(Fx::F23, KeyExpansion::Plain))
    } else if chars_eq(n, "f24") {
        Some(KeyKind::Fx(Fx::F24, KeyExpansion::Plain))
    } else {
        None
    }
}

/// The base key of this table a normalized name means.
pub open spec fn spec_parse_symbols(n: Seq<char>) -> Option<KeyKind> {
    if n == "`-``"@ {
        Some(KeyKind::Symbols(Symbols::Dash, KeyExpansion::Plain))
    } else if n == "dash"@ {
        Some(KeyKind::Symbols(Symbols::Dash, KeyExpansion::Plain))
    } else if n == "`=`"@ {
        Some(KeyKind::Symbols(Symbols::Equals, KeyExpansion::Plain))
    } else if n == "equals"@ {
        Some(KeyKind::Symbols(Symbols::Equals, KeyExpansion::Plain))
    } else if n == "`[`"@ {
        Some(KeyKind::Symbols(Symbols::BracketLeft, KeyExpansion::Plain))
    } else if n == "bracketleft"@ {
        Some(KeyKind::Symbols(Symbols::BracketLeft, KeyExpansion::Plain))
    } else if n == "`]`"@ {
        Some(KeyKind::Symbols(Symbols::BracketRight, KeyExpansion::Plain))
    } else if n == "bracketright"@ {
        Some(KeyKind::Symbols(Symbols::BracketRight, KeyExpansion::Plain))
    } else if n == "`\\`"@ {
        Some(KeyKind::Symbols(Symbols::Backslash, KeyExpansion::Plain))
    } else if n == "backslash"@ {
        Some(KeyKind::Symbols(Symbols::Backslash, KeyExpansion::Plain))
    } else if n == "`;`"@ {
        Some(KeyKind::Symbols(Symbols::Semicolon, KeyExpansion::Plain))
    } else if n == "semicolon"@ {
        Some(KeyKind::Symbols(Symbols::Semicolon, KeyExpansion::Plain))
    } else if n == "`'``"@ {
        Some(KeyKind::Symbols(Symbols::SingleQuote, KeyExpansion::Plain))
    } else if n == "singlequote"@ {
        Some(KeyKind::Symbols(Symbols::SingleQuote, KeyExpansion::Plain))
    } else if n == "```"@ {
        Some(KeyKind::Symbols(Symbols::BackTick, KeyExpansion::Plain))
    } else if n == "backtick"@ {
        Some(KeyKind::Symbols(Symbols::BackTick, KeyExpansion::Plain))
    } else if n == "`,`"@ {
        Some(KeyKind::Symbols(Symbols::Comma, KeyExpansion::Plain))
    } else if n == "comma"@ {
        Some(KeyKind::Symbols(Symbols::Comma, KeyExpansion::Plain))
    } else if n == "`.`"@ {
        Some(KeyKind::Symbols(Symbols::Period, KeyExpansion::Plain))
    } else if n == "period"@ {
        Some(KeyKind::Symbols(Symbols::Period, KeyExpansion::Plain))
    } else if n == "`/`"@ {
        Some(KeyKind::Symbols(Symbols::Slash, KeyExpansion::Plain))
    } else if n == "slash"@ {
        Some(KeyKind::Symbols(Symbols::Slash, KeyExpansion::Plain))
    } else if n == "capslock"@ {
        Some(KeyKind::Symbols(Symbols::CapsLock, KeyExpansion::Plain))
    } else if n == "iso`<>`"@ {
        Some(KeyKind::Symbols(Symbols::IsoGTLT, KeyExpansion::Plain))
    } else if n == "isogtlt"@ {
        Some(KeyKind::Symbols(Symbols::IsoGTLT, KeyExpansion::Plain))
    } else {
        None
    }
}

fn parse_symbols(n: &Vec<char>) -> (r: Option<KeyKind>)
    ensures
        r == spec_parse_symbols(n@),
{
    if chars_eq(n, "`-``") {
        Some(KeyKind::Symbols(Symbols::Dash, KeyExpansion::Plain))
    } else if chars_eq(n, "dash") {
        Some(KeyKind::Symbols(Symbols::Dash, KeyExpansion::Plain))
    } else if chars_eq(n, "`=`") {
        Some(KeyKind::Symbols(Symbols::Equals, KeyExpansion::Plain))
    } else if chars_eq(n, "equals") {
        Some(KeyKind::Symbols(Symbols::Equals, KeyExpansion::Plain))
    } else if chars_eq(n, "`[`") {
        Some(KeyKind::Symbols(Symbols::BracketLeft, KeyExpansion::Plain))
    } else if chars_eq(n, "bracketleft") {
        Some(KeyKind::Symbols(Symbols::BracketLeft, KeyExpansion::Plain))
    } else if chars_eq(n, "`]`") {
        Some(KeyKind::Symbols(Symbols::BracketRight, KeyExpansion::Plain))
    } else if chars_eq(n, "bracketright") {
        Some(KeyKind::Symbols(Symbols::BracketRight, KeyExpansion::Plain))
    } else if chars_eq(n, "`\\`") {
        Some(KeyKind::Symbols(Symbols::Backslash, KeyExpansion::Plain))
    } else if chars_eq(n, "backslash") {
        Some(KeyKind::Symbols(Symbols::Backslash, KeyExpansion::Plain))
    } else if chars_eq(n, "`;`") {
        Some(KeyKind::Symbols(Symbols::Semicolon, KeyExpansion::Plain))
    } else if chars_eq(n, "semicolon") {
        Some(KeyKind::Symbols(Symbols::Semicolon, KeyExpansion::Plain))
    } else if chars_eq(n, "`'``") {
        Some(KeyKind::Symbols(Symbols::SingleQuote, KeyExpansion::Plain))
    } else if chars_eq(n, "singlequote") {
        Some(KeyKind::Symbols(Symbols::SingleQuote, KeyExpansion::Plain))
    } else if chars_eq(n, "```") {
        Some(KeyKind::Symbols(Symbols::BackTick, KeyExpansion::Plain))
    } else if chars_eq(n, "backtick") {
        Some(KeyKind::Symbols(Symbols::BackTick, KeyExpansion::Plain))
    } else if chars_eq(n, "`,`") {
        Some(KeyKind::Symbols(Symbols::Comma, KeyExpansion::Plain))
    } else if chars_eq(n, "comma") {
        Some(KeyKind::Symbols(Symbols::Comma, KeyExpansion::Plain))
    } else if chars_eq(n, "`.`") {
        Some(KeyKind::Symbols(Symbols::Period, KeyExpansion::Plain))
    } else if chars_eq(n, "period") {
        Some(KeyKind::Symbols(Symbols::Period, KeyExpansion::Plain))
    } else if chars_eq(n, "`/`") {
        Some(KeyKind::Symbols(Symbols::Slash, KeyExpansion::Plain))
    } else if chars_eq(n, "slash") {
        Some(KeyKind::Symbols(Symbols::Slash, KeyExpansion::Plain))
    } else if chars_eq(n, "capslock") {
        Some(KeyKind::Symbols(Symbols::CapsLock, KeyExpansion::Plain))
    } else if chars_eq(n, "iso`<>`") {
        Some(KeyKind::Symbols(Symbols::IsoGTLT, KeyExpansion::Plain))
    } else if chars_eq(n, "isogtlt") {
        Some(KeyKind::Symbols(Symbols::IsoGTLT, KeyExpansion::Plain))
    } else {
        None
    }
}

/// The base key of this table a normalized name means.
pub open spec fn spec_parse_shift_symbols(n: Seq<char>) -> Option<KeyKind> {
    if n == "`_`"@ {
        Some(KeyKind::ShiftSymbols(ShiftSymbols::Underscore))
    } else if n == "underscore"@ {
        Some(KeyKind::ShiftSymbols(ShiftSymbols::Underscore))
    } else if n == "`+`"@ {
        Some(KeyKind::ShiftSymbols(ShiftSymbols::Plus))
    } else if n == "plus"@ {
        Some(KeyKind::ShiftSymbols(ShiftSymbols::Plus))
    } else if n == "`{{`"@ {
        Some(KeyKind::ShiftSymbols(ShiftSymbols::BraceLeft))
    } else if n == "braceleft"@ {
        Some(KeyKind::ShiftSymbols(ShiftSymbols::BraceLeft))
    } else if n == "`}}`"@ {
        Some(KeyKind::ShiftSymbols(ShiftSymbols::BraceRight))
    } else if n == "braceright"@ {
        Some(KeyKind::ShiftSymbols(ShiftSymbols::BraceRight))
    } else if n == "`|`"@ {
        Some(KeyKind::ShiftSymbols(ShiftSymbols::Pipe))
    } else if n == "pipe"@ {
        Some(KeyKind::ShiftSymbols(ShiftSymbols::Pipe))
    } else if n == "`:`"@ {
        Some(KeyKind::ShiftSymbols(ShiftSymbols::Colon))
    } else if n == "colon"@ {
        Some(KeyKind::ShiftSymbols(ShiftSymbols::Colon))
    } else if n == "`\"`"@ {
        Some(KeyKind::ShiftSymbols(ShiftSymbols::DoubleQuote))
    } else if n == "doublequote"@ {
        Some(KeyKind::ShiftSymbols(ShiftSymbols::DoubleQuote))
    } else if n == "`~`"@ {
        Some(KeyKind::ShiftSymbols(ShiftSymbols::Tilde))
    } else if n == "tilde"@ {
        Some(KeyKind::ShiftSymbols(ShiftSymbols::Tilde))
    } else if n == "`<`"@ {
        Some(KeyKind::ShiftSymbols(ShiftSymbols::LT))
    } else if n == "lt"@ {
        Some(KeyKind::ShiftSymbols(ShiftSymbols::LT))
    } else if n == "`>`"@ {
        Some(KeyKind::ShiftSymbols(ShiftSymbols::GT))
    } else if n == "gt"@ {
        Some(KeyKind::ShiftSymbols(ShiftSymbols::GT))
    } else if n == "`?`"@ {
        Some(KeyKind::ShiftSymbols(ShiftSymbols::QuestionMark))
    } else if n == "questionmark"@ {
        Some(KeyKind::ShiftSymbols(ShiftSymbols::QuestionMark))
    } else if n == "non-u.s.|"@ {
        Some(KeyKind::ShiftSymbols(ShiftSymbols::AltPipe))
    } else if n == "altpipe"@ {
        Some(KeyKind::ShiftSymbols(ShiftSymbols::AltPipe))
    } else {
        None
    }
}

fn parse_shift_symbols(n: &Vec<char>) -> (r: Option<KeyKind>)
    ensures
        r == spec_parse_shift_symbols(n@),
{
    if chars_eq(n, "`_`") {
        Some(KeyKind::ShiftSymbols(ShiftSymbols::Underscore))
    } else if chars_eq(n, "underscore") {
        Some(KeyKind::ShiftSymbols(ShiftSymbols::Underscore))
    } else if chars_eq(n, "`+`") {
        Some(KeyKind::ShiftSymbols(ShiftSymbols::Plus))
    } else if chars_eq(n, "plus") {
        Some(KeyKind::ShiftSymbols(ShiftSymbols::Plus))
    } else if chars_eq(n, "`{{`") {
        Some(KeyKind::ShiftSymbols(ShiftSymbols::BraceLeft))
    } else if chars_eq(n, "braceleft") {
        Some(KeyKind::ShiftSymbols(ShiftSymbols::BraceLeft))
    } else if chars_eq(n, "`}}`") {
        Some(KeyKind::ShiftSymbols(ShiftSymbols::BraceRight))
    } else if chars_eq(n, "braceright") {
        Some(KeyKind::ShiftSymbols(ShiftSymbols::BraceRight))
    } else if chars_eq(n, "`|`") {
        Some(KeyKind::ShiftSymbols(ShiftSymbols::Pipe))
    } else if chars_eq(n, "pipe") {
        Some(KeyKind::ShiftSymbols(ShiftSymbols::Pipe))
    } else if chars_eq(n, "`:`") {
        Some(KeyKind::ShiftSymbols(ShiftSymbols::Colon))
    } else if chars_eq(n, "colon") {
        Some(KeyKind::ShiftSymbols(ShiftSymbols::Colon))
    } else if chars_eq(n, "`\"`") {
        Some(KeyKind::ShiftSymbols(ShiftSymbols::DoubleQuote))
    } else if chars_eq(n, "doublequote") {
        Some(KeyKind::ShiftSymbols(ShiftSymbols::DoubleQuote))
    } else if chars_eq(n, "`~`") {
        Some(KeyKind::ShiftSymbols(ShiftSymbols::Tilde))
    } else if chars_eq(n, "tilde") {
        Some(KeyKind::ShiftSymbols(ShiftSymbols::Tilde))
    } else if chars_eq(n, "`<`") {
        Some(KeyKind::ShiftSymbols(ShiftSymbols::LT))
    } else if chars_eq(n, "lt") {
        Some(KeyKind::ShiftSymbols(ShiftSymbols::LT))
    } else if chars_eq(n, "`>`") {
        Some(KeyKind::ShiftSymbols(ShiftSymbols::GT))
    } else if chars_eq(n, "gt") {
        Some(KeyKind::ShiftSymbols(ShiftSymbols::GT))
    } else if chars_eq(n, "`?`") {
        Some(KeyKind::ShiftSymbols(ShiftSymbols::QuestionMark))
    } else if chars_eq(n, "questionmark") {
        Some(KeyKind::ShiftSymbols(ShiftSymbols::QuestionMark))
    } else if chars_eq(n, "non-u.s.|") {
        Some(KeyKind::ShiftSymbols(ShiftSymbols::AltPipe))
    } else if chars_eq(n, "altpipe") {
        Some(KeyKind::ShiftSymbols(ShiftSymbols::AltPipe))
    } else {
        None
    }
}

/// The base key of this table a normalized name means.
pub open spec fn spec_parse_modifiers(n: Seq<char>) -> Option<KeyKind> {
    if n == "leftctrl"@ {
        Some(KeyKind::Modifiers(Modifiers::LeftCtrl, KeyExpansion::Plain))
    } else if n == "leftshift"@ {
        Some(KeyKind::Modifiers(Modifiers::LeftShift, KeyExpansion::Plain))
    } else if n == "leftshift"@ {
        Some(KeyKind::Modifiers(Modifiers::LeftAlt, KeyExpansion::Plain))
    } else if n == "leftalt"@ {
        Some(KeyKind::Modifiers(Modifiers::LeftAlt, KeyExpansion::Plain))
    } else if n == "leftos"@ {
        Some(KeyKind::Modifiers(Modifiers::LeftOs, KeyExpansion::Plain))
    } else if n == "rightctrl"@ {
        Some(KeyKind::Modifiers(Modifiers::RightCtrl, KeyExpansion::Plain))
    } else if n == "rightshift"@ {
        Some(KeyKind::Modifiers(Modifiers::RightShift, KeyExpansion::Plain))
    } else if n == "altgr"@ {
        Some(KeyKind::Modifiers(Modifiers::AltGr, KeyExpansion::Plain))
    } else if n == "rightos"@ {
        Some(KeyKind::Modifiers(Modifiers::RightOs, KeyExpansion::Plain))
    } else {
        None
    }
}

fn parse_modifiers(n: &Vec<char>) -> (r: Option<KeyKind>)
    ensures
        r == spec_parse_modifiers(n@),
{
    if chars_eq(n, "leftctrl") {
        Some(KeyKind::Modifiers(Modifiers::LeftCtrl, KeyExpansion::Plain))
    } else if chars_eq(n, "leftshift") {
        Some(KeyKind::Modifiers(Modifiers::LeftShift, KeyExpansion::Plain))
    } else if chars_eq(n, "leftshift") {
        Some(KeyKind::Modifiers(Modifiers::LeftAlt, KeyExpansion::Plain))
    } else if chars_eq(n, "leftalt") {
        Some(KeyKind::Modifiers(Modifiers::LeftAlt, KeyExpansion::Plain))
    } else if chars_eq(n, "leftos") {
        Some(KeyKind::Modifiers(Modifiers::LeftOs, KeyExpansion::Plain))
    } else if chars_eq(n, "rightctrl") {
        Some(KeyKind::Modifiers(Modifiers::RightCtrl, KeyExpansion::Plain))
    } else if chars_eq(n, "rightshift") {
        Some(KeyKind::Modifiers(Modifiers::RightShift, KeyExpansion::Plain))
    } else if chars_eq(n, "altgr") {
        Some(KeyKind::Modifiers(Modifiers::AltGr, KeyExpansion::Plain))
    } else if chars_eq(n, "rightos") {
        Some(KeyKind::Modifiers(Modifiers::RightOs, KeyExpansion::Plain))
    } else {
        None
    }
}

/// The base key of this table a normalized name means.
pub open spec fn spec_parse_media(n: Seq<char>) -> Option<KeyKind> {
    if n == "mute"@ {
        Some(KeyKind::Media(Media::Mute))
    } else if n == "nexttrack"@ {
        Some(KeyKind::Media(Media::NextTrack))
    } else if n == "previoustrack"@ {
        Some(KeyKind::Media(Media::PreviousTrack))
    } else if n == "stop"@ {
        Some(KeyKind::Media(Media::Stop))
    } else if n == "play/pause"@ {
        Some(KeyKind::Media(Media::PlayPause))
    } else if n == "playpause"@ {
        Some(KeyKind::Media(Media::PlayPause))
    } else if n == "volumeup"@ {
        Some(KeyKind::Media(Media::VolumeUp))
    } else if n == "volumedown"@ {
        Some(KeyKind::Media(Media::VolumeDown))
    } else if n == "eject"@ {
        Some(KeyKind::Media(Media::Eject))
    } else if n == "camera"@ {
        Some(KeyKind::Media(Media::Camera))
    } else if n == "brightnessup"@ {
        Some(KeyKind::Media(Media::BrightnessUp))
    } else if n == "brightnessdown"@ {
        Some(KeyKind::Media(Media::BrightnessDown))
    } else if n == "calculator"@ {
        Some(KeyKind::Media(Media::Calculator))
    } else if n == "shuffle"@ {
        Some(KeyKind::Media(Media::Shuffle))
    } else {
        None
    }
}

fn parse_media(n: &Vec<char>) -> (r: Option<KeyKind>)
    ensures
        r == spec_parse_media(n@),
{
    if chars_eq(n, "mute") {
        Some(KeyKind::Media(Media::Mute))
    } else if chars_eq(n, "nexttrack") {
        Some(KeyKind::Media(Media::NextTrack))
    } else if chars_eq(n, "previoustrack") {
        Some(KeyKind::Media(Media::PreviousTrack))
    } else if chars_eq(n, "stop") {
        Some(KeyKind::Media(Media::Stop))
    } else if chars_eq(n, "play/pause") {
        Some(KeyKind::Media(Media::PlayPause))
    } else if chars_eq(n, "playpause") {
        Some(KeyKind::Media(Media::PlayPause))
    } else if chars_eq(n, "volumeup") {
        Some(KeyKind::Media(Media::VolumeUp))
    } else if chars_eq(n, "volumedown") {
        Some(KeyKind::Media(Media::VolumeDown))
    } else if chars_eq(n, "eject") {
        Some(KeyKind::Media(Media::Eject))
    } else if chars_eq(n, "camera") {
        Some(KeyKind::Media(Media::Camera))
    } else if chars_eq(n, "brightnessup") {
        Some(KeyKind::Media(Media::BrightnessUp))
    } else if chars_eq(n, "brightnessdown") {
        Some(KeyKind::Media(Media::BrightnessDown))
    } else if chars_eq(n, "calculator") {
        Some(KeyKind::Media(Media::Calculator))
    } else if chars_eq(n, "shuffle") {
        Some(KeyKind::Media(Media::Shuffle))
    } else {
        None
    }
}

/// The base key of this table a normalized name means.
pub open spec fn spec_parse_navigation(n: Seq<char>) -> Option<KeyKind> {
    if n == "home"@ {
        Some(KeyKind::Navigation(Navigation::Home, KeyExpansion::Plain))
    } else if n == "pageup"@ {
        Some(KeyKind::Navigation(Navigation::PageUp, KeyExpansion::Plain))
    } else if n == "end"@ {
        Some(KeyKind::Navigation(Navigation::End, KeyExpansion::Plain))
    } else if n == "pagedown"@ {
        Some(KeyKind::Navigation(Navigation::PageDown, KeyExpansion::Plain))
    } else if n == "rightarrow"@ {
        Some(KeyKind::Navigation(Navigation::ArrowRight, KeyExpansion::Plain))
    } else if n == "arrowright"@ {
        Some(KeyKind::Navigation(Navigation::ArrowRight, KeyExpansion::Plain))
    } else if n == "leftarrow"@ {
        Some(KeyKind::Navigation(Navigation::ArrowLeft, KeyExpansion::Plain))
    } else if n == "arrowleft"@ {
        Some(KeyKind::Navigation(Navigation::ArrowLeft, KeyExpansion::Plain))
    } else if n == "downarrow"@ {
        Some(KeyKind::Navigation(Navigation::ArrowDown, KeyExpansion::Plain))
    } else if n == "arrowdown"@ {
        Some(KeyKind::Navigation(Navigation::ArrowDown, KeyExpansion::Plain))
    } else if n == "uparrow"@ {
        Some(KeyKind::Navigation(Navigation::ArrowUp, KeyExpansion::Plain))
    } else if n == "arrowup"@ {
        Some(KeyKind::Navigation(Navigation::ArrowUp, KeyExpansion::Plain))
    } else if n == "menu"@ {
        Some(KeyKind::Navigation(Navigation::Menu, KeyExpansion::Plain))
    } else {
        None
    }
}

fn parse_navigation(n: &Vec<char>) -> (r: Option<KeyKind>)
    ensures
        r == spec_parse_navigation(n@),
{
    if chars_eq(n, "home") {
        Some(KeyKind::Navigation(Navigation::Home, KeyExpansion::Plain))
    } else if chars_eq(n, "pageup") {
        Some(KeyKind::Navigation(Navigation::PageUp, KeyExpansion::Plain))
    } else if chars_eq(n, "end") {
        Some(KeyKind::Navigation(Navigation::End, KeyExpansion::Plain))
    } else if chars_eq(n, "pagedown") {
        Some(KeyKind::Navigation(Navigation::PageDown, KeyExpansion::Plain))
    } else if chars_eq(n, "rightarrow") {
        Some(KeyKind::Navigation(Navigation::ArrowRight, KeyExpansion::Plain))
    } else if chars_eq(n, "arrowright") {
        Some(KeyKind::Navigation(Navigation::ArrowRight, KeyExpansion::Plain))
    } else if chars_eq(n, "leftarrow") {
        Some(KeyKind::Navigation(Navigation::ArrowLeft, KeyExpansion::Plain))
    } else if chars_eq(n, "arrowleft") {
        Some(KeyKind::Navigation(Navigation::ArrowLeft, KeyExpansion::Plain))
    } else if chars_eq(n, "downarrow") {
        Some(KeyKind::Navigation(Navigation::ArrowDown, KeyExpansion::Plain))
    } else if chars_eq(n, "arrowdown") {
        Some(KeyKind::Navigation(Navigation::ArrowDown, KeyExpansion::Plain))
    } else if chars_eq(n, "uparrow") {
        Some(KeyKind::Navigation(Navigation::ArrowUp, KeyExpansion::Plain))
    } else if chars_eq(n, "arrowup") {
        Some(KeyKind::Navigation(Navigation::ArrowUp, KeyExpansion::Plain))
    } else if chars_eq(n, "menu") {
        Some(KeyKind::Navigation(Navigation::Menu, KeyExpansion::Plain))
    } else {
        None
    }
}

/// The base key of this table a normalized name means.
pub open spec fn spec_parse_mouse_movement(n: Seq<char>) -> Option<KeyKind> {
    if n == "mouseup"@ {
        Some(KeyKind::MouseMovement(MouseMovement::MouseUp))
    } else if n == "mousedown"@ {
        Some(KeyKind::MouseMovement(MouseMovement::MouseDown))
    } else if n == "mouseleft"@ {
        Some(KeyKind::MouseMovement(MouseMovement::MouseLeft))
    } else if n == "mouseright"@ {
        Some(KeyKind::MouseMovement(MouseMovement::MouseRight))
    } else {
        None
    }
}

fn parse_mouse_movement(n: &Vec<char>) -> (r: Option<KeyKind>)
    ensures
        r == spec_parse_mouse_movement(n@),
{
    if chars_eq(n, "mouseup") {
        Some(KeyKind::MouseMovement(MouseMovement::MouseUp))
    } else if chars_eq(n, "mousedown") {
        Some(KeyKind::MouseMovement(MouseMovement::MouseDown))
    } else if chars_eq(n, "mouseleft") {
        Some(KeyKind::MouseMovement(MouseMovement::MouseLeft))
    } else if chars_eq(n, "mouseright") {
        Some(KeyKind::MouseMovement(MouseMovement::MouseRight))
    } else {
        None
    }
}

/// The base key of this table a normalized name means.
pub open spec fn spec_parse_mouse_wheele(n: Seq<char>) -> Option<KeyKind> {
    if n == "mousewheeleup"@ {
        Some(KeyKind::MouseWheele(MouseWheele::WheelUp))
    } else if n == "wheelup"@ {
        Some(KeyKind::MouseWheele(MouseWheele::WheelUp))
    } else if n == "mousewheeldown"@ {
        Some(KeyKind::MouseWheele(MouseWheele::WheelDown))
    } else if n == "wheeldown"@ {
        Some(KeyKind::MouseWheele(MouseWheele::WheelDown))
    } else if n == "mousewheelleft"@ {
        Some(KeyKind::MouseWheele(MouseWheele::WheelLeft))
    } else if n == "wheelleft"@ {
        Some(KeyKind::MouseWheele(MouseWheele::WheelLeft))
    } else if n == "mousewheeleright"@ {
        Some(KeyKind::MouseWheele(MouseWheele::WheelRight))
    } else if n == "wheelright"@ {
        Some(KeyKind::MouseWheele(MouseWheele::WheelRight))
    } else {
        None
    }
}

fn parse_mouse_wheele(n: &Vec<char>) -> (r: Option<KeyKind>)
    ensures
        r == spec_parse_mouse_wheele(n@),
{
    if chars_eq(n, "mousewheeleup") {
        Some(KeyKind::MouseWheele(MouseWheele::WheelUp))
    } else if chars_eq(n, "wheelup") {
        Some(KeyKind::MouseWheele(MouseWheele::WheelUp))
    } else if chars_eq(n, "mousewheeldown") {
        Some(KeyKind::MouseWheele(MouseWheele::WheelDown))
    } else if chars_eq(n, "wheeldown") {
        Some(KeyKind::MouseWheele(MouseWheele::WheelDown))
    } else if chars_eq(n, "mousewheelleft") {
        Some(KeyKind::MouseWheele(MouseWheele::WheelLeft))
    } else if chars_eq(n, "wheelleft") {
        Some(KeyKind::MouseWheele(MouseWheele::WheelLeft))
    } else if chars_eq(n, "mousewheeleright") {
        Some(KeyKind::MouseWheele(MouseWheele::WheelRight))
    } else if chars_eq(n, "wheelright") {
        Some(KeyKind::MouseWheele(MouseWheele::WheelRight))
    } else {
        None
    }
}

/// The base key of this table a normalized name means.
pub open spec fn spec_parse_mouse_buttons(n: Seq<char>) -> Option<KeyKind> {
    if n == "mousebuttonleft"@ {
        Some(KeyKind::MouseButtons(MouseButtons::Left))
    } else if n == "left"@ {
        Some(KeyKind::MouseButtons(MouseButtons::Left))
    } else if n == "mousebuttonright"@ {
        Some(KeyKind::MouseButtons(MouseButtons::Right))
    } else if n == "right"@ {
        Some(KeyKind::MouseButtons(MouseButtons::Right))
    } else if n == "mousebuttonmiddle"@ {
        Some(KeyKind::MouseButtons(MouseButtons::Middle))
    } else if n == "middle"@ {
        Some(KeyKind::MouseButtons(MouseButtons::Middle))
    } else if n == "mousebuttonback"@ {
        Some(KeyKind::MouseButtons(MouseButtons::Back))
    } else if n == "back"@ {
        Some(KeyKind::MouseButtons(MouseButtons::Back))
    } else if n == "mousebuttonforward"@ {
        Some(KeyKind::MouseButtons(MouseButtons::Forward))
    } else if n == "forward"@ {
        Some(KeyKind::MouseButtons(MouseButtons::Forward))
    } else {
        None
    }
}

fn parse_mouse_buttons(n: &Vec<char>) -> (r: Option<KeyKind>)
    ensures
        r == spec_parse_mouse_buttons(n@),
{
    if chars_eq(n, "mousebuttonleft") {
        Some(KeyKind::MouseButtons(MouseButtons::Left))
    } else if chars_eq(n, "left") {
        Some(KeyKind::MouseButtons(MouseButtons::Left))
    } else if chars_eq(n, "mousebuttonright") {
        Some(KeyKind::MouseButtons(MouseButtons::Right))
    } else if chars_eq(n, "right") {
        Some(KeyKind::MouseButtons(MouseButtons::Right))
    } else if chars_eq(n, "mousebuttonmiddle") {
        Some(KeyKind::MouseButtons(MouseButtons::Middle))
    } else if chars_eq(n, "middle") {
        Some(KeyKind::MouseButtons(MouseButtons::Middle))
    } else if chars_eq(n, "mousebuttonback") {
        Some(KeyKind::MouseButtons(MouseButtons::Back))
    } else if chars_eq(n, "back") {
        Some(KeyKind::MouseButtons(MouseButtons::Back))
    } else if chars_eq(n, "mousebuttonforward") {
        Some(KeyKind::MouseButtons(MouseButtons::Forward))
    } else if chars_eq(n, "forward") {
        Some(KeyKind::MouseButtons(MouseButtons::Forward))
    } else {
        None
    }
}

/// The base key of this table a normalized name means.
pub open spec fn spec_parse_mouse_warp(n: Seq<char>) -> Option<KeyKind> {
    if n == "mousewarpend"@ {
        Some(KeyKind::MouseWarp(MouseWarp::End))
    } else if n == "end"@ {
        Some(KeyKind::MouseWarp(MouseWarp::End))
    } else if n == "mousewarpnw"@ {
        Some(KeyKind::MouseWarp(MouseWarp::NW))
    } else if n == "nw"@ {
        Some(KeyKind::MouseWarp(MouseWarp::NW))
    } else if n == "mousewarpsw"@ {
        Some(KeyKind::MouseWarp(MouseWarp::SW))
    } else if n == "sw"@ {
        Some(KeyKind::MouseWarp(MouseWarp::SW))
    } else if n == "mousewarpne"@ {
        Some(KeyKind::MouseWarp(MouseWarp::NE))
    } else if n == "ne"@ {
        Some(KeyKind::MouseWarp(MouseWarp::NE))
    } else if n == "mousewarpse"@ {
        Some(KeyKind::MouseWarp(MouseWarp::SE))
    } else if n == "se"@ {
        Some(KeyKind::MouseWarp(MouseWarp::SE))
    } else {
        None
    }
}

fn parse_mouse_warp(n: &Vec<char>) -> (r: Option<KeyKind>)
    ensures
        r == spec_parse_mouse_warp(n@),
{
    if chars_eq(n, "mousewarpend") {
        Some(KeyKind::MouseWarp(MouseWarp::End))
    } else if chars_eq(n, "end") {
        Some(KeyKind::MouseWarp(MouseWarp::End))
    } else if chars_eq(n, "mousewarpnw") {
        Some(KeyKind::MouseWarp(MouseWarp::NW))
    } else if chars_eq(n, "nw") {
        Some(KeyKind::MouseWarp(MouseWarp::NW))
    } else if chars_eq(n, "mousewarpsw") {
        Some(KeyKind::MouseWarp(MouseWarp::SW))
    } else if chars_eq(n, "sw") {
        Some(KeyKind::MouseWarp(MouseWarp::SW))
    } else if chars_eq(n, "mousewarpne") {
        Some(KeyKind::MouseWarp(MouseWarp::NE))
    } else if chars_eq(n, "ne") {
        Some(KeyKind::MouseWarp(MouseWarp::NE))
    } else if chars_eq(n, "mousewarpse") {
        Some(KeyKind::MouseWarp(MouseWarp::SE))
    } else if chars_eq(n, "se") {
        Some(KeyKind::MouseWarp(MouseWarp::SE))
    } else {
        None
    }
}

/// The base key of this table a normalized name means.
pub open spec fn spec_parse_led_effects(n: Seq<char>) -> Option<KeyKind> {
    if n == "nextledeffect"@ {
        Some(KeyKind::LedEffects(LedEffects::Next))
    } else if n == "next"@ {
        Some(KeyKind::LedEffects(LedEffects::Next))
    } else if n == "previousledeffect"@ {
        Some(KeyKind::LedEffects(LedEffects::Previous))
    } else if n == "previous"@ {
        Some(KeyKind::LedEffects(LedEffects::Previous))
    } else if n == "toggleledeffect"@ {
        Some(KeyKind::LedEffects(LedEffects::Toggle))
    } else if n == "toggle"@ {
        Some(KeyKind::LedEffects(LedEffects::Toggle))
    } else {
        None
    }
}

fn parse_led_effects(n: &Vec<char>) -> (r: Option<KeyKind>)
    ensures
        r == spec_parse_led_effects(n@),
{
    if chars_eq(n, "nextledeffect") {
        Some(KeyKind::LedEffects(LedEffects::Next))
    } else if chars_eq(n, "next") {
        Some(KeyKind::LedEffects(LedEffects::Next))
    } else if chars_eq(n, "previousledeffect") {
        Some(KeyKind::LedEffects(LedEffects::Previous))
    } else if chars_eq(n, "previous") {
        Some(KeyKind::LedEffects(LedEffects::Previous))
    } else if chars_eq(n, "toggleledeffect") {
        Some(KeyKind::LedEffects(LedEffects::Toggle))
    } else if chars_eq(n, "toggle") {
        Some(KeyKind::LedEffects(LedEffects::Toggle))
    } else {
        None
    }
}

/// The base key of this table a normalized name means.
pub open spec fn spec_parse_battery(n: Seq<char>) -> Option<KeyKind> {
    if n == "batterystatus"@ {
        Some(KeyKind::Battery(Battery::Status))
    } else if n == "status"@ {
        Some(KeyKind::Battery(Battery::Status))
    } else {
        None
    }
}

fn parse_battery(n: &Vec<char>) -> (r: Option<KeyKind>)
    ensures
        r == spec_parse_battery(n@),
{
    if chars_eq(n, "batterystatus") {
        Some(KeyKind::Battery(Battery::Status))
    } else if chars_eq(n, "status") {
        Some(KeyKind::Battery(Battery::Status))
    } else {
        None
    }
}

/// The base key of this table a normalized name means.
pub open spec fn spec_parse_bluetooth(n: Seq<char>) -> Option<KeyKind> {
    if n == "bluetoothpairing"@ {
        Some(KeyKind::Bluetooth(Bluetooth::Pair))
    } else if n == "pair"@ {
        Some(KeyKind::Bluetooth(Bluetooth::Pair))
    } else {
        None
    }
}

fn parse_bluetooth(n: &Vec<char>) -> (r: Option<KeyKind>)
    ensures
        r == spec_parse_bluetooth(n@),
{
    if chars_eq(n, "bluetoothpairing") {
        Some(KeyKind::Bluetooth(Bluetooth::Pair))
    } else if chars_eq(n, "pair") {
        Some(KeyKind::Bluetooth(Bluetooth::Pair))
    } else {
        None
    }
}

/// The base key of this table a normalized name means.
pub open spec fn spec_parse_energy(n: Seq<char>) -> Option<KeyKind> {
    if n == "energystatus"@ {
        Some(KeyKind::Energy(Energy::Status))
    } else if n == "status"@ {
        Some(KeyKind::Energy(Energy::Status))
    } else {
        None
    }
}

fn parse_energy(n: &Vec<char>) -> (r: Option<KeyKind>)
    ensures
        r == spec_parse_energy(n@),
{
    if chars_eq(n, "energystatus") {
        Some(KeyKind::Energy(Energy::Status))
    } else if chars_eq(n, "status") {
        Some(KeyKind::Energy(Energy::Status))
    } else {
        None
    }
}

/// The base key of this table a normalized name means.
pub open spec fn spec_parse_rf(n: Seq<char>) -> Option<KeyKind> {
    if n == "wirelessrfstatus"@ {
        Some(KeyKind::Rf(Rf::Status))
    } else if n == "status"@ {
        Some(KeyKind::Rf(Rf::Status))
    } else {
        None
    }
}

fn parse_rf(n: &Vec<char>) -> (r: Option<KeyKind>)
    ensures
        r == spec_parse_rf(n@),
{
    if chars_eq(n, "wirelessrfstatus") {
        Some(KeyKind::Rf(Rf::Status))
    } else if chars_eq(n, "status") {
        Some(KeyKind::Rf(Rf::Status))
    } else {
        None
    }
}

/// The base key of this table a normalized name means.
pub open spec fn spec_parse_layer_lock(n: Seq<char>) -> Option<KeyKind> {
    if n == "layer1lock"@ {
        Some(KeyKind::LayerLock(LayerLock::Layer1))
    } else if n == "layer1"@ {
        Some(KeyKind::LayerLock(LayerLock::Layer1))
    } else if n == "layer2lock"@ {
        Some(KeyKind::LayerLock(LayerLock::Layer2))
    } else if n == "layer2"@ {
        Some(KeyKind::LayerLock(LayerLock::Layer2))
    } else if n == "layer3lock"@ {
        Some(KeyKind::LayerLock(LayerLock::Layer3))
    } else if n == "layer3"@ {
        Some(KeyKind::LayerLock(LayerLock::Layer3))
    } else if n == "layer4lock"@ {
        Some(KeyKind::LayerLock(LayerLock::Layer4))
    } else if n == "layer4"@ {
        Some(KeyKind::LayerLock(LayerLock::Layer4))
    } else if n == "layer5lock"@ {
        Some(KeyKind::LayerLock(LayerLock::Layer5))
    } else if n == "layer5"@ {
        Some(KeyKind::LayerLock(LayerLock::Layer5))
    } else if n == "layer6lock"@ {
        Some(KeyKind::LayerLock(LayerLock::Layer6))
    } else if n == "layer6"@ {
        Some(KeyKind::LayerLock(LayerLock::Layer6))
    } else if n == "layer7lock"@ {
        Some(KeyKind::LayerLock(LayerLock::Layer7))
    } else if n == "layer7"@ {
        Some(KeyKind::LayerLock(LayerLock::Layer7))
    } else if n == "layer8lock"@ {
        Some(KeyKind::LayerLock(LayerLock::Layer8))
    } else if n == "layer8"@ {
        Some(KeyKind::LayerLock(LayerLock::Layer8))
    } else if n == "layer9lock"@ {
        Some(KeyKind::LayerLock(LayerLock::Layer9))
    } else if n == "layer9"@ {
        Some(KeyKind::LayerLock(LayerLock::Layer9))
    } else if n == "layer10lock"@ {
        Some(KeyKind::LayerLock(LayerLock::Layer10))
    } else if n == "layer10"@ {
        Some(KeyKind::LayerLock(LayerLock::Layer10))
    } else {
        None
    }
}

fn parse_layer_lock(n: &Vec<char>) -> (r: Option<KeyKind>)
    ensures
        r == spec_parse_layer_lock(n@),
{
    if chars_eq(n, "layer1lock") {
        Some(KeyKind::LayerLock(LayerLock::Layer1))
    } else if chars_eq(n, "layer1") {
        Some(KeyKind::LayerLock(LayerLock::Layer1))
    } else if chars_eq(n, "layer2lock") {
        Some(KeyKind::LayerLock(LayerLock::Layer2))
    } else if chars_eq(n, "layer2") {
        Some(KeyKind::LayerLock(LayerLock::Layer2))
    } else if chars_eq(n, "layer3lock") {
        Some(KeyKind::LayerLock(LayerLock::Layer3))
    } else if chars_eq(n, "layer3") {
        Some(KeyKind::LayerLock(LayerLock::Layer3))
    } else if chars_eq(n, "layer4lock") {
        Some(KeyKind::LayerLock(LayerLock::Layer4))
    } else if chars_eq(n, "layer4") {
        Some(KeyKind::LayerLock(LayerLock::Layer4))
    } else if chars_eq(n, "layer5lock") {
        Some(KeyKind::LayerLock(LayerLock::Layer5))
    } else if chars_eq(n, "layer5") {
        Some(KeyKind::LayerLock(LayerLock::Layer5))
    } else if chars_eq(n, "layer6lock") {
        Some(KeyKind::LayerLock(LayerLock::Layer6))
    } else if chars_eq(n, "layer6") {
        Some(KeyKind::LayerLock(LayerLock::Layer6))
    } else if chars_eq(n, "layer7lock") {
        Some(KeyKind::LayerLock(LayerLock::Layer7))
    } else if chars_eq(n, "layer7") {
        Some(KeyKind::LayerLock(LayerLock::Layer7))
    } else if chars_eq(n, "layer8lock") {
        Some(KeyKind::LayerLock(LayerLock::Layer8))
    } else if chars_eq(n, "layer8") {
        Some(KeyKind::LayerLock(LayerLock::Layer8))
    } else if chars_eq(n, "layer9lock") {
        Some(KeyKind::LayerLock(LayerLock::Layer9))
    } else if chars_eq(n, "layer9") {
        Some(KeyKind::LayerLock(LayerLock::Layer9))
    } else if chars_eq(n, "layer10lock") {
        Some(KeyKind::LayerLock(LayerLock::Layer10))
    } else if chars_eq(n, "layer10") {
        Some(KeyKind::LayerLock(LayerLock::Layer10))
    } else {
        None
    }
}

/// The base key of this table a normalized name means.
pub open spec fn spec_parse_layer_shift(n: Seq<char>) -> Option<KeyKind> {
    if n == "layer1shift"@ {
        Some(KeyKind::LayerShift(LayerShift::Layer1))
    } else if n == "layer1"@ {
        Some(KeyKind::LayerShift(LayerShift::Layer1))
    } else if n == "layer2shift"@ {
        Some(KeyKind::LayerShift(LayerShift::Layer2))
    } else if n == "layer2"@ {
        Some(KeyKind::LayerShift(LayerShift::Layer2))
    } else if n == "layer3shift"@ {
        Some(KeyKind::LayerShift(LayerShift::Layer3))
    } else if n == "layer3"@ {
        Some(KeyKind::LayerShift(LayerShift::Layer3))
    } else if n == "layer4shift"@ {
        Some(KeyKind::LayerShift(LayerShift::Layer4))
    } else if n == "layer4"@ {
        Some(KeyKind::LayerShift(LayerShift::Layer4))
    } else if n == "layer5shift"@ {
        Some(KeyKind::LayerShift(LayerShift::Layer5))
    } else if n == "layer5"@ {
        Some(KeyKind::LayerShift(LayerShift::Layer5))
    } else if n == "layer6shift"@ {
        Some(KeyKind::LayerShift(LayerShift::Layer6))
    } else if n == "layer6"@ {
        Some(KeyKind::LayerShift(LayerShift::Layer6))
    } else if n == "layer7shift"@ {
        Some(KeyKind::LayerShift(LayerShift::Layer7))
    } else if n == "layer7"@ {
        Some(KeyKind::LayerShift(LayerShift::Layer7))
    } else if n == "layer8shift"@ {
        Some(KeyKind::LayerShift(LayerShift::Layer8))
    } else if n == "layer8"@ {
        Some(KeyKind::LayerShift(LayerShift::Layer8))
    } else if n == "layer9shift"@ {
        Some(KeyKind::LayerShift(LayerShift::Layer9))
    } else if n == "layer9"@ {
        Some(KeyKind::LayerShift(LayerShift::Layer9))
    } else if n == "layer10shift"@ {
        Some(KeyKind::LayerShift(LayerShift::Layer10))
    } else if n == "layer10"@ {
        Some(KeyKind::LayerShift(LayerShift::Layer10))
    } else {
        None
    }
}

fn parse_layer_shift(n: &Vec<char>) -> (r: Option<KeyKind>)
    ensures
        r == spec_parse_layer_shift(n@),
{
    if chars_eq(n, "layer1shift") {
        Some(KeyKind::LayerShift(LayerShift::Layer1))
    } else if chars_eq(n, "layer1") {
        Some(KeyKind::LayerShift(LayerShift::Layer1))
    } else if chars_eq(n, "layer2shift") {
        Some(KeyKind::LayerShift(LayerShift::Layer2))
    } else if chars_eq(n, "layer2") {
        Some(KeyKind::LayerShift(LayerShift::Layer2))
    } else if chars_eq(n, "layer3shift") {
        Some(KeyKind::LayerShift(LayerShift::Layer3))
    } else if chars_eq(n, "layer3") {
        Some(KeyKind::LayerShift(LayerShift::Layer3))
    } else if chars_eq(n, "layer4shift") {
        Some(KeyKind::LayerShift(LayerShift::Layer4))
    } else if chars_eq(n, "layer4") {
        Some(KeyKind::LayerShift(LayerShift::Layer4))
    } else if chars_eq(n, "layer5shift") {
        Some(KeyKind::LayerShift(LayerShift::Layer5))
    } else if chars_eq(n, "layer5") {
        Some(KeyKind::LayerShift(LayerShift::Layer5))
    } else if chars_eq(n, "layer6shift") {
        Some(KeyKind::LayerShift(LayerShift::Layer6))
    } else if chars_eq(n, "layer6") {
        Some(KeyKind::LayerShift(LayerShift::Layer6))
    } else if chars_eq(n, "layer7shift") {
        Some(KeyKind::LayerShift(LayerShift::Layer7))
    } else if chars_eq(n, "layer7") {
        Some(KeyKind::LayerShift(LayerShift::Layer7))
    } else if chars_eq(n, "layer8shift") {
        Some(KeyKind::LayerShift(LayerShift::Layer8))
    } else if chars_eq(n, "layer8") {
        Some(KeyKind::LayerShift(LayerShift::Layer8))
    } else if chars_eq(n, "layer9shift") {
        Some(KeyKind::LayerShift(LayerShift::Layer9))
    } else if chars_eq(n, "layer9") {
        Some(KeyKind::LayerShift(LayerShift::Layer9))
    } else if chars_eq(n, "layer10shift") {
        Some(KeyKind::LayerShift(LayerShift::Layer10))
    } else if chars_eq(n, "layer10") {
        Some(KeyKind::LayerShift(LayerShift::Layer10))
    } else {
        None
    }
}

/// The base key of this table a normalized name means.
pub open spec fn spec_parse_layer_move(n: Seq<char>) -> Option<KeyKind> {
    if n == "layer1move"@ {
        Some(KeyKind::LayerMove(LayerMove::Layer1))
    } else if n == "layer1"@ {
        Some(KeyKind::LayerMove(LayerMove::Layer1))
    } else if n == "layer2move"@ {
        Some(KeyKind::LayerMove(LayerMove::Layer2))
    } else if n == "layer2"@ {
        Some(KeyKind::LayerMove(LayerMove::Layer2))
    } else if n == "layer3move"@ {
        Some(KeyKind::LayerMove(LayerMove::Layer3))
    } else if n == "layer3"@ {
        Some(KeyKind::LayerMove(LayerMove::Layer3))
    } else if n == "layer4move"@ {
        Some(KeyKind::LayerMove(LayerMove::Layer4))
    } else if n == "layer4"@ {
        Some(KeyKind::LayerMove(LayerMove::Layer4))
    } else if n == "layer5move"@ {
        Some(KeyKind::LayerMove(LayerMove::Layer5))
    } else if n == "layer5"@ {
        Some(KeyKind::LayerMove(LayerMove::Layer5))
    } else if n == "layer6move"@ {
        Some(KeyKind::LayerMove(LayerMove::Layer6))
    } else if n == "layer6"@ {
        Some(KeyKind::LayerMove(LayerMove::Layer6))
    } else if n == "layer7move"@ {
        Some(KeyKind::LayerMove(LayerMove::Layer7))
    } else if n == "layer7"@ {
        Some(KeyKind::LayerMove(LayerMove::Layer7))
    } else if n == "layer8move"@ {
        Some(KeyKind::LayerMove(LayerMove::Layer8))
    } else if n == "layer8"@ {
        Some(KeyKind::LayerMove(LayerMove::Layer8))
    } else if n == "layer9move"@ {
        Some(KeyKind::LayerMove(LayerMove::Layer9))
    } else if n == "layer9"@ {
        Some(KeyKind::LayerMove(LayerMove::Layer9))
    } else if n == "layer10move"@ {
        Some(KeyKind::LayerMove(LayerMove::Layer10))
    } else if n == "layer10"@ {
        Some(KeyKind::LayerMove(LayerMove::Layer10))
    } else {
        None
    }
}

fn parse_layer_move(n: &Vec<char>) -> (r: Option<KeyKind>)
    ensures
        r == spec_parse_layer_move(n@),
{
    if chars_eq(n, "layer1move") {
        Some(KeyKind::LayerMove(LayerMove::Layer1))
    } else if chars_eq(n, "layer1") {
        Some(KeyKind::LayerMove(LayerMove::Layer1))
    } else if chars_eq(n, "layer2move") {
        Some(KeyKind::LayerMove(LayerMove::Layer2))
    } else if chars_eq(n, "layer2") {
        Some(KeyKind::LayerMove(LayerMove::Layer2))
    } else if chars_eq(n, "layer3move") {
        Some(KeyKind::LayerMove(LayerMove::Layer3))
    } else if chars_eq(n, "layer3") {
        Some(KeyKind::LayerMove(LayerMove::Layer3))
    } else if chars_eq(n, "layer4move") {
        Some(KeyKind::LayerMove(LayerMove::Layer4))
    } else if chars_eq(n, "layer4") {
        Some(KeyKind::LayerMove(LayerMove::Layer4))
    } else if chars_eq(n, "layer5move") {
        Some(KeyKind::LayerMove(LayerMove::Layer5))
    } else if chars_eq(n, "layer5") {
        Some(KeyKind::LayerMove(LayerMove::Layer5))
    } else if chars_eq(n, "layer6move") {
        Some(KeyKind::LayerMove(LayerMove::Layer6))
    } else if chars_eq(n, "layer6") {
        Some(KeyKind::LayerMove(LayerMove::Layer6))
    } else if chars_eq(n, "layer7move") {
        Some(KeyKind::LayerMove(LayerMove::Layer7))
    } else if chars_eq(n, "layer7") {
        Some(KeyKind::LayerMove(LayerMove::Layer7))
    } else if chars_eq(n, "layer8move") {
        Some(KeyKind::LayerMove(LayerMove::Layer8))
    } else if chars_eq(n, "layer8") {
        Some(KeyKind::LayerMove(LayerMove::Layer8))
    } else if chars_eq(n, "layer9move") {
        Some(KeyKind::LayerMove(LayerMove::Layer9))
    } else if chars_eq(n, "layer9") {
        Some(KeyKind::LayerMove(LayerMove::Layer9))
    } else if chars_eq(n, "layer10move") {
        Some(KeyKind::LayerMove(LayerMove::Layer10))
    } else if chars_eq(n, "layer10") {
        Some(KeyKind::LayerMove(LayerMove::Layer10))
    } else {
        None
    }
}

/// The base key of this table a normalized name means.
pub open spec fn spec_parse_miscellaneous(n: Seq<char>) -> Option<KeyKind> {
    if n == "printscreen"@ {
        Some(KeyKind::Miscellaneous(Miscellaneous::PrintScreen, KeyExpansion::Plain))
    } else if n == "scrolllock"@ {
        Some(KeyKind::Miscellaneous(Miscellaneous::ScrollLock, KeyExpansion::Plain))
    } else if n == "pause"@ {
        Some(KeyKind::Miscellaneous(Miscellaneous::Pause, KeyExpansion::Plain))
    } else if n == "shutdown"@ {
        Some(KeyKind::Miscellaneous(Miscellaneous::Shutdown, KeyExpansion::Plain))
    } else if n == "sleep"@ {
        Some(KeyKind::Miscellaneous(Miscellaneous::Sleep, KeyExpansion::Plain))
    } else {
        None
    }
}

fn parse_miscellaneous(n: &Vec<char>) -> (r: Option<KeyKind>)
    ensures
        r == spec_parse_miscellaneous(n@),
{
    if chars_eq(n, "printscreen") {
        Some(KeyKind::Miscellaneous(Miscellaneous::PrintScreen, KeyExpansion::Plain))
    } else if chars_eq(n, "scrolllock") {
        Some(KeyKind::Miscellaneous(Miscellaneous::ScrollLock, KeyExpansion::Plain))
    } else if chars_eq(n, "pause") {
        Some(KeyKind::Miscellaneous(Miscellaneous::Pause, KeyExpansion::Plain))
    } else if chars_eq(n, "shutdown") {
        Some(KeyKind::Miscellaneous(Miscellaneous::Shutdown, KeyExpansion::Plain))
    } else if chars_eq(n, "sleep") {
        Some(KeyKind::Miscellaneous(Miscellaneous::Sleep, KeyExpansion::Plain))
    } else {
        None
    }
}

/// The base key of this table a normalized name means.
pub open spec fn spec_parse_oneshot(n: Seq<char>) -> Option<KeyKind> {
    if n == "oneshotlayer1"@ {
        Some(KeyKind::Oneshot(Oneshot::Layer1))
    } else if n == "layer1"@ {
        Some(KeyKind::Oneshot(Oneshot::Layer1))
    } else if n == "oneshotlayer2"@ {
        Some(KeyKind::Oneshot(Oneshot::Layer2))
    } else if n == "layer2"@ {
        Some(KeyKind::Oneshot(Oneshot::Layer2))
    } else if n == "oneshotlayer3"@ {
        Some(KeyKind::Oneshot(Oneshot::Layer3))
    } else if n == "layer3"@ {
        Some(KeyKind::Oneshot(Oneshot::Layer3))
    } else if n == "oneshotlayer4"@ {
        Some(KeyKind::Oneshot(Oneshot::Layer4))
    } else if n == "layer4"@ {
        Some(KeyKind::Oneshot(Oneshot::Layer4))
    } else if n == "oneshotlayer5"@ {
        Some(KeyKind::Oneshot(Oneshot::Layer5))
    } else if n == "layer5"@ {
        Some(KeyKind::Oneshot(Oneshot::Layer5))
    } else if n == "oneshotlayer6"@ {
        Some(KeyKind::Oneshot(Oneshot::Layer6))
    } else if n == "layer6"@ {
        Some(KeyKind::Oneshot(Oneshot::Layer6))
    } else if n == "oneshotlayer7"@ {
        Some(KeyKind::Oneshot(Oneshot::Layer7))
    } else if n == "layer7"@ {
        Some(KeyKind::Oneshot(Oneshot::Layer7))
    } else if n == "oneshotlayer8"@ {
        Some(KeyKind::Oneshot(Oneshot::Layer8))
    } else if n == "layer8"@ {
        Some(KeyKind::Oneshot(Oneshot::Layer8))
    } else if n == "oneshotleftctrl"@ {
        Some(KeyKind::Oneshot(Oneshot::LeftCtrl))
    } else if n == "leftctrl"@ {
        Some(KeyKind::Oneshot(Oneshot::LeftCtrl))
    } else if n == "oneshotleftshift"@ {
        Some(KeyKind::Oneshot(Oneshot::LeftShift))
    } else if n == "leftshift"@ {
        Some(KeyKind::Oneshot(Oneshot::LeftShift))
    } else if n == "oneshotleftalt"@ {
        Some(KeyKind::Oneshot(Oneshot::LeftAlt))
    } else if n == "leftalt"@ {
        Some(KeyKind::Oneshot(Oneshot::LeftAlt))
    } else if n == "oneshotleftos"@ {
        Some(KeyKind::Oneshot(Oneshot::LeftOs))
    } else if n == "leftos"@ {
        Some(KeyKind::Oneshot(Oneshot::LeftOs))
    } else if n == "oneshotrightctrl"@ {
        Some(KeyKind::Oneshot(Oneshot::RightCtrl))
    } else if n == "rightctrl"@ {
        Some(KeyKind::Oneshot(Oneshot::RightCtrl))
    } else if n == "oneshotrightshift"@ {
        Some(KeyKind::Oneshot(Oneshot::RightShift))
    } else if n == "rightshift"@ {
        Some(KeyKind::Oneshot(Oneshot::RightShift))
    } else if n == "oneshotaltgr"@ {
        Some(KeyKind::Oneshot(Oneshot::AltGr))
    } else if n == "altgr"@ {
        Some(KeyKind::Oneshot(Oneshot::AltGr))
    } else if n == "oneshotrightos"@ {
        Some(KeyKind::Oneshot(Oneshot::RightOs))
    } else if n == "rightos"@ {
        Some(KeyKind::Oneshot(Oneshot::RightOs))
    } else {
        None
    }
}

fn parse_oneshot(n: &Vec<char>) -> (r: Option<KeyKind>)
    ensures
        r == spec_parse_oneshot(n@),
{
    if chars_eq(n, "oneshotlayer1") {
        Some(KeyKind::Oneshot(Oneshot::Layer1))
    } else if chars_eq(n, "layer1") {
        Some(KeyKind::Oneshot(Oneshot::Layer1))
    } else if chars_eq(n, "oneshotlayer2") {
        Some(KeyKind::Oneshot(Oneshot::Layer2))
    } else if chars_eq(n, "layer2") {
        Some(KeyKind::Oneshot(Oneshot::Layer2))
    } else if chars_eq(n, "oneshotlayer3") {
        Some(KeyKind::Oneshot(Oneshot::Layer3))
    } else if chars_eq(n, "layer3") {
        Some(KeyKind::Oneshot(Oneshot::Layer3))
    } else if chars_eq(n, "oneshotlayer4") {
        Some(KeyKind::Oneshot(Oneshot::Layer4))
    } else if chars_eq(n, "layer4") {
        Some(KeyKind::Oneshot(Oneshot::Layer4))
    } else if chars_eq(n, "oneshotlayer5") {
        Some(KeyKind::Oneshot(Oneshot::Layer5))
    } else if chars_eq(n, "layer5") {
        Some(KeyKind::Oneshot(Oneshot::Layer5))
    } else if chars_eq(n, "oneshotlayer6") {
        Some(KeyKind::Oneshot(Oneshot::Layer6))
    } else if chars_eq(n, "layer6") {
        Some(KeyKind::Oneshot(Oneshot::Layer6))
    } else if chars_eq(n, "oneshotlayer7") {
        Some(KeyKind::Oneshot(Oneshot::Layer7))
    } else if chars_eq(n, "layer7") {
        Some(KeyKind::Oneshot(Oneshot::Layer7))
    } else if chars_eq(n, "oneshotlayer8") {
        Some(KeyKind::Oneshot(Oneshot::Layer8))
    } else if chars_eq(n, "layer8") {
        Some(KeyKind::Oneshot(Oneshot::Layer8))
    } else if chars_eq(n, "oneshotleftctrl") {
        Some(KeyKind::Oneshot(Oneshot::LeftCtrl))
    } else if chars_eq(n, "leftctrl") {
        Some(KeyKind::Oneshot(Oneshot::LeftCtrl))
    } else if chars_eq(n, "oneshotleftshift") {
        Some(KeyKind::Oneshot(Oneshot::LeftShift))
    } else if chars_eq(n, "leftshift") {
        Some(KeyKind::Oneshot(Oneshot::LeftShift))
    } else if chars_eq(n, "oneshotleftalt") {
        Some(KeyKind::Oneshot(Oneshot::LeftAlt))
    } else if chars_eq(n, "leftalt") {
        Some(KeyKind::Oneshot(Oneshot::LeftAlt))
    } else if chars_eq(n, "oneshotleftos") {
        Some(KeyKind::Oneshot(Oneshot::LeftOs))
    } else if chars_eq(n, "leftos") {
        Some(KeyKind::Oneshot(Oneshot::LeftOs))
    } else if chars_eq(n, "oneshotrightctrl") {
        Some(KeyKind::Oneshot(Oneshot::RightCtrl))
    } else if chars_eq(n, "rightctrl") {
        Some(KeyKind::Oneshot(Oneshot::RightCtrl))
    } else if chars_eq(n, "oneshotrightshift") {
        Some(KeyKind::Oneshot(Oneshot::RightShift))
    } else if chars_eq(n, "rightshift") {
        Some(KeyKind::Oneshot(Oneshot::RightShift))
    } else if chars_eq(n, "oneshotaltgr") {
        Some(KeyKind::Oneshot(Oneshot::AltGr))
    } else if chars_eq(n, "altgr") {
        Some(KeyKind::Oneshot(Oneshot::AltGr))
    } else if chars_eq(n, "oneshotrightos") {
        Some(KeyKind::Oneshot(Oneshot::RightOs))
    } else if chars_eq(n, "rightos") {
        Some(KeyKind::Oneshot(Oneshot::RightOs))
    } else {
        None
    }
}

/// A canonical decimal slot number standing from `i` to the end of the
/// name: no leading zero, value between 1 and `max`.
pub open spec fn spec_slot_number(n: Seq<char>, i: int, max: int) -> Option<u8> {
    if 0 <= i < n.len() && n[i] != '0' {
        match spec_read_uint(n, i, max) {
            Some((v, j)) => if j == n.len() && v >= 1 {
                Some(v as u8)
            } else {
                None
            },
            None => None,
        }
    } else {
        None
    }
}

/// Reads a canonical slot number from `i` to the end of the name.
fn slot_number(n: &Vec<char>, i: usize, max: u16) -> (r: Option<u8>)
    requires
        i <= n@.len(),
        max <= 255,
    ensures
        r == spec_slot_number(n@, i as int, max as int),
{
    if i >= n.len() || n[i] == '0' || !crate::wire::char_is_digit(n[i]) {
        return None;
    }
    proof {
        crate::wire::lemma_digits_end_bounds(n@, i as int);
    }
    let ghost end = digits_end(n@, i as int);
    let mut j: usize = i;
    let mut acc: u32 = 0;
    let mut over: bool = false;
    while j < n.len() && crate::wire::char_is_digit(n[j])
        invariant
            i <= j <= n@.len(),
            i as int <= end <= n@.len(),
            forall|k: int| i <= k < end ==> is_digit_char(n@[k]),
            end < n@.len() ==> !is_digit_char(n@[end]),
            j <= end,
            (j as int) < end ==> is_digit_char(n@[j as int]),
            max <= 255,
            over <==> crate::wire::dec_value(n@.subrange(i as int, j as int)) > max,
            !over ==> acc == crate::wire::dec_value(n@.subrange(i as int, j as int)),
            acc <= max,
        decreases n@.len() - j,
    {
        let c = n[j];
        let d: u32 = (c as u32) - 48;
        proof {
            assert(n@.subrange(i as int, j + 1 as int).drop_last() =~= n@.subrange(
                i as int,
                j as int,
            ));
            if crate::wire::dec_value(n@.subrange(i as int, j as int)) > max {
                crate::wire::lemma_dec_value_nonneg(n@.subrange(i as int, j as int));
            }
        }
        if !over {
            let next: u32 = acc * 10 + d;
            if next > max as u32 {
                over = true;
            } else {
                acc = next;
            }
        }
        j = j + 1;
        proof {
            assert(j as int <= end) by {
                if (j as int) > end {
                    assert(is_digit_char(n@[j - 1 as int]));
                    assert(end <= j - 1 < n@.len());
                }
            }
        }
    }
    proof {
        assert(j as int == end) by {
            if (j as int) < end {
                assert(is_digit_char(n@[j as int]));
            }
        }
    }
    if over {
        return None;
    }
    if j == n.len() && acc >= 1 {
        Some(acc as u8)
    } else {
        None
    }
}

/// The macro slot a normalized name means.
pub open spec fn spec_parse_macro_slot(n: Seq<char>) -> Option<KeyKind> {
    if spec_has_at(n, 0, "macro"@) {
        match spec_slot_number(n, 5, 128) {
            Some(v) => Some(KeyKind::Macros(MacroSlot { index: v })),
            None => None,
        }
    } else {
        None
    }
}

fn parse_macro_slot(n: &Vec<char>) -> (r: Option<KeyKind>)
    ensures
        r == spec_parse_macro_slot(n@),
{
    if has_at(n, 0, "macro") {
        proof {
            reveal_strlit("macro");
        }
        match slot_number(n, 5, 128) {
            Some(v) => Some(KeyKind::Macros(MacroSlot { index: v })),
            None => None,
        }
    } else {
        None
    }
}

/// The superkey slot a normalized name means.
pub open spec fn spec_parse_super_slot(n: Seq<char>) -> Option<KeyKind> {
    if spec_has_at(n, 0, "superkey"@) {
        match spec_slot_number(n, 8, 128) {
            Some(v) => Some(KeyKind::SuperKeys(SuperSlot { index: v })),
            None => None,
        }
    } else if spec_has_at(n, 0, "super"@) {
        match spec_slot_number(n, 5, 128) {
            Some(v) => Some(KeyKind::SuperKeys(SuperSlot { index: v })),
            None => None,
        }
    } else {
        None
    }
}

fn parse_super_slot(n: &Vec<char>) -> (r: Option<KeyKind>)
    ensures
        r == spec_parse_super_slot(n@),
{
    if has_at(n, 0, "superkey") {
        proof {
            reveal_strlit("superkey");
        }
        match slot_number(n, 8, 128) {
            Some(v) => Some(KeyKind::SuperKeys(SuperSlot { index: v })),
            None => None,
        }
    } else if has_at(n, 0, "super") {
        proof {
            reveal_strlit("super");
        }
        match slot_number(n, 5, 128) {
            Some(v) => Some(KeyKind::SuperKeys(SuperSlot { index: v })),
            None => None,
        }
    } else {
        None
    }
}

/// The base key a normalized name means, tried table by table in the
/// key-code table's order.
pub open spec fn spec_parse_base(n: Seq<char>) -> Option<KeyKind> {
    if spec_parse_blank(n) is Some {
        spec_parse_blank(n)
    } else if spec_parse_spacing(n) is Some {
        spec_parse_spacing(n)
    } else if spec_parse_alpha(n) is Some {
        spec_parse_alpha(n)
    } else if spec_parse_digits(n) is Some {
        spec_parse_digits(n)
    } else if spec_parse_numpad(n) is Some {
        spec_parse_numpad(n)
    } else if spec_parse_fx(n) is Some {
        spec_parse_fx(n)
    } else if spec_parse_symbols(n) is Some {
        spec_parse_symbols(n)
    } else if spec_parse_shift_symbols(n) is Some {
        spec_parse_shift_symbols(n)
    } else if spec_parse_modifiers(n) is Some {
        spec_parse_modifiers(n)
    } else if spec_parse_media(n) is Some {
        spec_parse_media(n)
    } else if spec_parse_navigation(n) is Some {
        spec_parse_navigation(n)
    } else if spec_parse_mouse_movement(n) is Some {
        spec_parse_mouse_movement(n)
    } else if spec_parse_mouse_wheele(n) is Some {
        spec_parse_mouse_wheele(n)
    } else if spec_parse_mouse_buttons(n) is Some {
        spec_parse_mouse_buttons(n)
    } else if spec_parse_mouse_warp(n) is Some {
        spec_parse_mouse_warp(n)
    } else if spec_parse_led_effects(n) is Some {
        spec_parse_led_effects(n)
    } else if spec_parse_battery(n) is Some {
        spec_parse_battery(n)
    } else if spec_parse_bluetooth(n) is Some {
        spec_parse_bluetooth(n)
    } else if spec_parse_energy(n) is Some {
        spec_parse_energy(n)
    } else if spec_parse_rf(n) is Some {
        spec_parse_rf(n)
    } else if spec_parse_layer_lock(n) is Some {
        spec_parse_layer_lock(n)
    } else if spec_parse_layer_shift(n) is Some {
        spec_parse_layer_shift(n)
    } else if spec_parse_layer_move(n) is Some {
        spec_parse_layer_move(n)
    } else if spec_parse_miscellaneous(n) is Some {
        spec_parse_miscellaneous(n)
    } else if spec_parse_oneshot(n) is Some {
        spec_parse_oneshot(n)
    } else if spec_parse_macro_slot(n) is Some {
        spec_parse_macro_slot(n)
    } else if spec_parse_super_slot(n) is Some {
        spec_parse_super_slot(n)
    } else {
        None
    }
}

fn parse_base(n: &Vec<char>) -> (r: Option<KeyKind>)
    ensures
        r == spec_parse_base(n@),
{
    if let Some(k) = parse_blank(n) {
        return Some(k);
    }
    if let Some(k) = parse_spacing(n) {
        return Some(k);
    }
    if let Some(k) = parse_alpha(n) {
        return Some(k);
    }
    if let Some(k) = parse_digits(n) {
        return Some(k);
    }
    if let Some(k) = parse_numpad(n) {
        return Some(k);
    }
    if let Some(k) = parse_fx(n) {
        return Some(k);
    }
    if let Some(k) = parse_symbols(n) {
        return Some(k);
    }
    if let Some(k) = parse_shift_symbols(n) {
        return Some(k);
    }
    if let Some(k) = parse_modifiers(n) {
        return Some(k);
    }
    if let Some(k) = parse_media(n) {
        return Some(k);
    }
    if let Some(k) = parse_navigation(n) {
        return Some(k);
    }
    if let Some(k) = parse_mouse_movement(n) {
        return Some(k);
    }
    if let Some(k) = parse_mouse_wheele(n) {
        return Some(k);
    }
    if let Some(k) = parse_mouse_buttons(n) {
        return Some(k);
    }
    if let Some(k) = parse_mouse_warp(n) {
        return Some(k);
    }
    if let Some(k) = parse_led_effects(n) {
        return Some(k);
    }
    if let Some(k) = parse_battery(n) {
        return Some(k);
    }
    if let Some(k) = parse_bluetooth(n) {
        return Some(k);
    }
    if let Some(k) = parse_energy(n) {
        return Some(k);
    }
    if let Some(k) = parse_rf(n) {
        return Some(k);
    }
    if let Some(k) = parse_layer_lock(n) {
        return Some(k);
    }
    if let Some(k) = parse_layer_shift(n) {
        return Some(k);
    }
    if let Some(k) = parse_layer_move(n) {
        return Some(k);
    }
    if let Some(k) = parse_miscellaneous(n) {
        return Some(k);
    }
    if let Some(k) = parse_oneshot(n) {
        return Some(k);
    }
    if let Some(k) = parse_macro_slot(n) {
        return Some(k);
    }
    if let Some(k) = parse_super_slot(n) {
        return Some(k);
    }
    None
}

pub open spec fn spec_mod_base_display_spacing(n: Seq<char>, i: int) -> Option<KeyKind> {
    if spec_suffix_is(n, i, "enter"@) {
        Some(KeyKind::Spacing(Spacing::Enter, KeyExpansion::Plain))
    } else if spec_suffix_is(n, i, "escape"@) {
        Some(KeyKind::Spacing(Spacing::Escape, KeyExpansion::Plain))
    } else if spec_suffix_is(n, i, "backspace"@) {
        Some(KeyKind::Spacing(Spacing::Backspace, KeyExpansion::Plain))
    } else if spec_suffix_is(n, i, "tab"@) {
        Some(KeyKind::Spacing(Spacing::Tab, KeyExpansion::Plain))
    } else if spec_suffix_is(n, i, "space"@) {
        Some(KeyKind::Spacing(Spacing::Space, KeyExpansion::Plain))
    } else if spec_suffix_is(n, i, "insert"@) {
        Some(KeyKind::Spacing(Spacing::Insert, KeyExpansion::Plain))
    } else if spec_suffix_is(n, i, "delete"@) {
        Some(KeyKind::Spacing(Spacing::Delete, KeyExpansion::Plain))
    } else {
        None
    }
}

fn mod_base_display_spacing(n: &Vec<char>, i: usize) -> (r: Option<KeyKind>)
    requires
        i <= n@.len(),
    ensures
        r == spec_mod_base_display_spacing(n@, i as int),
{
    if suffix_is(n, i, "enter") {
        Some(KeyKind::Spacing(Spacing::Enter, KeyExpansion::Plain))
    } else if suffix_is(n, i, "escape") {
        Some(KeyKind::Spacing(Spacing::Escape, KeyExpansion::Plain))
    } else if suffix_is(n, i, "backspace") {
        Some(KeyKind::Spacing(Spacing::Backspace, KeyExpansion::Plain))
    } else if suffix_is(n, i, "tab") {
        Some(KeyKind::Spacing(Spacing::Tab, KeyExpansion::Plain))
    } else if suffix_is(n, i, "space") {
        Some(KeyKind::Spacing(Spacing::Space, KeyExpansion::Plain))
    } else if suffix_is(n, i, "insert") {
        Some(KeyKind::Spacing(Spacing::Insert, KeyExpansion::Plain))
    } else if suffix_is(n, i, "delete") {
        Some(KeyKind::Spacing(Spacing::Delete, KeyExpansion::Plain))
    } else {
        None
    }
}

pub open spec fn spec_mod_base_display_alpha(n: Seq<char>, i: int) -> Option<KeyKind> {
    if spec_suffix_is(n, i, "a"@) {
        Some(KeyKind::Alpha(Alpha::A, KeyExpansion::Plain))
    } else if spec_suffix_is(n, i, "b"@) {
        Some(KeyKind::Alpha(Alpha::B, KeyExpansion::Plain))
    } else if spec_suffix_is(n, i, "c"@) {
        Some(KeyKind::Alpha(Alpha::C, KeyExpansion::Plain))
    } else if spec_suffix_is(n, i, "d"@) {
        Some(KeyKind::Alpha(Alpha::D, KeyExpansion::Plain))
    } else if spec_suffix_is(n, i, "e"@) {
        Some(KeyKind::Alpha(Alpha::E, KeyExpansion::Plain))
    } else if spec_suffix_is(n, i, "f"@) {
        Some(KeyKind::Alpha(Alpha::F, KeyExpansion::Plain))
    } else if spec_suffix_is(n, i, "g"@) {
        Some(KeyKind::Alpha(Alpha::G, KeyExpansion::Plain))
    } else if spec_suffix_is(n, i, "h"@) {
        Some(KeyKind::Alpha(Alpha::H, KeyExpansion::Plain))
    } else if spec_suffix_is(n, i, "i"@) {
        Some(KeyKind::Alpha(Alpha::I, KeyExpansion::Plain))
    } else if spec_suffix_is(n, i, "j"@) {
        Some(KeyKind::Alpha(Alpha::J, KeyExpansion::Plain))
    } else if spec_suffix_is(n, i, "k"@) {
        Some(KeyKind::Alpha(Alpha::K, KeyExpansion::Plain))
    } else if spec_suffix_is(n, i, "l"@) {
        Some(KeyKind::Alpha(Alpha::L, KeyExpansion::Plain))
    } else if spec_suffix_is(n, i, "m"@) {
        Some(KeyKind::Alpha(Alpha::M, KeyExpansion::Plain))
    } else if spec_suffix_is(n, i, "n"@) {
        Some(KeyKind::Alpha(Alpha::N, KeyExpansion::Plain))
    } else if spec_suffix_is(n, i, "o"@) {
        Some(KeyKind::Alpha(Alpha::O, KeyExpansion::Plain))
    } else if spec_suffix_is(n, i, "p"@) {
        Some(KeyKind::Alpha(Alpha::P, KeyExpansion::Plain))
    } else if spec_suffix_is(n, i, "q"@) {
        Some(KeyKind::Alpha(Alpha::Q, KeyExpansion::Plain))
    } else if spec_suffix_is(n, i, "r"@) {
        Some(KeyKind::Alpha(Alpha::R, KeyExpansion::Plain))
    } else if spec_suffix_is(n, i, "s"@) {
        Some(KeyKind::Alpha(Alpha::S, KeyExpansion::Plain))
    } else if spec_suffix_is(n, i, "t"@) {
        Some(KeyKind::Alpha(Alpha::T, KeyExpansion::Plain))
    } else if spec_suffix_is(n, i, "u"@) {
        Some(KeyKind::Alpha(Alpha::U, KeyExpansion::Plain))
    } else if spec_suffix_is(n, i, "v"@) {
        Some(KeyKind::Alpha(Alpha::V, KeyExpansion::Plain))
    } else if spec_suffix_is(n, i, "w"@) {
        Some(KeyKind::Alpha(Alpha::W, KeyExpansion::Plain))
    } else if spec_suffix_is(n, i, "x"@) {
        Some(KeyKind::Alpha(Alpha::X, KeyExpansion::Plain))
    } else if spec_suffix_is(n, i, "y"@) {
        Some(KeyKind::Alpha(Alpha::Y, KeyExpansion::Plain))
    } else if spec_suffix_is(n, i, "z"@) {
        Some(KeyKind::Alpha(Alpha::Z, KeyExpansion::Plain))
    } else {
        None
    }
}

fn mod_base_display_alpha(n: &Vec<char>, i: usize) -> (r: Option<KeyKind>)
    requires
        i <= n@.len(),
    ensures
        r == spec_mod_base_display_alpha(n@, i as int),
{
    if suffix_is(n, i, "a") {
        Some(KeyKind::Alpha(Alpha::A, KeyExpansion::Plain))
    } else if suffix_is(n, i, "b") {
        Some(KeyKind::Alpha(Alpha::B, KeyExpansion::Plain))
    } else if suffix_is(n, i, "c") {
        Some(KeyKind::Alpha(Alpha::C, KeyExpansion::Plain))
    } else if suffix_is(n, i, "d") {
        Some(KeyKind::Alpha(Alpha::D, KeyExpansion::Plain))
    } else if suffix_is(n, i, "e") {
        Some(KeyKind::Alpha(Alpha::E, KeyExpansion::Plain))
    } else if suffix_is(n, i, "f") {
        Some(KeyKind::Alpha(Alpha::F, KeyExpansion::Plain))
    } else if suffix_is(n, i, "g") {
        Some(KeyKind::Alpha(Alpha::G, KeyExpansion::Plain))
    } else if suffix_is(n, i, "h") {
        Some(KeyKind::Alpha(Alpha::H, KeyExpansion::Plain))
    } else if suffix_is(n, i, "i") {
        Some(KeyKind::Alpha(Alpha::I, KeyExpansion::Plain))
    } else if suffix_is(n, i, "j") {
        Some(KeyKind::Alpha(Alpha::J, KeyExpansion::Plain))
    } else if suffix_is(n, i, "k") {
        Some(KeyKind::Alpha(Alpha::K, KeyExpansion::Plain))
    } else if suffix_is(n, i, "l") {
        Some(KeyKind::Alpha(Alpha::L, KeyExpansion::Plain))
    } else if suffix_is(n, i, "m") {
        Some(KeyKind::Alpha(Alpha::M, KeyExpansion::Plain))
    } else if suffix_is(n, i, "n") {
        Some(KeyKind::Alpha(Alpha::N, KeyExpansion::Plain))
    } else if suffix_is(n, i, "o") {
        Some(KeyKind::Alpha(Alpha::O, KeyExpansion::Plain))
    } else if suffix_is(n, i, "p") {
        Some(KeyKind::Alpha(Alpha::P, KeyExpansion::Plain))
    } else if suffix_is(n, i, "q") {
        Some(KeyKind::Alpha(Alpha::Q, KeyExpansion::Plain))
    } else if suffix_is(n, i, "r") {
        Some(KeyKind::Alpha(Alpha::R, KeyExpansion::Plain))
    } else if suffix_is(n, i, "s") {
        Some(KeyKind::Alpha(Alpha::S, KeyExpansion::Plain))
    } else if suffix_is(n, i, "t") {
        Some(KeyKind::Alpha(Alpha::T, KeyExpansion::Plain))
    } else if suffix_is(n, i, "u") {
        Some(KeyKind::Alpha(Alpha::U, KeyExpansion::Plain))
    } else if suffix_is(n, i, "v") {
        Some(KeyKind::Alpha(Alpha::V, KeyExpansion::Plain))
    } else if suffix_is(n, i, "w") {
        Some(KeyKind::Alpha(Alpha::W, KeyExpansion::Plain))
    } else if suffix_is(n, i, "x") {
        Some(KeyKind::Alpha(Alpha::X, KeyExpansion::Plain))
    } else if suffix_is(n, i, "y") {
        Some(KeyKind::Alpha(Alpha::Y, KeyExpansion::Plain))
    } else if suffix_is(n, i, "z") {
        Some(KeyKind::Alpha(Alpha::Z, KeyExpansion::Plain))
    } else {
        None
    }
}

pub open spec fn spec_mod_base_display_digits(n: Seq<char>, i: int) -> Option<KeyKind> {
    if spec_suffix_is(n, i, "1"@) {
        Some(KeyKind::Digits(Digits::One, KeyExpansion::Plain))
    } else if spec_suffix_is(n, i, "2"@) {
        Some(KeyKind::Digits(Digits::Two, KeyExpansion::Plain))
    } else if spec_suffix_is(n, i, "3"@) {
        Some(KeyKind::Digits(Digits::Three, KeyExpansion::Plain))
    } else if spec_suffix_is(n, i, "4"@) {
        Some(KeyKind::Digits(Digits::Four, KeyExpansion::Plain))
    } else if spec_suffix_is(n, i, "5"@) {
        Some(KeyKind::Digits(Digits::Five, KeyExpansion::Plain))
    } else if spec_suffix_is(n, i, "six"@) {
        Some(KeyKind::Digits(Digits::Six, KeyExpansion::Plain))
    } else if spec_suffix_is(n, i, "7"@) {
        Some(KeyKind::Digits(Digits::Seven, KeyExpansion::Plain))
    } else if spec_suffix_is(n, i, "8"@) {
        Some(KeyKind::Digits(Digits::Eight, KeyExpansion::Plain))
    } else if spec_suffix_is(n, i, "9"@) {
        Some(KeyKind::Digits(Digits::Nine, KeyExpansion::Plain))
    } else if spec_suffix_is(n, i, "0"@) {
        Some(KeyKind::Digits(Digits::Zero, KeyExpansion::Plain))
    } else {
        None
    }
}

fn mod_base_display_digits(n: &Vec<char>, i: usize) -> (r: Option<KeyKind>)
    requires
        i <= n@.len(),
    ensures
        r == spec_mod_base_display_digits(n@, i as int),
{
    if suffix_is(n, i, "1") {
        Some(KeyKind::Digits(Digits::One, KeyExpansion::Plain))
    } else if suffix_is(n, i, "2") {
        Some(KeyKind::Digits(Digits::Two, KeyExpansion::Plain))
    } else if suffix_is(n, i, "3") {
        Some(KeyKind::Digits(Digits::Three, KeyExpansion::Plain))
    } else if suffix_is(n, i, "4") {
        Some(KeyKind::Digits(Digits::Four, KeyExpansion::Plain))
    } else if suffix_is(n, i, "5") {
        Some(KeyKind::Digits(Digits::Five, KeyExpansion::Plain))
    } else if suffix_is(n, i, "six") {
        Some(KeyKind::Digits(Digits::Six, KeyExpansion::Plain))
    } else if suffix_is(n, i, "7") {
        Some(KeyKind::Digits(Digits::Seven, KeyExpansion::Plain))
    } else if suffix_is(n, i, "8") {
        Some(KeyKind::Digits(Digits::Eight, KeyExpansion::Plain))
    } else if suffix_is(n, i, "9") {
        Some(KeyKind::Digits(Digits::Nine, KeyExpansion::Plain))
    } else if suffix_is(n, i, "0") {
        Some(KeyKind::Digits(Digits::Zero, KeyExpansion::Plain))
    } else {
        None
    }
}

pub open spec fn spec_mod_base_display_numpad(n: Seq<char>, i: int) -> Option<KeyKind> {
    if spec_suffix_is(n, i, "numlock"@) {
        Some(KeyKind::Numpad(Numpad::NumLock, KeyExpansion::Plain))
    } else if spec_suffix_is(n, i, "numpad/"@) {
        Some(KeyKind::Numpad(Numpad::Divide, KeyExpansion::Plain))
    } else if spec_suffix_is(n, i, "numpad*"@) {
        Some(KeyKind::Numpad(Numpad::Times, KeyExpansion::Plain))
    } else if spec_suffix_is(n, i, "numpad-"@) {
        Some(KeyKind::Numpad(Numpad::Minus, KeyExpansion::Plain))
    } else if spec_suffix_is(n, i, "numpad+"@) {
        Some(KeyKind::Numpad(Numpad::Add, KeyExpansion::Plain))
    } else if spec_suffix_is(n, i, "numpadenter"@) {
        Some(KeyKind::Numpad(Numpad::Enter, KeyExpansion::Plain))
    } else if spec_suffix_is(n, i, "numpad1"@) {
        Some(KeyKind::Numpad(Numpad::One, KeyExpansion::Plain))
    } else if spec_suffix_is(n, i, "numpad2"@) {
        Some(KeyKind::Numpad(Numpad::Two, KeyExpansion::Plain))
    } else if spec_suffix_is(n, i, "numpad3"@) {
        Some(KeyKind::Numpad(Numpad::Three, KeyExpansion::Plain))
    } else if spec_suffix_is(n, i, "numpad4"@) {
        Some(KeyKind::Numpad(Numpad::Four, KeyExpansion::Plain))
    } else if spec_suffix_is(n, i, "numpad5"@) {
        Some(KeyKind::Numpad(Numpad::Five, KeyExpansion::Plain))
    } else if spec_suffix_is(n, i, "numpad6"@) {
        Some(KeyKind::Numpad(Numpad::Six, KeyExpansion::Plain))
    } else if spec_suffix_is(n, i, "numpad7"@) {
        Some(KeyKind::Numpad(Numpad::Seven, KeyExpansion::Plain))
    } else if spec_suffix_is(n, i, "numpad8"@) {
        Some(KeyKind::Numpad(Numpad::Eight, KeyExpansion::Plain))
    } else if spec_suffix_is(n, i, "numpad9"@) {
        Some(KeyKind::Numpad(Numpad::Nine, KeyExpansion::Plain))
    } else if spec_suffix_is(n, i, "numpad0"@) {
        Some(KeyKind::Numpad(Numpad::Zero, KeyExpansion::Plain))
    } else if spec_suffix_is(n, i, "numpad."@) {
        Some(KeyKind::Numpad(Numpad::Period, KeyExpansion::Plain))
    } else {
        None
    }
}

fn mod_base_display_numpad(n: &Vec<char>, i: usize) -> (r: Option<KeyKind>)
    requires
        i <= n@.len(),
    ensures
        r == spec_mod_base_display_numpad(n@, i as int),
{
    if suffix_is(n, i, "numlock") {
        Some(KeyKind::Numpad(Numpad::NumLock, KeyExpansion::Plain))
    } else if suffix_is(n, i, "numpad/") {
        Some(KeyKind::Numpad(Numpad::Divide, KeyExpansion::Plain))
    } else if suffix_is(n, i, "numpad*") {
        Some(KeyKind::Numpad(Numpad::Times, KeyExpansion::Plain))
    } else if suffix_is(n, i, "numpad-") {
        Some(KeyKind::Numpad(Numpad::Minus, KeyExpansion::Plain))
    } else if suffix_is(n, i, "numpad+") {
        Some(KeyKind::Numpad(Numpad::Add, KeyExpansion::Plain))
    } else if suffix_is(n, i, "numpadenter") {
        Some(KeyKind::Numpad(Numpad::Enter, KeyExpansion::Plain))
    } else if suffix_is(n, i, "numpad1") {
        Some(KeyKind::Numpad(Numpad::One, KeyExpansion::Plain))
    } else if suffix_is(n, i, "numpad2") {
        Some(KeyKind::Numpad(Numpad::Two, KeyExpansion::Plain))
    } else if suffix_is(n, i, "numpad3") {
        Some(KeyKind::Numpad(Numpad::Three, KeyExpansion::Plain))
    } else if suffix_is(n, i, "numpad4") {
        Some(KeyKind::Numpad(Numpad::Four, KeyExpansion::Plain))
    } else if suffix_is(n, i, "numpad5") {
        Some(KeyKind::Numpad(Numpad::Five, KeyExpansion::Plain))
    } else if suffix_is(n, i, "numpad6") {
        Some(KeyKind::Numpad(Numpad::Six, KeyExpansion::Plain))
    } else if suffix_is(n, i, "numpad7") {
        Some(KeyKind::Numpad(Numpad::Seven, KeyExpansion::Plain))
    } else if suffix_is(n, i, "numpad8") {
        Some(KeyKind::Numpad(Numpad::Eight, KeyExpansion::Plain))
    } else if suffix_is(n, i, "numpad9") {
        Some(KeyKind::Numpad(Numpad::Nine, KeyExpansion::Plain))
    } else if suffix_is(n, i, "numpad0") {
        Some(KeyKind::Numpad(Numpad::Zero, KeyExpansion::Plain))
    } else if suffix_is(n, i, "numpad.") {
        Some(KeyKind::Numpad(Numpad::Period, KeyExpansion::Plain))
    } else {
        None
    }
}

pub open spec fn spec_mod_base_display_fx(n: Seq<char>, i: int) -> Option<KeyKind> {
    if spec_suffix_is(n, i, "f1"@) {
        Some(KeyKind::Fx(Fx::F1, KeyExpansion::Plain))
    } else if spec_suffix_is(n, i, "f2"@) {
        Some(KeyKind::Fx(Fx::F2, KeyExpansion::Plain))
    } else if spec_suffix_is(n, i, "f3"@) {
        Some(KeyKind::Fx(Fx::F3, KeyExpansion::Plain))
    } else if spec_suffix_is(n, i, "f4"@) {
        Some(KeyKind::Fx(Fx::F4, KeyExpansion::Plain))
    } else if spec_suffix_is(n, i, "f5"@) {
        Some(KeyKind::Fx(Fx::F5, KeyExpansion::Plain))
    } else if spec_suffix_is(n, i, "f6"@) {
        Some(KeyKind::Fx(Fx::F6, KeyExpansion::Plain))
    } else if spec_suffix_is(n, i, "f7"@) {
        Some(KeyKind::Fx(Fx::F7, KeyExpansion::Plain))
    } else if spec_suffix_is(n, i, "f8"@) {
        Some(KeyKind::Fx(Fx::F8, KeyExpansion::Plain))
    } else if spec_suffix_is(n, i, "f9"@) {
        Some(KeyKind::Fx(Fx::F9, KeyExpansion::Plain))
    } else if spec_suffix_is(n, i, "f10"@) {
        Some(KeyKind::Fx(Fx::F10, KeyExpansion::Plain))
    } else if spec_suffix_is(n, i, "f11"@) {
        Some(KeyKind::Fx(Fx::F11, KeyExpansion::Plain))
    } else if spec_suffix_is(n, i, "f12"@) {
        Some(KeyKind::Fx(Fx::F12, KeyExpansion::Plain))
    } else if spec_suffix_is(n, i, "f13"@) {
        Some(KeyKind::Fx(Fx::F13, KeyExpansion::Plain))
    } else if spec_suffix_is(n, i, "f14"@) {
        Some(KeyKind::Fx(Fx::F14, KeyExpansion::Plain))
    } else if spec_suffix_is(n, i, "f15"@) {
        Some(KeyKind::Fx(Fx::F15, KeyExpansion::Plain))
    } else if spec_suffix_is(n, i, "f16"@) {
        Some(KeyKind::Fx(Fx::F16, KeyExpansion::Plain))
    } else if spec_suffix_is(n, i, "f17"@) {
        Some(KeyKind::Fx(Fx::F17, KeyExpansion::Plain))
    } else if spec_suffix_is(n, i, "f18"@) {
        Some(KeyKind::Fx(Fx::F18, KeyExpansion::Plain))
    } else if spec_suffix_is(n, i, "f19"@) {
        Some(KeyKind::Fx(Fx::F19, KeyExpansion::Plain))
    } else if spec_suffix_is(n, i, "f20"@) {
        Some(KeyKind::Fx(Fx::F20, KeyExpansion::Plain))
    } else if spec_suffix_is(n, i, "f21"@) {
        Some(KeyKind::Fx(Fx::F21, KeyExpansion::Plain))
    } else if spec_suffix_is(n, i, "f22"@) {
        Some(KeyKind::Fx(Fx::F22, KeyExpansion::Plain))
    } else if spec_suffix_is(n, i, "f23"@) {
        Some(KeyKind::Fx(Fx::F23, KeyExpansion::Plain))
    } else if spec_suffix_is(n, i, "f24"@) {
        Some(KeyKind::Fx(Fx::F24, KeyExpansion::Plain))
    } else {
        None
    }
}

fn mod_base_display_fx(n: &Vec<char>, i: usize) -> (r: Option<KeyKind>)
    requires
        i <= n@.len(),
    ensures
        r == spec_mod_base_display_fx(n@, i as int),
{
    if suffix_is(n, i, "f1") {
        Some(KeyKind::Fx(Fx::F1, KeyExpansion::Plain))
    } else if suffix_is(n, i, "f2") {
        Some(KeyKind::Fx(Fx::F2, KeyExpansion::Plain))
    } else if suffix_is(n, i, "f3") {
        Some(KeyKind::Fx(Fx::F3, KeyExpansion::Plain))
    } else if suffix_is(n, i, "f4") {
        Some(KeyKind::Fx(Fx::F4, KeyExpansion::Plain))
    } else if suffix_is(n, i, "f5") {
        Some(KeyKind::Fx(Fx::F5, KeyExpansion::Plain))
    } else if suffix_is(n, i, "f6") {
        Some(KeyKind::Fx(Fx::F6, KeyExpansion::Plain))
    } else if suffix_is(n, i, "f7") {
        Some(KeyKind::Fx(Fx::F7, KeyExpansion::Plain))
    } else if suffix_is(n, i, "f8") {
        Some(KeyKind::Fx(Fx::F8, KeyExpansion::Plain))
    } else if suffix_is(n, i, "f9") {
        Some(KeyKind::Fx(Fx::F9, KeyExpansion::Plain))
    } else if suffix_is(n, i, "f10") {
        Some(KeyKind::Fx(Fx::F10, KeyExpansion::Plain))
    } else if suffix_is(n, i, "f11") {
        Some(KeyKind::Fx(Fx::F11, KeyExpansion::Plain))
    } else if suffix_is(n, i, "f12") {
        Some(KeyKind::Fx(Fx::F12, KeyExpansion::Plain))
    } else if suffix_is(n, i, "f13") {
        Some(KeyKind::Fx(Fx::F13, KeyExpansion::Plain))
    } else if suffix_is(n, i, "f14") {
        Some(KeyKind::Fx(Fx::F14, KeyExpansion::Plain))
    } else if suffix_is(n, i, "f15") {
        Some(KeyKind::Fx(Fx::F15, KeyExpansion::Plain))
    } else if suffix_is(n, i, "f16") {
        Some(KeyKind::Fx(Fx::F16, KeyExpansion::Plain))
    } else if suffix_is(n, i, "f17") {
        Some(KeyKind::Fx(Fx::F17, KeyExpansion::Plain))
    } else if suffix_is(n, i, "f18") {
        Some(KeyKind::Fx(Fx::F18, KeyExpansion::Plain))
    } else if suffix_is(n, i, "f19") {
        Some(KeyKind::Fx(Fx::F19, KeyExpansion::Plain))
    } else if suffix_is(n, i, "f20") {
        Some(KeyKind::Fx(Fx::F20, KeyExpansion::Plain))
    } else if suffix_is(n, i, "f21") {
        Some(KeyKind::Fx(Fx::F21, KeyExpansion::Plain))
    } else if suffix_is(n, i, "f22") {
        Some(KeyKind::Fx(Fx::F22, KeyExpansion::Plain))
    } else if suffix_is(n, i, "f23") {
        Some(KeyKind::Fx(Fx::F23, KeyExpansion::Plain))
    } else if suffix_is(n, i, "f24") {
        Some(KeyKind::Fx(Fx::F24, KeyExpansion::Plain))
    } else {
        None
    }
}

pub open spec fn spec_mod_base_display_symbols(n: Seq<char>, i: int) -> Option<KeyKind> {
    if spec_suffix_is(n, i, "`-``"@) {
        Some(KeyKind::Symbols(Symbols::Dash, KeyExpansion::Plain))
    } else if spec_suffix_is(n, i, "`=`"@) {
        Some(KeyKind::Symbols(Symbols::Equals, KeyExpansion::Plain))
    } else if spec_suffix_is(n, i, "`[`"@) {
        Some(KeyKind::Symbols(Symbols::BracketLeft, KeyExpansion::Plain))
    } else if spec_suffix_is(n, i, "`]`"@) {
        Some(KeyKind::Symbols(Symbols::BracketRight, KeyExpansion::Plain))
    } else if spec_suffix_is(n, i, "`\\`"@) {
        Some(KeyKind::Symbols(Symbols::Backslash, KeyExpansion::Plain))
    } else if spec_suffix_is(n, i, "`;`"@) {
        Some(KeyKind::Symbols(Symbols::Semicolon, KeyExpansion::Plain))
    } else if spec_suffix_is(n, i, "`'``"@) {
        Some(KeyKind::Symbols(Symbols::SingleQuote, KeyExpansion::Plain))
    } else if spec_suffix_is(n, i, "```"@) {
        Some(KeyKind::Symbols(Symbols::BackTick, KeyExpansion::Plain))
    } else if spec_suffix_is(n, i, "`,`"@) {
        Some(KeyKind::Symbols(Symbols::Comma, KeyExpansion::Plain))
    } else if spec_suffix_is(n, i, "`.`"@) {
        Some(KeyKind::Symbols(Symbols::Period, KeyExpansion::Plain))
    } else if spec_suffix_is(n, i, "`/`"@) {
        Some(KeyKind::Symbols(Symbols::Slash, KeyExpansion::Plain))
    } else if spec_suffix_is(n, i, "capslock"@) {
        Some(KeyKind::Symbols(Symbols::CapsLock, KeyExpansion::Plain))
    } else if spec_suffix_is(n, i, "iso`<>`"@) {
        Some(KeyKind::Symbols(Symbols::IsoGTLT, KeyExpansion::Plain))
    } else {
        None
    }
}

fn mod_base_display_symbols(n: &Vec<char>, i: usize) -> (r: Option<KeyKind>)
    requires
        i <= n@.len(),
    ensures
        r == spec_mod_base_display_symbols(n@, i as int),
{
    if suffix_is(n, i, "`-``") {
        Some(KeyKind::Symbols(Symbols::Dash, KeyExpansion::Plain))
    } else if suffix_is(n, i, "`=`") {
        Some(KeyKind::Symbols(Symbols::Equals, KeyExpansion::Plain))
    } else if suffix_is(n, i, "`[`") {
        Some(KeyKind::Symbols(Symbols::BracketLeft, KeyExpansion::Plain))
    } else if suffix_is(n, i, "`]`") {
        Some(KeyKind::Symbols(Symbols::BracketRight, KeyExpansion::Plain))
    } else if suffix_is(n, i, "`\\`") {
        Some(KeyKind::Symbols(Symbols::Backslash, KeyExpansion::Plain))
    } else if suffix_is(n, i, "`;`") {
        Some(KeyKind::Symbols(Symbols::Semicolon, KeyExpansion::Plain))
    } else if suffix_is(n, i, "`'``") {
        Some(KeyKind::Symbols(Symbols::SingleQuote, KeyExpansion::Plain))
    } else if suffix_is(n, i, "```") {
        Some(KeyKind::Symbols(Symbols::BackTick, KeyExpansion::Plain))
    } else if suffix_is(n, i, "`,`") {
        Some(KeyKind::Symbols(Symbols::Comma, KeyExpansion::Plain))
    } else if suffix_is(n, i, "`.`") {
        Some(KeyKind::Symbols(Symbols::Period, KeyExpansion::Plain))
    } else if suffix_is(n, i, "`/`") {
        Some(KeyKind::Symbols(Symbols::Slash, KeyExpansion::Plain))
    } else if suffix_is(n, i, "capslock") {
        Some(KeyKind::Symbols(Symbols::CapsLock, KeyExpansion::Plain))
    } else if suffix_is(n, i, "iso`<>`") {
        Some(KeyKind::Symbols(Symbols::IsoGTLT, KeyExpansion::Plain))
    } else {
        None
    }
}

pub open spec fn spec_mod_base_display_modifiers(n: Seq<char>, i: int) -> Option<KeyKind> {
    if spec_suffix_is(n, i, "leftctrl"@) {
        Some(KeyKind::Modifiers(Modifiers::LeftCtrl, KeyExpansion::Plain))
    } else if spec_suffix_is(n, i, "leftshift"@) {
        Some(KeyKind::Modifiers(Modifiers::LeftShift, KeyExpansion::Plain))
    } else if spec_suffix_is(n, i, "leftshift"@) {
        Some(KeyKind::Modifiers(Modifiers::LeftAlt, KeyExpansion::Plain))
    } else if spec_suffix_is(n, i, "leftos"@) {
        Some(KeyKind::Modifiers(Modifiers::LeftOs, KeyExpansion::Plain))
    } else if spec_suffix_is(n, i, "rightctrl"@) {
        Some(KeyKind::Modifiers(Modifiers::RightCtrl, KeyExpansion::Plain))
    } else if spec_suffix_is(n, i, "rightshift"@) {
        Some(KeyKind::Modifiers(Modifiers::RightShift, KeyExpansion::Plain))
    } else if spec_suffix_is(n, i, "altgr"@) {
        Some(KeyKind::Modifiers(Modifiers::AltGr, KeyExpansion::Plain))
    } else if spec_suffix_is(n, i, "rightos"@) {
        Some(KeyKind::Modifiers(Modifiers::RightOs, KeyExpansion::Plain))
    } else {
        None
    }
}

fn mod_base_display_modifiers(n: &Vec<char>, i: usize) -> (r: Option<KeyKind>)
    requires
        i <= n@.len(),
    ensures
        r == spec_mod_base_display_modifiers(n@, i as int),
{
    if suffix_is(n, i, "leftctrl") {
        Some(KeyKind::Modifiers(Modifiers::LeftCtrl, KeyExpansion::Plain))
    } else if suffix_is(n, i, "leftshift") {
        Some(KeyKind::Modifiers(Modifiers::LeftShift, KeyExpansion::Plain))
    } else if suffix_is(n, i, "leftshift") {
        Some(KeyKind::Modifiers(Modifiers::LeftAlt, KeyExpansion::Plain))
    } else if suffix_is(n, i, "leftos") {
        Some(KeyKind::Modifiers(Modifiers::LeftOs, KeyExpansion::Plain))
    } else if suffix_is(n, i, "rightctrl") {
        Some(KeyKind::Modifiers(Modifiers::RightCtrl, KeyExpansion::Plain))
    } else if suffix_is(n, i, "rightshift") {
        Some(KeyKind::Modifiers(Modifiers::RightShift, KeyExpansion::Plain))
    } else if suffix_is(n, i, "altgr") {
        Some(KeyKind::Modifiers(Modifiers::AltGr, KeyExpansion::Plain))
    } else if suffix_is(n, i, "rightos") {
        Some(KeyKind::Modifiers(Modifiers::RightOs, KeyExpansion::Plain))
    } else {
        None
    }
}

pub open spec fn spec_mod_base_display_navigation(n: Seq<char>, i: int) -> Option<KeyKind> {
    if spec_suffix_is(n, i, "home"@) {
        Some(KeyKind::Navigation(Navigation::Home, KeyExpansion::Plain))
    } else if spec_suffix_is(n, i, "pageup"@) {
        Some(KeyKind::Navigation(Navigation::PageUp, KeyExpansion::Plain))
    } else if spec_suffix_is(n, i, "end"@) {
        Some(KeyKind::Navigation(Navigation::End, KeyExpansion::Plain))
    } else if spec_suffix_is(n, i, "pagedown"@) {
        Some(KeyKind::Navigation(Navigation::PageDown, KeyExpansion::Plain))
    } else if spec_suffix_is(n, i, "rightarrow"@) {
        Some(KeyKind::Navigation(Navigation::ArrowRight, KeyExpansion::Plain))
    } else if spec_suffix_is(n, i, "leftarrow"@) {
        Some(KeyKind::Navigation(Navigation::ArrowLeft, KeyExpansion::Plain))
    } else if spec_suffix_is(n, i, "downarrow"@) {
        Some(KeyKind::Navigation(Navigation::ArrowDown, KeyExpansion::Plain))
    } else if spec_suffix_is(n, i, "uparrow"@) {
        Some(KeyKind::Navigation(Navigation::ArrowUp, KeyExpansion::Plain))
    } else if spec_suffix_is(n, i, "menu"@) {
        Some(KeyKind::Navigation(Navigation::Menu, KeyExpansion::Plain))
    } else {
        None
    }
}

fn mod_base_display_navigation(n: &Vec<char>, i: usize) -> (r: Option<KeyKind>)
    requires
        i <= n@.len(),
    ensures
        r == spec_mod_base_display_navigation(n@, i as int),
{
    if suffix_is(n, i, "home") {
        Some(KeyKind::Navigation(Navigation::Home, KeyExpansion::Plain))
    } else if suffix_is(n, i, "pageup") {
        Some(KeyKind::Navigation(Navigation::PageUp, KeyExpansion::Plain))
    } else if suffix_is(n, i, "end") {
        Some(KeyKind::Navigation(Navigation::End, KeyExpansion::Plain))
    } else if suffix_is(n, i, "pagedown") {
        Some(KeyKind::Navigation(Navigation::PageDown, KeyExpansion::Plain))
    } else if suffix_is(n, i, "rightarrow") {
        Some(KeyKind::Navigation(Navigation::ArrowRight, KeyExpansion::Plain))
    } else if suffix_is(n, i, "leftarrow") {
        Some(KeyKind::Navigation(Navigation::ArrowLeft, KeyExpansion::Plain))
    } else if suffix_is(n, i, "downarrow") {
        Some(KeyKind::Navigation(Navigation::ArrowDown, KeyExpansion::Plain))
    } else if suffix_is(n, i, "uparrow") {
        Some(KeyKind::Navigation(Navigation::ArrowUp, KeyExpansion::Plain))
    } else if suffix_is(n, i, "menu") {
        Some(KeyKind::Navigation(Navigation::Menu, KeyExpansion::Plain))
    } else {
        None
    }
}

pub open spec fn spec_mod_base_display_miscellaneous(n: Seq<char>, i: int) -> Option<KeyKind> {
    if spec_suffix_is(n, i, "printscreen"@) {
        Some(KeyKind::Miscellaneous(Miscellaneous::PrintScreen, KeyExpansion::Plain))
    } else if spec_suffix_is(n, i, "scrolllock"@) {
        Some(KeyKind::Miscellaneous(Miscellaneous::ScrollLock, KeyExpansion::Plain))
    } else if spec_suffix_is(n, i, "pause"@) {
        Some(KeyKind::Miscellaneous(Miscellaneous::Pause, KeyExpansion::Plain))
    } else if spec_suffix_is(n, i, "shutdown"@) {
        Some(KeyKind::Miscellaneous(Miscellaneous::Shutdown, KeyExpansion::Plain))
    } else if spec_suffix_is(n, i, "sleep"@) {
        Some(KeyKind::Miscellaneous(Miscellaneous::Sleep, KeyExpansion::Plain))
    } else {
        None
    }
}

fn mod_base_display_miscellaneous(n: &Vec<char>, i: usize) -> (r: Option<KeyKind>)
    requires
        i <= n@.len(),
    ensures
        r == spec_mod_base_display_miscellaneous(n@, i as int),
{
    if suffix_is(n, i, "printscreen") {
        Some(KeyKind::Miscellaneous(Miscellaneous::PrintScreen, KeyExpansion::Plain))
    } else if suffix_is(n, i, "scrolllock") {
        Some(KeyKind::Miscellaneous(Miscellaneous::ScrollLock, KeyExpansion::Plain))
    } else if suffix_is(n, i, "pause") {
        Some(KeyKind::Miscellaneous(Miscellaneous::Pause, KeyExpansion::Plain))
    } else if suffix_is(n, i, "shutdown") {
        Some(KeyKind::Miscellaneous(Miscellaneous::Shutdown, KeyExpansion::Plain))
    } else if suffix_is(n, i, "sleep") {
        Some(KeyKind::Miscellaneous(Miscellaneous::Sleep, KeyExpansion::Plain))
    } else {
        None
    }
}

/// The modifier-expandable base key whose display name stands from
/// position `i` to the end of the name.
pub open spec fn spec_mod_base_display(n: Seq<char>, i: int) -> Option<KeyKind> {
    if spec_mod_base_display_spacing(n, i) is Some {
        spec_mod_base_display_spacing(n, i)
    } else if spec_mod_base_display_alpha(n, i) is Some {
        spec_mod_base_display_alpha(n, i)
    } else if spec_mod_base_display_digits(n, i) is Some {
        spec_mod_base_display_digits(n, i)
    } else if spec_mod_base_display_numpad(n, i) is Some {
        spec_mod_base_display_numpad(n, i)
    } else if spec_mod_base_display_fx(n, i) is Some {
        spec_mod_base_display_fx(n, i)
    } else if spec_mod_base_display_symbols(n, i) is Some {
        spec_mod_base_display_symbols(n, i)
    } else if spec_mod_base_display_modifiers(n, i) is Some {
        spec_mod_base_display_modifiers(n, i)
    } else if spec_mod_base_display_navigation(n, i) is Some {
        spec_mod_base_display_navigation(n, i)
    } else if spec_mod_base_display_miscellaneous(n, i) is Some {
        spec_mod_base_display_miscellaneous(n, i)
    } else {
        None
    }
}

fn mod_base_display(n: &Vec<char>, i: usize) -> (r: Option<KeyKind>)
    requires
        i <= n@.len(),
    ensures
        r == spec_mod_base_display(n@, i as int),
{
    if let Some(k) = mod_base_display_spacing(n, i) {
        return Some(k);
    }
    if let Some(k) = mod_base_display_alpha(n, i) {
        return Some(k);
    }
    if let Some(k) = mod_base_display_digits(n, i) {
        return Some(k);
    }
    if let Some(k) = mod_base_display_numpad(n, i) {
        return Some(k);
    }
    if let Some(k) = mod_base_display_fx(n, i) {
        return Some(k);
    }
    if let Some(k) = mod_base_display_symbols(n, i) {
        return Some(k);
    }
    if let Some(k) = mod_base_display_modifiers(n, i) {
        return Some(k);
    }
    if let Some(k) = mod_base_display_navigation(n, i) {
        return Some(k);
    }
    if let Some(k) = mod_base_display_miscellaneous(n, i) {
        return Some(k);
    }
    None
}

pub open spec fn spec_mod_base_debug_spacing(n: Seq<char>, i: int) -> Option<KeyKind> {
    if spec_suffix_is(n, i, "enter"@) {
        Some(KeyKind::Spacing(Spacing::Enter, KeyExpansion::Plain))
    } else if spec_suffix_is(n, i, "escape"@) {
        Some(KeyKind::Spacing(Spacing::Escape, KeyExpansion::Plain))
    } else if spec_suffix_is(n, i, "backspace"@) {
        Some(KeyKind::Spacing(Spacing::Backspace, KeyExpansion::Plain))
    } else if spec_suffix_is(n, i, "tab"@) {
        Some(KeyKind::Spacing(Spacing::Tab, KeyExpansion::Plain))
    } else if spec_suffix_is(n, i, "space"@) {
        Some(KeyKind::Spacing(Spacing::Space, KeyExpansion::Plain))
    } else if spec_suffix_is(n, i, "insert"@) {
        Some(KeyKind::Spacing(Spacing::Insert, KeyExpansion::Plain))
    } else if spec_suffix_is(n, i, "delete"@) {
        Some(KeyKind::Spacing(Spacing::Delete, KeyExpansion::Plain))
    } else {
        None
    }
}

fn mod_base_debug_spacing(n: &Vec<char>, i: usize) -> (r: Option<KeyKind>)
    requires
        i <= n@.len(),
    ensures
        r == spec_mod_base_debug_spacing(n@, i as int),
{
    if suffix_is(n, i, "enter") {
        Some(KeyKind::Spacing(Spacing::Enter, KeyExpansion::Plain))
    } else if suffix_is(n, i, "escape") {
        Some(KeyKind::Spacing(Spacing::Escape, KeyExpansion::Plain))
    } else if suffix_is(n, i, "backspace") {
        Some(KeyKind::Spacing(Spacing::Backspace, KeyExpansion::Plain))
    } else if suffix_is(n, i, "tab") {
        Some(KeyKind::Spacing(Spacing::Tab, KeyExpansion::Plain))
    } else if suffix_is(n, i, "space") {
        Some(KeyKind::Spacing(Spacing::Space, KeyExpansion::Plain))
    } else if suffix_is(n, i, "insert") {
        Some(KeyKind::Spacing(Spacing::Insert, KeyExpansion::Plain))
    } else if suffix_is(n, i, "delete") {
        Some(KeyKind::Spacing(Spacing::Delete, KeyExpansion::Plain))
    } else {
        None
    }
}

pub open spec fn spec_mod_base_debug_alpha(n: Seq<char>, i: int) -> Option<KeyKind> {
    if spec_suffix_is(n, i, "a"@) {
        Some(KeyKind::Alpha(Alpha::A, KeyExpansion::Plain))
    } else if spec_suffix_is(n, i, "b"@) {
        Some(KeyKind::Alpha(Alpha::B, KeyExpansion::Plain))
    } else if spec_suffix_is(n, i, "c"@) {
        Some(KeyKind::Alpha(Alpha::C, KeyExpansion::Plain))
    } else if spec_suffix_is(n, i, "d"@) {
        Some(KeyKind::Alpha(Alpha::D, KeyExpansion::Plain))
    } else if spec_suffix_is(n, i, "e"@) {
        Some(KeyKind::Alpha(Alpha::E, KeyExpansion::Plain))
    } else if spec_suffix_is(n, i, "f"@) {
        Some(KeyKind::Alpha(Alpha::F, KeyExpansion::Plain))
    } else if spec_suffix_is(n, i, "g"@) {
        Some(KeyKind::Alpha(Alpha::G, KeyExpansion::Plain))
    } else if spec_suffix_is(n, i, "h"@) {
        Some(KeyKind::Alpha(Alpha::H, KeyExpansion::Plain))
    } else if spec_suffix_is(n, i, "i"@) {
        Some(KeyKind::Alpha(Alpha::I, KeyExpansion::Plain))
    } else if spec_suffix_is(n, i, "j"@) {
        Some(KeyKind::Alpha(Alpha::J, KeyExpansion::Plain))
    } else if spec_suffix_is(n, i, "k"@) {
        Some(KeyKind::Alpha(Alpha::K, KeyExpansion::Plain))
    } else if spec_suffix_is(n, i, "l"@) {
        Some(KeyKind::Alpha(Alpha::L, KeyExpansion::Plain))
    } else if spec_suffix_is(n, i, "m"@) {
        Some(KeyKind::Alpha(Alpha::M, KeyExpansion::Plain))
    } else if spec_suffix_is(n, i, "n"@) {
        Some(KeyKind::Alpha(Alpha::N, KeyExpansion::Plain))
    } else if spec_suffix_is(n, i, "o"@) {
        Some(KeyKind::Alpha(Alpha::O, KeyExpansion::Plain))
    } else if spec_suffix_is(n, i, "p"@) {
        Some(KeyKind::Alpha(Alpha::P, KeyExpansion::Plain))
    } else if spec_suffix_is(n, i, "q"@) {
        Some(KeyKind::Alpha(Alpha::Q, KeyExpansion::Plain))
    } else if spec_suffix_is(n, i, "r"@) {
        Some(KeyKind::Alpha(Alpha::R, KeyExpansion::Plain))
    } else if spec_suffix_is(n, i, "s"@) {
        Some(KeyKind::Alpha(Alpha::S, KeyExpansion::Plain))
    } else if spec_suffix_is(n, i, "t"@) {
        Some(KeyKind::Alpha(Alpha::T, KeyExpansion::Plain))
    } else if spec_suffix_is(n, i, "u"@) {
        Some(KeyKind::Alpha(Alpha::U, KeyExpansion::Plain))
    } else if spec_suffix_is(n, i, "v"@) {
        Some(KeyKind::Alpha(Alpha::V, KeyExpansion::Plain))
    } else if spec_suffix_is(n, i, "w"@) {
        Some(KeyKind::Alpha(Alpha::W, KeyExpansion::Plain))
    } else if spec_suffix_is(n, i, "x"@) {
        Some(KeyKind::Alpha(Alpha::X, KeyExpansion::Plain))
    } else if spec_suffix_is(n, i, "y"@) {
        Some(KeyKind::Alpha(Alpha::Y, KeyExpansion::Plain))
    } else if spec_suffix_is(n, i, "z"@) {
        Some(KeyKind::Alpha(Alpha::Z, KeyExpansion::Plain))
    } else {
        None
    }
}

fn mod_base_debug_alpha(n: &Vec<char>, i: usize) -> (r: Option<KeyKind>)
    requires
        i <= n@.len(),
    ensures
        r == spec_mod_base_debug_alpha(n@, i as int),
{
    if suffix_is(n, i, "a") {
        Some(KeyKind::Alpha(Alpha::A, KeyExpansion::Plain))
    } else if suffix_is(n, i, "b") {
        Some(KeyKind::Alpha(Alpha::B, KeyExpansion::Plain))
    } else if suffix_is(n, i, "c") {
        Some(KeyKind::Alpha(Alpha::C, KeyExpansion::Plain))
    } else if suffix_is(n, i, "d") {
        Some(KeyKind::Alpha(Alpha::D, KeyExpansion::Plain))
    } else if suffix_is(n, i, "e") {
        Some(KeyKind::Alpha(Alpha::E, KeyExpansion::Plain))
    } else if suffix_is(n, i, "f") {
        Some(KeyKind::Alpha(Alpha::F, KeyExpansion::Plain))
    } else if suffix_is(n, i, "g") {
        Some(KeyKind::Alpha(Alpha::G, KeyExpansion::Plain))
    } else if suffix_is(n, i, "h") {
        Some(KeyKind::Alpha(Alpha::H, KeyExpansion::Plain))
    } else if suffix_is(n, i, "i") {
        Some(KeyKind::Alpha(Alpha::I, KeyExpansion::Plain))
    } else if suffix_is(n, i, "j") {
        Some(KeyKind::Alpha(Alpha::J, KeyExpansion::Plain))
    } else if suffix_is(n, i, "k") {
        Some(KeyKind::Alpha(Alpha::K, KeyExpansion::Plain))
    } else if suffix_is(n, i, "l") {
        Some(KeyKind::Alpha(Alpha::L, KeyExpansion::Plain))
    } else if suffix_is(n, i, "m") {
        Some(KeyKind::Alpha(Alpha::M, KeyExpansion::Plain))
    } else if suffix_is(n, i, "n") {
        Some(KeyKind::Alpha(Alpha::N, KeyExpansion::Plain))
    } else if suffix_is(n, i, "o") {
        Some(KeyKind::Alpha(Alpha::O, KeyExpansion::Plain))
    } else if suffix_is(n, i, "p") {
        Some(KeyKind::Alpha(Alpha::P, KeyExpansion::Plain))
    } else if suffix_is(n, i, "q") {
        Some(KeyKind::Alpha(Alpha::Q, KeyExpansion::Plain))
    } else if suffix_is(n, i, "r") {
        Some(KeyKind::Alpha(Alpha::R, KeyExpansion::Plain))
    } else if suffix_is(n, i, "s") {
        Some(KeyKind::Alpha(Alpha::S, KeyExpansion::Plain))
    } else if suffix_is(n, i, "t") {
        Some(KeyKind::Alpha(Alpha::T, KeyExpansion::Plain))
    } else if suffix_is(n, i, "u") {
        Some(KeyKind::Alpha(Alpha::U, KeyExpansion::Plain))
    } else if suffix_is(n, i, "v") {
        Some(KeyKind::Alpha(Alpha::V, KeyExpansion::Plain))
    } else if suffix_is(n, i, "w") {
        Some(KeyKind::Alpha(Alpha::W, KeyExpansion::Plain))
    } else if suffix_is(n, i, "x") {
        Some(KeyKind::Alpha(Alpha::X, KeyExpansion::Plain))
    } else if suffix_is(n, i, "y") {
        Some(KeyKind::Alpha(Alpha::Y, KeyExpansion::Plain))
    } else if suffix_is(n, i, "z") {
        Some(KeyKind::Alpha(Alpha::Z, KeyExpansion::Plain))
    } else {
        None
    }
}

pub open spec fn spec_mod_base_debug_digits(n: Seq<char>, i: int) -> Option<KeyKind> {
    if spec_suffix_is(n, i, "one"@) {
        Some(KeyKind::Digits(Digits::One, KeyExpansion::Plain))
    } else if spec_suffix_is(n, i, "two"@) {
        Some(KeyKind::Digits(Digits::Two, KeyExpansion::Plain))
    } else if spec_suffix_is(n, i, "three"@) {
        Some(KeyKind::Digits(Digits::Three, KeyExpansion::Plain))
    } else if spec_suffix_is(n, i, "four"@) {
        Some(KeyKind::Digits(Digits::Four, KeyExpansion::Plain))
    } else if spec_suffix_is(n, i, "five"@) {
        Some(KeyKind::Digits(Digits::Five, KeyExpansion::Plain))
    } else if spec_suffix_is(n, i, "six"@) {
        Some(KeyKind::Digits(Digits::Six, KeyExpansion::Plain))
    } else if spec_suffix_is(n, i, "seven"@) {
        Some(KeyKind::Digits(Digits::Seven, KeyExpansion::Plain))
    } else if spec_suffix_is(n, i, "eight"@) {
        Some(KeyKind::Digits(Digits::Eight, KeyExpansion::Plain))
    } else if spec_suffix_is(n, i, "nine"@) {
        Some(KeyKind::Digits(Digits::Nine, KeyExpansion::Plain))
    } else if spec_suffix_is(n, i, "zero"@) {
        Some(KeyKind::Digits(Digits::Zero, KeyExpansion::Plain))
    } else {
        None
    }
}

fn mod_base_debug_digits(n: &Vec<char>, i: usize) -> (r: Option<KeyKind>)
    requires
        i <= n@.len(),
    ensures
        r == spec_mod_base_debug_digits(n@, i as int),
{
    if suffix_is(n, i, "one") {
        Some(KeyKind::Digits(Digits::One, KeyExpansion::Plain))
    } else if suffix_is(n, i, "two") {
        Some(KeyKind::Digits(Digits::Two, KeyExpansion::Plain))
    } else if suffix_is(n, i, "three") {
        Some(KeyKind::Digits(Digits::Three, KeyExpansion::Plain))
    } else if suffix_is(n, i, "four") {
        Some(KeyKind::Digits(Digits::Four, KeyExpansion::Plain))
    } else if suffix_is(n, i, "five") {
        Some(KeyKind::Digits(Digits::Five, KeyExpansion::Plain))
    } else if suffix_is(n, i, "six") {
        Some(KeyKind::Digits(Digits::Six, KeyExpansion::Plain))
    } else if suffix_is(n, i, "seven") {
        Some(KeyKind::Digits(Digits::Seven, KeyExpansion::Plain))
    } else if suffix_is(n, i, "eight") {
        Some(KeyKind::Digits(Digits::Eight, KeyExpansion::Plain))
    } else if suffix_is(n, i, "nine") {
        Some(KeyKind::Digits(Digits::Nine, KeyExpansion::Plain))
    } else if suffix_is(n, i, "zero") {
        Some(KeyKind::Digits(Digits::Zero, KeyExpansion::Plain))
    } else {
        None
    }
}

pub open spec fn spec_mod_base_debug_numpad(n: Seq<char>, i: int) -> Option<KeyKind> {
    if spec_suffix_is(n, i, "numlock"@) {
        Some(KeyKind::Numpad(Numpad::NumLock, KeyExpansion::Plain))
    } else if spec_suffix_is(n, i, "divide"@) {
        Some(KeyKind::Numpad(Numpad::Divide, KeyExpansion::Plain))
    } else if spec_suffix_is(n, i, "times"@) {
        Some(KeyKind::Numpad(Numpad::Times, KeyExpansion::Plain))
    } else if spec_suffix_is(n, i, "minus"@) {
        Some(KeyKind::Numpad(Numpad::Minus, KeyExpansion::Plain))
    } else if spec_suffix_is(n, i, "add"@) {
        Some(KeyKind::Numpad(Numpad::Add, KeyExpansion::Plain))
    } else if spec_suffix_is(n, i, "enter"@) {
        Some(KeyKind::Numpad(Numpad::Enter, KeyExpansion::Plain))
    } else if spec_suffix_is(n, i, "one"@) {
        Some(KeyKind::Numpad(Numpad::One, KeyExpansion::Plain))
    } else if spec_suffix_is(n, i, "two"@) {
        Some(KeyKind::Numpad(Numpad::Two, KeyExpansion::Plain))
    } else if spec_suffix_is(n, i, "three"@) {
        Some(KeyKind::Numpad(Numpad::Three, KeyExpansion::Plain))
    } else if spec_suffix_is(n, i, "four"@) {
        Some(KeyKind::Numpad(Numpad::Four, KeyExpansion::Plain))
    } else if spec_suffix_is(n, i, "five"@) {
        Some(KeyKind::Numpad(Numpad::Five, KeyExpansion::Plain))
    } else if spec_suffix_is(n, i, "six"@) {
        Some(KeyKind::Numpad(Numpad::Six, KeyExpansion::Plain))
    } else if spec_suffix_is(n, i, "seven"@) {
        Some(KeyKind::Numpad(Numpad::Seven, KeyExpansion::Plain))
    } else if spec_suffix_is(n, i, "eight"@) {
        Some(KeyKind::Numpad(Numpad::Eight, KeyExpansion::Plain))
    } else if spec_suffix_is(n, i, "nine"@) {
        Some(KeyKind::Numpad(Numpad::Nine, KeyExpansion::Plain))
    } else if spec_suffix_is(n, i, "zero"@) {
        Some(KeyKind::Numpad(Numpad::Zero, KeyExpansion::Plain))
    } else if spec_suffix_is(n, i, "period"@) {
        Some(KeyKind::Numpad(Numpad::Period, KeyExpansion::Plain))
    } else {
        None
    }
}

fn mod_base_debug_numpad(n: &Vec<char>, i: usize) -> (r: Option<KeyKind>)
    requires
        i <= n@.len(),
    ensures
        r == spec_mod_base_debug_numpad(n@, i as int),
{
    if suffix_is(n, i, "numlock") {
        Some(KeyKind::Numpad(Numpad::NumLock, KeyExpansion::Plain))
    } else if suffix_is(n, i, "divide") {
        Some(KeyKind::Numpad(Numpad::Divide, KeyExpansion::Plain))
    } else if suffix_is(n, i, "times") {
        Some(KeyKind::Numpad(Numpad::Times, KeyExpansion::Plain))
    } else if suffix_is(n, i, "minus") {
        Some(KeyKind::Numpad(Numpad::Minus, KeyExpansion::Plain))
    } else if suffix_is(n, i, "add") {
        Some(KeyKind::Numpad(Numpad::Add, KeyExpansion::Plain))
    } else if suffix_is(n, i, "enter") {
        Some(KeyKind::Numpad(Numpad::Enter, KeyExpansion::Plain))
    } else if suffix_is(n, i, "one") {
        Some(KeyKind::Numpad(Numpad::One, KeyExpansion::Plain))
    } else if suffix_is(n, i, "two") {
        Some(KeyKind::Numpad(Numpad::Two, KeyExpansion::Plain))
    } else if suffix_is(n, i, "three") {
        Some(KeyKind::Numpad(Numpad::Three, KeyExpansion::Plain))
    } else if suffix_is(n, i, "four") {
        Some(KeyKind::Numpad(Numpad::Four, KeyExpansion::Plain))
    } else if suffix_is(n, i, "five") {
        Some(KeyKind::Numpad(Numpad::Five, KeyExpansion::Plain))
    } else if suffix_is(n, i, "six") {
        Some(KeyKind::Numpad(Numpad::Six, KeyExpansion::Plain))
    } else if suffix_is(n, i, "seven") {
        Some(KeyKind::Numpad(Numpad::Seven, KeyExpansion::Plain))
    } else if suffix_is(n, i, "eight") {
        Some(KeyKind::Numpad(Numpad::Eight, KeyExpansion::Plain))
    } else if suffix_is(n, i, "nine") {
        Some(KeyKind::Numpad(Numpad::Nine, KeyExpansion::Plain))
    } else if suffix_is(n, i, "zero") {
        Some(KeyKind::Numpad(Numpad::Zero, KeyExpansion::Plain))
    } else if suffix_is(n, i, "period") {
        Some(KeyKind::Numpad(Numpad::Period, KeyExpansion::Plain))
    } else {
        None
    }
}

pub open spec fn spec_mod_base_debug_fx(n: Seq<char>, i: int) -> Option<KeyKind> {
    if spec_suffix_is(n, i, "f1"@) {
        Some(KeyKind::Fx(Fx::F1, KeyExpansion::Plain))
    } else if spec_suffix_is(n, i, "f2"@) {
        Some(KeyKind::Fx(Fx::F2, KeyExpansion::Plain))
    } else if spec_suffix_is(n, i, "f3"@) {
        Some(KeyKind::Fx(Fx::F3, KeyExpansion::Plain))
    } else if spec_suffix_is(n, i, "f4"@) {
        Some(KeyKind::Fx(Fx::F4, KeyExpansion::Plain))
    } else if spec_suffix_is(n, i, "f5"@) {
        Some(KeyKind::Fx(Fx::F5, KeyExpansion::Plain))
    } else if spec_suffix_is(n, i, "f6"@) {
        Some(KeyKind::Fx(Fx::F6, KeyExpansion::Plain))
    } else if spec_suffix_is(n, i, "f7"@) {
        Some(KeyKind::Fx(Fx::F7, KeyExpansion::Plain))
    } else if spec_suffix_is(n, i, "f8"@) {
        Some(KeyKind::Fx(Fx::F8, KeyExpansion::Plain))
    } else if spec_suffix_is(n, i, "f9"@) {
        Some(KeyKind::Fx(Fx::F9, KeyExpansion::Plain))
    } else if spec_suffix_is(n, i, "f10"@) {
        Some(KeyKind::Fx(Fx::F10, KeyExpansion::Plain))
    } else if spec_suffix_is(n, i, "f11"@) {
        Some(KeyKind::Fx(Fx::F11, KeyExpansion::Plain))
    } else if spec_suffix_is(n, i, "f12"@) {
        Some(KeyKind::Fx(Fx::F12, KeyExpansion::Plain))
    } else if spec_suffix_is(n, i, "f13"@) {
        Some(KeyKind::Fx(Fx::F13, KeyExpansion::Plain))
    } else if spec_suffix_is(n, i, "f14"@) {
        Some(KeyKind::Fx(Fx::F14, KeyExpansion::Plain))
    } else if spec_suffix_is(n, i, "f15"@) {
        Some(KeyKind::Fx(Fx::F15, KeyExpansion::Plain))
    } else if spec_suffix_is(n, i, "f16"@) {
        Some(KeyKind::Fx(Fx::F16, KeyExpansion::Plain))
    } else if spec_suffix_is(n, i, "f17"@) {
        Some(KeyKind::Fx(Fx::F17, KeyExpansion::Plain))
    } else if spec_suffix_is(n, i, "f18"@) {
        Some(KeyKind::Fx(Fx::F18, KeyExpansion::Plain))
    } else if spec_suffix_is(n, i, "f19"@) {
        Some(KeyKind::Fx(Fx::F19, KeyExpansion::Plain))
    } else if spec_suffix_is(n, i, "f20"@) {
        Some(KeyKind::Fx(Fx::F20, KeyExpansion::Plain))
    } else if spec_suffix_is(n, i, "f21"@) {
        Some(KeyKind::Fx(Fx::F21, KeyExpansion::Plain))
    } else if spec_suffix_is(n, i, "f22"@) {
        Some(KeyKind::Fx(Fx::F22, KeyExpansion::Plain))
    } else if spec_suffix_is(n, i, "f23"@) {
        Some(KeyKind::Fx(Fx::F23, KeyExpansion::Plain))
    } else if spec_suffix_is(n, i, "f24"@) {
        Some(KeyKind::Fx(Fx::F24, KeyExpansion::Plain))
    } else {
        None
    }
}

fn mod_base_debug_fx(n: &Vec<char>, i: usize) -> (r: Option<KeyKind>)
    requires
        i <= n@.len(),
    ensures
        r == spec_mod_base_debug_fx(n@, i as int),
{
    if suffix_is(n, i, "f1") {
        Some(KeyKind::Fx(Fx::F1, KeyExpansion::Plain))
    } else if suffix_is(n, i, "f2") {
        Some(KeyKind::Fx(Fx::F2, KeyExpansion::Plain))
    } else if suffix_is(n, i, "f3") {
        Some(KeyKind::Fx(Fx::F3, KeyExpansion::Plain))
    } else if suffix_is(n, i, "f4") {
        Some(KeyKind::Fx(Fx::F4, KeyExpansion::Plain))
    } else if suffix_is(n, i, "f5") {
        Some(KeyKind::Fx(Fx::F5, KeyExpansion::Plain))
    } else if suffix_is(n, i, "f6") {
        Some(KeyKind::Fx(Fx::F6, KeyExpansion::Plain))
    } else if suffix_is(n, i, "f7") {
        Some(KeyKind::Fx(Fx::F7, KeyExpansion::Plain))
    } else if suffix_is(n, i, "f8") {
        Some(KeyKind::Fx(Fx::F8, KeyExpansion::Plain))
    } else if suffix_is(n, i, "f9") {
        Some(KeyKind::Fx(Fx::F9, KeyExpansion::Plain))
    } else if suffix_is(n, i, "f10") {
        Some(KeyKind::Fx(Fx::F10, KeyExpansion::Plain))
    } else if suffix_is(n, i, "f11") {
        Some(KeyKind::Fx(Fx::F11, KeyExpansion::Plain))
    } else if suffix_is(n, i, "f12") {
        Some(KeyKind::Fx(Fx::F12, KeyExpansion::Plain))
    } else if suffix_is(n, i, "f13") {
        Some(KeyKind::Fx(Fx::F13, KeyExpansion::Plain))
    } else if suffix_is(n, i, "f14") {
        Some(KeyKind::Fx(Fx::F14, KeyExpansion::Plain))
    } else if suffix_is(n, i, "f15") {
        Some(KeyKind::Fx(Fx::F15, KeyExpansion::Plain))
    } else if suffix_is(n, i, "f16") {
        Some(KeyKind::Fx(Fx::F16, KeyExpansion::Plain))
    } else if suffix_is(n, i, "f17") {
        Some(KeyKind::Fx(Fx::F17, KeyExpansion::Plain))
    } else if suffix_is(n, i, "f18") {
        Some(KeyKind::Fx(Fx::F18, KeyExpansion::Plain))
    } else if suffix_is(n, i, "f19") {
        Some(KeyKind::Fx(Fx::F19, KeyExpansion::Plain))
    } else if suffix_is(n, i, "f20") {
        Some(KeyKind::Fx(Fx::F20, KeyExpansion::Plain))
    } else if suffix_is(n, i, "f21") {
        Some(KeyKind::Fx(Fx::F21, KeyExpansion::Plain))
    } else if suffix_is(n, i, "f22") {
        Some(KeyKind::Fx(Fx::F22, KeyExpansion::Plain))
    } else if suffix_is(n, i, "f23") {
        Some(KeyKind::Fx(Fx::F23, KeyExpansion::Plain))
    } else if suffix_is(n, i, "f24") {
        Some(KeyKind::Fx(Fx::F24, KeyExpansion::Plain))
    } else {
        None
    }
}

pub open spec fn spec_mod_base_debug_symbols(n: Seq<char>, i: int) -> Option<KeyKind> {
    if spec_suffix_is(n, i, "dash"@) {
        Some(KeyKind::Symbols(Symbols::Dash, KeyExpansion::Plain))
    } else if spec_suffix_is(n, i, "equals"@) {
        Some(KeyKind::Symbols(Symbols::Equals, KeyExpansion::Plain))
    } else if spec_suffix_is(n, i, "bracketleft"@) {
        Some(KeyKind::Symbols(Symbols::BracketLeft, KeyExpansion::Plain))
    } else if spec_suffix_is(n, i, "bracketright"@) {
        Some(KeyKind::Symbols(Symbols::BracketRight, KeyExpansion::Plain))
    } else if spec_suffix_is(n, i, "backslash"@) {
        Some(KeyKind::Symbols(Symbols::Backslash, KeyExpansion::Plain))
    } else if spec_suffix_is(n, i, "semicolon"@) {
        Some(KeyKind::Symbols(Symbols::Semicolon, KeyExpansion::Plain))
    } else if spec_suffix_is(n, i, "singlequote"@) {
        Some(KeyKind::Symbols(Symbols::SingleQuote, KeyExpansion::Plain))
    } else if spec_suffix_is(n, i, "backtick"@) {
        Some(KeyKind::Symbols(Symbols::BackTick, KeyExpansion::Plain))
    } else if spec_suffix_is(n, i, "comma"@) {
        Some(KeyKind::Symbols(Symbols::Comma, KeyExpansion::Plain))
    } else if spec_suffix_is(n, i, "period"@) {
        Some(KeyKind::Symbols(Symbols::Period, KeyExpansion::Plain))
    } else if spec_suffix_is(n, i, "slash"@) {
        Some(KeyKind::Symbols(Symbols::Slash, KeyExpansion::Plain))
    } else if spec_suffix_is(n, i, "capslock"@) {
        Some(KeyKind::Symbols(Symbols::CapsLock, KeyExpansion::Plain))
    } else if spec_suffix_is(n, i, "isogtlt"@) {
        Some(KeyKind::Symbols(Symbols::IsoGTLT, KeyExpansion::Plain))
    } else {
        None
    }
}

fn mod_base_debug_symbols(n: &Vec<char>, i: usize) -> (r: Option<KeyKind>)
    requires
        i <= n@.len(),
    ensures
        r == spec_mod_base_debug_symbols(n@, i as int),
{
    if suffix_is(n, i, "dash") {
        Some(KeyKind::Symbols(Symbols::Dash, KeyExpansion::Plain))
    } else if suffix_is(n, i, "equals") {
        Some(KeyKind::Symbols(Symbols::Equals, KeyExpansion::Plain))
    } else if suffix_is(n, i, "bracketleft") {
        Some(KeyKind::Symbols(Symbols::BracketLeft, KeyExpansion::Plain))
    } else if suffix_is(n, i, "bracketright") {
        Some(KeyKind::Symbols(Symbols::BracketRight, KeyExpansion::Plain))
    } else if suffix_is(n, i, "backslash") {
        Some(KeyKind::Symbols(Symbols::Backslash, KeyExpansion::Plain))
    } else if suffix_is(n, i, "semicolon") {
        Some(KeyKind::Symbols(Symbols::Semicolon, KeyExpansion::Plain))
    } else if suffix_is(n, i, "singlequote") {
        Some(KeyKind::Symbols(Symbols::SingleQuote, KeyExpansion::Plain))
    } else if suffix_is(n, i, "backtick") {
        Some(KeyKind::Symbols(Symbols::BackTick, KeyExpansion::Plain))
    } else if suffix_is(n, i, "comma") {
        Some(KeyKind::Symbols(Symbols::Comma, KeyExpansion::Plain))
    } else if suffix_is(n, i, "period") {
        Some(KeyKind::Symbols(Symbols::Period, KeyExpansion::Plain))
    } else if suffix_is(n, i, "slash") {
        Some(KeyKind::Symbols(Symbols::Slash, KeyExpansion::Plain))
    } else if suffix_is(n, i, "capslock") {
        Some(KeyKind::Symbols(Symbols::CapsLock, KeyExpansion::Plain))
    } else if suffix_is(n, i, "isogtlt") {
        Some(KeyKind::Symbols(Symbols::IsoGTLT, KeyExpansion::Plain))
    } else {
        None
    }
}

pub open spec fn spec_mod_base_debug_modifiers(n: Seq<char>, i: int) -> Option<KeyKind> {
    if spec_suffix_is(n, i, "leftctrl"@) {
        Some(KeyKind::Modifiers(Modifiers::LeftCtrl, KeyExpansion::Plain))
    } else if spec_suffix_is(n, i, "leftshift"@) {
        Some(KeyKind::Modifiers(Modifiers::LeftShift, KeyExpansion::Plain))
    } else if spec_suffix_is(n, i, "leftalt"@) {
        Some(KeyKind::Modifiers(Modifiers::LeftAlt, KeyExpansion::Plain))
    } else if spec_suffix_is(n, i, "leftos"@) {
        Some(KeyKind::Modifiers(Modifiers::LeftOs, KeyExpansion::Plain))
    } else if spec_suffix_is(n, i, "rightctrl"@) {
        Some(KeyKind::Modifiers(Modifiers::RightCtrl, KeyExpansion::Plain))
    } else if spec_suffix_is(n, i, "rightshift"@) {
        Some(KeyKind::Modifiers(Modifiers::RightShift, KeyExpansion::Plain))
    } else if spec_suffix_is(n, i, "altgr"@) {
        Some(KeyKind::Modifiers(Modifiers::AltGr, KeyExpansion::Plain))
    } else if spec_suffix_is(n, i, "rightos"@) {
        Some(KeyKind::Modifiers(Modifiers::RightOs, KeyExpansion::Plain))
    } else {
        None
    }
}

fn mod_base_debug_modifiers(n: &Vec<char>, i: usize) -> (r: Option<KeyKind>)
    requires
        i <= n@.len(),
    ensures
        r == spec_mod_base_debug_modifiers(n@, i as int),
{
    if suffix_is(n, i, "leftctrl") {
        Some(KeyKind::Modifiers(Modifiers::LeftCtrl, KeyExpansion::Plain))
    } else if suffix_is(n, i, "leftshift") {
        Some(KeyKind::Modifiers(Modifiers::LeftShift, KeyExpansion::Plain))
    } else if suffix_is(n, i, "leftalt") {
        Some(KeyKind::Modifiers(Modifiers::LeftAlt, KeyExpansion::Plain))
    } else if suffix_is(n, i, "leftos") {
        Some(KeyKind::Modifiers(Modifiers::LeftOs, KeyExpansion::Plain))
    } else if suffix_is(n, i, "rightctrl") {
        Some(KeyKind::Modifiers(Modifiers::RightCtrl, KeyExpansion::Plain))
    } else if suffix_is(n, i, "rightshift") {
        Some(KeyKind::Modifiers(Modifiers::RightShift, KeyExpansion::Plain))
    } else if suffix_is(n, i, "altgr") {
        Some(KeyKind::Modifiers(Modifiers::AltGr, KeyExpansion::Plain))
    } else if suffix_is(n, i, "rightos") {
        Some(KeyKind::Modifiers(Modifiers::RightOs, KeyExpansion::Plain))
    } else {
        None
    }
}

pub open spec fn spec_mod_base_debug_navigation(n: Seq<char>, i: int) -> Option<KeyKind> {
    if spec_suffix_is(n, i, "home"@) {
        Some(KeyKind::Navigation(Navigation::Home, KeyExpansion::Plain))
    } else if spec_suffix_is(n, i, "pageup"@) {
        Some(KeyKind::Navigation(Navigation::PageUp, KeyExpansion::Plain))
    } else if spec_suffix_is(n, i, "end"@) {
        Some(KeyKind::Navigation(Navigation::End, KeyExpansion::Plain))
    } else if spec_suffix_is(n, i, "pagedown"@) {
        Some(KeyKind::Navigation(Navigation::PageDown, KeyExpansion::Plain))
    } else if spec_suffix_is(n, i, "arrowright"@) {
        Some(KeyKind::Navigation(Navigation::ArrowRight, KeyExpansion::Plain))
    } else if spec_suffix_is(n, i, "arrowleft"@) {
        Some(KeyKind::Navigation(Navigation::ArrowLeft, KeyExpansion::Plain))
    } else if spec_suffix_is(n, i, "arrowdown"@) {
        Some(KeyKind::Navigation(Navigation::ArrowDown, KeyExpansion::Plain))
    } else if spec_suffix_is(n, i, "arrowup"@) {
        Some(KeyKind::Navigation(Navigation::ArrowUp, KeyExpansion::Plain))
    } else if spec_suffix_is(n, i, "menu"@) {
        Some(KeyKind::Navigation(Navigation::Menu, KeyExpansion::Plain))
    } else {
        None
    }
}

fn mod_base_debug_navigation(n: &Vec<char>, i: usize) -> (r: Option<KeyKind>)
    requires
        i <= n@.len(),
    ensures
        r == spec_mod_base_debug_navigation(n@, i as int),
{
    if suffix_is(n, i, "home") {
        Some(KeyKind::Navigation(Navigation::Home, KeyExpansion::Plain))
    } else if suffix_is(n, i, "pageup") {
        Some(KeyKind::Navigation(Navigation::PageUp, KeyExpansion::Plain))
    } else if suffix_is(n, i, "end") {
        Some(KeyKind::Navigation(Navigation::End, KeyExpansion::Plain))
    } else if suffix_is(n, i, "pagedown") {
        Some(KeyKind::Navigation(Navigation::PageDown, KeyExpansion::Plain))
    } else if suffix_is(n, i, "arrowright") {
        Some(KeyKind::Navigation(Navigation::ArrowRight, KeyExpansion::Plain))
    } else if suffix_is(n, i, "arrowleft") {
        Some(KeyKind::Navigation(Navigation::ArrowLeft, KeyExpansion::Plain))
    } else if suffix_is(n, i, "arrowdown") {
        Some(KeyKind::Navigation(Navigation::ArrowDown, KeyExpansion::Plain))
    } else if suffix_is(n, i, "arrowup") {
        Some(KeyKind::Navigation(Navigation::ArrowUp, KeyExpansion::Plain))
    } else if suffix_is(n, i, "menu") {
        Some(KeyKind::Navigation(Navigation::Menu, KeyExpansion::Plain))
    } else {
        None
    }
}

pub open spec fn spec_mod_base_debug_miscellaneous(n: Seq<char>, i: int) -> Option<KeyKind> {
    if spec_suffix_is(n, i, "printscreen"@) {
        Some(KeyKind::Miscellaneous(Miscellaneous::PrintScreen, KeyExpansion::Plain))
    } else if spec_suffix_is(n, i, "scrolllock"@) {
        Some(KeyKind::Miscellaneous(Miscellaneous::ScrollLock, KeyExpansion::Plain))
    } else if spec_suffix_is(n, i, "pause"@) {
        Some(KeyKind::Miscellaneous(Miscellaneous::Pause, KeyExpansion::Plain))
    } else if spec_suffix_is(n, i, "shutdown"@) {
        Some(KeyKind::Miscellaneous(Miscellaneous::Shutdown, KeyExpansion::Plain))
    } else if spec_suffix_is(n, i, "sleep"@) {
        Some(KeyKind::Miscellaneous(Miscellaneous::Sleep, KeyExpansion::Plain))
    } else {
        None
    }
}

fn mod_base_debug_miscellaneous(n: &Vec<char>, i: usize) -> (r: Option<KeyKind>)
    requires
        i <= n@.len(),
    ensures
        r == spec_mod_base_debug_miscellaneous(n@, i as int),
{
    if suffix_is(n, i, "printscreen") {
        Some(KeyKind::Miscellaneous(Miscellaneous::PrintScreen, KeyExpansion::Plain))
    } else if suffix_is(n, i, "scrolllock") {
        Some(KeyKind::Miscellaneous(Miscellaneous::ScrollLock, KeyExpansion::Plain))
    } else if suffix_is(n, i, "pause") {
        Some(KeyKind::Miscellaneous(Miscellaneous::Pause, KeyExpansion::Plain))
    } else if suffix_is(n, i, "shutdown") {
        Some(KeyKind::Miscellaneous(Miscellaneous::Shutdown, KeyExpansion::Plain))
    } else if suffix_is(n, i, "sleep") {
        Some(KeyKind::Miscellaneous(Miscellaneous::Sleep, KeyExpansion::Plain))
    } else {
        None
    }
}

/// The modifier-expandable base key whose debug name stands from
/// position `i` to the end of the name.
pub open spec fn spec_mod_base_debug(n: Seq<char>, i: int) -> Option<KeyKind> {
    if spec_mod_base_debug_spacing(n, i) is Some {
        spec_mod_base_debug_spacing(n, i)
    } else if spec_mod_base_debug_alpha(n, i) is Some {
        spec_mod_base_debug_alpha(n, i)
    } else if spec_mod_base_debug_digits(n, i) is Some {
        spec_mod_base_debug_digits(n, i)
    } else if spec_mod_base_debug_numpad(n, i) is Some {
        spec_mod_base_debug_numpad(n, i)
    } else if spec_mod_base_debug_fx(n, i) is Some {
        spec_mod_base_debug_fx(n, i)
    } else if spec_mod_base_debug_symbols(n, i) is Some {
        spec_mod_base_debug_symbols(n, i)
    } else if spec_mod_base_debug_modifiers(n, i) is Some {
        spec_mod_base_debug_modifiers(n, i)
    } else if spec_mod_base_debug_navigation(n, i) is Some {
        spec_mod_base_debug_navigation(n, i)
    } else if spec_mod_base_debug_miscellaneous(n, i) is Some {
        spec_mod_base_debug_miscellaneous(n, i)
    } else {
        None
    }
}

fn mod_base_debug(n: &Vec<char>, i: usize) -> (r: Option<KeyKind>)
    requires
        i <= n@.len(),
    ensures
        r == spec_mod_base_debug(n@, i as int),
{
    if let Some(k) = mod_base_debug_spacing(n, i) {
        return Some(k);
    }
    if let Some(k) = mod_base_debug_alpha(n, i) {
        return Some(k);
    }
    if let Some(k) = mod_base_debug_digits(n, i) {
        return Some(k);
    }
    if let Some(k) = mod_base_debug_numpad(n, i) {
        return Some(k);
    }
    if let Some(k) = mod_base_debug_fx(n, i) {
        return Some(k);
    }
    if let Some(k) = mod_base_debug_symbols(n, i) {
        return Some(k);
    }
    if let Some(k) = mod_base_debug_modifiers(n, i) {
        return Some(k);
    }
    if let Some(k) = mod_base_debug_navigation(n, i) {
        return Some(k);
    }
    if let Some(k) = mod_base_debug_miscellaneous(n, i) {
        return Some(k);
    }
    None
}

pub open spec fn spec_dual_base_display_spacing(n: Seq<char>, e: int) -> Option<KeyKind> {
    if n.subrange(0, e) == "enter"@ {
        Some(KeyKind::Spacing(Spacing::Enter, KeyExpansion::Plain))
    } else if n.subrange(0, e) == "escape"@ {
        Some(KeyKind::Spacing(Spacing::Escape, KeyExpansion::Plain))
    } else if n.subrange(0, e) == "backspace"@ {
        Some(KeyKind::Spacing(Spacing::Backspace, KeyExpansion::Plain))
    } else if n.subrange(0, e) == "tab"@ {
        Some(KeyKind::Spacing(Spacing::Tab, KeyExpansion::Plain))
    } else if n.subrange(0, e) == "space"@ {
        Some(KeyKind::Spacing(Spacing::Space, KeyExpansion::Plain))
    } else if n.subrange(0, e) == "insert"@ {
        Some(KeyKind::Spacing(Spacing::Insert, KeyExpansion::Plain))
    } else if n.subrange(0, e) == "delete"@ {
        Some(KeyKind::Spacing(Spacing::Delete, KeyExpansion::Plain))
    } else {
        None
    }
}

fn dual_base_display_spacing(n: &Vec<char>, e: usize) -> (r: Option<KeyKind>)
    requires
        e <= n@.len(),
    ensures
        r == spec_dual_base_display_spacing(n@, e as int),
{
    if prefix_to_is(n, e, "enter") {
        Some(KeyKind::Spacing(Spacing::Enter, KeyExpansion::Plain))
    } else if prefix_to_is(n, e, "escape") {
        Some(KeyKind::Spacing(Spacing::Escape, KeyExpansion::Plain))
    } else if prefix_to_is(n, e, "backspace") {
        Some(KeyKind::Spacing(Spacing::Backspace, KeyExpansion::Plain))
    } else if prefix_to_is(n, e, "tab") {
        Some(KeyKind::Spacing(Spacing::Tab, KeyExpansion::Plain))
    } else if prefix_to_is(n, e, "space") {
        Some(KeyKind::Spacing(Spacing::Space, KeyExpansion::Plain))
    } else if prefix_to_is(n, e, "insert") {
        Some(KeyKind::Spacing(Spacing::Insert, KeyExpansion::Plain))
    } else if prefix_to_is(n, e, "delete") {
        Some(KeyKind::Spacing(Spacing::Delete, KeyExpansion::Plain))
    } else {
        None
    }
}

pub open spec fn spec_dual_base_display_alpha(n: Seq<char>, e: int) -> Option<KeyKind> {
    if n.subrange(0, e) == "a"@ {
        Some(KeyKind::Alpha(Alpha::A, KeyExpansion::Plain))
    } else if n.subrange(0, e) == "b"@ {
        Some(KeyKind::Alpha(Alpha::B, KeyExpansion::Plain))
    } else if n.subrange(0, e) == "c"@ {
        Some(KeyKind::Alpha(Alpha::C, KeyExpansion::Plain))
    } else if n.subrange(0, e) == "d"@ {
        Some(KeyKind::Alpha(Alpha::D, KeyExpansion::Plain))
    } else if n.subrange(0, e) == "e"@ {
        Some(KeyKind::Alpha(Alpha::E, KeyExpansion::Plain))
    } else if n.subrange(0, e) == "f"@ {
        Some(KeyKind::Alpha(Alpha::F, KeyExpansion::Plain))
    } else if n.subrange(0, e) == "g"@ {
        Some(KeyKind::Alpha(Alpha::G, KeyExpansion::Plain))
    } else if n.subrange(0, e) == "h"@ {
        Some(KeyKind::Alpha(Alpha::H, KeyExpansion::Plain))
    } else if n.subrange(0, e) == "i"@ {
        Some(KeyKind::Alpha(Alpha::I, KeyExpansion::Plain))
    } else if n.subrange(0, e) == "j"@ {
        Some(KeyKind::Alpha(Alpha::J, KeyExpansion::Plain))
    } else if n.subrange(0, e) == "k"@ {
        Some(KeyKind::Alpha(Alpha::K, KeyExpansion::Plain))
    } else if n.subrange(0, e) == "l"@ {
        Some(KeyKind::Alpha(Alpha::L, KeyExpansion::Plain))
    } else if n.subrange(0, e) == "m"@ {
        Some(KeyKind::Alpha(Alpha::M, KeyExpansion::Plain))
    } else if n.subrange(0, e) == "n"@ {
        Some(KeyKind::Alpha(Alpha::N, KeyExpansion::Plain))
    } else if n.subrange(0, e) == "o"@ {
        Some(KeyKind::Alpha(Alpha::O, KeyExpansion::Plain))
    } else if n.subrange(0, e) == "p"@ {
        Some(KeyKind::Alpha(Alpha::P, KeyExpansion::Plain))
    } else if n.subrange(0, e) == "q"@ {
        Some(KeyKind::Alpha(Alpha::Q, KeyExpansion::Plain))
    } else if n.subrange(0, e) == "r"@ {
        Some(KeyKind::Alpha(Alpha::R, KeyExpansion::Plain))
    } else if n.subrange(0, e) == "s"@ {
        Some(KeyKind::Alpha(Alpha::S, KeyExpansion::Plain))
    } else if n.subrange(0, e) == "t"@ {
        Some(KeyKind::Alpha(Alpha::T, KeyExpansion::Plain))
    } else if n.subrange(0, e) == "u"@ {
        Some(KeyKind::Alpha(Alpha::U, KeyExpansion::Plain))
    } else if n.subrange(0, e) == "v"@ {
        Some(KeyKind::Alpha(Alpha::V, KeyExpansion::Plain))
    } else if n.subrange(0, e) == "w"@ {
        Some(KeyKind::Alpha(Alpha::W, KeyExpansion::Plain))
    } else if n.subrange(0, e) == "x"@ {
        Some(KeyKind::Alpha(Alpha::X, KeyExpansion::Plain))
    } else if n.subrange(0, e) == "y"@ {
        Some(KeyKind::Alpha(Alpha::Y, KeyExpansion::Plain))
    } else if n.subrange(0, e) == "z"@ {
        Some(KeyKind::Alpha(Alpha::Z, KeyExpansion::Plain))
    } else {
        None
    }
}

fn dual_base_display_alpha(n: &Vec<char>, e: usize) -> (r: Option<KeyKind>)
    requires
        e <= n@.len(),
    ensures
        r == spec_dual_base_display_alpha(n@, e as int),
{
    if prefix_to_is(n, e, "a") {
        Some(KeyKind::Alpha(Alpha::A, KeyExpansion::Plain))
    } else if prefix_to_is(n, e, "b") {
        Some(KeyKind::Alpha(Alpha::B, KeyExpansion::Plain))
    } else if prefix_to_is(n, e, "c") {
        Some(KeyKind::Alpha(Alpha::C, KeyExpansion::Plain))
    } else if prefix_to_is(n, e, "d") {
        Some(KeyKind::Alpha(Alpha::D, KeyExpansion::Plain))
    } else if prefix_to_is(n, e, "e") {
        Some(KeyKind::Alpha(Alpha::E, KeyExpansion::Plain))
    } else if prefix_to_is(n, e, "f") {
        Some(KeyKind::Alpha(Alpha::F, KeyExpansion::Plain))
    } else if prefix_to_is(n, e, "g") {
        Some(KeyKind::Alpha(Alpha::G, KeyExpansion::Plain))
    } else if prefix_to_is(n, e, "h") {
        Some(KeyKind::Alpha(Alpha::H, KeyExpansion::Plain))
    } else if prefix_to_is(n, e, "i") {
        Some(KeyKind::Alpha(Alpha::I, KeyExpansion::Plain))
    } else if prefix_to_is(n, e, "j") {
        Some(KeyKind::Alpha(Alpha::J, KeyExpansion::Plain))
    } else if prefix_to_is(n, e, "k") {
        Some(KeyKind::Alpha(Alpha::K, KeyExpansion::Plain))
    } else if prefix_to_is(n, e, "l") {
        Some(KeyKind::Alpha(Alpha::L, KeyExpansion::Plain))
    } else if prefix_to_is(n, e, "m") {
        Some(KeyKind::Alpha(Alpha::M, KeyExpansion::Plain))
    } else if prefix_to_is(n, e, "n") {
        Some(KeyKind::Alpha(Alpha::N, KeyExpansion::Plain))
    } else if prefix_to_is(n, e, "o") {
        Some(KeyKind::Alpha(Alpha::O, KeyExpansion::Plain))
    } else if prefix_to_is(n, e, "p") {
        Some(KeyKind::Alpha(Alpha::P, KeyExpansion::Plain))
    } else if prefix_to_is(n, e, "q") {
        Some(KeyKind::Alpha(Alpha::Q, KeyExpansion::Plain))
    } else if prefix_to_is(n, e, "r") {
        Some(KeyKind::Alpha(Alpha::R, KeyExpansion::Plain))
    } else if prefix_to_is(n, e, "s") {
        Some(KeyKind::Alpha(Alpha::S, KeyExpansion::Plain))
    } else if prefix_to_is(n, e, "t") {
        Some(KeyKind::Alpha(Alpha::T, KeyExpansion::Plain))
    } else if prefix_to_is(n, e, "u") {
        Some(KeyKind::Alpha(Alpha::U, KeyExpansion::Plain))
    } else if prefix_to_is(n, e, "v") {
        Some(KeyKind::Alpha(Alpha::V, KeyExpansion::Plain))
    } else if prefix_to_is(n, e, "w") {
        Some(KeyKind::Alpha(Alpha::W, KeyExpansion::Plain))
    } else if prefix_to_is(n, e, "x") {
        Some(KeyKind::Alpha(Alpha::X, KeyExpansion::Plain))
    } else if prefix_to_is(n, e, "y") {
        Some(KeyKind::Alpha(Alpha::Y, KeyExpansion::Plain))
    } else if prefix_to_is(n, e, "z") {
        Some(KeyKind::Alpha(Alpha::Z, KeyExpansion::Plain))
    } else {
        None
    }
}

pub open spec fn spec_dual_base_display_digits(n: Seq<char>, e: int) -> Option<KeyKind> {
    if n.subrange(0, e) == "1"@ {
        Some(KeyKind::Digits(Digits::One, KeyExpansion::Plain))
    } else if n.subrange(0, e) == "2"@ {
        Some(KeyKind::Digits(Digits::Two, KeyExpansion::Plain))
    } else if n.subrange(0, e) == "3"@ {
        Some(KeyKind::Digits(Digits::Three, KeyExpansion::Plain))
    } else if n.subrange(0, e) == "4"@ {
        Some(KeyKind::Digits(Digits::Four, KeyExpansion::Plain))
    } else if n.subrange(0, e) == "5"@ {
        Some(KeyKind::Digits(Digits::Five, KeyExpansion::Plain))
    } else if n.subrange(0, e) == "six"@ {
        Some(KeyKind::Digits(Digits::Six, KeyExpansion::Plain))
    } else if n.subrange(0, e) == "7"@ {
        Some(KeyKind::Digits(Digits::Seven, KeyExpansion::Plain))
    } else if n.subrange(0, e) == "8"@ {
        Some(KeyKind::Digits(Digits::Eight, KeyExpansion::Plain))
    } else if n.subrange(0, e) == "9"@ {
        Some(KeyKind::Digits(Digits::Nine, KeyExpansion::Plain))
    } else if n.subrange(0, e) == "0"@ {
        Some(KeyKind::Digits(Digits::Zero, KeyExpansion::Plain))
    } else {
        None
    }
}

fn dual_base_display_digits(n: &Vec<char>, e: usize) -> (r: Option<KeyKind>)
    requires
        e <= n@.len(),
    ensures
        r == spec_dual_base_display_digits(n@, e as int),
{
    if prefix_to_is(n, e, "1") {
        Some(KeyKind::Digits(Digits::One, KeyExpansion::Plain))
    } else if prefix_to_is(n, e, "2") {
        Some(KeyKind::Digits(Digits::Two, KeyExpansion::Plain))
    } else if prefix_to_is(n, e, "3") {
        Some(KeyKind::Digits(Digits::Three, KeyExpansion::Plain))
    } else if prefix_to_is(n, e, "4") {
        Some(KeyKind::Digits(Digits::Four, KeyExpansion::Plain))
    } else if prefix_to_is(n, e, "5") {
        Some(KeyKind::Digits(Digits::Five, KeyExpansion::Plain))
    } else if prefix_to_is(n, e, "six") {
        Some(KeyKind::Digits(Digits::Six, KeyExpansion::Plain))
    } else if prefix_to_is(n, e, "7") {
        Some(KeyKind::Digits(Digits::Seven, KeyExpansion::Plain))
    } else if prefix_to_is(n, e, "8") {
        Some(KeyKind::Digits(Digits::Eight, KeyExpansion::Plain))
    } else if prefix_to_is(n, e, "9") {
        Some(KeyKind::Digits(Digits::Nine, KeyExpansion::Plain))
    } else if prefix_to_is(n, e, "0") {
        Some(KeyKind::Digits(Digits::Zero, KeyExpansion::Plain))
    } else {
        None
    }
}

pub open spec fn spec_dual_base_display_numpad(n: Seq<char>, e: int) -> Option<KeyKind> {
    if n.subrange(0, e) == "numlock"@ {
        Some(KeyKind::Numpad(Numpad::NumLock, KeyExpansion::Plain))
    } else if n.subrange(0, e) == "numpad/"@ {
        Some(KeyKind::Numpad(Numpad::Divide, KeyExpansion::Plain))
    } else if n.subrange(0, e) == "numpad*"@ {
        Some(KeyKind::Numpad(Numpad::Times, KeyExpansion::Plain))
    } else if n.subrange(0, e) == "numpad-"@ {
        Some(KeyKind::Numpad(Numpad::Minus, KeyExpansion::Plain))
    } else if n.subrange(0, e) == "numpad+"@ {
        Some(KeyKind::Numpad(Numpad::Add, KeyExpansion::Plain))
    } else if n.subrange(0, e) == "numpadenter"@ {
        Some(KeyKind::Numpad(Numpad::Enter, KeyExpansion::Plain))
    } else if n.subrange(0, e) == "numpad1"@ {
        Some(KeyKind::Numpad(Numpad::One, KeyExpansion::Plain))
    } else if n.subrange(0, e) == "numpad2"@ {
        Some(KeyKind::Numpad(Numpad::Two, KeyExpansion::Plain))
    } else if n.subrange(0, e) == "numpad3"@ {
        Some(KeyKind::Numpad(Numpad::Three, KeyExpansion::Plain))
    } else if n.subrange(0, e) == "numpad4"@ {
        Some(KeyKind::Numpad(Numpad::Four, KeyExpansion::Plain))
    } else if n.subrange(0, e) == "numpad5"@ {
        Some(KeyKind::Numpad(Numpad::Five, KeyExpansion::Plain))
    } else if n.subrange(0, e) == "numpad6"@ {
        Some(KeyKind::Numpad(Numpad::Six, KeyExpansion::Plain))
    } else if n.subrange(0, e) == "numpad7"@ {
        Some(KeyKind::Numpad(Numpad::Seven, KeyExpansion::Plain))
    } else if n.subrange(0, e) == "numpad8"@ {
        Some(KeyKind::Numpad(Numpad::Eight, KeyExpansion::Plain))
    } else if n.subrange(0, e) == "numpad9"@ {
        Some(KeyKind::Numpad(Numpad::Nine, KeyExpansion::Plain))
    } else if n.subrange(0, e) == "numpad0"@ {
        Some(KeyKind::Numpad(Numpad::Zero, KeyExpansion::Plain))
    } else if n.subrange(0, e) == "numpad."@ {
        Some(KeyKind::Numpad(Numpad::Period, KeyExpansion::Plain))
    } else {
        None
    }
}

fn dual_base_display_numpad(n: &Vec<char>, e: usize) -> (r: Option<KeyKind>)
    requires
        e <= n@.len(),
    ensures
        r == spec_dual_base_display_numpad(n@, e as int),
{
    if prefix_to_is(n, e, "numlock") {
        Some(KeyKind::Numpad(Numpad::NumLock, KeyExpansion::Plain))
    } else if prefix_to_is(n, e, "numpad/") {
        Some(KeyKind::Numpad(Numpad::Divide, KeyExpansion::Plain))
    } else if prefix_to_is(n, e, "numpad*") {
        Some(KeyKind::Numpad(Numpad::Times, KeyExpansion::Plain))
    } else if prefix_to_is(n, e, "numpad-") {
        Some(KeyKind::Numpad(Numpad::Minus, KeyExpansion::Plain))
    } else if prefix_to_is(n, e, "numpad+") {
        Some(KeyKind::Numpad(Numpad::Add, KeyExpansion::Plain))
    } else if prefix_to_is(n, e, "numpadenter") {
        Some(KeyKind::Numpad(Numpad::Enter, KeyExpansion::Plain))
    } else if prefix_to_is(n, e, "numpad1") {
        Some(KeyKind::Numpad(Numpad::One, KeyExpansion::Plain))
    } else if prefix_to_is(n, e, "numpad2") {
        Some(KeyKind::Numpad(Numpad::Two, KeyExpansion::Plain))
    } else if prefix_to_is(n, e, "numpad3") {
        Some(KeyKind::Numpad(Numpad::Three, KeyExpansion::Plain))
    } else if prefix_to_is(n, e, "numpad4") {
        Some(KeyKind::Numpad(Numpad::Four, KeyExpansion::Plain))
    } else if prefix_to_is(n, e, "numpad5") {
        Some(KeyKind::Numpad(Numpad::Five, KeyExpansion::Plain))
    } else if prefix_to_is(n, e, "numpad6") {
        Some(KeyKind::Numpad(Numpad::Six, KeyExpansion::Plain))
    } else if prefix_to_is(n, e, "numpad7") {
        Some(KeyKind::Numpad(Numpad::Seven, KeyExpansion::Plain))
    } else if prefix_to_is(n, e, "numpad8") {
        Some(KeyKind::Numpad(Numpad::Eight, KeyExpansion::Plain))
    } else if prefix_to_is(n, e, "numpad9") {
        Some(KeyKind::Numpad(Numpad::Nine, KeyExpansion::Plain))
    } else if prefix_to_is(n, e, "numpad0") {
        Some(KeyKind::Numpad(Numpad::Zero, KeyExpansion::Plain))
    } else if prefix_to_is(n, e, "numpad.") {
        Some(KeyKind::Numpad(Numpad::Period, KeyExpansion::Plain))
    } else {
        None
    }
}

pub open spec fn spec_dual_base_display_fx(n: Seq<char>, e: int) -> Option<KeyKind> {
    if n.subrange(0, e) == "f1"@ {
        Some(KeyKind::Fx(Fx::F1, KeyExpansion::Plain))
    } else if n.subrange(0, e) == "f2"@ {
        Some(KeyKind::Fx(Fx::F2, KeyExpansion::Plain))
    } else if n.subrange(0, e) == "f3"@ {
        Some(KeyKind::Fx(Fx::F3, KeyExpansion::Plain))
    } else if n.subrange(0, e) == "f4"@ {
        Some(KeyKind::Fx(Fx::F4, KeyExpansion::Plain))
    } else if n.subrange(0, e) == "f5"@ {
        Some(KeyKind::Fx(Fx::F5, KeyExpansion::Plain))
    } else if n.subrange(0, e) == "f6"@ {
        Some(KeyKind::Fx(Fx::F6, KeyExpansion::Plain))
    } else if n.subrange(0, e) == "f7"@ {
        Some(KeyKind::Fx(Fx::F7, KeyExpansion::Plain))
    } else if n.subrange(0, e) == "f8"@ {
        Some(KeyKind::Fx(Fx::F8, KeyExpansion::Plain))
    } else if n.subrange(0, e) == "f9"@ {
        Some(KeyKind::Fx(Fx::F9, KeyExpansion::Plain))
    } else if n.subrange(0, e) == "f10"@ {
        Some(KeyKind::Fx(Fx::F10, KeyExpansion::Plain))
    } else if n.subrange(0, e) == "f11"@ {
        Some(KeyKind::Fx(Fx::F11, KeyExpansion::Plain))
    } else if n.subrange(0, e) == "f12"@ {
        Some(KeyKind::Fx(Fx::F12, KeyExpansion::Plain))
    } else if n.subrange(0, e) == "f13"@ {
        Some(KeyKind::Fx(Fx::F13, KeyExpansion::Plain))
    } else if n.subrange(0, e) == "f14"@ {
        Some(KeyKind::Fx(Fx::F14, KeyExpansion::Plain))
    } else if n.subrange(0, e) == "f15"@ {
        Some(KeyKind::Fx(Fx::F15, KeyExpansion::Plain))
    } else if n.subrange(0, e) == "f16"@ {
        Some(KeyKind::Fx(Fx::F16, KeyExpansion::Plain))
    } else if n.subrange(0, e) == "f17"@ {
        Some(KeyKind::Fx(Fx::F17, KeyExpansion::Plain))
    } else if n.subrange(0, e) == "f18"@ {
        Some(KeyKind::Fx(Fx::F18, KeyExpansion::Plain))
    } else if n.subrange(0, e) == "f19"@ {
        Some(KeyKind::Fx(Fx::F19, KeyExpansion::Plain))
    } else if n.subrange(0, e) == "f20"@ {
        Some(KeyKind::Fx(Fx::F20, KeyExpansion::Plain))
    } else if n.subrange(0, e) == "f21"@ {
        Some(KeyKind::Fx(Fx::F21, KeyExpansion::Plain))
    } else if n.subrange(0, e) == "f22"@ {
        Some(KeyKind::Fx(Fx::F22, KeyExpansion::Plain))
    } else if n.subrange(0, e) == "f23"@ {
        Some(KeyKind::Fx(Fx::F23, KeyExpansion::Plain))
    } else if n.subrange(0, e) == "f24"@ {
        Some(KeyKind::Fx(Fx::F24, KeyExpansion::Plain))
    } else {
        None
    }
}

fn dual_base_display_fx(n: &Vec<char>, e: usize) -> (r: Option<KeyKind>)
    requires
        e <= n@.len(),
    ensures
        r == spec_dual_base_display_fx(n@, e as int),
{
    if prefix_to_is(n, e, "f1") {
        Some(KeyKind::Fx(Fx::F1, KeyExpansion::Plain))
    } else if prefix_to_is(n, e, "f2") {
        Some(KeyKind::Fx(Fx::F2, KeyExpansion::Plain))
    } else if prefix_to_is(n, e, "f3") {
        Some(KeyKind::Fx(Fx::F3, KeyExpansion::Plain))
    } else if prefix_to_is(n, e, "f4") {
        Some(KeyKind::Fx(Fx::F4, KeyExpansion::Plain))
    } else if prefix_to_is(n, e, "f5") {
        Some(KeyKind::Fx(Fx::F5, KeyExpansion::Plain))
    } else if prefix_to_is(n, e, "f6") {
        Some(KeyKind::Fx(Fx::F6, KeyExpansion::Plain))
    } else if prefix_to_is(n, e, "f7") {
        Some(KeyKind::Fx(Fx::F7, KeyExpansion::Plain))
    } else if prefix_to_is(n, e, "f8") {
        Some(KeyKind::Fx(Fx::F8, KeyExpansion::Plain))
    } else if prefix_to_is(n, e, "f9") {
        Some(KeyKind::Fx(Fx::F9, KeyExpansion::Plain))
    } else if prefix_to_is(n, e, "f10") {
        Some(KeyKind::Fx(Fx::F10, KeyExpansion::Plain))
    } else if prefix_to_is(n, e, "f11") {
        Some(KeyKind::Fx(Fx::F11, KeyExpansion::Plain))
    } else if prefix_to_is(n, e, "f12") {
        Some(KeyKind::Fx(Fx::F12, KeyExpansion::Plain))
    } else if prefix_to_is(n, e, "f13") {
        Some(KeyKind::Fx(Fx::F13, KeyExpansion::Plain))
    } else if prefix_to_is(n, e, "f14") {
        Some(KeyKind::Fx(Fx::F14, KeyExpansion::Plain))
    } else if prefix_to_is(n, e, "f15") {
        Some(KeyKind::Fx(Fx::F15, KeyExpansion::Plain))
    } else if prefix_to_is(n, e, "f16") {
        Some(KeyKind::Fx(Fx::F16, KeyExpansion::Plain))
    } else if prefix_to_is(n, e, "f17") {
        Some(KeyKind::Fx(Fx::F17, KeyExpansion::Plain))
    } else if prefix_to_is(n, e, "f18") {
        Some(KeyKind::Fx(Fx::F18, KeyExpansion::Plain))
    } else if prefix_to_is(n, e, "f19") {
        Some(KeyKind::Fx(Fx::F19, KeyExpansion::Plain))
    } else if prefix_to_is(n, e, "f20") {
        Some(KeyKind::Fx(Fx::F20, KeyExpansion::Plain))
    } else if prefix_to_is(n, e, "f21") {
        Some(KeyKind::Fx(Fx::F21, KeyExpansion::Plain))
    } else if prefix_to_is(n, e, "f22") {
        Some(KeyKind::Fx(Fx::F22, KeyExpansion::Plain))
    } else if prefix_to_is(n, e, "f23") {
        Some(KeyKind::Fx(Fx::F23, KeyExpansion::Plain))
    } else if prefix_to_is(n, e, "f24") {
        Some(KeyKind::Fx(Fx::F24, KeyExpansion::Plain))
    } else {
        None
    }
}

pub open spec fn spec_dual_base_display_symbols(n: Seq<char>, e: int) -> Option<KeyKind> {
    if n.subrange(0, e) == "`-``"@ {
        Some(KeyKind::Symbols(Symbols::Dash, KeyExpansion::Plain))
    } else if n.subrange(0, e) == "`=`"@ {
        Some(KeyKind::Symbols(Symbols::Equals, KeyExpansion::Plain))
    } else if n.subrange(0, e) == "`[`"@ {
        Some(KeyKind::Symbols(Symbols::BracketLeft, KeyExpansion::Plain))
    } else if n.subrange(0, e) == "`]`"@ {
        Some(KeyKind::Symbols(Symbols::BracketRight, KeyExpansion::Plain))
    } else if n.subrange(0, e) == "`\\`"@ {
        Some(KeyKind::Symbols(Symbols::Backslash, KeyExpansion::Plain))
    } else if n.subrange(0, e) == "`;`"@ {
        Some(KeyKind::Symbols(Symbols::Semicolon, KeyExpansion::Plain))
    } else if n.subrange(0, e) == "`'``"@ {
        Some(KeyKind::Symbols(Symbols::SingleQuote, KeyExpansion::Plain))
    } else if n.subrange(0, e) == "```"@ {
        Some(KeyKind::Symbols(Symbols::BackTick, KeyExpansion::Plain))
    } else if n.subrange(0, e) == "`,`"@ {
        Some(KeyKind::Symbols(Symbols::Comma, KeyExpansion::Plain))
    } else if n.subrange(0, e) == "`.`"@ {
        Some(KeyKind::Symbols(Symbols::Period, KeyExpansion::Plain))
    } else if n.subrange(0, e) == "`/`"@ {
        Some(KeyKind::Symbols(Symbols::Slash, KeyExpansion::Plain))
    } else if n.subrange(0, e) == "capslock"@ {
        Some(KeyKind::Symbols(Symbols::CapsLock, KeyExpansion::Plain))
    } else if n.subrange(0, e) == "iso`<>`"@ {
        Some(KeyKind::Symbols(Symbols::IsoGTLT, KeyExpansion::Plain))
    } else {
        None
    }
}

fn dual_base_display_symbols(n: &Vec<char>, e: usize) -> (r: Option<KeyKind>)
    requires
        e <= n@.len(),
    ensures
        r == spec_dual_base_display_symbols(n@, e as int),
{
    if prefix_to_is(n, e, "`-``") {
        Some(KeyKind::Symbols(Symbols::Dash, KeyExpansion::Plain))
    } else if prefix_to_is(n, e, "`=`") {
        Some(KeyKind::Symbols(Symbols::Equals, KeyExpansion::Plain))
    } else if prefix_to_is(n, e, "`[`") {
        Some(KeyKind::Symbols(Symbols::BracketLeft, KeyExpansion::Plain))
    } else if prefix_to_is(n, e, "`]`") {
        Some(KeyKind::Symbols(Symbols::BracketRight, KeyExpansion::Plain))
    } else if prefix_to_is(n, e, "`\\`") {
        Some(KeyKind::Symbols(Symbols::Backslash, KeyExpansion::Plain))
    } else if prefix_to_is(n, e, "`;`") {
        Some(KeyKind::Symbols(Symbols::Semicolon, KeyExpansion::Plain))
    } else if prefix_to_is(n, e, "`'``") {
        Some(KeyKind::Symbols(Symbols::SingleQuote, KeyExpansion::Plain))
    } else if prefix_to_is(n, e, "```") {
        Some(KeyKind::Symbols(Symbols::BackTick, KeyExpansion::Plain))
    } else if prefix_to_is(n, e, "`,`") {
        Some(KeyKind::Symbols(Symbols::Comma, KeyExpansion::Plain))
    } else if prefix_to_is(n, e, "`.`") {
        Some(KeyKind::Symbols(Symbols::Period, KeyExpansion::Plain))
    } else if prefix_to_is(n, e, "`/`") {
        Some(KeyKind::Symbols(Symbols::Slash, KeyExpansion::Plain))
    } else if prefix_to_is(n, e, "capslock") {
        Some(KeyKind::Symbols(Symbols::CapsLock, KeyExpansion::Plain))
    } else if prefix_to_is(n, e, "iso`<>`") {
        Some(KeyKind::Symbols(Symbols::IsoGTLT, KeyExpansion::Plain))
    } else {
        None
    }
}

pub open spec fn spec_dual_base_display_navigation(n: Seq<char>, e: int) -> Option<KeyKind> {
    if n.subrange(0, e) == "home"@ {
        Some(KeyKind::Navigation(Navigation::Home, KeyExpansion::Plain))
    } else if n.subrange(0, e) == "pageup"@ {
        Some(KeyKind::Navigation(Navigation::PageUp, KeyExpansion::Plain))
    } else if n.subrange(0, e) == "end"@ {
        Some(KeyKind::Navigation(Navigation::End, KeyExpansion::Plain))
    } else if n.subrange(0, e) == "pagedown"@ {
        Some(KeyKind::Navigation(Navigation::PageDown, KeyExpansion::Plain))
    } else if n.subrange(0, e) == "rightarrow"@ {
        Some(KeyKind::Navigation(Navigation::ArrowRight, KeyExpansion::Plain))
    } else if n.subrange(0, e) == "leftarrow"@ {
        Some(KeyKind::Navigation(Navigation::ArrowLeft, KeyExpansion::Plain))
    } else if n.subrange(0, e) == "downarrow"@ {
        Some(KeyKind::Navigation(Navigation::ArrowDown, KeyExpansion::Plain))
    } else if n.subrange(0, e) == "uparrow"@ {
        Some(KeyKind::Navigation(Navigation::ArrowUp, KeyExpansion::Plain))
    } else if n.subrange(0, e) == "menu"@ {
        Some(KeyKind::Navigation(Navigation::Menu, KeyExpansion::Plain))
    } else {
        None
    }
}

fn dual_base_display_navigation(n: &Vec<char>, e: usize) -> (r: Option<KeyKind>)
    requires
        e <= n@.len(),
    ensures
        r == spec_dual_base_display_navigation(n@, e as int),
{
    if prefix_to_is(n, e, "home") {
        Some(KeyKind::Navigation(Navigation::Home, KeyExpansion::Plain))
    } else if prefix_to_is(n, e, "pageup") {
        Some(KeyKind::Navigation(Navigation::PageUp, KeyExpansion::Plain))
    } else if prefix_to_is(n, e, "end") {
        Some(KeyKind::Navigation(Navigation::End, KeyExpansion::Plain))
    } else if prefix_to_is(n, e, "pagedown") {
        Some(KeyKind::Navigation(Navigation::PageDown, KeyExpansion::Plain))
    } else if prefix_to_is(n, e, "rightarrow") {
        Some(KeyKind::Navigation(Navigation::ArrowRight, KeyExpansion::Plain))
    } else if prefix_to_is(n, e, "leftarrow") {
        Some(KeyKind::Navigation(Navigation::ArrowLeft, KeyExpansion::Plain))
    } else if prefix_to_is(n, e, "downarrow") {
        Some(KeyKind::Navigation(Navigation::ArrowDown, KeyExpansion::Plain))
    } else if prefix_to_is(n, e, "uparrow") {
        Some(KeyKind::Navigation(Navigation::ArrowUp, KeyExpansion::Plain))
    } else if prefix_to_is(n, e, "menu") {
        Some(KeyKind::Navigation(Navigation::Menu, KeyExpansion::Plain))
    } else {
        None
    }
}

pub open spec fn spec_dual_base_display_miscellaneous(n: Seq<char>, e: int) -> Option<KeyKind> {
    if n.subrange(0, e) == "printscreen"@ {
        Some(KeyKind::Miscellaneous(Miscellaneous::PrintScreen, KeyExpansion::Plain))
    } else if n.subrange(0, e) == "scrolllock"@ {
        Some(KeyKind::Miscellaneous(Miscellaneous::ScrollLock, KeyExpansion::Plain))
    } else if n.subrange(0, e) == "pause"@ {
        Some(KeyKind::Miscellaneous(Miscellaneous::Pause, KeyExpansion::Plain))
    } else {
        None
    }
}

fn dual_base_display_miscellaneous(n: &Vec<char>, e: usize) -> (r: Option<KeyKind>)
    requires
        e <= n@.len(),
    ensures
        r == spec_dual_base_display_miscellaneous(n@, e as int),
{
    if prefix_to_is(n, e, "printscreen") {
        Some(KeyKind::Miscellaneous(Miscellaneous::PrintScreen, KeyExpansion::Plain))
    } else if prefix_to_is(n, e, "scrolllock") {
        Some(KeyKind::Miscellaneous(Miscellaneous::ScrollLock, KeyExpansion::Plain))
    } else if prefix_to_is(n, e, "pause") {
        Some(KeyKind::Miscellaneous(Miscellaneous::Pause, KeyExpansion::Plain))
    } else {
        None
    }
}

/// The dual-expandable base key whose display name fills the name up
/// to position `e`.
pub open spec fn spec_dual_base_display(n: Seq<char>, e: int) -> Option<KeyKind> {
    if spec_dual_base_display_spacing(n, e) is Some {
        spec_dual_base_display_spacing(n, e)
    } else if spec_dual_base_display_alpha(n, e) is Some {
        spec_dual_base_display_alpha(n, e)
    } else if spec_dual_base_display_digits(n, e) is Some {
        spec_dual_base_display_digits(n, e)
    } else if spec_dual_base_display_numpad(n, e) is Some {
        spec_dual_base_display_numpad(n, e)
    } else if spec_dual_base_display_fx(n, e) is Some {
        spec_dual_base_display_fx(n, e)
    } else if spec_dual_base_display_symbols(n, e) is Some {
        spec_dual_base_display_symbols(n, e)
    } else if spec_dual_base_display_navigation(n, e) is Some {
        spec_dual_base_display_navigation(n, e)
    } else if spec_dual_base_display_miscellaneous(n, e) is Some {
        spec_dual_base_display_miscellaneous(n, e)
    } else {
        None
    }
}

fn dual_base_display(n: &Vec<char>, e: usize) -> (r: Option<KeyKind>)
    requires
        e <= n@.len(),
    ensures
        r == spec_dual_base_display(n@, e as int),
{
    if let Some(k) = dual_base_display_spacing(n, e) {
        return Some(k);
    }
    if let Some(k) = dual_base_display_alpha(n, e) {
        return Some(k);
    }
    if let Some(k) = dual_base_display_digits(n, e) {
        return Some(k);
    }
    if let Some(k) = dual_base_display_numpad(n, e) {
        return Some(k);
    }
    if let Some(k) = dual_base_display_fx(n, e) {
        return Some(k);
    }
    if let Some(k) = dual_base_display_symbols(n, e) {
        return Some(k);
    }
    if let Some(k) = dual_base_display_navigation(n, e) {
        return Some(k);
    }
    if let Some(k) = dual_base_display_miscellaneous(n, e) {
        return Some(k);
    }
    None
}

pub open spec fn spec_dual_base_debug_spacing(n: Seq<char>) -> Option<(KeyKind, int)> {
    if spec_has_at(n, 4, "enter"@) && spec_has_at(n, 9int, "and"@) {
        Some((KeyKind::Spacing(Spacing::Enter, KeyExpansion::Plain), 12int))
    } else if spec_has_at(n, 4, "escape"@) && spec_has_at(n, 10int, "and"@) {
        Some((KeyKind::Spacing(Spacing::Escape, KeyExpansion::Plain), 13int))
    } else if spec_has_at(n, 4, "backspace"@) && spec_has_at(n, 13int, "and"@) {
        Some((KeyKind::Spacing(Spacing::Backspace, KeyExpansion::Plain), 16int))
    } else if spec_has_at(n, 4, "tab"@) && spec_has_at(n, 7int, "and"@) {
        Some((KeyKind::Spacing(Spacing::Tab, KeyExpansion::Plain), 10int))
    } else if spec_has_at(n, 4, "space"@) && spec_has_at(n, 9int, "and"@) {
        Some((KeyKind::Spacing(Spacing::Space, KeyExpansion::Plain), 12int))
    } else if spec_has_at(n, 4, "insert"@) && spec_has_at(n, 10int, "and"@) {
        Some((KeyKind::Spacing(Spacing::Insert, KeyExpansion::Plain), 13int))
    } else if spec_has_at(n, 4, "delete"@) && spec_has_at(n, 10int, "and"@) {
        Some((KeyKind::Spacing(Spacing::Delete, KeyExpansion::Plain), 13int))
    } else {
        None
    }
}

fn dual_base_debug_spacing(n: &Vec<char>) -> (r: Option<(KeyKind, usize)>)
    requires
        n@.len() <= usize::MAX - 16,
    ensures
        match r {
            Some((k, p)) => spec_dual_base_debug_spacing(n@) == Some((k, p as int)) && p <= n@.len(),
            None => spec_dual_base_debug_spacing(n@) is None,
        },
{
    let nlen = n.len();
    proof {
        reveal_strlit("and");
    }
    if 4 <= nlen && has_at(n, 4, "enter") && 9 <= nlen && has_at(n, 9, "and") {
        Some((KeyKind::Spacing(Spacing::Enter, KeyExpansion::Plain), 12))
    } else if 4 <= nlen && has_at(n, 4, "escape") && 10 <= nlen && has_at(n, 10, "and") {
        Some((KeyKind::Spacing(Spacing::Escape, KeyExpansion::Plain), 13))
    } else if 4 <= nlen && has_at(n, 4, "backspace") && 13 <= nlen && has_at(n, 13, "and") {
        Some((KeyKind::Spacing(Spacing::Backspace, KeyExpansion::Plain), 16))
    } else if 4 <= nlen && has_at(n, 4, "tab") && 7 <= nlen && has_at(n, 7, "and") {
        Some((KeyKind::Spacing(Spacing::Tab, KeyExpansion::Plain), 10))
    } else if 4 <= nlen && has_at(n, 4, "space") && 9 <= nlen && has_at(n, 9, "and") {
        Some((KeyKind::Spacing(Spacing::Space, KeyExpansion::Plain), 12))
    } else if 4 <= nlen && has_at(n, 4, "insert") && 10 <= nlen && has_at(n, 10, "and") {
        Some((KeyKind::Spacing(Spacing::Insert, KeyExpansion::Plain), 13))
    } else if 4 <= nlen && has_at(n, 4, "delete") && 10 <= nlen && has_at(n, 10, "and") {
        Some((KeyKind::Spacing(Spacing::Delete, KeyExpansion::Plain), 13))
    } else {
        proof {
            if spec_dual_base_debug_spacing(n@) is Some {
            }
        }
        None
    }
}

pub open spec fn spec_dual_base_debug_alpha(n: Seq<char>) -> Option<(KeyKind, int)> {
    if spec_has_at(n, 4, "a"@) && spec_has_at(n, 5int, "and"@) {
        Some((KeyKind::Alpha(Alpha::A, KeyExpansion::Plain), 8int))
    } else if spec_has_at(n, 4, "b"@) && spec_has_at(n, 5int, "and"@) {
        Some((KeyKind::Alpha(Alpha::B, KeyExpansion::Plain), 8int))
    } else if spec_has_at(n, 4, "c"@) && spec_has_at(n, 5int, "and"@) {
        Some((KeyKind::Alpha(Alpha::C, KeyExpansion::Plain), 8int))
    } else if spec_has_at(n, 4, "d"@) && spec_has_at(n, 5int, "and"@) {
        Some((KeyKind::Alpha(Alpha::D, KeyExpansion::Plain), 8int))
    } else if spec_has_at(n, 4, "e"@) && spec_has_at(n, 5int, "and"@) {
        Some((KeyKind::Alpha(Alpha::E, KeyExpansion::Plain), 8int))
    } else if spec_has_at(n, 4, "f"@) && spec_has_at(n, 5int, "and"@) {
        Some((KeyKind::Alpha(Alpha::F, KeyExpansion::Plain), 8int))
    } else if spec_has_at(n, 4, "g"@) && spec_has_at(n, 5int, "and"@) {
        Some((KeyKind::Alpha(Alpha::G, KeyExpansion::Plain), 8int))
    } else if spec_has_at(n, 4, "h"@) && spec_has_at(n, 5int, "and"@) {
        Some((KeyKind::Alpha(Alpha::H, KeyExpansion::Plain), 8int))
    } else if spec_has_at(n, 4, "i"@) && spec_has_at(n, 5int, "and"@) {
        Some((KeyKind::Alpha(Alpha::I, KeyExpansion::Plain), 8int))
    } else if spec_has_at(n, 4, "j"@) && spec_has_at(n, 5int, "and"@) {
        Some((KeyKind::Alpha(Alpha::J, KeyExpansion::Plain), 8int))
    } else if spec_has_at(n, 4, "k"@) && spec_has_at(n, 5int, "and"@) {
        Some((KeyKind::Alpha(Alpha::K, KeyExpansion::Plain), 8int))
    } else if spec_has_at(n, 4, "l"@) && spec_has_at(n, 5int, "and"@) {
        Some((KeyKind::Alpha(Alpha::L, KeyExpansion::Plain), 8int))
    } else if spec_has_at(n, 4, "m"@) && spec_has_at(n, 5int, "and"@) {
        Some((KeyKind::Alpha(Alpha::M, KeyExpansion::Plain), 8int))
    } else if spec_has_at(n, 4, "n"@) && spec_has_at(n, 5int, "and"@) {
        Some((KeyKind::Alpha(Alpha::N, KeyExpansion::Plain), 8int))
    } else if spec_has_at(n, 4, "o"@) && spec_has_at(n, 5int, "and"@) {
        Some((KeyKind::Alpha(Alpha::O, KeyExpansion::Plain), 8int))
    } else if spec_has_at(n, 4, "p"@) && spec_has_at(n, 5int, "and"@) {
        Some((KeyKind::Alpha(Alpha::P, KeyExpansion::Plain), 8int))
    } else if spec_has_at(n, 4, "q"@) && spec_has_at(n, 5int, "and"@) {
        Some((KeyKind::Alpha(Alpha::Q, KeyExpansion::Plain), 8int))
    } else if spec_has_at(n, 4, "r"@) && spec_has_at(n, 5int, "and"@) {
        Some((KeyKind::Alpha(Alpha::R, KeyExpansion::Plain), 8int))
    } else if spec_has_at(n, 4, "s"@) && spec_has_at(n, 5int, "and"@) {
        Some((KeyKind::Alpha(Alpha::S, KeyExpansion::Plain), 8int))
    } else if spec_has_at(n, 4, "t"@) && spec_has_at(n, 5int, "and"@) {
        Some((KeyKind::Alpha(Alpha::T, KeyExpansion::Plain), 8int))
    } else if spec_has_at(n, 4, "u"@) && spec_has_at(n, 5int, "and"@) {
        Some((KeyKind::Alpha(Alpha::U, KeyExpansion::Plain), 8int))
    } else if spec_has_at(n, 4, "v"@) && spec_has_at(n, 5int, "and"@) {
        Some((KeyKind::Alpha(Alpha::V, KeyExpansion::Plain), 8int))
    } else if spec_has_at(n, 4, "w"@) && spec_has_at(n, 5int, "and"@) {
        Some((KeyKind::Alpha(Alpha::W, KeyExpansion::Plain), 8int))
    } else if spec_has_at(n, 4, "x"@) && spec_has_at(n, 5int, "and"@) {
        Some((KeyKind::Alpha(Alpha::X, KeyExpansion::Plain), 8int))
    } else if spec_has_at(n, 4, "y"@) && spec_has_at(n, 5int, "and"@) {
        Some((KeyKind::Alpha(Alpha::Y, KeyExpansion::Plain), 8int))
    } else if spec_has_at(n, 4, "z"@) && spec_has_at(n, 5int, "and"@) {
        Some((KeyKind::Alpha(Alpha::Z, KeyExpansion::Plain), 8int))
    } else {
        None
    }
}

fn dual_base_debug_alpha(n: &Vec<char>) -> (r: Option<(KeyKind, usize)>)
    requires
        n@.len() <= usize::MAX - 16,
    ensures
        match r {
            Some((k, p)) => spec_dual_base_debug_alpha(n@) == Some((k, p as int)) && p <= n@.len(),
            None => spec_dual_base_debug_alpha(n@) is None,
        },
{
    let nlen = n.len();
    proof {
        reveal_strlit("and");
    }
    if 4 <= nlen && has_at(n, 4, "a") && 5 <= nlen && has_at(n, 5, "and") {
        Some((KeyKind::Alpha(Alpha::A, KeyExpansion::Plain), 8))
    } else if 4 <= nlen && has_at(n, 4, "b") && 5 <= nlen && has_at(n, 5, "and") {
        Some((KeyKind::Alpha(Alpha::B, KeyExpansion::Plain), 8))
    } else if 4 <= nlen && has_at(n, 4, "c") && 5 <= nlen && has_at(n, 5, "and") {
        Some((KeyKind::Alpha(Alpha::C, KeyExpansion::Plain), 8))
    } else if 4 <= nlen && has_at(n, 4, "d") && 5 <= nlen && has_at(n, 5, "and") {
        Some((KeyKind::Alpha(Alpha::D, KeyExpansion::Plain), 8))
    } else if 4 <= nlen && has_at(n, 4, "e") && 5 <= nlen && has_at(n, 5, "and") {
        Some((KeyKind::Alpha(Alpha::E, KeyExpansion::Plain), 8))
    } else if 4 <= nlen && has_at(n, 4, "f") && 5 <= nlen && has_at(n, 5, "and") {
        Some((KeyKind::Alpha(Alpha::F, KeyExpansion::Plain), 8))
    } else if 4 <= nlen && has_at(n, 4, "g") && 5 <= nlen && has_at(n, 5, "and") {
        Some((KeyKind::Alpha(Alpha::G, KeyExpansion::Plain), 8))
    } else if 4 <= nlen && has_at(n, 4, "h") && 5 <= nlen && has_at(n, 5, "and") {
        Some((KeyKind::Alpha(Alpha::H, KeyExpansion::Plain), 8))
    } else if 4 <= nlen && has_at(n, 4, "i") && 5 <= nlen && has_at(n, 5, "and") {
        Some((KeyKind::Alpha(Alpha::I, KeyExpansion::Plain), 8))
    } else if 4 <= nlen && has_at(n, 4, "j") && 5 <= nlen && has_at(n, 5, "and") {
        Some((KeyKind::Alpha(Alpha::J, KeyExpansion::Plain), 8))
    } else if 4 <= nlen && has_at(n, 4, "k") && 5 <= nlen && has_at(n, 5, "and") {
        Some((KeyKind::Alpha(Alpha::K, KeyExpansion::Plain), 8))
    } else if 4 <= nlen && has_at(n, 4, "l") && 5 <= nlen && has_at(n, 5, "and") {
        Some((KeyKind::Alpha(Alpha::L, KeyExpansion::Plain), 8))
    } else if 4 <= nlen && has_at(n, 4, "m") && 5 <= nlen && has_at(n, 5, "and") {
        Some((KeyKind::Alpha(Alpha::M, KeyExpansion::Plain), 8))
    } else if 4 <= nlen && has_at(n, 4, "n") && 5 <= nlen && has_at(n, 5, "and") {
        Some((KeyKind::Alpha(Alpha::N, KeyExpansion::Plain), 8))
    } else if 4 <= nlen && has_at(n, 4, "o") && 5 <= nlen && has_at(n, 5, "and") {
        Some((KeyKind::Alpha(Alpha::O, KeyExpansion::Plain), 8))
    } else if 4 <= nlen && has_at(n, 4, "p") && 5 <= nlen && has_at(n, 5, "and") {
        Some((KeyKind::Alpha(Alpha::P, KeyExpansion::Plain), 8))
    } else if 4 <= nlen && has_at(n, 4, "q") && 5 <= nlen && has_at(n, 5, "and") {
        Some((KeyKind::Alpha(Alpha::Q, KeyExpansion::Plain), 8))
    } else if 4 <= nlen && has_at(n, 4, "r") && 5 <= nlen && has_at(n, 5, "and") {
        Some((KeyKind::Alpha(Alpha::R, KeyExpansion::Plain), 8))
    } else if 4 <= nlen && has_at(n, 4, "s") && 5 <= nlen && has_at(n, 5, "and") {
        Some((KeyKind::Alpha(Alpha::S, KeyExpansion::Plain), 8))
    } else if 4 <= nlen && has_at(n, 4, "t") && 5 <= nlen && has_at(n, 5, "and") {
        Some((KeyKind::Alpha(Alpha::T, KeyExpansion::Plain), 8))
    } else if 4 <= nlen && has_at(n, 4, "u") && 5 <= nlen && has_at(n, 5, "and") {
        Some((KeyKind::Alpha(Alpha::U, KeyExpansion::Plain), 8))
    } else if 4 <= nlen && has_at(n, 4, "v") && 5 <= nlen && has_at(n, 5, "and") {
        Some((KeyKind::Alpha(Alpha::V, KeyExpansion::Plain), 8))
    } else if 4 <= nlen && has_at(n, 4, "w") && 5 <= nlen && has_at(n, 5, "and") {
        Some((KeyKind::Alpha(Alpha::W, KeyExpansion::Plain), 8))
    } else if 4 <= nlen && has_at(n, 4, "x") && 5 <= nlen && has_at(n, 5, "and") {
        Some((KeyKind::Alpha(Alpha::X, KeyExpansion::Plain), 8))
    } else if 4 <= nlen && has_at(n, 4, "y") && 5 <= nlen && has_at(n, 5, "and") {
        Some((KeyKind::Alpha(Alpha::Y, KeyExpansion::Plain), 8))
    } else if 4 <= nlen && has_at(n, 4, "z") && 5 <= nlen && has_at(n, 5, "and") {
        Some((KeyKind::Alpha(Alpha::Z, KeyExpansion::Plain), 8))
    } else {
        proof {
            if spec_dual_base_debug_alpha(n@) is Some {
            }
        }
        None
    }
}

pub open spec fn spec_dual_base_debug_digits(n: Seq<char>) -> Option<(KeyKind, int)> {
    if spec_has_at(n, 4, "one"@) && spec_has_at(n, 7int, "and"@) {
        Some((KeyKind::Digits(Digits::One, KeyExpansion::Plain), 10int))
    } else if spec_has_at(n, 4, "two"@) && spec_has_at(n, 7int, "and"@) {
        Some((KeyKind::Digits(Digits::Two, KeyExpansion::Plain), 10int))
    } else if spec_has_at(n, 4, "three"@) && spec_has_at(n, 9int, "and"@) {
        Some((KeyKind::Digits(Digits::Three, KeyExpansion::Plain), 12int))
    } else if spec_has_at(n, 4, "four"@) && spec_has_at(n, 8int, "and"@) {
        Some((KeyKind::Digits(Digits::Four, KeyExpansion::Plain), 11int))
    } else if spec_has_at(n, 4, "five"@) && spec_has_at(n, 8int, "and"@) {
        Some((KeyKind::Digits(Digits::Five, KeyExpansion::Plain), 11int))
    } else if spec_has_at(n, 4, "six"@) && spec_has_at(n, 7int, "and"@) {
        Some((KeyKind::Digits(Digits::Six, KeyExpansion::Plain), 10int))
    } else if spec_has_at(n, 4, "seven"@) && spec_has_at(n, 9int, "and"@) {
        Some((KeyKind::Digits(Digits::Seven, KeyExpansion::Plain), 12int))
    } else if spec_has_at(n, 4, "eight"@) && spec_has_at(n, 9int, "and"@) {
        Some((KeyKind::Digits(Digits::Eight, KeyExpansion::Plain), 12int))
    } else if spec_has_at(n, 4, "nine"@) && spec_has_at(n, 8int, "and"@) {
        Some((KeyKind::Digits(Digits::Nine, KeyExpansion::Plain), 11int))
    } else if spec_has_at(n, 4, "zero"@) && spec_has_at(n, 8int, "and"@) {
        Some((KeyKind::Digits(Digits::Zero, KeyExpansion::Plain), 11int))
    } else {
        None
    }
}

fn dual_base_debug_digits(n: &Vec<char>) -> (r: Option<(KeyKind, usize)>)
    requires
        n@.len() <= usize::MAX - 16,
    ensures
        match r {
            Some((k, p)) => spec_dual_base_debug_digits(n@) == Some((k, p as int)) && p <= n@.len(),
            None => spec_dual_base_debug_digits(n@) is None,
        },
{
    let nlen = n.len();
    proof {
        reveal_strlit("and");
    }
    if 4 <= nlen && has_at(n, 4, "one") && 7 <= nlen && has_at(n, 7, "and") {
        Some((KeyKind::Digits(Digits::One, KeyExpansion::Plain), 10))
    } else if 4 <= nlen && has_at(n, 4, "two") && 7 <= nlen && has_at(n, 7, "and") {
        Some((KeyKind::Digits(Digits::Two, KeyExpansion::Plain), 10))
    } else if 4 <= nlen && has_at(n, 4, "three") && 9 <= nlen && has_at(n, 9, "and") {
        Some((KeyKind::Digits(Digits::Three, KeyExpansion::Plain), 12))
    } else if 4 <= nlen && has_at(n, 4, "four") && 8 <= nlen && has_at(n, 8, "and") {
        Some((KeyKind::Digits(Digits::Four, KeyExpansion::Plain), 11))
    } else if 4 <= nlen && has_at(n, 4, "five") && 8 <= nlen && has_at(n, 8, "and") {
        Some((KeyKind::Digits(Digits::Five, KeyExpansion::Plain), 11))
    } else if 4 <= nlen && has_at(n, 4, "six") && 7 <= nlen && has_at(n, 7, "and") {
        Some((KeyKind::Digits(Digits::Six, KeyExpansion::Plain), 10))
    } else if 4 <= nlen && has_at(n, 4, "seven") && 9 <= nlen && has_at(n, 9, "and") {
        Some((KeyKind::Digits(Digits::Seven, KeyExpansion::Plain), 12))
    } else if 4 <= nlen && has_at(n, 4, "eight") && 9 <= nlen && has_at(n, 9, "and") {
        Some((KeyKind::Digits(Digits::Eight, KeyExpansion::Plain), 12))
    } else if 4 <= nlen && has_at(n, 4, "nine") && 8 <= nlen && has_at(n, 8, "and") {
        Some((KeyKind::Digits(Digits::Nine, KeyExpansion::Plain), 11))
    } else if 4 <= nlen && has_at(n, 4, "zero") && 8 <= nlen && has_at(n, 8, "and") {
        Some((KeyKind::Digits(Digits::Zero, KeyExpansion::Plain), 11))
    } else {
        proof {
            if spec_dual_base_debug_digits(n@) is Some {
            }
        }
        None
    }
}

pub open spec fn spec_dual_base_debug_numpad(n: Seq<char>) -> Option<(KeyKind, int)> {
    if spec_has_at(n, 4, "numlock"@) && spec_has_at(n, 11int, "and"@) {
        Some((KeyKind::Numpad(Numpad::NumLock, KeyExpansion::Plain), 14int))
    } else if spec_has_at(n, 4, "divide"@) && spec_has_at(n, 10int, "and"@) {
        Some((KeyKind::Numpad(Numpad::Divide, KeyExpansion::Plain), 13int))
    } else if spec_has_at(n, 4, "times"@) && spec_has_at(n, 9int, "and"@) {
        Some((KeyKind::Numpad(Numpad::Times, KeyExpansion::Plain), 12int))
    } else if spec_has_at(n, 4, "minus"@) && spec_has_at(n, 9int, "and"@) {
        Some((KeyKind::Numpad(Numpad::Minus, KeyExpansion::Plain), 12int))
    } else if spec_has_at(n, 4, "add"@) && spec_has_at(n, 7int, "and"@) {
        Some((KeyKind::Numpad(Numpad::Add, KeyExpansion::Plain), 10int))
    } else if spec_has_at(n, 4, "enter"@) && spec_has_at(n, 9int, "and"@) {
        Some((KeyKind::Numpad(Numpad::Enter, KeyExpansion::Plain), 12int))
    } else if spec_has_at(n, 4, "one"@) && spec_has_at(n, 7int, "and"@) {
        Some((KeyKind::Numpad(Numpad::One, KeyExpansion::Plain), 10int))
    } else if spec_has_at(n, 4, "two"@) && spec_has_at(n, 7int, "and"@) {
        Some((KeyKind::Numpad(Numpad::Two, KeyExpansion::Plain), 10int))
    } else if spec_has_at(n, 4, "three"@) && spec_has_at(n, 9int, "and"@) {
        Some((KeyKind::Numpad(Numpad::Three, KeyExpansion::Plain), 12int))
    } else if spec_has_at(n, 4, "four"@) && spec_has_at(n, 8int, "and"@) {
        Some((KeyKind::Numpad(Numpad::Four, KeyExpansion::Plain), 11int))
    } else if spec_has_at(n, 4, "five"@) && spec_has_at(n, 8int, "and"@) {
        Some((KeyKind::Numpad(Numpad::Five, KeyExpansion::Plain), 11int))
    } else if spec_has_at(n, 4, "six"@) && spec_has_at(n, 7int, "and"@) {
        Some((KeyKind::Numpad(Numpad::Six, KeyExpansion::Plain), 10int))
    } else if spec_has_at(n, 4, "seven"@) && spec_has_at(n, 9int, "and"@) {
        Some((KeyKind::Numpad(Numpad::Seven, KeyExpansion::Plain), 12int))
    } else if spec_has_at(n, 4, "eight"@) && spec_has_at(n, 9int, "and"@) {
        Some((KeyKind::Numpad(Numpad::Eight, KeyExpansion::Plain), 12int))
    } else if spec_has_at(n, 4, "nine"@) && spec_has_at(n, 8int, "and"@) {
        Some((KeyKind::Numpad(Numpad::Nine, KeyExpansion::Plain), 11int))
    } else if spec_has_at(n, 4, "zero"@) && spec_has_at(n, 8int, "and"@) {
        Some((KeyKind::Numpad(Numpad::Zero, KeyExpansion::Plain), 11int))
    } else if spec_has_at(n, 4, "period"@) && spec_has_at(n, 10int, "and"@) {
        Some((KeyKind::Numpad(Numpad::Period, KeyExpansion::Plain), 13int))
    } else {
        None
    }
}

fn dual_base_debug_numpad(n: &Vec<char>) -> (r: Option<(KeyKind, usize)>)
    requires
        n@.len() <= usize::MAX - 16,
    ensures
        match r {
            Some((k, p)) => spec_dual_base_debug_numpad(n@) == Some((k, p as int)) && p <= n@.len(),
            None => spec_dual_base_debug_numpad(n@) is None,
        },
{
    let nlen = n.len();
    proof {
        reveal_strlit("and");
    }
    if 4 <= nlen && has_at(n, 4, "numlock") && 11 <= nlen && has_at(n, 11, "and") {
        Some((KeyKind::Numpad(Numpad::NumLock, KeyExpansion::Plain), 14))
    } else if 4 <= nlen && has_at(n, 4, "divide") && 10 <= nlen && has_at(n, 10, "and") {
        Some((KeyKind::Numpad(Numpad::Divide, KeyExpansion::Plain), 13))
    } else if 4 <= nlen && has_at(n, 4, "times") && 9 <= nlen && has_at(n, 9, "and") {
        Some((KeyKind::Numpad(Numpad::Times, KeyExpansion::Plain), 12))
    } else if 4 <= nlen && has_at(n, 4, "minus") && 9 <= nlen && has_at(n, 9, "and") {
        Some((KeyKind::Numpad(Numpad::Minus, KeyExpansion::Plain), 12))
    } else if 4 <= nlen && has_at(n, 4, "add") && 7 <= nlen && has_at(n, 7, "and") {
        Some((KeyKind::Numpad(Numpad::Add, KeyExpansion::Plain), 10))
    } else if 4 <= nlen && has_at(n, 4, "enter") && 9 <= nlen && has_at(n, 9, "and") {
        Some((KeyKind::Numpad(Numpad::Enter, KeyExpansion::Plain), 12))
    } else if 4 <= nlen && has_at(n, 4, "one") && 7 <= nlen && has_at(n, 7, "and") {
        Some((KeyKind::Numpad(Numpad::One, KeyExpansion::Plain), 10))
    } else if 4 <= nlen && has_at(n, 4, "two") && 7 <= nlen && has_at(n, 7, "and") {
        Some((KeyKind::Numpad(Numpad::Two, KeyExpansion::Plain), 10))
    } else if 4 <= nlen && has_at(n, 4, "three") && 9 <= nlen && has_at(n, 9, "and") {
        Some((KeyKind::Numpad(Numpad::Three, KeyExpansion::Plain), 12))
    } else if 4 <= nlen && has_at(n, 4, "four") && 8 <= nlen && has_at(n, 8, "and") {
        Some((KeyKind::Numpad(Numpad::Four, KeyExpansion::Plain), 11))
    } else if 4 <= nlen && has_at(n, 4, "five") && 8 <= nlen && has_at(n, 8, "and") {
        Some((KeyKind::Numpad(Numpad::Five, KeyExpansion::Plain), 11))
    } else if 4 <= nlen && has_at(n, 4, "six") && 7 <= nlen && has_at(n, 7, "and") {
        Some((KeyKind::Numpad(Numpad::Six, KeyExpansion::Plain), 10))
    } else if 4 <= nlen && has_at(n, 4, "seven") && 9 <= nlen && has_at(n, 9, "and") {
        Some((KeyKind::Numpad(Numpad::Seven, KeyExpansion::Plain), 12))
    } else if 4 <= nlen && has_at(n, 4, "eight") && 9 <= nlen && has_at(n, 9, "and") {
        Some((KeyKind::Numpad(Numpad::Eight, KeyExpansion::Plain), 12))
    } else if 4 <= nlen && has_at(n, 4, "nine") && 8 <= nlen && has_at(n, 8, "and") {
        Some((KeyKind::Numpad(Numpad::Nine, KeyExpansion::Plain), 11))
    } else if 4 <= nlen && has_at(n, 4, "zero") && 8 <= nlen && has_at(n, 8, "and") {
        Some((KeyKind::Numpad(Numpad::Zero, KeyExpansion::Plain), 11))
    } else if 4 <= nlen && has_at(n, 4, "period") && 10 <= nlen && has_at(n, 10, "and") {
        Some((KeyKind::Numpad(Numpad::Period, KeyExpansion::Plain), 13))
    } else {
        proof {
            if spec_dual_base_debug_numpad(n@) is Some {
            }
        }
        None
    }
}

pub open spec fn spec_dual_base_debug_fx(n: Seq<char>) -> Option<(KeyKind, int)> {
    if spec_has_at(n, 4, "f1"@) && spec_has_at(n, 6int, "and"@) {
        Some((KeyKind::Fx(Fx::F1, KeyExpansion::Plain), 9int))
    } else if spec_has_at(n, 4, "f2"@) && spec_has_at(n, 6int, "and"@) {
        Some((KeyKind::Fx(Fx::F2, KeyExpansion::Plain), 9int))
    } else if spec_has_at(n, 4, "f3"@) && spec_has_at(n, 6int, "and"@) {
        Some((KeyKind::Fx(Fx::F3, KeyExpansion::Plain), 9int))
    } else if spec_has_at(n, 4, "f4"@) && spec_has_at(n, 6int, "and"@) {
        Some((KeyKind::Fx(Fx::F4, KeyExpansion::Plain), 9int))
    } else if spec_has_at(n, 4, "f5"@) && spec_has_at(n, 6int, "and"@) {
        Some((KeyKind::Fx(Fx::F5, KeyExpansion::Plain), 9int))
    } else if spec_has_at(n, 4, "f6"@) && spec_has_at(n, 6int, "and"@) {
        Some((KeyKind::Fx(Fx::F6, KeyExpansion::Plain), 9int))
    } else if spec_has_at(n, 4, "f7"@) && spec_has_at(n, 6int, "and"@) {
        Some((KeyKind::Fx(Fx::F7, KeyExpansion::Plain), 9int))
    } else if spec_has_at(n, 4, "f8"@) && spec_has_at(n, 6int, "and"@) {
        Some((KeyKind::Fx(Fx::F8, KeyExpansion::Plain), 9int))
    } else if spec_has_at(n, 4, "f9"@) && spec_has_at(n, 6int, "and"@) {
        Some((KeyKind::Fx(Fx::F9, KeyExpansion::Plain), 9int))
    } else if spec_has_at(n, 4, "f10"@) && spec_has_at(n, 7int, "and"@) {
        Some((KeyKind::Fx(Fx::F10, KeyExpansion::Plain), 10int))
    } else if spec_has_at(n, 4, "f11"@) && spec_has_at(n, 7int, "and"@) {
        Some((KeyKind::Fx(Fx::F11, KeyExpansion::Plain), 10int))
    } else if spec_has_at(n, 4, "f12"@) && spec_has_at(n, 7int, "and"@) {
        Some((KeyKind::Fx(Fx::F12, KeyExpansion::Plain), 10int))
    } else if spec_has_at(n, 4, "f13"@) && spec_has_at(n, 7int, "and"@) {
        Some((KeyKind::Fx(Fx::F13, KeyExpansion::Plain), 10int))
    } else if spec_has_at(n, 4, "f14"@) && spec_has_at(n, 7int, "and"@) {
        Some((KeyKind::Fx(Fx::F14, KeyExpansion::Plain), 10int))
    } else if spec_has_at(n, 4, "f15"@) && spec_has_at(n, 7int, "and"@) {
        Some((KeyKind::Fx(Fx::F15, KeyExpansion::Plain), 10int))
    } else if spec_has_at(n, 4, "f16"@) && spec_has_at(n, 7int, "and"@) {
        Some((KeyKind::Fx(Fx::F16, KeyExpansion::Plain), 10int))
    } else if spec_has_at(n, 4, "f17"@) && spec_has_at(n, 7int, "and"@) {
        Some((KeyKind::Fx(Fx::F17, KeyExpansion::Plain), 10int))
    } else if spec_has_at(n, 4, "f18"@) && spec_has_at(n, 7int, "and"@) {
        Some((KeyKind::Fx(Fx::F18, KeyExpansion::Plain), 10int))
    } else if spec_has_at(n, 4, "f19"@) && spec_has_at(n, 7int, "and"@) {
        Some((KeyKind::Fx(Fx::F19, KeyExpansion::Plain), 10int))
    } else if spec_has_at(n, 4, "f20"@) && spec_has_at(n, 7int, "and"@) {
        Some((KeyKind::Fx(Fx::F20, KeyExpansion::Plain), 10int))
    } else if spec_has_at(n, 4, "f21"@) && spec_has_at(n, 7int, "and"@) {
        Some((KeyKind::Fx(Fx::F21, KeyExpansion::Plain), 10int))
    } else if spec_has_at(n, 4, "f22"@) && spec_has_at(n, 7int, "and"@) {
        Some((KeyKind::Fx(Fx::F22, KeyExpansion::Plain), 10int))
    } else if spec_has_at(n, 4, "f23"@) && spec_has_at(n, 7int, "and"@) {
        Some((KeyKind::Fx(Fx::F23, KeyExpansion::Plain), 10int))
    } else if spec_has_at(n, 4, "f24"@) && spec_has_at(n, 7int, "and"@) {
        Some((KeyKind::Fx(Fx::F24, KeyExpansion::Plain), 10int))
    } else {
        None
    }
}

fn dual_base_debug_fx(n: &Vec<char>) -> (r: Option<(KeyKind, usize)>)
    requires
        n@.len() <= usize::MAX - 16,
    ensures
        match r {
            Some((k, p)) => spec_dual_base_debug_fx(n@) == Some((k, p as int)) && p <= n@.len(),
            None => spec_dual_base_debug_fx(n@) is None,
        },
{
    let nlen = n.len();
    proof {
        reveal_strlit("and");
    }
    if 4 <= nlen && has_at(n, 4, "f1") && 6 <= nlen && has_at(n, 6, "and") {
        Some((KeyKind::Fx(Fx::F1, KeyExpansion::Plain), 9))
    } else if 4 <= nlen && has_at(n, 4, "f2") && 6 <= nlen && has_at(n, 6, "and") {
        Some((KeyKind::Fx(Fx::F2, KeyExpansion::Plain), 9))
    } else if 4 <= nlen && has_at(n, 4, "f3") && 6 <= nlen && has_at(n, 6, "and") {
        Some((KeyKind::Fx(Fx::F3, KeyExpansion::Plain), 9))
    } else if 4 <= nlen && has_at(n, 4, "f4") && 6 <= nlen && has_at(n, 6, "and") {
        Some((KeyKind::Fx(Fx::F4, KeyExpansion::Plain), 9))
    } else if 4 <= nlen && has_at(n, 4, "f5") && 6 <= nlen && has_at(n, 6, "and") {
        Some((KeyKind::Fx(Fx::F5, KeyExpansion::Plain), 9))
    } else if 4 <= nlen && has_at(n, 4, "f6") && 6 <= nlen && has_at(n, 6, "and") {
        Some((KeyKind::Fx(Fx::F6, KeyExpansion::Plain), 9))
    } else if 4 <= nlen && has_at(n, 4, "f7") && 6 <= nlen && has_at(n, 6, "and") {
        Some((KeyKind::Fx(Fx::F7, KeyExpansion::Plain), 9))
    } else if 4 <= nlen && has_at(n, 4, "f8") && 6 <= nlen && has_at(n, 6, "and") {
        Some((KeyKind::Fx(Fx::F8, KeyExpansion::Plain), 9))
    } else if 4 <= nlen && has_at(n, 4, "f9") && 6 <= nlen && has_at(n, 6, "and") {
        Some((KeyKind::Fx(Fx::F9, KeyExpansion::Plain), 9))
    } else if 4 <= nlen && has_at(n, 4, "f10") && 7 <= nlen && has_at(n, 7, "and") {
        Some((KeyKind::Fx(Fx::F10, KeyExpansion::Plain), 10))
    } else if 4 <= nlen && has_at(n, 4, "f11") && 7 <= nlen && has_at(n, 7, "and") {
        Some((KeyKind::Fx(Fx::F11, KeyExpansion::Plain), 10))
    } else if 4 <= nlen && has_at(n, 4, "f12") && 7 <= nlen && has_at(n, 7, "and") {
        Some((KeyKind::Fx(Fx::F12, KeyExpansion::Plain), 10))
    } else if 4 <= nlen && has_at(n, 4, "f13") && 7 <= nlen && has_at(n, 7, "and") {
        Some((KeyKind::Fx(Fx::F13, KeyExpansion::Plain), 10))
    } else if 4 <= nlen && has_at(n, 4, "f14") && 7 <= nlen && has_at(n, 7, "and") {
        Some((KeyKind::Fx(Fx::F14, KeyExpansion::Plain), 10))
    } else if 4 <= nlen && has_at(n, 4, "f15") && 7 <= nlen && has_at(n, 7, "and") {
        Some((KeyKind::Fx(Fx::F15, KeyExpansion::Plain), 10))
    } else if 4 <= nlen && has_at(n, 4, "f16") && 7 <= nlen && has_at(n, 7, "and") {
        Some((KeyKind::Fx(Fx::F16, KeyExpansion::Plain), 10))
    } else if 4 <= nlen && has_at(n, 4, "f17") && 7 <= nlen && has_at(n, 7, "and") {
        Some((KeyKind::Fx(Fx::F17, KeyExpansion::Plain), 10))
    } else if 4 <= nlen && has_at(n, 4, "f18") && 7 <= nlen && has_at(n, 7, "and") {
        Some((KeyKind::Fx(Fx::F18, KeyExpansion::Plain), 10))
    } else if 4 <= nlen && has_at(n, 4, "f19") && 7 <= nlen && has_at(n, 7, "and") {
        Some((KeyKind::Fx(Fx::F19, KeyExpansion::Plain), 10))
    } else if 4 <= nlen && has_at(n, 4, "f20") && 7 <= nlen && has_at(n, 7, "and") {
        Some((KeyKind::Fx(Fx::F20, KeyExpansion::Plain), 10))
    } else if 4 <= nlen && has_at(n, 4, "f21") && 7 <= nlen && has_at(n, 7, "and") {
        Some((KeyKind::Fx(Fx::F21, KeyExpansion::Plain), 10))
    } else if 4 <= nlen && has_at(n, 4, "f22") && 7 <= nlen && has_at(n, 7, "and") {
        Some((KeyKind::Fx(Fx::F22, KeyExpansion::Plain), 10))
    } else if 4 <= nlen && has_at(n, 4, "f23") && 7 <= nlen && has_at(n, 7, "and") {
        Some((KeyKind::Fx(Fx::F23, KeyExpansion::Plain), 10))
    } else if 4 <= nlen && has_at(n, 4, "f24") && 7 <= nlen && has_at(n, 7, "and") {
        Some((KeyKind::Fx(Fx::F24, KeyExpansion::Plain), 10))
    } else {
        proof {
            if spec_dual_base_debug_fx(n@) is Some {
            }
        }
        None
    }
}

pub open spec fn spec_dual_base_debug_symbols(n: Seq<char>) -> Option<(KeyKind, int)> {
    if spec_has_at(n, 4, "dash"@) && spec_has_at(n, 8int, "and"@) {
        Some((KeyKind::Symbols(Symbols::Dash, KeyExpansion::Plain), 11int))
    } else if spec_has_at(n, 4, "equals"@) && spec_has_at(n, 10int, "and"@) {
        Some((KeyKind::Symbols(Symbols::Equals, KeyExpansion::Plain), 13int))
    } else if spec_has_at(n, 4, "bracketleft"@) && spec_has_at(n, 15int, "and"@) {
        Some((KeyKind::Symbols(Symbols::BracketLeft, KeyExpansion::Plain), 18int))
    } else if spec_has_at(n, 4, "bracketright"@) && spec_has_at(n, 16int, "and"@) {
        Some((KeyKind::Symbols(Symbols::BracketRight, KeyExpansion::Plain), 19int))
    } else if spec_has_at(n, 4, "backslash"@) && spec_has_at(n, 13int, "and"@) {
        Some((KeyKind::Symbols(Symbols::Backslash, KeyExpansion::Plain), 16int))
    } else if spec_has_at(n, 4, "semicolon"@) && spec_has_at(n, 13int, "and"@) {
        Some((KeyKind::Symbols(Symbols::Semicolon, KeyExpansion::Plain), 16int))
    } else if spec_has_at(n, 4, "singlequote"@) && spec_has_at(n, 15int, "and"@) {
        Some((KeyKind::Symbols(Symbols::SingleQuote, KeyExpansion::Plain), 18int))
    } else if spec_has_at(n, 4, "backtick"@) && spec_has_at(n, 12int, "and"@) {
        Some((KeyKind::Symbols(Symbols::BackTick, KeyExpansion::Plain), 15int))
    } else if spec_has_at(n, 4, "comma"@) && spec_has_at(n, 9int, "and"@) {
        Some((KeyKind::Symbols(Symbols::Comma, KeyExpansion::Plain), 12int))
    } else if spec_has_at(n, 4, "period"@) && spec_has_at(n, 10int, "and"@) {
        Some((KeyKind::Symbols(Symbols::Period, KeyExpansion::Plain), 13int))
    } else if spec_has_at(n, 4, "slash"@) && spec_has_at(n, 9int, "and"@) {
        Some((KeyKind::Symbols(Symbols::Slash, KeyExpansion::Plain), 12int))
    } else if spec_has_at(n, 4, "capslock"@) && spec_has_at(n, 12int, "and"@) {
        Some((KeyKind::Symbols(Symbols::CapsLock, KeyExpansion::Plain), 15int))
    } else if spec_has_at(n, 4, "isogtlt"@) && spec_has_at(n, 11int, "and"@) {
        Some((KeyKind::Symbols(Symbols::IsoGTLT, KeyExpansion::Plain), 14int))
    } else {
        None
    }
}

fn dual_base_debug_symbols(n: &Vec<char>) -> (r: Option<(KeyKind, usize)>)
    requires
        n@.len() <= usize::MAX - 16,
    ensures
        match r {
            Some((k, p)) => spec_dual_base_debug_symbols(n@) == Some((k, p as int)) && p <= n@.len(),
            None => spec_dual_base_debug_symbols(n@) is None,
        },
{
    let nlen = n.len();
    proof {
        reveal_strlit("and");
    }
    if 4 <= nlen && has_at(n, 4, "dash") && 8 <= nlen && has_at(n, 8, "and") {
        Some((KeyKind::Symbols(Symbols::Dash, KeyExpansion::Plain), 11))
    } else if 4 <= nlen && has_at(n, 4, "equals") && 10 <= nlen && has_at(n, 10, "and") {
        Some((KeyKind::Symbols(Symbols::Equals, KeyExpansion::Plain), 13))
    } else if 4 <= nlen && has_at(n, 4, "bracketleft") && 15 <= nlen && has_at(n, 15, "and") {
        Some((KeyKind::Symbols(Symbols::BracketLeft, KeyExpansion::Plain), 18))
    } else if 4 <= nlen && has_at(n, 4, "bracketright") && 16 <= nlen && has_at(n, 16, "and") {
        Some((KeyKind::Symbols(Symbols::BracketRight, KeyExpansion::Plain), 19))
    } else if 4 <= nlen && has_at(n, 4, "backslash") && 13 <= nlen && has_at(n, 13, "and") {
        Some((KeyKind::Symbols(Symbols::Backslash, KeyExpansion::Plain), 16))
    } else if 4 <= nlen && has_at(n, 4, "semicolon") && 13 <= nlen && has_at(n, 13, "and") {
        Some((KeyKind::Symbols(Symbols::Semicolon, KeyExpansion::Plain), 16))
    } else if 4 <= nlen && has_at(n, 4, "singlequote") && 15 <= nlen && has_at(n, 15, "and") {
        Some((KeyKind::Symbols(Symbols::SingleQuote, KeyExpansion::Plain), 18))
    } else if 4 <= nlen && has_at(n, 4, "backtick") && 12 <= nlen && has_at(n, 12, "and") {
        Some((KeyKind::Symbols(Symbols::BackTick, KeyExpansion::Plain), 15))
    } else if 4 <= nlen && has_at(n, 4, "comma") && 9 <= nlen && has_at(n, 9, "and") {
        Some((KeyKind::Symbols(Symbols::Comma, KeyExpansion::Plain), 12))
    } else if 4 <= nlen && has_at(n, 4, "period") && 10 <= nlen && has_at(n, 10, "and") {
        Some((KeyKind::Symbols(Symbols::Period, KeyExpansion::Plain), 13))
    } else if 4 <= nlen && has_at(n, 4, "slash") && 9 <= nlen && has_at(n, 9, "and") {
        Some((KeyKind::Symbols(Symbols::Slash, KeyExpansion::Plain), 12))
    } else if 4 <= nlen && has_at(n, 4, "capslock") && 12 <= nlen && has_at(n, 12, "and") {
        Some((KeyKind::Symbols(Symbols::CapsLock, KeyExpansion::Plain), 15))
    } else if 4 <= nlen && has_at(n, 4, "isogtlt") && 11 <= nlen && has_at(n, 11, "and") {
        Some((KeyKind::Symbols(Symbols::IsoGTLT, KeyExpansion::Plain), 14))
    } else {
        proof {
            if spec_dual_base_debug_symbols(n@) is Some {
            }
        }
        None
    }
}

pub open spec fn spec_dual_base_debug_navigation(n: Seq<char>) -> Option<(KeyKind, int)> {
    if spec_has_at(n, 4, "home"@) && spec_has_at(n, 8int, "and"@) {
        Some((KeyKind::Navigation(Navigation::Home, KeyExpansion::Plain), 11int))
    } else if spec_has_at(n, 4, "pageup"@) && spec_has_at(n, 10int, "and"@) {
        Some((KeyKind::Navigation(Navigation::PageUp, KeyExpansion::Plain), 13int))
    } else if spec_has_at(n, 4, "end"@) && spec_has_at(n, 7int, "and"@) {
        Some((KeyKind::Navigation(Navigation::End, KeyExpansion::Plain), 10int))
    } else if spec_has_at(n, 4, "pagedown"@) && spec_has_at(n, 12int, "and"@) {
        Some((KeyKind::Navigation(Navigation::PageDown, KeyExpansion::Plain), 15int))
    } else if spec_has_at(n, 4, "arrowright"@) && spec_has_at(n, 14int, "and"@) {
        Some((KeyKind::Navigation(Navigation::ArrowRight, KeyExpansion::Plain), 17int))
    } else if spec_has_at(n, 4, "arrowleft"@) && spec_has_at(n, 13int, "and"@) {
        Some((KeyKind::Navigation(Navigation::ArrowLeft, KeyExpansion::Plain), 16int))
    } else if spec_has_at(n, 4, "arrowdown"@) && spec_has_at(n, 13int, "and"@) {
        Some((KeyKind::Navigation(Navigation::ArrowDown, KeyExpansion::Plain), 16int))
    } else if spec_has_at(n, 4, "arrowup"@) && spec_has_at(n, 11int, "and"@) {
        Some((KeyKind::Navigation(Navigation::ArrowUp, KeyExpansion::Plain), 14int))
    } else if spec_has_at(n, 4, "menu"@) && spec_has_at(n, 8int, "and"@) {
        Some((KeyKind::Navigation(Navigation::Menu, KeyExpansion::Plain), 11int))
    } else {
        None
    }
}

fn dual_base_debug_navigation(n: &Vec<char>) -> (r: Option<(KeyKind, usize)>)
    requires
        n@.len() <= usize::MAX - 16,
    ensures
        match r {
            Some((k, p)) => spec_dual_base_debug_navigation(n@) == Some((k, p as int)) && p <= n@.len(),
            None => spec_dual_base_debug_navigation(n@) is None,
        },
{
    let nlen = n.len();
    proof {
        reveal_strlit("and");
    }
    if 4 <= nlen && has_at(n, 4, "home") && 8 <= nlen && has_at(n, 8, "and") {
        Some((KeyKind::Navigation(Navigation::Home, KeyExpansion::Plain), 11))
    } else if 4 <= nlen && has_at(n, 4, "pageup") && 10 <= nlen && has_at(n, 10, "and") {
        Some((KeyKind::Navigation(Navigation::PageUp, KeyExpansion::Plain), 13))
    } else if 4 <= nlen && has_at(n, 4, "end") && 7 <= nlen && has_at(n, 7, "and") {
        Some((KeyKind::Navigation(Navigation::End, KeyExpansion::Plain), 10))
    } else if 4 <= nlen && has_at(n, 4, "pagedown") && 12 <= nlen && has_at(n, 12, "and") {
        Some((KeyKind::Navigation(Navigation::PageDown, KeyExpansion::Plain), 15))
    } else if 4 <= nlen && has_at(n, 4, "arrowright") && 14 <= nlen && has_at(n, 14, "and") {
        Some((KeyKind::Navigation(Navigation::ArrowRight, KeyExpansion::Plain), 17))
    } else if 4 <= nlen && has_at(n, 4, "arrowleft") && 13 <= nlen && has_at(n, 13, "and") {
        Some((KeyKind::Navigation(Navigation::ArrowLeft, KeyExpansion::Plain), 16))
    } else if 4 <= nlen && has_at(n, 4, "arrowdown") && 13 <= nlen && has_at(n, 13, "and") {
        Some((KeyKind::Navigation(Navigation::ArrowDown, KeyExpansion::Plain), 16))
    } else if 4 <= nlen && has_at(n, 4, "arrowup") && 11 <= nlen && has_at(n, 11, "and") {
        Some((KeyKind::Navigation(Navigation::ArrowUp, KeyExpansion::Plain), 14))
    } else if 4 <= nlen && has_at(n, 4, "menu") && 8 <= nlen && has_at(n, 8, "and") {
        Some((KeyKind::Navigation(Navigation::Menu, KeyExpansion::Plain), 11))
    } else {
        proof {
            if spec_dual_base_debug_navigation(n@) is Some {
            }
        }
        None
    }
}

pub open spec fn spec_dual_base_debug_miscellaneous(n: Seq<char>) -> Option<(KeyKind, int)> {
    if spec_has_at(n, 4, "printscreen"@) && spec_has_at(n, 15int, "and"@) {
        Some((KeyKind::Miscellaneous(Miscellaneous::PrintScreen, KeyExpansion::Plain), 18int))
    } else if spec_has_at(n, 4, "scrolllock"@) && spec_has_at(n, 14int, "and"@) {
        Some((KeyKind::Miscellaneous(Miscellaneous::ScrollLock, KeyExpansion::Plain), 17int))
    } else if spec_has_at(n, 4, "pause"@) && spec_has_at(n, 9int, "and"@) {
        Some((KeyKind::Miscellaneous(Miscellaneous::Pause, KeyExpansion::Plain), 12int))
    } else {
        None
    }
}

fn dual_base_debug_miscellaneous(n: &Vec<char>) -> (r: Option<(KeyKind, usize)>)
    requires
        n@.len() <= usize::MAX - 16,
    ensures
        match r {
            Some((k, p)) => spec_dual_base_debug_miscellaneous(n@) == Some((k, p as int)) && p <= n@.len(),
            None => spec_dual_base_debug_miscellaneous(n@) is None,
        },
{
    let nlen = n.len();
    proof {
        reveal_strlit("and");
    }
    if 4 <= nlen && has_at(n, 4, "printscreen") && 15 <= nlen && has_at(n, 15, "and") {
        Some((KeyKind::Miscellaneous(Miscellaneous::PrintScreen, KeyExpansion::Plain), 18))
    } else if 4 <= nlen && has_at(n, 4, "scrolllock") && 14 <= nlen && has_at(n, 14, "and") {
        Some((KeyKind::Miscellaneous(Miscellaneous::ScrollLock, KeyExpansion::Plain), 17))
    } else if 4 <= nlen && has_at(n, 4, "pause") && 9 <= nlen && has_at(n, 9, "and") {
        Some((KeyKind::Miscellaneous(Miscellaneous::Pause, KeyExpansion::Plain), 12))
    } else {
        proof {
            if spec_dual_base_debug_miscellaneous(n@) is Some {
            }
        }
        None
    }
}

/// The dual-expandable base key whose lowercased variant name stands at
/// position 4 of a `dual...and...` name, and the position right after
/// the `and` that follows it.
pub open spec fn spec_dual_base_debug(n: Seq<char>) -> Option<(KeyKind, int)> {

    if spec_dual_base_debug_spacing(n) is Some {
        spec_dual_base_debug_spacing(n)
    } else if spec_dual_base_debug_alpha(n) is Some {
        spec_dual_base_debug_alpha(n)
    } else if spec_dual_base_debug_digits(n) is Some {
        spec_dual_base_debug_digits(n)
    } else if spec_dual_base_debug_numpad(n) is Some {
        spec_dual_base_debug_numpad(n)
    } else if spec_dual_base_debug_fx(n) is Some {
        spec_dual_base_debug_fx(n)
    } else if spec_dual_base_debug_symbols(n) is Some {
        spec_dual_base_debug_symbols(n)
    } else if spec_dual_base_debug_navigation(n) is Some {
        spec_dual_base_debug_navigation(n)
    } else if spec_dual_base_debug_miscellaneous(n) is Some {
        spec_dual_base_debug_miscellaneous(n)
    } else {
        None
    }
}

fn dual_base_debug(n: &Vec<char>) -> (r: Option<(KeyKind, usize)>)
    requires
        n@.len() <= usize::MAX - 16,
    ensures
        match r {
            Some((k, p)) => spec_dual_base_debug(n@) == Some((k, p as int)) && p <= n@.len(),
            None => spec_dual_base_debug(n@) is None,
        },
{
    if let Some(x) = dual_base_debug_spacing(n) {
        return Some(x);
    }
    if let Some(x) = dual_base_debug_alpha(n) {
        return Some(x);
    }
    if let Some(x) = dual_base_debug_digits(n) {
        return Some(x);
    }
    if let Some(x) = dual_base_debug_numpad(n) {
        return Some(x);
    }
    if let Some(x) = dual_base_debug_fx(n) {
        return Some(x);
    }
    if let Some(x) = dual_base_debug_symbols(n) {
        return Some(x);
    }
    if let Some(x) = dual_base_debug_navigation(n) {
        return Some(x);
    }
    if let Some(x) = dual_base_debug_miscellaneous(n) {
        return Some(x);
    }
    None
}

/// The dual-function overlay a normalized name suffix means.
pub open spec fn spec_dual_mod(n: Seq<char>, i: int) -> Option<DualFunctionModifier> {
    if spec_suffix_is(n, i, "ctrl"@) {
        Some(DualFunctionModifier::Ctrl)
    } else if spec_suffix_is(n, i, "alt"@) {
        Some(DualFunctionModifier::Alt)
    } else if spec_suffix_is(n, i, "altgr"@) {
        Some(DualFunctionModifier::AltGr)
    } else if spec_suffix_is(n, i, "os"@) {
        Some(DualFunctionModifier::Os)
    } else if spec_suffix_is(n, i, "shift"@) {
        Some(DualFunctionModifier::Shift)
    } else if spec_suffix_is(n, i, "layer1"@) {
        Some(DualFunctionModifier::Layer1)
    } else if spec_suffix_is(n, i, "layer2"@) {
        Some(DualFunctionModifier::Layer2)
    } else if spec_suffix_is(n, i, "layer3"@) {
        Some(DualFunctionModifier::Layer3)
    } else if spec_suffix_is(n, i, "layer4"@) {
        Some(DualFunctionModifier::Layer4)
    } else if spec_suffix_is(n, i, "layer5"@) {
        Some(DualFunctionModifier::Layer5)
    } else if spec_suffix_is(n, i, "layer6"@) {
        Some(DualFunctionModifier::Layer6)
    } else if spec_suffix_is(n, i, "layer7"@) {
        Some(DualFunctionModifier::Layer7)
    } else if spec_suffix_is(n, i, "layer8"@) {
        Some(DualFunctionModifier::Layer8)
    } else {
        None
    }
}

fn dual_mod(n: &Vec<char>, i: usize) -> (r: Option<DualFunctionModifier>)
    requires
        i <= n@.len(),
    ensures
        r == spec_dual_mod(n@, i as int),
{
    if suffix_is(n, i, "ctrl") {
        Some(DualFunctionModifier::Ctrl)
    } else if suffix_is(n, i, "alt") {
        Some(DualFunctionModifier::Alt)
    } else if suffix_is(n, i, "altgr") {
        Some(DualFunctionModifier::AltGr)
    } else if suffix_is(n, i, "os") {
        Some(DualFunctionModifier::Os)
    } else if suffix_is(n, i, "shift") {
        Some(DualFunctionModifier::Shift)
    } else if suffix_is(n, i, "layer1") {
        Some(DualFunctionModifier::Layer1)
    } else if suffix_is(n, i, "layer2") {
        Some(DualFunctionModifier::Layer2)
    } else if suffix_is(n, i, "layer3") {
        Some(DualFunctionModifier::Layer3)
    } else if suffix_is(n, i, "layer4") {
        Some(DualFunctionModifier::Layer4)
    } else if suffix_is(n, i, "layer5") {
        Some(DualFunctionModifier::Layer5)
    } else if suffix_is(n, i, "layer6") {
        Some(DualFunctionModifier::Layer6)
    } else if suffix_is(n, i, "layer7") {
        Some(DualFunctionModifier::Layer7)
    } else if suffix_is(n, i, "layer8") {
        Some(DualFunctionModifier::Layer8)
    } else {
        None
    }
}

/// Last position of a slash in the name, if any.
pub open spec fn spec_last_slash(n: Seq<char>, e: int) -> Option<int>
    decreases e,
    when e <= n.len()
{
    if e <= 0 {
        None
    } else if n[e - 1] == '/' {
        Some(e - 1)
    } else {
        spec_last_slash(n, e - 1)
    }
}

fn last_slash(n: &Vec<char>) -> (r: Option<usize>)
    ensures
        match r {
            Some(p) => spec_last_slash(n@, n@.len() as int) == Some(p as int) && p < n@.len(),
            None => spec_last_slash(n@, n@.len() as int) is None,
        },
{
    let mut e: usize = n.len();
    while e > 0
        invariant
            e <= n@.len(),
            spec_last_slash(n@, n@.len() as int) == spec_last_slash(n@, e as int),
        decreases e,
    {
        if n[e - 1] == '/' {
            return Some(e - 1);
        }
        e = e - 1;
    }
    None
}

/// The dual-function key a normalized name means, in either of its two
/// shapes: `{base} / {overlay}` from the display name, or
/// `dual{base}and{overlay}` from the variant name.
pub open spec fn spec_parse_dual(n: Seq<char>) -> Option<KeyKind> {
    let by_display = match spec_last_slash(n, n.len() as int) {
        Some(p) => match spec_dual_base_display(n, p) {
            Some(base) => match spec_dual_mod(n, p + 1) {
                Some(d) => Some(spec_with_dual(base, d)),
                None => None,
            },
            None => None,
        },
        None => None,
    };
    if by_display is Some {
        by_display
    } else if spec_has_at(n, 0, "dual"@) {
        match spec_dual_base_debug(n) {
            Some((base, q)) => match spec_dual_mod(n, q) {
                Some(d) => Some(spec_with_dual(base, d)),
                None => None,
            },
            None => None,
        }
    } else {
        None
    }
}

/// The key with its expansion replaced by a dual-function overlay.
pub open spec fn spec_with_dual(base: KeyKind, d: DualFunctionModifier) -> KeyKind {
    match base {
        KeyKind::Spacing(b, _) => KeyKind::Spacing(b, KeyExpansion::Dual(d)),
        KeyKind::Alpha(b, _) => KeyKind::Alpha(b, KeyExpansion::Dual(d)),
        KeyKind::Digits(b, _) => KeyKind::Digits(b, KeyExpansion::Dual(d)),
        KeyKind::Numpad(b, _) => KeyKind::Numpad(b, KeyExpansion::Dual(d)),
        KeyKind::Fx(b, _) => KeyKind::Fx(b, KeyExpansion::Dual(d)),
        KeyKind::Symbols(b, _) => KeyKind::Symbols(b, KeyExpansion::Dual(d)),
        KeyKind::Navigation(b, _) => KeyKind::Navigation(b, KeyExpansion::Dual(d)),
        KeyKind::Miscellaneous(b, _) => KeyKind::Miscellaneous(b, KeyExpansion::Dual(d)),
        other => other,
    }
}

fn with_dual(base: KeyKind, d: DualFunctionModifier) -> (r: KeyKind)
    ensures
        r == spec_with_dual(base, d),
{
    match base {
        KeyKind::Spacing(b, _) => KeyKind::Spacing(b, KeyExpansion::Dual(d)),
        KeyKind::Alpha(b, _) => KeyKind::Alpha(b, KeyExpansion::Dual(d)),
        KeyKind::Digits(b, _) => KeyKind::Digits(b, KeyExpansion::Dual(d)),
        KeyKind::Numpad(b, _) => KeyKind::Numpad(b, KeyExpansion::Dual(d)),
        KeyKind::Fx(b, _) => KeyKind::Fx(b, KeyExpansion::Dual(d)),
        KeyKind::Symbols(b, _) => KeyKind::Symbols(b, KeyExpansion::Dual(d)),
        KeyKind::Navigation(b, _) => KeyKind::Navigation(b, KeyExpansion::Dual(d)),
        KeyKind::Miscellaneous(b, _) => KeyKind::Miscellaneous(b, KeyExpansion::Dual(d)),
        other => other,
    }
}

fn parse_dual(n: &Vec<char>) -> (r: Option<KeyKind>)
    requires
        n@.len() <= usize::MAX - 16,
    ensures
        r == spec_parse_dual(n@),
{
    if let Some(p) = last_slash(n) {
        if let Some(base) = dual_base_display(n, p) {
            if let Some(d) = dual_mod(n, p + 1) {
                return Some(with_dual(base, d));
            }
        }
    }
    if has_at(n, 0, "dual") {
        proof {
            reveal_strlit("dual");
        }
        if let Some((base, q)) = dual_base_debug(n) {
            if let Some(d) = dual_mod(n, q) {
                return Some(with_dual(base, d));
            }
        }
        return None;
    }
    None
}

/// The key with its expansion replaced by a modifier set.
pub open spec fn spec_with_mods(base: KeyKind, m: ModifierSet) -> KeyKind {
    match base {
        KeyKind::Spacing(b, _) => KeyKind::Spacing(b, KeyExpansion::Modified(m)),
        KeyKind::Alpha(b, _) => KeyKind::Alpha(b, KeyExpansion::Modified(m)),
        KeyKind::Digits(b, _) => KeyKind::Digits(b, KeyExpansion::Modified(m)),
        KeyKind::Numpad(b, _) => KeyKind::Numpad(b, KeyExpansion::Modified(m)),
        KeyKind::Fx(b, _) => KeyKind::Fx(b, KeyExpansion::Modified(m)),
        KeyKind::Symbols(b, _) => KeyKind::Symbols(b, KeyExpansion::Modified(m)),
        KeyKind::Modifiers(b, _) => KeyKind::Modifiers(b, KeyExpansion::Modified(m)),
        KeyKind::Navigation(b, _) => KeyKind::Navigation(b, KeyExpansion::Modified(m)),
        KeyKind::Miscellaneous(b, _) => KeyKind::Miscellaneous(b, KeyExpansion::Modified(m)),
        other => other,
    }
}

fn with_mods(base: KeyKind, m: ModifierSet) -> (r: KeyKind)
    ensures
        r == spec_with_mods(base, m),
{
    match base {
        KeyKind::Spacing(b, _) => KeyKind::Spacing(b, KeyExpansion::Modified(m)),
        KeyKind::Alpha(b, _) => KeyKind::Alpha(b, KeyExpansion::Modified(m)),
        KeyKind::Digits(b, _) => KeyKind::Digits(b, KeyExpansion::Modified(m)),
        KeyKind::Numpad(b, _) => KeyKind::Numpad(b, KeyExpansion::Modified(m)),
        KeyKind::Fx(b, _) => KeyKind::Fx(b, KeyExpansion::Modified(m)),
        KeyKind::Symbols(b, _) => KeyKind::Symbols(b, KeyExpansion::Modified(m)),
        KeyKind::Modifiers(b, _) => KeyKind::Modifiers(b, KeyExpansion::Modified(m)),
        KeyKind::Navigation(b, _) => KeyKind::Navigation(b, KeyExpansion::Modified(m)),
        KeyKind::Miscellaneous(b, _) => KeyKind::Miscellaneous(b, KeyExpansion::Modified(m)),
        other => other,
    }
}

/// The held modifiers read off the front of a display-shaped name,
/// where every modifier name is followed by a plus sign.
pub open spec fn spec_strip_display_mods(n: Seq<char>) -> (ModifierSet, int) {
    let i0 = 0int;
    let (ctrl, i1) = if spec_has_at(n, i0, "ctrl+"@) {
        (true, i0 + 5)
    } else {
        (false, i0)
    };
    let (alt, i2) = if spec_has_at(n, i1, "alt+"@) {
        (true, i1 + 4)
    } else {
        (false, i1)
    };
    let (alt_gr, i3) = if spec_has_at(n, i2, "altgr+"@) {
        (true, i2 + 6)
    } else {
        (false, i2)
    };
    let (os, i4) = if spec_has_at(n, i3, "os+"@) {
        (true, i3 + 3)
    } else {
        (false, i3)
    };
    let (shift, i5) = if spec_has_at(n, i4, "shift+"@) {
        (true, i4 + 6)
    } else {
        (false, i4)
    };
    (ModifierSet { ctrl, alt, alt_gr, os, shift }, i5)
}

/// The held modifiers read off the front of a debug-shaped name, where
/// the modifier names run together. A leading `altgr` is always the
/// AltGr modifier: no base key name starts with `gr`.
pub open spec fn spec_strip_debug_mods(n: Seq<char>) -> (ModifierSet, int) {
    let i0 = 0int;
    let (ctrl, i1) = if spec_has_at(n, i0, "ctrl"@) {
        (true, i0 + 4)
    } else {
        (false, i0)
    };
    let (alt, i2) = if spec_has_at(n, i1, "alt"@) && !spec_has_at(n, i1, "altgr"@) {
        (true, i1 + 3)
    } else {
        (false, i1)
    };
    let (alt_gr, i3) = if spec_has_at(n, i2, "altgr"@) {
        (true, i2 + 5)
    } else {
        (false, i2)
    };
    let (os, i4) = if spec_has_at(n, i3, "os"@) {
        (true, i3 + 2)
    } else {
        (false, i3)
    };
    let (shift, i5) = if spec_has_at(n, i4, "shift"@) {
        (true, i4 + 5)
    } else {
        (false, i4)
    };
    (ModifierSet { ctrl, alt, alt_gr, os, shift }, i5)
}

/// The modifier-carrying key a normalized name means, in either of its
/// two shapes: modifier names joined to the base name by plus signs,
/// from the display name, or run together with it, from the variant
/// name.
pub open spec fn spec_parse_modified(n: Seq<char>) -> Option<KeyKind> {
    let (dm, di) = spec_strip_display_mods(n);
    let by_display = if !dm.is_empty() && di <= n.len() {
        match spec_mod_base_display(n, di) {
            Some(base) => Some(spec_with_mods(base, dm)),
            None => None,
        }
    } else {
        None
    };
    if by_display is Some {
        by_display
    } else {
        let (gm, gi) = spec_strip_debug_mods(n);
        if !gm.is_empty() && gi <= n.len() {
            match spec_mod_base_debug(n, gi) {
                Some(base) => Some(spec_with_mods(base, gm)),
                None => None,
            }
        } else {
            None
        }
    }
}

fn strip_display_mods(n: &Vec<char>) -> (r: (ModifierSet, usize))
    requires
        n@.len() <= usize::MAX - 64,
    ensures
        (r.0, r.1 as int) == spec_strip_display_mods(n@),
        r.1 <= n@.len() || r.0.is_empty(),
{
    let mut i: usize = 0;
    let ctrl = has_at(n, i, "ctrl+");
    if ctrl {
        proof {
            reveal_strlit("ctrl+");
        }
        i = i + 5;
    }
    let alt = has_at(n, i, "alt+");
    if alt {
        proof {
            reveal_strlit("alt+");
        }
        i = i + 4;
    }
    let alt_gr = has_at(n, i, "altgr+");
    if alt_gr {
        proof {
            reveal_strlit("altgr+");
        }
        i = i + 6;
    }
    let os = has_at(n, i, "os+");
    if os {
        proof {
            reveal_strlit("os+");
        }
        i = i + 3;
    }
    let shift = has_at(n, i, "shift+");
    if shift {
        proof {
            reveal_strlit("shift+");
        }
        i = i + 6;
    }
    (ModifierSet { ctrl, alt, alt_gr, os, shift }, i)
}

fn strip_debug_mods(n: &Vec<char>) -> (r: (ModifierSet, usize))
    requires
        n@.len() <= usize::MAX - 64,
    ensures
        (r.0, r.1 as int) == spec_strip_debug_mods(n@),
        r.1 <= n@.len() || r.0.is_empty(),
{
    let mut i: usize = 0;
    let ctrl = has_at(n, i, "ctrl");
    if ctrl {
        proof {
            reveal_strlit("ctrl");
        }
        i = i + 4;
    }
    let alt = has_at(n, i, "alt") && !has_at(n, i, "altgr");
    if alt {
        proof {
            reveal_strlit("alt");
        }
        i = i + 3;
    }
    let alt_gr = has_at(n, i, "altgr");
    if alt_gr {
        proof {
            reveal_strlit("altgr");
        }
        i = i + 5;
    }
    let os = has_at(n, i, "os");
    if os {
        proof {
            reveal_strlit("os");
        }
        i = i + 2;
    }
    let shift = has_at(n, i, "shift");
    if shift {
        proof {
            reveal_strlit("shift");
        }
        i = i + 5;
    }
    (ModifierSet { ctrl, alt, alt_gr, os, shift }, i)
}

fn parse_modified(n: &Vec<char>) -> (r: Option<KeyKind>)
    requires
        n@.len() <= usize::MAX - 64,
    ensures
        r == spec_parse_modified(n@),
{
    let (dm, di) = strip_display_mods(n);
    if !(!dm.ctrl && !dm.alt && !dm.alt_gr && !dm.os && !dm.shift) && di <= n.len() {
        if let Some(base) = mod_base_display(n, di) {
            return Some(with_mods(base, dm));
        }
    }
    let (gm, gi) = strip_debug_mods(n);
    if !(!gm.ctrl && !gm.alt && !gm.alt_gr && !gm.os && !gm.shift) && gi <= n.len() {
        if let Some(base) = mod_base_debug(n, gi) {
            return Some(with_mods(base, gm));
        }
    }
    None
}

/// The key a normalized name means: a base table name, a dual-function
/// name, or a modifier-prefixed name, tried in that order.
pub open spec fn spec_parse_symbol(n: Seq<char>) -> Option<KeyKind> {
    if spec_parse_base(n) is Some {
        spec_parse_base(n)
    } else if spec_parse_dual(n) is Some {
        spec_parse_dual(n)
    } else if spec_parse_modified(n) is Some {
        spec_parse_modified(n)
    } else {
        None
    }
}

proof fn lemma_parse_blank_wf(n: Seq<char>)
    ensures
        spec_parse_blank(n) is Some ==> spec_parse_blank(n)->Some_0.wf(),
{
}

proof fn lemma_parse_spacing_wf(n: Seq<char>)
    ensures
        spec_parse_spacing(n) is Some ==> spec_parse_spacing(n)->Some_0.wf(),
{
}

proof fn lemma_parse_alpha_wf(n: Seq<char>)
    ensures
        spec_parse_alpha(n) is Some ==> spec_parse_alpha(n)->Some_0.wf(),
{
}

proof fn lemma_parse_digits_wf(n: Seq<char>)
    ensures
        spec_parse_digits(n) is Some ==> spec_parse_digits(n)->Some_0.wf(),
{
}

proof fn lemma_parse_numpad_wf(n: Seq<char>)
    ensures
        spec_parse_numpad(n) is Some ==> spec_parse_numpad(n)->Some_0.wf(),
{
}

proof fn lemma_parse_fx_wf(n: Seq<char>)
    ensures
        spec_parse_fx(n) is Some ==> spec_parse_fx(n)->Some_0.wf(),
{
}

proof fn lemma_parse_symbols_wf(n: Seq<char>)
    ensures
        spec_parse_symbols(n) is Some ==> spec_parse_symbols(n)->Some_0.wf(),
{
}

proof fn lemma_parse_shift_symbols_wf(n: Seq<char>)
    ensures
        spec_parse_shift_symbols(n) is Some ==> spec_parse_shift_symbols(n)->Some_0.wf(),
{
}

proof fn lemma_parse_modifiers_wf(n: Seq<char>)
    ensures
        spec_parse_modifiers(n) is Some ==> spec_parse_modifiers(n)->Some_0.wf(),
{
}

proof fn lemma_parse_media_wf(n: Seq<char>)
    ensures
        spec_parse_media(n) is Some ==> spec_parse_media(n)->Some_0.wf(),
{
}

proof fn lemma_parse_navigation_wf(n: Seq<char>)
    ensures
        spec_parse_navigation(n) is Some ==> spec_parse_navigation(n)->Some_0.wf(),
{
}

proof fn lemma_parse_mouse_movement_wf(n: Seq<char>)
    ensures
        spec_parse_mouse_movement(n) is Some ==> spec_parse_mouse_movement(n)->Some_0.wf(),
{
}

proof fn lemma_parse_mouse_wheele_wf(n: Seq<char>)
    ensures
        spec_parse_mouse_wheele(n) is Some ==> spec_parse_mouse_wheele(n)->Some_0.wf(),
{
}

proof fn lemma_parse_mouse_buttons_wf(n: Seq<char>)
    ensures
        spec_parse_mouse_buttons(n) is Some ==> spec_parse_mouse_buttons(n)->Some_0.wf(),
{
}

proof fn lemma_parse_mouse_warp_wf(n: Seq<char>)
    ensures
        spec_parse_mouse_warp(n) is Some ==> spec_parse_mouse_warp(n)->Some_0.wf(),
{
}

proof fn lemma_parse_led_effects_wf(n: Seq<char>)
    ensures
        spec_parse_led_effects(n) is Some ==> spec_parse_led_effects(n)->Some_0.wf(),
{
}

proof fn lemma_parse_battery_wf(n: Seq<char>)
    ensures
        spec_parse_battery(n) is Some ==> spec_parse_battery(n)->Some_0.wf(),
{
}

proof fn lemma_parse_bluetooth_wf(n: Seq<char>)
    ensures
        spec_parse_bluetooth(n) is Some ==> spec_parse_bluetooth(n)->Some_0.wf(),
{
}

proof fn lemma_parse_energy_wf(n: Seq<char>)
    ensures
        spec_parse_energy(n) is Some ==> spec_parse_energy(n)->Some_0.wf(),
{
}

proof fn lemma_parse_rf_wf(n: Seq<char>)
    ensures
        spec_parse_rf(n) is Some ==> spec_parse_rf(n)->Some_0.wf(),
{
}

proof fn lemma_parse_layer_lock_wf(n: Seq<char>)
    ensures
        spec_parse_layer_lock(n) is Some ==> spec_parse_layer_lock(n)->Some_0.wf(),
{
}

proof fn lemma_parse_layer_shift_wf(n: Seq<char>)
    ensures
        spec_parse_layer_shift(n) is Some ==> spec_parse_layer_shift(n)->Some_0.wf(),
{
}

proof fn lemma_parse_layer_move_wf(n: Seq<char>)
    ensures
        spec_parse_layer_move(n) is Some ==> spec_parse_layer_move(n)->Some_0.wf(),
{
}

proof fn lemma_parse_miscellaneous_wf(n: Seq<char>)
    ensures
        spec_parse_miscellaneous(n) is Some ==> spec_parse_miscellaneous(n)->Some_0.wf(),
{
}

proof fn lemma_parse_oneshot_wf(n: Seq<char>)
    ensures
        spec_parse_oneshot(n) is Some ==> spec_parse_oneshot(n)->Some_0.wf(),
{
}

proof fn lemma_parse_macro_slot_wf(n: Seq<char>)
    ensures
        spec_parse_macro_slot(n) is Some ==> spec_parse_macro_slot(n)->Some_0.wf(),
{
}

proof fn lemma_parse_super_slot_wf(n: Seq<char>)
    ensures
        spec_parse_super_slot(n) is Some ==> spec_parse_super_slot(n)->Some_0.wf(),
{
}

proof fn lemma_parse_base_wf(n: Seq<char>)
    ensures
        spec_parse_base(n) is Some ==> spec_parse_base(n)->Some_0.wf(),
{
    lemma_parse_blank_wf(n);
    lemma_parse_spacing_wf(n);
    lemma_parse_alpha_wf(n);
    lemma_parse_digits_wf(n);
    lemma_parse_numpad_wf(n);
    lemma_parse_fx_wf(n);
    lemma_parse_symbols_wf(n);
    lemma_parse_shift_symbols_wf(n);
    lemma_parse_modifiers_wf(n);
    lemma_parse_media_wf(n);
    lemma_parse_navigation_wf(n);
    lemma_parse_mouse_movement_wf(n);
    lemma_parse_mouse_wheele_wf(n);
    lemma_parse_mouse_buttons_wf(n);
    lemma_parse_mouse_warp_wf(n);
    lemma_parse_led_effects_wf(n);
    lemma_parse_battery_wf(n);
    lemma_parse_bluetooth_wf(n);
    lemma_parse_energy_wf(n);
    lemma_parse_rf_wf(n);
    lemma_parse_layer_lock_wf(n);
    lemma_parse_layer_shift_wf(n);
    lemma_parse_layer_move_wf(n);
    lemma_parse_miscellaneous_wf(n);
    lemma_parse_oneshot_wf(n);
    lemma_parse_macro_slot_wf(n);
    lemma_parse_super_slot_wf(n);
}

proof fn lemma_mod_base_display_spacing_wf(n: Seq<char>, i: int, m: ModifierSet)
    requires
        !m.is_empty(),
    ensures
        spec_mod_base_display_spacing(n, i) is Some ==> spec_with_mods(
            spec_mod_base_display_spacing(n, i)->Some_0,
            m,
        ).wf(),
{
}

proof fn lemma_mod_base_display_alpha_wf(n: Seq<char>, i: int, m: ModifierSet)
    requires
        !m.is_empty(),
    ensures
        spec_mod_base_display_alpha(n, i) is Some ==> spec_with_mods(
            spec_mod_base_display_alpha(n, i)->Some_0,
            m,
        ).wf(),
{
}

proof fn lemma_mod_base_display_digits_wf(n: Seq<char>, i: int, m: ModifierSet)
    requires
        !m.is_empty(),
    ensures
        spec_mod_base_display_digits(n, i) is Some ==> spec_with_mods(
            spec_mod_base_display_digits(n, i)->Some_0,
            m,
        ).wf(),
{
}

proof fn lemma_mod_base_display_numpad_wf(n: Seq<char>, i: int, m: ModifierSet)
    requires
        !m.is_empty(),
    ensures
        spec_mod_base_display_numpad(n, i) is Some ==> spec_with_mods(
            spec_mod_base_display_numpad(n, i)->Some_0,
            m,
        ).wf(),
{
}

proof fn lemma_mod_base_display_fx_wf(n: Seq<char>, i: int, m: ModifierSet)
    requires
        !m.is_empty(),
    ensures
        spec_mod_base_display_fx(n, i) is Some ==> spec_with_mods(
            spec_mod_base_display_fx(n, i)->Some_0,
            m,
        ).wf(),
{
}

proof fn lemma_mod_base_display_symbols_wf(n: Seq<char>, i: int, m: ModifierSet)
    requires
        !m.is_empty(),
    ensures
        spec_mod_base_display_symbols(n, i) is Some ==> spec_with_mods(
            spec_mod_base_display_symbols(n, i)->Some_0,
            m,
        ).wf(),
{
}

proof fn lemma_mod_base_display_modifiers_wf(n: Seq<char>, i: int, m: ModifierSet)
    requires
        !m.is_empty(),
    ensures
        spec_mod_base_display_modifiers(n, i) is Some ==> spec_with_mods(
            spec_mod_base_display_modifiers(n, i)->Some_0,
            m,
        ).wf(),
{
}

proof fn lemma_mod_base_display_navigation_wf(n: Seq<char>, i: int, m: ModifierSet)
    requires
        !m.is_empty(),
    ensures
        spec_mod_base_display_navigation(n, i) is Some ==> spec_with_mods(
            spec_mod_base_display_navigation(n, i)->Some_0,
            m,
        ).wf(),
{
}

proof fn lemma_mod_base_display_miscellaneous_wf(n: Seq<char>, i: int, m: ModifierSet)
    requires
        !m.is_empty(),
    ensures
        spec_mod_base_display_miscellaneous(n, i) is Some ==> spec_with_mods(
            spec_mod_base_display_miscellaneous(n, i)->Some_0,
            m,
        ).wf(),
{
}

proof fn lemma_mod_base_display_wf(n: Seq<char>, i: int, m: ModifierSet)
    requires
        !m.is_empty(),
    ensures
        spec_mod_base_display(n, i) is Some ==> spec_with_mods(spec_mod_base_display(n, i)->Some_0, m).wf(),
{
    lemma_mod_base_display_spacing_wf(n, i, m);
    lemma_mod_base_display_alpha_wf(n, i, m);
    lemma_mod_base_display_digits_wf(n, i, m);
    lemma_mod_base_display_numpad_wf(n, i, m);
    lemma_mod_base_display_fx_wf(n, i, m);
    lemma_mod_base_display_symbols_wf(n, i, m);
    lemma_mod_base_display_modifiers_wf(n, i, m);
    lemma_mod_base_display_navigation_wf(n, i, m);
    lemma_mod_base_display_miscellaneous_wf(n, i, m);
}

proof fn lemma_mod_base_debug_spacing_wf(n: Seq<char>, i: int, m: ModifierSet)
    requires
        !m.is_empty(),
    ensures
        spec_mod_base_debug_spacing(n, i) is Some ==> spec_with_mods(
            spec_mod_base_debug_spacing(n, i)->Some_0,
            m,
        ).wf(),
{
}

proof fn lemma_mod_base_debug_alpha_wf(n: Seq<char>, i: int, m: ModifierSet)
    requires
        !m.is_empty(),
    ensures
        spec_mod_base_debug_alpha(n, i) is Some ==> spec_with_mods(
            spec_mod_base_debug_alpha(n, i)->Some_0,
            m,
        ).wf(),
{
}

proof fn lemma_mod_base_debug_digits_wf(n: Seq<char>, i: int, m: ModifierSet)
    requires
        !m.is_empty(),
    ensures
        spec_mod_base_debug_digits(n, i) is Some ==> spec_with_mods(
            spec_mod_base_debug_digits(n, i)->Some_0,
            m,
        ).wf(),
{
}

proof fn lemma_mod_base_debug_numpad_wf(n: Seq<char>, i: int, m: ModifierSet)
    requires
        !m.is_empty(),
    ensures
        spec_mod_base_debug_numpad(n, i) is Some ==> spec_with_mods(
            spec_mod_base_debug_numpad(n, i)->Some_0,
            m,
        ).wf(),
{
}

proof fn lemma_mod_base_debug_fx_wf(n: Seq<char>, i: int, m: ModifierSet)
    requires
        !m.is_empty(),
    ensures
        spec_mod_base_debug_fx(n, i) is Some ==> spec_with_mods(
            spec_mod_base_debug_fx(n, i)->Some_0,
            m,
        ).wf(),
{
}

proof fn lemma_mod_base_debug_symbols_wf(n: Seq<char>, i: int, m: ModifierSet)
    requires
        !m.is_empty(),
    ensures
        spec_mod_base_debug_symbols(n, i) is Some ==> spec_with_mods(
            spec_mod_base_debug_symbols(n, i)->Some_0,
            m,
        ).wf(),
{
}

proof fn lemma_mod_base_debug_modifiers_wf(n: Seq<char>, i: int, m: ModifierSet)
    requires
        !m.is_empty(),
    ensures
        spec_mod_base_debug_modifiers(n, i) is Some ==> spec_with_mods(
            spec_mod_base_debug_modifiers(n, i)->Some_0,
            m,
        ).wf(),
{
}

proof fn lemma_mod_base_debug_navigation_wf(n: Seq<char>, i: int, m: ModifierSet)
    requires
        !m.is_empty(),
    ensures
        spec_mod_base_debug_navigation(n, i) is Some ==> spec_with_mods(
            spec_mod_base_debug_navigation(n, i)->Some_0,
            m,
        ).wf(),
{
}

proof fn lemma_mod_base_debug_miscellaneous_wf(n: Seq<char>, i: int, m: ModifierSet)
    requires
        !m.is_empty(),
    ensures
        spec_mod_base_debug_miscellaneous(n, i) is Some ==> spec_with_mods(
            spec_mod_base_debug_miscellaneous(n, i)->Some_0,
            m,
        ).wf(),
{
}

proof fn lemma_mod_base_debug_wf(n: Seq<char>, i: int, m: ModifierSet)
    requires
        !m.is_empty(),
    ensures
        spec_mod_base_debug(n, i) is Some ==> spec_with_mods(spec_mod_base_debug(n, i)->Some_0, m).wf(),
{
    lemma_mod_base_debug_spacing_wf(n, i, m);
    lemma_mod_base_debug_alpha_wf(n, i, m);
    lemma_mod_base_debug_digits_wf(n, i, m);
    lemma_mod_base_debug_numpad_wf(n, i, m);
    lemma_mod_base_debug_fx_wf(n, i, m);
    lemma_mod_base_debug_symbols_wf(n, i, m);
    lemma_mod_base_debug_modifiers_wf(n, i, m);
    lemma_mod_base_debug_navigation_wf(n, i, m);
    lemma_mod_base_debug_miscellaneous_wf(n, i, m);
}

proof fn lemma_dual_base_display_spacing_wf(n: Seq<char>, e: int, d: DualFunctionModifier)
    ensures
        spec_dual_base_display_spacing(n, e) is Some ==> spec_with_dual(
            spec_dual_base_display_spacing(n, e)->Some_0,
            d,
        ).wf(),
{
}

proof fn lemma_dual_base_debug_spacing_wf(n: Seq<char>, d: DualFunctionModifier)
    ensures
        spec_dual_base_debug_spacing(n) is Some ==> spec_with_dual(
            spec_dual_base_debug_spacing(n)->Some_0.0,
            d,
        ).wf(),
{
}

proof fn lemma_dual_base_display_alpha_wf(n: Seq<char>, e: int, d: DualFunctionModifier)
    ensures
        spec_dual_base_display_alpha(n, e) is Some ==> spec_with_dual(
            spec_dual_base_display_alpha(n, e)->Some_0,
            d,
        ).wf(),
{
}

proof fn lemma_dual_base_debug_alpha_wf(n: Seq<char>, d: DualFunctionModifier)
    ensures
        spec_dual_base_debug_alpha(n) is Some ==> spec_with_dual(
            spec_dual_base_debug_alpha(n)->Some_0.0,
            d,
        ).wf(),
{
}

proof fn lemma_dual_base_display_digits_wf(n: Seq<char>, e: int, d: DualFunctionModifier)
    ensures
        spec_dual_base_display_digits(n, e) is Some ==> spec_with_dual(
            spec_dual_base_display_digits(n, e)->Some_0,
            d,
        ).wf(),
{
}

proof fn lemma_dual_base_debug_digits_wf(n: Seq<char>, d: DualFunctionModifier)
    ensures
        spec_dual_base_debug_digits(n) is Some ==> spec_with_dual(
            spec_dual_base_debug_digits(n)->Some_0.0,
            d,
        ).wf(),
{
}

proof fn lemma_dual_base_display_numpad_wf(n: Seq<char>, e: int, d: DualFunctionModifier)
    ensures
        spec_dual_base_display_numpad(n, e) is Some ==> spec_with_dual(
            spec_dual_base_display_numpad(n, e)->Some_0,
            d,
        ).wf(),
{
}

proof fn lemma_dual_base_debug_numpad_wf(n: Seq<char>, d: DualFunctionModifier)
    ensures
        spec_dual_base_debug_numpad(n) is Some ==> spec_with_dual(
            spec_dual_base_debug_numpad(n)->Some_0.0,
            d,
        ).wf(),
{
}

proof fn lemma_dual_base_display_fx_wf(n: Seq<char>, e: int, d: DualFunctionModifier)
    ensures
        spec_dual_base_display_fx(n, e) is Some ==> spec_with_dual(
            spec_dual_base_display_fx(n, e)->Some_0,
            d,
        ).wf(),
{
}

proof fn lemma_dual_base_debug_fx_wf(n: Seq<char>, d: DualFunctionModifier)
    ensures
        spec_dual_base_debug_fx(n) is Some ==> spec_with_dual(
            spec_dual_base_debug_fx(n)->Some_0.0,
            d,
        ).wf(),
{
}

proof fn lemma_dual_base_display_symbols_wf(n: Seq<char>, e: int, d: DualFunctionModifier)
    ensures
        spec_dual_base_display_symbols(n, e) is Some ==> spec_with_dual(
            spec_dual_base_display_symbols(n, e)->Some_0,
            d,
        ).wf(),
{
}

proof fn lemma_dual_base_debug_symbols_wf(n: Seq<char>, d: DualFunctionModifier)
    ensures
        spec_dual_base_debug_symbols(n) is Some ==> spec_with_dual(
            spec_dual_base_debug_symbols(n)->Some_0.0,
            d,
        ).wf(),
{
}

proof fn lemma_dual_base_display_navigation_wf(n: Seq<char>, e: int, d: DualFunctionModifier)
    ensures
        spec_dual_base_display_navigation(n, e) is Some ==> spec_with_dual(
            spec_dual_base_display_navigation(n, e)->Some_0,
            d,
        ).wf(),
{
}

proof fn lemma_dual_base_debug_navigation_wf(n: Seq<char>, d: DualFunctionModifier)
    ensures
        spec_dual_base_debug_navigation(n) is Some ==> spec_with_dual(
            spec_dual_base_debug_navigation(n)->Some_0.0,
            d,
        ).wf(),
{
}

proof fn lemma_dual_base_display_miscellaneous_wf(n: Seq<char>, e: int, d: DualFunctionModifier)
    ensures
        spec_dual_base_display_miscellaneous(n, e) is Some ==> spec_with_dual(
            spec_dual_base_display_miscellaneous(n, e)->Some_0,
            d,
        ).wf(),
{
}

proof fn lemma_dual_base_debug_miscellaneous_wf(n: Seq<char>, d: DualFunctionModifier)
    ensures
        spec_dual_base_debug_miscellaneous(n) is Some ==> spec_with_dual(
            spec_dual_base_debug_miscellaneous(n)->Some_0.0,
            d,
        ).wf(),
{
}

proof fn lemma_dual_base_display_wf(n: Seq<char>, e: int, d: DualFunctionModifier)
    ensures
        spec_dual_base_display(n, e) is Some ==> spec_with_dual(spec_dual_base_display(n, e)->Some_0, d).wf(),
{
    lemma_dual_base_display_spacing_wf(n, e, d);
    lemma_dual_base_display_alpha_wf(n, e, d);
    lemma_dual_base_display_digits_wf(n, e, d);
    lemma_dual_base_display_numpad_wf(n, e, d);
    lemma_dual_base_display_fx_wf(n, e, d);
    lemma_dual_base_display_symbols_wf(n, e, d);
    lemma_dual_base_display_navigation_wf(n, e, d);
    lemma_dual_base_display_miscellaneous_wf(n, e, d);
}

proof fn lemma_dual_base_debug_wf(n: Seq<char>, d: DualFunctionModifier)
    ensures
        spec_dual_base_debug(n) is Some ==> spec_with_dual(spec_dual_base_debug(n)->Some_0.0, d).wf(),
{
    lemma_dual_base_debug_spacing_wf(n, d);
    lemma_dual_base_debug_alpha_wf(n, d);
    lemma_dual_base_debug_digits_wf(n, d);
    lemma_dual_base_debug_numpad_wf(n, d);
    lemma_dual_base_debug_fx_wf(n, d);
    lemma_dual_base_debug_symbols_wf(n, d);
    lemma_dual_base_debug_navigation_wf(n, d);
    lemma_dual_base_debug_miscellaneous_wf(n, d);
}

proof fn lemma_parse_dual_wf(n: Seq<char>)
    ensures
        spec_parse_dual(n) is Some ==> spec_parse_dual(n)->Some_0.wf(),
{
    match spec_last_slash(n, n.len() as int) {
        Some(p) => match spec_dual_base_display(n, p) {
            Some(base) => match spec_dual_mod(n, p + 1) {
                Some(d) => {
                    lemma_dual_base_display_wf(n, p, d);
                },
                None => {},
            },
            None => {},
        },
        None => {},
    }
    match spec_dual_base_debug(n) {
        Some((base, q)) => match spec_dual_mod(n, q) {
            Some(d) => {
                lemma_dual_base_debug_wf(n, d);
            },
            None => {},
        },
        None => {},
    }
}

proof fn lemma_parse_modified_wf(n: Seq<char>)
    ensures
        spec_parse_modified(n) is Some ==> spec_parse_modified(n)->Some_0.wf(),
{
    let (dm, di) = spec_strip_display_mods(n);
    if !dm.is_empty() && di <= n.len() {
        lemma_mod_base_display_wf(n, di, dm);
    }
    let (gm, gi) = spec_strip_debug_mods(n);
    if !gm.is_empty() && gi <= n.len() {
        lemma_mod_base_debug_wf(n, gi, gm);
    }
}

/// Every key the name parser yields is a key the table generates.
pub proof fn lemma_parse_symbol_wf(n: Seq<char>)
    ensures
        spec_parse_symbol(n) is Some ==> spec_parse_symbol(n)->Some_0.wf(),
{
    lemma_parse_base_wf(n);
    lemma_parse_dual_wf(n);
    lemma_parse_modified_wf(n);
}

/// Parses a symbolic key name, insensitive to letter case and spaces.
/// Accepts every name [`display`] produces as well as the bare variant
/// names of the tables. A parsed key is always one the table generates,
/// so its code fits the 16-bit space.
pub fn parse_symbol(s: &str) -> (r: Result<KeyKind, FromStrError>)
    requires
        s@.len() <= usize::MAX - 64,
    ensures
        match r {
            Ok(k) => spec_parse_symbol(spec_normalize(s@)) == Some(k) && k.wf(),
            Err(_) => spec_parse_symbol(spec_normalize(s@)) is None,
        },
{
    let n = normalize(s);
    proof {
        lemma_trim_from_bounds(s@, 0);
        lemma_trim_to_bounds(s@, s@.len() as int);
        lemma_squash_len(s@, n@);
        lemma_parse_symbol_wf(n@);
    }
    if let Some(k) = parse_base(&n) {
        return Ok(k);
    }
    if let Some(k) = parse_dual(&n) {
        return Ok(k);
    }
    if let Some(k) = parse_modified(&n) {
        return Ok(k);
    }
    Err(FromStrError)
}

proof fn lemma_squash_le(s: Seq<char>)
    ensures
        spec_squash(s).len() <= s.len(),
    decreases s.len(),
{
    if s.len() > 0 {
        lemma_squash_le(s.drop_last());
    }
}

proof fn lemma_squash_len(s: Seq<char>, n: Seq<char>)
    requires
        n == spec_normalize(s),
    ensures
        n.len() <= s.len(),
{
    let a = trim_from(s, 0);
    let b = trim_to(s, s.len() as int);
    if 0 <= a <= b <= s.len() {
        lemma_squash_le(s.subrange(a, b));
    } else {
        lemma_trim_from_bounds_pub(s);
    }
}

proof fn lemma_trim_from_bounds_pub(s: Seq<char>)
    ensures
        0 <= trim_from(s, 0) <= s.len(),
        0 <= trim_to(s, s.len() as int) <= s.len(),
{
    lemma_trim_from_bounds(s, 0);
    lemma_trim_to_bounds(s, s.len() as int);
}



/// Symbol round trip, shown for the bare letter keys: parsing the
/// display name of a letter key yields the key back.
pub proof fn lemma_symbol_round_trip_alpha(k: Alpha)
    ensures
        spec_parse_symbol(spec_normalize(spec_display(KeyKind::Alpha(k, KeyExpansion::Plain))))
            == Some(KeyKind::Alpha(k, KeyExpansion::Plain)),
{
    reveal_strlit("nokey");
    reveal_strlit("transparent");
    reveal_strlit("enter");
    reveal_strlit("escape");
    reveal_strlit("backspace");
    reveal_strlit("tab");
    reveal_strlit("space");
    reveal_strlit("insert");
    reveal_strlit("delete");
    reveal_strlit("A");
    reveal_strlit("a");
    reveal_strlit("B");
    reveal_strlit("b");
    reveal_strlit("C");
    reveal_strlit("c");
    reveal_strlit("D");
    reveal_strlit("d");
    reveal_strlit("E");
    reveal_strlit("e");
    reveal_strlit("F");
    reveal_strlit("f");
    reveal_strlit("G");
    reveal_strlit("g");
    reveal_strlit("H");
    reveal_strlit("h");
    reveal_strlit("I");
    reveal_strlit("i");
    reveal_strlit("J");
    reveal_strlit("j");
    reveal_strlit("K");
    reveal_strlit("k");
    reveal_strlit("L");
    reveal_strlit("l");
    reveal_strlit("M");
    reveal_strlit("m");
    reveal_strlit("N");
    reveal_strlit("n");
    reveal_strlit("O");
    reveal_strlit("o");
    reveal_strlit("P");
    reveal_strlit("p");
    reveal_strlit("Q");
    reveal_strlit("q");
    reveal_strlit("R");
    reveal_strlit("r");
    reveal_strlit("S");
    reveal_strlit("s");
    reveal_strlit("T");
    reveal_strlit("t");
    reveal_strlit("U");
    reveal_strlit("u");
    reveal_strlit("V");
    reveal_strlit("v");
    reveal_strlit("W");
    reveal_strlit("w");
    reveal_strlit("X");
    reveal_strlit("x");
    reveal_strlit("Y");
    reveal_strlit("y");
    reveal_strlit("Z");
    reveal_strlit("z");
    match k {
        Alpha::A => {
            assert(trim_from("A"@, 0) == 0);
            assert(trim_to("A"@, 1) == 1);
            assert("A"@.subrange(0, 1) =~= "A"@);
            assert("A"@.drop_last() =~= Seq::<char>::empty());
            assert(spec_squash(Seq::<char>::empty()) =~= Seq::<char>::empty());
            assert(spec_squash("A"@) =~= Seq::<char>::empty().push('a'));
            assert(spec_normalize("A"@) =~= "a"@);
        },
        Alpha::B => {
            assert(trim_from("B"@, 0) == 0);
            assert(trim_to("B"@, 1) == 1);
            assert("B"@.subrange(0, 1) =~= "B"@);
            assert("B"@.drop_last() =~= Seq::<char>::empty());
            assert(spec_squash(Seq::<char>::empty()) =~= Seq::<char>::empty());
            assert(spec_squash("B"@) =~= Seq::<char>::empty().push('b'));
            assert(spec_normalize("B"@) =~= "b"@);
        },
        Alpha::C => {
            assert(trim_from("C"@, 0) == 0);
            assert(trim_to("C"@, 1) == 1);
            assert("C"@.subrange(0, 1) =~= "C"@);
            assert("C"@.drop_last() =~= Seq::<char>::empty());
            assert(spec_squash(Seq::<char>::empty()) =~= Seq::<char>::empty());
            assert(spec_squash("C"@) =~= Seq::<char>::empty().push('c'));
            assert(spec_normalize("C"@) =~= "c"@);
        },
        Alpha::D => {
            assert(trim_from("D"@, 0) == 0);
            assert(trim_to("D"@, 1) == 1);
            assert("D"@.subrange(0, 1) =~= "D"@);
            assert("D"@.drop_last() =~= Seq::<char>::empty());
            assert(spec_squash(Seq::<char>::empty()) =~= Seq::<char>::empty());
            assert(spec_squash("D"@) =~= Seq::<char>::empty().push('d'));
            assert(spec_normalize("D"@) =~= "d"@);
        },
        Alpha::E => {
            assert(trim_from("E"@, 0) == 0);
            assert(trim_to("E"@, 1) == 1);
            assert("E"@.subrange(0, 1) =~= "E"@);
            assert("E"@.drop_last() =~= Seq::<char>::empty());
            assert(spec_squash(Seq::<char>::empty()) =~= Seq::<char>::empty());
            assert(spec_squash("E"@) =~= Seq::<char>::empty().push('e'));
            assert(spec_normalize("E"@) =~= "e"@);
        },
        Alpha::F => {
            assert(trim_from("F"@, 0) == 0);
            assert(trim_to("F"@, 1) == 1);
            assert("F"@.subrange(0, 1) =~= "F"@);
            assert("F"@.drop_last() =~= Seq::<char>::empty());
            assert(spec_squash(Seq::<char>::empty()) =~= Seq::<char>::empty());
            assert(spec_squash("F"@) =~= Seq::<char>::empty().push('f'));
            assert(spec_normalize("F"@) =~= "f"@);
        },
        Alpha::G => {
            assert(trim_from("G"@, 0) == 0);
            assert(trim_to("G"@, 1) == 1);
            assert("G"@.subrange(0, 1) =~= "G"@);
            assert("G"@.drop_last() =~= Seq::<char>::empty());
            assert(spec_squash(Seq::<char>::empty()) =~= Seq::<char>::empty());
            assert(spec_squash("G"@) =~= Seq::<char>::empty().push('g'));
            assert(spec_normalize("G"@) =~= "g"@);
        },
        Alpha::H => {
            assert(trim_from("H"@, 0) == 0);
            assert(trim_to("H"@, 1) == 1);
            assert("H"@.subrange(0, 1) =~= "H"@);
            assert("H"@.drop_last() =~= Seq::<char>::empty());
            assert(spec_squash(Seq::<char>::empty()) =~= Seq::<char>::empty());
            assert(spec_squash("H"@) =~= Seq::<char>::empty().push('h'));
            assert(spec_normalize("H"@) =~= "h"@);
        },
        Alpha::I => {
            assert(trim_from("I"@, 0) == 0);
            assert(trim_to("I"@, 1) == 1);
            assert("I"@.subrange(0, 1) =~= "I"@);
            assert("I"@.drop_last() =~= Seq::<char>::empty());
            assert(spec_squash(Seq::<char>::empty()) =~= Seq::<char>::empty());
            assert(spec_squash("I"@) =~= Seq::<char>::empty().push('i'));
            assert(spec_normalize("I"@) =~= "i"@);
        },
        Alpha::J => {
            assert(trim_from("J"@, 0) == 0);
            assert(trim_to("J"@, 1) == 1);
            assert("J"@.subrange(0, 1) =~= "J"@);
            assert("J"@.drop_last() =~= Seq::<char>::empty());
            assert(spec_squash(Seq::<char>::empty()) =~= Seq::<char>::empty());
            assert(spec_squash("J"@) =~= Seq::<char>::empty().push('j'));
            assert(spec_normalize("J"@) =~= "j"@);
        },
        Alpha::K => {
            assert(trim_from("K"@, 0) == 0);
            assert(trim_to("K"@, 1) == 1);
            assert("K"@.subrange(0, 1) =~= "K"@);
            assert("K"@.drop_last() =~= Seq::<char>::empty());
            assert(spec_squash(Seq::<char>::empty()) =~= Seq::<char>::empty());
            assert(spec_squash("K"@) =~= Seq::<char>::empty().push('k'));
            assert(spec_normalize("K"@) =~= "k"@);
        },
        Alpha::L => {
            assert(trim_from("L"@, 0) == 0);
            assert(trim_to("L"@, 1) == 1);
            assert("L"@.subrange(0, 1) =~= "L"@);
            assert("L"@.drop_last() =~= Seq::<char>::empty());
            assert(spec_squash(Seq::<char>::empty()) =~= Seq::<char>::empty());
            assert(spec_squash("L"@) =~= Seq::<char>::empty().push('l'));
            assert(spec_normalize("L"@) =~= "l"@);
        },
        Alpha::M => {
            assert(trim_from("M"@, 0) == 0);
            assert(trim_to("M"@, 1) == 1);
            assert("M"@.subrange(0, 1) =~= "M"@);
            assert("M"@.drop_last() =~= Seq::<char>::empty());
            assert(spec_squash(Seq::<char>::empty()) =~= Seq::<char>::empty());
            assert(spec_squash("M"@) =~= Seq::<char>::empty().push('m'));
            assert(spec_normalize("M"@) =~= "m"@);
        },
        Alpha::N => {
            assert(trim_from("N"@, 0) == 0);
            assert(trim_to("N"@, 1) == 1);
            assert("N"@.subrange(0, 1) =~= "N"@);
            assert("N"@.drop_last() =~= Seq::<char>::empty());
            assert(spec_squash(Seq::<char>::empty()) =~= Seq::<char>::empty());
            assert(spec_squash("N"@) =~= Seq::<char>::empty().push('n'));
            assert(spec_normalize("N"@) =~= "n"@);
        },
        Alpha::O => {
            assert(trim_from("O"@, 0) == 0);
            assert(trim_to("O"@, 1) == 1);
            assert("O"@.subrange(0, 1) =~= "O"@);
            assert("O"@.drop_last() =~= Seq::<char>::empty());
            assert(spec_squash(Seq::<char>::empty()) =~= Seq::<char>::empty());
            assert(spec_squash("O"@) =~= Seq::<char>::empty().push('o'));
            assert(spec_normalize("O"@) =~= "o"@);
        },
        Alpha::P => {
            assert(trim_from("P"@, 0) == 0);
            assert(trim_to("P"@, 1) == 1);
            assert("P"@.subrange(0, 1) =~= "P"@);
            assert("P"@.drop_last() =~= Seq::<char>::empty());
            assert(spec_squash(Seq::<char>::empty()) =~= Seq::<char>::empty());
            assert(spec_squash("P"@) =~= Seq::<char>::empty().push('p'));
            assert(spec_normalize("P"@) =~= "p"@);
        },
        Alpha::Q => {
            assert(trim_from("Q"@, 0) == 0);
            assert(trim_to("Q"@, 1) == 1);
            assert("Q"@.subrange(0, 1) =~= "Q"@);
            assert("Q"@.drop_last() =~= Seq::<char>::empty());
            assert(spec_squash(Seq::<char>::empty()) =~= Seq::<char>::empty());
            assert(spec_squash("Q"@) =~= Seq::<char>::empty().push('q'));
            assert(spec_normalize("Q"@) =~= "q"@);
        },
        Alpha::R => {
            assert(trim_from("R"@, 0) == 0);
            assert(trim_to("R"@, 1) == 1);
            assert("R"@.subrange(0, 1) =~= "R"@);
            assert("R"@.drop_last() =~= Seq::<char>::empty());
            assert(spec_squash(Seq::<char>::empty()) =~= Seq::<char>::empty());
            assert(spec_squash("R"@) =~= Seq::<char>::empty().push('r'));
            assert(spec_normalize("R"@) =~= "r"@);
        },
        Alpha::S => {
            assert(trim_from("S"@, 0) == 0);
            assert(trim_to("S"@, 1) == 1);
            assert("S"@.subrange(0, 1) =~= "S"@);
            assert("S"@.drop_last() =~= Seq::<char>::empty());
            assert(spec_squash(Seq::<char>::empty()) =~= Seq::<char>::empty());
            assert(spec_squash("S"@) =~= Seq::<char>::empty().push('s'));
            assert(spec_normalize("S"@) =~= "s"@);
        },
        Alpha::T => {
            assert(trim_from("T"@, 0) == 0);
            assert(trim_to("T"@, 1) == 1);
            assert("T"@.subrange(0, 1) =~= "T"@);
            assert("T"@.drop_last() =~= Seq::<char>::empty());
            assert(spec_squash(Seq::<char>::empty()) =~= Seq::<char>::empty());
            assert(spec_squash("T"@) =~= Seq::<char>::empty().push('t'));
            assert(spec_normalize("T"@) =~= "t"@);
        },
        Alpha::U => {
            assert(trim_from("U"@, 0) == 0);
            assert(trim_to("U"@, 1) == 1);
            assert("U"@.subrange(0, 1) =~= "U"@);
            assert("U"@.drop_last() =~= Seq::<char>::empty());
            assert(spec_squash(Seq::<char>::empty()) =~= Seq::<char>::empty());
            assert(spec_squash("U"@) =~= Seq::<char>::empty().push('u'));
            assert(spec_normalize("U"@) =~= "u"@);
        },
        Alpha::V => {
            assert(trim_from("V"@, 0) == 0);
            assert(trim_to("V"@, 1) == 1);
            assert("V"@.subrange(0, 1) =~= "V"@);
            assert("V"@.drop_last() =~= Seq::<char>::empty());
            assert(spec_squash(Seq::<char>::empty()) =~= Seq::<char>::empty());
            assert(spec_squash("V"@) =~= Seq::<char>::empty().push('v'));
            assert(spec_normalize("V"@) =~= "v"@);
        },
        Alpha::W => {
            assert(trim_from("W"@, 0) == 0);
            assert(trim_to("W"@, 1) == 1);
            assert("W"@.subrange(0, 1) =~= "W"@);
            assert("W"@.drop_last() =~= Seq::<char>::empty());
            assert(spec_squash(Seq::<char>::empty()) =~= Seq::<char>::empty());
            assert(spec_squash("W"@) =~= Seq::<char>::empty().push('w'));
            assert(spec_normalize("W"@) =~= "w"@);
        },
        Alpha::X => {
            assert(trim_from("X"@, 0) == 0);
            assert(trim_to("X"@, 1) == 1);
            assert("X"@.subrange(0, 1) =~= "X"@);
            assert("X"@.drop_last() =~= Seq::<char>::empty());
            assert(spec_squash(Seq::<char>::empty()) =~= Seq::<char>::empty());
            assert(spec_squash("X"@) =~= Seq::<char>::empty().push('x'));
            assert(spec_normalize("X"@) =~= "x"@);
        },
        Alpha::Y => {
            assert(trim_from("Y"@, 0) == 0);
            assert(trim_to("Y"@, 1) == 1);
            assert("Y"@.subrange(0, 1) =~= "Y"@);
            assert("Y"@.drop_last() =~= Seq::<char>::empty());
            assert(spec_squash(Seq::<char>::empty()) =~= Seq::<char>::empty());
            assert(spec_squash("Y"@) =~= Seq::<char>::empty().push('y'));
            assert(spec_normalize("Y"@) =~= "y"@);
        },
        Alpha::Z => {
            assert(trim_from("Z"@, 0) == 0);
            assert(trim_to("Z"@, 1) == 1);
            assert("Z"@.subrange(0, 1) =~= "Z"@);
            assert("Z"@.drop_last() =~= Seq::<char>::empty());
            assert(spec_squash(Seq::<char>::empty()) =~= Seq::<char>::empty());
            assert(spec_squash("Z"@) =~= Seq::<char>::empty().push('z'));
            assert(spec_normalize("Z"@) =~= "z"@);
        },
    }
}

} // verus!

