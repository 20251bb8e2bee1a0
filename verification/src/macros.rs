//! The macro wire grammar: a list of macros, each a run of typed actions
//! closed by a `0` token, the list closed by one more `0` token and
//! followed by an opaque trailer of memory filler.
//!
//! An action starts with a discriminant byte between 1 and 8. A stray
//! byte outside that range right before a valid discriminant is
//! discarded and reading retried once -- a quirk of observed wire data,
//! kept for compatibility, not a designed feature. Two-byte payloads
//! compose into a 16-bit value with the first byte as the high byte,
//! matching the observed device dumps.

use crate::keycode::{decode, spec_decode, KeyKind};
use crate::superkeys::spec_lit0_at;
use crate::wire::{lemma_read_uint_advances, read_uint, spec_read_uint};
use vstd::prelude::*;

verus! {

/// Error when parsing a macro memory dump fails.
#[derive(Clone, Copy, Debug, PartialEq, Eq, Structural)]
pub struct ParseMacrosError;

impl ParseMacrosError {
    /// What went wrong, for a reader.
    pub open spec fn spec_message(self) -> Seq<char> {
        "failed to parse macros: expected an action type between 1 and 8 inclusive with its payload bytes, actions and macros each ended by a `0` token"@
    }

    /// What went wrong, for a reader.
    pub fn message(&self) -> (m: String)
        ensures
            m@ == self.spec_message(),
    {
        "failed to parse macros: expected an action type between 1 and 8 inclusive with its payload bytes, actions and macros each ended by a `0` token".to_owned()
    }
}

/// Raw action data with no known interpretation yet.
#[derive(Clone, Copy, Debug, PartialEq, Eq, Structural)]
pub enum RawActionData {
    /// A single byte of data.
    U8(u8),
    /// A single 16-bit value.
    OneU16(u16),
    /// Two sequential 16-bit values.
    TwoU16(u16, u16),
}

/// The possible actions a macro can perform.
#[derive(Clone, Copy, Debug, PartialEq, Eq, Structural)]
pub enum MacroAction {
    /// Delay in ms.
    Delay(u16),
    /// Applies a random delay between the min and max range.
    RandomDelay {
        /// The minimum delay amount in ms.
        min: u16,
        /// The maximum delay amount in ms.
        max: u16,
    },
    /// A press of a key whose code does not fit one byte.
    Special(KeyKind),
    /// Equivalent to a rapid keydown and keyup.
    Press(KeyKind),
    /// Holds down the key.
    KeyDown(KeyKind),
    /// Releases the held key.
    KeyUp(KeyKind),
    /// An action type with no known interpretation yet.
    Unknown {
        /// The raw action type.
        kind: u8,
        /// The data associated with this action.
        data: RawActionData,
    },
}

/// Represents a single macro.
#[derive(Clone, Debug, PartialEq, Eq)]
pub struct Macro {
    /// The actions this macro will perform.
    pub actions: Vec<MacroAction>,
}

/// One byte on the wire: a decimal value up to 255 followed by exactly
/// one space.
pub open spec fn spec_u8_at(s: Seq<char>, i: int) -> Option<(u8, int)> {
    match spec_read_uint(s, i, 255) {
        Some((v, j)) => if j < s.len() && s[j] == ' ' {
            Some((v as u8, j + 1))
        } else {
            None
        },
        None => None,
    }
}

pub proof fn lemma_u8_advances(s: Seq<char>, i: int)
    requires
        spec_u8_at(s, i) is Some,
    ensures
        i < spec_u8_at(s, i)->Some_0.1 <= s.len(),
{
    lemma_read_uint_advances(s, i, 255);
}

/// One 16-bit value on the wire: two sequential bytes, the first one
/// the high byte.
pub open spec fn spec_u16_at(s: Seq<char>, i: int) -> Option<(u16, int)> {
    match spec_u8_at(s, i) {
        Some((hi, j)) => match spec_u8_at(s, j) {
            Some((lo, k)) => Some(((hi * 256 + lo) as u16, k)),
            None => None,
        },
        None => None,
    }
}

pub proof fn lemma_u16_advances(s: Seq<char>, i: int)
    requires
        spec_u16_at(s, i) is Some,
    ensures
        i < spec_u16_at(s, i)->Some_0.1 <= s.len(),
{
    let (hi, j) = spec_u8_at(s, i)->Some_0;
    lemma_u8_advances(s, i);
    lemma_u8_advances(s, j);
}

/// A valid action discriminant.
pub open spec fn spec_kind_valid(k: u8) -> bool {
    1 <= k <= 8
}

/// The payload of an action whose discriminant was already read.
pub open spec fn spec_action_body_at(s: Seq<char>, i: int, kind: u8) -> Option<(MacroAction, int)> {
    if kind == 1 {
        match spec_u16_at(s, i) {
            Some((min, j)) => match spec_u16_at(s, j) {
                Some((max, k)) => Some((MacroAction::RandomDelay { min, max }, k)),
                None => None,
            },
            None => None,
        }
    } else if kind == 2 {
        match spec_u16_at(s, i) {
            Some((d, j)) => Some((MacroAction::Delay(d), j)),
            None => None,
        }
    } else if kind == 3 || kind == 4 {
        match spec_u16_at(s, i) {
            Some((d, j)) => Some((MacroAction::Unknown { kind, data: RawActionData::OneU16(d) }, j)),
            None => None,
        }
    } else if kind == 5 {
        match spec_u16_at(s, i) {
            Some((d, j)) => Some((MacroAction::Special(spec_decode(d)), j)),
            None => None,
        }
    } else if kind == 6 {
        match spec_u8_at(s, i) {
            Some((d, j)) => Some((MacroAction::KeyDown(spec_decode(d as u16)), j)),
            None => None,
        }
    } else if kind == 7 {
        match spec_u8_at(s, i) {
            Some((d, j)) => Some((MacroAction::KeyUp(spec_decode(d as u16)), j)),
            None => None,
        }
    } else if kind == 8 {
        match spec_u8_at(s, i) {
            Some((d, j)) => Some((MacroAction::Press(spec_decode(d as u16)), j)),
            None => None,
        }
    } else {
        None
    }
}

/// One action read strictly: a valid discriminant byte, then its
/// payload.
pub open spec fn spec_strict_action_at(s: Seq<char>, i: int) -> Option<(MacroAction, int)> {
    match spec_u8_at(s, i) {
        Some((k, j)) => if spec_kind_valid(k) {
            spec_action_body_at(s, j, k)
        } else {
            None
        },
        None => None,
    }
}

/// One action as the device dumps it: a discriminant byte outside the
/// valid range is discarded as a stray and reading retried once.
pub open spec fn spec_action_at(s: Seq<char>, i: int) -> Option<(MacroAction, int)> {
    match spec_u8_at(s, i) {
        Some((k, j)) => if spec_kind_valid(k) {
            spec_action_body_at(s, j, k)
        } else {
            spec_strict_action_at(s, j)
        },
        None => None,
    }
}

/// Macro stray-byte recovery: with a discriminant byte outside the valid
/// range standing right before an action, reading proceeds as if only
/// what follows the stray byte were present.
pub proof fn lemma_stray_byte_recovery(s: Seq<char>, i: int)
    requires
        spec_u8_at(s, i) is Some,
        !spec_kind_valid(spec_u8_at(s, i)->Some_0.0),
    ensures
        spec_action_at(s, i) == spec_strict_action_at(s, spec_u8_at(s, i)->Some_0.1),
{
}

pub proof fn lemma_action_body_advances(s: Seq<char>, i: int, kind: u8)
    requires
        spec_action_body_at(s, i, kind) is Some,
    ensures
        i < spec_action_body_at(s, i, kind)->Some_0.1 <= s.len(),
{
    if kind == 1 {
        let (min, j) = spec_u16_at(s, i)->Some_0;
        lemma_u16_advances(s, i);
        lemma_u16_advances(s, j);
    } else if kind == 2 || kind == 3 || kind == 4 || kind == 5 {
        lemma_u16_advances(s, i);
    } else {
        lemma_u8_advances(s, i);
    }
}

pub proof fn lemma_action_advances(s: Seq<char>, i: int)
    requires
        spec_action_at(s, i) is Some,
    ensures
        i < spec_action_at(s, i)->Some_0.1 <= s.len(),
{
    let (k, j) = spec_u8_at(s, i)->Some_0;
    lemma_u8_advances(s, i);
    if spec_kind_valid(k) {
        lemma_action_body_advances(s, j, k);
    } else {
        let (k2, j2) = spec_u8_at(s, j)->Some_0;
        lemma_u8_advances(s, j);
        lemma_action_body_advances(s, j2, k2);
    }
}

/// Remaining actions of one macro, up to its closing `0` token.
pub open spec fn spec_actions_tail(s: Seq<char>, i: int) -> Option<(Seq<MacroAction>, int)>
    decreases s.len() - i,
    when 0 <= i <= s.len()
    via spec_actions_tail_decreases
{
    if spec_lit0_at(s, i) is Some {
        Some((Seq::empty(), spec_lit0_at(s, i)->Some_0))
    } else {
        match spec_action_at(s, i) {
            Some((a, j)) => match spec_actions_tail(s, j) {
                Some((rest, k)) => Some((seq![a] + rest, k)),
                None => None,
            },
            None => None,
        }
    }
}

#[via_fn]
proof fn spec_actions_tail_decreases(s: Seq<char>, i: int) {
    if spec_lit0_at(s, i) is None && spec_action_at(s, i) is Some {
        lemma_action_advances(s, i);
    }
}

/// One whole macro: at least one action, then actions until the closing
/// `0` token.
pub open spec fn spec_macro_at(s: Seq<char>, i: int) -> Option<(Seq<MacroAction>, int)> {
    match spec_action_at(s, i) {
        Some((a, j)) => match spec_actions_tail(s, j) {
            Some((rest, k)) => Some((seq![a] + rest, k)),
            None => None,
        },
        None => None,
    }
}

pub proof fn lemma_macro_advances(s: Seq<char>, i: int)
    requires
        0 <= i <= s.len(),
        spec_macro_at(s, i) is Some,
    ensures
        i < spec_macro_at(s, i)->Some_0.1 <= s.len(),
{
    let (a, j) = spec_action_at(s, i)->Some_0;
    lemma_action_advances(s, i);
    lemma_actions_tail_bounds(s, j);
}

pub proof fn lemma_actions_tail_bounds(s: Seq<char>, i: int)
    requires
        0 <= i <= s.len(),
        spec_actions_tail(s, i) is Some,
    ensures
        i <= spec_actions_tail(s, i)->Some_0.1 <= s.len(),
    decreases s.len() - i,
{
    if spec_lit0_at(s, i) is Some {
    } else {
        let (a, j) = spec_action_at(s, i)->Some_0;
        lemma_action_advances(s, i);
        lemma_actions_tail_bounds(s, j);
    }
}

/// Remaining macros of the list, up to the list-ending `0` token.
pub open spec fn spec_macros_tail(s: Seq<char>, i: int) -> Option<(Seq<Seq<MacroAction>>, int)>
    decreases s.len() - i,
    when 0 <= i <= s.len()
    via spec_macros_tail_decreases
{
    if spec_lit0_at(s, i) is Some {
        Some((Seq::empty(), spec_lit0_at(s, i)->Some_0))
    } else {
        match spec_macro_at(s, i) {
            Some((m, j)) => match spec_macros_tail(s, j) {
                Some((rest, k)) => Some((seq![m] + rest, k)),
                None => None,
            },
            None => None,
        }
    }
}

#[via_fn]
proof fn spec_macros_tail_decreases(s: Seq<char>, i: int) {
    if spec_lit0_at(s, i) is None && spec_macro_at(s, i) is Some {
        lemma_macro_advances(s, i);
    }
}

/// The whole macro list grammar: at least one macro, each closed by
/// `0`, then the list-ending `0` token. Whatever follows is the opaque
/// memory-filler trailer.
pub open spec fn spec_parse_macros(s: Seq<char>) -> Option<Seq<Seq<MacroAction>>> {
    match spec_macro_at(s, 0) {
        Some((m, j)) => match spec_macros_tail(s, j) {
            Some((rest, k)) => Some(seq![m] + rest),
            None => None,
        },
        None => None,
    }
}

/// Reads one byte token at position `i`.
fn read_u8(s: &str, i: usize) -> (r: Option<(u8, usize)>)
    requires
        i <= s@.len(),
        s@.len() <= usize::MAX,
    ensures
        match r {
            Some((v, j)) => spec_u8_at(s@, i as int) == Some((v, j as int)) && i < j <= s@.len(),
            None => spec_u8_at(s@, i as int) is None,
        },
{
    let len = s.unicode_len();
    let (v, j) = match read_uint(s, i, 255) {
        Some(x) => x,
        None => {
            return None;
        },
    };
    proof {
        lemma_read_uint_advances(s@, i as int, 255);
    }
    if j < len && s.get_char(j) == ' ' {
        Some((v as u8, j + 1))
    } else {
        None
    }
}

/// Reads one two-byte 16-bit value at position `i`.
pub fn read_u16(s: &str, i: usize) -> (r: Option<(u16, usize)>)
    requires
        i <= s@.len(),
        s@.len() <= usize::MAX,
    ensures
        match r {
            Some((v, j)) => spec_u16_at(s@, i as int) == Some((v, j as int)) && i < j <= s@.len(),
            None => spec_u16_at(s@, i as int) is None,
        },
{
    let (hi, j) = match read_u8(s, i) {
        Some(x) => x,
        None => {
            return None;
        },
    };
    let (lo, k) = match read_u8(s, j) {
        Some(x) => x,
        None => {
            return None;
        },
    };
    Some(((hi as u16) * 256 + (lo as u16), k))
}

/// Reads the payload of an action whose discriminant was already read.
fn read_action_body(s: &str, i: usize, kind: u8) -> (r: Option<(MacroAction, usize)>)
    requires
        i <= s@.len(),
        s@.len() <= usize::MAX,
        spec_kind_valid(kind),
    ensures
        match r {
            Some((a, j)) => spec_action_body_at(s@, i as int, kind) == Some((a, j as int)) && i < j
                <= s@.len(),
            None => spec_action_body_at(s@, i as int, kind) is None,
        },
{
    if kind == 1 {
        let (min, j) = match read_u16(s, i) {
            Some(x) => x,
            None => {
                return None;
            },
        };
        let (max, k) = match read_u16(s, j) {
            Some(x) => x,
            None => {
                return None;
            },
        };
        Some((MacroAction::RandomDelay { min, max }, k))
    } else if kind == 2 {
        let (d, j) = match read_u16(s, i) {
            Some(x) => x,
            None => {
                return None;
            },
        };
        Some((MacroAction::Delay(d), j))
    } else if kind == 3 || kind == 4 {
        let (d, j) = match read_u16(s, i) {
            Some(x) => x,
            None => {
                return None;
            },
        };
        Some((MacroAction::Unknown { kind, data: RawActionData::OneU16(d) }, j))
    } else if kind == 5 {
        let (d, j) = match read_u16(s, i) {
            Some(x) => x,
            None => {
                return None;
            },
        };
        Some((MacroAction::Special(decode(d)), j))
    } else if kind == 6 {
        let (d, j) = match read_u8(s, i) {
            Some(x) => x,
            None => {
                return None;
            },
        };
        Some((MacroAction::KeyDown(decode(d as u16)), j))
    } else if kind == 7 {
        let (d, j) = match read_u8(s, i) {
            Some(x) => x,
            None => {
                return None;
            },
        };
        Some((MacroAction::KeyUp(decode(d as u16)), j))
    } else {
        let (d, j) = match read_u8(s, i) {
            Some(x) => x,
            None => {
                return None;
            },
        };
        Some((MacroAction::Press(decode(d as u16)), j))
    }
}

/// Reads one action, discarding a stray invalid discriminant byte once.
fn read_action(s: &str, i: usize) -> (r: Option<(MacroAction, usize)>)
    requires
        i <= s@.len(),
        s@.len() <= usize::MAX,
    ensures
        match r {
            Some((a, j)) => spec_action_at(s@, i as int) == Some((a, j as int)) && i < j
                <= s@.len(),
            None => spec_action_at(s@, i as int) is None,
        },
{
    let (k0, j) = match read_u8(s, i) {
        Some(x) => x,
        None => {
            return None;
        },
    };
    if 1 <= k0 && k0 <= 8 {
        return read_action_body(s, j, k0);
    }
    let (k1, j2) = match read_u8(s, j) {
        Some(x) => x,
        None => {
            return None;
        },
    };
    if 1 <= k1 && k1 <= 8 {
        read_action_body(s, j2, k1)
    } else {
        None
    }
}

/// Reads one whole macro: at least one action, then actions up to and
/// including the closing `0` token.
fn read_macro(s: &str, i: usize) -> (r: Option<(Macro, Ghost<Seq<MacroAction>>, usize)>)
    requires
        i <= s@.len(),
        s@.len() <= usize::MAX,
    ensures
        match r {
            Some((m, acts, j)) => spec_macro_at(s@, i as int) == Some((acts@, j as int)) && m.actions@
                == acts@ && i < j <= s@.len(),
            None => spec_macro_at(s@, i as int) is None,
        },
{
    let (a0, mut p) = match read_action(s, i) {
        Some(x) => x,
        None => {
            return None;
        },
    };
    let mut actions: Vec<MacroAction> = Vec::new();
    actions.push(a0);
    let ghost first: Seq<MacroAction> = seq![a0];
    let mut acc: Ghost<Seq<MacroAction>> = Ghost(first);
    proof {
        assert(actions@ =~= first);
    }
    loop
        invariant
            i < p <= s@.len(),
            s@.len() <= usize::MAX,
            actions@ == acc@,
            spec_actions_tail(s@, p as int) is Some ==> spec_macro_at(s@, i as int) == Some(
                (
                    acc@ + spec_actions_tail(s@, p as int)->Some_0.0,
                    spec_actions_tail(s@, p as int)->Some_0.1,
                ),
            ),
            spec_actions_tail(s@, p as int) is None ==> spec_macro_at(s@, i as int) is None,
        decreases s@.len() - p,
    {
        if let Some(j) = crate::superkeys::read_lit0(s, p) {
            proof {
                assert(spec_actions_tail(s@, p as int) == Some(
                    (Seq::<MacroAction>::empty(), j as int),
                ));
                assert(acc@ + Seq::<MacroAction>::empty() =~= acc@);
            }
            return Some((Macro { actions }, acc, j));
        }
        let (a, j) = match read_action(s, p) {
            Some(x) => x,
            None => {
                proof {
                    assert(spec_actions_tail(s@, p as int) is None);
                }
                return None;
            },
        };
        actions.push(a);
        proof {
            let old_acc = acc@;
            let tail = spec_actions_tail(s@, j as int);
            assert(spec_actions_tail(s@, p as int) == (match tail {
                Some((rest, k)) => Some((seq![a] + rest, k)),
                None => None::<(Seq<MacroAction>, int)>,
            }));
            if tail is Some {
                let (rest, k) = tail->Some_0;
                assert(old_acc + (seq![a] + rest) =~= (old_acc + seq![a]) + rest);
            }
            assert(actions@ =~= old_acc + seq![a]);
        }
        acc = Ghost(acc@ + seq![a]);
        p = j;
    }
}

/// Takes wire text and tries to parse it into a macro list: at least
/// one action-run macro, each closed by `0`, the list closed by one
/// more `0`. Whatever follows the list is ignored as memory filler.
pub fn parse_macros(input: &str) -> (r: Result<Vec<Macro>, ParseMacrosError>)
    requires
        input@.len() <= usize::MAX,
    ensures
        match r {
            Ok(ms) => spec_parse_macros(input@) == Some(
                ms@.map_values(|m: Macro| m.actions@),
            ),
            Err(_) => spec_parse_macros(input@) is None,
        },
{
    let (m0, acts0, mut p) = match read_macro(input, 0) {
        Some(x) => x,
        None => {
            return Err(ParseMacrosError);
        },
    };
    let mut macros: Vec<Macro> = Vec::new();
    macros.push(m0);
    let ghost first: Seq<Seq<MacroAction>> = seq![acts0@];
    let mut acc: Ghost<Seq<Seq<MacroAction>>> = Ghost(first);
    proof {
        assert(macros@.map_values(|m: Macro| m.actions@) =~= first);
    }
    loop
        invariant
            p <= input@.len(),
            input@.len() <= usize::MAX,
            macros@.map_values(|m: Macro| m.actions@) == acc@,
            spec_macros_tail(input@, p as int) is Some ==> spec_parse_macros(input@) == Some(
                acc@ + spec_macros_tail(input@, p as int)->Some_0.0,
            ),
            spec_macros_tail(input@, p as int) is None ==> spec_parse_macros(input@) is None,
        decreases input@.len() - p,
    {
        if let Some(j) = crate::superkeys::read_lit0(input, p) {
            proof {
                assert(spec_macros_tail(input@, p as int) == Some(
                    (Seq::<Seq<MacroAction>>::empty(), j as int),
                ));
                assert(acc@ + Seq::<Seq<MacroAction>>::empty() =~= acc@);
            }
            return Ok(macros);
        }
        let (m, acts, j) = match read_macro(input, p) {
            Some(x) => x,
            None => {
                proof {
                    assert(spec_macros_tail(input@, p as int) is None);
                }
                return Err(ParseMacrosError);
            },
        };
        macros.push(m);
        proof {
            let old_acc = acc@;
            let tail = spec_macros_tail(input@, j as int);
            assert(spec_macros_tail(input@, p as int) == (match tail {
                Some((rest, k)) => Some((seq![acts@] + rest, k)),
                None => None::<(Seq<Seq<MacroAction>>, int)>,
            }));
            if tail is Some {
                let (rest, k) = tail->Some_0;
                assert(old_acc + (seq![acts@] + rest) =~= (old_acc + seq![acts@]) + rest);
            }
            assert(macros@.map_values(|m2: Macro| m2.actions@) =~= old_acc + seq![acts@]);
        }
        acc = Ghost(acc@ + seq![acts@]);
        p = j;
    }
}

} // verus!
