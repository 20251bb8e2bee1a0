//! The superkey wire grammar: groups of five actions, each group closed
//! by a `0` token, the whole map closed by one more `0` token and padded
//! with the fill sentinel `65535`.
//!
//! An action is a decimal 16-bit code followed by blanks. The code `1`
//! means "no action", and so does the code of the blank no-key; any other
//! code resolves through the key-code table.

use crate::keycode::{
    decode, encode, lemma_code_round_trip, lemma_encode_fits, spec_decode, spec_encode, Blank,
    KeyKind,
};
use crate::wire::{
    lemma_read_uint_advances, lemma_skip_blanks_advances, read_uint, skip_blanks, spec_read_uint,
    spec_skip_blanks,
};
use vstd::prelude::*;

verus! {

/// Error when parsing a superkeys map.
#[derive(Clone, Copy, Debug, PartialEq, Eq, Structural)]
pub struct ParseSuperkeyMapError;

impl ParseSuperkeyMapError {
    /// What went wrong, for a reader.
    pub open spec fn spec_message(self) -> Seq<char> {
        "failed to parse superkey map data: expected groups of five superkey actions, each group and the map ended by a `0` token, then nothing but `65535` fill tokens"@
    }

    /// What went wrong, for a reader.
    pub fn message(&self) -> (m: String)
        ensures
            m@ == self.spec_message(),
    {
        "failed to parse superkey map data: expected groups of five superkey actions, each group and the map ended by a `0` token, then nothing but `65535` fill tokens".to_owned()
    }
}

/// Superkey containing uninterpreted actions.
#[derive(Clone, Copy, Debug, PartialEq, Eq)]
pub struct SuperKey {
    /// Action performed when tapping the key.
    pub tap: Option<KeyKind>,
    /// Action performed when holding the key.
    pub hold: Option<KeyKind>,
    /// Action performed when tapping and holding the key.
    pub tap_hold: Option<KeyKind>,
    /// Action performed when double tapping the key.
    pub double_tap: Option<KeyKind>,
    /// Action performed when double tapping and holding the key.
    pub double_tap_hold: Option<KeyKind>,
}

/// Struct containing a list of defined superkeys.
#[derive(Clone, Debug, PartialEq, Eq)]
pub struct SuperkeyMap(pub Vec<SuperKey>);

/// One action on the wire: a decimal 16-bit value followed by one or
/// more blanks.
pub open spec fn spec_action_at(s: Seq<char>, i: int) -> Option<(u16, int)> {
    match spec_read_uint(s, i, 65535) {
        Some((v, j)) => match spec_skip_blanks(s, j) {
            Some(k) => Some((v as u16, k)),
            None => None,
        },
        None => None,
    }
}

/// Five consecutive actions.
pub open spec fn spec_group_at(s: Seq<char>, i: int) -> Option<(Seq<u16>, int)> {
    match spec_action_at(s, i) {
        Some((a1, i1)) => match spec_action_at(s, i1) {
            Some((a2, i2)) => match spec_action_at(s, i2) {
                Some((a3, i3)) => match spec_action_at(s, i3) {
                    Some((a4, i4)) => match spec_action_at(s, i4) {
                        Some((a5, i5)) => Some((seq![a1, a2, a3, a4, a5], i5)),
                        None => None,
                    },
                    None => None,
                },
                None => None,
            },
            None => None,
        },
        None => None,
    }
}

/// The literal terminator token `0` followed by one space.
pub open spec fn spec_lit0_at(s: Seq<char>, i: int) -> Option<int> {
    if 0 <= i && i + 2 <= s.len() && s[i] == '0' && s[i + 1] == ' ' {
        Some(i + 2)
    } else {
        None
    }
}

/// A five-action group closed by its `0` terminator.
pub open spec fn spec_group_term_at(s: Seq<char>, i: int) -> Option<(Seq<u16>, int)> {
    match spec_group_at(s, i) {
        Some((g, j)) => match spec_lit0_at(s, j) {
            Some(k) => Some((g, k)),
            None => None,
        },
        None => None,
    }
}

pub proof fn lemma_action_advances(s: Seq<char>, i: int)
    requires
        spec_action_at(s, i) is Some,
    ensures
        i < spec_action_at(s, i)->Some_0.1 <= s.len(),
{
    let (v, j) = spec_read_uint(s, i, 65535)->Some_0;
    lemma_read_uint_advances(s, i, 65535);
    lemma_skip_blanks_advances(s, j);
}

pub proof fn lemma_group_term_advances(s: Seq<char>, i: int)
    requires
        spec_group_term_at(s, i) is Some,
    ensures
        i < spec_group_term_at(s, i)->Some_0.1 <= s.len(),
{
    let (a1, i1) = spec_action_at(s, i)->Some_0;
    lemma_action_advances(s, i);
    let (a2, i2) = spec_action_at(s, i1)->Some_0;
    lemma_action_advances(s, i1);
    let (a3, i3) = spec_action_at(s, i2)->Some_0;
    lemma_action_advances(s, i2);
    let (a4, i4) = spec_action_at(s, i3)->Some_0;
    lemma_action_advances(s, i3);
    let (a5, i5) = spec_action_at(s, i4)->Some_0;
    lemma_action_advances(s, i4);
}

/// Remaining groups after the first, each closed by `0`, up to the
/// map-ending `0` token.
pub open spec fn spec_groups_tail(s: Seq<char>, i: int) -> Option<(Seq<Seq<u16>>, int)>
    decreases s.len() - i,
    when 0 <= i <= s.len()
    via spec_groups_tail_decreases
{
    if spec_lit0_at(s, i) is Some {
        Some((Seq::empty(), spec_lit0_at(s, i)->Some_0))
    } else {
        match spec_group_term_at(s, i) {
            Some((g, j)) => match spec_groups_tail(s, j) {
                Some((gs, k)) => Some((seq![g] + gs, k)),
                None => None,
            },
            None => None,
        }
    }
}

#[via_fn]
proof fn spec_groups_tail_decreases(s: Seq<char>, i: int) {
    if spec_lit0_at(s, i) is None && spec_group_term_at(s, i) is Some {
        lemma_group_term_advances(s, i);
    }
}

/// The whole map grammar: at least one group, each closed by `0`, then
/// the map-ending `0` token. Yields the groups and the position after
/// the ending token.
pub open spec fn spec_superkey_groups(s: Seq<char>) -> Option<(Seq<Seq<u16>>, int)> {
    match spec_group_term_at(s, 0) {
        Some((g, j)) => match spec_groups_tail(s, j) {
            Some((gs, k)) => Some((seq![g] + gs, k)),
            None => None,
        },
        None => None,
    }
}

/// The fill-sentinel token `65535` followed by one space.
pub open spec fn spec_lit_fill_at(s: Seq<char>, i: int) -> bool {
    0 <= i && i + 6 <= s.len() && s[i] == '6' && s[i + 1] == '5' && s[i + 2] == '5' && s[i + 3]
        == '3' && s[i + 4] == '5' && s[i + 5] == ' '
}

/// From `i` to the end the text holds nothing but fill-sentinel tokens.
pub open spec fn spec_padding_to_end(s: Seq<char>, i: int) -> bool
    decreases s.len() - i,
    when 0 <= i
{
    if i >= s.len() {
        true
    } else if spec_lit_fill_at(s, i) {
        spec_padding_to_end(s, i + 6)
    } else {
        false
    }
}

/// The action a wire code stands for: `1` and the blank no-key both mean
/// "no action"; every other code resolves through the key-code table.
pub open spec fn spec_action_key(v: u16) -> Option<KeyKind> {
    if v == 1 {
        None
    } else if spec_decode(v) == KeyKind::Blank(Blank::NoKey) {
        None
    } else {
        Some(spec_decode(v))
    }
}

/// The superkey a five-action group stands for.
pub open spec fn spec_superkey_of(g: Seq<u16>) -> SuperKey {
    SuperKey {
        tap: spec_action_key(g[0]),
        hold: spec_action_key(g[1]),
        tap_hold: spec_action_key(g[2]),
        double_tap: spec_action_key(g[3]),
        double_tap_hold: spec_action_key(g[4]),
    }
}

/// The full parse: the map grammar followed by nothing but fill
/// sentinels to the end of the input.
pub open spec fn spec_parse_superkey_map(s: Seq<char>) -> Option<Seq<SuperKey>> {
    match spec_superkey_groups(s) {
        Some((gs, k)) => if spec_padding_to_end(s, k) {
            Some(gs.map_values(|g: Seq<u16>| spec_superkey_of(g)))
        } else {
            None
        },
        None => None,
    }
}

/// The wire code an action serializes to: "no action" and the blank
/// no-key both serialize to `1`; every other key to its code.
pub open spec fn spec_action_value(a: Option<KeyKind>) -> u16 {
    match a {
        None => 1u16,
        Some(k) => if k == KeyKind::Blank(Blank::NoKey) {
            1u16
        } else {
            spec_encode(k) as u16
        },
    }
}

/// An action is well formed when the key it holds is.
pub open spec fn spec_action_wf(a: Option<KeyKind>) -> bool {
    match a {
        Some(k) => k.wf(),
        None => true,
    }
}

/// Serializes one action to its wire code.
pub fn action_value(a: Option<KeyKind>) -> (v: u16)
    requires
        spec_action_wf(a),
    ensures
        v == spec_action_value(a),
{
    match a {
        None => 1,
        Some(k) => match k {
            KeyKind::Blank(Blank::NoKey) => 1,
            _ => {
                proof {
                    lemma_encode_fits(k);
                }
                encode(k)
            },
        },
    }
}

/// Decoding a non-zero wire code to an action and serializing it again
/// restores the code; the decoded action is well formed.
pub proof fn lemma_action_value_round_trip(v: u16)
    requires
        v != 0,
    ensures
        spec_action_wf(spec_action_key(v)),
        spec_action_value(spec_action_key(v)) == v,
{
    lemma_code_round_trip(v);
    reveal(crate::keycode::spec_encode);
    if v != 1 {
        let k = spec_decode(v);
        if k == KeyKind::Blank(Blank::NoKey) {
            assert(spec_encode(k) == 0);
        } else {
            assert(spec_action_key(v) == Some(k));
            assert(spec_action_value(Some(k)) == spec_encode(k) as u16);
        }
    }
}

/// Resolves one wire code to an action.
pub fn action_key(v: u16) -> (r: Option<KeyKind>)
    ensures
        r == spec_action_key(v),
{
    if v == 1 {
        return None;
    }
    let k = decode(v);
    match k {
        KeyKind::Blank(Blank::NoKey) => None,
        _ => Some(k),
    }
}

/// Reads one action at position `i`.
pub(crate) fn read_action(s: &str, i: usize) -> (r: Option<(u16, usize)>)
    requires
        i <= s@.len(),
        s@.len() <= usize::MAX,
    ensures
        match r {
            Some((v, j)) => spec_action_at(s@, i as int) == Some((v, j as int)) && i < j <= s@.len(),
            None => spec_action_at(s@, i as int) is None,
        },
{
    let (v, j) = match read_uint(s, i, 65535) {
        Some(x) => x,
        None => {
            return None;
        },
    };
    proof {
        lemma_read_uint_advances(s@, i as int, 65535);
    }
    let k = match skip_blanks(s, j) {
        Some(x) => x,
        None => {
            return None;
        },
    };
    proof {
        lemma_skip_blanks_advances(s@, j as int);
    }
    Some((v, k))
}

/// Reads one five-action group and its `0` terminator at position `i`.
pub(crate) fn read_group_term(s: &str, i: usize) -> (r: Option<([u16; 5], usize)>)
    requires
        i <= s@.len(),
        s@.len() <= usize::MAX,
    ensures
        match r {
            Some((g, j)) => spec_group_term_at(s@, i as int) == Some((g@, j as int)) && i < j
                <= s@.len(),
            None => spec_group_term_at(s@, i as int) is None,
        },
{
    let (a1, i1) = match read_action(s, i) {
        Some(x) => x,
        None => {
            return None;
        },
    };
    let (a2, i2) = match read_action(s, i1) {
        Some(x) => x,
        None => {
            return None;
        },
    };
    let (a3, i3) = match read_action(s, i2) {
        Some(x) => x,
        None => {
            return None;
        },
    };
    let (a4, i4) = match read_action(s, i3) {
        Some(x) => x,
        None => {
            return None;
        },
    };
    let (a5, i5) = match read_action(s, i4) {
        Some(x) => x,
        None => {
            return None;
        },
    };
    let j = match read_lit0(s, i5) {
        Some(x) => x,
        None => {
            return None;
        },
    };
    let g = [a1, a2, a3, a4, a5];
    proof {
        assert(g@ =~= seq![a1, a2, a3, a4, a5]);
    }
    Some((g, j))
}

/// Reads the literal terminator token `0` at position `i`.
pub(crate) fn read_lit0(s: &str, i: usize) -> (r: Option<usize>)
    requires
        i <= s@.len(),
        s@.len() <= usize::MAX,
    ensures
        match r {
            Some(j) => spec_lit0_at(s@, i as int) == Some(j as int) && i < j <= s@.len(),
            None => spec_lit0_at(s@, i as int) is None,
        },
{
    let len = s.unicode_len();
    if len - i >= 2 && s.get_char(i) == '0' && s.get_char(i + 1) == ' ' {
        Some(i + 2)
    } else {
        None
    }
}

/// Reads the fill-sentinel token `65535` at position `i`.
pub(crate) fn read_lit_fill(s: &str, i: usize) -> (r: bool)
    requires
        i <= s@.len(),
        s@.len() <= usize::MAX,
    ensures
        r == spec_lit_fill_at(s@, i as int),
{
    let len = s.unicode_len();
    len - i >= 6 && s.get_char(i) == '6' && s.get_char(i + 1) == '5' && s.get_char(i + 2) == '5'
        && s.get_char(i + 3) == '3' && s.get_char(i + 4) == '5' && s.get_char(i + 5) == ' '
}

/// Builds the superkey a five-action group stands for.
pub(crate) fn superkey_of(g: [u16; 5]) -> (k: SuperKey)
    ensures
        k == spec_superkey_of(g@),
{
    SuperKey {
        tap: action_key(g[0]),
        hold: action_key(g[1]),
        tap_hold: action_key(g[2]),
        double_tap: action_key(g[3]),
        double_tap_hold: action_key(g[4]),
    }
}

/// Reads the group list: at least one `0`-closed group, up to and
/// including the map-ending `0` token. Yields the groups, the superkeys
/// they stand for, and the position after the ending token.
pub(crate) fn read_superkey_groups(s: &str) -> (r: Option<(Vec<SuperKey>, Ghost<Seq<Seq<u16>>>, usize)>)
    requires
        s@.len() <= usize::MAX,
    ensures
        match r {
            Some((keys, groups, end)) => spec_superkey_groups(s@) == Some((groups@, end as int))
                && keys@ == groups@.map_values(|g: Seq<u16>| spec_superkey_of(g)) && end <= s@.len(),
            None => spec_superkey_groups(s@) is None,
        },
{
    let (g0, mut i) = match read_group_term(s, 0) {
        Some(x) => x,
        None => {
            return None;
        },
    };
    let mut keys: Vec<SuperKey> = Vec::new();
    keys.push(superkey_of(g0));
    let ghost first: Seq<Seq<u16>> = seq![g0@];
    let mut groups: Ghost<Seq<Seq<u16>>> = Ghost(first);
    proof {
        assert(keys@ =~= first.map_values(|g: Seq<u16>| spec_superkey_of(g)));
    }
    loop
        invariant
            i <= s@.len(),
            s@.len() <= usize::MAX,
            keys@ == groups@.map_values(|g: Seq<u16>| spec_superkey_of(g)),
            spec_groups_tail(s@, i as int) is Some ==> spec_superkey_groups(s@) == Some(
                (
                    groups@ + spec_groups_tail(s@, i as int)->Some_0.0,
                    spec_groups_tail(s@, i as int)->Some_0.1,
                ),
            ),
            spec_groups_tail(s@, i as int) is None ==> spec_superkey_groups(s@) is None,
        decreases s@.len() - i,
    {
        if let Some(j) = read_lit0(s, i) {
            proof {
                assert(spec_groups_tail(s@, i as int) == Some(
                    (Seq::<Seq<u16>>::empty(), j as int),
                ));
                assert(groups@ + Seq::<Seq<u16>>::empty() =~= groups@);
            }
            return Some((keys, groups, j));
        }
        let (g, j) = match read_group_term(s, i) {
            Some(x) => x,
            None => {
                proof {
                    assert(spec_groups_tail(s@, i as int) is None);
                }
                return None;
            },
        };
        keys.push(superkey_of(g));
        proof {
            let old_groups = groups@;
            let tail = spec_groups_tail(s@, j as int);
            assert(spec_groups_tail(s@, i as int) == (match tail {
                Some((gs, k)) => Some((seq![g@] + gs, k)),
                None => None::<(Seq<Seq<u16>>, int)>,
            }));
            if tail is Some {
                let (gs, k) = tail->Some_0;
                assert(old_groups + (seq![g@] + gs) =~= (old_groups + seq![g@]) + gs);
            }
            assert(old_groups.map_values(|g2: Seq<u16>| spec_superkey_of(g2)).push(
                spec_superkey_of(g@),
            ) =~= (old_groups + seq![g@]).map_values(|g2: Seq<u16>| spec_superkey_of(g2)));
        }
        groups = Ghost(groups@ + seq![g@]);
        i = j;
    }
}

impl SuperkeyMap {
    /// Parses superkey map wire data: at least one five-action group,
    /// each closed by `0`, the map closed by one more `0`, and the rest
    /// of the input made of fill-sentinel tokens only.
    pub fn parse(s: &str) -> (r: Result<SuperkeyMap, ParseSuperkeyMapError>)
        requires
            s@.len() <= usize::MAX,
        ensures
            match r {
                Ok(m) => spec_parse_superkey_map(s@) == Some(m.0@),
                Err(_) => spec_parse_superkey_map(s@) is None,
            },
    {
        let (keys, groups, start) = match read_superkey_groups(s) {
            Some(x) => x,
            None => {
                return Err(ParseSuperkeyMapError);
            },
        };
        let len = s.unicode_len();
        let mut i = start;
        while i < len
            invariant
                start <= i <= len,
                len == s@.len(),
                s@.len() <= usize::MAX,
                spec_superkey_groups(s@) == Some((groups@, start as int)),
                keys@ == groups@.map_values(|g: Seq<u16>| spec_superkey_of(g)),
                spec_padding_to_end(s@, start as int) == spec_padding_to_end(s@, i as int),
            decreases len - i,
        {
            if !read_lit_fill(s, i) {
                return Err(ParseSuperkeyMapError);
            }
            i = i + 6;
        }
        Ok(SuperkeyMap(keys))
    }
}

} // verus!
