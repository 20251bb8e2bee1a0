//! Superkey maps in the Focus API's wire form: parsing from the raw
//! memory dump and serialization back to the fixed-capacity command
//! block.

use crate::keycode::KeyKind;
use crate::superkeys::{
    lemma_action_value_round_trip, action_value, read_superkey_groups, spec_action_key,
    spec_action_value, spec_action_wf, spec_superkey_groups, spec_superkey_of,
};
use crate::wire::{join_u16s, spec_join};
use vstd::prelude::*;

verus! {

/// Error when parsing a superkeys map.
#[derive(Clone, Copy, Debug, PartialEq, Eq, Structural)]
pub struct ParseSuperkeyMapError;

impl ParseSuperkeyMapError {
    /// What went wrong, for a reader.
    pub open spec fn spec_message(self) -> Seq<char> {
        "failed to parse superkey map data: expected groups of five superkey actions, each group and the map ended by a `0` token"@
    }

    /// What went wrong, for a reader.
    pub fn message(&self) -> (m: String)
        ensures
            m@ == self.spec_message(),
    {
        "failed to parse superkey map data: expected groups of five superkey actions, each group and the map ended by a `0` token".to_owned()
    }
}

/// Error returned when there are too many superkeys in a [`SuperkeyMap`]
/// and thus, creating the command data would overflow.
#[derive(Clone, Copy, Debug, PartialEq, Eq, Structural)]
pub struct TooManySuperkeysError;

impl TooManySuperkeysError {
    /// What went wrong, for a reader.
    pub open spec fn spec_message(self) -> Seq<char> {
        "too many superkeys: they do not fit the command data's capacity"@
    }

    /// What went wrong, for a reader.
    pub fn message(&self) -> (m: String)
        ensures
            m@ == self.spec_message(),
    {
        "too many superkeys: they do not fit the command data's capacity".to_owned()
    }
}

/// Superkey containing uninterpreted actions.
#[derive(Clone, Copy, Debug, PartialEq, Eq)]
pub struct Superkey {
    /// Action performed when tapping the key.
    pub tap: Option<KeyKind>,
    /// Action performed when holding the key.
    pub hold: Option<KeyKind>,
    /// Action performed when tapping and holding the key.
    pub tap_hold: Option<KeyKind>,
    /// Action performed when double tapping the key.
    pub double_tap: Option<KeyKind>,
    /// Action performed when double tapping and holding the key.
    pub double_tap_hold: Option<KeyKind>,
}

/// Struct containing a list of defined superkeys.
#[derive(Clone, Debug, PartialEq, Eq)]
pub struct SuperkeyMap(pub Vec<Superkey>);

/// The superkey a five-action group stands for.
pub open spec fn spec_superkey_from_group(g: Seq<u16>) -> Superkey {
    Superkey {
        tap: spec_action_key(g[0]),
        hold: spec_action_key(g[1]),
        tap_hold: spec_action_key(g[2]),
        double_tap: spec_action_key(g[3]),
        double_tap_hold: spec_action_key(g[4]),
    }
}

impl Superkey {
    /// Every action of the key is well formed.
    pub open spec fn wf(self) -> bool {
        spec_action_wf(self.tap) && spec_action_wf(self.hold) && spec_action_wf(self.tap_hold)
            && spec_action_wf(self.double_tap) && spec_action_wf(self.double_tap_hold)
    }

    /// The six wire values of this key: five action codes and the `0`
    /// group terminator.
    pub open spec fn spec_wire_values(self) -> Seq<u16> {
        seq![
            spec_action_value(self.tap),
            spec_action_value(self.hold),
            spec_action_value(self.tap_hold),
            spec_action_value(self.double_tap),
            spec_action_value(self.double_tap_hold),
            0u16,
        ]
    }

    /// Converts the key into a form suitable for sending to the
    /// keyboard.
    pub fn to_command_data(&self) -> (r: Vec<u16>)
        requires
            self.wf(),
        ensures
            r@ == self.spec_wire_values(),
    {
        let mut r: Vec<u16> = Vec::new();
        r.push(action_value(self.tap));
        r.push(action_value(self.hold));
        r.push(action_value(self.tap_hold));
        r.push(action_value(self.double_tap));
        r.push(action_value(self.double_tap_hold));
        r.push(0);
        proof {
            assert(r@ =~= self.spec_wire_values());
        }
        r
    }
}

/// Every key of the list is well formed.
pub open spec fn spec_map_wf(keys: Seq<Superkey>) -> bool {
    forall|i: int| 0 <= i < keys.len() ==> (#[trigger] keys[i]).wf()
}

/// The wire values of a key list: six values per key, in order.
pub open spec fn spec_map_wire(keys: Seq<Superkey>) -> Seq<u16>
    decreases keys.len(),
{
    if keys.len() == 0 {
        Seq::empty()
    } else {
        spec_map_wire(keys.drop_last()) + keys.last().spec_wire_values()
    }
}

pub proof fn lemma_map_wire_len(keys: Seq<Superkey>)
    ensures
        spec_map_wire(keys).len() == 6 * keys.len(),
    decreases keys.len(),
{
    if keys.len() > 0 {
        lemma_map_wire_len(keys.drop_last());
    }
}

/// The fixed-capacity command block of a key list: the keys' wire
/// values, the map-ending `0`, and fill sentinels up to the capacity.
/// An empty list still gets the ending `0` before the sentinels.
/// Nothing when the values do not fit the capacity.
pub open spec fn spec_command_values(keys: Seq<Superkey>, capacity: int) -> Option<Seq<u16>> {
    let v = spec_map_wire(keys) + seq![0u16];
    if v.len() > capacity {
        None
    } else {
        Some(v + Seq::new((capacity - v.len()) as nat, |i: int| 65535u16))
    }
}

impl SuperkeyMap {
    /// Parses superkey map wire data: at least one five-action group,
    /// each closed by `0`, the map closed by one more `0`. Whatever
    /// follows the map is ignored as memory filler.
    pub fn parse(s: &str) -> (r: Result<SuperkeyMap, ParseSuperkeyMapError>)
        requires
            s@.len() <= usize::MAX,
        ensures
            match r {
                Ok(m) => spec_superkey_groups(s@) is Some && m.0@ == spec_superkey_groups(
                    s@,
                )->Some_0.0.map_values(|g: Seq<u16>| spec_superkey_from_group(g)),
                Err(_) => spec_superkey_groups(s@) is None,
            },
    {
        let (keys, groups, _) = match read_superkey_groups(s) {
            Some(x) => x,
            None => {
                return Err(ParseSuperkeyMapError);
            },
        };
        let mut out: Vec<Superkey> = Vec::new();
        let mut i: usize = 0;
        while i < keys.len()
            invariant
                i <= keys.len(),
                keys@ == groups@.map_values(|g: Seq<u16>| spec_superkey_of(g)),
                out@ == groups@.subrange(0, i as int).map_values(
                    |g: Seq<u16>| spec_superkey_from_group(g),
                ),
            decreases keys.len() - i,
        {
            let k = &keys[i];
            out.push(
                Superkey {
                    tap: k.tap,
                    hold: k.hold,
                    tap_hold: k.tap_hold,
                    double_tap: k.double_tap,
                    double_tap_hold: k.double_tap_hold,
                },
            );
            i = i + 1;
            proof {
                assert(out@ =~= groups@.subrange(0, i as int).map_values(
                    |g: Seq<u16>| spec_superkey_from_group(g),
                ));
            }
        }
        proof {
            assert(groups@.subrange(0, groups@.len() as int) =~= groups@);
        }
        Ok(SuperkeyMap(out))
    }

    /// Converts the superkey map into a form suitable for sending to
    /// the keyboard as command data: the keys' wire values and the
    /// ending `0`, padded with the fill sentinel to the given capacity.
    /// An empty map is the ending `0` and the padding. Fails, rather
    /// than truncating, when the keys do not fit.
    pub fn to_command_data(&self, capacity: usize) -> (r: Result<
        String,
        TooManySuperkeysError,
    >)
        requires
            spec_map_wf(self.0@),
        ensures
            match r {
                Ok(out) => spec_command_values(self.0@, capacity as int) is Some && out@
                    == spec_join(spec_command_values(self.0@, capacity as int)->Some_0),
                Err(_) => spec_command_values(self.0@, capacity as int) is None,
            },
    {
        let mut v: Vec<u16> = Vec::new();
        let mut i: usize = 0;
        while i < self.0.len()
            invariant
                i <= self.0@.len(),
                spec_map_wf(self.0@),
                v@ == spec_map_wire(self.0@.subrange(0, i as int)),
            decreases self.0@.len() - i,
        {
            let mut six = self.0[i].to_command_data();
            v.append(&mut six);
            i = i + 1;
            proof {
                let pre = self.0@.subrange(0, i as int);
                assert(pre.drop_last() =~= self.0@.subrange(0, i - 1 as int));
            }
        }
        proof {
            assert(self.0@.subrange(0, self.0@.len() as int) =~= self.0@);
        }
        v.push(0);
        let ghost content = spec_map_wire(self.0@) + seq![0u16];
        proof {
            assert(v@ =~= content);
        }
        if v.len() > capacity {
            return Err(TooManySuperkeysError);
        }
        while v.len() < capacity
            invariant
                content.len() <= v@.len() <= capacity,
                v@ =~= content + Seq::new((v@.len() - content.len()) as nat, |i: int| 65535u16),
            decreases capacity - v@.len(),
        {
            v.push(65535);
            proof {
                assert(v@ =~= content + Seq::new(
                    (v@.len() - content.len()) as nat,
                    |i: int| 65535u16,
                ));
            }
        }
        Ok(join_u16s(&v))
    }
}

/// The groups' wire form flattened back: each five-value group followed
/// by its `0` terminator.
pub open spec fn spec_flat_groups(groups: Seq<Seq<u16>>) -> Seq<u16>
    decreases groups.len(),
{
    if groups.len() == 0 {
        Seq::empty()
    } else {
        spec_flat_groups(groups.drop_last()) + groups.last() + seq![0u16]
    }
}

/// Superkey round trip, one key: serializing the superkey a group
/// stands for restores the group's five values and its terminator,
/// whenever no value is the bare `0` code.
pub proof fn lemma_superkey_wire_round_trip(g: Seq<u16>)
    requires
        g.len() == 5,
        forall|t: int| 0 <= t < 5 ==> g[t] != 0,
    ensures
        spec_superkey_from_group(g).wf(),
        spec_superkey_from_group(g).spec_wire_values() == g + seq![0u16],
{
    lemma_action_value_round_trip(g[0]);
    lemma_action_value_round_trip(g[1]);
    lemma_action_value_round_trip(g[2]);
    lemma_action_value_round_trip(g[3]);
    lemma_action_value_round_trip(g[4]);
    assert(spec_superkey_from_group(g).spec_wire_values() =~= g + seq![0u16]);
}

/// Superkey round trip: parsing a wire block into groups and
/// re-serializing the superkeys they stand for restores every group
/// value and terminator, whenever no action slot holds the bare `0`
/// code. With the ending `0` and the sentinel padding, the whole
/// re-serialized block then matches the parsed one up to its trailer.
#[verifier::rlimit(100)]
pub proof fn lemma_superkey_map_round_trip(groups: Seq<Seq<u16>>)
    requires
        forall|i: int| 0 <= i < groups.len() ==> (#[trigger] groups[i]).len() == 5,
        forall|i: int, t: int| 0 <= i < groups.len() && 0 <= t < 5 ==> (#[trigger] groups[i][t])
            != 0,
    ensures
        spec_map_wf(groups.map_values(|g: Seq<u16>| spec_superkey_from_group(g))),
        spec_map_wire(groups.map_values(|g: Seq<u16>| spec_superkey_from_group(g)))
            == spec_flat_groups(groups),
    decreases groups.len(),
{
    let keys = groups.map_values(|g: Seq<u16>| spec_superkey_from_group(g));
    if groups.len() == 0 {
        assert(spec_map_wire(keys) =~= spec_flat_groups(groups));
    } else {
        let n = groups.len();
        lemma_superkey_map_round_trip(groups.drop_last());
        lemma_superkey_wire_round_trip(groups.last());
        let tail_keys = groups.drop_last().map_values(|g: Seq<u16>| spec_superkey_from_group(g));
        assert(keys.drop_last() =~= tail_keys);
        assert(keys.last() == spec_superkey_from_group(groups.last()));
        assert(spec_map_wire(keys) == spec_map_wire(tail_keys) + keys.last().spec_wire_values());
        assert(spec_map_wire(keys) =~= spec_flat_groups(groups.drop_last()) + groups.last() + seq![
            0u16,
        ]);
        assert forall|i: int| 0 <= i < n implies (#[trigger] keys[i]).wf() by {
            if i < n - 1 {
                assert(keys[i] == tail_keys[i]);
            } else {
                assert(keys[i] == keys.last());
            }
        }
    }
}

} // verus!
