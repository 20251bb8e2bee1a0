//! The Defy keyboard's keymap and superkey map: the structured,
//! human-editable form of the flat wire data, and the conversions in
//! both directions.

use crate::focus::RunCommandError;
use crate::keycode::{
    decode, encode, lemma_code_round_trip, spec_decode, spec_encode, KeyKind,
};
use crate::superkeys::{
    action_value, read_superkey_groups, spec_action_key, spec_action_value, spec_action_wf,
    spec_superkey_groups,
};
use crate::wire::{parse_u16_list, spec_u16_list};
use vstd::prelude::*;

verus! {

/// Number of keys per layer in the wire format.
pub const KEYS_PER_LAYER: usize = 80;

/// Number of layers in a `keymap.custom` command.
pub const KEYMAP_CUSTOM_COMMAND_LAYERS: usize = 10;

/// Error when parsing a keymap from a string slice.
#[derive(Clone, Copy, Debug, PartialEq, Eq, Structural)]
pub struct ParseKeymapError;

impl ParseKeymapError {
    /// What went wrong, for a reader.
    pub open spec fn spec_message(self) -> Seq<char> {
        "failed to parse keymap: expected blank-separated decimal 16-bit codes, an exact multiple of 80 of them"@
    }

    /// What went wrong, for a reader.
    pub fn message(&self) -> (m: String)
        ensures
            m@ == self.spec_message(),
    {
        "failed to parse keymap: expected blank-separated decimal 16-bit codes, an exact multiple of 80 of them".to_owned()
    }
}

/// Error when parsing a superkey map from a string slice.
#[derive(Clone, Copy, Debug, PartialEq, Eq, Structural)]
pub struct ParseSuperkeyMapError;

impl ParseSuperkeyMapError {
    /// What went wrong, for a reader.
    pub open spec fn spec_message(self) -> Seq<char> {
        "failed to parse superkeys map: expected groups of five superkey actions, each group and the map ended by a `0` token"@
    }

    /// What went wrong, for a reader.
    pub fn message(&self) -> (m: String)
        ensures
            m@ == self.spec_message(),
    {
        "failed to parse superkeys map: expected groups of five superkey actions, each group and the map ended by a `0` token".to_owned()
    }
}

/// Error returned when there are not exactly 10 layers in a
/// [`DefyKeymap`], as creating the command data requires.
#[derive(Clone, Copy, Debug, PartialEq, Eq, Structural)]
pub struct KeymapDoesNotHave10LayersError;

impl KeymapDoesNotHave10LayersError {
    /// What went wrong, for a reader.
    pub open spec fn spec_message(self) -> Seq<char> {
        "keymap does not have exactly 10 layers"@
    }

    /// What went wrong, for a reader.
    pub fn message(&self) -> (m: String)
        ensures
            m@ == self.spec_message(),
    {
        "keymap does not have exactly 10 layers".to_owned()
    }
}

/// Error returned when there are too many superkeys in a
/// [`SuperkeyMap`] and thus, creating the command data would overflow.
#[derive(Clone, Copy, Debug, PartialEq, Eq, Structural)]
pub struct TooManySuperkeysError;

impl TooManySuperkeysError {
    /// What went wrong, for a reader.
    pub open spec fn spec_message(self) -> Seq<char> {
        "too many superkeys: they do not fit the 512-slot memory region"@
    }

    /// What went wrong, for a reader.
    pub fn message(&self) -> (m: String)
        ensures
            m@ == self.spec_message(),
    {
        "too many superkeys: they do not fit the 512-slot memory region".to_owned()
    }
}

/// Error returned when applying a custom keymap to the keyboard.
#[derive(Clone, Debug, PartialEq, Eq)]
pub enum ApplyCustomKeymapError {
    /// 10 layers are required, but this keymap has a different number
    /// of them.
    IncorrectNumberOfLayers(KeymapDoesNotHave10LayersError),
    /// Command failed to run.
    CommandFailed(RunCommandError),
}

/// Error returned when reading the custom keymap from the keyboard.
#[derive(Clone, Debug, PartialEq, Eq)]
pub enum GetCustomKeymapError {
    /// Failed to run command.
    CommandFailed(RunCommandError),
    /// Keymap returned by the keyboard failed to parse.
    KeymapParsingFailure(ParseKeymapError),
}

/// Error returned when reading the superkey map from the keyboard.
#[derive(Clone, Debug, PartialEq, Eq)]
pub enum GetSuperkeyMapError {
    /// Failed to run command.
    CommandFailed(RunCommandError),
    /// Superkey map returned by the keyboard failed to parse.
    KeymapParsingFailure(ParseSuperkeyMapError),
}

/// Error returned when applying a superkey map to the keyboard.
#[derive(Clone, Debug, PartialEq, Eq)]
pub enum ApplySuperkeyError {
    /// Too many superkeys were used.
    TooManySuperkeys(TooManySuperkeysError),
    /// Command failed to run.
    CommandFailed(RunCommandError),
}

/// Structure representing the physical layout of the Defy keyboard:
/// the flat-array offset of every logical key position.
#[derive(Clone, Copy, Debug, PartialEq, Eq)]
pub struct DefyLayout {
    /// Left half of the keyboard.
    pub left: DefyLayoutHalf,
    /// Right half of the keyboard.
    pub right: DefyLayoutHalf,
}

/// One half layout of the Defy keyboard.
#[derive(Clone, Copy, Debug, PartialEq, Eq)]
pub struct DefyLayoutHalf {
    /// Row 1 key offsets.
    pub row_1: [u8; 7],
    /// Row 2 key offsets.
    pub row_2: [u8; 7],
    /// Row 3 key offsets.
    pub row_3: [u8; 7],
    /// Row 4 key offsets.
    pub row_4: [u8; 6],
    /// Thumb cluster layout.
    pub thumb_cluster: DefyThumbClusterLayout,
}

/// Thumb cluster layout of the Defy keyboard.
#[derive(Clone, Copy, Debug, PartialEq, Eq)]
pub struct DefyThumbClusterLayout {
    /// The top 4 keys of the thumb cluster.
    pub top: [u8; 4],
    /// The bottom 4 keys of the thumb cluster.
    pub bottom: [u8; 4],
}

impl DefyLayout {
    /// The Defy keymap layout: where each logical position stands in
    /// one layer's flat array of 80 codes.
    pub fn defy() -> (l: DefyLayout)
        ensures
            l.left.row_1@ == seq![0u8, 1, 2, 3, 4, 5, 6],
            l.left.row_2@ == seq![16u8, 17, 18, 19, 20, 21, 22],
            l.left.row_3@ == seq![32u8, 33, 34, 35, 36, 37, 38],
            l.left.row_4@ == seq![48u8, 49, 50, 51, 52, 53],
            l.left.thumb_cluster.top@ == seq![64u8, 65, 66, 67],
            l.left.thumb_cluster.bottom@ == seq![71u8, 70, 69, 68],
            l.right.row_1@ == seq![9u8, 10, 11, 12, 13, 14, 15],
            l.right.row_2@ == seq![25u8, 26, 27, 28, 29, 30, 31],
            l.right.row_3@ == seq![41u8, 42, 43, 44, 45, 46, 47],
            l.right.row_4@ == seq![58u8, 59, 60, 61, 62, 63],
            l.right.thumb_cluster.top@ == seq![76u8, 77, 78, 79],
            l.right.thumb_cluster.bottom@ == seq![75u8, 74, 73, 72],
    {
        let l = DefyLayout {
            left: DefyLayoutHalf {
                row_1: [0, 1, 2, 3, 4, 5, 6],
                row_2: [16, 17, 18, 19, 20, 21, 22],
                row_3: [32, 33, 34, 35, 36, 37, 38],
                row_4: [48, 49, 50, 51, 52, 53],
                thumb_cluster: DefyThumbClusterLayout {
                    top: [64, 65, 66, 67],
                    bottom: [71, 70, 69, 68],
                },
            },
            right: DefyLayoutHalf {
                row_1: [9, 10, 11, 12, 13, 14, 15],
                row_2: [25, 26, 27, 28, 29, 30, 31],
                row_3: [41, 42, 43, 44, 45, 46, 47],
                row_4: [58, 59, 60, 61, 62, 63],
                thumb_cluster: DefyThumbClusterLayout {
                    top: [76, 77, 78, 79],
                    bottom: [75, 74, 73, 72],
                },
            },
        };
        proof {
            assert(l.left.row_1@ =~= seq![0u8, 1, 2, 3, 4, 5, 6]);
            assert(l.left.row_2@ =~= seq![16u8, 17, 18, 19, 20, 21, 22]);
            assert(l.left.row_3@ =~= seq![32u8, 33, 34, 35, 36, 37, 38]);
            assert(l.left.row_4@ =~= seq![48u8, 49, 50, 51, 52, 53]);
            assert(l.left.thumb_cluster.top@ =~= seq![64u8, 65, 66, 67]);
            assert(l.left.thumb_cluster.bottom@ =~= seq![71u8, 70, 69, 68]);
            assert(l.right.row_1@ =~= seq![9u8, 10, 11, 12, 13, 14, 15]);
            assert(l.right.row_2@ =~= seq![25u8, 26, 27, 28, 29, 30, 31]);
            assert(l.right.row_3@ =~= seq![41u8, 42, 43, 44, 45, 46, 47]);
            assert(l.right.row_4@ =~= seq![58u8, 59, 60, 61, 62, 63]);
            assert(l.right.thumb_cluster.top@ =~= seq![76u8, 77, 78, 79]);
            assert(l.right.thumb_cluster.bottom@ =~= seq![75u8, 74, 73, 72]);
        }
        l
    }
}

/// The flat offsets the layout covers: 70 of one layer's 80 slots. The
/// other ten slots are padding the structured form does not keep.
pub open spec fn covered(o: int) -> bool {
    (0 <= o <= 6) || (9 <= o <= 22) || (25 <= o <= 38) || (41 <= o <= 53) || (58 <= o <= 79)
}

/// Left half human-readable Defy keymap.
#[derive(Clone, Copy, Debug, PartialEq, Eq)]
pub struct DefyKeymapLeft {
    /// Row 1.
    pub row_1: [KeyKind; 7],
    /// Row 2.
    pub row_2: [KeyKind; 7],
    /// Row 3.
    pub row_3: [KeyKind; 7],
    /// Row 4.
    pub row_4: [KeyKind; 6],
    /// Thumb cluster.
    pub thumb_cluster: DefyThumbclusterKeymapLeft,
}

/// Left Defy thumb cluster keymap.
#[derive(Clone, Copy, Debug, PartialEq, Eq)]
pub struct DefyThumbclusterKeymapLeft {
    /// The top four keys of the thumb cluster, from left to right.
    pub top: [KeyKind; 4],
    /// The bottom four keys of the thumb cluster, from left to right.
    pub bottom: [KeyKind; 4],
}

/// Right half human-readable Defy keymap.
#[derive(Clone, Copy, Debug, PartialEq, Eq)]
pub struct DefyKeymapRight {
    /// Row 1.
    pub row_1: [KeyKind; 7],
    /// Row 2.
    pub row_2: [KeyKind; 7],
    /// Row 3.
    pub row_3: [KeyKind; 7],
    /// Row 4.
    pub row_4: [KeyKind; 6],
    /// Thumb cluster.
    pub thumb_cluster: DefyThumbclusterKeymapRight,
}

/// Right Defy thumb cluster keymap.
#[derive(Clone, Copy, Debug, PartialEq, Eq)]
pub struct DefyThumbclusterKeymapRight {
    /// The top four keys of the thumb cluster, from left to right.
    pub top: [KeyKind; 4],
    /// The bottom four keys of the thumb cluster, from left to right.
    pub bottom: [KeyKind; 4],
}

/// A single human-readable Defy layer.
#[derive(Clone, Copy, Debug, PartialEq, Eq)]
pub struct DefyKeymapLayer {
    /// A human-readable label for knowing what layer is edited in a
    /// config file. Only a reading aid: conversions ignore it.
    pub layer_number: u8,
    /// Left half of the keyboard.
    pub left: DefyKeymapLeft,
    /// Right half of the keyboard.
    pub right: DefyKeymapRight,
}

impl DefyKeymapLayer {
    /// The key standing at a covered flat offset; nothing at a padding
    /// offset.
    pub open spec fn spec_key_at(self, o: int) -> Option<KeyKind> {
        if 0 <= o <= 6 {
            Some(self.left.row_1[o])
        } else if 9 <= o <= 15 {
            Some(self.right.row_1[o - 9])
        } else if 16 <= o <= 22 {
            Some(self.left.row_2[o - 16])
        } else if 25 <= o <= 31 {
            Some(self.right.row_2[o - 25])
        } else if 32 <= o <= 38 {
            Some(self.left.row_3[o - 32])
        } else if 41 <= o <= 47 {
            Some(self.right.row_3[o - 41])
        } else if 48 <= o <= 53 {
            Some(self.left.row_4[o - 48])
        } else if 58 <= o <= 63 {
            Some(self.right.row_4[o - 58])
        } else if 64 <= o <= 67 {
            Some(self.left.thumb_cluster.top[o - 64])
        } else if 68 <= o <= 71 {
            Some(self.left.thumb_cluster.bottom[71 - o])
        } else if 72 <= o <= 75 {
            Some(self.right.thumb_cluster.bottom[75 - o])
        } else if 76 <= o <= 79 {
            Some(self.right.thumb_cluster.top[o - 76])
        } else {
            None
        }
    }

    /// Every key of the layer is well formed.
    pub open spec fn wf(self) -> bool {
        forall|o: int| covered(o) ==> (#[trigger] self.spec_key_at(o))->Some_0.wf()
    }

    /// The layer decodes the given 80 codes: every covered offset holds
    /// the decoded key of its code.
    pub open spec fn matches_codes(self, codes: Seq<u16>) -> bool {
        forall|o: int| 0 <= o < 80 ==> #[trigger] self.spec_key_at(o) == (if covered(o) {
            Some(spec_decode(codes[o]))
        } else {
            None::<KeyKind>
        })
    }

    /// Decodes one layer from 80 codes of wire data.
    #[verifier::rlimit(100)]
    pub fn from_layer_data(data: &Vec<u16>, base: usize) -> (l: DefyKeymapLayer)
        requires
            base + 80 <= data@.len(),
        ensures
            l.layer_number == 0,
            l.matches_codes(data@.subrange(base as int, base + 80)),
            l.wf(),
    {
        let n = data.len();
        let l = DefyKeymapLayer {
            layer_number: 0,
            left: DefyKeymapLeft {
                row_1: [
                    decode(data[base]),
                    decode(data[base + 1]),
                    decode(data[base + 2]),
                    decode(data[base + 3]),
                    decode(data[base + 4]),
                    decode(data[base + 5]),
                    decode(data[base + 6]),
                ],
                row_2: [
                    decode(data[base + 16]),
                    decode(data[base + 17]),
                    decode(data[base + 18]),
                    decode(data[base + 19]),
                    decode(data[base + 20]),
                    decode(data[base + 21]),
                    decode(data[base + 22]),
                ],
                row_3: [
                    decode(data[base + 32]),
                    decode(data[base + 33]),
                    decode(data[base + 34]),
                    decode(data[base + 35]),
                    decode(data[base + 36]),
                    decode(data[base + 37]),
                    decode(data[base + 38]),
                ],
                row_4: [
                    decode(data[base + 48]),
                    decode(data[base + 49]),
                    decode(data[base + 50]),
                    decode(data[base + 51]),
                    decode(data[base + 52]),
                    decode(data[base + 53]),
                ],
                thumb_cluster: DefyThumbclusterKeymapLeft {
                    top: [
                        decode(data[base + 64]),
                        decode(data[base + 65]),
                        decode(data[base + 66]),
                        decode(data[base + 67]),
                    ],
                    bottom: [
                        decode(data[base + 71]),
                        decode(data[base + 70]),
                        decode(data[base + 69]),
                        decode(data[base + 68]),
                    ],
                },
            },
            right: DefyKeymapRight {
                row_1: [
                    decode(data[base + 9]),
                    decode(data[base + 10]),
                    decode(data[base + 11]),
                    decode(data[base + 12]),
                    decode(data[base + 13]),
                    decode(data[base + 14]),
                    decode(data[base + 15]),
                ],
                row_2: [
                    decode(data[base + 25]),
                    decode(data[base + 26]),
                    decode(data[base + 27]),
                    decode(data[base + 28]),
                    decode(data[base + 29]),
                    decode(data[base + 30]),
                    decode(data[base + 31]),
                ],
                row_3: [
                    decode(data[base + 41]),
                    decode(data[base + 42]),
                    decode(data[base + 43]),
                    decode(data[base + 44]),
                    decode(data[base + 45]),
                    decode(data[base + 46]),
                    decode(data[base + 47]),
                ],
                row_4: [
                    decode(data[base + 58]),
                    decode(data[base + 59]),
                    decode(data[base + 60]),
                    decode(data[base + 61]),
                    decode(data[base + 62]),
                    decode(data[base + 63]),
                ],
                thumb_cluster: DefyThumbclusterKeymapRight {
                    top: [
                        decode(data[base + 76]),
                        decode(data[base + 77]),
                        decode(data[base + 78]),
                        decode(data[base + 79]),
                    ],
                    bottom: [
                        decode(data[base + 75]),
                        decode(data[base + 74]),
                        decode(data[base + 73]),
                        decode(data[base + 72]),
                    ],
                },
            },
        };
        proof {
            let codes = data@.subrange(base as int, base + 80);
            assert forall|o: int| 0 <= o < 80 implies #[trigger] l.spec_key_at(o) == (if covered(o) {
                Some(spec_decode(codes[o]))
            } else {
                None::<KeyKind>
            }) by {
                assert(codes[o] == data@[base + o]);
            }
        }
        l
    }

    /// Gets the key at a flat offset. The board has 70 keys in an
    /// 80-slot layer, so some offsets hold only padding and yield
    /// nothing.
    pub fn get_key_by_index(&self, index: u8) -> (r: Option<KeyKind>)
        ensures
            r == self.spec_key_at(index as int),
    {
        let o = index as usize;
        if o <= 6 {
            Some(self.left.row_1[o])
        } else if 9 <= o && o <= 15 {
            Some(self.right.row_1[o - 9])
        } else if 16 <= o && o <= 22 {
            Some(self.left.row_2[o - 16])
        } else if 25 <= o && o <= 31 {
            Some(self.right.row_2[o - 25])
        } else if 32 <= o && o <= 38 {
            Some(self.left.row_3[o - 32])
        } else if 41 <= o && o <= 47 {
            Some(self.right.row_3[o - 41])
        } else if 48 <= o && o <= 53 {
            Some(self.left.row_4[o - 48])
        } else if 58 <= o && o <= 63 {
            Some(self.right.row_4[o - 58])
        } else if 64 <= o && o <= 67 {
            Some(self.left.thumb_cluster.top[o - 64])
        } else if 68 <= o && o <= 71 {
            Some(self.left.thumb_cluster.bottom[71 - o])
        } else if 72 <= o && o <= 75 {
            Some(self.right.thumb_cluster.bottom[75 - o])
        } else if 76 <= o && o <= 79 {
            Some(self.right.thumb_cluster.top[o - 76])
        } else {
            None
        }
    }

    /// The code a slot serializes to: the key's code at a covered
    /// offset, nothing at a padding offset.
    pub open spec fn spec_slot(self, o: int) -> Option<u16> {
        match self.spec_key_at(o) {
            Some(k) => Some(spec_encode(k) as u16),
            None => None,
        }
    }

    /// Converts this layer into one layer's worth of keymap command
    /// data. Padding offsets yield nothing: the structured form cannot
    /// know what the device held there, and the caller picks the
    /// placeholder.
    pub fn to_keymap_data(&self) -> (r: Vec<Option<u16>>)
        requires
            self.wf(),
        ensures
            r@.len() == 80,
            forall|o: int| 0 <= o < 80 ==> #[trigger] r@[o] == self.spec_slot(o),
    {
        let mut r: Vec<Option<u16>> = Vec::new();
        let mut o: usize = 0;
        while o < 80
            invariant
                o <= 80,
                self.wf(),
                r@.len() == o,
                forall|p: int| 0 <= p < o ==> #[trigger] r@[p] == self.spec_slot(p),
            decreases 80 - o,
        {
            let slot = match self.get_key_by_index(o as u8) {
                Some(k) => Some(encode(k)),
                None => None,
            };
            r.push(slot);
            o = o + 1;
        }
        r
    }
}

/// Full Defy keymap.
#[derive(Clone, Debug, PartialEq, Eq)]
pub struct DefyKeymap(pub Vec<DefyKeymapLayer>);

impl DefyKeymap {
    /// Every layer of the keymap is well formed.
    pub open spec fn wf(self) -> bool {
        forall|l: int| 0 <= l < self.0@.len() ==> (#[trigger] self.0@[l]).wf()
    }

    /// The keymap decodes the given wire values, layer by layer.
    pub open spec fn matches_codes(self, codes: Seq<u16>) -> bool {
        &&& self.0@.len() * 80 == codes.len()
        &&& forall|l: int| 0 <= l < self.0@.len() ==> (#[trigger] self.0@[l]).matches_codes(
            codes.subrange(80 * l, 80 * l + 80),
        )
    }

    /// Parses a keymap from wire data: space-separated decimal 16-bit
    /// codes whose count must be an exact multiple of 80, one group of
    /// 80 per layer. Fails on any other content or count.
    pub fn parse(s: &str) -> (r: Result<DefyKeymap, ParseKeymapError>)
        requires
            s@.len() <= usize::MAX,
        ensures
            match r {
                Ok(km) => spec_u16_list(s@) is Some && spec_u16_list(s@)->Some_0.len() % 80 == 0
                    && km.matches_codes(spec_u16_list(s@)->Some_0) && km.wf() && (forall|l: int|
                    0 <= l < km.0@.len() ==> (#[trigger] km.0@[l]).layer_number == 0),
                Err(_) => spec_u16_list(s@) is None || spec_u16_list(s@)->Some_0.len() % 80 != 0,
            },
    {
        let data = match parse_u16_list(s) {
            Some(d) => d,
            None => {
                return Err(ParseKeymapError);
            },
        };
        if data.len() % 80 != 0 {
            return Err(ParseKeymapError);
        }
        let n = data.len() / 80;
        let mut layers: Vec<DefyKeymapLayer> = Vec::new();
        let mut l: usize = 0;
        while l < n
            invariant
                l <= n,
                n * 80 == data@.len(),
                data@.len() <= usize::MAX,
                layers@.len() == l,
                forall|p: int| 0 <= p < l ==> (#[trigger] layers@[p]).matches_codes(
                    data@.subrange(80 * p, 80 * p + 80),
                ),
                forall|p: int| 0 <= p < l ==> (#[trigger] layers@[p]).wf(),
                forall|p: int| 0 <= p < l ==> (#[trigger] layers@[p]).layer_number == 0,
            decreases n - l,
        {
            proof {
                assert((l as int) * 80 + 80 <= (n as int) * 80) by (nonlinear_arith)
                    requires
                        (l as int) < (n as int),
                        0 <= (l as int),
                ;
            }
            let layer = DefyKeymapLayer::from_layer_data(&data, l * 80);
            proof {
                assert(data@.subrange(l * 80, l * 80 + 80) =~= data@.subrange(
                    80 * (l as int),
                    80 * (l as int) + 80,
                ));
            }
            layers.push(layer);
            l = l + 1;
        }
        Ok(DefyKeymap(layers))
    }

    /// Converts this keymap into the data of a `keymap.custom` command:
    /// 800 slots, one per key position of the ten layers. A slot at a
    /// padding offset yields nothing; see
    /// [`DefyKeymapLayer::to_keymap_data`].
    pub fn to_keymap_custom_data(&self) -> (r: Result<
        Vec<Option<u16>>,
        KeymapDoesNotHave10LayersError,
    >)
        requires
            self.wf(),
        ensures
            match r {
                Ok(d) => self.0@.len() == 10 && d@.len() == 800 && (forall|l: int, o: int|
                    0 <= l < 10 && 0 <= o < 80 ==> d@[80 * l + o] == (#[trigger] self.0@[l].spec_slot(
                        o,
                    ))),
                Err(_) => self.0@.len() != 10,
            },
    {
        if self.0.len() != 10 {
            return Err(KeymapDoesNotHave10LayersError);
        }
        let mut d: Vec<Option<u16>> = Vec::new();
        let mut l: usize = 0;
        while l < 10
            invariant
                l <= 10,
                self.0@.len() == 10,
                self.wf(),
                d@.len() == 80 * l,
                forall|p: int, o: int| 0 <= p < l && 0 <= o < 80 ==> d@[80 * p + o] == (
                #[trigger] self.0@[p].spec_slot(o)),
            decreases 10 - l,
        {
            let mut one = self.0[l].to_keymap_data();
            d.append(&mut one);
            l = l + 1;
        }
        Ok(d)
    }

    /// Serializes this keymap to the 800 wire codes of a `keymap.custom`
    /// command, filling the padding offsets, which the structured form
    /// does not keep, with the given placeholder code.
    pub fn serialize(&self, placeholder: u16) -> (r: Result<
        Vec<u16>,
        KeymapDoesNotHave10LayersError,
    >)
        requires
            self.wf(),
        ensures
            match r {
                Ok(d) => self.0@.len() == 10 && d@.len() == 800 && (forall|l: int, o: int|
                    0 <= l < 10 && 0 <= o < 80 ==> d@[80 * l + o] == (match (
                    #[trigger] self.0@[l].spec_slot(o)) {
                        Some(v) => v,
                        None => placeholder,
                    })),
                Err(_) => self.0@.len() != 10,
            },
    {
        let slots = match self.to_keymap_custom_data() {
            Ok(s) => s,
            Err(e) => {
                return Err(e);
            },
        };
        let mut d: Vec<u16> = Vec::new();
        let mut i: usize = 0;
        while i < slots.len()
            invariant
                i <= slots@.len(),
                d@.len() == i,
                forall|p: int| 0 <= p < i ==> #[trigger] d@[p] == (match slots@[p] {
                    Some(v) => v,
                    None => placeholder,
                }),
            decreases slots@.len() - i,
        {
            let v = match slots[i] {
                Some(v) => v,
                None => placeholder,
            };
            d.push(v);
            i = i + 1;
        }
        proof {
            assert forall|l: int, o: int| 0 <= l < 10 && 0 <= o < 80 implies d@[80 * l + o] == (
            match (#[trigger] self.0@[l].spec_slot(o)) {
                Some(v) => v,
                None => placeholder,
            }) by {
                assert(slots@[80 * l + o] == self.0@[l].spec_slot(o));
            }
        }
        Ok(d)
    }
}

/// Represents a single superkey.
#[derive(Clone, Copy, Debug, PartialEq, Eq)]
pub struct Superkey {
    /// User-facing ID that makes superkey listings easier to read.
    /// Only a reading aid: conversions to wire data ignore it.
    pub macro_number: u8,
    /// Action performed when the key is tapped.
    pub tap: Option<KeyKind>,
    /// Action performed when the key is held.
    pub hold: Option<KeyKind>,
    /// Action performed when the key is tapped and held.
    pub tap_hold: Option<KeyKind>,
    /// Action performed when the key is double tapped.
    pub double_tap: Option<KeyKind>,
    /// Action performed when the key is double tapped and held.
    pub double_tap_hold: Option<KeyKind>,
}

/// Holds a superkey map.
#[derive(Clone, Debug, PartialEq, Eq)]
pub struct SuperkeyMap(pub Vec<Superkey>);

/// The superkey a five-action group stands for, numbered for reading.
pub open spec fn spec_numbered_superkey(g: Seq<u16>, n: u8) -> Superkey {
    Superkey {
        macro_number: n,
        tap: spec_action_key(g[0]),
        hold: spec_action_key(g[1]),
        tap_hold: spec_action_key(g[2]),
        double_tap: spec_action_key(g[3]),
        double_tap_hold: spec_action_key(g[4]),
    }
}

impl Superkey {
    /// Every action of the key is well formed.
    pub open spec fn wf(self) -> bool {
        spec_action_wf(self.tap) && spec_action_wf(self.hold) && spec_action_wf(self.tap_hold)
            && spec_action_wf(self.double_tap) && spec_action_wf(self.double_tap_hold)
    }

    /// The six wire values of this key: five action codes and the `0`
    /// group terminator.
    pub open spec fn spec_wire_values(self) -> Seq<u16> {
        seq![
            spec_action_value(self.tap),
            spec_action_value(self.hold),
            spec_action_value(self.tap_hold),
            spec_action_value(self.double_tap),
            spec_action_value(self.double_tap_hold),
            0u16,
        ]
    }

    /// Converts this key into a form suitable for sending to the
    /// keyboard.
    pub fn to_superkey_map_data(&self) -> (r: Vec<u16>)
        requires
            self.wf(),
        ensures
            r@ == self.spec_wire_values(),
    {
        let mut r: Vec<u16> = Vec::new();
        r.push(action_value(self.tap));
        r.push(action_value(self.hold));
        r.push(action_value(self.tap_hold));
        r.push(action_value(self.double_tap));
        r.push(action_value(self.double_tap_hold));
        r.push(0);
        proof {
            assert(r@ =~= self.spec_wire_values());
        }
        r
    }
}

/// Every key of the list is well formed.
pub open spec fn spec_superkey_map_wf(keys: Seq<Superkey>) -> bool {
    forall|i: int| 0 <= i < keys.len() ==> (#[trigger] keys[i]).wf()
}

/// The wire values of a key list: six values per key, in order.
pub open spec fn spec_superkey_map_wire(keys: Seq<Superkey>) -> Seq<u16>
    decreases keys.len(),
{
    if keys.len() == 0 {
        Seq::empty()
    } else {
        spec_superkey_map_wire(keys.drop_last()) + keys.last().spec_wire_values()
    }
}

/// The 512-slot superkey memory block of a key list: the keys' wire
/// values, the map-ending `0`, and fill sentinels up to slot 512.
/// Nothing when the values do not fit.
pub open spec fn spec_superkey_map_data(keys: Seq<Superkey>) -> Option<Seq<u16>> {
    let v = spec_superkey_map_wire(keys) + seq![0u16];
    if v.len() > 512 {
        None
    } else {
        Some(v + Seq::new((512 - v.len()) as nat, |i: int| 65535u16))
    }
}

impl SuperkeyMap {
    /// Parses superkey map wire data as the keyboard dumps it: at least
    /// one five-action group, each closed by `0`, the map closed by one
    /// more `0`. Whatever follows is ignored as memory filler. The keys
    /// are numbered 1, 2, ... for reading.
    pub fn parse(s: &str) -> (r: Result<SuperkeyMap, ParseSuperkeyMapError>)
        requires
            s@.len() <= usize::MAX,
        ensures
            match r {
                Ok(m) => spec_superkey_groups(s@) is Some && m.0@.len() == spec_superkey_groups(
                    s@,
                )->Some_0.0.len() && (forall|i: int| 0 <= i < m.0@.len() ==> #[trigger] m.0@[i]
                    == spec_numbered_superkey(
                    spec_superkey_groups(s@)->Some_0.0[i],
                    (((i + 1) % 256) as u8),
                )),
                Err(_) => spec_superkey_groups(s@) is None,
            },
    {
        let (keys, groups, _) = match read_superkey_groups(s) {
            Some(x) => x,
            None => {
                return Err(ParseSuperkeyMapError);
            },
        };
        let mut out: Vec<Superkey> = Vec::new();
        let mut i: usize = 0;
        while i < keys.len()
            invariant
                i <= keys.len(),
                keys@ == groups@.map_values(
                    |g: Seq<u16>| crate::superkeys::spec_superkey_of(g),
                ),
                out@.len() == i,
                forall|p: int| 0 <= p < i ==> #[trigger] out@[p] == spec_numbered_superkey(
                    groups@[p],
                    (((p + 1) % 256) as u8),
                ),
            decreases keys.len() - i,
        {
            let k = &keys[i];
            let n: u8 = ((i + 1) % 256) as u8;
            out.push(
                Superkey {
                    macro_number: n,
                    tap: k.tap,
                    hold: k.hold,
                    tap_hold: k.tap_hold,
                    double_tap: k.double_tap,
                    double_tap_hold: k.double_tap_hold,
                },
            );
            i = i + 1;
        }
        Ok(SuperkeyMap(out))
    }

    /// Converts this map into the 512 wire values of the keyboard's
    /// superkey memory region: six values per key, the map-ending `0`,
    /// and the fill sentinel up to slot 512. Fails, rather than
    /// truncating, when the keys do not fit.
    pub fn to_superkey_map_data(&self) -> (r: Result<Vec<u16>, TooManySuperkeysError>)
        requires
            spec_superkey_map_wf(self.0@),
        ensures
            match r {
                Ok(d) => spec_superkey_map_data(self.0@) == Some(d@) && d@.len() == 512,
                Err(_) => spec_superkey_map_data(self.0@) is None,
            },
    {
        let mut v: Vec<u16> = Vec::new();
        let mut i: usize = 0;
        while i < self.0.len()
            invariant
                i <= self.0@.len(),
                spec_superkey_map_wf(self.0@),
                v@ == spec_superkey_map_wire(self.0@.subrange(0, i as int)),
            decreases self.0@.len() - i,
        {
            let mut six = self.0[i].to_superkey_map_data();
            v.append(&mut six);
            i = i + 1;
            proof {
                let pre = self.0@.subrange(0, i as int);
                assert(pre.drop_last() =~= self.0@.subrange(0, i - 1 as int));
            }
        }
        proof {
            assert(self.0@.subrange(0, self.0@.len() as int) =~= self.0@);
        }
        v.push(0);
        let ghost content = spec_superkey_map_wire(self.0@) + seq![0u16];
        proof {
            assert(v@ =~= content);
        }
        if v.len() > 512 {
            return Err(TooManySuperkeysError);
        }
        while v.len() < 512
            invariant
                content.len() <= v@.len() <= 512,
                v@ =~= content + Seq::new((v@.len() - content.len()) as nat, |i: int| 65535u16),
            decreases 512 - v@.len(),
        {
            v.push(65535);
            proof {
                assert(v@ =~= content + Seq::new(
                    (v@.len() - content.len()) as nat,
                    |i: int| 65535u16,
                ));
            }
        }
        Ok(v)
    }
}

/// Keymap round trip: a keymap decoded from 800 wire codes serializes
/// back to the same code at every layout-covered offset; the offsets the
/// layout does not cover become the placeholder.
pub proof fn lemma_keymap_round_trip(
    data: Seq<u16>,
    km: DefyKeymap,
    out: Seq<u16>,
    placeholder: u16,
)
    requires
        data.len() == 800,
        km.0@.len() == 10,
        km.matches_codes(data),
        out.len() == 800,
        forall|l: int, o: int| 0 <= l < 10 && 0 <= o < 80 ==> out[80 * l + o] == (match (
        #[trigger] km.0@[l].spec_slot(o)) {
            Some(v) => v,
            None => placeholder,
        }),
    ensures
        forall|l: int, o: int| 0 <= l < 10 && 0 <= o < 80 ==> #[trigger] out[80 * l + o] == (
        if covered(o) {
            data[80 * l + o]
        } else {
            placeholder
        }),
{
    assert forall|l: int, o: int| 0 <= l < 10 && 0 <= o < 80 implies #[trigger] out[80 * l + o]
        == (if covered(o) {
        data[80 * l + o]
    } else {
        placeholder
    }) by {
        let layer = km.0@[l];
        let codes = data.subrange(80 * l, 80 * l + 80);
        assert(layer.matches_codes(codes));
        assert(layer.spec_key_at(o) == (if covered(o) {
            Some(spec_decode(codes[o]))
        } else {
            None::<KeyKind>
        }));
        assert(out[80 * l + o] == (match km.0@[l].spec_slot(o) {
            Some(v) => v,
            None => placeholder,
        }));
        if covered(o) {
            lemma_code_round_trip(codes[o]);
            assert(codes[o] == data[80 * l + o]);
        }
    }
}

} // verus!
