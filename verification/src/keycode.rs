//! The key-code table: the bidirectional mapping between 16-bit key codes
//! and symbolic key identities.
//!
//! A key is a base identity from one of the named tables below, optionally
//! carried by an expansion: a non-empty set of modifiers (each modifier
//! adds a fixed mask to the base code) or a dual-function overlay (tap for
//! the key, hold for a modifier or layer shift; each adds a fixed offset).
//! Every 16-bit code decodes to some key -- unrecognized codes decode to
//! [`KeyKind::Unknown`] -- and re-encoding always restores the code.

use vstd::prelude::*;

verus! {

/// Mask a ctrl key modifier adds to a base code.
pub const CONTROL_MODIFIER: u16 = 0x0100;

/// Mask an alt key modifier adds to a base code.
pub const ALT_MODIFIER: u16 = 0x0200;

/// Mask an altGr key modifier adds to a base code.
pub const ALTGR_MODIFIER: u16 = 0x0400;

/// Mask a shift key modifier adds to a base code.
pub const SHIFT_MODIFIER: u16 = 0x0800;

/// Mask an OS key modifier adds to a base code.
pub const OS_MODIFIER: u16 = 0x1000;

/// Offset of the ctrl dual-use functionality.
pub const CONTROL_DUAL_FUNCTION: u16 = 49169;

/// Offset of the shift dual-use functionality.
pub const SHIFT_DUAL_FUNCTION: u16 = 49425;

/// Offset of the alt dual-use functionality.
pub const ALT_DUAL_FUNCTION: u16 = 49681;

/// Offset of the altGr dual-use functionality.
pub const ALTGR_DUAL_FUNCTION: u16 = 50705;

/// Offset of the OS dual-use functionality.
pub const OSGR_DUAL_FUNCTION: u16 = 49937;

/// Offset of the layer 1 dual-use functionality.
pub const LAYER_1_DUAL_FUNCTION: u16 = 51218;

/// Offset of the layer 2 dual-use functionality.
pub const LAYER_2_DUAL_FUNCTION: u16 = 51474;

/// Offset of the layer 3 dual-use functionality.
pub const LAYER_3_DUAL_FUNCTION: u16 = 51730;

/// Offset of the layer 4 dual-use functionality.
pub const LAYER_4_DUAL_FUNCTION: u16 = 51986;

/// Offset of the layer 5 dual-use functionality.
pub const LAYER_5_DUAL_FUNCTION: u16 = 52242;

/// Offset of the layer 6 dual-use functionality.
pub const LAYER_6_DUAL_FUNCTION: u16 = 52498;

/// Offset of the layer 7 dual-use functionality.
pub const LAYER_7_DUAL_FUNCTION: u16 = 52754;

/// Offset of the layer 8 dual-use functionality.
pub const LAYER_8_DUAL_FUNCTION: u16 = 53010;

/// One key modifier usable in a modifier combination.
#[derive(Clone, Copy, Debug, PartialEq, Eq, Structural)]
pub enum Modifier {
    /// Ctrl.
    Ctrl,
    /// Alt.
    Alt,
    /// AltGr.
    AltGr,
    /// Shift.
    Shift,
    /// OS.
    Os,
}

/// Mask value of one modifier.
pub open spec fn spec_modifier_value(m: Modifier) -> u16 {
    match m {
        Modifier::Ctrl => CONTROL_MODIFIER,
        Modifier::Alt => ALT_MODIFIER,
        Modifier::AltGr => ALTGR_MODIFIER,
        Modifier::Shift => SHIFT_MODIFIER,
        Modifier::Os => OS_MODIFIER,
    }
}

impl Modifier {
    /// The mask this modifier adds to a base key code.
    pub fn as_modifier_value(self) -> (v: u16)
        ensures
            v == spec_modifier_value(self),
    {
        match self {
            Modifier::Ctrl => CONTROL_MODIFIER,
            Modifier::Alt => ALT_MODIFIER,
            Modifier::AltGr => ALTGR_MODIFIER,
            Modifier::Shift => SHIFT_MODIFIER,
            Modifier::Os => OS_MODIFIER,
        }
    }
}

/// One dual-function overlay: tap for the base key, hold for this
/// modifier or layer shift.
#[derive(Clone, Copy, Debug, PartialEq, Eq, Structural)]
pub enum DualFunctionModifier {
    /// Hold for Ctrl.
    Ctrl,
    /// Hold for Alt.
    Alt,
    /// Hold for AltGr.
    AltGr,
    /// Hold for OS.
    Os,
    /// Hold for Shift.
    Shift,
    /// Hold to shift to layer 1.
    Layer1,
    /// Hold to shift to layer 2.
    Layer2,
    /// Hold to shift to layer 3.
    Layer3,
    /// Hold to shift to layer 4.
    Layer4,
    /// Hold to shift to layer 5.
    Layer5,
    /// Hold to shift to layer 6.
    Layer6,
    /// Hold to shift to layer 7.
    Layer7,
    /// Hold to shift to layer 8.
    Layer8,
}

/// Offset of one dual-function overlay.
pub open spec fn spec_dual_value(d: DualFunctionModifier) -> u16 {
    match d {
        DualFunctionModifier::Ctrl => CONTROL_DUAL_FUNCTION,
        DualFunctionModifier::Alt => ALT_DUAL_FUNCTION,
        DualFunctionModifier::AltGr => ALTGR_DUAL_FUNCTION,
        DualFunctionModifier::Os => OSGR_DUAL_FUNCTION,
        DualFunctionModifier::Shift => SHIFT_DUAL_FUNCTION,
        DualFunctionModifier::Layer1 => LAYER_1_DUAL_FUNCTION,
        DualFunctionModifier::Layer2 => LAYER_2_DUAL_FUNCTION,
        DualFunctionModifier::Layer3 => LAYER_3_DUAL_FUNCTION,
        DualFunctionModifier::Layer4 => LAYER_4_DUAL_FUNCTION,
        DualFunctionModifier::Layer5 => LAYER_5_DUAL_FUNCTION,
        DualFunctionModifier::Layer6 => LAYER_6_DUAL_FUNCTION,
        DualFunctionModifier::Layer7 => LAYER_7_DUAL_FUNCTION,
        DualFunctionModifier::Layer8 => LAYER_8_DUAL_FUNCTION,
    }
}

impl DualFunctionModifier {
    /// The offset this overlay adds to a base key code.
    pub fn as_modifier_value(self) -> (v: u16)
        ensures
            v == spec_dual_value(self),
    {
        match self {
            DualFunctionModifier::Ctrl => CONTROL_DUAL_FUNCTION,
            DualFunctionModifier::Alt => ALT_DUAL_FUNCTION,
            DualFunctionModifier::AltGr => ALTGR_DUAL_FUNCTION,
            DualFunctionModifier::Os => OSGR_DUAL_FUNCTION,
            DualFunctionModifier::Shift => SHIFT_DUAL_FUNCTION,
            DualFunctionModifier::Layer1 => LAYER_1_DUAL_FUNCTION,
            DualFunctionModifier::Layer2 => LAYER_2_DUAL_FUNCTION,
            DualFunctionModifier::Layer3 => LAYER_3_DUAL_FUNCTION,
            DualFunctionModifier::Layer4 => LAYER_4_DUAL_FUNCTION,
            DualFunctionModifier::Layer5 => LAYER_5_DUAL_FUNCTION,
            DualFunctionModifier::Layer6 => LAYER_6_DUAL_FUNCTION,
            DualFunctionModifier::Layer7 => LAYER_7_DUAL_FUNCTION,
            DualFunctionModifier::Layer8 => LAYER_8_DUAL_FUNCTION,
        }
    }
}

/// A set of key modifiers, applied together to one base key.
#[derive(Clone, Copy, Debug, PartialEq, Eq, Structural)]
pub struct ModifierSet {
    /// Ctrl is held.
    pub ctrl: bool,
    /// Alt is held.
    pub alt: bool,
    /// AltGr is held.
    pub alt_gr: bool,
    /// OS is held.
    pub os: bool,
    /// Shift is held.
    pub shift: bool,
}

impl ModifierSet {
    /// The set holds no modifier.
    pub open spec fn is_empty(self) -> bool {
        !self.ctrl && !self.alt && !self.alt_gr && !self.os && !self.shift
    }

    /// Sum of the masks of the modifiers in the set.
    pub open spec fn spec_value(self) -> int {
        (if self.ctrl { 256int } else { 0int }) + (if self.alt { 512int } else { 0int })
            + (if self.alt_gr { 1024int } else { 0int }) + (if self.shift { 2048int } else { 0int })
            + (if self.os { 4096int } else { 0int })
    }

    /// Sum of the masks of the modifiers in the set.
    pub fn mask_value(self) -> (v: u16)
        ensures
            v == self.spec_value(),
    {
        let mut v: u16 = 0;
        if self.ctrl {
            v = v + 256;
        }
        if self.alt {
            v = v + 512;
        }
        if self.alt_gr {
            v = v + 1024;
        }
        if self.shift {
            v = v + 2048;
        }
        if self.os {
            v = v + 4096;
        }
        v
    }
}

/// How a base key is carried in a key code: bare, with a set of
/// modifiers, or as a dual-function key.
#[derive(Clone, Copy, Debug, PartialEq, Eq, Structural)]
pub enum KeyExpansion {
    /// The base key alone.
    Plain,
    /// The base key with a non-empty set of modifiers.
    Modified(ModifierSet),
    /// The base key as the tap half of a dual-function key.
    Dual(DualFunctionModifier),
}

/// Blank keys.
#[derive(Clone, Copy, Debug, PartialEq, Eq, Structural)]
pub enum Blank {
    /// No Key
    NoKey,
    /// Transparent
    Transparent,
}

impl Blank {
    /// The key code of this base key.
    pub open spec fn code(self) -> u16 {
        match self {
            Blank::NoKey => 0,
            Blank::Transparent => 65535,
        }
    }
}

/// Whitespace keys.
#[derive(Clone, Copy, Debug, PartialEq, Eq, Structural)]
pub enum Spacing {
    /// Enter
    Enter,
    /// Escape
    Escape,
    /// Backspace
    Backspace,
    /// Tab
    Tab,
    /// Space
    Space,
    /// Insert
    Insert,
    /// Delete
    Delete,
}

impl Spacing {
    /// The key code of this base key.
    pub open spec fn code(self) -> u16 {
        match self {
            Spacing::Enter => 40,
            Spacing::Escape => 41,
            Spacing::Backspace => 42,
            Spacing::Tab => 43,
            Spacing::Space => 44,
            Spacing::Insert => 73,
            Spacing::Delete => 76,
        }
    }
}

/// A-Z keys.
#[derive(Clone, Copy, Debug, PartialEq, Eq, Structural)]
pub enum Alpha {
    /// A
    A,
    /// B
    B,
    /// C
    C,
    /// D
    D,
    /// E
    E,
    /// F
    F,
    /// G
    G,
    /// H
    H,
    /// I
    I,
    /// J
    J,
    /// K
    K,
    /// L
    L,
    /// M
    M,
    /// N
    N,
    /// O
    O,
    /// P
    P,
    /// Q
    Q,
    /// R
    R,
    /// S
    S,
    /// T
    T,
    /// U
    U,
    /// V
    V,
    /// W
    W,
    /// X
    X,
    /// Y
    Y,
    /// Z
    Z,
}

impl Alpha {
    /// The key code of this base key.
    pub open spec fn code(self) -> u16 {
        match self {
            Alpha::A => 4,
            Alpha::B => 5,
            Alpha::C => 6,
            Alpha::D => 7,
            Alpha::E => 8,
            Alpha::F => 9,
            Alpha::G => 10,
            Alpha::H => 11,
            Alpha::I => 12,
            Alpha::J => 13,
            Alpha::K => 14,
            Alpha::L => 15,
            Alpha::M => 16,
            Alpha::N => 17,
            Alpha::O => 18,
            Alpha::P => 19,
            Alpha::Q => 20,
            Alpha::R => 21,
            Alpha::S => 22,
            Alpha::T => 23,
            Alpha::U => 24,
            Alpha::V => 25,
            Alpha::W => 26,
            Alpha::X => 27,
            Alpha::Y => 28,
            Alpha::Z => 29,
        }
    }
}

/// Digits 0 - 9.
#[derive(Clone, Copy, Debug, PartialEq, Eq, Structural)]
pub enum Digits {
    /// 1
    One,
    /// 2
    Two,
    /// 3
    Three,
    /// 4
    Four,
    /// 5
    Five,
    /// Six
    Six,
    /// 7
    Seven,
    /// 8
    Eight,
    /// 9
    Nine,
    /// 0
    Zero,
}

impl Digits {
    /// The key code of this base key.
    pub open spec fn code(self) -> u16 {
        match self {
            Digits::One => 30,
            Digits::Two => 31,
            Digits::Three => 32,
            Digits::Four => 33,
            Digits::Five => 34,
            Digits::Six => 35,
            Digits::Seven => 36,
            Digits::Eight => 37,
            Digits::Nine => 38,
            Digits::Zero => 39,
        }
    }
}

/// Numpad keys.
#[derive(Clone, Copy, Debug, PartialEq, Eq, Structural)]
pub enum Numpad {
    /// Num Lock
    NumLock,
    /// Numpad /
    Divide,
    /// Numpad *
    Times,
    /// Numpad -
    Minus,
    /// Numpad +
    Add,
    /// Numpad Enter
    Enter,
    /// Numpad 1
    One,
    /// Numpad 2
    Two,
    /// Numpad 3
    Three,
    /// Numpad 4
    Four,
    /// Numpad 5
    Five,
    /// Numpad 6
    Six,
    /// Numpad 7
    Seven,
    /// Numpad 8
    Eight,
    /// Numpad 9
    Nine,
    /// Numpad 0
    Zero,
    /// Numpad .
    Period,
}

impl Numpad {
    /// The key code of this base key.
    pub open spec fn code(self) -> u16 {
        match self {
            Numpad::NumLock => 83,
            Numpad::Divide => 84,
            Numpad::Times => 85,
            Numpad::Minus => 86,
            Numpad::Add => 87,
            Numpad::Enter => 88,
            Numpad::One => 89,
            Numpad::Two => 90,
            Numpad::Three => 91,
            Numpad::Four => 92,
            Numpad::Five => 93,
            Numpad::Six => 94,
            Numpad::Seven => 95,
            Numpad::Eight => 96,
            Numpad::Nine => 97,
            Numpad::Zero => 98,
            Numpad::Period => 99,
        }
    }
}

/// Function keys.
#[derive(Clone, Copy, Debug, PartialEq, Eq, Structural)]
pub enum Fx {
    /// F1
    F1,
    /// F2
    F2,
    /// F3
    F3,
    /// F4
    F4,
    /// F5
    F5,
    /// F6
    F6,
    /// F7
    F7,
    /// F8
    F8,
    /// F9
    F9,
    /// F10
    F10,
    /// F11
    F11,
    /// F12
    F12,
    /// F13
    F13,
    /// F14
    F14,
    /// F15
    F15,
    /// F16
    F16,
    /// F17
    F17,
    /// F18
    F18,
    /// F19
    F19,
    /// F20
    F20,
    /// F21
    F21,
    /// F22
    F22,
    /// F23
    F23,
    /// F24
    F24,
}

impl Fx {
    /// The key code of this base key.
    pub open spec fn code(self) -> u16 {
        match self {
            Fx::F1 => 58,
            Fx::F2 => 59,
            Fx::F3 => 60,
            Fx::F4 => 61,
            Fx::F5 => 62,
            Fx::F6 => 63,
            Fx::F7 => 64,
            Fx::F8 => 65,
            Fx::F9 => 66,
            Fx::F10 => 67,
            Fx::F11 => 68,
            Fx::F12 => 69,
            Fx::F13 => 104,
            Fx::F14 => 105,
            Fx::F15 => 106,
            Fx::F16 => 107,
            Fx::F17 => 108,
            Fx::F18 => 109,
            Fx::F19 => 110,
            Fx::F20 => 111,
            Fx::F21 => 112,
            Fx::F22 => 113,
            Fx::F23 => 114,
            Fx::F24 => 115,
        }
    }
}

/// Keyboard symbols, like `!`, `(`, `[`, etc.
#[derive(Clone, Copy, Debug, PartialEq, Eq, Structural)]
pub enum Symbols {
    /// `-``
    Dash,
    /// `=`
    Equals,
    /// `[`
    BracketLeft,
    /// `]`
    BracketRight,
    /// `\`
    Backslash,
    /// `;`
    Semicolon,
    /// `'``
    SingleQuote,
    /// ```
    BackTick,
    /// `,`
    Comma,
    /// `.`
    Period,
    /// `/`
    Slash,
    /// Caps Lock
    CapsLock,
    /// ISO `<>`
    IsoGTLT,
}

impl Symbols {
    /// The key code of this base key.
    pub open spec fn code(self) -> u16 {
        match self {
            Symbols::Dash => 45,
            Symbols::Equals => 46,
            Symbols::BracketLeft => 47,
            Symbols::BracketRight => 48,
            Symbols::Backslash => 49,
            Symbols::Semicolon => 51,
            Symbols::SingleQuote => 52,
            Symbols::BackTick => 53,
            Symbols::Comma => 54,
            Symbols::Period => 55,
            Symbols::Slash => 56,
            Symbols::CapsLock => 57,
            Symbols::IsoGTLT => 100,
        }
    }
}

/// Symbol keys with the `Shift` key applied.
#[derive(Clone, Copy, Debug, PartialEq, Eq, Structural)]
pub enum ShiftSymbols {
    /// `_`
    Underscore,
    /// `+`
    Plus,
    /// `{{`
    BraceLeft,
    /// `}}`
    BraceRight,
    /// `|`
    Pipe,
    /// `:`
    Colon,
    /// `"`
    DoubleQuote,
    /// `~`
    Tilde,
    /// `<`
    LT,
    /// `>`
    GT,
    /// `?`
    QuestionMark,
    /// Non-U.S. |
    AltPipe,
}

impl ShiftSymbols {
    /// The key code of this base key.
    pub open spec fn code(self) -> u16 {
        match self {
            ShiftSymbols::Underscore => 2093,
            ShiftSymbols::Plus => 2094,
            ShiftSymbols::BraceLeft => 2095,
            ShiftSymbols::BraceRight => 2096,
            ShiftSymbols::Pipe => 2097,
            ShiftSymbols::Colon => 2099,
            ShiftSymbols::DoubleQuote => 2100,
            ShiftSymbols::Tilde => 2101,
            ShiftSymbols::LT => 2102,
            ShiftSymbols::GT => 2103,
            ShiftSymbols::QuestionMark => 2104,
            ShiftSymbols::AltPipe => 2148,
        }
    }
}

/// Modifier keys.
#[derive(Clone, Copy, Debug, PartialEq, Eq, Structural)]
pub enum Modifiers {
    /// Left Ctrl
    LeftCtrl,
    /// Left Shift
    LeftShift,
    /// Left Shift
    LeftAlt,
    /// Left OS
    LeftOs,
    /// Right Ctrl
    RightCtrl,
    /// Right Shift
    RightShift,
    /// AltGr
    AltGr,
    /// Right OS
    RightOs,
}

impl Modifiers {
    /// The key code of this base key.
    pub open spec fn code(self) -> u16 {
        match self {
            Modifiers::LeftCtrl => 224,
            Modifiers::LeftShift => 225,
            Modifiers::LeftAlt => 226,
            Modifiers::LeftOs => 227,
            Modifiers::RightCtrl => 228,
            Modifiers::RightShift => 229,
            Modifiers::AltGr => 230,
            Modifiers::RightOs => 231,
        }
    }
}

/// Media keys.
#[derive(Clone, Copy, Debug, PartialEq, Eq, Structural)]
pub enum Media {
    /// Mute
    Mute,
    /// Next Track
    NextTrack,
    /// Previous Track
    PreviousTrack,
    /// Stop
    Stop,
    /// Play/Pause
    PlayPause,
    /// Volume Up
    VolumeUp,
    /// Volume Down
    VolumeDown,
    /// Eject
    Eject,
    /// Camera
    Camera,
    /// Brightness Up
    BrightnessUp,
    /// Brightness Down
    BrightnessDown,
    /// Calculator
    Calculator,
    /// Shuffle
    Shuffle,
}

impl Media {
    /// The key code of this base key.
    pub open spec fn code(self) -> u16 {
        match self {
            Media::Mute => 19682,
            Media::NextTrack => 22709,
            Media::PreviousTrack => 22710,
            Media::Stop => 22711,
            Media::PlayPause => 22733,
            Media::VolumeUp => 23785,
            Media::VolumeDown => 23786,
            Media::Eject => 22712,
            Media::Camera => 18552,
            Media::BrightnessUp => 23663,
            Media::BrightnessDown => 23664,
            Media::Calculator => 18834,
            Media::Shuffle => 22713,
        }
    }
}

/// Navigation keys.
#[derive(Clone, Copy, Debug, PartialEq, Eq, Structural)]
pub enum Navigation {
    /// Home
    Home,
    /// Page Up
    PageUp,
    /// End
    End,
    /// Page Down
    PageDown,
    /// Right Arrow
    ArrowRight,
    /// Left Arrow
    ArrowLeft,
    /// Down Arrow
    ArrowDown,
    /// Up Arrow
    ArrowUp,
    /// Menu
    Menu,
}

impl Navigation {
    /// The key code of this base key.
    pub open spec fn code(self) -> u16 {
        match self {
            Navigation::Home => 74,
            Navigation::PageUp => 75,
            Navigation::End => 77,
            Navigation::PageDown => 78,
            Navigation::ArrowRight => 79,
            Navigation::ArrowLeft => 80,
            Navigation::ArrowDown => 81,
            Navigation::ArrowUp => 82,
            Navigation::Menu => 101,
        }
    }
}

/// Mouse movement.
#[derive(Clone, Copy, Debug, PartialEq, Eq, Structural)]
pub enum MouseMovement {
    /// Mouse Up
    MouseUp,
    /// Mouse Down
    MouseDown,
    /// Mouse Left
    MouseLeft,
    /// Mouse Right
    MouseRight,
}

impl MouseMovement {
    /// The key code of this base key.
    pub open spec fn code(self) -> u16 {
        match self {
            MouseMovement::MouseUp => 20481,
            MouseMovement::MouseDown => 20482,
            MouseMovement::MouseLeft => 20484,
            MouseMovement::MouseRight => 20488,
        }
    }
}

/// Mouse wheel.
#[derive(Clone, Copy, Debug, PartialEq, Eq, Structural)]
pub enum MouseWheele {
    /// Mouse Wheele Up
    WheelUp,
    /// Mouse Wheel Down
    WheelDown,
    /// Mouse Wheel Left
    WheelLeft,
    /// Mouse Wheele Right
    WheelRight,
}

impl MouseWheele {
    /// The key code of this base key.
    pub open spec fn code(self) -> u16 {
        match self {
            MouseWheele::WheelUp => 20497,
            MouseWheele::WheelDown => 20498,
            MouseWheele::WheelLeft => 20500,
            MouseWheele::WheelRight => 20504,
        }
    }
}

/// Mouse buttons.
#[derive(Clone, Copy, Debug, PartialEq, Eq, Structural)]
pub enum MouseButtons {
    /// Mouse Button Left
    Left,
    /// Mouse Button Right
    Right,
    /// Mouse Button Middle
    Middle,
    /// Mouse Button Back
    Back,
    /// Mouse Button Forward
    Forward,
}

impl MouseButtons {
    /// The key code of this base key.
    pub open spec fn code(self) -> u16 {
        match self {
            MouseButtons::Left => 20545,
            MouseButtons::Right => 20546,
            MouseButtons::Middle => 20548,
            MouseButtons::Back => 20552,
            MouseButtons::Forward => 20560,
        }
    }
}

/// Mouse warping.
#[derive(Clone, Copy, Debug, PartialEq, Eq, Structural)]
pub enum MouseWarp {
    /// Mouse Warp End
    End,
    /// Mouse Warp NW
    NW,
    /// Mouse Warp SW
    SW,
    /// Mouse Warp NE
    NE,
    /// Mouse Warp SE
    SE,
}

impl MouseWarp {
    /// The key code of this base key.
    pub open spec fn code(self) -> u16 {
        match self {
            MouseWarp::End => 20576,
            MouseWarp::NW => 20517,
            MouseWarp::SW => 20518,
            MouseWarp::NE => 20521,
            MouseWarp::SE => 20522,
        }
    }
}

/// LED lighting effects.
#[derive(Clone, Copy, Debug, PartialEq, Eq, Structural)]
pub enum LedEffects {
    /// Next LED Effect
    Next,
    /// Previous LED Effect
    Previous,
    /// Toggle LED Effect
    Toggle,
}

impl LedEffects {
    /// The key code of this base key.
    pub open spec fn code(self) -> u16 {
        match self {
            LedEffects::Next => 17152,
            LedEffects::Previous => 17153,
            LedEffects::Toggle => 17154,
        }
    }
}

/// Battery functions.
#[derive(Clone, Copy, Debug, PartialEq, Eq, Structural)]
pub enum Battery {
    /// Battery Status
    Status,
}

impl Battery {
    /// The key code of this base key.
    pub open spec fn code(self) -> u16 {
        match self {
            Battery::Status => 54108,
        }
    }
}

/// Bluetooth functions.
#[derive(Clone, Copy, Debug, PartialEq, Eq, Structural)]
pub enum Bluetooth {
    /// Bluetooth Pairing
    Pair,
}

impl Bluetooth {
    /// The key code of this base key.
    pub open spec fn code(self) -> u16 {
        match self {
            Bluetooth::Pair => 54109,
        }
    }
}

/// Energy functions.
#[derive(Clone, Copy, Debug, PartialEq, Eq, Structural)]
pub enum Energy {
    /// Energy Status
    Status,
}

impl Energy {
    /// The key code of this base key.
    pub open spec fn code(self) -> u16 {
        match self {
            Energy::Status => 54111,
        }
    }
}

/// Wireless-RF functions.
#[derive(Clone, Copy, Debug, PartialEq, Eq, Structural)]
pub enum Rf {
    /// Wireless RF Status
    Status,
}

impl Rf {
    /// The key code of this base key.
    pub open spec fn code(self) -> u16 {
        match self {
            Rf::Status => 54112,
        }
    }
}

/// Lock to layer keys.
#[derive(Clone, Copy, Debug, PartialEq, Eq, Structural)]
pub enum LayerLock {
    /// Layer 1 Lock
    Layer1,
    /// Layer 2 Lock
    Layer2,
    /// Layer 3 Lock
    Layer3,
    /// Layer 4 Lock
    Layer4,
    /// Layer 5 Lock
    Layer5,
    /// Layer 6 Lock
    Layer6,
    /// Layer 7 Lock
    Layer7,
    /// Layer 8 Lock
    Layer8,
    /// Layer 9 Lock
    Layer9,
    /// Layer 10 Lock
    Layer10,
}

impl LayerLock {
    /// The key code of this base key.
    pub open spec fn code(self) -> u16 {
        match self {
            LayerLock::Layer1 => 17408,
            LayerLock::Layer2 => 17409,
            LayerLock::Layer3 => 17410,
            LayerLock::Layer4 => 17411,
            LayerLock::Layer5 => 17412,
            LayerLock::Layer6 => 17413,
            LayerLock::Layer7 => 17414,
            LayerLock::Layer8 => 17415,
            LayerLock::Layer9 => 17416,
            LayerLock::Layer10 => 17417,
        }
    }
}

/// Shift to layer keys.
#[derive(Clone, Copy, Debug, PartialEq, Eq, Structural)]
pub enum LayerShift {
    /// Layer 1 Shift
    Layer1,
    /// Layer 2 Shift
    Layer2,
    /// Layer 3 Shift
    Layer3,
    /// Layer 4 Shift
    Layer4,
    /// Layer 5 Shift
    Layer5,
    /// Layer 6 Shift
    Layer6,
    /// Layer 7 Shift
    Layer7,
    /// Layer 8 Shift
    Layer8,
    /// Layer 9 Shift
    Layer9,
    /// Layer 10 Shift
    Layer10,
}

impl LayerShift {
    /// The key code of this base key.
    pub open spec fn code(self) -> u16 {
        match self {
            LayerShift::Layer1 => 17450,
            LayerShift::Layer2 => 17451,
            LayerShift::Layer3 => 17452,
            LayerShift::Layer4 => 17453,
            LayerShift::Layer5 => 17454,
            LayerShift::Layer6 => 17455,
            LayerShift::Layer7 => 17456,
            LayerShift::Layer8 => 17457,
            LayerShift::Layer9 => 17458,
            LayerShift::Layer10 => 17459,
        }
    }
}

/// Move to layer keys.
#[derive(Clone, Copy, Debug, PartialEq, Eq, Structural)]
pub enum LayerMove {
    /// Layer 1 Move
    Layer1,
    /// Layer 2 Move
    Layer2,
    /// Layer 3 Move
    Layer3,
    /// Layer 4 Move
    Layer4,
    /// Layer 5 Move
    Layer5,
    /// Layer 6 Move
    Layer6,
    /// Layer 7 Move
    Layer7,
    /// Layer 8 Move
    Layer8,
    /// Layer 9 Move
    Layer9,
    /// Layer 10 Move
    Layer10,
}

impl LayerMove {
    /// The key code of this base key.
    pub open spec fn code(self) -> u16 {
        match self {
            LayerMove::Layer1 => 17492,
            LayerMove::Layer2 => 17493,
            LayerMove::Layer3 => 17494,
            LayerMove::Layer4 => 17495,
            LayerMove::Layer5 => 17496,
            LayerMove::Layer6 => 17497,
            LayerMove::Layer7 => 17498,
            LayerMove::Layer8 => 17499,
            LayerMove::Layer9 => 17500,
            LayerMove::Layer10 => 17501,
        }
    }
}

/// Miscellaneous keys.
#[derive(Clone, Copy, Debug, PartialEq, Eq, Structural)]
pub enum Miscellaneous {
    /// Print Screen
    PrintScreen,
    /// Scroll Lock
    ScrollLock,
    /// Pause
    Pause,
    /// Shutdown
    Shutdown,
    /// Sleep
    Sleep,
}

impl Miscellaneous {
    /// The key code of this base key.
    pub open spec fn code(self) -> u16 {
        match self {
            Miscellaneous::PrintScreen => 70,
            Miscellaneous::ScrollLock => 71,
            Miscellaneous::Pause => 72,
            Miscellaneous::Shutdown => 20865,
            Miscellaneous::Sleep => 20866,
        }
    }
}

/// Oneshot keys.
#[derive(Clone, Copy, Debug, PartialEq, Eq, Structural)]
pub enum Oneshot {
    /// Oneshot Layer 1
    Layer1,
    /// Oneshot Layer 2
    Layer2,
    /// Oneshot Layer 3
    Layer3,
    /// Oneshot Layer 4
    Layer4,
    /// Oneshot Layer 5
    Layer5,
    /// Oneshot Layer 6
    Layer6,
    /// Oneshot Layer 7
    Layer7,
    /// Oneshot Layer 8
    Layer8,
    /// Oneshot Left Ctrl
    LeftCtrl,
    /// Oneshot Left Shift
    LeftShift,
    /// Oneshot Left Alt
    LeftAlt,
    /// Oneshot Left OS
    LeftOs,
    /// Oneshot Right Ctrl
    RightCtrl,
    /// Oneshot Right Shift
    RightShift,
    /// Oneshot AltGr
    AltGr,
    /// Oneshot Right OS
    RightOs,
}

impl Oneshot {
    /// The key code of this base key.
    pub open spec fn code(self) -> u16 {
        match self {
            Oneshot::Layer1 => 49161,
            Oneshot::Layer2 => 49162,
            Oneshot::Layer3 => 49163,
            Oneshot::Layer4 => 49164,
            Oneshot::Layer5 => 49165,
            Oneshot::Layer6 => 49166,
            Oneshot::Layer7 => 49167,
            Oneshot::Layer8 => 49168,
            Oneshot::LeftCtrl => 49153,
            Oneshot::LeftShift => 49154,
            Oneshot::LeftAlt => 49155,
            Oneshot::LeftOs => 49156,
            Oneshot::RightCtrl => 49157,
            Oneshot::RightShift => 49158,
            Oneshot::AltGr => 49159,
            Oneshot::RightOs => 49160,
        }
    }
}

/// One of the 128 macro slots.
#[derive(Clone, Copy, Debug, PartialEq, Eq, Structural)]
pub struct MacroSlot {
    /// The slot number, between 1 and 128.
    pub index: u8,
}

impl MacroSlot {
    /// The key code of this macro slot.
    pub open spec fn code(self) -> int {
        53851 + self.index
    }
}

/// One of the 128 superkey slots.
#[derive(Clone, Copy, Debug, PartialEq, Eq, Structural)]
pub struct SuperSlot {
    /// The slot number, between 1 and 128.
    pub index: u8,
}

impl SuperSlot {
    /// The key code of this superkey slot.
    pub open spec fn code(self) -> int {
        53979 + self.index
    }
}

/// A symbolic key identity: one base key from a named table, together
/// with its expansion where the table admits one.
#[derive(Clone, Copy, Debug, PartialEq, Eq, Structural)]
pub enum KeyKind {
    /// Blank keys.
    Blank(Blank),
    /// Whitespace keys.
    Spacing(Spacing, KeyExpansion),
    /// A-Z keys.
    Alpha(Alpha, KeyExpansion),
    /// Digit keys.
    Digits(Digits, KeyExpansion),
    /// Numpad keys.
    Numpad(Numpad, KeyExpansion),
    /// Function keys.
    Fx(Fx, KeyExpansion),
    /// Symbol keys.
    Symbols(Symbols, KeyExpansion),
    /// Symbol keys with shift pre-applied.
    ShiftSymbols(ShiftSymbols),
    /// Modifier keys.
    Modifiers(Modifiers, KeyExpansion),
    /// Media keys.
    Media(Media),
    /// Navigation keys.
    Navigation(Navigation, KeyExpansion),
    /// Mouse movement.
    MouseMovement(MouseMovement),
    /// Mouse wheel.
    MouseWheele(MouseWheele),
    /// Mouse buttons.
    MouseButtons(MouseButtons),
    /// Mouse warping.
    MouseWarp(MouseWarp),
    /// LED lighting effects.
    LedEffects(LedEffects),
    /// Battery functions.
    Battery(Battery),
    /// Bluetooth functions.
    Bluetooth(Bluetooth),
    /// Energy functions.
    Energy(Energy),
    /// Wireless-RF functions.
    Rf(Rf),
    /// Lock to layer keys.
    LayerLock(LayerLock),
    /// Shift to layer keys.
    LayerShift(LayerShift),
    /// Move to layer keys.
    LayerMove(LayerMove),
    /// Miscellaneous keys.
    Miscellaneous(Miscellaneous, KeyExpansion),
    /// Oneshot keys.
    Oneshot(Oneshot),
    /// Macro keys.
    Macros(MacroSlot),
    /// Super keys.
    SuperKeys(SuperSlot),
    /// An unknown key.
    Unknown(u16),
}

impl KeyKind {
    /// The key is one the table generates: modifier sets are non-empty,
    /// expansions stand only on tables that admit them, dual-function
    /// codes fit the 16-bit space, and slot numbers are in range.
    pub open spec fn wf(self) -> bool {
        match self {
            KeyKind::Spacing(_, x) => x.wf_modified(),
            KeyKind::Alpha(_, x) => x.wf_modified(),
            KeyKind::Digits(_, x) => x.wf_modified(),
            KeyKind::Numpad(_, x) => x.wf_modified(),
            KeyKind::Fx(_, x) => x.wf_modified(),
            KeyKind::Symbols(_, x) => x.wf_modified(),
            KeyKind::Navigation(_, x) => x.wf_modified(),
            KeyKind::Modifiers(_, x) => x.wf_modified() && !(x is Dual),
            KeyKind::Miscellaneous(k, x) => x.wf_modified() && (x is Dual ==> (
                k == Miscellaneous::PrintScreen || k == Miscellaneous::ScrollLock
                || k == Miscellaneous::Pause)),
            KeyKind::Macros(s) => 1 <= s.index <= 128,
            KeyKind::SuperKeys(s) => 1 <= s.index <= 128,
            _ => true,
        }
    }
}

impl KeyExpansion {
    /// A modifier expansion carries at least one modifier.
    pub open spec fn wf_modified(self) -> bool {
        match self {
            KeyExpansion::Modified(m) => !m.is_empty(),
            _ => true,
        }
    }
}

/// Code of a key: its base code plus the value of its expansion.
#[verifier::opaque]
pub open spec fn spec_encode(k: KeyKind) -> int {
    match k {
        KeyKind::Blank(b) => b.code() as int,
        KeyKind::Spacing(b, x) => b.code() + spec_expansion_value(x),
        KeyKind::Alpha(b, x) => b.code() + spec_expansion_value(x),
        KeyKind::Digits(b, x) => b.code() + spec_expansion_value(x),
        KeyKind::Numpad(b, x) => b.code() + spec_expansion_value(x),
        KeyKind::Fx(b, x) => b.code() + spec_expansion_value(x),
        KeyKind::Symbols(b, x) => b.code() + spec_expansion_value(x),
        KeyKind::ShiftSymbols(b) => b.code() as int,
        KeyKind::Modifiers(b, x) => b.code() + spec_expansion_value(x),
        KeyKind::Media(b) => b.code() as int,
        KeyKind::Navigation(b, x) => b.code() + spec_expansion_value(x),
        KeyKind::MouseMovement(b) => b.code() as int,
        KeyKind::MouseWheele(b) => b.code() as int,
        KeyKind::MouseButtons(b) => b.code() as int,
        KeyKind::MouseWarp(b) => b.code() as int,
        KeyKind::LedEffects(b) => b.code() as int,
        KeyKind::Battery(b) => b.code() as int,
        KeyKind::Bluetooth(b) => b.code() as int,
        KeyKind::Energy(b) => b.code() as int,
        KeyKind::Rf(b) => b.code() as int,
        KeyKind::LayerLock(b) => b.code() as int,
        KeyKind::LayerShift(b) => b.code() as int,
        KeyKind::LayerMove(b) => b.code() as int,
        KeyKind::Miscellaneous(b, x) => b.code() + spec_expansion_value(x),
        KeyKind::Oneshot(b) => b.code() as int,
        KeyKind::Macros(s) => s.code(),
        KeyKind::SuperKeys(s) => s.code(),
        KeyKind::Unknown(c) => c as int,
    }
}

/// Value an expansion adds to a base code.
pub open spec fn spec_expansion_value(x: KeyExpansion) -> int {
    match x {
        KeyExpansion::Plain => 0,
        KeyExpansion::Modified(m) => m.spec_value(),
        KeyExpansion::Dual(d) => spec_dual_value(d) as int,
    }
}

/// The modifier set whose masks sum to `h * 256`, for `h` below 32.
pub open spec fn spec_mods_from(h: int) -> ModifierSet {
    let os = h >= 16;
    let r1 = if os { h - 16 } else { h };
    let shift = r1 >= 8;
    let r2 = if shift { r1 - 8 } else { r1 };
    let alt_gr = r2 >= 4;
    let r3 = if alt_gr { r2 - 4 } else { r2 };
    let alt = r3 >= 2;
    let r4 = if alt { r3 - 2 } else { r3 };
    let ctrl = r4 >= 1;
    ModifierSet { ctrl, alt, alt_gr, os, shift }
}

pub proof fn lemma_mods_from_value(h: int)
    requires
        0 <= h <= 31,
    ensures
        spec_mods_from(h).spec_value() == 256 * h,
        h >= 1 ==> !spec_mods_from(h).is_empty(),
{
}

pub open spec fn spec_mod_key_spacing(lo: u16, m: ModifierSet) -> Option<KeyKind> {
    if lo == 40 {
        Some(KeyKind::Spacing(Spacing::Enter, KeyExpansion::Modified(m)))
    } else if lo == 41 {
        Some(KeyKind::Spacing(Spacing::Escape, KeyExpansion::Modified(m)))
    } else if lo == 42 {
        Some(KeyKind::Spacing(Spacing::Backspace, KeyExpansion::Modified(m)))
    } else if lo == 43 {
        Some(KeyKind::Spacing(Spacing::Tab, KeyExpansion::Modified(m)))
    } else if lo == 44 {
        Some(KeyKind::Spacing(Spacing::Space, KeyExpansion::Modified(m)))
    } else if lo == 73 {
        Some(KeyKind::Spacing(Spacing::Insert, KeyExpansion::Modified(m)))
    } else if lo == 76 {
        Some(KeyKind::Spacing(Spacing::Delete, KeyExpansion::Modified(m)))
    } else {
        None
    }
}

fn mod_key_spacing(lo: u16, m: ModifierSet) -> (r: Option<KeyKind>)
    ensures
        r == spec_mod_key_spacing(lo, m),
{
    if lo == 40 {
        Some(KeyKind::Spacing(Spacing::Enter, KeyExpansion::Modified(m)))
    } else if lo == 41 {
        Some(KeyKind::Spacing(Spacing::Escape, KeyExpansion::Modified(m)))
    } else if lo == 42 {
        Some(KeyKind::Spacing(Spacing::Backspace, KeyExpansion::Modified(m)))
    } else if lo == 43 {
        Some(KeyKind::Spacing(Spacing::Tab, KeyExpansion::Modified(m)))
    } else if lo == 44 {
        Some(KeyKind::Spacing(Spacing::Space, KeyExpansion::Modified(m)))
    } else if lo == 73 {
        Some(KeyKind::Spacing(Spacing::Insert, KeyExpansion::Modified(m)))
    } else if lo == 76 {
        Some(KeyKind::Spacing(Spacing::Delete, KeyExpansion::Modified(m)))
    } else {
        None
    }
}

proof fn lemma_mod_key_spacing_encode(lo: u16, m: ModifierSet)
    requires
        spec_mod_key_spacing(lo, m) is Some,
        !m.is_empty(),
    ensures
        spec_mod_key_spacing(lo, m)->Some_0.wf(),
        spec_encode(spec_mod_key_spacing(lo, m)->Some_0) == lo + m.spec_value(),
{
    reveal(spec_encode);
}

pub open spec fn spec_mod_key_alpha(lo: u16, m: ModifierSet) -> Option<KeyKind> {
    if lo == 4 {
        Some(KeyKind::Alpha(Alpha::A, KeyExpansion::Modified(m)))
    } else if lo == 5 {
        Some(KeyKind::Alpha(Alpha::B, KeyExpansion::Modified(m)))
    } else if lo == 6 {
        Some(KeyKind::Alpha(Alpha::C, KeyExpansion::Modified(m)))
    } else if lo == 7 {
        Some(KeyKind::Alpha(Alpha::D, KeyExpansion::Modified(m)))
    } else if lo == 8 {
        Some(KeyKind::Alpha(Alpha::E, KeyExpansion::Modified(m)))
    } else if lo == 9 {
        Some(KeyKind::Alpha(Alpha::F, KeyExpansion::Modified(m)))
    } else if lo == 10 {
        Some(KeyKind::Alpha(Alpha::G, KeyExpansion::Modified(m)))
    } else if lo == 11 {
        Some(KeyKind::Alpha(Alpha::H, KeyExpansion::Modified(m)))
    } else if lo == 12 {
        Some(KeyKind::Alpha(Alpha::I, KeyExpansion::Modified(m)))
    } else if lo == 13 {
        Some(KeyKind::Alpha(Alpha::J, KeyExpansion::Modified(m)))
    } else if lo == 14 {
        Some(KeyKind::Alpha(Alpha::K, KeyExpansion::Modified(m)))
    } else if lo == 15 {
        Some(KeyKind::Alpha(Alpha::L, KeyExpansion::Modified(m)))
    } else if lo == 16 {
        Some(KeyKind::Alpha(Alpha::M, KeyExpansion::Modified(m)))
    } else if lo == 17 {
        Some(KeyKind::Alpha(Alpha::N, KeyExpansion::Modified(m)))
    } else if lo == 18 {
        Some(KeyKind::Alpha(Alpha::O, KeyExpansion::Modified(m)))
    } else if lo == 19 {
        Some(KeyKind::Alpha(Alpha::P, KeyExpansion::Modified(m)))
    } else if lo == 20 {
        Some(KeyKind::Alpha(Alpha::Q, KeyExpansion::Modified(m)))
    } else if lo == 21 {
        Some(KeyKind::Alpha(Alpha::R, KeyExpansion::Modified(m)))
    } else if lo == 22 {
        Some(KeyKind::Alpha(Alpha::S, KeyExpansion::Modified(m)))
    } else if lo == 23 {
        Some(KeyKind::Alpha(Alpha::T, KeyExpansion::Modified(m)))
    } else if lo == 24 {
        Some(KeyKind::Alpha(Alpha::U, KeyExpansion::Modified(m)))
    } else if lo == 25 {
        Some(KeyKind::Alpha(Alpha::V, KeyExpansion::Modified(m)))
    } else if lo == 26 {
        Some(KeyKind::Alpha(Alpha::W, KeyExpansion::Modified(m)))
    } else if lo == 27 {
        Some(KeyKind::Alpha(Alpha::X, KeyExpansion::Modified(m)))
    } else if lo == 28 {
        Some(KeyKind::Alpha(Alpha::Y, KeyExpansion::Modified(m)))
    } else if lo == 29 {
        Some(KeyKind::Alpha(Alpha::Z, KeyExpansion::Modified(m)))
    } else {
        None
    }
}

fn mod_key_alpha(lo: u16, m: ModifierSet) -> (r: Option<KeyKind>)
    ensures
        r == spec_mod_key_alpha(lo, m),
{
    if lo == 4 {
        Some(KeyKind::Alpha(Alpha::A, KeyExpansion::Modified(m)))
    } else if lo == 5 {
        Some(KeyKind::Alpha(Alpha::B, KeyExpansion::Modified(m)))
    } else if lo == 6 {
        Some(KeyKind::Alpha(Alpha::C, KeyExpansion::Modified(m)))
    } else if lo == 7 {
        Some(KeyKind::Alpha(Alpha::D, KeyExpansion::Modified(m)))
    } else if lo == 8 {
        Some(KeyKind::Alpha(Alpha::E, KeyExpansion::Modified(m)))
    } else if lo == 9 {
        Some(KeyKind::Alpha(Alpha::F, KeyExpansion::Modified(m)))
    } else if lo == 10 {
        Some(KeyKind::Alpha(Alpha::G, KeyExpansion::Modified(m)))
    } else if lo == 11 {
        Some(KeyKind::Alpha(Alpha::H, KeyExpansion::Modified(m)))
    } else if lo == 12 {
        Some(KeyKind::Alpha(Alpha::I, KeyExpansion::Modified(m)))
    } else if lo == 13 {
        Some(KeyKind::Alpha(Alpha::J, KeyExpansion::Modified(m)))
    } else if lo == 14 {
        Some(KeyKind::Alpha(Alpha::K, KeyExpansion::Modified(m)))
    } else if lo == 15 {
        Some(KeyKind::Alpha(Alpha::L, KeyExpansion::Modified(m)))
    } else if lo == 16 {
        Some(KeyKind::Alpha(Alpha::M, KeyExpansion::Modified(m)))
    } else if lo == 17 {
        Some(KeyKind::Alpha(Alpha::N, KeyExpansion::Modified(m)))
    } else if lo == 18 {
        Some(KeyKind::Alpha(Alpha::O, KeyExpansion::Modified(m)))
    } else if lo == 19 {
        Some(KeyKind::Alpha(Alpha::P, KeyExpansion::Modified(m)))
    } else if lo == 20 {
        Some(KeyKind::Alpha(Alpha::Q, KeyExpansion::Modified(m)))
    } else if lo == 21 {
        Some(KeyKind::Alpha(Alpha::R, KeyExpansion::Modified(m)))
    } else if lo == 22 {
        Some(KeyKind::Alpha(Alpha::S, KeyExpansion::Modified(m)))
    } else if lo == 23 {
        Some(KeyKind::Alpha(Alpha::T, KeyExpansion::Modified(m)))
    } else if lo == 24 {
        Some(KeyKind::Alpha(Alpha::U, KeyExpansion::Modified(m)))
    } else if lo == 25 {
        Some(KeyKind::Alpha(Alpha::V, KeyExpansion::Modified(m)))
    } else if lo == 26 {
        Some(KeyKind::Alpha(Alpha::W, KeyExpansion::Modified(m)))
    } else if lo == 27 {
        Some(KeyKind::Alpha(Alpha::X, KeyExpansion::Modified(m)))
    } else if lo == 28 {
        Some(KeyKind::Alpha(Alpha::Y, KeyExpansion::Modified(m)))
    } else if lo == 29 {
        Some(KeyKind::Alpha(Alpha::Z, KeyExpansion::Modified(m)))
    } else {
        None
    }
}

proof fn lemma_mod_key_alpha_encode(lo: u16, m: ModifierSet)
    requires
        spec_mod_key_alpha(lo, m) is Some,
        !m.is_empty(),
    ensures
        spec_mod_key_alpha(lo, m)->Some_0.wf(),
        spec_encode(spec_mod_key_alpha(lo, m)->Some_0) == lo + m.spec_value(),
{
    reveal(spec_encode);
}

pub open spec fn spec_mod_key_digits(lo: u16, m: ModifierSet) -> Option<KeyKind> {
    if lo == 30 {
        Some(KeyKind::Digits(Digits::One, KeyExpansion::Modified(m)))
    } else if lo == 31 {
        Some(KeyKind::Digits(Digits::Two, KeyExpansion::Modified(m)))
    } else if lo == 32 {
        Some(KeyKind::Digits(Digits::Three, KeyExpansion::Modified(m)))
    } else if lo == 33 {
        Some(KeyKind::Digits(Digits::Four, KeyExpansion::Modified(m)))
    } else if lo == 34 {
        Some(KeyKind::Digits(Digits::Five, KeyExpansion::Modified(m)))
    } else if lo == 35 {
        Some(KeyKind::Digits(Digits::Six, KeyExpansion::Modified(m)))
    } else if lo == 36 {
        Some(KeyKind::Digits(Digits::Seven, KeyExpansion::Modified(m)))
    } else if lo == 37 {
        Some(KeyKind::Digits(Digits::Eight, KeyExpansion::Modified(m)))
    } else if lo == 38 {
        Some(KeyKind::Digits(Digits::Nine, KeyExpansion::Modified(m)))
    } else if lo == 39 {
        Some(KeyKind::Digits(Digits::Zero, KeyExpansion::Modified(m)))
    } else {
        None
    }
}

fn mod_key_digits(lo: u16, m: ModifierSet) -> (r: Option<KeyKind>)
    ensures
        r == spec_mod_key_digits(lo, m),
{
    if lo == 30 {
        Some(KeyKind::Digits(Digits::One, KeyExpansion::Modified(m)))
    } else if lo == 31 {
        Some(KeyKind::Digits(Digits::Two, KeyExpansion::Modified(m)))
    } else if lo == 32 {
        Some(KeyKind::Digits(Digits::Three, KeyExpansion::Modified(m)))
    } else if lo == 33 {
        Some(KeyKind::Digits(Digits::Four, KeyExpansion::Modified(m)))
    } else if lo == 34 {
        Some(KeyKind::Digits(Digits::Five, KeyExpansion::Modified(m)))
    } else if lo == 35 {
        Some(KeyKind::Digits(Digits::Six, KeyExpansion::Modified(m)))
    } else if lo == 36 {
        Some(KeyKind::Digits(Digits::Seven, KeyExpansion::Modified(m)))
    } else if lo == 37 {
        Some(KeyKind::Digits(Digits::Eight, KeyExpansion::Modified(m)))
    } else if lo == 38 {
        Some(KeyKind::Digits(Digits::Nine, KeyExpansion::Modified(m)))
    } else if lo == 39 {
        Some(KeyKind::Digits(Digits::Zero, KeyExpansion::Modified(m)))
    } else {
        None
    }
}

proof fn lemma_mod_key_digits_encode(lo: u16, m: ModifierSet)
    requires
        spec_mod_key_digits(lo, m) is Some,
        !m.is_empty(),
    ensures
        spec_mod_key_digits(lo, m)->Some_0.wf(),
        spec_encode(spec_mod_key_digits(lo, m)->Some_0) == lo + m.spec_value(),
{
    reveal(spec_encode);
}

pub open spec fn spec_mod_key_numpad(lo: u16, m: ModifierSet) -> Option<KeyKind> {
    if lo == 83 {
        Some(KeyKind::Numpad(Numpad::NumLock, KeyExpansion::Modified(m)))
    } else if lo == 84 {
        Some(KeyKind::Numpad(Numpad::Divide, KeyExpansion::Modified(m)))
    } else if lo == 85 {
        Some(KeyKind::Numpad(Numpad::Times, KeyExpansion::Modified(m)))
    } else if lo == 86 {
        Some(KeyKind::Numpad(Numpad::Minus, KeyExpansion::Modified(m)))
    } else if lo == 87 {
        Some(KeyKind::Numpad(Numpad::Add, KeyExpansion::Modified(m)))
    } else if lo == 88 {
        Some(KeyKind::Numpad(Numpad::Enter, KeyExpansion::Modified(m)))
    } else if lo == 89 {
        Some(KeyKind::Numpad(Numpad::One, KeyExpansion::Modified(m)))
    } else if lo == 90 {
        Some(KeyKind::Numpad(Numpad::Two, KeyExpansion::Modified(m)))
    } else if lo == 91 {
        Some(KeyKind::Numpad(Numpad::Three, KeyExpansion::Modified(m)))
    } else if lo == 92 {
        Some(KeyKind::Numpad(Numpad::Four, KeyExpansion::Modified(m)))
    } else if lo == 93 {
        Some(KeyKind::Numpad(Numpad::Five, KeyExpansion::Modified(m)))
    } else if lo == 94 {
        Some(KeyKind::Numpad(Numpad::Six, KeyExpansion::Modified(m)))
    } else if lo == 95 {
        Some(KeyKind::Numpad(Numpad::Seven, KeyExpansion::Modified(m)))
    } else if lo == 96 {
        Some(KeyKind::Numpad(Numpad::Eight, KeyExpansion::Modified(m)))
    } else if lo == 97 {
        Some(KeyKind::Numpad(Numpad::Nine, KeyExpansion::Modified(m)))
    } else if lo == 98 {
        Some(KeyKind::Numpad(Numpad::Zero, KeyExpansion::Modified(m)))
    } else if lo == 99 {
        Some(KeyKind::Numpad(Numpad::Period, KeyExpansion::Modified(m)))
    } else {
        None
    }
}

fn mod_key_numpad(lo: u16, m: ModifierSet) -> (r: Option<KeyKind>)
    ensures
        r == spec_mod_key_numpad(lo, m),
{
    if lo == 83 {
        Some(KeyKind::Numpad(Numpad::NumLock, KeyExpansion::Modified(m)))
    } else if lo == 84 {
        Some(KeyKind::Numpad(Numpad::Divide, KeyExpansion::Modified(m)))
    } else if lo == 85 {
        Some(KeyKind::Numpad(Numpad::Times, KeyExpansion::Modified(m)))
    } else if lo == 86 {
        Some(KeyKind::Numpad(Numpad::Minus, KeyExpansion::Modified(m)))
    } else if lo == 87 {
        Some(KeyKind::Numpad(Numpad::Add, KeyExpansion::Modified(m)))
    } else if lo == 88 {
        Some(KeyKind::Numpad(Numpad::Enter, KeyExpansion::Modified(m)))
    } else if lo == 89 {
        Some(KeyKind::Numpad(Numpad::One, KeyExpansion::Modified(m)))
    } else if lo == 90 {
        Some(KeyKind::Numpad(Numpad::Two, KeyExpansion::Modified(m)))
    } else if lo == 91 {
        Some(KeyKind::Numpad(Numpad::Three, KeyExpansion::Modified(m)))
    } else if lo == 92 {
        Some(KeyKind::Numpad(Numpad::Four, KeyExpansion::Modified(m)))
    } else if lo == 93 {
        Some(KeyKind::Numpad(Numpad::Five, KeyExpansion::Modified(m)))
    } else if lo == 94 {
        Some(KeyKind::Numpad(Numpad::Six, KeyExpansion::Modified(m)))
    } else if lo == 95 {
        Some(KeyKind::Numpad(Numpad::Seven, KeyExpansion::Modified(m)))
    } else if lo == 96 {
        Some(KeyKind::Numpad(Numpad::Eight, KeyExpansion::Modified(m)))
    } else if lo == 97 {
        Some(KeyKind::Numpad(Numpad::Nine, KeyExpansion::Modified(m)))
    } else if lo == 98 {
        Some(KeyKind::Numpad(Numpad::Zero, KeyExpansion::Modified(m)))
    } else if lo == 99 {
        Some(KeyKind::Numpad(Numpad::Period, KeyExpansion::Modified(m)))
    } else {
        None
    }
}

proof fn lemma_mod_key_numpad_encode(lo: u16, m: ModifierSet)
    requires
        spec_mod_key_numpad(lo, m) is Some,
        !m.is_empty(),
    ensures
        spec_mod_key_numpad(lo, m)->Some_0.wf(),
        spec_encode(spec_mod_key_numpad(lo, m)->Some_0) == lo + m.spec_value(),
{
    reveal(spec_encode);
}

pub open spec fn spec_mod_key_fx(lo: u16, m: ModifierSet) -> Option<KeyKind> {
    if lo == 58 {
        Some(KeyKind::Fx(Fx::F1, KeyExpansion::Modified(m)))
    } else if lo == 59 {
        Some(KeyKind::Fx(Fx::F2, KeyExpansion::Modified(m)))
    } else if lo == 60 {
        Some(KeyKind::Fx(Fx::F3, KeyExpansion::Modified(m)))
    } else if lo == 61 {
        Some(KeyKind::Fx(Fx::F4, KeyExpansion::Modified(m)))
    } else if lo == 62 {
        Some(KeyKind::Fx(Fx::F5, KeyExpansion::Modified(m)))
    } else if lo == 63 {
        Some(KeyKind::Fx(Fx::F6, KeyExpansion::Modified(m)))
    } else if lo == 64 {
        Some(KeyKind::Fx(Fx::F7, KeyExpansion::Modified(m)))
    } else if lo == 65 {
        Some(KeyKind::Fx(Fx::F8, KeyExpansion::Modified(m)))
    } else if lo == 66 {
        Some(KeyKind::Fx(Fx::F9, KeyExpansion::Modified(m)))
    } else if lo == 67 {
        Some(KeyKind::Fx(Fx::F10, KeyExpansion::Modified(m)))
    } else if lo == 68 {
        Some(KeyKind::Fx(Fx::F11, KeyExpansion::Modified(m)))
    } else if lo == 69 {
        Some(KeyKind::Fx(Fx::F12, KeyExpansion::Modified(m)))
    } else if lo == 104 {
        Some(KeyKind::Fx(Fx::F13, KeyExpansion::Modified(m)))
    } else if lo == 105 {
        Some(KeyKind::Fx(Fx::F14, KeyExpansion::Modified(m)))
    } else if lo == 106 {
        Some(KeyKind::Fx(Fx::F15, KeyExpansion::Modified(m)))
    } else if lo == 107 {
        Some(KeyKind::Fx(Fx::F16, KeyExpansion::Modified(m)))
    } else if lo == 108 {
        Some(KeyKind::Fx(Fx::F17, KeyExpansion::Modified(m)))
    } else if lo == 109 {
        Some(KeyKind::Fx(Fx::F18, KeyExpansion::Modified(m)))
    } else if lo == 110 {
        Some(KeyKind::Fx(Fx::F19, KeyExpansion::Modified(m)))
    } else if lo == 111 {
        Some(KeyKind::Fx(Fx::F20, KeyExpansion::Modified(m)))
    } else if lo == 112 {
        Some(KeyKind::Fx(Fx::F21, KeyExpansion::Modified(m)))
    } else if lo == 113 {
        Some(KeyKind::Fx(Fx::F22, KeyExpansion::Modified(m)))
    } else if lo == 114 {
        Some(KeyKind::Fx(Fx::F23, KeyExpansion::Modified(m)))
    } else if lo == 115 {
        Some(KeyKind::Fx(Fx::F24, KeyExpansion::Modified(m)))
    } else {
        None
    }
}

fn mod_key_fx(lo: u16, m: ModifierSet) -> (r: Option<KeyKind>)
    ensures
        r == spec_mod_key_fx(lo, m),
{
    if lo == 58 {
        Some(KeyKind::Fx(Fx::F1, KeyExpansion::Modified(m)))
    } else if lo == 59 {
        Some(KeyKind::Fx(Fx::F2, KeyExpansion::Modified(m)))
    } else if lo == 60 {
        Some(KeyKind::Fx(Fx::F3, KeyExpansion::Modified(m)))
    } else if lo == 61 {
        Some(KeyKind::Fx(Fx::F4, KeyExpansion::Modified(m)))
    } else if lo == 62 {
        Some(KeyKind::Fx(Fx::F5, KeyExpansion::Modified(m)))
    } else if lo == 63 {
        Some(KeyKind::Fx(Fx::F6, KeyExpansion::Modified(m)))
    } else if lo == 64 {
        Some(KeyKind::Fx(Fx::F7, KeyExpansion::Modified(m)))
    } else if lo == 65 {
        Some(KeyKind::Fx(Fx::F8, KeyExpansion::Modified(m)))
    } else if lo == 66 {
        Some(KeyKind::Fx(Fx::F9, KeyExpansion::Modified(m)))
    } else if lo == 67 {
        Some(KeyKind::Fx(Fx::F10, KeyExpansion::Modified(m)))
    } else if lo == 68 {
        Some(KeyKind::Fx(Fx::F11, KeyExpansion::Modified(m)))
    } else if lo == 69 {
        Some(KeyKind::Fx(Fx::F12, KeyExpansion::Modified(m)))
    } else if lo == 104 {
        Some(KeyKind::Fx(Fx::F13, KeyExpansion::Modified(m)))
    } else if lo == 105 {
        Some(KeyKind::Fx(Fx::F14, KeyExpansion::Modified(m)))
    } else if lo == 106 {
        Some(KeyKind::Fx(Fx::F15, KeyExpansion::Modified(m)))
    } else if lo == 107 {
        Some(KeyKind::Fx(Fx::F16, KeyExpansion::Modified(m)))
    } else if lo == 108 {
        Some(KeyKind::Fx(Fx::F17, KeyExpansion::Modified(m)))
    } else if lo == 109 {
        Some(KeyKind::Fx(Fx::F18, KeyExpansion::Modified(m)))
    } else if lo == 110 {
        Some(KeyKind::Fx(Fx::F19, KeyExpansion::Modified(m)))
    } else if lo == 111 {
        Some(KeyKind::Fx(Fx::F20, KeyExpansion::Modified(m)))
    } else if lo == 112 {
        Some(KeyKind::Fx(Fx::F21, KeyExpansion::Modified(m)))
    } else if lo == 113 {
        Some(KeyKind::Fx(Fx::F22, KeyExpansion::Modified(m)))
    } else if lo == 114 {
        Some(KeyKind::Fx(Fx::F23, KeyExpansion::Modified(m)))
    } else if lo == 115 {
        Some(KeyKind::Fx(Fx::F24, KeyExpansion::Modified(m)))
    } else {
        None
    }
}

proof fn lemma_mod_key_fx_encode(lo: u16, m: ModifierSet)
    requires
        spec_mod_key_fx(lo, m) is Some,
        !m.is_empty(),
    ensures
        spec_mod_key_fx(lo, m)->Some_0.wf(),
        spec_encode(spec_mod_key_fx(lo, m)->Some_0) == lo + m.spec_value(),
{
    reveal(spec_encode);
}

pub open spec fn spec_mod_key_symbols(lo: u16, m: ModifierSet) -> Option<KeyKind> {
    if lo == 45 {
        Some(KeyKind::Symbols(Symbols::Dash, KeyExpansion::Modified(m)))
    } else if lo == 46 {
        Some(KeyKind::Symbols(Symbols::Equals, KeyExpansion::Modified(m)))
    } else if lo == 47 {
        Some(KeyKind::Symbols(Symbols::BracketLeft, KeyExpansion::Modified(m)))
    } else if lo == 48 {
        Some(KeyKind::Symbols(Symbols::BracketRight, KeyExpansion::Modified(m)))
    } else if lo == 49 {
        Some(KeyKind::Symbols(Symbols::Backslash, KeyExpansion::Modified(m)))
    } else if lo == 51 {
        Some(KeyKind::Symbols(Symbols::Semicolon, KeyExpansion::Modified(m)))
    } else if lo == 52 {
        Some(KeyKind::Symbols(Symbols::SingleQuote, KeyExpansion::Modified(m)))
    } else if lo == 53 {
        Some(KeyKind::Symbols(Symbols::BackTick, KeyExpansion::Modified(m)))
    } else if lo == 54 {
        Some(KeyKind::Symbols(Symbols::Comma, KeyExpansion::Modified(m)))
    } else if lo == 55 {
        Some(KeyKind::Symbols(Symbols::Period, KeyExpansion::Modified(m)))
    } else if lo == 56 {
        Some(KeyKind::Symbols(Symbols::Slash, KeyExpansion::Modified(m)))
    } else if lo == 57 {
        Some(KeyKind::Symbols(Symbols::CapsLock, KeyExpansion::Modified(m)))
    } else if lo == 100 {
        Some(KeyKind::Symbols(Symbols::IsoGTLT, KeyExpansion::Modified(m)))
    } else {
        None
    }
}

fn mod_key_symbols(lo: u16, m: ModifierSet) -> (r: Option<KeyKind>)
    ensures
        r == spec_mod_key_symbols(lo, m),
{
    if lo == 45 {
        Some(KeyKind::Symbols(Symbols::Dash, KeyExpansion::Modified(m)))
    } else if lo == 46 {
        Some(KeyKind::Symbols(Symbols::Equals, KeyExpansion::Modified(m)))
    } else if lo == 47 {
        Some(KeyKind::Symbols(Symbols::BracketLeft, KeyExpansion::Modified(m)))
    } else if lo == 48 {
        Some(KeyKind::Symbols(Symbols::BracketRight, KeyExpansion::Modified(m)))
    } else if lo == 49 {
        Some(KeyKind::Symbols(Symbols::Backslash, KeyExpansion::Modified(m)))
    } else if lo == 51 {
        Some(KeyKind::Symbols(Symbols::Semicolon, KeyExpansion::Modified(m)))
    } else if lo == 52 {
        Some(KeyKind::Symbols(Symbols::SingleQuote, KeyExpansion::Modified(m)))
    } else if lo == 53 {
        Some(KeyKind::Symbols(Symbols::BackTick, KeyExpansion::Modified(m)))
    } else if lo == 54 {
        Some(KeyKind::Symbols(Symbols::Comma, KeyExpansion::Modified(m)))
    } else if lo == 55 {
        Some(KeyKind::Symbols(Symbols::Period, KeyExpansion::Modified(m)))
    } else if lo == 56 {
        Some(KeyKind::Symbols(Symbols::Slash, KeyExpansion::Modified(m)))
    } else if lo == 57 {
        Some(KeyKind::Symbols(Symbols::CapsLock, KeyExpansion::Modified(m)))
    } else if lo == 100 {
        Some(KeyKind::Symbols(Symbols::IsoGTLT, KeyExpansion::Modified(m)))
    } else {
        None
    }
}

proof fn lemma_mod_key_symbols_encode(lo: u16, m: ModifierSet)
    requires
        spec_mod_key_symbols(lo, m) is Some,
        !m.is_empty(),
    ensures
        spec_mod_key_symbols(lo, m)->Some_0.wf(),
        spec_encode(spec_mod_key_symbols(lo, m)->Some_0) == lo + m.spec_value(),
{
    reveal(spec_encode);
}

pub open spec fn spec_mod_key_modifiers(lo: u16, m: ModifierSet) -> Option<KeyKind> {
    if lo == 224 {
        Some(KeyKind::Modifiers(Modifiers::LeftCtrl, KeyExpansion::Modified(m)))
    } else if lo == 225 {
        Some(KeyKind::Modifiers(Modifiers::LeftShift, KeyExpansion::Modified(m)))
    } else if lo == 226 {
        Some(KeyKind::Modifiers(Modifiers::LeftAlt, KeyExpansion::Modified(m)))
    } else if lo == 227 {
        Some(KeyKind::Modifiers(Modifiers::LeftOs, KeyExpansion::Modified(m)))
    } else if lo == 228 {
        Some(KeyKind::Modifiers(Modifiers::RightCtrl, KeyExpansion::Modified(m)))
    } else if lo == 229 {
        Some(KeyKind::Modifiers(Modifiers::RightShift, KeyExpansion::Modified(m)))
    } else if lo == 230 {
        Some(KeyKind::Modifiers(Modifiers::AltGr, KeyExpansion::Modified(m)))
    } else if lo == 231 {
        Some(KeyKind::Modifiers(Modifiers::RightOs, KeyExpansion::Modified(m)))
    } else {
        None
    }
}

fn mod_key_modifiers(lo: u16, m: ModifierSet) -> (r: Option<KeyKind>)
    ensures
        r == spec_mod_key_modifiers(lo, m),
{
    if lo == 224 {
        Some(KeyKind::Modifiers(Modifiers::LeftCtrl, KeyExpansion::Modified(m)))
    } else if lo == 225 {
        Some(KeyKind::Modifiers(Modifiers::LeftShift, KeyExpansion::Modified(m)))
    } else if lo == 226 {
        Some(KeyKind::Modifiers(Modifiers::LeftAlt, KeyExpansion::Modified(m)))
    } else if lo == 227 {
        Some(KeyKind::Modifiers(Modifiers::LeftOs, KeyExpansion::Modified(m)))
    } else if lo == 228 {
        Some(KeyKind::Modifiers(Modifiers::RightCtrl, KeyExpansion::Modified(m)))
    } else if lo == 229 {
        Some(KeyKind::Modifiers(Modifiers::RightShift, KeyExpansion::Modified(m)))
    } else if lo == 230 {
        Some(KeyKind::Modifiers(Modifiers::AltGr, KeyExpansion::Modified(m)))
    } else if lo == 231 {
        Some(KeyKind::Modifiers(Modifiers::RightOs, KeyExpansion::Modified(m)))
    } else {
        None
    }
}

proof fn lemma_mod_key_modifiers_encode(lo: u16, m: ModifierSet)
    requires
        spec_mod_key_modifiers(lo, m) is Some,
        !m.is_empty(),
    ensures
        spec_mod_key_modifiers(lo, m)->Some_0.wf(),
        spec_encode(spec_mod_key_modifiers(lo, m)->Some_0) == lo + m.spec_value(),
{
    reveal(spec_encode);
}

pub open spec fn spec_mod_key_navigation(lo: u16, m: ModifierSet) -> Option<KeyKind> {
    if lo == 74 {
        Some(KeyKind::Navigation(Navigation::Home, KeyExpansion::Modified(m)))
    } else if lo == 75 {
        Some(KeyKind::Navigation(Navigation::PageUp, KeyExpansion::Modified(m)))
    } else if lo == 77 {
        Some(KeyKind::Navigation(Navigation::End, KeyExpansion::Modified(m)))
    } else if lo == 78 {
        Some(KeyKind::Navigation(Navigation::PageDown, KeyExpansion::Modified(m)))
    } else if lo == 79 {
        Some(KeyKind::Navigation(Navigation::ArrowRight, KeyExpansion::Modified(m)))
    } else if lo == 80 {
        Some(KeyKind::Navigation(Navigation::ArrowLeft, KeyExpansion::Modified(m)))
    } else if lo == 81 {
        Some(KeyKind::Navigation(Navigation::ArrowDown, KeyExpansion::Modified(m)))
    } else if lo == 82 {
        Some(KeyKind::Navigation(Navigation::ArrowUp, KeyExpansion::Modified(m)))
    } else if lo == 101 {
        Some(KeyKind::Navigation(Navigation::Menu, KeyExpansion::Modified(m)))
    } else {
        None
    }
}

fn mod_key_navigation(lo: u16, m: ModifierSet) -> (r: Option<KeyKind>)
    ensures
        r == spec_mod_key_navigation(lo, m),
{
    if lo == 74 {
        Some(KeyKind::Navigation(Navigation::Home, KeyExpansion::Modified(m)))
    } else if lo == 75 {
        Some(KeyKind::Navigation(Navigation::PageUp, KeyExpansion::Modified(m)))
    } else if lo == 77 {
        Some(KeyKind::Navigation(Navigation::End, KeyExpansion::Modified(m)))
    } else if lo == 78 {
        Some(KeyKind::Navigation(Navigation::PageDown, KeyExpansion::Modified(m)))
    } else if lo == 79 {
        Some(KeyKind::Navigation(Navigation::ArrowRight, KeyExpansion::Modified(m)))
    } else if lo == 80 {
        Some(KeyKind::Navigation(Navigation::ArrowLeft, KeyExpansion::Modified(m)))
    } else if lo == 81 {
        Some(KeyKind::Navigation(Navigation::ArrowDown, KeyExpansion::Modified(m)))
    } else if lo == 82 {
        Some(KeyKind::Navigation(Navigation::ArrowUp, KeyExpansion::Modified(m)))
    } else if lo == 101 {
        Some(KeyKind::Navigation(Navigation::Menu, KeyExpansion::Modified(m)))
    } else {
        None
    }
}

proof fn lemma_mod_key_navigation_encode(lo: u16, m: ModifierSet)
    requires
        spec_mod_key_navigation(lo, m) is Some,
        !m.is_empty(),
    ensures
        spec_mod_key_navigation(lo, m)->Some_0.wf(),
        spec_encode(spec_mod_key_navigation(lo, m)->Some_0) == lo + m.spec_value(),
{
    reveal(spec_encode);
}

pub open spec fn spec_mod_key_miscellaneous(lo: u16, m: ModifierSet) -> Option<KeyKind> {
    if lo == 70 {
        Some(KeyKind::Miscellaneous(Miscellaneous::PrintScreen, KeyExpansion::Modified(m)))
    } else if lo == 71 {
        Some(KeyKind::Miscellaneous(Miscellaneous::ScrollLock, KeyExpansion::Modified(m)))
    } else if lo == 72 {
        Some(KeyKind::Miscellaneous(Miscellaneous::Pause, KeyExpansion::Modified(m)))
    } else {
        None
    }
}

fn mod_key_miscellaneous(lo: u16, m: ModifierSet) -> (r: Option<KeyKind>)
    ensures
        r == spec_mod_key_miscellaneous(lo, m),
{
    if lo == 70 {
        Some(KeyKind::Miscellaneous(Miscellaneous::PrintScreen, KeyExpansion::Modified(m)))
    } else if lo == 71 {
        Some(KeyKind::Miscellaneous(Miscellaneous::ScrollLock, KeyExpansion::Modified(m)))
    } else if lo == 72 {
        Some(KeyKind::Miscellaneous(Miscellaneous::Pause, KeyExpansion::Modified(m)))
    } else {
        None
    }
}

proof fn lemma_mod_key_miscellaneous_encode(lo: u16, m: ModifierSet)
    requires
        spec_mod_key_miscellaneous(lo, m) is Some,
        !m.is_empty(),
    ensures
        spec_mod_key_miscellaneous(lo, m)->Some_0.wf(),
        spec_encode(spec_mod_key_miscellaneous(lo, m)->Some_0) == lo + m.spec_value(),
{
    reveal(spec_encode);
}

pub open spec fn spec_dual_key_spacing(lo: u16, d: DualFunctionModifier) -> Option<KeyKind> {
    if lo == 40 {
        Some(KeyKind::Spacing(Spacing::Enter, KeyExpansion::Dual(d)))
    } else if lo == 41 {
        Some(KeyKind::Spacing(Spacing::Escape, KeyExpansion::Dual(d)))
    } else if lo == 42 {
        Some(KeyKind::Spacing(Spacing::Backspace, KeyExpansion::Dual(d)))
    } else if lo == 43 {
        Some(KeyKind::Spacing(Spacing::Tab, KeyExpansion::Dual(d)))
    } else if lo == 44 {
        Some(KeyKind::Spacing(Spacing::Space, KeyExpansion::Dual(d)))
    } else if lo == 73 {
        Some(KeyKind::Spacing(Spacing::Insert, KeyExpansion::Dual(d)))
    } else if lo == 76 {
        Some(KeyKind::Spacing(Spacing::Delete, KeyExpansion::Dual(d)))
    } else {
        None
    }
}

fn dual_key_spacing(lo: u16, d: DualFunctionModifier) -> (r: Option<KeyKind>)
    ensures
        r == spec_dual_key_spacing(lo, d),
{
    if lo == 40 {
        Some(KeyKind::Spacing(Spacing::Enter, KeyExpansion::Dual(d)))
    } else if lo == 41 {
        Some(KeyKind::Spacing(Spacing::Escape, KeyExpansion::Dual(d)))
    } else if lo == 42 {
        Some(KeyKind::Spacing(Spacing::Backspace, KeyExpansion::Dual(d)))
    } else if lo == 43 {
        Some(KeyKind::Spacing(Spacing::Tab, KeyExpansion::Dual(d)))
    } else if lo == 44 {
        Some(KeyKind::Spacing(Spacing::Space, KeyExpansion::Dual(d)))
    } else if lo == 73 {
        Some(KeyKind::Spacing(Spacing::Insert, KeyExpansion::Dual(d)))
    } else if lo == 76 {
        Some(KeyKind::Spacing(Spacing::Delete, KeyExpansion::Dual(d)))
    } else {
        None
    }
}

proof fn lemma_dual_key_spacing_encode(lo: u16, d: DualFunctionModifier)
    requires
        spec_dual_key_spacing(lo, d) is Some,
    ensures
        spec_dual_key_spacing(lo, d)->Some_0.wf(),
        spec_encode(spec_dual_key_spacing(lo, d)->Some_0) == lo + spec_dual_value(d),
{
    reveal(spec_encode);
}

pub open spec fn spec_dual_key_alpha(lo: u16, d: DualFunctionModifier) -> Option<KeyKind> {
    if lo == 4 {
        Some(KeyKind::Alpha(Alpha::A, KeyExpansion::Dual(d)))
    } else if lo == 5 {
        Some(KeyKind::Alpha(Alpha::B, KeyExpansion::Dual(d)))
    } else if lo == 6 {
        Some(KeyKind::Alpha(Alpha::C, KeyExpansion::Dual(d)))
    } else if lo == 7 {
        Some(KeyKind::Alpha(Alpha::D, KeyExpansion::Dual(d)))
    } else if lo == 8 {
        Some(KeyKind::Alpha(Alpha::E, KeyExpansion::Dual(d)))
    } else if lo == 9 {
        Some(KeyKind::Alpha(Alpha::F, KeyExpansion::Dual(d)))
    } else if lo == 10 {
        Some(KeyKind::Alpha(Alpha::G, KeyExpansion::Dual(d)))
    } else if lo == 11 {
        Some(KeyKind::Alpha(Alpha::H, KeyExpansion::Dual(d)))
    } else if lo == 12 {
        Some(KeyKind::Alpha(Alpha::I, KeyExpansion::Dual(d)))
    } else if lo == 13 {
        Some(KeyKind::Alpha(Alpha::J, KeyExpansion::Dual(d)))
    } else if lo == 14 {
        Some(KeyKind::Alpha(Alpha::K, KeyExpansion::Dual(d)))
    } else if lo == 15 {
        Some(KeyKind::Alpha(Alpha::L, KeyExpansion::Dual(d)))
    } else if lo == 16 {
        Some(KeyKind::Alpha(Alpha::M, KeyExpansion::Dual(d)))
    } else if lo == 17 {
        Some(KeyKind::Alpha(Alpha::N, KeyExpansion::Dual(d)))
    } else if lo == 18 {
        Some(KeyKind::Alpha(Alpha::O, KeyExpansion::Dual(d)))
    } else if lo == 19 {
        Some(KeyKind::Alpha(Alpha::P, KeyExpansion::Dual(d)))
    } else if lo == 20 {
        Some(KeyKind::Alpha(Alpha::Q, KeyExpansion::Dual(d)))
    } else if lo == 21 {
        Some(KeyKind::Alpha(Alpha::R, KeyExpansion::Dual(d)))
    } else if lo == 22 {
        Some(KeyKind::Alpha(Alpha::S, KeyExpansion::Dual(d)))
    } else if lo == 23 {
        Some(KeyKind::Alpha(Alpha::T, KeyExpansion::Dual(d)))
    } else if lo == 24 {
        Some(KeyKind::Alpha(Alpha::U, KeyExpansion::Dual(d)))
    } else if lo == 25 {
        Some(KeyKind::Alpha(Alpha::V, KeyExpansion::Dual(d)))
    } else if lo == 26 {
        Some(KeyKind::Alpha(Alpha::W, KeyExpansion::Dual(d)))
    } else if lo == 27 {
        Some(KeyKind::Alpha(Alpha::X, KeyExpansion::Dual(d)))
    } else if lo == 28 {
        Some(KeyKind::Alpha(Alpha::Y, KeyExpansion::Dual(d)))
    } else if lo == 29 {
        Some(KeyKind::Alpha(Alpha::Z, KeyExpansion::Dual(d)))
    } else {
        None
    }
}

fn dual_key_alpha(lo: u16, d: DualFunctionModifier) -> (r: Option<KeyKind>)
    ensures
        r == spec_dual_key_alpha(lo, d),
{
    if lo == 4 {
        Some(KeyKind::Alpha(Alpha::A, KeyExpansion::Dual(d)))
    } else if lo == 5 {
        Some(KeyKind::Alpha(Alpha::B, KeyExpansion::Dual(d)))
    } else if lo == 6 {
        Some(KeyKind::Alpha(Alpha::C, KeyExpansion::Dual(d)))
    } else if lo == 7 {
        Some(KeyKind::Alpha(Alpha::D, KeyExpansion::Dual(d)))
    } else if lo == 8 {
        Some(KeyKind::Alpha(Alpha::E, KeyExpansion::Dual(d)))
    } else if lo == 9 {
        Some(KeyKind::Alpha(Alpha::F, KeyExpansion::Dual(d)))
    } else if lo == 10 {
        Some(KeyKind::Alpha(Alpha::G, KeyExpansion::Dual(d)))
    } else if lo == 11 {
        Some(KeyKind::Alpha(Alpha::H, KeyExpansion::Dual(d)))
    } else if lo == 12 {
        Some(KeyKind::Alpha(Alpha::I, KeyExpansion::Dual(d)))
    } else if lo == 13 {
        Some(KeyKind::Alpha(Alpha::J, KeyExpansion::Dual(d)))
    } else if lo == 14 {
        Some(KeyKind::Alpha(Alpha::K, KeyExpansion::Dual(d)))
    } else if lo == 15 {
        Some(KeyKind::Alpha(Alpha::L, KeyExpansion::Dual(d)))
    } else if lo == 16 {
        Some(KeyKind::Alpha(Alpha::M, KeyExpansion::Dual(d)))
    } else if lo == 17 {
        Some(KeyKind::Alpha(Alpha::N, KeyExpansion::Dual(d)))
    } else if lo == 18 {
        Some(KeyKind::Alpha(Alpha::O, KeyExpansion::Dual(d)))
    } else if lo == 19 {
        Some(KeyKind::Alpha(Alpha::P, KeyExpansion::Dual(d)))
    } else if lo == 20 {
        Some(KeyKind::Alpha(Alpha::Q, KeyExpansion::Dual(d)))
    } else if lo == 21 {
        Some(KeyKind::Alpha(Alpha::R, KeyExpansion::Dual(d)))
    } else if lo == 22 {
        Some(KeyKind::Alpha(Alpha::S, KeyExpansion::Dual(d)))
    } else if lo == 23 {
        Some(KeyKind::Alpha(Alpha::T, KeyExpansion::Dual(d)))
    } else if lo == 24 {
        Some(KeyKind::Alpha(Alpha::U, KeyExpansion::Dual(d)))
    } else if lo == 25 {
        Some(KeyKind::Alpha(Alpha::V, KeyExpansion::Dual(d)))
    } else if lo == 26 {
        Some(KeyKind::Alpha(Alpha::W, KeyExpansion::Dual(d)))
    } else if lo == 27 {
        Some(KeyKind::Alpha(Alpha::X, KeyExpansion::Dual(d)))
    } else if lo == 28 {
        Some(KeyKind::Alpha(Alpha::Y, KeyExpansion::Dual(d)))
    } else if lo == 29 {
        Some(KeyKind::Alpha(Alpha::Z, KeyExpansion::Dual(d)))
    } else {
        None
    }
}

proof fn lemma_dual_key_alpha_encode(lo: u16, d: DualFunctionModifier)
    requires
        spec_dual_key_alpha(lo, d) is Some,
    ensures
        spec_dual_key_alpha(lo, d)->Some_0.wf(),
        spec_encode(spec_dual_key_alpha(lo, d)->Some_0) == lo + spec_dual_value(d),
{
    reveal(spec_encode);
}

pub open spec fn spec_dual_key_digits(lo: u16, d: DualFunctionModifier) -> Option<KeyKind> {
    if lo == 30 {
        Some(KeyKind::Digits(Digits::One, KeyExpansion::Dual(d)))
    } else if lo == 31 {
        Some(KeyKind::Digits(Digits::Two, KeyExpansion::Dual(d)))
    } else if lo == 32 {
        Some(KeyKind::Digits(Digits::Three, KeyExpansion::Dual(d)))
    } else if lo == 33 {
        Some(KeyKind::Digits(Digits::Four, KeyExpansion::Dual(d)))
    } else if lo == 34 {
        Some(KeyKind::Digits(Digits::Five, KeyExpansion::Dual(d)))
    } else if lo == 35 {
        Some(KeyKind::Digits(Digits::Six, KeyExpansion::Dual(d)))
    } else if lo == 36 {
        Some(KeyKind::Digits(Digits::Seven, KeyExpansion::Dual(d)))
    } else if lo == 37 {
        Some(KeyKind::Digits(Digits::Eight, KeyExpansion::Dual(d)))
    } else if lo == 38 {
        Some(KeyKind::Digits(Digits::Nine, KeyExpansion::Dual(d)))
    } else if lo == 39 {
        Some(KeyKind::Digits(Digits::Zero, KeyExpansion::Dual(d)))
    } else {
        None
    }
}

fn dual_key_digits(lo: u16, d: DualFunctionModifier) -> (r: Option<KeyKind>)
    ensures
        r == spec_dual_key_digits(lo, d),
{
    if lo == 30 {
        Some(KeyKind::Digits(Digits::One, KeyExpansion::Dual(d)))
    } else if lo == 31 {
        Some(KeyKind::Digits(Digits::Two, KeyExpansion::Dual(d)))
    } else if lo == 32 {
        Some(KeyKind::Digits(Digits::Three, KeyExpansion::Dual(d)))
    } else if lo == 33 {
        Some(KeyKind::Digits(Digits::Four, KeyExpansion::Dual(d)))
    } else if lo == 34 {
        Some(KeyKind::Digits(Digits::Five, KeyExpansion::Dual(d)))
    } else if lo == 35 {
        Some(KeyKind::Digits(Digits::Six, KeyExpansion::Dual(d)))
    } else if lo == 36 {
        Some(KeyKind::Digits(Digits::Seven, KeyExpansion::Dual(d)))
    } else if lo == 37 {
        Some(KeyKind::Digits(Digits::Eight, KeyExpansion::Dual(d)))
    } else if lo == 38 {
        Some(KeyKind::Digits(Digits::Nine, KeyExpansion::Dual(d)))
    } else if lo == 39 {
        Some(KeyKind::Digits(Digits::Zero, KeyExpansion::Dual(d)))
    } else {
        None
    }
}

proof fn lemma_dual_key_digits_encode(lo: u16, d: DualFunctionModifier)
    requires
        spec_dual_key_digits(lo, d) is Some,
    ensures
        spec_dual_key_digits(lo, d)->Some_0.wf(),
        spec_encode(spec_dual_key_digits(lo, d)->Some_0) == lo + spec_dual_value(d),
{
    reveal(spec_encode);
}

pub open spec fn spec_dual_key_numpad(lo: u16, d: DualFunctionModifier) -> Option<KeyKind> {
    if lo == 83 {
        Some(KeyKind::Numpad(Numpad::NumLock, KeyExpansion::Dual(d)))
    } else if lo == 84 {
        Some(KeyKind::Numpad(Numpad::Divide, KeyExpansion::Dual(d)))
    } else if lo == 85 {
        Some(KeyKind::Numpad(Numpad::Times, KeyExpansion::Dual(d)))
    } else if lo == 86 {
        Some(KeyKind::Numpad(Numpad::Minus, KeyExpansion::Dual(d)))
    } else if lo == 87 {
        Some(KeyKind::Numpad(Numpad::Add, KeyExpansion::Dual(d)))
    } else if lo == 88 {
        Some(KeyKind::Numpad(Numpad::Enter, KeyExpansion::Dual(d)))
    } else if lo == 89 {
        Some(KeyKind::Numpad(Numpad::One, KeyExpansion::Dual(d)))
    } else if lo == 90 {
        Some(KeyKind::Numpad(Numpad::Two, KeyExpansion::Dual(d)))
    } else if lo == 91 {
        Some(KeyKind::Numpad(Numpad::Three, KeyExpansion::Dual(d)))
    } else if lo == 92 {
        Some(KeyKind::Numpad(Numpad::Four, KeyExpansion::Dual(d)))
    } else if lo == 93 {
        Some(KeyKind::Numpad(Numpad::Five, KeyExpansion::Dual(d)))
    } else if lo == 94 {
        Some(KeyKind::Numpad(Numpad::Six, KeyExpansion::Dual(d)))
    } else if lo == 95 {
        Some(KeyKind::Numpad(Numpad::Seven, KeyExpansion::Dual(d)))
    } else if lo == 96 {
        Some(KeyKind::Numpad(Numpad::Eight, KeyExpansion::Dual(d)))
    } else if lo == 97 {
        Some(KeyKind::Numpad(Numpad::Nine, KeyExpansion::Dual(d)))
    } else if lo == 98 {
        Some(KeyKind::Numpad(Numpad::Zero, KeyExpansion::Dual(d)))
    } else if lo == 99 {
        Some(KeyKind::Numpad(Numpad::Period, KeyExpansion::Dual(d)))
    } else {
        None
    }
}

fn dual_key_numpad(lo: u16, d: DualFunctionModifier) -> (r: Option<KeyKind>)
    ensures
        r == spec_dual_key_numpad(lo, d),
{
    if lo == 83 {
        Some(KeyKind::Numpad(Numpad::NumLock, KeyExpansion::Dual(d)))
    } else if lo == 84 {
        Some(KeyKind::Numpad(Numpad::Divide, KeyExpansion::Dual(d)))
    } else if lo == 85 {
        Some(KeyKind::Numpad(Numpad::Times, KeyExpansion::Dual(d)))
    } else if lo == 86 {
        Some(KeyKind::Numpad(Numpad::Minus, KeyExpansion::Dual(d)))
    } else if lo == 87 {
        Some(KeyKind::Numpad(Numpad::Add, KeyExpansion::Dual(d)))
    } else if lo == 88 {
        Some(KeyKind::Numpad(Numpad::Enter, KeyExpansion::Dual(d)))
    } else if lo == 89 {
        Some(KeyKind::Numpad(Numpad::One, KeyExpansion::Dual(d)))
    } else if lo == 90 {
        Some(KeyKind::Numpad(Numpad::Two, KeyExpansion::Dual(d)))
    } else if lo == 91 {
        Some(KeyKind::Numpad(Numpad::Three, KeyExpansion::Dual(d)))
    } else if lo == 92 {
        Some(KeyKind::Numpad(Numpad::Four, KeyExpansion::Dual(d)))
    } else if lo == 93 {
        Some(KeyKind::Numpad(Numpad::Five, KeyExpansion::Dual(d)))
    } else if lo == 94 {
        Some(KeyKind::Numpad(Numpad::Six, KeyExpansion::Dual(d)))
    } else if lo == 95 {
        Some(KeyKind::Numpad(Numpad::Seven, KeyExpansion::Dual(d)))
    } else if lo == 96 {
        Some(KeyKind::Numpad(Numpad::Eight, KeyExpansion::Dual(d)))
    } else if lo == 97 {
        Some(KeyKind::Numpad(Numpad::Nine, KeyExpansion::Dual(d)))
    } else if lo == 98 {
        Some(KeyKind::Numpad(Numpad::Zero, KeyExpansion::Dual(d)))
    } else if lo == 99 {
        Some(KeyKind::Numpad(Numpad::Period, KeyExpansion::Dual(d)))
    } else {
        None
    }
}

proof fn lemma_dual_key_numpad_encode(lo: u16, d: DualFunctionModifier)
    requires
        spec_dual_key_numpad(lo, d) is Some,
    ensures
        spec_dual_key_numpad(lo, d)->Some_0.wf(),
        spec_encode(spec_dual_key_numpad(lo, d)->Some_0) == lo + spec_dual_value(d),
{
    reveal(spec_encode);
}

pub open spec fn spec_dual_key_fx(lo: u16, d: DualFunctionModifier) -> Option<KeyKind> {
    if lo == 58 {
        Some(KeyKind::Fx(Fx::F1, KeyExpansion::Dual(d)))
    } else if lo == 59 {
        Some(KeyKind::Fx(Fx::F2, KeyExpansion::Dual(d)))
    } else if lo == 60 {
        Some(KeyKind::Fx(Fx::F3, KeyExpansion::Dual(d)))
    } else if lo == 61 {
        Some(KeyKind::Fx(Fx::F4, KeyExpansion::Dual(d)))
    } else if lo == 62 {
        Some(KeyKind::Fx(Fx::F5, KeyExpansion::Dual(d)))
    } else if lo == 63 {
        Some(KeyKind::Fx(Fx::F6, KeyExpansion::Dual(d)))
    } else if lo == 64 {
        Some(KeyKind::Fx(Fx::F7, KeyExpansion::Dual(d)))
    } else if lo == 65 {
        Some(KeyKind::Fx(Fx::F8, KeyExpansion::Dual(d)))
    } else if lo == 66 {
        Some(KeyKind::Fx(Fx::F9, KeyExpansion::Dual(d)))
    } else if lo == 67 {
        Some(KeyKind::Fx(Fx::F10, KeyExpansion::Dual(d)))
    } else if lo == 68 {
        Some(KeyKind::Fx(Fx::F11, KeyExpansion::Dual(d)))
    } else if lo == 69 {
        Some(KeyKind::Fx(Fx::F12, KeyExpansion::Dual(d)))
    } else if lo == 104 {
        Some(KeyKind::Fx(Fx::F13, KeyExpansion::Dual(d)))
    } else if lo == 105 {
        Some(KeyKind::Fx(Fx::F14, KeyExpansion::Dual(d)))
    } else if lo == 106 {
        Some(KeyKind::Fx(Fx::F15, KeyExpansion::Dual(d)))
    } else if lo == 107 {
        Some(KeyKind::Fx(Fx::F16, KeyExpansion::Dual(d)))
    } else if lo == 108 {
        Some(KeyKind::Fx(Fx::F17, KeyExpansion::Dual(d)))
    } else if lo == 109 {
        Some(KeyKind::Fx(Fx::F18, KeyExpansion::Dual(d)))
    } else if lo == 110 {
        Some(KeyKind::Fx(Fx::F19, KeyExpansion::Dual(d)))
    } else if lo == 111 {
        Some(KeyKind::Fx(Fx::F20, KeyExpansion::Dual(d)))
    } else if lo == 112 {
        Some(KeyKind::Fx(Fx::F21, KeyExpansion::Dual(d)))
    } else if lo == 113 {
        Some(KeyKind::Fx(Fx::F22, KeyExpansion::Dual(d)))
    } else if lo == 114 {
        Some(KeyKind::Fx(Fx::F23, KeyExpansion::Dual(d)))
    } else if lo == 115 {
        Some(KeyKind::Fx(Fx::F24, KeyExpansion::Dual(d)))
    } else {
        None
    }
}

fn dual_key_fx(lo: u16, d: DualFunctionModifier) -> (r: Option<KeyKind>)
    ensures
        r == spec_dual_key_fx(lo, d),
{
    if lo == 58 {
        Some(KeyKind::Fx(Fx::F1, KeyExpansion::Dual(d)))
    } else if lo == 59 {
        Some(KeyKind::Fx(Fx::F2, KeyExpansion::Dual(d)))
    } else if lo == 60 {
        Some(KeyKind::Fx(Fx::F3, KeyExpansion::Dual(d)))
    } else if lo == 61 {
        Some(KeyKind::Fx(Fx::F4, KeyExpansion::Dual(d)))
    } else if lo == 62 {
        Some(KeyKind::Fx(Fx::F5, KeyExpansion::Dual(d)))
    } else if lo == 63 {
        Some(KeyKind::Fx(Fx::F6, KeyExpansion::Dual(d)))
    } else if lo == 64 {
        Some(KeyKind::Fx(Fx::F7, KeyExpansion::Dual(d)))
    } else if lo == 65 {
        Some(KeyKind::Fx(Fx::F8, KeyExpansion::Dual(d)))
    } else if lo == 66 {
        Some(KeyKind::Fx(Fx::F9, KeyExpansion::Dual(d)))
    } else if lo == 67 {
        Some(KeyKind::Fx(Fx::F10, KeyExpansion::Dual(d)))
    } else if lo == 68 {
        Some(KeyKind::Fx(Fx::F11, KeyExpansion::Dual(d)))
    } else if lo == 69 {
        Some(KeyKind::Fx(Fx::F12, KeyExpansion::Dual(d)))
    } else if lo == 104 {
        Some(KeyKind::Fx(Fx::F13, KeyExpansion::Dual(d)))
    } else if lo == 105 {
        Some(KeyKind::Fx(Fx::F14, KeyExpansion::Dual(d)))
    } else if lo == 106 {
        Some(KeyKind::Fx(Fx::F15, KeyExpansion::Dual(d)))
    } else if lo == 107 {
        Some(KeyKind::Fx(Fx::F16, KeyExpansion::Dual(d)))
    } else if lo == 108 {
        Some(KeyKind::Fx(Fx::F17, KeyExpansion::Dual(d)))
    } else if lo == 109 {
        Some(KeyKind::Fx(Fx::F18, KeyExpansion::Dual(d)))
    } else if lo == 110 {
        Some(KeyKind::Fx(Fx::F19, KeyExpansion::Dual(d)))
    } else if lo == 111 {
        Some(KeyKind::Fx(Fx::F20, KeyExpansion::Dual(d)))
    } else if lo == 112 {
        Some(KeyKind::Fx(Fx::F21, KeyExpansion::Dual(d)))
    } else if lo == 113 {
        Some(KeyKind::Fx(Fx::F22, KeyExpansion::Dual(d)))
    } else if lo == 114 {
        Some(KeyKind::Fx(Fx::F23, KeyExpansion::Dual(d)))
    } else if lo == 115 {
        Some(KeyKind::Fx(Fx::F24, KeyExpansion::Dual(d)))
    } else {
        None
    }
}

proof fn lemma_dual_key_fx_encode(lo: u16, d: DualFunctionModifier)
    requires
        spec_dual_key_fx(lo, d) is Some,
    ensures
        spec_dual_key_fx(lo, d)->Some_0.wf(),
        spec_encode(spec_dual_key_fx(lo, d)->Some_0) == lo + spec_dual_value(d),
{
    reveal(spec_encode);
}

pub open spec fn spec_dual_key_symbols(lo: u16, d: DualFunctionModifier) -> Option<KeyKind> {
    if lo == 45 {
        Some(KeyKind::Symbols(Symbols::Dash, KeyExpansion::Dual(d)))
    } else if lo == 46 {
        Some(KeyKind::Symbols(Symbols::Equals, KeyExpansion::Dual(d)))
    } else if lo == 47 {
        Some(KeyKind::Symbols(Symbols::BracketLeft, KeyExpansion::Dual(d)))
    } else if lo == 48 {
        Some(KeyKind::Symbols(Symbols::BracketRight, KeyExpansion::Dual(d)))
    } else if lo == 49 {
        Some(KeyKind::Symbols(Symbols::Backslash, KeyExpansion::Dual(d)))
    } else if lo == 51 {
        Some(KeyKind::Symbols(Symbols::Semicolon, KeyExpansion::Dual(d)))
    } else if lo == 52 {
        Some(KeyKind::Symbols(Symbols::SingleQuote, KeyExpansion::Dual(d)))
    } else if lo == 53 {
        Some(KeyKind::Symbols(Symbols::BackTick, KeyExpansion::Dual(d)))
    } else if lo == 54 {
        Some(KeyKind::Symbols(Symbols::Comma, KeyExpansion::Dual(d)))
    } else if lo == 55 {
        Some(KeyKind::Symbols(Symbols::Period, KeyExpansion::Dual(d)))
    } else if lo == 56 {
        Some(KeyKind::Symbols(Symbols::Slash, KeyExpansion::Dual(d)))
    } else if lo == 57 {
        Some(KeyKind::Symbols(Symbols::CapsLock, KeyExpansion::Dual(d)))
    } else if lo == 100 {
        Some(KeyKind::Symbols(Symbols::IsoGTLT, KeyExpansion::Dual(d)))
    } else {
        None
    }
}

fn dual_key_symbols(lo: u16, d: DualFunctionModifier) -> (r: Option<KeyKind>)
    ensures
        r == spec_dual_key_symbols(lo, d),
{
    if lo == 45 {
        Some(KeyKind::Symbols(Symbols::Dash, KeyExpansion::Dual(d)))
    } else if lo == 46 {
        Some(KeyKind::Symbols(Symbols::Equals, KeyExpansion::Dual(d)))
    } else if lo == 47 {
        Some(KeyKind::Symbols(Symbols::BracketLeft, KeyExpansion::Dual(d)))
    } else if lo == 48 {
        Some(KeyKind::Symbols(Symbols::BracketRight, KeyExpansion::Dual(d)))
    } else if lo == 49 {
        Some(KeyKind::Symbols(Symbols::Backslash, KeyExpansion::Dual(d)))
    } else if lo == 51 {
        Some(KeyKind::Symbols(Symbols::Semicolon, KeyExpansion::Dual(d)))
    } else if lo == 52 {
        Some(KeyKind::Symbols(Symbols::SingleQuote, KeyExpansion::Dual(d)))
    } else if lo == 53 {
        Some(KeyKind::Symbols(Symbols::BackTick, KeyExpansion::Dual(d)))
    } else if lo == 54 {
        Some(KeyKind::Symbols(Symbols::Comma, KeyExpansion::Dual(d)))
    } else if lo == 55 {
        Some(KeyKind::Symbols(Symbols::Period, KeyExpansion::Dual(d)))
    } else if lo == 56 {
        Some(KeyKind::Symbols(Symbols::Slash, KeyExpansion::Dual(d)))
    } else if lo == 57 {
        Some(KeyKind::Symbols(Symbols::CapsLock, KeyExpansion::Dual(d)))
    } else if lo == 100 {
        Some(KeyKind::Symbols(Symbols::IsoGTLT, KeyExpansion::Dual(d)))
    } else {
        None
    }
}

proof fn lemma_dual_key_symbols_encode(lo: u16, d: DualFunctionModifier)
    requires
        spec_dual_key_symbols(lo, d) is Some,
    ensures
        spec_dual_key_symbols(lo, d)->Some_0.wf(),
        spec_encode(spec_dual_key_symbols(lo, d)->Some_0) == lo + spec_dual_value(d),
{
    reveal(spec_encode);
}

pub open spec fn spec_dual_key_navigation(lo: u16, d: DualFunctionModifier) -> Option<KeyKind> {
    if lo == 74 {
        Some(KeyKind::Navigation(Navigation::Home, KeyExpansion::Dual(d)))
    } else if lo == 75 {
        Some(KeyKind::Navigation(Navigation::PageUp, KeyExpansion::Dual(d)))
    } else if lo == 77 {
        Some(KeyKind::Navigation(Navigation::End, KeyExpansion::Dual(d)))
    } else if lo == 78 {
        Some(KeyKind::Navigation(Navigation::PageDown, KeyExpansion::Dual(d)))
    } else if lo == 79 {
        Some(KeyKind::Navigation(Navigation::ArrowRight, KeyExpansion::Dual(d)))
    } else if lo == 80 {
        Some(KeyKind::Navigation(Navigation::ArrowLeft, KeyExpansion::Dual(d)))
    } else if lo == 81 {
        Some(KeyKind::Navigation(Navigation::ArrowDown, KeyExpansion::Dual(d)))
    } else if lo == 82 {
        Some(KeyKind::Navigation(Navigation::ArrowUp, KeyExpansion::Dual(d)))
    } else if lo == 101 {
        Some(KeyKind::Navigation(Navigation::Menu, KeyExpansion::Dual(d)))
    } else {
        None
    }
}

fn dual_key_navigation(lo: u16, d: DualFunctionModifier) -> (r: Option<KeyKind>)
    ensures
        r == spec_dual_key_navigation(lo, d),
{
    if lo == 74 {
        Some(KeyKind::Navigation(Navigation::Home, KeyExpansion::Dual(d)))
    } else if lo == 75 {
        Some(KeyKind::Navigation(Navigation::PageUp, KeyExpansion::Dual(d)))
    } else if lo == 77 {
        Some(KeyKind::Navigation(Navigation::End, KeyExpansion::Dual(d)))
    } else if lo == 78 {
        Some(KeyKind::Navigation(Navigation::PageDown, KeyExpansion::Dual(d)))
    } else if lo == 79 {
        Some(KeyKind::Navigation(Navigation::ArrowRight, KeyExpansion::Dual(d)))
    } else if lo == 80 {
        Some(KeyKind::Navigation(Navigation::ArrowLeft, KeyExpansion::Dual(d)))
    } else if lo == 81 {
        Some(KeyKind::Navigation(Navigation::ArrowDown, KeyExpansion::Dual(d)))
    } else if lo == 82 {
        Some(KeyKind::Navigation(Navigation::ArrowUp, KeyExpansion::Dual(d)))
    } else if lo == 101 {
        Some(KeyKind::Navigation(Navigation::Menu, KeyExpansion::Dual(d)))
    } else {
        None
    }
}

proof fn lemma_dual_key_navigation_encode(lo: u16, d: DualFunctionModifier)
    requires
        spec_dual_key_navigation(lo, d) is Some,
    ensures
        spec_dual_key_navigation(lo, d)->Some_0.wf(),
        spec_encode(spec_dual_key_navigation(lo, d)->Some_0) == lo + spec_dual_value(d),
{
    reveal(spec_encode);
}

pub open spec fn spec_dual_key_miscellaneous(lo: u16, d: DualFunctionModifier) -> Option<KeyKind> {
    if lo == 70 {
        Some(KeyKind::Miscellaneous(Miscellaneous::PrintScreen, KeyExpansion::Dual(d)))
    } else if lo == 71 {
        Some(KeyKind::Miscellaneous(Miscellaneous::ScrollLock, KeyExpansion::Dual(d)))
    } else if lo == 72 {
        Some(KeyKind::Miscellaneous(Miscellaneous::Pause, KeyExpansion::Dual(d)))
    } else {
        None
    }
}

fn dual_key_miscellaneous(lo: u16, d: DualFunctionModifier) -> (r: Option<KeyKind>)
    ensures
        r == spec_dual_key_miscellaneous(lo, d),
{
    if lo == 70 {
        Some(KeyKind::Miscellaneous(Miscellaneous::PrintScreen, KeyExpansion::Dual(d)))
    } else if lo == 71 {
        Some(KeyKind::Miscellaneous(Miscellaneous::ScrollLock, KeyExpansion::Dual(d)))
    } else if lo == 72 {
        Some(KeyKind::Miscellaneous(Miscellaneous::Pause, KeyExpansion::Dual(d)))
    } else {
        None
    }
}

proof fn lemma_dual_key_miscellaneous_encode(lo: u16, d: DualFunctionModifier)
    requires
        spec_dual_key_miscellaneous(lo, d) is Some,
    ensures
        spec_dual_key_miscellaneous(lo, d)->Some_0.wf(),
        spec_encode(spec_dual_key_miscellaneous(lo, d)->Some_0) == lo + spec_dual_value(d),
{
    reveal(spec_encode);
}

pub open spec fn spec_base_key_blank(c: u16) -> Option<KeyKind> {
    if c == 0 {
        Some(KeyKind::Blank(Blank::NoKey))
    } else if c == 65535 {
        Some(KeyKind::Blank(Blank::Transparent))
    } else {
        None
    }
}

fn base_key_blank(c: u16) -> (r: Option<KeyKind>)
    ensures
        r == spec_base_key_blank(c),
{
    if c == 0 {
        Some(KeyKind::Blank(Blank::NoKey))
    } else if c == 65535 {
        Some(KeyKind::Blank(Blank::Transparent))
    } else {
        None
    }
}

proof fn lemma_base_key_blank_encode(c: u16)
    requires
        spec_base_key_blank(c) is Some,
    ensures
        spec_base_key_blank(c)->Some_0.wf(),
        spec_encode(spec_base_key_blank(c)->Some_0) == c as int,
{
    reveal(spec_encode);
}

pub open spec fn spec_base_key_spacing(c: u16) -> Option<KeyKind> {
    if c == 40 {
        Some(KeyKind::Spacing(Spacing::Enter, KeyExpansion::Plain))
    } else if c == 41 {
        Some(KeyKind::Spacing(Spacing::Escape, KeyExpansion::Plain))
    } else if c == 42 {
        Some(KeyKind::Spacing(Spacing::Backspace, KeyExpansion::Plain))
    } else if c == 43 {
        Some(KeyKind::Spacing(Spacing::Tab, KeyExpansion::Plain))
    } else if c == 44 {
        Some(KeyKind::Spacing(Spacing::Space, KeyExpansion::Plain))
    } else if c == 73 {
        Some(KeyKind::Spacing(Spacing::Insert, KeyExpansion::Plain))
    } else if c == 76 {
        Some(KeyKind::Spacing(Spacing::Delete, KeyExpansion::Plain))
    } else {
        None
    }
}

fn base_key_spacing(c: u16) -> (r: Option<KeyKind>)
    ensures
        r == spec_base_key_spacing(c),
{
    if c == 40 {
        Some(KeyKind::Spacing(Spacing::Enter, KeyExpansion::Plain))
    } else if c == 41 {
        Some(KeyKind::Spacing(Spacing::Escape, KeyExpansion::Plain))
    } else if c == 42 {
        Some(KeyKind::Spacing(Spacing::Backspace, KeyExpansion::Plain))
    } else if c == 43 {
        Some(KeyKind::Spacing(Spacing::Tab, KeyExpansion::Plain))
    } else if c == 44 {
        Some(KeyKind::Spacing(Spacing::Space, KeyExpansion::Plain))
    } else if c == 73 {
        Some(KeyKind::Spacing(Spacing::Insert, KeyExpansion::Plain))
    } else if c == 76 {
        Some(KeyKind::Spacing(Spacing::Delete, KeyExpansion::Plain))
    } else {
        None
    }
}

proof fn lemma_base_key_spacing_encode(c: u16)
    requires
        spec_base_key_spacing(c) is Some,
    ensures
        spec_base_key_spacing(c)->Some_0.wf(),
        spec_encode(spec_base_key_spacing(c)->Some_0) == c as int,
{
    reveal(spec_encode);
}

pub open spec fn spec_base_key_alpha(c: u16) -> Option<KeyKind> {
    if c == 4 {
        Some(KeyKind::Alpha(Alpha::A, KeyExpansion::Plain))
    } else if c == 5 {
        Some(KeyKind::Alpha(Alpha::B, KeyExpansion::Plain))
    } else if c == 6 {
        Some(KeyKind::Alpha(Alpha::C, KeyExpansion::Plain))
    } else if c == 7 {
        Some(KeyKind::Alpha(Alpha::D, KeyExpansion::Plain))
    } else if c == 8 {
        Some(KeyKind::Alpha(Alpha::E, KeyExpansion::Plain))
    } else if c == 9 {
        Some(KeyKind::Alpha(Alpha::F, KeyExpansion::Plain))
    } else if c == 10 {
        Some(KeyKind::Alpha(Alpha::G, KeyExpansion::Plain))
    } else if c == 11 {
        Some(KeyKind::Alpha(Alpha::H, KeyExpansion::Plain))
    } else if c == 12 {
        Some(KeyKind::Alpha(Alpha::I, KeyExpansion::Plain))
    } else if c == 13 {
        Some(KeyKind::Alpha(Alpha::J, KeyExpansion::Plain))
    } else if c == 14 {
        Some(KeyKind::Alpha(Alpha::K, KeyExpansion::Plain))
    } else if c == 15 {
        Some(KeyKind::Alpha(Alpha::L, KeyExpansion::Plain))
    } else if c == 16 {
        Some(KeyKind::Alpha(Alpha::M, KeyExpansion::Plain))
    } else if c == 17 {
        Some(KeyKind::Alpha(Alpha::N, KeyExpansion::Plain))
    } else if c == 18 {
        Some(KeyKind::Alpha(Alpha::O, KeyExpansion::Plain))
    } else if c == 19 {
        Some(KeyKind::Alpha(Alpha::P, KeyExpansion::Plain))
    } else if c == 20 {
        Some(KeyKind::Alpha(Alpha::Q, KeyExpansion::Plain))
    } else if c == 21 {
        Some(KeyKind::Alpha(Alpha::R, KeyExpansion::Plain))
    } else if c == 22 {
        Some(KeyKind::Alpha(Alpha::S, KeyExpansion::Plain))
    } else if c == 23 {
        Some(KeyKind::Alpha(Alpha::T, KeyExpansion::Plain))
    } else if c == 24 {
        Some(KeyKind::Alpha(Alpha::U, KeyExpansion::Plain))
    } else if c == 25 {
        Some(KeyKind::Alpha(Alpha::V, KeyExpansion::Plain))
    } else if c == 26 {
        Some(KeyKind::Alpha(Alpha::W, KeyExpansion::Plain))
    } else if c == 27 {
        Some(KeyKind::Alpha(Alpha::X, KeyExpansion::Plain))
    } else if c == 28 {
        Some(KeyKind::Alpha(Alpha::Y, KeyExpansion::Plain))
    } else if c == 29 {
        Some(KeyKind::Alpha(Alpha::Z, KeyExpansion::Plain))
    } else {
        None
    }
}

fn base_key_alpha(c: u16) -> (r: Option<KeyKind>)
    ensures
        r == spec_base_key_alpha(c),
{
    if c == 4 {
        Some(KeyKind::Alpha(Alpha::A, KeyExpansion::Plain))
    } else if c == 5 {
        Some(KeyKind::Alpha(Alpha::B, KeyExpansion::Plain))
    } else if c == 6 {
        Some(KeyKind::Alpha(Alpha::C, KeyExpansion::Plain))
    } else if c == 7 {
        Some(KeyKind::Alpha(Alpha::D, KeyExpansion::Plain))
    } else if c == 8 {
        Some(KeyKind::Alpha(Alpha::E, KeyExpansion::Plain))
    } else if c == 9 {
        Some(KeyKind::Alpha(Alpha::F, KeyExpansion::Plain))
    } else if c == 10 {
        Some(KeyKind::Alpha(Alpha::G, KeyExpansion::Plain))
    } else if c == 11 {
        Some(KeyKind::Alpha(Alpha::H, KeyExpansion::Plain))
    } else if c == 12 {
        Some(KeyKind::Alpha(Alpha::I, KeyExpansion::Plain))
    } else if c == 13 {
        Some(KeyKind::Alpha(Alpha::J, KeyExpansion::Plain))
    } else if c == 14 {
        Some(KeyKind::Alpha(Alpha::K, KeyExpansion::Plain))
    } else if c == 15 {
        Some(KeyKind::Alpha(Alpha::L, KeyExpansion::Plain))
    } else if c == 16 {
        Some(KeyKind::Alpha(Alpha::M, KeyExpansion::Plain))
    } else if c == 17 {
        Some(KeyKind::Alpha(Alpha::N, KeyExpansion::Plain))
    } else if c == 18 {
        Some(KeyKind::Alpha(Alpha::O, KeyExpansion::Plain))
    } else if c == 19 {
        Some(KeyKind::Alpha(Alpha::P, KeyExpansion::Plain))
    } else if c == 20 {
        Some(KeyKind::Alpha(Alpha::Q, KeyExpansion::Plain))
    } else if c == 21 {
        Some(KeyKind::Alpha(Alpha::R, KeyExpansion::Plain))
    } else if c == 22 {
        Some(KeyKind::Alpha(Alpha::S, KeyExpansion::Plain))
    } else if c == 23 {
        Some(KeyKind::Alpha(Alpha::T, KeyExpansion::Plain))
    } else if c == 24 {
        Some(KeyKind::Alpha(Alpha::U, KeyExpansion::Plain))
    } else if c == 25 {
        Some(KeyKind::Alpha(Alpha::V, KeyExpansion::Plain))
    } else if c == 26 {
        Some(KeyKind::Alpha(Alpha::W, KeyExpansion::Plain))
    } else if c == 27 {
        Some(KeyKind::Alpha(Alpha::X, KeyExpansion::Plain))
    } else if c == 28 {
        Some(KeyKind::Alpha(Alpha::Y, KeyExpansion::Plain))
    } else if c == 29 {
        Some(KeyKind::Alpha(Alpha::Z, KeyExpansion::Plain))
    } else {
        None
    }
}

proof fn lemma_base_key_alpha_encode(c: u16)
    requires
        spec_base_key_alpha(c) is Some,
    ensures
        spec_base_key_alpha(c)->Some_0.wf(),
        spec_encode(spec_base_key_alpha(c)->Some_0) == c as int,
{
    reveal(spec_encode);
}

pub open spec fn spec_base_key_digits(c: u16) -> Option<KeyKind> {
    if c == 30 {
        Some(KeyKind::Digits(Digits::One, KeyExpansion::Plain))
    } else if c == 31 {
        Some(KeyKind::Digits(Digits::Two, KeyExpansion::Plain))
    } else if c == 32 {
        Some(KeyKind::Digits(Digits::Three, KeyExpansion::Plain))
    } else if c == 33 {
        Some(KeyKind::Digits(Digits::Four, KeyExpansion::Plain))
    } else if c == 34 {
        Some(KeyKind::Digits(Digits::Five, KeyExpansion::Plain))
    } else if c == 35 {
        Some(KeyKind::Digits(Digits::Six, KeyExpansion::Plain))
    } else if c == 36 {
        Some(KeyKind::Digits(Digits::Seven, KeyExpansion::Plain))
    } else if c == 37 {
        Some(KeyKind::Digits(Digits::Eight, KeyExpansion::Plain))
    } else if c == 38 {
        Some(KeyKind::Digits(Digits::Nine, KeyExpansion::Plain))
    } else if c == 39 {
        Some(KeyKind::Digits(Digits::Zero, KeyExpansion::Plain))
    } else {
        None
    }
}

fn base_key_digits(c: u16) -> (r: Option<KeyKind>)
    ensures
        r == spec_base_key_digits(c),
{
    if c == 30 {
        Some(KeyKind::Digits(Digits::One, KeyExpansion::Plain))
    } else if c == 31 {
        Some(KeyKind::Digits(Digits::Two, KeyExpansion::Plain))
    } else if c == 32 {
        Some(KeyKind::Digits(Digits::Three, KeyExpansion::Plain))
    } else if c == 33 {
        Some(KeyKind::Digits(Digits::Four, KeyExpansion::Plain))
    } else if c == 34 {
        Some(KeyKind::Digits(Digits::Five, KeyExpansion::Plain))
    } else if c == 35 {
        Some(KeyKind::Digits(Digits::Six, KeyExpansion::Plain))
    } else if c == 36 {
        Some(KeyKind::Digits(Digits::Seven, KeyExpansion::Plain))
    } else if c == 37 {
        Some(KeyKind::Digits(Digits::Eight, KeyExpansion::Plain))
    } else if c == 38 {
        Some(KeyKind::Digits(Digits::Nine, KeyExpansion::Plain))
    } else if c == 39 {
        Some(KeyKind::Digits(Digits::Zero, KeyExpansion::Plain))
    } else {
        None
    }
}

proof fn lemma_base_key_digits_encode(c: u16)
    requires
        spec_base_key_digits(c) is Some,
    ensures
        spec_base_key_digits(c)->Some_0.wf(),
        spec_encode(spec_base_key_digits(c)->Some_0) == c as int,
{
    reveal(spec_encode);
}

pub open spec fn spec_base_key_numpad(c: u16) -> Option<KeyKind> {
    if c == 83 {
        Some(KeyKind::Numpad(Numpad::NumLock, KeyExpansion::Plain))
    } else if c == 84 {
        Some(KeyKind::Numpad(Numpad::Divide, KeyExpansion::Plain))
    } else if c == 85 {
        Some(KeyKind::Numpad(Numpad::Times, KeyExpansion::Plain))
    } else if c == 86 {
        Some(KeyKind::Numpad(Numpad::Minus, KeyExpansion::Plain))
    } else if c == 87 {
        Some(KeyKind::Numpad(Numpad::Add, KeyExpansion::Plain))
    } else if c == 88 {
        Some(KeyKind::Numpad(Numpad::Enter, KeyExpansion::Plain))
    } else if c == 89 {
        Some(KeyKind::Numpad(Numpad::One, KeyExpansion::Plain))
    } else if c == 90 {
        Some(KeyKind::Numpad(Numpad::Two, KeyExpansion::Plain))
    } else if c == 91 {
        Some(KeyKind::Numpad(Numpad::Three, KeyExpansion::Plain))
    } else if c == 92 {
        Some(KeyKind::Numpad(Numpad::Four, KeyExpansion::Plain))
    } else if c == 93 {
        Some(KeyKind::Numpad(Numpad::Five, KeyExpansion::Plain))
    } else if c == 94 {
        Some(KeyKind::Numpad(Numpad::Six, KeyExpansion::Plain))
    } else if c == 95 {
        Some(KeyKind::Numpad(Numpad::Seven, KeyExpansion::Plain))
    } else if c == 96 {
        Some(KeyKind::Numpad(Numpad::Eight, KeyExpansion::Plain))
    } else if c == 97 {
        Some(KeyKind::Numpad(Numpad::Nine, KeyExpansion::Plain))
    } else if c == 98 {
        Some(KeyKind::Numpad(Numpad::Zero, KeyExpansion::Plain))
    } else if c == 99 {
        Some(KeyKind::Numpad(Numpad::Period, KeyExpansion::Plain))
    } else {
        None
    }
}

fn base_key_numpad(c: u16) -> (r: Option<KeyKind>)
    ensures
        r == spec_base_key_numpad(c),
{
    if c == 83 {
        Some(KeyKind::Numpad(Numpad::NumLock, KeyExpansion::Plain))
    } else if c == 84 {
        Some(KeyKind::Numpad(Numpad::Divide, KeyExpansion::Plain))
    } else if c == 85 {
        Some(KeyKind::Numpad(Numpad::Times, KeyExpansion::Plain))
    } else if c == 86 {
        Some(KeyKind::Numpad(Numpad::Minus, KeyExpansion::Plain))
    } else if c == 87 {
        Some(KeyKind::Numpad(Numpad::Add, KeyExpansion::Plain))
    } else if c == 88 {
        Some(KeyKind::Numpad(Numpad::Enter, KeyExpansion::Plain))
    } else if c == 89 {
        Some(KeyKind::Numpad(Numpad::One, KeyExpansion::Plain))
    } else if c == 90 {
        Some(KeyKind::Numpad(Numpad::Two, KeyExpansion::Plain))
    } else if c == 91 {
        Some(KeyKind::Numpad(Numpad::Three, KeyExpansion::Plain))
    } else if c == 92 {
        Some(KeyKind::Numpad(Numpad::Four, KeyExpansion::Plain))
    } else if c == 93 {
        Some(KeyKind::Numpad(Numpad::Five, KeyExpansion::Plain))
    } else if c == 94 {
        Some(KeyKind::Numpad(Numpad::Six, KeyExpansion::Plain))
    } else if c == 95 {
        Some(KeyKind::Numpad(Numpad::Seven, KeyExpansion::Plain))
    } else if c == 96 {
        Some(KeyKind::Numpad(Numpad::Eight, KeyExpansion::Plain))
    } else if c == 97 {
        Some(KeyKind::Numpad(Numpad::Nine, KeyExpansion::Plain))
    } else if c == 98 {
        Some(KeyKind::Numpad(Numpad::Zero, KeyExpansion::Plain))
    } else if c == 99 {
        Some(KeyKind::Numpad(Numpad::Period, KeyExpansion::Plain))
    } else {
        None
    }
}

proof fn lemma_base_key_numpad_encode(c: u16)
    requires
        spec_base_key_numpad(c) is Some,
    ensures
        spec_base_key_numpad(c)->Some_0.wf(),
        spec_encode(spec_base_key_numpad(c)->Some_0) == c as int,
{
    reveal(spec_encode);
}

pub open spec fn spec_base_key_fx(c: u16) -> Option<KeyKind> {
    if c == 58 {
        Some(KeyKind::Fx(Fx::F1, KeyExpansion::Plain))
    } else if c == 59 {
        Some(KeyKind::Fx(Fx::F2, KeyExpansion::Plain))
    } else if c == 60 {
        Some(KeyKind::Fx(Fx::F3, KeyExpansion::Plain))
    } else if c == 61 {
        Some(KeyKind::Fx(Fx::F4, KeyExpansion::Plain))
    } else if c == 62 {
        Some(KeyKind::Fx(Fx::F5, KeyExpansion::Plain))
    } else if c == 63 {
        Some(KeyKind::Fx(Fx::F6, KeyExpansion::Plain))
    } else if c == 64 {
        Some(KeyKind::Fx(Fx::F7, KeyExpansion::Plain))
    } else if c == 65 {
        Some(KeyKind::Fx(Fx::F8, KeyExpansion::Plain))
    } else if c == 66 {
        Some(KeyKind::Fx(Fx::F9, KeyExpansion::Plain))
    } else if c == 67 {
        Some(KeyKind::Fx(Fx::F10, KeyExpansion::Plain))
    } else if c == 68 {
        Some(KeyKind::Fx(Fx::F11, KeyExpansion::Plain))
    } else if c == 69 {
        Some(KeyKind::Fx(Fx::F12, KeyExpansion::Plain))
    } else if c == 104 {
        Some(KeyKind::Fx(Fx::F13, KeyExpansion::Plain))
    } else if c == 105 {
        Some(KeyKind::Fx(Fx::F14, KeyExpansion::Plain))
    } else if c == 106 {
        Some(KeyKind::Fx(Fx::F15, KeyExpansion::Plain))
    } else if c == 107 {
        Some(KeyKind::Fx(Fx::F16, KeyExpansion::Plain))
    } else if c == 108 {
        Some(KeyKind::Fx(Fx::F17, KeyExpansion::Plain))
    } else if c == 109 {
        Some(KeyKind::Fx(Fx::F18, KeyExpansion::Plain))
    } else if c == 110 {
        Some(KeyKind::Fx(Fx::F19, KeyExpansion::Plain))
    } else if c == 111 {
        Some(KeyKind::Fx(Fx::F20, KeyExpansion::Plain))
    } else if c == 112 {
        Some(KeyKind::Fx(Fx::F21, KeyExpansion::Plain))
    } else if c == 113 {
        Some(KeyKind::Fx(Fx::F22, KeyExpansion::Plain))
    } else if c == 114 {
        Some(KeyKind::Fx(Fx::F23, KeyExpansion::Plain))
    } else if c == 115 {
        Some(KeyKind::Fx(Fx::F24, KeyExpansion::Plain))
    } else {
        None
    }
}

fn base_key_fx(c: u16) -> (r: Option<KeyKind>)
    ensures
        r == spec_base_key_fx(c),
{
    if c == 58 {
        Some(KeyKind::Fx(Fx::F1, KeyExpansion::Plain))
    } else if c == 59 {
        Some(KeyKind::Fx(Fx::F2, KeyExpansion::Plain))
    } else if c == 60 {
        Some(KeyKind::Fx(Fx::F3, KeyExpansion::Plain))
    } else if c == 61 {
        Some(KeyKind::Fx(Fx::F4, KeyExpansion::Plain))
    } else if c == 62 {
        Some(KeyKind::Fx(Fx::F5, KeyExpansion::Plain))
    } else if c == 63 {
        Some(KeyKind::Fx(Fx::F6, KeyExpansion::Plain))
    } else if c == 64 {
        Some(KeyKind::Fx(Fx::F7, KeyExpansion::Plain))
    } else if c == 65 {
        Some(KeyKind::Fx(Fx::F8, KeyExpansion::Plain))
    } else if c == 66 {
        Some(KeyKind::Fx(Fx::F9, KeyExpansion::Plain))
    } else if c == 67 {
        Some(KeyKind::Fx(Fx::F10, KeyExpansion::Plain))
    } else if c == 68 {
        Some(KeyKind::Fx(Fx::F11, KeyExpansion::Plain))
    } else if c == 69 {
        Some(KeyKind::Fx(Fx::F12, KeyExpansion::Plain))
    } else if c == 104 {
        Some(KeyKind::Fx(Fx::F13, KeyExpansion::Plain))
    } else if c == 105 {
        Some(KeyKind::Fx(Fx::F14, KeyExpansion::Plain))
    } else if c == 106 {
        Some(KeyKind::Fx(Fx::F15, KeyExpansion::Plain))
    } else if c == 107 {
        Some(KeyKind::Fx(Fx::F16, KeyExpansion::Plain))
    } else if c == 108 {
        Some(KeyKind::Fx(Fx::F17, KeyExpansion::Plain))
    } else if c == 109 {
        Some(KeyKind::Fx(Fx::F18, KeyExpansion::Plain))
    } else if c == 110 {
        Some(KeyKind::Fx(Fx::F19, KeyExpansion::Plain))
    } else if c == 111 {
        Some(KeyKind::Fx(Fx::F20, KeyExpansion::Plain))
    } else if c == 112 {
        Some(KeyKind::Fx(Fx::F21, KeyExpansion::Plain))
    } else if c == 113 {
        Some(KeyKind::Fx(Fx::F22, KeyExpansion::Plain))
    } else if c == 114 {
        Some(KeyKind::Fx(Fx::F23, KeyExpansion::Plain))
    } else if c == 115 {
        Some(KeyKind::Fx(Fx::F24, KeyExpansion::Plain))
    } else {
        None
    }
}

proof fn lemma_base_key_fx_encode(c: u16)
    requires
        spec_base_key_fx(c) is Some,
    ensures
        spec_base_key_fx(c)->Some_0.wf(),
        spec_encode(spec_base_key_fx(c)->Some_0) == c as int,
{
    reveal(spec_encode);
}

pub open spec fn spec_base_key_symbols(c: u16) -> Option<KeyKind> {
    if c == 45 {
        Some(KeyKind::Symbols(Symbols::Dash, KeyExpansion::Plain))
    } else if c == 46 {
        Some(KeyKind::Symbols(Symbols::Equals, KeyExpansion::Plain))
    } else if c == 47 {
        Some(KeyKind::Symbols(Symbols::BracketLeft, KeyExpansion::Plain))
    } else if c == 48 {
        Some(KeyKind::Symbols(Symbols::BracketRight, KeyExpansion::Plain))
    } else if c == 49 {
        Some(KeyKind::Symbols(Symbols::Backslash, KeyExpansion::Plain))
    } else if c == 51 {
        Some(KeyKind::Symbols(Symbols::Semicolon, KeyExpansion::Plain))
    } else if c == 52 {
        Some(KeyKind::Symbols(Symbols::SingleQuote, KeyExpansion::Plain))
    } else if c == 53 {
        Some(KeyKind::Symbols(Symbols::BackTick, KeyExpansion::Plain))
    } else if c == 54 {
        Some(KeyKind::Symbols(Symbols::Comma, KeyExpansion::Plain))
    } else if c == 55 {
        Some(KeyKind::Symbols(Symbols::Period, KeyExpansion::Plain))
    } else if c == 56 {
        Some(KeyKind::Symbols(Symbols::Slash, KeyExpansion::Plain))
    } else if c == 57 {
        Some(KeyKind::Symbols(Symbols::CapsLock, KeyExpansion::Plain))
    } else if c == 100 {
        Some(KeyKind::Symbols(Symbols::IsoGTLT, KeyExpansion::Plain))
    } else {
        None
    }
}

fn base_key_symbols(c: u16) -> (r: Option<KeyKind>)
    ensures
        r == spec_base_key_symbols(c),
{
    if c == 45 {
        Some(KeyKind::Symbols(Symbols::Dash, KeyExpansion::Plain))
    } else if c == 46 {
        Some(KeyKind::Symbols(Symbols::Equals, KeyExpansion::Plain))
    } else if c == 47 {
        Some(KeyKind::Symbols(Symbols::BracketLeft, KeyExpansion::Plain))
    } else if c == 48 {
        Some(KeyKind::Symbols(Symbols::BracketRight, KeyExpansion::Plain))
    } else if c == 49 {
        Some(KeyKind::Symbols(Symbols::Backslash, KeyExpansion::Plain))
    } else if c == 51 {
        Some(KeyKind::Symbols(Symbols::Semicolon, KeyExpansion::Plain))
    } else if c == 52 {
        Some(KeyKind::Symbols(Symbols::SingleQuote, KeyExpansion::Plain))
    } else if c == 53 {
        Some(KeyKind::Symbols(Symbols::BackTick, KeyExpansion::Plain))
    } else if c == 54 {
        Some(KeyKind::Symbols(Symbols::Comma, KeyExpansion::Plain))
    } else if c == 55 {
        Some(KeyKind::Symbols(Symbols::Period, KeyExpansion::Plain))
    } else if c == 56 {
        Some(KeyKind::Symbols(Symbols::Slash, KeyExpansion::Plain))
    } else if c == 57 {
        Some(KeyKind::Symbols(Symbols::CapsLock, KeyExpansion::Plain))
    } else if c == 100 {
        Some(KeyKind::Symbols(Symbols::IsoGTLT, KeyExpansion::Plain))
    } else {
        None
    }
}

proof fn lemma_base_key_symbols_encode(c: u16)
    requires
        spec_base_key_symbols(c) is Some,
    ensures
        spec_base_key_symbols(c)->Some_0.wf(),
        spec_encode(spec_base_key_symbols(c)->Some_0) == c as int,
{
    reveal(spec_encode);
}

pub open spec fn spec_base_key_shift_symbols(c: u16) -> Option<KeyKind> {
    if c == 2093 {
        Some(KeyKind::ShiftSymbols(ShiftSymbols::Underscore))
    } else if c == 2094 {
        Some(KeyKind::ShiftSymbols(ShiftSymbols::Plus))
    } else if c == 2095 {
        Some(KeyKind::ShiftSymbols(ShiftSymbols::BraceLeft))
    } else if c == 2096 {
        Some(KeyKind::ShiftSymbols(ShiftSymbols::BraceRight))
    } else if c == 2097 {
        Some(KeyKind::ShiftSymbols(ShiftSymbols::Pipe))
    } else if c == 2099 {
        Some(KeyKind::ShiftSymbols(ShiftSymbols::Colon))
    } else if c == 2100 {
        Some(KeyKind::ShiftSymbols(ShiftSymbols::DoubleQuote))
    } else if c == 2101 {
        Some(KeyKind::ShiftSymbols(ShiftSymbols::Tilde))
    } else if c == 2102 {
        Some(KeyKind::ShiftSymbols(ShiftSymbols::LT))
    } else if c == 2103 {
        Some(KeyKind::ShiftSymbols(ShiftSymbols::GT))
    } else if c == 2104 {
        Some(KeyKind::ShiftSymbols(ShiftSymbols::QuestionMark))
    } else if c == 2148 {
        Some(KeyKind::ShiftSymbols(ShiftSymbols::AltPipe))
    } else {
        None
    }
}

fn base_key_shift_symbols(c: u16) -> (r: Option<KeyKind>)
    ensures
        r == spec_base_key_shift_symbols(c),
{
    if c == 2093 {
        Some(KeyKind::ShiftSymbols(ShiftSymbols::Underscore))
    } else if c == 2094 {
        Some(KeyKind::ShiftSymbols(ShiftSymbols::Plus))
    } else if c == 2095 {
        Some(KeyKind::ShiftSymbols(ShiftSymbols::BraceLeft))
    } else if c == 2096 {
        Some(KeyKind::ShiftSymbols(ShiftSymbols::BraceRight))
    } else if c == 2097 {
        Some(KeyKind::ShiftSymbols(ShiftSymbols::Pipe))
    } else if c == 2099 {
        Some(KeyKind::ShiftSymbols(ShiftSymbols::Colon))
    } else if c == 2100 {
        Some(KeyKind::ShiftSymbols(ShiftSymbols::DoubleQuote))
    } else if c == 2101 {
        Some(KeyKind::ShiftSymbols(ShiftSymbols::Tilde))
    } else if c == 2102 {
        Some(KeyKind::ShiftSymbols(ShiftSymbols::LT))
    } else if c == 2103 {
        Some(KeyKind::ShiftSymbols(ShiftSymbols::GT))
    } else if c == 2104 {
        Some(KeyKind::ShiftSymbols(ShiftSymbols::QuestionMark))
    } else if c == 2148 {
        Some(KeyKind::ShiftSymbols(ShiftSymbols::AltPipe))
    } else {
        None
    }
}

proof fn lemma_base_key_shift_symbols_encode(c: u16)
    requires
        spec_base_key_shift_symbols(c) is Some,
    ensures
        spec_base_key_shift_symbols(c)->Some_0.wf(),
        spec_encode(spec_base_key_shift_symbols(c)->Some_0) == c as int,
{
    reveal(spec_encode);
}

pub open spec fn spec_base_key_modifiers(c: u16) -> Option<KeyKind> {
    if c == 224 {
        Some(KeyKind::Modifiers(Modifiers::LeftCtrl, KeyExpansion::Plain))
    } else if c == 225 {
        Some(KeyKind::Modifiers(Modifiers::LeftShift, KeyExpansion::Plain))
    } else if c == 226 {
        Some(KeyKind::Modifiers(Modifiers::LeftAlt, KeyExpansion::Plain))
    } else if c == 227 {
        Some(KeyKind::Modifiers(Modifiers::LeftOs, KeyExpansion::Plain))
    } else if c == 228 {
        Some(KeyKind::Modifiers(Modifiers::RightCtrl, KeyExpansion::Plain))
    } else if c == 229 {
        Some(KeyKind::Modifiers(Modifiers::RightShift, KeyExpansion::Plain))
    } else if c == 230 {
        Some(KeyKind::Modifiers(Modifiers::AltGr, KeyExpansion::Plain))
    } else if c == 231 {
        Some(KeyKind::Modifiers(Modifiers::RightOs, KeyExpansion::Plain))
    } else {
        None
    }
}

fn base_key_modifiers(c: u16) -> (r: Option<KeyKind>)
    ensures
        r == spec_base_key_modifiers(c),
{
    if c == 224 {
        Some(KeyKind::Modifiers(Modifiers::LeftCtrl, KeyExpansion::Plain))
    } else if c == 225 {
        Some(KeyKind::Modifiers(Modifiers::LeftShift, KeyExpansion::Plain))
    } else if c == 226 {
        Some(KeyKind::Modifiers(Modifiers::LeftAlt, KeyExpansion::Plain))
    } else if c == 227 {
        Some(KeyKind::Modifiers(Modifiers::LeftOs, KeyExpansion::Plain))
    } else if c == 228 {
        Some(KeyKind::Modifiers(Modifiers::RightCtrl, KeyExpansion::Plain))
    } else if c == 229 {
        Some(KeyKind::Modifiers(Modifiers::RightShift, KeyExpansion::Plain))
    } else if c == 230 {
        Some(KeyKind::Modifiers(Modifiers::AltGr, KeyExpansion::Plain))
    } else if c == 231 {
        Some(KeyKind::Modifiers(Modifiers::RightOs, KeyExpansion::Plain))
    } else {
        None
    }
}

proof fn lemma_base_key_modifiers_encode(c: u16)
    requires
        spec_base_key_modifiers(c) is Some,
    ensures
        spec_base_key_modifiers(c)->Some_0.wf(),
        spec_encode(spec_base_key_modifiers(c)->Some_0) == c as int,
{
    reveal(spec_encode);
}

pub open spec fn spec_base_key_media(c: u16) -> Option<KeyKind> {
    if c == 19682 {
        Some(KeyKind::Media(Media::Mute))
    } else if c == 22709 {
        Some(KeyKind::Media(Media::NextTrack))
    } else if c == 22710 {
        Some(KeyKind::Media(Media::PreviousTrack))
    } else if c == 22711 {
        Some(KeyKind::Media(Media::Stop))
    } else if c == 22733 {
        Some(KeyKind::Media(Media::PlayPause))
    } else if c == 23785 {
        Some(KeyKind::Media(Media::VolumeUp))
    } else if c == 23786 {
        Some(KeyKind::Media(Media::VolumeDown))
    } else if c == 22712 {
        Some(KeyKind::Media(Media::Eject))
    } else if c == 18552 {
        Some(KeyKind::Media(Media::Camera))
    } else if c == 23663 {
        Some(KeyKind::Media(Media::BrightnessUp))
    } else if c == 23664 {
        Some(KeyKind::Media(Media::BrightnessDown))
    } else if c == 18834 {
        Some(KeyKind::Media(Media::Calculator))
    } else if c == 22713 {
        Some(KeyKind::Media(Media::Shuffle))
    } else {
        None
    }
}

fn base_key_media(c: u16) -> (r: Option<KeyKind>)
    ensures
        r == spec_base_key_media(c),
{
    if c == 19682 {
        Some(KeyKind::Media(Media::Mute))
    } else if c == 22709 {
        Some(KeyKind::Media(Media::NextTrack))
    } else if c == 22710 {
        Some(KeyKind::Media(Media::PreviousTrack))
    } else if c == 22711 {
        Some(KeyKind::Media(Media::Stop))
    } else if c == 22733 {
        Some(KeyKind::Media(Media::PlayPause))
    } else if c == 23785 {
        Some(KeyKind::Media(Media::VolumeUp))
    } else if c == 23786 {
        Some(KeyKind::Media(Media::VolumeDown))
    } else if c == 22712 {
        Some(KeyKind::Media(Media::Eject))
    } else if c == 18552 {
        Some(KeyKind::Media(Media::Camera))
    } else if c == 23663 {
        Some(KeyKind::Media(Media::BrightnessUp))
    } else if c == 23664 {
        Some(KeyKind::Media(Media::BrightnessDown))
    } else if c == 18834 {
        Some(KeyKind::Media(Media::Calculator))
    } else if c == 22713 {
        Some(KeyKind::Media(Media::Shuffle))
    } else {
        None
    }
}

proof fn lemma_base_key_media_encode(c: u16)
    requires
        spec_base_key_media(c) is Some,
    ensures
        spec_base_key_media(c)->Some_0.wf(),
        spec_encode(spec_base_key_media(c)->Some_0) == c as int,
{
    reveal(spec_encode);
}

pub open spec fn spec_base_key_navigation(c: u16) -> Option<KeyKind> {
    if c == 74 {
        Some(KeyKind::Navigation(Navigation::Home, KeyExpansion::Plain))
    } else if c == 75 {
        Some(KeyKind::Navigation(Navigation::PageUp, KeyExpansion::Plain))
    } else if c == 77 {
        Some(KeyKind::Navigation(Navigation::End, KeyExpansion::Plain))
    } else if c == 78 {
        Some(KeyKind::Navigation(Navigation::PageDown, KeyExpansion::Plain))
    } else if c == 79 {
        Some(KeyKind::Navigation(Navigation::ArrowRight, KeyExpansion::Plain))
    } else if c == 80 {
        Some(KeyKind::Navigation(Navigation::ArrowLeft, KeyExpansion::Plain))
    } else if c == 81 {
        Some(KeyKind::Navigation(Navigation::ArrowDown, KeyExpansion::Plain))
    } else if c == 82 {
        Some(KeyKind::Navigation(Navigation::ArrowUp, KeyExpansion::Plain))
    } else if c == 101 {
        Some(KeyKind::Navigation(Navigation::Menu, KeyExpansion::Plain))
    } else {
        None
    }
}

fn base_key_navigation(c: u16) -> (r: Option<KeyKind>)
    ensures
        r == spec_base_key_navigation(c),
{
    if c == 74 {
        Some(KeyKind::Navigation(Navigation::Home, KeyExpansion::Plain))
    } else if c == 75 {
        Some(KeyKind::Navigation(Navigation::PageUp, KeyExpansion::Plain))
    } else if c == 77 {
        Some(KeyKind::Navigation(Navigation::End, KeyExpansion::Plain))
    } else if c == 78 {
        Some(KeyKind::Navigation(Navigation::PageDown, KeyExpansion::Plain))
    } else if c == 79 {
        Some(KeyKind::Navigation(Navigation::ArrowRight, KeyExpansion::Plain))
    } else if c == 80 {
        Some(KeyKind::Navigation(Navigation::ArrowLeft, KeyExpansion::Plain))
    } else if c == 81 {
        Some(KeyKind::Navigation(Navigation::ArrowDown, KeyExpansion::Plain))
    } else if c == 82 {
        Some(KeyKind::Navigation(Navigation::ArrowUp, KeyExpansion::Plain))
    } else if c == 101 {
        Some(KeyKind::Navigation(Navigation::Menu, KeyExpansion::Plain))
    } else {
        None
    }
}

proof fn lemma_base_key_navigation_encode(c: u16)
    requires
        spec_base_key_navigation(c) is Some,
    ensures
        spec_base_key_navigation(c)->Some_0.wf(),
        spec_encode(spec_base_key_navigation(c)->Some_0) == c as int,
{
    reveal(spec_encode);
}

pub open spec fn spec_base_key_mouse_movement(c: u16) -> Option<KeyKind> {
    if c == 20481 {
        Some(KeyKind::MouseMovement(MouseMovement::MouseUp))
    } else if c == 20482 {
        Some(KeyKind::MouseMovement(MouseMovement::MouseDown))
    } else if c == 20484 {
        Some(KeyKind::MouseMovement(MouseMovement::MouseLeft))
    } else if c == 20488 {
        Some(KeyKind::MouseMovement(MouseMovement::MouseRight))
    } else {
        None
    }
}

fn base_key_mouse_movement(c: u16) -> (r: Option<KeyKind>)
    ensures
        r == spec_base_key_mouse_movement(c),
{
    if c == 20481 {
        Some(KeyKind::MouseMovement(MouseMovement::MouseUp))
    } else if c == 20482 {
        Some(KeyKind::MouseMovement(MouseMovement::MouseDown))
    } else if c == 20484 {
        Some(KeyKind::MouseMovement(MouseMovement::MouseLeft))
    } else if c == 20488 {
        Some(KeyKind::MouseMovement(MouseMovement::MouseRight))
    } else {
        None
    }
}

proof fn lemma_base_key_mouse_movement_encode(c: u16)
    requires
        spec_base_key_mouse_movement(c) is Some,
    ensures
        spec_base_key_mouse_movement(c)->Some_0.wf(),
        spec_encode(spec_base_key_mouse_movement(c)->Some_0) == c as int,
{
    reveal(spec_encode);
}

pub open spec fn spec_base_key_mouse_wheele(c: u16) -> Option<KeyKind> {
    if c == 20497 {
        Some(KeyKind::MouseWheele(MouseWheele::WheelUp))
    } else if c == 20498 {
        Some(KeyKind::MouseWheele(MouseWheele::WheelDown))
    } else if c == 20500 {
        Some(KeyKind::MouseWheele(MouseWheele::WheelLeft))
    } else if c == 20504 {
        Some(KeyKind::MouseWheele(MouseWheele::WheelRight))
    } else {
        None
    }
}

fn base_key_mouse_wheele(c: u16) -> (r: Option<KeyKind>)
    ensures
        r == spec_base_key_mouse_wheele(c),
{
    if c == 20497 {
        Some(KeyKind::MouseWheele(MouseWheele::WheelUp))
    } else if c == 20498 {
        Some(KeyKind::MouseWheele(MouseWheele::WheelDown))
    } else if c == 20500 {
        Some(KeyKind::MouseWheele(MouseWheele::WheelLeft))
    } else if c == 20504 {
        Some(KeyKind::MouseWheele(MouseWheele::WheelRight))
    } else {
        None
    }
}

proof fn lemma_base_key_mouse_wheele_encode(c: u16)
    requires
        spec_base_key_mouse_wheele(c) is Some,
    ensures
        spec_base_key_mouse_wheele(c)->Some_0.wf(),
        spec_encode(spec_base_key_mouse_wheele(c)->Some_0) == c as int,
{
    reveal(spec_encode);
}

pub open spec fn spec_base_key_mouse_buttons(c: u16) -> Option<KeyKind> {
    if c == 20545 {
        Some(KeyKind::MouseButtons(MouseButtons::Left))
    } else if c == 20546 {
        Some(KeyKind::MouseButtons(MouseButtons::Right))
    } else if c == 20548 {
        Some(KeyKind::MouseButtons(MouseButtons::Middle))
    } else if c == 20552 {
        Some(KeyKind::MouseButtons(MouseButtons::Back))
    } else if c == 20560 {
        Some(KeyKind::MouseButtons(MouseButtons::Forward))
    } else {
        None
    }
}

fn base_key_mouse_buttons(c: u16) -> (r: Option<KeyKind>)
    ensures
        r == spec_base_key_mouse_buttons(c),
{
    if c == 20545 {
        Some(KeyKind::MouseButtons(MouseButtons::Left))
    } else if c == 20546 {
        Some(KeyKind::MouseButtons(MouseButtons::Right))
    } else if c == 20548 {
        Some(KeyKind::MouseButtons(MouseButtons::Middle))
    } else if c == 20552 {
        Some(KeyKind::MouseButtons(MouseButtons::Back))
    } else if c == 20560 {
        Some(KeyKind::MouseButtons(MouseButtons::Forward))
    } else {
        None
    }
}

proof fn lemma_base_key_mouse_buttons_encode(c: u16)
    requires
        spec_base_key_mouse_buttons(c) is Some,
    ensures
        spec_base_key_mouse_buttons(c)->Some_0.wf(),
        spec_encode(spec_base_key_mouse_buttons(c)->Some_0) == c as int,
{
    reveal(spec_encode);
}

pub open spec fn spec_base_key_mouse_warp(c: u16) -> Option<KeyKind> {
    if c == 20576 {
        Some(KeyKind::MouseWarp(MouseWarp::End))
    } else if c == 20517 {
        Some(KeyKind::MouseWarp(MouseWarp::NW))
    } else if c == 20518 {
        Some(KeyKind::MouseWarp(MouseWarp::SW))
    } else if c == 20521 {
        Some(KeyKind::MouseWarp(MouseWarp::NE))
    } else if c == 20522 {
        Some(KeyKind::MouseWarp(MouseWarp::SE))
    } else {
        None
    }
}

fn base_key_mouse_warp(c: u16) -> (r: Option<KeyKind>)
    ensures
        r == spec_base_key_mouse_warp(c),
{
    if c == 20576 {
        Some(KeyKind::MouseWarp(MouseWarp::End))
    } else if c == 20517 {
        Some(KeyKind::MouseWarp(MouseWarp::NW))
    } else if c == 20518 {
        Some(KeyKind::MouseWarp(MouseWarp::SW))
    } else if c == 20521 {
        Some(KeyKind::MouseWarp(MouseWarp::NE))
    } else if c == 20522 {
        Some(KeyKind::MouseWarp(MouseWarp::SE))
    } else {
        None
    }
}

proof fn lemma_base_key_mouse_warp_encode(c: u16)
    requires
        spec_base_key_mouse_warp(c) is Some,
    ensures
        spec_base_key_mouse_warp(c)->Some_0.wf(),
        spec_encode(spec_base_key_mouse_warp(c)->Some_0) == c as int,
{
    reveal(spec_encode);
}

pub open spec fn spec_base_key_led_effects(c: u16) -> Option<KeyKind> {
    if c == 17152 {
        Some(KeyKind::LedEffects(LedEffects::Next))
    } else if c == 17153 {
        Some(KeyKind::LedEffects(LedEffects::Previous))
    } else if c == 17154 {
        Some(KeyKind::LedEffects(LedEffects::Toggle))
    } else {
        None
    }
}

fn base_key_led_effects(c: u16) -> (r: Option<KeyKind>)
    ensures
        r == spec_base_key_led_effects(c),
{
    if c == 17152 {
        Some(KeyKind::LedEffects(LedEffects::Next))
    } else if c == 17153 {
        Some(KeyKind::LedEffects(LedEffects::Previous))
    } else if c == 17154 {
        Some(KeyKind::LedEffects(LedEffects::Toggle))
    } else {
        None
    }
}

proof fn lemma_base_key_led_effects_encode(c: u16)
    requires
        spec_base_key_led_effects(c) is Some,
    ensures
        spec_base_key_led_effects(c)->Some_0.wf(),
        spec_encode(spec_base_key_led_effects(c)->Some_0) == c as int,
{
    reveal(spec_encode);
}

pub open spec fn spec_base_key_battery(c: u16) -> Option<KeyKind> {
    if c == 54108 {
        Some(KeyKind::Battery(Battery::Status))
    } else {
        None
    }
}

fn base_key_battery(c: u16) -> (r: Option<KeyKind>)
    ensures
        r == spec_base_key_battery(c),
{
    if c == 54108 {
        Some(KeyKind::Battery(Battery::Status))
    } else {
        None
    }
}

proof fn lemma_base_key_battery_encode(c: u16)
    requires
        spec_base_key_battery(c) is Some,
    ensures
        spec_base_key_battery(c)->Some_0.wf(),
        spec_encode(spec_base_key_battery(c)->Some_0) == c as int,
{
    reveal(spec_encode);
}

pub open spec fn spec_base_key_bluetooth(c: u16) -> Option<KeyKind> {
    if c == 54109 {
        Some(KeyKind::Bluetooth(Bluetooth::Pair))
    } else {
        None
    }
}

fn base_key_bluetooth(c: u16) -> (r: Option<KeyKind>)
    ensures
        r == spec_base_key_bluetooth(c),
{
    if c == 54109 {
        Some(KeyKind::Bluetooth(Bluetooth::Pair))
    } else {
        None
    }
}

proof fn lemma_base_key_bluetooth_encode(c: u16)
    requires
        spec_base_key_bluetooth(c) is Some,
    ensures
        spec_base_key_bluetooth(c)->Some_0.wf(),
        spec_encode(spec_base_key_bluetooth(c)->Some_0) == c as int,
{
    reveal(spec_encode);
}

pub open spec fn spec_base_key_energy(c: u16) -> Option<KeyKind> {
    if c == 54111 {
        Some(KeyKind::Energy(Energy::Status))
    } else {
        None
    }
}

fn base_key_energy(c: u16) -> (r: Option<KeyKind>)
    ensures
        r == spec_base_key_energy(c),
{
    if c == 54111 {
        Some(KeyKind::Energy(Energy::Status))
    } else {
        None
    }
}

proof fn lemma_base_key_energy_encode(c: u16)
    requires
        spec_base_key_energy(c) is Some,
    ensures
        spec_base_key_energy(c)->Some_0.wf(),
        spec_encode(spec_base_key_energy(c)->Some_0) == c as int,
{
    reveal(spec_encode);
}

pub open spec fn spec_base_key_rf(c: u16) -> Option<KeyKind> {
    if c == 54112 {
        Some(KeyKind::Rf(Rf::Status))
    } else {
        None
    }
}

fn base_key_rf(c: u16) -> (r: Option<KeyKind>)
    ensures
        r == spec_base_key_rf(c),
{
    if c == 54112 {
        Some(KeyKind::Rf(Rf::Status))
    } else {
        None
    }
}

proof fn lemma_base_key_rf_encode(c: u16)
    requires
        spec_base_key_rf(c) is Some,
    ensures
        spec_base_key_rf(c)->Some_0.wf(),
        spec_encode(spec_base_key_rf(c)->Some_0) == c as int,
{
    reveal(spec_encode);
}

pub open spec fn spec_base_key_layer_lock(c: u16) -> Option<KeyKind> {
    if c == 17408 {
        Some(KeyKind::LayerLock(LayerLock::Layer1))
    } else if c == 17409 {
        Some(KeyKind::LayerLock(LayerLock::Layer2))
    } else if c == 17410 {
        Some(KeyKind::LayerLock(LayerLock::Layer3))
    } else if c == 17411 {
        Some(KeyKind::LayerLock(LayerLock::Layer4))
    } else if c == 17412 {
        Some(KeyKind::LayerLock(LayerLock::Layer5))
    } else if c == 17413 {
        Some(KeyKind::LayerLock(LayerLock::Layer6))
    } else if c == 17414 {
        Some(KeyKind::LayerLock(LayerLock::Layer7))
    } else if c == 17415 {
        Some(KeyKind::LayerLock(LayerLock::Layer8))
    } else if c == 17416 {
        Some(KeyKind::LayerLock(LayerLock::Layer9))
    } else if c == 17417 {
        Some(KeyKind::LayerLock(LayerLock::Layer10))
    } else {
        None
    }
}

fn base_key_layer_lock(c: u16) -> (r: Option<KeyKind>)
    ensures
        r == spec_base_key_layer_lock(c),
{
    if c == 17408 {
        Some(KeyKind::LayerLock(LayerLock::Layer1))
    } else if c == 17409 {
        Some(KeyKind::LayerLock(LayerLock::Layer2))
    } else if c == 17410 {
        Some(KeyKind::LayerLock(LayerLock::Layer3))
    } else if c == 17411 {
        Some(KeyKind::LayerLock(LayerLock::Layer4))
    } else if c == 17412 {
        Some(KeyKind::LayerLock(LayerLock::Layer5))
    } else if c == 17413 {
        Some(KeyKind::LayerLock(LayerLock::Layer6))
    } else if c == 17414 {
        Some(KeyKind::LayerLock(LayerLock::Layer7))
    } else if c == 17415 {
        Some(KeyKind::LayerLock(LayerLock::Layer8))
    } else if c == 17416 {
        Some(KeyKind::LayerLock(LayerLock::Layer9))
    } else if c == 17417 {
        Some(KeyKind::LayerLock(LayerLock::Layer10))
    } else {
        None
    }
}

proof fn lemma_base_key_layer_lock_encode(c: u16)
    requires
        spec_base_key_layer_lock(c) is Some,
    ensures
        spec_base_key_layer_lock(c)->Some_0.wf(),
        spec_encode(spec_base_key_layer_lock(c)->Some_0) == c as int,
{
    reveal(spec_encode);
}

pub open spec fn spec_base_key_layer_shift(c: u16) -> Option<KeyKind> {
    if c == 17450 {
        Some(KeyKind::LayerShift(LayerShift::Layer1))
    } else if c == 17451 {
        Some(KeyKind::LayerShift(LayerShift::Layer2))
    } else if c == 17452 {
        Some(KeyKind::LayerShift(LayerShift::Layer3))
    } else if c == 17453 {
        Some(KeyKind::LayerShift(LayerShift::Layer4))
    } else if c == 17454 {
        Some(KeyKind::LayerShift(LayerShift::Layer5))
    } else if c == 17455 {
        Some(KeyKind::LayerShift(LayerShift::Layer6))
    } else if c == 17456 {
        Some(KeyKind::LayerShift(LayerShift::Layer7))
    } else if c == 17457 {
        Some(KeyKind::LayerShift(LayerShift::Layer8))
    } else if c == 17458 {
        Some(KeyKind::LayerShift(LayerShift::Layer9))
    } else if c == 17459 {
        Some(KeyKind::LayerShift(LayerShift::Layer10))
    } else {
        None
    }
}

fn base_key_layer_shift(c: u16) -> (r: Option<KeyKind>)
    ensures
        r == spec_base_key_layer_shift(c),
{
    if c == 17450 {
        Some(KeyKind::LayerShift(LayerShift::Layer1))
    } else if c == 17451 {
        Some(KeyKind::LayerShift(LayerShift::Layer2))
    } else if c == 17452 {
        Some(KeyKind::LayerShift(LayerShift::Layer3))
    } else if c == 17453 {
        Some(KeyKind::LayerShift(LayerShift::Layer4))
    } else if c == 17454 {
        Some(KeyKind::LayerShift(LayerShift::Layer5))
    } else if c == 17455 {
        Some(KeyKind::LayerShift(LayerShift::Layer6))
    } else if c == 17456 {
        Some(KeyKind::LayerShift(LayerShift::Layer7))
    } else if c == 17457 {
        Some(KeyKind::LayerShift(LayerShift::Layer8))
    } else if c == 17458 {
        Some(KeyKind::LayerShift(LayerShift::Layer9))
    } else if c == 17459 {
        Some(KeyKind::LayerShift(LayerShift::Layer10))
    } else {
        None
    }
}

proof fn lemma_base_key_layer_shift_encode(c: u16)
    requires
        spec_base_key_layer_shift(c) is Some,
    ensures
        spec_base_key_layer_shift(c)->Some_0.wf(),
        spec_encode(spec_base_key_layer_shift(c)->Some_0) == c as int,
{
    reveal(spec_encode);
}

pub open spec fn spec_base_key_layer_move(c: u16) -> Option<KeyKind> {
    if c == 17492 {
        Some(KeyKind::LayerMove(LayerMove::Layer1))
    } else if c == 17493 {
        Some(KeyKind::LayerMove(LayerMove::Layer2))
    } else if c == 17494 {
        Some(KeyKind::LayerMove(LayerMove::Layer3))
    } else if c == 17495 {
        Some(KeyKind::LayerMove(LayerMove::Layer4))
    } else if c == 17496 {
        Some(KeyKind::LayerMove(LayerMove::Layer5))
    } else if c == 17497 {
        Some(KeyKind::LayerMove(LayerMove::Layer6))
    } else if c == 17498 {
        Some(KeyKind::LayerMove(LayerMove::Layer7))
    } else if c == 17499 {
        Some(KeyKind::LayerMove(LayerMove::Layer8))
    } else if c == 17500 {
        Some(KeyKind::LayerMove(LayerMove::Layer9))
    } else if c == 17501 {
        Some(KeyKind::LayerMove(LayerMove::Layer10))
    } else {
        None
    }
}

fn base_key_layer_move(c: u16) -> (r: Option<KeyKind>)
    ensures
        r == spec_base_key_layer_move(c),
{
    if c == 17492 {
        Some(KeyKind::LayerMove(LayerMove::Layer1))
    } else if c == 17493 {
        Some(KeyKind::LayerMove(LayerMove::Layer2))
    } else if c == 17494 {
        Some(KeyKind::LayerMove(LayerMove::Layer3))
    } else if c == 17495 {
        Some(KeyKind::LayerMove(LayerMove::Layer4))
    } else if c == 17496 {
        Some(KeyKind::LayerMove(LayerMove::Layer5))
    } else if c == 17497 {
        Some(KeyKind::LayerMove(LayerMove::Layer6))
    } else if c == 17498 {
        Some(KeyKind::LayerMove(LayerMove::Layer7))
    } else if c == 17499 {
        Some(KeyKind::LayerMove(LayerMove::Layer8))
    } else if c == 17500 {
        Some(KeyKind::LayerMove(LayerMove::Layer9))
    } else if c == 17501 {
        Some(KeyKind::LayerMove(LayerMove::Layer10))
    } else {
        None
    }
}

proof fn lemma_base_key_layer_move_encode(c: u16)
    requires
        spec_base_key_layer_move(c) is Some,
    ensures
        spec_base_key_layer_move(c)->Some_0.wf(),
        spec_encode(spec_base_key_layer_move(c)->Some_0) == c as int,
{
    reveal(spec_encode);
}

pub open spec fn spec_base_key_miscellaneous(c: u16) -> Option<KeyKind> {
    if c == 70 {
        Some(KeyKind::Miscellaneous(Miscellaneous::PrintScreen, KeyExpansion::Plain))
    } else if c == 71 {
        Some(KeyKind::Miscellaneous(Miscellaneous::ScrollLock, KeyExpansion::Plain))
    } else if c == 72 {
        Some(KeyKind::Miscellaneous(Miscellaneous::Pause, KeyExpansion::Plain))
    } else if c == 20865 {
        Some(KeyKind::Miscellaneous(Miscellaneous::Shutdown, KeyExpansion::Plain))
    } else if c == 20866 {
        Some(KeyKind::Miscellaneous(Miscellaneous::Sleep, KeyExpansion::Plain))
    } else {
        None
    }
}

fn base_key_miscellaneous(c: u16) -> (r: Option<KeyKind>)
    ensures
        r == spec_base_key_miscellaneous(c),
{
    if c == 70 {
        Some(KeyKind::Miscellaneous(Miscellaneous::PrintScreen, KeyExpansion::Plain))
    } else if c == 71 {
        Some(KeyKind::Miscellaneous(Miscellaneous::ScrollLock, KeyExpansion::Plain))
    } else if c == 72 {
        Some(KeyKind::Miscellaneous(Miscellaneous::Pause, KeyExpansion::Plain))
    } else if c == 20865 {
        Some(KeyKind::Miscellaneous(Miscellaneous::Shutdown, KeyExpansion::Plain))
    } else if c == 20866 {
        Some(KeyKind::Miscellaneous(Miscellaneous::Sleep, KeyExpansion::Plain))
    } else {
        None
    }
}

proof fn lemma_base_key_miscellaneous_encode(c: u16)
    requires
        spec_base_key_miscellaneous(c) is Some,
    ensures
        spec_base_key_miscellaneous(c)->Some_0.wf(),
        spec_encode(spec_base_key_miscellaneous(c)->Some_0) == c as int,
{
    reveal(spec_encode);
}

pub open spec fn spec_base_key_oneshot(c: u16) -> Option<KeyKind> {
    if c == 49161 {
        Some(KeyKind::Oneshot(Oneshot::Layer1))
    } else if c == 49162 {
        Some(KeyKind::Oneshot(Oneshot::Layer2))
    } else if c == 49163 {
        Some(KeyKind::Oneshot(Oneshot::Layer3))
    } else if c == 49164 {
        Some(KeyKind::Oneshot(Oneshot::Layer4))
    } else if c == 49165 {
        Some(KeyKind::Oneshot(Oneshot::Layer5))
    } else if c == 49166 {
        Some(KeyKind::Oneshot(Oneshot::Layer6))
    } else if c == 49167 {
        Some(KeyKind::Oneshot(Oneshot::Layer7))
    } else if c == 49168 {
        Some(KeyKind::Oneshot(Oneshot::Layer8))
    } else if c == 49153 {
        Some(KeyKind::Oneshot(Oneshot::LeftCtrl))
    } else if c == 49154 {
        Some(KeyKind::Oneshot(Oneshot::LeftShift))
    } else if c == 49155 {
        Some(KeyKind::Oneshot(Oneshot::LeftAlt))
    } else if c == 49156 {
        Some(KeyKind::Oneshot(Oneshot::LeftOs))
    } else if c == 49157 {
        Some(KeyKind::Oneshot(Oneshot::RightCtrl))
    } else if c == 49158 {
        Some(KeyKind::Oneshot(Oneshot::RightShift))
    } else if c == 49159 {
        Some(KeyKind::Oneshot(Oneshot::AltGr))
    } else if c == 49160 {
        Some(KeyKind::Oneshot(Oneshot::RightOs))
    } else {
        None
    }
}

fn base_key_oneshot(c: u16) -> (r: Option<KeyKind>)
    ensures
        r == spec_base_key_oneshot(c),
{
    if c == 49161 {
        Some(KeyKind::Oneshot(Oneshot::Layer1))
    } else if c == 49162 {
        Some(KeyKind::Oneshot(Oneshot::Layer2))
    } else if c == 49163 {
        Some(KeyKind::Oneshot(Oneshot::Layer3))
    } else if c == 49164 {
        Some(KeyKind::Oneshot(Oneshot::Layer4))
    } else if c == 49165 {
        Some(KeyKind::Oneshot(Oneshot::Layer5))
    } else if c == 49166 {
        Some(KeyKind::Oneshot(Oneshot::Layer6))
    } else if c == 49167 {
        Some(KeyKind::Oneshot(Oneshot::Layer7))
    } else if c == 49168 {
        Some(KeyKind::Oneshot(Oneshot::Layer8))
    } else if c == 49153 {
        Some(KeyKind::Oneshot(Oneshot::LeftCtrl))
    } else if c == 49154 {
        Some(KeyKind::Oneshot(Oneshot::LeftShift))
    } else if c == 49155 {
        Some(KeyKind::Oneshot(Oneshot::LeftAlt))
    } else if c == 49156 {
        Some(KeyKind::Oneshot(Oneshot::LeftOs))
    } else if c == 49157 {
        Some(KeyKind::Oneshot(Oneshot::RightCtrl))
    } else if c == 49158 {
        Some(KeyKind::Oneshot(Oneshot::RightShift))
    } else if c == 49159 {
        Some(KeyKind::Oneshot(Oneshot::AltGr))
    } else if c == 49160 {
        Some(KeyKind::Oneshot(Oneshot::RightOs))
    } else {
        None
    }
}

proof fn lemma_base_key_oneshot_encode(c: u16)
    requires
        spec_base_key_oneshot(c) is Some,
    ensures
        spec_base_key_oneshot(c)->Some_0.wf(),
        spec_encode(spec_base_key_oneshot(c)->Some_0) == c as int,
{
    reveal(spec_encode);
}

/// The key a small base code names, carried with the given modifier
/// set, over every table expanded with modifiers.
pub open spec fn spec_mod_key(lo: u16, m: ModifierSet) -> Option<KeyKind> {
    if spec_mod_key_spacing(lo, m) is Some {
        spec_mod_key_spacing(lo, m)
    } else if spec_mod_key_alpha(lo, m) is Some {
        spec_mod_key_alpha(lo, m)
    } else if spec_mod_key_digits(lo, m) is Some {
        spec_mod_key_digits(lo, m)
    } else if spec_mod_key_numpad(lo, m) is Some {
        spec_mod_key_numpad(lo, m)
    } else if spec_mod_key_fx(lo, m) is Some {
        spec_mod_key_fx(lo, m)
    } else if spec_mod_key_symbols(lo, m) is Some {
        spec_mod_key_symbols(lo, m)
    } else if spec_mod_key_modifiers(lo, m) is Some {
        spec_mod_key_modifiers(lo, m)
    } else if spec_mod_key_navigation(lo, m) is Some {
        spec_mod_key_navigation(lo, m)
    } else if spec_mod_key_miscellaneous(lo, m) is Some {
        spec_mod_key_miscellaneous(lo, m)
    } else {
        None
    }
}

fn mod_key(lo: u16, m: ModifierSet) -> (r: Option<KeyKind>)
    ensures
        r == spec_mod_key(lo, m),
{
    if let Some(k) = mod_key_spacing(lo, m) {
        return Some(k);
    }
    if let Some(k) = mod_key_alpha(lo, m) {
        return Some(k);
    }
    if let Some(k) = mod_key_digits(lo, m) {
        return Some(k);
    }
    if let Some(k) = mod_key_numpad(lo, m) {
        return Some(k);
    }
    if let Some(k) = mod_key_fx(lo, m) {
        return Some(k);
    }
    if let Some(k) = mod_key_symbols(lo, m) {
        return Some(k);
    }
    if let Some(k) = mod_key_modifiers(lo, m) {
        return Some(k);
    }
    if let Some(k) = mod_key_navigation(lo, m) {
        return Some(k);
    }
    if let Some(k) = mod_key_miscellaneous(lo, m) {
        return Some(k);
    }
    None
}

proof fn lemma_mod_key_encode(lo: u16, m: ModifierSet)
    requires
        spec_mod_key(lo, m) is Some,
        !m.is_empty(),
    ensures
        spec_mod_key(lo, m)->Some_0.wf(),
        spec_encode(spec_mod_key(lo, m)->Some_0) == lo + m.spec_value(),
{
    if spec_mod_key_spacing(lo, m) is Some {
        lemma_mod_key_spacing_encode(lo, m);
    }
    if spec_mod_key_alpha(lo, m) is Some {
        lemma_mod_key_alpha_encode(lo, m);
    }
    if spec_mod_key_digits(lo, m) is Some {
        lemma_mod_key_digits_encode(lo, m);
    }
    if spec_mod_key_numpad(lo, m) is Some {
        lemma_mod_key_numpad_encode(lo, m);
    }
    if spec_mod_key_fx(lo, m) is Some {
        lemma_mod_key_fx_encode(lo, m);
    }
    if spec_mod_key_symbols(lo, m) is Some {
        lemma_mod_key_symbols_encode(lo, m);
    }
    if spec_mod_key_modifiers(lo, m) is Some {
        lemma_mod_key_modifiers_encode(lo, m);
    }
    if spec_mod_key_navigation(lo, m) is Some {
        lemma_mod_key_navigation_encode(lo, m);
    }
    if spec_mod_key_miscellaneous(lo, m) is Some {
        lemma_mod_key_miscellaneous_encode(lo, m);
    }
}

/// The key a small base code names, carried as a dual-function key,
/// over every table expanded with dual functions.
pub open spec fn spec_dual_key(lo: u16, d: DualFunctionModifier) -> Option<KeyKind> {
    if spec_dual_key_spacing(lo, d) is Some {
        spec_dual_key_spacing(lo, d)
    } else if spec_dual_key_alpha(lo, d) is Some {
        spec_dual_key_alpha(lo, d)
    } else if spec_dual_key_digits(lo, d) is Some {
        spec_dual_key_digits(lo, d)
    } else if spec_dual_key_numpad(lo, d) is Some {
        spec_dual_key_numpad(lo, d)
    } else if spec_dual_key_fx(lo, d) is Some {
        spec_dual_key_fx(lo, d)
    } else if spec_dual_key_symbols(lo, d) is Some {
        spec_dual_key_symbols(lo, d)
    } else if spec_dual_key_navigation(lo, d) is Some {
        spec_dual_key_navigation(lo, d)
    } else if spec_dual_key_miscellaneous(lo, d) is Some {
        spec_dual_key_miscellaneous(lo, d)
    } else {
        None
    }
}

fn dual_key(lo: u16, d: DualFunctionModifier) -> (r: Option<KeyKind>)
    ensures
        r == spec_dual_key(lo, d),
{
    if let Some(k) = dual_key_spacing(lo, d) {
        return Some(k);
    }
    if let Some(k) = dual_key_alpha(lo, d) {
        return Some(k);
    }
    if let Some(k) = dual_key_digits(lo, d) {
        return Some(k);
    }
    if let Some(k) = dual_key_numpad(lo, d) {
        return Some(k);
    }
    if let Some(k) = dual_key_fx(lo, d) {
        return Some(k);
    }
    if let Some(k) = dual_key_symbols(lo, d) {
        return Some(k);
    }
    if let Some(k) = dual_key_navigation(lo, d) {
        return Some(k);
    }
    if let Some(k) = dual_key_miscellaneous(lo, d) {
        return Some(k);
    }
    None
}

proof fn lemma_dual_key_encode(lo: u16, d: DualFunctionModifier)
    requires
        spec_dual_key(lo, d) is Some,
    ensures
        spec_dual_key(lo, d)->Some_0.wf(),
        spec_encode(spec_dual_key(lo, d)->Some_0) == lo + spec_dual_value(d),
{
    if spec_dual_key_spacing(lo, d) is Some {
        lemma_dual_key_spacing_encode(lo, d);
    }
    if spec_dual_key_alpha(lo, d) is Some {
        lemma_dual_key_alpha_encode(lo, d);
    }
    if spec_dual_key_digits(lo, d) is Some {
        lemma_dual_key_digits_encode(lo, d);
    }
    if spec_dual_key_numpad(lo, d) is Some {
        lemma_dual_key_numpad_encode(lo, d);
    }
    if spec_dual_key_fx(lo, d) is Some {
        lemma_dual_key_fx_encode(lo, d);
    }
    if spec_dual_key_symbols(lo, d) is Some {
        lemma_dual_key_symbols_encode(lo, d);
    }
    if spec_dual_key_navigation(lo, d) is Some {
        lemma_dual_key_navigation_encode(lo, d);
    }
    if spec_dual_key_miscellaneous(lo, d) is Some {
        lemma_dual_key_miscellaneous_encode(lo, d);
    }
}

/// The key a code names directly in one of the base tables.
pub open spec fn spec_base_key(c: u16) -> Option<KeyKind> {
    if spec_base_key_blank(c) is Some {
        spec_base_key_blank(c)
    } else if spec_base_key_spacing(c) is Some {
        spec_base_key_spacing(c)
    } else if spec_base_key_alpha(c) is Some {
        spec_base_key_alpha(c)
    } else if spec_base_key_digits(c) is Some {
        spec_base_key_digits(c)
    } else if spec_base_key_numpad(c) is Some {
        spec_base_key_numpad(c)
    } else if spec_base_key_fx(c) is Some {
        spec_base_key_fx(c)
    } else if spec_base_key_symbols(c) is Some {
        spec_base_key_symbols(c)
    } else if spec_base_key_shift_symbols(c) is Some {
        spec_base_key_shift_symbols(c)
    } else if spec_base_key_modifiers(c) is Some {
        spec_base_key_modifiers(c)
    } else if spec_base_key_media(c) is Some {
        spec_base_key_media(c)
    } else if spec_base_key_navigation(c) is Some {
        spec_base_key_navigation(c)
    } else if spec_base_key_mouse_movement(c) is Some {
        spec_base_key_mouse_movement(c)
    } else if spec_base_key_mouse_wheele(c) is Some {
        spec_base_key_mouse_wheele(c)
    } else if spec_base_key_mouse_buttons(c) is Some {
        spec_base_key_mouse_buttons(c)
    } else if spec_base_key_mouse_warp(c) is Some {
        spec_base_key_mouse_warp(c)
    } else if spec_base_key_led_effects(c) is Some {
        spec_base_key_led_effects(c)
    } else if spec_base_key_battery(c) is Some {
        spec_base_key_battery(c)
    } else if spec_base_key_bluetooth(c) is Some {
        spec_base_key_bluetooth(c)
    } else if spec_base_key_energy(c) is Some {
        spec_base_key_energy(c)
    } else if spec_base_key_rf(c) is Some {
        spec_base_key_rf(c)
    } else if spec_base_key_layer_lock(c) is Some {
        spec_base_key_layer_lock(c)
    } else if spec_base_key_layer_shift(c) is Some {
        spec_base_key_layer_shift(c)
    } else if spec_base_key_layer_move(c) is Some {
        spec_base_key_layer_move(c)
    } else if spec_base_key_miscellaneous(c) is Some {
        spec_base_key_miscellaneous(c)
    } else if spec_base_key_oneshot(c) is Some {
        spec_base_key_oneshot(c)
    } else if 53852 <= c <= 53979 {
        Some(KeyKind::Macros(MacroSlot { index: (c - 53851) as u8 }))
    } else if 53980 <= c <= 54107 {
        Some(KeyKind::SuperKeys(SuperSlot { index: (c - 53979) as u8 }))
    } else {
        None
    }
}

fn base_key(c: u16) -> (r: Option<KeyKind>)
    ensures
        r == spec_base_key(c),
{
    if let Some(k) = base_key_blank(c) {
        return Some(k);
    }
    if let Some(k) = base_key_spacing(c) {
        return Some(k);
    }
    if let Some(k) = base_key_alpha(c) {
        return Some(k);
    }
    if let Some(k) = base_key_digits(c) {
        return Some(k);
    }
    if let Some(k) = base_key_numpad(c) {
        return Some(k);
    }
    if let Some(k) = base_key_fx(c) {
        return Some(k);
    }
    if let Some(k) = base_key_symbols(c) {
        return Some(k);
    }
    if let Some(k) = base_key_shift_symbols(c) {
        return Some(k);
    }
    if let Some(k) = base_key_modifiers(c) {
        return Some(k);
    }
    if let Some(k) = base_key_media(c) {
        return Some(k);
    }
    if let Some(k) = base_key_navigation(c) {
        return Some(k);
    }
    if let Some(k) = base_key_mouse_movement(c) {
        return Some(k);
    }
    if let Some(k) = base_key_mouse_wheele(c) {
        return Some(k);
    }
    if let Some(k) = base_key_mouse_buttons(c) {
        return Some(k);
    }
    if let Some(k) = base_key_mouse_warp(c) {
        return Some(k);
    }
    if let Some(k) = base_key_led_effects(c) {
        return Some(k);
    }
    if let Some(k) = base_key_battery(c) {
        return Some(k);
    }
    if let Some(k) = base_key_bluetooth(c) {
        return Some(k);
    }
    if let Some(k) = base_key_energy(c) {
        return Some(k);
    }
    if let Some(k) = base_key_rf(c) {
        return Some(k);
    }
    if let Some(k) = base_key_layer_lock(c) {
        return Some(k);
    }
    if let Some(k) = base_key_layer_shift(c) {
        return Some(k);
    }
    if let Some(k) = base_key_layer_move(c) {
        return Some(k);
    }
    if let Some(k) = base_key_miscellaneous(c) {
        return Some(k);
    }
    if let Some(k) = base_key_oneshot(c) {
        return Some(k);
    }
    if 53852 <= c && c <= 53979 {
        return Some(KeyKind::Macros(MacroSlot { index: (c - 53851) as u8 }));
    }
    if 53980 <= c && c <= 54107 {
        return Some(KeyKind::SuperKeys(SuperSlot { index: (c - 53979) as u8 }));
    }
    None
}

proof fn lemma_base_key_encode(c: u16)
    requires
        spec_base_key(c) is Some,
    ensures
        spec_base_key(c)->Some_0.wf(),
        spec_encode(spec_base_key(c)->Some_0) == c as int,
{
    reveal(spec_encode);
    if spec_base_key_blank(c) is Some {
        lemma_base_key_blank_encode(c);
    }
    if spec_base_key_spacing(c) is Some {
        lemma_base_key_spacing_encode(c);
    }
    if spec_base_key_alpha(c) is Some {
        lemma_base_key_alpha_encode(c);
    }
    if spec_base_key_digits(c) is Some {
        lemma_base_key_digits_encode(c);
    }
    if spec_base_key_numpad(c) is Some {
        lemma_base_key_numpad_encode(c);
    }
    if spec_base_key_fx(c) is Some {
        lemma_base_key_fx_encode(c);
    }
    if spec_base_key_symbols(c) is Some {
        lemma_base_key_symbols_encode(c);
    }
    if spec_base_key_shift_symbols(c) is Some {
        lemma_base_key_shift_symbols_encode(c);
    }
    if spec_base_key_modifiers(c) is Some {
        lemma_base_key_modifiers_encode(c);
    }
    if spec_base_key_media(c) is Some {
        lemma_base_key_media_encode(c);
    }
    if spec_base_key_navigation(c) is Some {
        lemma_base_key_navigation_encode(c);
    }
    if spec_base_key_mouse_movement(c) is Some {
        lemma_base_key_mouse_movement_encode(c);
    }
    if spec_base_key_mouse_wheele(c) is Some {
        lemma_base_key_mouse_wheele_encode(c);
    }
    if spec_base_key_mouse_buttons(c) is Some {
        lemma_base_key_mouse_buttons_encode(c);
    }
    if spec_base_key_mouse_warp(c) is Some {
        lemma_base_key_mouse_warp_encode(c);
    }
    if spec_base_key_led_effects(c) is Some {
        lemma_base_key_led_effects_encode(c);
    }
    if spec_base_key_battery(c) is Some {
        lemma_base_key_battery_encode(c);
    }
    if spec_base_key_bluetooth(c) is Some {
        lemma_base_key_bluetooth_encode(c);
    }
    if spec_base_key_energy(c) is Some {
        lemma_base_key_energy_encode(c);
    }
    if spec_base_key_rf(c) is Some {
        lemma_base_key_rf_encode(c);
    }
    if spec_base_key_layer_lock(c) is Some {
        lemma_base_key_layer_lock_encode(c);
    }
    if spec_base_key_layer_shift(c) is Some {
        lemma_base_key_layer_shift_encode(c);
    }
    if spec_base_key_layer_move(c) is Some {
        lemma_base_key_layer_move_encode(c);
    }
    if spec_base_key_miscellaneous(c) is Some {
        lemma_base_key_miscellaneous_encode(c);
    }
    if spec_base_key_oneshot(c) is Some {
        lemma_base_key_oneshot_encode(c);
    }
}

/// Decoding of a code as a modifier combination: a base code of a
/// modifier-expanded table plus a non-empty sum of modifier masks.
pub open spec fn spec_mod_try(c: u16) -> Option<KeyKind> {
    if 256 <= c < 8192 && spec_mod_key((c % 256) as u16, spec_mods_from((c / 256) as int)) is Some {
        spec_mod_key((c % 256) as u16, spec_mods_from((c / 256) as int))
    } else if 21121 <= c <= 28801 && (c - 20865) % 256 == 0 {
        Some(KeyKind::Miscellaneous(
            Miscellaneous::Shutdown,
            KeyExpansion::Modified(spec_mods_from((c - 20865) / 256)),
        ))
    } else if 21122 <= c <= 28802 && (c - 20866) % 256 == 0 {
        Some(KeyKind::Miscellaneous(
            Miscellaneous::Sleep,
            KeyExpansion::Modified(spec_mods_from((c - 20866) / 256)),
        ))
    } else {
        None
    }
}

/// Decoding of a code as a dual-function key: a dual-function offset
/// plus a base code of a dual-expanded table.
pub open spec fn spec_dual_try(c: u16) -> Option<KeyKind> {

    if 49169 <= c <= 49424 {
        spec_dual_key((c - 49169) as u16, DualFunctionModifier::Ctrl)
    } else if 49425 <= c <= 49680 {
        spec_dual_key((c - 49425) as u16, DualFunctionModifier::Shift)
    } else if 49681 <= c <= 49936 {
        spec_dual_key((c - 49681) as u16, DualFunctionModifier::Alt)
    } else if 49937 <= c <= 50192 {
        spec_dual_key((c - 49937) as u16, DualFunctionModifier::Os)
    } else if 50705 <= c <= 50960 {
        spec_dual_key((c - 50705) as u16, DualFunctionModifier::AltGr)
    } else if 51218 <= c <= 51473 {
        spec_dual_key((c - 51218) as u16, DualFunctionModifier::Layer1)
    } else if 51474 <= c <= 51729 {
        spec_dual_key((c - 51474) as u16, DualFunctionModifier::Layer2)
    } else if 51730 <= c <= 51985 {
        spec_dual_key((c - 51730) as u16, DualFunctionModifier::Layer3)
    } else if 51986 <= c <= 52241 {
        spec_dual_key((c - 51986) as u16, DualFunctionModifier::Layer4)
    } else if 52242 <= c <= 52497 {
        spec_dual_key((c - 52242) as u16, DualFunctionModifier::Layer5)
    } else if 52498 <= c <= 52753 {
        spec_dual_key((c - 52498) as u16, DualFunctionModifier::Layer6)
    } else if 52754 <= c <= 53009 {
        spec_dual_key((c - 52754) as u16, DualFunctionModifier::Layer7)
    } else if 53010 <= c <= 53265 {
        spec_dual_key((c - 53010) as u16, DualFunctionModifier::Layer8)
    } else {
        None
    }
}

/// Total decoding of a 16-bit code to a key.
#[verifier::opaque]
pub open spec fn spec_decode(c: u16) -> KeyKind {
    if spec_mod_try(c) is Some {
        spec_mod_try(c)->Some_0
    } else if spec_dual_try(c) is Some {
        spec_dual_try(c)->Some_0
    } else if spec_base_key(c) is Some {
        spec_base_key(c)->Some_0
    } else {
        KeyKind::Unknown(c)
    }
}

fn mods_from(h: u16) -> (m: ModifierSet)
    requires
        h <= 31,
    ensures
        m == spec_mods_from(h as int),
{
    let os = h >= 16;
    let r1 = if os { h - 16 } else { h };
    let shift = r1 >= 8;
    let r2 = if shift { r1 - 8 } else { r1 };
    let alt_gr = r2 >= 4;
    let r3 = if alt_gr { r2 - 4 } else { r2 };
    let alt = r3 >= 2;
    let r4 = if alt { r3 - 2 } else { r3 };
    let ctrl = r4 >= 1;
    ModifierSet { ctrl, alt, alt_gr, os, shift }
}

/// Decodes a 16-bit key code into its symbolic key. Total: codes outside
/// the table decode to [`KeyKind::Unknown`]. Re-encoding the result
/// always restores the code.
pub fn decode(c: u16) -> (k: KeyKind)
    ensures
        k == spec_decode(c),
        k.wf(),
        spec_encode(k) == c as int,
{
    proof {
        reveal(spec_decode);
        lemma_code_round_trip(c);
    }
    if 256 <= c && c < 8192 {
        if let Some(k) = mod_key(c % 256, mods_from(c / 256)) {
            return k;
        }
    }
    if 21121 <= c && c <= 28801 && (c - 20865) % 256 == 0 {
        return KeyKind::Miscellaneous(
            Miscellaneous::Shutdown,
            KeyExpansion::Modified(mods_from((c - 20865) / 256)),
        );
    }
    if 21122 <= c && c <= 28802 && (c - 20866) % 256 == 0 {
        return KeyKind::Miscellaneous(
            Miscellaneous::Sleep,
            KeyExpansion::Modified(mods_from((c - 20866) / 256)),
        );
    }

    if 49169 <= c && c <= 49424 {
        if let Some(k) = dual_key(c - 49169, DualFunctionModifier::Ctrl) {
            return k;
        }
        return KeyKind::Unknown(c);
    }
    if 49425 <= c && c <= 49680 {
        if let Some(k) = dual_key(c - 49425, DualFunctionModifier::Shift) {
            return k;
        }
        return KeyKind::Unknown(c);
    }
    if 49681 <= c && c <= 49936 {
        if let Some(k) = dual_key(c - 49681, DualFunctionModifier::Alt) {
            return k;
        }
        return KeyKind::Unknown(c);
    }
    if 49937 <= c && c <= 50192 {
        if let Some(k) = dual_key(c - 49937, DualFunctionModifier::Os) {
            return k;
        }
        return KeyKind::Unknown(c);
    }
    if 50705 <= c && c <= 50960 {
        if let Some(k) = dual_key(c - 50705, DualFunctionModifier::AltGr) {
            return k;
        }
        return KeyKind::Unknown(c);
    }
    if 51218 <= c && c <= 51473 {
        if let Some(k) = dual_key(c - 51218, DualFunctionModifier::Layer1) {
            return k;
        }
        return KeyKind::Unknown(c);
    }
    if 51474 <= c && c <= 51729 {
        if let Some(k) = dual_key(c - 51474, DualFunctionModifier::Layer2) {
            return k;
        }
        return KeyKind::Unknown(c);
    }
    if 51730 <= c && c <= 51985 {
        if let Some(k) = dual_key(c - 51730, DualFunctionModifier::Layer3) {
            return k;
        }
        return KeyKind::Unknown(c);
    }
    if 51986 <= c && c <= 52241 {
        if let Some(k) = dual_key(c - 51986, DualFunctionModifier::Layer4) {
            return k;
        }
        return KeyKind::Unknown(c);
    }
    if 52242 <= c && c <= 52497 {
        if let Some(k) = dual_key(c - 52242, DualFunctionModifier::Layer5) {
            return k;
        }
        return KeyKind::Unknown(c);
    }
    if 52498 <= c && c <= 52753 {
        if let Some(k) = dual_key(c - 52498, DualFunctionModifier::Layer6) {
            return k;
        }
        return KeyKind::Unknown(c);
    }
    if 52754 <= c && c <= 53009 {
        if let Some(k) = dual_key(c - 52754, DualFunctionModifier::Layer7) {
            return k;
        }
        return KeyKind::Unknown(c);
    }
    if 53010 <= c && c <= 53265 {
        if let Some(k) = dual_key(c - 53010, DualFunctionModifier::Layer8) {
            return k;
        }
        return KeyKind::Unknown(c);
    }
    if let Some(k) = base_key(c) {
        return k;
    }
    KeyKind::Unknown(c)
}

impl Blank {
    /// The key code of this base key.
    pub fn base_code(self) -> (c: u16)
        ensures
            c == self.code(),
    {
        match self {
            Blank::NoKey => 0,
            Blank::Transparent => 65535,
        }
    }
}

impl Spacing {
    /// The key code of this base key.
    pub fn base_code(self) -> (c: u16)
        ensures
            c == self.code(),
    {
        match self {
            Spacing::Enter => 40,
            Spacing::Escape => 41,
            Spacing::Backspace => 42,
            Spacing::Tab => 43,
            Spacing::Space => 44,
            Spacing::Insert => 73,
            Spacing::Delete => 76,
        }
    }
}

impl Alpha {
    /// The key code of this base key.
    pub fn base_code(self) -> (c: u16)
        ensures
            c == self.code(),
    {
        match self {
            Alpha::A => 4,
            Alpha::B => 5,
            Alpha::C => 6,
            Alpha::D => 7,
            Alpha::E => 8,
            Alpha::F => 9,
            Alpha::G => 10,
            Alpha::H => 11,
            Alpha::I => 12,
            Alpha::J => 13,
            Alpha::K => 14,
            Alpha::L => 15,
            Alpha::M => 16,
            Alpha::N => 17,
            Alpha::O => 18,
            Alpha::P => 19,
            Alpha::Q => 20,
            Alpha::R => 21,
            Alpha::S => 22,
            Alpha::T => 23,
            Alpha::U => 24,
            Alpha::V => 25,
            Alpha::W => 26,
            Alpha::X => 27,
            Alpha::Y => 28,
            Alpha::Z => 29,
        }
    }
}

impl Digits {
    /// The key code of this base key.
    pub fn base_code(self) -> (c: u16)
        ensures
            c == self.code(),
    {
        match self {
            Digits::One => 30,
            Digits::Two => 31,
            Digits::Three => 32,
            Digits::Four => 33,
            Digits::Five => 34,
            Digits::Six => 35,
            Digits::Seven => 36,
            Digits::Eight => 37,
            Digits::Nine => 38,
            Digits::Zero => 39,
        }
    }
}

impl Numpad {
    /// The key code of this base key.
    pub fn base_code(self) -> (c: u16)
        ensures
            c == self.code(),
    {
        match self {
            Numpad::NumLock => 83,
            Numpad::Divide => 84,
            Numpad::Times => 85,
            Numpad::Minus => 86,
            Numpad::Add => 87,
            Numpad::Enter => 88,
            Numpad::One => 89,
            Numpad::Two => 90,
            Numpad::Three => 91,
            Numpad::Four => 92,
            Numpad::Five => 93,
            Numpad::Six => 94,
            Numpad::Seven => 95,
            Numpad::Eight => 96,
            Numpad::Nine => 97,
            Numpad::Zero => 98,
            Numpad::Period => 99,
        }
    }
}

impl Fx {
    /// The key code of this base key.
    pub fn base_code(self) -> (c: u16)
        ensures
            c == self.code(),
    {
        match self {
            Fx::F1 => 58,
            Fx::F2 => 59,
            Fx::F3 => 60,
            Fx::F4 => 61,
            Fx::F5 => 62,
            Fx::F6 => 63,
            Fx::F7 => 64,
            Fx::F8 => 65,
            Fx::F9 => 66,
            Fx::F10 => 67,
            Fx::F11 => 68,
            Fx::F12 => 69,
            Fx::F13 => 104,
            Fx::F14 => 105,
            Fx::F15 => 106,
            Fx::F16 => 107,
            Fx::F17 => 108,
            Fx::F18 => 109,
            Fx::F19 => 110,
            Fx::F20 => 111,
            Fx::F21 => 112,
            Fx::F22 => 113,
            Fx::F23 => 114,
            Fx::F24 => 115,
        }
    }
}

impl Symbols {
    /// The key code of this base key.
    pub fn base_code(self) -> (c: u16)
        ensures
            c == self.code(),
    {
        match self {
            Symbols::Dash => 45,
            Symbols::Equals => 46,
            Symbols::BracketLeft => 47,
            Symbols::BracketRight => 48,
            Symbols::Backslash => 49,
            Symbols::Semicolon => 51,
            Symbols::SingleQuote => 52,
            Symbols::BackTick => 53,
            Symbols::Comma => 54,
            Symbols::Period => 55,
            Symbols::Slash => 56,
            Symbols::CapsLock => 57,
            Symbols::IsoGTLT => 100,
        }
    }
}

impl ShiftSymbols {
    /// The key code of this base key.
    pub fn base_code(self) -> (c: u16)
        ensures
            c == self.code(),
    {
        match self {
            ShiftSymbols::Underscore => 2093,
            ShiftSymbols::Plus => 2094,
            ShiftSymbols::BraceLeft => 2095,
            ShiftSymbols::BraceRight => 2096,
            ShiftSymbols::Pipe => 2097,
            ShiftSymbols::Colon => 2099,
            ShiftSymbols::DoubleQuote => 2100,
            ShiftSymbols::Tilde => 2101,
            ShiftSymbols::LT => 2102,
            ShiftSymbols::GT => 2103,
            ShiftSymbols::QuestionMark => 2104,
            ShiftSymbols::AltPipe => 2148,
        }
    }
}

impl Modifiers {
    /// The key code of this base key.
    pub fn base_code(self) -> (c: u16)
        ensures
            c == self.code(),
    {
        match self {
            Modifiers::LeftCtrl => 224,
            Modifiers::LeftShift => 225,
            Modifiers::LeftAlt => 226,
            Modifiers::LeftOs => 227,
            Modifiers::RightCtrl => 228,
            Modifiers::RightShift => 229,
            Modifiers::AltGr => 230,
            Modifiers::RightOs => 231,
        }
    }
}

impl Media {
    /// The key code of this base key.
    pub fn base_code(self) -> (c: u16)
        ensures
            c == self.code(),
    {
        match self {
            Media::Mute => 19682,
            Media::NextTrack => 22709,
            Media::PreviousTrack => 22710,
            Media::Stop => 22711,
            Media::PlayPause => 22733,
            Media::VolumeUp => 23785,
            Media::VolumeDown => 23786,
            Media::Eject => 22712,
            Media::Camera => 18552,
            Media::BrightnessUp => 23663,
            Media::BrightnessDown => 23664,
            Media::Calculator => 18834,
            Media::Shuffle => 22713,
        }
    }
}

impl Navigation {
    /// The key code of this base key.
    pub fn base_code(self) -> (c: u16)
        ensures
            c == self.code(),
    {
        match self {
            Navigation::Home => 74,
            Navigation::PageUp => 75,
            Navigation::End => 77,
            Navigation::PageDown => 78,
            Navigation::ArrowRight => 79,
            Navigation::ArrowLeft => 80,
            Navigation::ArrowDown => 81,
            Navigation::ArrowUp => 82,
            Navigation::Menu => 101,
        }
    }
}

impl MouseMovement {
    /// The key code of this base key.
    pub fn base_code(self) -> (c: u16)
        ensures
            c == self.code(),
    {
        match self {
            MouseMovement::MouseUp => 20481,
            MouseMovement::MouseDown => 20482,
            MouseMovement::MouseLeft => 20484,
            MouseMovement::MouseRight => 20488,
        }
    }
}

impl MouseWheele {
    /// The key code of this base key.
    pub fn base_code(self) -> (c: u16)
        ensures
            c == self.code(),
    {
        match self {
            MouseWheele::WheelUp => 20497,
            MouseWheele::WheelDown => 20498,
            MouseWheele::WheelLeft => 20500,
            MouseWheele::WheelRight => 20504,
        }
    }
}

impl MouseButtons {
    /// The key code of this base key.
    pub fn base_code(self) -> (c: u16)
        ensures
            c == self.code(),
    {
        match self {
            MouseButtons::Left => 20545,
            MouseButtons::Right => 20546,
            MouseButtons::Middle => 20548,
            MouseButtons::Back => 20552,
            MouseButtons::Forward => 20560,
        }
    }
}

impl MouseWarp {
    /// The key code of this base key.
    pub fn base_code(self) -> (c: u16)
        ensures
            c == self.code(),
    {
        match self {
            MouseWarp::End => 20576,
            MouseWarp::NW => 20517,
            MouseWarp::SW => 20518,
            MouseWarp::NE => 20521,
            MouseWarp::SE => 20522,
        }
    }
}

impl LedEffects {
    /// The key code of this base key.
    pub fn base_code(self) -> (c: u16)
        ensures
            c == self.code(),
    {
        match self {
            LedEffects::Next => 17152,
            LedEffects::Previous => 17153,
            LedEffects::Toggle => 17154,
        }
    }
}

impl Battery {
    /// The key code of this base key.
    pub fn base_code(self) -> (c: u16)
        ensures
            c == self.code(),
    {
        match self {
            Battery::Status => 54108,
        }
    }
}

impl Bluetooth {
    /// The key code of this base key.
    pub fn base_code(self) -> (c: u16)
        ensures
            c == self.code(),
    {
        match self {
            Bluetooth::Pair => 54109,
        }
    }
}

impl Energy {
    /// The key code of this base key.
    pub fn base_code(self) -> (c: u16)
        ensures
            c == self.code(),
    {
        match self {
            Energy::Status => 54111,
        }
    }
}

impl Rf {
    /// The key code of this base key.
    pub fn base_code(self) -> (c: u16)
        ensures
            c == self.code(),
    {
        match self {
            Rf::Status => 54112,
        }
    }
}

impl LayerLock {
    /// The key code of this base key.
    pub fn base_code(self) -> (c: u16)
        ensures
            c == self.code(),
    {
        match self {
            LayerLock::Layer1 => 17408,
            LayerLock::Layer2 => 17409,
            LayerLock::Layer3 => 17410,
            LayerLock::Layer4 => 17411,
            LayerLock::Layer5 => 17412,
            LayerLock::Layer6 => 17413,
            LayerLock::Layer7 => 17414,
            LayerLock::Layer8 => 17415,
            LayerLock::Layer9 => 17416,
            LayerLock::Layer10 => 17417,
        }
    }
}

impl LayerShift {
    /// The key code of this base key.
    pub fn base_code(self) -> (c: u16)
        ensures
            c == self.code(),
    {
        match self {
            LayerShift::Layer1 => 17450,
            LayerShift::Layer2 => 17451,
            LayerShift::Layer3 => 17452,
            LayerShift::Layer4 => 17453,
            LayerShift::Layer5 => 17454,
            LayerShift::Layer6 => 17455,
            LayerShift::Layer7 => 17456,
            LayerShift::Layer8 => 17457,
            LayerShift::Layer9 => 17458,
            LayerShift::Layer10 => 17459,
        }
    }
}

impl LayerMove {
    /// The key code of this base key.
    pub fn base_code(self) -> (c: u16)
        ensures
            c == self.code(),
    {
        match self {
            LayerMove::Layer1 => 17492,
            LayerMove::Layer2 => 17493,
            LayerMove::Layer3 => 17494,
            LayerMove::Layer4 => 17495,
            LayerMove::Layer5 => 17496,
            LayerMove::Layer6 => 17497,
            LayerMove::Layer7 => 17498,
            LayerMove::Layer8 => 17499,
            LayerMove::Layer9 => 17500,
            LayerMove::Layer10 => 17501,
        }
    }
}

impl Miscellaneous {
    /// The key code of this base key.
    pub fn base_code(self) -> (c: u16)
        ensures
            c == self.code(),
    {
        match self {
            Miscellaneous::PrintScreen => 70,
            Miscellaneous::ScrollLock => 71,
            Miscellaneous::Pause => 72,
            Miscellaneous::Shutdown => 20865,
            Miscellaneous::Sleep => 20866,
        }
    }
}

impl Oneshot {
    /// The key code of this base key.
    pub fn base_code(self) -> (c: u16)
        ensures
            c == self.code(),
    {
        match self {
            Oneshot::Layer1 => 49161,
            Oneshot::Layer2 => 49162,
            Oneshot::Layer3 => 49163,
            Oneshot::Layer4 => 49164,
            Oneshot::Layer5 => 49165,
            Oneshot::Layer6 => 49166,
            Oneshot::Layer7 => 49167,
            Oneshot::Layer8 => 49168,
            Oneshot::LeftCtrl => 49153,
            Oneshot::LeftShift => 49154,
            Oneshot::LeftAlt => 49155,
            Oneshot::LeftOs => 49156,
            Oneshot::RightCtrl => 49157,
            Oneshot::RightShift => 49158,
            Oneshot::AltGr => 49159,
            Oneshot::RightOs => 49160,
        }
    }
}

/// Encodes a key back to its 16-bit code: the base code plus the
/// expansion's value. The inverse of [`decode`] on every decoded key.
pub fn encode(k: KeyKind) -> (c: u16)
    requires
        k.wf(),
    ensures
        c as int == spec_encode(k),
{
    proof {
        reveal(spec_encode);
    }
    match k {
        KeyKind::Blank(b) => b.base_code(),
        KeyKind::Spacing(b, x) => b.base_code() + expansion_value(x),
        KeyKind::Alpha(b, x) => b.base_code() + expansion_value(x),
        KeyKind::Digits(b, x) => b.base_code() + expansion_value(x),
        KeyKind::Numpad(b, x) => b.base_code() + expansion_value(x),
        KeyKind::Fx(b, x) => b.base_code() + expansion_value(x),
        KeyKind::Symbols(b, x) => b.base_code() + expansion_value(x),
        KeyKind::ShiftSymbols(b) => b.base_code(),
        KeyKind::Modifiers(b, x) => b.base_code() + expansion_value(x),
        KeyKind::Media(b) => b.base_code(),
        KeyKind::Navigation(b, x) => b.base_code() + expansion_value(x),
        KeyKind::MouseMovement(b) => b.base_code(),
        KeyKind::MouseWheele(b) => b.base_code(),
        KeyKind::MouseButtons(b) => b.base_code(),
        KeyKind::MouseWarp(b) => b.base_code(),
        KeyKind::LedEffects(b) => b.base_code(),
        KeyKind::Battery(b) => b.base_code(),
        KeyKind::Bluetooth(b) => b.base_code(),
        KeyKind::Energy(b) => b.base_code(),
        KeyKind::Rf(b) => b.base_code(),
        KeyKind::LayerLock(b) => b.base_code(),
        KeyKind::LayerShift(b) => b.base_code(),
        KeyKind::LayerMove(b) => b.base_code(),
        KeyKind::Miscellaneous(b, x) => b.base_code() + expansion_value(x),
        KeyKind::Oneshot(b) => b.base_code(),
        KeyKind::Macros(s) => 53851 + s.index as u16,
        KeyKind::SuperKeys(s) => 53979 + s.index as u16,
        KeyKind::Unknown(c) => c,
    }
}

fn expansion_value(x: KeyExpansion) -> (v: u16)
    ensures
        v as int == spec_expansion_value(x),
{
    match x {
        KeyExpansion::Plain => 0,
        KeyExpansion::Modified(m) => m.mask_value(),
        KeyExpansion::Dual(d) => d.as_modifier_value(),
    }
}

/// Code round trip: every 16-bit code decodes to a well-formed key whose
/// encoding is the code itself.
pub proof fn lemma_code_round_trip(c: u16)
    ensures
        spec_decode(c).wf(),
        spec_encode(spec_decode(c)) == c as int,
{
    reveal(spec_decode);
    reveal(spec_encode);
    if spec_mod_try(c) is Some {
        if 256 <= c < 8192 && spec_mod_key((c % 256) as u16, spec_mods_from((c / 256) as int)) is Some {
            let lo = (c % 256) as u16;
            let h = c as int / 256;
            lemma_mods_from_value(h);
            lemma_mod_key_encode(lo, spec_mods_from(h));
            assert(c == 256 * h + lo);
        } else if 21121 <= c <= 28801 && (c - 20865) % 256 == 0 {
            let h = (c - 20865) / 256;
            lemma_mods_from_value(h);
            assert(c - 20865 == 256 * h);
        } else {
            let h = (c - 20866) / 256;
            lemma_mods_from_value(h);
            assert(c - 20866 == 256 * h);
        }
    } else if spec_dual_try(c) is Some {

        if 49169 <= c <= 49424 {
            lemma_dual_key_encode((c - 49169) as u16, DualFunctionModifier::Ctrl);
        } else if 49425 <= c <= 49680 {
            lemma_dual_key_encode((c - 49425) as u16, DualFunctionModifier::Shift);
        } else if 49681 <= c <= 49936 {
            lemma_dual_key_encode((c - 49681) as u16, DualFunctionModifier::Alt);
        } else if 49937 <= c <= 50192 {
            lemma_dual_key_encode((c - 49937) as u16, DualFunctionModifier::Os);
        } else if 50705 <= c <= 50960 {
            lemma_dual_key_encode((c - 50705) as u16, DualFunctionModifier::AltGr);
        } else if 51218 <= c <= 51473 {
            lemma_dual_key_encode((c - 51218) as u16, DualFunctionModifier::Layer1);
        } else if 51474 <= c <= 51729 {
            lemma_dual_key_encode((c - 51474) as u16, DualFunctionModifier::Layer2);
        } else if 51730 <= c <= 51985 {
            lemma_dual_key_encode((c - 51730) as u16, DualFunctionModifier::Layer3);
        } else if 51986 <= c <= 52241 {
            lemma_dual_key_encode((c - 51986) as u16, DualFunctionModifier::Layer4);
        } else if 52242 <= c <= 52497 {
            lemma_dual_key_encode((c - 52242) as u16, DualFunctionModifier::Layer5);
        } else if 52498 <= c <= 52753 {
            lemma_dual_key_encode((c - 52498) as u16, DualFunctionModifier::Layer6);
        } else if 52754 <= c <= 53009 {
            lemma_dual_key_encode((c - 52754) as u16, DualFunctionModifier::Layer7);
        } else if 53010 <= c <= 53265 {
            lemma_dual_key_encode((c - 53010) as u16, DualFunctionModifier::Layer8);
        }
    } else if spec_base_key(c) is Some {
        lemma_base_key_encode(c);
    }
}

/// The code of every well-formed key fits in 16 bits.
#[verifier::rlimit(100)]
pub proof fn lemma_encode_fits(k: KeyKind)
    requires
        k.wf(),
    ensures
        0 <= spec_encode(k) < 65536,
{
    reveal(spec_encode);
}

} // verus!
