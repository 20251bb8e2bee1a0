//! Codec library for a Dygma keyboard's Focus API: framing of command
//! responses, the key-code table, and the keymap, superkey and macro wire
//! grammars.

pub mod defy;
pub mod focus;
pub mod keycode;
pub mod keyname;
pub mod macros;
pub mod response;
pub mod schema;
pub mod superkeys;
pub mod wire;
