//! The Bazecore backup-config schema: the structured shape of the
//! editable config files, as far as the toolkit reads them.

use vstd::prelude::*;

verus! {

/// Config schema.
#[derive(Clone, Debug, PartialEq, Eq)]
pub struct Config {
    /// Neuron data.
    pub neuron: Neuron,
    /// Backup data.
    pub backup: Vec<Command>,
}

/// Neuron schema.
#[derive(Clone, Debug, PartialEq, Eq)]
pub struct Neuron {
    /// Layer details.
    pub layers: Vec<Layer>,
    /// Layout information about this device.
    pub device: Device,
}

/// Layer schema.
#[derive(Clone, Debug, PartialEq, Eq)]
pub struct Layer {
    /// Layer name.
    pub name: String,
}

/// Device schema.
#[derive(Clone, Debug, PartialEq, Eq)]
pub struct Device {
    /// Layout information about the keyboard.
    pub keyboard: Keyboard,
}

/// Keyboard schema.
#[derive(Clone, Debug, PartialEq, Eq)]
pub struct Keyboard {
    /// Layout information for the left half of the keyboard.
    pub left: Vec<Vec<u8>>,
    /// Layout information for the right half of the keyboard.
    pub right: Vec<Vec<u8>>,
}

/// Command schema.
#[derive(Clone, Debug, PartialEq, Eq)]
pub struct Command {
    /// Command type.
    pub command: CommandKind,
    /// Command data.
    pub data: String,
}

/// Possible commands.
#[derive(Clone, Debug, PartialEq, Eq)]
pub enum CommandKind {
    /// Custom keymap.
    KeymapCustom,
    /// A command we don't know or care about.
    Unknown(String),
}

impl CommandKind {
    /// The command is the custom-keymap command.
    pub fn is_keymap_custom(&self) -> (r: bool)
        ensures
            r == (self is KeymapCustom),
    {
        match self {
            CommandKind::KeymapCustom => true,
            CommandKind::Unknown(_) => false,
        }
    }
}

} // verus!
