//! The static configuration as it is loaded: a list of records, one per
//! watched buff, not yet validated.

use vstd::prelude::*;

verus! {

/// A field of a configuration record lies outside its allowed range.
#[derive(Clone, Copy, Debug, PartialEq, Eq, Structural)]
pub enum ConfigError {
    /// A colour channel is above 255.
    ColorOutOfRange,
}

impl ConfigError {
    /// The text shown for this error.
    pub fn message(&self) -> (text: String)
        ensures
            text@ == "color values must be between 0-255"@,
    {
        "color values must be between 0-255".to_string()
    }
}

/// The loaded configuration.
#[derive(Debug)]
pub struct LocalConfig {
    pub items: Vec<LocalConfigItem>,
}

/// One loaded record. `window_pos` holds the two screen coordinates, each as
/// the bit pattern of a 32-bit float: the library carries a position and never
/// computes with it.
#[derive(Debug)]
pub struct LocalConfigItem {
    pub buff_id: u32,
    pub window_pos: [u32; 2],
    pub icon: LocalConfigItemIcon,
    /// Empty where the record names no title.
    pub title: String,
    pub show_stacks: bool,
}

/// The shape of an icon as the configuration names it; the colour is not yet
/// checked.
#[derive(Clone, Copy, Debug)]
pub enum LocalConfigItemIcon {
    CircleOutline { radius: u32, thickness: u32, color: [u32; 3] },
    TriangleUp { side_length: u32, color: [u32; 3] },
}

} // verus!
