//! Display configuration of the watched buffs.

use crate::config::{ConfigError, LocalConfigItem, LocalConfigItemIcon};
use crate::decimal::{decimal, decimal_text, signed_decimal, signed_decimal_text};
use vstd::prelude::*;
use vstd::std_specs::convert::TryFromSpecImpl;

verus! {

/// A colour of three channels, each within `0..=255`. A value of this type is
/// only ever made from channels that were checked.
#[derive(Clone, Copy, Debug, PartialEq, Eq, Structural)]
pub struct RGBColor {
    r: u32,
    g: u32,
    b: u32,
}

impl RGBColor {
    #[verifier::type_invariant]
    spec fn in_range(self) -> bool {
        self.r <= 255 && self.g <= 255 && self.b <= 255
    }

    /// The colour with the given channels: red, green, blue.
    pub closed spec fn of(red: u32, green: u32, blue: u32) -> RGBColor {
        RGBColor { r: red, g: green, b: blue }
    }

    /// The three channels: red, green, blue.
    pub closed spec fn channels(self) -> (u32, u32, u32) {
        (self.r, self.g, self.b)
    }

    /// A colour is its three channels and nothing else.
    pub proof fn lemma_channels(red: u32, green: u32, blue: u32)
        ensures
            RGBColor::of(red, green, blue).channels() == (red, green, blue),
    {
    }

    /// Two colours with the same channels are the same colour.
    pub proof fn lemma_channels_decide(self, other: RGBColor)
        requires
            self.channels() == other.channels(),
        ensures
            self == other,
    {
    }

    /// The red channel.
    pub fn r(&self) -> (v: u32)
        ensures
            v == self.channels().0,
            v <= 255,
    {
        proof {
            use_type_invariant(self);
        }
        self.r
    }

    /// The green channel.
    pub fn g(&self) -> (v: u32)
        ensures
            v == self.channels().1,
            v <= 255,
    {
        proof {
            use_type_invariant(self);
        }
        self.g
    }

    /// The blue channel.
    pub fn b(&self) -> (v: u32)
        ensures
            v == self.channels().2,
            v <= 255,
    {
        proof {
            use_type_invariant(self);
        }
        self.b
    }
}

impl TryFrom<[u32; 3]> for RGBColor {
    type Error = ConfigError;

    /// Accepts three channels exactly where none is above 255.
    fn try_from(value: [u32; 3]) -> (r: Result<Self, Self::Error>) {
        if value[0] > 255 || value[1] > 255 || value[2] > 255 {
            return Err(ConfigError::ColorOutOfRange);
        }
        Ok(RGBColor { r: value[0], g: value[1], b: value[2] })
    }
}

impl TryFromSpecImpl<[u32; 3]> for RGBColor {
    open spec fn obeys_try_from_spec() -> bool {
        true
    }

    open spec fn try_from_spec(value: [u32; 3]) -> Result<Self, ConfigError> {
        checked_color(value)
    }
}

/// The colour of three configured channels: an error where one of them is
/// above 255.
pub open spec fn checked_color(value: [u32; 3]) -> Result<RGBColor, ConfigError> {
    if value[0] > 255 || value[1] > 255 || value[2] > 255 {
        Err(ConfigError::ColorOutOfRange)
    } else {
        Ok(RGBColor::of(value[0], value[1], value[2]))
    }
}

/// The shape drawn for a buff. Lengths are whole pixels, as configured.
#[derive(Clone, Copy, Debug, PartialEq, Eq, Structural)]
pub enum BuffIcon {
    CircleOutline { radius: u32, thickness: u32, color: RGBColor },
    TriangleUp { side_length: u32, color: RGBColor },
}

/// The validated icon for a configured one, or the error of its colour.
pub open spec fn icon_of(icon: LocalConfigItemIcon) -> Result<BuffIcon, ConfigError> {
    match icon {
        LocalConfigItemIcon::CircleOutline { radius, thickness, color } => {
            match checked_color(color) {
                Ok(c) => Ok(BuffIcon::CircleOutline { radius, thickness, color: c }),
                Err(e) => Err(e),
            }
        },
        LocalConfigItemIcon::TriangleUp { side_length, color } => {
            match checked_color(color) {
                Ok(c) => Ok(BuffIcon::TriangleUp { side_length, color: c }),
                Err(e) => Err(e),
            }
        },
    }
}

/// How one watched buff is displayed, together with the stack count that was
/// last observed for it. `window_x` and `window_y` are the bit patterns of
/// 32-bit floats.
#[derive(Debug, PartialEq)]
pub struct SingleBuffConfig {
    pub buff_id: u32,
    pub window_x: u32,
    pub window_y: u32,
    /// Empty where the window shows no title bar.
    pub opt_title: String,
    pub icon: BuffIcon,
    pub active_stacks: i32,
    pub show_stacks: bool,
}

impl Clone for SingleBuffConfig {
    fn clone(&self) -> (r: Self)
        ensures
            r == *self,
    {
        SingleBuffConfig {
            buff_id: self.buff_id,
            window_x: self.window_x,
            window_y: self.window_y,
            opt_title: self.opt_title.clone(),
            icon: self.icon,
            active_stacks: self.active_stacks,
            show_stacks: self.show_stacks,
        }
    }
}

impl SingleBuffConfig {
    /// A configuration with no stacks observed yet.
    pub fn new(
        buff_id: u32,
        window_x: u32,
        window_y: u32,
        opt_title: String,
        icon: BuffIcon,
        show_stacks: bool,
    ) -> (r: Self)
        ensures
            r == (SingleBuffConfig {
                buff_id,
                window_x,
                window_y,
                opt_title,
                icon,
                active_stacks: 0,
                show_stacks,
            }),
    {
        SingleBuffConfig {
            buff_id,
            window_x,
            window_y,
            opt_title,
            icon,
            active_stacks: 0i32,
            show_stacks,
        }
    }

    /// This configuration with `count` as its observed stack count.
    pub open spec fn observed(self, count: i32) -> SingleBuffConfig {
        SingleBuffConfig { active_stacks: count, ..self }
    }

    /// A copy of this configuration that carries the observed stack count.
    pub fn with_stacks(&self, count: i32) -> (r: Self)
        ensures
            r == self.observed(count),
    {
        let mut copy = self.clone();
        copy.active_stacks = count;
        copy
    }

    /// Whether the window of this buff shows a title bar.
    pub fn has_title(&self) -> (shown: bool)
        ensures
            shown == (self.opt_title@.len() > 0),
    {
        !self.opt_title.as_str().is_empty()
    }

    /// The name of the window of this buff: its title where it has one, else
    /// its identifier written out in decimal.
    pub fn window_title(&self) -> (title: String)
        ensures
            title@ == if self.opt_title@.len() > 0 {
                self.opt_title@
            } else {
                decimal(self.buff_id as nat)
            },
    {
        if self.has_title() {
            self.opt_title.clone()
        } else {
            decimal_text(self.buff_id)
        }
    }

    /// Pixels by which the title bar makes the window higher: none without a
    /// title, 20 under a circle, 22 under a triangle.
    pub open spec fn title_bar(self) -> u32 {
        if self.opt_title@.len() == 0 {
            0
        } else {
            match self.icon {
                BuffIcon::CircleOutline { .. } => 20,
                BuffIcon::TriangleUp { .. } => 22,
            }
        }
    }

    /// Pixels by which the title bar makes the window higher.
    pub fn title_bar_height(&self) -> (pixels: u32)
        ensures
            pixels == self.title_bar(),
    {
        if !self.has_title() {
            return 0;
        }
        match self.icon {
            BuffIcon::CircleOutline { .. } => 20,
            BuffIcon::TriangleUp { .. } => 22,
        }
    }

    /// Whether the observed stack count is written into the icon: only a
    /// circle carries it, and only where the configuration asks for it.
    pub open spec fn labelled(self) -> bool {
        self.show_stacks && self.icon is CircleOutline
    }

    /// The text written into the icon: the observed stack count in decimal,
    /// or nothing where the icon carries no count.
    pub fn stack_label(&self) -> (label: Option<String>)
        ensures
            match label {
                Some(text) => self.labelled() && text@ == signed_decimal(self.active_stacks as int),
                None => !self.labelled(),
            },
    {
        match self.icon {
            BuffIcon::CircleOutline { .. } => {
                if self.show_stacks {
                    Some(signed_decimal_text(self.active_stacks))
                } else {
                    None
                }
            },
            BuffIcon::TriangleUp { .. } => None,
        }
    }
}

impl TryFrom<&LocalConfigItem> for SingleBuffConfig {
    type Error = ConfigError;

    /// Validates one loaded record.
    fn try_from(value: &LocalConfigItem) -> (r: Result<Self, Self::Error>) {
        let icon = match value.icon {
            LocalConfigItemIcon::CircleOutline { radius, thickness, color } => {
                match RGBColor::try_from(color) {
                    Ok(c) => BuffIcon::CircleOutline { radius, thickness, color: c },
                    Err(e) => {
                        return Err(e);
                    },
                }
            },
            LocalConfigItemIcon::TriangleUp { side_length, color } => {
                match RGBColor::try_from(color) {
                    Ok(c) => BuffIcon::TriangleUp { side_length, color: c },
                    Err(e) => {
                        return Err(e);
                    },
                }
            },
        };
        Ok(
            SingleBuffConfig::new(
                value.buff_id,
                value.window_pos[0],
                value.window_pos[1],
                value.title.clone(),
                icon,
                value.show_stacks,
            ),
        )
    }
}

impl TryFromSpecImpl<&LocalConfigItem> for SingleBuffConfig {
    open spec fn obeys_try_from_spec() -> bool {
        true
    }

    open spec fn try_from_spec(value: &LocalConfigItem) -> Result<Self, ConfigError> {
        validated(*value)
    }
}

/// The display configuration for a loaded record: an error where its colour
/// is out of range, else the record's fields with no stacks observed.
pub open spec fn validated(value: LocalConfigItem) -> Result<SingleBuffConfig, ConfigError> {
    {
        match icon_of(value.icon) {
            Ok(icon) => Ok(
                SingleBuffConfig {
                    buff_id: value.buff_id,
                    window_x: value.window_pos[0],
                    window_y: value.window_pos[1],
                    opt_title: value.title,
                    icon,
                    active_stacks: 0,
                    show_stacks: value.show_stacks,
                },
            ),
            Err(e) => Err(e),
        }
    }
}

} // verus!
