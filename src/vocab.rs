//! The fixed vocabulary of the protocol: property names, effects, modes and
//! the other enumerated parameters, each with its text on the wire.
use vstd::prelude::*;

verus! {

/// A property of the device, as named by `get_prop`.
#[derive(Debug, Clone, Copy, PartialEq, Eq, Structural)]
pub enum Property {
    Power,
    Bright,
    CT,
    RGB,
    Hue,
    Sat,
    ColorMode,
    Flowing,
    DelayOff,
    FlowParams,
    MusicOn,
    Name,
    BgPower,
    BgFlowing,
    BgFlowParams,
    BgCT,
    BgColorMode,
    BgBright,
    BgRGB,
    BgHue,
    BgSat,
    NightLightBright,
    ActiveMode,
}

impl Property {
    /// The parameter as it appears on the wire.
    pub open spec fn wire(self) -> Seq<char> {
        match self {
            Property::Power => "\"power\""@,
            Property::Bright => "\"bright\""@,
            Property::CT => "\"ct\""@,
            Property::RGB => "\"rgb\""@,
            Property::Hue => "\"hue\""@,
            Property::Sat => "\"sat\""@,
            Property::ColorMode => "\"color_mode\""@,
            Property::Flowing => "\"flowing\""@,
            Property::DelayOff => "\"delayoff\""@,
            Property::FlowParams => "\"flow_params\""@,
            Property::MusicOn => "\"music_on\""@,
            Property::Name => "\"name\""@,
            Property::BgPower => "\"bg_power\""@,
            Property::BgFlowing => "\"bg_flowing\""@,
            Property::BgFlowParams => "\"bg_flow_params\""@,
            Property::BgCT => "\"bg_ct\""@,
            Property::BgColorMode => "\"bg_lmode\""@,
            Property::BgBright => "\"bg_bright\""@,
            Property::BgRGB => "\"bg_rgb\""@,
            Property::BgHue => "\"bg_hue\""@,
            Property::BgSat => "\"bg_sat\""@,
            Property::NightLightBright => "\"nl_br\""@,
            Property::ActiveMode => "\"active_mode\""@,
        }
    }

    /// The parameter as it appears on the wire.
    pub fn to_string(&self) -> (r: String)
        ensures
            r@ == self.wire(),
    {
        match self {
            Property::Power => String::from_str("\"power\""),
            Property::Bright => String::from_str("\"bright\""),
            Property::CT => String::from_str("\"ct\""),
            Property::RGB => String::from_str("\"rgb\""),
            Property::Hue => String::from_str("\"hue\""),
            Property::Sat => String::from_str("\"sat\""),
            Property::ColorMode => String::from_str("\"color_mode\""),
            Property::Flowing => String::from_str("\"flowing\""),
            Property::DelayOff => String::from_str("\"delayoff\""),
            Property::FlowParams => String::from_str("\"flow_params\""),
            Property::MusicOn => String::from_str("\"music_on\""),
            Property::Name => String::from_str("\"name\""),
            Property::BgPower => String::from_str("\"bg_power\""),
            Property::BgFlowing => String::from_str("\"bg_flowing\""),
            Property::BgFlowParams => String::from_str("\"bg_flow_params\""),
            Property::BgCT => String::from_str("\"bg_ct\""),
            Property::BgColorMode => String::from_str("\"bg_lmode\""),
            Property::BgBright => String::from_str("\"bg_bright\""),
            Property::BgRGB => String::from_str("\"bg_rgb\""),
            Property::BgHue => String::from_str("\"bg_hue\""),
            Property::BgSat => String::from_str("\"bg_sat\""),
            Property::NightLightBright => String::from_str("\"nl_br\""),
            Property::ActiveMode => String::from_str("\"active_mode\""),
        }
    }
}

/// Power state (on or off).
#[derive(Debug, Clone, Copy, PartialEq, Eq, Structural)]
pub enum Power {
    On,
    Off,
}

impl Power {
    /// The parameter as it appears on the wire.
    pub open spec fn wire(self) -> Seq<char> {
        match self {
            Power::On => "\"on\""@,
            Power::Off => "\"off\""@,
        }
    }

    /// The parameter as it appears on the wire.
    pub fn to_string(&self) -> (r: String)
        ensures
            r@ == self.wire(),
    {
        match self {
            Power::On => String::from_str("\"on\""),
            Power::Off => String::from_str("\"off\""),
        }
    }
}

/// How a change is applied: at once, or gradually over the given duration.
#[derive(Debug, Clone, Copy, PartialEq, Eq, Structural)]
pub enum Effect {
    Sudden,
    Smooth,
}

impl Effect {
    /// The parameter as it appears on the wire.
    pub open spec fn wire(self) -> Seq<char> {
        match self {
            Effect::Sudden => "\"sudden\""@,
            Effect::Smooth => "\"smooth\""@,
        }
    }

    /// The parameter as it appears on the wire.
    pub fn to_string(&self) -> (r: String)
        ensures
            r@ == self.wire(),
    {
        match self {
            Effect::Sudden => String::from_str("\"sudden\""),
            Effect::Smooth => String::from_str("\"smooth\""),
        }
    }
}

/// The property changed by an adjustment.
#[derive(Debug, Clone, Copy, PartialEq, Eq, Structural)]
pub enum Prop {
    Bright,
    CT,
    Color,
}

impl Prop {
    /// The parameter as it appears on the wire.
    pub open spec fn wire(self) -> Seq<char> {
        match self {
            Prop::Bright => "\"bright\""@,
            Prop::CT => "\"ct\""@,
            Prop::Color => "\"color\""@,
        }
    }

    /// The parameter as it appears on the wire.
    pub fn to_string(&self) -> (r: String)
        ensures
            r@ == self.wire(),
    {
        match self {
            Prop::Bright => String::from_str("\"bright\""),
            Prop::CT => String::from_str("\"ct\""),
            Prop::Color => String::from_str("\"color\""),
        }
    }
}

/// The class of a scene.
#[derive(Debug, Clone, Copy, PartialEq, Eq, Structural)]
pub enum Class {
    Color,
    HSV,
    CT,
    CF,
    AutoDelayOff,
}

impl Class {
    /// The parameter as it appears on the wire.
    pub open spec fn wire(self) -> Seq<char> {
        match self {
            Class::Color => "\"color\""@,
            Class::HSV => "\"hsv\""@,
            Class::CT => "\"ct\""@,
            Class::CF => "\"cf\""@,
            Class::AutoDelayOff => "\"auto_delay_off\""@,
        }
    }

    /// The parameter as it appears on the wire.
    pub fn to_string(&self) -> (r: String)
        ensures
            r@ == self.wire(),
    {
        match self {
            Class::Color => String::from_str("\"color\""),
            Class::HSV => String::from_str("\"hsv\""),
            Class::CT => String::from_str("\"ct\""),
            Class::CF => String::from_str("\"cf\""),
            Class::AutoDelayOff => String::from_str("\"auto_delay_off\""),
        }
    }
}

/// The mode in which the light is switched on.
#[derive(Debug, Clone, Copy, PartialEq, Eq, Structural)]
pub enum Mode {
    Normal,
    CT,
    RGB,
    HSV,
    CF,
    NightLight,
}

impl Mode {
    /// The parameter as it appears on the wire.
    pub open spec fn wire(self) -> Seq<char> {
        match self {
            Mode::Normal => "0"@,
            Mode::CT => "1"@,
            Mode::RGB => "2"@,
            Mode::HSV => "3"@,
            Mode::CF => "4"@,
            Mode::NightLight => "5"@,
        }
    }

    /// The parameter as it appears on the wire.
    pub fn to_string(&self) -> (r: String)
        ensures
            r@ == self.wire(),
    {
        match self {
            Mode::Normal => String::from_str("0"),
            Mode::CT => String::from_str("1"),
            Mode::RGB => String::from_str("2"),
            Mode::HSV => String::from_str("3"),
            Mode::CF => String::from_str("4"),
            Mode::NightLight => String::from_str("5"),
        }
    }
}

/// The kind of a timer job.
#[derive(Debug, Clone, Copy, PartialEq, Eq, Structural)]
pub enum CronType {
    Off,
}

impl CronType {
    /// The parameter as it appears on the wire.
    pub open spec fn wire(self) -> Seq<char> {
        match self {
            CronType::Off => "0"@,
        }
    }

    /// The parameter as it appears on the wire.
    pub fn to_string(&self) -> (r: String)
        ensures
            r@ == self.wire(),
    {
        match self {
            CronType::Off => String::from_str("0"),
        }
    }
}

/// What the light does when a flow ends.
#[derive(Debug, Clone, Copy, PartialEq, Eq, Structural)]
pub enum CfAction {
    Recover,
    Stay,
    Off,
}

impl CfAction {
    /// The parameter as it appears on the wire.
    pub open spec fn wire(self) -> Seq<char> {
        match self {
            CfAction::Recover => "0"@,
            CfAction::Stay => "1"@,
            CfAction::Off => "2"@,
        }
    }

    /// The parameter as it appears on the wire.
    pub fn to_string(&self) -> (r: String)
        ensures
            r@ == self.wire(),
    {
        match self {
            CfAction::Recover => String::from_str("0"),
            CfAction::Stay => String::from_str("1"),
            CfAction::Off => String::from_str("2"),
        }
    }
}

/// The direction of an adjustment.
#[derive(Debug, Clone, Copy, PartialEq, Eq, Structural)]
pub enum AdjustAction {
    Increase,
    Decrease,
    Circle,
}

impl AdjustAction {
    /// The parameter as it appears on the wire.
    pub open spec fn wire(self) -> Seq<char> {
        match self {
            AdjustAction::Increase => "\"increase\""@,
            AdjustAction::Decrease => "\"decrease\""@,
            AdjustAction::Circle => "\"circle\""@,
        }
    }

    /// The parameter as it appears on the wire.
    pub fn to_string(&self) -> (r: String)
        ensures
            r@ == self.wire(),
    {
        match self {
            AdjustAction::Increase => String::from_str("\"increase\""),
            AdjustAction::Decrease => String::from_str("\"decrease\""),
            AdjustAction::Circle => String::from_str("\"circle\""),
        }
    }
}

/// Start or stop of music mode.
#[derive(Debug, Clone, Copy, PartialEq, Eq, Structural)]
pub enum MusicAction {
    Off,
    On,
}

impl MusicAction {
    /// The parameter as it appears on the wire.
    pub open spec fn wire(self) -> Seq<char> {
        match self {
            MusicAction::Off => "0"@,
            MusicAction::On => "1"@,
        }
    }

    /// The parameter as it appears on the wire.
    pub fn to_string(&self) -> (r: String)
        ensures
            r@ == self.wire(),
    {
        match self {
            MusicAction::Off => String::from_str("0"),
            MusicAction::On => String::from_str("1"),
        }
    }
}

/// The kind of one step of a flow: color, color temperature or sleep.
#[derive(Debug, Clone, Copy, PartialEq, Eq, Structural)]
pub enum FlowMode {
    Color,
    CT,
    Sleep,
}

impl FlowMode {
    /// The parameter as it appears on the wire.
    pub open spec fn wire(self) -> Seq<char> {
        match self {
            FlowMode::Color => "1"@,
            FlowMode::CT => "2"@,
            FlowMode::Sleep => "7"@,
        }
    }

    /// The parameter as it appears on the wire.
    pub fn to_string(&self) -> (r: String)
        ensures
            r@ == self.wire(),
    {
        match self {
            FlowMode::Color => String::from_str("1"),
            FlowMode::CT => String::from_str("2"),
            FlowMode::Sleep => String::from_str("7"),
        }
    }
}

} // verus!
