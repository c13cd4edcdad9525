//! The colour mode that a device reports.

use vstd::prelude::*;
use crate::headers::number_under;
use crate::headers::Headers;
use crate::rgb::unpacked;
use crate::rgb::RGB;
use crate::text::decimal;
use crate::text::push_decimal;
use crate::text::push_str;
use crate::text::text_of;

verus! {

/// A colour given by hue and saturation.
#[derive(Debug, Clone, Copy, PartialEq, Eq, Structural)]
pub struct HSV {
    /// Hue, 0 to 359.
    pub hue: u16,
    /// Saturation, 0 to 100.
    pub saturation: u8,
}

/// The highest hue.
pub const MAX_HUE: u16 = 359;

/// The highest saturation.
pub const MAX_SATURATION: u8 = 100;

impl HSV {
    /// Whether hue and saturation are within their ranges.
    pub fn validate(&self) -> (valid: bool)
        ensures
            valid == (self.hue <= MAX_HUE && self.saturation <= MAX_SATURATION),
    {
        self.hue <= MAX_HUE && self.saturation <= MAX_SATURATION
    }
}

/// How a device produces its light.
#[derive(Debug, Clone, Copy, PartialEq, Eq, Structural)]
pub enum LightMode {
    Color(RGB),
    /// Colour temperature in kelvin.
    ColorTemperature(u32),
    Hsv(HSV),
}

/// The colour mode that a header block reports. `color_mode` chooses among
/// 1 (colour, under `rgb`), 2 (colour temperature, under `ct`) and 3 (hue and
/// saturation, under `hue` and `sat`); the fields of the chosen mode must be
/// there and be numbers of their width, the others are not looked at.
pub open spec fn light_mode_of(map: Map<Seq<char>, Seq<char>>) -> Option<LightMode> {
    match number_under(map, "color_mode"@, u8::MAX as nat) {
        Some(mode) => if mode == 1 {
            match number_under(map, "rgb"@, u32::MAX as nat) {
                Some(rgb) => Some(LightMode::Color(unpacked(rgb as u32))),
                None => None,
            }
        } else if mode == 2 {
            match number_under(map, "ct"@, u32::MAX as nat) {
                Some(ct) => Some(LightMode::ColorTemperature(ct as u32)),
                None => None,
            }
        } else if mode == 3 {
            match (
                number_under(map, "hue"@, u16::MAX as nat),
                number_under(map, "sat"@, u8::MAX as nat),
            ) {
                (Some(hue), Some(sat)) => Some(
                    LightMode::Hsv(HSV { hue: hue as u16, saturation: sat as u8 }),
                ),
                _ => None,
            }
        } else {
            None
        },
        None => None,
    }
}

/// The text shown for a colour mode: the name of the mode and, in
/// brackets, its values.
pub open spec fn light_mode_text(mode: LightMode) -> Seq<char> {
    match mode {
        LightMode::Color(rgb) => "Color(RGB { r: "@ + decimal(rgb.r as nat) + ", g: "@ + decimal(
            rgb.g as nat,
        ) + ", b: "@ + decimal(rgb.b as nat) + " })"@,
        LightMode::ColorTemperature(ct) => "ColorTemperature("@ + decimal(ct as nat) + ")"@,
        LightMode::Hsv(hsv) => "Hsv(HSV { hue: "@ + decimal(hsv.hue as nat) + ", saturation: "@
            + decimal(hsv.saturation as nat) + " })"@,
    }
}

impl LightMode {
    /// The text shown for this colour mode.
    pub fn to_string(&self) -> (shown: String)
        ensures
            shown@ == light_mode_text(*self),
    {
        let mut out: Vec<char> = Vec::new();
        match self {
            LightMode::Color(rgb) => {
                push_str(&mut out, "Color(RGB { r: ");
                push_decimal(&mut out, rgb.r as u64);
                push_str(&mut out, ", g: ");
                push_decimal(&mut out, rgb.g as u64);
                push_str(&mut out, ", b: ");
                push_decimal(&mut out, rgb.b as u64);
                push_str(&mut out, " })");
            },
            LightMode::ColorTemperature(ct) => {
                push_str(&mut out, "ColorTemperature(");
                push_decimal(&mut out, *ct as u64);
                push_str(&mut out, ")");
            },
            LightMode::Hsv(hsv) => {
                push_str(&mut out, "Hsv(HSV { hue: ");
                push_decimal(&mut out, hsv.hue as u64);
                push_str(&mut out, ", saturation: ");
                push_decimal(&mut out, hsv.saturation as u64);
                push_str(&mut out, " })");
            },
        }
        assert(out@ =~= light_mode_text(*self));
        text_of(out.as_slice())
    }

    /// Reads the colour mode from the header block of an announcement.
    pub fn parse(response_map: &Headers) -> (mode: Option<LightMode>)
        ensures
            mode == light_mode_of(response_map@),
    {
        match response_map.number("color_mode", 255) {
            Some(1) => match response_map.number("rgb", 0xFFFF_FFFF) {
                Some(rgb) => Some(LightMode::Color(RGB::new(rgb as u32))),
                None => None,
            },
            Some(2) => match response_map.number("ct", 0xFFFF_FFFF) {
                Some(ct) => Some(LightMode::ColorTemperature(ct as u32)),
                None => None,
            },
            Some(3) => match response_map.number("hue", 0xFFFF) {
                Some(hue) => match response_map.number("sat", 0xFF) {
                    Some(sat) => Some(
                        LightMode::Hsv(HSV { hue: hue as u16, saturation: sat as u8 }),
                    ),
                    None => None,
                },
                None => None,
            },
            _ => None,
        }
    }
}

} // verus!
