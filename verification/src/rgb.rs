//! Colours as three eight-bit channels, and their packed 24-bit form.

use vstd::prelude::*;
use vstd::std_specs::convert::FromSpecImpl;
use crate::text::decimal;
use crate::text::push_decimal;
use crate::text::push_str;
use crate::text::text_of;

verus! {

/// A colour with one byte per channel.
#[derive(Debug, Clone, Copy, PartialEq, Eq, Structural)]
pub struct RGB {
    pub r: u8,
    pub g: u8,
    pub b: u8,
}

/// The packed form of a colour: red in bits 16..24, green in bits 8..16,
/// blue in bits 0..8.
pub open spec fn packed(rgb: RGB) -> int {
    65536 * (rgb.r as int) + 256 * (rgb.g as int) + (rgb.b as int)
}

/// The colour held in the low 24 bits of `value`; higher bits are ignored.
pub open spec fn unpacked(value: u32) -> RGB {
    RGB {
        r: ((value as int / 65536) % 256) as u8,
        g: ((value as int / 256) % 256) as u8,
        b: (value as int % 256) as u8,
    }
}

/// The text shown for a colour: its three channels, separated by a comma
/// and a space.
pub open spec fn rgb_text(rgb: RGB) -> Seq<char> {
    decimal(rgb.r as nat) + ", "@ + decimal(rgb.g as nat) + ", "@ + decimal(rgb.b as nat)
}

impl RGB {
    /// The text shown for this colour.
    pub fn to_string(&self) -> (shown: String)
        ensures
            shown@ == rgb_text(*self),
    {
        let mut out: Vec<char> = Vec::new();
        push_decimal(&mut out, self.r as u64);
        push_str(&mut out, ", ");
        push_decimal(&mut out, self.g as u64);
        push_str(&mut out, ", ");
        push_decimal(&mut out, self.b as u64);
        assert(out@ =~= rgb_text(*self));
        text_of(out.as_slice())
    }

    /// Reads a colour from the low 24 bits of `value`.
    pub fn new(value: u32) -> (rgb: RGB)
        ensures
            rgb == unpacked(value),
    {
        let r: u32 = (value >> 16) & 0xFF;
        let g: u32 = (value >> 8) & 0xFF;
        let b: u32 = value & 0xFF;
        assert(r == (value / 65536) % 256 && g == (value / 256) % 256 && b == value % 256)
            by (bit_vector)
            requires
                r == (value >> 16) & 0xFF,
                g == (value >> 8) & 0xFF,
                b == value & 0xFF,
        ;
        RGB { r: r as u8, g: g as u8, b: b as u8 }
    }

    /// Packs the three channels into one integer below 2^24.
    pub fn to_u32(&self) -> (value: u32)
        ensures
            value == packed(*self),
    {
        65536 * (self.r as u32) + 256 * (self.g as u32) + (self.b as u32)
    }
}

impl From<u32> for RGB {
    fn from(value: u32) -> (rgb: RGB) {
        RGB::new(value)
    }
}

impl FromSpecImpl<u32> for RGB {
    open spec fn obeys_from_spec() -> bool {
        true
    }

    open spec fn from_spec(value: u32) -> RGB {
        unpacked(value)
    }
}

impl From<RGB> for u32 {
    fn from(rgb: RGB) -> (value: u32) {
        rgb.to_u32()
    }
}

impl FromSpecImpl<RGB> for u32 {
    open spec fn obeys_from_spec() -> bool {
        true
    }

    open spec fn from_spec(rgb: RGB) -> u32 {
        packed(rgb) as u32
    }
}

/// Packing a colour and unpacking the result gives the colour back.
pub proof fn lemma_unpack_packed(rgb: RGB)
    ensures
        0 <= packed(rgb) < 0x1000000,
        unpacked(packed(rgb) as u32) == rgb,
{
}

/// Unpacking an integer below 2^24 and packing the result gives the integer
/// back.
pub proof fn lemma_pack_unpacked(value: u32)
    requires
        value < 0x1000000,
    ensures
        packed(unpacked(value)) == value,
{
}

} // verus!
