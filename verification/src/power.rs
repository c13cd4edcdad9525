//! The power state of a device.

use vstd::prelude::*;
use crate::text::chars_of;
use crate::text::same_chars;

verus! {

/// Whether a device is switched on.
#[derive(Debug, Clone, Copy, PartialEq, Eq, Structural)]
pub enum Power {
    On,
    Off,
}

/// The word that the protocol writes for a power state.
pub open spec fn power_name(power: Power) -> Seq<char> {
    match power {
        Power::On => "on"@,
        Power::Off => "off"@,
    }
}

/// The power state that a word names, if it names one.
pub open spec fn power_named(word: Seq<char>) -> Option<Power> {
    if word == "on"@ {
        Some(Power::On)
    } else if word == "off"@ {
        Some(Power::Off)
    } else {
        None
    }
}

impl Power {
    /// Reads a power state: `on` or `off`, in lower case and nothing else.
    pub fn parse(value: &str) -> (power: Option<Power>)
        ensures
            power == power_named(value@),
    {
        let chars = chars_of(value);
        let on = chars_of("on");
        let off = chars_of("off");
        if same_chars(chars.as_slice(), on.as_slice()) {
            Some(Power::On)
        } else if same_chars(chars.as_slice(), off.as_slice()) {
            Some(Power::Off)
        } else {
            None
        }
    }

    /// The word that the protocol writes for this power state.
    pub fn as_str(&self) -> (word: &'static str)
        ensures
            word@ == power_name(*self),
    {
        match self {
            Power::On => "on",
            Power::Off => "off",
        }
    }

    /// The text shown for this power state: its protocol word.
    pub fn to_string(&self) -> (shown: String)
        ensures
            shown@ == power_name(*self),
    {
        self.as_str().to_owned()
    }
}

/// Reading the word of a power state gives that state back.
pub proof fn lemma_power_round_trip(power: Power)
    ensures
        power_named(power_name(power)) == Some(power),
{
    reveal_strlit("on");
    reveal_strlit("off");
    assert("on"@.len() != "off"@.len());
}

} // verus!
