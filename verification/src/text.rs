//! Plain data carriers handed to the text-layout collaborator: a position on
//! the display, a piece of static text, and the gear-position indicator with
//! its one-character rendering.

use vstd::prelude::*;
use vstd::string::StringSliceAdditionalSpecFns;

verus! {

/// A pixel position on the display.
#[derive(Clone, Copy, Debug, PartialEq, Eq, Structural)]
pub struct Position {
    pub x: u8,
    pub y: u8,
}

/// A fixed piece of text together with the position it is to be drawn at.
#[derive(Clone, Copy, Debug)]
pub struct StaticText {
    pub text: &'static str,
    pub position: &'static Position,
}

impl StaticText {
    /// The length of the text in bytes.
    pub fn len(&self) -> (n: usize)
        ensures
            n == self.text.spec_bytes().len() as usize,
    {
        self.text.len()
    }
}

/// The position of the gear selector, as shown on the display.
#[derive(Clone, Copy, Debug, PartialEq, Eq, Structural)]
pub enum GearPosition {
    Park,
    Reverse,
    Neutral,
    First,
    Second,
    Third,
    Fourth,
}

/// The character that stands for a gear position.
pub open spec fn gear_char(g: GearPosition) -> char {
    match g {
        GearPosition::Park => 'P',
        GearPosition::Reverse => 'R',
        GearPosition::Neutral => 'N',
        GearPosition::First => '1',
        GearPosition::Second => '2',
        GearPosition::Third => '3',
        GearPosition::Fourth => '4',
    }
}

impl GearPosition {
    /// The character this gear position is rendered as.
    pub fn as_char(&self) -> (c: char)
        ensures
            c == gear_char(*self),
    {
        match self {
            Self::Park => 'P',
            Self::Reverse => 'R',
            Self::Neutral => 'N',
            Self::First => '1',
            Self::Second => '2',
            Self::Third => '3',
            Self::Fourth => '4',
        }
    }
}

/// A field of the instrument display and the value it shows.
#[derive(Clone, Copy, Debug, PartialEq, Eq, Structural)]
pub enum DataField {
    Gear(GearPosition),
}

} // verus!

