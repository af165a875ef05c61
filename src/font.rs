//! The icons of the terminal's icon font.
use vstd::prelude::*;

verus! {

/// An icon of the icon font.
#[derive(Clone, Copy, Debug, PartialEq, Eq, Structural)]
pub enum Icon {
    Gear,
    Gauge,
    Stopwatch,
    CloudArrowUp,
    Microchip,
    MicrophoneLines,
    Microphone,
    VolumeOff,
    Shuffle,
}

/// The code point of `icon` in the icon font.
pub open spec fn code_point(icon: Icon) -> char {
    match icon {
        Icon::Gear => '\u{f013}',
        Icon::Gauge => '\u{f624}',
        Icon::Stopwatch => '\u{f2f2}',
        Icon::CloudArrowUp => '\u{f0ee}',
        Icon::Microchip => '\u{f2db}',
        Icon::MicrophoneLines => '\u{f3c9}',
        Icon::Microphone => '\u{f130}',
        Icon::VolumeOff => '\u{f026}',
        Icon::Shuffle => '\u{f074}',
    }
}

impl Icon {
    /// The character that draws the icon in the icon font.
    pub fn glyph(&self) -> (r: char)
        ensures
            r == code_point(*self),
    {
        match self {
            Icon::Gear => '\u{f013}',
            Icon::Gauge => '\u{f624}',
            Icon::Stopwatch => '\u{f2f2}',
            Icon::CloudArrowUp => '\u{f0ee}',
            Icon::Microchip => '\u{f2db}',
            Icon::MicrophoneLines => '\u{f3c9}',
            Icon::Microphone => '\u{f130}',
            Icon::VolumeOff => '\u{f026}',
            Icon::Shuffle => '\u{f074}',
        }
    }
}

} // verus!
