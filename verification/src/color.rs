//! The closed set of display colours and their wire constants.

use vstd::prelude::*;

verus! {

/// The colour tier of a segment.
#[derive(Clone, Copy, Debug, PartialEq, Eq, Structural)]
pub enum PrintColor {
    White,
    Black,
    Red,
    /// The dim red of unavailable readings.
    Red2,
    /// The bright red of the highest severity.
    Red3,
    Green,
    Blue,
    Orange,
    Yellow,
}

impl PrintColor {
    /// The `#RRGGBB` constant of the colour.
    pub open spec fn hex(self) -> Seq<char> {
        match self {
            PrintColor::White => "#FFFFFF"@,
            PrintColor::Black => "#000000"@,
            PrintColor::Red => "#ed3d40"@,
            PrintColor::Red2 => "#E87605"@,
            PrintColor::Red3 => "#FF2301"@,
            PrintColor::Green => "#00FF00"@,
            PrintColor::Blue => "#66a1f9"@,
            PrintColor::Orange => "#f4e71a"@,
            PrintColor::Yellow => "#ffff00"@,
        }
    }

    /// The `#RRGGBB` constant of the colour, as sent on the wire.
    pub fn code(self) -> (s: &'static str)
        ensures
            s@ == self.hex(),
    {
        match self {
            PrintColor::White => "#FFFFFF",
            PrintColor::Black => "#000000",
            PrintColor::Red => "#ed3d40",
            PrintColor::Red2 => "#E87605",
            PrintColor::Red3 => "#FF2301",
            PrintColor::Green => "#00FF00",
            PrintColor::Blue => "#66a1f9",
            PrintColor::Orange => "#f4e71a",
            PrintColor::Yellow => "#ffff00",
        }
    }
}

} // verus!
