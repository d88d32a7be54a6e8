//! Colors of a three-input multicolor stack light (Banner S22) and the
//! input pattern that selects each of them.
//!
//! ```text
//!            Red   Yellow  Green  Cyan  Blue  Magenta  White
//! Input 1     X      X                          X        X
//! Input 2            X       X     X                     X
//! Input 3                          X     X      X        X
//! ```
use vstd::prelude::*;
use vstd::string::*;

verus! {

/// A color of the stack light.
#[derive(Clone, Copy, Debug, PartialEq, Eq, Structural)]
pub enum Colors {
    Off,
    Red,
    Green,
    Yellow,
    Blue,
    Magenta,
    Cyan,
    White,
}

impl Colors {
    /// The numeric code of the color: bit 0 drives input 1, bit 1 input 2, bit 2 input 3.
    pub open spec fn spec_code(self) -> u32 {
        match self {
            Colors::Off => 0,
            Colors::Red => 1,
            Colors::Green => 2,
            Colors::Yellow => 3,
            Colors::Blue => 4,
            Colors::Magenta => 5,
            Colors::Cyan => 6,
            Colors::White => 7,
        }
    }

    /// The numeric code of the color.
    pub fn code(&self) -> (r: u32)
        ensures
            r == self.spec_code(),
    {
        match self {
            Colors::Off => 0,
            Colors::Red => 1,
            Colors::Green => 2,
            Colors::Yellow => 3,
            Colors::Blue => 4,
            Colors::Magenta => 5,
            Colors::Cyan => 6,
            Colors::White => 7,
        }
    }

    /// The display name of the color.
    pub open spec fn spec_name(self) -> Seq<char> {
        match self {
            Colors::Off => "None"@,
            Colors::Red => "Red"@,
            Colors::Green => "Green"@,
            Colors::Yellow => "Yellow"@,
            Colors::Blue => "Blue"@,
            Colors::Magenta => "Magenta"@,
            Colors::Cyan => "Cyan"@,
            Colors::White => "White"@,
        }
    }

    /// The display name of the color ("Red", "Yellow", ...).
    pub fn name(&self) -> (s: String)
        ensures
            s@ == self.spec_name(),
    {
        match self {
            Colors::Off => String::from_str("None"),
            Colors::Red => String::from_str("Red"),
            Colors::Green => String::from_str("Green"),
            Colors::Yellow => String::from_str("Yellow"),
            Colors::Blue => String::from_str("Blue"),
            Colors::Magenta => String::from_str("Magenta"),
            Colors::Cyan => String::from_str("Cyan"),
            Colors::White => String::from_str("White"),
        }
    }
}

/// The states of inputs 1, 2 and 3 that show `color`: input `k` is on
/// exactly when bit `k - 1` of the color's code is set.
pub fn color_to_states(color: Colors) -> (r: (bool, bool, bool))
    ensures
        r.0 == (color.spec_code() % 2 == 1),
        r.1 == ((color.spec_code() / 2) % 2 == 1),
        r.2 == ((color.spec_code() / 4) % 2 == 1),
{
    let code = color.code();
    (code % 2 == 1, (code / 2) % 2 == 1, (code / 4) % 2 == 1)
}

/// Each color is shown by its own input pattern: two colors that light the
/// same inputs are the same color.
pub proof fn lemma_color_states_distinct(a: Colors, b: Colors)
    requires
        (a.spec_code() % 2 == 1) == (b.spec_code() % 2 == 1),
        ((a.spec_code() / 2) % 2 == 1) == ((b.spec_code() / 2) % 2 == 1),
        ((a.spec_code() / 4) % 2 == 1) == ((b.spec_code() / 4) % 2 == 1),
    ensures
        a == b,
{
}

/// The colors mix as light does: red, green and blue each light one input of
/// their own, yellow is red and green, magenta red and blue, cyan green and
/// blue, white all three, and off none.
pub proof fn lemma_colors_mix()
    ensures
        Colors::Off.spec_code() == 0,
        Colors::Red.spec_code() == 1,
        Colors::Green.spec_code() == 2,
        Colors::Blue.spec_code() == 4,
        Colors::Yellow.spec_code() == Colors::Red.spec_code() + Colors::Green.spec_code(),
        Colors::Magenta.spec_code() == Colors::Red.spec_code() + Colors::Blue.spec_code(),
        Colors::Cyan.spec_code() == Colors::Green.spec_code() + Colors::Blue.spec_code(),
        Colors::White.spec_code() == Colors::Red.spec_code() + Colors::Green.spec_code()
            + Colors::Blue.spec_code(),
{
}

} // verus!
