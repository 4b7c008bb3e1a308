//! Operating mode of the HC-12 module.

use vstd::prelude::*;

verus! {

/// Operational mode (the module's FUx function).
///
/// The mode determines which serial baud rates are legal and how the serial
/// baud rate maps to the over-the-air baud rate.
#[derive(Clone, Copy, Debug, PartialEq, Eq, Structural)]
pub enum Mode {
    /// Function 1: moderate power saving, fixed air rate.
    Fu1,
    /// Function 2: strong power saving, low serial rates only.
    Fu2,
    /// Function 3: full speed (factory default).
    Fu3,
    /// Function 4: long distance; its parameter rules are not specified.
    Fu4,
}

impl Mode {
    /// The ASCII digit that identifies this mode on the wire.
    pub open spec fn spec_digit(self) -> u8 {
        match self {
            Mode::Fu1 => 49,  // '1'
            Mode::Fu2 => 50,  // '2'
            Mode::Fu3 => 51,  // '3'
            Mode::Fu4 => 52,  // '4'
        }
    }

    /// The mode identified by an ASCII digit, if any.
    pub open spec fn spec_from_digit(d: u8) -> Option<Mode> {
        if d == 49 {
            Some(Mode::Fu1)
        } else if d == 50 {
            Some(Mode::Fu2)
        } else if d == 51 {
            Some(Mode::Fu3)
        } else if d == 52 {
            Some(Mode::Fu4)
        } else {
            None
        }
    }
}

impl Default for Mode {
    /// The factory default mode is Fu3.
    fn default() -> (r: Self)
        ensures
            r == Mode::Fu3,
    {
        Mode::Fu3
    }
}

} // verus!
