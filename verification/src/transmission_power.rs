//! Transmission power of the HC-12 module.

use vstd::prelude::*;

verus! {

/// A power level is legal when it lies in [1, 8].
pub open spec fn power_level_in_range(p: u8) -> bool {
    1 <= p <= 8
}

/// The fixed dBm value of a power level in [1, 8].
pub open spec fn spec_power_dbm(level: u8) -> int {
    if level == 1 {
        -1
    } else if level == 2 {
        2
    } else if level == 3 {
        5
    } else if level == 4 {
        8
    } else if level == 5 {
        11
    } else if level == 6 {
        14
    } else if level == 7 {
        17
    } else {
        20
    }
}

/// The power level whose dBm value is `dbm`, if any.
pub open spec fn spec_level_from_dbm(dbm: int) -> Option<u8> {
    if dbm == -1 {
        Some(1u8)
    } else if dbm == 2 {
        Some(2u8)
    } else if dbm == 5 {
        Some(3u8)
    } else if dbm == 8 {
        Some(4u8)
    } else if dbm == 11 {
        Some(5u8)
    } else if dbm == 14 {
        Some(6u8)
    } else if dbm == 17 {
        Some(7u8)
    } else if dbm == 20 {
        Some(8u8)
    } else {
        None
    }
}

/// The fixed output power of a level in [1, 8], in hundredths of a milliwatt.
pub open spec fn spec_power_milliwatt_hundredths(level: u8) -> int {
    if level == 1 {
        79
    } else if level == 2 {
        158
    } else if level == 3 {
        316
    } else if level == 4 {
        631
    } else if level == 5 {
        1259
    } else if level == 6 {
        2512
    } else if level == 7 {
        5012
    } else {
        10000
    }
}

/// Transmission power, guaranteed to hold a level in [1, 8].
///
/// Each level maps to a fixed dBm value {-1, 2, 5, 8, 11, 14, 17, 20} and a
/// fixed milliwatt value {0.79, 1.58, 3.16, 6.31, 12.59, 25.12, 50.12, 100.0}.
#[derive(Debug, PartialEq, Eq, Structural)]
pub struct TransmissionPower(pub(crate) u8);

impl View for TransmissionPower {
    type V = u8;

    /// The power level.
    closed spec fn view(&self) -> u8 {
        self.0
    }
}

impl TransmissionPower {
    /// Every observable transmission power holds a level in [1, 8].
    #[verifier::type_invariant]
    pub open spec fn wf(&self) -> bool {
        power_level_in_range(self@)
    }

    /// Construct a new TransmissionPower; fails on a level outside [1, 8].
    pub fn new(p: u8) -> (r: Option<Self>)
        ensures
            power_level_in_range(p) ==> (r matches Some(t) && t@ == p),
            !power_level_in_range(p) ==> r is None,
    {
        if p > 0 && p < 9 {
            Some(TransmissionPower(p))
        } else {
            None
        }
    }

    /// The power level in [1, 8].
    pub fn power(&self) -> (r: u8)
        ensures
            r == self@,
    {
        self.0
    }

    /// Construct the power whose dBm value is `value`; fails when `value` is
    /// not one of the eight table entries.
    pub fn try_from(value: i32) -> (r: Result<Self, ()>)
        ensures
            match spec_level_from_dbm(value as int) {
                Some(level) => r matches Ok(t) && t@ == level,
                None => r is Err,
            },
    {
        match value {
            -1 => Ok(TransmissionPower(1)),
            2 => Ok(TransmissionPower(2)),
            5 => Ok(TransmissionPower(3)),
            8 => Ok(TransmissionPower(4)),
            11 => Ok(TransmissionPower(5)),
            14 => Ok(TransmissionPower(6)),
            17 => Ok(TransmissionPower(7)),
            20 => Ok(TransmissionPower(8)),
            _ => Err(()),
        }
    }

    /// The transmission power in dBm.
    pub fn get_power_dbm(&self) -> (r: i8)
        ensures
            r == spec_power_dbm(self@),
    {
        proof {
            use_type_invariant(self);
        }
        match self.0 {
            1 => -1,
            2 => 2,
            3 => 5,
            4 => 8,
            5 => 11,
            6 => 14,
            7 => 17,
            _ => 20,
        }
    }

    /// The output power in hundredths of a milliwatt (level 1 is 0.79 mW,
    /// level 8 is 100.00 mW).
    pub fn get_power_milliwatt_hundredths(&self) -> (r: u32)
        ensures
            r == spec_power_milliwatt_hundredths(self@),
    {
        proof {
            use_type_invariant(self);
        }
        match self.0 {
            1 => 79,
            2 => 158,
            3 => 316,
            4 => 631,
            5 => 1259,
            6 => 2512,
            7 => 5012,
            _ => 10000,
        }
    }
}

impl Default for TransmissionPower {
    /// The factory default power is the highest level, 8.
    fn default() -> (r: Self)
        ensures
            r@ == 8u8,
    {
        TransmissionPower(8)
    }
}

/// The dBm value of each level is matched by exactly the level that
/// `try_from` recovers: converting a level to dBm and back is the identity.
pub proof fn lemma_power_dbm_round_trip(level: u8)
    requires
        power_level_in_range(level),
    ensures
        spec_level_from_dbm(spec_power_dbm(level)) == Some(level),
{
}

} // verus!
