//! Serial and over-the-air baud rates of the HC-12 module.

use vstd::prelude::*;

use crate::mode::Mode;
use crate::parameters::Parameters;

verus! {

/// Serial (UART) baud rate.
#[derive(Clone, Copy, Debug, PartialEq, Eq, Structural)]
pub enum BaudRate {
    /// 1200 bauds per second
    Bps1200,
    /// 2400 bauds per second
    Bps2400,
    /// 4800 bauds per second
    Bps4800,
    /// 9600 bauds per second (factory default)
    Bps9600,
    /// 19200 bauds per second
    Bps19200,
    /// 38400 bauds per second
    Bps38400,
    /// 57600 bauds per second
    Bps57600,
    /// 115200 bauds per second
    Bps115200,
}

/// Over-the-air baud rate, derived from the mode and the serial baud rate.
#[derive(Clone, Copy, Debug, PartialEq, Eq, Structural)]
pub enum AirBaudRate {
    /// 5000 bauds per second
    Bps5000,
    /// 15000 bauds per second
    Bps15000,
    /// 58000 bauds per second
    Bps58000,
    /// 236000 bauds per second
    Bps236000,
    /// 250000 bauds per second
    Bps250000,
}

/// The numeric bits-per-second value of a serial baud rate.
pub open spec fn spec_bps(b: BaudRate) -> u32 {
    match b {
        BaudRate::Bps1200 => 1200,
        BaudRate::Bps2400 => 2400,
        BaudRate::Bps4800 => 4800,
        BaudRate::Bps9600 => 9600,
        BaudRate::Bps19200 => 19200,
        BaudRate::Bps38400 => 38400,
        BaudRate::Bps57600 => 57600,
        BaudRate::Bps115200 => 115200,
    }
}

/// The serial baud rate whose bits-per-second value is `n`, if any.
pub open spec fn spec_baud_from_bps(n: int) -> Option<BaudRate> {
    if n == 1200 {
        Some(BaudRate::Bps1200)
    } else if n == 2400 {
        Some(BaudRate::Bps2400)
    } else if n == 4800 {
        Some(BaudRate::Bps4800)
    } else if n == 9600 {
        Some(BaudRate::Bps9600)
    } else if n == 19200 {
        Some(BaudRate::Bps19200)
    } else if n == 38400 {
        Some(BaudRate::Bps38400)
    } else if n == 57600 {
        Some(BaudRate::Bps57600)
    } else if n == 115200 {
        Some(BaudRate::Bps115200)
    } else {
        None
    }
}

/// The serial baud rates that are legal while the module operates in Fu2.
pub open spec fn fu2_legal(b: BaudRate) -> bool {
    b == BaudRate::Bps1200 || b == BaudRate::Bps2400 || b == BaudRate::Bps4800
}

/// The over-the-air baud rate implied by a mode and a serial baud rate.
///
/// Fu1 and Fu2 always use 250000 bps in the air; Fu3 maps the serial rate by
/// a fixed table.  The mapping for Fu4 is not specified by the datasheet, so
/// it yields no value.
pub open spec fn spec_air_rate(m: Mode, b: BaudRate) -> Option<AirBaudRate> {
    match m {
        Mode::Fu1 => Some(AirBaudRate::Bps250000),
        Mode::Fu2 => Some(AirBaudRate::Bps250000),
        Mode::Fu3 => match b {
            BaudRate::Bps1200 => Some(AirBaudRate::Bps5000),
            BaudRate::Bps2400 => Some(AirBaudRate::Bps5000),
            BaudRate::Bps4800 => Some(AirBaudRate::Bps15000),
            BaudRate::Bps9600 => Some(AirBaudRate::Bps15000),
            BaudRate::Bps19200 => Some(AirBaudRate::Bps58000),
            BaudRate::Bps38400 => Some(AirBaudRate::Bps58000),
            BaudRate::Bps57600 => Some(AirBaudRate::Bps236000),
            BaudRate::Bps115200 => Some(AirBaudRate::Bps236000),
        },
        Mode::Fu4 => None,
    }
}

/// The wireless receive sensitivity of an air baud rate, in dBm.
///
/// The figure for 250000 bps is an extrapolation; the datasheet does not
/// confirm it.
pub open spec fn spec_sensitivity_dbm(a: AirBaudRate) -> int {
    match a {
        AirBaudRate::Bps5000 => -117,
        AirBaudRate::Bps15000 => -117,
        AirBaudRate::Bps58000 => -112,
        AirBaudRate::Bps236000 => -100,
        AirBaudRate::Bps250000 => -100,
    }
}

impl BaudRate {
    /// The bits-per-second value of this baud rate.
    pub fn to_u32(&self) -> (r: Option<u32>)
        ensures
            r == Some(spec_bps(*self)),
    {
        match self {
            BaudRate::Bps1200 => Some(1200),
            BaudRate::Bps2400 => Some(2400),
            BaudRate::Bps4800 => Some(4800),
            BaudRate::Bps9600 => Some(9600),
            BaudRate::Bps19200 => Some(19200),
            BaudRate::Bps38400 => Some(38400),
            BaudRate::Bps57600 => Some(57600),
            BaudRate::Bps115200 => Some(115200),
        }
    }

    /// The baud rate with the given bits-per-second value; fails on a value
    /// that is not one of the eight legal rates.
    pub fn from_u32(n: u32) -> (r: Option<BaudRate>)
        ensures
            r == spec_baud_from_bps(n as int),
    {
        match n {
            1200 => Some(BaudRate::Bps1200),
            2400 => Some(BaudRate::Bps2400),
            4800 => Some(BaudRate::Bps4800),
            9600 => Some(BaudRate::Bps9600),
            19200 => Some(BaudRate::Bps19200),
            38400 => Some(BaudRate::Bps38400),
            57600 => Some(BaudRate::Bps57600),
            115200 => Some(BaudRate::Bps115200),
            _ => None,
        }
    }

    /// The baud rate with the given bits-per-second value; fails on a value
    /// that is not one of the eight legal rates.
    pub fn try_from(value: i32) -> (r: Result<BaudRate, ()>)
        ensures
            match spec_baud_from_bps(value as int) {
                Some(b) => r == Ok::<BaudRate, ()>(b),
                None => r is Err,
            },
    {
        match value {
            1200 => Ok(BaudRate::Bps1200),
            2400 => Ok(BaudRate::Bps2400),
            4800 => Ok(BaudRate::Bps4800),
            9600 => Ok(BaudRate::Bps9600),
            19200 => Ok(BaudRate::Bps19200),
            38400 => Ok(BaudRate::Bps38400),
            57600 => Ok(BaudRate::Bps57600),
            115200 => Ok(BaudRate::Bps115200),
            _ => Err(()),
        }
    }
}

impl Default for BaudRate {
    /// The factory default serial baud rate is 9600 bps.
    fn default() -> (r: Self)
        ensures
            r == BaudRate::Bps9600,
    {
        BaudRate::Bps9600
    }
}

impl AirBaudRate {
    /// The wireless receive sensitivity of this air baud rate, in dBm.
    pub fn get_wireless_sensitivity_dbm(&self) -> (r: i32)
        ensures
            r == spec_sensitivity_dbm(*self),
    {
        match self {
            AirBaudRate::Bps5000 => -117,
            AirBaudRate::Bps15000 => -117,
            AirBaudRate::Bps58000 => -112,
            AirBaudRate::Bps236000 => -100,
            AirBaudRate::Bps250000 => -100,
        }
    }
}

/// The wireless receive sensitivity of an air baud rate, in dBm.
pub fn get_wireless_sensitivity_dbm(air_rate: AirBaudRate) -> (r: i32)
    ensures
        r == spec_sensitivity_dbm(air_rate),
{
    air_rate.get_wireless_sensitivity_dbm()
}

/// Every baud rate converts to its bits-per-second value and back to itself.
pub proof fn lemma_bps_round_trip(b: BaudRate)
    ensures
        spec_baud_from_bps(spec_bps(b) as int) == Some(b),
{
}

/// Access to the validated serial baud rate of a parameter set.
pub trait BaudRateParameter {
    /// The stored serial baud rate.
    spec fn spec_baud(&self) -> BaudRate;

    /// The stored operating mode.
    spec fn spec_mode(&self) -> Mode;

    /// Set the serial baud rate, subject to the legality rules of the stored
    /// mode: any rate is accepted in Fu1 and Fu3, only 1200, 2400 and 4800
    /// bps are accepted in Fu2, and Fu4 accepts nothing because its rules are
    /// not specified.  On failure the stored rate is unchanged.
    fn set_baud_rate(&mut self, rate: BaudRate) -> (r: Result<(), crate::Error>)
        ensures
            final(self).spec_mode() == old(self).spec_mode(),
            match old(self).spec_mode() {
                Mode::Fu1 | Mode::Fu3 => r is Ok && final(self).spec_baud() == rate,
                Mode::Fu2 => if fu2_legal(rate) {
                    r is Ok && final(self).spec_baud() == rate
                } else {
                    r == Err::<(), crate::Error>(crate::Error::InvalidBaudRate)
                        && final(self).spec_baud() == old(self).spec_baud()
                },
                Mode::Fu4 => r == Err::<(), crate::Error>(crate::Error::UnsupportedMode)
                    && final(self).spec_baud() == old(self).spec_baud(),
            },
    ;

    /// The stored serial baud rate.
    fn get_baud_rate(&self) -> (r: BaudRate)
        ensures
            r == self.spec_baud(),
    ;

    /// The over-the-air baud rate implied by the stored mode and serial baud
    /// rate; fails in Fu4, whose mapping is not specified.
    fn get_air_baud_rate(&self) -> (r: Result<AirBaudRate, crate::Error>)
        ensures
            match spec_air_rate(self.spec_mode(), self.spec_baud()) {
                Some(a) => r == Ok::<AirBaudRate, crate::Error>(a),
                None => r == Err::<AirBaudRate, crate::Error>(crate::Error::UnsupportedMode),
            },
    ;
}

impl BaudRateParameter for Parameters {
    open spec fn spec_baud(&self) -> BaudRate {
        self.baud_rate
    }

    open spec fn spec_mode(&self) -> Mode {
        self.mode
    }

    fn set_baud_rate(&mut self, rate: BaudRate) -> (r: Result<(), crate::Error>) {
        Parameters::set_baud_rate(self, rate)
    }

    fn get_baud_rate(&self) -> (r: BaudRate) {
        Parameters::get_baud_rate(self)
    }

    fn get_air_baud_rate(&self) -> (r: Result<AirBaudRate, crate::Error>) {
        Parameters::get_air_baud_rate(self)
    }
}

} // verus!
