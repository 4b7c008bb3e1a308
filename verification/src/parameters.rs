//! The full parameter set of the HC-12 module.

use vstd::prelude::*;

use crate::baudrate::{fu2_legal, spec_air_rate, AirBaudRate, BaudRate};
use crate::channel::Channel;
use crate::mode::Mode;
use crate::transmission_power::TransmissionPower;

verus! {

/// All HC-12 parameters: serial baud rate, channel, transmission power and
/// operating mode.
#[derive(Debug, PartialEq, Eq, Structural)]
pub struct Parameters {
    /// Serial (UART) baud rate.
    pub baud_rate: BaudRate,
    /// Communication channel.
    pub channel: Channel,
    /// Transmission power.
    pub power: TransmissionPower,
    /// Operating mode.
    pub mode: Mode,
}

impl Parameters {
    /// The channel and power of a well-formed parameter set lie in their
    /// legal ranges.
    pub open spec fn wf(&self) -> bool {
        self.channel.wf() && self.power.wf()
    }

    /// Set the serial baud rate, subject to the legality rules of the current
    /// mode: any rate is accepted in Fu1 and Fu3, only 1200, 2400 and 4800
    /// bps are accepted in Fu2, and Fu4 accepts nothing because its rules are
    /// not specified.  On failure the whole parameter set is unchanged.
    pub fn set_baud_rate(&mut self, rate: BaudRate) -> (r: Result<(), crate::Error>)
        ensures
            final(self).channel == old(self).channel,
            final(self).power == old(self).power,
            final(self).mode == old(self).mode,
            match old(self).mode {
                Mode::Fu1 | Mode::Fu3 => r is Ok && final(self).baud_rate == rate,
                Mode::Fu2 => if fu2_legal(rate) {
                    r is Ok && final(self).baud_rate == rate
                } else {
                    r == Err::<(), crate::Error>(crate::Error::InvalidBaudRate)
                        && *final(self) == *old(self)
                },
                Mode::Fu4 => r == Err::<(), crate::Error>(crate::Error::UnsupportedMode)
                    && *final(self) == *old(self),
            },
    {
        match self.mode {
            Mode::Fu1 => {
                self.baud_rate = rate;
                Ok(())
            },
            Mode::Fu2 => match rate {
                BaudRate::Bps1200 | BaudRate::Bps2400 | BaudRate::Bps4800 => {
                    self.baud_rate = rate;
                    Ok(())
                },
                _ => Err(crate::Error::InvalidBaudRate),
            },
            Mode::Fu3 => {
                self.baud_rate = rate;
                Ok(())
            },
            Mode::Fu4 => Err(crate::Error::UnsupportedMode),
        }
    }

    /// The stored serial baud rate.
    pub fn get_baud_rate(&self) -> (r: BaudRate)
        ensures
            r == self.baud_rate,
    {
        self.baud_rate
    }

    /// The over-the-air baud rate implied by the stored mode and serial baud
    /// rate; fails in Fu4, whose mapping is not specified.
    pub fn get_air_baud_rate(&self) -> (r: Result<AirBaudRate, crate::Error>)
        ensures
            match spec_air_rate(self.mode, self.baud_rate) {
                Some(a) => r == Ok::<AirBaudRate, crate::Error>(a),
                None => r == Err::<AirBaudRate, crate::Error>(crate::Error::UnsupportedMode),
            },
    {
        match self.mode {
            Mode::Fu1 => Ok(AirBaudRate::Bps250000),
            Mode::Fu2 => Ok(AirBaudRate::Bps250000),
            Mode::Fu3 => match self.baud_rate {
                BaudRate::Bps1200 => Ok(AirBaudRate::Bps5000),
                BaudRate::Bps2400 => Ok(AirBaudRate::Bps5000),
                BaudRate::Bps4800 => Ok(AirBaudRate::Bps15000),
                BaudRate::Bps9600 => Ok(AirBaudRate::Bps15000),
                BaudRate::Bps19200 => Ok(AirBaudRate::Bps58000),
                BaudRate::Bps38400 => Ok(AirBaudRate::Bps58000),
                BaudRate::Bps57600 => Ok(AirBaudRate::Bps236000),
                BaudRate::Bps115200 => Ok(AirBaudRate::Bps236000),
            },
            Mode::Fu4 => Err(crate::Error::UnsupportedMode),
        }
    }
}

impl Default for Parameters {
    /// The factory default parameter set: 9600 bps, channel 1, power level 8,
    /// mode Fu3.
    fn default() -> (r: Self)
        ensures
            r.baud_rate == BaudRate::Bps9600,
            r.channel@ == 1u8,
            r.power@ == 8u8,
            r.mode == Mode::Fu3,
            r.wf(),
    {
        Parameters {
            baud_rate: BaudRate::default(),
            channel: Channel::default(),
            power: TransmissionPower::default(),
            mode: Mode::default(),
        }
    }
}

} // verus!
