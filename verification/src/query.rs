//! Encoding of "read parameter" AT requests.
//!
//! Every read request is a fixed line: "AT+RB\r\n" for the baud rate,
//! "AT+RC\r\n" for the channel, "AT+RF\r\n" for the mode, "AT+RP\r\n" for the
//! power, and "AT+V\r\n" for the firmware version.

use vstd::prelude::*;

use crate::baudrate::BaudRate;
use crate::channel::Channel;
use crate::mode::Mode;
use crate::transmission_power::TransmissionPower;
use crate::wire::{
    baud_query, channel_query, mode_query, power_query, push_crlf, version_query,
};

verus! {

/// Render the fixed read request for a parameter kind.
pub trait ToQuery {
    /// The exact bytes of the read request, terminated by CR LF.
    spec fn query_bytes() -> Seq<u8>;

    /// Write the read request into the front of the buffer and return its
    /// length.
    fn make_query(buffer: &mut [u8; 16]) -> (n: usize)
        ensures
            n <= 16,
            final(buffer)@.take(n as int) == Self::query_bytes(),
    ;
}

/// Write the seven-byte request "AT+R<kind>\r\n" into the front of the
/// buffer.
fn write_read_request(buffer: &mut [u8; 16], kind: u8) -> (n: usize)
    ensures
        n == 7,
        final(buffer)@.take(7) == seq![65u8, 84u8, 43u8, 82u8, kind] + crate::wire::crlf(),
{
    buffer[0] = 65;
    buffer[1] = 84;
    buffer[2] = 43;
    buffer[3] = 82;
    buffer[4] = kind;
    buffer[5] = 13;
    buffer[6] = 10;
    proof {
        assert(buffer@.take(7) =~= seq![65u8, 84u8, 43u8, 82u8, kind] + crate::wire::crlf());
    }
    7
}

impl ToQuery for BaudRate {
    open spec fn query_bytes() -> Seq<u8> {
        baud_query()
    }

    fn make_query(buffer: &mut [u8; 16]) -> (n: usize) {
        let n = write_read_request(buffer, 66);  // 'B'
        proof {
            assert(seq![65u8, 84u8, 43u8, 82u8, 66u8] + crate::wire::crlf() =~= baud_query());
        }
        n
    }
}

impl ToQuery for Channel {
    open spec fn query_bytes() -> Seq<u8> {
        channel_query()
    }

    fn make_query(buffer: &mut [u8; 16]) -> (n: usize) {
        let n = write_read_request(buffer, 67);  // 'C'
        proof {
            assert(seq![65u8, 84u8, 43u8, 82u8, 67u8] + crate::wire::crlf() =~= channel_query());
        }
        n
    }
}

impl ToQuery for Mode {
    open spec fn query_bytes() -> Seq<u8> {
        mode_query()
    }

    fn make_query(buffer: &mut [u8; 16]) -> (n: usize) {
        let n = write_read_request(buffer, 70);  // 'F'
        proof {
            assert(seq![65u8, 84u8, 43u8, 82u8, 70u8] + crate::wire::crlf() =~= mode_query());
        }
        n
    }
}

impl ToQuery for TransmissionPower {
    open spec fn query_bytes() -> Seq<u8> {
        power_query()
    }

    fn make_query(buffer: &mut [u8; 16]) -> (n: usize) {
        let n = write_read_request(buffer, 80);  // 'P'
        proof {
            assert(seq![65u8, 84u8, 43u8, 82u8, 80u8] + crate::wire::crlf() =~= power_query());
        }
        n
    }
}

/// A readable parameter kind of the module.
#[derive(Clone, Copy, Debug, PartialEq, Eq, Structural)]
pub enum Param {
    /// Serial baud rate.
    BaudRate,
    /// Communication channel.
    Channel,
    /// Operating mode.
    Mode,
    /// Transmission power.
    Power,
    /// Firmware version.
    Version,
}

impl Param {
    /// The exact bytes of the read request for this parameter kind.
    pub open spec fn spec_query_bytes(self) -> Seq<u8> {
        match self {
            Param::BaudRate => baud_query(),
            Param::Channel => channel_query(),
            Param::Mode => mode_query(),
            Param::Power => power_query(),
            Param::Version => version_query(),
        }
    }

    /// Write the read request for this parameter kind into the front of the
    /// buffer and return its length.
    pub fn to_query(&self, buffer: &mut [u8; 16]) -> (n: usize)
        ensures
            n <= 16,
            final(buffer)@.take(n as int) == self.spec_query_bytes(),
    {
        match self {
            Param::BaudRate => BaudRate::make_query(buffer),
            Param::Channel => Channel::make_query(buffer),
            Param::Mode => Mode::make_query(buffer),
            Param::Power => TransmissionPower::make_query(buffer),
            Param::Version => {
                let mut v: Vec<u8> = Vec::new();
                v.push(65);
                v.push(84);
                v.push(43);
                v.push(86);
                push_crlf(&mut v);
                proof {
                    assert(v@ =~= version_query());
                }
                let mut i: usize = 0;
                while i < v.len()
                    invariant
                        0 <= i <= v@.len() <= 16,
                        forall|j: int| 0 <= j < i ==> buffer@[j] == v@[j],
                    decreases v@.len() - i,
                {
                    buffer[i] = v[i];
                    i += 1;
                }
                proof {
                    assert(buffer@.take(i as int) =~= v@);
                }
                i
            },
        }
    }
}

} // verus!
