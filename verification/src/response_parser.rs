//! Decoding of the module's framed response lines.
//!
//! Decoding is strict: a response is accepted only when it matches the exact
//! literal framing, its numeric payload is well formed, and the decoded value
//! lies in the legal table of its parameter.  Any deviation is a decode
//! failure, never a partial result.

use vstd::prelude::*;

use crate::baudrate::{spec_baud_from_bps, BaudRate};
use crate::channel::Channel;
use crate::mode::Mode;
use crate::parameters::Parameters;
use crate::transmission_power::{spec_level_from_dbm, TransmissionPower};
use crate::wire::{
    all_digits, baud_response_prefix, channel_response_prefix, crlf, digits_value, is_ascii_digit,
    lemma_digits_value_step, mode_response_prefix, power_response_prefix, power_response_suffix,
};

verus! {

/// Error raised when a response line does not decode.
#[derive(Clone, Copy, Debug, PartialEq, Eq, Structural)]
pub struct ParseError;

/// The serial baud rate encoded by a response line, if the line is exactly
/// "OK+B<rate>\r\n" with the rate written as one of the eight legal rates in
/// canonical decimal.
pub open spec fn decode_baud_spec(s: Seq<u8>) -> Option<BaudRate> {
    if s.len() >= 7 && s.take(4) == baud_response_prefix() && s.skip(s.len() - 2) == crlf() {
        let mid = s.subrange(4, s.len() - 2);
        if all_digits(mid) && mid[0] != 48 {
            spec_baud_from_bps(digits_value(mid))
        } else {
            None
        }
    } else {
        None
    }
}

/// The channel number encoded by a response line, if the line is exactly
/// "OK+RC<3-digit decimal>\r\n" with a value in [1, 127].
pub open spec fn decode_channel_spec(s: Seq<u8>) -> Option<u8> {
    if s.len() == 10 && s.take(5) == channel_response_prefix() && s.skip(8) == crlf() {
        let mid = s.subrange(5, 8);
        if all_digits(mid) {
            let v = digits_value(mid);
            if 1 <= v <= 127 {
                Some(v as u8)
            } else {
                None
            }
        } else {
            None
        }
    } else {
        None
    }
}

/// The mode encoded by a response line, if the line is exactly
/// "OK+FU<digit>\r\n" with a digit in 1..=4.
pub open spec fn decode_mode_spec(s: Seq<u8>) -> Option<Mode> {
    if s.len() == 8 && s.take(5) == mode_response_prefix() && s.skip(6) == crlf() {
        Mode::spec_from_digit(s[5])
    } else {
        None
    }
}

/// The value of a signed dBm field: an optional '+' or '-' sign followed by
/// one to three ASCII decimal digits.
pub open spec fn dbm_field_value(s: Seq<u8>) -> Option<int> {
    if s.len() > 0 && (s[0] == 43 || s[0] == 45) {  // '+' or '-'
        let ds = s.skip(1);
        if 1 <= ds.len() <= 3 && all_digits(ds) {
            Some(
                if s[0] == 45 {
                    -digits_value(ds)
                } else {
                    digits_value(ds)
                },
            )
        } else {
            None
        }
    } else {
        if 1 <= s.len() <= 3 && all_digits(s) {
            Some(digits_value(s))
        } else {
            None
        }
    }
}

/// The power level encoded by a response line, if the line is exactly
/// "OK+RP:<signed dBm>dBm\r\n" with a dBm value out of the eight-entry power
/// table.
pub open spec fn decode_power_spec(s: Seq<u8>) -> Option<u8> {
    if s.len() >= 12 && s.take(6) == power_response_prefix() && s.skip(s.len() - 5)
        == power_response_suffix() {
        match dbm_field_value(s.subrange(6, s.len() - 5)) {
            Some(v) => spec_level_from_dbm(v),
            None => None,
        }
    } else {
        None
    }
}

impl BaudRate {
    /// Decode a baud rate response line "OK+B<rate>\r\n"; fails on any other
    /// framing and on a rate that is not one of the eight legal rates.
    pub fn decode(value: &[u8]) -> (r: Result<BaudRate, ParseError>)
        ensures
            match decode_baud_spec(value@) {
                Some(b) => r == Ok::<BaudRate, ParseError>(b),
                None => r == Err::<BaudRate, ParseError>(ParseError),
            },
    {
        let ghost s = value@;
        let len = value.len();
        if len < 7 {
            return Err(ParseError);
        }
        if value[0] != 79 || value[1] != 75 || value[2] != 43 || value[3] != 66 {
            proof {
                assert(s.take(4)[0] == s[0]);
                assert(s.take(4)[1] == s[1]);
                assert(s.take(4)[2] == s[2]);
                assert(s.take(4)[3] == s[3]);
            }
            return Err(ParseError);
        }
        if value[len - 2] != 13 || value[len - 1] != 10 {
            proof {
                assert(s.skip(s.len() - 2)[0] == s[s.len() - 2]);
                assert(s.skip(s.len() - 2)[1] == s[s.len() - 1]);
            }
            return Err(ParseError);
        }
        proof {
            assert(s.take(4) =~= baud_response_prefix());
            assert(s.skip(s.len() - 2) =~= crlf());
        }
        let ghost mid = s.subrange(4, s.len() - 2);
        if value[4] == 48 {
            proof {
                assert(mid[0] == s[4]);
            }
            return Err(ParseError);
        }
        let mut i: usize = 4;
        let mut acc: u32 = 0;
        let mut over: bool = false;
        while i < len - 2
            invariant
                7 <= len == s.len(),
                4 <= i <= len - 2,
                s == value@,
                mid == s.subrange(4, s.len() - 2),
                forall|j: int| 0 <= j < i - 4 ==> is_ascii_digit(#[trigger] mid[j]),
                !over ==> acc == digits_value(mid.take(i - 4)) && acc <= 115200,
                over ==> digits_value(mid.take(i - 4)) > 115200,
            decreases len - i,
        {
            let d = value[i];
            if d < 48 || d > 57 {
                proof {
                    assert(mid[i - 4] == s[i as int]);
                    assert(!is_ascii_digit(mid[i - 4]));
                }
                return Err(ParseError);
            }
            proof {
                assert(mid[i - 4] == s[i as int]);
                lemma_digits_value_step(mid, i - 4);
            }
            if !over {
                let next = acc * 10 + (d - 48) as u32;
                if next > 115200 {
                    over = true;
                } else {
                    acc = next;
                }
            }
            i += 1;
        }
        proof {
            assert(mid.take(mid.len() as int) =~= mid);
        }
        if over {
            return Err(ParseError);
        }
        match BaudRate::from_u32(acc) {
            Some(b) => Ok(b),
            None => Err(ParseError),
        }
    }
}

impl Channel {
    /// Decode a channel response line "OK+RC<3-digit decimal>\r\n"; fails on
    /// any other framing and on a value outside [1, 127].
    pub fn decode(value: &[u8]) -> (r: Result<Channel, ParseError>)
        ensures
            match decode_channel_spec(value@) {
                Some(n) => r matches Ok(c) && c@ == n,
                None => r == Err::<Channel, ParseError>(ParseError),
            },
    {
        let ghost s = value@;
        if value.len() != 10 {
            return Err(ParseError);
        }
        if value[0] != 79 || value[1] != 75 || value[2] != 43 || value[3] != 82 || value[4] != 67 {
            proof {
                assert(s.take(5)[0] == s[0]);
                assert(s.take(5)[1] == s[1]);
                assert(s.take(5)[2] == s[2]);
                assert(s.take(5)[3] == s[3]);
                assert(s.take(5)[4] == s[4]);
            }
            return Err(ParseError);
        }
        if value[8] != 13 || value[9] != 10 {
            proof {
                assert(s.skip(8)[0] == s[8]);
                assert(s.skip(8)[1] == s[9]);
            }
            return Err(ParseError);
        }
        proof {
            assert(s.take(5) =~= channel_response_prefix());
            assert(s.skip(8) =~= crlf());
        }
        let ghost mid = s.subrange(5, 8);
        let d0 = value[5];
        let d1 = value[6];
        let d2 = value[7];
        if d0 < 48 || d0 > 57 || d1 < 48 || d1 > 57 || d2 < 48 || d2 > 57 {
            proof {
                assert(mid[0] == s[5]);
                assert(mid[1] == s[6]);
                assert(mid[2] == s[7]);
            }
            return Err(ParseError);
        }
        let v: u32 = 100 * ((d0 - 48) as u32) + 10 * ((d1 - 48) as u32) + ((d2 - 48) as u32);
        proof {
            let m2 = seq![s[5], s[6]];
            let m1 = seq![s[5]];
            assert(mid.last() == s[7]);
            assert(mid.drop_last() =~= m2);
            assert(m2.last() == s[6]);
            assert(m2.drop_last() =~= m1);
            assert(m1.last() == s[5]);
            assert(m1.drop_last() =~= Seq::<u8>::empty());
            assert(digits_value(Seq::<u8>::empty()) == 0);
            assert(digits_value(m1) == s[5] - 48);
            assert(digits_value(m2) == 10 * (s[5] - 48) + (s[6] - 48));
            assert(digits_value(mid) == 10 * digits_value(m2) + (s[7] - 48));
        }
        if v >= 1 && v <= 127 {
            let c = Channel::new(v as u8).unwrap();
            Ok(c)
        } else {
            Err(ParseError)
        }
    }
}

impl Mode {
    /// Decode a mode response line "OK+FU<digit>\r\n"; fails on any other
    /// framing and on a digit outside 1..=4.
    pub fn decode(value: &[u8]) -> (r: Result<Mode, ParseError>)
        ensures
            match decode_mode_spec(value@) {
                Some(m) => r == Ok::<Mode, ParseError>(m),
                None => r == Err::<Mode, ParseError>(ParseError),
            },
    {
        let ghost s = value@;
        if value.len() != 8 {
            return Err(ParseError);
        }
        if value[0] != 79 || value[1] != 75 || value[2] != 43 || value[3] != 70 || value[4] != 85 {
            proof {
                assert(s.take(5)[0] == s[0]);
                assert(s.take(5)[1] == s[1]);
                assert(s.take(5)[2] == s[2]);
                assert(s.take(5)[3] == s[3]);
                assert(s.take(5)[4] == s[4]);
            }
            return Err(ParseError);
        }
        if value[6] != 13 || value[7] != 10 {
            proof {
                assert(s.skip(6)[0] == s[6]);
                assert(s.skip(6)[1] == s[7]);
            }
            return Err(ParseError);
        }
        proof {
            assert(s.take(5) =~= mode_response_prefix());
            assert(s.skip(6) =~= crlf());
        }
        match value[5] {
            49 => Ok(Mode::Fu1),
            50 => Ok(Mode::Fu2),
            51 => Ok(Mode::Fu3),
            52 => Ok(Mode::Fu4),
            _ => Err(ParseError),
        }
    }
}

impl TransmissionPower {
    /// Decode a power response line "OK+RP:<signed dBm>dBm\r\n"; fails on any
    /// other framing and on a dBm value that is not one of the eight table
    /// entries.
    pub fn decode(value: &[u8]) -> (r: Result<TransmissionPower, ParseError>)
        ensures
            match decode_power_spec(value@) {
                Some(level) => r matches Ok(p) && p@ == level,
                None => r == Err::<TransmissionPower, ParseError>(ParseError),
            },
    {
        let ghost s = value@;
        let len = value.len();
        if len < 12 {
            return Err(ParseError);
        }
        if value[0] != 79 || value[1] != 75 || value[2] != 43 || value[3] != 82 || value[4] != 80
            || value[5] != 58 {
            proof {
                assert(s.take(6)[0] == s[0]);
                assert(s.take(6)[1] == s[1]);
                assert(s.take(6)[2] == s[2]);
                assert(s.take(6)[3] == s[3]);
                assert(s.take(6)[4] == s[4]);
                assert(s.take(6)[5] == s[5]);
            }
            return Err(ParseError);
        }
        if value[len - 5] != 100 || value[len - 4] != 66 || value[len - 3] != 109 || value[len - 2]
            != 13 || value[len - 1] != 10 {
            proof {
                assert(s.skip(s.len() - 5)[0] == s[s.len() - 5]);
                assert(s.skip(s.len() - 5)[1] == s[s.len() - 4]);
                assert(s.skip(s.len() - 5)[2] == s[s.len() - 3]);
                assert(s.skip(s.len() - 5)[3] == s[s.len() - 2]);
                assert(s.skip(s.len() - 5)[4] == s[s.len() - 1]);
            }
            return Err(ParseError);
        }
        proof {
            assert(s.take(6) =~= power_response_prefix());
            assert(s.skip(s.len() - 5) =~= power_response_suffix());
        }
        let ghost mid = s.subrange(6, s.len() - 5);
        let first = value[6];
        let negative = first == 45;
        let ds_start: usize = if first == 43 || first == 45 {
            7
        } else {
            6
        };
        let ghost ds = if first == 43 || first == 45 {
            mid.skip(1)
        } else {
            mid
        };
        proof {
            assert(mid[0] == s[6]);
        }
        let dc = (len - 5) - ds_start;
        if dc < 1 || dc > 3 {
            return Err(ParseError);
        }
        let mut k: usize = 0;
        let mut acc: u32 = 0;
        while k < dc
            invariant
                12 <= len == s.len(),
                6 <= ds_start <= 7,
                ds_start + dc == len - 5,
                1 <= dc <= 3,
                0 <= k <= dc,
                s == value@,
                mid == s.subrange(6, s.len() - 5),
                (mid[0] == 43 || mid[0] == 45) <==> ds_start == 7,
                ds == mid.skip((ds_start - 6) as int),
                ds.len() == dc,
                forall|j: int| 0 <= j < k ==> is_ascii_digit(#[trigger] ds[j]),
                acc == digits_value(ds.take(k as int)),
                k == 0 ==> acc == 0,
                k == 1 ==> acc <= 9,
                k == 2 ==> acc <= 99,
                k == 3 ==> acc <= 999,
            decreases dc - k,
        {
            let d = value[ds_start + k];
            proof {
                assert(ds[k as int] == mid[k + (ds_start - 6)]);
                assert(mid[k + (ds_start - 6)] == s[ds_start + k]);
            }
            if d < 48 || d > 57 {
                proof {
                    assert(!is_ascii_digit(ds[k as int]));
                    assert(!all_digits(ds));
                }
                return Err(ParseError);
            }
            proof {
                lemma_digits_value_step(ds, k as int);
                assert(ds.take(0) =~= Seq::<u8>::empty());
                assert(digits_value(ds.take(0)) == 0);
            }
            acc = acc * 10 + (d - 48) as u32;
            k += 1;
        }
        proof {
            assert(ds.take(dc as int) =~= ds);
        }
        let signed: i32 = if negative {
            -(acc as i32)
        } else {
            acc as i32
        };
        proof {
            assert(dbm_field_value(mid) == Some(signed as int));
        }
        match TransmissionPower::try_from(signed) {
            Ok(p) => Ok(p),
            Err(_) => Err(ParseError),
        }
    }
}

/// Decode the four newline-terminated frames of the combined read-all
/// response, in the module's order: mode, baud rate, channel, power.  The
/// whole decode fails if any one frame fails.
pub fn decode_parameters(
    mode_frame: &[u8],
    baud_frame: &[u8],
    channel_frame: &[u8],
    power_frame: &[u8],
) -> (r: Option<Parameters>)
    ensures
        r is Some <==> (decode_mode_spec(mode_frame@) is Some && decode_baud_spec(baud_frame@)
            is Some && decode_channel_spec(channel_frame@) is Some && decode_power_spec(
            power_frame@,
        ) is Some),
        r matches Some(p) ==> {
            &&& Some(p.mode) == decode_mode_spec(mode_frame@)
            &&& Some(p.baud_rate) == decode_baud_spec(baud_frame@)
            &&& Some(p.channel@) == decode_channel_spec(channel_frame@)
            &&& Some(p.power@) == decode_power_spec(power_frame@)
            &&& p.wf()
        },
{
    let mode = match Mode::decode(mode_frame) {
        Ok(m) => m,
        Err(_) => {
            return None;
        },
    };
    let baud_rate = match BaudRate::decode(baud_frame) {
        Ok(b) => b,
        Err(_) => {
            return None;
        },
    };
    let channel = match Channel::decode(channel_frame) {
        Ok(c) => c,
        Err(_) => {
            return None;
        },
    };
    let power = match TransmissionPower::decode(power_frame) {
        Ok(p) => p,
        Err(_) => {
            return None;
        },
    };
    proof {
        use_type_invariant(&channel);
        use_type_invariant(&power);
    }
    Some(Parameters { baud_rate, channel, power, mode })
}

/// Encoding round-trip for baud rates: for every baud rate, decoding the
/// response line "OK+B<rate>\r\n" that carries it yields it back.
pub proof fn lemma_baud_response_round_trip(b: BaudRate)
    ensures
        decode_baud_spec(crate::wire::baud_response(b)) == Some(b),
{
    let n = crate::baudrate::spec_bps(b) as int;
    let s = crate::wire::baud_response(b);
    crate::wire::lemma_dec_digits(n);
    let mid = crate::wire::dec_digits(n);
    assert(s.len() == 6 + mid.len());
    assert(s.take(4) =~= baud_response_prefix());
    assert(s.skip(s.len() - 2) =~= crlf());
    assert(s.subrange(4, s.len() - 2) =~= mid);
    crate::baudrate::lemma_bps_round_trip(b);
}

/// Encoding round-trip for channels: for every channel number in [1, 127],
/// decoding the response line "OK+RC<3-digit decimal>\r\n" that carries it
/// yields it back.
pub proof fn lemma_channel_response_round_trip(ch: u8)
    requires
        crate::channel::channel_in_range(ch),
    ensures
        decode_channel_spec(crate::wire::channel_response(ch)) == Some(ch),
{
    let s = crate::wire::channel_response(ch);
    crate::wire::lemma_pad3(ch as int);
    let mid = crate::wire::pad3(ch as int);
    assert(s.len() == 10);
    assert(s.take(5) =~= channel_response_prefix());
    assert(s.skip(8) =~= crlf());
    assert(s.subrange(5, 8) =~= mid);
}

/// Encoding round-trip for modes: for every mode, decoding the response line
/// "OK+FU<digit>\r\n" that carries it yields it back.
pub proof fn lemma_mode_response_round_trip(m: Mode)
    ensures
        decode_mode_spec(crate::wire::mode_response(m)) == Some(m),
{
    let s = crate::wire::mode_response(m);
    assert(s.len() == 8);
    assert(s.take(5) =~= mode_response_prefix());
    assert(s.skip(6) =~= crlf());
    assert(s[5] == m.spec_digit());
}

/// Encoding round-trip for power levels: for every level in [1, 8], decoding
/// the response line "OK+RP:<signed dBm>dBm\r\n" that carries its dBm value
/// yields the level back.
pub proof fn lemma_power_response_round_trip(level: u8)
    requires
        crate::transmission_power::power_level_in_range(level),
    ensures
        decode_power_spec(crate::wire::power_response(level)) == Some(level),
{
    let s = crate::wire::power_response(level);
    let dbm = crate::transmission_power::spec_power_dbm(level);
    let mid = if level == 1 {
        seq![45u8, 49u8]
    } else {
        seq![43u8] + crate::wire::dec_digits(dbm)
    };
    if level == 1 {
        assert(s.len() == 13);
    } else {
        crate::wire::lemma_dec_digits(dbm);
        assert(crate::wire::pow10(2nat) == 100) by {
            reveal_with_fuel(crate::wire::pow10, 3);
        }
        crate::wire::lemma_dec_digits_len(dbm, 2nat);
        assert(s.len() >= 12);
    }
    assert(s.take(6) =~= power_response_prefix());
    assert(s.skip(s.len() - 5) =~= power_response_suffix());
    assert(s.subrange(6, s.len() - 5) =~= mid);
    if level == 1 {
        let ds = mid.skip(1);
        assert(ds =~= seq![49u8]);
        assert(ds.drop_last() =~= Seq::<u8>::empty());
        assert(digits_value(Seq::<u8>::empty()) == 0);
        assert(ds.last() == 49u8);
        assert(digits_value(ds) == 10 * digits_value(ds.drop_last()) + (ds.last() - 48));
        assert(dbm_field_value(mid) == Some(-1int));
    } else {
        let ds = mid.skip(1);
        assert(ds =~= crate::wire::dec_digits(dbm));
        assert(dbm_field_value(mid) == Some(dbm));
    }
    crate::transmission_power::lemma_power_dbm_round_trip(level);
}

} // verus!

