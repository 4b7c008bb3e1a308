//! Byte-level model of the HC-12 wire protocol.
//!
//! Every request and response of the protocol is an ASCII line terminated by
//! a carriage return and a line feed.  This module defines the exact byte
//! sequences of those lines as specification functions, together with the
//! executable builders that produce them.

use vstd::prelude::*;

use crate::baudrate::{spec_bps, BaudRate};
use crate::mode::Mode;

verus! {

/// Whether a byte is an ASCII decimal digit.
pub open spec fn is_ascii_digit(b: u8) -> bool {
    48 <= b <= 57  // '0' ..= '9'
}

/// Whether every byte of a sequence is an ASCII decimal digit.
pub open spec fn all_digits(s: Seq<u8>) -> bool {
    forall|i: int| 0 <= i < s.len() ==> is_ascii_digit(#[trigger] s[i])
}

/// The value of a sequence of ASCII decimal digits, most significant first.
pub open spec fn digits_value(s: Seq<u8>) -> int
    decreases s.len(),
{
    if s.len() == 0 {
        0
    } else {
        10 * digits_value(s.drop_last()) + (s.last() - 48)
    }
}

/// The canonical ASCII decimal digits of a non-negative number, without
/// leading zeros.
pub open spec fn dec_digits(n: int) -> Seq<u8>
    decreases n,
{
    if n <= 9 {
        seq![(48 + n) as u8]
    } else {
        dec_digits(n / 10).push((48 + n % 10) as u8)
    }
}

/// Three ASCII decimal digits, zero padded, of a number in [0, 999].
pub open spec fn pad3(n: int) -> Seq<u8> {
    seq![(48 + n / 100) as u8, (48 + (n / 10) % 10) as u8, (48 + n % 10) as u8]
}

/// The two-byte line terminator: carriage return, line feed.
pub open spec fn crlf() -> Seq<u8> {
    seq![13u8, 10u8]  // "\r\n"
}

// ---------------------------------------------------------------------------
// Request lines
// ---------------------------------------------------------------------------

/// The liveness request "AT\r\n".
pub open spec fn ok_query() -> Seq<u8> {
    seq![65u8, 84u8, 13u8, 10u8]
}

/// The baud rate read request "AT+RB\r\n".
pub open spec fn baud_query() -> Seq<u8> {
    seq![65u8, 84u8, 43u8, 82u8, 66u8, 13u8, 10u8]
}

/// The channel read request "AT+RC\r\n".
pub open spec fn channel_query() -> Seq<u8> {
    seq![65u8, 84u8, 43u8, 82u8, 67u8, 13u8, 10u8]
}

/// The mode read request "AT+RF\r\n".
pub open spec fn mode_query() -> Seq<u8> {
    seq![65u8, 84u8, 43u8, 82u8, 70u8, 13u8, 10u8]
}

/// The power read request "AT+RP\r\n".
pub open spec fn power_query() -> Seq<u8> {
    seq![65u8, 84u8, 43u8, 82u8, 80u8, 13u8, 10u8]
}

/// The combined read-all request "AT+RX\r\n".
pub open spec fn params_query() -> Seq<u8> {
    seq![65u8, 84u8, 43u8, 82u8, 88u8, 13u8, 10u8]
}

/// The firmware version request "AT+V\r\n".
pub open spec fn version_query() -> Seq<u8> {
    seq![65u8, 84u8, 43u8, 86u8, 13u8, 10u8]
}

/// The sleep request "AT+SLEEP\r\n".
pub open spec fn sleep_command() -> Seq<u8> {
    seq![65u8, 84u8, 43u8, 83u8, 76u8, 69u8, 69u8, 80u8, 13u8, 10u8]
}

/// The factory reset request "AT+DEFAULT\r\n".
pub open spec fn reset_command() -> Seq<u8> {
    seq![65u8, 84u8, 43u8, 68u8, 69u8, 70u8, 65u8, 85u8, 76u8, 84u8, 13u8, 10u8]
}

/// The set-baud-rate request "AT+B<rate>\r\n", where the rate is written as
/// its decimal bits-per-second value.
pub open spec fn set_baud_command(b: BaudRate) -> Seq<u8> {
    seq![65u8, 84u8, 43u8, 66u8] + dec_digits(spec_bps(b) as int) + crlf()  // "AT+B"
}

/// The set-channel request "AT+C<3-digit zero-padded channel>\r\n".
pub open spec fn set_channel_command(ch: u8) -> Seq<u8> {
    seq![65u8, 84u8, 43u8, 67u8] + pad3(ch as int) + crlf()  // "AT+C"
}

/// The set-mode request "AT+FU<digit>\r\n".
pub open spec fn set_mode_command(m: Mode) -> Seq<u8> {
    seq![65u8, 84u8, 43u8, 70u8, 85u8, m.spec_digit()] + crlf()  // "AT+FU"
}

/// The set-power request "AT+P<level>\r\n", with the level in [1, 8].
pub open spec fn set_power_command(level: u8) -> Seq<u8> {
    seq![65u8, 84u8, 43u8, 80u8, (48 + level) as u8] + crlf()  // "AT+P"
}

// ---------------------------------------------------------------------------
// Response lines
// ---------------------------------------------------------------------------

/// The liveness response "OK\r\n".
pub open spec fn ok_response() -> Seq<u8> {
    seq![79u8, 75u8, 13u8, 10u8]
}

/// The sleep acknowledgement "OK+SLEEP\r\n".
pub open spec fn sleep_response() -> Seq<u8> {
    seq![79u8, 75u8, 43u8, 83u8, 76u8, 69u8, 69u8, 80u8, 13u8, 10u8]
}

/// The factory reset acknowledgement "OK+DEFAULT\r\n".
pub open spec fn reset_response() -> Seq<u8> {
    seq![79u8, 75u8, 43u8, 68u8, 69u8, 70u8, 65u8, 85u8, 76u8, 84u8, 13u8, 10u8]
}

/// The baud rate response prefix "OK+B".
pub open spec fn baud_response_prefix() -> Seq<u8> {
    seq![79u8, 75u8, 43u8, 66u8]
}

/// The channel response prefix "OK+RC".
pub open spec fn channel_response_prefix() -> Seq<u8> {
    seq![79u8, 75u8, 43u8, 82u8, 67u8]
}

/// The mode response prefix "OK+FU".
pub open spec fn mode_response_prefix() -> Seq<u8> {
    seq![79u8, 75u8, 43u8, 70u8, 85u8]
}

/// The power response prefix "OK+RP:".
pub open spec fn power_response_prefix() -> Seq<u8> {
    seq![79u8, 75u8, 43u8, 82u8, 80u8, 58u8]
}

/// The power response suffix "dBm\r\n".
pub open spec fn power_response_suffix() -> Seq<u8> {
    seq![100u8, 66u8, 109u8] + crlf()  // "dBm"
}

/// The baud rate response "OK+B<rate>\r\n" for a given serial baud rate.
pub open spec fn baud_response(b: BaudRate) -> Seq<u8> {
    baud_response_prefix() + dec_digits(spec_bps(b) as int) + crlf()
}

/// The channel response "OK+RC<3-digit zero-padded channel>\r\n".
pub open spec fn channel_response(ch: u8) -> Seq<u8> {
    channel_response_prefix() + pad3(ch as int) + crlf()
}

/// The mode response "OK+FU<digit>\r\n".
pub open spec fn mode_response(m: Mode) -> Seq<u8> {
    mode_response_prefix() + seq![m.spec_digit()] + crlf()
}

/// The power response "OK+RP:<signed dBm>dBm\r\n" for a level in [1, 8]; the
/// dBm value carries an explicit sign, as the module writes it.
pub open spec fn power_response(level: u8) -> Seq<u8> {
    power_response_prefix() + (if level == 1 {
        seq![45u8, 49u8]  // "-1"
    } else {
        seq![43u8] + dec_digits(crate::transmission_power::spec_power_dbm(level))  // '+'
    }) + power_response_suffix()
}

// ---------------------------------------------------------------------------
// Facts about digits
// ---------------------------------------------------------------------------

/// The canonical decimal digits of a non-negative number are digits, start
/// with no leading zero (unless the number itself is zero), and evaluate back
/// to the number.
pub proof fn lemma_dec_digits(n: int)
    requires
        n >= 0,
    ensures
        all_digits(dec_digits(n)),
        dec_digits(n).len() >= 1,
        digits_value(dec_digits(n)) == n,
        n > 0 ==> dec_digits(n)[0] != 48,
    decreases n,
{
    if n <= 9 {
        assert(dec_digits(n) =~= seq![(48 + n) as u8]);
        assert(dec_digits(n).drop_last() =~= Seq::<u8>::empty());
        assert(digits_value(Seq::<u8>::empty()) == 0);
        assert(dec_digits(n).last() == (48 + n) as u8);
        assert(digits_value(dec_digits(n)) == 10 * 0 + ((48 + n) as u8 - 48));
    } else {
        lemma_dec_digits(n / 10);
        let prev = dec_digits(n / 10);
        let whole = dec_digits(n);
        assert(whole =~= prev.push((48 + n % 10) as u8));
        assert(whole.drop_last() =~= prev);
        assert(whole[0] == prev[0]);
        assert(forall|i: int| 0 <= i < whole.len() ==> is_ascii_digit(#[trigger] whole[i])) by {
            assert(forall|i: int| 0 <= i < prev.len() ==> is_ascii_digit(#[trigger] prev[i]));
            assert(whole[whole.len() - 1] == (48 + n % 10) as u8);
        }
        assert(whole.last() == (48 + n % 10) as u8);
        assert(digits_value(whole) == 10 * digits_value(prev) + ((48 + n % 10) as u8 - 48));
        assert(digits_value(whole) == 10 * (n / 10) + n % 10);
    }
}

/// Ten raised to a non-negative power.
pub open spec fn pow10(k: nat) -> int
    decreases k,
{
    if k == 0 {
        1
    } else {
        10 * pow10((k - 1) as nat)
    }
}

/// A number below ten to the k-th has at most k decimal digits.
pub proof fn lemma_dec_digits_len(n: int, k: nat)
    requires
        0 <= n < pow10(k),
        k >= 1,
    ensures
        dec_digits(n).len() <= k,
    decreases k,
{
    if n <= 9 {
    } else {
        assert(pow10(k) == 10 * pow10((k - 1) as nat));
        if k == 1 {
            assert(pow10(1nat) == 10 * pow10(0nat));
            assert(false);
        }
        lemma_dec_digits_len(n / 10, (k - 1) as nat);
    }
}

/// Extending a digit string by one digit multiplies its value by ten and adds
/// the digit.
pub proof fn lemma_digits_value_step(s: Seq<u8>, i: int)
    requires
        0 <= i < s.len(),
    ensures
        digits_value(s.take(i + 1)) == 10 * digits_value(s.take(i)) + (s[i] - 48),
{
    assert(s.take(i + 1).drop_last() =~= s.take(i));
    assert(s.take(i + 1).last() == s[i]);
}

/// A three-digit zero-padded field consists of digits and evaluates back to
/// the number it was made from.
pub proof fn lemma_pad3(n: int)
    requires
        0 <= n <= 999,
    ensures
        all_digits(pad3(n)),
        pad3(n).len() == 3,
        digits_value(pad3(n)) == n,
{
    let s = pad3(n);
    let d0 = (48 + n / 100) as u8;
    let d1 = (48 + (n / 10) % 10) as u8;
    let d2 = (48 + n % 10) as u8;
    assert(s.drop_last() =~= seq![d0, d1]);
    assert(s.drop_last().drop_last() =~= seq![d0]);
    assert(s.drop_last().drop_last().drop_last() =~= Seq::<u8>::empty());
    assert(digits_value(Seq::<u8>::empty()) == 0);
    assert(digits_value(seq![d0]) == d0 - 48);
    assert(digits_value(seq![d0, d1]) == 10 * (d0 - 48) + (d1 - 48));
    assert(digits_value(s) == 10 * (10 * (d0 - 48) + (d1 - 48)) + (d2 - 48));
    assert(100 * (n / 100) + 10 * ((n / 10) % 10) + n % 10 == n) by (nonlinear_arith)
        requires
            0 <= n <= 999,
    ;
}

/// For every channel number in [1, 127] the set-channel command carries the
/// number as exactly three zero-padded ASCII decimal digits: the command is
/// nine bytes, its payload consists of digits, and the digits evaluate back
/// to the channel number.
pub proof fn lemma_channel_command_padded(ch: u8)
    requires
        crate::channel::channel_in_range(ch),
    ensures
        set_channel_command(ch).len() == 9,
        all_digits(set_channel_command(ch).subrange(4, 7)),
        digits_value(set_channel_command(ch).subrange(4, 7)) == ch,
{
    lemma_pad3(ch as int);
    assert(set_channel_command(ch).subrange(4, 7) =~= pad3(ch as int));
}

// ---------------------------------------------------------------------------
// Executable builders
// ---------------------------------------------------------------------------

/// Append the canonical decimal digits of `n` to a byte vector.
pub fn push_decimal(v: &mut Vec<u8>, n: u32)
    ensures
        final(v)@ == old(v)@ + dec_digits(n as int),
    decreases n,
{
    let ghost v0 = v@;
    if n <= 9 {
        v.push(48 + n as u8);
        proof {
            assert(v@ =~= v0 + dec_digits(n as int));
        }
    } else {
        push_decimal(v, n / 10);
        v.push(48 + (n % 10) as u8);
        proof {
            assert(v@ =~= v0 + dec_digits(n as int));
        }
    }
}

/// Append the carriage-return line-feed terminator to a byte vector.
pub fn push_crlf(v: &mut Vec<u8>)
    ensures
        final(v)@ == old(v)@ + crlf(),
{
    let ghost v0 = v@;
    v.push(13);
    v.push(10);
    proof {
        assert(v@ =~= v0 + crlf());
    }
}

/// The liveness request "AT\r\n" as bytes.
pub fn ok_query_bytes() -> (v: Vec<u8>)
    ensures
        v@ == ok_query(),
{
    let mut v: Vec<u8> = Vec::new();
    v.push(65);
    v.push(84);
    push_crlf(&mut v);
    proof {
        assert(v@ =~= ok_query());
    }
    v
}

/// The combined read-all request "AT+RX\r\n" as bytes.
pub fn params_query_bytes() -> (v: Vec<u8>)
    ensures
        v@ == params_query(),
{
    let mut v: Vec<u8> = Vec::new();
    v.push(65);
    v.push(84);
    v.push(43);
    v.push(82);
    v.push(88);
    push_crlf(&mut v);
    proof {
        assert(v@ =~= params_query());
    }
    v
}

/// The firmware version request "AT+V\r\n" as bytes.
pub fn version_query_bytes() -> (v: Vec<u8>)
    ensures
        v@ == version_query(),
{
    let mut v: Vec<u8> = Vec::new();
    v.push(65);
    v.push(84);
    v.push(43);
    v.push(86);
    push_crlf(&mut v);
    proof {
        assert(v@ =~= version_query());
    }
    v
}

/// The sleep request "AT+SLEEP\r\n" as bytes.
pub fn sleep_command_bytes() -> (v: Vec<u8>)
    ensures
        v@ == sleep_command(),
{
    let mut v: Vec<u8> = Vec::new();
    v.push(65);
    v.push(84);
    v.push(43);
    v.push(83);
    v.push(76);
    v.push(69);
    v.push(69);
    v.push(80);
    push_crlf(&mut v);
    proof {
        assert(v@ =~= sleep_command());
    }
    v
}

/// The factory reset request "AT+DEFAULT\r\n" as bytes.
pub fn reset_command_bytes() -> (v: Vec<u8>)
    ensures
        v@ == reset_command(),
{
    let mut v: Vec<u8> = Vec::new();
    v.push(65);
    v.push(84);
    v.push(43);
    v.push(68);
    v.push(69);
    v.push(70);
    v.push(65);
    v.push(85);
    v.push(76);
    v.push(84);
    push_crlf(&mut v);
    proof {
        assert(v@ =~= reset_command());
    }
    v
}

/// The liveness response "OK\r\n" as bytes.
pub fn ok_response_bytes() -> (v: Vec<u8>)
    ensures
        v@ == ok_response(),
{
    let mut v: Vec<u8> = Vec::new();
    v.push(79);
    v.push(75);
    push_crlf(&mut v);
    proof {
        assert(v@ =~= ok_response());
    }
    v
}

/// The sleep acknowledgement "OK+SLEEP\r\n" as bytes.
pub fn sleep_response_bytes() -> (v: Vec<u8>)
    ensures
        v@ == sleep_response(),
{
    let mut v: Vec<u8> = Vec::new();
    v.push(79);
    v.push(75);
    v.push(43);
    v.push(83);
    v.push(76);
    v.push(69);
    v.push(69);
    v.push(80);
    push_crlf(&mut v);
    proof {
        assert(v@ =~= sleep_response());
    }
    v
}

/// The factory reset acknowledgement "OK+DEFAULT\r\n" as bytes.
pub fn reset_response_bytes() -> (v: Vec<u8>)
    ensures
        v@ == reset_response(),
{
    let mut v: Vec<u8> = Vec::new();
    v.push(79);
    v.push(75);
    v.push(43);
    v.push(68);
    v.push(69);
    v.push(70);
    v.push(65);
    v.push(85);
    v.push(76);
    v.push(84);
    push_crlf(&mut v);
    proof {
        assert(v@ =~= reset_response());
    }
    v
}

} // verus!
