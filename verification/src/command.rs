//! Encoding of "set parameter" AT commands.
//!
//! Each parameter value renders into the exact ASCII line the module expects,
//! written into a caller-supplied 16-byte buffer; 16 bytes are enough for
//! every command of the protocol.

use vstd::prelude::*;

use crate::baudrate::{spec_bps, BaudRate};
use crate::channel::Channel;
use crate::mode::Mode;
use crate::transmission_power::TransmissionPower;
use crate::wire::{
    lemma_dec_digits_len, pow10, push_crlf, push_decimal, set_baud_command, set_channel_command,
    set_mode_command, set_power_command,
};

verus! {

/// Copy the bytes of a vector into the front of a 16-byte buffer and return
/// how many bytes were written.
fn write_into(buffer: &mut [u8; 16], v: &Vec<u8>) -> (n: usize)
    requires
        v@.len() <= 16,
    ensures
        n == v@.len(),
        final(buffer)@.take(n as int) == v@,
{
    let mut i: usize = 0;
    while i < v.len()
        invariant
            0 <= i <= v@.len() <= 16,
            forall|j: int| 0 <= j < i ==> buffer@[j] == v@[j],
        decreases v@.len() - i,
    {
        buffer[i] = v[i];
        i += 1;
    }
    proof {
        assert(buffer@.take(i as int) =~= v@);
    }
    i
}

/// Copy the bytes of a vector into a 16-byte buffer and return the written
/// front of the buffer as a slice.
fn copy_into<'a>(buffer: &'a mut [u8; 16], v: &Vec<u8>) -> (r: &'a [u8])
    requires
        v@.len() <= 16,
    ensures
        r@ == v@,
{
    let n = write_into(buffer, v);
    let r = vstd::slice::slice_subrange(vstd::array::array_as_slice(buffer), 0, n);
    proof {
        assert(r@ =~= buffer@.take(n as int));
    }
    r
}

/// Render a value into the AT command that sets it on the module.
pub trait MakeCommand {
    /// The exact bytes of the command, terminated by CR LF.
    spec fn command_bytes(&self) -> Seq<u8>;

    /// Write the command into the buffer and return the written front of the
    /// buffer.
    fn make_command<'a>(&self, buffer: &'a mut [u8; 16]) -> (r: &'a [u8])
        ensures
            r@ == self.command_bytes(),
    ;
}

/// Render a value into the AT command that sets it on the module, returning
/// the command's length in the buffer.
pub trait ToCommand: MakeCommand {
    /// Write the command into the front of the buffer and return its length.
    fn to_command(&self, buffer: &mut [u8; 16]) -> (n: usize)
        ensures
            n <= 16,
            final(buffer)@.take(n as int) == self.command_bytes(),
    ;
}

/// The bytes of the set-baud-rate command "AT+B<rate>\r\n" as a vector.
fn set_baud_command_vec(rate: &BaudRate) -> (v: Vec<u8>)
    ensures
        v@ == set_baud_command(*rate),
        v@.len() <= 12,
{
    let ghost gr = *rate;
    let mut v: Vec<u8> = Vec::new();
    v.push(65);
    v.push(84);
    v.push(43);
    v.push(66);
    let bps = rate.to_u32().unwrap();
    push_decimal(&mut v, bps);
    push_crlf(&mut v);
    proof {
        assert(pow10(6nat) == 1000000) by {
            reveal_with_fuel(pow10, 7);
        }
        lemma_dec_digits_len(bps as int, 6nat);
        assert(v@ =~= set_baud_command(gr));
    }
    v
}

impl MakeCommand for BaudRate {
    open spec fn command_bytes(&self) -> Seq<u8> {
        set_baud_command(*self)
    }

    fn make_command<'a>(&self, buffer: &'a mut [u8; 16]) -> (r: &'a [u8]) {
        let v = set_baud_command_vec(self);
        copy_into(buffer, &v)
    }
}

impl ToCommand for BaudRate {
    fn to_command(&self, buffer: &mut [u8; 16]) -> (n: usize) {
        let v = set_baud_command_vec(self);
        write_into(buffer, &v)
    }
}

/// The bytes of the set-channel command "AT+C<3-digit channel>\r\n" as a
/// vector.
fn set_channel_command_vec(channel: &Channel) -> (v: Vec<u8>)
    ensures
        v@ == set_channel_command(channel@),
        v@.len() == 9,
{
    proof {
        use_type_invariant(channel);
    }
    let ch = channel.to_u8();
    let mut v: Vec<u8> = Vec::new();
    v.push(65);
    v.push(84);
    v.push(43);
    v.push(67);
    v.push(48 + ch / 100);
    v.push(48 + (ch / 10) % 10);
    v.push(48 + ch % 10);
    push_crlf(&mut v);
    proof {
        assert(v@ =~= set_channel_command(channel@));
    }
    v
}

impl MakeCommand for Channel {
    open spec fn command_bytes(&self) -> Seq<u8> {
        set_channel_command(self@)
    }

    fn make_command<'a>(&self, buffer: &'a mut [u8; 16]) -> (r: &'a [u8]) {
        let v = set_channel_command_vec(self);
        copy_into(buffer, &v)
    }
}

impl ToCommand for Channel {
    fn to_command(&self, buffer: &mut [u8; 16]) -> (n: usize) {
        let v = set_channel_command_vec(self);
        write_into(buffer, &v)
    }
}

/// The bytes of the set-mode command "AT+FU<digit>\r\n" as a vector.
fn set_mode_command_vec(mode: &Mode) -> (v: Vec<u8>)
    ensures
        v@ == set_mode_command(*mode),
        v@.len() == 8,
{
    let ghost gm = *mode;
    let mut v: Vec<u8> = Vec::new();
    v.push(65);
    v.push(84);
    v.push(43);
    v.push(70);
    v.push(85);
    match mode {
        Mode::Fu1 => v.push(49),
        Mode::Fu2 => v.push(50),
        Mode::Fu3 => v.push(51),
        Mode::Fu4 => v.push(52),
    }
    push_crlf(&mut v);
    proof {
        assert(v@ =~= set_mode_command(gm));
    }
    v
}

impl MakeCommand for Mode {
    open spec fn command_bytes(&self) -> Seq<u8> {
        set_mode_command(*self)
    }

    fn make_command<'a>(&self, buffer: &'a mut [u8; 16]) -> (r: &'a [u8]) {
        let v = set_mode_command_vec(self);
        copy_into(buffer, &v)
    }
}

impl ToCommand for Mode {
    fn to_command(&self, buffer: &mut [u8; 16]) -> (n: usize) {
        let v = set_mode_command_vec(self);
        write_into(buffer, &v)
    }
}

/// The bytes of the set-power command "AT+P<level>\r\n" as a vector.
fn set_power_command_vec(power: &TransmissionPower) -> (v: Vec<u8>)
    ensures
        v@ == set_power_command(power@),
        v@.len() == 7,
{
    proof {
        use_type_invariant(power);
    }
    let level = power.power();
    let mut v: Vec<u8> = Vec::new();
    v.push(65);
    v.push(84);
    v.push(43);
    v.push(80);
    v.push(48 + level);
    push_crlf(&mut v);
    proof {
        assert(v@ =~= set_power_command(power@));
    }
    v
}

impl MakeCommand for TransmissionPower {
    open spec fn command_bytes(&self) -> Seq<u8> {
        set_power_command(self@)
    }

    fn make_command<'a>(&self, buffer: &'a mut [u8; 16]) -> (r: &'a [u8]) {
        let v = set_power_command_vec(self);
        copy_into(buffer, &v)
    }
}

impl ToCommand for TransmissionPower {
    fn to_command(&self, buffer: &mut [u8; 16]) -> (n: usize) {
        let v = set_power_command_vec(self);
        write_into(buffer, &v)
    }
}

} // verus!
