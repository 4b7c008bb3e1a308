//! Type-state driven state machine of the HC-12 module.
//!
//! The handle owns the transport, the mode-select pin and the delay
//! primitive; ownership moves with each state transition, so a handle can
//! never be used in a mode it no longer represents.  Operations that exchange
//! commands are available only in Configuration mode; transparent payload
//! traffic only in Normal mode.

use vstd::prelude::*;

use crate::parameters::Parameters;
use crate::response_parser::decode_parameters;
use crate::wire::{
    ok_query_bytes, ok_response_bytes, params_query_bytes, reset_command_bytes,
    reset_response_bytes, sleep_command_bytes, sleep_response_bytes, version_query_bytes,
};

verus! {

/// Byte-oriented transport of the module: blocking single-byte reads and
/// writes.  The driver never retries; a transport that cannot deliver a byte
/// blocks until it can.
pub trait SerialPort {
    /// Write one byte, blocking until it is accepted.
    fn write_byte(&mut self, byte: u8);

    /// Read one byte, blocking until one arrives.
    fn read_byte(&mut self) -> u8;
}

/// The digital output line that selects the module's mode: high for
/// transparent (Normal) operation, low for command (Configuration) operation.
pub trait ModeSelectPin {
    /// Whether the line is currently driven high.
    spec fn is_high(&self) -> bool;

    /// Drive the line high.
    fn set_high(&mut self)
        ensures
            final(self).is_high(),
    ;

    /// Drive the line low.
    fn set_low(&mut self)
        ensures
            !final(self).is_high(),
    ;
}

/// Millisecond-granularity blocking delay.
pub trait DelayMs {
    /// Block for the given number of milliseconds.
    fn delay_ms(&mut self, ms: u32);
}

/// Marker for a handle in transparent (Normal) mode.
pub struct Normal;

/// Marker for a handle in command (Configuration) mode.
pub struct Configuration;

/// Marker for a handle in low-power (Sleep) mode.
pub struct Sleep;

/// How long the module needs to settle after the mode-select pin changes, in
/// milliseconds.
const MODE_SETTLE_MS: u32 = 40;

/// How long the module needs after power-up before traffic, in milliseconds.
const STARTUP_SETTLE_MS: u32 = 20;

/// HC-12 resources: a serial port, the mode-select pin, and a delay.
pub struct Hc12<S, P, D, M> where S: SerialPort, P: ModeSelectPin, D: DelayMs {
    serial: S,
    set_pin: P,
    delay: D,
    mode: core::marker::PhantomData<M>,
}

impl<S, P, D, M> Hc12<S, P, D, M> where S: SerialPort, P: ModeSelectPin, D: DelayMs {
    /// Whether the mode-select pin of this handle is driven high.
    pub closed spec fn pin_is_high(&self) -> bool {
        self.set_pin.is_high()
    }

    /// Release the contained resources.
    pub fn release(self) -> (S, P, D) {
        (self.serial, self.set_pin, self.delay)
    }

    /// Write every byte of a vector to the serial port.
    fn write_all(&mut self, v: &Vec<u8>)
        ensures
            final(self).pin_is_high() == old(self).pin_is_high(),
    {
        let mut i: usize = 0;
        while i < v.len()
            invariant
                self.pin_is_high() == old(self).pin_is_high(),
            decreases v@.len() - i,
        {
            self.serial.write_byte(v[i]);
            i += 1;
        }
    }

    /// Read bytes into a fresh buffer until a line feed arrives or the buffer
    /// holds `max` bytes.  A line feed can only be the last byte returned.
    fn read_frame(&mut self, max: usize) -> (v: Vec<u8>)
        requires
            max >= 1,
        ensures
            final(self).pin_is_high() == old(self).pin_is_high(),
            1 <= v@.len() <= max,
            forall|i: int| 0 <= i < v@.len() - 1 ==> v@[i] != 10,
    {
        let mut v: Vec<u8> = Vec::new();
        loop
            invariant_except_break
                self.pin_is_high() == old(self).pin_is_high(),
                v@.len() < max,
                forall|i: int| 0 <= i < v@.len() ==> v@[i] != 10,
            ensures
                self.pin_is_high() == old(self).pin_is_high(),
                1 <= v@.len() <= max,
                forall|i: int| 0 <= i < v@.len() - 1 ==> v@[i] != 10,
            decreases max - v@.len(),
        {
            let byte = self.serial.read_byte();
            v.push(byte);
            if byte == 10 || v.len() == max {
                break;
            }
        }
        v
    }
}

/// Whether two byte vectors hold the same bytes.
fn vec_eq(a: &Vec<u8>, b: &Vec<u8>) -> (r: bool)
    ensures
        r == (a@ =~= b@),
{
    if a.len() != b.len() {
        return false;
    }
    let mut i: usize = 0;
    while i < a.len()
        invariant
            0 <= i <= a@.len(),
            a@.len() == b@.len(),
            forall|j: int| 0 <= j < i ==> a@[j] == b@[j],
        decreases a@.len() - i,
    {
        if a[i] != b[i] {
            return false;
        }
        i += 1;
    }
    true
}

impl<S, P, D> Hc12<S, P, D, Normal> where S: SerialPort, P: ModeSelectPin, D: DelayMs {
    /// Construct a handle in Normal mode: the mode-select pin is driven high
    /// and the module is given its power-up settle time.
    pub fn new(serial: S, set_pin: P, delay: D) -> (r: Self)
        ensures
            r.pin_is_high(),
    {
        let mut set_pin = set_pin;
        let mut delay = delay;
        set_pin.set_high();
        delay.delay_ms(STARTUP_SETTLE_MS);
        Hc12 { serial, set_pin, delay, mode: core::marker::PhantomData }
    }

    /// Write an entire buffer to the serial port as transparent payload.
    pub fn write_buffer(&mut self, buffer: &[u8]) -> (r: Result<(), crate::Error>)
        ensures
            r is Ok,
            final(self).pin_is_high() == old(self).pin_is_high(),
    {
        let mut i: usize = 0;
        while i < buffer.len()
            invariant
                self.pin_is_high() == old(self).pin_is_high(),
            decreases buffer@.len() - i,
        {
            let byte = *vstd::slice::slice_index_get(buffer, i);
            self.serial.write_byte(byte);
            i += 1;
        }
        Ok(())
    }

    /// Read exactly `count` bytes of transparent payload from the serial
    /// port.
    pub fn read_buffer(&mut self, count: usize) -> (v: Vec<u8>)
        ensures
            final(self).pin_is_high() == old(self).pin_is_high(),
            v@.len() == count,
    {
        let mut v: Vec<u8> = Vec::new();
        while v.len() < count
            invariant
                self.pin_is_high() == old(self).pin_is_high(),
                v@.len() <= count,
            decreases count - v@.len(),
        {
            let byte = self.serial.read_byte();
            v.push(byte);
        }
        v
    }

    /// Move the handle to Configuration mode: drive the mode-select pin low
    /// and wait the settle time.  The transition itself always succeeds.
    pub fn into_configuration_mode(self) -> (r: Result<
        Hc12<S, P, D, Configuration>,
        Hc12<S, P, D, Normal>,
    >)
        ensures
            r matches Ok(h) && !h.pin_is_high(),
    {
        let Hc12 { serial, mut set_pin, mut delay, mode: _ } = self;
        set_pin.set_low();
        delay.delay_ms(MODE_SETTLE_MS);
        Ok(Hc12 { serial, set_pin, delay, mode: core::marker::PhantomData })
    }
}

impl<S, P, D> Hc12<S, P, D, Configuration> where S: SerialPort, P: ModeSelectPin, D: DelayMs {
    /// Move the handle back to Normal mode: drive the mode-select pin high
    /// and wait the settle time.  The transition itself always succeeds.
    pub fn into_normal_mode(self) -> (r: Result<
        Hc12<S, P, D, Normal>,
        Hc12<S, P, D, Configuration>,
    >)
        ensures
            r matches Ok(h) && h.pin_is_high(),
    {
        let Hc12 { serial, mut set_pin, mut delay, mode: _ } = self;
        set_pin.set_high();
        delay.delay_ms(MODE_SETTLE_MS);
        Ok(Hc12 { serial, set_pin, delay, mode: core::marker::PhantomData })
    }

    /// Move the handle to Sleep mode: send the sleep command and require the
    /// exact acknowledgement "OK+SLEEP\r\n".  On a mismatched response the
    /// original Configuration handle is returned unchanged and the pin is not
    /// touched.
    pub fn into_sleeping_mode(self) -> (r: Result<
        Hc12<S, P, D, Sleep>,
        Hc12<S, P, D, Configuration>,
    >)
        ensures
            r matches Ok(h) ==> h.pin_is_high(),
            r matches Err(h) ==> h.pin_is_high() == self.pin_is_high(),
    {
        let mut this = self;
        let command = sleep_command_bytes();
        this.write_all(&command);
        let response = this.read_frame(10);
        let expected = sleep_response_bytes();
        if vec_eq(&response, &expected) {
            let Hc12 { serial, mut set_pin, delay, mode: _ } = this;
            set_pin.set_high();
            Ok(Hc12 { serial, set_pin, delay, mode: core::marker::PhantomData })
        } else {
            Err(this)
        }
    }

    /// Check liveness: send "AT\r\n" and report whether the module answers
    /// with exactly "OK\r\n".
    pub fn is_ok(&mut self) -> (r: bool)
        ensures
            final(self).pin_is_high() == old(self).pin_is_high(),
    {
        let query = ok_query_bytes();
        self.write_all(&query);
        let mut response: Vec<u8> = Vec::new();
        while response.len() < 4
            invariant
                self.pin_is_high() == old(self).pin_is_high(),
                response@.len() <= 4,
            decreases 4 - response@.len(),
        {
            let byte = self.serial.read_byte();
            response.push(byte);
        }
        let expected = ok_response_bytes();
        vec_eq(&response, &expected)
    }

    /// Query the firmware version: send "AT+V\r\n" and read one
    /// newline-terminated line of at most 64 bytes.
    pub fn get_version(&mut self) -> (v: Vec<u8>)
        ensures
            final(self).pin_is_high() == old(self).pin_is_high(),
            1 <= v@.len() <= 64,
            forall|i: int| 0 <= i < v@.len() - 1 ==> v@[i] != 10,
    {
        let query = version_query_bytes();
        self.write_all(&query);
        self.read_frame(64)
    }

    /// Reset the module to its factory defaults: send "AT+DEFAULT\r\n" and
    /// report whether the module acknowledged with exactly "OK+DEFAULT\r\n".
    pub fn reset_settings(&mut self) -> (r: bool)
        ensures
            final(self).pin_is_high() == old(self).pin_is_high(),
    {
        let command = reset_command_bytes();
        self.write_all(&command);
        let response = self.read_frame(12);
        let expected = reset_response_bytes();
        vec_eq(&response, &expected)
    }

    /// Read all parameters: send "AT+RX\r\n", read four newline-terminated
    /// frames (mode, baud rate, channel, power, in the module's order) and
    /// decode them.  The call fails if any frame fails to decode.
    pub fn get_parameters(&mut self) -> (r: Option<Parameters>)
        ensures
            final(self).pin_is_high() == old(self).pin_is_high(),
            r matches Some(p) ==> p.wf(),
    {
        let query = params_query_bytes();
        self.write_all(&query);
        let mode_frame = self.read_frame(16);
        let baud_frame = self.read_frame(16);
        let channel_frame = self.read_frame(16);
        let power_frame = self.read_frame(16);
        decode_parameters(
            mode_frame.as_slice(),
            baud_frame.as_slice(),
            channel_frame.as_slice(),
            power_frame.as_slice(),
        )
    }
}

impl<S, P, D> Hc12<S, P, D, Sleep> where S: SerialPort, P: ModeSelectPin, D: DelayMs {
    /// Wake the module: drive the mode-select pin low and wait the settle
    /// time, leaving the handle in Configuration mode.  The transition itself
    /// always succeeds.
    pub fn into_configuration_mode(self) -> (r: Result<
        Hc12<S, P, D, Configuration>,
        Hc12<S, P, D, Sleep>,
    >)
        ensures
            r matches Ok(h) && !h.pin_is_high(),
    {
        let Hc12 { serial, mut set_pin, mut delay, mode: _ } = self;
        set_pin.set_low();
        delay.delay_ms(MODE_SETTLE_MS);
        Ok(Hc12 { serial, set_pin, delay, mode: core::marker::PhantomData })
    }
}

} // verus!
