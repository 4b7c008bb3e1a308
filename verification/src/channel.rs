//! Communication channel of the HC-12 module.

use vstd::prelude::*;

verus! {

/// Error raised when a channel number outside [1, 127] is used.
#[derive(Clone, Copy, Debug, PartialEq, Eq, Structural)]
pub enum ChannelError {
    /// The given channel number is not in [1, 127].
    InvalidChannel(u8),
}

impl From<ChannelError> for crate::Error {
    fn from(v: ChannelError) -> (r: Self) {
        match v {
            ChannelError::InvalidChannel(ch) => crate::Error::InvalidChannel(ch),
        }
    }
}

impl vstd::std_specs::convert::FromSpecImpl<ChannelError> for crate::Error {
    open spec fn obeys_from_spec() -> bool {
        true
    }

    open spec fn from_spec(v: ChannelError) -> crate::Error {
        match v {
            ChannelError::InvalidChannel(ch) => crate::Error::InvalidChannel(ch),
        }
    }
}

/// A channel number is legal when it lies in [1, 127].
pub open spec fn channel_in_range(ch: u8) -> bool {
    1 <= ch <= 127
}

/// Communication channel, guaranteed to hold a number in [1, 127].
///
/// Channel n uses the radio frequency 433.0 + n * 0.4 MHz.
#[derive(Debug, PartialEq, Eq, Structural)]
pub struct Channel(pub(crate) u8);

impl View for Channel {
    type V = u8;

    /// The channel number.
    closed spec fn view(&self) -> u8 {
        self.0
    }
}

impl Channel {
    /// Every observable channel holds a number in [1, 127].
    #[verifier::type_invariant]
    pub open spec fn wf(&self) -> bool {
        channel_in_range(self@)
    }

    /// Construct a new Channel; fails on a number outside [1, 127].
    pub fn new(ch: u8) -> (r: Option<Self>)
        ensures
            channel_in_range(ch) ==> (r matches Some(c) && c@ == ch),
            !channel_in_range(ch) ==> r is None,
    {
        if ch != 0 && ch < 128 {
            Some(Channel(ch))
        } else {
            None
        }
    }

    /// The channel number in [1, 127].
    pub fn to_u8(&self) -> (r: u8)
        ensures
            r == self@,
    {
        self.0
    }

    /// The channel's radio frequency in kHz: 433 000 kHz plus 400 kHz per step.
    pub fn get_freq_khz(&self) -> (r: u32)
        ensures
            r == 433000 + 400 * self@,
    {
        433000 + 400 * (self.0 as u32)
    }

    /// Change the channel number; fails and leaves the channel unchanged on a
    /// number outside [1, 127].
    pub fn set_channel(&mut self, ch: u8) -> (r: Result<(), ChannelError>)
        ensures
            channel_in_range(ch) ==> r is Ok && final(self)@ == ch,
            !channel_in_range(ch) ==> r == Err::<(), ChannelError>(
                ChannelError::InvalidChannel(ch),
            ) && *final(self) == *old(self),
    {
        if ch != 0 && ch < 128 {
            self.0 = ch;
            Ok(())
        } else {
            Err(ChannelError::InvalidChannel(ch))
        }
    }
}

impl Default for Channel {
    /// The factory default channel is 1.
    fn default() -> (r: Self)
        ensures
            r@ == 1u8,
    {
        Channel(1)
    }
}

} // verus!
