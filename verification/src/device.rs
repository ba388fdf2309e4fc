//! What the library keeps track of for a connected device: the channels
//! that can be opened on it, its lights, and whether its core channel is
//! open for writing.

use crate::error::{Error, OsReply};
use vstd::prelude::*;

verus! {

/// The bit of the primary channel.
pub const CORE: u32 = 0x0001;

/// The bit of the accelerometer channel.
pub const ACCELEROMETER: u32 = 0x0002;

/// The bit of the IR camera channel.
pub const IR: u32 = 0x0004;

/// The bit of the MotionPlus extension channel.
pub const MOTION_PLUS: u32 = 0x0100;

/// The bit of the Nunchuk extension channel.
pub const NUNCHUK: u32 = 0x0200;

/// The bit of the Classic controller channel.
pub const CLASSIC_CONTROLLER: u32 = 0x0400;

/// The bit of the balance board channel.
pub const BALANCE_BOARD: u32 = 0x1000;

/// The bit of the Pro controller channel.
pub const PRO_CONTROLLER: u32 = 0x2000;

/// The bit of the drums channel.
pub const DRUMS: u32 = 0x2000;

/// The bit of the guitar channel.
pub const GUITAR: u32 = 0x4000;

/// Every bit that stands for a channel.
pub const ALL_CHANNELS: u32 = 0x7707;

/// The bit that asks for a channel to be opened for writing.
pub const WRITABLE: u32 = 0x0001_0000;

/// Represents the channels that can be opened on a device.
#[derive(Copy, Clone, Debug, PartialEq, Eq, Structural)]
pub struct Channels {
    bits: u32,
}

impl Channels {
    /// The bits of the set, one for each channel in it.
    pub closed spec fn spec_bits(self) -> u32 {
        self.bits
    }

    /// The bits stand for channels only.
    pub open spec fn known(bits: u32) -> bool {
        bits & !ALL_CHANNELS == 0
    }

    /// Every channel of `other` is in the set.
    pub open spec fn spec_contains(self, other: Channels) -> bool {
        self.spec_bits() & other.spec_bits() == other.spec_bits()
    }

    /// The set that holds the primary channel alone.
    pub closed spec fn spec_primary() -> Channels {
        Channels { bits: CORE }
    }

    /// The set that holds the primary channel alone.
    pub fn primary() -> (channels: Channels)
        ensures
            channels == Self::spec_primary(),
            channels.spec_bits() == CORE,
    {
        Channels { bits: CORE }
    }

    /// The set without any channel.
    pub fn empty() -> (channels: Channels)
        ensures
            channels.spec_bits() == 0,
    {
        Channels { bits: 0 }
    }

    /// The set with the channels of the given bits. There is none if a
    /// bit stands for no channel.
    pub fn from_bits(bits: u32) -> (channels: Option<Channels>)
        ensures
            Self::known(bits) ==> channels is Some && channels->Some_0.spec_bits() == bits,
            !Self::known(bits) ==> channels is None,
    {
        if bits & !ALL_CHANNELS == 0 {
            Some(Channels { bits })
        } else {
            None
        }
    }

    /// Returns the bits of the set.
    pub fn bits(&self) -> (bits: u32)
        ensures
            bits == self.spec_bits(),
    {
        self.bits
    }

    /// Tells whether every channel of `other` is in the set.
    pub fn contains(&self, other: Channels) -> (yes: bool)
        ensures
            yes == self.spec_contains(other),
    {
        self.bits & other.bits == other.bits
    }

    /// The channels that are in either set.
    pub fn union(self, other: Channels) -> (channels: Channels)
        ensures
            channels.spec_bits() == self.spec_bits() | other.spec_bits(),
    {
        Channels { bits: self.bits | other.bits }
    }
}

/// Motion Plus sensor normalization and calibration values.
///
/// The absolute offsets are subtracted from any Motion Plus sensor data
/// before they are returned in an event.
#[derive(Copy, Clone, Eq, PartialEq, Debug, Structural)]
pub struct MotionPlusNormalization {
    /// Absolute x-axis offset.
    pub x: i32,
    /// Absolute y-axis offset.
    pub y: i32,
    /// Absolute z-axis offset.
    pub z: i32,
    /// Calibration factor used to establish the zero-point of the
    /// Motion Plus sensor data depending on its output.
    pub factor: i32,
}

impl Default for MotionPlusNormalization {
    fn default() -> (values: Self)
        ensures
            values == (MotionPlusNormalization { x: 0, y: 0, z: 0, factor: 0 }),
    {
        MotionPlusNormalization { x: 0, y: 0, z: 0, factor: 0 }
    }
}

/// The Wii Remote LED lights.
#[derive(Copy, Clone, Debug, PartialEq, Eq, Structural)]
pub enum Led {
    /// The left-most light.
    One,
    /// The mid-left light.
    Two,
    /// The mid-right light.
    Three,
    /// The right-most light.
    Four,
}

impl Led {
    /// The number of the light, counted from one at the left.
    pub open spec fn spec_code(self) -> u32 {
        match self {
            Led::One => 1,
            Led::Two => 2,
            Led::Three => 3,
            Led::Four => 4,
        }
    }

    /// Returns the number of the light, counted from one at the left.
    pub fn code(self) -> (code: u32)
        ensures
            code == self.spec_code(),
    {
        match self {
            Led::One => 1,
            Led::Two => 2,
            Led::Three => 3,
            Led::Four => 4,
        }
    }

    /// The light with the given number, if there is one.
    pub fn from_u8(code: u8) -> (led: Option<Led>)
        ensures
            1 <= code <= 4 <==> led is Some,
            led matches Some(l) ==> l.spec_code() == code,
    {
        match code {
            1 => Some(Led::One),
            2 => Some(Led::Two),
            3 => Some(Led::Three),
            4 => Some(Led::Four),
            _ => None,
        }
    }
}

/// A connected Wii Remote, as far as the library keeps track of it.
#[derive(Copy, Clone, Debug, PartialEq, Eq, Structural)]
pub struct Device {
    /// Is the core channel open in writable mode?
    ///
    /// Operations like toggling the rumble motor require this channel to
    /// be open in order to function.
    pub core_open: bool,
}

impl Device {
    /// The record of a device that was just connected: no channel is
    /// open.
    pub fn new() -> (device: Device)
        ensures
            !device.core_open,
    {
        Device { core_open: false }
    }

    /// The word that asks the driver to open `channels`: their bits,
    /// with the bit for writing where `writable` is set.
    pub open spec fn spec_open_request(channels: Channels, writable: bool) -> u32 {
        if writable {
            channels.spec_bits() | WRITABLE
        } else {
            channels.spec_bits()
        }
    }

    /// Builds the word that asks the driver to open `channels`.
    pub fn open_request(channels: Channels, writable: bool) -> (ifaces: u32)
        ensures
            ifaces == Self::spec_open_request(channels, writable),
    {
        let mut ifaces = channels.bits();
        if writable {
            ifaces |= WRITABLE;
        }
        ifaces
    }

    /// Records that the driver was asked to open the given channels.
    ///
    /// `reply` is what the driver answered: anything but zero is a
    /// failure, passed on with the driver's error number. After a
    /// success the core channel counts as open for writing if it was
    /// among the channels and they were opened for writing.
    pub fn open(&mut self, channels: Channels, writable: bool, reply: OsReply) -> (res: Result<
        (),
        Error,
    >)
        ensures
            reply.code != 0 ==> res == Err::<(), Error>(Error::Os(reply.errno)) && *final(self)
                == *old(self),
            reply.code == 0 ==> res == Ok::<(), Error>(()) && final(self).core_open == (old(
                self,
            ).core_open || (channels.spec_contains(Channels::spec_primary()) && writable)),
    {
        match reply.check_zero() {
            Ok(()) => {
                if channels.contains(Channels::primary()) && writable {
                    self.core_open = true;
                }
                Ok(())
            },
            Err(e) => Err(e),
        }
    }

    /// Tells whether the core channel has to be opened before an
    /// operation that writes to the device.
    pub fn needs_core(&self) -> (needed: bool)
        ensures
            needed == !self.core_open,
    {
        !self.core_open
    }

    /// Records that the given channels are closed, and returns the word
    /// that tells the driver which ones. The core channel no longer
    /// counts as open if it is among them.
    pub fn close(&mut self, channels: Channels) -> (ifaces: u32)
        ensures
            ifaces == channels.spec_bits(),
            final(self).core_open == (old(self).core_open && !channels.spec_contains(
                Channels::spec_primary(),
            )),
    {
        if channels.contains(Channels::primary()) {
            self.core_open = false;
        }
        channels.bits()
    }
}

} // verus!
