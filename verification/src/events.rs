//! The events of a device: the raw record that the driver fills in, and
//! its decoding into a typed event with the time at which the kernel
//! generated it.

use crate::keys::{
    ClassicControllerKey, DrumsKey, GuitarKey, Key, KeyState, NunchukKey, ProControllerKey,
};
use vstd::prelude::*;

verus! {

/// The type tag of a key event of the Wii Remote.
pub const XWII_EVENT_KEY: u32 = 0;

/// The type tag of an accelerometer event.
pub const XWII_EVENT_ACCEL: u32 = 1;

/// The type tag of an IR camera event.
pub const XWII_EVENT_IR: u32 = 2;

/// The type tag of a Balance Board event.
pub const XWII_EVENT_BALANCE_BOARD: u32 = 3;

/// The type tag of a Motion Plus event.
pub const XWII_EVENT_MOTION_PLUS: u32 = 4;

/// The type tag of a key event of the Wii U Pro controller.
pub const XWII_EVENT_PRO_CONTROLLER_KEY: u32 = 5;

/// The type tag of a movement event of the Wii U Pro controller.
pub const XWII_EVENT_PRO_CONTROLLER_MOVE: u32 = 6;

/// The type tag of a hot-plug event.
pub const XWII_EVENT_WATCH: u32 = 7;

/// The type tag of a key event of the Classic controller.
pub const XWII_EVENT_CLASSIC_CONTROLLER_KEY: u32 = 8;

/// The type tag of a movement event of the Classic controller.
pub const XWII_EVENT_CLASSIC_CONTROLLER_MOVE: u32 = 9;

/// The type tag of a key event of the Nunchuk.
pub const XWII_EVENT_NUNCHUK_KEY: u32 = 10;

/// The type tag of a movement event of the Nunchuk.
pub const XWII_EVENT_NUNCHUK_MOVE: u32 = 11;

/// The type tag of a key event of the drums controller.
pub const XWII_EVENT_DRUMS_KEY: u32 = 12;

/// The type tag of a movement event of the drums controller.
pub const XWII_EVENT_DRUMS_MOVE: u32 = 13;

/// The type tag of a key event of the guitar controller.
pub const XWII_EVENT_GUITAR_KEY: u32 = 14;

/// The type tag of a movement event of the guitar controller.
pub const XWII_EVENT_GUITAR_MOVE: u32 = 15;

/// The type tag of the record that reports the removal of the device.
pub const XWII_EVENT_GONE: u32 = 16;

/// The number of IR sources that the camera can track.
pub const MAX_IR_SOURCES: usize = 4;

/// The coordinate that marks an IR slot as empty.
pub const MISSING_SOURCE: i32 = 1023;

/// The largest microsecond count whose nanoseconds fit in 32 bits.
pub const MAX_MICROS: i64 = 4_294_967;

/// The kernel clock value embedded in a raw record.
#[derive(Copy, Clone, Debug, PartialEq, Eq, Structural)]
pub struct TimeVal {
    /// Whole seconds since the epoch.
    pub tv_sec: i64,
    /// Microseconds on top of the seconds.
    pub tv_usec: i64,
}

/// The key payload of a raw record.
#[derive(Copy, Clone, Debug, PartialEq, Eq, Structural)]
pub struct RawKey {
    /// The number of the key.
    pub code: u32,
    /// The number of the key's state.
    pub state: u32,
}

/// One triple of absolute values in the payload of a raw record.
#[derive(Copy, Clone, Debug, PartialEq, Eq, Structural)]
pub struct RawAbs {
    /// The first value.
    pub x: i32,
    /// The second value.
    pub y: i32,
    /// The third value.
    pub z: i32,
}

/// A record as the driver fills it in. Which payload is meaningful
/// depends on the type tag.
#[derive(Copy, Clone, Debug, PartialEq, Eq)]
pub struct RawEvent {
    /// The time at which the kernel generated the event.
    pub time: TimeVal,
    /// The type tag.
    pub type_: u32,
    /// The key payload.
    pub key: RawKey,
    /// The payload of absolute values.
    pub abs: [RawAbs; 8],
}

/// A point in time, counted from the epoch.
#[derive(Copy, Clone, Debug, PartialEq, Eq, Structural)]
pub struct Timestamp {
    /// Whole seconds since the epoch.
    pub secs: u64,
    /// Nanoseconds on top of the seconds, below one second.
    pub nanos: u32,
}

impl Timestamp {
    /// The nanoseconds since the epoch.
    pub open spec fn as_nanos(self) -> int {
        self.secs * 1_000_000_000 + self.nanos
    }

    /// The point in time of a kernel clock value. There is none for a
    /// clock value before the epoch, or with a microsecond count that is
    /// negative or above [`MAX_MICROS`].
    pub open spec fn spec_from_timeval(time: TimeVal) -> Option<Timestamp> {
        if time.tv_sec >= 0 && 0 <= time.tv_usec <= MAX_MICROS {
            Some(
                Timestamp {
                    secs: (time.tv_sec + time.tv_usec / 1_000_000) as u64,
                    nanos: ((time.tv_usec % 1_000_000) * 1000) as u32,
                },
            )
        } else {
            None
        }
    }

    /// Converts a kernel clock value into a point in time.
    pub fn from_timeval(time: &TimeVal) -> (stamp: Option<Timestamp>)
        ensures
            stamp == Self::spec_from_timeval(*time),
            stamp matches Some(t) ==> t.nanos < 1_000_000_000 && t.as_nanos() == time.tv_sec
                * 1_000_000_000 + time.tv_usec * 1000,
            stamp is Some <==> time.tv_sec >= 0 && 0 <= time.tv_usec <= MAX_MICROS,
    {
        if time.tv_sec < 0 || time.tv_usec < 0 || time.tv_usec > MAX_MICROS {
            return None;
        }
        let carry: u64 = (time.tv_usec / 1_000_000) as u64;
        let micros: u32 = (time.tv_usec % 1_000_000) as u32;
        Some(Timestamp { secs: time.tv_sec as u64 + carry, nanos: micros * 1000 })
    }
}

/// An IR source detected by the IR camera, as reported in [`Event::Ir`].
#[derive(Copy, Clone, Debug, PartialEq, Eq, Structural)]
pub struct IrSource {
    /// The x-axis position.
    pub x: i32,
    /// The y-axis position.
    pub y: i32,
}

impl IrSource {
    /// The source in one slot of an IR record: none if either coordinate
    /// is the marker of an empty slot.
    pub open spec fn spec_slot(pos: RawAbs) -> Option<IrSource> {
        if pos.x != MISSING_SOURCE && pos.y != MISSING_SOURCE {
            Some(IrSource { x: pos.x, y: pos.y })
        } else {
            None
        }
    }

    fn slot(pos: &RawAbs) -> (source: Option<IrSource>)
        ensures
            source == Self::spec_slot(*pos),
    {
        if pos.x != MISSING_SOURCE && pos.y != MISSING_SOURCE {
            Some(IrSource { x: pos.x, y: pos.y })
        } else {
            None
        }
    }

    /// Parses the IR source data from the given record. Each source
    /// keeps the index of its slot.
    pub fn parse(raw: &RawEvent) -> (sources: [Option<IrSource>; 4])
        ensures
            forall|ix: int|
                0 <= ix < 4 ==> #[trigger] sources[ix] == Self::spec_slot(raw.abs[ix]),
    {
        [
            Self::slot(&raw.abs[0]),
            Self::slot(&raw.abs[1]),
            Self::slot(&raw.abs[2]),
            Self::slot(&raw.abs[3]),
        ]
    }
}

/// An event received from an open channel to a device.
#[non_exhaustive]
#[derive(Copy, Clone, Debug, PartialEq, Eq)]
pub enum Event {
    /// The state of a Wii Remote controller key changed.
    Key(Key, KeyState),
    /// Provides the accelerometer data.
    Accelerometer {
        /// The x-axis acceleration.
        x: i32,
        /// The y-axis acceleration.
        y: i32,
        /// The z-axis acceleration.
        z: i32,
    },
    /// Provides the IR camera data.
    ///
    /// The camera can track up to four IR sources. The index of each
    /// source within the array is maintained across events.
    Ir([Option<IrSource>; 4]),
    /// Provides Balance Board weight data. Four sensors report data for
    /// each of the edges of the board.
    BalanceBoard([i32; 4]),
    /// Provides the Motion Plus extension gyroscope data.
    MotionPlus {
        /// The x-axis rotational speed.
        x: i32,
        /// The y-axis rotational speed.
        y: i32,
        /// The z-axis rotational speed.
        z: i32,
    },
    /// The state of a Wii U Pro controller key changed.
    ProControllerKey(ProControllerKey, KeyState),
    /// Reports the movement of an analog stick from a Wii U Pro
    /// controller.
    ProControllerMove {
        /// The left analog stick absolute x-axis position.
        left_x: i32,
        /// The left analog stick absolute y-axis position.
        left_y: i32,
        /// The right analog stick absolute x-axis position.
        right_x: i32,
        /// The right analog stick absolute y-axis position.
        right_y: i32,
    },
    /// An extension was plugged or unplugged, or some other static data
    /// that cannot be monitored separately changed.
    ///
    /// No payload is provided, hence the application should check what
    /// changed by examining the device.
    Other,
    /// The state of a Classic controller key changed.
    ClassicControllerKey(ClassicControllerKey, KeyState),
    /// Reports the movement of an analog stick from a Classic controller.
    ClassicControllerMove {
        /// The left analog stick x-axis absolute position.
        left_x: i32,
        /// The left analog stick y-axis absolute position.
        left_y: i32,
        /// The right analog stick x-axis absolute position.
        right_x: i32,
        /// The right analog stick y-axis absolute position.
        right_y: i32,
        /// The TL trigger absolute position, ranging from 0 to 63.
        left_trigger: u8,
        /// The TR trigger absolute position, ranging from 0 to 63.
        right_trigger: u8,
    },
    /// The state of a Nunchuk key changed.
    NunchukKey(NunchukKey, KeyState),
    /// Reports the movement of an analog stick from a Nunchuk.
    NunchukMove {
        /// The x-axis absolute position.
        x: i32,
        /// The y-axis absolute position.
        y: i32,
        /// The x-axis acceleration.
        x_acceleration: i32,
        /// The y-axis acceleration.
        y_acceleration: i32,
    },
    /// The state of a drums controller key changed.
    DrumsKey(DrumsKey, KeyState),
    /// Reports the movement of an analog stick from a drums controller.
    DrumsMove {},
    /// The state of a guitar controller key changed.
    GuitarKey(GuitarKey, KeyState),
    /// Reports the movement of an analog stick, the whammy bar, or the
    /// fret bar from a guitar controller.
    GuitarMove {
        /// The x-axis analog stick position.
        x: i32,
        /// The y-axis analog stick position.
        y: i32,
        /// The whammy bar position.
        whammy_bar: i32,
        /// The fret bar absolute position.
        fret_bar: i32,
    },
}

/// Why a raw record cannot be decoded. Each of these shows that the
/// driver speaks another protocol than this library: the stream that met
/// it must not go on.
#[derive(Copy, Clone, Debug, PartialEq, Eq, Structural)]
pub enum ProtocolViolation {
    /// The clock value of the record is no point in time.
    Clock,
    /// The type tag stands for no event that can be decoded.
    EventType(u32),
    /// The key code stands for no key of the controller family.
    KeyCode(u32),
    /// The number stands for no key state.
    KeyState(u32),
}

impl Event {
    /// The key payload of a raw record, given the key that the code was
    /// read as: an unknown key code is reported before an unknown state.
    pub open spec fn spec_parse_key<K>(key: Option<K>, data: RawKey) -> Result<
        (K, KeyState),
        ProtocolViolation,
    > {
        match key {
            None => Err(ProtocolViolation::KeyCode(data.code)),
            Some(k) => match KeyState::spec_from_u32(data.state) {
                None => Err(ProtocolViolation::KeyState(data.state)),
                Some(s) => Ok((k, s)),
            },
        }
    }

    /// The event that a raw record holds, selected by its type tag.
    pub open spec fn spec_payload(raw: RawEvent) -> Result<Event, ProtocolViolation> {
        let abs = raw.abs;
        if raw.type_ == XWII_EVENT_KEY {
            match Self::spec_parse_key(Key::spec_from_u32(raw.key.code), raw.key) {
                Ok(p) => Ok(Event::Key(p.0, p.1)),
                Err(v) => Err(v),
            }
        } else if raw.type_ == XWII_EVENT_ACCEL {
            Ok(Event::Accelerometer { x: abs[0].x, y: abs[0].y, z: abs[0].z })
        } else if raw.type_ == XWII_EVENT_IR {
            Ok(
                Event::Ir(
                    [
                        IrSource::spec_slot(abs[0]),
                        IrSource::spec_slot(abs[1]),
                        IrSource::spec_slot(abs[2]),
                        IrSource::spec_slot(abs[3]),
                    ],
                ),
            )
        } else if raw.type_ == XWII_EVENT_BALANCE_BOARD {
            Ok(Event::BalanceBoard([abs[0].x, abs[1].x, abs[2].x, abs[3].x]))
        } else if raw.type_ == XWII_EVENT_MOTION_PLUS {
            Ok(Event::MotionPlus { x: abs[0].x, y: abs[0].y, z: abs[0].z })
        } else if raw.type_ == XWII_EVENT_PRO_CONTROLLER_KEY {
            match Self::spec_parse_key(ProControllerKey::spec_from_u32(raw.key.code), raw.key) {
                Ok(p) => Ok(Event::ProControllerKey(p.0, p.1)),
                Err(v) => Err(v),
            }
        } else if raw.type_ == XWII_EVENT_PRO_CONTROLLER_MOVE {
            Ok(
                Event::ProControllerMove {
                    left_x: abs[0].x,
                    left_y: abs[0].y,
                    right_x: abs[1].x,
                    right_y: abs[1].y,
                },
            )
        } else if raw.type_ == XWII_EVENT_WATCH {
            Ok(Event::Other)
        } else if raw.type_ == XWII_EVENT_CLASSIC_CONTROLLER_KEY {
            match Self::spec_parse_key(ClassicControllerKey::spec_from_u32(raw.key.code), raw.key) {
                Ok(p) => Ok(Event::ClassicControllerKey(p.0, p.1)),
                Err(v) => Err(v),
            }
        } else if raw.type_ == XWII_EVENT_CLASSIC_CONTROLLER_MOVE {
            Ok(
                Event::ClassicControllerMove {
                    left_x: abs[0].x,
                    left_y: abs[0].y,
                    right_x: abs[1].x,
                    right_y: abs[1].y,
                    left_trigger: abs[2].x as u8,
                    right_trigger: abs[2].y as u8,
                },
            )
        } else if raw.type_ == XWII_EVENT_NUNCHUK_KEY {
            match Self::spec_parse_key(NunchukKey::spec_from_u32(raw.key.code), raw.key) {
                Ok(p) => Ok(Event::NunchukKey(p.0, p.1)),
                Err(v) => Err(v),
            }
        } else if raw.type_ == XWII_EVENT_NUNCHUK_MOVE {
            Ok(
                Event::NunchukMove {
                    x: abs[0].x,
                    y: abs[0].y,
                    x_acceleration: abs[1].x,
                    y_acceleration: abs[1].y,
                },
            )
        } else if raw.type_ == XWII_EVENT_DRUMS_KEY {
            match Self::spec_parse_key(DrumsKey::spec_from_u32(raw.key.code), raw.key) {
                Ok(p) => Ok(Event::DrumsKey(p.0, p.1)),
                Err(v) => Err(v),
            }
        } else if raw.type_ == XWII_EVENT_GUITAR_KEY {
            match Self::spec_parse_key(GuitarKey::spec_from_u32(raw.key.code), raw.key) {
                Ok(p) => Ok(Event::GuitarKey(p.0, p.1)),
                Err(v) => Err(v),
            }
        } else {
            Err(ProtocolViolation::EventType(raw.type_))
        }
    }

    /// The decoding of a raw record: the event and the time at which the
    /// kernel generated it. The clock value is read first, then the
    /// payload.
    pub open spec fn spec_parse(raw: RawEvent) -> Result<(Event, Timestamp), ProtocolViolation> {
        match Timestamp::spec_from_timeval(raw.time) {
            None => Err(ProtocolViolation::Clock),
            Some(time) => match Self::spec_payload(raw) {
                Ok(event) => Ok((event, time)),
                Err(v) => Err(v),
            },
        }
    }

    /// Parses the key payload of a raw record, given the key that the
    /// code was read as.
    pub fn parse_key<K>(key: Option<K>, data: &RawKey) -> (res: Result<
        (K, KeyState),
        ProtocolViolation,
    >)
        ensures
            res == Self::spec_parse_key(key, *data),
    {
        match key {
            None => Err(ProtocolViolation::KeyCode(data.code)),
            Some(k) => match KeyState::from_u32(data.state) {
                None => Err(ProtocolViolation::KeyState(data.state)),
                Some(s) => Ok((k, s)),
            },
        }
    }

    /// Parses the payload of a raw record into an event.
    ///
    /// The records of drum and guitar movements and the record of a
    /// device's removal are not decoded: their type tags are refused like
    /// an unknown one.
    pub fn parse_payload(raw: &RawEvent) -> (res: Result<Event, ProtocolViolation>)
        ensures
            res == Self::spec_payload(*raw),
    {
        let abs = &raw.abs;
        match raw.type_ {
            XWII_EVENT_KEY => {
                let (key, state) = Self::parse_key(Key::from_u32(raw.key.code), &raw.key)?;
                Ok(Event::Key(key, state))
            },
            XWII_EVENT_ACCEL => Ok(Event::Accelerometer { x: abs[0].x, y: abs[0].y, z: abs[0].z }),
            XWII_EVENT_IR => {
                let sources = IrSource::parse(raw);
                assert(sources =~= [
                    IrSource::spec_slot(raw.abs[0]),
                    IrSource::spec_slot(raw.abs[1]),
                    IrSource::spec_slot(raw.abs[2]),
                    IrSource::spec_slot(raw.abs[3]),
                ]);
                Ok(Event::Ir(sources))
            },
            XWII_EVENT_BALANCE_BOARD => {
                let weights = [abs[0].x, abs[1].x, abs[2].x, abs[3].x];
                assert(weights =~= [raw.abs[0].x, raw.abs[1].x, raw.abs[2].x, raw.abs[3].x]);
                Ok(Event::BalanceBoard(weights))
            },
            XWII_EVENT_MOTION_PLUS => Ok(
                Event::MotionPlus { x: abs[0].x, y: abs[0].y, z: abs[0].z },
            ),
            XWII_EVENT_PRO_CONTROLLER_KEY => {
                let (key, state) = Self::parse_key(
                    ProControllerKey::from_u32(raw.key.code),
                    &raw.key,
                )?;
                Ok(Event::ProControllerKey(key, state))
            },
            XWII_EVENT_PRO_CONTROLLER_MOVE => Ok(
                Event::ProControllerMove {
                    left_x: abs[0].x,
                    left_y: abs[0].y,
                    right_x: abs[1].x,
                    right_y: abs[1].y,
                },
            ),
            XWII_EVENT_WATCH => Ok(Event::Other),
            XWII_EVENT_CLASSIC_CONTROLLER_KEY => {
                let (key, state) = Self::parse_key(
                    ClassicControllerKey::from_u32(raw.key.code),
                    &raw.key,
                )?;
                Ok(Event::ClassicControllerKey(key, state))
            },
            XWII_EVENT_CLASSIC_CONTROLLER_MOVE => {
                let left_trigger: u8 = #[verifier::truncate] (abs[2].x as u8);
                let right_trigger: u8 = #[verifier::truncate] (abs[2].y as u8);
                Ok(
                    Event::ClassicControllerMove {
                        left_x: abs[0].x,
                        left_y: abs[0].y,
                        right_x: abs[1].x,
                        right_y: abs[1].y,
                        left_trigger,
                        right_trigger,
                    },
                )
            },
            XWII_EVENT_NUNCHUK_KEY => {
                let (key, state) = Self::parse_key(NunchukKey::from_u32(raw.key.code), &raw.key)?;
                Ok(Event::NunchukKey(key, state))
            },
            XWII_EVENT_NUNCHUK_MOVE => Ok(
                Event::NunchukMove {
                    x: abs[0].x,
                    y: abs[0].y,
                    x_acceleration: abs[1].x,
                    y_acceleration: abs[1].y,
                },
            ),
            XWII_EVENT_DRUMS_KEY => {
                let (key, state) = Self::parse_key(DrumsKey::from_u32(raw.key.code), &raw.key)?;
                Ok(Event::DrumsKey(key, state))
            },
            XWII_EVENT_GUITAR_KEY => {
                let (key, state) = Self::parse_key(GuitarKey::from_u32(raw.key.code), &raw.key)?;
                Ok(Event::GuitarKey(key, state))
            },
            type_id => Err(ProtocolViolation::EventType(type_id)),
        }
    }

    /// Parses an event.
    ///
    /// Returns the parsed event and the time at which the kernel
    /// generated the event, or the reason why the record cannot be
    /// decoded.
    pub fn parse(raw: &RawEvent) -> (res: Result<(Event, Timestamp), ProtocolViolation>)
        ensures
            res == Self::spec_parse(*raw),
    {
        match Timestamp::from_timeval(&raw.time) {
            None => Err(ProtocolViolation::Clock),
            Some(time) => match Self::parse_payload(raw) {
                Ok(event) => Ok((event, time)),
                Err(v) => Err(v),
            },
        }
    }
}

/// The type tag is one of a key event, of whatever controller family.
pub open spec fn is_key_event(type_: u32) -> bool {
    ||| type_ == XWII_EVENT_KEY
    ||| type_ == XWII_EVENT_PRO_CONTROLLER_KEY
    ||| type_ == XWII_EVENT_CLASSIC_CONTROLLER_KEY
    ||| type_ == XWII_EVENT_NUNCHUK_KEY
    ||| type_ == XWII_EVENT_DRUMS_KEY
    ||| type_ == XWII_EVENT_GUITAR_KEY
}

/// An IR record decodes to four slots, each of which holds a source
/// exactly if neither of its coordinates is the marker of an empty slot;
/// a source stays in the slot in which the record reports it.
pub proof fn lemma_ir_keeps_slots(raw: RawEvent, ix: int)
    requires
        raw.type_ == XWII_EVENT_IR,
        0 <= ix < 4,
    ensures
        Event::spec_payload(raw) matches Ok(Event::Ir(sources)) && sources[ix]
            == IrSource::spec_slot(raw.abs[ix]),
        IrSource::spec_slot(raw.abs[ix]) is Some <==> raw.abs[ix].x != MISSING_SOURCE
            && raw.abs[ix].y != MISSING_SOURCE,
        IrSource::spec_slot(raw.abs[ix]) matches Some(source) ==> source.x == raw.abs[ix].x
            && source.y == raw.abs[ix].y,
{
}

/// Two key records that differ only in that one reports the key as held
/// and the other as held again decode to different events: a repetition
/// is never taken for a fresh press.
pub proof fn lemma_repeat_differs_from_held(held: RawEvent, repeated: RawEvent)
    requires
        is_key_event(held.type_),
        repeated.type_ == held.type_,
        repeated.key.code == held.key.code,
        KeyState::spec_from_u32(held.key.state) == Some(KeyState::Down),
        KeyState::spec_from_u32(repeated.key.state) == Some(KeyState::AutoRepeat),
    ensures
        held.key.state != repeated.key.state,
        Event::spec_payload(held) is Ok <==> Event::spec_payload(repeated) is Ok,
        Event::spec_payload(held) is Ok ==> Event::spec_payload(held) != Event::spec_payload(
            repeated,
        ),
{
}

/// A record is decoded exactly if its clock value is a point in time,
/// its type tag is one that is decoded, and, for a key event, its key
/// code and key state are known.
pub proof fn lemma_parse_succeeds(raw: RawEvent)
    ensures
        Event::spec_parse(raw) is Ok <==> Timestamp::spec_from_timeval(raw.time) is Some
            && Event::spec_payload(raw) is Ok,
        Event::spec_parse(raw) matches Ok(item) ==> Ok::<Event, ProtocolViolation>(item.0)
            == Event::spec_payload(raw) && Some(item.1) == Timestamp::spec_from_timeval(raw.time),
        Event::spec_payload(raw) is Ok ==> raw.type_ < XWII_EVENT_GONE && raw.type_
            != XWII_EVENT_DRUMS_MOVE && raw.type_ != XWII_EVENT_GUITAR_MOVE,
        !is_key_event(raw.type_) && raw.type_ < XWII_EVENT_GONE && raw.type_
            != XWII_EVENT_DRUMS_MOVE && raw.type_ != XWII_EVENT_GUITAR_MOVE
            ==> Event::spec_payload(raw) is Ok,
{
}

} // verus!
