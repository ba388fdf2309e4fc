use xwiimote::events::{
    Event, IrSource, ProtocolViolation, RawAbs, RawEvent, RawKey, TimeVal, Timestamp,
};
use xwiimote::keys::{
    ClassicControllerKey, DrumsKey, GuitarKey, Key, KeyState, NunchukKey, ProControllerKey,
};

fn abs(x: i32, y: i32, z: i32) -> RawAbs {
    RawAbs { x, y, z }
}

fn record(type_: u32) -> RawEvent {
    RawEvent {
        time: TimeVal { tv_sec: 1_700_000_000, tv_usec: 250_000 },
        type_,
        key: RawKey { code: 0, state: 0 },
        abs: [abs(0, 0, 0); 8],
    }
}

fn key_record(type_: u32, code: u32, state: u32) -> RawEvent {
    let mut raw = record(type_);
    raw.key = RawKey { code, state };
    raw
}

fn abs_record(type_: u32, values: [(i32, i32, i32); 4]) -> RawEvent {
    let mut raw = record(type_);
    for (ix, v) in values.iter().enumerate() {
        raw.abs[ix] = abs(v.0, v.1, v.2);
    }
    raw
}

fn stamp() -> Timestamp {
    Timestamp { secs: 1_700_000_000, nanos: 250_000_000 }
}

#[test]
fn ir_record_keeps_slot_identity() {
    let raw = abs_record(2, [(100, 200, 0), (1023, 1023, 0), (300, 400, 0), (1023, 1023, 0)]);
    let expected = [
        Some(IrSource { x: 100, y: 200 }),
        None,
        Some(IrSource { x: 300, y: 400 }),
        None,
    ];
    assert_eq!(Event::parse(&raw), Ok((Event::Ir(expected), stamp())));
    assert_eq!(IrSource::parse(&raw), expected);

    // The next record moves the two sources; they stay in their slots.
    let next = abs_record(2, [(101, 201, 0), (1023, 1023, 0), (299, 401, 0), (1023, 1023, 0)]);
    let moved = [
        Some(IrSource { x: 101, y: 201 }),
        None,
        Some(IrSource { x: 299, y: 401 }),
        None,
    ];
    assert_eq!(Event::parse(&next), Ok((Event::Ir(moved), stamp())));
}

#[test]
fn ir_slot_is_missing_if_either_coordinate_is() {
    let raw = abs_record(2, [(1023, 5, 0), (5, 1023, 0), (1022, 1022, 0), (0, 0, 1023)]);
    assert_eq!(
        IrSource::parse(&raw),
        [None, None, Some(IrSource { x: 1022, y: 1022 }), Some(IrSource { x: 0, y: 0 })]
    );
}

#[test]
fn auto_repeat_differs_from_held() {
    let held = Event::parse(&key_record(0, 4, 1)).unwrap().0;
    let repeated = Event::parse(&key_record(0, 4, 2)).unwrap().0;
    let released = Event::parse(&key_record(0, 4, 0)).unwrap().0;
    assert_eq!(held, Event::Key(Key::A, KeyState::Down));
    assert_eq!(repeated, Event::Key(Key::A, KeyState::AutoRepeat));
    assert_eq!(released, Event::Key(Key::A, KeyState::Up));
    assert_ne!(held, repeated);
}

#[test]
fn key_states_by_number() {
    assert_eq!(KeyState::from_u32(0), Some(KeyState::Up));
    assert_eq!(KeyState::from_u32(1), Some(KeyState::Down));
    assert_eq!(KeyState::from_u32(2), Some(KeyState::AutoRepeat));
    assert_eq!(KeyState::from_u32(3), None);
    assert_eq!(KeyState::AutoRepeat.code(), 2);
    assert_eq!(KeyState::Up.code(), 0);
    assert_eq!(KeyState::Down.code(), 1);
}

#[test]
fn wii_remote_keys_by_number() {
    let expected = [
        Key::Left,
        Key::Right,
        Key::Up,
        Key::Down,
        Key::A,
        Key::B,
        Key::Plus,
        Key::Minus,
        Key::Home,
        Key::One,
        Key::Two,
    ];
    for (code, key) in expected.iter().enumerate() {
        assert_eq!(Key::from_u32(code as u32), Some(*key));
        assert_eq!(key.code(), code as u32);
    }
    assert_eq!(Key::from_u32(11), None);
    assert_eq!(Key::from_u32(u32::MAX), None);
}

#[test]
fn extension_keys_by_number() {
    assert_eq!(ProControllerKey::from_u32(11), Some(ProControllerKey::X));
    assert_eq!(ProControllerKey::from_u32(16), Some(ProControllerKey::ZR));
    assert_eq!(ProControllerKey::from_u32(17), Some(ProControllerKey::LeftThumb));
    assert_eq!(ProControllerKey::from_u32(18), Some(ProControllerKey::RightThumb));
    assert_eq!(ProControllerKey::from_u32(9), None);
    assert_eq!(ProControllerKey::from_u32(19), None);
    assert_eq!(ClassicControllerKey::from_u32(13), Some(ClassicControllerKey::TL));
    assert_eq!(ClassicControllerKey::from_u32(17), None);
    assert_eq!(NunchukKey::from_u32(19), Some(NunchukKey::C));
    assert_eq!(NunchukKey::from_u32(20), Some(NunchukKey::Z));
    assert_eq!(NunchukKey::from_u32(6), None);
    assert_eq!(DrumsKey::from_u32(6), Some(DrumsKey::Plus));
    assert_eq!(DrumsKey::from_u32(7), Some(DrumsKey::Minus));
    assert_eq!(DrumsKey::from_u32(8), None);
    assert_eq!(GuitarKey::from_u32(8), Some(GuitarKey::StarPower));
    assert_eq!(GuitarKey::from_u32(21), Some(GuitarKey::StrumBar));
    assert_eq!(GuitarKey::from_u32(22), None);
    assert_eq!(GuitarKey::from_u32(23), Some(GuitarKey::HighestFretBar));
    assert_eq!(GuitarKey::from_u32(27), Some(GuitarKey::LowestFretBar));
    assert_eq!(GuitarKey::from_u32(28), None);
    assert_eq!(GuitarKey::LowFretBar.code(), 26);
    assert_eq!(NunchukKey::Z.code(), 20);
}

#[test]
fn key_records_of_each_family() {
    assert_eq!(
        Event::parse(&key_record(5, 18, 1)),
        Ok((Event::ProControllerKey(ProControllerKey::RightThumb, KeyState::Down), stamp()))
    );
    assert_eq!(
        Event::parse(&key_record(8, 12, 0)),
        Ok((Event::ClassicControllerKey(ClassicControllerKey::Y, KeyState::Up), stamp()))
    );
    assert_eq!(
        Event::parse(&key_record(10, 19, 2)),
        Ok((Event::NunchukKey(NunchukKey::C, KeyState::AutoRepeat), stamp()))
    );
    assert_eq!(
        Event::parse(&key_record(12, 7, 1)),
        Ok((Event::DrumsKey(DrumsKey::Minus, KeyState::Down), stamp()))
    );
    assert_eq!(
        Event::parse(&key_record(14, 25, 1)),
        Ok((Event::GuitarKey(GuitarKey::MidFretBar, KeyState::Down), stamp()))
    );
}

#[test]
fn movement_records() {
    let values = [(1, 2, 3), (4, 5, 6), (7, 8, 9), (10, 11, 12)];
    assert_eq!(
        Event::parse(&abs_record(1, values)),
        Ok((Event::Accelerometer { x: 1, y: 2, z: 3 }, stamp()))
    );
    assert_eq!(
        Event::parse(&abs_record(3, values)),
        Ok((Event::BalanceBoard([1, 4, 7, 10]), stamp()))
    );
    assert_eq!(
        Event::parse(&abs_record(4, values)),
        Ok((Event::MotionPlus { x: 1, y: 2, z: 3 }, stamp()))
    );
    assert_eq!(
        Event::parse(&abs_record(6, values)),
        Ok((Event::ProControllerMove { left_x: 1, left_y: 2, right_x: 4, right_y: 5 }, stamp()))
    );
    assert_eq!(Event::parse(&abs_record(7, values)), Ok((Event::Other, stamp())));
    assert_eq!(
        Event::parse(&abs_record(9, values)),
        Ok((
            Event::ClassicControllerMove {
                left_x: 1,
                left_y: 2,
                right_x: 4,
                right_y: 5,
                left_trigger: 7,
                right_trigger: 8,
            },
            stamp()
        ))
    );
    assert_eq!(
        Event::parse(&abs_record(11, values)),
        Ok((Event::NunchukMove { x: 1, y: 2, x_acceleration: 4, y_acceleration: 5 }, stamp()))
    );
}

#[test]
fn classic_triggers_keep_the_low_byte() {
    let values = [(0, 0, 0), (0, 0, 0), (63, 256 + 5, 0), (0, 0, 0)];
    let (event, _) = Event::parse(&abs_record(9, values)).unwrap();
    assert_eq!(
        event,
        Event::ClassicControllerMove {
            left_x: 0,
            left_y: 0,
            right_x: 0,
            right_y: 0,
            left_trigger: 63,
            right_trigger: 5,
        }
    );
    let values = [(0, 0, 0), (0, 0, 0), (-1, 0, 0), (0, 0, 0)];
    let (event, _) = Event::parse(&abs_record(9, values)).unwrap();
    assert_eq!(
        event,
        Event::ClassicControllerMove {
            left_x: 0,
            left_y: 0,
            right_x: 0,
            right_y: 0,
            left_trigger: 255,
            right_trigger: 0,
        }
    );
}

#[test]
fn unknown_records_are_violations() {
    assert_eq!(Event::parse(&record(13)), Err(ProtocolViolation::EventType(13)));
    assert_eq!(Event::parse(&record(15)), Err(ProtocolViolation::EventType(15)));
    assert_eq!(Event::parse(&record(16)), Err(ProtocolViolation::EventType(16)));
    assert_eq!(Event::parse(&record(17)), Err(ProtocolViolation::EventType(17)));
    assert_eq!(Event::parse(&record(u32::MAX)), Err(ProtocolViolation::EventType(u32::MAX)));
    assert_eq!(Event::parse(&key_record(0, 11, 1)), Err(ProtocolViolation::KeyCode(11)));
    assert_eq!(Event::parse(&key_record(10, 4, 1)), Err(ProtocolViolation::KeyCode(4)));
    assert_eq!(Event::parse(&key_record(0, 4, 3)), Err(ProtocolViolation::KeyState(3)));
    // An unknown key is reported before an unknown state.
    assert_eq!(Event::parse(&key_record(0, 99, 3)), Err(ProtocolViolation::KeyCode(99)));
    assert_eq!(Event::parse_payload(&key_record(14, 22, 0)), Err(ProtocolViolation::KeyCode(22)));
}

#[test]
fn parse_key_reports_code_then_state() {
    let data = RawKey { code: 40, state: 9 };
    assert_eq!(Event::parse_key::<Key>(None, &data), Err(ProtocolViolation::KeyCode(40)));
    assert_eq!(Event::parse_key(Some(Key::A), &data), Err(ProtocolViolation::KeyState(9)));
    let data = RawKey { code: 4, state: 2 };
    assert_eq!(Event::parse_key(Some(Key::A), &data), Ok((Key::A, KeyState::AutoRepeat)));
}

#[test]
fn clock_values() {
    let at = |tv_sec, tv_usec| Timestamp::from_timeval(&TimeVal { tv_sec, tv_usec });
    assert_eq!(at(0, 0), Some(Timestamp { secs: 0, nanos: 0 }));
    assert_eq!(at(5, 250_000), Some(Timestamp { secs: 5, nanos: 250_000_000 }));
    assert_eq!(at(5, 999_999), Some(Timestamp { secs: 5, nanos: 999_999_000 }));
    assert_eq!(at(5, 1_500_000), Some(Timestamp { secs: 6, nanos: 500_000_000 }));
    assert_eq!(at(5, 4_294_967), Some(Timestamp { secs: 9, nanos: 294_967_000 }));
    assert_eq!(
        at(i64::MAX, 4_294_967),
        Some(Timestamp { secs: i64::MAX as u64 + 4, nanos: 294_967_000 })
    );
    assert_eq!(at(5, 4_294_968), None);
    assert_eq!(at(5, -1), None);
    assert_eq!(at(-1, 0), None);
}

#[test]
fn invalid_clock_is_reported_first() {
    let mut raw = record(99);
    raw.time = TimeVal { tv_sec: -1, tv_usec: 0 };
    assert_eq!(Event::parse(&raw), Err(ProtocolViolation::Clock));
    assert_eq!(Event::parse_payload(&raw), Err(ProtocolViolation::EventType(99)));
}
