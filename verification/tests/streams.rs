use xwiimote::error::{Error, OsReply};
use xwiimote::events::{
    Event, ProtocolViolation, RawAbs, RawEvent, RawKey, TimeVal, Timestamp,
};
use xwiimote::interest::{CtlRequest, EpollEvent, Interest};
use xwiimote::keys::{Key, KeyState};
use xwiimote::monitor::{Address, Monitor, MonitorPoll, Phase};
use xwiimote::reactor::Reactor;
use xwiimote::stream::{EventPoll, EventStream};

fn record(type_: u32) -> RawEvent {
    RawEvent {
        time: TimeVal { tv_sec: 10, tv_usec: 20 },
        type_,
        key: RawKey { code: 4, state: 1 },
        abs: [RawAbs { x: 0, y: 0, z: 0 }; 8],
    }
}

fn would_block() -> OsReply {
    OsReply { code: -11, errno: 11 }
}

fn address(path: &str) -> Address {
    Address::from_raw(path.as_bytes().to_vec())
}

fn stream_interest(fd: i32) -> Interest {
    Interest::new(fd, 0x13)
}

fn removal(fd: i32) -> CtlRequest {
    CtlRequest { op: 2, fd, event: EpollEvent { events: 0x8000_0013, data: fd as u64 } }
}

#[test]
fn new_stream_registers_its_interest() {
    let mut reactor: Reactor<u32> = Reactor::new();
    let stream = EventStream::new(8, &mut reactor, OsReply::success()).unwrap();
    assert_eq!(stream, EventStream { fd: 8, have_interest: true });
    assert_eq!(stream.interest(), stream_interest(8));
    assert!(!stream.is_closed());
    assert!(reactor.is_registered(&stream_interest(8)));
    // A second stream on the same device is a conflict.
    assert_eq!(
        EventStream::new(8, &mut reactor, OsReply::success()),
        Err(Error::AlreadyRegistered)
    );
    // A failure of the kernel is passed on.
    assert_eq!(EventStream::new(9, &mut reactor, OsReply::failure(1)), Err(Error::Os(1)));
    assert!(!reactor.is_registered(&stream_interest(9)));
}

#[test]
fn stream_yields_decoded_events() {
    let mut reactor: Reactor<u32> = Reactor::new();
    let mut stream = EventStream::new(8, &mut reactor, OsReply::success()).unwrap();
    let poll = stream.poll_next(OsReply::success(), &record(0), &mut reactor, 1);
    assert_eq!(
        poll,
        EventPoll::Item(Event::Key(Key::A, KeyState::Down), Timestamp { secs: 10, nanos: 20_000 })
    );
    assert!(!stream.is_closed());
    assert!(!reactor.has_callback(&stream_interest(8)));
}

#[test]
fn stream_suspends_when_driver_would_block() {
    let mut reactor: Reactor<u32> = Reactor::new();
    let mut stream = EventStream::new(8, &mut reactor, OsReply::success()).unwrap();
    let poll = stream.poll_next(would_block(), &record(0), &mut reactor, 41);
    assert_eq!(poll, EventPoll::Pending);
    assert!(reactor.has_callback(&stream_interest(8)));
    // A second poll refreshes the continuation.
    let poll = stream.poll_next(would_block(), &record(0), &mut reactor, 42);
    assert_eq!(poll, EventPoll::Pending);
    let woken = reactor
        .wake_ready(OsReply { code: 1, errno: 0 }, &vec![EpollEvent { events: 0x13, data: 8 }])
        .unwrap();
    assert_eq!(woken, vec![(stream_interest(8), 42)]);
}

#[test]
fn stream_fails_with_the_drivers_error() {
    let mut reactor: Reactor<u32> = Reactor::new();
    let mut stream = EventStream::new(8, &mut reactor, OsReply::success()).unwrap();
    let poll = stream.poll_next(OsReply { code: -19, errno: 19 }, &record(0), &mut reactor, 1);
    assert_eq!(poll, EventPoll::Failed(Error::Os(19)));
    let poll = stream.poll_next(OsReply { code: 1, errno: 5 }, &record(0), &mut reactor, 1);
    assert_eq!(poll, EventPoll::Failed(Error::Os(5)));
    assert!(!stream.is_closed());
    assert!(!reactor.has_callback(&stream_interest(8)));
}

#[test]
fn stream_reports_protocol_violations() {
    let mut reactor: Reactor<u32> = Reactor::new();
    let mut stream = EventStream::new(8, &mut reactor, OsReply::success()).unwrap();
    let poll = stream.poll_next(OsReply::success(), &record(40), &mut reactor, 1);
    assert_eq!(poll, EventPoll::Violation(ProtocolViolation::EventType(40)));
    let mut raw = record(0);
    raw.key = RawKey { code: 4, state: 7 };
    let poll = stream.poll_next(OsReply::success(), &raw, &mut reactor, 1);
    assert_eq!(poll, EventPoll::Violation(ProtocolViolation::KeyState(7)));
}

#[test]
fn stream_ends_for_good_once_device_is_gone() {
    let mut reactor: Reactor<u32> = Reactor::new();
    let mut stream = EventStream::new(8, &mut reactor, OsReply::success()).unwrap();
    stream.poll_next(would_block(), &record(0), &mut reactor, 5);

    let poll = stream.poll_next(OsReply::success(), &record(16), &mut reactor, 6);
    assert_eq!(poll, EventPoll::Gone(removal(8)));
    assert!(stream.is_closed());

    let done = stream.finish_removal(&mut reactor, OsReply::success());
    assert_eq!(done.woken, Some(5));
    assert_eq!(done.error, None);
    assert_eq!(EventStream::end_of_stream(done.error), EventPoll::Finished);
    assert!(!reactor.is_registered(&stream_interest(8)));
    assert!(!reactor.has_callback(&stream_interest(8)));

    // Every later poll ends the stream, whatever the driver says.
    for reply in [OsReply::success(), would_block(), OsReply { code: -5, errno: 5 }] {
        for type_ in [0, 16, 99] {
            let poll = stream.poll_next(reply, &record(type_), &mut reactor, 7);
            assert_eq!(poll, EventPoll::Finished);
        }
    }
    assert!(!reactor.has_callback(&stream_interest(8)));

    // Disposal, even repeated, asks for no second deregistration.
    assert_eq!(stream.remove_interest(), None);
    assert_eq!(stream.remove_interest(), None);
}

#[test]
fn failed_deregistration_is_the_streams_last_error() {
    let mut reactor: Reactor<u32> = Reactor::new();
    let mut stream = EventStream::new(8, &mut reactor, OsReply::success()).unwrap();
    let poll = stream.poll_next(OsReply::success(), &record(16), &mut reactor, 6);
    assert_eq!(poll, EventPoll::Gone(removal(8)));
    let done = stream.finish_removal(&mut reactor, OsReply::failure(2));
    assert_eq!(done.woken, None);
    assert_eq!(done.error, Some(Error::Os(2)));
    assert_eq!(EventStream::end_of_stream(done.error), EventPoll::Failed(Error::Os(2)));
    let poll = stream.poll_next(OsReply::success(), &record(0), &mut reactor, 6);
    assert_eq!(poll, EventPoll::Finished);
}

#[test]
fn disposal_deregisters_once() {
    let mut reactor: Reactor<u32> = Reactor::new();
    let mut stream = EventStream::new(3, &mut reactor, OsReply::success()).unwrap();
    assert_eq!(stream.remove_interest(), Some(removal(3)));
    assert_eq!(stream, EventStream { fd: 3, have_interest: false });
    assert_eq!(stream.remove_interest(), None);
}

#[test]
fn enumeration_yields_each_address_then_ends() {
    let mut reactor: Reactor<u32> = Reactor::new();
    let mut monitor = Monitor::enumerate();
    assert_eq!(monitor.phase(), Phase::Enumerating);
    let poll = monitor.poll_next(Some(address("/sys/A")), &mut reactor, 1);
    assert_eq!(poll, MonitorPoll::Item(address("/sys/A")));
    let poll = monitor.poll_next(Some(address("/sys/B")), &mut reactor, 1);
    assert_eq!(poll, MonitorPoll::Item(address("/sys/B")));
    assert_eq!(monitor.phase(), Phase::Enumerating);
    let poll = monitor.poll_next(None, &mut reactor, 1);
    assert_eq!(poll, MonitorPoll::Finished);
    assert_eq!(monitor.phase(), Phase::Done);
    // Done is terminal, and nothing was ever stored with the reactor.
    let poll = monitor.poll_next(Some(address("/sys/C")), &mut reactor, 1);
    assert_eq!(poll, MonitorPoll::Finished);
    let poll = monitor.poll_next(None, &mut reactor, 1);
    assert_eq!(poll, MonitorPoll::Finished);
    assert_eq!(monitor.remove_interest(&reactor), None);
}

#[test]
fn discovery_suspends_then_yields_hot_plugged_address() {
    let mut reactor: Reactor<u32> = Reactor::new();
    let hotplug = Interest::new(12, 0x13);
    let mut monitor = Monitor::discover(12);
    let poll = monitor.poll_next(Some(address("/sys/A")), &mut reactor, 1);
    assert_eq!(poll, MonitorPoll::Item(address("/sys/A")));

    // The enumeration is complete: the hot-plug interest is registered.
    let poll = monitor.poll_next(None, &mut reactor, 2);
    assert_eq!(
        poll,
        MonitorPoll::Watch(CtlRequest {
            op: 1,
            fd: 12,
            event: EpollEvent { events: 0x8000_0013, data: 12 },
        })
    );
    assert_eq!(monitor.phase(), Phase::Discovering);
    assert_eq!(monitor.watch(&mut reactor, OsReply::success()), Ok(()));
    assert!(reactor.is_registered(&hotplug));

    // Polled again at once, the monitor finds nothing and suspends.
    let poll = monitor.poll_next(None, &mut reactor, 3);
    assert_eq!(poll, MonitorPoll::Pending);
    assert!(reactor.has_callback(&hotplug));

    // A device is plugged in: the task is woken and polls again.
    let woken = reactor
        .wake_ready(OsReply { code: 1, errno: 0 }, &vec![EpollEvent { events: 0x13, data: 12 }])
        .unwrap();
    assert_eq!(woken, vec![(hotplug, 3)]);
    let poll = monitor.poll_next(Some(address("/sys/C")), &mut reactor, 4);
    assert_eq!(poll, MonitorPoll::Item(address("/sys/C")));

    // The stream does not end by itself.
    assert_eq!(monitor.phase(), Phase::Discovering);
    let poll = monitor.poll_next(None, &mut reactor, 5);
    assert_eq!(poll, MonitorPoll::Pending);
    assert_eq!(monitor.phase(), Phase::Discovering);

    // Disposal removes the hot-plug interest.
    let request = monitor.remove_interest(&reactor);
    assert_eq!(
        request,
        Some(CtlRequest { op: 2, fd: 12, event: EpollEvent { events: 0x8000_0013, data: 12 } })
    );
    assert_eq!(reactor.remove_interest(&hotplug, OsReply::success()), Ok(Some(5)));
    assert_eq!(monitor.remove_interest(&reactor), None);
}

#[test]
fn discovery_reports_failed_registration() {
    let mut reactor: Reactor<u32> = Reactor::new();
    let mut monitor = Monitor::discover(12);
    monitor.poll_next(None, &mut reactor, 2);
    assert_eq!(monitor.watch(&mut reactor, OsReply::failure(28)), Err(Error::Os(28)));
    assert!(!reactor.is_registered(&Interest::new(12, 0x13)));
    assert_eq!(monitor.remove_interest(&reactor), None);
    reactor.add_interest(&Interest::new(12, 0x13), OsReply::success()).unwrap();
    assert_eq!(monitor.watch(&mut reactor, OsReply::success()), Err(Error::AlreadyRegistered));
}

#[test]
fn monitor_may_yield_an_address_twice() {
    let mut reactor: Reactor<u32> = Reactor::new();
    let mut monitor = Monitor::enumerate();
    for _ in 0..3 {
        let poll = monitor.poll_next(Some(address("/sys/A")), &mut reactor, 1);
        assert_eq!(poll, MonitorPoll::Item(address("/sys/A")));
    }
}

#[test]
fn address_as_c_string() {
    let addr = address("/sys/bus/hid/devices/0005:057E:0306.0001");
    assert_eq!(addr.as_bytes().as_slice(), "/sys/bus/hid/devices/0005:057E:0306.0001".as_bytes());
    let mut expected = "/sys/bus/hid/devices/0005:057E:0306.0001".as_bytes().to_vec();
    expected.push(0);
    assert_eq!(addr.to_c_string(), Some(expected));
    assert_eq!(Address::from_raw(Vec::new()).to_c_string(), Some(vec![0]));
    assert_eq!(Address::from_raw(vec![b'a', 0, b'b']).to_c_string(), None);
    assert_eq!(Address::from_raw(vec![0]).to_c_string(), None);
    assert_eq!(address("a"), address("a"));
    assert_ne!(address("a"), address("b"));
}
