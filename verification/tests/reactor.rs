use xwiimote::error::{Error, OsReply};
use xwiimote::interest::{
    CtlRequest, EpollEvent, Interest, EPOLLET, EPOLLHUP, EPOLLIN, EPOLLPRI, EPOLL_CTL_ADD,
    EPOLL_CTL_DEL,
};
use xwiimote::reactor::Reactor;

fn ready(fd: u64, events: u32) -> EpollEvent {
    EpollEvent { events, data: fd }
}

#[test]
fn double_interest_fails() -> Result<(), Error> {
    let mut reactor: Reactor<u32> = Reactor::new();
    let interest = Interest::new(0, libc::EPOLLIN);
    reactor.add_interest(&interest, OsReply::success())?;

    assert!(reactor.add_interest(&interest, OsReply::success()).is_err());
    Ok(())
}

#[test]
fn double_interest_is_a_conflict_until_removed() {
    let mut reactor: Reactor<u32> = Reactor::new();
    let interest = Interest::new(7, EPOLLIN | EPOLLHUP);
    assert_eq!(reactor.add_interest(&interest, OsReply::success()), Ok(()));
    assert!(reactor.is_registered(&interest));
    assert_eq!(
        reactor.add_interest(&interest, OsReply::success()),
        Err(Error::AlreadyRegistered)
    );
    // The conflict does not depend on what the kernel said.
    assert_eq!(
        reactor.add_interest(&interest, OsReply::failure(17)),
        Err(Error::AlreadyRegistered)
    );
    assert_eq!(reactor.remove_interest(&interest, OsReply::success()), Ok(None));
    assert!(!reactor.is_registered(&interest));
    assert_eq!(reactor.add_interest(&interest, OsReply::success()), Ok(()));
    assert!(reactor.is_registered(&interest));
}

#[test]
fn same_descriptor_with_another_mask_is_another_interest() {
    let mut reactor: Reactor<u32> = Reactor::new();
    assert_eq!(reactor.add_interest(&Interest::new(3, EPOLLIN), OsReply::success()), Ok(()));
    assert!(!reactor.is_registered(&Interest::new(3, EPOLLPRI)));
    assert!(!reactor.is_registered(&Interest::new(4, EPOLLIN)));
    assert_eq!(reactor.add_interest(&Interest::new(3, EPOLLPRI), OsReply::success()), Ok(()));
    assert_eq!(reactor.add_interest(&Interest::new(-1, -1), OsReply::success()), Ok(()));
    assert!(reactor.is_registered(&Interest::new(-1, -1)));
    assert!(!reactor.is_registered(&Interest::new(-1, 0)));
    assert!(!reactor.is_registered(&Interest::new(0, -1)));
}

#[test]
fn failed_registration_registers_nothing() {
    let mut reactor: Reactor<u32> = Reactor::new();
    let interest = Interest::new(5, EPOLLIN);
    assert_eq!(reactor.add_interest(&interest, OsReply::failure(9)), Err(Error::Os(9)));
    assert!(!reactor.is_registered(&interest));
    assert_eq!(reactor.add_interest(&interest, OsReply::success()), Ok(()));
}

#[test]
fn removal_hands_over_the_pending_continuation() {
    let mut reactor: Reactor<&str> = Reactor::new();
    let interest = Interest::new(4, EPOLLIN);
    reactor.add_interest(&interest, OsReply::success()).unwrap();
    reactor.set_callback(interest, "waiting");
    assert!(reactor.has_callback(&interest));
    assert_eq!(reactor.remove_interest(&interest, OsReply::success()), Ok(Some("waiting")));
    assert!(!reactor.has_callback(&interest));
    assert!(!reactor.is_registered(&interest));
}

#[test]
fn failed_removal_changes_nothing() {
    let mut reactor: Reactor<&str> = Reactor::new();
    let interest = Interest::new(4, EPOLLIN);
    reactor.add_interest(&interest, OsReply::success()).unwrap();
    reactor.set_callback(interest, "waiting");
    assert_eq!(reactor.remove_interest(&interest, OsReply::failure(2)), Err(Error::Os(2)));
    assert!(reactor.has_callback(&interest));
    assert!(reactor.is_registered(&interest));
}

#[test]
fn last_callback_wins() {
    let mut reactor: Reactor<u32> = Reactor::new();
    let interest = Interest::new(4, EPOLLIN);
    reactor.set_callback(interest, 1);
    reactor.set_callback(interest, 2);
    let woken = reactor.wake_ready(OsReply { code: 1, errno: 0 }, &vec![ready(4, 1)]);
    assert_eq!(woken, Ok(vec![(interest, 2)]));
}

#[test]
fn readiness_wakes_task() {
    let mut reactor: Reactor<&str> = Reactor::new();
    let interest = Interest::new(6, EPOLLIN);
    reactor.add_interest(&interest, OsReply::success()).unwrap();
    reactor.set_callback(interest, "reader");

    let woken = reactor
        .wake_ready(OsReply { code: 1, errno: 0 }, &vec![ready(6, EPOLLIN as u32)])
        .unwrap();
    assert_eq!(woken, vec![(interest, "reader")]);
    // The continuation left the registry; the interest stays registered.
    assert!(!reactor.has_callback(&interest));
    assert!(reactor.is_registered(&interest));

    // A second readiness event finds nobody waiting.
    let again = reactor
        .wake_ready(OsReply { code: 1, errno: 0 }, &vec![ready(6, EPOLLIN as u32)])
        .unwrap();
    assert!(again.is_empty());
}

#[test]
fn continuation_is_woken_once_per_batch() {
    let mut reactor: Reactor<u32> = Reactor::new();
    let a = Interest::new(1, EPOLLIN);
    let b = Interest::new(2, EPOLLIN);
    let c = Interest::new(3, EPOLLIN);
    reactor.set_callback(a, 10);
    reactor.set_callback(b, 20);
    reactor.set_callback(c, 30);
    let events = vec![ready(2, 1), ready(9, 1), ready(1, 1), ready(2, 1)];
    let woken = reactor.wake_ready(OsReply { code: 4, errno: 0 }, &events).unwrap();
    assert_eq!(woken, vec![(b, 20), (a, 10)]);
    assert!(!reactor.has_callback(&a));
    assert!(!reactor.has_callback(&b));
    assert!(reactor.has_callback(&c));
}

#[test]
fn readiness_with_another_mask_wakes_nobody() {
    let mut reactor: Reactor<u32> = Reactor::new();
    let interest = Interest::new(1, EPOLLIN | EPOLLHUP | EPOLLPRI);
    reactor.set_callback(interest, 10);
    let woken = reactor.wake_ready(OsReply { code: 1, errno: 0 }, &vec![ready(1, 1)]).unwrap();
    assert!(woken.is_empty());
    assert!(reactor.has_callback(&interest));
    let woken = reactor.wake_ready(OsReply { code: 1, errno: 0 }, &vec![ready(1, 0x13)]).unwrap();
    assert_eq!(woken, vec![(interest, 10)]);
}

#[test]
fn failed_wait_wakes_nobody() {
    let mut reactor: Reactor<u32> = Reactor::new();
    let interest = Interest::new(1, EPOLLIN);
    reactor.set_callback(interest, 10);
    let res = reactor.wake_ready(OsReply::failure(4), &vec![ready(1, 1)]);
    assert_eq!(res, Err(Error::Os(4)));
    assert!(reactor.has_callback(&interest));
}

#[test]
fn empty_batch_wakes_nobody() {
    let mut reactor: Reactor<u32> = Reactor::new();
    reactor.set_callback(Interest::new(1, EPOLLIN), 10);
    let woken = reactor.wake_ready(OsReply::success(), &Vec::new()).unwrap();
    assert!(woken.is_empty());
}

#[test]
fn registration_record_is_edge_triggered() {
    let interest = Interest::new(5, EPOLLIN | EPOLLHUP | EPOLLPRI);
    let event = interest.to_event();
    assert_eq!(event, EpollEvent { events: 0x8000_0013, data: 5 });
    assert_eq!(event.events & EPOLLET, EPOLLET);
    assert_eq!(Interest::new(0, 0).to_event(), EpollEvent { events: 0x8000_0000, data: 0 });
    assert_eq!(Interest::new(1, -1).to_event(), EpollEvent { events: 0xffff_ffff, data: 1 });
    assert_eq!(
        Interest::new(i32::MAX, 1).to_event(),
        EpollEvent { events: 0x8000_0001, data: 0x7fff_ffff }
    );
}

#[test]
fn ctl_request_carries_operation_and_descriptor() {
    let interest = Interest::new(5, EPOLLIN);
    assert_eq!(
        interest.ctl_interest(EPOLL_CTL_ADD),
        CtlRequest { op: 1, fd: 5, event: EpollEvent { events: 0x8000_0001, data: 5 } }
    );
    assert_eq!(
        interest.ctl_interest(EPOLL_CTL_DEL),
        CtlRequest { op: 2, fd: 5, event: EpollEvent { events: 0x8000_0001, data: 5 } }
    );
}

#[test]
fn readiness_event_reads_back_as_interest() {
    let event = ready(5, 0x11);
    assert!(event.is_interest());
    assert_eq!(event.to_interest(), Interest { fd: 5, events: 0x11 });
    assert!(ready(0x7fff_ffff, 0x7fff_ffff).is_interest());
    assert!(!ready(0x8000_0000, 1).is_interest());
    assert!(!ready(1, 0x8000_0000).is_interest());
}

#[test]
fn os_reply_checks() {
    assert_eq!(OsReply::success(), OsReply { code: 0, errno: 0 });
    assert_eq!(OsReply::failure(11), OsReply { code: -1, errno: 11 });
    assert_eq!(OsReply::success().check(), Ok(()));
    assert_eq!(OsReply { code: 3, errno: 5 }.check(), Ok(()));
    assert_eq!(OsReply::failure(11).check(), Err(Error::Os(11)));
}

#[test]
fn constants_are_those_of_the_platform() {
    assert_eq!(EPOLLIN, libc::EPOLLIN);
    assert_eq!(EPOLLPRI, libc::EPOLLPRI);
    assert_eq!(EPOLLHUP, libc::EPOLLHUP);
    assert_eq!(EPOLLET, libc::EPOLLET as u32);
    assert_eq!(EPOLL_CTL_ADD, libc::EPOLL_CTL_ADD);
    assert_eq!(EPOLL_CTL_DEL, libc::EPOLL_CTL_DEL);
    assert_eq!(xwiimote::stream::EAGAIN, libc::EAGAIN);
    assert_eq!(xwiimote::stream::EPOLL_EVENTS, libc::EPOLLIN | libc::EPOLLHUP | libc::EPOLLPRI);
    assert_eq!(
        xwiimote::monitor::HOTPLUG_EVENTS,
        libc::EPOLLIN | libc::EPOLLHUP | libc::EPOLLPRI
    );
}

#[test]
fn registration_record_is_the_platforms() {
    let interest = Interest::new(5, libc::EPOLLIN | libc::EPOLLHUP);
    let event = interest.to_event();
    assert_eq!(event.events, (libc::EPOLLIN | libc::EPOLLHUP | libc::EPOLLET) as u32);
    assert_eq!(event.data, 5);
}

/// A task that reads from a pipe: the first poll finds nothing to read,
/// stores its waker and has the other end write; the second poll is done.
struct ReaderFuture {
    first_try: bool,
    interest: Interest,
    pipe: Vec<u8>,
}

impl ReaderFuture {
    fn poll(&mut self, reactor: &mut Reactor<std::task::Waker>, waker: &std::task::Waker) -> bool {
        if self.first_try {
            // Ask the reactor to wake us up for the second try.
            self.first_try = false;
            reactor.set_callback(self.interest, waker.clone());
            // Write to the pipe in order to generate a readiness event.
            self.pipe.extend_from_slice(b"Hello world!");
            false
        } else {
            // Second try, we're done.
            true
        }
    }
}

struct Flag(std::sync::atomic::AtomicBool);

impl std::task::Wake for Flag {
    fn wake(self: std::sync::Arc<Self>) {
        self.0.store(true, std::sync::atomic::Ordering::SeqCst);
    }
}

#[test]
fn event_wakes_task() -> Result<(), Error> {
    // Record interest in the read end of the pipe.
    let read_end = 3;
    let mut reactor: Reactor<std::task::Waker> = Reactor::new();
    let interest = Interest::new(read_end, libc::EPOLLIN);
    reactor.add_interest(&interest, OsReply::success())?;

    let flag = std::sync::Arc::new(Flag(std::sync::atomic::AtomicBool::new(false)));
    let waker = std::task::Waker::from(flag.clone());
    let mut future = ReaderFuture { first_try: true, interest, pipe: Vec::new() };

    // The first try suspends the task.
    assert!(!future.poll(&mut reactor, &waker));
    assert_eq!(future.pipe, b"Hello world!");
    assert!(!flag.0.load(std::sync::atomic::Ordering::SeqCst));

    // The kernel reports the read end as readable: the task is woken.
    let readable = EpollEvent { events: libc::EPOLLIN as u32, data: read_end as u64 };
    let woken = reactor.wake_ready(OsReply { code: 1, errno: 0 }, &vec![readable])?;
    assert_eq!(woken.len(), 1);
    for (woken_interest, task) in woken {
        assert_eq!(woken_interest, interest);
        task.wake();
    }
    assert!(flag.0.load(std::sync::atomic::Ordering::SeqCst));

    // The future completes after two tries.
    assert!(future.poll(&mut reactor, &waker));
    Ok(())
}
