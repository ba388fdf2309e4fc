//! Device monitoring: the enumeration of connected devices and the
//! discovery of devices that are plugged in later.
//!
//! The monitor is a state machine over three phases. While enumerating
//! it yields the addresses of the devices that are connected already.
//! Once there are no more it is done, unless discovery was asked for:
//! then it goes on discovering, which never ends by itself. It is driven
//! from outside: the caller asks the system for the next address without
//! blocking and hands the answer to [`Monitor::poll_next`].

use crate::error::{Error, OsReply};
use crate::interest::{CtlRequest, Interest, EPOLL_CTL_ADD, EPOLL_CTL_DEL};
use crate::reactor::{add_result, after_add, Reactor};
use vstd::prelude::*;

verus! {

/// The readiness conditions that announce a hot-plugged device on the
/// descriptor of a monitor: readable, hang-up and priority data.
pub const HOTPLUG_EVENTS: i32 = 0x013;

/// A Wii Remote device address: the path of the device in the system's
/// device tree, as bytes.
#[derive(Debug, Clone, PartialEq, Eq)]
pub struct Address {
    path: Vec<u8>,
}

impl View for Address {
    type V = Seq<u8>;

    closed spec fn view(&self) -> Seq<u8> {
        self.path@
    }
}

impl Address {
    /// Converts the path given as the bytes of a C string, without the
    /// byte that ends it, into a device address.
    pub fn from_raw(path: Vec<u8>) -> (address: Address)
        ensures
            address@ == path@,
    {
        Address { path }
    }

    /// The bytes of the path.
    pub fn as_bytes(&self) -> (bytes: &Vec<u8>)
        ensures
            bytes@ == self@,
    {
        &self.path
    }

    /// The path as a C string: its bytes followed by a zero byte. A path
    /// that holds a zero byte has no such form.
    pub fn to_c_string(&self) -> (c_string: Option<Vec<u8>>)
        ensures
            self@.contains(0u8) ==> c_string is None,
            !self@.contains(0u8) ==> c_string is Some && c_string->Some_0@ == self@.push(0u8),
    {
        let mut bytes: Vec<u8> = Vec::new();
        let mut ix: usize = 0;
        while ix < self.path.len()
            invariant
                0 <= ix <= self.path.len(),
                bytes@ == self.path@.take(ix as int),
                forall|k: int| 0 <= k < ix ==> self.path@[k] != 0u8,
            decreases self.path.len() - ix,
        {
            let byte = self.path[ix];
            if byte == 0 {
                assert(self.path@[ix as int] == 0u8);
                return None;
            }
            bytes.push(byte);
            proof {
                assert(self.path@.take(ix + 1) =~= self.path@.take(ix as int).push(byte));
            }
            ix += 1;
        }
        proof {
            assert(self.path@.take(ix as int) =~= self.path@);
        }
        bytes.push(0);
        Some(bytes)
    }
}

/// Enumerates the addresses of connected Wii Remotes and optionally
/// streams device addresses as new devices are discovered. The same
/// address may be produced multiple times.
///
/// When discovery mode is disabled, the stream ends once the addresses
/// of all connected devices have been produced.
#[derive(Debug, Clone, Copy, PartialEq, Eq, Structural)]
pub struct Monitor {
    /// The descriptor on which hot-plug events arrive. Only present in
    /// discovery mode.
    pub mon_fd: Option<i32>,
    /// Have all the connected devices been produced already?
    pub enumerated: bool,
}

/// The phase of a monitor.
#[derive(Debug, Clone, Copy, PartialEq, Eq, Structural)]
pub enum Phase {
    /// The connected devices are being produced.
    Enumerating,
    /// The connected devices were produced; hot-plugged ones follow.
    Discovering,
    /// The connected devices were produced, and no more was asked for.
    Done,
}

/// What a monitor answers to a poll.
#[derive(Debug, Clone, PartialEq, Eq)]
pub enum MonitorPoll {
    /// The address of a device.
    Item(Address),
    /// The stream has ended.
    Finished,
    /// No device is available. The continuation of the task is stored
    /// with the reactor, and the task suspends.
    Pending,
    /// The enumeration is complete and discovery begins. The caller
    /// hands the request to the kernel multiplexer, reports the answer
    /// to [`Monitor::watch`] and then polls again at once, so that a
    /// device plugged in meanwhile is not missed.
    Watch(CtlRequest),
}

impl Monitor {
    /// The descriptor, if there is one, can be registered with the
    /// kernel multiplexer.
    pub open spec fn wf(self) -> bool {
        self.mon_fd matches Some(fd) ==> fd >= 0
    }

    /// The phase that the monitor is in.
    pub open spec fn spec_phase(self) -> Phase {
        if !self.enumerated {
            Phase::Enumerating
        } else if self.mon_fd is Some {
            Phase::Discovering
        } else {
            Phase::Done
        }
    }

    /// The interest in hot-plug events on the descriptor `fd`.
    pub open spec fn hotplug_interest(fd: i32) -> Interest {
        Interest { fd, events: HOTPLUG_EVENTS }
    }

    /// The monitor after a poll that was handed `polled`: the first poll
    /// of the enumeration that finds no address completes it.
    pub open spec fn after_poll(self, polled: Option<Address>) -> Monitor {
        if !self.enumerated && polled is None {
            Monitor { mon_fd: self.mon_fd, enumerated: true }
        } else {
            self
        }
    }

    /// The answer to a poll that was handed `polled`, the next address
    /// that the system had available, if any.
    pub open spec fn answer(self, polled: Option<Address>) -> MonitorPoll {
        match self.spec_phase() {
            Phase::Done => MonitorPoll::Finished,
            Phase::Discovering => match polled {
                Some(address) => MonitorPoll::Item(address),
                None => MonitorPoll::Pending,
            },
            Phase::Enumerating => match polled {
                Some(address) => MonitorPoll::Item(address),
                None => match self.mon_fd {
                    Some(fd) => MonitorPoll::Watch(
                        CtlRequest {
                            op: EPOLL_CTL_ADD,
                            fd,
                            event: Self::hotplug_interest(fd).spec_to_event(),
                        },
                    ),
                    None => MonitorPoll::Finished,
                },
            },
        }
    }

    /// The request that disposing of the monitor asks for: the removal of
    /// its hot-plug interest, if the monitor has a descriptor and the
    /// interest is registered.
    pub open spec fn pending_removal(self, registered: Set<Interest>) -> Option<CtlRequest> {
        match self.mon_fd {
            Some(fd) => if registered.contains(Self::hotplug_interest(fd)) {
                Some(
                    CtlRequest {
                        op: EPOLL_CTL_DEL,
                        fd,
                        event: Self::hotplug_interest(fd).spec_to_event(),
                    },
                )
            } else {
                None
            },
            None => None,
        }
    }

    /// Creates a monitor that streams the addresses of all connected
    /// devices.
    pub fn enumerate() -> (monitor: Monitor)
        ensures
            monitor == (Monitor { mon_fd: None, enumerated: false }),
            monitor.wf(),
    {
        Monitor { mon_fd: None, enumerated: false }
    }

    /// Creates a monitor that first streams the addresses of all
    /// connected devices and then listens for hot-plugged devices on the
    /// descriptor `mon_fd`, producing their addresses as they are found.
    pub fn discover(mon_fd: i32) -> (monitor: Monitor)
        requires
            mon_fd >= 0,
        ensures
            monitor == (Monitor { mon_fd: Some(mon_fd), enumerated: false }),
            monitor.wf(),
    {
        Monitor { mon_fd: Some(mon_fd), enumerated: false }
    }

    /// Returns the phase that the monitor is in.
    pub fn phase(&self) -> (phase: Phase)
        ensures
            phase == self.spec_phase(),
    {
        if !self.enumerated {
            Phase::Enumerating
        } else if self.mon_fd.is_some() {
            Phase::Discovering
        } else {
            Phase::Done
        }
    }

    /// Answers a poll.
    ///
    /// A monitor that is done has ended, whatever else is passed in.
    /// Otherwise `polled` is the next address that the system had
    /// available when asked without blocking:
    /// - an address is yielded, in either phase;
    /// - the first lack of one completes the enumeration: without
    ///   discovery the stream ends, with it the caller is asked to
    ///   register the hot-plug interest;
    /// - a lack of one while discovering stores `waker` with the reactor
    ///   for the hot-plug interest, and the task suspends.
    pub fn poll_next<W>(
        &mut self,
        polled: Option<Address>,
        reactor: &mut Reactor<W>,
        waker: W,
    ) -> (poll: MonitorPoll)
        requires
            old(self).wf(),
        ensures
            poll == old(self).answer(polled),
            *final(self) == old(self).after_poll(polled),
            final(self).wf(),
            final(reactor).registered() == old(reactor).registered(),
            final(reactor).callbacks() == if poll == MonitorPoll::Pending {
                old(reactor).callbacks().insert(
                    Self::hotplug_interest(old(self).mon_fd->Some_0),
                    waker,
                )
            } else {
                old(reactor).callbacks()
            },
    {
        if self.enumerated {
            let mon_fd = match self.mon_fd {
                Some(fd) => fd,
                None => {
                    return MonitorPoll::Finished;
                },
            };
            match polled {
                Some(address) => MonitorPoll::Item(address),
                None => {
                    reactor.set_callback(Interest::new(mon_fd, HOTPLUG_EVENTS), waker);
                    MonitorPoll::Pending
                },
            }
        } else {
            match polled {
                Some(address) => MonitorPoll::Item(address),
                None => {
                    self.enumerated = true;
                    match self.mon_fd {
                        Some(mon_fd) => {
                            let interest = Interest::new(mon_fd, HOTPLUG_EVENTS);
                            MonitorPoll::Watch(interest.ctl_interest(EPOLL_CTL_ADD))
                        },
                        None => MonitorPoll::Finished,
                    }
                },
            }
        }
    }

    /// Registers the hot-plug interest of a monitor in discovery mode
    /// with the reactor.
    ///
    /// `reply` is what the kernel multiplexer answered to the request of
    /// [`MonitorPoll::Watch`]. An error is the answer to the poll that
    /// asked; after a success the monitor is polled again.
    pub fn watch<W>(&self, reactor: &mut Reactor<W>, reply: OsReply) -> (res: Result<(), Error>)
        requires
            self.mon_fd is Some,
        ensures
            res == add_result(
                old(reactor).registered(),
                Self::hotplug_interest(self.mon_fd->Some_0),
                reply,
            ),
            final(reactor).registered() == after_add(
                old(reactor).registered(),
                Self::hotplug_interest(self.mon_fd->Some_0),
                reply,
            ),
            final(reactor).callbacks() == old(reactor).callbacks(),
    {
        match self.mon_fd {
            Some(mon_fd) => reactor.add_interest(&Interest::new(mon_fd, HOTPLUG_EVENTS), reply),
            None => Ok(()),
        }
    }

    /// Prepares the disposal of the monitor: if its hot-plug interest is
    /// registered, returns the request that removes the registration,
    /// to be carried out before the monitor's handle is released.
    pub fn remove_interest<W>(&self, reactor: &Reactor<W>) -> (request: Option<CtlRequest>)
        requires
            self.wf(),
        ensures
            request == self.pending_removal(reactor.registered()),
    {
        match self.mon_fd {
            Some(mon_fd) => {
                let interest = Interest::new(mon_fd, HOTPLUG_EVENTS);
                if reactor.is_registered(&interest) {
                    Some(interest.ctl_interest(EPOLL_CTL_DEL))
                } else {
                    None
                }
            },
            None => None,
        }
    }
}

/// Without discovery, a monitor never suspends and never asks for a
/// registration: each poll yields an address or ends the stream, and the
/// stream ends exactly when the system has no more address or the
/// monitor is done already.
pub proof fn lemma_enumeration_never_waits(monitor: Monitor, polled: Option<Address>)
    requires
        monitor.mon_fd is None,
    ensures
        !(monitor.answer(polled) is Pending),
        !(monitor.answer(polled) is Watch),
        monitor.answer(polled) is Finished <==> monitor.enumerated || polled is None,
        monitor.answer(polled) is Finished ==> monitor.after_poll(polled).spec_phase()
            == Phase::Done,
{
}

/// A monitor that is done stays done: every poll answers that the
/// stream has ended.
pub proof fn lemma_done_is_terminal(monitor: Monitor, polled: Option<Address>)
    requires
        monitor.spec_phase() == Phase::Done,
    ensures
        monitor.answer(polled) == MonitorPoll::Finished,
        monitor.after_poll(polled) == monitor,
{
}

/// In discovery mode the stream never ends by itself: no poll answers
/// that it has ended, the monitor is never done, and once it discovers
/// it goes on discovering.
pub proof fn lemma_discovery_never_ends(monitor: Monitor, polled: Option<Address>)
    requires
        monitor.mon_fd is Some,
    ensures
        !(monitor.answer(polled) is Finished),
        monitor.after_poll(polled).spec_phase() != Phase::Done,
        monitor.spec_phase() == Phase::Discovering ==> monitor.after_poll(polled).spec_phase()
            == Phase::Discovering,
        monitor.answer(polled) is Watch <==> monitor.spec_phase() == Phase::Enumerating
            && polled is None,
{
}

/// An address that the system hands over is yielded as it is, unless the
/// monitor is done.
pub proof fn lemma_address_is_yielded(monitor: Monitor, address: Address)
    requires
        monitor.spec_phase() != Phase::Done,
    ensures
        monitor.answer(Some(address)) == MonitorPoll::Item(address),
        monitor.after_poll(Some(address)) == monitor,
{
}

/// The answers of a monitor to a run of polls, the first poll first:
/// `polled[k]` is what the system had available at the poll `k`.
pub open spec fn answers(monitor: Monitor, polled: Seq<Option<Address>>) -> Seq<MonitorPoll>
    decreases polled.len(),
{
    if polled.len() == 0 {
        Seq::empty()
    } else {
        seq![monitor.answer(polled[0])] + answers(
            monitor.after_poll(polled[0]),
            polled.drop_first(),
        )
    }
}

/// The monitor after a run of polls.
pub open spec fn after_polls(monitor: Monitor, polled: Seq<Option<Address>>) -> Monitor
    decreases polled.len(),
{
    if polled.len() == 0 {
        monitor
    } else {
        after_polls(monitor.after_poll(polled[0]), polled.drop_first())
    }
}

/// A run of polls gets one answer for each poll.
pub proof fn lemma_answers_len(monitor: Monitor, polled: Seq<Option<Address>>)
    ensures
        answers(monitor, polled).len() == polled.len(),
    decreases polled.len(),
{
    if polled.len() > 0 {
        lemma_answers_len(monitor.after_poll(polled[0]), polled.drop_first());
    }
}

/// A monitor that is done answers every poll of a run that the stream
/// has ended.
pub proof fn lemma_done_forever(monitor: Monitor, polled: Seq<Option<Address>>, k: int)
    requires
        monitor.spec_phase() == Phase::Done,
        0 <= k < polled.len(),
    ensures
        answers(monitor, polled).len() == polled.len(),
        answers(monitor, polled)[k] == MonitorPoll::Finished,
        after_polls(monitor, polled) == monitor,
    decreases polled.len(),
{
    lemma_answers_len(monitor, polled);
    lemma_answers_len(monitor, polled.drop_first());
    lemma_done_after(monitor, polled);
    if k > 0 {
        lemma_done_forever(monitor, polled.drop_first(), k - 1);
    }
}

/// A monitor that is done is the same after any run of polls.
pub proof fn lemma_done_after(monitor: Monitor, polled: Seq<Option<Address>>)
    requires
        monitor.spec_phase() == Phase::Done,
    ensures
        after_polls(monitor, polled) == monitor,
    decreases polled.len(),
{
    if polled.len() > 0 {
        lemma_done_after(monitor, polled.drop_first());
    }
}

/// Enumeration over a system that knows the addresses `known`, in this
/// order, and then has none left: the monitor yields each address in
/// turn, then ends, and goes on answering that it has ended whatever
/// the system reports later. It never suspends and never asks for a
/// registration.
pub proof fn lemma_enumeration_run(
    monitor: Monitor,
    known: Seq<Address>,
    later: Seq<Option<Address>>,
    k: int,
)
    requires
        monitor.mon_fd is None,
        !monitor.enumerated,
        0 <= k < known.len() + 1 + later.len(),
    ensures
        answers(
            monitor,
            known.map_values(|a: Address| Some(a)) + seq![None::<Address>] + later,
        ).len() == known.len() + 1 + later.len(),
        answers(
            monitor,
            known.map_values(|a: Address| Some(a)) + seq![None::<Address>] + later,
        )[k] == if k < known.len() {
            MonitorPoll::Item(known[k])
        } else {
            MonitorPoll::Finished
        },
    decreases known.len(),
{
    let polled = known.map_values(|a: Address| Some(a)) + seq![None::<Address>] + later;
    lemma_answers_len(monitor, polled);
    lemma_answers_len(monitor.after_poll(polled[0]), polled.drop_first());
    if known.len() == 0 {
        assert(polled[0] == None::<Address>);
        let done = monitor.after_poll(None);
        assert(done.spec_phase() == Phase::Done);
        if k > 0 {
            assert(polled.drop_first() =~= later);
            lemma_done_forever(done, later, k - 1);
        }
    } else {
        assert(polled[0] == Some(known[0]));
        let rest = known.drop_first();
        assert(polled.drop_first() =~= rest.map_values(|a: Address| Some(a)) + seq![
            None::<Address>,
        ] + later);
        if k > 0 {
            lemma_enumeration_run(monitor, rest, later, k - 1);
            if k < known.len() {
                assert(rest[k - 1] == known[k]);
            }
        }
    }
}

/// In discovery mode no run of polls ends the stream: none of its
/// answers says that the stream has ended, and an address that the
/// system hands over at some poll is the answer to that poll.
pub proof fn lemma_discovery_run(monitor: Monitor, polled: Seq<Option<Address>>, k: int)
    requires
        monitor.mon_fd is Some,
        0 <= k < polled.len(),
    ensures
        answers(monitor, polled).len() == polled.len(),
        !(answers(monitor, polled)[k] is Finished),
        polled[k] matches Some(address) ==> answers(monitor, polled)[k] == MonitorPoll::Item(
            address,
        ),
        after_polls(monitor, polled).mon_fd == monitor.mon_fd,
    decreases polled.len(),
{
    lemma_answers_len(monitor, polled);
    lemma_answers_len(monitor.after_poll(polled[0]), polled.drop_first());
    lemma_descriptor_is_kept(monitor, polled);
    if k > 0 {
        lemma_discovery_run(monitor.after_poll(polled[0]), polled.drop_first(), k - 1);
    }
}

/// A run of polls keeps the descriptor of the monitor, and never takes
/// the monitor back to the enumeration once that is complete.
pub proof fn lemma_descriptor_is_kept(monitor: Monitor, polled: Seq<Option<Address>>)
    ensures
        after_polls(monitor, polled).mon_fd == monitor.mon_fd,
        monitor.enumerated ==> after_polls(monitor, polled).enumerated,
    decreases polled.len(),
{
    if polled.len() > 0 {
        lemma_descriptor_is_kept(monitor.after_poll(polled[0]), polled.drop_first());
    }
}

/// In discovery mode, over a system that knows the addresses `known`
/// and then has none left, the monitor yields each address in turn,
/// asks for the hot-plug registration at the first poll that finds
/// none, and suspends at each later poll that finds none.
pub proof fn lemma_discovery_after_enumeration(
    monitor: Monitor,
    known: Seq<Address>,
    idle: nat,
    k: int,
)
    requires
        monitor.mon_fd is Some,
        !monitor.enumerated,
        0 <= k < known.len() + 1 + idle,
    ensures
        answers(
            monitor,
            known.map_values(|a: Address| Some(a)) + Seq::new(1 + idle, |i: int| None::<Address>),
        ).len() == known.len() + 1 + idle,
        answers(
            monitor,
            known.map_values(|a: Address| Some(a)) + Seq::new(1 + idle, |i: int| None::<Address>),
        )[k] == if k < known.len() {
            MonitorPoll::Item(known[k])
        } else if k == known.len() {
            monitor.answer(None)
        } else {
            MonitorPoll::Pending
        },
        monitor.answer(None) is Watch,
    decreases known.len() + 1 + idle,
{
    let polled = known.map_values(|a: Address| Some(a)) + Seq::new(
        1 + idle,
        |i: int| None::<Address>,
    );
    lemma_answers_len(monitor, polled);
    lemma_answers_len(monitor.after_poll(polled[0]), polled.drop_first());
    if known.len() == 0 {
        assert(polled[0] == None::<Address>);
        if k > 0 {
            let watching = monitor.after_poll(None);
            let rest = polled.drop_first();
            assert(rest =~= Seq::new(idle, |i: int| None::<Address>));
            lemma_idle_discovery(watching, idle, k - 1);
        }
    } else {
        assert(polled[0] == Some(known[0]));
        let rest = known.drop_first();
        assert(polled.drop_first() =~= rest.map_values(|a: Address| Some(a)) + Seq::new(
            1 + idle,
            |i: int| None::<Address>,
        ));
        if k > 0 {
            lemma_discovery_after_enumeration(monitor, rest, idle, k - 1);
            if k < known.len() {
                assert(rest[k - 1] == known[k]);
            }
        }
    }
}

/// A discovering monitor suspends at every poll that finds no address.
pub proof fn lemma_idle_discovery(monitor: Monitor, idle: nat, k: int)
    requires
        monitor.spec_phase() == Phase::Discovering,
        0 <= k < idle,
    ensures
        answers(monitor, Seq::new(idle, |i: int| None::<Address>)).len() == idle,
        answers(monitor, Seq::new(idle, |i: int| None::<Address>))[k] == MonitorPoll::Pending,
    decreases idle,
{
    let polled = Seq::new(idle, |i: int| None::<Address>);
    lemma_answers_len(monitor, polled);
    lemma_answers_len(monitor.after_poll(polled[0]), polled.drop_first());
    assert(polled[0] == None::<Address>);
    if k > 0 {
        assert(polled.drop_first() =~= Seq::new((idle - 1) as nat, |i: int| None::<Address>));
        lemma_idle_discovery(monitor, (idle - 1) as nat, k - 1);
    }
}

} // verus!
