//! Interest keys: which readiness conditions on which descriptor a task
//! waits for, and the form in which the kernel multiplexer takes and
//! reports them.

use vstd::prelude::*;

verus! {

/// The descriptor has data to read.
pub const EPOLLIN: i32 = 0x001;

/// The descriptor has urgent data to read.
pub const EPOLLPRI: i32 = 0x002;

/// The peer hung up.
pub const EPOLLHUP: i32 = 0x010;

/// The bit that asks the kernel multiplexer for edge-triggered delivery.
pub const EPOLLET: u32 = 0x8000_0000;

/// Adds a registration to the kernel multiplexer.
pub const EPOLL_CTL_ADD: i32 = 1;

/// Removes a registration from the kernel multiplexer.
pub const EPOLL_CTL_DEL: i32 = 2;

/// Describes the events a task wants to be notified of.
#[derive(Debug, Clone, Copy, PartialEq, Eq, Hash, Structural)]
pub struct Interest {
    /// The source of events.
    pub fd: i32,
    /// A bit field containing the kinds of the relevant events.
    pub events: i32,
}

/// A record of the kernel multiplexer: the event bits, and the word of
/// user data that the kernel stores with a registration and hands back
/// with each readiness event.
#[derive(Debug, Clone, Copy, PartialEq, Eq, Structural)]
pub struct EpollEvent {
    /// The event bits.
    pub events: u32,
    /// The user data; the reactor keeps the descriptor here.
    pub data: u64,
}

/// A change to a registration, ready to be handed to the kernel multiplexer.
#[derive(Debug, Clone, Copy, PartialEq, Eq, Structural)]
pub struct CtlRequest {
    /// The operation: [`EPOLL_CTL_ADD`] or [`EPOLL_CTL_DEL`].
    pub op: i32,
    /// The descriptor that the operation is about.
    pub fd: i32,
    /// The registration record.
    pub event: EpollEvent,
}

/// The event bits of a registration for the mask `events`: the same 32
/// bits, with the edge-triggered bit set.
pub open spec fn edge_triggered(events: i32) -> u32 {
    (events as u32) | EPOLLET
}

impl Interest {
    /// Creates a new interest description.
    pub fn new(fd: i32, events: i32) -> (interest: Interest)
        ensures
            interest == (Interest { fd, events }),
    {
        Interest { fd, events }
    }

    /// The registration record of this interest. Delivery is
    /// edge-triggered, since the interested task is expected to read all
    /// available data from the descriptor.
    pub open spec fn spec_to_event(self) -> EpollEvent
        recommends
            self.fd >= 0,
    {
        EpollEvent { events: edge_triggered(self.events), data: self.fd as u64 }
    }

    /// Builds the registration record of this interest.
    pub fn to_event(&self) -> (event: EpollEvent)
        requires
            self.fd >= 0,
        ensures
            event == self.spec_to_event(),
            event.data == self.fd,
    {
        let bits: u32 = #[verifier::truncate] (self.events as u32);
        EpollEvent { events: bits | EPOLLET, data: self.fd as u64 }
    }

    /// The request that hands this interest to the kernel multiplexer
    /// under the operation `op`.
    pub fn ctl_interest(&self, op: i32) -> (request: CtlRequest)
        requires
            self.fd >= 0,
        ensures
            request == (CtlRequest { op, fd: self.fd, event: self.spec_to_event() }),
    {
        CtlRequest { op, fd: self.fd, event: self.to_event() }
    }
}

impl EpollEvent {
    /// The record can be read back as an interest: the user data is a
    /// descriptor and the event bits fit a signed mask.
    pub open spec fn spec_is_interest(self) -> bool {
        self.data <= i32::MAX && self.events <= i32::MAX
    }

    /// The interest that a readiness event stands for.
    pub open spec fn spec_to_interest(self) -> Interest
        recommends
            self.spec_is_interest(),
    {
        Interest { fd: self.data as i32, events: self.events as i32 }
    }

    /// Tells whether the record can be read back as an interest.
    pub fn is_interest(&self) -> (ok: bool)
        ensures
            ok == self.spec_is_interest(),
    {
        self.data <= 0x7fff_ffff && self.events <= 0x7fff_ffff
    }

    /// Reads a readiness event back as the interest that it stands for.
    pub fn to_interest(&self) -> (interest: Interest)
        requires
            self.spec_is_interest(),
        ensures
            interest == self.spec_to_interest(),
            interest.fd == self.data,
            interest.events == self.events,
    {
        Interest { fd: self.data as i32, events: self.events as i32 }
    }
}

/// A registration record carries the edge-triggered bit, keeps every
/// other bit of the mask, and holds the descriptor as its user data.
pub proof fn lemma_event_of_interest(interest: Interest)
    requires
        interest.fd >= 0,
    ensures
        interest.spec_to_event().events & EPOLLET == EPOLLET,
        interest.spec_to_event().events & 0x7fff_ffffu32 == (interest.events as u32) & 0x7fff_ffffu32,
        interest.spec_to_event().data == interest.fd,
{
    let e: i32 = interest.events;
    assert(((e as u32) | 0x8000_0000u32) & 0x8000_0000u32 == 0x8000_0000u32) by (bit_vector);
    assert(((e as u32) | 0x8000_0000u32) & 0x7fff_ffffu32 == (e as u32) & 0x7fff_ffffu32)
        by (bit_vector);
}

/// A readiness event that reports exactly the mask of an interest on its
/// descriptor reads back as that interest.
pub proof fn lemma_interest_of_ready_event(interest: Interest)
    requires
        interest.fd >= 0,
        interest.events >= 0,
    ensures
        (EpollEvent { events: interest.events as u32, data: interest.fd as u64 }).spec_is_interest(),
        (EpollEvent {
            events: interest.events as u32,
            data: interest.fd as u64,
        }).spec_to_interest() == interest,
{
}

} // verus!
