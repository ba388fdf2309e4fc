//! The stream of events of one device.
//!
//! The stream is a state machine over two states, active and closed. It
//! is driven from outside: the caller asks the driver for the next
//! record without blocking and hands the answer to [`EventStream::poll_next`],
//! which says what the stream does with it.

use crate::error::{Error, OsReply};
use crate::events::{Event, ProtocolViolation, RawEvent, Timestamp, XWII_EVENT_GONE};
use crate::interest::{CtlRequest, Interest, EPOLL_CTL_DEL};
use crate::reactor::{
    add_result, after_add, after_remove, callbacks_after_remove, remove_result, Reactor,
};
use vstd::prelude::*;

verus! {

/// The readiness conditions that a stream waits for on the descriptor of
/// its device: readable, hang-up and priority data.
pub const EPOLL_EVENTS: i32 = 0x013;

/// The error number that the driver reports, negated, when no record is
/// available yet.
pub const EAGAIN: i32 = 11;

/// Watches for events from a device.
#[derive(Debug, Clone, Copy, PartialEq, Eq, Structural)]
pub struct EventStream {
    /// The descriptor of the device.
    pub fd: i32,
    /// Whether the interest is currently registered. The stream is
    /// active while it is, and closed for good once it is not.
    pub have_interest: bool,
}

/// What a stream of events answers to a poll.
#[derive(Debug, Clone, PartialEq, Eq)]
pub enum EventPoll {
    /// The next event, with the time at which the kernel generated it.
    Item(Event, Timestamp),
    /// The stream failed.
    Failed(Error),
    /// The stream has ended.
    Finished,
    /// No event is available. The continuation of the task is stored
    /// with the reactor, and the task suspends.
    Pending,
    /// The device is gone and the stream is closed. The caller hands the
    /// request to the kernel multiplexer and gets the answer to the poll
    /// from [`EventStream::finish_removal`].
    Gone(CtlRequest),
    /// The record cannot be decoded. The caller must not go on with the
    /// stream.
    Violation(ProtocolViolation),
}

/// What is left of a deregistration once the kernel multiplexer has
/// answered.
pub struct Removal<W> {
    /// The continuation that was waiting, to be resumed by the caller.
    pub woken: Option<W>,
    /// The error of a deregistration that failed.
    pub error: Option<Error>,
}

impl EventStream {
    /// The descriptor can be registered with the kernel multiplexer.
    pub open spec fn wf(self) -> bool {
        self.fd >= 0
    }

    /// The interest that the stream registers for its device.
    pub open spec fn spec_interest(self) -> Interest {
        Interest { fd: self.fd, events: EPOLL_EVENTS }
    }

    /// The request that removes the stream's registration.
    pub open spec fn removal_request(self) -> CtlRequest {
        CtlRequest { op: EPOLL_CTL_DEL, fd: self.fd, event: self.spec_interest().spec_to_event() }
    }

    /// The request that closing the stream asks for: the removal of its
    /// registration if the interest is still registered, none otherwise.
    pub open spec fn pending_removal(self) -> Option<CtlRequest> {
        if self.have_interest {
            Some(self.removal_request())
        } else {
            None
        }
    }

    /// The stream once it is closed.
    pub open spec fn closed(self) -> EventStream {
        EventStream { fd: self.fd, have_interest: false }
    }

    /// The stream after a poll that found the driver's reply `reply`
    /// and, where the reply is zero, the record `raw`. Only the removal
    /// of the device changes the stream: it closes it.
    pub open spec fn after_poll(self, reply: OsReply, raw: RawEvent) -> EventStream {
        if self.have_interest && reply.code == 0 && raw.type_ == XWII_EVENT_GONE {
            self.closed()
        } else {
            self
        }
    }

    /// The answer to a poll that found the driver's reply `reply` and,
    /// where the reply is zero, the record `raw`.
    pub open spec fn answer(self, reply: OsReply, raw: RawEvent) -> EventPoll {
        if !self.have_interest {
            EventPoll::Finished
        } else if reply.code == 0 {
            if raw.type_ == XWII_EVENT_GONE {
                EventPoll::Gone(self.removal_request())
            } else {
                match Event::spec_parse(raw) {
                    Ok(item) => EventPoll::Item(item.0, item.1),
                    Err(violation) => EventPoll::Violation(violation),
                }
            }
        } else if reply.code == -EAGAIN {
            EventPoll::Pending
        } else {
            EventPoll::Failed(Error::Os(reply.errno))
        }
    }

    /// The interest that the stream registers for its device.
    pub fn interest(&self) -> (interest: Interest)
        ensures
            interest == self.spec_interest(),
    {
        Interest::new(self.fd, EPOLL_EVENTS)
    }

    /// Tells whether the stream is closed: it has ended and the driver
    /// need not be asked again.
    pub fn is_closed(&self) -> (closed: bool)
        ensures
            closed == !self.have_interest,
    {
        !self.have_interest
    }

    /// Creates a new stream over the events from the device with the
    /// descriptor `fd`.
    ///
    /// `reply` is what the kernel multiplexer answered to the request to
    /// add the stream's interest. The stream exists only if the reactor
    /// registers the interest.
    pub fn new<W>(fd: i32, reactor: &mut Reactor<W>, reply: OsReply) -> (res: Result<
        EventStream,
        Error,
    >)
        requires
            fd >= 0,
        ensures
            res == match add_result(
                old(reactor).registered(),
                Interest { fd, events: EPOLL_EVENTS },
                reply,
            ) {
                Ok(_) => Ok::<EventStream, Error>(EventStream { fd, have_interest: true }),
                Err(e) => Err::<EventStream, Error>(e),
            },
            final(reactor).registered() == after_add(
                old(reactor).registered(),
                Interest { fd, events: EPOLL_EVENTS },
                reply,
            ),
            final(reactor).callbacks() == old(reactor).callbacks(),
    {
        let interest = Interest::new(fd, EPOLL_EVENTS);
        match reactor.add_interest(&interest, reply) {
            Ok(()) => Ok(EventStream { fd, have_interest: true }),
            Err(e) => Err(e),
        }
    }

    /// Closes the stream. If its interest is still registered, returns
    /// the request that removes the registration; a stream that is
    /// closed already asks for nothing, so that the registration is
    /// removed at most once.
    pub fn remove_interest(&mut self) -> (request: Option<CtlRequest>)
        requires
            old(self).wf(),
        ensures
            *final(self) == old(self).closed(),
            request == old(self).pending_removal(),
    {
        if self.have_interest {
            self.have_interest = false;
            Some(self.interest().ctl_interest(EPOLL_CTL_DEL))
        } else {
            None
        }
    }

    /// Completes the removal of the stream's registration.
    ///
    /// `reply` is what the kernel multiplexer answered to the request of
    /// [`EventStream::remove_interest`]. A failure is reported and
    /// changes nothing. Otherwise the interest leaves the reactor, and
    /// the continuation that waited for it, if any, is handed over to be
    /// resumed.
    pub fn finish_removal<W>(&self, reactor: &mut Reactor<W>, reply: OsReply) -> (removal: Removal<
        W,
    >)
        ensures
            removal.woken == match remove_result(
                old(reactor).callbacks(),
                self.spec_interest(),
                reply,
            ) {
                Ok(woken) => woken,
                Err(_) => None,
            },
            removal.error == match remove_result(
                old(reactor).callbacks(),
                self.spec_interest(),
                reply,
            ) {
                Ok(_) => None,
                Err(e) => Some(e),
            },
            final(reactor).registered() == after_remove(
                old(reactor).registered(),
                self.spec_interest(),
                reply,
            ),
            final(reactor).callbacks() == callbacks_after_remove(
                old(reactor).callbacks(),
                self.spec_interest(),
                reply,
            ),
    {
        let interest = self.interest();
        match reactor.remove_interest(&interest, reply) {
            Ok(woken) => Removal { woken, error: None },
            Err(e) => Removal { woken: None, error: Some(e) },
        }
    }

    /// The answer to a poll whose request to remove the registration was
    /// completed with `error`: the stream ends, or fails with the error
    /// of the removal.
    pub fn end_of_stream(error: Option<Error>) -> (poll: EventPoll)
        ensures
            poll == match error {
                Some(e) => EventPoll::Failed(e),
                None => EventPoll::Finished,
            },
    {
        match error {
            Some(e) => EventPoll::Failed(e),
            None => EventPoll::Finished,
        }
    }

    /// Answers a poll.
    ///
    /// A closed stream has ended, whatever else is passed in. For an
    /// active one, `reply` is what the driver answered when asked for the
    /// next record without blocking, and `raw` the record that it filled
    /// in if the reply is zero:
    /// - the record of the device's removal closes the stream and asks
    ///   the caller to remove the registration;
    /// - any other record is decoded and yielded, or reported as a
    ///   violation of the protocol;
    /// - if the driver would have blocked, `waker` is stored with the
    ///   reactor for the stream's interest and the task suspends;
    /// - any other reply is a failure of the stream, with the driver's
    ///   error number.
    pub fn poll_next<W>(
        &mut self,
        reply: OsReply,
        raw: &RawEvent,
        reactor: &mut Reactor<W>,
        waker: W,
    ) -> (poll: EventPoll)
        requires
            old(self).wf(),
        ensures
            poll == old(self).answer(reply, *raw),
            *final(self) == old(self).after_poll(reply, *raw),
            final(self).wf(),
            final(reactor).registered() == old(reactor).registered(),
            final(reactor).callbacks() == if poll == EventPoll::Pending {
                old(reactor).callbacks().insert(old(self).spec_interest(), waker)
            } else {
                old(reactor).callbacks()
            },
    {
        if !self.have_interest {
            return EventPoll::Finished;
        }
        if reply.code == 0 {
            if raw.type_ == XWII_EVENT_GONE {
                self.have_interest = false;
                EventPoll::Gone(self.interest().ctl_interest(EPOLL_CTL_DEL))
            } else {
                match Event::parse(raw) {
                    Ok((event, time)) => EventPoll::Item(event, time),
                    Err(violation) => EventPoll::Violation(violation),
                }
            }
        } else if reply.code == -EAGAIN {
            reactor.set_callback(self.interest(), waker);
            EventPoll::Pending
        } else {
            EventPoll::Failed(Error::Os(reply.errno))
        }
    }
}

/// A closed stream stays closed: whatever the driver reports, a poll
/// answers that the stream has ended and leaves it closed, and closing it
/// again asks for no removal.
pub proof fn lemma_closed_is_terminal(stream: EventStream, reply: OsReply, raw: RawEvent)
    requires
        !stream.have_interest,
    ensures
        stream.answer(reply, raw) == EventPoll::Finished,
        stream.after_poll(reply, raw) == stream,
        stream.pending_removal() is None,
        stream.closed() == stream,
{
}

/// Once a poll has met the record of the device's removal, the stream is
/// closed: the poll after it, whatever the driver then reports, answers
/// that the stream has ended, and closing the stream asks for no second
/// removal of the registration.
pub proof fn lemma_gone_closes(
    stream: EventStream,
    reply: OsReply,
    raw: RawEvent,
    next_reply: OsReply,
    next_raw: RawEvent,
)
    requires
        stream.answer(reply, raw) is Gone,
    ensures
        !stream.after_poll(reply, raw).have_interest,
        stream.after_poll(reply, raw).answer(next_reply, next_raw) == EventPoll::Finished,
        stream.after_poll(reply, raw).after_poll(next_reply, next_raw) == stream.after_poll(
            reply,
            raw,
        ),
        stream.after_poll(reply, raw).pending_removal() is None,
{
}

/// Closing a stream twice asks for the removal of its registration at
/// most once: the second time there is nothing left to remove.
pub proof fn lemma_removal_is_idempotent(stream: EventStream)
    ensures
        stream.closed().pending_removal() is None,
        stream.closed().closed() == stream.closed(),
{
}

/// A poll closes an active stream only by meeting the record of the
/// device's removal, and only such a poll asks for the registration to be
/// removed.
pub proof fn lemma_only_gone_closes(stream: EventStream, reply: OsReply, raw: RawEvent)
    requires
        stream.have_interest,
    ensures
        stream.answer(reply, raw) is Gone <==> !stream.after_poll(reply, raw).have_interest,
        stream.answer(reply, raw) is Gone <==> reply.code == 0 && raw.type_ == XWII_EVENT_GONE,
        !(stream.answer(reply, raw) is Finished),
{
}

/// The answers of a stream to a run of polls, the first poll first: each
/// poll comes with the reply of the driver and the record that it filled
/// in.
pub open spec fn answers(stream: EventStream, polls: Seq<(OsReply, RawEvent)>) -> Seq<EventPoll>
    decreases polls.len(),
{
    if polls.len() == 0 {
        Seq::empty()
    } else {
        seq![stream.answer(polls[0].0, polls[0].1)] + answers(
            stream.after_poll(polls[0].0, polls[0].1),
            polls.drop_first(),
        )
    }
}

/// A run of polls gets one answer for each poll.
pub proof fn lemma_answers_len(stream: EventStream, polls: Seq<(OsReply, RawEvent)>)
    ensures
        answers(stream, polls).len() == polls.len(),
    decreases polls.len(),
{
    if polls.len() > 0 {
        lemma_answers_len(
            stream.after_poll(polls[0].0, polls[0].1),
            polls.drop_first(),
        );
    }
}

/// A closed stream answers every poll of a run that it has ended.
pub proof fn lemma_closed_forever(stream: EventStream, polls: Seq<(OsReply, RawEvent)>, k: int)
    requires
        !stream.have_interest,
        0 <= k < polls.len(),
    ensures
        answers(stream, polls).len() == polls.len(),
        answers(stream, polls)[k] == EventPoll::Finished,
    decreases polls.len(),
{
    lemma_answers_len(stream, polls);
    lemma_answers_len(stream, polls.drop_first());
    if k > 0 {
        lemma_closed_forever(stream, polls.drop_first(), k - 1);
    }
}

/// In any run of polls, every poll after the one that met the record of
/// the device's removal answers that the stream has ended. So the
/// removal of the registration is asked for at most once in a run.
pub proof fn lemma_gone_ends_run(
    stream: EventStream,
    polls: Seq<(OsReply, RawEvent)>,
    j: int,
    k: int,
)
    requires
        0 <= j < k < polls.len(),
        answers(stream, polls)[j] is Gone,
    ensures
        answers(stream, polls).len() == polls.len(),
        answers(stream, polls)[k] == EventPoll::Finished,
    decreases polls.len(),
{
    lemma_answers_len(stream, polls);
    let next = stream.after_poll(polls[0].0, polls[0].1);
    lemma_answers_len(next, polls.drop_first());
    if j == 0 {
        lemma_closed_forever(next, polls.drop_first(), k - 1);
    } else {
        lemma_gone_ends_run(next, polls.drop_first(), j - 1, k - 1);
    }
}

} // verus!
