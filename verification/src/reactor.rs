//! The registry of an event loop that waits for readiness events and
//! resumes the tasks that expressed interest in them.
//!
//! The reactor owns no descriptor. Whoever drives it performs the calls
//! to the kernel multiplexer and reports what they returned; the reactor
//! decides which interests count as registered and which continuations
//! are due.

use crate::error::{Error, OsReply};
use crate::interest::{EpollEvent, Interest};
use std::collections::{HashMap, HashSet};
use vstd::prelude::*;

verus! {

broadcast use vstd::std_specs::hash::group_hash_axioms;

/// The number under which the registry files an interest: the descriptor
/// in the upper half of the word and the mask in the lower half, each
/// shifted to be non-negative.
spec fn key_of(interest: Interest) -> u64 {
    ((interest.fd + 0x8000_0000) * 0x1_0000_0000 + (interest.events + 0x8000_0000)) as u64
}

/// Two interests are filed under one number only if they are equal.
proof fn lemma_key_injective(a: Interest, b: Interest)
    ensures
        key_of(a) == key_of(b) <==> a == b,
{
}

fn key(interest: &Interest) -> (k: u64)
    ensures
        k == key_of(*interest),
{
    let hi: u64 = (interest.fd as i64 + 0x8000_0000) as u64;
    let lo: u64 = (interest.events as i64 + 0x8000_0000) as u64;
    hi * 0x1_0000_0000 + lo
}

spec fn interests_of(keys: Set<u64>) -> Set<Interest> {
    Set::new(|i: Interest| keys.contains(key_of(i)))
}

spec fn callbacks_of<W>(wakers: Map<u64, W>) -> Map<Interest, W> {
    Map::new(|i: Interest| wakers.contains_key(key_of(i)), |i: Interest| wakers[key_of(i)])
}

proof fn lemma_interests_insert(keys: Set<u64>, i: Interest)
    ensures
        interests_of(keys.insert(key_of(i))) == interests_of(keys).insert(i),
{
    assert forall|j: Interest| key_of(j) == key_of(i) implies j == i by {
        lemma_key_injective(j, i);
    }
    assert(interests_of(keys.insert(key_of(i))) =~= interests_of(keys).insert(i));
}

proof fn lemma_interests_remove(keys: Set<u64>, i: Interest)
    ensures
        interests_of(keys.remove(key_of(i))) == interests_of(keys).remove(i),
{
    assert forall|j: Interest| key_of(j) == key_of(i) implies j == i by {
        lemma_key_injective(j, i);
    }
    assert(interests_of(keys.remove(key_of(i))) =~= interests_of(keys).remove(i));
}

proof fn lemma_callbacks_insert<W>(wakers: Map<u64, W>, i: Interest, w: W)
    ensures
        callbacks_of(wakers.insert(key_of(i), w)) == callbacks_of(wakers).insert(i, w),
{
    assert forall|j: Interest| key_of(j) == key_of(i) implies j == i by {
        lemma_key_injective(j, i);
    }
    assert(callbacks_of(wakers.insert(key_of(i), w)) =~= callbacks_of(wakers).insert(i, w));
}

proof fn lemma_callbacks_remove<W>(wakers: Map<u64, W>, i: Interest)
    ensures
        callbacks_of(wakers.remove(key_of(i))) == callbacks_of(wakers).remove(i),
{
    assert forall|j: Interest| key_of(j) == key_of(i) implies j == i by {
        lemma_key_injective(j, i);
    }
    assert(callbacks_of(wakers.remove(key_of(i))) =~= callbacks_of(wakers).remove(i));
}

/// The interests that a batch of readiness events stands for, in the
/// order of the batch.
pub open spec fn ready_interests(events: Seq<EpollEvent>) -> Seq<Interest> {
    events.map_values(|e: EpollEvent| e.spec_to_interest())
}

/// The continuations that a batch of ready interests resumes, each with
/// the interest it was stored under, in the order of the batch. A
/// continuation leaves the registry when it is taken, so an interest that
/// is ready twice in one batch resumes its continuation once.
pub open spec fn woken<W>(callbacks: Map<Interest, W>, ready: Seq<Interest>) -> Seq<(Interest, W)>
    decreases ready.len(),
{
    if ready.len() == 0 {
        Seq::empty()
    } else if callbacks.contains_key(ready[0]) {
        seq![(ready[0], callbacks[ready[0]])] + woken(
            callbacks.remove(ready[0]),
            ready.drop_first(),
        )
    } else {
        woken(callbacks, ready.drop_first())
    }
}

/// What registering `interest` answers, given the interests registered
/// so far and the reply of the kernel multiplexer: a duplicate is refused
/// whatever the kernel said, and a failure of the kernel is passed on.
pub open spec fn add_result(registered: Set<Interest>, interest: Interest, reply: OsReply) -> Result<
    (),
    Error,
> {
    if registered.contains(interest) {
        Err(Error::AlreadyRegistered)
    } else if reply.failed() {
        Err(Error::Os(reply.errno))
    } else {
        Ok(())
    }
}

/// The interests registered after registering `interest`: one more if
/// the registration succeeds, the same otherwise.
pub open spec fn after_add(registered: Set<Interest>, interest: Interest, reply: OsReply) -> Set<
    Interest,
> {
    if add_result(registered, interest, reply) is Ok {
        registered.insert(interest)
    } else {
        registered
    }
}

/// What removing `interest` answers, given the continuations stored so
/// far and the reply of the kernel multiplexer: a failure of the kernel
/// is passed on, and otherwise the continuation stored for the interest,
/// if any, is handed over.
pub open spec fn remove_result<W>(
    callbacks: Map<Interest, W>,
    interest: Interest,
    reply: OsReply,
) -> Result<Option<W>, Error> {
    if reply.failed() {
        Err(Error::Os(reply.errno))
    } else if callbacks.contains_key(interest) {
        Ok(Some(callbacks[interest]))
    } else {
        Ok(None)
    }
}

/// The interests registered after removing `interest`.
pub open spec fn after_remove(registered: Set<Interest>, interest: Interest, reply: OsReply) -> Set<
    Interest,
> {
    if reply.failed() {
        registered
    } else {
        registered.remove(interest)
    }
}

/// The continuations stored after removing `interest`.
pub open spec fn callbacks_after_remove<W>(
    callbacks: Map<Interest, W>,
    interest: Interest,
    reply: OsReply,
) -> Map<Interest, W> {
    if reply.failed() {
        callbacks
    } else {
        callbacks.remove(interest)
    }
}

/// What a wake pass answers, given the continuations stored so far, the
/// reply of the wait on the kernel multiplexer and the interests that it
/// found ready.
pub open spec fn wake_result<W>(
    callbacks: Map<Interest, W>,
    reply: OsReply,
    ready: Seq<Interest>,
) -> Result<Seq<(Interest, W)>, Error> {
    if reply.failed() {
        Err(Error::Os(reply.errno))
    } else {
        Ok(woken(callbacks, ready))
    }
}

/// The continuations stored after a wake pass: those of the ready
/// interests are gone.
pub open spec fn callbacks_after_wake<W>(
    callbacks: Map<Interest, W>,
    reply: OsReply,
    ready: Seq<Interest>,
) -> Map<Interest, W> {
    if reply.failed() {
        callbacks
    } else {
        callbacks.remove_keys(ready.to_set())
    }
}

/// An event loop's registry: the interests registered with the kernel
/// multiplexer, and the continuations that wait for them.
///
/// `W` is the handle that resumes a task. The reactor never calls it: it
/// hands it back when it is due.
pub struct Reactor<W> {
    /// The interests registered with the kernel multiplexer.
    registered: HashSet<u64>,
    /// The handles for waking up the interested tasks.
    wakers: HashMap<u64, W>,
}

impl<W> Reactor<W> {
    /// The interests that are registered.
    pub closed spec fn registered(&self) -> Set<Interest> {
        interests_of(self.registered@)
    }

    /// The continuation stored for each interest that has one.
    pub closed spec fn callbacks(&self) -> Map<Interest, W> {
        callbacks_of(self.wakers@)
    }

    /// Creates the registry of a new event loop: nothing is registered
    /// and nobody waits.
    pub fn new() -> (reactor: Self)
        ensures
            reactor.registered() == Set::<Interest>::empty(),
            reactor.callbacks() == Map::<Interest, W>::empty(),
    {
        let reactor = Reactor { registered: HashSet::new(), wakers: HashMap::new() };
        assert(reactor.registered() =~= Set::<Interest>::empty());
        assert(reactor.callbacks() =~= Map::<Interest, W>::empty());
        reactor
    }

    /// Tells whether the interest is registered.
    pub fn is_registered(&self, interest: &Interest) -> (yes: bool)
        ensures
            yes == self.registered().contains(*interest),
    {
        let k = key(interest);
        self.registered.contains(&k)
    }

    /// Tells whether a continuation is stored for the interest.
    pub fn has_callback(&self, interest: &Interest) -> (yes: bool)
        ensures
            yes == self.callbacks().contains_key(*interest),
    {
        let k = key(interest);
        self.wakers.contains_key(&k)
    }

    /// Expresses an interest in a particular kind of event on a file.
    ///
    /// `reply` is what the kernel multiplexer answered to the request to
    /// add the registration. An interest that is already registered is
    /// refused whatever the kernel said; otherwise a failed request is
    /// passed on, and a successful one registers the interest.
    pub fn add_interest(&mut self, interest: &Interest, reply: OsReply) -> (res: Result<(), Error>)
        ensures
            res == add_result(old(self).registered(), *interest, reply),
            final(self).registered() == after_add(old(self).registered(), *interest, reply),
            final(self).callbacks() == old(self).callbacks(),
    {
        let k = key(interest);
        if self.registered.contains(&k) {
            return Err(Error::AlreadyRegistered);
        }
        if reply.code == -1 {
            return Err(Error::Os(reply.errno));
        }
        self.registered.insert(k);
        proof {
            lemma_interests_insert(old(self).registered@, *interest);
        }
        Ok(())
    }

    /// Removes the interest in a particular kind of event on a file.
    ///
    /// `reply` is what the kernel multiplexer answered to the request to
    /// delete the registration. If it failed, the error is passed on and
    /// nothing changes. Otherwise the interest is no longer registered,
    /// and the continuation that was waiting for it, if any, is returned:
    /// the caller resumes it, so that no task is left waiting for a
    /// descriptor that is gone.
    pub fn remove_interest(&mut self, interest: &Interest, reply: OsReply) -> (res: Result<
        Option<W>,
        Error,
    >)
        ensures
            res == remove_result(old(self).callbacks(), *interest, reply),
            final(self).registered() == after_remove(old(self).registered(), *interest, reply),
            final(self).callbacks() == callbacks_after_remove(
                old(self).callbacks(),
                *interest,
                reply,
            ),
    {
        if reply.code == -1 {
            return Err(Error::Os(reply.errno));
        }
        let k = key(interest);
        self.registered.remove(&k);
        let waker = self.wakers.remove(&k);
        proof {
            lemma_interests_remove(old(self).registered@, *interest);
            lemma_callbacks_remove(old(self).wakers@, *interest);
        }
        Ok(waker)
    }

    /// Stores the task waker to be handed back once an event that matches
    /// the given interest description occurs. A continuation stored
    /// earlier for the same interest is replaced.
    ///
    /// The associated task is expected to read all available data from
    /// the descriptor once woken up.
    pub fn set_callback(&mut self, interest: Interest, waker: W)
        ensures
            final(self).callbacks() == old(self).callbacks().insert(interest, waker),
            final(self).registered() == old(self).registered(),
    {
        let k = key(&interest);
        self.wakers.insert(k, waker);
        proof {
            lemma_callbacks_insert(old(self).wakers@, interest, waker);
        }
    }

    /// Takes the continuations that a wait on the kernel multiplexer
    /// found due.
    ///
    /// `reply` is what the wait returned and `events` the readiness
    /// events that it reported. A failed wait is passed on and changes
    /// nothing. Otherwise each event is read back as an interest, in
    /// order; where a continuation is stored for it, it leaves the
    /// registry and joins the result. The caller resumes every
    /// continuation of the result once.
    pub fn wake_ready(&mut self, reply: OsReply, events: &Vec<EpollEvent>) -> (res: Result<
        Vec<(Interest, W)>,
        Error,
    >)
        requires
            forall|k: int| 0 <= k < events.len() ==> (#[trigger] events[k]).spec_is_interest(),
        ensures
            final(self).registered() == old(self).registered(),
            match res {
                Ok(list) => wake_result(old(self).callbacks(), reply, ready_interests(events@))
                    == Ok::<Seq<(Interest, W)>, Error>(list@),
                Err(e) => wake_result(old(self).callbacks(), reply, ready_interests(events@))
                    == Err::<Seq<(Interest, W)>, Error>(e),
            },
            final(self).callbacks() == callbacks_after_wake(
                old(self).callbacks(),
                reply,
                ready_interests(events@),
            ),
    {
        if reply.code == -1 {
            return Err(Error::Os(reply.errno));
        }
        let ghost ready = ready_interests(events@);
        let ghost before = self.callbacks();
        let mut out: Vec<(Interest, W)> = Vec::new();
        let mut k: usize = 0;
        proof {
            assert(ready.skip(0) =~= ready);
            assert(ready.take(0).to_set() =~= Set::<Interest>::empty());
            assert(before.remove_keys(Set::<Interest>::empty()) =~= before);
        }
        while k < events.len()
            invariant
                0 <= k <= events.len(),
                ready == ready_interests(events@),
                forall|j: int| 0 <= j < events.len() ==> (#[trigger] events[j]).spec_is_interest(),
                self.registered() == old(self).registered(),
                out@ + woken(self.callbacks(), ready.skip(k as int)) == woken(before, ready),
                self.callbacks() == before.remove_keys(ready.take(k as int).to_set()),
            decreases events.len() - k,
        {
            let interest = events[k].to_interest();
            let ghost current = self.callbacks();
            let ghost stored = self.wakers@;
            let ghost rest = ready.skip(k as int);
            let ghost taken = out@;
            let h = key(&interest);
            let found = self.wakers.remove(&h);
            proof {
                lemma_callbacks_remove(stored, interest);
                assert(rest[0] == interest);
                assert(rest.drop_first() =~= ready.skip(k + 1));
                assert(ready.take(k + 1) =~= ready.take(k as int).push(interest));
                ready.take(k as int).lemma_push_to_set_commute(interest);
                assert(ready.take(k + 1).to_set() =~= ready.take(k as int).to_set().insert(
                    interest,
                ));
                assert(before.remove_keys(ready.take(k + 1).to_set()) =~= current.remove(interest));
            }
            match found {
                Some(waker) => {
                    out.push((interest, waker));
                    proof {
                        assert(out@ =~= taken + seq![(interest, waker)]);
                        assert(out@ + woken(self.callbacks(), ready.skip(k + 1)) =~= taken + woken(
                            current,
                            rest,
                        ));
                    }
                },
                None => {
                    proof {
                        assert(current.remove(interest) =~= current);
                    }
                },
            }
            k += 1;
        }
        proof {
            assert(ready.skip(k as int) =~= Seq::<Interest>::empty());
            assert(ready.take(k as int) =~= ready);
            assert(out@ =~= woken(before, ready));
        }
        Ok(out)
    }
}

/// Registering an interest twice in a row fails the second time with
/// the error of a conflict, whatever the kernel multiplexer says to the
/// second request; once the interest has been removed, it can be
/// registered again.
pub proof fn lemma_double_add_conflicts(
    registered: Set<Interest>,
    interest: Interest,
    first: OsReply,
    second: OsReply,
    removal: OsReply,
    third: OsReply,
)
    requires
        add_result(registered, interest, first) is Ok,
        !removal.failed(),
        !third.failed(),
    ensures
        add_result(after_add(registered, interest, first), interest, second) == Err::<(), Error>(
            Error::AlreadyRegistered,
        ),
        after_add(after_add(registered, interest, first), interest, second) == after_add(
            registered,
            interest,
            first,
        ),
        add_result(
            after_remove(after_add(registered, interest, first), interest, removal),
            interest,
            third,
        ) == Ok::<(), Error>(()),
{
}

/// An interest is registered exactly if it was added with success and
/// not removed since: adding makes it registered, removing makes it
/// unregistered, and neither touches another interest.
pub proof fn lemma_registration_tracks(
    registered: Set<Interest>,
    interest: Interest,
    other: Interest,
    reply: OsReply,
)
    requires
        other != interest,
    ensures
        add_result(registered, interest, reply) is Ok ==> after_add(
            registered,
            interest,
            reply,
        ).contains(interest),
        !reply.failed() ==> !after_remove(registered, interest, reply).contains(interest),
        after_add(registered, interest, reply).contains(other) == registered.contains(other),
        after_remove(registered, interest, reply).contains(other) == registered.contains(other),
{
}

/// Removing an interest whose continuation is pending hands that
/// continuation over to be resumed, as part of a removal that the
/// kernel multiplexer accepted, and leaves none stored for the interest.
pub proof fn lemma_remove_wakes<W>(callbacks: Map<Interest, W>, interest: Interest, reply: OsReply)
    requires
        callbacks.contains_key(interest),
        !reply.failed(),
    ensures
        remove_result(callbacks, interest, reply) == Ok::<Option<W>, Error>(
            Some(callbacks[interest]),
        ),
        !callbacks_after_remove(callbacks, interest, reply).contains_key(interest),
{
}

/// The last continuation stored for an interest is the one that counts:
/// storing a second one replaces the first.
pub proof fn lemma_last_callback_wins<W>(
    callbacks: Map<Interest, W>,
    interest: Interest,
    first: W,
    second: W,
)
    ensures
        callbacks.insert(interest, first).insert(interest, second) == callbacks.insert(
            interest,
            second,
        ),
{
    assert(callbacks.insert(interest, first).insert(interest, second) =~= callbacks.insert(
        interest,
        second,
    ));
}

/// What a wake pass resumes, entry by entry: each entry is a
/// continuation that was stored under a ready interest, and no interest
/// occurs in two entries, so that no continuation is resumed twice for
/// one registration.
pub proof fn lemma_woken_entries<W>(callbacks: Map<Interest, W>, ready: Seq<Interest>)
    ensures
        forall|j: int|
            0 <= j < woken(callbacks, ready).len() ==> {
                let entry = #[trigger] woken(callbacks, ready)[j];
                &&& callbacks.contains_key(entry.0)
                &&& callbacks[entry.0] == entry.1
                &&& ready.contains(entry.0)
            },
        forall|j: int, k: int|
            0 <= j < k < woken(callbacks, ready).len() ==> (#[trigger] woken(callbacks, ready)[j]).0
                != (#[trigger] woken(callbacks, ready)[k]).0,
    decreases ready.len(),
{
    if ready.len() > 0 {
        let head = ready[0];
        let tail = ready.drop_first();
        if callbacks.contains_key(head) {
            let rest = woken(callbacks.remove(head), tail);
            lemma_woken_entries(callbacks.remove(head), tail);
            let all = woken(callbacks, ready);
            assert(all == seq![(head, callbacks[head])] + rest);
            assert forall|j: int| 0 <= j < all.len() implies {
                let entry = #[trigger] all[j];
                &&& callbacks.contains_key(entry.0)
                &&& callbacks[entry.0] == entry.1
                &&& ready.contains(entry.0)
            } by {
                if j > 0 {
                    let entry = rest[j - 1];
                    assert(all[j] == entry);
                    assert(tail.contains(entry.0));
                    let at = choose|at: int| 0 <= at < tail.len() && tail[at] == entry.0;
                    assert(ready[at + 1] == entry.0);
                } else {
                    assert(ready[0] == head);
                }
            }
            assert forall|j: int, k: int| 0 <= j < k < all.len() implies (#[trigger] all[j]).0 != (
            #[trigger] all[k]).0 by {
                assert(all[k] == rest[k - 1]);
                if j > 0 {
                    assert(all[j] == rest[j - 1]);
                } else {
                    assert(callbacks.remove(head).contains_key(rest[k - 1].0));
                }
            }
        } else {
            lemma_woken_entries(callbacks, tail);
            let all = woken(callbacks, ready);
            assert(all == woken(callbacks, tail));
            assert forall|j: int| 0 <= j < all.len() implies ready.contains((#[trigger] all[j]).0) by {
                let entry = all[j];
                assert(tail.contains(entry.0));
                let at = choose|at: int| 0 <= at < tail.len() && tail[at] == entry.0;
                assert(ready[at + 1] == entry.0);
            }
        }
    }
}

/// A continuation that is stored under an interest that becomes ready
/// is resumed by the wake pass, and has left the registry after it.
pub proof fn lemma_ready_is_woken<W>(
    callbacks: Map<Interest, W>,
    ready: Seq<Interest>,
    interest: Interest,
)
    requires
        callbacks.contains_key(interest),
        ready.contains(interest),
    ensures
        woken(callbacks, ready).contains((interest, callbacks[interest])),
        !callbacks.remove_keys(ready.to_set()).contains_key(interest),
    decreases ready.len(),
{
    let head = ready[0];
    let tail = ready.drop_first();
    let all = woken(callbacks, ready);
    if head == interest {
        assert(all[0] == (interest, callbacks[interest]));
    } else {
        let at = choose|at: int| 0 <= at < ready.len() && ready[at] == interest;
        assert(tail[at - 1] == interest);
        if callbacks.contains_key(head) {
            lemma_ready_is_woken(callbacks.remove(head), tail, interest);
            let rest = woken(callbacks.remove(head), tail);
            let found = choose|j: int| 0 <= j < rest.len() && rest[j] == (interest, callbacks[interest]);
            assert(all[found + 1] == (interest, callbacks[interest]));
        } else {
            lemma_ready_is_woken(callbacks, tail, interest);
        }
    }
}

/// A wake pass touches only what is ready: a continuation stored under
/// an interest that is not ready stays where it is and is not resumed.
pub proof fn lemma_unready_stays<W>(
    callbacks: Map<Interest, W>,
    ready: Seq<Interest>,
    interest: Interest,
)
    requires
        callbacks.contains_key(interest),
        !ready.contains(interest),
    ensures
        callbacks.remove_keys(ready.to_set()).contains_key(interest),
        callbacks.remove_keys(ready.to_set())[interest] == callbacks[interest],
        forall|j: int|
            0 <= j < woken(callbacks, ready).len() ==> (#[trigger] woken(callbacks, ready)[j]).0
                != interest,
{
    lemma_woken_entries(callbacks, ready);
}

} // verus!
