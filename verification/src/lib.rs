//! A bridge between callback-based completion and poll-based futures.
//!
//! An asynchronous operation in callback style takes a one-shot completion
//! function and invokes it exactly once, possibly from another thread, when
//! the work finishes.  A poll-based future is instead asked repeatedly
//! "is the result ready yet?" by a driving scheduler.  The adapter here,
//! [`CallbackFuture`], is the state machine that performs the bridging: it
//! decides, at every poll and at every completion, what the driving runtime
//! must do next, and it owns the single result slot that the completion
//! callback fills and the poll path drains.
//!
//! The callable values themselves (the loader closure and the completion
//! callback handed to it), the lock around the shared slot, and the waker are
//! the runtime's business: the adapter only directs them.  On the first poll
//! it answers [`PollStep::InvokeLoader`] — take the loader out and run it,
//! handing it the completion callback — and from then on it reports the
//! stored value once, the first time a poll finds the slot filled.

use vstd::prelude::*;

verus! {

/// Whether the adapter's one-shot loader is still waiting to run.
///
/// An adapter constructed already holding its value never had a loader; the
/// poll protocol treats that exactly like a loader that was already taken
/// out, so both are `AlreadyRun`.
#[derive(Clone, Copy, Debug, PartialEq, Eq)]
pub enum LoaderState {
    /// The loader is still held, untouched; the first poll takes it out.
    NotYetRun,
    /// The loader was taken out (or never existed) and can never run again.
    AlreadyRun,
}

/// The location that holds the eventual single value.
///
/// In the running system this is the one piece of state shared between the
/// completion callback (which stores, possibly from a foreign thread) and
/// the poll path (which takes).  The runtime serialises the two accesses;
/// the slot itself fixes what each access does to the contents.
#[derive(Debug, PartialEq, Eq)]
pub struct ResultSlot<T> {
    /// The stored value, if the completion callback has delivered one that
    /// no poll has extracted yet.
    pub value: Option<T>,
}

impl<T> ResultSlot<T> {
    /// An empty slot, awaiting the completion callback.
    pub fn empty() -> (r: ResultSlot<T>)
        ensures
            r.value is None,
    {
        ResultSlot { value: None }
    }

    /// A slot pre-populated with `value`.
    pub fn filled(value: T) -> (r: ResultSlot<T>)
        ensures
            r.value == Some(value),
    {
        ResultSlot { value: Some(value) }
    }

    /// Store `value`, overwriting whatever was there: the completion
    /// callback is contractually invoked at most once, and a second
    /// invocation is not detected — the last write wins.
    pub fn store(&mut self, value: T)
        ensures
            final(self).value == Some(value),
    {
        self.value = Some(value);
    }

    /// Take the contents out, leaving the slot empty.  A value taken is
    /// gone: there is no replay.
    pub fn take(&mut self) -> (r: Option<T>)
        ensures
            final(self).value is None,
            r == old(self).value,
    {
        self.value.take()
    }
}

/// What one poll decides: the action the driving runtime must take next.
#[derive(Debug, PartialEq, Eq)]
pub enum PollStep<T> {
    /// Take the real loader out and invoke it, handing it the completion
    /// callback; report "not ready" to the scheduler for this round.  The
    /// callback, when it eventually runs, stores its value and signals the
    /// retained waker so the scheduler polls again.
    InvokeLoader,
    /// The stored value, extracted from the slot.  This is terminal: the
    /// adapter is single-use and yields its value exactly once.
    Ready(T),
    /// Nothing to do; the operation is still outstanding and the waker will
    /// signal when the slot is filled.
    Pending,
}

/// The adapter between a one-shot completion callback and a poll-based
/// future: a single-shot value pipe.
///
/// It is created either pending with a loader ([`CallbackFuture::new`]) or
/// immediately ready with a value ([`CallbackFuture::ready`]), moves to
/// awaiting-callback when the first poll takes the loader, to fulfilled when
/// the completion callback stores a value, and to consumed the moment a poll
/// extracts that value.
pub struct CallbackFuture<T> {
    /// Whether the one-shot loader is still waiting for its single run.
    pub loader: LoaderState,
    /// The shared result slot, written by the completion callback and
    /// drained by the poll path.
    pub slot: ResultSlot<T>,
}

impl<T> CallbackFuture<T> {
    /// The loader has not run yet: no work has started, because no consumer
    /// has expressed interest by polling.
    pub open spec fn pending_loader(self) -> bool {
        self.loader is NotYetRun
    }

    /// The value currently held in the result slot.
    pub open spec fn stored(self) -> Option<T> {
        self.slot.value
    }

    /// The state in which [`CallbackFuture::new`] constructs the adapter:
    /// loader untouched, slot empty.
    pub open spec fn spec_new() -> CallbackFuture<T> {
        CallbackFuture { loader: LoaderState::NotYetRun, slot: ResultSlot { value: None } }
    }

    /// The state in which [`CallbackFuture::ready`] constructs the adapter:
    /// no loader, slot pre-populated with `value`.
    pub open spec fn spec_ready(value: T) -> CallbackFuture<T> {
        CallbackFuture { loader: LoaderState::AlreadyRun, slot: ResultSlot { value: Some(value) } }
    }

    /// What a poll reports from state `self`.
    ///
    /// A still-present loader takes precedence: the poll that takes it
    /// reports "not ready" regardless of the slot, even if the completion
    /// callback fires synchronously inside the loader call — the re-poll
    /// triggered by the wake signal picks the value up.
    pub open spec fn spec_poll_step(self) -> PollStep<T> {
        if self.pending_loader() {
            PollStep::InvokeLoader
        } else {
            match self.stored() {
                Some(value) => PollStep::Ready(value),
                None => PollStep::Pending,
            }
        }
    }

    /// The state a poll leaves behind: the loader is gone for good, and the
    /// slot is drained unless this very poll was the one that took the
    /// loader out.
    pub open spec fn spec_poll_next(self) -> CallbackFuture<T> {
        CallbackFuture {
            loader: LoaderState::AlreadyRun,
            slot: ResultSlot { value: if self.pending_loader() { self.stored() } else { None } },
        }
    }

    /// The state after the completion callback delivers `value`: the slot is
    /// overwritten (last write wins), the loader state is untouched.
    pub open spec fn spec_complete(self, value: T) -> CallbackFuture<T> {
        CallbackFuture { loader: self.loader, slot: ResultSlot { value: Some(value) } }
    }

    /// Creates a new adapter in the pending-with-loader state.
    ///
    /// The loader callable itself lives with the driving runtime, which must
    /// keep it until `poll` answers [`PollStep::InvokeLoader`], then take it
    /// out and invoke it exactly once with the completion callback.  Nothing
    /// runs before that first poll: work is deferred until a consumer has
    /// expressed interest.
    pub fn new() -> (r: CallbackFuture<T>)
        ensures
            r == Self::spec_new(),
    {
        CallbackFuture { loader: LoaderState::NotYetRun, slot: ResultSlot::empty() }
    }

    /// Creates an adapter that resolves immediately to `value`: no loader,
    /// slot pre-populated, first poll completes synchronously.
    pub fn ready(value: T) -> (r: CallbackFuture<T>)
        ensures
            r == Self::spec_ready(value),
    {
        CallbackFuture { loader: LoaderState::AlreadyRun, slot: ResultSlot::filled(value) }
    }

    /// One poll by the driving scheduler.
    ///
    /// In order of precedence: if the loader is still present it is marked
    /// taken and the runtime is told to invoke it ("not ready" for this
    /// round); otherwise the slot is drained, and a value found there is
    /// reported ready — the only path that ever produces the final result.
    /// An empty slot means the operation is still outstanding, or the value
    /// was already consumed: the report is "not ready" either way.
    pub fn poll(&mut self) -> (step: PollStep<T>)
        ensures
            step == old(self).spec_poll_step(),
            *final(self) == old(self).spec_poll_next(),
    {
        match self.loader {
            LoaderState::NotYetRun => {
                self.loader = LoaderState::AlreadyRun;
                PollStep::InvokeLoader
            }
            LoaderState::AlreadyRun => {
                match self.slot.take() {
                    Some(value) => PollStep::Ready(value),
                    None => PollStep::Pending,
                }
            }
        }
    }

    /// The store half of the completion callback: deliver `value` into the
    /// shared slot.  The runtime signals the retained waker right after, so
    /// the store is observed by the poll the wake triggers.  Invoking the
    /// completion callback twice is a caller contract violation that is not
    /// detected: the slot is simply overwritten, last write wins.
    pub fn complete(&mut self, value: T)
        ensures
            *final(self) == old(self).spec_complete(value),
    {
        self.slot.store(value);
    }
}

/// One thing that can happen to an adapter: a poll by the scheduler, or a
/// delivery by the completion callback.
pub enum AdapterEvent<T> {
    /// The scheduler polled the adapter.
    Polled,
    /// The completion callback delivered a value.
    Completed(T),
}

impl<T> CallbackFuture<T> {
    /// The state after one event.
    pub open spec fn spec_step(self, event: AdapterEvent<T>) -> CallbackFuture<T> {
        match event {
            AdapterEvent::Polled => self.spec_poll_next(),
            AdapterEvent::Completed(value) => self.spec_complete(value),
        }
    }

    /// How many of the polls in `events` tell the runtime to invoke the
    /// loader, starting from state `self`.
    pub open spec fn spec_invoke_count(self, events: Seq<AdapterEvent<T>>) -> nat
        decreases events.len(),
    {
        if events.len() == 0 {
            0
        } else {
            let here: nat = if events[0] is Polled && self.spec_poll_step() is InvokeLoader {
                1
            } else {
                0
            };
            here + self.spec_step(events[0]).spec_invoke_count(events.drop_first())
        }
    }

    /// How many of the events in `events` are completions.
    pub open spec fn spec_completion_count(events: Seq<AdapterEvent<T>>) -> nat
        decreases events.len(),
    {
        if events.len() == 0 {
            0
        } else {
            let here: nat = if events[0] is Completed {
                1
            } else {
                0
            };
            here + Self::spec_completion_count(events.drop_first())
        }
    }

    /// How many of the polls in `events` yield a value, starting from state
    /// `self`.
    pub open spec fn spec_delivery_count(self, events: Seq<AdapterEvent<T>>) -> nat
        decreases events.len(),
    {
        if events.len() == 0 {
            0
        } else {
            let here: nat = if events[0] is Polled && self.spec_poll_step() is Ready {
                1
            } else {
                0
            };
            here + self.spec_step(events[0]).spec_delivery_count(events.drop_first())
        }
    }

    /// The state after `n` consecutive polls.
    pub open spec fn spec_poll_n(self, n: nat) -> CallbackFuture<T>
        decreases n,
    {
        if n == 0 {
            self
        } else {
            self.spec_poll_next().spec_poll_n((n - 1) as nat)
        }
    }
}

/// Once the loader has been taken out, no later poll or completion ever asks
/// for it again.
pub proof fn lemma_taken_loader_never_invoked<T>(f: CallbackFuture<T>, events: Seq<AdapterEvent<T>>)
    requires
        !f.pending_loader(),
    ensures
        f.spec_invoke_count(events) == 0,
    decreases events.len(),
{
    if events.len() != 0 {
        lemma_taken_loader_never_invoked(f.spec_step(events[0]), events.drop_first());
    }
}

/// The loader is invoked at most once per adapter instance: over any
/// sequence of polls and completions whatsoever — in particular under
/// multiple polls before completion — at most one poll answers
/// [`PollStep::InvokeLoader`].
pub proof fn lemma_loader_invoked_at_most_once<T>(f: CallbackFuture<T>, events: Seq<AdapterEvent<T>>)
    ensures
        f.spec_invoke_count(events) <= 1,
    decreases events.len(),
{
    if events.len() != 0 {
        let next = f.spec_step(events[0]);
        if events[0] is Polled {
            lemma_taken_loader_never_invoked(next, events.drop_first());
        } else {
            lemma_loader_invoked_at_most_once(next, events.drop_first());
        }
    }
}

/// The adapter never delivers more values than were completed into it: over
/// any sequence of polls and completions whatsoever, the number of polls
/// that yield a value is at most the number of completions, plus one for a
/// value the adapter held at the start.  In particular, whatever the
/// interleaving of a racing completion callback with the scheduler's polls,
/// a single completion is never double-delivered.
pub proof fn lemma_never_delivers_more_than_completed<T>(
    f: CallbackFuture<T>,
    events: Seq<AdapterEvent<T>>,
)
    ensures
        f.spec_delivery_count(events) <= CallbackFuture::<T>::spec_completion_count(events) + (
        if f.stored() is Some {
            1nat
        } else {
            0nat
        }),
    decreases events.len(),
{
    if events.len() != 0 {
        lemma_never_delivers_more_than_completed(f.spec_step(events[0]), events.drop_first());
    }
}

/// Polls that find the loader gone and the slot empty report "not ready"
/// and leave the adapter exactly as it was, however many there are.
pub proof fn lemma_waiting_polls_change_nothing<T>(f: CallbackFuture<T>, n: nat)
    requires
        !f.pending_loader(),
        f.stored() is None,
    ensures
        f.spec_poll_n(n) == f,
    decreases n,
{
    if n != 0 {
        assert(f.spec_poll_next() == f);
        lemma_waiting_polls_change_nothing(f, (n - 1) as nat);
    }
}

/// A ready-constructed adapter yields its value immediately, on the first
/// poll.
pub proof fn lemma_ready_yields_on_first_poll<T>(value: T)
    ensures
        CallbackFuture::spec_ready(value).spec_poll_step() == PollStep::Ready(value),
{
}

/// A loader that invokes the completion callback synchronously, inside its
/// own body: the first poll takes and runs the loader, the value is already
/// stored when that poll returns, and the single re-poll triggered by the
/// wake signal yields it.
pub proof fn lemma_sync_completion_yields_after_one_repoll<T>(value: T)
    ensures
        ({
            let fresh = CallbackFuture::<T>::spec_new();
            let completed = fresh.spec_poll_next().spec_complete(value);
            fresh.spec_poll_step() is InvokeLoader
                && completed.spec_poll_step() == PollStep::Ready(value)
        }),
{
}

/// A loader that invokes the completion callback asynchronously, after an
/// arbitrary delay: every poll in between reports "not ready" and changes
/// nothing, and the first poll after the callback finally stores the value
/// yields it — regardless of the delay's length.
pub proof fn lemma_async_completion_yields_after_any_delay<T>(value: T, delay: nat)
    ensures
        ({
            let invoked = CallbackFuture::<T>::spec_new().spec_poll_next();
            let waited = invoked.spec_poll_n(delay);
            waited == invoked
                && waited.spec_poll_step() is Pending
                && waited.spec_complete(value).spec_poll_step() == PollStep::Ready(value)
        }),
{
    lemma_waiting_polls_change_nothing(CallbackFuture::<T>::spec_new().spec_poll_next(), delay);
}

/// Re-polling after the value has been extracted: the loader is gone and the
/// slot stays empty, so every further poll reports "not ready", forever —
/// the adapter is single-use and never replays its value.
pub proof fn lemma_consumed_never_yields_again<T>(f: CallbackFuture<T>, n: nat)
    requires
        !f.pending_loader(),
        f.stored() is None,
    ensures
        f.spec_poll_n(n).spec_poll_step() is Pending,
{
    lemma_waiting_polls_change_nothing(f, n);
}

/// The construction race: the completion callback may fire from another
/// thread at any point relative to the polls that follow the one that
/// invoked the loader.  Whatever the interleaving, the adapter delivers the
/// correct value exactly once — the first poll after the store yields it,
/// and every poll after that extraction reports "not ready" forever.
pub proof fn lemma_race_delivers_exactly_once<T>(value: T, polls_before: nat, polls_after: nat)
    ensures
        ({
            let invoked = CallbackFuture::<T>::spec_new().spec_poll_next();
            let completed = invoked.spec_poll_n(polls_before).spec_complete(value);
            completed.spec_poll_step() == PollStep::Ready(value)
                && completed.spec_poll_next().spec_poll_n(polls_after).spec_poll_step() is Pending
        }),
{
    let invoked = CallbackFuture::<T>::spec_new().spec_poll_next();
    lemma_waiting_polls_change_nothing(invoked, polls_before);
    let consumed = invoked.spec_poll_n(polls_before).spec_complete(value).spec_poll_next();
    lemma_waiting_polls_change_nothing(consumed, polls_after);
}

/// Three adapters composed in a join: one already ready, one whose loader
/// completes synchronously, one whose callback fires after an arbitrary
/// delay.  Each yields its own value on the poll that finds it stored, so
/// the join observes the values in the adapters' positional order,
/// independent of completion timing.
pub proof fn lemma_join_yields_in_positional_order<T>(first: T, second: T, third: T, delay: nat)
    ensures
        ({
            let ready_one = CallbackFuture::spec_ready(first);
            let sync_two = CallbackFuture::<T>::spec_new().spec_poll_next().spec_complete(second);
            let async_three = CallbackFuture::<T>::spec_new()
                .spec_poll_next()
                .spec_poll_n(delay)
                .spec_complete(third);
            (ready_one.spec_poll_step(), sync_two.spec_poll_step(), async_three.spec_poll_step())
                == (PollStep::Ready(first), PollStep::Ready(second), PollStep::Ready(third))
        }),
{
    lemma_waiting_polls_change_nothing(CallbackFuture::<T>::spec_new().spec_poll_next(), delay);
}

} // verus!
