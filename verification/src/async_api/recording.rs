//! Event queue behind `AsyncSCRecordingOutput`: recording lifecycle events,
//! delivered in order, with the queue ending once the recording finished,
//! failed, or its delegate went away.
//!
//! The queue is shared between the delegate and its consumers behind a lock.
//! What one call finds there depends on the other threads, so each function
//! over the shared queue returns, as a ghost pair, the queue as it found and
//! left it, and states its transition over that pair exactly; the lock keeps
//! the queue well formed between calls.

use super::waiters::{
    entries_kept, has_token, lemma_has_token_iff_token_seq, lemma_has_token_of_token_seq, lemma_push_contains,
    lemma_tokens_below_after_removal, lemma_tokens_below_of_token_seq, register_waker, token_seq,
    tokens_below, tokens_unique, unregister_waker, wake_all, QueuePoll, RegisteredWaker,
};
use std::collections::VecDeque;
use std::sync::Arc;
use std::task::Waker;
use vstd::prelude::*;
use vstd::rwlock::{RwLock, RwLockPredicate};

verus! {

/// A recording lifecycle event.
#[derive(Debug, Clone, PartialEq, Eq)]
pub enum RecordingEvent {
    Started,
    Finished,
    Failed(String),
}

/// Whether an event ends the recording.
pub open spec fn is_terminal(event: RecordingEvent) -> bool {
    event is Finished || event is Failed
}

/// Mathematical model of the event queue.
pub struct RecordingQueueModel {
    pub events: Seq<RecordingEvent>,
    pub waiters: Seq<RegisteredWaker>,
    pub finished: bool,
    pub next_waiter: nat,
}

/// Well-formed model: one entry per parked consumer, every parked token
/// already handed out.
pub open spec fn recording_model_wf(m: RecordingQueueModel) -> bool {
    &&& m.next_waiter <= u64::MAX
    &&& tokens_unique(m.waiters)
    &&& tokens_below(m.waiters, m.next_waiter)
}

/// The queue after an event arrives (`None`: the delegate went away). A
/// finishing or failing event, or the delegate's end, finishes the queue;
/// every parked consumer is released for waking.
pub open spec fn after_event(m: RecordingQueueModel, event: Option<RecordingEvent>) -> RecordingQueueModel {
    match event {
        Some(e) => RecordingQueueModel {
            events: m.events.push(e),
            finished: m.finished || is_terminal(e),
            waiters: Seq::empty(),
            ..m
        },
        None => RecordingQueueModel { finished: true, waiters: Seq::empty(), ..m },
    }
}

/// What a poll yields: the oldest event, end of stream once finished and
/// drained, or nothing yet.
pub open spec fn event_poll_result(m: RecordingQueueModel) -> QueuePoll<RecordingEvent> {
    if m.events.len() > 0 {
        QueuePoll::Ready(Some(m.events[0]))
    } else if m.finished {
        QueuePoll::Ready(None)
    } else {
        QueuePoll::Pending
    }
}

/// The events left after the oldest one is taken.
pub open spec fn events_after_take(m: RecordingQueueModel) -> Seq<RecordingEvent> {
    if m.events.len() > 0 {
        m.events.drop_first()
    } else {
        m.events
    }
}

/// The state guarded by the recording queue's lock.
pub struct AsyncRecordingState {
    events: VecDeque<RecordingEvent>,
    waiters: Vec<RegisteredWaker>,
    finished: bool,
    next_waiter: u64,
}

impl View for AsyncRecordingState {
    type V = RecordingQueueModel;

    closed spec fn view(&self) -> RecordingQueueModel {
        RecordingQueueModel {
            events: self.events@,
            waiters: self.waiters@,
            finished: self.finished,
            next_waiter: self.next_waiter as nat,
        }
    }
}

impl AsyncRecordingState {
    /// Well-formedness of the state.
    pub closed spec fn wf(&self) -> bool {
        recording_model_wf(self@)
    }

    /// A well-formed state has a well-formed model.
    pub proof fn lemma_wf_model(&self)
        requires
            self.wf(),
        ensures
            recording_model_wf(self@),
    {
    }

    /// An empty, unfinished queue.
    pub fn new() -> (s: Self)
        ensures
            s.wf(),
            s@ == (RecordingQueueModel {
                events: Seq::empty(),
                waiters: Seq::empty(),
                finished: false,
                next_waiter: 0,
            }),
    {
        let s = AsyncRecordingState {
            events: VecDeque::new(),
            waiters: Vec::new(),
            finished: false,
            next_waiter: 0,
        };
        proof {
            assert(s@ =~= (RecordingQueueModel {
                events: Seq::empty(),
                waiters: Seq::empty(),
                finished: false,
                next_waiter: 0,
            }));
        }
        s
    }

    /// Record an event (`None`: the delegate went away). Returns the parked
    /// consumers to wake once the lock is dropped.
    pub fn push_event(&mut self, event: Option<RecordingEvent>) -> (woken: Vec<RegisteredWaker>)
        requires
            old(self).wf(),
        ensures
            final(self).wf(),
            final(self)@ == after_event(old(self)@, event),
            woken@ == old(self)@.waiters,
    {
        match event {
            Some(e) => {
                let terminal = match &e {
                    RecordingEvent::Finished => true,
                    RecordingEvent::Failed(_) => true,
                    RecordingEvent::Started => false,
                };
                self.finished = self.finished || terminal;
                self.events.push_back(e);
            },
            None => {
                self.finished = true;
            },
        }
        let mut waiters: Vec<RegisteredWaker> = Vec::new();
        std::mem::swap(&mut waiters, &mut self.waiters);
        proof {
            assert(self@ =~= after_event(old(self)@, event));
        }
        waiters
    }

    /// Hand out a fresh consumer token, or `None` once tokens are exhausted.
    pub fn allocate_waiter(&mut self) -> (token: Option<u64>)
        requires
            old(self).wf(),
        ensures
            final(self).wf(),
            old(self)@.next_waiter < u64::MAX ==> token == Some(old(self)@.next_waiter as u64)
                && final(self)@ == (RecordingQueueModel {
                    next_waiter: old(self)@.next_waiter + 1,
                    ..old(self)@
                }),
            old(self)@.next_waiter >= u64::MAX ==> token is None && final(self)@ == old(self)@,
    {
        if self.next_waiter == u64::MAX {
            return None;
        }
        let t = self.next_waiter;
        self.next_waiter = self.next_waiter + 1;
        proof {
            assert(self@ =~= (RecordingQueueModel { next_waiter: old(self)@.next_waiter + 1, ..old(self)@ }));
        }
        Some(t)
    }

    /// One past the largest consumer token handed out so far.
    pub fn next_waiter_bound(&self) -> (n: u64)
        ensures
            n == self@.next_waiter,
    {
        self.next_waiter
    }

    /// Poll for the next event on behalf of consumer `waiter`: the oldest
    /// event, end of stream once finished and drained (in both cases the
    /// consumer is no longer parked), or park the consumer with `waker`. The
    /// second component holds the wakers leaving the registry.
    pub fn poll_next(&mut self, waiter: u64, waker: Waker) -> (out: (QueuePoll<RecordingEvent>, Vec<Waker>))
        requires
            old(self).wf(),
            waiter < old(self)@.next_waiter,
        ensures
            final(self).wf(),
            out.0 == event_poll_result(old(self)@),
            final(self)@.events == events_after_take(old(self)@),
            final(self)@.finished == old(self)@.finished,
            final(self)@.next_waiter == old(self)@.next_waiter,
            out.0 is Pending ==> has_token(final(self)@.waiters, waiter),
            out.0 is Ready ==> !has_token(final(self)@.waiters, waiter),
            forall|t: u64|
                t != waiter ==> (has_token(final(self)@.waiters, t) <==> has_token(
                    old(self)@.waiters,
                    t,
                )),
            entries_kept(old(self)@.waiters, final(self)@.waiters, waiter),
    {
        let mut leftovers: Vec<Waker> = Vec::new();
        match self.events.pop_front() {
            Some(event) => {
                let removed = unregister_waker(&mut self.waiters, waiter);
                if let Some(entry) = removed {
                    leftovers.push(entry.waker);
                }
                leftovers.push(waker);
                proof {
                    lemma_tokens_below_after_removal(old(self).waiters@, self.waiters@, waiter, self.next_waiter as nat);
                }
                (QueuePoll::Ready(Some(event)), leftovers)
            },
            None => {
                if self.finished {
                    let removed = unregister_waker(&mut self.waiters, waiter);
                    if let Some(entry) = removed {
                        leftovers.push(entry.waker);
                    }
                    leftovers.push(waker);
                    proof {
                        lemma_tokens_below_after_removal(old(self).waiters@, self.waiters@, waiter, self.next_waiter as nat);
                    }
                    (QueuePoll::Ready(None), leftovers)
                } else {
                    let ghost before = self.waiters@;
                    let displaced = register_waker(&mut self.waiters, waiter, waker);
                    if let Some(w) = displaced {
                        leftovers.push(w);
                    }
                    proof {
                        lemma_has_token_iff_token_seq(before, waiter);
                        lemma_push_contains(token_seq(before), waiter, waiter);
                        lemma_has_token_of_token_seq(self.waiters@, waiter);
                        lemma_tokens_below_of_token_seq(before, self.waiters@, waiter, self.next_waiter as nat);
                        assert forall|t: u64| t != waiter implies (has_token(self.waiters@, t) <==> has_token(before, t)) by {
                            lemma_has_token_iff_token_seq(self.waiters@, t);
                            lemma_has_token_iff_token_seq(before, t);
                            lemma_push_contains(token_seq(before), waiter, t);
                        }
                    }
                    (QueuePoll::Pending, leftovers)
                }
            },
        }
    }

    /// Unpark consumer `waiter`, whose future or stream was dropped.
    pub fn unregister(&mut self, waiter: u64) -> (removed: Option<RegisteredWaker>)
        requires
            old(self).wf(),
        ensures
            final(self).wf(),
            final(self)@.events == old(self)@.events,
            final(self)@.finished == old(self)@.finished,
            final(self)@.next_waiter == old(self)@.next_waiter,
            !has_token(final(self)@.waiters, waiter),
            removed is Some <==> has_token(old(self)@.waiters, waiter),
            forall|t: u64|
                t != waiter ==> (has_token(final(self)@.waiters, t) <==> has_token(
                    old(self)@.waiters,
                    t,
                )),
            entries_kept(old(self)@.waiters, final(self)@.waiters, waiter),
    {
        let r = unregister_waker(&mut self.waiters, waiter);
        proof {
            lemma_tokens_below_after_removal(old(self).waiters@, self.waiters@, waiter, self.next_waiter as nat);
        }
        r
    }

    /// Take the oldest event without waiting.
    pub fn try_next(&mut self) -> (event: Option<RecordingEvent>)
        requires
            old(self).wf(),
        ensures
            final(self).wf(),
            event == (if old(self)@.events.len() > 0 {
                Some(old(self)@.events[0])
            } else {
                None
            }),
            final(self)@ == (RecordingQueueModel { events: events_after_take(old(self)@), ..old(self)@ }),
    {
        let e = self.events.pop_front();
        proof {
            assert(self@ =~= (RecordingQueueModel { events: events_after_take(old(self)@), ..old(self)@ }));
        }
        e
    }

    /// Whether the recording has finished, failed, or lost its delegate.
    pub fn is_finished(&self) -> (b: bool)
        ensures
            b == self@.finished,
    {
        self.finished
    }
}

/// The invariant kept by the recording queue's lock.
pub struct RecordingStateInv {}

impl RwLockPredicate<AsyncRecordingState> for RecordingStateInv {
    open spec fn inv(self, v: AsyncRecordingState) -> bool {
        v.wf()
    }
}

/// The recording event queue as shared between the delegate and consumers.
pub type SharedRecordingState = Arc<RwLock<AsyncRecordingState, RecordingStateInv>>;

/// The empty, unfinished queue a recording starts with.
pub open spec fn empty_recording() -> RecordingQueueModel {
    RecordingQueueModel { events: Seq::empty(), waiters: Seq::empty(), finished: false, next_waiter: 0 }
}

/// The recording queue as one locked operation found it (first) and left
/// it (second). Other threads change the queue between operations.
pub type RecordingObserved = Ghost<(RecordingQueueModel, RecordingQueueModel)>;

/// One poll by consumer `waiter` of the recording queue: a token never
/// handed out gets the end of the stream and changes nothing; otherwise the
/// oldest event is taken, the end is reported once finished and drained, or
/// the consumer is parked, and the queue stays well formed, so a parked
/// consumer has exactly one entry; the entries of other consumers are kept.
pub open spec fn recording_poll_step(
    before: RecordingQueueModel,
    waiter: u64,
    r: QueuePoll<RecordingEvent>,
    after: RecordingQueueModel,
) -> bool {
    if waiter >= before.next_waiter {
        r == QueuePoll::<RecordingEvent>::Ready(None) && after == before
    } else {
        &&& r == event_poll_result(before)
        &&& recording_model_wf(after)
        &&& after.events == events_after_take(before)
        &&& after.finished == before.finished
        &&& after.next_waiter == before.next_waiter
        &&& r is Pending ==> has_token(after.waiters, waiter)
        &&& r is Ready ==> !has_token(after.waiters, waiter)
        &&& forall|t: u64| t != waiter ==> (has_token(after.waiters, t) <==> has_token(before.waiters, t))
    &&& entries_kept(before.waiters, after.waiters, waiter)
        &&& entries_kept(before.waiters, after.waiters, waiter)
    }
}

/// Consumer `waiter` of the recording queue is unparked, everything else,
/// the other consumers' entries included, kept.
pub open spec fn recording_unregister_step(before: RecordingQueueModel, waiter: u64, after: RecordingQueueModel) -> bool {
    &&& after.events == before.events
    &&& after.finished == before.finished
    &&& after.next_waiter == before.next_waiter
    &&& !has_token(after.waiters, waiter)
    &&& forall|t: u64| t != waiter ==> (has_token(after.waiters, t) <==> has_token(before.waiters, t))
    &&& entries_kept(before.waiters, after.waiters, waiter)
}

/// The recording queue with its consumer counter advanced.
pub open spec fn recording_after_allocate(m: RecordingQueueModel) -> RecordingQueueModel {
    RecordingQueueModel { next_waiter: m.next_waiter + 1, ..m }
}

/// The oldest event, if any.
pub open spec fn first_event(m: RecordingQueueModel) -> Option<RecordingEvent> {
    if m.events.len() > 0 {
        Some(m.events[0])
    } else {
        None
    }
}

/// Create an empty, unfinished recording event queue; the second component
/// is the state the lock was created with.
pub fn new_recording_state() -> (r: (SharedRecordingState, Ghost<RecordingQueueModel>))
    ensures
        r.1@ == empty_recording(),
        recording_model_wf(r.1@),
{
    let s = AsyncRecordingState::new();
    let ghost initial = s@;
    (Arc::new(RwLock::new(s, Ghost(RecordingStateInv {}))), Ghost(initial))
}

/// Record `event` (`None`: the delegate went away) and wake every parked
/// consumer once the lock is released.
pub fn push_recording_event(state: &SharedRecordingState, event: Option<RecordingEvent>) -> (g: RecordingObserved)
    ensures
        recording_model_wf(g@.0),
        g@.1 == after_event(g@.0, event),
{
    let (mut s, handle) = state.acquire_write();
    let ghost before = s@;
    proof {
        s.lemma_wf_model();
    }
    let woken = s.push_event(event);
    let ghost after = s@;
    handle.release_write(s);
    wake_all(woken);
    Ghost((before, after))
}

/// Shared poll logic for the recording futures and streams.
pub fn poll_next_recording_event(state: &SharedRecordingState, waiter: u64, waker: Waker) -> (r: (
    QueuePoll<RecordingEvent>,
    RecordingObserved,
))
    ensures
        recording_model_wf(r.1@.0),
        recording_poll_step(r.1@.0, waiter, r.0, r.1@.1),
{
    let (mut s, handle) = state.acquire_write();
    let ghost before = s@;
    proof {
        s.lemma_wf_model();
    }
    if waiter >= s.next_waiter_bound() {
        handle.release_write(s);
        return (QueuePoll::Ready(None), Ghost((before, before)));
    }
    let (poll, leftovers) = s.poll_next(waiter, waker);
    let ghost after = s@;
    proof {
        s.lemma_wf_model();
    }
    handle.release_write(s);
    discard(leftovers);
    (poll, Ghost((before, after)))
}

/// Unpark consumer `waiter` of the recording queue.
pub fn unregister_recording_waiter(state: &SharedRecordingState, waiter: u64) -> (g: RecordingObserved)
    ensures
        recording_model_wf(g@.0),
        recording_unregister_step(g@.0, waiter, g@.1),
{
    let (mut s, handle) = state.acquire_write();
    let ghost before = s@;
    proof {
        s.lemma_wf_model();
    }
    let removed = s.unregister(waiter);
    let ghost after = s@;
    handle.release_write(s);
    discard(removed);
    Ghost((before, after))
}

/// Hand out a fresh consumer token for the recording queue.
pub fn allocate_recording_waiter(state: &SharedRecordingState) -> (r: (Option<u64>, RecordingObserved))
    ensures
        recording_model_wf(r.1@.0),
        r.1@.0.next_waiter < u64::MAX ==> r.0 == Some(r.1@.0.next_waiter as u64) && r.1@.1
            == recording_after_allocate(r.1@.0),
        r.1@.0.next_waiter >= u64::MAX ==> r.0 is None && r.1@.1 == r.1@.0,
{
    let (mut s, handle) = state.acquire_write();
    let ghost before = s@;
    proof {
        s.lemma_wf_model();
    }
    let t = s.allocate_waiter();
    let ghost after = s@;
    handle.release_write(s);
    (t, Ghost((before, after)))
}

/// Release `value` here, outside any lock.
fn discard<T>(value: T) {
}

/// Recording delegate that forwards lifecycle callbacks into the event
/// queue.
pub struct AsyncRecordingDelegate {
    state: SharedRecordingState,
}

impl AsyncRecordingDelegate {
    /// A delegate feeding `state`.
    pub fn new(state: &SharedRecordingState) -> (d: Self)
        ensures
            d.state_spec() == *state,
    {
        AsyncRecordingDelegate { state: state.clone() }
    }

    /// The queue this delegate feeds.
    pub closed spec fn state_spec(&self) -> SharedRecordingState {
        self.state
    }

    /// The recording started: `Started` is appended.
    pub fn recording_did_start(&self) -> (g: RecordingObserved)
        ensures
            recording_model_wf(g@.0),
            g@.1 == after_event(g@.0, Some(RecordingEvent::Started)),
    {
        push_recording_event(&self.state, Some(RecordingEvent::Started))
    }

    /// The recording failed with `error`: `Failed(error)` is appended and
    /// the queue finishes.
    pub fn recording_did_fail(&self, error: String) -> (g: RecordingObserved)
        ensures
            recording_model_wf(g@.0),
            g@.1 == after_event(g@.0, Some(RecordingEvent::Failed(error))),
    {
        push_recording_event(&self.state, Some(RecordingEvent::Failed(error)))
    }

    /// The recording finished: `Finished` is appended and the queue
    /// finishes.
    pub fn recording_did_finish(&self) -> (g: RecordingObserved)
        ensures
            recording_model_wf(g@.0),
            g@.1 == after_event(g@.0, Some(RecordingEvent::Finished)),
    {
        push_recording_event(&self.state, Some(RecordingEvent::Finished))
    }

    /// The delegate goes away: the queue ends.
    pub fn release(&self) -> (g: RecordingObserved)
        ensures
            recording_model_wf(g@.0),
            g@.1 == after_event(g@.0, None),
    {
        push_recording_event(&self.state, None)
    }
}

/// Async view of a recording's lifecycle events.
pub struct AsyncSCRecordingOutput {
    state: SharedRecordingState,
}

impl AsyncSCRecordingOutput {
    /// The consumer side of `state`.
    pub fn new(state: SharedRecordingState) -> (o: Self)
        ensures
            o.state_spec() == state,
    {
        AsyncSCRecordingOutput { state }
    }

    /// The queue this output reads.
    pub closed spec fn state_spec(&self) -> SharedRecordingState {
        self.state
    }

    /// The shared queue, for futures and streams.
    pub fn state(&self) -> (r: &SharedRecordingState)
        ensures
            *r == self.state_spec(),
    {
        &self.state
    }

    /// Whether the recording has finished, failed, or lost its delegate.
    pub fn is_finished(&self) -> (r: (bool, RecordingObserved))
        ensures
            recording_model_wf(r.1@.0),
            r.0 == r.1@.0.finished,
            r.1@.1 == r.1@.0,
    {
        let (s, handle) = self.state.acquire_write();
        let ghost before = s@;
        proof {
            s.lemma_wf_model();
        }
        let b = s.is_finished();
        handle.release_write(s);
        (b, Ghost((before, before)))
    }

    /// A request for the next event; it resolves to `None` once the
    /// recording ended and every event was taken.
    pub fn next(&self) -> (r: NextRecordingEvent<'_>)
        ensures
            r.queue() == self.state_spec(),
            r.token() is Some ==> r.token()->0 < r.allocation().1.next_waiter,
            recording_model_wf(r.allocation().0),
    {
        let (waiter, g) = allocate_recording_waiter(&self.state);
        NextRecordingEvent { state: &self.state, waiter, allocation: g }
    }

    /// The events as a stream.
    pub fn events(&self) -> (r: RecordingEventStream<'_>)
        ensures
            r.queue() == self.state_spec(),
            r.token() is Some ==> r.token()->0 < r.allocation().1.next_waiter,
            recording_model_wf(r.allocation().0),
    {
        let (waiter, g) = allocate_recording_waiter(&self.state);
        RecordingEventStream { state: &self.state, waiter, allocation: g }
    }

    /// Take the next event without waiting: the oldest, which leaves the
    /// queue.
    pub fn try_next(&self) -> (r: (Option<RecordingEvent>, RecordingObserved))
        ensures
            recording_model_wf(r.1@.0),
            r.0 == first_event(r.1@.0),
            r.1@.1 == (RecordingQueueModel { events: events_after_take(r.1@.0), ..r.1@.0 }),
    {
        let (mut s, handle) = self.state.acquire_write();
        let ghost before = s@;
        proof {
            s.lemma_wf_model();
        }
        let e = s.try_next();
        let ghost after = s@;
        handle.release_write(s);
        (e, Ghost((before, after)))
    }
}

fn poll_recording_waiter(state: &SharedRecordingState, waiter: Option<u64>, waker: Waker) -> (r: (
    QueuePoll<RecordingEvent>,
    RecordingObserved,
))
    ensures
        waiter is None ==> r.0 == QueuePoll::<RecordingEvent>::Ready(None),
        waiter matches Some(t) ==> recording_model_wf(r.1@.0) && recording_poll_step(r.1@.0, t, r.0, r.1@.1),
{
    match waiter {
        Some(w) => poll_next_recording_event(state, w, waker),
        None => {
            let ghost m = vstd::pervasive::arbitrary::<RecordingQueueModel>();
            (QueuePoll::Ready(None), Ghost((m, m)))
        },
    }
}

fn cancel_recording_waiter(state: &SharedRecordingState, waiter: Option<u64>) -> (g: RecordingObserved)
    ensures
        waiter matches Some(t) ==> recording_model_wf(g@.0) && recording_unregister_step(g@.0, t, g@.1),
        waiter is None ==> g@.1 == g@.0,
{
    match waiter {
        Some(w) => unregister_recording_waiter(state, w),
        None => {
            let ghost m = vstd::pervasive::arbitrary::<RecordingQueueModel>();
            Ghost((m, m))
        },
    }
}

/// A pending request for the next recording event. An abandoned request
/// must be cancelled so that its parked waker goes away.
pub struct NextRecordingEvent<'a> {
    state: &'a SharedRecordingState,
    waiter: Option<u64>,
    allocation: RecordingObserved,
}

impl<'a> NextRecordingEvent<'a> {
    /// The queue this request polls.
    pub closed spec fn queue(&self) -> SharedRecordingState {
        *self.state
    }

    /// The consumer token of this request; `None` once every token was
    /// spent.
    pub closed spec fn token(&self) -> Option<u64> {
        self.waiter
    }

    /// The queue as the token allocation found and left it.
    pub closed spec fn allocation(&self) -> (RecordingQueueModel, RecordingQueueModel) {
        self.allocation@
    }

    /// The next event, `None` once the recording ended and every event was taken, or `Pending` with `waker` parked.
    pub fn poll(&self, waker: Waker) -> (r: (QueuePoll<RecordingEvent>, RecordingObserved))
        ensures
            self.token() is None ==> r.0 == QueuePoll::<RecordingEvent>::Ready(None),
            self.token() matches Some(t) ==> recording_model_wf(r.1@.0) && recording_poll_step(
                r.1@.0,
                t,
                r.0,
                r.1@.1,
            ),
    {
        poll_recording_waiter(self.state, self.waiter, waker)
    }

    /// Unpark this request: no entry for its token stays parked.
    pub fn cancel(&self) -> (g: RecordingObserved)
        ensures
            self.token() matches Some(t) ==> recording_model_wf(g@.0) && recording_unregister_step(
                g@.0,
                t,
                g@.1,
            ),
    {
        cancel_recording_waiter(self.state, self.waiter)
    }
}

/// The recording events as a stream.
pub struct RecordingEventStream<'a> {
    state: &'a SharedRecordingState,
    waiter: Option<u64>,
    allocation: RecordingObserved,
}

impl<'a> RecordingEventStream<'a> {
    /// The queue this request polls.
    pub closed spec fn queue(&self) -> SharedRecordingState {
        *self.state
    }

    /// The consumer token of this request; `None` once every token was
    /// spent.
    pub closed spec fn token(&self) -> Option<u64> {
        self.waiter
    }

    /// The queue as the token allocation found and left it.
    pub closed spec fn allocation(&self) -> (RecordingQueueModel, RecordingQueueModel) {
        self.allocation@
    }

    /// The next item of the stream.
    pub fn poll_next(&self, waker: Waker) -> (r: (QueuePoll<RecordingEvent>, RecordingObserved))
        ensures
            self.token() is None ==> r.0 == QueuePoll::<RecordingEvent>::Ready(None),
            self.token() matches Some(t) ==> recording_model_wf(r.1@.0) && recording_poll_step(
                r.1@.0,
                t,
                r.0,
                r.1@.1,
            ),
    {
        poll_recording_waiter(self.state, self.waiter, waker)
    }

    /// Unpark this request: no entry for its token stays parked.
    pub fn cancel(&self) -> (g: RecordingObserved)
        ensures
            self.token() matches Some(t) ==> recording_model_wf(g@.0) && recording_unregister_step(
                g@.0,
                t,
                g@.1,
            ),
    {
        cancel_recording_waiter(self.state, self.waiter)
    }
}

/// Events are delivered in arrival order; a finishing or failing event, or
/// the delegate's end, ends the queue, and once ended it stays ended.
pub proof fn lemma_recording_events_in_order_and_final(m: RecordingQueueModel, event: Option<RecordingEvent>)
    ensures
        event matches Some(e) ==> after_event(m, event).events == m.events.push(e),
        event is None ==> after_event(m, event).events == m.events,
        after_event(m, event).finished == (m.finished || match event {
            Some(e) => is_terminal(e),
            None => true,
        }),
        m.finished ==> after_event(m, event).finished,
        after_event(m, event).waiters.len() == 0,
{
}

/// A finished queue never leaves a consumer pending.
pub proof fn lemma_finished_queue_never_pends(m: RecordingQueueModel)
    requires
        m.finished,
    ensures
        !(event_poll_result(m) is Pending),
{
}

/// Events come out in the order they arrived: a run of polls by one
/// consumer holding a handed-out token, each finding the queue where the
/// previous one left it, yields the queued events in order, and after them
/// the end once the queue finished, else `Pending`.
pub proof fn lemma_consecutive_recording_polls_in_order(
    observed: Seq<RecordingQueueModel>,
    answers: Seq<QueuePoll<RecordingEvent>>,
    waiter: u64,
)
    requires
        observed.len() == answers.len() + 1,
        waiter < observed[0].next_waiter,
        forall|i: int|
            #![trigger answers[i]]
            0 <= i < answers.len() ==> recording_poll_step(observed[i], waiter, answers[i], observed[i + 1]),
    ensures
        forall|i: int|
            0 <= i < answers.len() ==> #[trigger] answers[i] == if i < observed[0].events.len() {
                QueuePoll::Ready(Some(observed[0].events[i]))
            } else if observed[0].finished {
                QueuePoll::<RecordingEvent>::Ready(None)
            } else {
                QueuePoll::<RecordingEvent>::Pending
            },
    decreases answers.len(),
{
    if answers.len() > 0 {
        assert(recording_poll_step(observed[0], waiter, answers[0], observed[1]));
        let rest_obs = observed.drop_first();
        let rest_ans = answers.drop_first();
        assert forall|i: int| 0 <= i < rest_ans.len() implies recording_poll_step(
            rest_obs[i],
            waiter,
            #[trigger] rest_ans[i],
            rest_obs[i + 1],
        ) by {
            assert(answers[i + 1] == rest_ans[i]);
        }
        lemma_consecutive_recording_polls_in_order(rest_obs, rest_ans, waiter);
        let first = observed[0];
        let next = observed[1];
        assert forall|i: int| 0 <= i < answers.len() implies #[trigger] answers[i] == if i
            < first.events.len() {
            QueuePoll::Ready(Some(first.events[i]))
        } else if first.finished {
            QueuePoll::<RecordingEvent>::Ready(None)
        } else {
            QueuePoll::<RecordingEvent>::Pending
        } by {
            if i > 0 {
                assert(answers[i] == rest_ans[i - 1]);
                if first.events.len() > 0 {
                    assert(next.events == first.events.drop_first());
                    if i - 1 < next.events.len() {
                        assert(next.events[i - 1] == first.events[i]);
                    }
                }
            }
        }
    }
}

/// Once finished, always finished, and only an ending event or the
/// delegate's end finishes the queue: an arriving event keeps a finished
/// queue finished, and taking events, polling or cancelling never changes
/// whether it is.
pub proof fn lemma_finished_is_monotone(
    m: RecordingQueueModel,
    event: Option<RecordingEvent>,
    waiter: u64,
    r: QueuePoll<RecordingEvent>,
    after: RecordingQueueModel,
)
    ensures
        after_event(m, event).finished == (m.finished || event is None || is_terminal(event->0)),
        recording_poll_step(m, waiter, r, after) ==> after.finished == m.finished,
        recording_unregister_step(m, waiter, after) ==> after.finished == m.finished,
{
}

/// A finished or failed recording ends the event queue; a start does not.
/// The event is still queued, and once a consumer has taken the events
/// before it and then it, the queue reports its end instead of waiting.
pub proof fn lemma_finish_and_failure_end_the_queue(m: RecordingQueueModel, error: String)
    ensures
        after_event(m, Some(RecordingEvent::Finished)).finished,
        after_event(m, Some(RecordingEvent::Failed(error))).finished,
        after_event(m, Some(RecordingEvent::Started)).finished == m.finished,
        after_event(m, None).finished,
        after_event(m, Some(RecordingEvent::Finished)).events == m.events.push(RecordingEvent::Finished),
        m.events.len() == 0 ==> event_poll_result(after_event(m, Some(RecordingEvent::Finished)))
            == QueuePoll::Ready(Some(RecordingEvent::Finished)),
        m.events.len() == 0 ==> event_poll_result(
            RecordingQueueModel {
                events: events_after_take(after_event(m, Some(RecordingEvent::Finished))),
                ..after_event(m, Some(RecordingEvent::Finished))
            },
        ) == QueuePoll::<RecordingEvent>::Ready(None),
{
    if m.events.len() == 0 {
        let a = after_event(m, Some(RecordingEvent::Finished));
        assert(a.events =~= seq![RecordingEvent::Finished]);
        assert(events_after_take(a) =~= Seq::<RecordingEvent>::empty());
    }
}

} // verus!
