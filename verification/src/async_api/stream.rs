//! The shared side of the sample queue: the lock around
//! [`AsyncSampleIteratorState`], the sender that capture callbacks push
//! into, and the frame-iteration half of `AsyncSCStream`.
//!
//! Every operation takes the lock, applies one verified state transition,
//! releases the lock, and only then wakes parked consumers or drops evicted
//! samples: a waker may poll inline and re-enter the lock, and dropping a
//! sample calls into Core Media. What a call finds depends on the other
//! threads that share the lock, so each function returns, as a ghost pair,
//! the queue as it found and left it, and states its result and transition
//! over that pair exactly; the lock keeps the queue well formed between
//! calls. Nothing links one call's pair to the next; the laws of this
//! module over runs of calls take as a hypothesis that each call found the
//! queue where the previous one left it, which the caller has to know.

use super::sample_queue::{
    after_allocate, after_close, after_push, after_reopen, after_sender_added, after_sender_released,
    after_take_front,
    cleared, front, lemma_push_keeps_newest_within_capacity, model_wf, new_model, poll_result, poll_step,
    unregister_step, with_stop_error, without_stop_error, AsyncSampleIteratorState, SampleQueueModel,
};
use super::waiters::has_token;
use super::waiters::{wake_all, QueuePoll};
use std::collections::VecDeque;
use std::sync::Arc;
use std::task::Waker;
use vstd::prelude::*;
use vstd::string::StringExecFns;
use vstd::rwlock::{RwLock, RwLockPredicate};

verus! {

/// The invariant kept by the queue's lock: a well-formed state of a fixed
/// capacity.
pub struct SampleStateInv {
    pub capacity: usize,
}

impl<B, K, E> RwLockPredicate<AsyncSampleIteratorState<B, K, E>> for SampleStateInv {
    open spec fn inv(self, v: AsyncSampleIteratorState<B, K, E>) -> bool {
        &&& v.wf()
        &&& v@.capacity == self.capacity
    }
}

/// The sample queue as shared between the capture callbacks and consumers.
pub type SharedSampleState<B, K, E> = Arc<RwLock<AsyncSampleIteratorState<B, K, E>, SampleStateInv>>;

/// Create an open, empty queue holding at most `capacity` samples (`0` is
/// treated as `1`), with no sender, error or parked consumer yet; the second
/// component is the state the lock was created with.
pub fn new_sample_state<B, K, E>(capacity: usize) -> (r: (SharedSampleState<B, K, E>, Ghost<SampleQueueModel<B, K, E>>))
    ensures
        r.0.pred().capacity == if capacity == 0 {
            1
        } else {
            capacity
        },
        r.1@ == new_model::<B, K, E>(capacity),
        model_wf(r.1@),
{
    let s = AsyncSampleIteratorState::<B, K, E>::new(capacity);
    let ghost initial = s@;
    proof {
        s.lemma_wf_model();
    }
    let cap: usize = if capacity == 0 {
        1
    } else {
        capacity
    };
    (Arc::new(RwLock::new(s, Ghost(SampleStateInv { capacity: cap }))), Ghost(initial))
}

/// The lock's invariant as seen in a state the lock handed out: well formed,
/// with the lock's capacity.
pub open spec fn seen<B, K, E>(state: SharedSampleState<B, K, E>, m: SampleQueueModel<B, K, E>) -> bool {
    model_wf(m) && m.capacity == state.pred().capacity
}

/// The queue as one locked operation found it (first) and left it
/// (second). Other threads change the queue between operations, so the
/// pair says what this operation did, not what the next one will see.
pub type Observed<B, K, E> = Ghost<(SampleQueueModel<B, K, E>, SampleQueueModel<B, K, E>)>;

/// Close the sample queue, optionally recording why, and wake every parked
/// consumer once the lock is released.
pub fn close_sample_state<B, K, E>(state: &SharedSampleState<B, K, E>, error: Option<E>, stopped: bool) -> (g: Observed<B, K, E>)
    ensures
        seen(*state, g@.0),
        g@.1 == after_close(g@.0, error, stopped),
{
    let (mut s, handle) = state.acquire_write();
    let ghost before = s@;
    proof {
        s.lemma_wf_model();
    }
    let woken = s.close(error, stopped);
    let ghost after = s@;
    handle.release_write(s);
    wake_all(woken);
    Ghost((before, after))
}

/// Reopen a queue that a failed `start_capture` closed, so the retry that
/// failure permits can deliver frames. No effect once `stop_capture` has
/// succeeded: `ScreenCaptureKit` cannot restart a stopped stream.
pub fn reopen_sample_state<B, K, E>(state: &SharedSampleState<B, K, E>) -> (g: Observed<B, K, E>)
    ensures
        seen(*state, g@.0),
        g@.1 == after_reopen(g@.0),
{
    let (mut s, handle) = state.acquire_write();
    let ghost before = s@;
    proof {
        s.lemma_wf_model();
    }
    s.reopen();
    let ghost after = s@;
    handle.release_write(s);
    Ghost((before, after))
}

/// Record why the queue cannot deliver samples.
pub fn record_stop_error<B, K, E>(state: &SharedSampleState<B, K, E>, error: E) -> (g: Observed<B, K, E>)
    ensures
        seen(*state, g@.0),
        g@.1 == with_stop_error(g@.0, error),
{
    let (mut s, handle) = state.acquire_write();
    let ghost before = s@;
    proof {
        s.lemma_wf_model();
    }
    s.set_stop_error(error);
    let ghost after = s@;
    handle.release_write(s);
    Ghost((before, after))
}

/// Hand out a fresh consumer token for a future or stream over the queue;
/// `None` only once all 2^64 tokens are spent.
pub fn allocate_sample_waiter<B, K, E>(state: &SharedSampleState<B, K, E>) -> (r: (Option<u64>, Observed<B, K, E>))
    ensures
        seen(*state, r.1@.0),
        r.1@.0.next_waiter < u64::MAX ==> r.0 == Some(r.1@.0.next_waiter as u64) && r.1@.1 == after_allocate(
            r.1@.0,
        ),
        r.1@.0.next_waiter >= u64::MAX ==> r.0 is None && r.1@.1 == r.1@.0,
        r.0 matches Some(t) ==> !has_token(r.1@.0.waiters, t),
{
    let (mut s, handle) = state.acquire_write();
    let ghost before = s@;
    proof {
        s.lemma_wf_model();
    }
    let t = s.allocate_waiter();
    let ghost after = s@;
    proof {
        if t is Some {
            assert(after =~= after_allocate(before));
        }
    }
    handle.release_write(s);
    (t, Ghost((before, after)))
}

/// Shared poll logic for the sample futures and streams: pop the next
/// buffered `(buffer, type)` pair, resolve to `None` when closed, or park the
/// consumer `waiter` with `waker`.
pub fn poll_next_sample<B, K, E>(state: &SharedSampleState<B, K, E>, waiter: u64, waker: Waker) -> (r: (QueuePoll<(B, K)>, Observed<B, K, E>))
    ensures
        seen(*state, r.1@.0),
        poll_step(r.1@.0, waiter, r.0, r.1@.1),
{
    let (mut s, handle) = state.acquire_write();
    let ghost before = s@;
    proof {
        s.lemma_wf_model();
    }
    if waiter >= s.next_waiter_bound() {
        handle.release_write(s);
        return (QueuePoll::Ready(None), Ghost((before, before)));
    }
    let (poll, leftovers) = s.poll_next(waiter, waker);
    let ghost after = s@;
    handle.release_write(s);
    discard(leftovers);
    (poll, Ghost((before, after)))
}

/// Unpark consumer `waiter`, whose future or stream was dropped.
pub fn unregister_sample_waiter<B, K, E>(state: &SharedSampleState<B, K, E>, waiter: u64) -> (g: Observed<B, K, E>)
    ensures
        seen(*state, g@.0),
        unregister_step(g@.0, waiter, g@.1),
{
    let (mut s, handle) = state.acquire_write();
    let ghost before = s@;
    proof {
        s.lemma_wf_model();
    }
    let removed = s.unregister(waiter);
    let ghost after = s@;
    handle.release_write(s);
    discard(removed);
    Ghost((before, after))
}

/// Number of consumers currently parked on the queue.
pub fn sample_waiter_count<B, K, E>(state: &SharedSampleState<B, K, E>) -> (r: (usize, Observed<B, K, E>))
    ensures
        seen(*state, r.1@.0),
        r.0 == r.1@.0.waiters.len(),
        r.1@.1 == r.1@.0,
{
    let (s, handle) = state.acquire_write();
    let ghost before = s@;
    proof {
        s.lemma_wf_model();
    }
    let n = s.waiter_count();
    handle.release_write(s);
    (n, Ghost((before, before)))
}

/// Whether the queue is closed.
pub fn sample_state_is_closed<B, K, E>(state: &SharedSampleState<B, K, E>) -> (r: (bool, Observed<B, K, E>))
    ensures
        seen(*state, r.1@.0),
        r.0 == r.1@.0.closed,
        r.1@.1 == r.1@.0,
{
    let (s, handle) = state.acquire_write();
    let ghost before = s@;
    proof {
        s.lemma_wf_model();
    }
    let b = s.is_closed();
    handle.release_write(s);
    (b, Ghost((before, before)))
}

/// Whether a stop has succeeded on the stream feeding the queue.
pub fn sample_state_is_stopped<B, K, E>(state: &SharedSampleState<B, K, E>) -> (r: (bool, Observed<B, K, E>))
    ensures
        seen(*state, r.1@.0),
        r.0 == r.1@.0.stopped,
        r.1@.1 == r.1@.0,
{
    let (s, handle) = state.acquire_write();
    let ghost before = s@;
    proof {
        s.lemma_wf_model();
    }
    let b = s.is_stopped();
    handle.release_write(s);
    (b, Ghost((before, before)))
}

/// Whether a stop error is recorded.
pub fn sample_state_has_error<B, K, E>(state: &SharedSampleState<B, K, E>) -> (r: (bool, Observed<B, K, E>))
    ensures
        seen(*state, r.1@.0),
        r.0 == r.1@.0.stop_error is Some,
        r.1@.1 == r.1@.0,
{
    let (s, handle) = state.acquire_write();
    let ghost before = s@;
    proof {
        s.lemma_wf_model();
    }
    let b = s.has_error();
    handle.release_write(s);
    (b, Ghost((before, before)))
}

/// Release `value` here, outside any lock.
fn discard<T>(value: T) {
}

/// The sender that a capture callback pushes samples through. The queue
/// closes when the last sender is released, not the first: a multi-output
/// stream has one sender per output type.
pub struct AsyncSampleSender<B, K, E> {
    inner: SharedSampleState<B, K, E>,
}

impl<B, K, E> AsyncSampleSender<B, K, E> {
    /// Register a new sender on `state`.
    pub fn new(state: &SharedSampleState<B, K, E>) -> (r: (Self, Observed<B, K, E>))
        ensures
            r.0.state() == *state,
            seen(*state, r.1@.0),
            r.1@.1 == after_sender_added(r.1@.0),
    {
        let (mut s, handle) = state.acquire_write();
        let ghost before = s@;
        proof {
            s.lemma_wf_model();
        }
        s.add_sender();
        let ghost after = s@;
        handle.release_write(s);
        (AsyncSampleSender { inner: state.clone() }, Ghost((before, after)))
    }

    /// The queue this sender feeds.
    pub closed spec fn state(&self) -> SharedSampleState<B, K, E> {
        self.inner
    }

    /// Deliver one captured sample: when the queue is full its oldest sample
    /// is dropped, then the new one is appended and every parked consumer is
    /// woken. The evicted sample is released after the lock.
    pub fn did_output_sample_buffer(&self, sample_buffer: B, of_type: K) -> (g: Observed<B, K, E>)
        ensures
            seen(self.state(), g@.0),
            g@.1 == after_push(g@.0, (sample_buffer, of_type)),
    {
        let (mut s, handle) = self.inner.acquire_write();
        let ghost before = s@;
    proof {
        s.lemma_wf_model();
    }
        let (evicted, waiters) = s.push_sample((sample_buffer, of_type));
        let ghost after = s@;
        handle.release_write(s);
        discard(evicted);
        wake_all(waiters);
        Ghost((before, after))
    }

    /// This sender goes away; the last one closes the queue and wakes every
    /// parked consumer.
    pub fn release(&self) -> (g: Observed<B, K, E>)
        ensures
            seen(self.state(), g@.0),
            g@.1 == after_sender_released(g@.0),
    {
        let (mut s, handle) = self.inner.acquire_write();
        let ghost before = s@;
    proof {
        s.lemma_wf_model();
    }
        let woken = s.release_sender();
        let ghost after = s@;
        handle.release_write(s);
        wake_all(woken);
        Ghost((before, after))
    }

    /// The output handler this sender was made for could not be registered,
    /// so the stream can deliver nothing: the sender goes away and the queue
    /// closes, with `error` recorded to explain the end.
    pub fn registration_failed(self, error: E) -> (g: Observed<B, K, E>)
        ensures
            seen(self.state(), g@.0),
            g@.1 == after_close(after_sender_released(g@.0), Some(error), false),
    {
        let (mut s, handle) = self.inner.acquire_write();
        let ghost before = s@;
        proof {
            s.lemma_wf_model();
        }
        let released = s.release_sender();
        let closed = s.close(Some(error), false);
        let ghost after = s@;
        handle.release_write(s);
        wake_all(released);
        wake_all(closed);
        Ghost((before, after))
    }
}

/// Stream delegate that closes the sample queue when `ScreenCaptureKit`
/// stops the stream with an error, so consumers see the end of the stream
/// once buffered frames drain; the error is kept for `take_error`.
pub struct AsyncStreamDelegate<B, K, E> {
    state: SharedSampleState<B, K, E>,
}

impl<B, K, E> AsyncStreamDelegate<B, K, E> {
    /// A delegate closing `state`.
    pub fn new(state: &SharedSampleState<B, K, E>) -> (d: Self)
        ensures
            d.state() == *state,
    {
        AsyncStreamDelegate { state: state.clone() }
    }

    /// The queue this delegate closes.
    pub closed spec fn state(&self) -> SharedSampleState<B, K, E> {
        self.state
    }

    /// The stream stopped with `error`: the queue closes with it.
    pub fn did_stop_with_error(&self, error: E) -> (g: Observed<B, K, E>)
        ensures
            seen(self.state(), g@.0),
            g@.1 == after_close(g@.0, Some(error), false),
    {
        close_sample_state(&self.state, Some(error), false)
    }
}

/// Async wrapper for a capture stream with integrated frame iteration.
///
/// Samples are buffered in a **bounded**, lossy queue: when it is full and a
/// new sample arrives, the **oldest** queued sample is dropped. `S` is the
/// underlying stream handle, `B` the sample buffer, `K` the output type and
/// `E` the stop error.
pub struct AsyncSCStream<S, B, K, E> {
    stream: S,
    iterator_state: SharedSampleState<B, K, E>,
}

/// A polled sample with its output type dropped.
pub open spec fn front_sample<B, K, E>(m: SampleQueueModel<B, K, E>) -> Option<B> {
    match front(m) {
        Some(item) => Some(item.0),
        None => None,
    }
}

impl<S, B, K, E> AsyncSCStream<S, B, K, E> {
    /// Assemble the async stream from the running stream handle and the
    /// queue its senders feed.
    pub fn new(stream: S, iterator_state: SharedSampleState<B, K, E>) -> (s: Self)
        ensures
            s.stream_handle() == stream,
            s.state() == iterator_state,
    {
        AsyncSCStream { stream, iterator_state }
    }

    /// Open an async stream over a fresh queue of `buffer_capacity` samples
    /// (`0` is treated as `1`). `open_stream` is handed the queue's sender
    /// and delegate; it makes the native stream and registers the sender as
    /// its output handler, and hands the sender back where that registration
    /// failed. The second component is the queue as `open_stream` received
    /// it: open, empty, without an error, with that one sender. Where the
    /// registration failed, the queue then closes with `registration_error`.
    pub fn open<F>(buffer_capacity: usize, registration_error: E, open_stream: F) -> (r: (
        Self,
        Ghost<SampleQueueModel<B, K, E>>,
        Option<Observed<B, K, E>>,
    )) where
        F: FnOnce(AsyncSampleSender<B, K, E>, AsyncStreamDelegate<B, K, E>) -> (S, Option<AsyncSampleSender<B, K, E>>),
        requires
            forall|snd: AsyncSampleSender<B, K, E>, dlg: AsyncStreamDelegate<B, K, E>|
                call_requires(open_stream, (snd, dlg)),
            forall|
                snd: AsyncSampleSender<B, K, E>,
                dlg: AsyncStreamDelegate<B, K, E>,
                out: (S, Option<AsyncSampleSender<B, K, E>>),
            |
                #[trigger] call_ensures(open_stream, (snd, dlg), out) ==> (out.1 matches Some(back)
                    ==> back.state() == snd.state()),
        ensures
            r.0.state().pred().capacity == if buffer_capacity == 0 {
                1
            } else {
                buffer_capacity
            },
            r.1@ == after_sender_added(new_model::<B, K, E>(buffer_capacity)),
            exists|
                snd: AsyncSampleSender<B, K, E>,
                dlg: AsyncStreamDelegate<B, K, E>,
                out: (S, Option<AsyncSampleSender<B, K, E>>),
            |
                #[trigger] call_ensures(open_stream, (snd, dlg), out) && snd.state() == r.0.state()
                    && dlg.state() == r.0.state() && r.0.stream_handle() == out.0 && (out.1 is Some
                    <==> r.2 is Some),
            r.2 matches Some(g) ==> seen(r.0.state(), g@.0) && g@.1 == after_close(
                after_sender_released(g@.0),
                Some(registration_error),
                false,
            ),
    {
        let mut queue = AsyncSampleIteratorState::<B, K, E>::new(buffer_capacity);
        queue.add_sender();
        let ghost initial = queue@;
        let cap: usize = if buffer_capacity == 0 {
            1
        } else {
            buffer_capacity
        };
        let state: SharedSampleState<B, K, E> = Arc::new(RwLock::new(queue, Ghost(SampleStateInv { capacity: cap })));
        let sender = AsyncSampleSender { inner: state.clone() };
        let delegate = AsyncStreamDelegate::new(&state);
        let ghost snd = sender;
        let ghost dlg = delegate;
        let (stream, returned) = open_stream(sender, delegate);
        let ghost out = (stream, returned);
        let failed = match returned {
            Some(back) => Some(back.registration_failed(registration_error)),
            None => None,
        };
        let s = AsyncSCStream { stream, iterator_state: state };
        proof {
            assert(call_ensures(open_stream, (snd, dlg), out));
        }
        (s, Ghost(initial), failed)
    }

    /// Also deliver samples of another output type: a new sender is added
    /// to the queue (the second component shows that step), and `register`
    /// is handed the stream handle and that sender; it registers the sender
    /// as the handler of that type, and hands it back where registration
    /// failed. The first component tells whether it succeeded. A refused
    /// sender goes away again (the third component shows that step); the
    /// senders already registered keep the queue open.
    pub fn add_output_type<F>(&self, register: F) -> (r: (bool, Observed<B, K, E>, Option<Observed<B, K, E>>)) where
        F: FnOnce(&S, AsyncSampleSender<B, K, E>) -> Option<AsyncSampleSender<B, K, E>>,
        requires
            forall|stream: &S, snd: AsyncSampleSender<B, K, E>| call_requires(register, (stream, snd)),
            forall|stream: &S, snd: AsyncSampleSender<B, K, E>, out: Option<AsyncSampleSender<B, K, E>>|
                #[trigger] call_ensures(register, (stream, snd), out) ==> (out matches Some(back)
                    ==> back.state() == snd.state()),
        ensures
            seen(self.state(), r.1@.0),
            r.1@.1 == after_sender_added(r.1@.0),
            exists|snd: AsyncSampleSender<B, K, E>, out: Option<AsyncSampleSender<B, K, E>>|
                #[trigger] call_ensures(register, (&self.stream_handle(), snd), out) && snd.state()
                    == self.state() && (r.0 <==> out is None) && (r.2 is Some <==> out is Some),
            r.2 matches Some(g) ==> seen(self.state(), g@.0) && g@.1 == after_sender_released(g@.0),
    {
        let (sender, added) = AsyncSampleSender::new(&self.iterator_state);
        let ghost snd = sender;
        let returned = register(&self.stream, sender);
        let ghost out = returned;
        let r = match returned {
            Some(back) => (false, added, Some(back.release())),
            None => (true, added, None),
        };
        proof {
            assert(call_ensures(register, (&self.stream_handle(), snd), out));
        }
        r
    }

    /// The stream handle.
    pub closed spec fn stream_handle(&self) -> S {
        self.stream
    }

    /// The shared queue.
    pub closed spec fn state(&self) -> SharedSampleState<B, K, E> {
        self.iterator_state
    }

    /// The queue behind this stream, for futures and lifecycle hooks.
    pub fn iterator_state(&self) -> (r: &SharedSampleState<B, K, E>)
        ensures
            *r == self.state(),
    {
        &self.iterator_state
    }

    /// Get a reference to the underlying stream
    pub fn inner(&self) -> (r: &S)
        ensures
            *r == self.stream_handle(),
    {
        &self.stream
    }

    /// Try to get a sample without waiting: the oldest buffered one, which
    /// leaves the queue.
    pub fn try_next(&self) -> (r: (Option<B>, Observed<B, K, E>))
        ensures
            seen(self.state(), r.1@.0),
            r.0 == front_sample(r.1@.0),
            r.1@.1 == after_take_front(r.1@.0),
    {
        let (mut s, handle) = self.iterator_state.acquire_write();
        let ghost before = s@;
    proof {
        s.lemma_wf_model();
    }
        let item = s.try_next();
        let ghost after = s@;
        handle.release_write(s);
        let sample = match item {
            Some((buffer, _of_type)) => Some(buffer),
            None => None,
        };
        (sample, Ghost((before, after)))
    }

    /// Try to get a sample together with its output type, without waiting.
    pub fn try_next_typed(&self) -> (r: (Option<(B, K)>, Observed<B, K, E>))
        ensures
            seen(self.state(), r.1@.0),
            r.0 == front(r.1@.0),
            r.1@.1 == after_take_front(r.1@.0),
    {
        let (mut s, handle) = self.iterator_state.acquire_write();
        let ghost before = s@;
    proof {
        s.lemma_wf_model();
    }
        let item = s.try_next();
        let ghost after = s@;
        handle.release_write(s);
        (item, Ghost((before, after)))
    }

    /// Check if the stream has been closed; buffered frames still drain
    /// after this turns `true`.
    pub fn is_closed(&self) -> (r: (bool, Observed<B, K, E>))
        ensures
            seen(self.state(), r.1@.0),
            r.0 == r.1@.0.closed,
            r.1@.1 == r.1@.0,
    {
        sample_state_is_closed(&self.iterator_state)
    }

    /// Take the error that stopped the stream, if any; cleared once taken.
    pub fn take_error(&self) -> (r: (Option<E>, Observed<B, K, E>))
        ensures
            seen(self.state(), r.1@.0),
            r.0 == r.1@.0.stop_error,
            r.1@.1 == without_stop_error(r.1@.0),
    {
        let (mut s, handle) = self.iterator_state.acquire_write();
        let ghost before = s@;
    proof {
        s.lemma_wf_model();
    }
        let e = s.take_error();
        let ghost after = s@;
        handle.release_write(s);
        (e, Ghost((before, after)))
    }

    /// Get the number of buffered samples; never more than the capacity.
    pub fn buffered_count(&self) -> (r: (usize, Observed<B, K, E>))
        ensures
            seen(self.state(), r.1@.0),
            r.0 == r.1@.0.buffer.len(),
            r.0 <= self.state().pred().capacity,
            r.1@.1 == r.1@.0,
    {
        let (s, handle) = self.iterator_state.acquire_write();
        let ghost before = s@;
    proof {
        s.lemma_wf_model();
    }
        let n = s.buffered_count();
        handle.release_write(s);
        (n, Ghost((before, before)))
    }

    /// A request for the next sample; it resolves to `None` once the stream
    /// has ended and drained.
    pub fn next(&self) -> (r: NextSample<'_, B, K, E>)
        ensures
            r.queue() == self.state(),
            r.token() is Some ==> r.token()->0 < r.allocation().1.next_waiter,
            seen(self.state(), r.allocation().0),
    {
        let (waiter, g) = allocate_sample_waiter(&self.iterator_state);
        NextSample { state: &self.iterator_state, waiter, allocation: g }
    }

    /// A request for the next sample together with its output type.
    pub fn next_typed(&self) -> (r: NextSampleTyped<'_, B, K, E>)
        ensures
            r.queue() == self.state(),
            r.token() is Some ==> r.token()->0 < r.allocation().1.next_waiter,
            seen(self.state(), r.allocation().0),
    {
        let (waiter, g) = allocate_sample_waiter(&self.iterator_state);
        NextSampleTyped { state: &self.iterator_state, waiter, allocation: g }
    }

    /// The captured frames as a stream of samples.
    pub fn frames(&self) -> (r: SampleStream<'_, B, K, E>)
        ensures
            r.queue() == self.state(),
            r.token() is Some ==> r.token()->0 < r.allocation().1.next_waiter,
            seen(self.state(), r.allocation().0),
    {
        let (waiter, g) = allocate_sample_waiter(&self.iterator_state);
        SampleStream { state: &self.iterator_state, waiter, allocation: g }
    }

    /// The captured frames as a stream of `(sample, output type)` pairs.
    pub fn frames_typed(&self) -> (r: TypedSampleStream<'_, B, K, E>)
        ensures
            r.queue() == self.state(),
            r.token() is Some ==> r.token()->0 < r.allocation().1.next_waiter,
            seen(self.state(), r.allocation().0),
    {
        let (waiter, g) = allocate_sample_waiter(&self.iterator_state);
        TypedSampleStream { state: &self.iterator_state, waiter, allocation: g }
    }

    /// Whether a start must be refused: the stream was stopped, and a stopped
    /// stream cannot be restarted.
    pub fn refuses_restart(&self) -> (r: (bool, Observed<B, K, E>))
        ensures
            seen(self.state(), r.1@.0),
            r.0 == r.1@.0.stopped,
            r.1@.1 == r.1@.0,
    {
        sample_state_is_stopped(&self.iterator_state)
    }

    /// Clear all buffered samples; they are released after the lock.
    pub fn clear_buffer(&self) -> (g: Observed<B, K, E>)
        ensures
            seen(self.state(), g@.0),
            g@.1 == cleared(g@.0),
    {
        let (mut s, handle) = self.iterator_state.acquire_write();
        let ghost before = s@;
    proof {
        s.lemma_wf_model();
    }
        let discarded: VecDeque<(B, K)> = s.clear_buffer();
        let ghost after = s@;
        proof {
            assert(after =~= cleared(before));
        }
        handle.release_write(s);
        discard(discarded);
        Ghost((before, after))
    }
}

/// Samples come out oldest first: a run of polls by one consumer holding a
/// handed-out token, each finding the queue where the previous one left it
/// (no other operation in between), yields the buffered samples in order,
/// and after them the end of the stream if the queue was closed, else
/// `Pending`.
pub proof fn lemma_consecutive_polls_deliver_in_order<B, K, E>(
    observed: Seq<SampleQueueModel<B, K, E>>,
    answers: Seq<QueuePoll<(B, K)>>,
    waiter: u64,
)
    requires
        observed.len() == answers.len() + 1,
        waiter < observed[0].next_waiter,
        forall|i: int|
            #![trigger answers[i]]
            0 <= i < answers.len() ==> poll_step(observed[i], waiter, answers[i], observed[i + 1]),
    ensures
        forall|i: int|
            0 <= i < answers.len() ==> #[trigger] answers[i] == if i < observed[0].buffer.len() {
                QueuePoll::Ready(Some(observed[0].buffer[i]))
            } else if observed[0].closed {
                QueuePoll::<(B, K)>::Ready(None)
            } else {
                QueuePoll::<(B, K)>::Pending
            },
    decreases answers.len(),
{
    if answers.len() > 0 {
        assert(poll_step(observed[0], waiter, answers[0], observed[1]));
        let rest_obs = observed.drop_first();
        let rest_ans = answers.drop_first();
        assert forall|i: int| 0 <= i < rest_ans.len() implies poll_step(
            rest_obs[i],
            waiter,
            #[trigger] rest_ans[i],
            rest_obs[i + 1],
        ) by {
            assert(answers[i + 1] == rest_ans[i]);
        }
        lemma_consecutive_polls_deliver_in_order(rest_obs, rest_ans, waiter);
        let first = observed[0];
        let next = observed[1];
        assert(next.buffer == after_take_front(first).buffer);
        assert forall|i: int| 0 <= i < answers.len() implies #[trigger] answers[i] == if i
            < first.buffer.len() {
            QueuePoll::Ready(Some(first.buffer[i]))
        } else if first.closed {
            QueuePoll::<(B, K)>::Ready(None)
        } else {
            QueuePoll::<(B, K)>::Pending
        } by {
            if i > 0 {
                assert(answers[i] == rest_ans[i - 1]);
                if first.buffer.len() > 0 {
                    assert(next.buffer == first.buffer.drop_first());
                    if i - 1 < next.buffer.len() {
                        assert(next.buffer[i - 1] == first.buffer[i]);
                    }
                }
            }
        }
    }
}

/// The queue after `items` arrive one after another, the first first.
pub open spec fn after_pushes<B, K, E>(m: SampleQueueModel<B, K, E>, items: Seq<(B, K)>) -> SampleQueueModel<
    B,
    K,
    E,
>
    decreases items.len(),
{
    if items.len() == 0 {
        m
    } else {
        after_push(after_pushes(m, items.drop_last()), items.last())
    }
}

/// Bounded, drop-oldest delivery: after samples arrive one after another,
/// the queue holds the newest of everything it held and received, at most
/// its capacity of them, in arrival order; nothing else about it changes
/// but the parked consumers.
pub proof fn lemma_pushes_keep_newest_in_order<B, K, E>(m: SampleQueueModel<B, K, E>, items: Seq<(B, K)>)
    requires
        model_wf(m),
    ensures
        ({
            let all = m.buffer + items;
            let keep: int = if all.len() < m.capacity {
                all.len() as int
            } else {
                m.capacity as int
            };
            after_pushes(m, items).buffer == all.subrange(all.len() - keep, all.len() as int)
        }),
        model_wf(after_pushes(m, items)),
        after_pushes(m, items).closed == m.closed,
        after_pushes(m, items).stopped == m.stopped,
        after_pushes(m, items).capacity == m.capacity,
        after_pushes(m, items).next_waiter == m.next_waiter,
    decreases items.len(),
{
    let all = m.buffer + items;
    if items.len() == 0 {
        assert(all =~= m.buffer);
        assert(all.subrange(0, all.len() as int) =~= all);
        assert(after_pushes(m, items) == m);
    } else {
        let prefix = items.drop_last();
        lemma_pushes_keep_newest_in_order(m, prefix);
        let p = after_pushes(m, prefix);
        let all1 = m.buffer + prefix;
        let item = items.last();
        assert(all =~= all1.push(item));
        lemma_push_keeps_newest_within_capacity(p, item);
        let n1 = all1.len() as int;
        if n1 < m.capacity {
            assert(p.buffer =~= all1) by {
                assert(all1.subrange(0, n1) =~= all1);
            }
            assert(after_push(p, item).buffer =~= all.subrange(0, all.len() as int));
        } else {
            let c = m.capacity as int;
            assert(p.buffer =~= all1.subrange(n1 - c, n1));
            assert(after_push(p, item).buffer =~= all.subrange(all.len() - c, all.len() as int));
        }
    }
}

/// A refused output handler changes nothing: where its sender's removal
/// finds the queue as the sender's addition left it, and another sender was
/// registered before, the queue ends as the addition found it.
pub proof fn lemma_refused_handler_leaves_queue<B, K, E>(m: SampleQueueModel<B, K, E>)
    requires
        model_wf(m),
        m.senders >= 1,
        m.senders < usize::MAX,
    ensures
        after_sender_released(after_sender_added(m)) == m,
{
}

/// A clean stop is final: the queue it leaves is closed and stopped, and a
/// start that finds it so is refused (see `begin_start`) and leaves it so.
pub proof fn lemma_clean_stop_refuses_restart<B, K, E>(m: SampleQueueModel<B, K, E>)
    ensures
        after_close(m, None, true).closed,
        after_close(m, None, true).stopped,
        after_close(m, None, true).buffer == m.buffer,
        after_close(m, None, true).stop_error == m.stop_error,
        after_reopen(after_close(m, None, true)) == after_close(m, None, true),
{
}

/// An error is handed out once: a `take_error` that finds the queue as the
/// previous one left it gets `None`.
pub proof fn lemma_error_taken_once<B, K, E>(m: SampleQueueModel<B, K, E>)
    ensures
        without_stop_error(m).stop_error is None,
        without_stop_error(without_stop_error(m)) == without_stop_error(m),
        without_stop_error(m).closed == m.closed,
        without_stop_error(m).buffer == m.buffer,
{
}

/// `try_next` hands out the buffered samples oldest first: a run of calls,
/// each finding the queue where the previous one left it, gets the buffered
/// samples in order and `None` after them.
pub proof fn lemma_consecutive_takes_in_order<B, K, E>(
    observed: Seq<SampleQueueModel<B, K, E>>,
    answers: Seq<Option<B>>,
)
    requires
        observed.len() == answers.len() + 1,
        forall|i: int|
            #![trigger answers[i]]
            0 <= i < answers.len() ==> answers[i] == front_sample(observed[i]) && observed[i + 1]
                == after_take_front(observed[i]),
    ensures
        forall|i: int|
            0 <= i < answers.len() ==> #[trigger] answers[i] == if i < observed[0].buffer.len() {
                Some(observed[0].buffer[i].0)
            } else {
                None::<B>
            },
    decreases answers.len(),
{
    if answers.len() > 0 {
        assert(answers[0] == front_sample(observed[0]));
        let rest_obs = observed.drop_first();
        let rest_ans = answers.drop_first();
        assert forall|i: int| 0 <= i < rest_ans.len() implies #[trigger] rest_ans[i] == front_sample(
            rest_obs[i],
        ) && rest_obs[i + 1] == after_take_front(rest_obs[i]) by {
            assert(answers[i + 1] == rest_ans[i]);
        }
        lemma_consecutive_takes_in_order(rest_obs, rest_ans);
        let first = observed[0];
        let next = observed[1];
        assert forall|i: int| 0 <= i < answers.len() implies #[trigger] answers[i] == if i
            < first.buffer.len() {
            Some(first.buffer[i].0)
        } else {
            None::<B>
        } by {
            if i > 0 {
                assert(answers[i] == rest_ans[i - 1]);
                if first.buffer.len() > 0 {
                    assert(next.buffer == first.buffer.drop_first());
                    if i - 1 < next.buffer.len() {
                        assert(next.buffer[i - 1] == first.buffer[i]);
                    }
                }
            }
        }
    }
}

/// The message a start of a stopped stream is refused with.
pub open spec fn restart_refusal() -> Seq<char> {
    "an SCStream cannot be restarted after stop_capture(); create a new AsyncSCStream"@
}

/// What a start request does before it reaches the native stream.
#[derive(Debug, Clone, PartialEq, Eq)]
pub enum StartRequest {
    /// Refused with this message: the stream was stopped.
    Refused(String),
    /// The stream already runs; the request resolves successfully.
    AlreadyStarted,
    /// The queue was reopened; issue the native start.
    Issue,
}

/// Prepare a start: a stopped stream is refused without touching the native
/// stream; otherwise `claim_start` claims the start, and a stream whose
/// start is already claimed counts as started; a granted claim reopens the
/// queue, clearing the error of an earlier failed start.
pub fn begin_start<S, B, K, E, F: FnOnce() -> bool>(stream: &AsyncSCStream<S, B, K, E>, claim_start: F) -> (r: (
    StartRequest,
    Observed<B, K, E>,
))
    requires
        call_requires(claim_start, ()),
    ensures
        seen(stream.state(), r.1@.0),
        r.1@.0.stopped ==> (r.0 matches StartRequest::Refused(m) && m@ == restart_refusal()) && r.1@.1
            == r.1@.0,
        !r.1@.0.stopped ==> r.0 is AlreadyStarted || r.0 is Issue,
        r.0 is AlreadyStarted ==> call_ensures(claim_start, (), false) && r.1@.1 == r.1@.0,
        r.0 is Issue ==> call_ensures(claim_start, (), true) && r.1@.1 == after_reopen(r.1@.0),
{
    let (mut s, handle) = stream.iterator_state.acquire_write();
    let ghost before = s@;
    proof {
        s.lemma_wf_model();
    }
    if s.is_stopped() {
        handle.release_write(s);
        let message = String::from_str(
            "an SCStream cannot be restarted after stop_capture(); create a new AsyncSCStream",
        );
        return (StartRequest::Refused(message), Ghost((before, before)));
    }
    let claimed = claim_start();
    if !claimed {
        handle.release_write(s);
        return (StartRequest::AlreadyStarted, Ghost((before, before)));
    }
    s.reopen();
    let ghost after = s@;
    handle.release_write(s);
    (StartRequest::Issue, Ghost((before, after)))
}

/// How a start request was answered.
#[derive(Debug, Clone, PartialEq, Eq)]
pub enum StartCompletion {
    /// The stream started.
    Started,
    /// The request timed out and may still complete: the start stays
    /// claimed so that a retry does not start the stream twice.
    Unconfirmed,
    /// The start failed with this message: the queue is closed with it.
    Failed(String),
}

/// How the answer to a start request is classified.
pub open spec fn start_completion_of(result: Result<(), String>, timed_out: bool) -> StartCompletion {
    match result {
        Ok(()) => StartCompletion::Started,
        Err(m) => if timed_out {
            StartCompletion::Unconfirmed
        } else {
            StartCompletion::Failed(m)
        },
    }
}

/// Classify the answer to a start request; `timed_out` tells whether a
/// failure message reports a timeout.
pub fn classify_start_completion(result: Result<(), String>, timed_out: bool) -> (c: StartCompletion)
    ensures
        c == start_completion_of(result, timed_out),
{
    match result {
        Ok(()) => StartCompletion::Started,
        Err(message) => if timed_out {
            StartCompletion::Unconfirmed
        } else {
            StartCompletion::Failed(message)
        },
    }
}

/// Apply the answer to a start request to the queue: a failed start closes
/// it with `failure`, so consumers see the end rather than wait forever on a
/// stream that never ran; a start that succeeded or timed out leaves the
/// queue alone.
pub fn finish_start<B, K, E>(
    state: &SharedSampleState<B, K, E>,
    result: Result<(), String>,
    timed_out: bool,
    failure: E,
) -> (r: (StartCompletion, Observed<B, K, E>))
    ensures
        r.0 == start_completion_of(result, timed_out),
        r.0 is Failed ==> seen(*state, r.1@.0) && r.1@.1 == after_close(r.1@.0, Some(failure), false),
        !(r.0 is Failed) ==> r.1@.1 == r.1@.0,
{
    let c = classify_start_completion(result, timed_out);
    match c {
        StartCompletion::Failed(_) => {
            let g = close_sample_state(state, Some(failure), false);
            (c, g)
        },
        _ => {
            let ghost m = vstd::pervasive::arbitrary::<SampleQueueModel<B, K, E>>();
            (c, Ghost((m, m)))
        },
    }
}

/// Apply the answer to a stop request: a clean stop closes the queue for
/// good, without an error; a failed stop leaves it alone.
pub fn finish_stop<B, K, E>(state: &SharedSampleState<B, K, E>, result: &Result<(), String>) -> (g: Observed<B, K, E>)
    ensures
        result is Ok ==> seen(*state, g@.0) && g@.1 == after_close(g@.0, None, true),
        result is Err ==> g@.1 == g@.0,
{
    if result.is_ok() {
        close_sample_state(state, None, true)
    } else {
        let ghost m = vstd::pervasive::arbitrary::<SampleQueueModel<B, K, E>>();
        Ghost((m, m))
    }
}

/// Poll the queue for consumer `waiter`; without a token (all tokens spent)
/// the request has ended.
fn poll_waiter<B, K, E>(state: &SharedSampleState<B, K, E>, waiter: Option<u64>, waker: Waker) -> (r: (
    QueuePoll<(B, K)>,
    Observed<B, K, E>,
))
    ensures
        waiter is None ==> r.0 == QueuePoll::<(B, K)>::Ready(None),
        waiter matches Some(t) ==> seen(*state, r.1@.0) && poll_step(r.1@.0, t, r.0, r.1@.1),
{
    match waiter {
        Some(w) => poll_next_sample(state, w, waker),
        None => {
            let ghost m = vstd::pervasive::arbitrary::<SampleQueueModel<B, K, E>>();
            (QueuePoll::Ready(None), Ghost((m, m)))
        },
    }
}

/// A polled pair with its type dropped.
pub open spec fn untyped_poll<B, K>(poll: QueuePoll<(B, K)>) -> QueuePoll<B> {
    match poll {
        QueuePoll::Ready(Some(item)) => QueuePoll::Ready(Some(item.0)),
        QueuePoll::Ready(None) => QueuePoll::Ready(None),
        QueuePoll::Pending => QueuePoll::Pending,
    }
}

/// Drop the type of a polled sample.
fn untyped<B, K>(poll: QueuePoll<(B, K)>) -> (r: QueuePoll<B>)
    ensures
        r == untyped_poll(poll),
{
    match poll {
        QueuePoll::Ready(Some((buffer, _of_type))) => QueuePoll::Ready(Some(buffer)),
        QueuePoll::Ready(None) => QueuePoll::Ready(None),
        QueuePoll::Pending => QueuePoll::Pending,
    }
}

/// Unpark consumer `waiter`, if it has a token.
fn cancel_waiter<B, K, E>(state: &SharedSampleState<B, K, E>, waiter: Option<u64>) -> (g: Observed<B, K, E>)
    ensures
        waiter matches Some(t) ==> seen(*state, g@.0) && unregister_step(g@.0, t, g@.1),
        waiter is None ==> g@.1 == g@.0,
{
    match waiter {
        Some(w) => unregister_sample_waiter(state, w),
        None => {
            let ghost m = vstd::pervasive::arbitrary::<SampleQueueModel<B, K, E>>();
            Ghost((m, m))
        },
    }
}

/// A pending request for the next sample of an [`AsyncSCStream`]. An
/// abandoned request must be cancelled so that its parked waker goes away.
pub struct NextSample<'a, B, K, E> {
    state: &'a SharedSampleState<B, K, E>,
    waiter: Option<u64>,
    allocation: Observed<B, K, E>,
}

impl<'a, B, K, E> NextSample<'a, B, K, E> {
    /// The queue this request polls.
    pub closed spec fn queue(&self) -> SharedSampleState<B, K, E> {
        *self.state
    }

    /// The consumer token of this request; `None` once every token was
    /// spent.
    pub closed spec fn token(&self) -> Option<u64> {
        self.waiter
    }

    /// The queue as the token allocation found and left it.
    pub closed spec fn allocation(&self) -> (SampleQueueModel<B, K, E>, SampleQueueModel<B, K, E>) {
        self.allocation@
    }

    /// The next sample, `None` once the stream ended and drained, or `Pending` with `waker` parked.
    pub fn poll(&self, waker: Waker) -> (r: (QueuePoll<B>, Observed<B, K, E>))
        ensures
            self.token() is None ==> r.0 == QueuePoll::<B>::Ready(None),
            self.token() matches Some(t) ==> seen(self.queue(), r.1@.0) && exists|p: QueuePoll<(B, K)>|
                poll_step(r.1@.0, t, p, r.1@.1) && r.0 == untyped_poll(p),
    {
        let (p, g) = poll_waiter(self.state, self.waiter, waker);
        (untyped(p), g)
    }

    /// Unpark this request: no entry for its token stays parked.
    pub fn cancel(&self) -> (g: Observed<B, K, E>)
        ensures
            self.token() matches Some(t) ==> seen(self.queue(), g@.0) && unregister_step(g@.0, t, g@.1),
    {
        cancel_waiter(self.state, self.waiter)
    }
}

/// A pending request for the next sample and its output type.
pub struct NextSampleTyped<'a, B, K, E> {
    state: &'a SharedSampleState<B, K, E>,
    waiter: Option<u64>,
    allocation: Observed<B, K, E>,
}

impl<'a, B, K, E> NextSampleTyped<'a, B, K, E> {
    /// The queue this request polls.
    pub closed spec fn queue(&self) -> SharedSampleState<B, K, E> {
        *self.state
    }

    /// The consumer token of this request; `None` once every token was
    /// spent.
    pub closed spec fn token(&self) -> Option<u64> {
        self.waiter
    }

    /// The queue as the token allocation found and left it.
    pub closed spec fn allocation(&self) -> (SampleQueueModel<B, K, E>, SampleQueueModel<B, K, E>) {
        self.allocation@
    }

    /// The next sample, `None` once the stream ended and drained, or `Pending` with `waker` parked.
    pub fn poll(&self, waker: Waker) -> (r: (QueuePoll<(B, K)>, Observed<B, K, E>))
        ensures
            self.token() is None ==> r.0 == QueuePoll::<(B, K)>::Ready(None),
            self.token() matches Some(t) ==> seen(self.queue(), r.1@.0) && poll_step(r.1@.0, t, r.0, r.1@.1),
    {
        poll_waiter(self.state, self.waiter, waker)
    }

    /// Unpark this request: no entry for its token stays parked.
    pub fn cancel(&self) -> (g: Observed<B, K, E>)
        ensures
            self.token() matches Some(t) ==> seen(self.queue(), g@.0) && unregister_step(g@.0, t, g@.1),
    {
        cancel_waiter(self.state, self.waiter)
    }
}

/// The frames of an [`AsyncSCStream`] as a stream of samples.
pub struct SampleStream<'a, B, K, E> {
    state: &'a SharedSampleState<B, K, E>,
    waiter: Option<u64>,
    allocation: Observed<B, K, E>,
}

impl<'a, B, K, E> SampleStream<'a, B, K, E> {
    /// The queue this request polls.
    pub closed spec fn queue(&self) -> SharedSampleState<B, K, E> {
        *self.state
    }

    /// The consumer token of this request; `None` once every token was
    /// spent.
    pub closed spec fn token(&self) -> Option<u64> {
        self.waiter
    }

    /// The queue as the token allocation found and left it.
    pub closed spec fn allocation(&self) -> (SampleQueueModel<B, K, E>, SampleQueueModel<B, K, E>) {
        self.allocation@
    }

    /// The next item of the stream.
    pub fn poll_next(&self, waker: Waker) -> (r: (QueuePoll<B>, Observed<B, K, E>))
        ensures
            self.token() is None ==> r.0 == QueuePoll::<B>::Ready(None),
            self.token() matches Some(t) ==> seen(self.queue(), r.1@.0) && exists|p: QueuePoll<(B, K)>|
                poll_step(r.1@.0, t, p, r.1@.1) && r.0 == untyped_poll(p),
    {
        let (p, g) = poll_waiter(self.state, self.waiter, waker);
        (untyped(p), g)
    }

    /// Unpark this request: no entry for its token stays parked.
    pub fn cancel(&self) -> (g: Observed<B, K, E>)
        ensures
            self.token() matches Some(t) ==> seen(self.queue(), g@.0) && unregister_step(g@.0, t, g@.1),
    {
        cancel_waiter(self.state, self.waiter)
    }
}

/// The frames of an [`AsyncSCStream`] as a stream of `(sample, type)` pairs.
pub struct TypedSampleStream<'a, B, K, E> {
    state: &'a SharedSampleState<B, K, E>,
    waiter: Option<u64>,
    allocation: Observed<B, K, E>,
}

impl<'a, B, K, E> TypedSampleStream<'a, B, K, E> {
    /// The queue this request polls.
    pub closed spec fn queue(&self) -> SharedSampleState<B, K, E> {
        *self.state
    }

    /// The consumer token of this request; `None` once every token was
    /// spent.
    pub closed spec fn token(&self) -> Option<u64> {
        self.waiter
    }

    /// The queue as the token allocation found and left it.
    pub closed spec fn allocation(&self) -> (SampleQueueModel<B, K, E>, SampleQueueModel<B, K, E>) {
        self.allocation@
    }

    /// The next item of the stream.
    pub fn poll_next(&self, waker: Waker) -> (r: (QueuePoll<(B, K)>, Observed<B, K, E>))
        ensures
            self.token() is None ==> r.0 == QueuePoll::<(B, K)>::Ready(None),
            self.token() matches Some(t) ==> seen(self.queue(), r.1@.0) && poll_step(r.1@.0, t, r.0, r.1@.1),
    {
        poll_waiter(self.state, self.waiter, waker)
    }

    /// Unpark this request: no entry for its token stays parked.
    pub fn cancel(&self) -> (g: Observed<B, K, E>)
        ensures
            self.token() matches Some(t) ==> seen(self.queue(), g@.0) && unregister_step(g@.0, t, g@.1),
    {
        cancel_waiter(self.state, self.waiter)
    }
}

} // verus!
