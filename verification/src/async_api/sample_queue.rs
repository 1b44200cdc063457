//! The lossy, bounded sample queue that feeds `AsyncSCStream`.
//!
//! When the queue is full and a new sample arrives, the **oldest** buffered
//! sample is dropped to make room for the newest (drop-oldest policy). The
//! queue closes when its last sender goes away, when the stream stops with an
//! error, or when `stop_capture` succeeds; a queue closed by a successful stop
//! can never be reopened, since `ScreenCaptureKit` cannot restart a stopped
//! stream.

use super::waiters::{
    entries_kept, has_token, lemma_has_token_iff_token_seq, lemma_has_token_of_token_seq, lemma_push_contains,
    lemma_tokens_below_after_removal, lemma_tokens_below_of_token_seq, register_waker, token_seq,
    tokens_below, tokens_unique, unregister_waker, QueuePoll, RegisteredWaker,
};
use std::collections::VecDeque;
use std::task::Waker;
use vstd::prelude::*;

verus! {

/// Mathematical model of the sample queue.
pub struct SampleQueueModel<B, K, E> {
    /// Buffered `(sample, output type)` pairs, oldest first.
    pub buffer: Seq<(B, K)>,
    /// Consumers currently parked on the queue.
    pub waiters: Seq<RegisteredWaker>,
    pub closed: bool,
    /// Set once `stop_capture` succeeded.
    pub stopped: bool,
    pub capacity: nat,
    /// Live senders.
    pub senders: nat,
    /// Why the stream stopped, until taken.
    pub stop_error: Option<E>,
    /// The next consumer token to hand out.
    pub next_waiter: nat,
}

/// The state guarded by the queue's lock.
pub struct AsyncSampleIteratorState<B, K, E> {
    buffer: VecDeque<(B, K)>,
    waiters: Vec<RegisteredWaker>,
    closed: bool,
    stopped: bool,
    capacity: usize,
    senders: usize,
    stop_error: Option<E>,
    next_waiter: u64,
}

impl<B, K, E> View for AsyncSampleIteratorState<B, K, E> {
    type V = SampleQueueModel<B, K, E>;

    closed spec fn view(&self) -> SampleQueueModel<B, K, E> {
        SampleQueueModel {
            buffer: self.buffer@,
            waiters: self.waiters@,
            closed: self.closed,
            stopped: self.stopped,
            capacity: self.capacity as nat,
            senders: self.senders as nat,
            stop_error: self.stop_error,
            next_waiter: self.next_waiter as nat,
        }
    }
}

/// Well-formed model: room for at least one sample, never more than
/// `capacity` buffered, a stopped queue closed, one entry per parked
/// consumer, and every parked token already handed out.
pub open spec fn model_wf<B, K, E>(m: SampleQueueModel<B, K, E>) -> bool {
    &&& m.capacity >= 1
    &&& m.stopped ==> m.closed
    &&& m.capacity <= usize::MAX
    &&& m.buffer.len() <= m.capacity
    &&& m.senders <= usize::MAX
    &&& m.next_waiter <= u64::MAX
    &&& tokens_unique(m.waiters)
    &&& tokens_below(m.waiters, m.next_waiter)
}

/// A fresh queue: `0` capacity is treated as `1`.
pub open spec fn new_model<B, K, E>(capacity: usize) -> SampleQueueModel<B, K, E> {
    SampleQueueModel {
        buffer: Seq::empty(),
        waiters: Seq::empty(),
        closed: false,
        stopped: false,
        capacity: if capacity == 0 { 1 } else { capacity as nat },
        senders: 0,
        stop_error: None,
        next_waiter: 0,
    }
}

/// The sample that a push evicts: the oldest one, when the queue is full.
pub open spec fn evicted_by_push<B, K, E>(m: SampleQueueModel<B, K, E>) -> Option<(B, K)> {
    if m.buffer.len() >= m.capacity && m.buffer.len() > 0 {
        Some(m.buffer[0])
    } else {
        None
    }
}

/// The queue after a sample arrives: oldest dropped when full, the new one
/// appended, every parked consumer released for waking.
pub open spec fn after_push<B, K, E>(m: SampleQueueModel<B, K, E>, item: (B, K)) -> SampleQueueModel<
    B,
    K,
    E,
> {
    SampleQueueModel {
        buffer: if m.buffer.len() >= m.capacity && m.buffer.len() > 0 {
            m.buffer.drop_first().push(item)
        } else {
            m.buffer.push(item)
        },
        waiters: Seq::empty(),
        ..m
    }
}

/// The queue after another sender registers.
pub open spec fn after_sender_added<B, K, E>(m: SampleQueueModel<B, K, E>) -> SampleQueueModel<
    B,
    K,
    E,
> {
    SampleQueueModel {
        senders: if m.senders < usize::MAX {
            m.senders + 1
        } else {
            m.senders
        },
        ..m
    }
}

/// The queue after a sender goes away: the last one closes the queue and
/// releases every parked consumer.
pub open spec fn after_sender_released<B, K, E>(m: SampleQueueModel<B, K, E>) -> SampleQueueModel<
    B,
    K,
    E,
> {
    let senders: nat = if m.senders > 0 {
        (m.senders - 1) as nat
    } else {
        0
    };
    if senders > 0 {
        SampleQueueModel { senders, ..m }
    } else {
        SampleQueueModel { senders, closed: true, waiters: Seq::empty(), ..m }
    }
}

/// The queue after it is closed, optionally recording why and whether the
/// stream was stopped.
pub open spec fn after_close<B, K, E>(
    m: SampleQueueModel<B, K, E>,
    error: Option<E>,
    stopped: bool,
) -> SampleQueueModel<B, K, E> {
    SampleQueueModel {
        stop_error: if error is Some {
            error
        } else {
            m.stop_error
        },
        stopped: m.stopped || stopped,
        closed: true,
        waiters: Seq::empty(),
        ..m
    }
}

/// The queue after a restart attempt: reopened with its error cleared,
/// unless a successful stop already happened.
pub open spec fn after_reopen<B, K, E>(m: SampleQueueModel<B, K, E>) -> SampleQueueModel<B, K, E> {
    if m.stopped {
        m
    } else {
        SampleQueueModel { closed: false, stop_error: None, ..m }
    }
}

/// What a poll yields: the oldest sample, end of stream once closed and
/// drained, or nothing yet.
pub open spec fn poll_result<B, K, E>(m: SampleQueueModel<B, K, E>) -> QueuePoll<(B, K)> {
    if m.buffer.len() > 0 {
        QueuePoll::Ready(Some(m.buffer[0]))
    } else if m.closed {
        QueuePoll::Ready(None)
    } else {
        QueuePoll::Pending
    }
}

/// The queue after its oldest sample is taken (unchanged when empty).
pub open spec fn after_take_front<B, K, E>(m: SampleQueueModel<B, K, E>) -> SampleQueueModel<
    B,
    K,
    E,
> {
    if m.buffer.len() > 0 {
        SampleQueueModel { buffer: m.buffer.drop_first(), ..m }
    } else {
        m
    }
}

/// The oldest buffered sample, if any.
pub open spec fn front<B, K, E>(m: SampleQueueModel<B, K, E>) -> Option<(B, K)> {
    if m.buffer.len() > 0 {
        Some(m.buffer[0])
    } else {
        None
    }
}

/// The queue with its stop error replaced by `error`.
pub open spec fn with_stop_error<B, K, E>(m: SampleQueueModel<B, K, E>, error: E) -> SampleQueueModel<B, K, E> {
    SampleQueueModel { stop_error: Some(error), ..m }
}

/// The queue with its stop error taken out.
pub open spec fn without_stop_error<B, K, E>(m: SampleQueueModel<B, K, E>) -> SampleQueueModel<B, K, E> {
    SampleQueueModel { stop_error: None, ..m }
}

/// The queue with its buffer emptied.
pub open spec fn cleared<B, K, E>(m: SampleQueueModel<B, K, E>) -> SampleQueueModel<B, K, E> {
    SampleQueueModel { buffer: Seq::empty(), ..m }
}

/// The queue with its consumer counter advanced past a freshly handed-out
/// token.
pub open spec fn after_allocate<B, K, E>(m: SampleQueueModel<B, K, E>) -> SampleQueueModel<B, K, E> {
    SampleQueueModel { next_waiter: m.next_waiter + 1, ..m }
}

/// Everything but the parked consumers is kept.
pub open spec fn same_but_waiters<B, K, E>(a: SampleQueueModel<B, K, E>, b: SampleQueueModel<B, K, E>) -> bool {
    &&& b.buffer == a.buffer
    &&& b.closed == a.closed
    &&& b.stopped == a.stopped
    &&& b.capacity == a.capacity
    &&& b.senders == a.senders
    &&& b.stop_error == a.stop_error
    &&& b.next_waiter == a.next_waiter
}

/// Only the parked entry of `waiter` may come, go or change: every other
/// token is parked after exactly when it was before, with the same entry.
pub open spec fn others_kept(a: Seq<RegisteredWaker>, b: Seq<RegisteredWaker>, waiter: u64) -> bool {
    &&& forall|t: u64| t != waiter ==> (has_token(b, t) <==> has_token(a, t))
    &&& entries_kept(a, b, waiter)
}

/// One poll by consumer `waiter`, from `before` to `after`, answering `r`:
/// a token never handed out gets the end of the stream and changes nothing;
/// otherwise the oldest sample is taken, the end of stream is reported for a
/// closed and drained queue, or the consumer is parked with a single entry.
pub open spec fn poll_step<B, K, E>(
    before: SampleQueueModel<B, K, E>,
    waiter: u64,
    r: QueuePoll<(B, K)>,
    after: SampleQueueModel<B, K, E>,
) -> bool {
    if waiter >= before.next_waiter {
        r == QueuePoll::<(B, K)>::Ready(None) && after == before
    } else {
        &&& r == poll_result(before)
        &&& same_but_waiters(after_take_front(before), after)
        &&& others_kept(before.waiters, after.waiters, waiter)
        &&& r is Pending ==> has_token(after.waiters, waiter) && token_seq(after.waiters) == if has_token(
            before.waiters,
            waiter,
        ) {
            token_seq(before.waiters)
        } else {
            token_seq(before.waiters).push(waiter)
        }
        &&& r is Ready ==> !has_token(after.waiters, waiter)
    }
}

/// Consumer `waiter` is unparked, everything else kept.
pub open spec fn unregister_step<B, K, E>(
    before: SampleQueueModel<B, K, E>,
    waiter: u64,
    after: SampleQueueModel<B, K, E>,
) -> bool {
    &&& same_but_waiters(before, after)
    &&& !has_token(after.waiters, waiter)
    &&& others_kept(before.waiters, after.waiters, waiter)
}

impl<B, K, E> AsyncSampleIteratorState<B, K, E> {
    /// Well-formedness of the state.
    pub closed spec fn wf(&self) -> bool {
        &&& model_wf(self@)
        &&& self.buffer@.len() == self@.buffer.len()
    }

    /// A well-formed state has a well-formed model.
    pub proof fn lemma_wf_model(&self)
        requires
            self.wf(),
        ensures
            model_wf(self@),
    {
    }

    /// A fresh, open queue holding at most `capacity` samples; `0` is treated
    /// as `1`, since the queue must hold the sample it is about to hand out.
    pub fn new(capacity: usize) -> (s: Self)
        ensures
            s.wf(),
            s@ == new_model::<B, K, E>(capacity),
    {
        let cap = if capacity == 0 {
            1
        } else {
            capacity
        };
        let s = AsyncSampleIteratorState {
            buffer: VecDeque::new(),
            waiters: Vec::new(),
            closed: false,
            stopped: false,
            capacity: cap,
            senders: 0,
            stop_error: None,
            next_waiter: 0,
        };
        proof {
            assert(s.waiters@ =~= Seq::<RegisteredWaker>::empty());
            assert(s@ =~= new_model::<B, K, E>(capacity));
        }
        s
    }

    /// Register one more sender.
    pub fn add_sender(&mut self)
        requires
            old(self).wf(),
        ensures
            final(self).wf(),
            final(self)@ == after_sender_added(old(self)@),
    {
        if self.senders < usize::MAX {
            self.senders = self.senders + 1;
        }
    }

    /// Deliver a sample. Returns the evicted sample and the parked consumers,
    /// both to be released after the lock is dropped.
    pub fn push_sample(&mut self, item: (B, K)) -> (out: (Option<(B, K)>, Vec<RegisteredWaker>))
        requires
            old(self).wf(),
        ensures
            final(self).wf(),
            final(self)@ == after_push(old(self)@, item),
            out.0 == evicted_by_push(old(self)@),
            out.1@ == old(self)@.waiters,
    {
        let evicted = if self.buffer.len() >= self.capacity {
            self.buffer.pop_front()
        } else {
            None
        };
        self.buffer.push_back(item);
        let mut waiters: Vec<RegisteredWaker> = Vec::new();
        std::mem::swap(&mut waiters, &mut self.waiters);
        proof {
            assert(self@.waiters =~= Seq::<RegisteredWaker>::empty());
            assert(self@.buffer =~= after_push(old(self)@, item).buffer);
            assert(self@ =~= after_push(old(self)@, item));
        }
        (evicted, waiters)
    }

    /// A sender went away. Returns the parked consumers to wake once the lock
    /// is dropped: all of them when this was the last sender, else none.
    pub fn release_sender(&mut self) -> (woken: Vec<RegisteredWaker>)
        requires
            old(self).wf(),
        ensures
            final(self).wf(),
            final(self)@ == after_sender_released(old(self)@),
            woken@ == if after_sender_released(old(self)@).closed && !(old(self)@.senders > 1) {
                old(self)@.waiters
            } else {
                Seq::empty()
            },
    {
        self.senders = if self.senders > 0 {
            self.senders - 1
        } else {
            0
        };
        let mut waiters: Vec<RegisteredWaker> = Vec::new();
        if self.senders > 0 {
            proof {
                assert(self@ =~= after_sender_released(old(self)@));
            }
            return waiters;
        }
        self.closed = true;
        std::mem::swap(&mut waiters, &mut self.waiters);
        proof {
            assert(self@ =~= after_sender_released(old(self)@));
        }
        waiters
    }

    /// Close the queue, optionally recording why. Returns the parked
    /// consumers to wake once the lock is dropped.
    pub fn close(&mut self, error: Option<E>, stopped: bool) -> (woken: Vec<RegisteredWaker>)
        requires
            old(self).wf(),
        ensures
            final(self).wf(),
            final(self)@ == after_close(old(self)@, error, stopped),
            woken@ == old(self)@.waiters,
    {
        if error.is_some() {
            self.stop_error = error;
        }
        self.stopped = self.stopped || stopped;
        self.closed = true;
        let mut waiters: Vec<RegisteredWaker> = Vec::new();
        std::mem::swap(&mut waiters, &mut self.waiters);
        proof {
            assert(self@ =~= after_close(old(self)@, error, stopped));
        }
        waiters
    }

    /// Reopen a queue that a failed start closed; no effect once a stop has
    /// succeeded.
    pub fn reopen(&mut self)
        requires
            old(self).wf(),
        ensures
            final(self).wf(),
            final(self)@ == after_reopen(old(self)@),
    {
        if self.stopped {
            return;
        }
        self.closed = false;
        self.stop_error = None;
        proof {
            assert(self@ =~= after_reopen(old(self)@));
        }
    }

    /// Record why the stream cannot deliver samples.
    pub fn set_stop_error(&mut self, error: E)
        requires
            old(self).wf(),
        ensures
            final(self).wf(),
            final(self)@ == (SampleQueueModel { stop_error: Some(error), ..old(self)@ }),
    {
        self.stop_error = Some(error);
        proof {
            assert(self@ =~= (SampleQueueModel { stop_error: Some(error), ..old(self)@ }));
        }
    }

    /// Hand out a fresh consumer token, or `None` once tokens are exhausted.
    pub fn allocate_waiter(&mut self) -> (token: Option<u64>)
        requires
            old(self).wf(),
        ensures
            final(self).wf(),
            old(self)@.next_waiter < u64::MAX ==> token == Some(old(self)@.next_waiter as u64)
                && final(self)@ == (SampleQueueModel {
                    next_waiter: old(self)@.next_waiter + 1,
                    ..old(self)@
                }),
            old(self)@.next_waiter >= u64::MAX ==> token is None && final(self)@ == old(self)@,
            token matches Some(t) ==> !has_token(old(self)@.waiters, t),
    {
        if self.next_waiter == u64::MAX {
            return None;
        }
        let t = self.next_waiter;
        self.next_waiter = self.next_waiter + 1;
        proof {
            assert(self@ =~= (SampleQueueModel { next_waiter: old(self)@.next_waiter + 1, ..old(self)@ }));
        }
        Some(t)
    }

    /// Poll for the next sample on behalf of consumer `waiter`.
    ///
    /// Yields the oldest sample when one is buffered, end of stream when the
    /// queue is closed and drained (in both cases the consumer is no longer
    /// parked), and otherwise parks the consumer with `waker`. The second
    /// component holds the wakers that leave the registry, to be dropped once
    /// the lock is released.
    pub fn poll_next(&mut self, waiter: u64, waker: Waker) -> (out: (QueuePoll<(B, K)>, Vec<Waker>))
        requires
            old(self).wf(),
            waiter < old(self)@.next_waiter,
        ensures
            final(self).wf(),
            out.0 == poll_result(old(self)@),
            final(self)@.buffer == after_take_front(old(self)@).buffer,
            final(self)@.closed == old(self)@.closed,
            final(self)@.stopped == old(self)@.stopped,
            final(self)@.capacity == old(self)@.capacity,
            final(self)@.senders == old(self)@.senders,
            final(self)@.stop_error == old(self)@.stop_error,
            final(self)@.next_waiter == old(self)@.next_waiter,
            out.0 is Pending ==> has_token(final(self)@.waiters, waiter) && token_seq(
                final(self)@.waiters,
            ) == if has_token(old(self)@.waiters, waiter) {
                token_seq(old(self)@.waiters)
            } else {
                token_seq(old(self)@.waiters).push(waiter)
            },
            out.0 is Ready ==> !has_token(final(self)@.waiters, waiter) && final(self)@.waiters.len()
                == if has_token(old(self)@.waiters, waiter) {
                old(self)@.waiters.len() - 1
            } else {
                old(self)@.waiters.len() as int
            },
            forall|t: u64|
                t != waiter ==> (has_token(final(self)@.waiters, t) <==> has_token(
                    old(self)@.waiters,
                    t,
                )),
            entries_kept(old(self)@.waiters, final(self)@.waiters, waiter),
    {
        let mut leftovers: Vec<Waker> = Vec::new();
        let front = self.buffer.pop_front();
        match front {
            Some(sample) => {
                let removed = unregister_waker(&mut self.waiters, waiter);
                if let Some(entry) = removed {
                    leftovers.push(entry.waker);
                }
                leftovers.push(waker);
                proof {
                    lemma_tokens_below_after_removal(old(self).waiters@, self.waiters@, waiter, self.next_waiter as nat);
                }
                (QueuePoll::Ready(Some(sample)), leftovers)
            },
            None => {
                if self.closed {
                    let removed = unregister_waker(&mut self.waiters, waiter);
                    if let Some(entry) = removed {
                        leftovers.push(entry.waker);
                    }
                    leftovers.push(waker);
                    proof {
                        lemma_tokens_below_after_removal(old(self).waiters@, self.waiters@, waiter, self.next_waiter as nat);
                    }
                    (QueuePoll::Ready(None), leftovers)
                } else {
                    let ghost before = self.waiters@;
                    let displaced = register_waker(&mut self.waiters, waiter, waker);
                    if let Some(w) = displaced {
                        leftovers.push(w);
                    }
                    proof {
                        lemma_has_token_iff_token_seq(before, waiter);
                        lemma_push_contains(token_seq(before), waiter, waiter);
                        lemma_has_token_of_token_seq(self.waiters@, waiter);
                        lemma_tokens_below_of_token_seq(before, self.waiters@, waiter, self.next_waiter as nat);
                        assert forall|t: u64| t != waiter implies (has_token(self.waiters@, t) <==> has_token(before, t)) by {
                            lemma_has_token_iff_token_seq(self.waiters@, t);
                            lemma_has_token_iff_token_seq(before, t);
                            lemma_push_contains(token_seq(before), waiter, t);
                        }
                    }
                    (QueuePoll::Pending, leftovers)
                }
            },
        }
    }

    /// Unpark consumer `waiter` (its future was dropped). Returns the removed
    /// entry, to be dropped once the lock is released.
    pub fn unregister(&mut self, waiter: u64) -> (removed: Option<RegisteredWaker>)
        requires
            old(self).wf(),
        ensures
            final(self).wf(),
            final(self)@.buffer == old(self)@.buffer,
            final(self)@.closed == old(self)@.closed,
            final(self)@.stopped == old(self)@.stopped,
            final(self)@.stop_error == old(self)@.stop_error,
            final(self)@.senders == old(self)@.senders,
            final(self)@.capacity == old(self)@.capacity,
            final(self)@.next_waiter == old(self)@.next_waiter,
            !has_token(final(self)@.waiters, waiter),
            removed is Some <==> has_token(old(self)@.waiters, waiter),
            final(self)@.waiters.len() == if has_token(old(self)@.waiters, waiter) {
                old(self)@.waiters.len() - 1
            } else {
                old(self)@.waiters.len() as int
            },
            forall|t: u64|
                t != waiter ==> (has_token(final(self)@.waiters, t) <==> has_token(
                    old(self)@.waiters,
                    t,
                )),
            entries_kept(old(self)@.waiters, final(self)@.waiters, waiter),
    {
        let r = unregister_waker(&mut self.waiters, waiter);
        proof {
            lemma_tokens_below_after_removal(old(self).waiters@, self.waiters@, waiter, self.next_waiter as nat);
        }
        r
    }

    /// Take the oldest buffered sample without waiting.
    pub fn try_next(&mut self) -> (sample: Option<(B, K)>)
        requires
            old(self).wf(),
        ensures
            final(self).wf(),
            sample == front(old(self)@),
            final(self)@ == after_take_front(old(self)@),
    {
        let s = self.buffer.pop_front();
        proof {
            assert(self@ =~= after_take_front(old(self)@));
        }
        s
    }

    /// Whether the queue has been closed.
    pub fn is_closed(&self) -> (b: bool)
        ensures
            b == self@.closed,
    {
        self.closed
    }

    /// Whether a stop has succeeded.
    pub fn is_stopped(&self) -> (b: bool)
        ensures
            b == self@.stopped,
    {
        self.stopped
    }

    /// Take the recorded stop error, clearing it.
    pub fn take_error(&mut self) -> (e: Option<E>)
        requires
            old(self).wf(),
        ensures
            final(self).wf(),
            e == old(self)@.stop_error,
            final(self)@ == (SampleQueueModel { stop_error: None, ..old(self)@ }),
    {
        let e = self.stop_error.take();
        proof {
            assert(self@ =~= (SampleQueueModel { stop_error: None, ..old(self)@ }));
        }
        e
    }

    /// Whether a stop error is recorded.
    pub fn has_error(&self) -> (b: bool)
        ensures
            b == self@.stop_error is Some,
    {
        self.stop_error.is_some()
    }

    /// Number of buffered samples.
    pub fn buffered_count(&self) -> (n: usize)
        requires
            self.wf(),
        ensures
            n == self@.buffer.len(),
            n <= self@.capacity,
    {
        self.buffer.len()
    }

    /// One past the largest consumer token handed out so far.
    pub fn next_waiter_bound(&self) -> (n: u64)
        ensures
            n == self@.next_waiter,
    {
        self.next_waiter
    }

    /// Number of parked consumers.
    pub fn waiter_count(&self) -> (n: usize)
        ensures
            n == self@.waiters.len(),
    {
        self.waiters.len()
    }

    /// Remove every buffered sample, handing them back so they can be
    /// released after the lock is dropped.
    pub fn clear_buffer(&mut self) -> (discarded: VecDeque<(B, K)>)
        requires
            old(self).wf(),
        ensures
            final(self).wf(),
            discarded@ == old(self)@.buffer,
            final(self)@ == (SampleQueueModel { buffer: Seq::empty(), ..old(self)@ }),
    {
        let mut discarded: VecDeque<(B, K)> = VecDeque::new();
        std::mem::swap(&mut discarded, &mut self.buffer);
        proof {
            assert(self@ =~= (SampleQueueModel { buffer: Seq::empty(), ..old(self)@ }));
        }
        discarded
    }
}


/// Drop-oldest, bounded delivery: a push keeps the queue within its
/// capacity, evicts exactly the oldest sample when full, and leaves the
/// newest samples in arrival order with the new one last.
pub proof fn lemma_push_keeps_newest_within_capacity<B, K, E>(m: SampleQueueModel<B, K, E>, item: (B, K))
    requires
        model_wf(m),
    ensures
        after_push(m, item).buffer.len() <= m.capacity,
        after_push(m, item).buffer.last() == item,
        m.buffer.len() < m.capacity ==> after_push(m, item).buffer == m.buffer.push(item)
            && evicted_by_push(m) is None,
        m.buffer.len() == m.capacity ==> after_push(m, item).buffer == m.buffer.push(item).subrange(
            1,
            m.buffer.len() as int + 1,
        ) && evicted_by_push(m) == Some(m.buffer[0]),
        model_wf(after_push(m, item)),
{
    if m.buffer.len() == m.capacity {
        assert(m.buffer.drop_first().push(item) =~= m.buffer.push(item).subrange(1, m.buffer.len() as int + 1));
    }
}

/// First in, first out: below capacity, a push does not change which sample
/// is delivered next.
pub proof fn lemma_push_keeps_front<B, K, E>(m: SampleQueueModel<B, K, E>, item: (B, K))
    requires
        model_wf(m),
        m.buffer.len() < m.capacity,
    ensures
        front(after_push(m, item)) == if m.buffer.len() > 0 {
            front(m)
        } else {
            Some(item)
        },
{
}

/// A successful stop is permanent: once stopped, every transition keeps the
/// queue stopped, and a restart attempt changes nothing.
pub proof fn lemma_stop_is_permanent<B, K, E>(
    m: SampleQueueModel<B, K, E>,
    item: (B, K),
    error: Option<E>,
    stopped: bool,
)
    requires
        m.stopped,
    ensures
        after_reopen(m) == m,
        after_close(m, error, stopped).stopped,
        after_push(m, item).stopped,
        after_sender_added(m).stopped,
        after_sender_released(m).stopped,
        after_take_front(m).stopped,
{
}

/// A failed start closes the queue with its error, but the retry that the
/// failure permits reopens it and clears the stale error.
pub proof fn lemma_failed_start_then_retry_reopens<B, K, E>(m: SampleQueueModel<B, K, E>, error: E)
    requires
        !m.stopped,
    ensures
        after_close(m, Some(error), false).closed,
        after_close(m, Some(error), false).stop_error == Some(error),
        !after_reopen(after_close(m, Some(error), false)).closed,
        after_reopen(after_close(m, Some(error), false)).stop_error is None,
{
}

/// After a successful stop the queue stays closed, even across a restart
/// attempt.
pub proof fn lemma_stopped_queue_stays_closed<B, K, E>(m: SampleQueueModel<B, K, E>)
    ensures
        after_reopen(after_close(m, None, true)).closed,
        after_reopen(after_close(m, None, true)).stopped,
{
}

/// The queue closes when its last sender goes away, not before, and closing
/// releases every parked consumer.
pub proof fn lemma_last_sender_closes<B, K, E>(m: SampleQueueModel<B, K, E>)
    ensures
        m.senders <= 1 ==> after_sender_released(m).closed && after_sender_released(m).waiters.len()
            == 0,
        m.senders > 1 ==> after_sender_released(m).closed == m.closed && after_sender_released(
            m,
        ).waiters == m.waiters,
{
}

/// A closed queue never leaves a consumer pending: buffered samples still
/// drain, then the end of the stream is reported.
pub proof fn lemma_closed_queue_drains_then_ends<B, K, E>(
    m: SampleQueueModel<B, K, E>,
    error: Option<E>,
    stopped: bool,
)
    ensures
        after_close(m, error, stopped).waiters.len() == 0,
        poll_result(after_close(m, error, stopped)) == if m.buffer.len() > 0 {
            QueuePoll::Ready(Some(m.buffer[0]))
        } else {
            QueuePoll::<(B, K)>::Ready(None)
        },
        after_close(m, error, stopped).buffer == m.buffer,
{
}

} // verus!
