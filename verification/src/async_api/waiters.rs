//! Registry of the tasks parked on a queue, keyed by a per-consumer token.

use std::task::Waker;
use vstd::prelude::*;

verus! {

/// `std::task::Waker`, carried through the registry as an opaque value.
#[verifier::external_type_specification]
#[verifier::external_body]
pub struct ExWaker(Waker);

/// Calls `Waker::will_wake`: whether waking `candidate` would wake the same
/// task as `current`. The answer rests on the wakers' vtables and data
/// pointers, so nothing is stated of it.
#[verifier::external_body]
fn waker_will_wake(current: &Waker, candidate: &Waker) -> bool {
    current.will_wake(candidate)
}

/// Calls `Waker::wake`, which schedules the parked task; it returns nothing
/// and nothing is stated of it.
#[verifier::external_body]
fn waker_wake(waker: Waker) {
    waker.wake()
}

/// Result of polling a queue.
pub enum QueuePoll<T> {
    /// An item, or `None` once the queue has ended and drained.
    Ready(Option<T>),
    /// Nothing yet; the consumer is parked.
    Pending,
}

/// One parked consumer: its token and the waker to call.
pub struct RegisteredWaker {
    pub token: u64,
    pub waker: Waker,
}

/// Whether some entry carries `token`.
pub open spec fn has_token(waiters: Seq<RegisteredWaker>, token: u64) -> bool {
    exists|i: int| 0 <= i < waiters.len() && (#[trigger] waiters[i]).token == token
}

/// No two entries carry the same token.
pub open spec fn tokens_unique(waiters: Seq<RegisteredWaker>) -> bool {
    forall|i: int, j: int|
        0 <= i < waiters.len() && 0 <= j < waiters.len() && i != j ==> (#[trigger] waiters[i]).token
            != (#[trigger] waiters[j]).token
}

/// Every token is below `bound`.
pub open spec fn tokens_below(waiters: Seq<RegisteredWaker>, bound: nat) -> bool {
    forall|i: int| 0 <= i < waiters.len() ==> (#[trigger] waiters[i]).token < bound
}

/// The entries' tokens in order.
pub open spec fn token_seq(waiters: Seq<RegisteredWaker>) -> Seq<u64> {
    waiters.map_values(|w: RegisteredWaker| w.token)
}

/// Every entry of a token other than `token` is in `b` exactly when it is
/// in `a`: only the entry of `token` may come, go or change.
pub open spec fn entries_kept(a: Seq<RegisteredWaker>, b: Seq<RegisteredWaker>, token: u64) -> bool {
    forall|e: RegisteredWaker| e.token != token ==> (#[trigger] a.contains(e) <==> b.contains(e))
}

/// Find the index of the entry carrying `token`.
fn find_token(waiters: &Vec<RegisteredWaker>, token: u64) -> (index: Option<usize>)
    ensures
        match index {
            Some(i) => i < waiters@.len() && waiters@[i as int].token == token,
            None => !has_token(waiters@, token),
        },
{
    let mut i: usize = 0;
    while i < waiters.len()
        invariant
            i <= waiters@.len(),
            forall|j: int| 0 <= j < i ==> (#[trigger] waiters@[j]).token != token,
        decreases waiters@.len() - i,
    {
        if waiters[i].token == token {
            return Some(i);
        }
        i = i + 1;
    }
    None
}

/// Park `waker` under `token`.
///
/// A consumer that is already parked keeps a single entry: when the stored
/// waker already wakes the same task the new one is handed back, otherwise
/// the new waker replaces the stored one, which is handed back. A consumer
/// not yet parked is appended, and `None` comes back.
pub fn register_waker(waiters: &mut Vec<RegisteredWaker>, token: u64, waker: Waker) -> (displaced:
    Option<Waker>)
    requires
        tokens_unique(old(waiters)@),
    ensures
        tokens_unique(final(waiters)@),
        entries_kept(old(waiters)@, final(waiters)@, token),
        token_seq(final(waiters)@) == if has_token(old(waiters)@, token) {
            token_seq(old(waiters)@)
        } else {
            token_seq(old(waiters)@).push(token)
        },
        !has_token(old(waiters)@, token) ==> displaced is None && final(waiters)@ == old(
            waiters,
        )@.push(RegisteredWaker { token, waker }),
        has_token(old(waiters)@, token) ==> displaced is Some && exists|i: int|
            0 <= i < old(waiters)@.len() && old(waiters)@[i].token == token && ({
                let stored = old(waiters)@[i].waker;
                ||| final(waiters)@ == old(waiters)@ && displaced == Some(waker)
                ||| final(waiters)@ == old(waiters)@.update(i, RegisteredWaker { token, waker })
                    && displaced == Some(stored)
            }),
{
    match find_token(waiters, token) {
        Some(i) => {
            let entry = waiters.remove(i);
            proof {
                assert(old(waiters)@.remove(i as int).insert(i as int, entry) =~= old(waiters)@);
            }
            if waker_will_wake(&entry.waker, &waker) {
                waiters.insert(i, entry);
                proof {
                    assert(waiters@ =~= old(waiters)@);
                    assert(token_seq(waiters@) =~= token_seq(old(waiters)@));
                }
                Some(waker)
            } else {
                let RegisteredWaker { token: _, waker: stored } = entry;
                waiters.insert(i, RegisteredWaker { token, waker });
                proof {
                    assert(waiters@ =~= old(waiters)@.update(
                        i as int,
                        RegisteredWaker { token, waker },
                    ));
                    assert(token_seq(waiters@) =~= token_seq(old(waiters)@));
                    let a = old(waiters)@;
                    let b = waiters@;
                    assert forall|e: RegisteredWaker| e.token != token implies (#[trigger] a.contains(e)
                        <==> b.contains(e)) by {
                        if a.contains(e) {
                            let k = choose|k: int| 0 <= k < a.len() && a[k] == e;
                            assert(k != i);
                            assert(b[k] == e);
                        }
                        if b.contains(e) {
                            let k = choose|k: int| 0 <= k < b.len() && b[k] == e;
                            assert(k != i);
                            assert(a[k] == e);
                        }
                    }
                }
                Some(stored)
            }
        },
        None => {
            waiters.push(RegisteredWaker { token, waker });
            proof {
                assert(token_seq(waiters@) =~= token_seq(old(waiters)@).push(token));
                let a = old(waiters)@;
                let b = waiters@;
                assert forall|e: RegisteredWaker| e.token != token implies (#[trigger] a.contains(e)
                    <==> b.contains(e)) by {
                    if a.contains(e) {
                        let k = choose|k: int| 0 <= k < a.len() && a[k] == e;
                        assert(b[k] == e);
                    }
                    if b.contains(e) {
                        let k = choose|k: int| 0 <= k < b.len() && b[k] == e;
                        assert(k < a.len());
                        assert(a[k] == e);
                    }
                }
            }
            None
        },
    }
}

/// Remove the entry parked under `token`, if any, by moving the last entry
/// into its slot.
pub fn unregister_waker(waiters: &mut Vec<RegisteredWaker>, token: u64) -> (removed: Option<
    RegisteredWaker,
>)
    requires
        tokens_unique(old(waiters)@),
    ensures
        tokens_unique(final(waiters)@),
        entries_kept(old(waiters)@, final(waiters)@, token),
        !has_token(final(waiters)@, token),
        !has_token(old(waiters)@, token) ==> removed is None && final(waiters)@ == old(waiters)@,
        has_token(old(waiters)@, token) ==> exists|i: int|
            0 <= i < old(waiters)@.len() && old(waiters)@[i].token == token && removed == Some(
                old(waiters)@[i],
            ) && final(waiters)@ == old(waiters)@.update(i, old(waiters)@.last()).drop_last(),
        final(waiters)@.len() == if has_token(old(waiters)@, token) {
            old(waiters)@.len() - 1
        } else {
            old(waiters)@.len() as int
        },
        forall|t: u64| t != token ==> (has_token(final(waiters)@, t) <==> has_token(old(waiters)@, t)),
{
    match find_token(waiters, token) {
        Some(i) => {
            let ghost w = waiters@;
            let removed = waiters.swap_remove(i);
            proof {
                let f = w.update(i as int, w.last()).drop_last();
                assert(waiters@ == f);
                assert forall|a: int, b: int|
                    0 <= a < f.len() && 0 <= b < f.len() && a != b implies (#[trigger] f[a]).token
                    != (#[trigger] f[b]).token by {
                    let ia = if a == i { w.len() - 1 } else { a };
                    let ib = if b == i { w.len() - 1 } else { b };
                    assert(f[a] == w[ia]);
                    assert(f[b] == w[ib]);
                }
                assert forall|t: u64| t != token implies (has_token(f, t) <==> has_token(w, t)) by {
                    if has_token(w, t) {
                        let k = choose|k: int| 0 <= k < w.len() && (#[trigger] w[k]).token == t;
                        assert(k != i);
                        if k == w.len() - 1 {
                            assert(f[i as int] == w[k]);
                        } else {
                            assert(f[k] == w[k]);
                        }
                    }
                    if has_token(f, t) {
                        let k = choose|k: int| 0 <= k < f.len() && (#[trigger] f[k]).token == t;
                        if k == i {
                            assert(w[w.len() - 1] == f[k]);
                        } else {
                            assert(w[k] == f[k]);
                        }
                    }
                }
                assert forall|e: RegisteredWaker| e.token != token implies (#[trigger] w.contains(e)
                    <==> f.contains(e)) by {
                    if w.contains(e) {
                        let k = choose|k: int| 0 <= k < w.len() && w[k] == e;
                        assert(k != i);
                        if k == w.len() - 1 {
                            assert(f[i as int] == e);
                        } else {
                            assert(f[k] == e);
                        }
                    }
                    if f.contains(e) {
                        let k = choose|k: int| 0 <= k < f.len() && f[k] == e;
                        if k == i {
                            assert(w[w.len() - 1] == e);
                        } else {
                            assert(w[k] == e);
                        }
                    }
                }
                assert(!has_token(f, token)) by {
                    if has_token(f, token) {
                        let k = choose|k: int| 0 <= k < f.len() && (#[trigger] f[k]).token == token;
                        if k == i {
                            assert(w[w.len() - 1] == f[k]);
                            assert(w.len() - 1 != i);
                        } else {
                            assert(w[k] == f[k]);
                        }
                    }
                }
            }
            Some(removed)
        },
        None => None,
    }
}

/// Wake every parked task, in order.
pub fn wake_all(waiters: Vec<RegisteredWaker>) {
    let mut waiters = waiters;
    let mut pending: Vec<RegisteredWaker> = Vec::new();
    while waiters.len() > 0
        invariant
            true,
        decreases waiters@.len(),
    {
        let w = waiters.pop();
        match w {
            Some(w) => pending.push(w),
            None => {},
        }
    }
    while pending.len() > 0
        invariant
            true,
        decreases pending@.len(),
    {
        match pending.pop() {
            Some(w) => waker_wake(w.waker),
            None => {},
        }
    }
}

pub proof fn lemma_has_token_iff_token_seq(w: Seq<RegisteredWaker>, t: u64)
    ensures
        has_token(w, t) <==> token_seq(w).contains(t),
{
    if has_token(w, t) {
        let k = choose|k: int| 0 <= k < w.len() && (#[trigger] w[k]).token == t;
        assert(token_seq(w)[k] == t);
    }
    if token_seq(w).contains(t) {
        let k = choose|k: int| 0 <= k < token_seq(w).len() && token_seq(w)[k] == t;
        assert(w[k].token == t);
    }
}

pub proof fn lemma_has_token_of_token_seq(w: Seq<RegisteredWaker>, t: u64)
    requires
        token_seq(w).contains(t),
    ensures
        has_token(w, t),
{
    lemma_has_token_iff_token_seq(w, t);
}

pub proof fn lemma_tokens_below_of_token_seq(
    before: Seq<RegisteredWaker>,
    after: Seq<RegisteredWaker>,
    t: u64,
    bound: nat,
)
    requires
        tokens_below(before, bound),
        t < bound,
        token_seq(after) == if has_token(before, t) {
            token_seq(before)
        } else {
            token_seq(before).push(t)
        },
    ensures
        tokens_below(after, bound),
{
    assert(token_seq(after).len() == after.len());
    assert(token_seq(before).len() == before.len());
    assert forall|i: int| 0 <= i < after.len() implies (#[trigger] after[i]).token < bound by {
        assert(token_seq(after)[i] == after[i].token);
        if i < before.len() {
            assert(token_seq(before)[i] == before[i].token);
        }
        if !has_token(before, t) && i == before.len() {
            assert(token_seq(before).push(t)[i] == t);
        }
    }
}

pub proof fn lemma_push_contains(s: Seq<u64>, x: u64, t: u64)
    ensures
        s.push(x).contains(t) <==> (s.contains(t) || t == x),
{
    if s.push(x).contains(t) {
        let k = choose|k: int| 0 <= k < s.push(x).len() && s.push(x)[k] == t;
        if k < s.len() {
            assert(s[k] == t);
        }
    }
    if s.contains(t) {
        let k = choose|k: int| 0 <= k < s.len() && s[k] == t;
        assert(s.push(x)[k] == t);
    }
    if t == x {
        assert(s.push(x)[s.len() as int] == x);
    }
}

/// Removing `waiter` keeps every remaining token below `bound`.
pub proof fn lemma_tokens_below_after_removal(
    before: Seq<RegisteredWaker>,
    after: Seq<RegisteredWaker>,
    waiter: u64,
    bound: nat,
)
    requires
        tokens_below(before, bound),
        forall|t: u64| t != waiter ==> (has_token(after, t) <==> has_token(before, t)),
        !has_token(after, waiter),
    ensures
        tokens_below(after, bound),
{
    assert forall|i: int| 0 <= i < after.len() implies (#[trigger] after[i]).token < bound by {
        let t = after[i].token;
        assert(has_token(after, t));
        assert(t != waiter);
        assert(has_token(before, t));
        let k = choose|k: int| 0 <= k < before.len() && (#[trigger] before[k]).token == t;
    }
}

} // verus!
