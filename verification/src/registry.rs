//! Registry of callback contexts handed to the Swift bridge.
//!
//! Swift is given a non-zero integer id instead of a pointer: it is never
//! dereferenced, and a duplicate or late callback looks the id up, finds
//! nothing, and so cannot reach freed memory. Ids come from a wrapping
//! counter; zero and ids still in use are skipped.

use std::collections::HashMap;
use vstd::prelude::*;

verus! {

broadcast use vstd::std_specs::hash::group_hash_axioms;

/// One more than the largest `usize`.
pub open spec fn id_space() -> int {
    usize::MAX as int + 1
}

/// The `j`-th id the counter offers when it starts at `start`.
pub open spec fn candidate(start: usize, j: int) -> int {
    (start + j) % id_space()
}

/// A registry of values keyed by non-zero ids.
pub struct CallbackRegistry<V> {
    next_id: usize,
    entries: HashMap<usize, V>,
}

impl<V> View for CallbackRegistry<V> {
    type V = Map<usize, V>;

    closed spec fn view(&self) -> Map<usize, V> {
        self.entries@
    }
}

proof fn lemma_candidates_distinct(start: usize, j: int, k: int)
    requires
        0 <= j < k < id_space(),
    ensures
        candidate(start, j) != candidate(start, k),
{
    let m = id_space();
    let a = start + j;
    let b = start + k;
    vstd::arithmetic::div_mod::lemma_fundamental_div_mod(a, m);
    vstd::arithmetic::div_mod::lemma_fundamental_div_mod(b, m);
    let qa = a / m;
    let qb = b / m;
    if a % m == b % m {
        assert(b - a == (qb - qa) * m);
        assert(0 < b - a < m);
        if qb - qa >= 1 {
            assert((qb - qa) * m >= m) by (nonlinear_arith)
                requires
                    qb - qa >= 1,
                    m > 0,
            ;
        } else {
            assert((qb - qa) * m <= 0) by (nonlinear_arith)
                requires
                    qb - qa <= 0,
                    m > 0,
            ;
        }
    }
}

proof fn lemma_candidate_step(start: usize, k: int, current: usize)
    requires
        0 <= k,
        current == candidate(start, k),
    ensures
        (if current == usize::MAX {
            0int
        } else {
            current + 1
        }) == candidate(start, k + 1),
{
    let m = id_space();
    vstd::arithmetic::div_mod::lemma_fundamental_div_mod(start + k, m);
    vstd::arithmetic::div_mod::lemma_fundamental_div_mod(start + k + 1, m);
    let q = (start + k) / m;
    let r = (start + k) % m;
    if r + 1 < m {
        vstd::arithmetic::div_mod::lemma_mod_add_multiples_vanish(r + 1, m);
        assert((start + k + 1) == q * m + (r + 1));
        vstd::arithmetic::div_mod::lemma_fundamental_div_mod_converse(start + k + 1, m, q, r + 1);
    } else {
        assert((start + k + 1) == (q + 1) * m + 0) by (nonlinear_arith)
            requires
                start + k == q * m + r,
                r + 1 == m,
        ;
        vstd::arithmetic::div_mod::lemma_fundamental_div_mod_converse(start + k + 1, m, q + 1, 0);
    }
}

impl<V> CallbackRegistry<V> {
    /// Well-formedness: id zero is never in use.
    pub closed spec fn wf(&self) -> bool {
        !self.entries@.contains_key(0)
    }

    /// An empty registry whose first id is 1.
    pub fn new() -> (r: Self)
        ensures
            r.wf(),
            r@ == Map::<usize, V>::empty(),
    {
        CallbackRegistry { next_id: 1, entries: HashMap::new() }
    }

    /// Store `value` under a fresh non-zero id and return the id.
    pub fn insert(&mut self, value: V) -> (id: usize)
        requires
            old(self).wf(),
            old(self)@.len() < usize::MAX,
        ensures
            final(self).wf(),
            id != 0,
            !old(self)@.contains_key(id),
            final(self)@ == old(self)@.insert(id, value),
    {
        let ghost start = self.next_id;
        let ghost mut k: int = 0;
        let ghost mut taken: Set<usize> = Set::empty();
        let ghost mut zero_seen: bool = false;
        proof {
            vstd::arithmetic::div_mod::lemma_small_mod(start as nat, id_space() as nat);
        }
        loop
            invariant
                self.wf(),
                self.entries@ == old(self)@,
                old(self)@.len() < usize::MAX,
                0 <= k,
                self.next_id == candidate(start, k),
                taken.finite(),
                taken.subset_of(self.entries@.dom()),
                taken.len() + (if zero_seen { 1int } else { 0int }) == k,
                forall|x: usize| #[trigger] taken.contains(x) ==> exists|j: int| 0 <= j < k && candidate(start, j) == x,
                zero_seen ==> exists|j: int| 0 <= j < k && candidate(start, j) == 0,
                k <= old(self)@.len() + 1,
            decreases old(self)@.len() + 1 - k,
        {
            let id = self.next_id;
            self.next_id = if self.next_id == usize::MAX {
                0
            } else {
                self.next_id + 1
            };
            proof {
                lemma_candidate_step(start, k, id);
                vstd::set_lib::lemma_len_subset(taken, self.entries@.dom());
            }
            if id != 0 && !self.entries.contains_key(&id) {
                let prev = self.entries.insert(id, value);
                return id;
            }
            proof {
                assert forall|j: int| 0 <= j < k implies candidate(start, j) != id by {
                    lemma_candidates_distinct(start, j, k);
                }
                if id == 0 {
                    assert(!zero_seen);
                    zero_seen = true;
                } else {
                    assert(!taken.contains(id));
                    taken = taken.insert(id);
                }
                k = k + 1;
                vstd::set_lib::lemma_len_subset(taken, self.entries@.dom());
            }
        }
    }

    /// The value stored under `id`, if any.
    pub fn get(&self, id: usize) -> (value: Option<&V>)
        ensures
            match value {
                Some(v) => self@.contains_key(id) && *v == self@[id],
                None => !self@.contains_key(id),
            },
    {
        self.entries.get(&id)
    }

    /// Remove and return the value stored under `id`, if any.
    pub fn remove(&mut self, id: usize) -> (value: Option<V>)
        requires
            old(self).wf(),
        ensures
            final(self).wf(),
            final(self)@ == old(self)@.remove(id),
            match value {
                Some(v) => old(self)@.contains_key(id) && v == old(self)@[id],
                None => !old(self)@.contains_key(id),
            },
    {
        self.entries.remove(&id)
    }

    /// Whether `id` is in use.
    pub fn contains(&self, id: usize) -> (b: bool)
        ensures
            b == self@.contains_key(id),
    {
        self.entries.contains_key(&id)
    }

    /// Number of stored values.
    pub fn len(&self) -> (n: usize)
        ensures
            n == self@.len(),
    {
        self.entries.len()
    }
}

/// A context is delivered at most once: after it has been taken, a
/// duplicate or late callback carrying the same id finds nothing.
pub proof fn lemma_take_is_once<V>(m: Map<usize, V>, id: usize)
    ensures
        !m.remove(id).contains_key(id),
        m.remove(id).remove(id) == m.remove(id),
{
    assert(m.remove(id).remove(id) =~= m.remove(id));
}

/// Registering a value and looking up its id gives the value back, and
/// leaves every other registration as it was.
pub proof fn lemma_insert_then_get<V>(m: Map<usize, V>, id: usize, value: V, other: usize)
    ensures
        m.insert(id, value).contains_key(id),
        m.insert(id, value)[id] == value,
        other != id ==> (m.insert(id, value).contains_key(other) == m.contains_key(other)),
        other != id && m.contains_key(other) ==> m.insert(id, value)[other] == m[other],
{
}

} // verus!
