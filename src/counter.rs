//! The counter store: one non-negative counter per scope key, handed out by
//! an atomic get-and-increment.

use vstd::prelude::*;
use vstd::string::*;
use crate::error::Error;

verus! {

/// The next value of a counter whose current value is `current`: `1` for a
/// counter that does not exist yet, one more than `current` otherwise, and
/// `None` when `current` is the largest value a counter can hold.
pub fn next_counter_value(current: Option<i64>) -> (r: Option<i64>)
    ensures
        r == match current {
            None => Some(1i64),
            Some(v) => if v < i64::MAX {
                Some((v + 1) as i64)
            } else {
                None
            },
        },
{
    match current {
        None => Some(1),
        Some(v) => if v < i64::MAX {
            Some(v + 1)
        } else {
            None
        },
    }
}

/// What one get-and-increment on `key` does to the counters, and what it
/// returns: the counter is created at 1 or moves up by one, and the new
/// value is returned; a counter at its largest value is refused and
/// nothing changes.
pub open spec fn get_next_step(
    before: Map<Seq<char>, int>,
    key: Seq<char>,
    after: Map<Seq<char>, int>,
    r: Result<i64, Error>,
) -> bool {
    if exhausted(before, key) {
        &&& r is Err
        &&& r->Err_0 is CounterPersistenceFailure
        &&& after == before
    } else {
        &&& next_value(before, key) >= 1
        &&& r == Ok::<i64, Error>(next_value(before, key) as i64)
        &&& after == before.insert(key, next_value(before, key))
    }
}

/// The value the counter under `key` moves to on its next increment.
pub open spec fn next_value(counters: Map<Seq<char>, int>, key: Seq<char>) -> int {
    if counters.contains_key(key) {
        counters[key] + 1
    } else {
        1
    }
}

/// Whether the counter under `key` is at the largest value it can hold.
pub open spec fn exhausted(counters: Map<Seq<char>, int>, key: Seq<char>) -> bool {
    counters.contains_key(key) && counters[key] >= i64::MAX
}

/// How many of the first `n` calls in `keys` were made on `key`.
pub open spec fn calls_on(keys: Seq<Seq<char>>, key: Seq<char>, n: int) -> nat
    decreases n,
{
    if n <= 0 {
        0
    } else {
        calls_on(keys, key, n - 1) + if keys[n - 1] == key {
            1nat
        } else {
            0nat
        }
    }
}

proof fn lemma_counter_tracks_calls(
    states: Seq<Map<Seq<char>, int>>,
    keys: Seq<Seq<char>>,
    results: Seq<Result<i64, Error>>,
    key: Seq<char>,
    n: int,
)
    requires
        states.len() == keys.len() + 1,
        results.len() == keys.len(),
        keys.len() <= i64::MAX,
        !states[0].contains_key(key),
        forall|i: int| 0 <= i < keys.len() ==> get_next_step(#[trigger] states[i], keys[i], states[i + 1], results[i]),
        0 <= n <= keys.len(),
    ensures
        calls_on(keys, key, n) <= n,
        states[n].contains_key(key) <==> calls_on(keys, key, n) > 0,
        states[n].contains_key(key) ==> states[n][key] == calls_on(keys, key, n),
    decreases n,
{
    if n > 0 {
        lemma_counter_tracks_calls(states, keys, results, key, n - 1);
        assert(get_next_step(states[n - 1], keys[n - 1], states[n], results[n - 1]));
    }
}

/// For a scope key that the store does not hold yet, the get-and-increment
/// calls on that key return 1, 2, 3, ... in order, with no gap and no repeat,
/// whatever calls on other keys come between them: the call at position `i`
/// returns one more than the number of earlier calls on the same key.
pub proof fn lemma_sequential_allocation(
    states: Seq<Map<Seq<char>, int>>,
    keys: Seq<Seq<char>>,
    results: Seq<Result<i64, Error>>,
    key: Seq<char>,
)
    requires
        states.len() == keys.len() + 1,
        results.len() == keys.len(),
        keys.len() <= i64::MAX,
        !states[0].contains_key(key),
        forall|i: int| 0 <= i < keys.len() ==> get_next_step(#[trigger] states[i], keys[i], states[i + 1], results[i]),
    ensures
        forall|i: int|
            0 <= i < keys.len() && keys[i] == key ==> #[trigger] results[i] == Ok::<i64, Error>(
                (calls_on(keys, key, i) + 1) as i64,
            ),
{
    assert forall|i: int| 0 <= i < keys.len() && keys[i] == key implies #[trigger] results[i] == Ok::<i64, Error>(
        (calls_on(keys, key, i) + 1) as i64,
    ) by {
        lemma_counter_tracks_calls(states, keys, results, key, i);
        assert(get_next_step(states[i], keys[i], states[i + 1], results[i]));
    }
}

/// A get-and-increment on one scope key leaves the counter of every other
/// key as it was.
pub proof fn lemma_scopes_independent(
    before: Map<Seq<char>, int>,
    key: Seq<char>,
    after: Map<Seq<char>, int>,
    r: Result<i64, Error>,
    other: Seq<char>,
)
    requires
        get_next_step(before, key, after, r),
        other != key,
    ensures
        after.contains_key(other) == before.contains_key(other),
        after.contains_key(other) ==> after[other] == before[other],
{
}

/// The order of scope keys: lexicographic, character by character by code
/// point, a proper prefix first.
pub open spec fn key_less(a: Seq<char>, b: Seq<char>) -> bool
    decreases a.len(),
{
    if b.len() == 0 {
        false
    } else if a.len() == 0 {
        true
    } else if a[0] != b[0] {
        a[0] < b[0]
    } else {
        key_less(a.drop_first(), b.drop_first())
    }
}

/// No key comes before itself.
pub proof fn lemma_key_less_irreflexive(a: Seq<char>)
    ensures
        !key_less(a, a),
    decreases a.len(),
{
    if a.len() > 0 {
        lemma_key_less_irreflexive(a.drop_first());
    }
}

/// The order of keys is transitive.
pub proof fn lemma_key_less_transitive(a: Seq<char>, b: Seq<char>, c: Seq<char>)
    requires
        key_less(a, b),
        key_less(b, c),
    ensures
        key_less(a, c),
    decreases a.len(),
{
    if a.len() > 0 && a[0] == b[0] && b[0] == c[0] {
        lemma_key_less_transitive(a.drop_first(), b.drop_first(), c.drop_first());
    }
}

/// Of two different keys, one comes before the other.
pub proof fn lemma_key_less_total(a: Seq<char>, b: Seq<char>)
    requires
        a != b,
    ensures
        key_less(a, b) || key_less(b, a),
    decreases a.len(),
{
    if a.len() > 0 && b.len() > 0 && a[0] == b[0] {
        if a.drop_first() == b.drop_first() {
            assert(a =~= seq![a[0]] + a.drop_first());
            assert(b =~= seq![b[0]] + b.drop_first());
        }
        lemma_key_less_total(a.drop_first(), b.drop_first());
    } else if a.len() == 0 && b.len() == 0 {
        assert(a =~= b);
    }
}

/// Relies on `<String as PartialOrd>::lt`, which orders strings
/// lexicographically by code point (the documented order of `str`).
#[verifier::external_body]
fn key_precedes(a: &String, b: &String) -> (r: bool)
    ensures
        r == key_less(a@, b@),
{
    a < b
}

/// Counters keyed by scope key.
pub struct CounterStore {
    entries: Vec<(String, i64)>,
    counters: Ghost<Map<Seq<char>, int>>,
}

impl View for CounterStore {
    type V = Map<Seq<char>, int>;

    closed spec fn view(&self) -> Map<Seq<char>, int> {
        self.counters@
    }
}

impl CounterStore {
    /// The entries are in ascending key order, each key is held once, the
    /// entries are exactly the counters, and no counter is negative.
    pub closed spec fn wf(&self) -> bool {
        &&& forall|i: int, j: int|
            0 <= i < j < self.entries@.len() ==> key_less(
                #[trigger] self.entries@[i].0@,
                #[trigger] self.entries@[j].0@,
            )
        &&& forall|i: int, j: int|
            0 <= i < j < self.entries@.len() ==> #[trigger] self.entries@[i].0@ != #[trigger] self.entries@[j].0@
        &&& forall|i: int|
            0 <= i < self.entries@.len() ==> {
                &&& self.counters@.contains_key(#[trigger] self.entries@[i].0@)
                &&& self.counters@[self.entries@[i].0@] == self.entries@[i].1
                &&& self.entries@[i].1 >= 0
            }
        &&& forall|k: Seq<char>|
            #[trigger] self.counters@.contains_key(k) ==> exists|i: int|
                0 <= i < self.entries@.len() && #[trigger] self.entries@[i].0@ == k
    }

    /// An empty store.
    pub fn new() -> (r: Self)
        ensures
            r.wf(),
            r@ == Map::<Seq<char>, int>::empty(),
    {
        CounterStore { entries: Vec::new(), counters: Ghost(Map::empty()) }
    }

    /// The position of `key` among the entries.
    fn find(&self, key: &String) -> (r: Option<usize>)
        requires
            self.wf(),
        ensures
            r matches Some(i) ==> i < self.entries@.len() && self.entries@[i as int].0@ == key@,
            r is None ==> !self@.contains_key(key@),
    {
        let mut i: usize = 0;
        while i < self.entries.len()
            invariant
                self.wf(),
                0 <= i <= self.entries@.len(),
                forall|j: int| 0 <= j < i ==> #[trigger] self.entries@[j].0@ != key@,
            decreases self.entries@.len() - i,
        {
            if self.entries[i].0 == *key {
                return Some(i);
            }
            i = i + 1;
        }
        proof {
            if self@.contains_key(key@) {
                let j = choose|j: int| 0 <= j < self.entries@.len() && #[trigger] self.entries@[j].0@ == key@;
                assert(self.entries@[j].0@ != key@);
            }
        }
        None
    }

    /// The value of the counter under `scope_key`, if there is one; nothing
    /// changes.
    pub fn peek(&self, scope_key: &str) -> (r: Option<i64>)
        requires
            self.wf(),
        ensures
            r is Some <==> self@.contains_key(scope_key@),
            r matches Some(v) ==> v == self@[scope_key@],
    {
        let key = String::from_str(scope_key);
        match self.find(&key) {
            Some(i) => Some(self.entries[i].1),
            None => None,
        }
    }

    /// Atomically moves the counter under `scope_key` to its next value and
    /// returns that value: 1 for a new counter, one more than before
    /// otherwise. A counter at the largest value is refused and left as it is.
    pub fn get_next(&mut self, scope_key: &str) -> (r: Result<i64, Error>)
        requires
            old(self).wf(),
        ensures
            final(self).wf(),
            get_next_step(old(self)@, scope_key@, final(self)@, r),
    {
        let key = String::from_str(scope_key);
        let found = self.find(&key);
        let current = match found {
            Some(i) => Some(self.entries[i].1),
            None => None,
        };
        let next = match next_counter_value(current) {
            Some(v) => v,
            None => {
                return Err(
                    Error::CounterPersistenceFailure(String::from_str("the counter has reached its largest value")),
                );
            },
        };
        self.store(key, next, found);
        Ok(next)
    }

    /// Overwrites the counter under `scope_key` with `value`, creating it if
    /// needed.
    pub fn reset(&mut self, scope_key: &str, value: i64)
        requires
            old(self).wf(),
            value >= 0,
        ensures
            final(self).wf(),
            final(self)@ == old(self)@.insert(scope_key@, value as int),
    {
        let key = String::from_str(scope_key);
        let found = self.find(&key);
        self.store(key, value, found);
    }

    /// Sets `key` to `value`, where `found` is the result of `find(key)`.
    fn store(&mut self, key: String, value: i64, found: Option<usize>)
        requires
            old(self).wf(),
            value >= 0,
            found matches Some(i) ==> i < old(self).entries@.len() && old(self).entries@[i as int].0@ == key@,
            found is None ==> !old(self)@.contains_key(key@),
        ensures
            final(self).wf(),
            final(self)@ == old(self)@.insert(key@, value as int),
    {
        let ghost k = key@;
        let ghost before = self.entries@;
        self.counters = Ghost(self.counters@.insert(k, value as int));
        match found {
            Some(i) => {
                self.entries.set(i, (key, value));
                assert forall|j: int| 0 <= j < self.entries@.len() implies #[trigger] self.entries@[j].0@
                    == before[j].0@ by {}
                assert forall|a: int, b: int| 0 <= a < b < self.entries@.len() implies #[trigger] self.entries@[a].0@
                    != #[trigger] self.entries@[b].0@ by {
                    assert(before[a].0@ != before[b].0@);
                }
                assert forall|a: int, b: int| 0 <= a < b < self.entries@.len() implies key_less(
                    #[trigger] self.entries@[a].0@,
                    #[trigger] self.entries@[b].0@,
                ) by {
                    assert(key_less(before[a].0@, before[b].0@));
                }
                assert forall|j: int| 0 <= j < self.entries@.len() implies {
                    &&& self.counters@.contains_key(#[trigger] self.entries@[j].0@)
                    &&& self.counters@[self.entries@[j].0@] == self.entries@[j].1
                    &&& self.entries@[j].1 >= 0
                } by {
                    if j != i {
                        assert(before[j].0@ != before[i as int].0@);
                    }
                }
                assert forall|q: Seq<char>| #[trigger] self.counters@.contains_key(q) implies exists|j: int|
                    0 <= j < self.entries@.len() && #[trigger] self.entries@[j].0@ == q by {
                    if q != k {
                        let j = choose|j: int| 0 <= j < before.len() && #[trigger] before[j].0@ == q;
                        assert(self.entries@[j].0@ == q);
                    } else {
                        assert(self.entries@[i as int].0@ == q);
                    }
                }
            },
            None => {
                let ghost n = before.len();
                assert forall|j: int| 0 <= j < n implies #[trigger] before[j].0@ != k by {
                    assert(old(self).counters@.contains_key(before[j].0@));
                }
                let mut p: usize = 0;
                let mut found_place = false;
                while p < self.entries.len() && !found_place
                    invariant
                        self.entries@ == before,
                        k == key@,
                        n == before.len(),
                        0 <= p <= n,
                        forall|j: int| 0 <= j < p ==> key_less(#[trigger] before[j].0@, k),
                        found_place ==> p < n && !key_less(before[p as int].0@, k),
                    decreases n - p + if found_place { 0int } else { 1int },
                {
                    if key_precedes(&self.entries[p].0, &key) {
                        p = p + 1;
                    } else {
                        found_place = true;
                    }
                }
                assert forall|j: int| p <= j < n implies key_less(k, #[trigger] before[j].0@) by {
                    lemma_key_less_total(before[p as int].0@, k);
                    if j > p {
                        lemma_key_less_transitive(k, before[p as int].0@, before[j].0@);
                    }
                }
                self.entries.insert(p, (key, value));
                assert(self.entries@ == before.insert(p as int, (key, value)));
                assert forall|j: int| 0 <= j < self.entries@.len() implies #[trigger] self.entries@[j] == if j < p {
                    before[j]
                } else if j == p {
                    (key, value)
                } else {
                    before[j - 1]
                } by {}
                assert forall|q: Seq<char>| #[trigger] self.counters@.contains_key(q) implies exists|j: int|
                    0 <= j < self.entries@.len() && #[trigger] self.entries@[j].0@ == q by {
                    if q != k {
                        let j = choose|j: int| 0 <= j < before.len() && #[trigger] before[j].0@ == q;
                        if j < p {
                            assert(self.entries@[j].0@ == q);
                        } else {
                            assert(self.entries@[j + 1].0@ == q);
                        }
                    } else {
                        assert(self.entries@[p as int].0@ == q);
                    }
                }
                assert forall|a: int, b: int| 0 <= a < b < self.entries@.len() implies key_less(
                    #[trigger] self.entries@[a].0@,
                    #[trigger] self.entries@[b].0@,
                ) by {
                    if b < p {
                        assert(key_less(before[a].0@, before[b].0@));
                    } else if b == p {
                        assert(key_less(before[a].0@, k));
                    } else if a < p {
                        lemma_key_less_transitive(before[a].0@, k, before[b - 1].0@);
                    } else if a == p {
                        assert(key_less(k, before[b - 1].0@));
                    } else {
                        assert(key_less(before[a - 1].0@, before[b - 1].0@));
                    }
                }
                assert forall|a: int, b: int| 0 <= a < b < self.entries@.len() implies #[trigger] self.entries@[a].0@
                    != #[trigger] self.entries@[b].0@ by {
                    assert(key_less(self.entries@[a].0@, self.entries@[b].0@));
                    lemma_key_less_irreflexive(self.entries@[a].0@);
                }
                assert forall|j: int| 0 <= j < self.entries@.len() implies {
                    &&& self.counters@.contains_key(#[trigger] self.entries@[j].0@)
                    &&& self.counters@[self.entries@[j].0@] == self.entries@[j].1
                    &&& self.entries@[j].1 >= 0
                } by {
                    if j < p {
                        assert(before[j].0@ != k);
                    } else if j > p {
                        assert(before[j - 1].0@ != k);
                    }
                }
            },
        }
    }

    /// Removes the counter under `scope_key`, if there is one.
    pub fn delete(&mut self, scope_key: &str)
        requires
            old(self).wf(),
        ensures
            final(self).wf(),
            final(self)@ == old(self)@.remove(scope_key@),
    {
        let key = String::from_str(scope_key);
        match self.find(&key) {
            Some(i) => {
                let ghost before = self.entries@;
                let ghost k = key@;
                self.counters = Ghost(self.counters@.remove(k));
                self.entries.remove(i);
                assert(self.entries@ == before.remove(i as int));
                assert forall|q: Seq<char>| #[trigger] self.counters@.contains_key(q) implies exists|j: int|
                    0 <= j < self.entries@.len() && #[trigger] self.entries@[j].0@ == q by {
                    let j = choose|j: int| 0 <= j < before.len() && #[trigger] before[j].0@ == q;
                    assert(j != i);
                    if j < i {
                        assert(self.entries@[j].0@ == q);
                    } else {
                        assert(self.entries@[j - 1].0@ == q);
                    }
                }
                assert forall|a: int, b: int| 0 <= a < b < self.entries@.len() implies #[trigger] self.entries@[a].0@
                    != #[trigger] self.entries@[b].0@ by {
                    let a0 = if a < i { a } else { a + 1 };
                    let b0 = if b < i { b } else { b + 1 };
                    assert(before[a0].0@ != before[b0].0@);
                    assert(key_less(before[a0].0@, before[b0].0@));
                }
                assert forall|a: int, b: int| 0 <= a < b < self.entries@.len() implies key_less(
                    #[trigger] self.entries@[a].0@,
                    #[trigger] self.entries@[b].0@,
                ) by {
                    let a0 = if a < i { a } else { a + 1 };
                    let b0 = if b < i { b } else { b + 1 };
                    assert(key_less(before[a0].0@, before[b0].0@));
                }
                assert forall|j: int| 0 <= j < self.entries@.len() implies {
                    &&& self.counters@.contains_key(#[trigger] self.entries@[j].0@)
                    &&& self.counters@[self.entries@[j].0@] == self.entries@[j].1
                    &&& self.entries@[j].1 >= 0
                } by {
                    let j0 = if j < i { j } else { j + 1 };
                    assert(self.entries@[j] == before[j0]);
                    assert(before[j0].0@ != before[i as int].0@);
                }
            },
            None => {
                assert(self.counters@.remove(key@) =~= self.counters@);
            },
        }
    }

    /// Every counter as a (scope key, value) pair, each key once, in
    /// ascending key order.
    pub fn list_all(&self) -> (r: Vec<(String, i64)>)
        requires
            self.wf(),
        ensures
            forall|i: int| 0 <= i < r@.len() ==> {
                &&& self@.contains_key(#[trigger] r@[i].0@)
                &&& self@[r@[i].0@] == r@[i].1
            },
            forall|i: int, j: int| 0 <= i < j < r@.len() ==> #[trigger] r@[i].0@ != #[trigger] r@[j].0@,
            forall|i: int, j: int| 0 <= i < j < r@.len() ==> key_less(#[trigger] r@[i].0@, #[trigger] r@[j].0@),
            forall|k: Seq<char>| #[trigger] self@.contains_key(k) ==> exists|i: int|
                0 <= i < r@.len() && #[trigger] r@[i].0@ == k,
    {
        let mut out: Vec<(String, i64)> = Vec::new();
        let mut i: usize = 0;
        while i < self.entries.len()
            invariant
                self.wf(),
                0 <= i <= self.entries@.len(),
                out@.len() == i,
                forall|j: int| 0 <= j < i ==> #[trigger] out@[j].0@ == self.entries@[j].0@ && out@[j].1
                    == self.entries@[j].1,
            decreases self.entries@.len() - i,
        {
            let key = self.entries[i].0.clone();
            let ghost before = out@;
            out.push((key, self.entries[i].1));
            assert(out@ == before.push((key, self.entries@[i as int].1)));
            assert(out@[i as int].0@ == self.entries@[i as int].0@);
            assert forall|j: int| 0 <= j < i + 1 implies #[trigger] out@[j].0@ == self.entries@[j].0@ && out@[j].1
                == self.entries@[j].1 by {
                if j < i {
                    assert(out@[j] == before[j]);
                }
            }
            i = i + 1;
        }
        assert forall|k: Seq<char>| #[trigger] self@.contains_key(k) implies exists|i: int|
            0 <= i < out@.len() && #[trigger] out@[i].0@ == k by {
            let j = choose|j: int| 0 <= j < self.entries@.len() && #[trigger] self.entries@[j].0@ == k;
            assert(out@[j].0@ == k);
        }
        assert forall|a: int, b: int| 0 <= a < b < out@.len() implies #[trigger] out@[a].0@ != #[trigger] out@[b].0@ by {
            assert(self.entries@[a].0@ != self.entries@[b].0@);
        }
        assert forall|a: int, b: int| 0 <= a < b < out@.len() implies key_less(
            #[trigger] out@[a].0@,
            #[trigger] out@[b].0@,
        ) by {
            assert(key_less(self.entries@[a].0@, self.entries@[b].0@));
        }
        out
    }
}

} // verus!
