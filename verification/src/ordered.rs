//! A map from text keys to values, kept in key order.

use vstd::prelude::*;

use crate::text;

verus! {

/// Key-value pairs with distinct keys, in ascending key order.
#[derive(Debug)]
pub struct StringMap<V> {
    pub keys: Vec<String>,
    pub values: Vec<V>,
}

/// `k` is the least key of `m` whose entry satisfies `p`.
pub open spec fn is_least<W>(m: Map<Seq<char>, W>, p: spec_fn(Seq<char>, W) -> bool, k: Seq<char>) -> bool {
    &&& m.contains_key(k)
    &&& p(k, m[k])
    &&& forall|j: Seq<char>|
        #[trigger] m.contains_key(j) && p(j, m[j]) ==> j == k || text::str_lt(k, j)
}

/// The least key of `m` whose entry satisfies `p`, if any entry does.
pub open spec fn least<W>(m: Map<Seq<char>, W>, p: spec_fn(Seq<char>, W) -> bool) -> Option<Seq<char>> {
    if exists|k: Seq<char>| is_least(m, p, k) {
        Some(choose|k: Seq<char>| is_least(m, p, k))
    } else {
        None
    }
}

/// There is only one least key.
pub proof fn lemma_least<W>(m: Map<Seq<char>, W>, p: spec_fn(Seq<char>, W) -> bool, k: Seq<char>)
    requires
        is_least(m, p, k),
    ensures
        least(m, p) == Some(k),
{
    let c = choose|c: Seq<char>| is_least(m, p, c);
    if c != k {
        assert(m.contains_key(c) && m.contains_key(k));
        text::lemma_str_lt_total(c, k);
    }
}

/// No entry satisfies `p`: there is no least one.
pub proof fn lemma_least_none<W>(m: Map<Seq<char>, W>, p: spec_fn(Seq<char>, W) -> bool)
    requires
        forall|k: Seq<char>| #[trigger] m.contains_key(k) ==> !p(k, m[k]),
    ensures
        least(m, p) is None,
{
}

impl<V: View> StringMap<V> {
    /// Keys are in strictly ascending order.
    pub open spec fn wf(&self) -> bool {
        &&& self.keys.len() == self.values.len()
        &&& forall|i: int, j: int|
            0 <= i < j < self.keys.len() ==> text::str_lt(
                #[trigger] self.keys@[i]@,
                #[trigger] self.keys@[j]@,
            )
    }

    /// `k` is the key at position `i`.
    pub open spec fn at(&self, i: int, k: Seq<char>) -> bool {
        0 <= i < self.keys.len() && self.keys@[i]@ == k
    }

    pub proof fn lemma_at(&self, i: int)
        requires
            self.wf(),
            0 <= i < self.keys.len(),
        ensures
            self@.contains_key(self.keys@[i]@),
            self@[self.keys@[i]@] == self.values@[i]@,
    {
        let k = self.keys@[i]@;
        assert(self.at(i, k));
        let c = choose|c: int| self.at(c, k);
        if c != i {
            text::lemma_str_lt_total(self.keys@[c]@, self.keys@[i]@);
        }
    }

    /// Every key of the map stands at some position.
    pub proof fn lemma_position(&self, k: Seq<char>) -> (i: int)
        requires
            self@.contains_key(k),
        ensures
            self.at(i, k),
    {
        choose|i: int| self.at(i, k)
    }

    /// The first position whose entry satisfies `p` holds the least such key.
    pub proof fn lemma_first(&self, i: int, p: spec_fn(Seq<char>, V::V) -> bool)
        requires
            self.wf(),
            0 <= i < self.keys.len(),
            p(self.keys@[i]@, self.values@[i]@),
            forall|j: int| 0 <= j < i ==> !p(#[trigger] self.keys@[j]@, self.values@[j]@),
        ensures
            least(self@, p) == Some(self.keys@[i]@),
    {
        let k = self.keys@[i]@;
        self.lemma_at(i);
        assert forall|j: Seq<char>| #[trigger] self@.contains_key(j) && p(j, self@[j]) implies j == k
            || text::str_lt(k, j) by {
            let c = self.lemma_position(j);
            self.lemma_at(c);
            assert(self.keys@[c]@ == j);
        }
        lemma_least(self@, p, k);
    }

    /// No position satisfies `p`: there is no least key that does.
    pub proof fn lemma_no_first(&self, p: spec_fn(Seq<char>, V::V) -> bool)
        requires
            self.wf(),
            forall|j: int| 0 <= j < self.keys.len() ==> !p(#[trigger] self.keys@[j]@, self.values@[j]@),
        ensures
            least(self@, p) is None,
            forall|k: Seq<char>| #[trigger] self@.contains_key(k) ==> !p(k, self@[k]),
    {
        assert forall|k: Seq<char>| #[trigger] self@.contains_key(k) implies !p(k, self@[k]) by {
            let c = self.lemma_position(k);
            self.lemma_at(c);
            assert(self.keys@[c]@ == k);
        }
        lemma_least_none(self@, p);
    }

    /// The empty map.
    pub fn new() -> (r: Self)
        ensures
            r.wf(),
            r.keys.len() == 0,
            r@ == Map::<Seq<char>, V::V>::empty(),
    {
        let r = StringMap { keys: Vec::new(), values: Vec::new() };
        proof {
            assert(r@ =~= Map::<Seq<char>, V::V>::empty());
        }
        r
    }

    /// Number of entries.
    pub fn len(&self) -> (n: usize)
        ensures
            n == self.keys.len(),
    {
        self.keys.len()
    }

    /// Position of `key`.
    pub fn position(&self, key: &str) -> (r: Option<usize>)
        requires
            self.wf(),
        ensures
            match r {
                Some(i) => self.at(i as int, key@) && self@.contains_key(key@) && self@[key@]
                    == self.values@[i as int]@,
                None => !self@.contains_key(key@),
            },
    {
        let mut i: usize = 0;
        while i < self.keys.len()
            invariant
                self.wf(),
                i <= self.keys.len(),
                forall|j: int| 0 <= j < i ==> !self.at(j, key@),
            decreases self.keys.len() - i,
        {
            if text::same(self.keys[i].as_str(), key) {
                proof {
                    self.lemma_at(i as int);
                }
                return Some(i);
            }
            i += 1;
        }
        proof {
            if self@.contains_key(key@) {
                let c = self.lemma_position(key@);
                assert(!self.at(c, key@));
            }
        }
        None
    }

    /// The value under `key`.
    pub fn get(&self, key: &str) -> (r: Option<&V>)
        requires
            self.wf(),
        ensures
            match r {
                Some(v) => self@.contains_key(key@) && v@ == self@[key@],
                None => !self@.contains_key(key@),
            },
    {
        match self.position(key) {
            Some(i) => Some(&self.values[i]),
            None => None,
        }
    }

    /// Replace the value at position `i`.
    pub fn set_value(&mut self, i: usize, value: V)
        requires
            old(self).wf(),
            i < old(self).keys.len(),
        ensures
            final(self).wf(),
            final(self).keys == old(self).keys,
            final(self).values@ == old(self).values@.update(i as int, value),
            final(self)@ == old(self)@.insert(old(self).keys@[i as int]@, value@),
    {
        let ghost before = *self;
        self.values.set(i, value);
        proof {
            assert forall|k: Seq<char>| self@.contains_key(k) == before@.contains_key(k) by {
                if self@.contains_key(k) {
                    let c = self.lemma_position(k);
                    assert(before.at(c, k));
                }
                if before@.contains_key(k) {
                    let c = before.lemma_position(k);
                    assert(self.at(c, k));
                }
            }
            let key = before.keys@[i as int]@;
            before.lemma_at(i as int);
            self.lemma_at(i as int);
            let expected = before@.insert(key, value@);
            assert forall|k: Seq<char>| #[trigger] self@.contains_key(k) implies self@[k] == expected[k] by {
                let c = self.lemma_position(k);
                self.lemma_at(c);
                before.lemma_at(c);
                if c != i {
                    text::lemma_str_lt_total(self.keys@[c]@, self.keys@[i as int]@);
                }
            }
            assert(self@ =~= expected);
        }
    }

    /// Put `value` under `key`, replacing what was there.
    pub fn insert(&mut self, key: String, value: V)
        requires
            old(self).wf(),
            old(self).keys.len() < usize::MAX,
        ensures
            final(self).wf(),
            final(self)@ == old(self)@.insert(key@, value@),
            final(self).keys.len() == old(self).keys.len() + if old(self)@.contains_key(key@) {
                0int
            } else {
                1
            },
    {
        let ghost before = *self;
        let mut i: usize = 0;
        while i < self.keys.len() && text::sorts_before(self.keys[i].as_str(), key.as_str())
            invariant
                self.wf(),
                *self == before,
                i <= self.keys.len(),
                forall|j: int| 0 <= j < i ==> text::str_lt(#[trigger] self.keys@[j]@, key@),
            decreases self.keys.len() - i,
        {
            i += 1;
        }
        if i < self.keys.len() && text::same(self.keys[i].as_str(), key.as_str()) {
            proof {
                self.lemma_at(i as int);
            }
            self.set_value(i, value);
            return;
        }
        proof {
            if self@.contains_key(key@) {
                let c = self.lemma_position(key@);
                text::lemma_str_lt_total(key@, key@);
                if i < c {
                    text::lemma_str_lt_total(self.keys@[i as int]@, key@);
                }
            }
        }
        let ghost k0 = key@;
        self.keys.insert(i, key);
        self.values.insert(i, value);
        proof {
            assert forall|a: int, b: int| 0 <= a < b < self.keys.len() implies text::str_lt(
                #[trigger] self.keys@[a]@,
                #[trigger] self.keys@[b]@,
            ) by {
                if i < before.keys.len() {
                    text::lemma_str_lt_total(before.keys@[i as int]@, k0);
                }
                if a == i {
                    assert(self.keys@[b]@ == before.keys@[b - 1]@);
                    if b - 1 > i {
                        text::lemma_str_lt_transitive(
                            k0,
                            before.keys@[i as int]@,
                            before.keys@[b - 1]@,
                        );
                    }
                } else if b == i {
                    assert(self.keys@[a]@ == before.keys@[a]@);
                } else {
                    let a0 = if a < i { a } else { a - 1 };
                    let b0 = if b < i { b } else { b - 1 };
                    assert(self.keys@[a]@ == before.keys@[a0]@);
                    assert(self.keys@[b]@ == before.keys@[b0]@);
                }
            }
            let expected = before@.insert(k0, value@);
            self.lemma_at(i as int);
            assert forall|k: Seq<char>| self@.contains_key(k) == expected.contains_key(k) by {
                if self@.contains_key(k) && k != k0 {
                    let c = self.lemma_position(k);
                    let c0 = if c < i { c } else { c - 1 };
                    assert(before.at(c0, k));
                }
                if before@.contains_key(k) {
                    let c = before.lemma_position(k);
                    let c1 = if c < i { c } else { c + 1 };
                    assert(self.at(c1, k));
                }
            }
            assert forall|k: Seq<char>| #[trigger] self@.contains_key(k) implies self@[k] == expected[k] by {
                if k != k0 {
                    let c = self.lemma_position(k);
                    let c0 = if c < i { c } else { c - 1 };
                    self.lemma_at(c);
                    before.lemma_at(c0);
                    assert(before.keys@[c0]@ == k);
                    assert(self.values@[c] == before.values@[c0]);
                }
            }
            assert(self@ =~= expected);
        }
    }
}

impl<V: View> View for StringMap<V> {
    type V = Map<Seq<char>, V::V>;

    open spec fn view(&self) -> Map<Seq<char>, V::V> {
        Map::new(
            |k: Seq<char>| exists|i: int| self.at(i, k),
            |k: Seq<char>| self.values@[choose|i: int| self.at(i, k)]@,
        )
    }
}

/// The least key is the first, in the order of texts, of those that pass; it is
/// there exactly when such a first one is.
pub proof fn law_the_least_key_comes_first<W>(
    m: Map<Seq<char>, W>,
    p: spec_fn(Seq<char>, W) -> bool,
    k: Seq<char>,
)
    ensures
        least(m, p) matches Some(f) ==> m.contains_key(f) && p(f, m[f]) && (m.contains_key(k) && p(
            k,
            m[k],
        ) ==> k == f || text::str_lt(f, k)),
        m.contains_key(k) && p(k, m[k]) && (forall|j: Seq<char>| #[trigger]
            m.contains_key(j) && p(j, m[j]) ==> j == k || text::str_lt(k, j)) ==> least(m, p)
            == Some(k),
{
    if m.contains_key(k) && p(k, m[k]) && (forall|j: Seq<char>| #[trigger]
        m.contains_key(j) && p(j, m[j]) ==> j == k || text::str_lt(k, j)) {
        assert(is_least(m, p, k));
        let f = choose|f: Seq<char>| is_least(m, p, f);
        assert(is_least(m, p, f));
        text::lemma_str_lt_total(f, k);
    }
}

} // verus!
