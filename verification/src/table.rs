//! Sorted count tables keyed by text, and sets of held keys.
//!
//! A `CountTable` keeps its entries in strictly increasing key order, so it
//! behaves as an ordered map from key to count: iterating it visits the keys
//! in the order `text_lt`.
use crate::text::{lemma_text_lt_irreflexive, lemma_text_lt_total, lemma_text_lt_transitive};
use crate::text::{text_eq, text_less, text_lt};
use vstd::prelude::*;

verus! {

/// Entries whose keys strictly increase.
pub open spec fn keys_sorted(s: Seq<(Seq<char>, u64)>) -> bool {
    forall|i: int, j: int| 0 <= i < j < s.len() ==> text_lt(#[trigger] s[i].0, #[trigger] s[j].0)
}

/// Whether some entry has key `k`.
pub open spec fn has_key(s: Seq<(Seq<char>, u64)>, k: Seq<char>) -> bool {
    exists|i: int| 0 <= i < s.len() && #[trigger] s[i].0 == k
}

/// The map from key to count that a sequence of entries describes.
pub open spec fn table_map(s: Seq<(Seq<char>, u64)>) -> Map<Seq<char>, u64> {
    Map::new(
        |k: Seq<char>| has_key(s, k),
        |k: Seq<char>| s[choose|i: int| 0 <= i < s.len() && #[trigger] s[i].0 == k].1,
    )
}

/// The character view of an owned entry.
pub open spec fn entry_view(e: (String, u64)) -> (Seq<char>, u64) {
    (e.0@, e.1)
}

/// Sum of the counts of a sequence of entries.
pub open spec fn sum_counts(s: Seq<(Seq<char>, u64)>) -> int
    decreases s.len(),
{
    if s.len() == 0 {
        0
    } else {
        sum_counts(s.drop_last()) + s.last().1
    }
}

/// The sum over a concatenation is the sum of the sums.
pub proof fn lemma_sum_append(a: Seq<(Seq<char>, u64)>, b: Seq<(Seq<char>, u64)>)
    ensures
        sum_counts(a + b) == sum_counts(a) + sum_counts(b),
    decreases b.len(),
{
    if b.len() == 0 {
        assert(a + b =~= a);
    } else {
        lemma_sum_append(a, b.drop_last());
        assert((a + b).drop_last() =~= a + b.drop_last());
    }
}

/// The sum of one entry is its count.
proof fn lemma_sum_single(e: (Seq<char>, u64))
    ensures
        sum_counts(seq![e]) == e.1,
        sum_counts(Seq::<(Seq<char>, u64)>::empty()) == 0,
{
    let one = seq![e];
    let none = Seq::<(Seq<char>, u64)>::empty();
    assert(sum_counts(none) == 0);
    assert(one.drop_last() =~= none);
    assert(one.last() == e);
    assert(sum_counts(one) == sum_counts(one.drop_last()) + one.last().1);
}

/// The sum changes by the difference at the one place that changes.
proof fn lemma_sum_splice(s: Seq<(Seq<char>, u64)>, p: int, q: int, e: (Seq<char>, u64))
    requires
        0 <= p <= q <= s.len(),
        q <= p + 1,
    ensures
        sum_counts(s.take(p) + seq![e] + s.skip(q)) == sum_counts(s) - sum_counts(s.subrange(p, q)) + e.1,
{
    let one = seq![e];
    lemma_sum_single(e);
    lemma_sum_append(s.take(p) + one, s.skip(q));
    lemma_sum_append(s.take(p), one);
    lemma_sum_append(s.take(p), s.subrange(p, q));
    lemma_sum_append(s.take(p) + s.subrange(p, q), s.skip(q));
    assert(s.take(p) + s.subrange(p, q) + s.skip(q) =~= s);
}

/// In sorted entries, the entry at `i` is the one the map holds for its key.
pub proof fn lemma_table_map_at(s: Seq<(Seq<char>, u64)>, i: int)
    requires
        keys_sorted(s),
        0 <= i < s.len(),
    ensures
        table_map(s).dom().contains(s[i].0),
        table_map(s)[s[i].0] == s[i].1,
{
    assert(has_key(s, s[i].0));
    let j = choose|j: int| 0 <= j < s.len() && #[trigger] s[j].0 == s[i].0;
    if j < i {
        assert(text_lt(s[j].0, s[i].0));
        lemma_text_lt_irreflexive(s[i].0);
    } else if i < j {
        assert(text_lt(s[i].0, s[j].0));
        lemma_text_lt_irreflexive(s[i].0);
    }
}

/// In sorted entries, two entries with one key are one entry.
pub proof fn lemma_sorted_unique(s: Seq<(Seq<char>, u64)>, i: int, j: int)
    requires
        keys_sorted(s),
        0 <= i < s.len(),
        0 <= j < s.len(),
        s[i].0 == s[j].0,
    ensures
        i == j,
{
    if i < j {
        assert(text_lt(s[i].0, s[j].0));
        lemma_text_lt_irreflexive(s[i].0);
    } else if j < i {
        assert(text_lt(s[j].0, s[i].0));
        lemma_text_lt_irreflexive(s[i].0);
    }
}

/// Replacing the count of an existing entry updates the map at that key.
proof fn lemma_table_map_update(s: Seq<(Seq<char>, u64)>, i: int, v: u64)
    requires
        keys_sorted(s),
        0 <= i < s.len(),
    ensures
        keys_sorted(s.update(i, (s[i].0, v))),
        table_map(s.update(i, (s[i].0, v))) == table_map(s).insert(s[i].0, v),
{
    let t = s.update(i, (s[i].0, v));
    assert forall|a: int, b: int| 0 <= a < b < t.len() implies text_lt(#[trigger] t[a].0, #[trigger] t[b].0) by {
        assert(text_lt(s[a].0, s[b].0));
    }
    assert forall|k: Seq<char>| #[trigger] table_map(t).dom().contains(k) <==> table_map(s).insert(s[i].0, v).dom().contains(k) by {
        if has_key(t, k) {
            let j = choose|j: int| 0 <= j < t.len() && #[trigger] t[j].0 == k;
            assert(s[j].0 == k);
        }
        if has_key(s, k) {
            let j = choose|j: int| 0 <= j < s.len() && #[trigger] s[j].0 == k;
            assert(t[j].0 == k);
        }
    }
    assert forall|k: Seq<char>| #[trigger] table_map(t).dom().contains(k) implies table_map(t)[k] == table_map(s).insert(s[i].0, v)[k] by {
        let j = choose|j: int| 0 <= j < t.len() && #[trigger] t[j].0 == k;
        lemma_table_map_at(t, j);
        lemma_table_map_at(s, j);
        if j != i && s[j].0 == s[i].0 {
            lemma_sorted_unique(s, i, j);
        }
    }
    assert(table_map(t) =~= table_map(s).insert(s[i].0, v));
}

/// Inserting a new key at its sorted position adds it to the map.
proof fn lemma_table_map_insert(s: Seq<(Seq<char>, u64)>, p: int, k: Seq<char>, v: u64)
    requires
        keys_sorted(s),
        0 <= p <= s.len(),
        forall|j: int| 0 <= j < p ==> text_lt(#[trigger] s[j].0, k),
        forall|j: int| p <= j < s.len() ==> text_lt(k, #[trigger] s[j].0),
    ensures
        keys_sorted(s.insert(p, (k, v))),
        !table_map(s).dom().contains(k),
        table_map(s.insert(p, (k, v))) == table_map(s).insert(k, v),
{
    let t = s.insert(p, (k, v));
    assert forall|a: int, b: int| 0 <= a < b < t.len() implies text_lt(#[trigger] t[a].0, #[trigger] t[b].0) by {
        if b < p {
            assert(text_lt(s[a].0, s[b].0));
        } else if b == p {
        } else if a < p {
            assert(text_lt(s[a].0, k));
            assert(text_lt(k, s[b - 1].0));
            lemma_text_lt_transitive(s[a].0, k, s[b - 1].0);
        } else if a == p {
        } else {
            assert(text_lt(s[a - 1].0, s[b - 1].0));
        }
    }
    if has_key(s, k) {
        let j = choose|j: int| 0 <= j < s.len() && #[trigger] s[j].0 == k;
        lemma_text_lt_irreflexive(k);
        assert(false);
    }
    assert forall|x: Seq<char>| #[trigger] table_map(t).dom().contains(x) <==> table_map(s).insert(k, v).dom().contains(x) by {
        if has_key(t, x) {
            let j = choose|j: int| 0 <= j < t.len() && #[trigger] t[j].0 == x;
            if j < p {
                assert(s[j].0 == x);
            } else if j > p {
                assert(s[j - 1].0 == x);
            }
        }
        if has_key(s, x) {
            let j = choose|j: int| 0 <= j < s.len() && #[trigger] s[j].0 == x;
            if j < p {
                assert(t[j].0 == x);
            } else {
                assert(t[j + 1].0 == x);
            }
        }
        if x == k {
            assert(t[p].0 == k);
        }
    }
    assert forall|x: Seq<char>| #[trigger] table_map(t).dom().contains(x) implies table_map(t)[x] == table_map(s).insert(k, v)[x] by {
        let j = choose|j: int| 0 <= j < t.len() && #[trigger] t[j].0 == x;
        lemma_table_map_at(t, j);
        if j < p {
            lemma_table_map_at(s, j);
        } else if j > p {
            lemma_table_map_at(s, j - 1);
        }
    }
    assert(table_map(t) =~= table_map(s).insert(k, v));
}

/// An ordered map from text keys to counts, kept as entries sorted by key.
#[derive(Clone, Debug)]
pub struct CountTable {
    entries: Vec<(String, u64)>,
}

impl CountTable {
    /// The entries in increasing key order.
    pub closed spec fn entries(&self) -> Seq<(Seq<char>, u64)> {
        self.entries@.map_values(|e: (String, u64)| entry_view(e))
    }

    /// Well-formedness: keys strictly increase.
    pub open spec fn wf(&self) -> bool {
        keys_sorted(self.entries())
    }

    /// The counts as a map.
    pub open spec fn view(&self) -> Map<Seq<char>, u64> {
        table_map(self.entries())
    }

    /// The count the table holds for `k`, zero when absent.
    pub open spec fn count_of(&self, k: Seq<char>) -> u64 {
        if self.view().dom().contains(k) {
            self.view()[k]
        } else {
            0
        }
    }

    /// An empty table.
    pub fn new() -> (r: Self)
        ensures
            r.wf(),
            r.entries() == Seq::<(Seq<char>, u64)>::empty(),
    {
        let r = CountTable { entries: Vec::new() };
        assert(r.entries() =~= Seq::<(Seq<char>, u64)>::empty());
        r
    }

    /// Whether the keys strictly increase.
    pub fn check_wf(&self) -> (r: bool)
        ensures
            r == self.wf(),
    {
        let n = self.entries.len();
        let mut i: usize = 1;
        if n == 0 {
            return true;
        }
        while i < n
            invariant
                n == self.entries().len(),
                1 <= i <= n,
                forall|a: int, b: int| 0 <= a < b < i ==> text_lt(#[trigger] self.entries()[a].0, #[trigger] self.entries()[b].0),
            decreases n - i,
        {
            if !text_less(self.entries[i - 1].0.as_str(), self.entries[i].0.as_str()) {
                assert(!text_lt(self.entries()[i - 1].0, self.entries()[i as int].0));
                return false;
            }
            proof {
                assert forall|a: int, b: int| 0 <= a < b < i + 1 implies text_lt(#[trigger] self.entries()[a].0, #[trigger] self.entries()[b].0) by {
                    if b == i && a < i - 1 {
                        lemma_text_lt_transitive(self.entries()[a].0, self.entries()[i - 1].0, self.entries()[b].0);
                    }
                }
            }
            i = i + 1;
        }
        true
    }

    /// Number of keys.
    pub fn len(&self) -> (r: usize)
        ensures
            r == self.entries().len(),
    {
        self.entries.len()
    }

    /// The key of the `i`-th entry.
    pub fn key_at(&self, i: usize) -> (r: &String)
        requires
            i < self.entries().len(),
        ensures
            r@ == self.entries()[i as int].0,
    {
        &self.entries[i].0
    }

    /// The count of the `i`-th entry.
    pub fn count_at(&self, i: usize) -> (r: u64)
        requires
            i < self.entries().len(),
        ensures
            r == self.entries()[i as int].1,
    {
        self.entries[i].1
    }

    /// The position at which `key` is or would be, and whether it is there.
    fn locate(&self, key: &str) -> (r: (usize, bool))
        requires
            self.wf(),
        ensures
            r.0 <= self.entries().len(),
            forall|j: int| 0 <= j < r.0 ==> text_lt(#[trigger] self.entries()[j].0, key@),
            r.1 ==> r.0 < self.entries().len() && self.entries()[r.0 as int].0 == key@,
            !r.1 ==> forall|j: int|
                r.0 <= j < self.entries().len() ==> text_lt(key@, #[trigger] self.entries()[j].0),
    {
        let n = self.entries.len();
        let mut i: usize = 0;
        while i < n
            invariant
                n == self.entries().len(),
                i <= n,
                forall|j: int| 0 <= j < i ==> text_lt(#[trigger] self.entries()[j].0, key@),
            ensures
                i <= n,
                forall|j: int| 0 <= j < i ==> text_lt(#[trigger] self.entries()[j].0, key@),
                i < n ==> !text_lt(self.entries()[i as int].0, key@),
            decreases n - i,
        {
            if !text_less(self.entries[i].0.as_str(), key) {
                break;
            }
            i = i + 1;
        }
        if i < n && text_eq(self.entries[i].0.as_str(), key) {
            (i, true)
        } else {
            proof {
                if i < n {
                    let e = self.entries()[i as int].0;
                    assert(!text_lt(e, key@));
                    lemma_text_lt_total(e, key@);
                    assert forall|j: int| i <= j < n implies text_lt(key@, #[trigger] self.entries()[j].0) by {
                        if j > i {
                            assert(text_lt(e, self.entries()[j].0));
                            lemma_text_lt_transitive(key@, e, self.entries()[j].0);
                        }
                    }
                }
            }
            (i, false)
        }
    }

    /// The count held for `key`, if any.
    pub fn get(&self, key: &str) -> (r: Option<u64>)
        requires
            self.wf(),
        ensures
            r is Some <==> self@.dom().contains(key@),
            r matches Some(v) ==> self@[key@] == v,
    {
        let (i, found) = self.locate(key);
        proof {
            if found {
                lemma_table_map_at(self.entries(), i as int);
            } else if self@.dom().contains(key@) {
                let j = choose|j: int| 0 <= j < self.entries().len() && #[trigger] self.entries()[j].0 == key@;
                if j < i {
                    assert(text_lt(self.entries()[j].0, key@));
                } else {
                    assert(text_lt(key@, self.entries()[j].0));
                }
                lemma_text_lt_irreflexive(key@);
            }
        }
        if found {
            Some(self.entries[i].1)
        } else {
            None
        }
    }

    /// Sets the count of `key`, adding the key when absent.
    pub fn set(&mut self, key: &str, value: u64)
        requires
            old(self).wf(),
        ensures
            final(self).wf(),
            final(self)@ == old(self)@.insert(key@, value),
            sum_counts(final(self).entries()) == sum_counts(old(self).entries()) - old(self).count_of(key@) + value,
    {
        let (i, found) = self.locate(key);
        let ghost s = self.entries();
        if found {
            proof {
                lemma_table_map_update(s, i as int, value);
                lemma_table_map_at(s, i as int);
                lemma_sum_splice(s, i as int, i + 1, (key@, value));
                assert(s.subrange(i as int, i + 1) =~= seq![s[i as int]]);
                lemma_sum_single(s[i as int]);
                assert(s.update(i as int, (s[i as int].0, value)) =~= s.take(i as int) + seq![(key@, value)] + s.skip(i + 1));
            }
            let k = self.entries[i].0.clone();
            self.entries.set(i, (k, value));
            assert(self.entries() =~= s.update(i as int, (s[i as int].0, value)));
        } else {
            proof {
                lemma_table_map_insert(s, i as int, key@, value);
                lemma_sum_splice(s, i as int, i as int, (key@, value));
                assert(s.subrange(i as int, i as int) =~= Seq::<(Seq<char>, u64)>::empty());
                lemma_sum_single((key@, value));
                assert(s.insert(i as int, (key@, value)) =~= s.take(i as int) + seq![(key@, value)] + s.skip(i as int));
            }
            self.entries.insert(i, (key.to_owned(), value));
            assert(self.entries() =~= s.insert(i as int, (key@, value)));
        }
    }

    /// Adds one to the count of `key`, starting from zero when absent.
    pub fn increment(&mut self, key: &str)
        requires
            old(self).wf(),
            old(self).count_of(key@) < u64::MAX,
        ensures
            final(self).wf(),
            final(self)@ == old(self)@.insert(key@, (old(self).count_of(key@) + 1) as u64),
            sum_counts(final(self).entries()) == sum_counts(old(self).entries()) + 1,
    {
        let current = match self.get(key) {
            Some(v) => v,
            None => 0,
        };
        self.set(key, current + 1);
    }

    /// A copy with the same entries.
    pub fn duplicate(&self) -> (r: Self)
        ensures
            r.entries() == self.entries(),
    {
        let n = self.entries.len();
        let mut out: Vec<(String, u64)> = Vec::new();
        let mut i: usize = 0;
        while i < n
            invariant
                n == self.entries@.len(),
                i <= n,
                out@.len() == i,
                forall|j: int| 0 <= j < i ==> entry_view(#[trigger] out@[j]) == entry_view(self.entries@[j]),
            decreases n - i,
        {
            out.push((self.entries[i].0.clone(), self.entries[i].1));
            i = i + 1;
        }
        let r = CountTable { entries: out };
        assert(r.entries() =~= self.entries());
        r
    }
}

/// A set of held keys, kept as a list without repeats.
#[derive(Clone, Debug)]
pub struct KeySet {
    items: Vec<String>,
}

impl KeySet {
    /// The keys, in the order they were added.
    pub closed spec fn items(&self) -> Seq<Seq<char>> {
        self.items@.map_values(|s: String| s@)
    }

    /// Well-formedness: no key occurs twice.
    pub open spec fn wf(&self) -> bool {
        self.items().no_duplicates()
    }

    /// The keys as a set.
    pub open spec fn view(&self) -> Set<Seq<char>> {
        self.items().to_set()
    }

    /// An empty set.
    pub fn new() -> (r: Self)
        ensures
            r.wf(),
            r@ == Set::<Seq<char>>::empty(),
    {
        let r = KeySet { items: Vec::new() };
        assert(r.items() =~= Seq::<Seq<char>>::empty());
        assert(r@ =~= Set::<Seq<char>>::empty());
        r
    }

    fn find(&self, key: &str) -> (r: Option<usize>)
        ensures
            r matches Some(i) ==> i < self.items().len() && self.items()[i as int] == key@,
            r is None ==> !self.items().contains(key@),
    {
        let n = self.items.len();
        let mut i: usize = 0;
        while i < n
            invariant
                n == self.items().len(),
                i <= n,
                forall|j: int| 0 <= j < i ==> self.items()[j] != key@,
            decreases n - i,
        {
            if text_eq(self.items[i].as_str(), key) {
                return Some(i);
            }
            i = i + 1;
        }
        None
    }

    /// Whether `key` is in the set.
    pub fn contains(&self, key: &str) -> (r: bool)
        ensures
            r == self@.contains(key@),
    {
        match self.find(key) {
            Some(i) => {
                assert(self.items()[i as int] == key@);
                true
            },
            None => false,
        }
    }

    /// Adds `key`; true when it was not held before.
    pub fn insert(&mut self, key: &str) -> (r: bool)
        requires
            old(self).wf(),
        ensures
            final(self).wf(),
            r == !old(self)@.contains(key@),
            final(self)@ == old(self)@.insert(key@),
    {
        let ghost s = self.items();
        match self.find(key) {
            Some(_) => {
                assert(s.to_set().insert(key@) =~= s.to_set());
                false
            },
            None => {
                self.items.push(key.to_owned());
                assert(self.items() =~= s.push(key@));
                assert(self.items().to_set() =~= s.to_set().insert(key@)) by {
                    assert forall|x: Seq<char>| #[trigger] s.push(key@).contains(x) <==> s.to_set().insert(key@).contains(x) by {
                        if s.push(key@).contains(x) && x != key@ {
                            let j = choose|j: int| 0 <= j < s.push(key@).len() && s.push(key@)[j] == x;
                            assert(s[j] == x);
                        }
                        if s.contains(x) {
                            let j = choose|j: int| 0 <= j < s.len() && s[j] == x;
                            assert(s.push(key@)[j] == x);
                        }
                        if x == key@ {
                            assert(s.push(key@)[s.len() as int] == x);
                        }
                    }
                }
                true
            },
        }
    }

    /// Removes `key` if held.
    pub fn remove(&mut self, key: &str)
        requires
            old(self).wf(),
        ensures
            final(self).wf(),
            final(self)@ == old(self)@.remove(key@),
    {
        let ghost s = self.items();
        match self.find(key) {
            Some(i) => {
                self.items.remove(i);
                assert(self.items() =~= s.remove(i as int));
                assert(self.items().to_set() =~= s.to_set().remove(key@)) by {
                    assert forall|x: Seq<char>| #[trigger] self.items().contains(x) <==> s.to_set().remove(key@).contains(x) by {
                        if self.items().contains(x) {
                            let j = choose|j: int| 0 <= j < self.items().len() && self.items()[j] == x;
                            if j < i {
                                assert(s[j] == x);
                            } else {
                                assert(s[j + 1] == x);
                            }
                        }
                        if s.contains(x) && x != key@ {
                            let j = choose|j: int| 0 <= j < s.len() && s[j] == x;
                            if j < i {
                                assert(self.items()[j] == x);
                            } else {
                                assert(self.items()[j - 1] == x);
                            }
                        }
                    }
                }
            },
            None => {
                assert(s.to_set().remove(key@) =~= s.to_set());
            },
        }
    }
}

} // verus!
