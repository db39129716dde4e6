//! A small map from text to text that keeps the order in which keys came.

use vstd::prelude::*;

verus! {

/// The entries of a map: keys and values, in the order in which the keys came.
pub type Pairs = Seq<(Seq<char>, Seq<char>)>;

/// The value under `key`, if there is one.
pub open spec fn lookup(pairs: Pairs, key: Seq<char>) -> Option<Seq<char>>
    decreases pairs.len(),
{
    if pairs.len() == 0 {
        None
    } else if pairs[0].0 == key {
        Some(pairs[0].1)
    } else {
        lookup(pairs.drop_first(), key)
    }
}

/// The entries once `value` stands under `key`: in place of the value that was there,
/// else at the end.
pub open spec fn updated(pairs: Pairs, key: Seq<char>, value: Seq<char>) -> Pairs
    decreases pairs.len(),
{
    if pairs.len() == 0 {
        seq![(key, value)]
    } else if pairs[0].0 == key {
        seq![(key, value)] + pairs.drop_first()
    } else {
        seq![pairs[0]] + updated(pairs.drop_first(), key, value)
    }
}

/// Whether no key occurs twice.
pub open spec fn distinct_keys(pairs: Pairs) -> bool {
    forall|i: int, j: int|
        0 <= i < j < pairs.len() ==> (#[trigger] pairs[i]).0 != (#[trigger] pairs[j]).0
}

/// The entries that a vector of pairs of strings holds.
pub open spec fn pairs_of(v: Seq<(String, String)>) -> Pairs {
    Seq::new(v.len(), |i: int| (v[i].0@, v[i].1@))
}

/// A map from text to text.
#[derive(Debug)]
pub struct Details {
    entries: Vec<(String, String)>,
}

impl View for Details {
    type V = Pairs;

    closed spec fn view(&self) -> Pairs {
        pairs_of(self.entries@)
    }
}

impl Details {
    #[verifier::type_invariant]
    spec fn inv(self) -> bool {
        distinct_keys(pairs_of(self.entries@))
    }

    /// The empty map.
    pub fn new() -> (d: Details)
        ensures
            d@ == Pairs::empty(),
    {
        let d = Details { entries: Vec::new() };
        assert(d@ =~= Pairs::empty());
        d
    }

    /// The place of `key` among the entries, their number when it is not there.
    fn position(&self, key: &str) -> (at: usize)
        ensures
            at <= self@.len(),
            self.entries@.len() == self@.len(),
            forall|i: int| 0 <= i < at ==> (#[trigger] self@[i]).0 != key@,
            at < self@.len() ==> self@[at as int].0 == key@,
    {
        let mut at: usize = 0;
        while at < self.entries.len()
            invariant
                at <= self.entries@.len(),
                self.entries@.len() == self@.len(),
                forall|i: int| 0 <= i < at ==> (#[trigger] self@[i]).0 != key@,
            decreases self.entries@.len() - at,
        {
            assert(self@[at as int].0 == self.entries@[at as int].0@);
            if crate::text::same_text(self.entries[at].0.as_str(), key) {
                return at;
            }
            at = at + 1;
        }
        at
    }

    /// The value under `key`, if there is one.
    pub fn get(&self, key: &str) -> (value: Option<&String>)
        ensures
            match value {
                Some(v) => lookup(self@, key@) == Some(v@),
                None => lookup(self@, key@) is None,
            },
    {
        let at: usize = self.position(key);
        proof {
            lemma_lookup(self@, key@, at as int);
        }
        if at < self.entries.len() {
            Some(&self.entries[at].1)
        } else {
            None
        }
    }

    /// Whether there is a value under `key`.
    pub fn contains_key(&self, key: &str) -> (b: bool)
        ensures
            b == lookup(self@, key@) is Some,
    {
        self.get(key).is_some()
    }

    /// How many keys there are; no key occurs twice.
    pub fn len(&self) -> (n: usize)
        ensures
            n == self@.len(),
            distinct_keys(self@),
    {
        proof {
            use_type_invariant(self);
        }
        self.entries.len()
    }

    /// Puts `value` under `key`, in place of the value that was there.
    pub fn insert(&mut self, key: String, value: String)
        ensures
            final(self)@ == updated(old(self)@, key@, value@),
    {
        proof {
            use_type_invariant(&*self);
        }
        let at: usize = self.position(key.as_str());
        let ghost before = self@;
        let ghost k = key@;
        let ghost v = value@;
        let mut entries: Vec<(String, String)> = Vec::new();
        std::mem::swap(&mut entries, &mut self.entries);
        if at < entries.len() {
            entries.set(at, (key, value));
        } else {
            entries.push((key, value));
        }
        proof {
            lemma_updated(before, k, v, at as int);
            law_updated_keys_stay_distinct(before, k, v);
            assert(pairs_of(entries@) =~= updated(before, k, v));
        }
        self.entries = entries;
    }

    /// The key and the value at place `i`.
    pub fn entry(&self, i: usize) -> (pair: (&String, &String))
        requires
            i < self@.len(),
        ensures
            (pair.0@, pair.1@) == self@[i as int],
    {
        (&self.entries[i].0, &self.entries[i].1)
    }
}

impl Clone for Details {
    fn clone(&self) -> (d: Details)
        ensures
            d@ == self@,
    {
        proof {
            use_type_invariant(self);
        }
        let mut entries: Vec<(String, String)> = Vec::new();
        let mut i: usize = 0;
        while i < self.entries.len()
            invariant
                i <= self.entries@.len(),
                entries@ == self.entries@.take(i as int),
            decreases self.entries@.len() - i,
        {
            entries.push((self.entries[i].0.clone(), self.entries[i].1.clone()));
            i = i + 1;
        }
        assert(entries@ =~= self.entries@);
        Details { entries }
    }
}

proof fn lemma_lookup(pairs: Pairs, key: Seq<char>, at: int)
    requires
        0 <= at <= pairs.len(),
        forall|i: int| 0 <= i < at ==> (#[trigger] pairs[i]).0 != key,
        at < pairs.len() ==> pairs[at].0 == key,
    ensures
        lookup(pairs, key) == (if at < pairs.len() {
            Some(pairs[at].1)
        } else {
            None
        }),
    decreases at,
{
    if at > 0 {
        let rest = pairs.drop_first();
        assert forall|i: int| 0 <= i < at - 1 implies (#[trigger] rest[i]).0 != key by {
            assert(rest[i] == pairs[i + 1]);
        }
        assert(pairs[0].0 != key);
        lemma_lookup(rest, key, at - 1);
    }
}

proof fn lemma_updated(pairs: Pairs, key: Seq<char>, value: Seq<char>, at: int)
    requires
        0 <= at <= pairs.len(),
        forall|i: int| 0 <= i < at ==> (#[trigger] pairs[i]).0 != key,
        at < pairs.len() ==> pairs[at].0 == key,
    ensures
        updated(pairs, key, value) == (if at < pairs.len() {
            pairs.update(at, (key, value))
        } else {
            pairs.push((key, value))
        }),
    decreases at,
{
    if at > 0 {
        let rest = pairs.drop_first();
        assert forall|i: int| 0 <= i < at - 1 implies (#[trigger] rest[i]).0 != key by {
            assert(rest[i] == pairs[i + 1]);
        }
        assert(pairs[0].0 != key);
        lemma_updated(rest, key, value, at - 1);
    }
    let result = if at < pairs.len() {
        pairs.update(at, (key, value))
    } else {
        pairs.push((key, value))
    };
    assert(updated(pairs, key, value) =~= result);
}

/// The first place at which `key` stands, the number of entries when there is none.
proof fn lemma_first(pairs: Pairs, key: Seq<char>) -> (at: int)
    ensures
        0 <= at <= pairs.len(),
        forall|i: int| 0 <= i < at ==> (#[trigger] pairs[i]).0 != key,
        at < pairs.len() ==> pairs[at].0 == key,
    decreases pairs.len(),
{
    if pairs.len() == 0 || pairs[0].0 == key {
        0
    } else {
        let rest = pairs.drop_first();
        let at = lemma_first(rest, key);
        assert forall|i: int| 0 <= i < at + 1 implies (#[trigger] pairs[i]).0 != key by {
            if i > 0 {
                assert(rest[i - 1] == pairs[i]);
            }
        }
        assert(at < rest.len() ==> rest[at] == pairs[at + 1]);
        at + 1
    }
}

// ---------------------------------------------------------------------------
// Laws
// ---------------------------------------------------------------------------

/// Putting a value under a key leaves every key at one place.
pub proof fn law_updated_keys_stay_distinct(pairs: Pairs, key: Seq<char>, value: Seq<char>)
    requires
        distinct_keys(pairs),
    ensures
        distinct_keys(updated(pairs, key, value)),
{
    let at = lemma_first(pairs, key);
    lemma_updated(pairs, key, value, at);
    let after = updated(pairs, key, value);
    assert forall|i: int, j: int| 0 <= i < j < after.len() implies (#[trigger] after[i]).0 != (
    #[trigger] after[j]).0 by {
        if at == pairs.len() {
            assert(after[i] == pairs[i]);
            if j < pairs.len() {
                assert(after[j] == pairs[j]);
            }
        } else {
            assert(after[i].0 == pairs[i].0);
            assert(after[j].0 == pairs[j].0);
        }
    }
}

/// A read gives back what was written under the same key, and what was there before
/// under every other key.
pub proof fn law_lookup_after_update(
    pairs: Pairs,
    key: Seq<char>,
    value: Seq<char>,
    other: Seq<char>,
)
    ensures
        lookup(updated(pairs, key, value), other) == (if other == key {
            Some(value)
        } else {
            lookup(pairs, other)
        }),
    decreases pairs.len(),
{
    reveal_with_fuel(lookup, 2);
    if pairs.len() > 0 && pairs[0].0 != key {
        law_lookup_after_update(pairs.drop_first(), key, value, other);
        assert(updated(pairs, key, value).drop_first() =~= updated(
            pairs.drop_first(),
            key,
            value,
        ));
    } else if pairs.len() > 0 {
        assert(updated(pairs, key, value).drop_first() =~= pairs.drop_first());
    } else {
        assert(updated(pairs, key, value).drop_first() =~= Pairs::empty());
    }
}

/// Nothing is found in an empty map; where no key occurs twice every value is found under its
/// own key, and nothing is found under any other key.
pub proof fn law_lookup_finds_the_entry(pairs: Pairs, key: Seq<char>)
    requires
        distinct_keys(pairs),
    ensures
        lookup(Pairs::empty(), key) is None,
        forall|i: int|
            0 <= i < pairs.len() && (#[trigger] pairs[i]).0 == key ==> lookup(pairs, key) == Some(
                pairs[i].1,
            ),
        (forall|i: int| 0 <= i < pairs.len() ==> (#[trigger] pairs[i]).0 != key) ==> lookup(
            pairs,
            key,
        ) is None,
{
    let at = lemma_first(pairs, key);
    lemma_lookup(pairs, key, at);
    assert forall|i: int| 0 <= i < pairs.len() && (#[trigger] pairs[i]).0 == key implies lookup(
        pairs,
        key,
    ) == Some(pairs[i].1) by {
        if at < i {
            assert(pairs[at].0 != pairs[i].0);
        }
    }
}

/// A new key comes last, and a key that was there keeps its place; the others stay where they
/// are, with their values.
pub proof fn law_update_keeps_the_order(
    pairs: Pairs,
    key: Seq<char>,
    value: Seq<char>,
    i: int,
)
    requires
        0 <= i < pairs.len(),
    ensures
        updated(pairs, key, value)[i].0 == pairs[i].0,
        pairs[i].0 != key ==> updated(pairs, key, value)[i] == pairs[i],
        (forall|k: int| 0 <= k < pairs.len() ==> (#[trigger] pairs[k]).0 != key) ==> updated(
            pairs,
            key,
            value,
        ) == pairs.push((key, value)),
        (exists|k: int| 0 <= k < pairs.len() && (#[trigger] pairs[k]).0 == key) ==> updated(
            pairs,
            key,
            value,
        ).len() == pairs.len(),
{
    let at = lemma_first(pairs, key);
    lemma_updated(pairs, key, value, at);
    if at < pairs.len() {
        assert(pairs[at].0 == key);
    }
}

} // verus!
