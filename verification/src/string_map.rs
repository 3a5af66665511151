//! A map keyed by texts that keeps its entries in the order in which their
//! keys first came, with no key twice. Environments, labels and port
//! bindings are held in it.

use vstd::prelude::*;
use vstd::string::*;

verus! {

/// The entries of a map, in order: key and value.
pub type Pairs<T> = Seq<(Seq<char>, T)>;

/// The entries of a map from texts to texts.
pub type Entries = Pairs<Seq<char>>;

/// Whether no key stands twice in `m`.
pub open spec fn distinct_keys<T>(m: Pairs<T>) -> bool {
    forall|i: int, j: int| 0 <= i < j < m.len() ==> (#[trigger] m[i]).0 != (#[trigger] m[j]).0
}

/// Whether `m` has an entry for `key`.
pub open spec fn has_key<T>(m: Pairs<T>, key: Seq<char>) -> bool {
    exists|i: int| 0 <= i < m.len() && (#[trigger] m[i]).0 == key
}

/// Where the first entry for `key` stands in `m`; the length of `m` where it
/// has none.
pub open spec fn position_of<T>(m: Pairs<T>, key: Seq<char>) -> nat
    decreases m.len(),
{
    if m.len() == 0 || m[0].0 == key {
        0
    } else {
        1 + position_of(m.skip(1), key)
    }
}

/// The value that `m` holds for `key`, if any.
pub open spec fn value_of<T>(m: Pairs<T>, key: Seq<char>) -> Option<T> {
    let at = position_of(m, key);
    if at < m.len() {
        Some(m[at as int].1)
    } else {
        None
    }
}

/// `m` with `value` set for `key`: in the place of the entry for `key` where
/// there is one, else at the end.
pub open spec fn put<T>(m: Pairs<T>, key: Seq<char>, value: T) -> Pairs<T> {
    let at = position_of(m, key);
    if at < m.len() {
        m.update(at as int, (key, value))
    } else {
        m.push((key, value))
    }
}

/// `base` with every entry of `extra` put into it, in the order of `extra`.
pub open spec fn overlay<T>(base: Pairs<T>, extra: Pairs<T>) -> Pairs<T>
    decreases extra.len(),
{
    if extra.len() == 0 {
        base
    } else {
        overlay(put(base, extra[0].0, extra[0].1), extra.skip(1))
    }
}

/// `position_of` stays inside the map, stands on the key unless it is the
/// end, and no earlier entry has the key.
pub proof fn lemma_position_of<T>(m: Pairs<T>, key: Seq<char>)
    ensures
        position_of(m, key) <= m.len(),
        position_of(m, key) < m.len() ==> m[position_of(m, key) as int].0 == key,
        forall|j: int| 0 <= j < position_of(m, key) ==> (#[trigger] m[j]).0 != key,
        position_of(m, key) < m.len() <==> has_key(m, key),
    decreases m.len(),
{
    if m.len() == 0 || m[0].0 == key {
    } else {
        let rest = m.skip(1);
        lemma_position_of(rest, key);
        let at = position_of(m, key);
        assert forall|j: int| 0 <= j < at implies (#[trigger] m[j]).0 != key by {
            if j > 0 {
                assert(rest[j - 1] == m[j]);
            }
        }
        if at < m.len() {
            assert(rest[at - 1] == m[at as int]);
        }
        if has_key(rest, key) {
            let w = choose|w: int| 0 <= w < rest.len() && (#[trigger] rest[w]).0 == key;
            assert(m[w + 1].0 == key);
        }
        if has_key(m, key) {
            let w = choose|w: int| 0 <= w < m.len() && (#[trigger] m[w]).0 == key;
            assert(rest[w - 1].0 == key);
        }
    }
}

/// The position at which the key stands and before which it does not is
/// `position_of`.
pub proof fn lemma_position_is<T>(m: Pairs<T>, key: Seq<char>, at: int)
    requires
        0 <= at <= m.len(),
        forall|j: int| 0 <= j < at ==> (#[trigger] m[j]).0 != key,
        at == m.len() || m[at].0 == key,
    ensures
        position_of(m, key) == at,
    decreases m.len(),
{
    if at > 0 {
        let rest = m.skip(1);
        assert forall|j: int| 0 <= j < at - 1 implies (#[trigger] rest[j]).0 != key by {
            assert(rest[j] == m[j + 1]);
        }
        lemma_position_is(rest, key, at - 1);
    }
}

/// Putting a value keeps the keys distinct, sets the value for the key and
/// leaves every other key as it was.
pub proof fn lemma_put<T>(m: Pairs<T>, key: Seq<char>, value: T)
    requires
        distinct_keys(m),
    ensures
        distinct_keys(put(m, key, value)),
        value_of(put(m, key, value), key) == Some(value),
        forall|other: Seq<char>|
            other != key ==> value_of(put(m, key, value), other) == value_of(m, other),
        has_key(m, key) ==> put(m, key, value).len() == m.len(),
        !has_key(m, key) ==> put(m, key, value).len() == m.len() + 1,
{
    lemma_position_of(m, key);
    let at = position_of(m, key) as int;
    let after = put(m, key, value);
    lemma_position_is(after, key, at);
    assert forall|other: Seq<char>| other != key implies value_of(after, other) == value_of(
        m,
        other,
    ) by {
        lemma_position_of(m, other);
        let o = position_of(m, other) as int;
        if o < m.len() {
            assert(o != at);
            lemma_position_is(after, other, o);
        } else {
            lemma_position_is(after, other, after.len() as int);
        }
    }
}

/// An overlay keeps the keys distinct; it holds for a key the value of
/// `extra` where `extra` has the key, and else the value of `base`.
pub proof fn lemma_overlay<T>(base: Pairs<T>, extra: Pairs<T>)
    requires
        distinct_keys(base),
        distinct_keys(extra),
    ensures
        distinct_keys(overlay(base, extra)),
        forall|key: Seq<char>|
            #![trigger value_of(overlay(base, extra), key)]
            value_of(overlay(base, extra), key) == if has_key(extra, key) {
                value_of(extra, key)
            } else {
                value_of(base, key)
            },
    decreases extra.len(),
{
    if extra.len() > 0 {
        let k = extra[0].0;
        let v = extra[0].1;
        let rest = extra.skip(1);
        lemma_put(base, k, v);
        assert(distinct_keys(rest)) by {
            assert forall|i: int, j: int| 0 <= i < j < rest.len() implies (#[trigger] rest[i]).0 != (
            #[trigger] rest[j]).0 by {
                assert(rest[i] == extra[i + 1]);
                assert(rest[j] == extra[j + 1]);
            }
        }
        lemma_overlay(put(base, k, v), rest);
        assert forall|key: Seq<char>|
            #![trigger value_of(overlay(base, extra), key)]
            value_of(overlay(base, extra), key) == if has_key(extra, key) {
                value_of(extra, key)
            } else {
                value_of(base, key)
            } by {
            lemma_position_of(extra, key);
            lemma_position_of(rest, key);
            if key == k {
                assert(!has_key(rest, key)) by {
                    if has_key(rest, key) {
                        let w = choose|w: int| 0 <= w < rest.len() && (#[trigger] rest[w]).0 == key;
                        assert(rest[w] == extra[w + 1]);
                        assert(extra[0].0 != extra[w + 1].0);
                    }
                }
                assert(has_key(extra, key)) by {
                    assert(extra[0].0 == key);
                }
            } else {
                if has_key(rest, key) {
                    let w = position_of(rest, key) as int;
                    assert(rest[w] == extra[w + 1]);
                    assert(has_key(extra, key));
                }
            }
        }
    }
}

/// An ordered map from texts to values of `T`.
#[derive(Debug)]
pub struct StringMap<T> {
    entries: Vec<(String, T)>,
}

/// A map from texts to texts.
pub type TextMap = StringMap<String>;

impl<T: DeepView> View for StringMap<T> {
    type V = Pairs<T::V>;

    closed spec fn view(&self) -> Pairs<T::V> {
        self.entries.deep_view()
    }
}

impl<T: DeepView> DeepView for StringMap<T> {
    type V = Pairs<T::V>;

    open spec fn deep_view(&self) -> Pairs<T::V> {
        self@
    }
}

impl<T> StringMap<T> {
    #[verifier::type_invariant]
    spec fn well_formed(self) -> bool {
        distinct_texts(self.entries@)
    }
}

/// Whether no key stands twice among `entries`.
spec fn distinct_texts<T>(entries: Seq<(String, T)>) -> bool {
    forall|i: int, j: int|
        0 <= i < j < entries.len() ==> (#[trigger] entries[i]).0@ != (#[trigger] entries[j]).0@
}

proof fn lemma_distinct_texts<T: DeepView>(entries: Vec<(String, T)>)
    ensures
        distinct_texts(entries@) <==> distinct_keys(entries.deep_view()),
{
    let deep = entries.deep_view();
    assert(deep.len() == entries@.len());
    assert forall|i: int| 0 <= i < deep.len() implies (#[trigger] deep[i]).0 == entries@[i].0@ by {}
    if distinct_texts(entries@) {
        assert forall|i: int, j: int| 0 <= i < j < deep.len() implies (#[trigger] deep[i]).0 != (
        #[trigger] deep[j]).0 by {
            assert(entries@[i].0@ != entries@[j].0@);
        }
    }
    if distinct_keys(deep) {
        assert forall|i: int, j: int| 0 <= i < j < entries@.len() implies (
        #[trigger] entries@[i]).0@ != (#[trigger] entries@[j]).0@ by {
            assert(deep[i].0 != deep[j].0);
        }
    }
}

impl<T: DeepView> StringMap<T> {
    /// The map without entries.
    pub fn new() -> (m: StringMap<T>)
        ensures
            m@ == Pairs::<T::V>::empty(),
    {
        let entries: Vec<(String, T)> = Vec::new();
        assert(entries.deep_view() =~= Pairs::<T::V>::empty());
        proof {
            lemma_distinct_texts(entries);
        }
        StringMap { entries }
    }

    /// The number of entries. No key stands twice among them.
    pub fn len(&self) -> (n: usize)
        ensures
            n == self@.len(),
            distinct_keys(self@),
    {
        proof {
            use_type_invariant(self);
            lemma_distinct_texts(self.entries);
        }
        self.entries.len()
    }

    /// Does nothing when run; it tells the verifier that no key stands
    /// twice in the map.
    pub fn distinct(&self)
        ensures
            distinct_keys(self@),
    {
        proof {
            use_type_invariant(self);
            lemma_distinct_texts(self.entries);
        }
    }

    /// The key of the entry at `at`.
    pub fn key_at(&self, at: usize) -> (key: &String)
        requires
            at < self@.len(),
        ensures
            key@ == self@[at as int].0,
    {
        &self.entries[at].0
    }

    /// The value of the entry at `at`.
    pub fn value_at(&self, at: usize) -> (value: &T)
        requires
            at < self@.len(),
        ensures
            value.deep_view() == self@[at as int].1,
    {
        &self.entries[at].1
    }

    fn find(&self, key: &str) -> (at: usize)
        ensures
            at == position_of(self@, key@),
            at <= self@.len(),
    {
        let mut at: usize = 0;
        while at < self.entries.len()
            invariant
                at <= self.entries.len(),
                forall|j: int| 0 <= j < at ==> (#[trigger] self@[j]).0 != key@,
            decreases self.entries.len() - at,
        {
            if crate::text::same_text(self.entries[at].0.as_str(), key) {
                proof {
                    lemma_position_is(self@, key@, at as int);
                }
                return at;
            }
            at = at + 1;
        }
        proof {
            lemma_position_is(self@, key@, at as int);
        }
        at
    }

    /// The value held for `key`, if any.
    pub fn get(&self, key: &str) -> (value: Option<&T>)
        ensures
            value.deep_view() == value_of(self@, key@),
    {
        let at = self.find(key);
        if at < self.entries.len() {
            Some(&self.entries[at].1)
        } else {
            None
        }
    }

    /// Sets `value` for `key`. The entry keeps its place where the key was
    /// there, and goes to the end where it was not.
    pub fn insert(&mut self, key: String, value: T)
        ensures
            final(self)@ == put(old(self)@, key@, value.deep_view()),
            distinct_keys(final(self)@),
    {
        proof {
            use_type_invariant(&*self);
            lemma_distinct_texts(self.entries);
            lemma_put(self@, key@, value.deep_view());
        }
        let at = self.find(key.as_str());
        let ghost before = self@;
        let mut taken = StringMap::new();
        core::mem::swap(self, &mut taken);
        let mut entries = taken.entries;
        if at < entries.len() {
            entries.set(at, (key, value));
        } else {
            entries.push((key, value));
        }
        assert(entries.deep_view() =~= put(before, key@, value.deep_view()));
        proof {
            lemma_distinct_texts(entries);
        }
        *self = StringMap { entries };
    }
}

impl StringMap<String> {
    /// Puts every entry of `extra` into the map, in the order of `extra`.
    pub fn extend(&mut self, extra: &StringMap<String>)
        ensures
            final(self)@ == overlay(old(self)@, extra@),
    {
        let mut i: usize = 0;
        assert(extra@.skip(0) == extra@);
        while i < extra.len()
            invariant
                i <= extra@.len(),
                overlay(old(self)@, extra@) == overlay(self@, extra@.skip(i as int)),
            decreases extra@.len() - i,
        {
            let ghost rest = extra@.skip(i as int);
            assert(rest[0] == extra@[i as int]);
            assert(rest.skip(1) == extra@.skip(i + 1));
            self.insert(extra.key_at(i).clone(), extra.value_at(i).clone());
            i = i + 1;
        }
    }
}

impl Clone for StringMap<String> {
    fn clone(&self) -> (copy: StringMap<String>)
        ensures
            copy@ == self@,
    {
        let mut copy: StringMap<String> = StringMap::new();
        let mut i: usize = 0;
        let n = self.len();
        while i < n
            invariant
                n == self@.len(),
                i <= n,
                distinct_keys(self@),
                copy@ == self@.take(i as int),
            decreases n - i,
        {
            proof {
                let k = self@[i as int].0;
                assert forall|j: int| 0 <= j < copy@.len() implies (#[trigger] copy@[j]).0 != k by {
                    assert(copy@[j] == self@[j]);
                }
                lemma_position_is(copy@, k, i as int);
                assert(self@.take(i + 1) == self@.take(i as int).push(self@[i as int]));
            }
            copy.insert(self.key_at(i).clone(), self.value_at(i).clone());
            i = i + 1;
        }
        assert(self@.take(i as int) == self@);
        copy
    }
}

} // verus!
