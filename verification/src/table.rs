//! A table with text keys that remembers the order of insertion.

use crate::chain::str_equal;
use vstd::prelude::*;

verus! {

/// Values under distinct text keys, in the order in which the keys came.
#[derive(Debug)]
pub struct Table<T> {
    entries: Vec<(String, T)>,
}

/// No two entries have the same key.
pub open spec fn distinct_keys<T>(entries: Seq<(String, T)>) -> bool {
    forall|i: int, j: int|
        0 <= i < j < entries.len() ==> (#[trigger] entries[i]).0@ != (#[trigger] entries[j]).0@
}

/// Whether `key` is the key of an entry.
pub open spec fn has_key<T>(entries: Seq<(String, T)>, key: Seq<char>) -> bool {
    exists|i: int| 0 <= i < entries.len() && (#[trigger] entries[i]).0@ == key
}

/// The position of the entry under `key`.
pub open spec fn position_of<T>(entries: Seq<(String, T)>, key: Seq<char>) -> int {
    choose|i: int| 0 <= i < entries.len() && (#[trigger] entries[i]).0@ == key
}

/// The values by their keys.
pub open spec fn contents<T>(entries: Seq<(String, T)>) -> Map<Seq<char>, T> {
    Map::new(
        |key: Seq<char>| has_key(entries, key),
        |key: Seq<char>| entries[position_of(entries, key)].1,
    )
}

/// Whether only what stands under `key` differs: it is in the place of what was
/// there, or at the end.
pub open spec fn placed<T>(
    before: Seq<(String, T)>,
    after: Seq<(String, T)>,
    key: Seq<char>,
) -> bool {
    let p = if has_key(before, key) {
        position_of(before, key)
    } else {
        before.len() as int
    };
    &&& 0 <= p < after.len()
    &&& after[p].0@ == key
    &&& after == if has_key(before, key) {
        before.update(p, after[p])
    } else {
        before.push(after[p])
    }
}

/// The entries without the one under `key`.
pub open spec fn without<T>(entries: Seq<(String, T)>, key: Seq<char>) -> Seq<(String, T)> {
    if has_key(entries, key) {
        entries.remove(position_of(entries, key))
    } else {
        entries
    }
}

/// Where keys are distinct, the entry at `i` is what stands under its key.
pub proof fn lemma_entry<T>(entries: Seq<(String, T)>, i: int)
    requires
        distinct_keys(entries),
        0 <= i < entries.len(),
    ensures
        has_key(entries, entries[i].0@),
        position_of(entries, entries[i].0@) == i,
        contents(entries).dom().contains(entries[i].0@),
        contents(entries)[entries[i].0@] == entries[i].1,
{
    let key = entries[i].0@;
    assert(has_key(entries, key));
    let p = position_of(entries, key);
    assert(0 <= p < entries.len() && entries[p].0@ == key);
    if p < i {
        assert(entries[p].0@ != entries[i].0@);
    } else if i < p {
        assert(entries[i].0@ != entries[p].0@);
    }
}

impl<T> Table<T> {
    /// The entries in order.
    pub closed spec fn entries(&self) -> Seq<(String, T)> {
        self.entries@
    }

    /// The keys are distinct.
    pub open spec fn wf(&self) -> bool {
        distinct_keys(self.entries())
    }

    /// The values by their keys.
    pub open spec fn view(&self) -> Map<Seq<char>, T> {
        contents(self.entries())
    }

    /// A table without entries.
    pub fn new() -> (r: Self)
        ensures
            r.wf(),
            r.entries() == Seq::<(String, T)>::empty(),
            r@ == Map::<Seq<char>, T>::empty(),
    {
        let r = Table { entries: Vec::new() };
        assert(r@ =~= Map::<Seq<char>, T>::empty());
        r
    }

    /// The number of entries.
    pub fn len(&self) -> (r: usize)
        ensures
            r == self.entries().len(),
    {
        self.entries.len()
    }

    /// The key at a position.
    pub fn key_at(&self, i: usize) -> (r: &String)
        requires
            i < self.entries().len(),
        ensures
            *r == self.entries()[i as int].0,
    {
        &self.entries[i].0
    }

    /// The value at a position.
    pub fn value_at(&self, i: usize) -> (r: &T)
        requires
            i < self.entries().len(),
        ensures
            *r == self.entries()[i as int].1,
    {
        &self.entries[i].1
    }

    /// The position of a key.
    pub fn find(&self, key: &str) -> (r: Option<usize>)
        requires
            self.wf(),
        ensures
            match r {
                Some(i) => i < self.entries().len() && self.entries()[i as int].0@ == key@
                    && self@.dom().contains(key@) && self@[key@] == self.entries()[i as int].1
                    && position_of(self.entries(), key@) == i,
                None => !self@.dom().contains(key@),
            },
    {
        let mut i: usize = 0;
        while i < self.entries.len()
            invariant
                self.wf(),
                i <= self.entries.len(),
                forall|j: int| 0 <= j < i ==> (#[trigger] self.entries()[j]).0@ != key@,
            decreases self.entries.len() - i,
        {
            if str_equal(self.entries[i].0.as_str(), key) {
                proof {
                    lemma_entry(self.entries(), i as int);
                }
                return Some(i);
            }
            i += 1;
        }
        None
    }

    /// The value under a key.
    pub fn get(&self, key: &str) -> (r: Option<&T>)
        requires
            self.wf(),
        ensures
            match r {
                Some(value) => self@.dom().contains(key@) && *value == self@[key@],
                None => !self@.dom().contains(key@),
            },
    {
        match self.find(key) {
            Some(i) => Some(&self.entries[i].1),
            None => None,
        }
    }

    /// Puts `value` under `key`: in the place of what was there, or at the end.
    pub fn insert(&mut self, key: String, value: T)
        requires
            old(self).wf(),
        ensures
            final(self).wf(),
            final(self)@ == old(self)@.insert(key@, value),
            old(self)@.dom().contains(key@) ==> final(self).entries()
                == old(self).entries().update(
                position_of(old(self).entries(), key@),
                (key, value),
            ),
            !old(self)@.dom().contains(key@) ==> final(self).entries() == old(self).entries().push(
                (key, value),
            ),
    {
        let ghost before = self.entries();
        let ghost text = key@;
        match self.find(key.as_str()) {
            Some(i) => {
                self.entries.set(i, (key, value));
                proof {
                    let after = self.entries();
                    assert(after =~= before.update(i as int, (key, value)));
                    assert(distinct_keys(after));
                    lemma_update(before, i as int, key, value);
                }
            },
            None => {
                self.entries.push((key, value));
                proof {
                    lemma_push(before, key, value);
                    assert(self.entries() =~= before.push((key, value)));
                }
            },
        }
    }

    /// The value under a key, to change in place.
    pub fn get_mut(&mut self, key: &str) -> (r: Option<&mut T>)
        requires
            old(self).wf(),
        ensures
            match r {
                Some(value) => {
                    &&& old(self)@.dom().contains(key@)
                    &&& *value == old(self)@[key@]
                    &&& final(self).wf()
                    &&& final(self)@ == old(self)@.insert(key@, *final(value))
                    &&& final(self).entries() == old(self).entries().update(
                        position_of(old(self).entries(), key@),
                        (
                            old(self).entries()[position_of(old(self).entries(), key@)].0,
                            *final(value),
                        ),
                    )
                },
                None => !old(self)@.dom().contains(key@) && *final(self) == *old(self),
            },
    {
        match self.find(key) {
            Some(i) => {
                let ghost before = self.entries();
                proof {
                    assert forall|value: T|
                        #![trigger before.update(i as int, (before[i as int].0, value))]
                        distinct_keys(before.update(i as int, (before[i as int].0, value)))
                            && contents(before.update(i as int, (before[i as int].0, value)))
                            == contents(before).insert(key@, value) by {
                        lemma_update(before, i as int, before[i as int].0, value);
                    }
                }
                let entry = &mut self.entries[i];
                Some(&mut entry.1)
            },
            None => None,
        }
    }

    /// Removes the entry at a position and returns its value.
    pub fn remove_at(&mut self, i: usize) -> (r: T)
        requires
            old(self).wf(),
            i < old(self).entries().len(),
        ensures
            final(self).wf(),
            final(self).entries() == old(self).entries().remove(i as int),
            final(self)@ == old(self)@.remove(old(self).entries()[i as int].0@),
            r == old(self).entries()[i as int].1,
    {
        proof {
            lemma_remove(self.entries(), i as int);
        }
        let entry = self.entries.remove(i);
        entry.1
    }

    /// Removes what stands under a key.
    pub fn remove(&mut self, key: &str) -> (r: Option<T>)
        requires
            old(self).wf(),
        ensures
            final(self).wf(),
            final(self)@ == old(self)@.remove(key@),
            final(self).entries() == without(old(self).entries(), key@),
            match r {
                Some(value) => old(self)@.dom().contains(key@) && value == old(self)@[key@],
                None => !old(self)@.dom().contains(key@) && *final(self) == *old(self),
            },
    {
        match self.find(key) {
            Some(i) => Some(self.remove_at(i)),
            None => {
                assert(self@.remove(key@) =~= self@);
                None
            },
        }
    }
}

/// Replacing the value of an entry changes the table under its key alone.
pub proof fn lemma_update<T>(entries: Seq<(String, T)>, i: int, key: String, value: T)
    requires
        distinct_keys(entries),
        0 <= i < entries.len(),
        entries[i].0@ == key@,
    ensures
        distinct_keys(entries.update(i, (key, value))),
        contents(entries.update(i, (key, value))) == contents(entries).insert(key@, value),
{
    let after = entries.update(i, (key, value));
    assert(distinct_keys(after)) by {
        assert forall|a: int, b: int| 0 <= a < b < after.len() implies (#[trigger] after[a]).0@ != (
        #[trigger] after[b]).0@ by {
            assert(entries[a].0@ != entries[b].0@);
        }
    }
    let m = contents(entries).insert(key@, value);
    assert forall|k: Seq<char>| #[trigger] contents(after).dom().contains(k) <==> m.dom().contains(
        k,
    ) by {
        if has_key(after, k) {
            let p = position_of(after, k);
            assert(entries[p].0@ == k);
        }
        if has_key(entries, k) {
            let p = position_of(entries, k);
            assert(after[p].0@ == k);
        }
        if k == key@ {
            assert(after[i].0@ == k);
        }
    }
    assert forall|k: Seq<char>| #[trigger] contents(after).dom().contains(k) implies contents(
        after,
    )[k] == m[k] by {
        let p = position_of(after, k);
        assert(has_key(after, k));
        lemma_entry(after, p);
        lemma_entry(entries, p);
        lemma_entry(after, i);
    }
    assert(contents(after) =~= m);
}

/// Adding an entry under a new key adds it to the table.
pub proof fn lemma_push<T>(entries: Seq<(String, T)>, key: String, value: T)
    requires
        distinct_keys(entries),
        !has_key(entries, key@),
    ensures
        distinct_keys(entries.push((key, value))),
        contents(entries.push((key, value))) == contents(entries).insert(key@, value),
{
    let after = entries.push((key, value));
    let n = entries.len() as int;
    assert(distinct_keys(after)) by {
        assert forall|a: int, b: int| 0 <= a < b < after.len() implies (#[trigger] after[a]).0@ != (
        #[trigger] after[b]).0@ by {
            if b == n {
                assert(entries[a].0@ != key@);
            } else {
                assert(entries[a].0@ != entries[b].0@);
            }
        }
    }
    let m = contents(entries).insert(key@, value);
    assert forall|k: Seq<char>| #[trigger] contents(after).dom().contains(k) <==> m.dom().contains(
        k,
    ) by {
        if has_key(after, k) {
            let p = position_of(after, k);
            if p < n {
                assert(entries[p].0@ == k);
            }
        }
        if has_key(entries, k) {
            let p = position_of(entries, k);
            assert(after[p].0@ == k);
        }
        if k == key@ {
            assert(after[n].0@ == k);
        }
    }
    assert forall|k: Seq<char>| #[trigger] contents(after).dom().contains(k) implies contents(
        after,
    )[k] == m[k] by {
        let p = position_of(after, k);
        assert(has_key(after, k));
        lemma_entry(after, p);
        if p < n {
            lemma_entry(entries, p);
            assert(entries[p].0@ != key@);
        }
    }
    assert(contents(after) =~= m);
}

/// Removing an entry removes its key.
pub proof fn lemma_remove<T>(entries: Seq<(String, T)>, i: int)
    requires
        distinct_keys(entries),
        0 <= i < entries.len(),
    ensures
        distinct_keys(entries.remove(i)),
        contents(entries.remove(i)) == contents(entries).remove(entries[i].0@),
{
    let after = entries.remove(i);
    let key = entries[i].0@;
    assert(distinct_keys(after)) by {
        assert forall|a: int, b: int| 0 <= a < b < after.len() implies (#[trigger] after[a]).0@ != (
        #[trigger] after[b]).0@ by {
            let a1 = if a < i { a } else { a + 1 };
            let b1 = if b < i { b } else { b + 1 };
            assert(entries[a1].0@ != entries[b1].0@);
        }
    }
    let m = contents(entries).remove(key);
    assert forall|k: Seq<char>| #[trigger] contents(after).dom().contains(k) <==> m.dom().contains(
        k,
    ) by {
        if has_key(after, k) {
            let p = position_of(after, k);
            let p1 = if p < i { p } else { p + 1 };
            assert(entries[p1] == after[p]);
            assert(entries[p1].0@ == k);
            if p1 < i {
                assert(entries[p1].0@ != entries[i].0@);
            } else {
                assert(entries[i].0@ != entries[p1].0@);
            }
        }
        if has_key(entries, k) && k != key {
            let p = position_of(entries, k);
            let p1 = if p < i { p } else { p - 1 };
            assert(after[p1].0@ == k);
        }
    }
    assert forall|k: Seq<char>| #[trigger] contents(after).dom().contains(k) implies contents(
        after,
    )[k] == m[k] by {
        let p = position_of(after, k);
        assert(has_key(after, k));
        let p1 = if p < i { p } else { p + 1 };
        assert(entries[p1] == after[p]);
        lemma_entry(after, p);
        lemma_entry(entries, p1);
    }
    assert(contents(after) =~= m);
}

/// What a table holds under the key of an entry is the value of that entry,
/// and it holds nothing else.
pub proof fn law_entries_are_found<T>(entries: Seq<(String, T)>, key: Seq<char>, i: int)
    requires
        distinct_keys(entries),
    ensures
        0 <= i < entries.len() ==> contents(entries).dom().contains(entries[i].0@) && contents(
            entries,
        )[entries[i].0@] == entries[i].1,
        contents(entries).dom().contains(key) ==> exists|j: int|
            0 <= j < entries.len() && (#[trigger] entries[j]).0@ == key && entries[j].1
                == contents(entries)[key],
        0 <= i < entries.len() ==> !contents(without(entries, entries[i].0@)).dom().contains(
            entries[i].0@,
        ),
        without(entries, key).len() == entries.len() - if has_key(entries, key) {
            1int
        } else {
            0
        },
{
    if 0 <= i < entries.len() {
        let p = position_of(entries, entries[i].0@);
        assert(has_key(entries, entries[i].0@));
        assert(entries[p].0@ == entries[i].0@);
        if p < i {
            assert(entries[p].0@ != entries[i].0@);
        } else if i < p {
            assert(entries[i].0@ != entries[p].0@);
        }
        let rest = without(entries, entries[i].0@);
        assert(rest == entries.remove(p));
        if has_key(rest, entries[i].0@) {
            let k = choose|k: int| 0 <= k < rest.len() && (#[trigger] rest[k]).0@ == entries[i].0@;
            if k < p {
                assert(rest[k] == entries[k]);
                assert(entries[k].0@ != entries[p].0@);
            } else {
                assert(rest[k] == entries[k + 1]);
                assert(entries[p].0@ != entries[k + 1].0@);
            }
        }
    }
    if has_key(entries, key) {
        let p = position_of(entries, key);
        assert(entries[p].0@ == key);
    }
}

} // verus!
