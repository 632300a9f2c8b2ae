//! A small map whose keys are compared for equality only.
use vstd::prelude::*;

verus! {

/// A key of a [`Table`]: a plain value that can be compared for equality.
pub trait TableKey: Copy {
    fn same(&self, other: &Self) -> (r: bool)
        ensures
            r == (*self == *other),
    ;
}

/// The map that a sequence of entries stands for; of two entries under one key
/// the later one counts.
pub open spec fn entries_map<K, V>(entries: Seq<(K, V)>) -> Map<K, V>
    decreases entries.len(),
{
    if entries.len() == 0 {
        Map::empty()
    } else {
        entries_map(entries.drop_last()).insert(entries.last().0, entries.last().1)
    }
}

/// Where no entry from `from` on has the key, only the entries before it
/// decide what is under the key.
proof fn lemma_absent_after<K, V>(entries: Seq<(K, V)>, from: int, key: K)
    requires
        0 <= from <= entries.len(),
        forall|j: int| from <= j < entries.len() ==> entries[j].0 != key,
    ensures
        entries_map(entries).contains_key(key) == entries_map(entries.take(from)).contains_key(key),
        entries_map(entries).contains_key(key) ==> entries_map(entries)[key] == entries_map(
            entries.take(from),
        )[key],
    decreases entries.len(),
{
    if from == entries.len() {
        assert(entries.take(from) =~= entries);
    } else {
        let front = entries.drop_last();
        assert forall|j: int| from <= j < front.len() implies front[j].0 != key by {
            assert(front[j] == entries[j]);
        }
        lemma_absent_after(front, from, key);
        assert(front.take(from) =~= entries.take(from));
    }
}

/// Overwriting the last entry that a key has replaces what is under the key.
proof fn lemma_overwrite<K, V>(entries: Seq<(K, V)>, at: int, key: K, value: V)
    requires
        0 <= at < entries.len(),
        entries[at].0 == key,
        forall|j: int| at < j < entries.len() ==> entries[j].0 != key,
    ensures
        entries_map(entries.update(at, (key, value))) == entries_map(entries).insert(key, value),
    decreases entries.len(),
{
    let updated = entries.update(at, (key, value));
    let front = entries.drop_last();
    if at == entries.len() - 1 {
        assert(updated.drop_last() =~= front);
        assert(entries_map(updated) =~= entries_map(entries).insert(key, value));
    } else {
        assert forall|j: int| at < j < front.len() implies front[j].0 != key by {
            assert(front[j] == entries[j]);
        }
        assert(front[at] == entries[at]);
        lemma_overwrite(front, at, key, value);
        assert(updated.drop_last() =~= front.update(at, (key, value)));
        assert(updated.last() == entries.last());
        assert(entries.last().0 != key);
        assert(entries_map(updated) =~= entries_map(entries).insert(key, value));
    }
}

/// A map from `K` to `V`, kept as a list of entries.
#[derive(Clone, Debug)]
pub struct Table<K, V> {
    entries: Vec<(K, V)>,
}

impl<K, V> View for Table<K, V> {
    type V = Map<K, V>;

    closed spec fn view(&self) -> Map<K, V> {
        entries_map(self.entries@)
    }
}

impl<K: TableKey, V: Copy> Table<K, V> {
    /// The table without any entry.
    pub fn new() -> (r: Self)
        ensures
            r@ == Map::<K, V>::empty(),
    {
        Table { entries: Vec::new() }
    }

    /// The position behind the last entry under `key`, or 0 where there is none.
    fn behind(&self, key: K) -> (r: usize)
        ensures
            r <= self.entries@.len(),
            r > 0 ==> self.entries@[r - 1].0 == key,
            forall|j: int| r <= j < self.entries@.len() ==> self.entries@[j].0 != key,
    {
        let mut i: usize = self.entries.len();
        while i > 0
            invariant
                i <= self.entries@.len(),
                forall|j: int| i <= j < self.entries@.len() ==> self.entries@[j].0 != key,
            decreases i,
        {
            if self.entries[i - 1].0.same(&key) {
                return i;
            }
            i -= 1;
        }
        0
    }

    /// What is under `key`.
    pub fn get(&self, key: K) -> (r: Option<V>)
        ensures
            r == (if self@.contains_key(key) {
                Some(self@[key])
            } else {
                None
            }),
    {
        let at = self.behind(key);
        proof {
            lemma_absent_after(self.entries@, at as int, key);
        }
        if at == 0 {
            assert(self.entries@.take(0) =~= Seq::<(K, V)>::empty());
            None
        } else {
            proof {
                let front = self.entries@.take(at as int);
                assert(front.last() == self.entries@[at - 1]);
            }
            Some(self.entries[at - 1].1)
        }
    }

    /// Puts `value` under `key`, in place of what was there.
    pub fn set(&mut self, key: K, value: V)
        ensures
            final(self)@ == old(self)@.insert(key, value),
    {
        let at = self.behind(key);
        let ghost before = self.entries@;
        if at == 0 {
            self.entries.push((key, value));
            assert(self.entries@.drop_last() =~= before);
        } else {
            self.entries[at - 1] = (key, value);
            proof {
                lemma_overwrite(before, at - 1, key, value);
            }
            assert(self.entries@ =~= before.update(at - 1, (key, value)));
        }
    }
}

} // verus!
