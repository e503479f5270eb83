//! A small keyed store with a mathematical map view: the backing for the
//! texture store and for the embedded-render resource registry. Keys are
//! plain integers; entries are kept unique by key.

use vstd::prelude::*;

verus! {

/// The map an entry list denotes: later entries win, though well-formed
/// tables never hold a key twice.
pub open spec fn entries_map<V>(es: Seq<(u64, V)>) -> Map<u64, V>
    decreases es.len(),
{
    if es.len() == 0 {
        Map::empty()
    } else {
        entries_map(es.drop_last()).insert(es.last().0, es.last().1)
    }
}

/// A key stands in the denoted map exactly when some entry carries it.
pub proof fn lemma_entries_map_dom<V>(es: Seq<(u64, V)>, k: u64)
    ensures
        entries_map(es).dom().contains(k) <==> exists|i: int| 0 <= i < es.len() && (#[trigger] es[i]).0 == k,
    decreases es.len(),
{
    if es.len() > 0 {
        lemma_entries_map_dom(es.drop_last(), k);
        if es.last().0 == k {
            assert(es[es.len() - 1].0 == k);
        } else if entries_map(es).dom().contains(k) {
            let i = choose|i: int| 0 <= i < es.drop_last().len() && (#[trigger] es.drop_last()[i]).0 == k;
            assert(es[i].0 == k);
        } else {
            assert(forall|i: int| 0 <= i < es.len() - 1 ==> (#[trigger] es[i]) == es.drop_last()[i]);
        }
    }
}

/// Whether the keys of an entry list are pairwise distinct.
pub open spec fn entries_unique<V>(es: Seq<(u64, V)>) -> bool {
    forall|i: int, j: int|
        0 <= i < es.len() && 0 <= j < es.len() && i != j ==> (#[trigger] es[i]).0 != (#[trigger] es[j]).0
}

/// With unique keys, the entry holding a key gives that key's value.
pub proof fn lemma_entries_map_at<V>(es: Seq<(u64, V)>, i: int)
    requires
        entries_unique(es),
        0 <= i < es.len(),
    ensures
        entries_map(es).dom().contains(es[i].0),
        entries_map(es)[es[i].0] == es[i].1,
    decreases es.len(),
{
    if i == es.len() - 1 {
        assert(es.last() == es[i]);
    } else {
        assert(forall|p: int| 0 <= p < es.len() - 1 ==> (#[trigger] es.drop_last()[p]) == es[p]);
        lemma_entries_map_at(es.drop_last(), i);
        assert(es.last().0 != es[i].0);
    }
}

/// Removing the entry at an index removes exactly its key from the map,
/// provided keys are unique.
pub proof fn lemma_entries_map_remove<V>(es: Seq<(u64, V)>, i: int)
    requires
        entries_unique(es),
        0 <= i < es.len(),
    ensures
        entries_map(es.remove(i)) == entries_map(es).remove(es[i].0),
    decreases es.len(),
{
    if i == es.len() - 1 {
        assert(es.remove(i) =~= es.drop_last());
        lemma_entries_map_dom(es.drop_last(), es[i].0);
        assert(forall|p: int| 0 <= p < es.len() - 1 ==> (#[trigger] es.drop_last()[p]) == es[p]);
        assert(!entries_map(es.drop_last()).dom().contains(es[i].0));
        assert(entries_map(es.drop_last()) =~= entries_map(es).remove(es[i].0));
    } else {
        assert(forall|p: int| 0 <= p < es.len() - 1 ==> (#[trigger] es.drop_last()[p]) == es[p]);
        lemma_entries_map_remove(es.drop_last(), i);
        assert(es.remove(i).drop_last() =~= es.drop_last().remove(i));
        assert(es.remove(i).last() == es.last());
        assert(es.last().0 != es[i].0);
        assert(entries_map(es.remove(i)) =~= entries_map(es).remove(es[i].0));
    }
}

/// Overwriting the value of the entry at an index, keeping its key,
/// updates exactly that key in the map, provided keys are unique.
pub proof fn lemma_entries_map_update<V>(es: Seq<(u64, V)>, i: int, v: V)
    requires
        entries_unique(es),
        0 <= i < es.len(),
    ensures
        entries_map(es.update(i, (es[i].0, v))) == entries_map(es).insert(es[i].0, v),
    decreases es.len(),
{
    let k = es[i].0;
    if i == es.len() - 1 {
        assert(es.update(i, (k, v)).drop_last() =~= es.drop_last());
        assert(es.update(i, (k, v)).last() == (k, v));
    } else {
        assert(forall|p: int| 0 <= p < es.len() - 1 ==> (#[trigger] es.drop_last()[p]) == es[p]);
        lemma_entries_map_update(es.drop_last(), i, v);
        assert(es.update(i, (k, v)).drop_last() =~= es.drop_last().update(i, (k, v)));
        assert(es.update(i, (k, v)).last() == es.last());
        assert(es.last().0 != k);
        assert(entries_map(es.update(i, (k, v))) =~= entries_map(es).insert(k, v));
    }
}

/// A key absent from every entry is absent from the map, so removing it
/// changes nothing.
pub proof fn lemma_entries_map_remove_absent<V>(es: Seq<(u64, V)>, k: u64)
    requires
        forall|i: int| 0 <= i < es.len() ==> (#[trigger] es[i]).0 != k,
    ensures
        entries_map(es).remove(k) == entries_map(es),
{
    lemma_entries_map_dom(es, k);
    assert(entries_map(es).remove(k) =~= entries_map(es));
}

/// A keyed store of values, unique by key, with a `Map` view.
pub struct Table<V> {
    /// The entries, each a key paired with its value.
    pub entries: Vec<(u64, V)>,
}

impl<V> Table<V> {
    /// The mathematical map this table denotes.
    pub open spec fn view(&self) -> Map<u64, V> {
        entries_map(self.entries@)
    }

    /// Well-formed: no key occurs twice.
    pub open spec fn wf(&self) -> bool {
        entries_unique(self.entries@)
    }

    /// An empty table.
    pub fn new() -> (r: Self)
        ensures
            r.wf(),
            r@ == Map::<u64, V>::empty(),
    {
        Table { entries: Vec::new() }
    }

    /// The position of the entry holding a key, if any.
    pub fn index_of(&self, k: u64) -> (r: Option<usize>)
        requires
            self.wf(),
        ensures
            match r {
                Some(i) => i < self.entries@.len() && self.entries@[i as int].0 == k
                    && self@.dom().contains(k) && self@[k] == self.entries@[i as int].1,
                None => !self@.dom().contains(k),
            },
    {
        let mut i: usize = 0;
        while i < self.entries.len()
            invariant
                i <= self.entries@.len(),
                forall|p: int| 0 <= p < i ==> (#[trigger] self.entries@[p]).0 != k,
                self.wf(),
            decreases self.entries@.len() - i,
        {
            if self.entries[i].0 == k {
                proof {
                    lemma_entries_map_at(self.entries@, i as int);
                }
                return Some(i);
            }
            i += 1;
        }
        proof {
            lemma_entries_map_dom(self.entries@, k);
        }
        None
    }

    /// Whether a key is present.
    pub fn contains(&self, k: u64) -> (r: bool)
        requires
            self.wf(),
        ensures
            r == self@.dom().contains(k),
    {
        self.index_of(k).is_some()
    }

    /// The value under a key, if any.
    pub fn get(&self, k: u64) -> (r: Option<&V>)
        requires
            self.wf(),
        ensures
            match r {
                Some(v) => self@.dom().contains(k) && *v == self@[k],
                None => !self@.dom().contains(k),
            },
    {
        match self.index_of(k) {
            Some(i) => Some(&self.entries[i].1),
            None => None,
        }
    }

    /// Binds a key to a value, replacing any previous binding.
    pub fn insert(&mut self, k: u64, v: V)
        requires
            old(self).wf(),
        ensures
            final(self).wf(),
            final(self)@ == old(self)@.insert(k, v),
    {
        match self.index_of(k) {
            Some(i) => {
                proof {
                    lemma_entries_map_update(self.entries@, i as int, v);
                }
                self.entries[i] = (k, v);
                proof {
                    assert(forall|p: int| 0 <= p < self.entries@.len()
                        ==> (#[trigger] self.entries@[p]).0 == old(self).entries@[p].0);
                }
            }
            None => {
                proof {
                    lemma_entries_map_dom(self.entries@, k);
                }
                self.entries.push((k, v));
                proof {
                    assert(self.entries@.drop_last() =~= old(self).entries@);
                    assert(forall|p: int| 0 <= p < old(self).entries@.len()
                        ==> (#[trigger] self.entries@[p]) == old(self).entries@[p]);
                }
            }
        }
    }

    /// Unbinds a key and hands its value out, if the key was present.
    pub fn take(&mut self, k: u64) -> (r: Option<V>)
        requires
            old(self).wf(),
        ensures
            final(self).wf(),
            match r {
                Some(v) => old(self)@.dom().contains(k) && v == old(self)@[k] && final(self)@
                    == old(self)@.remove(k),
                None => !old(self)@.dom().contains(k) && final(self)@ == old(self)@,
            },
    {
        match self.index_of(k) {
            Some(i) => {
                proof {
                    lemma_entries_map_remove(self.entries@, i as int);
                }
                let e = self.entries.remove(i);
                proof {
                    assert(forall|p: int| 0 <= p < self.entries@.len()
                        ==> (#[trigger] self.entries@[p]) == old(self).entries@.remove(i as int)[p]);
                    assert(entries_unique(self.entries@));
                }
                Some(e.1)
            }
            None => None,
        }
    }

    /// Unbinds a key; a no-op when the key is absent.
    pub fn remove(&mut self, k: u64)
        requires
            old(self).wf(),
        ensures
            final(self).wf(),
            final(self)@ == old(self)@.remove(k),
    {
        match self.index_of(k) {
            Some(i) => {
                proof {
                    lemma_entries_map_remove(self.entries@, i as int);
                }
                self.entries.remove(i);
                proof {
                    assert(forall|p: int| 0 <= p < self.entries@.len()
                        ==> (#[trigger] self.entries@[p]) == old(self).entries@.remove(i as int)[p]);
                    assert(entries_unique(self.entries@));
                }
            }
            None => {
                proof {
                    lemma_entries_map_dom(self.entries@, k);
                    lemma_entries_map_remove_absent(self.entries@, k);
                }
            }
        }
    }
}

} // verus!
