//! A small table of rows under text identifiers, each identifier at most
//! once, in the order in which the identifiers first came.

use vstd::prelude::*;

verus! {

/// Rows under text identifiers.
#[derive(Debug)]
pub struct Registry<T> {
    entries: Vec<(String, T)>,
}

/// Whether no identifier stands twice in a list of entries.
pub open spec fn unique_ids<T>(entries: Seq<(String, T)>) -> bool {
    forall|i: int, j: int|
        0 <= i < j < entries.len() ==> (#[trigger] entries[i]).0@ != (#[trigger] entries[j]).0@
}

/// Whether the identifier `id` stands at position `i` of a list of
/// entries.
pub open spec fn stands_at<T>(entries: Seq<(String, T)>, id: Seq<char>, i: int) -> bool {
    0 <= i < entries.len() && entries[i].0@ == id
}

/// The table that a list of entries spells.
pub open spec fn table_of<T>(entries: Seq<(String, T)>) -> Map<Seq<char>, T> {
    Map::new(
        |id: Seq<char>| exists|i: int| stands_at(entries, id, i),
        |id: Seq<char>| entries[choose|i: int| stands_at(entries, id, i)].1,
    )
}

/// The place of `id` in a list of identifiers that holds it.
pub open spec fn place_of(ids: Seq<Seq<char>>, id: Seq<char>) -> int {
    choose|i: int| 0 <= i < ids.len() && ids[i] == id
}

impl<T> View for Registry<T> {
    type V = Map<Seq<char>, T>;

    closed spec fn view(&self) -> Map<Seq<char>, T> {
        table_of(self.entries@)
    }
}

impl<T> Registry<T> {
    #[verifier::type_invariant]
    spec fn well_formed(self) -> bool {
        unique_ids(self.entries@)
    }

    /// The identifiers of the table, in the order in which they first came.
    pub closed spec fn ids(&self) -> Seq<Seq<char>> {
        Seq::new(self.entries@.len(), |i: int| self.entries@[i].0@)
    }

    /// An empty table.
    pub fn new() -> (registry: Self)
        ensures
            registry@ == Map::<Seq<char>, T>::empty(),
            registry.ids() == Seq::<Seq<char>>::empty(),
    {
        let registry = Registry { entries: Vec::new() };
        assert(registry@ =~= Map::<Seq<char>, T>::empty());
        assert(registry.ids() =~= Seq::<Seq<char>>::empty());
        registry
    }

    /// Number of rows.
    pub fn len(&self) -> (n: usize)
        ensures
            n == self.ids().len(),
            n == self@.dom().len(),
    {
        proof {
            use_type_invariant(self);
            let ids = self.ids();
            assert forall|id: Seq<char>| ids.to_set().contains(id) <==> self@.dom().contains(
                id,
            ) by {
                if ids.contains(id) {
                    let i = choose|i: int| 0 <= i < ids.len() && ids[i] == id;
                    assert(stands_at(self.entries@, id, i));
                }
                if self@.dom().contains(id) {
                    let i = choose|i: int| stands_at(self.entries@, id, i);
                    assert(ids[i] == id);
                }
            }
            assert(ids.to_set() =~= self@.dom());
            ids.unique_seq_to_set();
        }
        self.entries.len()
    }

    fn position(&self, id: &str) -> (at: Option<usize>)
        ensures
            match at {
                Some(i) => stands_at(self.entries@, id@, i as int),
                None => forall|i: int| !stands_at(self.entries@, id@, i),
            },
    {
        let wanted = id.to_owned();
        let mut i: usize = 0;
        while i < self.entries.len()
            invariant
                i <= self.entries.len(),
                wanted@ == id@,
                forall|k: int| 0 <= k < i ==> !stands_at(self.entries@, id@, k),
            decreases self.entries.len() - i,
        {
            if self.entries[i].0 == wanted {
                return Some(i);
            }
            i += 1;
        }
        None
    }

    /// The row under `id`, if there is one.
    pub fn get(&self, id: &str) -> (row: Option<&T>)
        ensures
            match row {
                Some(row) => self@.contains_key(id@) && *row == self@[id@],
                None => !self@.contains_key(id@),
            },
    {
        proof {
            use_type_invariant(self);
        }
        match self.position(id) {
            Some(i) => {
                proof {
                    let chosen = choose|k: int| stands_at(self.entries@, id@, k);
                    assert(stands_at(self.entries@, id@, i as int));
                    assert(chosen == i);
                }
                Some(&self.entries[i].1)
            },
            None => None,
        }
    }

    /// Puts `row` under `id`. A row that stood there is replaced, in its
    /// place, and handed back; the other rows stay as they are.
    pub fn insert(&mut self, id: String, row: T) -> (replaced: Option<T>)
        ensures
            final(self)@ == old(self)@.insert(id@, row),
            match replaced {
                Some(before) => old(self)@.contains_key(id@) && before == old(self)@[id@],
                None => !old(self)@.contains_key(id@),
            },
            final(self).ids() == if old(self)@.contains_key(id@) {
                old(self).ids()
            } else {
                old(self).ids().push(id@)
            },
    {
        proof {
            use_type_invariant(&*self);
        }
        let at = self.position(id.as_str());
        let mut entries: Vec<(String, T)> = Vec::new();
        std::mem::swap(&mut self.entries, &mut entries);
        let ghost before = entries@;
        let replaced = match at {
            Some(i) => {
                let (_, row_before) = entries.remove(i);
                entries.insert(i, (id, row));
                proof {
                    let chosen = choose|k: int| stands_at(before, id@, k);
                    assert(stands_at(before, id@, i as int));
                    assert(chosen == i);
                    assert(entries@ =~= before.update(i as int, (id, row)));
                }
                Some(row_before)
            },
            None => {
                entries.push((id, row));
                None
            },
        };
        proof {
            let after = entries@;
            let place = match at {
                Some(i) => i as int,
                None => before.len() as int,
            };
            assert(stands_at(after, id@, place));
            assert forall|k: int| 0 <= k < after.len() implies (#[trigger] after[k]).0@ == if k
                == place {
                id@
            } else {
                before[k].0@
            } by {}
            assert forall|i: int, j: int| 0 <= i < j < after.len() implies (#[trigger] after[i]).0@
                != (#[trigger] after[j]).0@ by {
                if i == place {
                    assert(!stands_at(before, id@, j) || j == place);
                } else if j == place {
                    assert(!stands_at(before, id@, i) || i == place);
                } else {
                    assert(before[i].0@ != before[j].0@);
                }
            }
            assert forall|key: Seq<char>| #[trigger]
                table_of(after).contains_key(key) <==> old(self)@.insert(id@, row).contains_key(
                    key,
                ) by {
                if table_of(after).contains_key(key) {
                    let k = choose|k: int| stands_at(after, key, k);
                    if k != place {
                        assert(stands_at(before, key, k));
                    }
                }
                if key != id@ && old(self)@.contains_key(key) {
                    let k = choose|k: int| stands_at(before, key, k);
                    assert(stands_at(after, key, k));
                }
            }
            assert forall|key: Seq<char>| #[trigger]
                table_of(after).contains_key(key) implies table_of(after)[key] == old(
                self)@.insert(id@, row)[key] by {
                let k = choose|k: int| stands_at(after, key, k);
                if key == id@ {
                    assert(k == place);
                } else {
                    assert(stands_at(before, key, k));
                    let chosen = choose|n: int| stands_at(before, key, n);
                    assert(chosen == k);
                }
            }
            assert(table_of(after) =~= old(self)@.insert(id@, row));
        }
        self.entries = entries;
        proof {
            match at {
                Some(i) => {
                    assert(self.ids() =~= old(self).ids());
                },
                None => {
                    assert(self.ids() =~= old(self).ids().push(id@));
                },
            }
        }
        replaced
    }

    /// Takes the row under `id` out of the table and hands it back; the
    /// other rows stay as they are.
    pub fn remove(&mut self, id: &str) -> (removed: Option<T>)
        ensures
            final(self)@ == old(self)@.remove(id@),
            match removed {
                Some(row) => old(self)@.contains_key(id@) && row == old(self)@[id@],
                None => !old(self)@.contains_key(id@),
            },
            final(self).ids() == if old(self)@.contains_key(id@) {
                old(self).ids().remove(place_of(old(self).ids(), id@))
            } else {
                old(self).ids()
            },
    {
        proof {
            use_type_invariant(&*self);
        }
        match self.position(id) {
            None => {
                assert(self@ =~= old(self)@.remove(id@));
                None
            },
            Some(gone) => {
                let mut entries: Vec<(String, T)> = Vec::new();
                std::mem::swap(&mut self.entries, &mut entries);
                let ghost before = entries@;
                let (_, row) = entries.remove(gone);
                proof {
                    let after = entries@;
                    let chosen = choose|k: int| stands_at(before, id@, k);
                    assert(stands_at(before, id@, gone as int));
                    assert(chosen == gone);
                    assert forall|i: int, j: int| 0 <= i < j < after.len() implies (
                    #[trigger] after[i]).0@ != (#[trigger] after[j]).0@ by {
                        let from = |k: int| if k < gone { k } else { k + 1 };
                        assert(after[i] == before[from(i)]);
                        assert(after[j] == before[from(j)]);
                    }
                    assert forall|key: Seq<char>| #[trigger]
                        table_of(after).contains_key(key) <==> old(self)@.remove(id@).contains_key(
                            key,
                        ) by {
                        if table_of(after).contains_key(key) {
                            let k = choose|k: int| stands_at(after, key, k);
                            let origin = if k < gone { k } else { k + 1 };
                            assert(stands_at(before, key, origin));
                        }
                        if key != id@ && old(self)@.contains_key(key) {
                            let k = choose|k: int| stands_at(before, key, k);
                            let target = if k < gone { k } else { k - 1 };
                            assert(stands_at(after, key, target));
                        }
                    }
                    assert forall|key: Seq<char>| #[trigger]
                        table_of(after).contains_key(key) implies table_of(after)[key] == old(self)@.remove(id@)[key] by {
                        let k = choose|k: int| stands_at(after, key, k);
                        let origin = if k < gone { k } else { k + 1 };
                        assert(stands_at(before, key, origin));
                        let chosen = choose|n: int| stands_at(before, key, n);
                        assert(chosen == origin);
                    }
                    assert(table_of(after) =~= old(self)@.remove(id@));
                }
                self.entries = entries;
                proof {
                    let ids = old(self).ids();
                    assert(ids[gone as int] == id@);
                    let place = place_of(ids, id@);
                    assert(stands_at(before, id@, place));
                    assert(place == gone);
                    assert(self.ids() =~= ids.remove(gone as int));
                }
                Some(row)
            },
        }
    }

    /// The rows with their identifiers, each identifier once.
    pub fn entries(&self) -> (entries: &Vec<(String, T)>)
        ensures
            entries@.len() == self.ids().len(),
            self.ids().no_duplicates(),
            self.ids().to_set() == self@.dom(),
            forall|i: int|
                0 <= i < entries@.len() ==> (#[trigger] entries@[i]).0@ == self.ids()[i]
                    && self@.contains_key(self.ids()[i]) && entries@[i].1 == self@[self.ids()[i]],
    {
        proof {
            use_type_invariant(self);
            assert forall|id: Seq<char>| self.ids().to_set().contains(id) <==> self@.dom().contains(
                id,
            ) by {
                if self.ids().contains(id) {
                    let i = choose|i: int| 0 <= i < self.ids().len() && self.ids()[i] == id;
                    assert(stands_at(self.entries@, id, i));
                }
                if self@.dom().contains(id) {
                    let i = choose|i: int| stands_at(self.entries@, id, i);
                    assert(self.ids()[i] == id);
                }
            }
            assert(self.ids().to_set() =~= self@.dom());
            assert forall|i: int| 0 <= i < self.entries@.len() implies self@.contains_key(
                self.ids()[i],
            ) && (#[trigger] self.entries@[i]).1 == self@[self.ids()[i]] by {
                assert(stands_at(self.entries@, self.ids()[i], i));
                let chosen = choose|k: int| stands_at(self.entries@, self.ids()[i], k);
                assert(chosen == i);
            }
        }
        &self.entries
    }
}

} // verus!
