use vstd::prelude::*;

verus! {

/// The table of live engine processes, keyed by VM id. `H` is the process
/// handle; each id has at most one entry.
pub struct ProcessRegistry<H> {
    entries: Vec<(String, H)>,
}

impl<H> ProcessRegistry<H> {
    closed spec fn key(&self, i: int) -> Seq<char> {
        self.entries@[i].0@
    }

    closed spec fn holds_at(&self, k: Seq<char>, i: int) -> bool {
        0 <= i < self.entries@.len() && self.key(i) == k
    }

    closed spec fn index_of(&self, k: Seq<char>) -> int {
        choose|i: int| self.holds_at(k, i)
    }

    /// No id has two entries.
    pub closed spec fn wf(&self) -> bool {
        forall|i: int, j: int|
            0 <= i < j < self.entries@.len() ==> self.key(i) != self.key(j)
    }

    /// The id of each live process mapped to its handle.
    pub closed spec fn view(&self) -> Map<Seq<char>, H> {
        Map::new(
            |k: Seq<char>| exists|i: int| self.holds_at(k, i),
            |k: Seq<char>| self.entries@[self.index_of(k)].1,
        )
    }

    proof fn lemma_index_of(&self, k: Seq<char>, i: int)
        requires
            self.wf(),
            self.holds_at(k, i),
        ensures
            self.index_of(k) == i,
            self.view().contains_key(k),
            self.view()[k] == self.entries@[i].1,
    {
        let j = self.index_of(k);
        assert(self.holds_at(k, j));
        if i < j {
            assert(self.key(i) != self.key(j));
        } else if j < i {
            assert(self.key(j) != self.key(i));
        }
    }

    /// An empty table.
    pub fn new() -> (r: Self)
        ensures
            r.wf(),
            r.view() == Map::<Seq<char>, H>::empty(),
    {
        let r = ProcessRegistry { entries: Vec::new() };
        assert(r.view() =~= Map::<Seq<char>, H>::empty());
        r
    }

    fn position(&self, id: &str) -> (r: Option<usize>)
        requires
            self.wf(),
        ensures
            r matches Some(i) ==> self.holds_at(id@, i as int),
            r is None ==> !self.view().contains_key(id@),
    {
        let key = String::from_str(id);
        let mut i: usize = 0;
        while i < self.entries.len()
            invariant
                i <= self.entries@.len(),
                key@ == id@,
                forall|j: int| 0 <= j < i ==> self.key(j) != id@,
            decreases self.entries@.len() - i,
        {
            if self.entries[i].0 == key {
                return Some(i);
            }
            i += 1;
        }
        None
    }

    /// Whether `id` has a live process.
    pub fn contains(&self, id: &str) -> (r: bool)
        requires
            self.wf(),
        ensures
            r == self.view().contains_key(id@),
    {
        match self.position(id) {
            Some(i) => {
                proof {
                    self.lemma_index_of(id@, i as int);
                }
                true
            },
            None => false,
        }
    }

    /// Records `handle` for `id`; an id that already has an entry is refused
    /// and the handle given back.
    pub fn insert(&mut self, id: String, handle: H) -> (r: Result<(), H>)
        requires
            old(self).wf(),
        ensures
            final(self).wf(),
            old(self).view().contains_key(id@) ==> r == Err::<(), H>(handle) && final(self).view() == old(self).view(),
            !old(self).view().contains_key(id@) ==> r is Ok && final(self).view() == old(self).view().insert(id@, handle),
    {
        if self.contains(id.as_str()) {
            return Err(handle);
        }
        let ghost prev = *self;
        let ghost k = id@;
        self.entries.push((id, handle));
        let n = self.entries.len();
        assert(self.wf()) by {
            assert forall|i: int, j: int| 0 <= i < j < self.entries@.len() implies self.key(i) != self.key(j) by {
                if j == n - 1 {
                    assert(prev.holds_at(prev.key(i), i));
                } else {
                    assert(prev.key(i) != prev.key(j));
                }
            }
        }
        assert forall|q: Seq<char>| #[trigger] self.view().contains_key(q) <==> prev.view().insert(k, handle).contains_key(q) by {
            if prev.view().contains_key(q) && q != k {
                let i = choose|i: int| prev.holds_at(q, i);
                assert(self.holds_at(q, i));
            }
            if self.view().contains_key(q) {
                let i = choose|i: int| self.holds_at(q, i);
                if i < n - 1 {
                    assert(prev.holds_at(q, i));
                }
            }
            if q == k {
                assert(self.holds_at(q, n - 1));
            }
        }
        assert forall|q: Seq<char>| #[trigger] self.view().contains_key(q) implies self.view()[q] == prev.view().insert(k, handle)[q] by {
            let i = choose|i: int| self.holds_at(q, i);
            self.lemma_index_of(q, i);
            if i < n - 1 {
                assert(prev.holds_at(q, i));
                prev.lemma_index_of(q, i);
            }
        }
        assert(self.view() =~= prev.view().insert(k, handle));
        Ok(())
    }

    /// Takes the entry of `id` out of the table, if it has one.
    pub fn remove(&mut self, id: &str) -> (r: Option<H>)
        requires
            old(self).wf(),
        ensures
            final(self).wf(),
            final(self).view() == old(self).view().remove(id@),
            old(self).view().contains_key(id@) ==> r == Some(old(self).view()[id@]),
            !old(self).view().contains_key(id@) ==> r is None,
    {
        match self.position(id) {
            None => {
                assert(self.view() =~= self.view().remove(id@));
                None
            },
            Some(p) => {
                let ghost prev = *self;
                proof {
                    prev.lemma_index_of(id@, p as int);
                }
                let (_, h) = self.entries.remove(p);
                assert(self.wf()) by {
                    assert forall|i: int, j: int| 0 <= i < j < self.entries@.len() implies self.key(i) != self.key(j) by {
                        let i0 = if i < p { i } else { i + 1 };
                        let j0 = if j < p { j } else { j + 1 };
                        assert(self.key(i) == prev.key(i0));
                        assert(self.key(j) == prev.key(j0));
                        assert(prev.key(i0) != prev.key(j0));
                    }
                }
                assert forall|q: Seq<char>| #[trigger] self.view().contains_key(q) <==> prev.view().remove(id@).contains_key(q) by {
                    if self.view().contains_key(q) {
                        let i = choose|i: int| self.holds_at(q, i);
                        let i0 = if i < p { i } else { i + 1 };
                        assert(prev.holds_at(q, i0));
                        if q == id@ {
                            assert(i0 != p);
                            if i0 < p {
                                assert(prev.key(i0) != prev.key(p as int));
                            } else {
                                assert(prev.key(p as int) != prev.key(i0));
                            }
                        }
                    }
                    if prev.view().contains_key(q) && q != id@ {
                        let i0 = choose|i: int| prev.holds_at(q, i);
                        assert(i0 != p);
                        let i = if i0 < p { i0 } else { i0 - 1 };
                        assert(self.holds_at(q, i));
                    }
                }
                assert forall|q: Seq<char>| #[trigger] self.view().contains_key(q) implies self.view()[q] == prev.view().remove(id@)[q] by {
                    let i = choose|i: int| self.holds_at(q, i);
                    self.lemma_index_of(q, i);
                    let i0 = if i < p { i } else { i + 1 };
                    assert(prev.holds_at(q, i0));
                    prev.lemma_index_of(q, i0);
                }
                assert(self.view() =~= prev.view().remove(id@));
                Some(h)
            },
        }
    }
}

} // verus!
