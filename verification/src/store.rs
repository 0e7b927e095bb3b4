//! The record store: CRUD over credential records keyed by title, with at
//! most one record per title. The store models a durable single-table
//! key-unique collection; payloads are opaque text to it.

use vstd::prelude::*;

verus! {

/// A stored credential record. The payload is the text-safe encoding of a
/// ciphertext and is opaque to the store. The identifier stands for the
/// auto-assigned primary key of the table: it is given once, on insertion,
/// from a strictly increasing counter, and never changes afterwards.
pub struct Password {
    pub id: Ghost<int>,
    pub title: String,
    pub encrypted_password: String,
}

/// How a store operation can fail.
#[derive(Clone, Copy, Debug, PartialEq, Eq)]
pub enum StoreError {
    /// `add_password` found an existing record under the same title.
    Conflict,
    /// `update_password` or `delete_password` found no record under the title.
    NotFound,
}

/// One table of credential records, with title uniqueness enforced on insertion.
pub struct RecordStore {
    records: Vec<Password>,
    next_id: Ghost<int>,
}

impl RecordStore {
    /// Well-formedness: titles are pairwise distinct, and every identifier
    /// was drawn from the counter, so identifiers are pairwise distinct too.
    pub closed spec fn wf(&self) -> bool {
        &&& forall|i: int, j: int|
            0 <= i < self.records@.len() && 0 <= j < self.records@.len() && i != j
                ==> self.records@[i].title@ != self.records@[j].title@
        &&& forall|i: int| 0 <= i < self.records@.len() ==> #[trigger] self.records@[i].id@ < self.next_id@
    }

    spec fn index_of(&self, title: Seq<char>) -> int {
        choose|i: int| 0 <= i < self.records@.len() && self.records@[i].title@ == title
    }

    /// Whether some record is stored under `title` (exact match).
    pub closed spec fn contains_title(&self, title: Seq<char>) -> bool {
        exists|i: int| 0 <= i < self.records@.len() && self.records@[i].title@ == title
    }

    /// The payload stored under `title`; meaningful when `contains_title` holds.
    pub closed spec fn payload_of(&self, title: Seq<char>) -> Seq<char> {
        self.records@[self.index_of(title)].encrypted_password@
    }

    /// The identifier of the record stored under `title`; meaningful when
    /// `contains_title` holds.
    pub closed spec fn id_of(&self, title: Seq<char>) -> int {
        self.records@[self.index_of(title)].id@
    }

    /// In a well-formed store, a record's position determines the lookup
    /// results for its title.
    proof fn lemma_found_at(&self, title: Seq<char>, i: int)
        requires
            self.wf(),
            0 <= i < self.records@.len(),
            self.records@[i].title@ == title,
        ensures
            self.contains_title(title),
            self.index_of(title) == i,
            self.payload_of(title) == self.records@[i].encrypted_password@,
            self.id_of(title) == self.records@[i].id@,
    {
        assert(self.contains_title(title));
        let j = self.index_of(title);
        assert(self.records@[j].title@ == title);
    }

    /// An empty store, holding no record under any title.
    pub fn new() -> (s: Self)
        ensures
            s.wf(),
            forall|t: Seq<char>| !s.contains_title(t),
    {
        RecordStore { records: Vec::new(), next_id: Ghost(1int) }
    }

    /// Position of the record with the given title, if any.
    fn find_index(&self, title: &str) -> (r: Option<usize>)
        requires
            self.wf(),
        ensures
            match r {
                Some(i) => {
                    &&& i < self.records@.len()
                    &&& self.records@[i as int].title@ == title@
                    &&& self.contains_title(title@)
                    &&& self.index_of(title@) == i as int
                },
                None => !self.contains_title(title@),
            },
    {
        let wanted: String = title.to_owned();
        let n = self.records.len();
        let mut i: usize = 0;
        while i < n
            invariant
                n == self.records@.len(),
                i <= n,
                self.wf(),
                wanted@ == title@,
                forall|j: int| 0 <= j < i ==> self.records@[j].title@ != title@,
            decreases n - i,
        {
            if self.records[i].title == wanted {
                proof {
                    self.lemma_found_at(title@, i as int);
                }
                return Some(i);
            }
            i = i + 1;
        }
        None
    }

    /// Insert a new record under `title`. Fails with `Conflict`, changing
    /// nothing, when a record with that title already exists; the check and
    /// the insertion are one operation on the store. The new record's
    /// identifier is larger than that of every record already present.
    pub fn add_password(&mut self, title: &str, encrypted_password: &str) -> (r: Result<
        (),
        StoreError,
    >)
        requires
            old(self).wf(),
        ensures
            final(self).wf(),
            old(self).contains_title(title@) ==> r == Err::<(), StoreError>(StoreError::Conflict)
                && *final(self) == *old(self),
            !old(self).contains_title(title@) ==> {
                &&& r == Ok::<(), StoreError>(())
                &&& final(self).contains_title(title@)
                &&& final(self).payload_of(title@) == encrypted_password@
                &&& forall|t: Seq<char>|
                    t != title@ ==> final(self).contains_title(t) == old(self).contains_title(t)
                &&& forall|t: Seq<char>|
                    t != title@ && old(self).contains_title(t) ==> final(self).payload_of(t) == old(
                        self,
                    ).payload_of(t) && final(self).id_of(t) == old(self).id_of(t)
                &&& forall|t: Seq<char>|
                    old(self).contains_title(t) ==> old(self).id_of(t) < final(self).id_of(title@)
            },
    {
        if let Some(_) = self.find_index(title) {
            return Err(StoreError::Conflict);
        }
        let ghost prior = *self;
        let record = Password {
            id: Ghost(self.next_id@),
            title: title.to_owned(),
            encrypted_password: encrypted_password.to_owned(),
        };
        self.records.push(record);
        self.next_id = Ghost(self.next_id@ + 1);
        proof {
            let n = prior.records@.len() as int;
            assert(self.records@ =~= prior.records@.push(record));
            self.lemma_found_at(title@, n);
            assert forall|t: Seq<char>| t != title@ implies self.contains_title(t)
                == prior.contains_title(t) by {
                if prior.contains_title(t) {
                    let i = prior.index_of(t);
                    assert(self.records@[i].title@ == t);
                }
                if self.contains_title(t) {
                    let i = self.index_of(t);
                    assert(0 <= i < n && prior.records@[i].title@ == t);
                }
            }
            assert forall|t: Seq<char>| t != title@ && prior.contains_title(t) implies self
                .payload_of(t) == prior.payload_of(t) && self.id_of(t) == prior.id_of(t) by {
                let i = prior.index_of(t);
                prior.lemma_found_at(t, i);
                self.lemma_found_at(t, i);
            }
            assert forall|t: Seq<char>| prior.contains_title(t) implies prior.id_of(t) < self
                .id_of(title@) by {
                let i = prior.index_of(t);
                prior.lemma_found_at(t, i);
            }
        }
        Ok(())
    }

    /// The stored payload under `title`, or absence when no record has that
    /// title. Absence is not an error.
    pub fn get_password(&self, title: &str) -> (r: Option<String>)
        requires
            self.wf(),
        ensures
            (r is Some) == self.contains_title(title@),
            r is Some ==> r->0@ == self.payload_of(title@),
    {
        match self.find_index(title) {
            Some(i) => Some(self.records[i].encrypted_password.clone()),
            None => None,
        }
    }

    /// Replace the payload of the record under `title` in place. Fails with
    /// `NotFound`, changing nothing, when no record has that title. The
    /// record's identifier does not change.
    pub fn update_password(&mut self, title: &str, new_encrypted_password: &str) -> (r: Result<
        (),
        StoreError,
    >)
        requires
            old(self).wf(),
        ensures
            final(self).wf(),
            !old(self).contains_title(title@) ==> r == Err::<(), StoreError>(StoreError::NotFound)
                && *final(self) == *old(self),
            old(self).contains_title(title@) ==> {
                &&& r == Ok::<(), StoreError>(())
                &&& final(self).contains_title(title@)
                &&& final(self).payload_of(title@) == new_encrypted_password@
                &&& final(self).id_of(title@) == old(self).id_of(title@)
                &&& forall|t: Seq<char>|
                    t != title@ ==> final(self).contains_title(t) == old(self).contains_title(t)
                &&& forall|t: Seq<char>|
                    t != title@ && old(self).contains_title(t) ==> final(self).payload_of(t) == old(
                        self,
                    ).payload_of(t) && final(self).id_of(t) == old(self).id_of(t)
            },
    {
        let index = match self.find_index(title) {
            Some(i) => i,
            None => {
                return Err(StoreError::NotFound);
            },
        };
        let ghost prior = *self;
        self.records[index].encrypted_password = new_encrypted_password.to_owned();
        proof {
            self.lemma_found_at(title@, index as int);
            assert forall|t: Seq<char>| t != title@ implies self.contains_title(t)
                == prior.contains_title(t) by {
                if prior.contains_title(t) {
                    let i = prior.index_of(t);
                    assert(self.records@[i].title@ == t);
                }
                if self.contains_title(t) {
                    let i = self.index_of(t);
                    assert(prior.records@[i].title@ == t);
                }
            }
            assert forall|t: Seq<char>| t != title@ && prior.contains_title(t) implies self
                .payload_of(t) == prior.payload_of(t) && self.id_of(t) == prior.id_of(t) by {
                let i = prior.index_of(t);
                prior.lemma_found_at(t, i);
                self.lemma_found_at(t, i);
            }
        }
        Ok(())
    }

    /// Remove the record under `title`. Fails with `NotFound`, changing
    /// nothing, when no record has that title.
    pub fn delete_password(&mut self, title: &str) -> (r: Result<(), StoreError>)
        requires
            old(self).wf(),
        ensures
            final(self).wf(),
            !old(self).contains_title(title@) ==> r == Err::<(), StoreError>(StoreError::NotFound)
                && *final(self) == *old(self),
            old(self).contains_title(title@) ==> {
                &&& r == Ok::<(), StoreError>(())
                &&& !final(self).contains_title(title@)
                &&& forall|t: Seq<char>|
                    t != title@ ==> final(self).contains_title(t) == old(self).contains_title(t)
                &&& forall|t: Seq<char>|
                    t != title@ && old(self).contains_title(t) ==> final(self).payload_of(t) == old(
                        self,
                    ).payload_of(t) && final(self).id_of(t) == old(self).id_of(t)
            },
    {
        let index = match self.find_index(title) {
            Some(i) => i,
            None => {
                return Err(StoreError::NotFound);
            },
        };
        let ghost prior = *self;
        self.records.remove(index);
        proof {
            assert forall|t: Seq<char>| t != title@ && prior.contains_title(t) implies self
                .contains_title(t) && self.payload_of(t) == prior.payload_of(t) && self.id_of(t)
                == prior.id_of(t) by {
                let i = prior.index_of(t);
                prior.lemma_found_at(t, i);
                let j: int = if i < index as int {
                    i
                } else {
                    i - 1
                };
                assert(self.records@[j] == prior.records@[i]);
                self.lemma_found_at(t, j);
            }
            assert forall|t: Seq<char>| self.contains_title(t) implies t != title@
                && prior.contains_title(t) by {
                let i = self.index_of(t);
                let j: int = if i < index as int {
                    i
                } else {
                    i + 1
                };
                assert(prior.records@[j] == self.records@[i]);
                prior.lemma_found_at(t, j);
            }
        }
        Ok(())
    }

    /// Remove every record and leave the store ready for new insertions,
    /// as if freshly created. Idempotent; never fails.
    pub fn reset_all(&mut self)
        ensures
            final(self).wf(),
            forall|t: Seq<char>| !final(self).contains_title(t),
    {
        self.records = Vec::new();
        self.next_id = Ghost(1int);
    }
}

} // verus!
