//! A table of rows keyed by a unique primary key, with the semantics that
//! the data access helper has against the relational store: one statement
//! per operation, a missing key reported as not found, a duplicate key
//! reported as a conflict that leaves the table unchanged.
use vstd::prelude::*;

use crate::database::{deletion_outcome, single_row};
use crate::error::Error;

verus! {

/// A row of a table: its primary key, and how a changeset updates it.
pub trait Record: Sized {
    /// The fields that an update may change.
    type Changeset;

    spec fn key(&self) -> i64;

    /// The row after an update with `changeset`.
    spec fn changed(self, changeset: Self::Changeset) -> Self;

    fn id(&self) -> (r: i64)
        ensures
            r == self.key(),
    ;

    fn apply(&mut self, changeset: Self::Changeset)
        ensures
            *final(self) == old(self).changed(changeset),
            final(self).key() == old(self).key(),
    ;

    fn duplicate(&self) -> (r: Self)
        ensures
            r == *self,
    ;
}

/// What a lookup of `id` gives in a table whose rows are `m`.
pub open spec fn get_result<R: Record>(m: Map<i64, R>, id: i64) -> Result<R, Error> {
    if m.contains_key(id) {
        Ok(m[id])
    } else {
        Err(Error::NotFound)
    }
}

/// Whether inserting `row` into a table whose rows are `m` breaks the
/// uniqueness of the primary key.
pub open spec fn create_conflicts<R: Record>(m: Map<i64, R>, row: R) -> bool {
    m.contains_key(row.key())
}

/// The rows after inserting `row`.
pub open spec fn after_create<R: Record>(m: Map<i64, R>, row: R) -> Map<i64, R> {
    if create_conflicts(m, row) {
        m
    } else {
        m.insert(row.key(), row)
    }
}

/// What an update of `id` with `changeset` gives.
pub open spec fn update_result<R: Record>(m: Map<i64, R>, id: i64, changeset: R::Changeset) -> Result<
    R,
    Error,
> {
    if m.contains_key(id) {
        Ok(m[id].changed(changeset))
    } else {
        Err(Error::NotFound)
    }
}

/// The rows after an update of `id` with `changeset`.
pub open spec fn after_update<R: Record>(m: Map<i64, R>, id: i64, changeset: R::Changeset) -> Map<
    i64,
    R,
> {
    if m.contains_key(id) {
        m.insert(id, m[id].changed(changeset))
    } else {
        m
    }
}

/// What a delete of `id` gives.
pub open spec fn delete_result<R: Record>(m: Map<i64, R>, id: i64) -> Result<(), Error> {
    if m.contains_key(id) {
        Ok(())
    } else {
        Err(Error::NotFound)
    }
}

/// Creating a row and then looking up its key gives back the row as it was
/// created.
pub proof fn lemma_create_then_get<R: Record>(m: Map<i64, R>, row: R)
    requires
        !create_conflicts(m, row),
    ensures
        get_result(after_create(m, row), row.key()) == Ok::<R, Error>(row),
{
}

/// A key that no row has is not found by a lookup, an update or a delete,
/// and neither the update nor the delete changes the table.
pub proof fn lemma_absent_key_not_found<R: Record>(m: Map<i64, R>, id: i64, changeset: R::Changeset)
    requires
        !m.contains_key(id),
    ensures
        get_result(m, id) == Err::<R, Error>(Error::NotFound),
        update_result(m, id, changeset) == Err::<R, Error>(Error::NotFound),
        delete_result(m, id) == Err::<(), Error>(Error::NotFound),
        after_update(m, id, changeset) == m,
        m.remove(id) == m,
{
    assert(m.remove(id) =~= m);
}

/// An update changes the row of its key as the changeset says, and leaves
/// every other row as it was.
pub proof fn lemma_update_changes_one_row<R: Record>(
    m: Map<i64, R>,
    id: i64,
    changeset: R::Changeset,
    other: i64,
)
    requires
        other != id,
    ensures
        m.contains_key(id) ==> after_update(m, id, changeset)[id] == m[id].changed(changeset),
        after_update(m, id, changeset).contains_key(other) == m.contains_key(other),
        m.contains_key(other) ==> after_update(m, id, changeset)[other] == m[other],
{
}

/// Deleting a key twice: the first delete succeeds, the second finds
/// nothing to remove.
pub proof fn lemma_delete_twice<R: Record>(m: Map<i64, R>, id: i64)
    requires
        m.contains_key(id),
    ensures
        delete_result(m, id) == Ok::<(), Error>(()),
        delete_result(m.remove(id), id) == Err::<(), Error>(Error::NotFound),
{
}

/// Creating two rows with the same key: the second is a conflict, and the
/// table keeps the first as it was.
pub proof fn lemma_duplicate_key_conflicts<R: Record>(m: Map<i64, R>, first: R, second: R)
    requires
        first.key() == second.key(),
        !create_conflicts(m, first),
    ensures
        create_conflicts(after_create(m, first), second),
        after_create(after_create(m, first), second) == after_create(m, first),
        get_result(after_create(after_create(m, first), second), first.key()) == Ok::<R, Error>(
            first,
        ),
{
}

/// A table of rows with unique primary keys, in insertion order.
pub struct Table<R> {
    rows: Vec<R>,
    model: Ghost<Map<i64, R>>,
}

impl<R: Record> Table<R> {
    /// The rows, by primary key.
    pub closed spec fn view(&self) -> Map<i64, R> {
        self.model@
    }

    pub closed spec fn wf(&self) -> bool {
        &&& forall|i: int, j: int|
            0 <= i < j < self.rows@.len() ==> #[trigger] self.rows@[i].key() != #[trigger] self.rows@[j].key()
        &&& forall|i: int|
            0 <= i < self.rows@.len() ==> self.model@.contains_key(#[trigger] self.rows@[i].key())
                && self.model@[self.rows@[i].key()] == self.rows@[i]
        &&& forall|k: i64|
            #[trigger] self.model@.contains_key(k) ==> exists|i: int|
                0 <= i < self.rows@.len() && #[trigger] self.rows@[i].key() == k
    }

    /// An empty table.
    pub fn new() -> (t: Table<R>)
        ensures
            t.wf(),
            t@ == Map::<i64, R>::empty(),
    {
        Table { rows: Vec::new(), model: Ghost(Map::empty()) }
    }

    /// Where the row with key `id` stands, if there is one.
    fn position(&self, id: i64) -> (r: Option<usize>)
        requires
            self.wf(),
        ensures
            r matches Some(i) ==> i < self.rows@.len() && self.rows@[i as int].key() == id,
            r is None ==> !self@.contains_key(id),
    {
        let mut i: usize = 0;
        while i < self.rows.len()
            invariant
                self.wf(),
                i <= self.rows@.len(),
                forall|j: int| 0 <= j < i ==> #[trigger] self.rows@[j].key() != id,
            decreases self.rows@.len() - i,
        {
            if self.rows[i].id() == id {
                return Some(i);
            }
            i = i + 1;
        }
        None
    }

    /// The row with primary key `id`, or not found.
    pub fn get(&self, id: i64) -> (r: Result<R, Error>)
        requires
            self.wf(),
        ensures
            r == get_result(self@, id),
    {
        let mut matching: Vec<R> = Vec::new();
        match self.position(id) {
            Some(i) => matching.push(self.rows[i].duplicate()),
            None => {},
        }
        single_row(matching)
    }

    /// Every row, each once, in no promised order.
    pub fn get_all(&self) -> (r: Vec<R>)
        requires
            self.wf(),
        ensures
            forall|i: int| 0 <= i < r@.len() ==> #[trigger] self@.contains_key(r@[i].key()) && self@[r@[i].key()] == r@[i],
            forall|i: int, j: int| 0 <= i < j < r@.len() ==> #[trigger] r@[i].key() != #[trigger] r@[j].key(),
            forall|k: i64| #[trigger] self@.contains_key(k) ==> exists|i: int| 0 <= i < r@.len() && #[trigger] r@[i].key() == k,
    {
        let mut all: Vec<R> = Vec::new();
        let mut i: usize = 0;
        while i < self.rows.len()
            invariant
                self.wf(),
                i <= self.rows@.len(),
                all@ == self.rows@.subrange(0, i as int),
            decreases self.rows@.len() - i,
        {
            all.push(self.rows[i].duplicate());
            i = i + 1;
        }
        assert(all@ == self.rows@);
        all
    }

    /// Inserts `row` and returns it as stored; a row whose key is taken
    /// already is a conflict, and the table is left as it was.
    pub fn create(&mut self, row: R) -> (r: Result<R, Error>)
        requires
            old(self).wf(),
        ensures
            final(self).wf(),
            final(self)@ == after_create(old(self)@, row),
            create_conflicts(old(self)@, row) ==> r is Err && r->Err_0 is ConflictedData,
            !create_conflicts(old(self)@, row) ==> r == Ok::<R, Error>(row),
    {
        match self.position(row.id()) {
            Some(_) => Err(
                Error::ConflictedData(String::from_str("duplicate key value violates unique constraint")),
            ),
            None => {
                let stored = row.duplicate();
                let ghost old_rows = self.rows@;
                self.rows.push(row);
                self.model = Ghost(self.model@.insert(stored.key(), stored));
                assert forall|k: i64| #[trigger] self.model@.contains_key(k) implies exists|i: int|
                    0 <= i < self.rows@.len() && #[trigger] self.rows@[i].key() == k by {
                    if k != stored.key() {
                        let i = choose|i: int| 0 <= i < old_rows.len() && #[trigger] old_rows[i].key() == k;
                        assert(self.rows@[i] == old_rows[i]);
                    } else {
                        assert(self.rows@[old_rows.len() as int] == stored);
                    }
                }
                Ok(stored)
            },
        }
    }

    /// Applies `changeset` to the row with key `id` and returns the row as
    /// updated, or not found; other rows are left as they were.
    pub fn update(&mut self, id: i64, changeset: R::Changeset) -> (r: Result<R, Error>)
        requires
            old(self).wf(),
        ensures
            final(self).wf(),
            final(self)@ == after_update(old(self)@, id, changeset),
            r == update_result(old(self)@, id, changeset),
    {
        match self.position(id) {
            None => Err(Error::NotFound),
            Some(i) => {
                let mut row = self.rows[i].duplicate();
                row.apply(changeset);
                let updated = row.duplicate();
                let ghost old_rows = self.rows@;
                let ghost old_model = self.model@;
                self.rows.set(i, row);
                self.model = Ghost(self.model@.insert(id, updated));
                assert forall|k: i64| #[trigger] self.model@.contains_key(k) implies exists|j: int|
                    0 <= j < self.rows@.len() && #[trigger] self.rows@[j].key() == k by {
                    if k == id {
                        assert(self.rows@[i as int].key() == k);
                    } else {
                        assert(old_model.contains_key(k));
                        let j = choose|j: int| 0 <= j < old_rows.len() && #[trigger] old_rows[j].key() == k;
                        assert(self.rows@[j] == old_rows[j]);
                        assert(self.rows@[j].key() == k);
                    }
                }
                Ok(updated)
            },
        }
    }

    /// Removes the row with key `id`; not found when there is none.
    pub fn delete(&mut self, id: i64) -> (r: Result<(), Error>)
        requires
            old(self).wf(),
        ensures
            final(self).wf(),
            final(self)@ == old(self)@.remove(id),
            r == delete_result(old(self)@, id),
    {
        let count: usize = match self.position(id) {
            None => 0,
            Some(i) => {
                let ghost old_rows = self.rows@;
                let ghost old_model = self.model@;
                self.rows.remove(i);
                self.model = Ghost(self.model@.remove(id));
                assert forall|a: int, b: int|
                    0 <= a < b < self.rows@.len() implies #[trigger] self.rows@[a].key()
                    != #[trigger] self.rows@[b].key() by {
                    let oa = if a < i { a } else { a + 1 };
                    let ob = if b < i { b } else { b + 1 };
                    assert(self.rows@[a] == old_rows[oa]);
                    assert(self.rows@[b] == old_rows[ob]);
                }
                assert forall|a: int| 0 <= a < self.rows@.len() implies self.model@.contains_key(
                    #[trigger] self.rows@[a].key(),
                ) && self.model@[self.rows@[a].key()] == self.rows@[a] by {
                    let oa = if a < i { a } else { a + 1 };
                    assert(self.rows@[a] == old_rows[oa]);
                    assert(old_rows[oa].key() != old_rows[i as int].key());
                }
                assert forall|k: i64| #[trigger] self.model@.contains_key(k) implies exists|j: int|
                    0 <= j < self.rows@.len() && #[trigger] self.rows@[j].key() == k by {
                    let j = choose|j: int| 0 <= j < old_rows.len() && #[trigger] old_rows[j].key() == k;
                    assert(old_model.contains_key(k));
                    assert(k != id);
                    if j < i {
                        assert(self.rows@[j] == old_rows[j]);
                        assert(self.rows@[j].key() == k);
                    } else {
                        assert(j != i);
                        assert(self.rows@[j - 1] == old_rows[j]);
                        assert(self.rows@[j - 1].key() == k);
                    }
                }
                1
            },
        };
        proof {
            if count == 0 {
                assert(self.model@ =~= self.model@.remove(id));
            }
        }
        deletion_outcome(count)
    }
}

} // verus!
