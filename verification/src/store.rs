//! The persistence layer: the store interface and a verified
//! in-memory engine.
//!
//! [`StudentRepository`] is the interface the service is written
//! against; a store is described by the sequence of rows it holds
//! ([`StudentRepository::rows`]) and a well-formedness invariant that
//! keeps ids unique.  [`MemoryStudentRepository`] is the in-memory
//! implementation, proved against the interface's contracts; a
//! storage-backed implementation can be substituted outside the
//! verified library.
//!
//! The proof functions at the end state the cross-operation laws of
//! the row model: a created row is found again under its id, and a
//! deleted id stays gone.

use vstd::prelude::*;
use vstd::pervasive::VecAdditionalExecFns;
use vstd::string::StringExecFns;
use crate::domain::NewStudent;
use crate::domain::NewStudentView;
use crate::domain::Student;
use crate::domain::StudentView;
use crate::domain::UpdateStudent;
use crate::domain::contains_id;
use crate::domain::created_row;
use crate::domain::idx_of_id;
use crate::domain::unique_ids;
use crate::domain::updated_row;
use crate::domain::views_of;
use crate::error::DbError;

verus! {

/// Relies on `str`'s `PartialEq`: two string slices are equal exactly
/// when their character sequences are.
#[verifier::external_body]
fn str_eq(a: &str, b: &str) -> (r: bool)
    ensures
        r == (a@ == b@),
{
    a == b
}

/// Durable CRUD over the student table, keyed by id.
///
/// Every operation targeting an id reports [`DbError::NotFound`]
/// exactly when no row carries that id; a creation fails, with an
/// opaque storage error, exactly when it would violate id uniqueness.
pub trait StudentRepository: Sized {
    /// The rows this store holds, in storage order.
    spec fn rows(&self) -> Seq<StudentView>;

    /// Well-formedness of the store; every operation preserves it.
    spec fn inv(&self) -> bool;

    /// A well-formed store never holds two rows with one id.
    proof fn inv_implies_unique_ids(&self)
        requires
            self.inv(),
        ensures
            unique_ids(self.rows()),
    ;

    /// Every row; an empty store yields the empty sequence, never an
    /// error.
    fn all(&self) -> (r: Result<Vec<Student>, DbError>)
        requires
            self.inv(),
        ensures
            r matches Ok(v) && views_of(v@) == self.rows(),
    ;

    /// The row with the given id.
    fn get(&self, id: &str) -> (r: Result<Student, DbError>)
        requires
            self.inv(),
        ensures
            contains_id(self.rows(), id@) ==> (r matches Ok(s) && s@ == self.rows()[idx_of_id(
                self.rows(),
                id@,
            )]),
            !contains_id(self.rows(), id@) ==> (r matches Err(DbError::NotFound)),
    ;

    /// Insert a fully-formed new row; the store assigns `mnr`.
    fn create(&mut self, student: &NewStudent) -> (r: Result<Student, DbError>)
        requires
            old(self).inv(),
        ensures
            final(self).inv(),
            !contains_id(old(self).rows(), student@.id) ==> (r matches Ok(s) && s@ == created_row(
                student@,
                s@.mnr,
            ) && final(self).rows() == old(self).rows().push(s@)),
            contains_id(old(self).rows(), student@.id) ==> (r matches Err(DbError::Storage(_))
                && final(self).rows() == old(self).rows()),
    ;

    /// Replace the mutable attributes of the row with the given id.
    fn update(&mut self, id: &str, student: &UpdateStudent) -> (r: Result<Student, DbError>)
        requires
            old(self).inv(),
        ensures
            final(self).inv(),
            contains_id(old(self).rows(), id@) ==> (r matches Ok(s) && s@ == updated_row(
                old(self).rows()[idx_of_id(old(self).rows(), id@)],
                student@,
            ) && final(self).rows() == old(self).rows().update(
                idx_of_id(old(self).rows(), id@),
                s@,
            )),
            !contains_id(old(self).rows(), id@) ==> (r matches Err(DbError::NotFound)
                && final(self).rows() == old(self).rows()),
    ;

    /// Remove the row with the given id and hand it back as it was.
    fn delete(&mut self, id: &str) -> (r: Result<Student, DbError>)
        requires
            old(self).inv(),
        ensures
            final(self).inv(),
            contains_id(old(self).rows(), id@) ==> (r matches Ok(s) && s@ == old(self).rows()[
                idx_of_id(old(self).rows(), id@)] && final(self).rows() == old(self).rows().remove(
                idx_of_id(old(self).rows(), id@),
            )),
            !contains_id(old(self).rows(), id@) ==> (r matches Err(DbError::NotFound)
                && final(self).rows() == old(self).rows()),
    ;
}

/// An in-memory store: rows in a vector, ids kept unique, and a
/// counter handing out matriculation numbers.
pub struct MemoryStudentRepository {
    students: Vec<Student>,
    next_mnr: i64,
}

impl MemoryStudentRepository {
    /// An empty store.
    pub fn new() -> (r: Self)
        ensures
            r.inv(),
            r.rows() == Seq::<StudentView>::empty(),
    {
        let r = MemoryStudentRepository { students: Vec::new(), next_mnr: 1 };
        proof {
            assert(r.rows() =~= Seq::<StudentView>::empty());
        }
        r
    }

    /// Index of the row with the given id, if any.
    fn position_of(&self, id: &str) -> (r: Option<usize>)
        requires
            self.inv(),
        ensures
            match r {
                Some(i) => contains_id(self.rows(), id@) && i < self.rows().len() && i as int
                    == idx_of_id(self.rows(), id@),
                None => !contains_id(self.rows(), id@),
            },
    {
        let mut j: usize = 0;
        while j < self.students.len()
            invariant
                self.inv(),
                j <= self.students@.len(),
                forall|k: int| 0 <= k < j ==> self.rows()[k].id != id@,
            decreases self.students@.len() - j,
        {
            if str_eq(self.students[j].id.as_str(), id) {
                proof {
                    let rows = self.rows();
                    assert(rows[j as int] == self.students@[j as int]@);
                    assert(rows[j as int].id == id@);
                    assert(contains_id(rows, id@));
                    let w = idx_of_id(rows, id@);
                    assert(0 <= w < rows.len() && rows[w].id == id@);
                    if w != j as int {
                        assert(false);
                    }
                }
                return Some(j);
            }
            j += 1;
        }
        proof {
            assert(!contains_id(self.rows(), id@));
        }
        None
    }
}

impl StudentRepository for MemoryStudentRepository {
    closed spec fn rows(&self) -> Seq<StudentView> {
        views_of(self.students@)
    }

    closed spec fn inv(&self) -> bool {
        unique_ids(self.rows()) && self.next_mnr >= 1
    }

    proof fn inv_implies_unique_ids(&self) {
    }

    fn all(&self) -> (r: Result<Vec<Student>, DbError>) {
        let mut out: Vec<Student> = Vec::new();
        let mut i: usize = 0;
        while i < self.students.len()
            invariant
                i <= self.students@.len(),
                out@.len() == i,
                forall|k: int| 0 <= k < i ==> out@[k] == self.students@[k],
            decreases self.students@.len() - i,
        {
            out.push(self.students[i].clone());
            i += 1;
        }
        proof {
            assert(views_of(out@) =~= self.rows());
        }
        Ok(out)
    }

    fn get(&self, id: &str) -> (r: Result<Student, DbError>) {
        match self.position_of(id) {
            Some(i) => Ok(self.students[i].clone()),
            None => Err(DbError::NotFound),
        }
    }

    fn create(&mut self, student: &NewStudent) -> (r: Result<Student, DbError>) {
        match self.position_of(student.id.as_str()) {
            Some(_) => Err(DbError::Storage(String::from_str("id already exists"))),
            None => {
                let mnr: i64 = self.next_mnr;
                if self.next_mnr < i64::MAX {
                    self.next_mnr = self.next_mnr + 1;
                }
                let row = Student {
                    id: student.id.clone(),
                    mnr,
                    name: student.name.clone(),
                    last_name: student.last_name.clone(),
                    created_on: student.created_on.clone(),
                };
                let persisted = row.clone();
                proof {
                    let ghost rows = self.rows();
                    assert forall|k: int| 0 <= k < rows.len() implies rows[k].id != row@.id by {
                        assert(rows[k].id != student.id@);
                    }
                }
                self.students.push(row);
                proof {
                    assert(self.rows() =~= old(self).rows().push(persisted@));
                }
                Ok(persisted)
            },
        }
    }

    fn update(&mut self, id: &str, student: &UpdateStudent) -> (r: Result<Student, DbError>) {
        match self.position_of(id) {
            None => Err(DbError::NotFound),
            Some(i) => {
                let row = Student {
                    id: self.students[i].id.clone(),
                    mnr: self.students[i].mnr,
                    name: student.name.clone(),
                    last_name: student.last_name.clone(),
                    created_on: self.students[i].created_on.clone(),
                };
                let persisted = row.clone();
                self.students.set(i, row);
                proof {
                    let ghost rows = old(self).rows();
                    assert(persisted@ == updated_row(rows[i as int], student@));
                    assert(self.rows() =~= rows.update(i as int, persisted@));
                    assert forall|a: int, b: int|
                        0 <= a < b < self.rows().len() implies self.rows()[a].id
                        != self.rows()[b].id by {
                        assert(self.rows()[a].id == rows[a].id);
                        assert(self.rows()[b].id == rows[b].id);
                    }
                }
                Ok(persisted)
            },
        }
    }

    fn delete(&mut self, id: &str) -> (r: Result<Student, DbError>) {
        match self.position_of(id) {
            None => Err(DbError::NotFound),
            Some(i) => {
                let removed = self.students.remove(i);
                proof {
                    let ghost rows = old(self).rows();
                    assert(removed@ == rows[i as int]);
                    assert(self.rows() =~= rows.remove(i as int));
                    assert forall|a: int, b: int|
                        0 <= a < b < self.rows().len() implies self.rows()[a].id
                        != self.rows()[b].id by {
                        if a < i as int {
                            assert(self.rows()[a] == rows[a]);
                        } else {
                            assert(self.rows()[a] == rows[a + 1]);
                        }
                        if b < i as int {
                            assert(self.rows()[b] == rows[b]);
                        } else {
                            assert(self.rows()[b] == rows[b + 1]);
                        }
                    }
                }
                Ok(removed)
            },
        }
    }
}

/// Law: a row just created is exactly the one a lookup of its id then
/// finds.  Creating under a fresh id appends the row, and the id leads
/// back to it.
pub proof fn lemma_create_then_get(rows: Seq<StudentView>, ns: NewStudentView, mnr: int)
    requires
        unique_ids(rows),
        !contains_id(rows, ns.id),
    ensures
        contains_id(rows.push(created_row(ns, mnr)), ns.id),
        rows.push(created_row(ns, mnr))[idx_of_id(rows.push(created_row(ns, mnr)), ns.id)]
            == created_row(ns, mnr),
{
    let grown = rows.push(created_row(ns, mnr));
    assert(grown[rows.len() as int] == created_row(ns, mnr));
    assert(contains_id(grown, ns.id));
    let w = idx_of_id(grown, ns.id);
    assert(0 <= w < grown.len() && grown[w].id == ns.id);
    if w < rows.len() {
        assert(rows[w].id == ns.id);
        assert(false);
    }
}

/// Law: listing is idempotent.  `all` takes its store immutably and
/// pins its result to the store's rows, so any two listings with no
/// intervening mutation carry the same records.
pub proof fn lemma_all_idempotent(
    rows: Seq<StudentView>,
    first: Seq<Student>,
    second: Seq<Student>,
)
    requires
        views_of(first) == rows,
        views_of(second) == rows,
    ensures
        views_of(first) == views_of(second),
{
}

/// Law: a deleted id stays gone.  Removing the row with an id leaves a
/// sequence in which no row carries that id, so a lookup must report
/// the record missing.
pub proof fn lemma_delete_then_get(rows: Seq<StudentView>, id: Seq<char>)
    requires
        unique_ids(rows),
        contains_id(rows, id),
    ensures
        !contains_id(rows.remove(idx_of_id(rows, id)), id),
{
    let i = idx_of_id(rows, id);
    assert(0 <= i < rows.len() && rows[i].id == id);
    let rest = rows.remove(i);
    assert forall|k: int| 0 <= k < rest.len() implies rest[k].id != id by {
        if k < i {
            assert(rest[k] == rows[k]);
        } else {
            assert(rest[k] == rows[k + 1]);
        }
    }
}

} // verus!
