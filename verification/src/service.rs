//! The validation and orchestration layer.
//!
//! A service enforces every field rule before any mutation reaches its
//! store, and is the sole caller of the store.  It never re-wraps or
//! discards an error kind: it adds [`ApiError::ValidationError`] in
//! front of mutations and otherwise carries the store's kind through
//! unchanged.

use vstd::prelude::*;
use crate::domain::NewStudent;
use crate::domain::Student;
use crate::domain::StudentView;
use crate::domain::UpdateStudent;
use crate::domain::contains_id;
use crate::domain::created_row;
use crate::domain::idx_of_id;
use crate::domain::unique_ids;
use crate::domain::updated_row;
use crate::domain::views_of;
use crate::error::ApiError;
use crate::error::DbError;
use crate::store::StudentRepository;
use crate::validation::len_ok;
use crate::validation::new_student_valid;
use crate::validation::update_student_valid;
use crate::validation::validate_new_student;
use crate::validation::validate_update_student;
use crate::validation::violations_for;

verus! {

/// The service interface the transport layer is written against.
///
/// The contracts state the cross-layer protocol: reads pass through,
/// mutations are validated first — collecting every violation — and a
/// store outcome is propagated with its kind intact.
pub trait StudentService: Sized {
    /// The rows of the underlying store.
    spec fn rows(&self) -> Seq<StudentView>;

    /// Well-formedness, inherited from the underlying store.
    spec fn inv(&self) -> bool;

    /// A well-formed service never sees two rows with one id.
    proof fn inv_implies_unique_ids(&self)
        requires
            self.inv(),
        ensures
            unique_ids(self.rows()),
    ;

    /// Every record; a pass-through with no validation.
    fn all(&self) -> (r: Result<Vec<Student>, ApiError>)
        requires
            self.inv(),
        ensures
            r matches Ok(v) && views_of(v@) == self.rows(),
    ;

    /// One record by id; a pass-through that propagates `NotFound`
    /// unchanged.
    fn get(&self, id: &str) -> (r: Result<Student, ApiError>)
        requires
            self.inv(),
        ensures
            contains_id(self.rows(), id@) ==> (r matches Ok(s) && s@ == self.rows()[idx_of_id(
                self.rows(),
                id@,
            )]),
            !contains_id(self.rows(), id@) ==> (r matches Err(ApiError::DbError(
                DbError::NotFound,
            ))),
    ;

    /// Validate a creation request, then delegate to the store.  On a
    /// violated rule the store is never invoked.
    fn create(&mut self, student: &NewStudent) -> (r: Result<Student, ApiError>)
        requires
            old(self).inv(),
        ensures
            final(self).inv(),
            !new_student_valid(student@) ==> (r matches Err(ApiError::ValidationError(v)) && v@
                == violations_for(len_ok(student@.name), len_ok(student@.last_name))
                && final(self).rows() == old(self).rows()),
            new_student_valid(student@) && !contains_id(old(self).rows(), student@.id) ==> (r
                matches Ok(s) && s@ == created_row(student@, s@.mnr) && final(self).rows() == old(
                self,
            ).rows().push(s@)),
            new_student_valid(student@) && contains_id(old(self).rows(), student@.id) ==> (r
                matches Err(ApiError::DbError(DbError::Storage(_))) && final(self).rows() == old(
                self,
            ).rows()),
    ;

    /// Validate a mutation request, then delegate to the store,
    /// propagating `NotFound` unchanged.  On a violated rule the store
    /// is never invoked.
    fn update(&mut self, id: &str, student: &UpdateStudent) -> (r: Result<Student, ApiError>)
        requires
            old(self).inv(),
        ensures
            final(self).inv(),
            !update_student_valid(student@) ==> (r matches Err(ApiError::ValidationError(v)) && v@
                == violations_for(len_ok(student@.name), len_ok(student@.last_name))
                && final(self).rows() == old(self).rows()),
            update_student_valid(student@) && contains_id(old(self).rows(), id@) ==> (r matches Ok(
                s,
            ) && s@ == updated_row(old(self).rows()[idx_of_id(old(self).rows(), id@)], student@)
                && final(self).rows() == old(self).rows().update(
                idx_of_id(old(self).rows(), id@),
                s@,
            )),
            update_student_valid(student@) && !contains_id(old(self).rows(), id@) ==> (r matches
                Err(ApiError::DbError(DbError::NotFound)) && final(self).rows() == old(
                self,
            ).rows()),
    ;

    /// Remove a record by id; a pass-through that propagates
    /// `NotFound` unchanged.
    fn delete(&mut self, id: &str) -> (r: Result<Student, ApiError>)
        requires
            old(self).inv(),
        ensures
            final(self).inv(),
            contains_id(old(self).rows(), id@) ==> (r matches Ok(s) && s@ == old(self).rows()[
                idx_of_id(old(self).rows(), id@)] && final(self).rows() == old(self).rows().remove(
                idx_of_id(old(self).rows(), id@),
            )),
            !contains_id(old(self).rows(), id@) ==> (r matches Err(ApiError::DbError(
                DbError::NotFound,
            )) && final(self).rows() == old(self).rows()),
    ;
}

/// The one production service: validation in front of an injected
/// store.
pub struct StudentServiceImpl<R: StudentRepository> {
    repository: R,
}

impl<R: StudentRepository> StudentServiceImpl<R> {
    /// Wrap the given store; the service holds no state of its own.
    pub fn new(repository: R) -> (r: Self)
        ensures
            r.inv() <==> repository.inv(),
            r.rows() == repository.rows(),
    {
        StudentServiceImpl { repository }
    }
}

impl<R: StudentRepository> StudentService for StudentServiceImpl<R> {
    closed spec fn rows(&self) -> Seq<StudentView> {
        self.repository.rows()
    }

    closed spec fn inv(&self) -> bool {
        self.repository.inv()
    }

    proof fn inv_implies_unique_ids(&self) {
        self.repository.inv_implies_unique_ids();
    }

    fn all(&self) -> (r: Result<Vec<Student>, ApiError>) {
        match self.repository.all() {
            Ok(v) => Ok(v),
            Err(e) => Err(ApiError::DbError(e)),
        }
    }

    fn get(&self, id: &str) -> (r: Result<Student, ApiError>) {
        match self.repository.get(id) {
            Ok(s) => Ok(s),
            Err(e) => Err(ApiError::DbError(e)),
        }
    }

    fn create(&mut self, student: &NewStudent) -> (r: Result<Student, ApiError>) {
        match validate_new_student(student) {
            Err(violations) => Err(ApiError::ValidationError(violations)),
            Ok(()) => match self.repository.create(student) {
                Ok(s) => Ok(s),
                Err(e) => Err(ApiError::DbError(e)),
            },
        }
    }

    fn update(&mut self, id: &str, student: &UpdateStudent) -> (r: Result<Student, ApiError>) {
        match validate_update_student(student) {
            Err(violations) => Err(ApiError::ValidationError(violations)),
            Ok(()) => match self.repository.update(id, student) {
                Ok(s) => Ok(s),
                Err(e) => Err(ApiError::DbError(e)),
            },
        }
    }

    fn delete(&mut self, id: &str) -> (r: Result<Student, ApiError>) {
        match self.repository.delete(id) {
            Ok(s) => Ok(s),
            Err(e) => Err(ApiError::DbError(e)),
        }
    }
}

} // verus!
