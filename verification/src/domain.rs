//! Record types of the student resource and their mathematical models.
//!
//! A [`Student`] is the persisted record: an immutable `id` and
//! `created_on`, the mutable attributes `name` and `last_name`, and a
//! storage-assigned matriculation number `mnr`.  [`NewStudent`] carries
//! everything a creation needs (the caller supplies `id` and
//! `created_on`); [`UpdateStudent`] carries only the mutable attributes.
//!
//! Contracts throughout the crate speak about these records through
//! their views: ghost images whose string fields are `Seq<char>`.  A
//! store's content is a `Seq<StudentView>`, and the spec functions at
//! the bottom of this module describe how each CRUD operation acts on
//! such a sequence.

use vstd::prelude::*;

verus! {

/// A persisted student record.
#[derive(Debug, PartialEq, Eq)]
pub struct Student {
    /// Unique identity, assigned at creation and never reassigned.
    pub id: String,
    /// Matriculation number, assigned by the storage engine.
    pub mnr: i64,
    /// First name.
    pub name: String,
    /// Last name.
    pub last_name: String,
    /// Creation timestamp, set once at creation.
    pub created_on: String,
}

/// A creation request: everything a [`Student`] needs except the
/// storage-assigned `mnr`.
#[derive(Debug, PartialEq)]
pub struct NewStudent {
    pub id: String,
    pub name: String,
    pub last_name: String,
    pub created_on: String,
}

/// A mutation request: only the mutable attributes.
#[derive(Debug, PartialEq)]
pub struct UpdateStudent {
    pub name: String,
    pub last_name: String,
}

/// Ghost image of a [`Student`].
pub struct StudentView {
    pub id: Seq<char>,
    pub mnr: int,
    pub name: Seq<char>,
    pub last_name: Seq<char>,
    pub created_on: Seq<char>,
}

/// Ghost image of a [`NewStudent`].
pub struct NewStudentView {
    pub id: Seq<char>,
    pub name: Seq<char>,
    pub last_name: Seq<char>,
    pub created_on: Seq<char>,
}

/// Ghost image of an [`UpdateStudent`].
pub struct UpdateStudentView {
    pub name: Seq<char>,
    pub last_name: Seq<char>,
}

impl View for Student {
    type V = StudentView;

    open spec fn view(&self) -> StudentView {
        StudentView {
            id: self.id@,
            mnr: self.mnr as int,
            name: self.name@,
            last_name: self.last_name@,
            created_on: self.created_on@,
        }
    }
}

impl View for NewStudent {
    type V = NewStudentView;

    open spec fn view(&self) -> NewStudentView {
        NewStudentView {
            id: self.id@,
            name: self.name@,
            last_name: self.last_name@,
            created_on: self.created_on@,
        }
    }
}

impl View for UpdateStudent {
    type V = UpdateStudentView;

    open spec fn view(&self) -> UpdateStudentView {
        UpdateStudentView { name: self.name@, last_name: self.last_name@ }
    }
}

impl Clone for Student {
    fn clone(&self) -> (res: Self)
        ensures
            res == *self,
    {
        Student {
            id: self.id.clone(),
            mnr: self.mnr,
            name: self.name.clone(),
            last_name: self.last_name.clone(),
            created_on: self.created_on.clone(),
        }
    }
}

impl Clone for NewStudent {
    fn clone(&self) -> (res: Self)
        ensures
            res == *self,
    {
        NewStudent {
            id: self.id.clone(),
            name: self.name.clone(),
            last_name: self.last_name.clone(),
            created_on: self.created_on.clone(),
        }
    }
}

impl Clone for UpdateStudent {
    fn clone(&self) -> (res: Self)
        ensures
            res == *self,
    {
        UpdateStudent { name: self.name.clone(), last_name: self.last_name.clone() }
    }
}

/// The views of a sequence of records.
pub open spec fn views_of(v: Seq<Student>) -> Seq<StudentView> {
    v.map_values(|s: Student| s@)
}

/// No two rows share an id.
pub open spec fn unique_ids(rows: Seq<StudentView>) -> bool {
    forall|i: int, j: int| 0 <= i < j < rows.len() ==> rows[i].id != rows[j].id
}

/// Some row carries the given id.
pub open spec fn contains_id(rows: Seq<StudentView>, id: Seq<char>) -> bool {
    exists|i: int| 0 <= i < rows.len() && rows[i].id == id
}

/// Index of the row carrying the given id; meaningful when
/// `contains_id(rows, id)` holds, and unique under `unique_ids(rows)`.
pub open spec fn idx_of_id(rows: Seq<StudentView>, id: Seq<char>) -> int {
    choose|i: int| 0 <= i < rows.len() && rows[i].id == id
}

/// The row that a creation request persists, once the storage engine
/// has assigned `mnr`.
pub open spec fn created_row(ns: NewStudentView, mnr: int) -> StudentView {
    StudentView {
        id: ns.id,
        mnr: mnr,
        name: ns.name,
        last_name: ns.last_name,
        created_on: ns.created_on,
    }
}

/// The row after an update: mutable attributes replaced, identity,
/// `mnr` and creation timestamp untouched.
pub open spec fn updated_row(row: StudentView, up: UpdateStudentView) -> StudentView {
    StudentView {
        id: row.id,
        mnr: row.mnr,
        name: up.name,
        last_name: up.last_name,
        created_on: row.created_on,
    }
}

} // verus!
