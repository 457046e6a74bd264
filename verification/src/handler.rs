//! The transport boundary: decode a request's fields into domain
//! requests, invoke the service, and encode every outcome into a
//! reply, exactly once.
//!
//! The functions here are transport-agnostic: the surrounding HTTP
//! program hands them the already-decoded path id and body fields and
//! serialises the [`ApiResponse`] they return.  Identifier and
//! timestamp generation — the two collaborator calls a creation needs
//! — live behind trusted wrappers at the top of the module, and
//! [`create_student_with`] carries the verified logic for every value
//! they could hand back.

use vstd::prelude::*;
use vstd::string::StringExecFns;
use crate::domain::NewStudent;
use crate::domain::NewStudentView;
use crate::domain::UpdateStudent;
use crate::domain::UpdateStudentView;
use crate::domain::contains_id;
use crate::domain::created_row;
use crate::domain::idx_of_id;
use crate::domain::updated_row;
use crate::domain::views_of;
use crate::response::ApiResponse;
use crate::response::ResponseBody;
use crate::response::STATUS_BAD_REQUEST;
use crate::response::STATUS_INTERNAL_SERVER_ERROR;
use crate::response::STATUS_NOT_FOUND;
use crate::response::STATUS_NO_CONTENT;
use crate::response::STATUS_OK;
use crate::service::StudentService;
use crate::validation::len_ok;
use crate::validation::violations_for;
use crate::validation::violations_text;

verus! {

/// Body of a creation request: the mutable attributes.
#[derive(Debug, PartialEq)]
pub struct CreateStudentRequest {
    pub name: String,
    pub last_name: String,
}

/// Body of an update request: the mutable attributes.
#[derive(Debug, PartialEq)]
pub struct UpdateStudentRequest {
    pub name: String,
    pub last_name: String,
}

/// Ghost image of a request body.
pub struct RequestView {
    pub name: Seq<char>,
    pub last_name: Seq<char>,
}

impl View for CreateStudentRequest {
    type V = RequestView;

    open spec fn view(&self) -> RequestView {
        RequestView { name: self.name@, last_name: self.last_name@ }
    }
}

impl View for UpdateStudentRequest {
    type V = RequestView;

    open spec fn view(&self) -> RequestView {
        RequestView { name: self.name@, last_name: self.last_name@ }
    }
}

/// A request body satisfies every attribute rule.
pub open spec fn request_valid(rv: RequestView) -> bool {
    len_ok(rv.name) && len_ok(rv.last_name)
}

/// The creation a request body turns into, once the collaborators
/// supplied an id and a timestamp.
pub open spec fn requested_new_student(
    rv: RequestView,
    id: Seq<char>,
    created_on: Seq<char>,
) -> NewStudentView {
    NewStudentView { id: id, name: rv.name, last_name: rv.last_name, created_on: created_on }
}

/// The mutation a request body turns into.
pub open spec fn requested_update(rv: RequestView) -> UpdateStudentView {
    UpdateStudentView { name: rv.name, last_name: rv.last_name }
}

/// Relies on `uuid::Uuid::new_v4` and its `Display`: a fresh random
/// version-4 identifier, rendered in the hyphenated form of exactly
/// 36 characters.
#[verifier::external_body]
fn fresh_id() -> (r: String)
    ensures
        r@.len() == 36,
{
    uuid::Uuid::new_v4().to_string()
}

/// Relies on `chrono::offset::Utc::now` and `NaiveDateTime`'s
/// `Display`: the current time, rendered as `YYYY-MM-DD HH:MM:SS`
/// with optional fractional seconds — never fewer than 19 characters.
#[verifier::external_body]
fn current_timestamp() -> (r: String)
    ensures
        r@.len() >= 19,
{
    chrono::offset::Utc::now().naive_utc().to_string()
}

/// List every record.  Always a success, with the full store content
/// wrapped in a list body — an empty store lists as an empty body,
/// never as an error.
pub fn list_students<S: StudentService>(service: &S) -> (r: ApiResponse)
    requires
        service.inv(),
    ensures
        r.status == STATUS_OK,
        r.body matches ResponseBody::StudentList(v) && views_of(v@) == service.rows(),
{
    match service.all() {
        Ok(students) => ApiResponse {
            status: STATUS_OK,
            body: ResponseBody::StudentList(students),
        },
        Err(e) => e.error_response(),
    }
}

/// Create a record from a request body and the two collaborator
/// values: deterministic in all of its inputs.
///
/// An invalid body is rejected before the store is touched; a fresh
/// id is persisted and echoed; a colliding id surfaces as an internal
/// error and leaves the store unchanged.
pub fn create_student_with<S: StudentService>(
    service: &mut S,
    req: &CreateStudentRequest,
    id: String,
    created_on: String,
) -> (r: ApiResponse)
    requires
        old(service).inv(),
    ensures
        final(service).inv(),
        !request_valid(req@) ==> (r.status == STATUS_BAD_REQUEST && (r.body
            matches ResponseBody::Error { message, error } && message@ == "Validation failed"@
            && error@ == violations_text(
            violations_for(len_ok(req@.name), len_ok(req@.last_name)),
        )) && final(service).rows() == old(service).rows()),
        request_valid(req@) && !contains_id(old(service).rows(), id@) ==> (r.status == STATUS_OK
            && (r.body matches ResponseBody::SingleStudent(s) && s@ == created_row(
            requested_new_student(req@, id@, created_on@),
            s@.mnr,
        ) && final(service).rows() == old(service).rows().push(s@))),
        request_valid(req@) && contains_id(old(service).rows(), id@) ==> (r.status
            == STATUS_INTERNAL_SERVER_ERROR && (r.body matches ResponseBody::Error {
            message,
            error,
        } && message@ == "Internal server error"@) && final(service).rows() == old(
            service,
        ).rows()),
{
    let new_student = NewStudent {
        id,
        name: req.name.clone(),
        last_name: req.last_name.clone(),
        created_on,
    };
    match service.create(&new_student) {
        Ok(s) => ApiResponse { status: STATUS_OK, body: ResponseBody::SingleStudent(s) },
        Err(e) => e.error_response(),
    }
}

/// Create a record: synthesise a fresh identifier and the current
/// timestamp, then persist the request's attributes.
///
/// An invalid body is rejected with the aggregated violations and the
/// store untouched.  A valid body is persisted under the generated id
/// — unless that id collides with an existing row, which surfaces as
/// an internal error with the store untouched.
pub fn create_student<S: StudentService>(service: &mut S, req: &CreateStudentRequest) -> (r:
    ApiResponse)
    requires
        old(service).inv(),
    ensures
        final(service).inv(),
        !request_valid(req@) ==> (r.status == STATUS_BAD_REQUEST && (r.body
            matches ResponseBody::Error { message, error } && message@ == "Validation failed"@
            && error@ == violations_text(
            violations_for(len_ok(req@.name), len_ok(req@.last_name)),
        )) && final(service).rows() == old(service).rows()),
        request_valid(req@) ==> ((r.status == STATUS_OK && (r.body
            matches ResponseBody::SingleStudent(s) && s@.name == req@.name && s@.last_name
            == req@.last_name && s@.id.len() == 36 && s@.created_on.len() >= 19 && !contains_id(
            old(service).rows(),
            s@.id,
        ) && final(service).rows() == old(service).rows().push(s@))) || (r.status
            == STATUS_INTERNAL_SERVER_ERROR && (r.body matches ResponseBody::Error {
            message,
            error,
        } && message@ == "Internal server error"@) && final(service).rows() == old(
            service,
        ).rows())),
{
    let id = fresh_id();
    let created_on = current_timestamp();
    create_student_with(service, req, id, created_on)
}

/// Update the record addressed by the path id with the request's
/// attributes.
///
/// An invalid body is rejected before the store is touched; an
/// unknown id answers with the generic not-found body; otherwise the
/// mutable attributes are replaced and the updated record echoed.
pub fn put_students<S: StudentService>(
    service: &mut S,
    id: &str,
    req: &UpdateStudentRequest,
) -> (r: ApiResponse)
    requires
        old(service).inv(),
    ensures
        final(service).inv(),
        !request_valid(req@) ==> (r.status == STATUS_BAD_REQUEST && (r.body
            matches ResponseBody::Error { message, error } && message@ == "Validation failed"@
            && error@ == violations_text(
            violations_for(len_ok(req@.name), len_ok(req@.last_name)),
        )) && final(service).rows() == old(service).rows()),
        request_valid(req@) && contains_id(old(service).rows(), id@) ==> (r.status == STATUS_OK
            && (r.body matches ResponseBody::SingleStudent(s) && s@ == updated_row(
            old(service).rows()[idx_of_id(old(service).rows(), id@)],
            requested_update(req@),
        ) && final(service).rows() == old(service).rows().update(
            idx_of_id(old(service).rows(), id@),
            s@,
        ))),
        request_valid(req@) && !contains_id(old(service).rows(), id@) ==> (r.status
            == STATUS_NOT_FOUND && (r.body matches ResponseBody::Message { message } && message@
            == "Not Found"@) && final(service).rows() == old(service).rows()),
{
    let update = UpdateStudent { name: req.name.clone(), last_name: req.last_name.clone() };
    match service.update(id, &update) {
        Ok(s) => ApiResponse { status: STATUS_OK, body: ResponseBody::SingleStudent(s) },
        Err(e) => e.error_response(),
    }
}

/// Delete the record addressed by the path id: an empty no-content
/// reply on success, the generic not-found body on an unknown id.
pub fn delete_student<S: StudentService>(service: &mut S, id: &str) -> (r: ApiResponse)
    requires
        old(service).inv(),
    ensures
        final(service).inv(),
        contains_id(old(service).rows(), id@) ==> (r.status == STATUS_NO_CONTENT && (r.body
            matches ResponseBody::Empty) && final(service).rows() == old(service).rows().remove(
            idx_of_id(old(service).rows(), id@),
        )),
        !contains_id(old(service).rows(), id@) ==> (r.status == STATUS_NOT_FOUND && (r.body
            matches ResponseBody::Message { message } && message@ == "Not Found"@)
            && final(service).rows() == old(service).rows()),
{
    match service.delete(id) {
        Ok(_) => ApiResponse { status: STATUS_NO_CONTENT, body: ResponseBody::Empty },
        Err(e) => e.error_response(),
    }
}

/// The reply for any request that matches no route: the same status
/// family as a missing record, on a code path of its own.
pub fn not_found() -> (r: ApiResponse)
    ensures
        r.status == STATUS_NOT_FOUND,
        r.body matches ResponseBody::Message { message } && message@ == "not found"@,
{
    ApiResponse {
        status: STATUS_NOT_FOUND,
        body: ResponseBody::Message { message: String::from_str("not found") },
    }
}

} // verus!
