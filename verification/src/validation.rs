//! Field-level rules enforced before any mutation reaches a store.
//!
//! Every mutable attribute of a record must be non-empty and at most
//! [`MAX_ATTR_LEN`] characters long.  Validation never short-circuits:
//! it collects every violated rule, in field order, so that one round
//! trip gives the caller the complete picture.

use vstd::prelude::*;
use vstd::string::StrSliceExecFns;
use vstd::string::StringExecFns;
use crate::domain::NewStudent;
use crate::domain::NewStudentView;
use crate::domain::UpdateStudent;
use crate::domain::UpdateStudentView;

verus! {

/// Smallest admissible attribute length, in characters.
pub const MIN_ATTR_LEN: usize = 1;

/// Largest admissible attribute length, in characters.
pub const MAX_ATTR_LEN: usize = 200;

/// The attribute that a violation is about.
#[derive(Debug, Clone, Copy, PartialEq, Eq, Structural)]
pub enum StudentField {
    Name,
    LastName,
}

/// One violated rule: the named attribute failed the length rule.
#[derive(Debug, Clone, Copy, PartialEq, Eq, Structural)]
pub struct Violation {
    pub field: StudentField,
}

/// The length rule: at least [`MIN_ATTR_LEN`] and at most
/// [`MAX_ATTR_LEN`] characters.
pub open spec fn len_ok(s: Seq<char>) -> bool {
    MIN_ATTR_LEN <= s.len() <= MAX_ATTR_LEN
}

/// A creation request satisfies every attribute rule.
pub open spec fn new_student_valid(ns: NewStudentView) -> bool {
    len_ok(ns.name) && len_ok(ns.last_name)
}

/// A mutation request satisfies every attribute rule.
pub open spec fn update_student_valid(up: UpdateStudentView) -> bool {
    len_ok(up.name) && len_ok(up.last_name)
}

/// The violations collected for the two attribute checks, in field
/// order: `name` first, `last_name` second.
pub open spec fn violations_for(name_ok: bool, last_name_ok: bool) -> Seq<Violation> {
    let head =
        if name_ok {
            Seq::<Violation>::empty()
        } else {
            seq![Violation { field: StudentField::Name }]
        };
    if last_name_ok {
        head
    } else {
        head.push(Violation { field: StudentField::LastName })
    }
}

/// Whether an attribute value satisfies the length rule.
pub fn check_len(s: &str) -> (r: bool)
    ensures
        r == len_ok(s@),
{
    let n: usize = s.unicode_len();
    MIN_ATTR_LEN <= n && n <= MAX_ATTR_LEN
}

/// Check every attribute of a creation request, collecting all
/// violations rather than stopping at the first.
pub fn validate_new_student(ns: &NewStudent) -> (r: Result<(), Vec<Violation>>)
    ensures
        r is Ok <==> new_student_valid(ns@),
        r matches Err(v) ==> v@ == violations_for(len_ok(ns@.name), len_ok(ns@.last_name)),
{
    collect_violations(check_len(ns.name.as_str()), check_len(ns.last_name.as_str()))
}

/// Check every attribute of a mutation request, collecting all
/// violations rather than stopping at the first.
pub fn validate_update_student(up: &UpdateStudent) -> (r: Result<(), Vec<Violation>>)
    ensures
        r is Ok <==> update_student_valid(up@),
        r matches Err(v) ==> v@ == violations_for(len_ok(up@.name), len_ok(up@.last_name)),
{
    collect_violations(check_len(up.name.as_str()), check_len(up.last_name.as_str()))
}

/// Turn the two attribute checks into an aggregated outcome.
fn collect_violations(name_ok: bool, last_name_ok: bool) -> (r: Result<(), Vec<Violation>>)
    ensures
        r is Ok <==> (name_ok && last_name_ok),
        r matches Err(v) ==> v@ == violations_for(name_ok, last_name_ok),
{
    if name_ok && last_name_ok {
        Ok(())
    } else {
        let mut v: Vec<Violation> = Vec::new();
        if !name_ok {
            v.push(Violation { field: StudentField::Name });
        }
        if !last_name_ok {
            v.push(Violation { field: StudentField::LastName });
        }
        proof {
            assert(v@ =~= violations_for(name_ok, last_name_ok));
        }
        Err(v)
    }
}

/// What one violation reads as.
pub open spec fn violation_text(v: Violation) -> Seq<char> {
    match v.field {
        StudentField::Name => "name: length must be between 1 and 200"@,
        StudentField::LastName => "last_name: length must be between 1 and 200"@,
    }
}

/// What a list of violations reads as: the single texts joined with
/// a comma.
pub open spec fn violations_text(vs: Seq<Violation>) -> Seq<char>
    decreases vs.len(),
{
    if vs.len() == 0 {
        Seq::<char>::empty()
    } else if vs.len() == 1 {
        violation_text(vs[0])
    } else {
        violation_text(vs[0]) + ", "@ + violations_text(vs.drop_first())
    }
}

/// Appending one violation appends a separator and its text.
proof fn lemma_violations_text_push(vs: Seq<Violation>, v: Violation)
    requires
        vs.len() >= 1,
    ensures
        violations_text(vs.push(v)) == violations_text(vs) + ", "@ + violation_text(v),
    decreases vs.len(),
{
    if vs.len() == 1 {
        assert(vs.push(v).drop_first() =~= seq![v]);
        assert(violations_text(seq![v]) == violation_text(v));
        assert(vs.push(v)[0] == vs[0]);
    } else {
        let d = vs.drop_first();
        lemma_violations_text_push(d, v);
        assert(vs.push(v).drop_first() =~= d.push(v));
        assert(vs.push(v)[0] == vs[0]);
        assert(violations_text(vs.push(v)) == violation_text(vs[0]) + ", "@ + violations_text(
            d.push(v),
        ));
        assert(violations_text(vs) == violation_text(vs[0]) + ", "@ + violations_text(d));
        assert(violation_text(vs[0]) + ", "@ + (violations_text(d) + ", "@ + violation_text(v))
            =~= violation_text(vs[0]) + ", "@ + violations_text(d) + ", "@ + violation_text(v));
    }
}

/// Render one violation.
pub fn violation_message(v: &Violation) -> (r: String)
    ensures
        r@ == violation_text(*v),
{
    match v.field {
        StudentField::Name => String::from_str("name: length must be between 1 and 200"),
        StudentField::LastName => String::from_str("last_name: length must be between 1 and 200"),
    }
}

/// Render a list of violations as one comma-separated text.
pub fn violations_message(vs: &Vec<Violation>) -> (r: String)
    ensures
        r@ == violations_text(vs@),
{
    let mut out = String::new();
    let mut i: usize = 0;
    while i < vs.len()
        invariant
            i <= vs@.len(),
            out@ == violations_text(vs@.subrange(0, i as int)),
        decreases vs@.len() - i,
    {
        if i > 0 {
            out.append(", ");
        }
        let m = violation_message(&vs[i]);
        out.append(m.as_str());
        proof {
            let pre = vs@.subrange(0, i as int);
            assert(vs@.subrange(0, i + 1 as int) =~= pre.push(vs@[i as int]));
            if i == 0 {
                assert(pre.push(vs@[0]) =~= seq![vs@[0]]);
            } else {
                lemma_violations_text_push(pre, vs@[i as int]);
                assert(out@ =~= violations_text(pre.push(vs@[i as int])));
            }
        }
        i += 1;
    }
    proof {
        assert(vs@.subrange(0, vs@.len() as int) =~= vs@);
    }
    out
}

} // verus!
