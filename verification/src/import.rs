//! The import engine: replay a portable document into the current store.
//!
//! The document's version is checked against the supported literal before
//! anything is written; a mismatch rejects the whole operation. Students,
//! sessions and academic records are replayed with replace-on-conflict
//! semantics, so re-importing reflects the document's state; users are
//! replayed with ignore-on-conflict semantics, so a live account is never
//! overwritten — imported users get a blank password hash.

use vstd::prelude::*;

use crate::document::AcademicRecordExport;
use crate::document::CounselingSessionExport;
use crate::document::DatabaseExport;
use crate::document::UserExport;
use crate::models::student::Student;
use crate::report::ImportResult;
use crate::store::apply_ignore_all;
use crate::store::apply_replace_all;
use crate::store::fold_ignore;
use crate::store::fold_replace;
use crate::store::has_key;
use crate::store::lemma_fold_ignore_all_present;
use crate::store::lemma_fold_ignore_haskey;
use crate::store::lemma_fold_replace_haskey;
use crate::store::lemma_fold_replace_len_all_present;
use crate::store::AcademicRow;
use crate::store::CurrentStore;
use crate::store::KeyedRow;
use crate::store::SessionRow;
use crate::store::StudentRow;
use crate::store::UserRow;
use crate::text::dec_digits;
use crate::text::str_eq;
use crate::text::u64_to_string;

verus! {

/// The store row a document student becomes.
pub open spec fn student_row_of(s: Student) -> StudentRow {
    StudentRow {
        id: s.id,
        name: s.name,
        surname: s.surname,
        student_number: None,
        class: s.class,
        enrollment_date: s.enrollmentDate,
        gender: s.gender,
        birth_date: s.birthDate,
        contact_phone: None,
        contact_email: None,
        parent_name: None,
        parent_phone: None,
        risk: s.risk,
        status: s.status,
        email: s.email,
        phone: s.phone,
        address: s.address,
        avatar: s.avatar,
        parent_contact: s.parentContact,
        notes: s.notes,
        created_at: Some(s.created_at),
        updated_at: Some(s.updated_at),
    }
}

/// The store row a document user becomes: the password hash is blank.
pub open spec fn user_row_of(u: UserExport, now: String) -> UserRow {
    UserRow {
        id: u.id,
        name: u.name,
        email: u.email,
        password_hash: None,
        role: u.role,
        institution: u.institution,
        is_active: u.isActive,
        created_at: Some(u.created_at),
        updated_at: Some(now),
    }
}

/// The store row a document session becomes.
pub open spec fn session_row_of(e: CounselingSessionExport, now: String) -> SessionRow {
    SessionRow {
        id: e.id,
        student_id: e.studentId,
        counselor_id: Some(e.counselorId),
        date: e.date,
        session_type: e.session_type,
        topic: e.topic,
        notes: e.notes,
        duration: e.duration,
        follow_up_required: None,
        status: None,
        created_at: Some(e.created_at),
        updated_at: Some(now),
    }
}

/// The store row a document academic record becomes.
pub open spec fn academic_row_of(a: AcademicRecordExport) -> AcademicRow {
    AcademicRow {
        id: a.id,
        student_id: a.studentId,
        term: a.term,
        subject: Some(a.subject),
        exam_type: Some(a.examType),
        grade: Some(a.grade),
        date: Some(a.date),
        gpa: None,
        attendance: None,
        absences: None,
        created_at: Some(a.created_at),
    }
}

/// All the student rows a document carries, in order.
pub open spec fn student_rows_of(d: DatabaseExport) -> Seq<StudentRow> {
    d.students@.map_values(|s: Student| student_row_of(s))
}

/// All the user rows a document carries, in order.
pub open spec fn user_rows_of(d: DatabaseExport, now: String) -> Seq<UserRow> {
    d.users@.map_values(|u: UserExport| user_row_of(u, now))
}

/// All the session rows a document carries, in order.
pub open spec fn session_rows_of(d: DatabaseExport, now: String) -> Seq<SessionRow> {
    d.counseling_sessions@.map_values(|e: CounselingSessionExport| session_row_of(e, now))
}

/// All the academic-record rows a document carries, in order.
pub open spec fn academic_rows_of(d: DatabaseExport) -> Seq<AcademicRow> {
    d.academic_records@.map_values(|a: AcademicRecordExport| academic_row_of(a))
}

/// The human-readable summary of a completed import.
pub open spec fn import_message(ns: nat, nu: nat, nsess: nat, nrec: nat) -> Seq<char> {
    "Import completed successfully. "@ + dec_digits(ns) + " students, "@ + dec_digits(nu)
        + " users, "@ + dec_digits(nsess) + " sessions, "@ + dec_digits(nrec)
        + " academic records imported"@
}

fn convert_students(items: &Vec<Student>) -> (rows: Vec<StudentRow>)
    ensures
        rows@ == items@.map_values(|s: Student| student_row_of(s)),
{
    let mut rows: Vec<StudentRow> = Vec::new();
    let mut i: usize = 0;
    proof {
        assert(items@.take(0).map_values(|s: Student| student_row_of(s)) =~= rows@);
    }
    while i < items.len()
        invariant
            i <= items@.len(),
            rows@ == items@.take(i as int).map_values(|s: Student| student_row_of(s)),
        decreases items@.len() - i,
    {
        let s = &items[i];
        rows.push(
            StudentRow {
                id: s.id.clone(),
                name: s.name.clone(),
                surname: s.surname.clone(),
                student_number: None,
                class: s.class.clone(),
                enrollment_date: s.enrollmentDate.clone(),
                gender: s.gender.clone(),
                birth_date: s.birthDate.clone(),
                contact_phone: None,
                contact_email: None,
                parent_name: None,
                parent_phone: None,
                risk: s.risk.clone(),
                status: s.status.clone(),
                email: s.email.clone(),
                phone: s.phone.clone(),
                address: s.address.clone(),
                avatar: s.avatar.clone(),
                parent_contact: s.parentContact.clone(),
                notes: s.notes.clone(),
                created_at: Some(s.created_at.clone()),
                updated_at: Some(s.updated_at.clone()),
            },
        );
        proof {
            assert(items@.take(i + 1).map_values(|s: Student| student_row_of(s)) =~= items@.take(
                i as int,
            ).map_values(|s: Student| student_row_of(s)).push(student_row_of(items@[i as int])));
        }
        i += 1;
    }
    proof {
        assert(items@.take(items@.len() as int) =~= items@);
    }
    rows
}

fn convert_users(items: &Vec<UserExport>, now: &String) -> (rows: Vec<UserRow>)
    ensures
        rows@ == items@.map_values(|u: UserExport| user_row_of(u, *now)),
{
    let mut rows: Vec<UserRow> = Vec::new();
    let mut i: usize = 0;
    proof {
        assert(items@.take(0).map_values(|u: UserExport| user_row_of(u, *now)) =~= rows@);
    }
    while i < items.len()
        invariant
            i <= items@.len(),
            rows@ == items@.take(i as int).map_values(|u: UserExport| user_row_of(u, *now)),
        decreases items@.len() - i,
    {
        let u = &items[i];
        rows.push(
            UserRow {
                id: u.id.clone(),
                name: u.name.clone(),
                email: u.email.clone(),
                password_hash: None,
                role: u.role.clone(),
                institution: u.institution.clone(),
                is_active: u.isActive,
                created_at: Some(u.created_at.clone()),
                updated_at: Some(now.clone()),
            },
        );
        proof {
            assert(items@.take(i + 1).map_values(|u: UserExport| user_row_of(u, *now))
                =~= items@.take(i as int).map_values(|u: UserExport| user_row_of(u, *now)).push(
                user_row_of(items@[i as int], *now),
            ));
        }
        i += 1;
    }
    proof {
        assert(items@.take(items@.len() as int) =~= items@);
    }
    rows
}

fn convert_sessions(items: &Vec<CounselingSessionExport>, now: &String) -> (rows: Vec<SessionRow>)
    ensures
        rows@ == items@.map_values(|e: CounselingSessionExport| session_row_of(e, *now)),
{
    let mut rows: Vec<SessionRow> = Vec::new();
    let mut i: usize = 0;
    proof {
        assert(items@.take(0).map_values(|e: CounselingSessionExport| session_row_of(e, *now))
            =~= rows@);
    }
    while i < items.len()
        invariant
            i <= items@.len(),
            rows@ == items@.take(i as int).map_values(
                |e: CounselingSessionExport| session_row_of(e, *now),
            ),
        decreases items@.len() - i,
    {
        let e = &items[i];
        rows.push(
            SessionRow {
                id: e.id.clone(),
                student_id: e.studentId.clone(),
                counselor_id: Some(e.counselorId.clone()),
                date: e.date.clone(),
                session_type: e.session_type.clone(),
                topic: e.topic.clone(),
                notes: e.notes.clone(),
                duration: e.duration,
                follow_up_required: None,
                status: None,
                created_at: Some(e.created_at.clone()),
                updated_at: Some(now.clone()),
            },
        );
        proof {
            assert(items@.take(i + 1).map_values(
                |e: CounselingSessionExport| session_row_of(e, *now),
            ) =~= items@.take(i as int).map_values(
                |e: CounselingSessionExport| session_row_of(e, *now),
            ).push(session_row_of(items@[i as int], *now)));
        }
        i += 1;
    }
    proof {
        assert(items@.take(items@.len() as int) =~= items@);
    }
    rows
}

fn convert_academics(items: &Vec<AcademicRecordExport>) -> (rows: Vec<AcademicRow>)
    ensures
        rows@ == items@.map_values(|a: AcademicRecordExport| academic_row_of(a)),
{
    let mut rows: Vec<AcademicRow> = Vec::new();
    let mut i: usize = 0;
    proof {
        assert(items@.take(0).map_values(|a: AcademicRecordExport| academic_row_of(a)) =~= rows@);
    }
    while i < items.len()
        invariant
            i <= items@.len(),
            rows@ == items@.take(i as int).map_values(
                |a: AcademicRecordExport| academic_row_of(a),
            ),
        decreases items@.len() - i,
    {
        let a = &items[i];
        rows.push(
            AcademicRow {
                id: a.id.clone(),
                student_id: a.studentId.clone(),
                term: a.term.clone(),
                subject: Some(a.subject.clone()),
                exam_type: Some(a.examType.clone()),
                grade: Some(a.grade.clone()),
                date: Some(a.date.clone()),
                gpa: None,
                attendance: None,
                absences: None,
                created_at: Some(a.created_at.clone()),
            },
        );
        proof {
            assert(items@.take(i + 1).map_values(|a: AcademicRecordExport| academic_row_of(a))
                =~= items@.take(i as int).map_values(
                |a: AcademicRecordExport| academic_row_of(a),
            ).push(academic_row_of(items@[i as int])));
        }
        i += 1;
    }
    proof {
        assert(items@.take(items@.len() as int) =~= items@);
    }
    rows
}

/// Replay a portable document into the store. The version gate runs before
/// any write: on a mismatch the store is untouched and the error message
/// names the offending version. On the supported version every collection
/// is replayed and the result counts each one.
pub fn import_database(doc: &DatabaseExport, store: &mut CurrentStore, now: &String) -> (r: Result<
    ImportResult,
    String,
>)
    ensures
        r is Ok <==> doc.version@ == "2.0.0"@,
        doc.version@ != "2.0.0"@ ==> *final(store) == *old(store),
        doc.version@ != "2.0.0"@ ==> (r matches Err(m) && m@ == "Unsupported export version: "@
            + doc.version@ + ". Expected 2.0.0"@),
        r is Ok ==> final(store).students@ == fold_replace(
            old(store).students@,
            student_rows_of(*doc),
        ),
        r is Ok ==> final(store).users@ == fold_ignore(old(store).users@, user_rows_of(*doc, *now)),
        r is Ok ==> final(store).counseling_sessions@ == fold_replace(
            old(store).counseling_sessions@,
            session_rows_of(*doc, *now),
        ),
        r is Ok ==> final(store).academic_records@ == fold_replace(
            old(store).academic_records@,
            academic_rows_of(*doc),
        ),
        final(store).behavior_records@ == old(store).behavior_records@,
        final(store).student_documents@ == old(store).student_documents@,
        final(store).settings@ == old(store).settings@,
        final(store).surveys@ == old(store).surveys@,
        r matches Ok(res) ==> res.success && res.students_imported == doc.students@.len()
            && res.users_imported == doc.users@.len() && res.sessions_imported
            == doc.counseling_sessions@.len() && res.records_imported
            == doc.academic_records@.len(),
        r matches Ok(res) ==> res.message@ == import_message(
            doc.students@.len(),
            doc.users@.len(),
            doc.counseling_sessions@.len(),
            doc.academic_records@.len(),
        ),
{
    if !str_eq(doc.version.as_str(), "2.0.0") {
        let mut m = String::from_str("Unsupported export version: ");
        m.append(doc.version.as_str());
        m.append(". Expected 2.0.0");
        return Err(m);
    }
    let students = convert_students(&doc.students);
    let users = convert_users(&doc.users, now);
    let sessions = convert_sessions(&doc.counseling_sessions, now);
    let academics = convert_academics(&doc.academic_records);

    let students_imported = doc.students.len();
    let users_imported = doc.users.len();
    let sessions_imported = doc.counseling_sessions.len();
    let records_imported = doc.academic_records.len();

    apply_replace_all(&mut store.students, students);
    apply_ignore_all(&mut store.users, users);
    apply_replace_all(&mut store.counseling_sessions, sessions);
    apply_replace_all(&mut store.academic_records, academics);

    let mut message = String::from_str("Import completed successfully. ");
    message.append(u64_to_string(students_imported as u64).as_str());
    message.append(" students, ");
    message.append(u64_to_string(users_imported as u64).as_str());
    message.append(" users, ");
    message.append(u64_to_string(sessions_imported as u64).as_str());
    message.append(" sessions, ");
    message.append(u64_to_string(records_imported as u64).as_str());
    message.append(" academic records imported");
    proof {
        assert(message@ =~= import_message(
            doc.students@.len(),
            doc.users@.len(),
            doc.counseling_sessions@.len(),
            doc.academic_records@.len(),
        ));
    }

    Ok(
        ImportResult {
            success: true,
            message,
            students_imported,
            users_imported,
            sessions_imported,
            records_imported,
        },
    )
}

/// Importing the same exported document twice produces the same final row
/// count for students, sessions and academic records (replace semantics),
/// and leaves the user table exactly as the first import left it (ignore
/// semantics): rows whose id already exists are not duplicated.
pub proof fn lemma_import_idempotent(
    store: CurrentStore,
    doc: DatabaseExport,
    now1: String,
    now2: String,
)
    ensures
        fold_replace(
            fold_replace(store.students@, student_rows_of(doc)),
            student_rows_of(doc),
        ).len() == fold_replace(store.students@, student_rows_of(doc)).len(),
        fold_replace(
            fold_replace(store.counseling_sessions@, session_rows_of(doc, now1)),
            session_rows_of(doc, now2),
        ).len() == fold_replace(store.counseling_sessions@, session_rows_of(doc, now1)).len(),
        fold_replace(
            fold_replace(store.academic_records@, academic_rows_of(doc)),
            academic_rows_of(doc),
        ).len() == fold_replace(store.academic_records@, academic_rows_of(doc)).len(),
        fold_ignore(
            fold_ignore(store.users@, user_rows_of(doc, now1)),
            user_rows_of(doc, now2),
        ) == fold_ignore(store.users@, user_rows_of(doc, now1)),
{
    let srows = student_rows_of(doc);
    let s1 = fold_replace(store.students@, srows);
    assert forall|i: int| 0 <= i < srows.len() implies has_key(
        s1,
        (#[trigger] srows[i]).key_spec(),
    ) by {
        lemma_fold_replace_haskey(store.students@, srows, srows[i].key_spec());
    }
    lemma_fold_replace_len_all_present(s1, srows);

    let serows1 = session_rows_of(doc, now1);
    let serows2 = session_rows_of(doc, now2);
    let se1 = fold_replace(store.counseling_sessions@, serows1);
    assert forall|i: int| 0 <= i < serows2.len() implies has_key(
        se1,
        (#[trigger] serows2[i]).key_spec(),
    ) by {
        assert(serows2[i].key_spec() == serows1[i].key_spec());
        assert(has_key(serows1, serows1[i].key_spec()));
        lemma_fold_replace_haskey(store.counseling_sessions@, serows1, serows1[i].key_spec());
    }
    lemma_fold_replace_len_all_present(se1, serows2);

    let arows = academic_rows_of(doc);
    let a1 = fold_replace(store.academic_records@, arows);
    assert forall|i: int| 0 <= i < arows.len() implies has_key(
        a1,
        (#[trigger] arows[i]).key_spec(),
    ) by {
        lemma_fold_replace_haskey(store.academic_records@, arows, arows[i].key_spec());
    }
    lemma_fold_replace_len_all_present(a1, arows);

    let urows1 = user_rows_of(doc, now1);
    let urows2 = user_rows_of(doc, now2);
    let u1 = fold_ignore(store.users@, urows1);
    assert forall|i: int| 0 <= i < urows2.len() implies has_key(
        u1,
        (#[trigger] urows2[i]).key_spec(),
    ) by {
        assert(urows2[i].key_spec() == urows1[i].key_spec());
        assert(has_key(urows1, urows1[i].key_spec()));
        lemma_fold_ignore_haskey(store.users@, urows1, urows1[i].key_spec());
    }
    lemma_fold_ignore_all_present(u1, urows2);
}

} // verus!
