//! The export engine: snapshot the current store's five projections into
//! one versioned portable document, and print it as JSON text; beside it,
//! the CSV listing of students and the row-count statistics.

use vstd::prelude::*;

use crate::document::AcademicRecordExport;
use crate::document::CounselingSessionExport;
use crate::document::DatabaseExport;
use crate::document::SurveyExport;
use crate::document::UserExport;
use crate::ids::now_rfc3339;
use crate::models::student::Student;
use crate::store::AcademicRow;
use crate::store::CurrentStore;
use crate::store::SessionRow;
use crate::store::StudentRow;
use crate::store::SurveyRow;
use crate::store::UserRow;
use crate::text::chars_of;
use crate::text::dec_int;
use crate::text::i64_to_string;
use crate::text::push_char;

verus! {

/// How one character is escaped inside a JSON string.
pub open spec fn json_escape_char(c: char) -> Seq<char> {
    if c == '"' {
        seq!['\\', '"']
    } else if c == '\\' {
        seq!['\\', '\\']
    } else if c == '\n' {
        seq!['\\', 'n']
    } else if c == '\r' {
        seq!['\\', 'r']
    } else if c == '\t' {
        seq!['\\', 't']
    } else {
        seq![c]
    }
}

/// A whole character sequence escaped for a JSON string.
pub open spec fn json_escape(s: Seq<char>) -> Seq<char>
    decreases s.len(),
{
    if s.len() == 0 {
        Seq::empty()
    } else {
        json_escape_char(s[0]) + json_escape(s.skip(1))
    }
}

proof fn lemma_json_escape_push(s: Seq<char>, c: char)
    ensures
        json_escape(s.push(c)) == json_escape(s) + json_escape_char(c),
    decreases s.len(),
{
    if s.len() == 0 {
        assert(s.push(c).skip(1) =~= Seq::<char>::empty());
        assert(s.push(c)[0] == c);
        assert(json_escape(s.push(c)) == json_escape_char(c) + json_escape(Seq::<char>::empty()));
        assert(json_escape(s) == Seq::<char>::empty());
        assert(json_escape_char(c) + Seq::<char>::empty() =~= Seq::<char>::empty()
            + json_escape_char(c));
    } else {
        assert(s.push(c).skip(1) =~= s.skip(1).push(c));
        lemma_json_escape_push(s.skip(1), c);
        assert(s.push(c)[0] == s[0]);
        assert(json_escape(s.push(c)) == json_escape_char(s[0]) + (json_escape(s.skip(1))
            + json_escape_char(c)));
        assert(json_escape(s) == json_escape_char(s[0]) + json_escape(s.skip(1)));
        assert(json_escape_char(s[0]) + (json_escape(s.skip(1)) + json_escape_char(c))
            =~= (json_escape_char(s[0]) + json_escape(s.skip(1))) + json_escape_char(c));
    }
}

/// A JSON string literal: the escaped text in double quotes.
pub open spec fn json_string(s: Seq<char>) -> Seq<char> {
    seq!['"'] + json_escape(s) + seq!['"']
}

/// An optional JSON string: `null` when absent.
pub open spec fn json_opt_string(o: Option<String>) -> Seq<char> {
    match o {
        Some(s) => json_string(s@),
        None => "null"@,
    }
}

/// An optional JSON number: `null` when absent.
pub open spec fn json_opt_i64(o: Option<i64>) -> Seq<char> {
    match o {
        Some(n) => dec_int(n as int),
        None => "null"@,
    }
}

/// A JSON boolean.
pub open spec fn json_bool(b: bool) -> Seq<char> {
    if b {
        "true"@
    } else {
        "false"@
    }
}

fn append_json_escaped(out: &mut String, s: &str)
    ensures
        final(out)@ == old(out)@ + json_escape(s@),
{
    let cs = chars_of(s);
    let ghost base = out@;
    let mut i: usize = 0;
    proof {
        assert(base + json_escape(cs@.take(0)) =~= base);
    }
    while i < cs.len()
        invariant
            i <= cs@.len(),
            cs@ == s@,
            out@ == base + json_escape(cs@.take(i as int)),
        decreases cs@.len() - i,
    {
        let c = cs[i];
        let ghost before = out@;
        if c == '"' {
            push_char(out, '\\');
            push_char(out, '"');
        } else if c == '\\' {
            push_char(out, '\\');
            push_char(out, '\\');
        } else if c == '\n' {
            push_char(out, '\\');
            push_char(out, 'n');
        } else if c == '\r' {
            push_char(out, '\\');
            push_char(out, 'r');
        } else if c == '\t' {
            push_char(out, '\\');
            push_char(out, 't');
        } else {
            push_char(out, c);
        }
        proof {
            assert(out@ =~= before + json_escape_char(c));
            lemma_json_escape_push(cs@.take(i as int), c);
            assert(cs@.take(i + 1) =~= cs@.take(i as int).push(cs@[i as int]));
            assert(out@ =~= base + json_escape(cs@.take(i + 1)));
        }
        i += 1;
    }
    proof {
        assert(cs@.take(cs@.len() as int) =~= cs@);
    }
}

fn append_json_string(out: &mut String, s: &str)
    ensures
        final(out)@ == old(out)@ + json_string(s@),
{
    let ghost base = out@;
    push_char(out, '"');
    append_json_escaped(out, s);
    push_char(out, '"');
    proof {
        assert(out@ =~= base + json_string(s@));
    }
}

fn append_json_opt_string(out: &mut String, o: &Option<String>)
    ensures
        final(out)@ == old(out)@ + json_opt_string(*o),
{
    match o {
        Some(s) => {
            append_json_string(out, s.as_str());
        },
        None => {
            out.append("null");
        },
    }
}

fn append_json_opt_i64(out: &mut String, o: &Option<i64>)
    ensures
        final(out)@ == old(out)@ + json_opt_i64(*o),
{
    match o {
        Some(n) => {
            let digits = i64_to_string(*n);
            out.append(digits.as_str());
        },
        None => {
            out.append("null");
        },
    }
}

fn append_json_bool(out: &mut String, b: bool)
    ensures
        final(out)@ == old(out)@ + json_bool(b),
{
    if b {
        out.append("true");
    } else {
        out.append("false");
    }
}

/// The JSON object of one document student record.
pub open spec fn student_json(s: Student) -> Seq<char> {
    "{\"id\":"@ + json_string(s.id@) + ",\"name\":"@ + json_string(s.name@) + ",\"surname\":"@
        + json_string(s.surname@) + ",\"email\":"@ + json_opt_string(s.email) + ",\"phone\":"@
        + json_opt_string(s.phone) + ",\"birthDate\":"@ + json_opt_string(s.birthDate)
        + ",\"address\":"@ + json_opt_string(s.address) + ",\"class\":"@ + json_opt_string(s.class)
        + ",\"enrollmentDate\":"@ + json_string(s.enrollmentDate@) + ",\"status\":"@ + json_string(
        s.status@,
    ) + ",\"avatar\":"@ + json_opt_string(s.avatar) + ",\"parentContact\":"@ + json_opt_string(
        s.parentContact,
    ) + ",\"notes\":"@ + json_opt_string(s.notes) + ",\"gender\":"@ + json_string(s.gender@)
        + ",\"risk\":"@ + json_string(s.risk@) + ",\"created_at\":"@ + json_string(s.created_at@)
        + ",\"updated_at\":"@ + json_string(s.updated_at@) + "}"@
}

#[verifier::rlimit(100)]
fn append_student(out: &mut String, s: &Student)
    ensures
        final(out)@ == old(out)@ + student_json(*s),
{
    let ghost base = out@;
    out.append("{\"id\":");
    append_json_string(out, s.id.as_str());
    let ghost q1 = "{\"id\":"@ + json_string(s.id@);
    proof {
        assert(out@ =~= base + q1);
    }
    out.append(",\"name\":");
    append_json_string(out, s.name.as_str());
    let ghost q2 = q1 + ",\"name\":"@ + json_string(s.name@);
    proof {
        assert(out@ =~= base + q2);
    }
    out.append(",\"surname\":");
    append_json_string(out, s.surname.as_str());
    let ghost q3 = q2 + ",\"surname\":"@ + json_string(s.surname@);
    proof {
        assert(out@ =~= base + q3);
    }
    out.append(",\"email\":");
    append_json_opt_string(out, &s.email);
    let ghost q4 = q3 + ",\"email\":"@ + json_opt_string(s.email);
    proof {
        assert(out@ =~= base + q4);
    }
    out.append(",\"phone\":");
    append_json_opt_string(out, &s.phone);
    let ghost q5 = q4 + ",\"phone\":"@ + json_opt_string(s.phone);
    proof {
        assert(out@ =~= base + q5);
    }
    out.append(",\"birthDate\":");
    append_json_opt_string(out, &s.birthDate);
    let ghost q6 = q5 + ",\"birthDate\":"@ + json_opt_string(s.birthDate);
    proof {
        assert(out@ =~= base + q6);
    }
    out.append(",\"address\":");
    append_json_opt_string(out, &s.address);
    let ghost q7 = q6 + ",\"address\":"@ + json_opt_string(s.address);
    proof {
        assert(out@ =~= base + q7);
    }
    out.append(",\"class\":");
    append_json_opt_string(out, &s.class);
    let ghost q8 = q7 + ",\"class\":"@ + json_opt_string(s.class);
    proof {
        assert(out@ =~= base + q8);
    }
    out.append(",\"enrollmentDate\":");
    append_json_string(out, s.enrollmentDate.as_str());
    let ghost q9 = q8 + ",\"enrollmentDate\":"@ + json_string(s.enrollmentDate@);
    proof {
        assert(out@ =~= base + q9);
    }
    out.append(",\"status\":");
    append_json_string(out, s.status.as_str());
    let ghost q10 = q9 + ",\"status\":"@ + json_string(s.status@);
    proof {
        assert(out@ =~= base + q10);
    }
    out.append(",\"avatar\":");
    append_json_opt_string(out, &s.avatar);
    let ghost q11 = q10 + ",\"avatar\":"@ + json_opt_string(s.avatar);
    proof {
        assert(out@ =~= base + q11);
    }
    out.append(",\"parentContact\":");
    append_json_opt_string(out, &s.parentContact);
    let ghost q12 = q11 + ",\"parentContact\":"@ + json_opt_string(s.parentContact);
    proof {
        assert(out@ =~= base + q12);
    }
    out.append(",\"notes\":");
    append_json_opt_string(out, &s.notes);
    let ghost q13 = q12 + ",\"notes\":"@ + json_opt_string(s.notes);
    proof {
        assert(out@ =~= base + q13);
    }
    out.append(",\"gender\":");
    append_json_string(out, s.gender.as_str());
    let ghost q14 = q13 + ",\"gender\":"@ + json_string(s.gender@);
    proof {
        assert(out@ =~= base + q14);
    }
    out.append(",\"risk\":");
    append_json_string(out, s.risk.as_str());
    let ghost q15 = q14 + ",\"risk\":"@ + json_string(s.risk@);
    proof {
        assert(out@ =~= base + q15);
    }
    out.append(",\"created_at\":");
    append_json_string(out, s.created_at.as_str());
    let ghost q16 = q15 + ",\"created_at\":"@ + json_string(s.created_at@);
    proof {
        assert(out@ =~= base + q16);
    }
    out.append(",\"updated_at\":");
    append_json_string(out, s.updated_at.as_str());
    out.append("}");
    let ghost q17 = q16 + ",\"updated_at\":"@ + json_string(s.updated_at@) + "}"@;
    proof {
        assert(out@ =~= base + q17);
        assert(q17 == student_json(*s));
    }
}

/// The JSON object of one document user record.
pub open spec fn user_json(u: UserExport) -> Seq<char> {
    "{\"id\":"@ + json_string(u.id@) + ",\"name\":"@ + json_string(u.name@) + ",\"email\":"@
        + json_string(u.email@) + ",\"role\":"@ + json_string(u.role@) + ",\"institution\":"@
        + json_string(u.institution@) + ",\"isActive\":"@ + json_bool(u.isActive)
        + ",\"created_at\":"@ + json_string(u.created_at@) + "}"@
}

fn append_user(out: &mut String, u: &UserExport)
    ensures
        final(out)@ == old(out)@ + user_json(*u),
{
    let ghost base = out@;
    out.append("{\"id\":");
    append_json_string(out, u.id.as_str());
    out.append(",\"name\":");
    append_json_string(out, u.name.as_str());
    out.append(",\"email\":");
    append_json_string(out, u.email.as_str());
    out.append(",\"role\":");
    append_json_string(out, u.role.as_str());
    out.append(",\"institution\":");
    append_json_string(out, u.institution.as_str());
    out.append(",\"isActive\":");
    append_json_bool(out, u.isActive);
    out.append(",\"created_at\":");
    append_json_string(out, u.created_at.as_str());
    out.append("}");
    proof {
        assert(out@ =~= base + user_json(*u));
    }
}

/// The JSON object of one document counseling-session record.
pub open spec fn session_json(e: CounselingSessionExport) -> Seq<char> {
    "{\"id\":"@ + json_string(e.id@) + ",\"studentId\":"@ + json_string(e.studentId@)
        + ",\"counselorId\":"@ + json_string(e.counselorId@) + ",\"date\":"@ + json_string(e.date@)
        + ",\"duration\":"@ + json_opt_i64(e.duration) + ",\"type\":"@ + json_string(
        e.session_type@,
    ) + ",\"topic\":"@ + json_opt_string(e.topic) + ",\"notes\":"@ + json_opt_string(e.notes)
        + ",\"created_at\":"@ + json_string(e.created_at@) + "}"@
}

#[verifier::rlimit(100)]
fn append_session(out: &mut String, e: &CounselingSessionExport)
    ensures
        final(out)@ == old(out)@ + session_json(*e),
{
    let ghost base = out@;
    out.append("{\"id\":");
    append_json_string(out, e.id.as_str());
    out.append(",\"studentId\":");
    append_json_string(out, e.studentId.as_str());
    out.append(",\"counselorId\":");
    append_json_string(out, e.counselorId.as_str());
    out.append(",\"date\":");
    append_json_string(out, e.date.as_str());
    out.append(",\"duration\":");
    append_json_opt_i64(out, &e.duration);
    out.append(",\"type\":");
    append_json_string(out, e.session_type.as_str());
    out.append(",\"topic\":");
    append_json_opt_string(out, &e.topic);
    out.append(",\"notes\":");
    append_json_opt_string(out, &e.notes);
    out.append(",\"created_at\":");
    append_json_string(out, e.created_at.as_str());
    out.append("}");
    proof {
        assert(out@ =~= base + session_json(*e));
    }
}

/// The JSON object of one document academic record. The grade was read as a
/// number and is carried as its decimal text, so it is emitted bare.
pub open spec fn academic_json(a: AcademicRecordExport) -> Seq<char> {
    "{\"id\":"@ + json_string(a.id@) + ",\"studentId\":"@ + json_string(a.studentId@)
        + ",\"term\":"@ + json_string(a.term@) + ",\"subject\":"@ + json_string(a.subject@)
        + ",\"examType\":"@ + json_string(a.examType@) + ",\"grade\":"@ + a.grade@ + ",\"date\":"@
        + json_string(a.date@) + ",\"created_at\":"@ + json_string(a.created_at@) + "}"@
}

fn append_academic(out: &mut String, a: &AcademicRecordExport)
    ensures
        final(out)@ == old(out)@ + academic_json(*a),
{
    let ghost base = out@;
    out.append("{\"id\":");
    append_json_string(out, a.id.as_str());
    out.append(",\"studentId\":");
    append_json_string(out, a.studentId.as_str());
    out.append(",\"term\":");
    append_json_string(out, a.term.as_str());
    out.append(",\"subject\":");
    append_json_string(out, a.subject.as_str());
    out.append(",\"examType\":");
    append_json_string(out, a.examType.as_str());
    out.append(",\"grade\":");
    out.append(a.grade.as_str());
    out.append(",\"date\":");
    append_json_string(out, a.date.as_str());
    out.append(",\"created_at\":");
    append_json_string(out, a.created_at.as_str());
    out.append("}");
    proof {
        assert(out@ =~= base + academic_json(*a));
    }
}

/// The JSON object of one document survey record.
pub open spec fn survey_json(s: SurveyExport) -> Seq<char> {
    "{\"id\":"@ + json_string(s.id@) + ",\"title\":"@ + json_string(s.title@)
        + ",\"description\":"@ + json_opt_string(s.description) + ",\"type\":"@ + json_string(
        s.survey_type@,
    ) + ",\"status\":"@ + json_string(s.status@) + ",\"created_at\":"@ + json_string(s.created_at@)
        + "}"@
}

fn append_survey(out: &mut String, s: &SurveyExport)
    ensures
        final(out)@ == old(out)@ + survey_json(*s),
{
    let ghost base = out@;
    out.append("{\"id\":");
    append_json_string(out, s.id.as_str());
    out.append(",\"title\":");
    append_json_string(out, s.title.as_str());
    out.append(",\"description\":");
    append_json_opt_string(out, &s.description);
    out.append(",\"type\":");
    append_json_string(out, s.survey_type.as_str());
    out.append(",\"status\":");
    append_json_string(out, s.status.as_str());
    out.append(",\"created_at\":");
    append_json_string(out, s.created_at.as_str());
    out.append("}");
    proof {
        assert(out@ =~= base + survey_json(*s));
    }
}

/// The comma-joined items of the students array.
pub open spec fn students_json_items(ss: Seq<Student>) -> Seq<char>
    decreases ss.len(),
{
    if ss.len() == 0 {
        Seq::empty()
    } else if ss.len() == 1 {
        student_json(ss[0])
    } else {
        students_json_items(ss.drop_last()) + ","@ + student_json(ss.last())
    }
}

fn append_students_items(out: &mut String, items: &Vec<Student>)
    ensures
        final(out)@ == old(out)@ + students_json_items(items@),
{
    let ghost base = out@;
    let mut i: usize = 0;
    proof {
        assert(base + students_json_items(items@.take(0)) =~= base);
    }
    while i < items.len()
        invariant
            i <= items@.len(),
            out@ == base + students_json_items(items@.take(i as int)),
        decreases items@.len() - i,
    {
        let ghost before = out@;
        if i > 0 {
            out.append(",");
        }
        append_student(out, &items[i]);
        proof {
            assert(items@.take(i + 1).drop_last() =~= items@.take(i as int));
            assert(items@.take(i + 1).last() == items@[i as int]);
            if i == 0 {
                assert(out@ =~= base + students_json_items(items@.take(i + 1)));
            } else {
                assert(out@ =~= base + students_json_items(items@.take(i + 1)));
            }
        }
        i += 1;
    }
    proof {
        assert(items@.take(items@.len() as int) =~= items@);
    }
}

/// The comma-joined items of the users array.
pub open spec fn users_json_items(us: Seq<UserExport>) -> Seq<char>
    decreases us.len(),
{
    if us.len() == 0 {
        Seq::empty()
    } else if us.len() == 1 {
        user_json(us[0])
    } else {
        users_json_items(us.drop_last()) + ","@ + user_json(us.last())
    }
}

fn append_users_items(out: &mut String, items: &Vec<UserExport>)
    ensures
        final(out)@ == old(out)@ + users_json_items(items@),
{
    let ghost base = out@;
    let mut i: usize = 0;
    proof {
        assert(base + users_json_items(items@.take(0)) =~= base);
    }
    while i < items.len()
        invariant
            i <= items@.len(),
            out@ == base + users_json_items(items@.take(i as int)),
        decreases items@.len() - i,
    {
        if i > 0 {
            out.append(",");
        }
        append_user(out, &items[i]);
        proof {
            assert(items@.take(i + 1).drop_last() =~= items@.take(i as int));
            assert(items@.take(i + 1).last() == items@[i as int]);
            assert(out@ =~= base + users_json_items(items@.take(i + 1)));
        }
        i += 1;
    }
    proof {
        assert(items@.take(items@.len() as int) =~= items@);
    }
}

/// The comma-joined items of the counseling-sessions array.
pub open spec fn sessions_json_items(es: Seq<CounselingSessionExport>) -> Seq<char>
    decreases es.len(),
{
    if es.len() == 0 {
        Seq::empty()
    } else if es.len() == 1 {
        session_json(es[0])
    } else {
        sessions_json_items(es.drop_last()) + ","@ + session_json(es.last())
    }
}

fn append_sessions_items(out: &mut String, items: &Vec<CounselingSessionExport>)
    ensures
        final(out)@ == old(out)@ + sessions_json_items(items@),
{
    let ghost base = out@;
    let mut i: usize = 0;
    proof {
        assert(base + sessions_json_items(items@.take(0)) =~= base);
    }
    while i < items.len()
        invariant
            i <= items@.len(),
            out@ == base + sessions_json_items(items@.take(i as int)),
        decreases items@.len() - i,
    {
        if i > 0 {
            out.append(",");
        }
        append_session(out, &items[i]);
        proof {
            assert(items@.take(i + 1).drop_last() =~= items@.take(i as int));
            assert(items@.take(i + 1).last() == items@[i as int]);
            assert(out@ =~= base + sessions_json_items(items@.take(i + 1)));
        }
        i += 1;
    }
    proof {
        assert(items@.take(items@.len() as int) =~= items@);
    }
}

/// The comma-joined items of the academic-records array.
pub open spec fn academics_json_items(rs: Seq<AcademicRecordExport>) -> Seq<char>
    decreases rs.len(),
{
    if rs.len() == 0 {
        Seq::empty()
    } else if rs.len() == 1 {
        academic_json(rs[0])
    } else {
        academics_json_items(rs.drop_last()) + ","@ + academic_json(rs.last())
    }
}

fn append_academics_items(out: &mut String, items: &Vec<AcademicRecordExport>)
    ensures
        final(out)@ == old(out)@ + academics_json_items(items@),
{
    let ghost base = out@;
    let mut i: usize = 0;
    proof {
        assert(base + academics_json_items(items@.take(0)) =~= base);
    }
    while i < items.len()
        invariant
            i <= items@.len(),
            out@ == base + academics_json_items(items@.take(i as int)),
        decreases items@.len() - i,
    {
        if i > 0 {
            out.append(",");
        }
        append_academic(out, &items[i]);
        proof {
            assert(items@.take(i + 1).drop_last() =~= items@.take(i as int));
            assert(items@.take(i + 1).last() == items@[i as int]);
            assert(out@ =~= base + academics_json_items(items@.take(i + 1)));
        }
        i += 1;
    }
    proof {
        assert(items@.take(items@.len() as int) =~= items@);
    }
}

/// The comma-joined items of the surveys array.
pub open spec fn surveys_json_items(ss: Seq<SurveyExport>) -> Seq<char>
    decreases ss.len(),
{
    if ss.len() == 0 {
        Seq::empty()
    } else if ss.len() == 1 {
        survey_json(ss[0])
    } else {
        surveys_json_items(ss.drop_last()) + ","@ + survey_json(ss.last())
    }
}

fn append_surveys_items(out: &mut String, items: &Vec<SurveyExport>)
    ensures
        final(out)@ == old(out)@ + surveys_json_items(items@),
{
    let ghost base = out@;
    let mut i: usize = 0;
    proof {
        assert(base + surveys_json_items(items@.take(0)) =~= base);
    }
    while i < items.len()
        invariant
            i <= items@.len(),
            out@ == base + surveys_json_items(items@.take(i as int)),
        decreases items@.len() - i,
    {
        if i > 0 {
            out.append(",");
        }
        append_survey(out, &items[i]);
        proof {
            assert(items@.take(i + 1).drop_last() =~= items@.take(i as int));
            assert(items@.take(i + 1).last() == items@[i as int]);
            assert(out@ =~= base + surveys_json_items(items@.take(i + 1)));
        }
        i += 1;
    }
    proof {
        assert(items@.take(items@.len() as int) =~= items@);
    }
}

/// The JSON text of a whole portable document.
pub open spec fn doc_json(d: DatabaseExport) -> Seq<char> {
    "{\"version\":"@ + json_string(d.version@) + ",\"exported_at\":"@ + json_string(d.exported_at@)
        + ",\"students\":["@ + students_json_items(d.students@) + "],\"users\":["@
        + users_json_items(d.users@) + "],\"counseling_sessions\":["@ + sessions_json_items(
        d.counseling_sessions@,
    ) + "],\"academic_records\":["@ + academics_json_items(d.academic_records@) + "],\"surveys\":["@
        + surveys_json_items(d.surveys@) + "]}"@
}

/// Two optional strings are both absent or carry the same text.
pub open spec fn opt_views_eq(a: Option<String>, b: Option<String>) -> bool {
    match (a, b) {
        (Some(x), Some(y)) => x@ == y@,
        (None, None) => true,
        _ => false,
    }
}

/// The projected text is the stored one, or empty when nothing is stored.
pub open spec fn opt_or_empty(v: String, o: Option<String>) -> bool {
    match o {
        Some(c) => v@ == c@,
        None => v@.len() == 0,
    }
}

/// The document student is the projection of the store row.
pub open spec fn student_projected(r: StudentRow, s: Student) -> bool {
    &&& s.id@ == r.id@
    &&& s.name@ == r.name@
    &&& s.surname@ == r.surname@
    &&& opt_views_eq(s.email, r.email)
    &&& opt_views_eq(s.phone, r.phone)
    &&& opt_views_eq(s.birthDate, r.birth_date)
    &&& opt_views_eq(s.address, r.address)
    &&& opt_views_eq(s.class, r.class)
    &&& s.enrollmentDate@ == r.enrollment_date@
    &&& s.status@ == r.status@
    &&& opt_views_eq(s.avatar, r.avatar)
    &&& opt_views_eq(s.parentContact, r.parent_contact)
    &&& opt_views_eq(s.notes, r.notes)
    &&& s.gender@ == r.gender@
    &&& s.risk@ == r.risk@
    &&& opt_or_empty(s.created_at, r.created_at)
    &&& opt_or_empty(s.updated_at, r.updated_at)
}

/// The document user is the projection of the store row; the password hash
/// is never part of it.
pub open spec fn user_projected(r: UserRow, u: UserExport) -> bool {
    &&& u.id@ == r.id@
    &&& u.name@ == r.name@
    &&& u.email@ == r.email@
    &&& u.role@ == r.role@
    &&& u.institution@ == r.institution@
    &&& u.isActive == r.is_active
    &&& opt_or_empty(u.created_at, r.created_at)
}

/// The document session is the projection of the store row.
pub open spec fn session_projected(r: SessionRow, e: CounselingSessionExport) -> bool {
    &&& e.id@ == r.id@
    &&& e.studentId@ == r.student_id@
    &&& opt_or_empty(e.counselorId, r.counselor_id)
    &&& e.date@ == r.date@
    &&& e.duration == r.duration
    &&& e.session_type@ == r.session_type@
    &&& opt_views_eq(e.topic, r.topic)
    &&& opt_views_eq(e.notes, r.notes)
    &&& opt_or_empty(e.created_at, r.created_at)
}

/// The document academic record is the projection of the store row; a row
/// without a grade is exported with grade zero.
pub open spec fn academic_projected(r: AcademicRow, a: AcademicRecordExport) -> bool {
    &&& a.id@ == r.id@
    &&& a.studentId@ == r.student_id@
    &&& a.term@ == r.term@
    &&& opt_or_empty(a.subject, r.subject)
    &&& opt_or_empty(a.examType, r.exam_type)
    &&& match r.grade {
        Some(g) => a.grade@ == g@,
        None => a.grade@ == "0"@,
    }
    &&& opt_or_empty(a.date, r.date)
    &&& opt_or_empty(a.created_at, r.created_at)
}

/// The document survey is the projection of the store row.
pub open spec fn survey_projected(r: SurveyRow, s: SurveyExport) -> bool {
    &&& s.id@ == r.id@
    &&& s.title@ == r.title@
    &&& opt_views_eq(s.description, r.description)
    &&& s.survey_type@ == r.survey_type@
    &&& s.status@ == r.status@
    &&& s.created_at@ == r.created_at@
}

/// The document is the five fixed projections of the store, stamped with
/// the supported version literal.
pub open spec fn document_of_store(store: CurrentStore, d: DatabaseExport) -> bool {
    &&& d.version@ == "2.0.0"@
    &&& d.students@.len() == store.students@.len()
    &&& forall|i: int|
        0 <= i < store.students@.len() ==> student_projected(
            store.students@[i],
            #[trigger] d.students@[i],
        )
    &&& d.users@.len() == store.users@.len()
    &&& forall|i: int|
        0 <= i < store.users@.len() ==> user_projected(store.users@[i], #[trigger] d.users@[i])
    &&& d.counseling_sessions@.len() == store.counseling_sessions@.len()
    &&& forall|i: int|
        0 <= i < store.counseling_sessions@.len() ==> session_projected(
            store.counseling_sessions@[i],
            #[trigger] d.counseling_sessions@[i],
        )
    &&& d.academic_records@.len() == store.academic_records@.len()
    &&& forall|i: int|
        0 <= i < store.academic_records@.len() ==> academic_projected(
            store.academic_records@[i],
            #[trigger] d.academic_records@[i],
        )
    &&& d.surveys@.len() == store.surveys@.len()
    &&& forall|i: int|
        0 <= i < store.surveys@.len() ==> survey_projected(
            store.surveys@[i],
            #[trigger] d.surveys@[i],
        )
}

fn clone_opt(o: &Option<String>) -> (r: Option<String>)
    ensures
        opt_views_eq(r, *o),
{
    match o {
        Some(s) => Some(s.clone()),
        None => None,
    }
}

fn or_empty(o: &Option<String>) -> (r: String)
    ensures
        opt_or_empty(r, *o),
{
    match o {
        Some(s) => s.clone(),
        None => String::new(),
    }
}

fn project_student(r: &StudentRow) -> (s: Student)
    ensures
        student_projected(*r, s),
{
    Student {
        id: r.id.clone(),
        name: r.name.clone(),
        surname: r.surname.clone(),
        email: clone_opt(&r.email),
        phone: clone_opt(&r.phone),
        birthDate: clone_opt(&r.birth_date),
        address: clone_opt(&r.address),
        class: clone_opt(&r.class),
        enrollmentDate: r.enrollment_date.clone(),
        status: r.status.clone(),
        avatar: clone_opt(&r.avatar),
        parentContact: clone_opt(&r.parent_contact),
        notes: clone_opt(&r.notes),
        gender: r.gender.clone(),
        risk: r.risk.clone(),
        created_at: or_empty(&r.created_at),
        updated_at: or_empty(&r.updated_at),
    }
}

fn project_user(r: &UserRow) -> (u: UserExport)
    ensures
        user_projected(*r, u),
{
    UserExport {
        id: r.id.clone(),
        name: r.name.clone(),
        email: r.email.clone(),
        role: r.role.clone(),
        institution: r.institution.clone(),
        isActive: r.is_active,
        created_at: or_empty(&r.created_at),
    }
}

fn project_session(r: &SessionRow) -> (e: CounselingSessionExport)
    ensures
        session_projected(*r, e),
{
    CounselingSessionExport {
        id: r.id.clone(),
        studentId: r.student_id.clone(),
        counselorId: or_empty(&r.counselor_id),
        date: r.date.clone(),
        duration: r.duration,
        session_type: r.session_type.clone(),
        topic: clone_opt(&r.topic),
        notes: clone_opt(&r.notes),
        created_at: or_empty(&r.created_at),
    }
}

fn project_academic(r: &AcademicRow) -> (a: AcademicRecordExport)
    ensures
        academic_projected(*r, a),
{
    let grade = match &r.grade {
        Some(g) => g.clone(),
        None => String::from_str("0"),
    };
    AcademicRecordExport {
        id: r.id.clone(),
        studentId: r.student_id.clone(),
        term: r.term.clone(),
        subject: or_empty(&r.subject),
        examType: or_empty(&r.exam_type),
        grade,
        date: or_empty(&r.date),
        created_at: or_empty(&r.created_at),
    }
}

fn project_survey(r: &SurveyRow) -> (s: SurveyExport)
    ensures
        survey_projected(*r, s),
{
    SurveyExport {
        id: r.id.clone(),
        title: r.title.clone(),
        description: clone_opt(&r.description),
        survey_type: r.survey_type.clone(),
        status: r.status.clone(),
        created_at: r.created_at.clone(),
    }
}

/// Snapshot the store's five projections into one portable document,
/// stamped with the given timestamp.
pub fn export_document(store: &CurrentStore, exported_at: String) -> (d: DatabaseExport)
    ensures
        document_of_store(*store, d),
        d.exported_at == exported_at,
{
    let mut students: Vec<Student> = Vec::new();
    let mut i: usize = 0;
    while i < store.students.len()
        invariant
            i <= store.students@.len(),
            students@.len() == i,
            forall|j: int|
                0 <= j < i ==> student_projected(store.students@[j], #[trigger] students@[j]),
        decreases store.students@.len() - i,
    {
        students.push(project_student(&store.students[i]));
        i += 1;
    }
    let mut users: Vec<UserExport> = Vec::new();
    let mut i: usize = 0;
    while i < store.users.len()
        invariant
            i <= store.users@.len(),
            users@.len() == i,
            forall|j: int| 0 <= j < i ==> user_projected(store.users@[j], #[trigger] users@[j]),
        decreases store.users@.len() - i,
    {
        users.push(project_user(&store.users[i]));
        i += 1;
    }
    let mut sessions: Vec<CounselingSessionExport> = Vec::new();
    let mut i: usize = 0;
    while i < store.counseling_sessions.len()
        invariant
            i <= store.counseling_sessions@.len(),
            sessions@.len() == i,
            forall|j: int|
                0 <= j < i ==> session_projected(
                    store.counseling_sessions@[j],
                    #[trigger] sessions@[j],
                ),
        decreases store.counseling_sessions@.len() - i,
    {
        sessions.push(project_session(&store.counseling_sessions[i]));
        i += 1;
    }
    let mut academics: Vec<AcademicRecordExport> = Vec::new();
    let mut i: usize = 0;
    while i < store.academic_records.len()
        invariant
            i <= store.academic_records@.len(),
            academics@.len() == i,
            forall|j: int|
                0 <= j < i ==> academic_projected(
                    store.academic_records@[j],
                    #[trigger] academics@[j],
                ),
        decreases store.academic_records@.len() - i,
    {
        academics.push(project_academic(&store.academic_records[i]));
        i += 1;
    }
    let mut surveys: Vec<SurveyExport> = Vec::new();
    let mut i: usize = 0;
    while i < store.surveys.len()
        invariant
            i <= store.surveys@.len(),
            surveys@.len() == i,
            forall|j: int| 0 <= j < i ==> survey_projected(store.surveys@[j], #[trigger] surveys@[j]),
        decreases store.surveys@.len() - i,
    {
        surveys.push(project_survey(&store.surveys[i]));
        i += 1;
    }
    DatabaseExport {
        version: String::from_str("2.0.0"),
        exported_at,
        students,
        users,
        counseling_sessions: sessions,
        academic_records: academics,
        surveys,
    }
}

/// Snapshot the whole store into one JSON document stamped with the present
/// moment.
pub fn export_database(store: &CurrentStore) -> (r: String)
    ensures
        exists|d: DatabaseExport|
            #[trigger] document_of_store(*store, d) && d.exported_at@.len() > 0 && r@ == doc_json(
                d,
            ),
{
    let ts = now_rfc3339();
    let doc = export_document(store, ts);
    let text = serialize_database_export(&doc);
    proof {
        assert(document_of_store(*store, doc) && doc.exported_at@.len() > 0 && text@ == doc_json(
            doc,
        ));
    }
    text
}

/// One student's CSV line shape, as the listing prints it.
#[derive(Debug, Clone)]
pub struct StudentExportRow {
    pub id: String,
    pub ad: String,
    pub soyad: String,
    pub email: String,
    pub telefon: String,
    pub dogum_tarihi: String,
    pub sinif: String,
    pub kayit_tarihi: String,
    pub durum: String,
    pub risk_seviyesi: String,
    pub cinsiyet: String,
}

/// An optional value as CSV prints it: the text, or nothing.
pub open spec fn csv_opt(o: Option<String>) -> Seq<char> {
    match o {
        Some(s) => s@,
        None => Seq::empty(),
    }
}

/// One student row as a CSV line.
pub open spec fn csv_line(r: StudentRow) -> Seq<char> {
    r.id@ + ","@ + r.name@ + ","@ + r.surname@ + ","@ + csv_opt(r.email) + ","@ + csv_opt(r.phone)
        + ","@ + csv_opt(r.birth_date) + ","@ + csv_opt(r.class) + ","@ + r.enrollment_date@ + ","@
        + r.status@ + ","@ + r.risk@ + ","@ + r.gender@ + "\n"@
}

/// All the student rows as CSV lines, in table order.
pub open spec fn csv_lines(rows: Seq<StudentRow>) -> Seq<char>
    decreases rows.len(),
{
    if rows.len() == 0 {
        Seq::empty()
    } else {
        csv_lines(rows.drop_last()) + csv_line(rows.last())
    }
}

fn append_csv_opt(out: &mut String, o: &Option<String>)
    ensures
        final(out)@ == old(out)@ + csv_opt(*o),
{
    match o {
        Some(s) => {
            out.append(s.as_str());
        },
        None => {
            proof {
                assert(out@ =~= out@ + csv_opt(*o));
            }
        },
    }
}

#[verifier::rlimit(100)]
fn append_csv_line(out: &mut String, r: &StudentRow)
    ensures
        final(out)@ == old(out)@ + csv_line(*r),
{
    let ghost base = out@;
    out.append(r.id.as_str());
    out.append(",");
    out.append(r.name.as_str());
    out.append(",");
    out.append(r.surname.as_str());
    out.append(",");
    append_csv_opt(out, &r.email);
    out.append(",");
    append_csv_opt(out, &r.phone);
    let ghost q1 = r.id@ + ","@ + r.name@ + ","@ + r.surname@ + ","@ + csv_opt(r.email) + ","@
        + csv_opt(r.phone);
    proof {
        assert(out@ =~= base + q1);
    }
    out.append(",");
    append_csv_opt(out, &r.birth_date);
    out.append(",");
    append_csv_opt(out, &r.class);
    out.append(",");
    out.append(r.enrollment_date.as_str());
    let ghost q2 = q1 + ","@ + csv_opt(r.birth_date) + ","@ + csv_opt(r.class) + ","@
        + r.enrollment_date@;
    proof {
        assert(out@ =~= base + q2);
    }
    out.append(",");
    out.append(r.status.as_str());
    out.append(",");
    out.append(r.risk.as_str());
    out.append(",");
    out.append(r.gender.as_str());
    out.append("\n");
    let ghost q3 = q2 + ","@ + r.status@ + ","@ + r.risk@ + ","@ + r.gender@ + "\n"@;
    proof {
        assert(out@ =~= base + q3);
        assert(q3 == csv_line(*r));
    }
}

/// Print every student as one line of comma-separated values, with the
/// fixed header line first.
pub fn export_students_csv(store: &CurrentStore) -> (r: String)
    ensures
        r@ == "ID,Ad,Soyad,E-posta,Telefon,Doğum Tarihi,Sınıf,Kayıt Tarihi,Durum,Risk Seviyesi,Cinsiyet\n"@
            + csv_lines(store.students@),
{
    let mut out = String::from_str(
        "ID,Ad,Soyad,E-posta,Telefon,Doğum Tarihi,Sınıf,Kayıt Tarihi,Durum,Risk Seviyesi,Cinsiyet\n",
    );
    let ghost base = out@;
    let mut i: usize = 0;
    proof {
        assert(base + csv_lines(store.students@.take(0)) =~= base);
    }
    while i < store.students.len()
        invariant
            i <= store.students@.len(),
            out@ == base + csv_lines(store.students@.take(i as int)),
        decreases store.students@.len() - i,
    {
        append_csv_line(&mut out, &store.students[i]);
        proof {
            assert(store.students@.take(i + 1).drop_last() =~= store.students@.take(i as int));
            assert(store.students@.take(i + 1).last() == store.students@[i as int]);
            assert(out@ =~= base + csv_lines(store.students@.take(i + 1)));
        }
        i += 1;
    }
    proof {
        assert(store.students@.take(store.students@.len() as int) =~= store.students@);
    }
    out
}

/// The row counts of the four exported tables.
#[derive(Debug, Clone)]
pub struct ExportStatistics {
    pub total_students: usize,
    pub total_users: usize,
    pub total_sessions: usize,
    pub total_academic_records: usize,
}

/// Count the rows of the four exported tables.
pub fn get_export_statistics(store: &CurrentStore) -> (r: ExportStatistics)
    ensures
        r.total_students == store.students@.len(),
        r.total_users == store.users@.len(),
        r.total_sessions == store.counseling_sessions@.len(),
        r.total_academic_records == store.academic_records@.len(),
{
    ExportStatistics {
        total_students: store.students.len(),
        total_users: store.users.len(),
        total_sessions: store.counseling_sessions.len(),
        total_academic_records: store.academic_records.len(),
    }
}

/// Print a portable document as JSON text.
pub fn serialize_database_export(d: &DatabaseExport) -> (r: String)
    ensures
        r@ == doc_json(*d),
{
    let mut out = String::new();
    out.append("{\"version\":");
    append_json_string(&mut out, d.version.as_str());
    out.append(",\"exported_at\":");
    append_json_string(&mut out, d.exported_at.as_str());
    out.append(",\"students\":[");
    append_students_items(&mut out, &d.students);
    out.append("],\"users\":[");
    append_users_items(&mut out, &d.users);
    out.append("],\"counseling_sessions\":[");
    append_sessions_items(&mut out, &d.counseling_sessions);
    out.append("],\"academic_records\":[");
    append_academics_items(&mut out, &d.academic_records);
    out.append("],\"surveys\":[");
    append_surveys_items(&mut out, &d.surveys);
    out.append("]}");
    proof {
        assert(out@ =~= doc_json(*d));
    }
    out
}

} // verus!
