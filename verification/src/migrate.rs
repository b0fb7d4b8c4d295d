//! The legacy-to-current migration engine: six entity migrators and the
//! orchestrator that sequences them and decides commit or rollback.
//!
//! Each migrator reads one legacy table, coerces every row through the
//! field-coercion layer, and stages typed rows for the current store. The
//! orchestrator runs the six in fixed order, collecting a per-category
//! error when a table (other than `settings`) cannot be read, and applies
//! the staged rows only when no category failed; otherwise the store is
//! left exactly as it was.

use vstd::prelude::*;

use crate::ids::now_rfc3339;
use crate::legacy::coerced_bool;
use crate::legacy::coerced_opt_int;
use crate::legacy::coerced_opt_real;
use crate::legacy::coerced_opt_string;
use crate::legacy::coerced_string;
use crate::legacy::id_assigned;
use crate::legacy::LegacyRow;
use crate::legacy::LegacyStore;
use crate::report::string_views;
use crate::report::MigrationReport;
use crate::store::fold_ignore;
use crate::store::CurrentStore;
use crate::store::SettingRow;
use crate::store::StudentRow;
use crate::store::apply_ignore_all;
use crate::store::AcademicRow;
use crate::store::BehaviorRow;
use crate::store::DocumentRow;
use crate::store::SessionRow;

verus! {

/// An optional stored string agrees with an optional coerced value.
pub open spec fn opt_str_matches(a: Option<String>, b: Option<Seq<char>>) -> bool {
    match (a, b) {
        (Some(s), Some(v)) => s@ == v,
        (None, None) => true,
        _ => false,
    }
}

/// The staged student row is the coercion of the legacy row: each field
/// comes from its named column with the category's fallback default, and
/// a missing, mistyped or empty `id` becomes a fresh 36-character
/// identifier.
pub open spec fn student_matches(row: LegacyRow, p: StudentRow) -> bool {
    let cols = row.columns@;
    &&& id_assigned(cols, p.id@)
    &&& p.name@ == coerced_string(cols, "name"@, ""@)
    &&& p.surname@ == coerced_string(cols, "surname"@, ""@)
    &&& opt_str_matches(p.student_number, coerced_opt_string(cols, "studentNumber"@))
    &&& opt_str_matches(p.class, coerced_opt_string(cols, "class"@))
    &&& p.enrollment_date@ == coerced_string(cols, "enrollmentDate"@, "2025-01-01"@)
    &&& p.gender@ == coerced_string(cols, "gender"@, "Belirtilmemiş"@)
    &&& opt_str_matches(p.birth_date, coerced_opt_string(cols, "birthDate"@))
    &&& opt_str_matches(p.contact_phone, coerced_opt_string(cols, "contactPhone"@))
    &&& opt_str_matches(p.contact_email, coerced_opt_string(cols, "contactEmail"@))
    &&& opt_str_matches(p.parent_name, coerced_opt_string(cols, "parentName"@))
    &&& opt_str_matches(p.parent_phone, coerced_opt_string(cols, "parentPhone"@))
    &&& p.risk@ == coerced_string(cols, "risk"@, "Düşük"@)
    &&& p.status@ == coerced_string(cols, "status"@, "active"@)
    &&& p.email is None
    &&& p.phone is None
    &&& p.address is None
    &&& p.avatar is None
    &&& p.parent_contact is None
    &&& p.notes is None
    &&& p.created_at is None
    &&& p.updated_at is None
}

/// The staged session row is the coercion of the legacy row.
pub open spec fn session_matches(row: LegacyRow, p: SessionRow) -> bool {
    let cols = row.columns@;
    &&& id_assigned(cols, p.id@)
    &&& p.student_id@ == coerced_string(cols, "studentId"@, ""@)
    &&& p.date@ == coerced_string(cols, "date"@, ""@)
    &&& p.session_type@ == coerced_string(cols, "type"@, ""@)
    &&& opt_str_matches(p.notes, coerced_opt_string(cols, "notes"@))
    &&& p.duration == coerced_opt_int(cols, "duration"@)
    &&& p.follow_up_required == Some(coerced_bool(cols, "followUpRequired"@, false))
    &&& match p.status {
        Some(s) => s@ == coerced_string(cols, "status"@, "completed"@),
        None => false,
    }
    &&& p.counselor_id is None
    &&& p.topic is None
    &&& p.created_at is None
    &&& p.updated_at is None
}

/// The staged academic-record row is the coercion of the legacy row.
pub open spec fn academic_matches(row: LegacyRow, p: AcademicRow) -> bool {
    let cols = row.columns@;
    &&& id_assigned(cols, p.id@)
    &&& p.student_id@ == coerced_string(cols, "studentId"@, ""@)
    &&& p.term@ == coerced_string(cols, "term"@, ""@)
    &&& opt_str_matches(p.gpa, coerced_opt_real(cols, "gpa"@))
    &&& opt_str_matches(p.attendance, coerced_opt_real(cols, "attendance"@))
    &&& p.absences == coerced_opt_int(cols, "absences"@)
    &&& p.subject is None
    &&& p.exam_type is None
    &&& p.grade is None
    &&& p.date is None
    &&& p.created_at is None
}

/// The staged behavior-record row is the coercion of the legacy row.
pub open spec fn behavior_matches(row: LegacyRow, p: BehaviorRow) -> bool {
    let cols = row.columns@;
    &&& id_assigned(cols, p.id@)
    &&& p.student_id@ == coerced_string(cols, "studentId"@, ""@)
    &&& p.date@ == coerced_string(cols, "date"@, ""@)
    &&& p.behavior_type@ == coerced_string(cols, "type"@, ""@)
    &&& p.description@ == coerced_string(cols, "description"@, ""@)
    &&& opt_str_matches(p.severity, coerced_opt_string(cols, "severity"@))
}

/// The staged document row is the coercion of the legacy row; a missing
/// upload timestamp becomes the present moment, which is never empty.
pub open spec fn document_matches(row: LegacyRow, p: DocumentRow) -> bool {
    let cols = row.columns@;
    &&& id_assigned(cols, p.id@)
    &&& p.student_id@ == coerced_string(cols, "studentId"@, ""@)
    &&& p.name@ == coerced_string(cols, "name"@, ""@)
    &&& p.doc_type@ == coerced_string(cols, "type"@, ""@)
    &&& p.data_url@ == coerced_string(cols, "dataUrl"@, ""@)
    &&& match coerced_opt_string(cols, "uploadedAt"@) {
        Some(v) => p.uploaded_at@ == v,
        None => p.uploaded_at@.len() > 0,
    }
}

/// The staged setting row is the coercion of the legacy row.
pub open spec fn setting_matches(row: LegacyRow, p: SettingRow) -> bool {
    let cols = row.columns@;
    &&& p.key@ == coerced_string(cols, "key"@, ""@)
    &&& p.value@ == coerced_string(cols, "value"@, ""@)
    &&& p.setting_type@ == coerced_string(cols, "type"@, "string"@)
    &&& opt_str_matches(p.description, coerced_opt_string(cols, "description"@))
}

/// A whole staged table: one row per legacy row, in order.
pub open spec fn students_planned(rows: Seq<LegacyRow>, ps: Seq<StudentRow>) -> bool {
    ps.len() == rows.len() && forall|i: int|
        0 <= i < rows.len() ==> student_matches(rows[i], #[trigger] ps[i])
}

/// A whole staged session table.
pub open spec fn sessions_planned(rows: Seq<LegacyRow>, ps: Seq<SessionRow>) -> bool {
    ps.len() == rows.len() && forall|i: int|
        0 <= i < rows.len() ==> session_matches(rows[i], #[trigger] ps[i])
}

/// A whole staged academic-record table.
pub open spec fn academics_planned(rows: Seq<LegacyRow>, ps: Seq<AcademicRow>)
    -> bool {
    ps.len() == rows.len() && forall|i: int|
        0 <= i < rows.len() ==> academic_matches(rows[i], #[trigger] ps[i])
}

/// A whole staged behavior-record table.
pub open spec fn behaviors_planned(rows: Seq<LegacyRow>, ps: Seq<BehaviorRow>) -> bool {
    ps.len() == rows.len() && forall|i: int|
        0 <= i < rows.len() ==> behavior_matches(rows[i], #[trigger] ps[i])
}

/// A whole staged document table.
pub open spec fn documents_planned(rows: Seq<LegacyRow>, ps: Seq<DocumentRow>) -> bool {
    ps.len() == rows.len() && forall|i: int|
        0 <= i < rows.len() ==> document_matches(rows[i], #[trigger] ps[i])
}

/// A whole staged setting table.
pub open spec fn settings_planned(rows: Seq<LegacyRow>, ps: Seq<SettingRow>) -> bool {
    ps.len() == rows.len() && forall|i: int|
        0 <= i < rows.len() ==> setting_matches(rows[i], #[trigger] ps[i])
}

fn coerce_student(row: &LegacyRow) -> (p: StudentRow)
    ensures
        student_matches(*row, p),
{
    StudentRow {
        id: row.id_or_fresh(),
        name: row.string_or("name", ""),
        surname: row.string_or("surname", ""),
        student_number: row.optional_string("studentNumber"),
        class: row.optional_string("class"),
        enrollment_date: row.string_or("enrollmentDate", "2025-01-01"),
        gender: row.string_or("gender", "Belirtilmemiş"),
        birth_date: row.optional_string("birthDate"),
        contact_phone: row.optional_string("contactPhone"),
        contact_email: row.optional_string("contactEmail"),
        parent_name: row.optional_string("parentName"),
        parent_phone: row.optional_string("parentPhone"),
        risk: row.string_or("risk", "Düşük"),
        status: row.string_or("status", "active"),
        email: None,
        phone: None,
        address: None,
        avatar: None,
        parent_contact: None,
        notes: None,
        created_at: None,
        updated_at: None,
    }
}

fn coerce_session(row: &LegacyRow) -> (p: SessionRow)
    ensures
        session_matches(*row, p),
{
    SessionRow {
        id: row.id_or_fresh(),
        student_id: row.string_or("studentId", ""),
        counselor_id: None,
        date: row.string_or("date", ""),
        session_type: row.string_or("type", ""),
        topic: None,
        notes: row.optional_string("notes"),
        duration: row.optional_int("duration"),
        follow_up_required: Some(row.bool_or("followUpRequired", false)),
        status: Some(row.string_or("status", "completed")),
        created_at: None,
        updated_at: None,
    }
}

fn coerce_academic(row: &LegacyRow) -> (p: AcademicRow)
    ensures
        academic_matches(*row, p),
{
    AcademicRow {
        id: row.id_or_fresh(),
        student_id: row.string_or("studentId", ""),
        term: row.string_or("term", ""),
        subject: None,
        exam_type: None,
        grade: None,
        date: None,
        gpa: row.optional_real("gpa"),
        attendance: row.optional_real("attendance"),
        absences: row.optional_int("absences"),
        created_at: None,
    }
}

fn coerce_behavior(row: &LegacyRow) -> (p: BehaviorRow)
    ensures
        behavior_matches(*row, p),
{
    BehaviorRow {
        id: row.id_or_fresh(),
        student_id: row.string_or("studentId", ""),
        date: row.string_or("date", ""),
        behavior_type: row.string_or("type", ""),
        description: row.string_or("description", ""),
        severity: row.optional_string("severity"),
    }
}

fn coerce_document(row: &LegacyRow) -> (p: DocumentRow)
    ensures
        document_matches(*row, p),
{
    let uploaded_at = match row.optional_string("uploadedAt") {
        Some(s) => s,
        None => now_rfc3339(),
    };
    DocumentRow {
        id: row.id_or_fresh(),
        student_id: row.string_or("studentId", ""),
        name: row.string_or("name", ""),
        doc_type: row.string_or("type", ""),
        data_url: row.string_or("dataUrl", ""),
        uploaded_at,
    }
}

fn coerce_setting(row: &LegacyRow) -> (p: SettingRow)
    ensures
        setting_matches(*row, p),
{
    SettingRow {
        key: row.string_or("key", ""),
        value: row.string_or("value", ""),
        setting_type: row.string_or("type", "string"),
        description: row.optional_string("description"),
    }
}

/// Stage the whole legacy `students` table for the current store.
pub fn migrate_students(rows: &Vec<LegacyRow>) -> (ps: Vec<StudentRow>)
    ensures
        students_planned(rows@, ps@),
{
    let mut ps: Vec<StudentRow> = Vec::new();
    let mut i: usize = 0;
    while i < rows.len()
        invariant
            i <= rows@.len(),
            ps@.len() == i,
            forall|j: int| 0 <= j < i ==> student_matches(rows@[j], #[trigger] ps@[j]),
        decreases rows@.len() - i,
    {
        ps.push(coerce_student(&rows[i]));
        i += 1;
    }
    ps
}

/// Stage the whole legacy `counseling_sessions` table.
pub fn migrate_counseling_sessions(rows: &Vec<LegacyRow>) -> (ps: Vec<SessionRow>)
    ensures
        sessions_planned(rows@, ps@),
{
    let mut ps: Vec<SessionRow> = Vec::new();
    let mut i: usize = 0;
    while i < rows.len()
        invariant
            i <= rows@.len(),
            ps@.len() == i,
            forall|j: int| 0 <= j < i ==> session_matches(rows@[j], #[trigger] ps@[j]),
        decreases rows@.len() - i,
    {
        ps.push(coerce_session(&rows[i]));
        i += 1;
    }
    ps
}

/// Stage the whole legacy `academic_records` table.
pub fn migrate_academic_records(rows: &Vec<LegacyRow>) -> (ps: Vec<AcademicRow>)
    ensures
        academics_planned(rows@, ps@),
{
    let mut ps: Vec<AcademicRow> = Vec::new();
    let mut i: usize = 0;
    while i < rows.len()
        invariant
            i <= rows@.len(),
            ps@.len() == i,
            forall|j: int| 0 <= j < i ==> academic_matches(rows@[j], #[trigger] ps@[j]),
        decreases rows@.len() - i,
    {
        ps.push(coerce_academic(&rows[i]));
        i += 1;
    }
    ps
}

/// Stage the whole legacy `behavior_records` table.
pub fn migrate_behavior_records(rows: &Vec<LegacyRow>) -> (ps: Vec<BehaviorRow>)
    ensures
        behaviors_planned(rows@, ps@),
{
    let mut ps: Vec<BehaviorRow> = Vec::new();
    let mut i: usize = 0;
    while i < rows.len()
        invariant
            i <= rows@.len(),
            ps@.len() == i,
            forall|j: int| 0 <= j < i ==> behavior_matches(rows@[j], #[trigger] ps@[j]),
        decreases rows@.len() - i,
    {
        ps.push(coerce_behavior(&rows[i]));
        i += 1;
    }
    ps
}

/// Stage the whole legacy `student_documents` table.
pub fn migrate_documents(rows: &Vec<LegacyRow>) -> (ps: Vec<DocumentRow>)
    ensures
        documents_planned(rows@, ps@),
{
    let mut ps: Vec<DocumentRow> = Vec::new();
    let mut i: usize = 0;
    while i < rows.len()
        invariant
            i <= rows@.len(),
            ps@.len() == i,
            forall|j: int| 0 <= j < i ==> document_matches(rows@[j], #[trigger] ps@[j]),
        decreases rows@.len() - i,
    {
        ps.push(coerce_document(&rows[i]));
        i += 1;
    }
    ps
}

/// Stage the whole legacy `settings` table.
pub fn migrate_settings(rows: &Vec<LegacyRow>) -> (ps: Vec<SettingRow>)
    ensures
        settings_planned(rows@, ps@),
{
    let mut ps: Vec<SettingRow> = Vec::new();
    let mut i: usize = 0;
    while i < rows.len()
        invariant
            i <= rows@.len(),
            ps@.len() == i,
            forall|j: int| 0 <= j < i ==> setting_matches(rows@[j], #[trigger] ps@[j]),
        decreases rows@.len() - i,
    {
        ps.push(coerce_setting(&rows[i]));
        i += 1;
    }
    ps
}

/// The row count of an optional legacy table; a missing table counts zero.
pub open spec fn table_len(t: Option<Vec<LegacyRow>>) -> nat {
    match t {
        Some(rows) => rows@.len(),
        None => 0,
    }
}

/// The rows of an optional legacy table; a missing table has none.
pub open spec fn table_rows(t: Option<Vec<LegacyRow>>) -> Seq<LegacyRow> {
    match t {
        Some(rows) => rows@,
        None => Seq::empty(),
    }
}

/// The error messages a migration of this legacy store gathers, in the
/// fixed category order.
pub open spec fn expected_errors(legacy: LegacyStore) -> Seq<Seq<char>> {
    let e0 = Seq::<Seq<char>>::empty();
    let e1 = if legacy.students is None {
        e0.push("Öğrenci migrasyonu: Öğrenci verileri okunamadı"@)
    } else {
        e0
    };
    let e2 = if legacy.counseling_sessions is None {
        e1.push("Görüşme migrasyonu: Görüşme verileri okunamadı"@)
    } else {
        e1
    };
    let e3 = if legacy.academic_records is None {
        e2.push("Akademik kayıt migrasyonu: Akademik kayıt verileri okunamadı"@)
    } else {
        e2
    };
    let e4 = if legacy.behavior_records is None {
        e3.push("Davranış kaydı migrasyonu: Davranış kaydı verileri okunamadı"@)
    } else {
        e3
    };
    if legacy.student_documents is None {
        e4.push("Belge migrasyonu: Belge verileri okunamadı"@)
    } else {
        e4
    }
}

/// The warning messages a migration of this legacy store gathers: a missing
/// `settings` table is only warned about, and a rollback adds one summary
/// warning.
pub open spec fn expected_warnings(legacy: LegacyStore) -> Seq<Seq<char>> {
    let w0 = Seq::<Seq<char>>::empty();
    let w1 = if legacy.settings is None {
        w0.push("Eski veritabanında settings tablosu bulunamadı."@)
    } else {
        w0
    };
    if expected_errors(legacy).len() > 0 {
        w1.push("Hatalar nedeniyle hiçbir değişiklik yapılmadı."@)
    } else {
        w1
    }
}

/// Every category's legacy table other than `settings` could be read.
pub open spec fn all_categories_readable(legacy: LegacyStore) -> bool {
    &&& legacy.students is Some
    &&& legacy.counseling_sessions is Some
    &&& legacy.academic_records is Some
    &&& legacy.behavior_records is Some
    &&& legacy.student_documents is Some
}

/// Run the whole migration: stage all six categories, then commit the
/// staged rows to the store only when no category failed. On any category
/// error the store is left exactly as it was, for every category.
pub fn migrate_from_legacy(legacy: &LegacyStore, store: &mut CurrentStore) -> (report:
    MigrationReport)
    ensures
        report.success == all_categories_readable(*legacy),
        report.success == (report.errors@.len() == 0),
        report.students_migrated == table_len(legacy.students),
        report.counseling_sessions_migrated == table_len(legacy.counseling_sessions),
        report.academic_records_migrated == table_len(legacy.academic_records),
        report.behavior_records_migrated == table_len(legacy.behavior_records),
        report.documents_migrated == table_len(legacy.student_documents),
        report.settings_migrated == table_len(legacy.settings),
        string_views(report.errors@) == expected_errors(*legacy),
        string_views(report.warnings@) == expected_warnings(*legacy),
        !report.success ==> *final(store) == *old(store),
        !report.success ==> report.warnings@.len() > 0,
        report.success ==> exists|ps: Seq<StudentRow>|
            #[trigger] students_planned(table_rows(legacy.students), ps)
                && final(store).students@ == fold_ignore(old(store).students@, ps),
        report.success ==> exists|ps: Seq<SessionRow>|
            #[trigger] sessions_planned(table_rows(legacy.counseling_sessions), ps)
                && final(store).counseling_sessions@ == fold_ignore(
                old(store).counseling_sessions@,
                ps,
            ),
        report.success ==> exists|ps: Seq<AcademicRow>|
            #[trigger] academics_planned(table_rows(legacy.academic_records), ps)
                && final(store).academic_records@ == fold_ignore(
                old(store).academic_records@,
                ps,
            ),
        report.success ==> exists|ps: Seq<BehaviorRow>|
            #[trigger] behaviors_planned(table_rows(legacy.behavior_records), ps)
                && final(store).behavior_records@ == fold_ignore(
                old(store).behavior_records@,
                ps,
            ),
        report.success ==> exists|ps: Seq<DocumentRow>|
            #[trigger] documents_planned(table_rows(legacy.student_documents), ps)
                && final(store).student_documents@ == fold_ignore(
                old(store).student_documents@,
                ps,
            ),
        report.success ==> exists|ps: Seq<SettingRow>|
            #[trigger] settings_planned(table_rows(legacy.settings), ps)
                && final(store).settings@ == fold_ignore(old(store).settings@, ps),
        final(store).users@ == old(store).users@,
        final(store).surveys@ == old(store).surveys@,
{
    let mut report = MigrationReport {
        success: false,
        students_migrated: 0,
        counseling_sessions_migrated: 0,
        academic_records_migrated: 0,
        behavior_records_migrated: 0,
        documents_migrated: 0,
        settings_migrated: 0,
        errors: Vec::new(),
        warnings: Vec::new(),
    };

    let mut pend_students: Vec<StudentRow> = Vec::new();
    let mut pend_sessions: Vec<SessionRow> = Vec::new();
    let mut pend_academics: Vec<AcademicRow> = Vec::new();
    let mut pend_behaviors: Vec<BehaviorRow> = Vec::new();
    let mut pend_documents: Vec<DocumentRow> = Vec::new();
    let mut pend_settings: Vec<SettingRow> = Vec::new();

    match &legacy.students {
        Some(rows) => {
            pend_students = migrate_students(rows);
            report.students_migrated = pend_students.len();
        },
        None => {
            report.errors.push(String::from_str("Öğrenci migrasyonu: Öğrenci verileri okunamadı"));
        },
    }
    match &legacy.counseling_sessions {
        Some(rows) => {
            pend_sessions = migrate_counseling_sessions(rows);
            report.counseling_sessions_migrated = pend_sessions.len();
        },
        None => {
            report.errors.push(
                String::from_str("Görüşme migrasyonu: Görüşme verileri okunamadı"),
            );
        },
    }
    match &legacy.academic_records {
        Some(rows) => {
            pend_academics = migrate_academic_records(rows);
            report.academic_records_migrated = pend_academics.len();
        },
        None => {
            report.errors.push(
                String::from_str("Akademik kayıt migrasyonu: Akademik kayıt verileri okunamadı"),
            );
        },
    }
    match &legacy.behavior_records {
        Some(rows) => {
            pend_behaviors = migrate_behavior_records(rows);
            report.behavior_records_migrated = pend_behaviors.len();
        },
        None => {
            report.errors.push(
                String::from_str("Davranış kaydı migrasyonu: Davranış kaydı verileri okunamadı"),
            );
        },
    }
    match &legacy.student_documents {
        Some(rows) => {
            pend_documents = migrate_documents(rows);
            report.documents_migrated = pend_documents.len();
        },
        None => {
            report.errors.push(String::from_str("Belge migrasyonu: Belge verileri okunamadı"));
        },
    }
    match &legacy.settings {
        Some(rows) => {
            pend_settings = migrate_settings(rows);
            report.settings_migrated = pend_settings.len();
        },
        None => {
            report.warnings.push(String::from_str("Eski veritabanında settings tablosu bulunamadı."));
        },
    }

    proof {
        assert(string_views(report.errors@) =~= expected_errors(*legacy));
    }

    if report.errors.len() == 0 {
        let ghost g_students = pend_students@;
        let ghost g_sessions = pend_sessions@;
        let ghost g_academics = pend_academics@;
        let ghost g_behaviors = pend_behaviors@;
        let ghost g_documents = pend_documents@;
        let ghost g_settings = pend_settings@;
        apply_ignore_all(&mut store.students, pend_students);
        apply_ignore_all(&mut store.counseling_sessions, pend_sessions);
        apply_ignore_all(&mut store.academic_records, pend_academics);
        apply_ignore_all(&mut store.behavior_records, pend_behaviors);
        apply_ignore_all(&mut store.student_documents, pend_documents);
        apply_ignore_all(&mut store.settings, pend_settings);
        report.success = true;
        proof {
            assert(students_planned(table_rows(legacy.students), g_students) && store.students@
                == fold_ignore(old(store).students@, g_students));
            assert(sessions_planned(table_rows(legacy.counseling_sessions), g_sessions)
                && store.counseling_sessions@ == fold_ignore(
                old(store).counseling_sessions@,
                g_sessions,
            ));
            assert(academics_planned(table_rows(legacy.academic_records), g_academics)
                && store.academic_records@ == fold_ignore(
                old(store).academic_records@,
                g_academics,
            ));
            assert(behaviors_planned(table_rows(legacy.behavior_records), g_behaviors)
                && store.behavior_records@ == fold_ignore(
                old(store).behavior_records@,
                g_behaviors,
            ));
            assert(documents_planned(table_rows(legacy.student_documents), g_documents)
                && store.student_documents@ == fold_ignore(
                old(store).student_documents@,
                g_documents,
            ));
            assert(settings_planned(table_rows(legacy.settings), g_settings) && store.settings@
                == fold_ignore(old(store).settings@, g_settings));
        }
    } else {
        report.warnings.push(String::from_str("Hatalar nedeniyle hiçbir değişiklik yapılmadı."));
    }
    proof {
        assert(string_views(report.warnings@) =~= expected_warnings(*legacy));
    }
    report
}

} // verus!
