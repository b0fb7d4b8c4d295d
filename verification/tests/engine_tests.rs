use rehber360::discover::{candidate_legacy_paths, detect_legacy_store};
use rehber360::document::{
    AcademicRecordExport, CounselingSessionExport, DatabaseExport, SurveyExport, UserExport,
};
use rehber360::export::{
    export_document, export_students_csv, get_export_statistics, serialize_database_export,
};
use rehber360::import::import_database;
use rehber360::legacy::{validate_legacy_store, LegacyColumn, LegacyRow, LegacyStore, LegacyValue};
use rehber360::migrate::migrate_from_legacy;
use rehber360::models::student::Student;
use rehber360::store::{CurrentStore, StudentRow, UserRow};

fn col(name: &str, value: LegacyValue) -> LegacyColumn {
    LegacyColumn {
        name: name.to_string(),
        value,
    }
}

fn text(s: &str) -> LegacyValue {
    LegacyValue::Text(s.to_string())
}

fn student_legacy_row(id: &str, name: &str) -> LegacyRow {
    LegacyRow {
        columns: vec![
            col("id", text(id)),
            col("name", text(name)),
            col("surname", text("Tester")),
        ],
    }
}

fn empty_table() -> Option<Vec<LegacyRow>> {
    Some(Vec::new())
}

fn full_legacy_store() -> LegacyStore {
    LegacyStore {
        students: Some(vec![
            student_legacy_row("s1", "Ada"),
            student_legacy_row("s2", "Grace"),
        ]),
        counseling_sessions: Some(vec![LegacyRow {
            columns: vec![
                col("id", text("c1")),
                col("studentId", text("s1")),
                col("type", text("individual")),
                col("duration", LegacyValue::Integer(30)),
                col("followUpRequired", LegacyValue::Boolean(true)),
            ],
        }]),
        academic_records: Some(vec![LegacyRow {
            columns: vec![
                col("id", text("a1")),
                col("studentId", text("s1")),
                col("term", text("2024-1")),
                col("gpa", LegacyValue::Real("3.5".to_string())),
            ],
        }]),
        behavior_records: empty_table(),
        student_documents: Some(vec![LegacyRow {
            columns: vec![
                col("id", text("d1")),
                col("studentId", text("s2")),
                col("name", text("report")),
                col("type", text("pdf")),
                col("dataUrl", text("data:...")),
            ],
        }]),
        settings: Some(vec![LegacyRow {
            columns: vec![col("key", text("theme")), col("value", text("dark"))],
        }]),
    }
}

#[test]
fn test_migration_commits_when_all_categories_read() {
    let legacy = full_legacy_store();
    let mut store = CurrentStore::new();
    let report = migrate_from_legacy(&legacy, &mut store);

    assert!(report.success);
    assert!(report.errors.is_empty());
    assert_eq!(report.students_migrated, 2);
    assert_eq!(report.counseling_sessions_migrated, 1);
    assert_eq!(report.academic_records_migrated, 1);
    assert_eq!(report.behavior_records_migrated, 0);
    assert_eq!(report.documents_migrated, 1);
    assert_eq!(report.settings_migrated, 1);
    assert!(report.warnings.is_empty());

    assert_eq!(store.students.len(), 2);
    assert_eq!(store.counseling_sessions.len(), 1);
    assert_eq!(store.academic_records.len(), 1);
    assert_eq!(store.behavior_records.len(), 0);
    assert_eq!(store.student_documents.len(), 1);
    assert_eq!(store.settings.len(), 1);

    assert_eq!(store.students[0].id, "s1");
    assert_eq!(store.students[0].name, "Ada");
    assert_eq!(store.students[0].surname, "Tester");
    // Category defaults fill in what the legacy row lacks.
    assert_eq!(store.students[0].enrollment_date, "2025-01-01");
    assert_eq!(store.students[0].gender, "Belirtilmemiş");
    assert_eq!(store.students[0].risk, "Düşük");
    assert_eq!(store.students[0].status, "active");
    assert_eq!(store.counseling_sessions[0].duration, Some(30));
    assert_eq!(store.counseling_sessions[0].follow_up_required, Some(true));
    assert_eq!(store.counseling_sessions[0].status.as_deref(), Some("completed"));
    assert_eq!(store.academic_records[0].gpa.as_deref(), Some("3.5"));
    assert_eq!(store.settings[0].key, "theme");
    assert_eq!(store.settings[0].setting_type, "string");
}

#[test]
fn test_migration_rolls_back_when_one_category_fails() {
    // A legacy store with students but no behavior_records table: the
    // behavior category errors, and nothing at all is written.
    let mut legacy = full_legacy_store();
    legacy.behavior_records = None;
    let mut store = CurrentStore::new();
    let report = migrate_from_legacy(&legacy, &mut store);

    assert!(!report.success);
    assert_eq!(report.errors.len(), 1);
    assert!(report.errors[0].contains("Davranış"));
    assert!(!report.warnings.is_empty());
    // The in-memory counters still show what was staged before the decision.
    assert_eq!(report.students_migrated, 2);
    assert_eq!(report.behavior_records_migrated, 0);
    // The store is untouched, for every category.
    assert_eq!(store.students.len(), 0);
    assert_eq!(store.counseling_sessions.len(), 0);
    assert_eq!(store.academic_records.len(), 0);
    assert_eq!(store.student_documents.len(), 0);
    assert_eq!(store.settings.len(), 0);
}

#[test]
fn test_migration_missing_settings_is_only_a_warning() {
    let mut legacy = full_legacy_store();
    legacy.settings = None;
    let mut store = CurrentStore::new();
    let report = migrate_from_legacy(&legacy, &mut store);

    assert!(report.success);
    assert!(report.errors.is_empty());
    assert_eq!(report.warnings.len(), 1);
    assert!(report.warnings[0].contains("settings"));
    assert_eq!(report.settings_migrated, 0);
    assert_eq!(store.students.len(), 2);
}

#[test]
fn test_migration_generates_fresh_ids() {
    let legacy = LegacyStore {
        students: Some(vec![LegacyRow {
            columns: vec![col("name", text("NoId"))],
        }]),
        counseling_sessions: empty_table(),
        academic_records: empty_table(),
        behavior_records: empty_table(),
        student_documents: empty_table(),
        settings: empty_table(),
    };
    let mut store = CurrentStore::new();
    let report = migrate_from_legacy(&legacy, &mut store);
    assert!(report.success);
    assert_eq!(store.students.len(), 1);
    // A missing id column becomes a fresh 36-character identifier.
    assert_eq!(store.students[0].id.chars().count(), 36);
}

#[test]
fn test_migration_replaces_empty_id() {
    // A present-but-empty id column also gets a fresh identifier: every
    // written record has a non-empty id.
    let legacy = LegacyStore {
        students: Some(vec![LegacyRow {
            columns: vec![col("id", text("")), col("name", text("EmptyId"))],
        }]),
        counseling_sessions: empty_table(),
        academic_records: empty_table(),
        behavior_records: empty_table(),
        student_documents: empty_table(),
        settings: empty_table(),
    };
    let mut store = CurrentStore::new();
    let report = migrate_from_legacy(&legacy, &mut store);
    assert!(report.success);
    assert_eq!(store.students[0].id.chars().count(), 36);
}

#[test]
fn test_migration_ignores_duplicate_ids() {
    let legacy = LegacyStore {
        students: Some(vec![
            student_legacy_row("dup", "First"),
            student_legacy_row("dup", "Second"),
        ]),
        counseling_sessions: empty_table(),
        academic_records: empty_table(),
        behavior_records: empty_table(),
        student_documents: empty_table(),
        settings: empty_table(),
    };
    let mut store = CurrentStore::new();
    let report = migrate_from_legacy(&legacy, &mut store);
    assert!(report.success);
    // The counter counts staged rows; the store keeps the first of the two.
    assert_eq!(report.students_migrated, 2);
    assert_eq!(store.students.len(), 1);
    assert_eq!(store.students[0].name, "First");
}

#[test]
fn test_validate_legacy_store() {
    let legacy = full_legacy_store();
    assert!(validate_legacy_store(&legacy));
    let mut no_students = full_legacy_store();
    no_students.students = None;
    assert!(!validate_legacy_store(&no_students));
}

fn doc_student(id: &str, name: &str) -> Student {
    Student {
        id: id.to_string(),
        name: name.to_string(),
        surname: "Tester".to_string(),
        email: None,
        phone: None,
        birthDate: None,
        address: None,
        class: Some("5A".to_string()),
        enrollmentDate: "2024-09-01".to_string(),
        status: "active".to_string(),
        avatar: None,
        parentContact: None,
        notes: None,
        gender: "F".to_string(),
        risk: "Dusuk".to_string(),
        created_at: "2024-09-01T00:00:00+00:00".to_string(),
        updated_at: "2024-09-02T00:00:00+00:00".to_string(),
    }
}

fn sample_document(version: &str) -> DatabaseExport {
    DatabaseExport {
        version: version.to_string(),
        exported_at: "2025-01-01T00:00:00+00:00".to_string(),
        students: vec![doc_student("s1", "Ada"), doc_student("s2", "Grace")],
        users: vec![UserExport {
            id: "u1".to_string(),
            name: "Admin".to_string(),
            email: "admin@example.com".to_string(),
            role: "admin".to_string(),
            institution: "School".to_string(),
            isActive: true,
            created_at: "2024-01-01T00:00:00+00:00".to_string(),
        }],
        counseling_sessions: vec![CounselingSessionExport {
            id: "c1".to_string(),
            studentId: "s1".to_string(),
            counselorId: "u1".to_string(),
            date: "2024-10-01".to_string(),
            duration: Some(45),
            session_type: "individual".to_string(),
            topic: Some("study".to_string()),
            notes: None,
            created_at: "2024-10-01T00:00:00+00:00".to_string(),
        }],
        academic_records: vec![AcademicRecordExport {
            id: "a1".to_string(),
            studentId: "s1".to_string(),
            term: "2024-1".to_string(),
            subject: "Math".to_string(),
            examType: "midterm".to_string(),
            grade: "87.5".to_string(),
            date: "2024-11-01".to_string(),
            created_at: "2024-11-01T00:00:00+00:00".to_string(),
        }],
        surveys: vec![SurveyExport {
            id: "q1".to_string(),
            title: "Climate".to_string(),
            description: None,
            survey_type: "class".to_string(),
            status: "open".to_string(),
            created_at: "2024-12-01T00:00:00+00:00".to_string(),
        }],
    }
}

#[test]
fn test_import_version_gate_rejects_and_writes_nothing() {
    let doc = sample_document("1.0.0");
    let mut store = CurrentStore::new();
    let now = "2025-02-02T00:00:00+00:00".to_string();
    let r = import_database(&doc, &mut store, &now);
    let err = r.unwrap_err();
    assert_eq!(err, "Unsupported export version: 1.0.0. Expected 2.0.0");
    assert_eq!(store.students.len(), 0);
    assert_eq!(store.users.len(), 0);
    assert_eq!(store.counseling_sessions.len(), 0);
    assert_eq!(store.academic_records.len(), 0);
}

#[test]
fn test_import_counts_and_message() {
    let doc = sample_document("2.0.0");
    let mut store = CurrentStore::new();
    let now = "2025-02-02T00:00:00+00:00".to_string();
    let res = import_database(&doc, &mut store, &now).unwrap();
    assert!(res.success);
    assert_eq!(res.students_imported, 2);
    assert_eq!(res.users_imported, 1);
    assert_eq!(res.sessions_imported, 1);
    assert_eq!(res.records_imported, 1);
    assert_eq!(
        res.message,
        "Import completed successfully. 2 students, 1 users, 1 sessions, 1 academic records imported"
    );
    assert_eq!(store.students.len(), 2);
    assert_eq!(store.users.len(), 1);
    // Imported users get a blank password hash.
    assert!(store.users[0].password_hash.is_none());
}

#[test]
fn test_import_twice_is_idempotent() {
    let doc = sample_document("2.0.0");
    let mut store = CurrentStore::new();
    let now1 = "2025-02-02T00:00:00+00:00".to_string();
    let now2 = "2025-03-03T00:00:00+00:00".to_string();
    import_database(&doc, &mut store, &now1).unwrap();
    let students_after_first = store.students.len();
    let sessions_after_first = store.counseling_sessions.len();
    let records_after_first = store.academic_records.len();
    let users_after_first: Vec<String> = store.users.iter().map(|u| u.id.clone()).collect();

    import_database(&doc, &mut store, &now2).unwrap();
    assert_eq!(store.students.len(), students_after_first);
    assert_eq!(store.counseling_sessions.len(), sessions_after_first);
    assert_eq!(store.academic_records.len(), records_after_first);
    let users_after_second: Vec<String> = store.users.iter().map(|u| u.id.clone()).collect();
    assert_eq!(users_after_second, users_after_first);
}

#[test]
fn test_import_replaces_students_but_keeps_users() {
    let doc = sample_document("2.0.0");
    let mut store = CurrentStore::new();
    // Pre-existing rows with the same keys the document carries.
    store.students.push(StudentRow {
        id: "s1".to_string(),
        name: "Old Name".to_string(),
        surname: "Old".to_string(),
        student_number: None,
        class: None,
        enrollment_date: "2020-01-01".to_string(),
        gender: "M".to_string(),
        birth_date: None,
        contact_phone: None,
        contact_email: None,
        parent_name: None,
        parent_phone: None,
        risk: "Dusuk".to_string(),
        status: "active".to_string(),
        email: None,
        phone: None,
        address: None,
        avatar: None,
        parent_contact: None,
        notes: None,
        created_at: None,
        updated_at: None,
    });
    store.users.push(UserRow {
        id: "u1".to_string(),
        name: "Live Admin".to_string(),
        email: "live@example.com".to_string(),
        password_hash: Some("$2b$hash".to_string()),
        role: "admin".to_string(),
        institution: "School".to_string(),
        is_active: true,
        created_at: None,
        updated_at: None,
    });
    let now = "2025-02-02T00:00:00+00:00".to_string();
    import_database(&doc, &mut store, &now).unwrap();

    // Replace semantics: the document's student state wins.
    assert_eq!(store.students.len(), 2);
    assert_eq!(store.students[0].id, "s1");
    assert_eq!(store.students[0].name, "Ada");
    // Ignore semantics: the live account, hash included, survives.
    assert_eq!(store.users.len(), 1);
    assert_eq!(store.users[0].name, "Live Admin");
    assert_eq!(store.users[0].password_hash.as_deref(), Some("$2b$hash"));
}

#[test]
fn test_serialize_document_exact_json() {
    let mut doc = sample_document("2.0.0");
    doc.students.truncate(1);
    doc.students[0].notes = Some("line1\nline2 \"quoted\"".to_string());
    let json = serialize_database_export(&doc);
    let expected = {
        let mut s = String::new();
        s.push_str("{\"version\":\"2.0.0\",\"exported_at\":\"2025-01-01T00:00:00+00:00\",");
        s.push_str("\"students\":[{\"id\":\"s1\",\"name\":\"Ada\",\"surname\":\"Tester\",");
        s.push_str("\"email\":null,\"phone\":null,\"birthDate\":null,\"address\":null,");
        s.push_str("\"class\":\"5A\",\"enrollmentDate\":\"2024-09-01\",\"status\":\"active\",");
        s.push_str("\"avatar\":null,\"parentContact\":null,");
        s.push_str("\"notes\":\"line1\\nline2 \\\"quoted\\\"\",\"gender\":\"F\",\"risk\":\"Dusuk\",");
        s.push_str("\"created_at\":\"2024-09-01T00:00:00+00:00\",\"updated_at\":\"2024-09-02T00:00:00+00:00\"}],");
        s.push_str("\"users\":[{\"id\":\"u1\",\"name\":\"Admin\",\"email\":\"admin@example.com\",");
        s.push_str("\"role\":\"admin\",\"institution\":\"School\",\"isActive\":true,");
        s.push_str("\"created_at\":\"2024-01-01T00:00:00+00:00\"}],");
        s.push_str("\"counseling_sessions\":[{\"id\":\"c1\",\"studentId\":\"s1\",\"counselorId\":\"u1\",");
        s.push_str("\"date\":\"2024-10-01\",\"duration\":45,\"type\":\"individual\",\"topic\":\"study\",");
        s.push_str("\"notes\":null,\"created_at\":\"2024-10-01T00:00:00+00:00\"}],");
        s.push_str("\"academic_records\":[{\"id\":\"a1\",\"studentId\":\"s1\",\"term\":\"2024-1\",");
        s.push_str("\"subject\":\"Math\",\"examType\":\"midterm\",\"grade\":87.5,\"date\":\"2024-11-01\",");
        s.push_str("\"created_at\":\"2024-11-01T00:00:00+00:00\"}],");
        s.push_str("\"surveys\":[{\"id\":\"q1\",\"title\":\"Climate\",\"description\":null,");
        s.push_str("\"type\":\"class\",\"status\":\"open\",\"created_at\":\"2024-12-01T00:00:00+00:00\"}]}");
        s
    };
    assert_eq!(json, expected);
}

#[test]
fn test_export_document_projects_store() {
    let legacy = full_legacy_store();
    let mut store = CurrentStore::new();
    migrate_from_legacy(&legacy, &mut store);
    let doc = export_document(&store, "2025-01-01T00:00:00+00:00".to_string());
    assert_eq!(doc.version, "2.0.0");
    assert_eq!(doc.exported_at, "2025-01-01T00:00:00+00:00");
    assert_eq!(doc.students.len(), 2);
    assert_eq!(doc.students[0].id, "s1");
    assert_eq!(doc.students[0].created_at, "");
    assert_eq!(doc.users.len(), 0);
    assert_eq!(doc.counseling_sessions.len(), 1);
    assert_eq!(doc.counseling_sessions[0].counselorId, "");
    assert_eq!(doc.academic_records.len(), 1);
    // A record migrated without a grade is exported with grade zero.
    assert_eq!(doc.academic_records[0].grade, "0");
    assert_eq!(doc.surveys.len(), 0);
}

#[test]
fn test_export_students_csv_exact() {
    let mut store = CurrentStore::new();
    store.students.push(StudentRow {
        id: "s1".to_string(),
        name: "Ada".to_string(),
        surname: "Tester".to_string(),
        student_number: None,
        class: Some("5A".to_string()),
        enrollment_date: "2024-09-01".to_string(),
        gender: "F".to_string(),
        birth_date: None,
        contact_phone: None,
        contact_email: None,
        parent_name: None,
        parent_phone: None,
        risk: "Dusuk".to_string(),
        status: "active".to_string(),
        email: Some("ada@example.com".to_string()),
        phone: None,
        address: None,
        avatar: None,
        parent_contact: None,
        notes: None,
        created_at: None,
        updated_at: None,
    });
    let csv = export_students_csv(&store);
    let expected = {
        let mut s = String::new();
        s.push_str("ID,Ad,Soyad,E-posta,Telefon,Doğum Tarihi,Sınıf,Kayıt Tarihi,Durum,Risk Seviyesi,Cinsiyet\n");
        s.push_str("s1,Ada,Tester,ada@example.com,,,5A,2024-09-01,active,Dusuk,F\n");
        s
    };
    assert_eq!(csv, expected);
}

#[test]
fn test_get_export_statistics() {
    let legacy = full_legacy_store();
    let mut store = CurrentStore::new();
    migrate_from_legacy(&legacy, &mut store);
    let stats = get_export_statistics(&store);
    assert_eq!(stats.total_students, 2);
    assert_eq!(stats.total_users, 0);
    assert_eq!(stats.total_sessions, 1);
    assert_eq!(stats.total_academic_records, 1);
}

#[test]
fn test_discovery_candidates_and_ordering() {
    let candidates = candidate_legacy_paths(
        &Some("/data".to_string()),
        &Some("/home/u".to_string()),
    );
    assert_eq!(
        candidates,
        vec![
            "/data/rehber360-electron/database.db".to_string(),
            "/home/u/.rehber360/database.db".to_string(),
            "./electron-db/database.db".to_string(),
        ]
    );
    // Only the third candidate exists: discovery returns exactly it.
    let found = detect_legacy_store(&candidates, &vec![false, false, true]);
    assert_eq!(found.as_deref(), Some("./electron-db/database.db"));
    // None exists: discovery returns none.
    let none = detect_legacy_store(&candidates, &vec![false, false, false]);
    assert!(none.is_none());
    // The first match wins over later ones.
    let first = detect_legacy_store(&candidates, &vec![true, true, true]);
    assert_eq!(first.as_deref(), Some("/data/rehber360-electron/database.db"));
}

#[test]
fn test_discovery_without_platform_dirs() {
    let candidates = candidate_legacy_paths(&None, &None);
    assert_eq!(candidates, vec!["./electron-db/database.db".to_string()]);
}

#[test]
fn test_coercion_type_mismatches_fall_back() {
    // A numeric name, a text duration and a null status all resolve to the
    // category defaults rather than failing.
    let legacy = LegacyStore {
        students: empty_table(),
        counseling_sessions: Some(vec![LegacyRow {
            columns: vec![
                col("id", text("c9")),
                col("studentId", LegacyValue::Integer(7)),
                col("duration", text("thirty")),
                col("status", LegacyValue::Null),
            ],
        }]),
        academic_records: empty_table(),
        behavior_records: empty_table(),
        student_documents: empty_table(),
        settings: empty_table(),
    };
    let mut store = CurrentStore::new();
    let report = migrate_from_legacy(&legacy, &mut store);
    assert!(report.success);
    let s = &store.counseling_sessions[0];
    assert_eq!(s.id, "c9");
    assert_eq!(s.student_id, "");
    assert_eq!(s.duration, None);
    assert_eq!(s.status.as_deref(), Some("completed"));
    // A document row without an upload timestamp gets a non-empty one.
    let legacy2 = LegacyStore {
        students: empty_table(),
        counseling_sessions: empty_table(),
        academic_records: empty_table(),
        behavior_records: empty_table(),
        student_documents: Some(vec![LegacyRow {
            columns: vec![col("id", text("d9"))],
        }]),
        settings: empty_table(),
    };
    let mut store2 = CurrentStore::new();
    migrate_from_legacy(&legacy2, &mut store2);
    assert!(!store2.student_documents[0].uploaded_at.is_empty());
}

#[test]
fn test_migration_keeps_first_duplicate_setting_key() {
    // Settings use ignore semantics like every category: the first row for
    // a key wins.
    let legacy = LegacyStore {
        students: empty_table(),
        counseling_sessions: empty_table(),
        academic_records: empty_table(),
        behavior_records: empty_table(),
        student_documents: empty_table(),
        settings: Some(vec![
            LegacyRow {
                columns: vec![col("key", text("theme")), col("value", text("light"))],
            },
            LegacyRow {
                columns: vec![col("key", text("theme")), col("value", text("dark"))],
            },
        ]),
    };
    let mut store = CurrentStore::new();
    let report = migrate_from_legacy(&legacy, &mut store);
    assert!(report.success);
    assert_eq!(report.settings_migrated, 2);
    assert_eq!(store.settings.len(), 1);
    assert_eq!(store.settings[0].value, "light");
}

#[test]
fn test_serialize_document_number_and_escape_edges() {
    let mut doc = sample_document("2.0.0");
    doc.students.clear();
    doc.users.clear();
    doc.academic_records.clear();
    doc.surveys.clear();
    doc.counseling_sessions[0].duration = Some(-5);
    doc.counseling_sessions[0].topic = Some("tabs\tand\\slashes".to_string());
    let json = serialize_database_export(&doc);
    assert!(json.contains("\"duration\":-5"));
    assert!(json.contains("\"topic\":\"tabs\\tand\\\\slashes\""));
    // No duration at all prints as null.
    doc.counseling_sessions[0].duration = None;
    let json2 = serialize_database_export(&doc);
    assert!(json2.contains("\"duration\":null"));
}

#[test]
fn test_import_document_with_duplicate_user_ids() {
    let mut doc = sample_document("2.0.0");
    let mut second = doc.users[0].clone();
    second.name = "Shadow".to_string();
    doc.users.push(second);
    let mut store = CurrentStore::new();
    let now = "2025-02-02T00:00:00+00:00".to_string();
    let res = import_database(&doc, &mut store, &now).unwrap();
    // The counter counts document records; the store keeps the first.
    assert_eq!(res.users_imported, 2);
    assert_eq!(store.users.len(), 1);
    assert_eq!(store.users[0].name, "Admin");
}
