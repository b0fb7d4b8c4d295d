//! An explicit model of the current store: one vector of typed rows per
//! table, with the two upsert policies the engines use — *ignore* (keep the
//! existing row on a key collision) and *replace* (overwrite it).

use vstd::prelude::*;

use crate::text::str_eq;

verus! {

/// A row addressed by a single string key.
pub trait KeyedRow: Sized {
    /// The row's key.
    spec fn key_spec(&self) -> Seq<char>;

    /// The key as it is stored.
    fn key(&self) -> (k: &String)
        ensures
            k@ == self.key_spec(),
    ;
}

/// Some row of `rows` carries the key `k`.
pub open spec fn has_key<T: KeyedRow>(rows: Seq<T>, k: Seq<char>) -> bool {
    exists|i: int| 0 <= i < rows.len() && (#[trigger] rows[i]).key_spec() == k
}

/// `rows` after an insert of `r` with replace-on-conflict semantics: the
/// first row with `r`'s key is overwritten, or `r` is appended.
pub open spec fn upsert_replace_seq<T: KeyedRow>(rows: Seq<T>, r: T) -> Seq<T>
    decreases rows.len(),
{
    if rows.len() == 0 {
        seq![r]
    } else if rows[0].key_spec() == r.key_spec() {
        seq![r] + rows.skip(1)
    } else {
        seq![rows[0]] + upsert_replace_seq(rows.skip(1), r)
    }
}

/// `rows` after an insert of `r` with ignore-on-conflict semantics: left
/// alone when `r`'s key is already present, else `r` is appended.
pub open spec fn upsert_ignore_seq<T: KeyedRow>(rows: Seq<T>, r: T) -> Seq<T>
    decreases rows.len(),
{
    if rows.len() == 0 {
        seq![r]
    } else if rows[0].key_spec() == r.key_spec() {
        rows
    } else {
        seq![rows[0]] + upsert_ignore_seq(rows.skip(1), r)
    }
}

/// A replace-upsert overwrites in place at the first matching index.
pub proof fn lemma_upsert_replace_at<T: KeyedRow>(rows: Seq<T>, r: T, i: int)
    requires
        0 <= i < rows.len(),
        rows[i].key_spec() == r.key_spec(),
        forall|j: int| 0 <= j < i ==> (#[trigger] rows[j]).key_spec() != r.key_spec(),
    ensures
        upsert_replace_seq(rows, r) == rows.update(i, r),
    decreases i,
{
    if i == 0 {
        assert(upsert_replace_seq(rows, r) =~= rows.update(0, r));
    } else {
        lemma_upsert_replace_at(rows.skip(1), r, i - 1);
        assert(upsert_replace_seq(rows, r) =~= rows.update(i, r));
    }
}

/// A replace-upsert of a fresh key appends.
pub proof fn lemma_upsert_replace_fresh<T: KeyedRow>(rows: Seq<T>, r: T)
    requires
        !has_key(rows, r.key_spec()),
    ensures
        upsert_replace_seq(rows, r) == rows.push(r),
    decreases rows.len(),
{
    if rows.len() == 0 {
        assert(upsert_replace_seq(rows, r) =~= rows.push(r));
    } else {
        assert(!has_key(rows.skip(1), r.key_spec()));
        lemma_upsert_replace_fresh(rows.skip(1), r);
        assert(upsert_replace_seq(rows, r) =~= rows.push(r));
    }
}

/// An ignore-upsert of a present key changes nothing.
pub proof fn lemma_upsert_ignore_present<T: KeyedRow>(rows: Seq<T>, r: T)
    requires
        has_key(rows, r.key_spec()),
    ensures
        upsert_ignore_seq(rows, r) == rows,
    decreases rows.len(),
{
    if rows.len() == 0 {
    } else if rows[0].key_spec() == r.key_spec() {
    } else {
        assert(has_key(rows.skip(1), r.key_spec())) by {
            let i = choose|i: int|
                0 <= i < rows.len() && (#[trigger] rows[i]).key_spec() == r.key_spec();
            assert(rows.skip(1)[i - 1].key_spec() == r.key_spec());
        }
        lemma_upsert_ignore_present(rows.skip(1), r);
        assert(upsert_ignore_seq(rows, r) =~= rows);
    }
}

/// An ignore-upsert of a fresh key appends.
pub proof fn lemma_upsert_ignore_fresh<T: KeyedRow>(rows: Seq<T>, r: T)
    requires
        !has_key(rows, r.key_spec()),
    ensures
        upsert_ignore_seq(rows, r) == rows.push(r),
    decreases rows.len(),
{
    if rows.len() == 0 {
        assert(upsert_ignore_seq(rows, r) =~= rows.push(r));
    } else {
        assert(rows[0].key_spec() != r.key_spec());
        assert(!has_key(rows.skip(1), r.key_spec()));
        lemma_upsert_ignore_fresh(rows.skip(1), r);
        assert(upsert_ignore_seq(rows, r) =~= rows.push(r));
    }
}

/// How a replace-upsert changes the table's length.
pub proof fn lemma_upsert_replace_len<T: KeyedRow>(rows: Seq<T>, r: T)
    ensures
        upsert_replace_seq(rows, r).len() == if has_key(rows, r.key_spec()) {
            rows.len()
        } else {
            rows.len() + 1
        },
    decreases rows.len(),
{
    if rows.len() == 0 {
    } else if rows[0].key_spec() == r.key_spec() {
        assert(has_key(rows, r.key_spec()));
    } else {
        lemma_upsert_replace_len(rows.skip(1), r);
        assert(has_key(rows.skip(1), r.key_spec()) ==> has_key(rows, r.key_spec())) by {
            if has_key(rows.skip(1), r.key_spec()) {
                let i = choose|i: int|
                    0 <= i < rows.skip(1).len() && (#[trigger] rows.skip(1)[i]).key_spec()
                        == r.key_spec();
                assert(rows[i + 1].key_spec() == r.key_spec());
            }
        }
        assert(has_key(rows, r.key_spec()) ==> has_key(rows.skip(1), r.key_spec())) by {
            if has_key(rows, r.key_spec()) {
                let i = choose|i: int|
                    0 <= i < rows.len() && (#[trigger] rows[i]).key_spec() == r.key_spec();
                assert(i != 0);
                assert(rows.skip(1)[i - 1].key_spec() == r.key_spec());
            }
        }
    }
}

/// The keys present after a replace-upsert: the old keys plus `r`'s.
pub proof fn lemma_upsert_replace_keys<T: KeyedRow>(rows: Seq<T>, r: T)
    ensures
        forall|k: Seq<char>|
            #[trigger] has_key(upsert_replace_seq(rows, r), k) <==> (has_key(rows, k) || k
                == r.key_spec()),
    decreases rows.len(),
{
    let result = upsert_replace_seq(rows, r);
    if rows.len() == 0 {
        assert forall|k: Seq<char>| #[trigger]
            has_key(result, k) <==> (has_key(rows, k) || k == r.key_spec()) by {
            if has_key(result, k) {
                let i = choose|i: int|
                    0 <= i < result.len() && (#[trigger] result[i]).key_spec() == k;
                assert(result[i] == r);
            }
            if k == r.key_spec() {
                assert(result[0].key_spec() == k);
            }
        }
    } else if rows[0].key_spec() == r.key_spec() {
        assert forall|k: Seq<char>| #[trigger]
            has_key(result, k) <==> (has_key(rows, k) || k == r.key_spec()) by {
            if has_key(result, k) {
                let i = choose|i: int|
                    0 <= i < result.len() && (#[trigger] result[i]).key_spec() == k;
                if i == 0 {
                    assert(k == r.key_spec());
                } else {
                    assert(rows[i].key_spec() == k);
                }
            }
            if has_key(rows, k) {
                let i = choose|i: int| 0 <= i < rows.len() && (#[trigger] rows[i]).key_spec() == k;
                if i == 0 {
                    assert(result[0].key_spec() == k);
                } else {
                    assert(result[i].key_spec() == k);
                }
            }
            if k == r.key_spec() {
                assert(result[0].key_spec() == k);
            }
        }
    } else {
        lemma_upsert_replace_keys(rows.skip(1), r);
        let sub = upsert_replace_seq(rows.skip(1), r);
        assert(result == seq![rows[0]] + sub);
        assert forall|k: Seq<char>| #[trigger]
            has_key(result, k) <==> (has_key(rows, k) || k == r.key_spec()) by {
            if has_key(result, k) {
                let i = choose|i: int|
                    0 <= i < result.len() && (#[trigger] result[i]).key_spec() == k;
                if i == 0 {
                    assert(rows[0].key_spec() == k);
                } else {
                    assert(sub[i - 1].key_spec() == k);
                    assert(has_key(sub, k));
                    if has_key(rows.skip(1), k) {
                        let j = choose|j: int|
                            0 <= j < rows.skip(1).len() && (#[trigger] rows.skip(1)[j]).key_spec()
                                == k;
                        assert(rows[j + 1].key_spec() == k);
                    }
                }
            }
            if has_key(rows, k) {
                let i = choose|i: int| 0 <= i < rows.len() && (#[trigger] rows[i]).key_spec() == k;
                if i == 0 {
                    assert(result[0].key_spec() == k);
                } else {
                    assert(rows.skip(1)[i - 1].key_spec() == k);
                    assert(has_key(rows.skip(1), k));
                    assert(has_key(sub, k));
                    let j = choose|j: int| 0 <= j < sub.len() && (#[trigger] sub[j]).key_spec() == k;
                    assert(result[j + 1].key_spec() == k);
                }
            }
            if k == r.key_spec() {
                assert(has_key(sub, k));
                let j = choose|j: int| 0 <= j < sub.len() && (#[trigger] sub[j]).key_spec() == k;
                assert(result[j + 1].key_spec() == k);
            }
        }
    }
}

/// The keys present after an ignore-upsert: the old keys plus `r`'s.
pub proof fn lemma_upsert_ignore_keys<T: KeyedRow>(rows: Seq<T>, r: T)
    ensures
        forall|k: Seq<char>|
            #[trigger] has_key(upsert_ignore_seq(rows, r), k) <==> (has_key(rows, k) || k
                == r.key_spec()),
{
    if has_key(rows, r.key_spec()) {
        lemma_upsert_ignore_present(rows, r);
    } else {
        lemma_upsert_ignore_fresh(rows, r);
        let result = rows.push(r);
        assert forall|k: Seq<char>| #[trigger]
            has_key(result, k) <==> (has_key(rows, k) || k == r.key_spec()) by {
            if has_key(result, k) {
                let i = choose|i: int|
                    0 <= i < result.len() && (#[trigger] result[i]).key_spec() == k;
                if i < rows.len() {
                    assert(rows[i].key_spec() == k);
                } else {
                    assert(result[i] == r);
                }
            }
            if has_key(rows, k) {
                let i = choose|i: int| 0 <= i < rows.len() && (#[trigger] rows[i]).key_spec() == k;
                assert(result[i].key_spec() == k);
            }
            if k == r.key_spec() {
                assert(result[rows.len() as int].key_spec() == k);
            }
        }
    }
}

/// A table after a whole batch of ignore-upserts, applied in order.
pub open spec fn fold_ignore<T: KeyedRow>(rows: Seq<T>, added: Seq<T>) -> Seq<T>
    decreases added.len(),
{
    if added.len() == 0 {
        rows
    } else {
        fold_ignore(upsert_ignore_seq(rows, added[0]), added.skip(1))
    }
}

/// A table after a whole batch of replace-upserts, applied in order.
pub open spec fn fold_replace<T: KeyedRow>(rows: Seq<T>, added: Seq<T>) -> Seq<T>
    decreases added.len(),
{
    if added.len() == 0 {
        rows
    } else {
        fold_replace(upsert_replace_seq(rows, added[0]), added.skip(1))
    }
}

/// Unfolding `has_key` one row at a time.
pub proof fn lemma_has_key_unfold<T: KeyedRow>(rows: Seq<T>, k: Seq<char>)
    requires
        rows.len() > 0,
    ensures
        has_key(rows, k) <==> (rows[0].key_spec() == k || has_key(rows.skip(1), k)),
{
    if has_key(rows, k) {
        let i = choose|i: int| 0 <= i < rows.len() && (#[trigger] rows[i]).key_spec() == k;
        if i > 0 {
            assert(rows.skip(1)[i - 1].key_spec() == k);
        }
    }
    if has_key(rows.skip(1), k) {
        let i = choose|i: int|
            0 <= i < rows.skip(1).len() && (#[trigger] rows.skip(1)[i]).key_spec() == k;
        assert(rows[i + 1].key_spec() == k);
    }
}

/// The keys present after a whole batch of replace-upserts: the old keys
/// plus every key of the batch.
pub proof fn lemma_fold_replace_haskey<T: KeyedRow>(rows: Seq<T>, added: Seq<T>, k: Seq<char>)
    ensures
        has_key(fold_replace(rows, added), k) <==> (has_key(rows, k) || has_key(added, k)),
    decreases added.len(),
{
    if added.len() == 0 {
        if has_key(added, k) {
            let i = choose|i: int| 0 <= i < added.len() && (#[trigger] added[i]).key_spec() == k;
        }
    } else {
        lemma_upsert_replace_keys(rows, added[0]);
        lemma_fold_replace_haskey(upsert_replace_seq(rows, added[0]), added.skip(1), k);
        lemma_has_key_unfold(added, k);
    }
}

/// The keys present after a whole batch of ignore-upserts: the old keys
/// plus every key of the batch.
pub proof fn lemma_fold_ignore_haskey<T: KeyedRow>(rows: Seq<T>, added: Seq<T>, k: Seq<char>)
    ensures
        has_key(fold_ignore(rows, added), k) <==> (has_key(rows, k) || has_key(added, k)),
    decreases added.len(),
{
    if added.len() == 0 {
        if has_key(added, k) {
            let i = choose|i: int| 0 <= i < added.len() && (#[trigger] added[i]).key_spec() == k;
        }
    } else {
        lemma_upsert_ignore_keys(rows, added[0]);
        lemma_fold_ignore_haskey(upsert_ignore_seq(rows, added[0]), added.skip(1), k);
        lemma_has_key_unfold(added, k);
    }
}

/// A batch of replace-upserts whose keys are all already present does not
/// change the table's length.
pub proof fn lemma_fold_replace_len_all_present<T: KeyedRow>(rows: Seq<T>, added: Seq<T>)
    requires
        forall|i: int| 0 <= i < added.len() ==> has_key(rows, (#[trigger] added[i]).key_spec()),
    ensures
        fold_replace(rows, added).len() == rows.len(),
    decreases added.len(),
{
    if added.len() > 0 {
        lemma_upsert_replace_len(rows, added[0]);
        lemma_upsert_replace_keys(rows, added[0]);
        let next = upsert_replace_seq(rows, added[0]);
        assert forall|i: int|
            0 <= i < added.skip(1).len() implies has_key(
            next,
            (#[trigger] added.skip(1)[i]).key_spec(),
        ) by {
            assert(added.skip(1)[i] == added[i + 1]);
            assert(has_key(rows, added[i + 1].key_spec()));
        }
        lemma_fold_replace_len_all_present(next, added.skip(1));
    }
}

/// A batch of ignore-upserts whose keys are all already present changes
/// nothing at all.
pub proof fn lemma_fold_ignore_all_present<T: KeyedRow>(rows: Seq<T>, added: Seq<T>)
    requires
        forall|i: int| 0 <= i < added.len() ==> has_key(rows, (#[trigger] added[i]).key_spec()),
    ensures
        fold_ignore(rows, added) == rows,
    decreases added.len(),
{
    if added.len() > 0 {
        assert(has_key(rows, added[0].key_spec()));
        lemma_upsert_ignore_present(rows, added[0]);
        assert forall|i: int|
            0 <= i < added.skip(1).len() implies has_key(
            rows,
            (#[trigger] added.skip(1)[i]).key_spec(),
        ) by {
            assert(added.skip(1)[i] == added[i + 1]);
        }
        lemma_fold_ignore_all_present(rows, added.skip(1));
    }
}

/// Insert `r` with replace-on-conflict semantics.
pub fn upsert_replace<T: KeyedRow>(rows: &mut Vec<T>, r: T)
    ensures
        final(rows)@ == upsert_replace_seq(old(rows)@, r),
{
    let n = rows.len();
    let mut i: usize = 0;
    while i < n
        invariant
            i <= n,
            n == rows@.len(),
            rows@ == old(rows)@,
            forall|j: int| 0 <= j < i ==> (#[trigger] rows@[j]).key_spec() != r.key_spec(),
        decreases n - i,
    {
        if str_eq(rows[i].key().as_str(), r.key().as_str()) {
            proof {
                lemma_upsert_replace_at(rows@, r, i as int);
            }
            rows[i] = r;
            return;
        }
        i += 1;
    }
    proof {
        lemma_upsert_replace_fresh(rows@, r);
    }
    rows.push(r);
}

/// Insert `r` with ignore-on-conflict semantics.
pub fn upsert_ignore<T: KeyedRow>(rows: &mut Vec<T>, r: T)
    ensures
        final(rows)@ == upsert_ignore_seq(old(rows)@, r),
{
    let n = rows.len();
    let mut i: usize = 0;
    while i < n
        invariant
            i <= n,
            n == rows@.len(),
            rows@ == old(rows)@,
            forall|j: int| 0 <= j < i ==> (#[trigger] rows@[j]).key_spec() != r.key_spec(),
        decreases n - i,
    {
        if str_eq(rows[i].key().as_str(), r.key().as_str()) {
            proof {
                assert(has_key(rows@, r.key_spec()));
                lemma_upsert_ignore_present(rows@, r);
            }
            return;
        }
        i += 1;
    }
    proof {
        lemma_upsert_ignore_fresh(rows@, r);
    }
    rows.push(r);
}

/// Apply a whole batch of ignore-upserts, in order.
pub fn apply_ignore_all<T: KeyedRow>(rows: &mut Vec<T>, added: Vec<T>)
    ensures
        final(rows)@ == fold_ignore(old(rows)@, added@),
{
    let mut added = added;
    let ghost orig_rows = rows@;
    let ghost orig_added = added@;
    while added.len() > 0
        invariant
            fold_ignore(orig_rows, orig_added) == fold_ignore(rows@, added@),
        decreases added@.len(),
    {
        let ghost before = added@;
        let r = added.remove(0);
        proof {
            assert(added@ =~= before.skip(1));
        }
        upsert_ignore(rows, r);
    }
}

/// Apply a whole batch of replace-upserts, in order.
pub fn apply_replace_all<T: KeyedRow>(rows: &mut Vec<T>, added: Vec<T>)
    ensures
        final(rows)@ == fold_replace(old(rows)@, added@),
{
    let mut added = added;
    let ghost orig_rows = rows@;
    let ghost orig_added = added@;
    while added.len() > 0
        invariant
            fold_replace(orig_rows, orig_added) == fold_replace(rows@, added@),
        decreases added@.len(),
    {
        let ghost before = added@;
        let r = added.remove(0);
        proof {
            assert(added@ =~= before.skip(1));
        }
        upsert_replace(rows, r);
    }
}

/// A current-store student row: the union of the columns the migration and
/// import engines write and the export engine reads.
pub struct StudentRow {
    pub id: String,
    pub name: String,
    pub surname: String,
    pub student_number: Option<String>,
    pub class: Option<String>,
    pub enrollment_date: String,
    pub gender: String,
    pub birth_date: Option<String>,
    pub contact_phone: Option<String>,
    pub contact_email: Option<String>,
    pub parent_name: Option<String>,
    pub parent_phone: Option<String>,
    pub risk: String,
    pub status: String,
    pub email: Option<String>,
    pub phone: Option<String>,
    pub address: Option<String>,
    pub avatar: Option<String>,
    pub parent_contact: Option<String>,
    pub notes: Option<String>,
    pub created_at: Option<String>,
    pub updated_at: Option<String>,
}

impl KeyedRow for StudentRow {
    open spec fn key_spec(&self) -> Seq<char> {
        self.id@
    }

    fn key(&self) -> (k: &String) {
        &self.id
    }
}

/// A current-store counseling-session row.
pub struct SessionRow {
    pub id: String,
    pub student_id: String,
    pub counselor_id: Option<String>,
    pub date: String,
    pub session_type: String,
    pub topic: Option<String>,
    pub notes: Option<String>,
    pub duration: Option<i64>,
    pub follow_up_required: Option<bool>,
    pub status: Option<String>,
    pub created_at: Option<String>,
    pub updated_at: Option<String>,
}

impl KeyedRow for SessionRow {
    open spec fn key_spec(&self) -> Seq<char> {
        self.id@
    }

    fn key(&self) -> (k: &String) {
        &self.id
    }
}

/// A current-store academic-record row. Floating-point columns are carried
/// as their decimal text.
pub struct AcademicRow {
    pub id: String,
    pub student_id: String,
    pub term: String,
    pub subject: Option<String>,
    pub exam_type: Option<String>,
    pub grade: Option<String>,
    pub date: Option<String>,
    pub gpa: Option<String>,
    pub attendance: Option<String>,
    pub absences: Option<i64>,
    pub created_at: Option<String>,
}

impl KeyedRow for AcademicRow {
    open spec fn key_spec(&self) -> Seq<char> {
        self.id@
    }

    fn key(&self) -> (k: &String) {
        &self.id
    }
}

/// A current-store behavior-record row.
pub struct BehaviorRow {
    pub id: String,
    pub student_id: String,
    pub date: String,
    pub behavior_type: String,
    pub description: String,
    pub severity: Option<String>,
}

impl KeyedRow for BehaviorRow {
    open spec fn key_spec(&self) -> Seq<char> {
        self.id@
    }

    fn key(&self) -> (k: &String) {
        &self.id
    }
}

/// A current-store student-document row.
pub struct DocumentRow {
    pub id: String,
    pub student_id: String,
    pub name: String,
    pub doc_type: String,
    pub data_url: String,
    pub uploaded_at: String,
}

impl KeyedRow for DocumentRow {
    open spec fn key_spec(&self) -> Seq<char> {
        self.id@
    }

    fn key(&self) -> (k: &String) {
        &self.id
    }
}

/// A current-store setting row, keyed by the setting's name.
pub struct SettingRow {
    pub key: String,
    pub value: String,
    pub setting_type: String,
    pub description: Option<String>,
}

impl KeyedRow for SettingRow {
    open spec fn key_spec(&self) -> Seq<char> {
        self.key@
    }

    fn key(&self) -> (k: &String) {
        &self.key
    }
}

/// A current-store user row. `None` for the password hash means the blank
/// hash that imported accounts get until the password is reset.
pub struct UserRow {
    pub id: String,
    pub name: String,
    pub email: String,
    pub password_hash: Option<String>,
    pub role: String,
    pub institution: String,
    pub is_active: bool,
    pub created_at: Option<String>,
    pub updated_at: Option<String>,
}

impl KeyedRow for UserRow {
    open spec fn key_spec(&self) -> Seq<char> {
        self.id@
    }

    fn key(&self) -> (k: &String) {
        &self.id
    }
}

/// A current-store survey row.
pub struct SurveyRow {
    pub id: String,
    pub title: String,
    pub description: Option<String>,
    pub survey_type: String,
    pub status: String,
    pub created_at: String,
}

impl KeyedRow for SurveyRow {
    open spec fn key_spec(&self) -> Seq<char> {
        self.id@
    }

    fn key(&self) -> (k: &String) {
        &self.id
    }
}

/// The application's live relational database, modelled table by table.
pub struct CurrentStore {
    pub students: Vec<StudentRow>,
    pub counseling_sessions: Vec<SessionRow>,
    pub academic_records: Vec<AcademicRow>,
    pub behavior_records: Vec<BehaviorRow>,
    pub student_documents: Vec<DocumentRow>,
    pub settings: Vec<SettingRow>,
    pub users: Vec<UserRow>,
    pub surveys: Vec<SurveyRow>,
}

impl CurrentStore {
    /// An empty store: every table has no rows.
    pub fn new() -> (r: CurrentStore)
        ensures
            r.students@.len() == 0,
            r.counseling_sessions@.len() == 0,
            r.academic_records@.len() == 0,
            r.behavior_records@.len() == 0,
            r.student_documents@.len() == 0,
            r.settings@.len() == 0,
            r.users@.len() == 0,
            r.surveys@.len() == 0,
    {
        CurrentStore {
            students: Vec::new(),
            counseling_sessions: Vec::new(),
            academic_records: Vec::new(),
            behavior_records: Vec::new(),
            student_documents: Vec::new(),
            settings: Vec::new(),
            users: Vec::new(),
            surveys: Vec::new(),
        }
    }
}

} // verus!
