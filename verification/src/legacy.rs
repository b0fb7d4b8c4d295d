//! The legacy store's untyped rows, and the field-coercion layer that
//! turns them into typed values with per-field fallback defaults.
//!
//! A legacy row is a column-named bag of scalar values; no shape is assumed
//! beyond "may or may not contain column X". A missing column, a null, or a
//! mistyped value never fails a coercion: it resolves to the caller's
//! fallback. Floating-point columns are carried as their decimal text, since
//! the engine never computes with them.

use vstd::prelude::*;

use crate::ids::new_uuid;
use crate::text::str_eq;

verus! {

/// One scalar value of a legacy column.
pub enum LegacyValue {
    Null,
    Integer(i64),
    /// The decimal text of a floating-point column, carried opaquely.
    Real(String),
    Text(String),
    Boolean(bool),
}

/// One named column of a legacy row.
pub struct LegacyColumn {
    pub name: String,
    pub value: LegacyValue,
}

/// An untyped, column-named bag of scalar values from the legacy store.
pub struct LegacyRow {
    pub columns: Vec<LegacyColumn>,
}

/// A whole legacy dataset, one optional table per entity category.
/// `None` means the table is missing or could not be read.
pub struct LegacyStore {
    pub students: Option<Vec<LegacyRow>>,
    pub counseling_sessions: Option<Vec<LegacyRow>>,
    pub academic_records: Option<Vec<LegacyRow>>,
    pub behavior_records: Option<Vec<LegacyRow>>,
    pub student_documents: Option<Vec<LegacyRow>>,
    pub settings: Option<Vec<LegacyRow>>,
}

/// The value of the first column with the given name, if any.
pub open spec fn lookup_column(cols: Seq<LegacyColumn>, name: Seq<char>) -> Option<LegacyValue>
    decreases cols.len(),
{
    if cols.len() == 0 {
        None
    } else if cols[0].name@ == name {
        Some(cols[0].value)
    } else {
        lookup_column(cols.skip(1), name)
    }
}

/// The text of the named column, or the default when the column is missing
/// or not text.
pub open spec fn coerced_string(cols: Seq<LegacyColumn>, name: Seq<char>, default: Seq<char>)
    -> Seq<char> {
    match lookup_column(cols, name) {
        Some(LegacyValue::Text(s)) => s@,
        _ => default,
    }
}

/// The text of the named column, when the column is present and text.
pub open spec fn coerced_opt_string(cols: Seq<LegacyColumn>, name: Seq<char>) -> Option<
    Seq<char>,
> {
    match lookup_column(cols, name) {
        Some(LegacyValue::Text(s)) => Some(s@),
        _ => None,
    }
}

/// The boolean of the named column, or the default. An integral zero or
/// one counts as a boolean, the way the legacy store keeps its flags.
pub open spec fn coerced_bool(cols: Seq<LegacyColumn>, name: Seq<char>, default: bool) -> bool {
    match lookup_column(cols, name) {
        Some(LegacyValue::Boolean(b)) => b,
        Some(LegacyValue::Integer(i)) => if i == 0 {
            false
        } else if i == 1 {
            true
        } else {
            default
        },
        _ => default,
    }
}

/// The integer of the named column, when present and integral.
pub open spec fn coerced_opt_int(cols: Seq<LegacyColumn>, name: Seq<char>) -> Option<i64> {
    match lookup_column(cols, name) {
        Some(LegacyValue::Integer(i)) => Some(i),
        _ => None,
    }
}

/// The decimal text of the named floating-point column, when present.
pub open spec fn coerced_opt_real(cols: Seq<LegacyColumn>, name: Seq<char>) -> Option<Seq<char>> {
    match lookup_column(cols, name) {
        Some(LegacyValue::Real(s)) => Some(s@),
        _ => None,
    }
}

impl LegacyRow {
    /// The first column with the given name, if any.
    fn find_value(&self, name: &str) -> (r: Option<&LegacyValue>)
        ensures
            match r {
                Some(v) => lookup_column(self.columns@, name@) == Some(*v),
                None => lookup_column(self.columns@, name@) is None,
            },
    {
        let mut i: usize = 0;
        proof {
            assert(self.columns@.skip(0) =~= self.columns@);
        }
        while i < self.columns.len()
            invariant
                i <= self.columns@.len(),
                lookup_column(self.columns@, name@) == lookup_column(
                    self.columns@.skip(i as int),
                    name@,
                ),
            decreases self.columns@.len() - i,
        {
            let eq = str_eq(self.columns[i].name.as_str(), name);
            proof {
                assert(self.columns@.skip(i as int)[0] == self.columns@[i as int]);
            }
            if eq {
                return Some(&self.columns[i].value);
            }
            proof {
                assert(self.columns@.skip(i as int).skip(1) =~= self.columns@.skip(i + 1));
            }
            i += 1;
        }
        None
    }

    /// The named column's text, or the given default.
    pub fn string_or(&self, name: &str, default: &str) -> (r: String)
        ensures
            r@ == coerced_string(self.columns@, name@, default@),
    {
        match self.find_value(name) {
            Some(LegacyValue::Text(s)) => s.clone(),
            _ => String::from_str(default),
        }
    }

    /// The named column's text, when it is present and text.
    pub fn optional_string(&self, name: &str) -> (r: Option<String>)
        ensures
            match coerced_opt_string(self.columns@, name@) {
                Some(v) => r matches Some(s) && s@ == v,
                None => r is None,
            },
    {
        match self.find_value(name) {
            Some(LegacyValue::Text(s)) => Some(s.clone()),
            _ => None,
        }
    }

    /// The named column's boolean, or the given default.
    pub fn bool_or(&self, name: &str, default: bool) -> (r: bool)
        ensures
            r == coerced_bool(self.columns@, name@, default),
    {
        match self.find_value(name) {
            Some(LegacyValue::Boolean(b)) => *b,
            Some(LegacyValue::Integer(i)) => {
                if *i == 0 {
                    false
                } else if *i == 1 {
                    true
                } else {
                    default
                }
            },
            _ => default,
        }
    }

    /// The named column's integer, when it is present and integral.
    pub fn optional_int(&self, name: &str) -> (r: Option<i64>)
        ensures
            r == coerced_opt_int(self.columns@, name@),
    {
        match self.find_value(name) {
            Some(LegacyValue::Integer(i)) => Some(*i),
            _ => None,
        }
    }

    /// The named floating-point column's decimal text, when it is present.
    pub fn optional_real(&self, name: &str) -> (r: Option<String>)
        ensures
            match coerced_opt_real(self.columns@, name@) {
                Some(v) => r matches Some(s) && s@ == v,
                None => r is None,
            },
    {
        match self.find_value(name) {
            Some(LegacyValue::Real(s)) => Some(s.clone()),
            _ => None,
        }
    }

    /// The row's `id` column, or a fresh 36-character identifier when the
    /// column is missing, not text, or empty. Every record the engine
    /// writes thus has a non-empty identifier.
    pub fn id_or_fresh(&self) -> (r: String)
        ensures
            id_assigned(self.columns@, r@),
            r@.len() > 0,
    {
        match self.optional_string("id") {
            Some(s) => {
                if s.as_str().is_empty() {
                    new_uuid()
                } else {
                    s
                }
            },
            None => new_uuid(),
        }
    }
}

/// How a stored identifier relates to the legacy row's `id` column: the
/// column's text when it is present and non-empty, else a fresh
/// 36-character identifier.
pub open spec fn id_assigned(cols: Seq<LegacyColumn>, id: Seq<char>) -> bool {
    match coerced_opt_string(cols, "id"@) {
        Some(v) => if v.len() > 0 {
            id == v
        } else {
            id.len() == 36
        },
        None => id.len() == 36,
    }
}

/// A legacy store is worth migrating exactly when its `students` table
/// could be read.
pub fn validate_legacy_store(store: &LegacyStore) -> (r: bool)
    ensures
        r == (store.students is Some),
{
    store.students.is_some()
}

} // verus!
