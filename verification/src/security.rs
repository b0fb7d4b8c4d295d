//! Input-validation and sanitization utilities.
//!
//! Everything here is character-level logic: length limits, HTML escaping,
//! path-traversal and forbidden-character checks for filenames, and
//! pattern screens for SQL-injection and cross-site-scripting attempts.

use vstd::prelude::*;

use crate::text::chars_of;
use crate::text::contains_chars;
use crate::text::contains_seq;
use crate::text::push_char;
use crate::text::string_from_chars;
use vstd::string::StringSliceAdditionalSpecFns;

verus! {

/// The ways a piece of user input can be rejected.
#[derive(Debug, Clone, PartialEq, Eq, Structural)]
pub enum ValidationError {
    InputTooLong { max: usize, actual: usize },
    ForbiddenCharacters,
    InvalidEmail,
    InvalidIdentifier,
    PathTraversal,
    SqlInjectionAttempt,
    XssAttempt,
}

/// Validate that the input is no longer than `max_length` bytes, the unit
/// in which the store measures its columns.
pub fn validate_length(input: &str, max_length: usize) -> (r: Result<(), ValidationError>)
    ensures
        r is Ok <==> input.spec_bytes().len() <= max_length,
        r is Err ==> r == Err::<(), ValidationError>(ValidationError::InputTooLong {
            max: max_length,
            actual: input.spec_bytes().len() as usize,
        }),
{
    let len = input.as_bytes().len();
    if len > max_length {
        return Err(ValidationError::InputTooLong { max: max_length, actual: len });
    }
    Ok(())
}

/// How one character is escaped for safe embedding in HTML. The ampersand
/// is in the escape set itself, so escaping character by character never
/// re-escapes an entity that the escaping introduced.
pub open spec fn escape_char(c: char) -> Seq<char> {
    if c == '&' {
        seq!['&', 'a', 'm', 'p', ';']
    } else if c == '<' {
        seq!['&', 'l', 't', ';']
    } else if c == '>' {
        seq!['&', 'g', 't', ';']
    } else if c == '"' {
        seq!['&', 'q', 'u', 'o', 't', ';']
    } else if c == '\'' {
        seq!['&', '#', 'x', '2', '7', ';']
    } else {
        seq![c]
    }
}

/// The whole input escaped character by character.
pub open spec fn sanitize_spec(s: Seq<char>) -> Seq<char>
    decreases s.len(),
{
    if s.len() == 0 {
        Seq::empty()
    } else {
        escape_char(s[0]) + sanitize_spec(s.skip(1))
    }
}

proof fn lemma_sanitize_push(s: Seq<char>, c: char)
    ensures
        sanitize_spec(s.push(c)) == sanitize_spec(s) + escape_char(c),
    decreases s.len(),
{
    if s.len() == 0 {
        assert(s.push(c).skip(1) =~= Seq::<char>::empty());
        assert(s.push(c)[0] == c);
        assert(sanitize_spec(s.push(c)) == escape_char(c) + sanitize_spec(Seq::<char>::empty()));
        assert(sanitize_spec(s) == Seq::<char>::empty());
        assert(escape_char(c) + Seq::<char>::empty() =~= Seq::<char>::empty() + escape_char(c));
    } else {
        assert(s.push(c).skip(1) =~= s.skip(1).push(c));
        lemma_sanitize_push(s.skip(1), c);
        assert(s.push(c)[0] == s[0]);
        assert(sanitize_spec(s.push(c)) == escape_char(s[0]) + (sanitize_spec(s.skip(1))
            + escape_char(c)));
        assert(sanitize_spec(s) == escape_char(s[0]) + sanitize_spec(s.skip(1)));
        assert(escape_char(s[0]) + (sanitize_spec(s.skip(1)) + escape_char(c)) =~= (escape_char(
            s[0],
        ) + sanitize_spec(s.skip(1))) + escape_char(c));
    }
}

/// Escape user input for safe embedding in HTML.
pub fn sanitize_html(input: &str) -> (r: String)
    ensures
        r@ == sanitize_spec(input@),
{
    let cs = chars_of(input);
    let mut out = String::new();
    let mut i: usize = 0;
    proof {
        assert(cs@.take(0) =~= Seq::<char>::empty());
    }
    while i < cs.len()
        invariant
            i <= cs@.len(),
            cs@ == input@,
            out@ == sanitize_spec(cs@.take(i as int)),
        decreases cs@.len() - i,
    {
        let c = cs[i];
        let ghost before = out@;
        if c == '&' {
            push_char(&mut out, '&');
            push_char(&mut out, 'a');
            push_char(&mut out, 'm');
            push_char(&mut out, 'p');
            push_char(&mut out, ';');
        } else if c == '<' {
            push_char(&mut out, '&');
            push_char(&mut out, 'l');
            push_char(&mut out, 't');
            push_char(&mut out, ';');
        } else if c == '>' {
            push_char(&mut out, '&');
            push_char(&mut out, 'g');
            push_char(&mut out, 't');
            push_char(&mut out, ';');
        } else if c == '"' {
            push_char(&mut out, '&');
            push_char(&mut out, 'q');
            push_char(&mut out, 'u');
            push_char(&mut out, 'o');
            push_char(&mut out, 't');
            push_char(&mut out, ';');
        } else if c == '\'' {
            push_char(&mut out, '&');
            push_char(&mut out, '#');
            push_char(&mut out, 'x');
            push_char(&mut out, '2');
            push_char(&mut out, '7');
            push_char(&mut out, ';');
        } else {
            push_char(&mut out, c);
        }
        proof {
            assert(out@ =~= before + escape_char(c));
            lemma_sanitize_push(cs@.take(i as int), c);
            assert(cs@.take(i + 1) =~= cs@.take(i as int).push(cs@[i as int]));
        }
        i += 1;
    }
    proof {
        assert(cs@.take(cs@.len() as int) =~= cs@);
    }
    out
}

/// The filename reaches outside its directory: a `..` component, a path
/// separator, or a leading dot.
pub open spec fn filename_has_traversal(s: Seq<char>) -> bool {
    contains_seq(s, ".."@) || s.contains('/') || s.contains('\\') || (s.len() > 0 && s[0] == '.')
}

/// A character that no filename may carry.
pub open spec fn forbidden_filename_char(c: char) -> bool {
    c == '<' || c == '>' || c == ':' || c == '"' || c == '|' || c == '?' || c == '*'
}

/// Some character of the filename is forbidden.
pub open spec fn filename_has_forbidden(s: Seq<char>) -> bool {
    exists|i: int| 0 <= i < s.len() && forbidden_filename_char(#[trigger] s[i])
}

fn scan_char(v: &Vec<char>, c: char) -> (r: bool)
    ensures
        r == v@.contains(c),
{
    let mut i: usize = 0;
    while i < v.len()
        invariant
            i <= v@.len(),
            forall|j: int| 0 <= j < i ==> v@[j] != c,
        decreases v@.len() - i,
    {
        if v[i] == c {
            return true;
        }
        i += 1;
    }
    false
}

fn scan_forbidden(v: &Vec<char>) -> (r: bool)
    ensures
        r == filename_has_forbidden(v@),
{
    let mut i: usize = 0;
    while i < v.len()
        invariant
            i <= v@.len(),
            forall|j: int| 0 <= j < i ==> !forbidden_filename_char(#[trigger] v@[j]),
        decreases v@.len() - i,
    {
        let c = v[i];
        if c == '<' || c == '>' || c == ':' || c == '"' || c == '|' || c == '?' || c == '*' {
            return true;
        }
        i += 1;
    }
    false
}

/// Check a filename for path traversal, forbidden characters and length.
/// An empty filename is rejected outright.
pub fn validate_filename(filename: &str) -> (r: Result<(), ValidationError>)
    ensures
        r is Ok <==> filename@.len() > 0 && !filename_has_traversal(filename@)
            && !filename_has_forbidden(filename@) && filename.spec_bytes().len() <= 255,
        filename@.len() == 0 ==> r == Err::<(), ValidationError>(
            ValidationError::ForbiddenCharacters,
        ),
        filename@.len() > 0 && filename_has_traversal(filename@) ==> r == Err::<(),
            ValidationError,
        >(ValidationError::PathTraversal),
        filename@.len() > 0 && !filename_has_traversal(filename@) && filename_has_forbidden(
            filename@,
        ) ==> r == Err::<(), ValidationError>(ValidationError::ForbiddenCharacters),
        filename.spec_bytes().len() > 255 && !filename_has_traversal(filename@)
            && !filename_has_forbidden(filename@) ==> r == Err::<(), ValidationError>(
            ValidationError::InputTooLong { max: 255, actual: filename.spec_bytes().len() as usize },
        ),
{
    let cs = chars_of(filename);
    if cs.len() == 0 {
        return Err(ValidationError::ForbiddenCharacters);
    }
    let dotdot = chars_of("..");
    if contains_chars(&cs, &dotdot) || scan_char(&cs, '/') || scan_char(&cs, '\\') || cs[0] == '.' {
        return Err(ValidationError::PathTraversal);
    }
    if scan_forbidden(&cs) {
        return Err(ValidationError::ForbiddenCharacters);
    }
    validate_length(filename, 255)
}

/// Every character is an ASCII decimal digit.
pub open spec fn all_ascii_digits(s: Seq<char>) -> bool {
    forall|i: int| 0 <= i < s.len() ==> '0' <= #[trigger] s[i] && s[i] <= '9'
}

/// Whether the character counts as numeric; the answer depends on the
/// character alone.
pub uninterp spec fn numeric_char(c: char) -> bool;

/// Relies on char::is_numeric: true exactly for the Unicode number
/// categories, which include the ASCII digits.
#[verifier::external_body]
fn is_numeric_char(c: char) -> (r: bool)
    ensures
        r == numeric_char(c),
        '0' <= c && c <= '9' ==> r,
{
    c.is_numeric()
}

/// Every character is numeric.
pub open spec fn all_numeric(s: Seq<char>) -> bool {
    forall|i: int| 0 <= i < s.len() ==> numeric_char(#[trigger] s[i])
}

/// Validate a student number: numeric characters only, 6 to 12 bytes.
pub fn validate_student_number(number: &str) -> (r: Result<(), ValidationError>)
    ensures
        r is Ok <==> all_numeric(number@) && 6 <= number.spec_bytes().len() <= 12,
        !all_numeric(number@) ==> r == Err::<(), ValidationError>(
            ValidationError::InvalidIdentifier,
        ),
        all_numeric(number@) && !(6 <= number.spec_bytes().len() <= 12) ==> r == Err::<(),
            ValidationError,
        >(ValidationError::InputTooLong { max: 12, actual: number.spec_bytes().len() as usize }),
{
    let cs = chars_of(number);
    let mut i: usize = 0;
    while i < cs.len()
        invariant
            i <= cs@.len(),
            cs@ == number@,
            forall|j: int| 0 <= j < i ==> numeric_char(#[trigger] cs@[j]),
        decreases cs@.len() - i,
    {
        if !is_numeric_char(cs[i]) {
            return Err(ValidationError::InvalidIdentifier);
        }
        i += 1;
    }
    let len = number.as_bytes().len();
    if len < 6 || len > 12 {
        return Err(ValidationError::InputTooLong { max: 12, actual: len });
    }
    Ok(())
}

/// What str::to_uppercase returns; the result depends on the characters
/// alone.
pub uninterp spec fn upper_of(s: Seq<char>) -> Seq<char>;

/// Relies on str::to_uppercase: the full Unicode uppercase mapping, a
/// function of the characters alone.
#[verifier::external_body]
fn to_uppercase_string(s: &str) -> (r: String)
    ensures
        r@ == upper_of(s@),
{
    s.to_uppercase()
}

/// What str::to_lowercase returns; the result depends on the characters
/// alone.
pub uninterp spec fn lower_of(s: Seq<char>) -> Seq<char>;

/// Relies on str::to_lowercase: the full Unicode lowercase mapping, a
/// function of the characters alone.
#[verifier::external_body]
fn to_lowercase_string(s: &str) -> (r: String)
    ensures
        r@ == lower_of(s@),
{
    s.to_lowercase()
}

/// The upper-cased input carries one of the SQL-injection marks.
pub open spec fn sql_suspicious(s: Seq<char>) -> bool {
    let up = upper_of(s);
    contains_seq(up, "'; DROP"@) || contains_seq(up, "'; DELETE"@) || contains_seq(
        up,
        "'; UPDATE"@,
    ) || contains_seq(up, "'; INSERT"@) || contains_seq(up, "' OR '1'='1"@) || contains_seq(
        up,
        "' OR 1=1"@,
    ) || contains_seq(up, "UNION SELECT"@) || contains_seq(up, "EXEC("@) || contains_seq(
        up,
        "EXECUTE("@,
    ) || contains_seq(up, "'--"@)
}

/// Screen the input for SQL-injection patterns, case-insensitively.
pub fn check_sql_injection(input: &str) -> (r: Result<(), ValidationError>)
    ensures
        r is Ok <==> !sql_suspicious(input@),
        r is Err ==> r == Err::<(), ValidationError>(ValidationError::SqlInjectionAttempt),
{
    let upper = to_uppercase_string(input);
    let up = chars_of(upper.as_str());
    if contains_chars(&up, &chars_of("'; DROP")) || contains_chars(&up, &chars_of("'; DELETE"))
        || contains_chars(&up, &chars_of("'; UPDATE")) || contains_chars(
        &up,
        &chars_of("'; INSERT"),
    ) || contains_chars(&up, &chars_of("' OR '1'='1")) || contains_chars(
        &up,
        &chars_of("' OR 1=1"),
    ) || contains_chars(&up, &chars_of("UNION SELECT")) || contains_chars(&up, &chars_of("EXEC("))
        || contains_chars(&up, &chars_of("EXECUTE(")) || contains_chars(&up, &chars_of("'--")) {
        return Err(ValidationError::SqlInjectionAttempt);
    }
    Ok(())
}

/// The lower-cased input carries one of the script-injection marks.
pub open spec fn xss_suspicious(s: Seq<char>) -> bool {
    let low = lower_of(s);
    contains_seq(low, "<script"@) || contains_seq(low, "javascript:"@) || contains_seq(
        low,
        "onerror="@,
    ) || contains_seq(low, "onload="@) || contains_seq(low, "onclick="@) || contains_seq(
        low,
        "<iframe"@,
    ) || contains_seq(low, "eval("@)
}

/// Screen the input for cross-site-scripting patterns, case-insensitively.
pub fn check_xss(input: &str) -> (r: Result<(), ValidationError>)
    ensures
        r is Ok <==> !xss_suspicious(input@),
        r is Err ==> r == Err::<(), ValidationError>(ValidationError::XssAttempt),
{
    let lower = to_lowercase_string(input);
    let low = chars_of(lower.as_str());
    if contains_chars(&low, &chars_of("<script")) || contains_chars(&low, &chars_of("javascript:"))
        || contains_chars(&low, &chars_of("onerror=")) || contains_chars(
        &low,
        &chars_of("onload="),
    ) || contains_chars(&low, &chars_of("onclick=")) || contains_chars(&low, &chars_of("<iframe"))
        || contains_chars(&low, &chars_of("eval(")) {
        return Err(ValidationError::XssAttempt);
    }
    Ok(())
}

/// Length check, injection screens, then HTML escaping, in that order.
pub fn validate_user_input(input: &str, max_length: usize) -> (r: Result<String, ValidationError>)
    ensures
        r is Ok <==> input.spec_bytes().len() <= max_length && !sql_suspicious(input@)
            && !xss_suspicious(input@),
        r matches Ok(s) ==> s@ == sanitize_spec(input@),
        input.spec_bytes().len() > max_length ==> r == Err::<String, ValidationError>(
            ValidationError::InputTooLong {
                max: max_length,
                actual: input.spec_bytes().len() as usize,
            },
        ),
        input.spec_bytes().len() <= max_length && sql_suspicious(input@) ==> r == Err::<String,
            ValidationError,
        >(ValidationError::SqlInjectionAttempt),
        input.spec_bytes().len() <= max_length && !sql_suspicious(input@) && xss_suspicious(
            input@,
        ) ==> r == Err::<String, ValidationError>(ValidationError::XssAttempt),
{
    match validate_length(input, max_length) {
        Ok(_) => (),
        Err(e) => {
            return Err(e);
        },
    }
    match check_sql_injection(input) {
        Ok(_) => (),
        Err(e) => {
            return Err(e);
        },
    }
    match check_xss(input) {
        Ok(_) => (),
        Err(e) => {
            return Err(e);
        },
    }
    Ok(sanitize_html(input))
}

/// An ASCII letter.
pub open spec fn ascii_alpha(c: char) -> bool {
    ('a' <= c && c <= 'z') || ('A' <= c && c <= 'Z')
}

/// An ASCII letter or digit.
pub open spec fn ascii_alnum(c: char) -> bool {
    ascii_alpha(c) || ('0' <= c && c <= '9')
}

/// A character allowed before the at sign of an email address.
pub open spec fn email_local_char(c: char) -> bool {
    ascii_alnum(c) || c == '.' || c == '_' || c == '%' || c == '+' || c == '-'
}

/// A character allowed in the domain body of an email address.
pub open spec fn email_domain_char(c: char) -> bool {
    ascii_alnum(c) || c == '.' || c == '-'
}

/// The address splits at `i` (the at sign) and `j` (the last dot): a
/// non-empty local part, a non-empty domain body, and a final segment of at
/// least two letters.
pub open spec fn email_split_at(s: Seq<char>, i: int, j: int) -> bool {
    &&& 1 <= i
    &&& i + 1 < j
    &&& j + 3 <= s.len()
    &&& s[i] == '@'
    &&& s[j] == '.'
    &&& forall|k: int| 0 <= k < i ==> email_local_char(#[trigger] s[k])
    &&& forall|k: int| i < k < j ==> email_domain_char(#[trigger] s[k])
    &&& forall|k: int| j < k < s.len() ==> ascii_alpha(#[trigger] s[k])
}

/// The character sequence is a well-formed email address.
pub open spec fn is_email(s: Seq<char>) -> bool {
    exists|i: int, j: int| email_split_at(s, i, j)
}

/// Validate an email address: a local part, one at sign, a domain body, and
/// a final segment of at least two letters.
#[verifier::loop_isolation(false)]
pub fn validate_email(email: &str) -> (r: Result<(), ValidationError>)
    ensures
        r is Ok <==> is_email(email@),
        r is Err ==> r == Err::<(), ValidationError>(ValidationError::InvalidEmail),
{
    let cs = chars_of(email);
    let n = cs.len();

    // The split position `i` of any decomposition must be an at sign, and
    // at signs can stand nowhere else; find the only candidate.
    let mut at: usize = 0;
    let mut seen_at = false;
    let mut k: usize = 0;
    while k < n
        invariant
            k <= n,
            n == cs@.len(),
            !seen_at ==> forall|m: int| 0 <= m < k ==> cs@[m] != '@',
            seen_at ==> at < k && cs@[at as int] == '@' && (forall|m: int|
                0 <= m < k && m != at ==> cs@[m] != '@'),
        decreases n - k,
    {
        if cs[k] == '@' {
            if seen_at {
                proof {
                    lemma_email_needs_single_at(cs@, at as int, k as int);
                }
                return Err(ValidationError::InvalidEmail);
            }
            at = k;
            seen_at = true;
        }
        k += 1;
    }
    if !seen_at {
        proof {
            assert(!is_email(cs@)) by {
                if is_email(cs@) {
                    let (i, j) = choose|i: int, j: int| email_split_at(cs@, i, j);
                    assert(cs@[i] == '@');
                }
            }
        }
        return Err(ValidationError::InvalidEmail);
    }
    let i = at;
    if i == 0 {
        proof {
            lemma_email_split_pins_at(cs@, i as int);
        }
        return Err(ValidationError::InvalidEmail);
    }

    // Everything before the at sign must be a local-part character.
    let mut k: usize = 0;
    while k < i
        invariant
            k <= i,
            i < n,
            n == cs@.len(),
            forall|m: int| 0 <= m < k ==> email_local_char(#[trigger] cs@[m]),
        decreases i - k,
    {
        let c = cs[k];
        if !(('a' <= c && c <= 'z') || ('A' <= c && c <= 'Z') || ('0' <= c && c <= '9') || c == '.'
            || c == '_' || c == '%' || c == '+' || c == '-') {
            proof {
                lemma_email_split_pins_at(cs@, i as int);
            }
            return Err(ValidationError::InvalidEmail);
        }
        k += 1;
    }

    // The split position `j` of any decomposition must be the last dot.
    let mut dot: usize = 0;
    let mut seen_dot = false;
    let mut k: usize = 0;
    while k < n
        invariant
            k <= n,
            n == cs@.len(),
            !seen_dot ==> forall|m: int| 0 <= m < k ==> cs@[m] != '.',
            seen_dot ==> dot < k && cs@[dot as int] == '.' && (forall|m: int|
                dot < m < k ==> cs@[m] != '.'),
        decreases n - k,
    {
        if cs[k] == '.' {
            dot = k;
            seen_dot = true;
        }
        k += 1;
    }
    if !seen_dot || dot <= i + 1 || n - dot < 3 {
        proof {
            lemma_email_split_pins_at(cs@, i as int);
            assert(!is_email(cs@)) by {
                if is_email(cs@) {
                    let (i2, j2) = choose|i2: int, j2: int| email_split_at(cs@, i2, j2);
                    assert(i2 == i as int);
                    assert(cs@[j2] == '.');
                    if seen_dot {
                        assert(j2 <= dot as int);
                        if j2 < dot as int {
                            assert(ascii_alpha(cs@[dot as int]));
                        }
                    }
                }
            }
        }
        return Err(ValidationError::InvalidEmail);
    }
    let j = dot;

    // The domain body between the at sign and the last dot.
    let mut k: usize = i + 1;
    while k < j
        invariant
            i < k <= j,
            j < n,
            n == cs@.len(),
            forall|m: int| i < m < k ==> email_domain_char(#[trigger] cs@[m]),
        decreases j - k,
    {
        let c = cs[k];
        if !(('a' <= c && c <= 'z') || ('A' <= c && c <= 'Z') || ('0' <= c && c <= '9') || c == '.'
            || c == '-') {
            proof {
                lemma_email_split_pins_at(cs@, i as int);
                lemma_email_split_pins_dot(cs@, i as int, j as int);
            }
            return Err(ValidationError::InvalidEmail);
        }
        k += 1;
    }

    // The final segment after the last dot: letters only.
    let mut k: usize = j + 1;
    while k < n
        invariant
            j < k <= n,
            n == cs@.len(),
            forall|m: int| j < m < k ==> ascii_alpha(#[trigger] cs@[m]),
        decreases n - k,
    {
        let c = cs[k];
        if !(('a' <= c && c <= 'z') || ('A' <= c && c <= 'Z')) {
            proof {
                lemma_email_split_pins_at(cs@, i as int);
                lemma_email_split_pins_dot(cs@, i as int, j as int);
            }
            return Err(ValidationError::InvalidEmail);
        }
        k += 1;
    }

    proof {
        assert(email_split_at(cs@, i as int, j as int));
    }
    Ok(())
}

/// Two distinct at signs rule out every decomposition: an at sign fits in
/// no region but the split point itself.
proof fn lemma_email_needs_single_at(s: Seq<char>, p1: int, p2: int)
    requires
        0 <= p1 < s.len(),
        0 <= p2 < s.len(),
        p1 != p2,
        s[p1] == '@',
        s[p2] == '@',
    ensures
        !is_email(s),
{
    if is_email(s) {
        let (i, j) = choose|i: int, j: int| email_split_at(s, i, j);
        assert(p1 == i) by {
            if p1 < i {
                assert(email_local_char(s[p1]));
            } else if p1 > i {
                if p1 < j {
                    assert(email_domain_char(s[p1]));
                } else if p1 > j {
                    assert(ascii_alpha(s[p1]));
                }
            }
        }
        assert(p2 == i) by {
            if p2 < i {
                assert(email_local_char(s[p2]));
            } else if p2 > i {
                if p2 < j {
                    assert(email_domain_char(s[p2]));
                } else if p2 > j {
                    assert(ascii_alpha(s[p2]));
                }
            }
        }
    }
}

/// Every decomposition's split point is the unique at sign.
proof fn lemma_email_split_pins_at(s: Seq<char>, p: int)
    requires
        0 <= p < s.len(),
        s[p] == '@',
        forall|m: int| 0 <= m < s.len() && m != p ==> s[m] != '@',
    ensures
        forall|i: int, j: int| email_split_at(s, i, j) ==> i == p,
{
    assert forall|i: int, j: int| email_split_at(s, i, j) implies i == p by {
        assert(s[i] == '@');
    }
}

/// Every decomposition's dot is the last dot of the whole address: the
/// letters after it leave no room for a later one.
proof fn lemma_email_split_pins_dot(s: Seq<char>, p: int, d: int)
    requires
        0 <= p < s.len(),
        0 <= d < s.len(),
        s[d] == '.',
        forall|i: int, j: int| email_split_at(s, i, j) ==> i == p,
        forall|m: int| d < m < s.len() ==> s[m] != '.',
    ensures
        forall|i: int, j: int| email_split_at(s, i, j) ==> j == d,
{
    assert forall|i: int, j: int| email_split_at(s, i, j) implies j == d by {
        assert(s[j] == '.');
        assert(j <= d);
        if j < d {
            assert(ascii_alpha(s[d]));
        }
    }
}

/// A character the phone validator strips before matching: spaces, dashes
/// and parentheses.
pub open spec fn phone_separator(c: char) -> bool {
    c == ' ' || c == '-' || c == '(' || c == ')'
}

/// The phone number with its separators removed.
pub open spec fn phone_stripped(s: Seq<char>) -> Seq<char>
    decreases s.len(),
{
    if s.len() == 0 {
        Seq::empty()
    } else if phone_separator(s.last()) {
        phone_stripped(s.drop_last())
    } else {
        phone_stripped(s.drop_last()).push(s.last())
    }
}

/// Ten digits, the first of them non-zero.
pub open spec fn phone_core(t: Seq<char>) -> bool {
    t.len() == 10 && '1' <= t[0] && t[0] <= '9' && (forall|k: int|
        1 <= k < 10 ==> '0' <= #[trigger] t[k] && t[k] <= '9')
}

/// The stripped number is a Turkish phone number: ten digits starting with
/// a non-zero digit, optionally prefixed by a plus-nine-zero or a zero.
pub open spec fn is_turkish_phone(t: Seq<char>) -> bool {
    ||| (t.len() == 13 && t[0] == '+' && t[1] == '9' && t[2] == '0' && phone_core(t.skip(3)))
    ||| (t.len() == 11 && t[0] == '0' && phone_core(t.skip(1)))
    ||| phone_core(t)
}

fn strip_phone(cs: &Vec<char>) -> (r: Vec<char>)
    ensures
        r@ == phone_stripped(cs@),
{
    let mut r: Vec<char> = Vec::new();
    let mut k: usize = 0;
    proof {
        assert(phone_stripped(cs@.take(0)) =~= r@);
    }
    while k < cs.len()
        invariant
            k <= cs@.len(),
            r@ == phone_stripped(cs@.take(k as int)),
        decreases cs@.len() - k,
    {
        let c = cs[k];
        proof {
            assert(cs@.take(k + 1).drop_last() =~= cs@.take(k as int));
            assert(cs@.take(k + 1).last() == cs@[k as int]);
        }
        if !(c == ' ' || c == '-' || c == '(' || c == ')') {
            r.push(c);
        }
        k += 1;
    }
    proof {
        assert(cs@.take(cs@.len() as int) =~= cs@);
    }
    r
}

fn check_phone_core(t: &Vec<char>, from: usize) -> (r: bool)
    requires
        from <= t@.len(),
    ensures
        r == phone_core(t@.skip(from as int)),
{
    if t.len() - from != 10 {
        return false;
    }
    let first = t[from];
    if !('1' <= first && first <= '9') {
        proof {
            assert(t@.skip(from as int)[0] == t@[from as int]);
        }
        return false;
    }
    let mut k: usize = 1;
    while k < 10
        invariant
            1 <= k <= 10,
            from + 10 == t@.len(),
            t@.len() <= usize::MAX,
            forall|m: int| 1 <= m < k ==> '0' <= #[trigger] t@[from + m] && t@[from + m] <= '9',
        decreases 10 - k,
    {
        let c = t[from + k];
        if !('0' <= c && c <= '9') {
            proof {
                assert(t@.skip(from as int)[k as int] == t@[from + k]);
            }
            return false;
        }
        k += 1;
    }
    proof {
        assert(phone_core(t@.skip(from as int))) by {
            assert(t@.skip(from as int)[0] == t@[from as int]);
            assert(forall|m: int|
                1 <= m < 10 ==> #[trigger] t@.skip(from as int)[m] == t@[from + m]);
        }
    }
    true
}

/// Validate a Turkish phone number, ignoring spaces, dashes and parentheses.
#[verifier::loop_isolation(false)]
pub fn validate_turkish_phone(phone: &str) -> (r: Result<(), ValidationError>)
    ensures
        r is Ok <==> is_turkish_phone(phone_stripped(phone@)),
        r is Err ==> r == Err::<(), ValidationError>(ValidationError::InvalidIdentifier),
{
    let cs = chars_of(phone);
    let t = strip_phone(&cs);
    if t.len() == 13 && t[0] == '+' && t[1] == '9' && t[2] == '0' {
        if check_phone_core(&t, 3) {
            proof {
                assert(t@.len() == 13 && t@[0] == '+' && t@[1] == '9' && t@[2] == '0'
                    && phone_core(t@.skip(3)));
                assert(is_turkish_phone(t@));
                assert(phone_stripped(phone@) == t@);
            }
            return Ok(());
        }
    }
    if t.len() == 11 && t[0] == '0' {
        if check_phone_core(&t, 1) {
            return Ok(());
        }
    }
    if t.len() == 10 {
        if check_phone_core(&t, 0) {
            proof {
                assert(t@.skip(0) =~= t@);
            }
            return Ok(());
        }
    }
    proof {
        if t@.len() == 10 {
            assert(t@.skip(0) =~= t@);
        }
    }
    Err(ValidationError::InvalidIdentifier)
}

/// A character allowed in a person's name: letters, including the Turkish
/// ones, spaces, apostrophes and hyphens.
pub open spec fn name_char(c: char) -> bool {
    ascii_alpha(c) || c == 'ğ' || c == 'ü' || c == 'ş' || c == 'ı' || c == 'ö' || c == 'ç' || c
        == 'Ğ' || c == 'Ü' || c == 'Ş' || c == 'İ' || c == 'Ö' || c == 'Ç' || c == ' ' || c == '\''
        || c == '-'
}

/// Leading spaces removed.
pub open spec fn trim_start_spaces(s: Seq<char>) -> Seq<char>
    decreases s.len(),
{
    if s.len() > 0 && s[0] == ' ' {
        trim_start_spaces(s.skip(1))
    } else {
        s
    }
}

/// Trailing spaces removed.
pub open spec fn trim_end_spaces(s: Seq<char>) -> Seq<char>
    decreases s.len(),
{
    if s.len() > 0 && s.last() == ' ' {
        trim_end_spaces(s.drop_last())
    } else {
        s
    }
}

/// Leading and trailing spaces removed.
pub open spec fn trimmed_spaces(s: Seq<char>) -> Seq<char> {
    trim_end_spaces(trim_start_spaces(s))
}

proof fn lemma_trim_start_at(s: Seq<char>, a: int)
    requires
        0 <= a <= s.len(),
        forall|k: int| 0 <= k < a ==> s[k] == ' ',
        a < s.len() ==> s[a] != ' ',
    ensures
        trim_start_spaces(s) == s.skip(a),
    decreases a,
{
    if a == 0 {
        assert(s.skip(0) =~= s);
    } else {
        assert(s[0] == ' ');
        assert(forall|k: int| 0 <= k < a - 1 ==> #[trigger] s.skip(1)[k] == s[k + 1]);
        lemma_trim_start_at(s.skip(1), a - 1);
        assert(s.skip(1).skip(a - 1) =~= s.skip(a));
    }
}

proof fn lemma_trim_end_at(s: Seq<char>, b: int)
    requires
        0 <= b <= s.len(),
        forall|k: int| b <= k < s.len() ==> s[k] == ' ',
        b > 0 ==> s[b - 1] != ' ',
    ensures
        trim_end_spaces(s) == s.take(b),
    decreases s.len() - b,
{
    if b == s.len() {
        assert(s.take(b) =~= s);
    } else {
        assert(s.last() == ' ');
        assert(forall|k: int| 0 <= k < s.len() - 1 ==> #[trigger] s.drop_last()[k] == s[k]);
        lemma_trim_end_at(s.drop_last(), b);
        assert(s.drop_last().take(b) =~= s.take(b));
    }
}

/// Validate and tidy a person's name: letters (Turkish ones included),
/// spaces, apostrophes and hyphens, at least two characters and at most a
/// hundred bytes; the result is the name with outer spaces removed.
#[verifier::loop_isolation(false)]
pub fn validate_name(name: &str) -> (r: Result<String, ValidationError>)
    ensures
        r is Ok <==> (name.spec_bytes().len() <= 100 && 2 <= name@.len() && (forall|k: int|
            0 <= k < name@.len() ==> name_char(#[trigger] name@[k]))),
        r matches Ok(t) ==> t@ == trimmed_spaces(name@),
        name.spec_bytes().len() > 100 ==> r == Err::<String, ValidationError>(
            ValidationError::InputTooLong { max: 100, actual: name.spec_bytes().len() as usize },
        ),
        r is Err && name.spec_bytes().len() <= 100 ==> r == Err::<String, ValidationError>(
            ValidationError::ForbiddenCharacters,
        ),
{
    let nb = name.as_bytes().len();
    if nb > 100 {
        return Err(ValidationError::InputTooLong { max: 100, actual: nb });
    }
    let cs = chars_of(name);
    let n = cs.len();
    if n < 2 {
        return Err(ValidationError::ForbiddenCharacters);
    }
    let mut k: usize = 0;
    while k < n
        invariant
            k <= n,
            n == cs@.len(),
            forall|m: int| 0 <= m < k ==> name_char(#[trigger] cs@[m]),
        decreases n - k,
    {
        let c = cs[k];
        if !(('a' <= c && c <= 'z') || ('A' <= c && c <= 'Z') || c == 'ğ' || c == 'ü' || c == 'ş'
            || c == 'ı' || c == 'ö' || c == 'ç' || c == 'Ğ' || c == 'Ü' || c == 'Ş' || c == 'İ'
            || c == 'Ö' || c == 'Ç' || c == ' ' || c == '\'' || c == '-') {
            return Err(ValidationError::ForbiddenCharacters);
        }
        k += 1;
    }
    // Locate the first and last characters that are not spaces.
    let mut a: usize = 0;
    while a < n && cs[a] == ' '
        invariant
            a <= n,
            n == cs@.len(),
            forall|m: int| 0 <= m < a ==> cs@[m] == ' ',
        decreases n - a,
    {
        a += 1;
    }
    let mut b: usize = n;
    while b > a && cs[b - 1] == ' '
        invariant
            a <= b <= n,
            n == cs@.len(),
            forall|m: int| b <= m < n ==> cs@[m] == ' ',
        decreases b,
    {
        b -= 1;
    }
    let mut out: Vec<char> = Vec::new();
    let mut k: usize = a;
    while k < b
        invariant
            a <= k <= b <= n,
            n == cs@.len(),
            out@ == cs@.subrange(a as int, k as int),
        decreases b - k,
    {
        out.push(cs[k]);
        proof {
            assert(cs@.subrange(a as int, k + 1) =~= cs@.subrange(a as int, k as int).push(
                cs@[k as int],
            ));
        }
        k += 1;
    }
    proof {
        lemma_trim_start_at(cs@, a as int);
        if b > a {
            assert(forall|m: int|
                0 <= m < cs@.skip(a as int).len() ==> #[trigger] cs@.skip(a as int)[m] == cs@[m
                    + a]);
            lemma_trim_end_at(cs@.skip(a as int), b - a);
        } else {
            // Only spaces: the start trim already consumed everything.
            assert(cs@.skip(a as int) =~= Seq::<char>::empty());
            assert(trim_end_spaces(cs@.skip(a as int)) == cs@.skip(a as int));
        }
        assert(cs@.skip(a as int).take(b - a) =~= cs@.subrange(a as int, b as int));
        assert(out@ == trimmed_spaces(cs@));
    }
    Ok(string_from_chars(&out))
}

/// Whether uuid's parser accepts the text; the answer depends on the
/// characters alone.
pub uninterp spec fn uuid_text(s: Seq<char>) -> bool;

/// Relies on uuid::Uuid::parse_str: accepts or rejects the text by its
/// characters alone.
#[verifier::external_body]
fn parse_uuid_ok(s: &str) -> (r: bool)
    ensures
        r == uuid_text(s@),
{
    uuid::Uuid::parse_str(s).is_ok()
}

/// The numeric value of one decimal digit.
pub open spec fn digit_val(c: char) -> int {
    if c == '0' { 0 }
    else if c == '1' { 1 }
    else if c == '2' { 2 }
    else if c == '3' { 3 }
    else if c == '4' { 4 }
    else if c == '5' { 5 }
    else if c == '6' { 6 }
    else if c == '7' { 7 }
    else if c == '8' { 8 }
    else { 9 }
}

/// The value of a run of decimal digits.
pub open spec fn digits_value(s: Seq<char>) -> int
    decreases s.len(),
{
    if s.len() == 0 {
        0
    } else {
        digits_value(s.drop_last()) * 10 + digit_val(s.last())
    }
}

/// Ten to the given power.
pub open spec fn pow10(n: nat) -> int
    decreases n,
{
    if n == 0 {
        1
    } else {
        10 * pow10((n - 1) as nat)
    }
}

proof fn lemma_digits_value_upper(s: Seq<char>)
    requires
        all_ascii_digits(s),
    ensures
        0 <= digits_value(s) < pow10(s.len()),
    decreases s.len(),
{
    if s.len() > 0 {
        assert(all_ascii_digits(s.drop_last()));
        lemma_digits_value_upper(s.drop_last());
        let v = digits_value(s.drop_last());
        let p = pow10((s.len() - 1) as nat);
        let d = digit_val(s.last());
        assert(0 <= d <= 9);
        assert(v * 10 + d < p * 10) by (nonlinear_arith)
            requires
                0 <= v < p,
                0 <= d <= 9,
        ;
        assert(0 <= v * 10 + d) by (nonlinear_arith)
            requires
                0 <= v,
                0 <= d,
        ;
    }
}

proof fn lemma_digits_value_lower(s: Seq<char>)
    requires
        all_ascii_digits(s),
        s.len() > 0,
        s[0] != '0',
    ensures
        digits_value(s) >= pow10((s.len() - 1) as nat),
    decreases s.len(),
{
    if s.len() == 1 {
        assert(digit_val(s.last()) >= 1);
    } else {
        assert(all_ascii_digits(s.drop_last()));
        assert(s.drop_last()[0] == s[0]);
        lemma_digits_value_lower(s.drop_last());
        let v = digits_value(s.drop_last());
        let p = pow10((s.len() - 2) as nat);
        let d = digit_val(s.last());
        assert(v * 10 >= p * 10) by (nonlinear_arith)
            requires
                v >= p,
        ;
        assert(digit_val(s.last()) >= 0);
    }
}

proof fn lemma_digits_value_skip_zero(s: Seq<char>)
    requires
        s.len() > 0,
        s[0] == '0',
    ensures
        digits_value(s) == digits_value(s.skip(1)),
    decreases s.len(),
{
    if s.len() == 1 {
        assert(s.skip(1) =~= Seq::<char>::empty());
        assert(s.drop_last() =~= Seq::<char>::empty());
        assert(digits_value(s) == digits_value(s.drop_last()) * 10 + digit_val(s.last()));
    } else {
        assert(s.drop_last()[0] == s[0]);
        lemma_digits_value_skip_zero(s.drop_last());
        assert(s.skip(1).drop_last() =~= s.drop_last().skip(1));
        assert(s.skip(1).last() == s.last());
        assert(s.skip(1).len() > 0);
        assert(digits_value(s.skip(1)) == digits_value(s.skip(1).drop_last()) * 10 + digit_val(
            s.skip(1).last(),
        ));
        assert(digits_value(s) == digits_value(s.drop_last()) * 10 + digit_val(s.last()));
    }
}

proof fn lemma_pow10_mono(a: nat, b: nat)
    requires
        a <= b,
    ensures
        pow10(a) <= pow10(b),
    decreases b,
{
    if a < b {
        lemma_pow10_mono(a, (b - 1) as nat);
        assert(pow10((b - 1) as nat) >= 1) by {
            lemma_pow10_positive((b - 1) as nat);
        }
    }
}

proof fn lemma_pow10_positive(n: nat)
    ensures
        pow10(n) >= 1,
    decreases n,
{
    if n > 0 {
        lemma_pow10_positive((n - 1) as nat);
    }
}

/// The text parses as a signed 64-bit integer: an optional sign, then at
/// least one digit, with the value in range.
pub open spec fn is_i64_text(s: Seq<char>) -> bool {
    let signed = s.len() > 0 && (s[0] == '+' || s[0] == '-');
    let body = if signed {
        s.skip(1)
    } else {
        s
    };
    &&& body.len() > 0
    &&& all_ascii_digits(body)
    &&& (if s.len() > 0 && s[0] == '-' {
        digits_value(body) <= 0x8000000000000000
    } else {
        digits_value(body) <= 0x7fffffffffffffff
    })
}

#[verifier::loop_isolation(false)]
#[verifier::rlimit(100)]
fn check_i64_text(cs: &Vec<char>) -> (r: bool)
    ensures
        r == is_i64_text(cs@),
{
    let n = cs.len();
    let signed = n > 0 && (cs[0] == '+' || cs[0] == '-');
    let negative = n > 0 && cs[0] == '-';
    let start: usize = if signed {
        1
    } else {
        0
    };
    let ghost body = if signed {
        cs@.skip(1)
    } else {
        cs@
    };
    proof {
        if !signed {
            assert(cs@.skip(0) =~= cs@);
        }
    }
    if n == start {
        return false;
    }
    let mut k: usize = start;
    while k < n
        invariant
            start <= k <= n,
            forall|m: int| start <= m < k ==> '0' <= #[trigger] cs@[m] && cs@[m] <= '9',
        decreases n - k,
    {
        let c = cs[k];
        if !('0' <= c && c <= '9') {
            proof {
                assert(body[k - start] == cs@[k as int]);
            }
            return false;
        }
        k += 1;
    }
    proof {
        assert(all_ascii_digits(body)) by {
            assert(forall|m: int|
                0 <= m < body.len() ==> #[trigger] body[m] == cs@[m + start]);
        }
    }
    // Skip the leading zeros; they do not change the value.
    let mut z: usize = start;
    while z < n && cs[z] == '0'
        invariant
            start <= z <= n,
            digits_value(body) == digits_value(cs@.subrange(z as int, n as int)),
        decreases n - z,
    {
        proof {
            let cur = cs@.subrange(z as int, n as int);
            lemma_digits_value_skip_zero(cur);
            assert(cur.skip(1) =~= cs@.subrange(z + 1, n as int));
        }
        z += 1;
    }
    proof {
        if z == start {
            assert(cs@.subrange(z as int, n as int) =~= body);
        }
    }
    let ghost tail = cs@.subrange(z as int, n as int);
    let m = n - z;
    if m > 19 {
        // At least twenty digits with a non-zero lead: out of range for sure.
        proof {
            assert(all_ascii_digits(tail)) by {
                assert(forall|i: int| 0 <= i < tail.len() ==> #[trigger] tail[i] == cs@[i + z]);
            }
            assert(tail[0] != '0');
            lemma_digits_value_lower(tail);
            lemma_pow10_mono(19, (tail.len() - 1) as nat);
            assert(pow10(19) == 10000000000000000000) by {
                reveal_with_fuel(pow10, 21);
            }
        }
        return false;
    }
    let mut acc: u64 = 0;
    let mut k: usize = z;
    proof {
        assert(tail.take(0) =~= Seq::<char>::empty());
        assert(all_ascii_digits(tail)) by {
            assert(forall|i: int| 0 <= i < tail.len() ==> #[trigger] tail[i] == cs@[i + z]);
        }
        assert(pow10(19) == 10000000000000000000) by {
            reveal_with_fuel(pow10, 21);
        }
    }
    while k < n
        invariant
            z <= k <= n,
            acc == digits_value(tail.take(k - z)),
            acc < pow10((k - z) as nat),
        decreases n - k,
    {
        let c = cs[k];
        let d: u64 = if c == '0' { 0 }
        else if c == '1' { 1 }
        else if c == '2' { 2 }
        else if c == '3' { 3 }
        else if c == '4' { 4 }
        else if c == '5' { 5 }
        else if c == '6' { 6 }
        else if c == '7' { 7 }
        else if c == '8' { 8 }
        else { 9 };
        proof {
            assert(tail[k - z] == cs@[k as int]);
            assert(d == digit_val(tail[k - z]));
            lemma_pow10_mono((k - z) as nat, 18);
            assert(pow10(18) == 1000000000000000000) by {
                reveal_with_fuel(pow10, 21);
            }
            assert(acc * 10 + d < pow10((k - z) as nat) * 10) by (nonlinear_arith)
                requires
                    acc < pow10((k - z) as nat),
                    0 <= d <= 9,
                    pow10((k - z) as nat) >= 1,
            ;
            lemma_pow10_positive((k - z) as nat);
            assert(acc * 10 + d < 10000000000000000000u64) by (nonlinear_arith)
                requires
                    acc < pow10((k - z) as nat),
                    0 <= d <= 9,
                    pow10((k - z) as nat) <= 1000000000000000000,
            ;
            assert(tail.take(k - z + 1).drop_last() =~= tail.take(k - z));
            assert(tail.take(k - z + 1).last() == tail[k - z]);
        }
        acc = acc * 10 + d;
        k += 1;
    }
    proof {
        assert(tail.take(n - z) =~= tail);
        assert(digits_value(body) == acc);
    }
    if negative {
        acc <= 9223372036854775808u64
    } else {
        acc <= 9223372036854775807u64
    }
}

/// Validate an identifier: either the text of a signed 64-bit integer, for
/// database row ids, or anything uuid's parser accepts.
pub fn validate_id(id: &str) -> (r: Result<(), ValidationError>)
    ensures
        r is Ok <==> (is_i64_text(id@) || uuid_text(id@)),
        r is Err ==> r == Err::<(), ValidationError>(ValidationError::InvalidIdentifier),
{
    let cs = chars_of(id);
    if check_i64_text(&cs) {
        return Ok(());
    }
    if parse_uuid_ok(id) {
        return Ok(());
    }
    Err(ValidationError::InvalidIdentifier)
}

/// The first character is a path separator.
pub open spec fn starts_absolute(s: Seq<char>) -> bool {
    s.len() > 0 && (s[0] == '/' || s[0] == '\\')
}

/// A `..`, `./` or `.\` component occurs somewhere.
pub open spec fn upload_has_traversal(s: Seq<char>) -> bool {
    contains_seq(s, ".."@) || contains_seq(s, "./"@) || contains_seq(s, ".\\"@)
}

/// The second character is a drive-letter colon.
pub open spec fn has_drive_letter(s: Seq<char>) -> bool {
    s.len() >= 2 && s[1] == ':'
}

/// Whether the character counts as alphanumeric; the answer depends on the
/// character alone.
pub uninterp spec fn alphanumeric_char(c: char) -> bool;

/// Relies on char::is_alphanumeric: true exactly for the Unicode alphabetic
/// and numeric categories, which include the ASCII letters and digits.
#[verifier::external_body]
fn is_alphanumeric_char(c: char) -> (r: bool)
    ensures
        r == alphanumeric_char(c),
        ('a' <= c && c <= 'z') || ('A' <= c && c <= 'Z') || ('0' <= c && c <= '9') ==> r,
{
    c.is_alphanumeric()
}

/// A character allowed in an uploaded file's name.
pub open spec fn upload_filename_char(c: char) -> bool {
    alphanumeric_char(c) || c == '-' || c == '_' || c == '.'
}

/// Every character of the name is allowed.
pub open spec fn all_upload_filename_chars(s: Seq<char>) -> bool {
    forall|i: int| 0 <= i < s.len() ==> upload_filename_char(#[trigger] s[i])
}

fn scan_upload_chars(v: &Vec<char>) -> (r: bool)
    ensures
        r == all_upload_filename_chars(v@),
{
    let mut i: usize = 0;
    while i < v.len()
        invariant
            i <= v@.len(),
            forall|j: int| 0 <= j < i ==> upload_filename_char(#[trigger] v@[j]),
        decreases v@.len() - i,
    {
        let c = v[i];
        if !(is_alphanumeric_char(c) || c == '-' || c == '_' || c == '.') {
            return false;
        }
        i += 1;
    }
    true
}

/// Check an uploaded file's name against absolute paths, traversal,
/// drive letters and the allowed character set, and hand it back unchanged
/// when it is safe.
pub fn validate_and_sanitize_filename(filename: &str) -> (r: Result<String, String>)
    ensures
        r is Ok <==> !starts_absolute(filename@) && !upload_has_traversal(filename@)
            && !has_drive_letter(filename@) && all_upload_filename_chars(filename@),
        r matches Ok(f) ==> f@ == filename@,
        starts_absolute(filename@) ==> (r matches Err(m) && m@
            == "Absolute paths are not allowed"@),
        !starts_absolute(filename@) && upload_has_traversal(filename@) ==> (r matches Err(m) && m@
            == "Path traversal is not allowed"@),
        !starts_absolute(filename@) && !upload_has_traversal(filename@) && has_drive_letter(
            filename@,
        ) ==> (r matches Err(m) && m@ == "Drive letters are not allowed"@),
        !starts_absolute(filename@) && !upload_has_traversal(filename@) && !has_drive_letter(
            filename@,
        ) && !all_upload_filename_chars(filename@) ==> (r matches Err(m) && m@
            == "Invalid characters in filename"@),
{
    let cs = chars_of(filename);
    if cs.len() > 0 && (cs[0] == '/' || cs[0] == '\\') {
        return Err(String::from_str("Absolute paths are not allowed"));
    }
    if contains_chars(&cs, &chars_of("..")) || contains_chars(&cs, &chars_of("./"))
        || contains_chars(&cs, &chars_of(".\\")) {
        return Err(String::from_str("Path traversal is not allowed"));
    }
    if cs.len() >= 2 && cs[1] == ':' {
        return Err(String::from_str("Drive letters are not allowed"));
    }
    if !scan_upload_chars(&cs) {
        return Err(String::from_str("Invalid characters in filename"));
    }
    Ok(String::from_str(filename))
}

} // verus!
