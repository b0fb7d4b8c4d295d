use rehber360::security;
use rehber360::security::ValidationError;

#[test]
fn security_test_validate_length() {
    assert!(security::validate_length("short", 10).is_ok());
    assert!(security::validate_length("very long text", 5).is_err());
}

#[test]
fn security_test_sanitize_html() {
    assert_eq!(
        security::sanitize_html("<script>alert('xss')</script>"),
        "&lt;script&gt;alert(&#x27;xss&#x27;)&lt;/script&gt;"
    );
}

#[test]
fn test_validate_filename() {
    assert!(security::validate_filename("document.pdf").is_ok());
    assert!(security::validate_filename("../../../etc/passwd").is_err());
    assert!(security::validate_filename("file<name>.txt").is_err());
}

#[test]
fn test_sql_injection_detection() {
    assert!(security::check_sql_injection("normal text").is_ok());
    assert!(security::check_sql_injection("'; DROP TABLE students; --").is_err());
    assert!(security::check_sql_injection("' OR 1=1 --").is_err());
}

#[test]
fn test_xss_detection() {
    assert!(security::check_xss("normal text").is_ok());
    assert!(security::check_xss("<script>alert('xss')</script>").is_err());
    assert!(security::check_xss("javascript:alert(1)").is_err());
}

#[test]
fn test_validate_student_number_valid() {
    assert!(security::validate_student_number("123456").is_ok());
    assert!(security::validate_student_number("123456789012").is_ok());
}

#[test]
fn test_validate_student_number_invalid() {
    assert!(security::validate_student_number("12345").is_err()); // Too short
    assert!(security::validate_student_number("1234567890123").is_err()); // Too long
    assert!(security::validate_student_number("12345a").is_err()); // Contains letter
    assert!(security::validate_student_number("").is_err());
}

#[test]
fn test_validate_filename_safe() {
    assert!(security::validate_filename("document.pdf").is_ok());
    assert!(security::validate_filename("image_2025.jpg").is_ok());
    assert!(security::validate_filename("report-2025-01.xlsx").is_ok());
}

#[test]
fn test_validate_filename_unsafe() {
    assert!(security::validate_filename("../../../etc/passwd").is_err());
    assert!(security::validate_filename("..\\windows\\system32\\file.dll").is_err());
    assert!(security::validate_filename("file<script>.pdf").is_err());
    assert!(security::validate_filename("").is_err());
}

#[test]
fn security_tests_test_sanitize_html() {
    let input = "<script>alert('XSS')</script>Hello World";
    let output = security::sanitize_html(input);
    assert!(!output.contains("<script>"));
    assert!(output.contains("Hello World"));
}

#[test]
fn test_check_xss() {
    assert!(security::check_xss("<script>alert('xss')</script>").is_err());
    assert!(security::check_xss("javascript:alert('xss')").is_err());
    assert!(security::check_xss("<img src=x onerror=alert('xss')>").is_err());
    assert!(security::check_xss("Hello World").is_ok());
    assert!(security::check_xss("Normal text with <strong>HTML</strong>").is_ok());
}

#[test]
fn test_check_sql_injection() {
    assert!(security::check_sql_injection("'; DROP TABLE users--").is_err());
    assert!(security::check_sql_injection("1' OR '1'='1").is_err());
    assert!(security::check_sql_injection("admin'--").is_err());
    assert!(security::check_sql_injection("UNION SELECT * FROM users").is_err());
    assert!(security::check_sql_injection("Normal query text").is_ok());
    assert!(security::check_sql_injection("User's name").is_ok());
}

#[test]
fn test_validate_user_input_sanitizes() {
    let out = security::validate_user_input("a \"quoted\" & <b>bold</b>", 100).unwrap();
    assert_eq!(out, "a &quot;quoted&quot; &amp; &lt;b&gt;bold&lt;/b&gt;");
}

#[test]
fn test_validate_user_input_rejects() {
    assert_eq!(
        security::validate_user_input("abcdef", 3),
        Err(ValidationError::InputTooLong { max: 3, actual: 6 })
    );
    assert_eq!(
        security::validate_user_input("x'; DROP TABLE a", 100),
        Err(ValidationError::SqlInjectionAttempt)
    );
    assert_eq!(
        security::validate_user_input("<iframe src=x>", 100),
        Err(ValidationError::XssAttempt)
    );
}

#[test]
fn test_validate_and_sanitize_filename_cases() {
    assert_eq!(
        security::validate_and_sanitize_filename("notes.txt"),
        Ok("notes.txt".to_string())
    );
    assert_eq!(
        security::validate_and_sanitize_filename("/etc/passwd"),
        Err("Absolute paths are not allowed".to_string())
    );
    assert_eq!(
        security::validate_and_sanitize_filename("a/../b"),
        Err("Path traversal is not allowed".to_string())
    );
    assert_eq!(
        security::validate_and_sanitize_filename("c:autoexec.bat"),
        Err("Drive letters are not allowed".to_string())
    );
    assert_eq!(
        security::validate_and_sanitize_filename("bad name.txt"),
        Err("Invalid characters in filename".to_string())
    );
}

#[test]
fn test_validate_filename_error_kinds() {
    assert_eq!(
        security::validate_filename(".hidden"),
        Err(ValidationError::PathTraversal)
    );
    assert_eq!(
        security::validate_filename("what?.txt"),
        Err(ValidationError::ForbiddenCharacters)
    );
    let long = "x".repeat(256);
    assert_eq!(
        security::validate_filename(&long),
        Err(ValidationError::InputTooLong { max: 255, actual: 256 })
    );
}

#[test]
fn test_validate_email() {
    assert!(security::validate_email("user@example.com").is_ok());
    assert!(security::validate_email("invalid.email").is_err());
    assert!(security::validate_email("@example.com").is_err());
}

#[test]
fn test_validate_email_valid() {
    assert!(security::validate_email("user@example.com").is_ok());
    assert!(security::validate_email("test.user@school.edu.tr").is_ok());
    assert!(security::validate_email("admin+test@domain.com").is_ok());
}

#[test]
fn test_validate_email_invalid() {
    assert!(security::validate_email("").is_err());
    assert!(security::validate_email("invalid").is_err());
    assert!(security::validate_email("@example.com").is_err());
    assert!(security::validate_email("user@").is_err());
    assert!(security::validate_email("user @example.com").is_err());
}

#[test]
fn test_validate_turkish_phone_valid() {
    assert!(security::validate_turkish_phone("+905551234567").is_ok());
    assert!(security::validate_turkish_phone("05551234567").is_ok());
    assert!(security::validate_turkish_phone("+90 555 123 45 67").is_ok());
    assert!(security::validate_turkish_phone("0 555 123 45 67").is_ok());
}

#[test]
fn test_validate_turkish_phone_invalid() {
    assert!(security::validate_turkish_phone("123456").is_err());
    assert!(security::validate_turkish_phone("+1234567890").is_err());
    assert!(security::validate_turkish_phone("").is_err());
}

#[test]
fn test_validate_name_valid() {
    assert!(security::validate_name("Ahmet").is_ok());
    assert!(security::validate_name("Şebnem").is_ok());
    assert!(security::validate_name("Ümit Çağlar").is_ok());
    assert!(security::validate_name("İbrahim Öztürk").is_ok());
}

#[test]
fn test_validate_name_invalid() {
    assert!(security::validate_name("").is_err());
    assert!(security::validate_name("A").is_err()); // Too short
    assert!(security::validate_name("123").is_err()); // Only numbers
    assert!(security::validate_name("User@Name").is_err()); // Special chars
    assert!(security::validate_name("<script>alert('xss')</script>").is_err());
}

#[test]
fn test_validate_name_trims() {
    assert_eq!(
        security::validate_name("  Ada Lovelace  "),
        Ok("Ada Lovelace".to_string())
    );
}

#[test]
fn test_validate_id_valid() {
    assert!(security::validate_id("550e8400-e29b-41d4-a716-446655440000").is_ok()); // UUID
    assert!(security::validate_id("12345").is_ok()); // Numeric ID
}

#[test]
fn test_validate_id_invalid() {
    assert!(security::validate_id("").is_err());
    assert!(security::validate_id("not-a-valid-uuid").is_err());
    assert!(security::validate_id("<script>").is_err());
}

#[test]
fn test_validate_id_integer_range() {
    assert!(security::validate_id("9223372036854775807").is_ok());
    assert!(security::validate_id("-9223372036854775808").is_ok());
    assert!(security::validate_id("9223372036854775808").is_err());
    assert!(security::validate_id("00000000000000000000042").is_ok());
}

#[test]
fn test_validate_length_counts_bytes() {
    // Lengths are measured in bytes: a two-byte character exceeds a
    // one-byte limit.
    assert!(security::validate_length("ü", 1).is_err());
    assert!(security::validate_length("ü", 2).is_ok());
}

#[test]
fn test_validate_student_number_unicode_digits() {
    // Any Unicode numeric character counts; six two-byte digits fill
    // twelve bytes.
    assert!(security::validate_student_number("٠١٢٣٤٥").is_ok());
}

#[test]
fn test_validate_and_sanitize_filename_unicode() {
    assert_eq!(
        security::validate_and_sanitize_filename("ödev.pdf"),
        Ok("ödev.pdf".to_string())
    );
}

#[test]
fn test_check_xss_mixed_case() {
    assert!(security::check_xss("JavaScript:alert(1)").is_err());
    assert!(security::check_xss("<ScRiPt>x</ScRiPt>").is_err());
}
