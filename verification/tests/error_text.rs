use sdjournal::error::ClibraryError;
use sdjournal::text::{i64_to_dec, u64_to_dec};

#[test]
fn new_error_has_empty_reason() {
    let e = ClibraryError::new(String::from("Error on sd_journal_open"), -13);
    assert_eq!(e.message, "Error on sd_journal_open");
    assert_eq!(e.return_code, -13);
    assert_eq!(e.err_reason, "");
}

#[test]
fn with_reason_fills_the_reason_in() {
    let e = ClibraryError::new(String::from("Error on sd_journal_open"), -13)
        .with_reason(String::from("Permission denied"));
    assert_eq!(e.message, "Error on sd_journal_open");
    assert_eq!(e.return_code, -13);
    assert_eq!(e.err_reason, "Permission denied");
}

#[test]
fn display_line() {
    let e = ClibraryError::new(String::from("Error on sd_journal_get_data"), -2)
        .with_reason(String::from("No such file or directory"));
    assert_eq!(
        e.display_string(),
        "Error on sd_journal_get_data (rc=-2, errno msg=No such file or directory)"
    );
}

#[test]
fn display_line_with_positive_code() {
    let e = ClibraryError::new(String::from("Error on sd_journal_wait"), 3);
    assert_eq!(e.display_string(), "Error on sd_journal_wait (rc=3, errno msg=)");
}

#[test]
fn unsigned_decimal() {
    assert_eq!(u64_to_dec(0), "0");
    assert_eq!(u64_to_dec(7), "7");
    assert_eq!(u64_to_dec(10), "10");
    assert_eq!(u64_to_dec(255), "255");
    assert_eq!(u64_to_dec(1234567890), "1234567890");
    assert_eq!(u64_to_dec(u64::MAX), "18446744073709551615");
}

#[test]
fn signed_decimal() {
    assert_eq!(i64_to_dec(0), "0");
    assert_eq!(i64_to_dec(-1), "-1");
    assert_eq!(i64_to_dec(42), "42");
    assert_eq!(i64_to_dec(-2147483648), "-2147483648");
    assert_eq!(i64_to_dec(i64::MIN), "-9223372036854775808");
    assert_eq!(i64_to_dec(i64::MAX), "9223372036854775807");
}
