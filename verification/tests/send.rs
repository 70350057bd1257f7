use sdjournal::send::{build_send_fields, priority_description, send_outcome};

#[test]
fn priority_names() {
    assert_eq!(priority_description(0), "emergency");
    assert_eq!(priority_description(1), "alert");
    assert_eq!(priority_description(2), "critical");
    assert_eq!(priority_description(3), "error");
    assert_eq!(priority_description(4), "warning");
    assert_eq!(priority_description(5), "notice");
    assert_eq!(priority_description(6), "info");
    assert_eq!(priority_description(7), "debug");
    assert_eq!(priority_description(8), "invalid priority");
    assert_eq!(priority_description(255), "invalid priority");
}

#[test]
fn fields_of_one_message() {
    let fields = build_send_fields(
        "abcdef0123456789",
        "drive offline",
        "smartd",
        "vendor",
        "sda",
        "wwn-123",
        "failed",
        3,
        "self-test failed",
    );
    assert_eq!(fields.len(), 10);
    assert_eq!(fields[0], "MESSAGE_ID=abcdef0123456789");
    assert_eq!(fields[1], "DEVICE=sda");
    assert_eq!(fields[2], "DEVICE_ID=wwn-123");
    assert_eq!(fields[3], "STATE=failed");
    assert_eq!(fields[4], "SOURCE=smartd");
    assert_eq!(fields[5], "SOURCE_MAN=vendor");
    assert_eq!(fields[6], "DETAILS=self-test failed");
    assert_eq!(fields[7], "PRIORITY=3");
    assert_eq!(fields[8], "PRIORITY_DESC=error");
    assert_eq!(fields[9], "MESSAGE=drive offline");
}

#[test]
fn fields_with_out_of_range_priority() {
    let fields = build_send_fields("id", "m", "s", "sm", "d", "di", "st", 200, "de");
    assert_eq!(fields[7], "PRIORITY=200");
    assert_eq!(fields[8], "PRIORITY_DESC=invalid priority");
}

#[test]
fn send_success() {
    assert!(send_outcome(0).unwrap());
    assert!(send_outcome(1).unwrap());
}

#[test]
fn send_failure() {
    let e = send_outcome(-22).unwrap_err();
    assert_eq!(e.message, "Error on sd_journal_send");
    assert_eq!(e.return_code, -22);
    assert_eq!(e.err_reason, "");
}
