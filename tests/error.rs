use miow::{cvt, cvt_code, issue_outcome, OsError};

#[test]
fn zero_sentinel_fails_with_code() {
    assert_eq!(cvt_code(0, 5), Err(OsError::from_raw_os_error(5)));
    assert_eq!(cvt_code(0, 5).unwrap_err().raw_os_error(), 5);
}

#[test]
fn nonzero_sentinel_succeeds_with_value() {
    assert_eq!(cvt_code(1, 5), Ok(1));
    assert_eq!(cvt_code(-7, 0), Ok(-7));
}

#[test]
fn cvt_reads_last_error_on_failure() {
    assert_eq!(cvt(3), Ok(3));
    assert!(cvt(0).is_err());
}

#[test]
fn pending_is_not_failure() {
    assert_eq!(issue_outcome(1, 0), Ok(true));
    assert_eq!(issue_outcome(0, 997), Ok(false));
    assert_eq!(issue_outcome(0, 6), Err(OsError { code: 6 }));
}
