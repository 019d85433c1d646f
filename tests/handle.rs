use miow::{Handle, OsError};

#[test]
fn release_happens_once() {
    let mut h = Handle::new(40);
    assert!(h.is_open());
    assert_eq!(h.release(), Some(40));
    assert!(!h.is_open());
    assert_eq!(h.release(), None);
    assert_eq!(h.raw(), 40);
}

#[test]
fn duplicate_is_independent() {
    let mut h = Handle::new(40);
    let mut d = h.duplicate_result(1, 44, 0).unwrap();
    assert_eq!(d.raw(), 44);
    assert_eq!(d.release(), Some(44));
    assert!(h.is_open());
    assert_eq!(h.release(), Some(40));
    assert_eq!(d.release(), None);
}

#[test]
fn failed_duplicate_reports_error() {
    let h = Handle::new(40);
    assert_eq!(h.duplicate_result(0, 0, 5).unwrap_err(), OsError { code: 5 });
}
