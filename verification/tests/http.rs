use baz_launcher::http::HttpStatus;

#[test]
fn statuses_have_three_digits() {
    assert!(HttpStatus::from_u16(99).is_none());
    assert!(HttpStatus::from_u16(1000).is_none());
    assert_eq!(HttpStatus::from_u16(100).unwrap().as_u16(), 100);
    assert_eq!(HttpStatus::from_u16(999).unwrap().as_u16(), 999);
}

#[test]
fn success_is_the_two_hundreds() {
    assert!(!HttpStatus::from_u16(199).unwrap().is_success());
    assert!(HttpStatus::from_u16(200).unwrap().is_success());
    assert!(HttpStatus::from_u16(299).unwrap().is_success());
    assert!(!HttpStatus::from_u16(300).unwrap().is_success());
}

#[test]
fn statuses_are_shown_with_their_reason() {
    assert_eq!(HttpStatus::from_u16(404).unwrap().shown(), "404 Not Found");
    assert_eq!(HttpStatus::from_u16(403).unwrap().shown(), "403 Forbidden");
    assert_eq!(HttpStatus::from_u16(799).unwrap().shown(), "799 <unknown status code>");
}
