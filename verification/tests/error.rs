use mediator::{Error, ErrorKind};

#[test]
fn error_kind_descriptions() {
    assert_eq!(ErrorKind::NotFound.as_str(), "handler not found");
    assert_eq!(ErrorKind::Unknown.as_str(), "unknown error");
}

#[test]
fn error_from_kind_displays_the_kind() {
    assert_eq!(Error::from(ErrorKind::NotFound).to_string(), "handler not found");
    assert_eq!(Error::from(ErrorKind::Unknown).to_string(), "unknown error");
}

#[test]
fn error_with_description_displays_it() {
    let e = Error::new(ErrorKind::NotFound, "no handler for Ping");
    assert_eq!(e.to_string(), "handler not found: no handler for Ping");
    let u = Error::new(ErrorKind::Unknown, "disk on fire");
    assert_eq!(u.to_string(), "disk on fire");
}

#[test]
fn error_kind_and_equality() {
    let a = Error::new(ErrorKind::Unknown, "x");
    assert_eq!(a.kind(), ErrorKind::Unknown);
    assert_eq!(Error::from(ErrorKind::NotFound).kind(), ErrorKind::NotFound);
    assert_eq!(a, Error::new(ErrorKind::Unknown, "x"));
    assert_ne!(a, Error::new(ErrorKind::Unknown, "y"));
    assert_ne!(a, Error::new(ErrorKind::NotFound, "x"));
    assert_ne!(Error::from(ErrorKind::Unknown), Error::new(ErrorKind::Unknown, "unknown error"));
    assert_eq!(Error::from(ErrorKind::NotFound), Error::from(ErrorKind::NotFound));
}

#[test]
fn error_description() {
    assert_eq!(Error::new(ErrorKind::NotFound, "Ping").description(), Some("Ping".to_string()));
    assert_eq!(Error::from(ErrorKind::Unknown).description(), None);
}
