use agent_pair::Error;

#[test]
fn error_debug() {
    assert!(format!("{:?}", Error::Protocol("x".into())).contains("Protocol"));
}

#[test]
fn error_display_io() {
    assert_eq!(
        Error::Io(std::io::Error::new(std::io::ErrorKind::Other, "b")).to_string(),
        "I/O error: b"
    );
}

#[test]
fn error_display_protocol() {
    assert_eq!(Error::Protocol("x".into()).to_string(), "protocol error: x");
}

#[test]
fn error_from_io() {
    assert!(matches!(
        Error::from(std::io::Error::new(std::io::ErrorKind::Other, "x")),
        Error::Io(_)
    ));
}
