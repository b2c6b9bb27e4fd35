use xcys::error::{CommandParseError, ErrorKind};

#[test]
fn null_is_described() {
    assert_eq!(ErrorKind::Null.description(), "No command has been entered.");
}

#[test]
fn simple_error_has_its_kind() {
    let error = CommandParseError::simple(ErrorKind::Null);
    assert_eq!(error.kind(), ErrorKind::Null);
}

#[test]
fn error_with_a_cause_has_its_kind() {
    let error = CommandParseError::new(ErrorKind::Null, "the line was cut off".to_string());
    assert_eq!(error.kind(), ErrorKind::Null);
}

#[test]
fn error_reads_as_the_description_of_its_kind() {
    assert_eq!(
        CommandParseError::simple(ErrorKind::Null).to_string(),
        "No command has been entered."
    );
    assert_eq!(
        CommandParseError::new(ErrorKind::Null, "cause".to_string()).to_string(),
        "No command has been entered."
    );
}
