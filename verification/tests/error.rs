use part_upload::error::ErrorKind;

#[test]
fn kinds_have_their_names() {
    assert_eq!(ErrorKind::InvalidSize.name(), "InvalidSize");
    assert_eq!(ErrorKind::InvalidRequest.name(), "InvalidRequest");
    assert_eq!(ErrorKind::NetworkError.name(), "NetworkError");
    assert_eq!(ErrorKind::MissingETag.name(), "MissingETag");
    assert_eq!(ErrorKind::RetriesExhausted.name(), "RetriesExhausted");
}

#[test]
fn only_send_failures_are_transient() {
    assert!(ErrorKind::NetworkError.transient());
    assert!(ErrorKind::MissingETag.transient());
    assert!(!ErrorKind::InvalidSize.transient());
    assert!(!ErrorKind::InvalidRequest.transient());
    assert!(!ErrorKind::RetriesExhausted.transient());
}
