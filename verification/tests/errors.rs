use syncyam::{ClientError, DatatypeError};

#[test]
fn can_compare_errors() {
    let e1 = DatatypeError::FailedTransaction("e1".to_string());
    let e2 = DatatypeError::FailedTransaction("e2".to_string());
    assert_eq!(e1, e2);

    let e3 = DatatypeError::FailedToDeserialize("e2".to_string());
    assert_ne!(e2, e3);
}

#[test]
fn renders_error_messages() {
    let e = DatatypeError::FailedTransaction("boom".to_string());
    assert_eq!(e.to_string(), "failed to do transaction: boom");
    let e = DatatypeError::FailedToDeserialize("bad bytes".to_string());
    assert_eq!(e.to_string(), "failed to deserialize: bad bytes");
    let e = DatatypeError::FailedToExecuteOperation("nope".to_string());
    assert_eq!(e.to_string(), "failed to execute operation: nope");
    let c = ClientError::FailedToSubscribeOrCreateDatatype("k1".to_string());
    assert_eq!(c.to_string(), "Cannot subscribe or create datatype: k1");
}

#[test]
fn client_errors_compare_by_variant() {
    let c1 = ClientError::FailedToSubscribeOrCreateDatatype("a".to_string());
    let c2 = ClientError::FailedToSubscribeOrCreateDatatype("b".to_string());
    assert_eq!(c1, c2);
}
