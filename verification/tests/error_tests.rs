use lpr::error::LprError;

#[test]
fn error_messages_name_each_fault() {
    assert_eq!(LprError::ConnectError.message(), "cannot establish the transport");
    assert_eq!(LprError::Timeout.message(), "a read exceeded the configured bound");
    assert_eq!(LprError::IoError.message(), "transport read or write fault");
    assert_eq!(
        LprError::ProtocolAckError(9).message(),
        "server returned a non-zero acknowledgment byte"
    );
    assert_eq!(
        LprError::IncompleteWrite.message(),
        "status request not fully written in one call"
    );
}

#[test]
fn ack_errors_compare_by_their_byte() {
    assert_eq!(LprError::ProtocolAckError(9), LprError::ProtocolAckError(9));
    assert_ne!(LprError::ProtocolAckError(9), LprError::ProtocolAckError(8));
    assert_ne!(LprError::Timeout, LprError::IoError);
}
