use com_serial::error::{system_to_io_err, CommError, ErrorKind, Operation};

#[test]
fn access_denied_on_open_is_busy() {
    let e = system_to_io_err(Operation::Open, 5);
    assert_eq!(e.kind(), ErrorKind::AlreadyExists);
    assert_eq!(e, CommError::Host { kind: ErrorKind::AlreadyExists, operation: Operation::Open, code: 5 });
    assert_eq!(e.message(), "Access denied. Resource might be busy");
}

#[test]
fn file_not_found_on_open_is_not_found() {
    let e = system_to_io_err(Operation::Open, 2);
    assert_eq!(e.kind(), ErrorKind::NotFound);
    assert_eq!(e.message(), "Serial port not found");
}

#[test]
fn table_covers_each_known_code() {
    assert_eq!(system_to_io_err(Operation::Read, 1784).kind(), ErrorKind::InvalidInput);
    assert_eq!(system_to_io_err(Operation::Read, 6).kind(), ErrorKind::InvalidInput);
    assert_eq!(system_to_io_err(Operation::Write, 8).kind(), ErrorKind::ResourceExhausted);
    assert_eq!(system_to_io_err(Operation::Flush, 995).kind(), ErrorKind::Interrupted);
    assert_eq!(system_to_io_err(Operation::Read, 6).message(), "Communications handle is invalid");
}

#[test]
fn unknown_code_is_other_with_code_and_operation() {
    for (op, name) in [
        (Operation::Open, "open"),
        (Operation::Read, "read"),
        (Operation::Write, "write"),
        (Operation::Flush, "flush"),
    ] {
        let e = system_to_io_err(op, 0x1F);
        assert_eq!(e.kind(), ErrorKind::Other);
        assert_eq!(e, CommError::Host { kind: ErrorKind::Other, operation: op, code: 0x1F });
        assert_eq!(op.name(), name);
        assert_eq!(e.message(), "unmatched error");
    }
}

#[test]
fn errors_without_host_code() {
    assert_eq!(CommError::TimedOut.kind(), ErrorKind::TimedOut);
    assert_eq!(CommError::DelimiterNotFound.kind(), ErrorKind::Other);
    assert_eq!(CommError::DelimiterNotFound.message(), "Delimiter was not found");
    assert_eq!(Operation::SetCommTimeouts.name(), "SetCommTimeouts");
}
