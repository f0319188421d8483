use vm::error::{
    map_native_action_code, BoundaryClass, BoundaryError, ItrErr, ItrErrCode, MapItrErr,
    MapItrStrErr,
};

fn outside(class: BoundaryClass, code: Option<ItrErrCode>, msg: &str) -> BoundaryError {
    BoundaryError { class, code, msg: msg.to_string() }
}

#[test]
fn state_read_failed_stays_abort_at_vm_boundary() {
    let err = ItrErr::new(ItrErrCode::StateReadFailed, "backend down").into_boundary();
    assert!(err.is_abort(), "state read failure must be fatal");
    assert_eq!(err.code(), Some(ItrErrCode::StateReadFailed));
    assert!(!err.is_revert());
}

#[test]
fn state_decode_failed_stays_abort_at_vm_boundary() {
    let err = ItrErr::new(ItrErrCode::StateDecodeFailed, "bad bytes").into_boundary();
    assert!(err.is_abort(), "state decode failure must be fatal");
    assert_eq!(err.code(), Some(ItrErrCode::StateDecodeFailed));
}

#[test]
fn validation_storage_error_keeps_fault_without_code() {
    let err = ItrErr::new(ItrErrCode::StorageError, "status key too long").into_boundary();
    assert!(!err.is_abort(), "validation error must stay non-fatal");
    assert!(err.is_fault());
    assert_eq!(err.code(), None);
}

#[test]
fn action_call_revert_stays_revert() {
    let err = ItrErr::new(ItrErrCode::ActCallRevert, "user revert").into_boundary();
    assert!(err.is_revert());
    assert!(!err.is_abort());
}

#[test]
fn native_action_code_preserves_abort_codes() {
    let read = outside(BoundaryClass::Abort, Some(ItrErrCode::StateReadFailed), "read failed");
    assert_eq!(map_native_action_code(&read), ItrErrCode::StateReadFailed);
    let decode = outside(BoundaryClass::Abort, Some(ItrErrCode::StateDecodeFailed), "decode failed");
    assert_eq!(map_native_action_code(&decode), ItrErrCode::StateDecodeFailed);
    let fault = outside(BoundaryClass::Fault, None, "ordinary execution failure");
    assert_eq!(map_native_action_code(&fault), ItrErrCode::ActCallError);
    let revert = outside(BoundaryClass::Revert, None, "user revert");
    assert_eq!(map_native_action_code(&revert), ItrErrCode::ActCallError);
}

#[test]
fn state_read_failure_round_trips_through_vm() {
    let err = ItrErr::new(ItrErrCode::StateReadFailed, "disk").into_boundary();
    assert!(err.is_abort());
    assert_eq!(err.code(), Some(ItrErrCode::StateReadFailed));
}

#[test]
fn map_ire_preserves_abort_classification() {
    let src: Result<u8, BoundaryError> =
        Err(outside(BoundaryClass::Abort, Some(ItrErrCode::StateReadFailed), "backend down"));
    let err = src.map_ire(ItrErrCode::ActCallError).unwrap_err();
    assert_eq!(err.0, ItrErrCode::StateReadFailed);
    assert!(err.1.contains("backend down"));

    let decode: Result<u8, BoundaryError> =
        Err(outside(BoundaryClass::Abort, Some(ItrErrCode::StateDecodeFailed), "bad bytes"));
    let err = decode.map_ire(ItrErrCode::ActCallError).unwrap_err();
    assert_eq!(err.0, ItrErrCode::StateDecodeFailed);

    let fault: Result<u8, BoundaryError> =
        Err(outside(BoundaryClass::Fault, None, "ordinary failure"));
    let err = fault.map_ire(ItrErrCode::NativeFuncError).unwrap_err();
    assert_eq!(err.0, ItrErrCode::NativeFuncError);
}

#[test]
fn map_ires_prefixes_the_message_and_keeps_ok() {
    let fault: Result<u8, BoundaryError> = Err(outside(BoundaryClass::Fault, None, "boom"));
    let err = fault.map_ires(ItrErrCode::StorageError, "load: ".to_string()).unwrap_err();
    assert_eq!(err.0, ItrErrCode::StorageError);
    assert_eq!(err.1, "load: boom");
    let ok: Result<u8, BoundaryError> = Ok(7);
    assert_eq!(ok.map_ires(ItrErrCode::StorageError, "x".to_string()).unwrap(), 7);
}

#[test]
fn abort_left_and_mapped_back_keeps_its_code() {
    for c in [ItrErrCode::StateReadFailed, ItrErrCode::StateDecodeFailed] {
        let left = ItrErr::new(c, "gone").into_boundary();
        let back: Result<(), BoundaryError> = Err(left);
        assert_eq!(back.map_ire(ItrErrCode::ContractError).unwrap_err().0, c);
    }
}

#[test]
fn error_codes_have_distinct_bytes_that_read_back() {
    let mut seen = std::collections::HashSet::new();
    for b in 0u8..=255 {
        if let Some(c) = ItrErrCode::from_code(b) {
            assert_eq!(c.code(), b);
            assert!(seen.insert(b));
        }
    }
    assert_eq!(ItrErrCode::CodecOnlyUnsupported.code(), 163);
    assert!(seen.len() > 50);
}
