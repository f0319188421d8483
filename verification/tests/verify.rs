use vm::error::ItrErrCode;
use vm::verify::verify_bytecodes;

fn code(r: Result<(), vm::error::ItrErr>) -> Option<ItrErrCode> {
    r.err().map(|e| e.0)
}

#[test]
fn accepts_terminated_code_with_jumps_on_instruction_starts() {
    assert_eq!(code(verify_bytecodes(&[0xef])), None);
    // PU8 7; JMPS back to offset 0; END
    assert_eq!(code(verify_bytecodes(&[0x20, 0x07, 0xe1, 0xfc, 0xef])), None);
}

#[test]
fn rejects_each_malformation_with_its_code() {
    assert_eq!(code(verify_bytecodes(&[])), Some(ItrErrCode::CodeEmpty));
    assert_eq!(code(verify_bytecodes(&[0x25])), Some(ItrErrCode::CodeNotWithEnd));
    assert_eq!(code(verify_bytecodes(&[0x01, 0xef])), Some(ItrErrCode::InstInvalid));
    assert_eq!(code(verify_bytecodes(&[0xe2, 0x00, 0x05, 0xef])), Some(ItrErrCode::JumpOverflow));
    assert_eq!(code(verify_bytecodes(&[0x20, 0x07, 0xe1, 0xfd, 0xef])), Some(ItrErrCode::JumpInDataSeg));
    assert_eq!(code(verify_bytecodes(&vec![0xefu8; 65536])), Some(ItrErrCode::CodeTooLong));
}
