use vm::error::ItrErrCode;
use vm::ir_compile::convert_ir_to_bytecode;
use vm::ir_parse::parse_ir_block;
use vm::verify::verify_bytecodes;

const P0: u8 = 0x24;
const P1: u8 = 0x25;
const ADD: u8 = 0xb0;
const POP: u8 = 0x42;
const END: u8 = 0xef;
const IRIF: u8 = 0xf4;
const IRWHILE: u8 = 0xf6;
const IRBREAK: u8 = 0xf7;
const IRCONTINUE: u8 = 0xf8;

#[test]
fn statement_value_is_popped() {
    let ir = [ADD, P1, P0, END];
    assert_eq!(convert_ir_to_bytecode(&ir).unwrap(), vec![P1, P0, ADD, POP, END]);
}

#[test]
fn if_layout_branches_over_else() {
    let ir = [IRIF, P1, END, END];
    let code = convert_ir_to_bytecode(&ir).unwrap();
    assert_eq!(code, vec![P1, 0xe5, 0x00, 0x04, END, 0xe2, 0x00, 0x01, END]);
}

#[test]
fn while_layout_jumps_back_to_condition() {
    let ir = [IRWHILE, P0, END];
    let code = convert_ir_to_bytecode(&ir).unwrap();
    assert_eq!(code, vec![P0, 0xe6, 0x00, 0x04, END, 0xe2, 0xff, 0xf8]);
}

#[test]
fn break_jumps_past_the_loop_and_continue_to_its_condition() {
    let code = convert_ir_to_bytecode(&[IRWHILE, P0, IRBREAK]).unwrap();
    assert_eq!(code, vec![P0, 0xe6, 0x00, 0x06, 0xe2, 0x00, 0x03, 0xe2, 0xff, 0xf6]);
    let code = convert_ir_to_bytecode(&[IRWHILE, P0, IRCONTINUE]).unwrap();
    assert_eq!(code, vec![P0, 0xe6, 0x00, 0x06, 0xe2, 0xff, 0xf9, 0xe2, 0xff, 0xf6]);
}

#[test]
fn compiled_loop_followed_by_end_passes_the_verifier() {
    let mut code = convert_ir_to_bytecode(&[IRWHILE, P0, IRBREAK, END]).unwrap();
    assert_eq!(*code.last().unwrap(), END);
    assert!(verify_bytecodes(&code).is_ok());
    code.pop();
    assert_eq!(verify_bytecodes(&code).unwrap_err().0, ItrErrCode::CodeNotWithEnd);
}

#[test]
fn malformed_ir_is_rejected() {
    assert_eq!(convert_ir_to_bytecode(&[IRBREAK]).unwrap_err().0, ItrErrCode::InstInvalid);
    assert_eq!(convert_ir_to_bytecode(&[0x01]).unwrap_err().0, ItrErrCode::InstInvalid);
    assert_eq!(convert_ir_to_bytecode(&[ADD, P1]).unwrap_err().0, ItrErrCode::CodeOverflow);
    assert_eq!(convert_ir_to_bytecode(&[]).unwrap(), Vec::<u8>::new());
}

#[test]
fn parse_ir_block_advances_the_seek() {
    let ir = [ADD, P1, P0, END];
    let mut seek = 0usize;
    let block = parse_ir_block(&ir, &mut seek).unwrap();
    assert_eq!(seek, ir.len());
    assert_eq!(block.codegen().unwrap(), vec![P1, P0, ADD, POP, END]);
}
