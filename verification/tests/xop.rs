use vm::error::ItrErrCode;
use vm::xop::{
    decode_local_logic_mark, decode_local_operand_mark, encode_local_logic_mark,
    encode_local_operand_mark, local_logic_param_parse, local_operand_param_parse, LxLg, LxOp,
};

#[test]
fn operand_marks_round_trip() {
    for (op, bits) in [(LxOp::Add, 0u8), (LxOp::Sub, 1), (LxOp::Mul, 2), (LxOp::Div, 3)] {
        for idx in [0u8, 5, 63] {
            let m = encode_local_operand_mark(op, idx).unwrap();
            assert_eq!(m, bits * 64 + idx);
            assert_eq!(decode_local_operand_mark(m), (op, idx));
        }
    }
    assert_eq!(encode_local_operand_mark(LxOp::Add, 64).unwrap_err().0, ItrErrCode::InstParamsErr);
    assert_eq!(local_operand_param_parse(0xc5), ("/=".to_string(), 5));
}

#[test]
fn logic_marks_round_trip() {
    let ops = [LxLg::And, LxLg::Or, LxLg::Eq, LxLg::Ne, LxLg::Gt, LxLg::Ge, LxLg::Lt, LxLg::Le];
    for (bits, op) in ops.iter().enumerate() {
        let m = encode_local_logic_mark(*op, 31).unwrap();
        assert_eq!(m as usize, bits * 32 + 31);
        assert_eq!(decode_local_logic_mark(m), (*op, 31));
    }
    assert_eq!(encode_local_logic_mark(LxLg::Eq, 32).unwrap_err().0, ItrErrCode::InstParamsErr);
    assert_eq!(local_logic_param_parse(4 * 32 + 3).1, 3);
}
