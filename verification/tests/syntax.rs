use vm::bytecode::Bytecode;
use vm::error::ItrErrCode;
use vm::ir::IrNode;
use vm::lang::{KwTy, OpTy};
use vm::syntax::{ItemKind, Syntax};
use vm::tokenizer::Token;

fn op(hrtv: bool, inst: Bytecode, para: Vec<u8>, subs: Vec<IrNode>) -> IrNode {
    IrNode::Op { hrtv, inst, para, subs }
}

fn leaf(hrtv: bool, inst: Bytecode) -> IrNode {
    op(hrtv, inst, vec![], vec![])
}

fn same(a: &IrNode, b: &IrNode) -> bool {
    format!("{:?}", a) == format!("{:?}", b)
}

fn id(s: &str) -> Token {
    Token::Identifier(s.to_string())
}

fn kw(k: KwTy) -> Token {
    Token::Keyword(k)
}

fn block(items: Vec<IrNode>) -> IrNode {
    IrNode::Array { inst: Bytecode::IRBLOCK, subs: items }
}

fn parse(tokens: Vec<Token>) -> Result<IrNode, ItrErrCode> {
    Syntax::new(tokens).parse().map_err(|e| e.0)
}

#[test]
fn let_binding_allocates_and_assignment_stores() {
    let got = parse(vec![
        kw(KwTy::Let), id("x"), kw(KwTy::Assign), id("$2"),
        id("x"), kw(KwTy::Assign), Token::Integer(5),
    ]).unwrap();
    let want = block(vec![
        op(false, Bytecode::ALLOC, vec![3], vec![]),
        op(false, Bytecode::PUTX, vec![2], vec![op(true, Bytecode::PU8, vec![5], vec![])]),
    ]);
    assert!(same(&got, &want), "{:?}", got);
}

#[test]
fn without_locals_the_first_slot_is_empty_code() {
    let got = parse(vec![kw(KwTy::Finish)]).unwrap();
    let want = block(vec![IrNode::Bytecodes(vec![]), leaf(false, Bytecode::END)]);
    assert!(same(&got, &want), "{:?}", got);
}

#[test]
fn multiplication_binds_tighter_than_addition() {
    // 1 + 2 * 3
    let a = parse(vec![
        Token::Integer(1), Token::Operator(OpTy::ADD), Token::Integer(2),
        Token::Operator(OpTy::MUL), Token::Integer(3), kw(KwTy::Finish),
    ]).unwrap();
    let mul = op(true, Bytecode::MUL, vec![], vec![op(true, Bytecode::PU8, vec![2], vec![]), op(true, Bytecode::PU8, vec![3], vec![])]);
    let want_a = block(vec![
        IrNode::Bytecodes(vec![]),
        op(true, Bytecode::ADD, vec![], vec![leaf(true, Bytecode::P1), mul]),
        leaf(false, Bytecode::END),
    ]);
    assert!(same(&a, &want_a), "{:?}", a);
    // 2 * 3 + 1
    let b = parse(vec![
        Token::Integer(2), Token::Operator(OpTy::MUL), Token::Integer(3),
        Token::Operator(OpTy::ADD), Token::Integer(1),
    ]).unwrap();
    let mul = op(true, Bytecode::MUL, vec![], vec![op(true, Bytecode::PU8, vec![2], vec![]), op(true, Bytecode::PU8, vec![3], vec![])]);
    let want_b = block(vec![
        IrNode::Bytecodes(vec![]),
        op(true, Bytecode::ADD, vec![], vec![mul, leaf(true, Bytecode::P1)]),
    ]);
    assert!(same(&b, &want_b), "{:?}", b);
}

#[test]
fn parentheses_keep_their_grouping() {
    // 2 * (3 + 1)
    let got = parse(vec![
        Token::Integer(2), Token::Operator(OpTy::MUL), Token::Partition('('),
        Token::Integer(3), Token::Operator(OpTy::ADD), Token::Integer(1), Token::Partition(')'),
    ]).unwrap();
    let add = op(true, Bytecode::ADD, vec![], vec![op(true, Bytecode::PU8, vec![3], vec![]), leaf(true, Bytecode::P1)]);
    let want = block(vec![
        IrNode::Bytecodes(vec![]),
        op(true, Bytecode::MUL, vec![], vec![op(true, Bytecode::PU8, vec![2], vec![]), add]),
    ]);
    assert!(same(&got, &want), "{:?}", got);
}

#[test]
fn if_else_and_while_statements() {
    let got = parse(vec![
        kw(KwTy::If), Token::Integer(1), Token::Partition('{'), kw(KwTy::Abort), Token::Partition('}'),
        kw(KwTy::Else), Token::Partition('{'), kw(KwTy::Finish), Token::Partition('}'),
        kw(KwTy::While), Token::Integer(0), Token::Partition('{'), Token::Partition('}'),
    ]).unwrap();
    let want = block(vec![
        IrNode::Bytecodes(vec![]),
        op(false, Bytecode::IRIF, vec![], vec![leaf(true, Bytecode::P1), leaf(false, Bytecode::ABT), leaf(false, Bytecode::END)]),
        op(false, Bytecode::IRWHILE, vec![], vec![leaf(true, Bytecode::P0), leaf(false, Bytecode::NOP)]),
    ]);
    assert!(same(&got, &want), "{:?}", got);
}

#[test]
fn literals_take_the_narrowest_push() {
    let got = parse(vec![Token::Integer(300), Token::Integer(70000), Token::Bytes(vec![0xab, 0xcd]), Token::Bytes(vec![])]).unwrap();
    let want = block(vec![
        IrNode::Bytecodes(vec![]),
        op(true, Bytecode::PU16, vec![1, 44], vec![]),
        op(true, Bytecode::CU32, vec![], vec![op(true, Bytecode::PBUF, vec![2, 1, 0x11, 0x70], vec![])]),
        op(true, Bytecode::PBUF, vec![1, 0xab, 0xcd], vec![]),
        leaf(true, Bytecode::PNBUF),
    ]);
    assert!(same(&got, &want), "{:?}", got);
}

#[test]
fn compound_assignment_to_a_low_slot_is_a_local_operand_mark() {
    let got = parse(vec![
        kw(KwTy::Let), id("n"), kw(KwTy::Assign), id("$3"),
        id("n"), kw(KwTy::AsgSub), Token::Integer(1),
    ]).unwrap();
    let want = block(vec![
        op(false, Bytecode::ALLOC, vec![4], vec![]),
        op(false, Bytecode::XOP, vec![0b0100_0011], vec![leaf(true, Bytecode::P1)]),
    ]);
    assert!(same(&got, &want), "{:?}", got);
}

#[test]
fn ir_function_calls_and_casts() {
    let got = parse(vec![
        id("size"), Token::Partition('('), Token::Bytes(vec![7]), Token::Partition(')'),
        kw(KwTy::As), kw(KwTy::U64),
    ]).unwrap();
    let size = op(true, Bytecode::SIZE, vec![], vec![op(true, Bytecode::PBUF, vec![0, 7], vec![])]);
    let want = block(vec![IrNode::Bytecodes(vec![]), op(true, Bytecode::CU64, vec![], vec![size])]);
    assert!(same(&got, &want), "{:?}", got);
}

#[test]
fn parse_errors() {
    // a name bound twice
    assert_eq!(parse(vec![
        kw(KwTy::Let), id("x"), kw(KwTy::Assign), id("$0"),
        kw(KwTy::Let), id("x"), kw(KwTy::Assign), id("$1"),
    ]).unwrap_err(), ItrErrCode::CompileError);
    // an unknown name
    assert_eq!(parse(vec![id("y")]).unwrap_err(), ItrErrCode::CompileError);
    // a slot that is not `$n`
    assert_eq!(parse(vec![kw(KwTy::Let), id("x"), kw(KwTy::Assign), id("$256")]).unwrap_err(), ItrErrCode::CompileError);
    // assignment to something that is not a local
    assert_eq!(parse(vec![Token::Integer(3), kw(KwTy::Assign), Token::Integer(4)]).unwrap_err(), ItrErrCode::CompileError);
    // an operand without a value
    assert_eq!(parse(vec![kw(KwTy::Finish), Token::Operator(OpTy::ADD), Token::Integer(1)]).unwrap_err(), ItrErrCode::CompileError);
    // a `use` of an address that is not a contract
    let mut addr = vec![0u8; 21];
    assert_eq!(parse(vec![kw(KwTy::Use), id("A"), kw(KwTy::Assign), Token::Bytes(addr.clone())]).unwrap_err(), ItrErrCode::CompileError);
    addr[0] = 1;
    assert!(parse(vec![kw(KwTy::Use), id("A"), kw(KwTy::Assign), Token::Bytes(addr)]).is_ok());
}

#[test]
fn item_may_reports_kinds_and_the_end() {
    let mut s = Syntax::new(vec![
        kw(KwTy::Let), id("v"), kw(KwTy::Assign), id("$1"),
        Token::Partition('('), Token::Integer(1), Token::Operator(OpTy::ADD), Token::Integer(2), Token::Partition(')'),
        id("v"),
    ]);
    assert_eq!(s.item_may().unwrap().unwrap().1, ItemKind::Empty);
    assert_eq!(s.item_may().unwrap().unwrap().1, ItemKind::Group);
    assert_eq!(s.item_may().unwrap().unwrap().1, ItemKind::Local);
    assert!(s.item_may().unwrap().is_none());
}
