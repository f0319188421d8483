use vm::actdefs::{action_defs, action_env_defs, action_view_defs, search_act_by_id, search_act_name_by_id};
use vm::ast::{Ast, AstAssign, AstLeaf, AstOperand};
use vm::bytecode::Bytecode;
use vm::ctl::{
    ctl_expect_kv_list, ctl_expect_no_arg, ctl_expect_pair, ctl_require_edit,
    ctl_require_non_pure, extract_intent_handle_id, EffectMode, ExecCtx,
};
use vm::error::ItrErrCode;
use vm::funcs::{build_ir_func, pick_ir_func, pick_native_call, NativeCall};
use vm::ir::IrNode;
use vm::gas::{GasExtra, GasTable, GasUse};
use vm::lang::OpTy;
use vm::value::{Value, ValueTy};

#[test]
fn host_tables_are_looked_up_by_first_id() {
    let acts = action_defs();
    assert_eq!(acts.len(), 14);
    assert_eq!(search_act_by_id(0x22, &acts).unwrap(), &(0x22, "hacd_insc_edit", ValueTy::Nil, 5));
    assert_eq!(search_act_name_by_id(0x0e, &acts), "transfer_hac_from_to");
    assert_eq!(search_act_name_by_id(0x02, &acts), "__unknown__");
    assert_eq!(search_act_name_by_id(0x02, &action_env_defs()), "tx_main_addr");
    assert_eq!(search_act_by_id(0x09, &action_view_defs()).unwrap().2, ValueTy::Bool);
}

#[test]
fn controls_check_mode_and_argument_shape() {
    assert!(ctl_expect_no_arg(Value::Nil, "x").is_ok());
    assert_eq!(ctl_expect_no_arg(Value::U8(0), "x").unwrap_err().0, ItrErrCode::IntentError);
    let edit = ExecCtx { effect: EffectMode::Edit };
    let view = ExecCtx { effect: EffectMode::View };
    let pure = ExecCtx { effect: EffectMode::Pure };
    assert!(ctl_require_edit(edit, "x").is_ok());
    assert_eq!(ctl_require_edit(view, "x").unwrap_err().0, ItrErrCode::IntentError);
    assert!(ctl_require_non_pure(view, "x").is_ok());
    assert_eq!(ctl_require_non_pure(pure, "x").unwrap_err().0, ItrErrCode::IntentError);
    assert_eq!(extract_intent_handle_id(&Value::Handle(7), "x").unwrap(), 7);
    assert_eq!(extract_intent_handle_id(&Value::U64(7), "x").unwrap_err().0, ItrErrCode::IntentError);
    let (a, b) = ctl_expect_pair(Value::Tuple(vec![Value::U8(1), Value::Nil]), "x").unwrap();
    assert_eq!((a, b), (Value::U8(1), Value::Nil));
    let kv = ctl_expect_kv_list(Value::List(vec![Value::U8(1), Value::U8(2), Value::U8(3), Value::U8(4)]), "x").unwrap();
    assert_eq!(kv, vec![(Value::U8(1), Value::U8(2)), (Value::U8(3), Value::U8(4))]);
    assert_eq!(
        ctl_expect_kv_list(Value::List(vec![Value::U8(1)]), "x").unwrap_err().0,
        ItrErrCode::IntentError
    );
}

#[test]
fn function_names_resolve() {
    let (_, bc, pms, args, rs) = pick_ir_func("memory_patch").unwrap();
    assert_eq!((bc, pms, args, rs), (Bytecode::MPATCH, 0, 3, 1));
    assert!(pick_ir_func("no_such_fn").is_none());
    assert_eq!(pick_native_call("sha3"), Some(2));
    assert_eq!(NativeCall::from_name("amount_to_zhu"), Some((22, NativeCall::amount_to_zhu)));
    assert_eq!(pick_native_call("sha256"), None);
}

#[test]
fn gas_charges() {
    let g = GasTable::new(0);
    assert_eq!(g.gas(Bytecode::POW.to_u8()), 5);
    assert_eq!(g.gas(Bytecode::END.to_u8()), 1);
    assert_eq!(g.gas(Bytecode::ADD.to_u8()), 2);
    let e = GasExtra::new(0);
    assert_eq!((e.storage_read, e.load_one_new_contract), (30, 64));
    assert_eq!(GasUse { compute: 40, storage: 2 }.total(), 42);
}

#[test]
fn ast_nodes_require_expressions() {
    let one = Ast::Leaf(AstLeaf::integer(1));
    let two = Ast::Leaf(AstLeaf::integer(2));
    assert!(AstOperand::build(OpTy::ADD, one, two).is_ok());
    assert_eq!(
        AstOperand::build(OpTy::ADD, Ast::Leaf(AstLeaf::integer(1)), null_ast()).unwrap_err().0,
        ItrErrCode::CompileError
    );
    assert_eq!(
        AstAssign::build("x", null_ast()).unwrap_err().0,
        ItrErrCode::CompileError
    );
    assert_eq!(AstLeaf::must_identifier(&Ast::Leaf(AstLeaf::var("foo"))).unwrap(), "foo");
    assert_eq!(
        AstLeaf::must_identifier(&Ast::Leaf(AstLeaf::integer(3))).unwrap_err().0,
        ItrErrCode::CompileError
    );
}

fn null_ast() -> Ast {
    vm::ast::AstNull::null()
}

#[test]
fn ir_func_ignores_arguments_past_its_shape() {
    let a = IrNode::leaf(true, Bytecode::PNIL);
    let b = IrNode::leaf(true, Bytecode::PTRUE);
    match build_ir_func(Bytecode::POW, 0, 1, 1, vec![a, b]).unwrap() {
        IrNode::Op { hrtv, inst, para, subs } => {
            assert!(hrtv);
            assert_eq!(inst, Bytecode::POW);
            assert!(para.is_empty());
            assert_eq!(subs.len(), 1);
            assert_eq!(subs[0].bytecode(), Bytecode::PNIL);
        }
        _ => panic!("not an instruction node"),
    }
    let p = IrNode::Op { hrtv: true, inst: Bytecode::PU8, para: vec![7], subs: vec![] };
    let x = IrNode::leaf(true, Bytecode::PNIL);
    let y = IrNode::leaf(true, Bytecode::PTRUE);
    match build_ir_func(Bytecode::POW, 1, 1, 0, vec![p, x, y]).unwrap() {
        IrNode::Op { hrtv, para, subs, .. } => {
            assert!(!hrtv);
            assert_eq!(para, vec![7]);
            assert_eq!(subs.len(), 1);
            assert_eq!(subs[0].bytecode(), Bytecode::PNIL);
        }
        _ => panic!("not an instruction node"),
    }
    let bad = IrNode::leaf(true, Bytecode::PNIL);
    let z = IrNode::leaf(true, Bytecode::PNIL);
    assert_eq!(build_ir_func(Bytecode::POW, 1, 1, 0, vec![bad, z]).unwrap_err().0, ItrErrCode::CompileError);
}
