use vm::lang::OpTy;
use vm::catalog::{NativeArgvPack, NativeCtl, NativeFunc};
use vm::value::ValueTy;

#[test]
fn catalog_rows_are_stable() {
    assert_eq!(NativeFunc::address_version.idx(), 91);
    assert_eq!(NativeFunc::is_privkey_unknown.idx(), 92);
    assert_eq!(NativeFunc::is_privkey_not_unknown.idx(), 93);
    assert_eq!(NativeFunc::is_privkey.idx(), 94);
    assert_eq!(NativeFunc::is_contract.idx(), 95);
    assert_eq!(NativeFunc::is_scriptmh.idx(), 96);
    for cty in [
        NativeFunc::address_version,
        NativeFunc::is_privkey_unknown,
        NativeFunc::is_privkey_not_unknown,
        NativeFunc::is_privkey,
        NativeFunc::is_contract,
        NativeFunc::is_scriptmh,
    ] {
        assert_eq!(cty.argv_len_of(), 1);
        assert_eq!(cty.argv_pack_of(), NativeArgvPack::Packed);
    }
}

#[test]
fn catalog_rows_and_pack_are_stable() {
    assert_eq!(NativeFunc::hac_to_mei.idx(), 51);
    assert_eq!(NativeFunc::hac_to_mei_checked.idx(), 52);
    assert_eq!(NativeFunc::hac_to_zhu.idx(), 53);
    assert_eq!(NativeFunc::hac_to_zhu_checked.idx(), 54);
    assert_eq!(NativeFunc::hac_to_unit.idx(), 55);
    assert_eq!(NativeFunc::hac_to_unit_checked.idx(), 56);
    assert_eq!(NativeFunc::hac_is_exact_mei.idx(), 57);
    assert_eq!(NativeFunc::hac_is_exact_zhu.idx(), 58);
    assert_eq!(NativeFunc::hac_is_exact_unit.idx(), 59);
    assert_eq!(NativeFunc::mei_to_hac.idx(), 60);
    assert_eq!(NativeFunc::zhu_to_hac.idx(), 61);
    assert_eq!(NativeFunc::unit_to_hac.idx(), 62);
    for (cty, pack) in [
        (NativeFunc::hac_to_zhu_checked, NativeArgvPack::Concat),
        (NativeFunc::hac_is_exact_zhu, NativeArgvPack::Concat),
        (NativeFunc::hac_to_unit_checked, NativeArgvPack::Packed),
        (NativeFunc::hac_is_exact_unit, NativeArgvPack::Packed),
        (NativeFunc::hac_to_mei_checked, NativeArgvPack::Concat),
        (NativeFunc::hac_to_unit, NativeArgvPack::Packed),
        (NativeFunc::unit_to_hac, NativeArgvPack::Packed),
        (NativeFunc::hac_is_exact_mei, NativeArgvPack::Concat),
    ] {
        assert_eq!(cty.argv_pack_of(), pack, "{}", cty.name());
        assert_eq!(NativeFunc::argv_pack(cty.idx()).unwrap(), pack);
    }
    for (name, idx) in [
        ("hac_to_zhu_checked", 54u8),
        ("hac_to_unit_checked", 56),
        ("hac_is_exact_zhu", 58),
        ("hac_is_exact_unit", 59),
        ("hac_to_mei_checked", 52),
        ("hac_to_unit", 55),
        ("unit_to_hac", 62),
        ("hac_is_exact_mei", 57),
    ] {
        assert_eq!(NativeFunc::from_name(name).unwrap().0, idx);
    }
}

#[test]
fn catalog_rows_pin_new_ctl_ids() {
    assert_eq!(NativeCtl::intent_use_kind.idx(), 65);
    assert_eq!(NativeCtl::intent_bound.idx(), 66);
    assert_eq!(NativeCtl::defer_current.idx(), 2);
    assert_eq!(NativeCtl::intent_open_page.idx(), 68);
    assert_eq!(NativeCtl::argv_len(65), Some(1));
    assert_eq!(NativeCtl::argv_len(66), Some(0));
    assert_eq!(NativeCtl::argv_len(2), Some(0));
    assert_eq!(NativeCtl::argv_len(68), Some(2));
    assert_eq!(NativeCtl::intent_use_kind.rty_of(), ValueTy::Nil);
    assert_eq!(NativeCtl::intent_bound.rty_of(), ValueTy::Bool);
    assert_eq!(NativeCtl::defer_current.rty_of(), ValueTy::Nil);
    assert_eq!(NativeCtl::intent_open_page.rty_of(), ValueTy::Tuple);
    assert_eq!(NativeCtl::from_name("defer_current").map(|v| v.0), Some(2));
    assert!(NativeCtl::has_idx(65) && NativeCtl::has_idx(68));
}

#[test]
fn every_row_is_found_again_by_its_name() {
    let mut funcs = 0;
    let mut ctls = 0;
    for i in 0u8..=255 {
        if let Ok(c) = NativeFunc::try_from_u8(i) {
            funcs += 1;
            assert_eq!(c.idx(), i);
            assert_eq!(NativeFunc::from_name(c.name()), Some((i, c)));
        }
        if let Ok(c) = NativeCtl::try_from_u8(i) {
            ctls += 1;
            assert_eq!(c.idx(), i);
            assert_eq!(NativeCtl::from_name(c.name()), Some((i, c)));
        }
        if let Ok(c) = vm::catalog::NativeEnv::try_from_u8(i) {
            assert_eq!(vm::catalog::NativeEnv::from_name(c.name()), Some((i, c)));
        }
    }
    assert_eq!(funcs, 34);
    assert_eq!(ctls, 49);
    assert_eq!(NativeFunc::from_name("nope"), None);
}

#[test]
fn operators_parse_back_from_their_symbols() {
    let ops = [
        OpTy::NOT, OpTy::POW, OpTy::MUL, OpTy::DIV, OpTy::MOD, OpTy::ADD, OpTy::SUB, OpTy::BSHL,
        OpTy::BSHR, OpTy::BAND, OpTy::BXOR, OpTy::BOR, OpTy::EQ, OpTy::NEQ, OpTy::GE, OpTy::LE,
        OpTy::GT, OpTy::LT, OpTy::AND, OpTy::OR, OpTy::CAT,
    ];
    for op in ops {
        assert_eq!(OpTy::build(op.symbol()).unwrap(), op);
        assert_eq!(OpTy::from_bytecode(op.bytecode()).unwrap(), op);
    }
}
