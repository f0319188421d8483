use vm::bytecode::{is_user_call_inst, Bytecode};
use vm::error::ItrErrCode;
use vm::funcs::pick_ir_func;
use vm::gas::GasTable;

#[test]
fn layout_matches_v3_map() {
    assert_eq!(Bytecode::ACTION.to_u8(), 0x00);
    assert_eq!(Bytecode::ACTVIEW.to_u8(), 0x06);
    assert_eq!(Bytecode::ACTENV.to_u8(), 0x07);
    assert_eq!(Bytecode::NTENV.to_u8(), 0x08);
    assert_eq!(Bytecode::NTCTL.to_u8(), 0x09);
    assert_eq!(Bytecode::NTFUNC.to_u8(), 0x0a);
    assert_eq!(Bytecode::CODE_CALL.to_u8(), 0x12);
    assert_eq!(Bytecode::CALL.to_u8(), 0x13);
    assert_eq!(Bytecode::CALLEXT.to_u8(), 0x14);
    assert_eq!(Bytecode::CALLEXTVIEW.to_u8(), 0x15);
    assert_eq!(Bytecode::CALLUSEVIEW.to_u8(), 0x16);
    assert_eq!(Bytecode::CALLUSEPURE.to_u8(), 0x17);
    assert_eq!(Bytecode::CALLTHIS.to_u8(), 0x18);
    assert_eq!(Bytecode::CALLSELF.to_u8(), 0x19);
    assert_eq!(Bytecode::CALLSUPER.to_u8(), 0x1a);
    assert_eq!(Bytecode::CALLSELFVIEW.to_u8(), 0x1b);
    assert_eq!(Bytecode::CALLSELFPURE.to_u8(), 0x1c);
    assert_eq!(Bytecode::SIZE.to_u8(), 0x50);
    assert_eq!(Bytecode::CHOOSE.to_u8(), 0x51);
    assert_eq!(Bytecode::NEWLIST.to_u8(), 0x58);
    assert_eq!(Bytecode::MERGE.to_u8(), 0x5f);
    assert_eq!(Bytecode::LENGTH.to_u8(), 0x60);
    assert_eq!(Bytecode::TUPLE2LIST.to_u8(), 0x6b);
    assert_eq!(Bytecode::GPUT.to_u8(), 0x70);
    assert_eq!(Bytecode::MGET.to_u8(), 0x73);
    assert_eq!(Bytecode::MONCE.to_u8(), 0x74);
    assert_eq!(Bytecode::MPATCH.to_u8(), 0x76);
    assert_eq!(Bytecode::XLG.to_u8(), 0x79);
    assert_eq!(Bytecode::ALLOC.to_u8(), 0x7f);
    assert_eq!(Bytecode::GET0.to_u8(), 0x80);
    assert_eq!(Bytecode::GET1.to_u8(), 0x81);
    assert_eq!(Bytecode::GET2.to_u8(), 0x82);
    assert_eq!(Bytecode::GET3.to_u8(), 0x83);
    assert_eq!(Bytecode::HREADUL.to_u8(), 0x89);
    assert_eq!(Bytecode::HWRITEX.to_u8(), 0x8c);
    assert_eq!(Bytecode::HGROW.to_u8(), 0x8f);
    assert_eq!(Bytecode::LOG1.to_u8(), 0x90);
    assert_eq!(Bytecode::LOG4.to_u8(), 0x93);
    assert_eq!(Bytecode::SPUT.to_u8(), 0x96);
    assert_eq!(Bytecode::SGET.to_u8(), 0x97);
    assert_eq!(Bytecode::SSTAT.to_u8(), 0x98);
    assert_eq!(Bytecode::SLOAD.to_u8(), 0x99);
    assert_eq!(Bytecode::SPATCH.to_u8(), 0x9a);
    assert_eq!(Bytecode::SRENT.to_u8(), 0x9f);
    assert_eq!(Bytecode::ADD.to_u8(), 0xb0);
    assert_eq!(Bytecode::SUB.to_u8(), 0xb1);
    assert_eq!(Bytecode::MUL.to_u8(), 0xb2);
    assert_eq!(Bytecode::DIV.to_u8(), 0xb3);
    assert_eq!(Bytecode::MOD.to_u8(), 0xb4);
    assert_eq!(Bytecode::POW.to_u8(), 0xb5);
    assert_eq!(Bytecode::SQRT.to_u8(), 0xb6);
    assert_eq!(Bytecode::SQRTUP.to_u8(), 0xb7);
    assert_eq!(Bytecode::MAX.to_u8(), 0xb8);
    assert_eq!(Bytecode::MIN.to_u8(), 0xb9);
    assert_eq!(Bytecode::CLAMP.to_u8(), 0xba);
    assert_eq!(Bytecode::ABSDIFF.to_u8(), 0xbb);
    assert_eq!(Bytecode::INC.to_u8(), 0xbc);
    assert_eq!(Bytecode::DEC.to_u8(), 0xbd);
    assert_eq!(Bytecode::ADDMOD.to_u8(), 0xc0);
    assert_eq!(Bytecode::MULMOD.to_u8(), 0xc1);
    assert_eq!(Bytecode::MULADD.to_u8(), 0xc2);
    assert_eq!(Bytecode::MULSUB.to_u8(), 0xc3);
    assert_eq!(Bytecode::DIVUP.to_u8(), 0xc4);
    assert_eq!(Bytecode::DIVEXACT.to_u8(), 0xc5);
    assert_eq!(Bytecode::MULDIV.to_u8(), 0xc6);
    assert_eq!(Bytecode::MULDIVUP.to_u8(), 0xc7);
    assert_eq!(Bytecode::FINPOW3.to_u8(), 0xca);
    assert_eq!(Bytecode::FIN2.to_u8(), 0xcf);
    assert_eq!(Bytecode::JMPL.to_u8(), 0xe0);
    assert_eq!(Bytecode::BRSLN.to_u8(), 0xe6);
    assert_eq!(Bytecode::PRT.to_u8(), 0xea);
    assert_eq!(Bytecode::END.to_u8(), 0xef);
    assert_eq!(Bytecode::IRBYTECODE.to_u8(), 0xf0);
    assert_eq!(Bytecode::IRCONTINUE.to_u8(), 0xf8);
    assert_eq!(Bytecode::BURN.to_u8(), 0xfd);
    assert_eq!(Bytecode::NT.to_u8(), 0xff);
}

#[test]
fn call_family_is_one_contiguous_range() {
    for op in 0x12u8..=0x1c {
        let inst = Bytecode::try_from_u8(op).expect("call opcode");
        assert!(is_user_call_inst(inst), "0x{op:02x} must be a call");
    }
    for op in [0x0fu8, 0x10, 0x11, 0x1d, 0x20, 0xe0] {
        match Bytecode::try_from_u8(op) {
            Ok(inst) => assert!(!is_user_call_inst(inst), "0x{op:02x} must not be a call"),
            Err(_) => {}
        }
    }
}

#[test]
fn reserved_slots_are_invalid_and_named_slots_round_trip() {
    let mut named = 0usize;
    for op in 0u8..=255 {
        match Bytecode::try_from_u8(op) {
            Ok(inst) => {
                named += 1;
                assert_eq!(inst.to_u8(), op, "0x{op:02x} round-trip");
                assert!(inst.metadata().valid, "0x{op:02x} metadata");
            }
            Err(e) => assert_eq!(e.0, ItrErrCode::InstInvalid),
        }
    }
    assert_eq!(named, 185, "184 existing opcodes + MPATCH");
    for op in [
        0x01u8, 0x04, 0x05, 0x10, 0x11, 0x77, 0x84, 0x85, 0x86, 0x87, 0x88, 0xbe, 0xc8, 0xd0, 0xdf,
    ] {
        assert!(Bytecode::try_from_u8(op).is_err(), "0x{op:02x} must stay free/reserved");
    }
    assert_eq!(Bytecode::parse("MPATCH"), Some(Bytecode::MPATCH));
    assert_eq!(Bytecode::parse("CODE_CALL"), Some(Bytecode::CODE_CALL));
    assert_eq!(Bytecode::parse("CODECALL"), None);
}

#[test]
fn mpatch_metadata_gas_and_irfn() {
    let meta = Bytecode::MPATCH.metadata();
    assert!(meta.valid);
    assert_eq!((meta.param, meta.input, meta.output), (0, 3, 1));
    assert_eq!(meta.intro, "memory_patch");
    let spatch = Bytecode::SPATCH.metadata();
    assert_eq!(
        (meta.param, meta.input, meta.output),
        (spatch.param, spatch.input, spatch.output)
    );

    let gst = GasTable::new(0);
    assert_eq!(gst.gas(Bytecode::MPATCH.to_u8()), 12);
    assert!(
        gst.gas(Bytecode::MPATCH.to_u8()) >= gst.gas(Bytecode::MPUT.to_u8()),
        "MPATCH is a memory write and must not be cheaper than MPUT"
    );

    let Some((_, bc, pms, args, rs)) = pick_ir_func("memory_patch") else {
        panic!("memory_patch irfn missing");
    };
    assert_eq!(bc, Bytecode::MPATCH);
    assert_eq!((pms, args, rs), (0, 3, 1));
}

#[test]
fn onchain_p2sh_lockboxes_keep_their_deployed_encoding() {
    const LOCKBOXES: &[(u64, &str)] = &[
        (768358, "7f0107027c00070122030bba7c32a7e5001f80221500b11f3f59601a0da2e0c471e460fb03bf156f46f33709a2ebe2001c8022150039e26861b8743434b95a1af10cb7051a429a9ce73709a2eb24ee"),
        (768450, "7f0107027c00070122030bdb7732a7e5001f80221500b11f3f59601a0da2e0c471e460fb03bf156f46f33709a2ebe2001c80221500165c77a76c6c267624a2cee98252a1c0645540fe3709a2eb24ee"),
        (768490, "7f0107027c00070122030bdb7732a7e5001f80221500b11f3f59601a0da2e0c471e460fb03bf156f46f33709a2ebe2001c80221500165c77a76c6c267624a2cee98252a1c0645540fe3709a2eb24ee"),
        (768907, "7f0107027c00070122030bba7c32a7e5001f80221500b11f3f59601a0da2e0c471e460fb03bf156f46f33709a2ebe2001c8022150039e26861b8743434b95a1af10cb7051a429a9ce73709a2eb24ee"),
        (769079, "7f0107027c00070122030bbcb132a7e5001f80221500b11f3f59601a0da2e0c471e460fb03bf156f46f33709a2ebe2001c8022150039e26861b8743434b95a1af10cb7051a429a9ce73709a2eb24ee"),
        (769079, "7f0107027c00070122030bbcaf32a7e5001f80221500b11f3f59601a0da2e0c471e460fb03bf156f46f33709a2ebe2001c8022150039e26861b8743434b95a1af10cb7051a429a9ce73709a2eb24ee"),
        (769202, "7f0107027c00070122030bbdc932a7e5001f80221500b11f3f59601a0da2e0c471e460fb03bf156f46f33709a2ebe2001c8022150039e26861b8743434b95a1af10cb7051a429a9ce73709a2eb24ee"),
        (769214, "7f0107027c00070122030bbcb032a7e5001f80221500b11f3f59601a0da2e0c471e460fb03bf156f46f33709a2ebe2001c8022150039e26861b8743434b95a1af10cb7051a429a9ce73709a2eb24ee"),
        (769214, "7f0107027c00070122030bbcae32a7e5001f80221500b11f3f59601a0da2e0c471e460fb03bf156f46f33709a2ebe2001c8022150039e26861b8743434b95a1af10cb7051a429a9ce73709a2eb24ee"),
    ];
    const EXPECTED: &[&str] = &[
        "ALLOC", "ACTENV", "PUT", "ACTENV", "PBUF", "CU32", "GE", "BRSL", "GET0", "PBUF",
        "CTO", "EQ", "AST", "JMPSL", "GET0", "PBUF", "CTO", "EQ", "AST", "P0", "RET",
    ];

    for (height, hex_lockbox) in LOCKBOXES {
        let codes = hex::decode(hex_lockbox).expect("lockbox hex");
        let mut got = Vec::new();
        let mut pc = 0usize;
        while pc < codes.len() {
            let inst = match Bytecode::try_from_u8(codes[pc]) {
                Ok(inst) => inst,
                Err(_) => panic!("height {height}: 0x{:02x} is not an opcode", codes[pc]),
            };
            got.push(format!("{:?}", inst));
            pc += 1;
            pc += match inst {
                Bytecode::PBUF => 1 + codes[pc] as usize,
                Bytecode::PBUFL => 2 + u16::from_be_bytes([codes[pc], codes[pc + 1]]) as usize,
                _ => inst.metadata().param as usize,
            };
        }
        assert_eq!(pc, codes.len(), "height {height}: stream does not end on a boundary");
        assert_eq!(codes.len(), 79, "height {height}: unexpected script length");
        assert_eq!(got, EXPECTED, "height {height}: on-chain P2SH script no longer decodes to the same instructions");
        vm::verify::verify_bytecodes(&codes)
            .unwrap_or_else(|e| panic!("height {height}: P2SH lockbox fails verification: {:?}", e));
    }
}
