//! Gas: the per-opcode table, the extra charges, and gas used so far.

use vstd::prelude::*;
use crate::bytecode::{Bytecode, spec_from_byte};

verus! {

/// Gas used so far, split into compute and storage.
#[derive(Debug, Clone, Copy)]
pub struct GasUse {
    pub compute: i64,
    pub storage: i64,
}

impl GasUse {
    /// Compute and storage together.
    pub fn total(&self) -> (r: i64)
        requires
            i64::MIN <= self.compute + self.storage <= i64::MAX,
        ensures
            r == self.compute + self.storage,
    {
        self.compute + self.storage
    }
}

/// Base gas of an opcode: most cost 2; constants, small pushes, stack
/// shuffles and terminators 1; heavier groups more.
pub open spec fn spec_inst_gas(b: Bytecode) -> u8 {
    match b {
        Bytecode::CU8 | Bytecode::CU16 | Bytecode::CU32 | Bytecode::CU64 | Bytecode::CU128
        | Bytecode::TID | Bytecode::PU8 | Bytecode::PU16 | Bytecode::P0 | Bytecode::P1
        | Bytecode::PNBUF | Bytecode::DUP | Bytecode::POP | Bytecode::NOP | Bytecode::RET
        | Bytecode::END | Bytecode::AST | Bytecode::ERR | Bytecode::ABT => 1,
        Bytecode::XLG | Bytecode::PUT | Bytecode::PUTX | Bytecode::CHOOSE | Bytecode::BRL
        | Bytecode::BRS | Bytecode::BRSL | Bytecode::BRSLN => 3,
        Bytecode::XOP | Bytecode::HREAD | Bytecode::HREADU | Bytecode::HREADUL | Bytecode::MOD
        | Bytecode::MUL | Bytecode::DIV => 4,
        Bytecode::POW => 5,
        Bytecode::HWRITE | Bytecode::HWRITEX | Bytecode::HWRITEXL => 6,
        Bytecode::MGET | Bytecode::JOIN | Bytecode::REV => 8,
        Bytecode::MPUT | Bytecode::MPATCH => 12,
        Bytecode::GGET | Bytecode::CODE_CALL => 16,
        Bytecode::GPUT => 24,
        Bytecode::SLOAD | Bytecode::CALL => 32,
        _ => 2,
    }
}

/// Base gas of the opcode with a given byte.
pub open spec fn spec_code_gas(code: u8) -> u8 {
    spec_inst_gas(spec_from_byte(code))
}

fn inst_gas(b: Bytecode) -> (r: u8)
    ensures
        r == spec_inst_gas(b),
{
    match b {
        Bytecode::CU8 | Bytecode::CU16 | Bytecode::CU32 | Bytecode::CU64 | Bytecode::CU128
        | Bytecode::TID | Bytecode::PU8 | Bytecode::PU16 | Bytecode::P0 | Bytecode::P1
        | Bytecode::PNBUF | Bytecode::DUP | Bytecode::POP | Bytecode::NOP | Bytecode::RET
        | Bytecode::END | Bytecode::AST | Bytecode::ERR | Bytecode::ABT => 1,
        Bytecode::XLG | Bytecode::PUT | Bytecode::PUTX | Bytecode::CHOOSE | Bytecode::BRL
        | Bytecode::BRS | Bytecode::BRSL | Bytecode::BRSLN => 3,
        Bytecode::XOP | Bytecode::HREAD | Bytecode::HREADU | Bytecode::HREADUL | Bytecode::MOD
        | Bytecode::MUL | Bytecode::DIV => 4,
        Bytecode::POW => 5,
        Bytecode::HWRITE | Bytecode::HWRITEX | Bytecode::HWRITEXL => 6,
        Bytecode::MGET | Bytecode::JOIN | Bytecode::REV => 8,
        Bytecode::MPUT | Bytecode::MPATCH => 12,
        Bytecode::GGET | Bytecode::CODE_CALL => 16,
        Bytecode::GPUT => 24,
        Bytecode::SLOAD | Bytecode::CALL => 32,
        _ => 2,
    }
}

/// Base gas of every opcode byte.
pub struct GasTable {
    table: Vec<u8>,
}

impl GasTable {
    #[verifier::type_invariant]
    spec fn inv(self) -> bool {
        &&& self.table@.len() == 256
        &&& forall|i: int| 0 <= i < 256 ==> #[trigger] self.table@[i] == spec_code_gas(i as u8)
    }

    /// The gas the table holds for an opcode byte.
    pub closed spec fn entry(&self, code: u8) -> int {
        self.table@[code as int] as int
    }

    /// The table in force at a block height (the same at every height).
    pub fn new(_hei: u64) -> (r: GasTable)
        ensures
            forall|code: u8| #[trigger] r.entry(code) == spec_code_gas(code),
    {
        let mut table: Vec<u8> = Vec::new();
        let mut i: usize = 0;
        while i < 256
            invariant
                i <= 256,
                table@.len() == i,
                forall|j: int| 0 <= j < i ==> #[trigger] table@[j] == spec_code_gas(j as u8),
            decreases 256 - i,
        {
            let b = Bytecode::from_byte(i as u8);
            table.push(inst_gas(b));
            i = i + 1;
        }
        let r = GasTable { table };
        assert forall|code: u8| #[trigger] r.entry(code) == spec_code_gas(code) by {
            assert(r.table@[code as int] == spec_code_gas(code as int as u8));
        }
        r
    }

    /// Base gas of the opcode with byte `code`.
    pub fn gas(&self, code: u8) -> (r: i64)
        ensures
            r == spec_code_gas(code) as i64,
    {
        proof {
            use_type_invariant(self);
        }
        self.table[code as usize] as i64
    }
}

/// Extra charges on top of the base gas of an opcode.
#[derive(Debug, Clone, Copy)]
pub struct GasExtra {
    pub local_one_alloc: i64,
    pub local_put: i64,
    pub memory_put: i64,
    pub memory_get: i64,
    pub global_put: i64,
    pub global_get: i64,
    pub storage_read: i64,
    pub storage_save_base: i64,
    pub storage_recover: i64,
    pub load_one_new_contract: i64,
}

impl GasExtra {
    /// The charges in force at a block height (the same at every height).
    pub fn new(_hei: u64) -> (r: GasExtra)
        ensures
            r.local_one_alloc == 5,
            r.local_put == 1,
            r.memory_get == 6,
            r.memory_put == 10,
            r.global_get == 14,
            r.global_put == 22,
            r.storage_read == 30,
            r.storage_save_base == 42,
            r.storage_recover == 62,
            r.load_one_new_contract == 64,
    {
        GasExtra {
            local_one_alloc: 5,
            local_put: 1,
            memory_get: 6,
            memory_put: 10,
            global_get: 14,
            global_put: 22,
            storage_read: 30,
            storage_save_base: 42,
            storage_recover: 62,
            load_one_new_contract: 64,
        }
    }
}

} // verus!
