//! The native catalog: environment reads, pure functions and intent
//! controls, each row with its index, name, argument count, gas, return type
//! and, for functions, how its argument slot is filled.

use vstd::prelude::*;
use crate::error::{ItrErr, ItrErrCode, VmrtRes};
use crate::text::str_eq;
use crate::value::ValueTy;

verus! {

/// How a native function's single argument slot is filled: `Concat` callees
/// take one byte string (fragments are concatenated), `Packed` callees take
/// structured values (no argument `Nil`, one argument as it is, two or more
/// as a tuple).
#[derive(Debug, Clone, Copy, PartialEq, Eq, Structural)]
pub enum NativeArgvPack {
    Concat,
    Packed,
}

/// Reads of the calling environment.
#[allow(non_camel_case_types)]
#[derive(Debug, Clone, Copy, PartialEq, Eq, Structural)]
pub enum NativeEnv {
    Null,
    context_address,
}

/// The catalog index of a row (`Null` is 0).
pub open spec fn spec_env_idx(c: NativeEnv) -> u8 {
    match c {
        NativeEnv::Null => 0,
        NativeEnv::context_address => 1,
    }
}

/// The row at a catalog index.
pub open spec fn spec_env_at(i: u8) -> Option<NativeEnv> {
    match i {
        1 => Some(NativeEnv::context_address),
        _ => None,
    }
}

/// Argument count of a row.
pub open spec fn spec_env_argv_len(c: NativeEnv) -> usize {
    match c {
        NativeEnv::Null => 0,
        NativeEnv::context_address => 0,
    }
}

/// Gas of a row.
pub open spec fn spec_env_gas(c: NativeEnv) -> i64 {
    match c {
        NativeEnv::Null => 0,
        NativeEnv::context_address => 6,
    }
}

/// Return type of a row.
pub open spec fn spec_env_rty(c: NativeEnv) -> ValueTy {
    match c {
        NativeEnv::Null => ValueTy::Nil,
        NativeEnv::context_address => ValueTy::Address,
    }
}

/// Name of a row.
pub open spec fn spec_env_name(c: NativeEnv) -> Seq<char> {
    match c {
        NativeEnv::Null => ""@,
        NativeEnv::context_address => "context_address"@,
    }
}

/// The row with a name.
pub open spec fn spec_env_named(s: Seq<char>) -> Option<NativeEnv> {
    if s == "context_address"@ {
        Some(NativeEnv::context_address)
    } else {
        None
    }
}

impl NativeEnv {
    /// The catalog index of this row.
    pub fn idx(&self) -> (r: u8)
        ensures
            r == spec_env_idx(*self),
    {
        match self {
            NativeEnv::Null => 0,
            NativeEnv::context_address => 1,
        }
    }

    /// The row at an index; an index with no row is an error.
    pub fn try_from_u8(idx: u8) -> (r: VmrtRes<NativeEnv>)
        ensures
            match spec_env_at(idx) {
                Some(c) => r matches Ok(x) && x == c,
                None => r matches Err(e) && e.0 == ItrErrCode::NativeEnvError,
            },
    {
        match idx {
            1 => Ok(NativeEnv::context_address),
            _ => Err(ItrErr::new(ItrErrCode::NativeEnvError, "not find NativeEnv idx")),
        }
    }

    /// Gas of this row.
    pub fn gas_of(&self) -> (r: i64)
        ensures
            r == spec_env_gas(*self),
    {
        match self {
            NativeEnv::Null => 0,
            NativeEnv::context_address => 6,
        }
    }

    /// Gas of the row at an index.
    pub fn gas(idx: u8) -> (r: VmrtRes<i64>)
        ensures
            match spec_env_at(idx) {
                Some(c) => r matches Ok(g) && g == spec_env_gas(c),
                None => r matches Err(e) && e.0 == ItrErrCode::NativeEnvError,
            },
    {
        let c = NativeEnv::try_from_u8(idx)?;
        Ok(c.gas_of())
    }

    /// Return type of this row.
    pub fn rty_of(&self) -> (r: ValueTy)
        ensures
            r == spec_env_rty(*self),
    {
        match self {
            NativeEnv::Null => ValueTy::Nil,
            NativeEnv::context_address => ValueTy::Address,
        }
    }

    /// Name of this row.
    pub fn name(&self) -> (r: &'static str)
        requires
            *self != NativeEnv::Null,
        ensures
            r@ == spec_env_name(*self),
    {
        match self {
            NativeEnv::Null => "",
            NativeEnv::context_address => "context_address",
        }
    }

    /// The index and row with a name.
    pub fn from_name(name: &str) -> (r: Option<(u8, NativeEnv)>)
        ensures
            match spec_env_named(name@) {
                Some(c) => r == Some((spec_env_idx(c), c)),
                None => r is None,
            },
    {
        if str_eq(name, "context_address") {
            Some((1, NativeEnv::context_address))
        } else {
            None
        }
    }

    /// Whether an index has a row.
    pub fn has_idx(idx: u8) -> (r: bool)
        ensures
            r == (spec_env_at(idx) is Some),
    {
        match idx {
            1 => true,
            _ => false,
        }
    }

    /// Argument count of the row at an index.
    pub fn argv_len(idx: u8) -> (r: Option<usize>)
        ensures
            match spec_env_at(idx) {
                Some(c) => r == Some(spec_env_argv_len(c)),
                None => r is None,
            },
    {
        match idx {
            1 => Some(0),
            _ => None,
        }
    }

    /// Argument count of this row.
    pub fn argv_len_of(&self) -> (r: usize)
        ensures
            r == spec_env_argv_len(*self),
    {
        match self {
            NativeEnv::Null => 0,
            NativeEnv::context_address => 0,
        }
    }
}

/// Index and row determine each other: the row at a row's index is that
/// row, and a row found at an index has that index.
pub proof fn lemma_env_idx_roundtrip(c: NativeEnv, i: u8)
    ensures
        c != NativeEnv::Null ==> spec_env_at(spec_env_idx(c)) == Some(c),
        spec_env_at(i) matches Some(d) ==> d != NativeEnv::Null && spec_env_idx(d) == i,
{
}

/// Every row is found again by its name: the name lookup inverts `name`, and
/// it gives the row's own index.
pub proof fn lemma_env_name_roundtrip(c: NativeEnv)
    requires
        c != NativeEnv::Null,
    ensures
        spec_env_named(spec_env_name(c)) == Some(c),
{
    reveal_strlit("context_address");
}

/// Pure native functions.
#[allow(non_camel_case_types)]
#[derive(Debug, Clone, Copy, PartialEq, Eq, Structural)]
pub enum NativeFunc {
    Null,
    sha2,
    sha3,
    ripemd160,
    keccak256,
    blake2s256,
    blake2b256,
    hac_to_mei,
    hac_to_mei_checked,
    hac_to_zhu,
    hac_to_zhu_checked,
    hac_to_unit,
    hac_to_unit_checked,
    hac_is_exact_mei,
    hac_is_exact_zhu,
    hac_is_exact_unit,
    mei_to_hac,
    zhu_to_hac,
    unit_to_hac,
    u64_to_fold64,
    fold64_to_u64,
    address_ptr,
    pack_asset,
    patches,
    address_version,
    is_privkey_unknown,
    is_privkey_not_unknown,
    is_privkey,
    is_contract,
    is_scriptmh,
    ascii_parse_flat_kv,
    ascii_validate_transform,
    ascii_u128_dec_unit,
    ascii_hex_lower,
    ascii_base58_validate_or_echo,
}

/// The catalog index of a row (`Null` is 0).
pub open spec fn spec_func_idx(c: NativeFunc) -> u8 {
    match c {
        NativeFunc::Null => 0,
        NativeFunc::sha2 => 1,
        NativeFunc::sha3 => 2,
        NativeFunc::ripemd160 => 3,
        NativeFunc::keccak256 => 4,
        NativeFunc::blake2s256 => 5,
        NativeFunc::blake2b256 => 6,
        NativeFunc::hac_to_mei => 51,
        NativeFunc::hac_to_mei_checked => 52,
        NativeFunc::hac_to_zhu => 53,
        NativeFunc::hac_to_zhu_checked => 54,
        NativeFunc::hac_to_unit => 55,
        NativeFunc::hac_to_unit_checked => 56,
        NativeFunc::hac_is_exact_mei => 57,
        NativeFunc::hac_is_exact_zhu => 58,
        NativeFunc::hac_is_exact_unit => 59,
        NativeFunc::mei_to_hac => 60,
        NativeFunc::zhu_to_hac => 61,
        NativeFunc::unit_to_hac => 62,
        NativeFunc::u64_to_fold64 => 71,
        NativeFunc::fold64_to_u64 => 72,
        NativeFunc::address_ptr => 81,
        NativeFunc::pack_asset => 82,
        NativeFunc::patches => 83,
        NativeFunc::address_version => 91,
        NativeFunc::is_privkey_unknown => 92,
        NativeFunc::is_privkey_not_unknown => 93,
        NativeFunc::is_privkey => 94,
        NativeFunc::is_contract => 95,
        NativeFunc::is_scriptmh => 96,
        NativeFunc::ascii_parse_flat_kv => 121,
        NativeFunc::ascii_validate_transform => 122,
        NativeFunc::ascii_u128_dec_unit => 123,
        NativeFunc::ascii_hex_lower => 124,
        NativeFunc::ascii_base58_validate_or_echo => 125,
    }
}

/// The row at a catalog index.
pub open spec fn spec_func_at(i: u8) -> Option<NativeFunc> {
    match i {
        1 => Some(NativeFunc::sha2),
        2 => Some(NativeFunc::sha3),
        3 => Some(NativeFunc::ripemd160),
        4 => Some(NativeFunc::keccak256),
        5 => Some(NativeFunc::blake2s256),
        6 => Some(NativeFunc::blake2b256),
        51 => Some(NativeFunc::hac_to_mei),
        52 => Some(NativeFunc::hac_to_mei_checked),
        53 => Some(NativeFunc::hac_to_zhu),
        54 => Some(NativeFunc::hac_to_zhu_checked),
        55 => Some(NativeFunc::hac_to_unit),
        56 => Some(NativeFunc::hac_to_unit_checked),
        57 => Some(NativeFunc::hac_is_exact_mei),
        58 => Some(NativeFunc::hac_is_exact_zhu),
        59 => Some(NativeFunc::hac_is_exact_unit),
        60 => Some(NativeFunc::mei_to_hac),
        61 => Some(NativeFunc::zhu_to_hac),
        62 => Some(NativeFunc::unit_to_hac),
        71 => Some(NativeFunc::u64_to_fold64),
        72 => Some(NativeFunc::fold64_to_u64),
        81 => Some(NativeFunc::address_ptr),
        82 => Some(NativeFunc::pack_asset),
        83 => Some(NativeFunc::patches),
        91 => Some(NativeFunc::address_version),
        92 => Some(NativeFunc::is_privkey_unknown),
        93 => Some(NativeFunc::is_privkey_not_unknown),
        94 => Some(NativeFunc::is_privkey),
        95 => Some(NativeFunc::is_contract),
        96 => Some(NativeFunc::is_scriptmh),
        121 => Some(NativeFunc::ascii_parse_flat_kv),
        122 => Some(NativeFunc::ascii_validate_transform),
        123 => Some(NativeFunc::ascii_u128_dec_unit),
        124 => Some(NativeFunc::ascii_hex_lower),
        125 => Some(NativeFunc::ascii_base58_validate_or_echo),
        _ => None,
    }
}

/// Argument count of a row.
pub open spec fn spec_func_argv_len(c: NativeFunc) -> usize {
    match c {
        NativeFunc::Null => 0,
        NativeFunc::sha2 => 1,
        NativeFunc::sha3 => 1,
        NativeFunc::ripemd160 => 1,
        NativeFunc::keccak256 => 1,
        NativeFunc::blake2s256 => 1,
        NativeFunc::blake2b256 => 1,
        NativeFunc::hac_to_mei => 1,
        NativeFunc::hac_to_mei_checked => 1,
        NativeFunc::hac_to_zhu => 1,
        NativeFunc::hac_to_zhu_checked => 1,
        NativeFunc::hac_to_unit => 2,
        NativeFunc::hac_to_unit_checked => 2,
        NativeFunc::hac_is_exact_mei => 1,
        NativeFunc::hac_is_exact_zhu => 1,
        NativeFunc::hac_is_exact_unit => 2,
        NativeFunc::mei_to_hac => 1,
        NativeFunc::zhu_to_hac => 1,
        NativeFunc::unit_to_hac => 2,
        NativeFunc::u64_to_fold64 => 1,
        NativeFunc::fold64_to_u64 => 1,
        NativeFunc::address_ptr => 1,
        NativeFunc::pack_asset => 2,
        NativeFunc::patches => 1,
        NativeFunc::address_version => 1,
        NativeFunc::is_privkey_unknown => 1,
        NativeFunc::is_privkey_not_unknown => 1,
        NativeFunc::is_privkey => 1,
        NativeFunc::is_contract => 1,
        NativeFunc::is_scriptmh => 1,
        NativeFunc::ascii_parse_flat_kv => 8,
        NativeFunc::ascii_validate_transform => 3,
        NativeFunc::ascii_u128_dec_unit => 3,
        NativeFunc::ascii_hex_lower => 1,
        NativeFunc::ascii_base58_validate_or_echo => 1,
    }
}

/// Gas of a row.
pub open spec fn spec_func_gas(c: NativeFunc) -> i64 {
    match c {
        NativeFunc::Null => 0,
        NativeFunc::sha2 => 25,
        NativeFunc::sha3 => 32,
        NativeFunc::ripemd160 => 20,
        NativeFunc::keccak256 => 32,
        NativeFunc::blake2s256 => 32,
        NativeFunc::blake2b256 => 32,
        NativeFunc::hac_to_mei => 6,
        NativeFunc::hac_to_mei_checked => 8,
        NativeFunc::hac_to_zhu => 6,
        NativeFunc::hac_to_zhu_checked => 8,
        NativeFunc::hac_to_unit => 6,
        NativeFunc::hac_to_unit_checked => 8,
        NativeFunc::hac_is_exact_mei => 6,
        NativeFunc::hac_is_exact_zhu => 6,
        NativeFunc::hac_is_exact_unit => 6,
        NativeFunc::mei_to_hac => 6,
        NativeFunc::zhu_to_hac => 6,
        NativeFunc::unit_to_hac => 6,
        NativeFunc::u64_to_fold64 => 6,
        NativeFunc::fold64_to_u64 => 6,
        NativeFunc::address_ptr => 4,
        NativeFunc::pack_asset => 8,
        NativeFunc::patches => 16,
        NativeFunc::address_version => 6,
        NativeFunc::is_privkey_unknown => 6,
        NativeFunc::is_privkey_not_unknown => 6,
        NativeFunc::is_privkey => 6,
        NativeFunc::is_contract => 6,
        NativeFunc::is_scriptmh => 6,
        NativeFunc::ascii_parse_flat_kv => 40,
        NativeFunc::ascii_validate_transform => 24,
        NativeFunc::ascii_u128_dec_unit => 20,
        NativeFunc::ascii_hex_lower => 16,
        NativeFunc::ascii_base58_validate_or_echo => 20,
    }
}

/// Return type of a row.
pub open spec fn spec_func_rty(c: NativeFunc) -> ValueTy {
    match c {
        NativeFunc::Null => ValueTy::Nil,
        NativeFunc::sha2 => ValueTy::Bytes,
        NativeFunc::sha3 => ValueTy::Bytes,
        NativeFunc::ripemd160 => ValueTy::Bytes,
        NativeFunc::keccak256 => ValueTy::Bytes,
        NativeFunc::blake2s256 => ValueTy::Bytes,
        NativeFunc::blake2b256 => ValueTy::Bytes,
        NativeFunc::hac_to_mei => ValueTy::U64,
        NativeFunc::hac_to_mei_checked => ValueTy::U64,
        NativeFunc::hac_to_zhu => ValueTy::U128,
        NativeFunc::hac_to_zhu_checked => ValueTy::U128,
        NativeFunc::hac_to_unit => ValueTy::U128,
        NativeFunc::hac_to_unit_checked => ValueTy::U128,
        NativeFunc::hac_is_exact_mei => ValueTy::Bool,
        NativeFunc::hac_is_exact_zhu => ValueTy::Bool,
        NativeFunc::hac_is_exact_unit => ValueTy::Bool,
        NativeFunc::mei_to_hac => ValueTy::Bytes,
        NativeFunc::zhu_to_hac => ValueTy::Bytes,
        NativeFunc::unit_to_hac => ValueTy::Bytes,
        NativeFunc::u64_to_fold64 => ValueTy::Bytes,
        NativeFunc::fold64_to_u64 => ValueTy::U64,
        NativeFunc::address_ptr => ValueTy::U8,
        NativeFunc::pack_asset => ValueTy::Bytes,
        NativeFunc::patches => ValueTy::Bytes,
        NativeFunc::address_version => ValueTy::U8,
        NativeFunc::is_privkey_unknown => ValueTy::Bool,
        NativeFunc::is_privkey_not_unknown => ValueTy::Bool,
        NativeFunc::is_privkey => ValueTy::Bool,
        NativeFunc::is_contract => ValueTy::Bool,
        NativeFunc::is_scriptmh => ValueTy::Bool,
        NativeFunc::ascii_parse_flat_kv => ValueTy::Tuple,
        NativeFunc::ascii_validate_transform => ValueTy::Tuple,
        NativeFunc::ascii_u128_dec_unit => ValueTy::Tuple,
        NativeFunc::ascii_hex_lower => ValueTy::Tuple,
        NativeFunc::ascii_base58_validate_or_echo => ValueTy::Tuple,
    }
}

/// How the argument slot of a row is filled.
pub open spec fn spec_func_pack(c: NativeFunc) -> NativeArgvPack {
    match c {
        NativeFunc::Null => NativeArgvPack::Concat,
        NativeFunc::sha2 => NativeArgvPack::Concat,
        NativeFunc::sha3 => NativeArgvPack::Concat,
        NativeFunc::ripemd160 => NativeArgvPack::Concat,
        NativeFunc::keccak256 => NativeArgvPack::Concat,
        NativeFunc::blake2s256 => NativeArgvPack::Concat,
        NativeFunc::blake2b256 => NativeArgvPack::Concat,
        NativeFunc::hac_to_mei => NativeArgvPack::Concat,
        NativeFunc::hac_to_mei_checked => NativeArgvPack::Concat,
        NativeFunc::hac_to_zhu => NativeArgvPack::Concat,
        NativeFunc::hac_to_zhu_checked => NativeArgvPack::Concat,
        NativeFunc::hac_to_unit => NativeArgvPack::Packed,
        NativeFunc::hac_to_unit_checked => NativeArgvPack::Packed,
        NativeFunc::hac_is_exact_mei => NativeArgvPack::Concat,
        NativeFunc::hac_is_exact_zhu => NativeArgvPack::Concat,
        NativeFunc::hac_is_exact_unit => NativeArgvPack::Packed,
        NativeFunc::mei_to_hac => NativeArgvPack::Packed,
        NativeFunc::zhu_to_hac => NativeArgvPack::Packed,
        NativeFunc::unit_to_hac => NativeArgvPack::Packed,
        NativeFunc::u64_to_fold64 => NativeArgvPack::Packed,
        NativeFunc::fold64_to_u64 => NativeArgvPack::Concat,
        NativeFunc::address_ptr => NativeArgvPack::Packed,
        NativeFunc::pack_asset => NativeArgvPack::Packed,
        NativeFunc::patches => NativeArgvPack::Packed,
        NativeFunc::address_version => NativeArgvPack::Packed,
        NativeFunc::is_privkey_unknown => NativeArgvPack::Packed,
        NativeFunc::is_privkey_not_unknown => NativeArgvPack::Packed,
        NativeFunc::is_privkey => NativeArgvPack::Packed,
        NativeFunc::is_contract => NativeArgvPack::Packed,
        NativeFunc::is_scriptmh => NativeArgvPack::Packed,
        NativeFunc::ascii_parse_flat_kv => NativeArgvPack::Packed,
        NativeFunc::ascii_validate_transform => NativeArgvPack::Packed,
        NativeFunc::ascii_u128_dec_unit => NativeArgvPack::Packed,
        NativeFunc::ascii_hex_lower => NativeArgvPack::Concat,
        NativeFunc::ascii_base58_validate_or_echo => NativeArgvPack::Concat,
    }
}

/// Name of a row.
pub open spec fn spec_func_name(c: NativeFunc) -> Seq<char> {
    match c {
        NativeFunc::Null => ""@,
        NativeFunc::sha2 => "sha2"@,
        NativeFunc::sha3 => "sha3"@,
        NativeFunc::ripemd160 => "ripemd160"@,
        NativeFunc::keccak256 => "keccak256"@,
        NativeFunc::blake2s256 => "blake2s256"@,
        NativeFunc::blake2b256 => "blake2b256"@,
        NativeFunc::hac_to_mei => "hac_to_mei"@,
        NativeFunc::hac_to_mei_checked => "hac_to_mei_checked"@,
        NativeFunc::hac_to_zhu => "hac_to_zhu"@,
        NativeFunc::hac_to_zhu_checked => "hac_to_zhu_checked"@,
        NativeFunc::hac_to_unit => "hac_to_unit"@,
        NativeFunc::hac_to_unit_checked => "hac_to_unit_checked"@,
        NativeFunc::hac_is_exact_mei => "hac_is_exact_mei"@,
        NativeFunc::hac_is_exact_zhu => "hac_is_exact_zhu"@,
        NativeFunc::hac_is_exact_unit => "hac_is_exact_unit"@,
        NativeFunc::mei_to_hac => "mei_to_hac"@,
        NativeFunc::zhu_to_hac => "zhu_to_hac"@,
        NativeFunc::unit_to_hac => "unit_to_hac"@,
        NativeFunc::u64_to_fold64 => "u64_to_fold64"@,
        NativeFunc::fold64_to_u64 => "fold64_to_u64"@,
        NativeFunc::address_ptr => "address_ptr"@,
        NativeFunc::pack_asset => "pack_asset"@,
        NativeFunc::patches => "patches"@,
        NativeFunc::address_version => "address_version"@,
        NativeFunc::is_privkey_unknown => "is_privkey_unknown"@,
        NativeFunc::is_privkey_not_unknown => "is_privkey_not_unknown"@,
        NativeFunc::is_privkey => "is_privkey"@,
        NativeFunc::is_contract => "is_contract"@,
        NativeFunc::is_scriptmh => "is_scriptmh"@,
        NativeFunc::ascii_parse_flat_kv => "ascii_parse_flat_kv"@,
        NativeFunc::ascii_validate_transform => "ascii_validate_transform"@,
        NativeFunc::ascii_u128_dec_unit => "ascii_u128_dec_unit"@,
        NativeFunc::ascii_hex_lower => "ascii_hex_lower"@,
        NativeFunc::ascii_base58_validate_or_echo => "ascii_base58_validate_or_echo"@,
    }
}

/// The row with a name.
pub open spec fn spec_func_named(s: Seq<char>) -> Option<NativeFunc> {
    if s == "sha2"@ {
        Some(NativeFunc::sha2)
    } else if s == "sha3"@ {
        Some(NativeFunc::sha3)
    } else if s == "ripemd160"@ {
        Some(NativeFunc::ripemd160)
    } else if s == "keccak256"@ {
        Some(NativeFunc::keccak256)
    } else if s == "blake2s256"@ {
        Some(NativeFunc::blake2s256)
    } else if s == "blake2b256"@ {
        Some(NativeFunc::blake2b256)
    } else if s == "hac_to_mei"@ {
        Some(NativeFunc::hac_to_mei)
    } else if s == "hac_to_mei_checked"@ {
        Some(NativeFunc::hac_to_mei_checked)
    } else if s == "hac_to_zhu"@ {
        Some(NativeFunc::hac_to_zhu)
    } else if s == "hac_to_zhu_checked"@ {
        Some(NativeFunc::hac_to_zhu_checked)
    } else if s == "hac_to_unit"@ {
        Some(NativeFunc::hac_to_unit)
    } else if s == "hac_to_unit_checked"@ {
        Some(NativeFunc::hac_to_unit_checked)
    } else if s == "hac_is_exact_mei"@ {
        Some(NativeFunc::hac_is_exact_mei)
    } else if s == "hac_is_exact_zhu"@ {
        Some(NativeFunc::hac_is_exact_zhu)
    } else if s == "hac_is_exact_unit"@ {
        Some(NativeFunc::hac_is_exact_unit)
    } else if s == "mei_to_hac"@ {
        Some(NativeFunc::mei_to_hac)
    } else if s == "zhu_to_hac"@ {
        Some(NativeFunc::zhu_to_hac)
    } else if s == "unit_to_hac"@ {
        Some(NativeFunc::unit_to_hac)
    } else if s == "u64_to_fold64"@ {
        Some(NativeFunc::u64_to_fold64)
    } else if s == "fold64_to_u64"@ {
        Some(NativeFunc::fold64_to_u64)
    } else if s == "address_ptr"@ {
        Some(NativeFunc::address_ptr)
    } else if s == "pack_asset"@ {
        Some(NativeFunc::pack_asset)
    } else if s == "patches"@ {
        Some(NativeFunc::patches)
    } else if s == "address_version"@ {
        Some(NativeFunc::address_version)
    } else if s == "is_privkey_unknown"@ {
        Some(NativeFunc::is_privkey_unknown)
    } else if s == "is_privkey_not_unknown"@ {
        Some(NativeFunc::is_privkey_not_unknown)
    } else if s == "is_privkey"@ {
        Some(NativeFunc::is_privkey)
    } else if s == "is_contract"@ {
        Some(NativeFunc::is_contract)
    } else if s == "is_scriptmh"@ {
        Some(NativeFunc::is_scriptmh)
    } else if s == "ascii_parse_flat_kv"@ {
        Some(NativeFunc::ascii_parse_flat_kv)
    } else if s == "ascii_validate_transform"@ {
        Some(NativeFunc::ascii_validate_transform)
    } else if s == "ascii_u128_dec_unit"@ {
        Some(NativeFunc::ascii_u128_dec_unit)
    } else if s == "ascii_hex_lower"@ {
        Some(NativeFunc::ascii_hex_lower)
    } else if s == "ascii_base58_validate_or_echo"@ {
        Some(NativeFunc::ascii_base58_validate_or_echo)
    } else {
        None
    }
}

impl NativeFunc {
    /// The catalog index of this row.
    pub fn idx(&self) -> (r: u8)
        ensures
            r == spec_func_idx(*self),
    {
        match self {
            NativeFunc::Null => 0,
            NativeFunc::sha2 => 1,
            NativeFunc::sha3 => 2,
            NativeFunc::ripemd160 => 3,
            NativeFunc::keccak256 => 4,
            NativeFunc::blake2s256 => 5,
            NativeFunc::blake2b256 => 6,
            NativeFunc::hac_to_mei => 51,
            NativeFunc::hac_to_mei_checked => 52,
            NativeFunc::hac_to_zhu => 53,
            NativeFunc::hac_to_zhu_checked => 54,
            NativeFunc::hac_to_unit => 55,
            NativeFunc::hac_to_unit_checked => 56,
            NativeFunc::hac_is_exact_mei => 57,
            NativeFunc::hac_is_exact_zhu => 58,
            NativeFunc::hac_is_exact_unit => 59,
            NativeFunc::mei_to_hac => 60,
            NativeFunc::zhu_to_hac => 61,
            NativeFunc::unit_to_hac => 62,
            NativeFunc::u64_to_fold64 => 71,
            NativeFunc::fold64_to_u64 => 72,
            NativeFunc::address_ptr => 81,
            NativeFunc::pack_asset => 82,
            NativeFunc::patches => 83,
            NativeFunc::address_version => 91,
            NativeFunc::is_privkey_unknown => 92,
            NativeFunc::is_privkey_not_unknown => 93,
            NativeFunc::is_privkey => 94,
            NativeFunc::is_contract => 95,
            NativeFunc::is_scriptmh => 96,
            NativeFunc::ascii_parse_flat_kv => 121,
            NativeFunc::ascii_validate_transform => 122,
            NativeFunc::ascii_u128_dec_unit => 123,
            NativeFunc::ascii_hex_lower => 124,
            NativeFunc::ascii_base58_validate_or_echo => 125,
        }
    }

    /// The row at an index; an index with no row is an error.
    pub fn try_from_u8(idx: u8) -> (r: VmrtRes<NativeFunc>)
        ensures
            match spec_func_at(idx) {
                Some(c) => r matches Ok(x) && x == c,
                None => r matches Err(e) && e.0 == ItrErrCode::NativeFuncError,
            },
    {
        match idx {
            1 => Ok(NativeFunc::sha2),
            2 => Ok(NativeFunc::sha3),
            3 => Ok(NativeFunc::ripemd160),
            4 => Ok(NativeFunc::keccak256),
            5 => Ok(NativeFunc::blake2s256),
            6 => Ok(NativeFunc::blake2b256),
            51 => Ok(NativeFunc::hac_to_mei),
            52 => Ok(NativeFunc::hac_to_mei_checked),
            53 => Ok(NativeFunc::hac_to_zhu),
            54 => Ok(NativeFunc::hac_to_zhu_checked),
            55 => Ok(NativeFunc::hac_to_unit),
            56 => Ok(NativeFunc::hac_to_unit_checked),
            57 => Ok(NativeFunc::hac_is_exact_mei),
            58 => Ok(NativeFunc::hac_is_exact_zhu),
            59 => Ok(NativeFunc::hac_is_exact_unit),
            60 => Ok(NativeFunc::mei_to_hac),
            61 => Ok(NativeFunc::zhu_to_hac),
            62 => Ok(NativeFunc::unit_to_hac),
            71 => Ok(NativeFunc::u64_to_fold64),
            72 => Ok(NativeFunc::fold64_to_u64),
            81 => Ok(NativeFunc::address_ptr),
            82 => Ok(NativeFunc::pack_asset),
            83 => Ok(NativeFunc::patches),
            91 => Ok(NativeFunc::address_version),
            92 => Ok(NativeFunc::is_privkey_unknown),
            93 => Ok(NativeFunc::is_privkey_not_unknown),
            94 => Ok(NativeFunc::is_privkey),
            95 => Ok(NativeFunc::is_contract),
            96 => Ok(NativeFunc::is_scriptmh),
            121 => Ok(NativeFunc::ascii_parse_flat_kv),
            122 => Ok(NativeFunc::ascii_validate_transform),
            123 => Ok(NativeFunc::ascii_u128_dec_unit),
            124 => Ok(NativeFunc::ascii_hex_lower),
            125 => Ok(NativeFunc::ascii_base58_validate_or_echo),
            _ => Err(ItrErr::new(ItrErrCode::NativeFuncError, "not find NativeFunc idx")),
        }
    }

    /// How the argument slot of this row is filled.
    pub fn argv_pack_of(&self) -> (r: NativeArgvPack)
        ensures
            r == spec_func_pack(*self),
    {
        match self {
            NativeFunc::Null => NativeArgvPack::Concat,
            NativeFunc::sha2 => NativeArgvPack::Concat,
            NativeFunc::sha3 => NativeArgvPack::Concat,
            NativeFunc::ripemd160 => NativeArgvPack::Concat,
            NativeFunc::keccak256 => NativeArgvPack::Concat,
            NativeFunc::blake2s256 => NativeArgvPack::Concat,
            NativeFunc::blake2b256 => NativeArgvPack::Concat,
            NativeFunc::hac_to_mei => NativeArgvPack::Concat,
            NativeFunc::hac_to_mei_checked => NativeArgvPack::Concat,
            NativeFunc::hac_to_zhu => NativeArgvPack::Concat,
            NativeFunc::hac_to_zhu_checked => NativeArgvPack::Concat,
            NativeFunc::hac_to_unit => NativeArgvPack::Packed,
            NativeFunc::hac_to_unit_checked => NativeArgvPack::Packed,
            NativeFunc::hac_is_exact_mei => NativeArgvPack::Concat,
            NativeFunc::hac_is_exact_zhu => NativeArgvPack::Concat,
            NativeFunc::hac_is_exact_unit => NativeArgvPack::Packed,
            NativeFunc::mei_to_hac => NativeArgvPack::Packed,
            NativeFunc::zhu_to_hac => NativeArgvPack::Packed,
            NativeFunc::unit_to_hac => NativeArgvPack::Packed,
            NativeFunc::u64_to_fold64 => NativeArgvPack::Packed,
            NativeFunc::fold64_to_u64 => NativeArgvPack::Concat,
            NativeFunc::address_ptr => NativeArgvPack::Packed,
            NativeFunc::pack_asset => NativeArgvPack::Packed,
            NativeFunc::patches => NativeArgvPack::Packed,
            NativeFunc::address_version => NativeArgvPack::Packed,
            NativeFunc::is_privkey_unknown => NativeArgvPack::Packed,
            NativeFunc::is_privkey_not_unknown => NativeArgvPack::Packed,
            NativeFunc::is_privkey => NativeArgvPack::Packed,
            NativeFunc::is_contract => NativeArgvPack::Packed,
            NativeFunc::is_scriptmh => NativeArgvPack::Packed,
            NativeFunc::ascii_parse_flat_kv => NativeArgvPack::Packed,
            NativeFunc::ascii_validate_transform => NativeArgvPack::Packed,
            NativeFunc::ascii_u128_dec_unit => NativeArgvPack::Packed,
            NativeFunc::ascii_hex_lower => NativeArgvPack::Concat,
            NativeFunc::ascii_base58_validate_or_echo => NativeArgvPack::Concat,
        }
    }

    /// The argument packing of the row at an index.
    pub fn argv_pack(idx: u8) -> (r: VmrtRes<NativeArgvPack>)
        ensures
            match spec_func_at(idx) {
                Some(c) => r matches Ok(p) && p == spec_func_pack(c),
                None => r matches Err(e) && e.0 == ItrErrCode::NativeFuncError,
            },
    {
        let c = NativeFunc::try_from_u8(idx)?;
        Ok(c.argv_pack_of())
    }

    /// Gas of this row.
    pub fn gas_of(&self) -> (r: i64)
        ensures
            r == spec_func_gas(*self),
    {
        match self {
            NativeFunc::Null => 0,
            NativeFunc::sha2 => 25,
            NativeFunc::sha3 => 32,
            NativeFunc::ripemd160 => 20,
            NativeFunc::keccak256 => 32,
            NativeFunc::blake2s256 => 32,
            NativeFunc::blake2b256 => 32,
            NativeFunc::hac_to_mei => 6,
            NativeFunc::hac_to_mei_checked => 8,
            NativeFunc::hac_to_zhu => 6,
            NativeFunc::hac_to_zhu_checked => 8,
            NativeFunc::hac_to_unit => 6,
            NativeFunc::hac_to_unit_checked => 8,
            NativeFunc::hac_is_exact_mei => 6,
            NativeFunc::hac_is_exact_zhu => 6,
            NativeFunc::hac_is_exact_unit => 6,
            NativeFunc::mei_to_hac => 6,
            NativeFunc::zhu_to_hac => 6,
            NativeFunc::unit_to_hac => 6,
            NativeFunc::u64_to_fold64 => 6,
            NativeFunc::fold64_to_u64 => 6,
            NativeFunc::address_ptr => 4,
            NativeFunc::pack_asset => 8,
            NativeFunc::patches => 16,
            NativeFunc::address_version => 6,
            NativeFunc::is_privkey_unknown => 6,
            NativeFunc::is_privkey_not_unknown => 6,
            NativeFunc::is_privkey => 6,
            NativeFunc::is_contract => 6,
            NativeFunc::is_scriptmh => 6,
            NativeFunc::ascii_parse_flat_kv => 40,
            NativeFunc::ascii_validate_transform => 24,
            NativeFunc::ascii_u128_dec_unit => 20,
            NativeFunc::ascii_hex_lower => 16,
            NativeFunc::ascii_base58_validate_or_echo => 20,
        }
    }

    /// Gas of the row at an index.
    pub fn gas(idx: u8) -> (r: VmrtRes<i64>)
        ensures
            match spec_func_at(idx) {
                Some(c) => r matches Ok(g) && g == spec_func_gas(c),
                None => r matches Err(e) && e.0 == ItrErrCode::NativeFuncError,
            },
    {
        let c = NativeFunc::try_from_u8(idx)?;
        Ok(c.gas_of())
    }

    /// Return type of this row.
    pub fn rty_of(&self) -> (r: ValueTy)
        ensures
            r == spec_func_rty(*self),
    {
        match self {
            NativeFunc::Null => ValueTy::Nil,
            NativeFunc::sha2 => ValueTy::Bytes,
            NativeFunc::sha3 => ValueTy::Bytes,
            NativeFunc::ripemd160 => ValueTy::Bytes,
            NativeFunc::keccak256 => ValueTy::Bytes,
            NativeFunc::blake2s256 => ValueTy::Bytes,
            NativeFunc::blake2b256 => ValueTy::Bytes,
            NativeFunc::hac_to_mei => ValueTy::U64,
            NativeFunc::hac_to_mei_checked => ValueTy::U64,
            NativeFunc::hac_to_zhu => ValueTy::U128,
            NativeFunc::hac_to_zhu_checked => ValueTy::U128,
            NativeFunc::hac_to_unit => ValueTy::U128,
            NativeFunc::hac_to_unit_checked => ValueTy::U128,
            NativeFunc::hac_is_exact_mei => ValueTy::Bool,
            NativeFunc::hac_is_exact_zhu => ValueTy::Bool,
            NativeFunc::hac_is_exact_unit => ValueTy::Bool,
            NativeFunc::mei_to_hac => ValueTy::Bytes,
            NativeFunc::zhu_to_hac => ValueTy::Bytes,
            NativeFunc::unit_to_hac => ValueTy::Bytes,
            NativeFunc::u64_to_fold64 => ValueTy::Bytes,
            NativeFunc::fold64_to_u64 => ValueTy::U64,
            NativeFunc::address_ptr => ValueTy::U8,
            NativeFunc::pack_asset => ValueTy::Bytes,
            NativeFunc::patches => ValueTy::Bytes,
            NativeFunc::address_version => ValueTy::U8,
            NativeFunc::is_privkey_unknown => ValueTy::Bool,
            NativeFunc::is_privkey_not_unknown => ValueTy::Bool,
            NativeFunc::is_privkey => ValueTy::Bool,
            NativeFunc::is_contract => ValueTy::Bool,
            NativeFunc::is_scriptmh => ValueTy::Bool,
            NativeFunc::ascii_parse_flat_kv => ValueTy::Tuple,
            NativeFunc::ascii_validate_transform => ValueTy::Tuple,
            NativeFunc::ascii_u128_dec_unit => ValueTy::Tuple,
            NativeFunc::ascii_hex_lower => ValueTy::Tuple,
            NativeFunc::ascii_base58_validate_or_echo => ValueTy::Tuple,
        }
    }

    /// Name of this row.
    pub fn name(&self) -> (r: &'static str)
        requires
            *self != NativeFunc::Null,
        ensures
            r@ == spec_func_name(*self),
    {
        match self {
            NativeFunc::Null => "",
            NativeFunc::sha2 => "sha2",
            NativeFunc::sha3 => "sha3",
            NativeFunc::ripemd160 => "ripemd160",
            NativeFunc::keccak256 => "keccak256",
            NativeFunc::blake2s256 => "blake2s256",
            NativeFunc::blake2b256 => "blake2b256",
            NativeFunc::hac_to_mei => "hac_to_mei",
            NativeFunc::hac_to_mei_checked => "hac_to_mei_checked",
            NativeFunc::hac_to_zhu => "hac_to_zhu",
            NativeFunc::hac_to_zhu_checked => "hac_to_zhu_checked",
            NativeFunc::hac_to_unit => "hac_to_unit",
            NativeFunc::hac_to_unit_checked => "hac_to_unit_checked",
            NativeFunc::hac_is_exact_mei => "hac_is_exact_mei",
            NativeFunc::hac_is_exact_zhu => "hac_is_exact_zhu",
            NativeFunc::hac_is_exact_unit => "hac_is_exact_unit",
            NativeFunc::mei_to_hac => "mei_to_hac",
            NativeFunc::zhu_to_hac => "zhu_to_hac",
            NativeFunc::unit_to_hac => "unit_to_hac",
            NativeFunc::u64_to_fold64 => "u64_to_fold64",
            NativeFunc::fold64_to_u64 => "fold64_to_u64",
            NativeFunc::address_ptr => "address_ptr",
            NativeFunc::pack_asset => "pack_asset",
            NativeFunc::patches => "patches",
            NativeFunc::address_version => "address_version",
            NativeFunc::is_privkey_unknown => "is_privkey_unknown",
            NativeFunc::is_privkey_not_unknown => "is_privkey_not_unknown",
            NativeFunc::is_privkey => "is_privkey",
            NativeFunc::is_contract => "is_contract",
            NativeFunc::is_scriptmh => "is_scriptmh",
            NativeFunc::ascii_parse_flat_kv => "ascii_parse_flat_kv",
            NativeFunc::ascii_validate_transform => "ascii_validate_transform",
            NativeFunc::ascii_u128_dec_unit => "ascii_u128_dec_unit",
            NativeFunc::ascii_hex_lower => "ascii_hex_lower",
            NativeFunc::ascii_base58_validate_or_echo => "ascii_base58_validate_or_echo",
        }
    }

    /// The index and row with a name.
    pub fn from_name(name: &str) -> (r: Option<(u8, NativeFunc)>)
        ensures
            match spec_func_named(name@) {
                Some(c) => r == Some((spec_func_idx(c), c)),
                None => r is None,
            },
    {
        if str_eq(name, "sha2") {
            Some((1, NativeFunc::sha2))
        } else if str_eq(name, "sha3") {
            Some((2, NativeFunc::sha3))
        } else if str_eq(name, "ripemd160") {
            Some((3, NativeFunc::ripemd160))
        } else if str_eq(name, "keccak256") {
            Some((4, NativeFunc::keccak256))
        } else if str_eq(name, "blake2s256") {
            Some((5, NativeFunc::blake2s256))
        } else if str_eq(name, "blake2b256") {
            Some((6, NativeFunc::blake2b256))
        } else if str_eq(name, "hac_to_mei") {
            Some((51, NativeFunc::hac_to_mei))
        } else if str_eq(name, "hac_to_mei_checked") {
            Some((52, NativeFunc::hac_to_mei_checked))
        } else if str_eq(name, "hac_to_zhu") {
            Some((53, NativeFunc::hac_to_zhu))
        } else if str_eq(name, "hac_to_zhu_checked") {
            Some((54, NativeFunc::hac_to_zhu_checked))
        } else if str_eq(name, "hac_to_unit") {
            Some((55, NativeFunc::hac_to_unit))
        } else if str_eq(name, "hac_to_unit_checked") {
            Some((56, NativeFunc::hac_to_unit_checked))
        } else if str_eq(name, "hac_is_exact_mei") {
            Some((57, NativeFunc::hac_is_exact_mei))
        } else if str_eq(name, "hac_is_exact_zhu") {
            Some((58, NativeFunc::hac_is_exact_zhu))
        } else if str_eq(name, "hac_is_exact_unit") {
            Some((59, NativeFunc::hac_is_exact_unit))
        } else if str_eq(name, "mei_to_hac") {
            Some((60, NativeFunc::mei_to_hac))
        } else if str_eq(name, "zhu_to_hac") {
            Some((61, NativeFunc::zhu_to_hac))
        } else if str_eq(name, "unit_to_hac") {
            Some((62, NativeFunc::unit_to_hac))
        } else if str_eq(name, "u64_to_fold64") {
            Some((71, NativeFunc::u64_to_fold64))
        } else if str_eq(name, "fold64_to_u64") {
            Some((72, NativeFunc::fold64_to_u64))
        } else if str_eq(name, "address_ptr") {
            Some((81, NativeFunc::address_ptr))
        } else if str_eq(name, "pack_asset") {
            Some((82, NativeFunc::pack_asset))
        } else if str_eq(name, "patches") {
            Some((83, NativeFunc::patches))
        } else if str_eq(name, "address_version") {
            Some((91, NativeFunc::address_version))
        } else if str_eq(name, "is_privkey_unknown") {
            Some((92, NativeFunc::is_privkey_unknown))
        } else if str_eq(name, "is_privkey_not_unknown") {
            Some((93, NativeFunc::is_privkey_not_unknown))
        } else if str_eq(name, "is_privkey") {
            Some((94, NativeFunc::is_privkey))
        } else if str_eq(name, "is_contract") {
            Some((95, NativeFunc::is_contract))
        } else if str_eq(name, "is_scriptmh") {
            Some((96, NativeFunc::is_scriptmh))
        } else if str_eq(name, "ascii_parse_flat_kv") {
            Some((121, NativeFunc::ascii_parse_flat_kv))
        } else if str_eq(name, "ascii_validate_transform") {
            Some((122, NativeFunc::ascii_validate_transform))
        } else if str_eq(name, "ascii_u128_dec_unit") {
            Some((123, NativeFunc::ascii_u128_dec_unit))
        } else if str_eq(name, "ascii_hex_lower") {
            Some((124, NativeFunc::ascii_hex_lower))
        } else if str_eq(name, "ascii_base58_validate_or_echo") {
            Some((125, NativeFunc::ascii_base58_validate_or_echo))
        } else {
            None
        }
    }

    /// Whether an index has a row.
    pub fn has_idx(idx: u8) -> (r: bool)
        ensures
            r == (spec_func_at(idx) is Some),
    {
        match idx {
            1 => true,
            2 => true,
            3 => true,
            4 => true,
            5 => true,
            6 => true,
            51 => true,
            52 => true,
            53 => true,
            54 => true,
            55 => true,
            56 => true,
            57 => true,
            58 => true,
            59 => true,
            60 => true,
            61 => true,
            62 => true,
            71 => true,
            72 => true,
            81 => true,
            82 => true,
            83 => true,
            91 => true,
            92 => true,
            93 => true,
            94 => true,
            95 => true,
            96 => true,
            121 => true,
            122 => true,
            123 => true,
            124 => true,
            125 => true,
            _ => false,
        }
    }

    /// Argument count of the row at an index.
    pub fn argv_len(idx: u8) -> (r: Option<usize>)
        ensures
            match spec_func_at(idx) {
                Some(c) => r == Some(spec_func_argv_len(c)),
                None => r is None,
            },
    {
        match idx {
            1 => Some(1),
            2 => Some(1),
            3 => Some(1),
            4 => Some(1),
            5 => Some(1),
            6 => Some(1),
            51 => Some(1),
            52 => Some(1),
            53 => Some(1),
            54 => Some(1),
            55 => Some(2),
            56 => Some(2),
            57 => Some(1),
            58 => Some(1),
            59 => Some(2),
            60 => Some(1),
            61 => Some(1),
            62 => Some(2),
            71 => Some(1),
            72 => Some(1),
            81 => Some(1),
            82 => Some(2),
            83 => Some(1),
            91 => Some(1),
            92 => Some(1),
            93 => Some(1),
            94 => Some(1),
            95 => Some(1),
            96 => Some(1),
            121 => Some(8),
            122 => Some(3),
            123 => Some(3),
            124 => Some(1),
            125 => Some(1),
            _ => None,
        }
    }

    /// Argument count of this row.
    pub fn argv_len_of(&self) -> (r: usize)
        ensures
            r == spec_func_argv_len(*self),
    {
        match self {
            NativeFunc::Null => 0,
            NativeFunc::sha2 => 1,
            NativeFunc::sha3 => 1,
            NativeFunc::ripemd160 => 1,
            NativeFunc::keccak256 => 1,
            NativeFunc::blake2s256 => 1,
            NativeFunc::blake2b256 => 1,
            NativeFunc::hac_to_mei => 1,
            NativeFunc::hac_to_mei_checked => 1,
            NativeFunc::hac_to_zhu => 1,
            NativeFunc::hac_to_zhu_checked => 1,
            NativeFunc::hac_to_unit => 2,
            NativeFunc::hac_to_unit_checked => 2,
            NativeFunc::hac_is_exact_mei => 1,
            NativeFunc::hac_is_exact_zhu => 1,
            NativeFunc::hac_is_exact_unit => 2,
            NativeFunc::mei_to_hac => 1,
            NativeFunc::zhu_to_hac => 1,
            NativeFunc::unit_to_hac => 2,
            NativeFunc::u64_to_fold64 => 1,
            NativeFunc::fold64_to_u64 => 1,
            NativeFunc::address_ptr => 1,
            NativeFunc::pack_asset => 2,
            NativeFunc::patches => 1,
            NativeFunc::address_version => 1,
            NativeFunc::is_privkey_unknown => 1,
            NativeFunc::is_privkey_not_unknown => 1,
            NativeFunc::is_privkey => 1,
            NativeFunc::is_contract => 1,
            NativeFunc::is_scriptmh => 1,
            NativeFunc::ascii_parse_flat_kv => 8,
            NativeFunc::ascii_validate_transform => 3,
            NativeFunc::ascii_u128_dec_unit => 3,
            NativeFunc::ascii_hex_lower => 1,
            NativeFunc::ascii_base58_validate_or_echo => 1,
        }
    }
}

/// Index and row determine each other: the row at a row's index is that
/// row, and a row found at an index has that index.
pub proof fn lemma_func_idx_roundtrip(c: NativeFunc, i: u8)
    ensures
        c != NativeFunc::Null ==> spec_func_at(spec_func_idx(c)) == Some(c),
        spec_func_at(i) matches Some(d) ==> d != NativeFunc::Null && spec_func_idx(d) == i,
{
}

/// Every row is found again by its name: the name lookup inverts `name`, and
/// it gives the row's own index.
pub proof fn lemma_func_name_roundtrip(c: NativeFunc)
    requires
        c != NativeFunc::Null,
    ensures
        spec_func_named(spec_func_name(c)) == Some(c),
{
    reveal_strlit("sha2");
    reveal_strlit("sha3");
    reveal_strlit("ripemd160");
    reveal_strlit("keccak256");
    reveal_strlit("blake2s256");
    reveal_strlit("blake2b256");
    reveal_strlit("hac_to_mei");
    reveal_strlit("hac_to_mei_checked");
    reveal_strlit("hac_to_zhu");
    reveal_strlit("hac_to_zhu_checked");
    reveal_strlit("hac_to_unit");
    reveal_strlit("hac_to_unit_checked");
    reveal_strlit("hac_is_exact_mei");
    reveal_strlit("hac_is_exact_zhu");
    reveal_strlit("hac_is_exact_unit");
    reveal_strlit("mei_to_hac");
    reveal_strlit("zhu_to_hac");
    reveal_strlit("unit_to_hac");
    reveal_strlit("u64_to_fold64");
    reveal_strlit("fold64_to_u64");
    reveal_strlit("address_ptr");
    reveal_strlit("pack_asset");
    reveal_strlit("patches");
    reveal_strlit("address_version");
    reveal_strlit("is_privkey_unknown");
    reveal_strlit("is_privkey_not_unknown");
    reveal_strlit("is_privkey");
    reveal_strlit("is_contract");
    reveal_strlit("is_scriptmh");
    reveal_strlit("ascii_parse_flat_kv");
    reveal_strlit("ascii_validate_transform");
    reveal_strlit("ascii_u128_dec_unit");
    reveal_strlit("ascii_hex_lower");
    reveal_strlit("ascii_base58_validate_or_echo");
    assert("sha2"@.len() == 4);
    assert("sha3"@.len() == 4);
    assert("ripemd160"@.len() == 9);
    assert("keccak256"@.len() == 9);
    assert("blake2s256"@.len() == 10);
    assert("blake2b256"@.len() == 10);
    assert("hac_to_mei"@.len() == 10);
    assert("hac_to_mei_checked"@.len() == 18);
    assert("hac_to_zhu"@.len() == 10);
    assert("hac_to_zhu_checked"@.len() == 18);
    assert("hac_to_unit"@.len() == 11);
    assert("hac_to_unit_checked"@.len() == 19);
    assert("hac_is_exact_mei"@.len() == 16);
    assert("hac_is_exact_zhu"@.len() == 16);
    assert("hac_is_exact_unit"@.len() == 17);
    assert("mei_to_hac"@.len() == 10);
    assert("zhu_to_hac"@.len() == 10);
    assert("unit_to_hac"@.len() == 11);
    assert("u64_to_fold64"@.len() == 13);
    assert("fold64_to_u64"@.len() == 13);
    assert("address_ptr"@.len() == 11);
    assert("pack_asset"@.len() == 10);
    assert("patches"@.len() == 7);
    assert("address_version"@.len() == 15);
    assert("is_privkey_unknown"@.len() == 18);
    assert("is_privkey_not_unknown"@.len() == 22);
    assert("is_privkey"@.len() == 10);
    assert("is_contract"@.len() == 11);
    assert("is_scriptmh"@.len() == 11);
    assert("ascii_parse_flat_kv"@.len() == 19);
    assert("ascii_validate_transform"@.len() == 24);
    assert("ascii_u128_dec_unit"@.len() == 19);
    assert("ascii_hex_lower"@.len() == 15);
    assert("ascii_base58_validate_or_echo"@.len() == 29);
    match c {
        NativeFunc::sha2 => {
            reveal_strlit("sha2");
            assert(spec_func_named("sha2"@) == Some(NativeFunc::sha2));
        },
        NativeFunc::sha3 => {
            reveal_strlit("sha3");
            assert("sha2"@[3] != "sha3"@[3]);
            assert(spec_func_named("sha3"@) == Some(NativeFunc::sha3));
        },
        NativeFunc::ripemd160 => {
            reveal_strlit("ripemd160");
            assert(spec_func_named("ripemd160"@) == Some(NativeFunc::ripemd160));
        },
        NativeFunc::keccak256 => {
            reveal_strlit("keccak256");
            assert("ripemd160"@[0] != "keccak256"@[0]);
            assert(spec_func_named("keccak256"@) == Some(NativeFunc::keccak256));
        },
        NativeFunc::blake2s256 => {
            reveal_strlit("blake2s256");
            assert(spec_func_named("blake2s256"@) == Some(NativeFunc::blake2s256));
        },
        NativeFunc::blake2b256 => {
            reveal_strlit("blake2b256");
            assert("blake2s256"@[6] != "blake2b256"@[6]);
            assert(spec_func_named("blake2b256"@) == Some(NativeFunc::blake2b256));
        },
        NativeFunc::hac_to_mei => {
            reveal_strlit("hac_to_mei");
            assert("blake2s256"@[0] != "hac_to_mei"@[0]);
            assert("blake2b256"@[0] != "hac_to_mei"@[0]);
            assert(spec_func_named("hac_to_mei"@) == Some(NativeFunc::hac_to_mei));
        },
        NativeFunc::hac_to_mei_checked => {
            reveal_strlit("hac_to_mei_checked");
            assert(spec_func_named("hac_to_mei_checked"@) == Some(NativeFunc::hac_to_mei_checked));
        },
        NativeFunc::hac_to_zhu => {
            reveal_strlit("hac_to_zhu");
            assert("blake2s256"@[0] != "hac_to_zhu"@[0]);
            assert("blake2b256"@[0] != "hac_to_zhu"@[0]);
            assert("hac_to_mei"@[7] != "hac_to_zhu"@[7]);
            assert(spec_func_named("hac_to_zhu"@) == Some(NativeFunc::hac_to_zhu));
        },
        NativeFunc::hac_to_zhu_checked => {
            reveal_strlit("hac_to_zhu_checked");
            assert("hac_to_mei_checked"@[7] != "hac_to_zhu_checked"@[7]);
            assert(spec_func_named("hac_to_zhu_checked"@) == Some(NativeFunc::hac_to_zhu_checked));
        },
        NativeFunc::hac_to_unit => {
            reveal_strlit("hac_to_unit");
            assert(spec_func_named("hac_to_unit"@) == Some(NativeFunc::hac_to_unit));
        },
        NativeFunc::hac_to_unit_checked => {
            reveal_strlit("hac_to_unit_checked");
            assert(spec_func_named("hac_to_unit_checked"@) == Some(NativeFunc::hac_to_unit_checked));
        },
        NativeFunc::hac_is_exact_mei => {
            reveal_strlit("hac_is_exact_mei");
            assert(spec_func_named("hac_is_exact_mei"@) == Some(NativeFunc::hac_is_exact_mei));
        },
        NativeFunc::hac_is_exact_zhu => {
            reveal_strlit("hac_is_exact_zhu");
            assert("hac_is_exact_mei"@[13] != "hac_is_exact_zhu"@[13]);
            assert(spec_func_named("hac_is_exact_zhu"@) == Some(NativeFunc::hac_is_exact_zhu));
        },
        NativeFunc::hac_is_exact_unit => {
            reveal_strlit("hac_is_exact_unit");
            assert(spec_func_named("hac_is_exact_unit"@) == Some(NativeFunc::hac_is_exact_unit));
        },
        NativeFunc::mei_to_hac => {
            reveal_strlit("mei_to_hac");
            assert("blake2s256"@[0] != "mei_to_hac"@[0]);
            assert("blake2b256"@[0] != "mei_to_hac"@[0]);
            assert("hac_to_mei"@[0] != "mei_to_hac"@[0]);
            assert("hac_to_zhu"@[0] != "mei_to_hac"@[0]);
            assert(spec_func_named("mei_to_hac"@) == Some(NativeFunc::mei_to_hac));
        },
        NativeFunc::zhu_to_hac => {
            reveal_strlit("zhu_to_hac");
            assert("blake2s256"@[0] != "zhu_to_hac"@[0]);
            assert("blake2b256"@[0] != "zhu_to_hac"@[0]);
            assert("hac_to_mei"@[0] != "zhu_to_hac"@[0]);
            assert("hac_to_zhu"@[0] != "zhu_to_hac"@[0]);
            assert("mei_to_hac"@[0] != "zhu_to_hac"@[0]);
            assert(spec_func_named("zhu_to_hac"@) == Some(NativeFunc::zhu_to_hac));
        },
        NativeFunc::unit_to_hac => {
            reveal_strlit("unit_to_hac");
            assert("hac_to_unit"@[0] != "unit_to_hac"@[0]);
            assert(spec_func_named("unit_to_hac"@) == Some(NativeFunc::unit_to_hac));
        },
        NativeFunc::u64_to_fold64 => {
            reveal_strlit("u64_to_fold64");
            assert(spec_func_named("u64_to_fold64"@) == Some(NativeFunc::u64_to_fold64));
        },
        NativeFunc::fold64_to_u64 => {
            reveal_strlit("fold64_to_u64");
            assert("u64_to_fold64"@[0] != "fold64_to_u64"@[0]);
            assert(spec_func_named("fold64_to_u64"@) == Some(NativeFunc::fold64_to_u64));
        },
        NativeFunc::address_ptr => {
            reveal_strlit("address_ptr");
            assert("hac_to_unit"@[0] != "address_ptr"@[0]);
            assert("unit_to_hac"@[0] != "address_ptr"@[0]);
            assert(spec_func_named("address_ptr"@) == Some(NativeFunc::address_ptr));
        },
        NativeFunc::pack_asset => {
            reveal_strlit("pack_asset");
            assert("blake2s256"@[0] != "pack_asset"@[0]);
            assert("blake2b256"@[0] != "pack_asset"@[0]);
            assert("hac_to_mei"@[0] != "pack_asset"@[0]);
            assert("hac_to_zhu"@[0] != "pack_asset"@[0]);
            assert("mei_to_hac"@[0] != "pack_asset"@[0]);
            assert("zhu_to_hac"@[0] != "pack_asset"@[0]);
            assert(spec_func_named("pack_asset"@) == Some(NativeFunc::pack_asset));
        },
        NativeFunc::patches => {
            reveal_strlit("patches");
            assert(spec_func_named("patches"@) == Some(NativeFunc::patches));
        },
        NativeFunc::address_version => {
            reveal_strlit("address_version");
            assert(spec_func_named("address_version"@) == Some(NativeFunc::address_version));
        },
        NativeFunc::is_privkey_unknown => {
            reveal_strlit("is_privkey_unknown");
            assert("hac_to_mei_checked"@[0] != "is_privkey_unknown"@[0]);
            assert("hac_to_zhu_checked"@[0] != "is_privkey_unknown"@[0]);
            assert(spec_func_named("is_privkey_unknown"@) == Some(NativeFunc::is_privkey_unknown));
        },
        NativeFunc::is_privkey_not_unknown => {
            reveal_strlit("is_privkey_not_unknown");
            assert(spec_func_named("is_privkey_not_unknown"@) == Some(NativeFunc::is_privkey_not_unknown));
        },
        NativeFunc::is_privkey => {
            reveal_strlit("is_privkey");
            assert("blake2s256"@[0] != "is_privkey"@[0]);
            assert("blake2b256"@[0] != "is_privkey"@[0]);
            assert("hac_to_mei"@[0] != "is_privkey"@[0]);
            assert("hac_to_zhu"@[0] != "is_privkey"@[0]);
            assert("mei_to_hac"@[0] != "is_privkey"@[0]);
            assert("zhu_to_hac"@[0] != "is_privkey"@[0]);
            assert("pack_asset"@[0] != "is_privkey"@[0]);
            assert(spec_func_named("is_privkey"@) == Some(NativeFunc::is_privkey));
        },
        NativeFunc::is_contract => {
            reveal_strlit("is_contract");
            assert("hac_to_unit"@[0] != "is_contract"@[0]);
            assert("unit_to_hac"@[0] != "is_contract"@[0]);
            assert("address_ptr"@[0] != "is_contract"@[0]);
            assert(spec_func_named("is_contract"@) == Some(NativeFunc::is_contract));
        },
        NativeFunc::is_scriptmh => {
            reveal_strlit("is_scriptmh");
            assert("hac_to_unit"@[0] != "is_scriptmh"@[0]);
            assert("unit_to_hac"@[0] != "is_scriptmh"@[0]);
            assert("address_ptr"@[0] != "is_scriptmh"@[0]);
            assert("is_contract"@[3] != "is_scriptmh"@[3]);
            assert(spec_func_named("is_scriptmh"@) == Some(NativeFunc::is_scriptmh));
        },
        NativeFunc::ascii_parse_flat_kv => {
            reveal_strlit("ascii_parse_flat_kv");
            assert("hac_to_unit_checked"@[0] != "ascii_parse_flat_kv"@[0]);
            assert(spec_func_named("ascii_parse_flat_kv"@) == Some(NativeFunc::ascii_parse_flat_kv));
        },
        NativeFunc::ascii_validate_transform => {
            reveal_strlit("ascii_validate_transform");
            assert(spec_func_named("ascii_validate_transform"@) == Some(NativeFunc::ascii_validate_transform));
        },
        NativeFunc::ascii_u128_dec_unit => {
            reveal_strlit("ascii_u128_dec_unit");
            assert("hac_to_unit_checked"@[0] != "ascii_u128_dec_unit"@[0]);
            assert("ascii_parse_flat_kv"@[6] != "ascii_u128_dec_unit"@[6]);
            assert(spec_func_named("ascii_u128_dec_unit"@) == Some(NativeFunc::ascii_u128_dec_unit));
        },
        NativeFunc::ascii_hex_lower => {
            reveal_strlit("ascii_hex_lower");
            assert("address_version"@[1] != "ascii_hex_lower"@[1]);
            assert(spec_func_named("ascii_hex_lower"@) == Some(NativeFunc::ascii_hex_lower));
        },
        NativeFunc::ascii_base58_validate_or_echo => {
            reveal_strlit("ascii_base58_validate_or_echo");
            assert(spec_func_named("ascii_base58_validate_or_echo"@) == Some(NativeFunc::ascii_base58_validate_or_echo));
        },
        _ => {},
    }
}

/// Native controls over deferred calls and intents.
#[allow(non_camel_case_types)]
#[derive(Debug, Clone, Copy, PartialEq, Eq, Structural)]
pub enum NativeCtl {
    Null,
    defer,
    defer_current,
    intent_new,
    intent_use,
    intent_pop,
    intent_is_own_handle,
    intent_kind,
    intent_kind_is,
    intent_destroy,
    intent_destroy_if_empty,
    intent_clear,
    intent_len,
    intent_has,
    intent_keys,
    intent_keys_page,
    intent_keys_after,
    intent_get,
    intent_get_or,
    intent_require,
    intent_require_eq,
    intent_require_absent,
    intent_require_many,
    intent_require_map,
    intent_has_all,
    intent_has_any,
    intent_put,
    intent_put_if_absent,
    intent_put_if_absent_or_match,
    intent_put_flat_kv,
    intent_replace,
    intent_replace_if,
    intent_rename,
    intent_take,
    intent_take_or,
    intent_take_if,
    intent_take_many,
    intent_take_map,
    intent_consume,
    intent_consume_many,
    intent_del,
    intent_del_if,
    intent_del_many,
    intent_append,
    intent_inc,
    intent_add,
    intent_sub,
    intent_use_kind,
    intent_bound,
    intent_open_page,
}

/// The catalog index of a row (`Null` is 0).
pub open spec fn spec_ctl_idx(c: NativeCtl) -> u8 {
    match c {
        NativeCtl::Null => 0,
        NativeCtl::defer => 1,
        NativeCtl::defer_current => 2,
        NativeCtl::intent_new => 21,
        NativeCtl::intent_use => 22,
        NativeCtl::intent_pop => 23,
        NativeCtl::intent_is_own_handle => 24,
        NativeCtl::intent_kind => 25,
        NativeCtl::intent_kind_is => 26,
        NativeCtl::intent_destroy => 27,
        NativeCtl::intent_destroy_if_empty => 28,
        NativeCtl::intent_clear => 29,
        NativeCtl::intent_len => 30,
        NativeCtl::intent_has => 31,
        NativeCtl::intent_keys => 32,
        NativeCtl::intent_keys_page => 33,
        NativeCtl::intent_keys_after => 34,
        NativeCtl::intent_get => 35,
        NativeCtl::intent_get_or => 36,
        NativeCtl::intent_require => 37,
        NativeCtl::intent_require_eq => 38,
        NativeCtl::intent_require_absent => 39,
        NativeCtl::intent_require_many => 40,
        NativeCtl::intent_require_map => 41,
        NativeCtl::intent_has_all => 42,
        NativeCtl::intent_has_any => 43,
        NativeCtl::intent_put => 44,
        NativeCtl::intent_put_if_absent => 45,
        NativeCtl::intent_put_if_absent_or_match => 46,
        NativeCtl::intent_put_flat_kv => 47,
        NativeCtl::intent_replace => 48,
        NativeCtl::intent_replace_if => 49,
        NativeCtl::intent_rename => 50,
        NativeCtl::intent_take => 51,
        NativeCtl::intent_take_or => 52,
        NativeCtl::intent_take_if => 53,
        NativeCtl::intent_take_many => 54,
        NativeCtl::intent_take_map => 55,
        NativeCtl::intent_consume => 56,
        NativeCtl::intent_consume_many => 57,
        NativeCtl::intent_del => 58,
        NativeCtl::intent_del_if => 59,
        NativeCtl::intent_del_many => 60,
        NativeCtl::intent_append => 61,
        NativeCtl::intent_inc => 62,
        NativeCtl::intent_add => 63,
        NativeCtl::intent_sub => 64,
        NativeCtl::intent_use_kind => 65,
        NativeCtl::intent_bound => 66,
        NativeCtl::intent_open_page => 68,
    }
}

/// The row at a catalog index.
pub open spec fn spec_ctl_at(i: u8) -> Option<NativeCtl> {
    match i {
        1 => Some(NativeCtl::defer),
        2 => Some(NativeCtl::defer_current),
        21 => Some(NativeCtl::intent_new),
        22 => Some(NativeCtl::intent_use),
        23 => Some(NativeCtl::intent_pop),
        24 => Some(NativeCtl::intent_is_own_handle),
        25 => Some(NativeCtl::intent_kind),
        26 => Some(NativeCtl::intent_kind_is),
        27 => Some(NativeCtl::intent_destroy),
        28 => Some(NativeCtl::intent_destroy_if_empty),
        29 => Some(NativeCtl::intent_clear),
        30 => Some(NativeCtl::intent_len),
        31 => Some(NativeCtl::intent_has),
        32 => Some(NativeCtl::intent_keys),
        33 => Some(NativeCtl::intent_keys_page),
        34 => Some(NativeCtl::intent_keys_after),
        35 => Some(NativeCtl::intent_get),
        36 => Some(NativeCtl::intent_get_or),
        37 => Some(NativeCtl::intent_require),
        38 => Some(NativeCtl::intent_require_eq),
        39 => Some(NativeCtl::intent_require_absent),
        40 => Some(NativeCtl::intent_require_many),
        41 => Some(NativeCtl::intent_require_map),
        42 => Some(NativeCtl::intent_has_all),
        43 => Some(NativeCtl::intent_has_any),
        44 => Some(NativeCtl::intent_put),
        45 => Some(NativeCtl::intent_put_if_absent),
        46 => Some(NativeCtl::intent_put_if_absent_or_match),
        47 => Some(NativeCtl::intent_put_flat_kv),
        48 => Some(NativeCtl::intent_replace),
        49 => Some(NativeCtl::intent_replace_if),
        50 => Some(NativeCtl::intent_rename),
        51 => Some(NativeCtl::intent_take),
        52 => Some(NativeCtl::intent_take_or),
        53 => Some(NativeCtl::intent_take_if),
        54 => Some(NativeCtl::intent_take_many),
        55 => Some(NativeCtl::intent_take_map),
        56 => Some(NativeCtl::intent_consume),
        57 => Some(NativeCtl::intent_consume_many),
        58 => Some(NativeCtl::intent_del),
        59 => Some(NativeCtl::intent_del_if),
        60 => Some(NativeCtl::intent_del_many),
        61 => Some(NativeCtl::intent_append),
        62 => Some(NativeCtl::intent_inc),
        63 => Some(NativeCtl::intent_add),
        64 => Some(NativeCtl::intent_sub),
        65 => Some(NativeCtl::intent_use_kind),
        66 => Some(NativeCtl::intent_bound),
        68 => Some(NativeCtl::intent_open_page),
        _ => None,
    }
}

/// Argument count of a row.
pub open spec fn spec_ctl_argv_len(c: NativeCtl) -> usize {
    match c {
        NativeCtl::Null => 0,
        NativeCtl::defer => 1,
        NativeCtl::defer_current => 0,
        NativeCtl::intent_new => 1,
        NativeCtl::intent_use => 1,
        NativeCtl::intent_pop => 0,
        NativeCtl::intent_is_own_handle => 1,
        NativeCtl::intent_kind => 0,
        NativeCtl::intent_kind_is => 1,
        NativeCtl::intent_destroy => 0,
        NativeCtl::intent_destroy_if_empty => 0,
        NativeCtl::intent_clear => 0,
        NativeCtl::intent_len => 0,
        NativeCtl::intent_has => 1,
        NativeCtl::intent_keys => 0,
        NativeCtl::intent_keys_page => 2,
        NativeCtl::intent_keys_after => 2,
        NativeCtl::intent_get => 1,
        NativeCtl::intent_get_or => 2,
        NativeCtl::intent_require => 1,
        NativeCtl::intent_require_eq => 2,
        NativeCtl::intent_require_absent => 1,
        NativeCtl::intent_require_many => 1,
        NativeCtl::intent_require_map => 1,
        NativeCtl::intent_has_all => 1,
        NativeCtl::intent_has_any => 1,
        NativeCtl::intent_put => 2,
        NativeCtl::intent_put_if_absent => 2,
        NativeCtl::intent_put_if_absent_or_match => 2,
        NativeCtl::intent_put_flat_kv => 1,
        NativeCtl::intent_replace => 2,
        NativeCtl::intent_replace_if => 3,
        NativeCtl::intent_rename => 2,
        NativeCtl::intent_take => 1,
        NativeCtl::intent_take_or => 2,
        NativeCtl::intent_take_if => 2,
        NativeCtl::intent_take_many => 1,
        NativeCtl::intent_take_map => 1,
        NativeCtl::intent_consume => 1,
        NativeCtl::intent_consume_many => 1,
        NativeCtl::intent_del => 1,
        NativeCtl::intent_del_if => 2,
        NativeCtl::intent_del_many => 1,
        NativeCtl::intent_append => 2,
        NativeCtl::intent_inc => 2,
        NativeCtl::intent_add => 2,
        NativeCtl::intent_sub => 2,
        NativeCtl::intent_use_kind => 1,
        NativeCtl::intent_bound => 0,
        NativeCtl::intent_open_page => 2,
    }
}

/// Gas of a row.
pub open spec fn spec_ctl_gas(c: NativeCtl) -> i64 {
    match c {
        NativeCtl::Null => 0,
        NativeCtl::defer => 8,
        NativeCtl::defer_current => 8,
        NativeCtl::intent_new => 32,
        NativeCtl::intent_use => 8,
        NativeCtl::intent_pop => 8,
        NativeCtl::intent_is_own_handle => 10,
        NativeCtl::intent_kind => 8,
        NativeCtl::intent_kind_is => 8,
        NativeCtl::intent_destroy => 10,
        NativeCtl::intent_destroy_if_empty => 10,
        NativeCtl::intent_clear => 10,
        NativeCtl::intent_len => 10,
        NativeCtl::intent_has => 10,
        NativeCtl::intent_keys => 16,
        NativeCtl::intent_keys_page => 16,
        NativeCtl::intent_keys_after => 16,
        NativeCtl::intent_get => 10,
        NativeCtl::intent_get_or => 12,
        NativeCtl::intent_require => 10,
        NativeCtl::intent_require_eq => 10,
        NativeCtl::intent_require_absent => 10,
        NativeCtl::intent_require_many => 16,
        NativeCtl::intent_require_map => 16,
        NativeCtl::intent_has_all => 12,
        NativeCtl::intent_has_any => 12,
        NativeCtl::intent_put => 20,
        NativeCtl::intent_put_if_absent => 20,
        NativeCtl::intent_put_if_absent_or_match => 20,
        NativeCtl::intent_put_flat_kv => 24,
        NativeCtl::intent_replace => 14,
        NativeCtl::intent_replace_if => 16,
        NativeCtl::intent_rename => 14,
        NativeCtl::intent_take => 12,
        NativeCtl::intent_take_or => 14,
        NativeCtl::intent_take_if => 14,
        NativeCtl::intent_take_many => 16,
        NativeCtl::intent_take_map => 16,
        NativeCtl::intent_consume => 14,
        NativeCtl::intent_consume_many => 16,
        NativeCtl::intent_del => 10,
        NativeCtl::intent_del_if => 14,
        NativeCtl::intent_del_many => 12,
        NativeCtl::intent_append => 14,
        NativeCtl::intent_inc => 14,
        NativeCtl::intent_add => 14,
        NativeCtl::intent_sub => 14,
        NativeCtl::intent_use_kind => 8,
        NativeCtl::intent_bound => 8,
        NativeCtl::intent_open_page => 16,
    }
}

/// Return type of a row.
pub open spec fn spec_ctl_rty(c: NativeCtl) -> ValueTy {
    match c {
        NativeCtl::Null => ValueTy::Nil,
        NativeCtl::defer => ValueTy::Nil,
        NativeCtl::defer_current => ValueTy::Nil,
        NativeCtl::intent_new => ValueTy::Handle,
        NativeCtl::intent_use => ValueTy::Nil,
        NativeCtl::intent_pop => ValueTy::Nil,
        NativeCtl::intent_is_own_handle => ValueTy::Bool,
        NativeCtl::intent_kind => ValueTy::Bytes,
        NativeCtl::intent_kind_is => ValueTy::Bool,
        NativeCtl::intent_destroy => ValueTy::Nil,
        NativeCtl::intent_destroy_if_empty => ValueTy::Bool,
        NativeCtl::intent_clear => ValueTy::Nil,
        NativeCtl::intent_len => ValueTy::U64,
        NativeCtl::intent_has => ValueTy::Bool,
        NativeCtl::intent_keys => ValueTy::Compo,
        NativeCtl::intent_keys_page => ValueTy::Tuple,
        NativeCtl::intent_keys_after => ValueTy::Tuple,
        NativeCtl::intent_get => ValueTy::Nil,
        NativeCtl::intent_get_or => ValueTy::Nil,
        NativeCtl::intent_require => ValueTy::Nil,
        NativeCtl::intent_require_eq => ValueTy::Nil,
        NativeCtl::intent_require_absent => ValueTy::Nil,
        NativeCtl::intent_require_many => ValueTy::Compo,
        NativeCtl::intent_require_map => ValueTy::Compo,
        NativeCtl::intent_has_all => ValueTy::Bool,
        NativeCtl::intent_has_any => ValueTy::Bool,
        NativeCtl::intent_put => ValueTy::Nil,
        NativeCtl::intent_put_if_absent => ValueTy::Bool,
        NativeCtl::intent_put_if_absent_or_match => ValueTy::Bool,
        NativeCtl::intent_put_flat_kv => ValueTy::Nil,
        NativeCtl::intent_replace => ValueTy::Nil,
        NativeCtl::intent_replace_if => ValueTy::Bool,
        NativeCtl::intent_rename => ValueTy::Nil,
        NativeCtl::intent_take => ValueTy::Nil,
        NativeCtl::intent_take_or => ValueTy::Nil,
        NativeCtl::intent_take_if => ValueTy::Tuple,
        NativeCtl::intent_take_many => ValueTy::Compo,
        NativeCtl::intent_take_map => ValueTy::Compo,
        NativeCtl::intent_consume => ValueTy::Nil,
        NativeCtl::intent_consume_many => ValueTy::Compo,
        NativeCtl::intent_del => ValueTy::Nil,
        NativeCtl::intent_del_if => ValueTy::Bool,
        NativeCtl::intent_del_many => ValueTy::U64,
        NativeCtl::intent_append => ValueTy::U64,
        NativeCtl::intent_inc => ValueTy::U64,
        NativeCtl::intent_add => ValueTy::U64,
        NativeCtl::intent_sub => ValueTy::U64,
        NativeCtl::intent_use_kind => ValueTy::Nil,
        NativeCtl::intent_bound => ValueTy::Bool,
        NativeCtl::intent_open_page => ValueTy::Tuple,
    }
}

/// Name of a row.
pub open spec fn spec_ctl_name(c: NativeCtl) -> Seq<char> {
    match c {
        NativeCtl::Null => ""@,
        NativeCtl::defer => "defer"@,
        NativeCtl::defer_current => "defer_current"@,
        NativeCtl::intent_new => "intent_new"@,
        NativeCtl::intent_use => "intent_use"@,
        NativeCtl::intent_pop => "intent_pop"@,
        NativeCtl::intent_is_own_handle => "intent_is_own_handle"@,
        NativeCtl::intent_kind => "intent_kind"@,
        NativeCtl::intent_kind_is => "intent_kind_is"@,
        NativeCtl::intent_destroy => "intent_destroy"@,
        NativeCtl::intent_destroy_if_empty => "intent_destroy_if_empty"@,
        NativeCtl::intent_clear => "intent_clear"@,
        NativeCtl::intent_len => "intent_len"@,
        NativeCtl::intent_has => "intent_has"@,
        NativeCtl::intent_keys => "intent_keys"@,
        NativeCtl::intent_keys_page => "intent_keys_page"@,
        NativeCtl::intent_keys_after => "intent_keys_after"@,
        NativeCtl::intent_get => "intent_get"@,
        NativeCtl::intent_get_or => "intent_get_or"@,
        NativeCtl::intent_require => "intent_require"@,
        NativeCtl::intent_require_eq => "intent_require_eq"@,
        NativeCtl::intent_require_absent => "intent_require_absent"@,
        NativeCtl::intent_require_many => "intent_require_many"@,
        NativeCtl::intent_require_map => "intent_require_map"@,
        NativeCtl::intent_has_all => "intent_has_all"@,
        NativeCtl::intent_has_any => "intent_has_any"@,
        NativeCtl::intent_put => "intent_put"@,
        NativeCtl::intent_put_if_absent => "intent_put_if_absent"@,
        NativeCtl::intent_put_if_absent_or_match => "intent_put_if_absent_or_match"@,
        NativeCtl::intent_put_flat_kv => "intent_put_flat_kv"@,
        NativeCtl::intent_replace => "intent_replace"@,
        NativeCtl::intent_replace_if => "intent_replace_if"@,
        NativeCtl::intent_rename => "intent_rename"@,
        NativeCtl::intent_take => "intent_take"@,
        NativeCtl::intent_take_or => "intent_take_or"@,
        NativeCtl::intent_take_if => "intent_take_if"@,
        NativeCtl::intent_take_many => "intent_take_many"@,
        NativeCtl::intent_take_map => "intent_take_map"@,
        NativeCtl::intent_consume => "intent_consume"@,
        NativeCtl::intent_consume_many => "intent_consume_many"@,
        NativeCtl::intent_del => "intent_del"@,
        NativeCtl::intent_del_if => "intent_del_if"@,
        NativeCtl::intent_del_many => "intent_del_many"@,
        NativeCtl::intent_append => "intent_append"@,
        NativeCtl::intent_inc => "intent_inc"@,
        NativeCtl::intent_add => "intent_add"@,
        NativeCtl::intent_sub => "intent_sub"@,
        NativeCtl::intent_use_kind => "intent_use_kind"@,
        NativeCtl::intent_bound => "intent_bound"@,
        NativeCtl::intent_open_page => "intent_open_page"@,
    }
}

/// The row with a name.
pub open spec fn spec_ctl_named(s: Seq<char>) -> Option<NativeCtl> {
    if s == "defer"@ {
        Some(NativeCtl::defer)
    } else if s == "defer_current"@ {
        Some(NativeCtl::defer_current)
    } else if s == "intent_new"@ {
        Some(NativeCtl::intent_new)
    } else if s == "intent_use"@ {
        Some(NativeCtl::intent_use)
    } else if s == "intent_pop"@ {
        Some(NativeCtl::intent_pop)
    } else if s == "intent_is_own_handle"@ {
        Some(NativeCtl::intent_is_own_handle)
    } else if s == "intent_kind"@ {
        Some(NativeCtl::intent_kind)
    } else if s == "intent_kind_is"@ {
        Some(NativeCtl::intent_kind_is)
    } else if s == "intent_destroy"@ {
        Some(NativeCtl::intent_destroy)
    } else if s == "intent_destroy_if_empty"@ {
        Some(NativeCtl::intent_destroy_if_empty)
    } else if s == "intent_clear"@ {
        Some(NativeCtl::intent_clear)
    } else if s == "intent_len"@ {
        Some(NativeCtl::intent_len)
    } else if s == "intent_has"@ {
        Some(NativeCtl::intent_has)
    } else if s == "intent_keys"@ {
        Some(NativeCtl::intent_keys)
    } else if s == "intent_keys_page"@ {
        Some(NativeCtl::intent_keys_page)
    } else if s == "intent_keys_after"@ {
        Some(NativeCtl::intent_keys_after)
    } else if s == "intent_get"@ {
        Some(NativeCtl::intent_get)
    } else if s == "intent_get_or"@ {
        Some(NativeCtl::intent_get_or)
    } else if s == "intent_require"@ {
        Some(NativeCtl::intent_require)
    } else if s == "intent_require_eq"@ {
        Some(NativeCtl::intent_require_eq)
    } else if s == "intent_require_absent"@ {
        Some(NativeCtl::intent_require_absent)
    } else if s == "intent_require_many"@ {
        Some(NativeCtl::intent_require_many)
    } else if s == "intent_require_map"@ {
        Some(NativeCtl::intent_require_map)
    } else if s == "intent_has_all"@ {
        Some(NativeCtl::intent_has_all)
    } else if s == "intent_has_any"@ {
        Some(NativeCtl::intent_has_any)
    } else if s == "intent_put"@ {
        Some(NativeCtl::intent_put)
    } else if s == "intent_put_if_absent"@ {
        Some(NativeCtl::intent_put_if_absent)
    } else if s == "intent_put_if_absent_or_match"@ {
        Some(NativeCtl::intent_put_if_absent_or_match)
    } else if s == "intent_put_flat_kv"@ {
        Some(NativeCtl::intent_put_flat_kv)
    } else if s == "intent_replace"@ {
        Some(NativeCtl::intent_replace)
    } else if s == "intent_replace_if"@ {
        Some(NativeCtl::intent_replace_if)
    } else if s == "intent_rename"@ {
        Some(NativeCtl::intent_rename)
    } else if s == "intent_take"@ {
        Some(NativeCtl::intent_take)
    } else if s == "intent_take_or"@ {
        Some(NativeCtl::intent_take_or)
    } else if s == "intent_take_if"@ {
        Some(NativeCtl::intent_take_if)
    } else if s == "intent_take_many"@ {
        Some(NativeCtl::intent_take_many)
    } else if s == "intent_take_map"@ {
        Some(NativeCtl::intent_take_map)
    } else if s == "intent_consume"@ {
        Some(NativeCtl::intent_consume)
    } else if s == "intent_consume_many"@ {
        Some(NativeCtl::intent_consume_many)
    } else if s == "intent_del"@ {
        Some(NativeCtl::intent_del)
    } else if s == "intent_del_if"@ {
        Some(NativeCtl::intent_del_if)
    } else if s == "intent_del_many"@ {
        Some(NativeCtl::intent_del_many)
    } else if s == "intent_append"@ {
        Some(NativeCtl::intent_append)
    } else if s == "intent_inc"@ {
        Some(NativeCtl::intent_inc)
    } else if s == "intent_add"@ {
        Some(NativeCtl::intent_add)
    } else if s == "intent_sub"@ {
        Some(NativeCtl::intent_sub)
    } else if s == "intent_use_kind"@ {
        Some(NativeCtl::intent_use_kind)
    } else if s == "intent_bound"@ {
        Some(NativeCtl::intent_bound)
    } else if s == "intent_open_page"@ {
        Some(NativeCtl::intent_open_page)
    } else {
        None
    }
}

impl NativeCtl {
    /// The catalog index of this row.
    pub fn idx(&self) -> (r: u8)
        ensures
            r == spec_ctl_idx(*self),
    {
        match self {
            NativeCtl::Null => 0,
            NativeCtl::defer => 1,
            NativeCtl::defer_current => 2,
            NativeCtl::intent_new => 21,
            NativeCtl::intent_use => 22,
            NativeCtl::intent_pop => 23,
            NativeCtl::intent_is_own_handle => 24,
            NativeCtl::intent_kind => 25,
            NativeCtl::intent_kind_is => 26,
            NativeCtl::intent_destroy => 27,
            NativeCtl::intent_destroy_if_empty => 28,
            NativeCtl::intent_clear => 29,
            NativeCtl::intent_len => 30,
            NativeCtl::intent_has => 31,
            NativeCtl::intent_keys => 32,
            NativeCtl::intent_keys_page => 33,
            NativeCtl::intent_keys_after => 34,
            NativeCtl::intent_get => 35,
            NativeCtl::intent_get_or => 36,
            NativeCtl::intent_require => 37,
            NativeCtl::intent_require_eq => 38,
            NativeCtl::intent_require_absent => 39,
            NativeCtl::intent_require_many => 40,
            NativeCtl::intent_require_map => 41,
            NativeCtl::intent_has_all => 42,
            NativeCtl::intent_has_any => 43,
            NativeCtl::intent_put => 44,
            NativeCtl::intent_put_if_absent => 45,
            NativeCtl::intent_put_if_absent_or_match => 46,
            NativeCtl::intent_put_flat_kv => 47,
            NativeCtl::intent_replace => 48,
            NativeCtl::intent_replace_if => 49,
            NativeCtl::intent_rename => 50,
            NativeCtl::intent_take => 51,
            NativeCtl::intent_take_or => 52,
            NativeCtl::intent_take_if => 53,
            NativeCtl::intent_take_many => 54,
            NativeCtl::intent_take_map => 55,
            NativeCtl::intent_consume => 56,
            NativeCtl::intent_consume_many => 57,
            NativeCtl::intent_del => 58,
            NativeCtl::intent_del_if => 59,
            NativeCtl::intent_del_many => 60,
            NativeCtl::intent_append => 61,
            NativeCtl::intent_inc => 62,
            NativeCtl::intent_add => 63,
            NativeCtl::intent_sub => 64,
            NativeCtl::intent_use_kind => 65,
            NativeCtl::intent_bound => 66,
            NativeCtl::intent_open_page => 68,
        }
    }

    /// The row at an index; an index with no row is an error.
    pub fn try_from_u8(idx: u8) -> (r: VmrtRes<NativeCtl>)
        ensures
            match spec_ctl_at(idx) {
                Some(c) => r matches Ok(x) && x == c,
                None => r matches Err(e) && e.0 == ItrErrCode::NativeCtlError,
            },
    {
        match idx {
            1 => Ok(NativeCtl::defer),
            2 => Ok(NativeCtl::defer_current),
            21 => Ok(NativeCtl::intent_new),
            22 => Ok(NativeCtl::intent_use),
            23 => Ok(NativeCtl::intent_pop),
            24 => Ok(NativeCtl::intent_is_own_handle),
            25 => Ok(NativeCtl::intent_kind),
            26 => Ok(NativeCtl::intent_kind_is),
            27 => Ok(NativeCtl::intent_destroy),
            28 => Ok(NativeCtl::intent_destroy_if_empty),
            29 => Ok(NativeCtl::intent_clear),
            30 => Ok(NativeCtl::intent_len),
            31 => Ok(NativeCtl::intent_has),
            32 => Ok(NativeCtl::intent_keys),
            33 => Ok(NativeCtl::intent_keys_page),
            34 => Ok(NativeCtl::intent_keys_after),
            35 => Ok(NativeCtl::intent_get),
            36 => Ok(NativeCtl::intent_get_or),
            37 => Ok(NativeCtl::intent_require),
            38 => Ok(NativeCtl::intent_require_eq),
            39 => Ok(NativeCtl::intent_require_absent),
            40 => Ok(NativeCtl::intent_require_many),
            41 => Ok(NativeCtl::intent_require_map),
            42 => Ok(NativeCtl::intent_has_all),
            43 => Ok(NativeCtl::intent_has_any),
            44 => Ok(NativeCtl::intent_put),
            45 => Ok(NativeCtl::intent_put_if_absent),
            46 => Ok(NativeCtl::intent_put_if_absent_or_match),
            47 => Ok(NativeCtl::intent_put_flat_kv),
            48 => Ok(NativeCtl::intent_replace),
            49 => Ok(NativeCtl::intent_replace_if),
            50 => Ok(NativeCtl::intent_rename),
            51 => Ok(NativeCtl::intent_take),
            52 => Ok(NativeCtl::intent_take_or),
            53 => Ok(NativeCtl::intent_take_if),
            54 => Ok(NativeCtl::intent_take_many),
            55 => Ok(NativeCtl::intent_take_map),
            56 => Ok(NativeCtl::intent_consume),
            57 => Ok(NativeCtl::intent_consume_many),
            58 => Ok(NativeCtl::intent_del),
            59 => Ok(NativeCtl::intent_del_if),
            60 => Ok(NativeCtl::intent_del_many),
            61 => Ok(NativeCtl::intent_append),
            62 => Ok(NativeCtl::intent_inc),
            63 => Ok(NativeCtl::intent_add),
            64 => Ok(NativeCtl::intent_sub),
            65 => Ok(NativeCtl::intent_use_kind),
            66 => Ok(NativeCtl::intent_bound),
            68 => Ok(NativeCtl::intent_open_page),
            _ => Err(ItrErr::new(ItrErrCode::NativeCtlError, "not find NativeCtl idx")),
        }
    }

    /// Gas of this row.
    pub fn gas_of(&self) -> (r: i64)
        ensures
            r == spec_ctl_gas(*self),
    {
        match self {
            NativeCtl::Null => 0,
            NativeCtl::defer => 8,
            NativeCtl::defer_current => 8,
            NativeCtl::intent_new => 32,
            NativeCtl::intent_use => 8,
            NativeCtl::intent_pop => 8,
            NativeCtl::intent_is_own_handle => 10,
            NativeCtl::intent_kind => 8,
            NativeCtl::intent_kind_is => 8,
            NativeCtl::intent_destroy => 10,
            NativeCtl::intent_destroy_if_empty => 10,
            NativeCtl::intent_clear => 10,
            NativeCtl::intent_len => 10,
            NativeCtl::intent_has => 10,
            NativeCtl::intent_keys => 16,
            NativeCtl::intent_keys_page => 16,
            NativeCtl::intent_keys_after => 16,
            NativeCtl::intent_get => 10,
            NativeCtl::intent_get_or => 12,
            NativeCtl::intent_require => 10,
            NativeCtl::intent_require_eq => 10,
            NativeCtl::intent_require_absent => 10,
            NativeCtl::intent_require_many => 16,
            NativeCtl::intent_require_map => 16,
            NativeCtl::intent_has_all => 12,
            NativeCtl::intent_has_any => 12,
            NativeCtl::intent_put => 20,
            NativeCtl::intent_put_if_absent => 20,
            NativeCtl::intent_put_if_absent_or_match => 20,
            NativeCtl::intent_put_flat_kv => 24,
            NativeCtl::intent_replace => 14,
            NativeCtl::intent_replace_if => 16,
            NativeCtl::intent_rename => 14,
            NativeCtl::intent_take => 12,
            NativeCtl::intent_take_or => 14,
            NativeCtl::intent_take_if => 14,
            NativeCtl::intent_take_many => 16,
            NativeCtl::intent_take_map => 16,
            NativeCtl::intent_consume => 14,
            NativeCtl::intent_consume_many => 16,
            NativeCtl::intent_del => 10,
            NativeCtl::intent_del_if => 14,
            NativeCtl::intent_del_many => 12,
            NativeCtl::intent_append => 14,
            NativeCtl::intent_inc => 14,
            NativeCtl::intent_add => 14,
            NativeCtl::intent_sub => 14,
            NativeCtl::intent_use_kind => 8,
            NativeCtl::intent_bound => 8,
            NativeCtl::intent_open_page => 16,
        }
    }

    /// Gas of the row at an index.
    pub fn gas(idx: u8) -> (r: VmrtRes<i64>)
        ensures
            match spec_ctl_at(idx) {
                Some(c) => r matches Ok(g) && g == spec_ctl_gas(c),
                None => r matches Err(e) && e.0 == ItrErrCode::NativeCtlError,
            },
    {
        let c = NativeCtl::try_from_u8(idx)?;
        Ok(c.gas_of())
    }

    /// Return type of this row.
    pub fn rty_of(&self) -> (r: ValueTy)
        ensures
            r == spec_ctl_rty(*self),
    {
        match self {
            NativeCtl::Null => ValueTy::Nil,
            NativeCtl::defer => ValueTy::Nil,
            NativeCtl::defer_current => ValueTy::Nil,
            NativeCtl::intent_new => ValueTy::Handle,
            NativeCtl::intent_use => ValueTy::Nil,
            NativeCtl::intent_pop => ValueTy::Nil,
            NativeCtl::intent_is_own_handle => ValueTy::Bool,
            NativeCtl::intent_kind => ValueTy::Bytes,
            NativeCtl::intent_kind_is => ValueTy::Bool,
            NativeCtl::intent_destroy => ValueTy::Nil,
            NativeCtl::intent_destroy_if_empty => ValueTy::Bool,
            NativeCtl::intent_clear => ValueTy::Nil,
            NativeCtl::intent_len => ValueTy::U64,
            NativeCtl::intent_has => ValueTy::Bool,
            NativeCtl::intent_keys => ValueTy::Compo,
            NativeCtl::intent_keys_page => ValueTy::Tuple,
            NativeCtl::intent_keys_after => ValueTy::Tuple,
            NativeCtl::intent_get => ValueTy::Nil,
            NativeCtl::intent_get_or => ValueTy::Nil,
            NativeCtl::intent_require => ValueTy::Nil,
            NativeCtl::intent_require_eq => ValueTy::Nil,
            NativeCtl::intent_require_absent => ValueTy::Nil,
            NativeCtl::intent_require_many => ValueTy::Compo,
            NativeCtl::intent_require_map => ValueTy::Compo,
            NativeCtl::intent_has_all => ValueTy::Bool,
            NativeCtl::intent_has_any => ValueTy::Bool,
            NativeCtl::intent_put => ValueTy::Nil,
            NativeCtl::intent_put_if_absent => ValueTy::Bool,
            NativeCtl::intent_put_if_absent_or_match => ValueTy::Bool,
            NativeCtl::intent_put_flat_kv => ValueTy::Nil,
            NativeCtl::intent_replace => ValueTy::Nil,
            NativeCtl::intent_replace_if => ValueTy::Bool,
            NativeCtl::intent_rename => ValueTy::Nil,
            NativeCtl::intent_take => ValueTy::Nil,
            NativeCtl::intent_take_or => ValueTy::Nil,
            NativeCtl::intent_take_if => ValueTy::Tuple,
            NativeCtl::intent_take_many => ValueTy::Compo,
            NativeCtl::intent_take_map => ValueTy::Compo,
            NativeCtl::intent_consume => ValueTy::Nil,
            NativeCtl::intent_consume_many => ValueTy::Compo,
            NativeCtl::intent_del => ValueTy::Nil,
            NativeCtl::intent_del_if => ValueTy::Bool,
            NativeCtl::intent_del_many => ValueTy::U64,
            NativeCtl::intent_append => ValueTy::U64,
            NativeCtl::intent_inc => ValueTy::U64,
            NativeCtl::intent_add => ValueTy::U64,
            NativeCtl::intent_sub => ValueTy::U64,
            NativeCtl::intent_use_kind => ValueTy::Nil,
            NativeCtl::intent_bound => ValueTy::Bool,
            NativeCtl::intent_open_page => ValueTy::Tuple,
        }
    }

    /// Name of this row.
    pub fn name(&self) -> (r: &'static str)
        requires
            *self != NativeCtl::Null,
        ensures
            r@ == spec_ctl_name(*self),
    {
        match self {
            NativeCtl::Null => "",
            NativeCtl::defer => "defer",
            NativeCtl::defer_current => "defer_current",
            NativeCtl::intent_new => "intent_new",
            NativeCtl::intent_use => "intent_use",
            NativeCtl::intent_pop => "intent_pop",
            NativeCtl::intent_is_own_handle => "intent_is_own_handle",
            NativeCtl::intent_kind => "intent_kind",
            NativeCtl::intent_kind_is => "intent_kind_is",
            NativeCtl::intent_destroy => "intent_destroy",
            NativeCtl::intent_destroy_if_empty => "intent_destroy_if_empty",
            NativeCtl::intent_clear => "intent_clear",
            NativeCtl::intent_len => "intent_len",
            NativeCtl::intent_has => "intent_has",
            NativeCtl::intent_keys => "intent_keys",
            NativeCtl::intent_keys_page => "intent_keys_page",
            NativeCtl::intent_keys_after => "intent_keys_after",
            NativeCtl::intent_get => "intent_get",
            NativeCtl::intent_get_or => "intent_get_or",
            NativeCtl::intent_require => "intent_require",
            NativeCtl::intent_require_eq => "intent_require_eq",
            NativeCtl::intent_require_absent => "intent_require_absent",
            NativeCtl::intent_require_many => "intent_require_many",
            NativeCtl::intent_require_map => "intent_require_map",
            NativeCtl::intent_has_all => "intent_has_all",
            NativeCtl::intent_has_any => "intent_has_any",
            NativeCtl::intent_put => "intent_put",
            NativeCtl::intent_put_if_absent => "intent_put_if_absent",
            NativeCtl::intent_put_if_absent_or_match => "intent_put_if_absent_or_match",
            NativeCtl::intent_put_flat_kv => "intent_put_flat_kv",
            NativeCtl::intent_replace => "intent_replace",
            NativeCtl::intent_replace_if => "intent_replace_if",
            NativeCtl::intent_rename => "intent_rename",
            NativeCtl::intent_take => "intent_take",
            NativeCtl::intent_take_or => "intent_take_or",
            NativeCtl::intent_take_if => "intent_take_if",
            NativeCtl::intent_take_many => "intent_take_many",
            NativeCtl::intent_take_map => "intent_take_map",
            NativeCtl::intent_consume => "intent_consume",
            NativeCtl::intent_consume_many => "intent_consume_many",
            NativeCtl::intent_del => "intent_del",
            NativeCtl::intent_del_if => "intent_del_if",
            NativeCtl::intent_del_many => "intent_del_many",
            NativeCtl::intent_append => "intent_append",
            NativeCtl::intent_inc => "intent_inc",
            NativeCtl::intent_add => "intent_add",
            NativeCtl::intent_sub => "intent_sub",
            NativeCtl::intent_use_kind => "intent_use_kind",
            NativeCtl::intent_bound => "intent_bound",
            NativeCtl::intent_open_page => "intent_open_page",
        }
    }

    /// The index and row with a name.
    pub fn from_name(name: &str) -> (r: Option<(u8, NativeCtl)>)
        ensures
            match spec_ctl_named(name@) {
                Some(c) => r == Some((spec_ctl_idx(c), c)),
                None => r is None,
            },
    {
        if str_eq(name, "defer") {
            Some((1, NativeCtl::defer))
        } else if str_eq(name, "defer_current") {
            Some((2, NativeCtl::defer_current))
        } else if str_eq(name, "intent_new") {
            Some((21, NativeCtl::intent_new))
        } else if str_eq(name, "intent_use") {
            Some((22, NativeCtl::intent_use))
        } else if str_eq(name, "intent_pop") {
            Some((23, NativeCtl::intent_pop))
        } else if str_eq(name, "intent_is_own_handle") {
            Some((24, NativeCtl::intent_is_own_handle))
        } else if str_eq(name, "intent_kind") {
            Some((25, NativeCtl::intent_kind))
        } else if str_eq(name, "intent_kind_is") {
            Some((26, NativeCtl::intent_kind_is))
        } else if str_eq(name, "intent_destroy") {
            Some((27, NativeCtl::intent_destroy))
        } else if str_eq(name, "intent_destroy_if_empty") {
            Some((28, NativeCtl::intent_destroy_if_empty))
        } else if str_eq(name, "intent_clear") {
            Some((29, NativeCtl::intent_clear))
        } else if str_eq(name, "intent_len") {
            Some((30, NativeCtl::intent_len))
        } else if str_eq(name, "intent_has") {
            Some((31, NativeCtl::intent_has))
        } else if str_eq(name, "intent_keys") {
            Some((32, NativeCtl::intent_keys))
        } else if str_eq(name, "intent_keys_page") {
            Some((33, NativeCtl::intent_keys_page))
        } else if str_eq(name, "intent_keys_after") {
            Some((34, NativeCtl::intent_keys_after))
        } else if str_eq(name, "intent_get") {
            Some((35, NativeCtl::intent_get))
        } else if str_eq(name, "intent_get_or") {
            Some((36, NativeCtl::intent_get_or))
        } else if str_eq(name, "intent_require") {
            Some((37, NativeCtl::intent_require))
        } else if str_eq(name, "intent_require_eq") {
            Some((38, NativeCtl::intent_require_eq))
        } else if str_eq(name, "intent_require_absent") {
            Some((39, NativeCtl::intent_require_absent))
        } else if str_eq(name, "intent_require_many") {
            Some((40, NativeCtl::intent_require_many))
        } else if str_eq(name, "intent_require_map") {
            Some((41, NativeCtl::intent_require_map))
        } else if str_eq(name, "intent_has_all") {
            Some((42, NativeCtl::intent_has_all))
        } else if str_eq(name, "intent_has_any") {
            Some((43, NativeCtl::intent_has_any))
        } else if str_eq(name, "intent_put") {
            Some((44, NativeCtl::intent_put))
        } else if str_eq(name, "intent_put_if_absent") {
            Some((45, NativeCtl::intent_put_if_absent))
        } else if str_eq(name, "intent_put_if_absent_or_match") {
            Some((46, NativeCtl::intent_put_if_absent_or_match))
        } else if str_eq(name, "intent_put_flat_kv") {
            Some((47, NativeCtl::intent_put_flat_kv))
        } else if str_eq(name, "intent_replace") {
            Some((48, NativeCtl::intent_replace))
        } else if str_eq(name, "intent_replace_if") {
            Some((49, NativeCtl::intent_replace_if))
        } else if str_eq(name, "intent_rename") {
            Some((50, NativeCtl::intent_rename))
        } else if str_eq(name, "intent_take") {
            Some((51, NativeCtl::intent_take))
        } else if str_eq(name, "intent_take_or") {
            Some((52, NativeCtl::intent_take_or))
        } else if str_eq(name, "intent_take_if") {
            Some((53, NativeCtl::intent_take_if))
        } else if str_eq(name, "intent_take_many") {
            Some((54, NativeCtl::intent_take_many))
        } else if str_eq(name, "intent_take_map") {
            Some((55, NativeCtl::intent_take_map))
        } else if str_eq(name, "intent_consume") {
            Some((56, NativeCtl::intent_consume))
        } else if str_eq(name, "intent_consume_many") {
            Some((57, NativeCtl::intent_consume_many))
        } else if str_eq(name, "intent_del") {
            Some((58, NativeCtl::intent_del))
        } else if str_eq(name, "intent_del_if") {
            Some((59, NativeCtl::intent_del_if))
        } else if str_eq(name, "intent_del_many") {
            Some((60, NativeCtl::intent_del_many))
        } else if str_eq(name, "intent_append") {
            Some((61, NativeCtl::intent_append))
        } else if str_eq(name, "intent_inc") {
            Some((62, NativeCtl::intent_inc))
        } else if str_eq(name, "intent_add") {
            Some((63, NativeCtl::intent_add))
        } else if str_eq(name, "intent_sub") {
            Some((64, NativeCtl::intent_sub))
        } else if str_eq(name, "intent_use_kind") {
            Some((65, NativeCtl::intent_use_kind))
        } else if str_eq(name, "intent_bound") {
            Some((66, NativeCtl::intent_bound))
        } else if str_eq(name, "intent_open_page") {
            Some((68, NativeCtl::intent_open_page))
        } else {
            None
        }
    }

    /// Whether an index has a row.
    pub fn has_idx(idx: u8) -> (r: bool)
        ensures
            r == (spec_ctl_at(idx) is Some),
    {
        match idx {
            1 => true,
            2 => true,
            21 => true,
            22 => true,
            23 => true,
            24 => true,
            25 => true,
            26 => true,
            27 => true,
            28 => true,
            29 => true,
            30 => true,
            31 => true,
            32 => true,
            33 => true,
            34 => true,
            35 => true,
            36 => true,
            37 => true,
            38 => true,
            39 => true,
            40 => true,
            41 => true,
            42 => true,
            43 => true,
            44 => true,
            45 => true,
            46 => true,
            47 => true,
            48 => true,
            49 => true,
            50 => true,
            51 => true,
            52 => true,
            53 => true,
            54 => true,
            55 => true,
            56 => true,
            57 => true,
            58 => true,
            59 => true,
            60 => true,
            61 => true,
            62 => true,
            63 => true,
            64 => true,
            65 => true,
            66 => true,
            68 => true,
            _ => false,
        }
    }

    /// Argument count of the row at an index.
    pub fn argv_len(idx: u8) -> (r: Option<usize>)
        ensures
            match spec_ctl_at(idx) {
                Some(c) => r == Some(spec_ctl_argv_len(c)),
                None => r is None,
            },
    {
        match idx {
            1 => Some(1),
            2 => Some(0),
            21 => Some(1),
            22 => Some(1),
            23 => Some(0),
            24 => Some(1),
            25 => Some(0),
            26 => Some(1),
            27 => Some(0),
            28 => Some(0),
            29 => Some(0),
            30 => Some(0),
            31 => Some(1),
            32 => Some(0),
            33 => Some(2),
            34 => Some(2),
            35 => Some(1),
            36 => Some(2),
            37 => Some(1),
            38 => Some(2),
            39 => Some(1),
            40 => Some(1),
            41 => Some(1),
            42 => Some(1),
            43 => Some(1),
            44 => Some(2),
            45 => Some(2),
            46 => Some(2),
            47 => Some(1),
            48 => Some(2),
            49 => Some(3),
            50 => Some(2),
            51 => Some(1),
            52 => Some(2),
            53 => Some(2),
            54 => Some(1),
            55 => Some(1),
            56 => Some(1),
            57 => Some(1),
            58 => Some(1),
            59 => Some(2),
            60 => Some(1),
            61 => Some(2),
            62 => Some(2),
            63 => Some(2),
            64 => Some(2),
            65 => Some(1),
            66 => Some(0),
            68 => Some(2),
            _ => None,
        }
    }

    /// Argument count of this row.
    pub fn argv_len_of(&self) -> (r: usize)
        ensures
            r == spec_ctl_argv_len(*self),
    {
        match self {
            NativeCtl::Null => 0,
            NativeCtl::defer => 1,
            NativeCtl::defer_current => 0,
            NativeCtl::intent_new => 1,
            NativeCtl::intent_use => 1,
            NativeCtl::intent_pop => 0,
            NativeCtl::intent_is_own_handle => 1,
            NativeCtl::intent_kind => 0,
            NativeCtl::intent_kind_is => 1,
            NativeCtl::intent_destroy => 0,
            NativeCtl::intent_destroy_if_empty => 0,
            NativeCtl::intent_clear => 0,
            NativeCtl::intent_len => 0,
            NativeCtl::intent_has => 1,
            NativeCtl::intent_keys => 0,
            NativeCtl::intent_keys_page => 2,
            NativeCtl::intent_keys_after => 2,
            NativeCtl::intent_get => 1,
            NativeCtl::intent_get_or => 2,
            NativeCtl::intent_require => 1,
            NativeCtl::intent_require_eq => 2,
            NativeCtl::intent_require_absent => 1,
            NativeCtl::intent_require_many => 1,
            NativeCtl::intent_require_map => 1,
            NativeCtl::intent_has_all => 1,
            NativeCtl::intent_has_any => 1,
            NativeCtl::intent_put => 2,
            NativeCtl::intent_put_if_absent => 2,
            NativeCtl::intent_put_if_absent_or_match => 2,
            NativeCtl::intent_put_flat_kv => 1,
            NativeCtl::intent_replace => 2,
            NativeCtl::intent_replace_if => 3,
            NativeCtl::intent_rename => 2,
            NativeCtl::intent_take => 1,
            NativeCtl::intent_take_or => 2,
            NativeCtl::intent_take_if => 2,
            NativeCtl::intent_take_many => 1,
            NativeCtl::intent_take_map => 1,
            NativeCtl::intent_consume => 1,
            NativeCtl::intent_consume_many => 1,
            NativeCtl::intent_del => 1,
            NativeCtl::intent_del_if => 2,
            NativeCtl::intent_del_many => 1,
            NativeCtl::intent_append => 2,
            NativeCtl::intent_inc => 2,
            NativeCtl::intent_add => 2,
            NativeCtl::intent_sub => 2,
            NativeCtl::intent_use_kind => 1,
            NativeCtl::intent_bound => 0,
            NativeCtl::intent_open_page => 2,
        }
    }
}

/// Index and row determine each other: the row at a row's index is that
/// row, and a row found at an index has that index.
pub proof fn lemma_ctl_idx_roundtrip(c: NativeCtl, i: u8)
    ensures
        c != NativeCtl::Null ==> spec_ctl_at(spec_ctl_idx(c)) == Some(c),
        spec_ctl_at(i) matches Some(d) ==> d != NativeCtl::Null && spec_ctl_idx(d) == i,
{
}

/// Every row is found again by its name: the name lookup inverts `name`, and
/// it gives the row's own index.
pub proof fn lemma_ctl_name_roundtrip(c: NativeCtl)
    requires
        c != NativeCtl::Null,
    ensures
        spec_ctl_named(spec_ctl_name(c)) == Some(c),
{
    reveal_strlit("defer");
    reveal_strlit("defer_current");
    reveal_strlit("intent_new");
    reveal_strlit("intent_use");
    reveal_strlit("intent_pop");
    reveal_strlit("intent_is_own_handle");
    reveal_strlit("intent_kind");
    reveal_strlit("intent_kind_is");
    reveal_strlit("intent_destroy");
    reveal_strlit("intent_destroy_if_empty");
    reveal_strlit("intent_clear");
    reveal_strlit("intent_len");
    reveal_strlit("intent_has");
    reveal_strlit("intent_keys");
    reveal_strlit("intent_keys_page");
    reveal_strlit("intent_keys_after");
    reveal_strlit("intent_get");
    reveal_strlit("intent_get_or");
    reveal_strlit("intent_require");
    reveal_strlit("intent_require_eq");
    reveal_strlit("intent_require_absent");
    reveal_strlit("intent_require_many");
    reveal_strlit("intent_require_map");
    reveal_strlit("intent_has_all");
    reveal_strlit("intent_has_any");
    reveal_strlit("intent_put");
    reveal_strlit("intent_put_if_absent");
    reveal_strlit("intent_put_if_absent_or_match");
    reveal_strlit("intent_put_flat_kv");
    reveal_strlit("intent_replace");
    reveal_strlit("intent_replace_if");
    reveal_strlit("intent_rename");
    reveal_strlit("intent_take");
    reveal_strlit("intent_take_or");
    reveal_strlit("intent_take_if");
    reveal_strlit("intent_take_many");
    reveal_strlit("intent_take_map");
    reveal_strlit("intent_consume");
    reveal_strlit("intent_consume_many");
    reveal_strlit("intent_del");
    reveal_strlit("intent_del_if");
    reveal_strlit("intent_del_many");
    reveal_strlit("intent_append");
    reveal_strlit("intent_inc");
    reveal_strlit("intent_add");
    reveal_strlit("intent_sub");
    reveal_strlit("intent_use_kind");
    reveal_strlit("intent_bound");
    reveal_strlit("intent_open_page");
    assert("defer"@.len() == 5);
    assert("defer_current"@.len() == 13);
    assert("intent_new"@.len() == 10);
    assert("intent_use"@.len() == 10);
    assert("intent_pop"@.len() == 10);
    assert("intent_is_own_handle"@.len() == 20);
    assert("intent_kind"@.len() == 11);
    assert("intent_kind_is"@.len() == 14);
    assert("intent_destroy"@.len() == 14);
    assert("intent_destroy_if_empty"@.len() == 23);
    assert("intent_clear"@.len() == 12);
    assert("intent_len"@.len() == 10);
    assert("intent_has"@.len() == 10);
    assert("intent_keys"@.len() == 11);
    assert("intent_keys_page"@.len() == 16);
    assert("intent_keys_after"@.len() == 17);
    assert("intent_get"@.len() == 10);
    assert("intent_get_or"@.len() == 13);
    assert("intent_require"@.len() == 14);
    assert("intent_require_eq"@.len() == 17);
    assert("intent_require_absent"@.len() == 21);
    assert("intent_require_many"@.len() == 19);
    assert("intent_require_map"@.len() == 18);
    assert("intent_has_all"@.len() == 14);
    assert("intent_has_any"@.len() == 14);
    assert("intent_put"@.len() == 10);
    assert("intent_put_if_absent"@.len() == 20);
    assert("intent_put_if_absent_or_match"@.len() == 29);
    assert("intent_put_flat_kv"@.len() == 18);
    assert("intent_replace"@.len() == 14);
    assert("intent_replace_if"@.len() == 17);
    assert("intent_rename"@.len() == 13);
    assert("intent_take"@.len() == 11);
    assert("intent_take_or"@.len() == 14);
    assert("intent_take_if"@.len() == 14);
    assert("intent_take_many"@.len() == 16);
    assert("intent_take_map"@.len() == 15);
    assert("intent_consume"@.len() == 14);
    assert("intent_consume_many"@.len() == 19);
    assert("intent_del"@.len() == 10);
    assert("intent_del_if"@.len() == 13);
    assert("intent_del_many"@.len() == 15);
    assert("intent_append"@.len() == 13);
    assert("intent_inc"@.len() == 10);
    assert("intent_add"@.len() == 10);
    assert("intent_sub"@.len() == 10);
    assert("intent_use_kind"@.len() == 15);
    assert("intent_bound"@.len() == 12);
    assert("intent_open_page"@.len() == 16);
    match c {
        NativeCtl::defer => {
            reveal_strlit("defer");
            assert(spec_ctl_named("defer"@) == Some(NativeCtl::defer));
        },
        NativeCtl::defer_current => {
            reveal_strlit("defer_current");
            assert(spec_ctl_named("defer_current"@) == Some(NativeCtl::defer_current));
        },
        NativeCtl::intent_new => {
            reveal_strlit("intent_new");
            assert(spec_ctl_named("intent_new"@) == Some(NativeCtl::intent_new));
        },
        NativeCtl::intent_use => {
            reveal_strlit("intent_use");
            assert("intent_new"@[7] != "intent_use"@[7]);
            assert(spec_ctl_named("intent_use"@) == Some(NativeCtl::intent_use));
        },
        NativeCtl::intent_pop => {
            reveal_strlit("intent_pop");
            assert("intent_new"@[7] != "intent_pop"@[7]);
            assert("intent_use"@[7] != "intent_pop"@[7]);
            assert(spec_ctl_named("intent_pop"@) == Some(NativeCtl::intent_pop));
        },
        NativeCtl::intent_is_own_handle => {
            reveal_strlit("intent_is_own_handle");
            assert(spec_ctl_named("intent_is_own_handle"@) == Some(NativeCtl::intent_is_own_handle));
        },
        NativeCtl::intent_kind => {
            reveal_strlit("intent_kind");
            assert(spec_ctl_named("intent_kind"@) == Some(NativeCtl::intent_kind));
        },
        NativeCtl::intent_kind_is => {
            reveal_strlit("intent_kind_is");
            assert(spec_ctl_named("intent_kind_is"@) == Some(NativeCtl::intent_kind_is));
        },
        NativeCtl::intent_destroy => {
            reveal_strlit("intent_destroy");
            assert("intent_kind_is"@[7] != "intent_destroy"@[7]);
            assert(spec_ctl_named("intent_destroy"@) == Some(NativeCtl::intent_destroy));
        },
        NativeCtl::intent_destroy_if_empty => {
            reveal_strlit("intent_destroy_if_empty");
            assert(spec_ctl_named("intent_destroy_if_empty"@) == Some(NativeCtl::intent_destroy_if_empty));
        },
        NativeCtl::intent_clear => {
            reveal_strlit("intent_clear");
            assert(spec_ctl_named("intent_clear"@) == Some(NativeCtl::intent_clear));
        },
        NativeCtl::intent_len => {
            reveal_strlit("intent_len");
            assert("intent_new"@[7] != "intent_len"@[7]);
            assert("intent_use"@[7] != "intent_len"@[7]);
            assert("intent_pop"@[7] != "intent_len"@[7]);
            assert(spec_ctl_named("intent_len"@) == Some(NativeCtl::intent_len));
        },
        NativeCtl::intent_has => {
            reveal_strlit("intent_has");
            assert("intent_new"@[7] != "intent_has"@[7]);
            assert("intent_use"@[7] != "intent_has"@[7]);
            assert("intent_pop"@[7] != "intent_has"@[7]);
            assert("intent_len"@[7] != "intent_has"@[7]);
            assert(spec_ctl_named("intent_has"@) == Some(NativeCtl::intent_has));
        },
        NativeCtl::intent_keys => {
            reveal_strlit("intent_keys");
            assert("intent_kind"@[8] != "intent_keys"@[8]);
            assert(spec_ctl_named("intent_keys"@) == Some(NativeCtl::intent_keys));
        },
        NativeCtl::intent_keys_page => {
            reveal_strlit("intent_keys_page");
            assert(spec_ctl_named("intent_keys_page"@) == Some(NativeCtl::intent_keys_page));
        },
        NativeCtl::intent_keys_after => {
            reveal_strlit("intent_keys_after");
            assert(spec_ctl_named("intent_keys_after"@) == Some(NativeCtl::intent_keys_after));
        },
        NativeCtl::intent_get => {
            reveal_strlit("intent_get");
            assert("intent_new"@[7] != "intent_get"@[7]);
            assert("intent_use"@[7] != "intent_get"@[7]);
            assert("intent_pop"@[7] != "intent_get"@[7]);
            assert("intent_len"@[7] != "intent_get"@[7]);
            assert("intent_has"@[7] != "intent_get"@[7]);
            assert(spec_ctl_named("intent_get"@) == Some(NativeCtl::intent_get));
        },
        NativeCtl::intent_get_or => {
            reveal_strlit("intent_get_or");
            assert("defer_current"@[0] != "intent_get_or"@[0]);
            assert(spec_ctl_named("intent_get_or"@) == Some(NativeCtl::intent_get_or));
        },
        NativeCtl::intent_require => {
            reveal_strlit("intent_require");
            assert("intent_kind_is"@[7] != "intent_require"@[7]);
            assert("intent_destroy"@[7] != "intent_require"@[7]);
            assert(spec_ctl_named("intent_require"@) == Some(NativeCtl::intent_require));
        },
        NativeCtl::intent_require_eq => {
            reveal_strlit("intent_require_eq");
            assert("intent_keys_after"@[7] != "intent_require_eq"@[7]);
            assert(spec_ctl_named("intent_require_eq"@) == Some(NativeCtl::intent_require_eq));
        },
        NativeCtl::intent_require_absent => {
            reveal_strlit("intent_require_absent");
            assert(spec_ctl_named("intent_require_absent"@) == Some(NativeCtl::intent_require_absent));
        },
        NativeCtl::intent_require_many => {
            reveal_strlit("intent_require_many");
            assert(spec_ctl_named("intent_require_many"@) == Some(NativeCtl::intent_require_many));
        },
        NativeCtl::intent_require_map => {
            reveal_strlit("intent_require_map");
            assert(spec_ctl_named("intent_require_map"@) == Some(NativeCtl::intent_require_map));
        },
        NativeCtl::intent_has_all => {
            reveal_strlit("intent_has_all");
            assert("intent_kind_is"@[7] != "intent_has_all"@[7]);
            assert("intent_destroy"@[7] != "intent_has_all"@[7]);
            assert("intent_require"@[7] != "intent_has_all"@[7]);
            assert(spec_ctl_named("intent_has_all"@) == Some(NativeCtl::intent_has_all));
        },
        NativeCtl::intent_has_any => {
            reveal_strlit("intent_has_any");
            assert("intent_kind_is"@[7] != "intent_has_any"@[7]);
            assert("intent_destroy"@[7] != "intent_has_any"@[7]);
            assert("intent_require"@[7] != "intent_has_any"@[7]);
            assert("intent_has_all"@[12] != "intent_has_any"@[12]);
            assert(spec_ctl_named("intent_has_any"@) == Some(NativeCtl::intent_has_any));
        },
        NativeCtl::intent_put => {
            reveal_strlit("intent_put");
            assert("intent_new"@[7] != "intent_put"@[7]);
            assert("intent_use"@[7] != "intent_put"@[7]);
            assert("intent_pop"@[8] != "intent_put"@[8]);
            assert("intent_len"@[7] != "intent_put"@[7]);
            assert("intent_has"@[7] != "intent_put"@[7]);
            assert("intent_get"@[7] != "intent_put"@[7]);
            assert(spec_ctl_named("intent_put"@) == Some(NativeCtl::intent_put));
        },
        NativeCtl::intent_put_if_absent => {
            reveal_strlit("intent_put_if_absent");
            assert("intent_is_own_handle"@[7] != "intent_put_if_absent"@[7]);
            assert(spec_ctl_named("intent_put_if_absent"@) == Some(NativeCtl::intent_put_if_absent));
        },
        NativeCtl::intent_put_if_absent_or_match => {
            reveal_strlit("intent_put_if_absent_or_match");
            assert(spec_ctl_named("intent_put_if_absent_or_match"@) == Some(NativeCtl::intent_put_if_absent_or_match));
        },
        NativeCtl::intent_put_flat_kv => {
            reveal_strlit("intent_put_flat_kv");
            assert("intent_require_map"@[7] != "intent_put_flat_kv"@[7]);
            assert(spec_ctl_named("intent_put_flat_kv"@) == Some(NativeCtl::intent_put_flat_kv));
        },
        NativeCtl::intent_replace => {
            reveal_strlit("intent_replace");
            assert("intent_kind_is"@[7] != "intent_replace"@[7]);
            assert("intent_destroy"@[7] != "intent_replace"@[7]);
            assert("intent_require"@[9] != "intent_replace"@[9]);
            assert("intent_has_all"@[7] != "intent_replace"@[7]);
            assert("intent_has_any"@[7] != "intent_replace"@[7]);
            assert(spec_ctl_named("intent_replace"@) == Some(NativeCtl::intent_replace));
        },
        NativeCtl::intent_replace_if => {
            reveal_strlit("intent_replace_if");
            assert("intent_keys_after"@[7] != "intent_replace_if"@[7]);
            assert("intent_require_eq"@[9] != "intent_replace_if"@[9]);
            assert(spec_ctl_named("intent_replace_if"@) == Some(NativeCtl::intent_replace_if));
        },
        NativeCtl::intent_rename => {
            reveal_strlit("intent_rename");
            assert("defer_current"@[0] != "intent_rename"@[0]);
            assert("intent_get_or"@[7] != "intent_rename"@[7]);
            assert(spec_ctl_named("intent_rename"@) == Some(NativeCtl::intent_rename));
        },
        NativeCtl::intent_take => {
            reveal_strlit("intent_take");
            assert("intent_kind"@[7] != "intent_take"@[7]);
            assert("intent_keys"@[7] != "intent_take"@[7]);
            assert(spec_ctl_named("intent_take"@) == Some(NativeCtl::intent_take));
        },
        NativeCtl::intent_take_or => {
            reveal_strlit("intent_take_or");
            assert("intent_kind_is"@[7] != "intent_take_or"@[7]);
            assert("intent_destroy"@[7] != "intent_take_or"@[7]);
            assert("intent_require"@[7] != "intent_take_or"@[7]);
            assert("intent_has_all"@[7] != "intent_take_or"@[7]);
            assert("intent_has_any"@[7] != "intent_take_or"@[7]);
            assert("intent_replace"@[7] != "intent_take_or"@[7]);
            assert(spec_ctl_named("intent_take_or"@) == Some(NativeCtl::intent_take_or));
        },
        NativeCtl::intent_take_if => {
            reveal_strlit("intent_take_if");
            assert("intent_kind_is"@[7] != "intent_take_if"@[7]);
            assert("intent_destroy"@[7] != "intent_take_if"@[7]);
            assert("intent_require"@[7] != "intent_take_if"@[7]);
            assert("intent_has_all"@[7] != "intent_take_if"@[7]);
            assert("intent_has_any"@[7] != "intent_take_if"@[7]);
            assert("intent_replace"@[7] != "intent_take_if"@[7]);
            assert("intent_take_or"@[12] != "intent_take_if"@[12]);
            assert(spec_ctl_named("intent_take_if"@) == Some(NativeCtl::intent_take_if));
        },
        NativeCtl::intent_take_many => {
            reveal_strlit("intent_take_many");
            assert("intent_keys_page"@[7] != "intent_take_many"@[7]);
            assert(spec_ctl_named("intent_take_many"@) == Some(NativeCtl::intent_take_many));
        },
        NativeCtl::intent_take_map => {
            reveal_strlit("intent_take_map");
            assert(spec_ctl_named("intent_take_map"@) == Some(NativeCtl::intent_take_map));
        },
        NativeCtl::intent_consume => {
            reveal_strlit("intent_consume");
            assert("intent_kind_is"@[7] != "intent_consume"@[7]);
            assert("intent_destroy"@[7] != "intent_consume"@[7]);
            assert("intent_require"@[7] != "intent_consume"@[7]);
            assert("intent_has_all"@[7] != "intent_consume"@[7]);
            assert("intent_has_any"@[7] != "intent_consume"@[7]);
            assert("intent_replace"@[7] != "intent_consume"@[7]);
            assert("intent_take_or"@[7] != "intent_consume"@[7]);
            assert("intent_take_if"@[7] != "intent_consume"@[7]);
            assert(spec_ctl_named("intent_consume"@) == Some(NativeCtl::intent_consume));
        },
        NativeCtl::intent_consume_many => {
            reveal_strlit("intent_consume_many");
            assert("intent_require_many"@[7] != "intent_consume_many"@[7]);
            assert(spec_ctl_named("intent_consume_many"@) == Some(NativeCtl::intent_consume_many));
        },
        NativeCtl::intent_del => {
            reveal_strlit("intent_del");
            assert("intent_new"@[7] != "intent_del"@[7]);
            assert("intent_use"@[7] != "intent_del"@[7]);
            assert("intent_pop"@[7] != "intent_del"@[7]);
            assert("intent_len"@[7] != "intent_del"@[7]);
            assert("intent_has"@[7] != "intent_del"@[7]);
            assert("intent_get"@[7] != "intent_del"@[7]);
            assert("intent_put"@[7] != "intent_del"@[7]);
            assert(spec_ctl_named("intent_del"@) == Some(NativeCtl::intent_del));
        },
        NativeCtl::intent_del_if => {
            reveal_strlit("intent_del_if");
            assert("defer_current"@[0] != "intent_del_if"@[0]);
            assert("intent_get_or"@[7] != "intent_del_if"@[7]);
            assert("intent_rename"@[7] != "intent_del_if"@[7]);
            assert(spec_ctl_named("intent_del_if"@) == Some(NativeCtl::intent_del_if));
        },
        NativeCtl::intent_del_many => {
            reveal_strlit("intent_del_many");
            assert("intent_take_map"@[7] != "intent_del_many"@[7]);
            assert(spec_ctl_named("intent_del_many"@) == Some(NativeCtl::intent_del_many));
        },
        NativeCtl::intent_append => {
            reveal_strlit("intent_append");
            assert("defer_current"@[0] != "intent_append"@[0]);
            assert("intent_get_or"@[7] != "intent_append"@[7]);
            assert("intent_rename"@[7] != "intent_append"@[7]);
            assert("intent_del_if"@[7] != "intent_append"@[7]);
            assert(spec_ctl_named("intent_append"@) == Some(NativeCtl::intent_append));
        },
        NativeCtl::intent_inc => {
            reveal_strlit("intent_inc");
            assert("intent_new"@[7] != "intent_inc"@[7]);
            assert("intent_use"@[7] != "intent_inc"@[7]);
            assert("intent_pop"@[7] != "intent_inc"@[7]);
            assert("intent_len"@[7] != "intent_inc"@[7]);
            assert("intent_has"@[7] != "intent_inc"@[7]);
            assert("intent_get"@[7] != "intent_inc"@[7]);
            assert("intent_put"@[7] != "intent_inc"@[7]);
            assert("intent_del"@[7] != "intent_inc"@[7]);
            assert(spec_ctl_named("intent_inc"@) == Some(NativeCtl::intent_inc));
        },
        NativeCtl::intent_add => {
            reveal_strlit("intent_add");
            assert("intent_new"@[7] != "intent_add"@[7]);
            assert("intent_use"@[7] != "intent_add"@[7]);
            assert("intent_pop"@[7] != "intent_add"@[7]);
            assert("intent_len"@[7] != "intent_add"@[7]);
            assert("intent_has"@[7] != "intent_add"@[7]);
            assert("intent_get"@[7] != "intent_add"@[7]);
            assert("intent_put"@[7] != "intent_add"@[7]);
            assert("intent_del"@[7] != "intent_add"@[7]);
            assert("intent_inc"@[7] != "intent_add"@[7]);
            assert(spec_ctl_named("intent_add"@) == Some(NativeCtl::intent_add));
        },
        NativeCtl::intent_sub => {
            reveal_strlit("intent_sub");
            assert("intent_new"@[7] != "intent_sub"@[7]);
            assert("intent_use"@[7] != "intent_sub"@[7]);
            assert("intent_pop"@[7] != "intent_sub"@[7]);
            assert("intent_len"@[7] != "intent_sub"@[7]);
            assert("intent_has"@[7] != "intent_sub"@[7]);
            assert("intent_get"@[7] != "intent_sub"@[7]);
            assert("intent_put"@[7] != "intent_sub"@[7]);
            assert("intent_del"@[7] != "intent_sub"@[7]);
            assert("intent_inc"@[7] != "intent_sub"@[7]);
            assert("intent_add"@[7] != "intent_sub"@[7]);
            assert(spec_ctl_named("intent_sub"@) == Some(NativeCtl::intent_sub));
        },
        NativeCtl::intent_use_kind => {
            reveal_strlit("intent_use_kind");
            assert("intent_take_map"@[7] != "intent_use_kind"@[7]);
            assert("intent_del_many"@[7] != "intent_use_kind"@[7]);
            assert(spec_ctl_named("intent_use_kind"@) == Some(NativeCtl::intent_use_kind));
        },
        NativeCtl::intent_bound => {
            reveal_strlit("intent_bound");
            assert("intent_clear"@[7] != "intent_bound"@[7]);
            assert(spec_ctl_named("intent_bound"@) == Some(NativeCtl::intent_bound));
        },
        NativeCtl::intent_open_page => {
            reveal_strlit("intent_open_page");
            assert("intent_keys_page"@[7] != "intent_open_page"@[7]);
            assert("intent_take_many"@[7] != "intent_open_page"@[7]);
            assert(spec_ctl_named("intent_open_page"@) == Some(NativeCtl::intent_open_page));
        },
        _ => {},
    }
}



} // verus!
