//! Arguments of native functions: unpacking the one argument value into the
//! catalog's argument count, and reading typed arguments.

use vstd::prelude::*;
use crate::catalog::{NativeFunc, spec_func_argv_len};
use crate::error::{ItrErr, ItrErrCode, VmrtRes};
use crate::value::{
    CallArgsPack, Val, Value, classify_call_args_len, lemma_seq_views, val_uint, val_uint_below, vals_of,
};

verus! {

/// The arguments that one argument value carries for a callee expecting
/// `expect` of them: none in `Nil`, one as the value itself, more in a tuple
/// of exactly that length.
pub open spec fn spec_unpack_argv(argv: Val, expect: int) -> Option<Seq<Val>> {
    if expect == 0 {
        if argv is Nil { Some(Seq::empty()) } else { None }
    } else if expect == 1 {
        Some(seq![argv])
    } else {
        match argv {
            Val::Tuple(ts) => if ts.len() == expect { Some(ts) } else { None },
            _ => None,
        }
    }
}

/// The items of a list argument.
pub open spec fn spec_list_items(argv: Val) -> Option<Seq<Val>> {
    match argv {
        Val::List(ts) => Some(ts),
        _ => None,
    }
}

/// The result of an argument read: the value, or an error with code `ec`.
pub open spec fn read_result<T>(r: VmrtRes<T>, s: Option<T>, ec: ItrErrCode) -> bool {
    match s {
        Some(v) => r matches Ok(x) && x == v,
        None => r matches Err(e) && e.0 == ec,
    }
}

/// The result of an unpacking: the arguments, or an error with code `ec`.
pub open spec fn args_result(r: VmrtRes<Vec<Value>>, s: Option<Seq<Val>>, ec: ItrErrCode) -> bool {
    match s {
        Some(v) => r matches Ok(x) && vals_of(x@) == v,
        None => r matches Err(e) && e.0 == ec,
    }
}

fn argv_arity_error(ec: ItrErrCode) -> (r: ItrErr)
    ensures
        r.0 == ec,
{
    ItrErr::new(ec, "native call argument count mismatch")
}

/// Unpack the argument value of a callee that expects `expect` arguments.
fn expect_argv(argv: Value, expect: usize, ec: ItrErrCode) -> (r: VmrtRes<Vec<Value>>)
    ensures
        args_result(r, spec_unpack_argv(argv@, expect as int), ec),
{
    match classify_call_args_len(expect) {
        CallArgsPack::Nil => {
            if argv.is_nil() {
                let v: Vec<Value> = Vec::new();
                assert(vals_of(v@) =~= Seq::<Val>::empty());
                Ok(v)
            } else {
                Err(argv_arity_error(ec))
            }
        },
        CallArgsPack::Raw => {
            let ghost a = argv@;
            let mut v: Vec<Value> = Vec::new();
            v.push(argv);
            assert(vals_of(v@) =~= seq![a]);
            Ok(v)
        },
        CallArgsPack::Tuple => {
            match argv {
                Value::Tuple(args) => {
                    if args.len() != expect {
                        return Err(argv_arity_error(ec));
                    }
                    proof {
                        lemma_seq_views(args);
                    }
                    Ok(args)
                },
                _ => Err(argv_arity_error(ec)),
            }
        },
    }
}

fn expect_u8(value: &Value, ec: ItrErrCode) -> (r: VmrtRes<u8>)
    ensures
        read_result(r, match val_uint_below(value@, 0xff) { Some(n) => Some(n as u8), None => None }, ec),
{
    match value.extract_u8() {
        Some(n) => Ok(n),
        None => Err(ItrErr::new(ec, "native call requires uint convertible to u8")),
    }
}

fn expect_u16(value: &Value, ec: ItrErrCode) -> (r: VmrtRes<u16>)
    ensures
        read_result(r, match val_uint_below(value@, 0xffff) { Some(n) => Some(n as u16), None => None }, ec),
{
    match value.extract_u16() {
        Some(n) => Ok(n),
        None => Err(ItrErr::new(ec, "native call requires uint convertible to u16")),
    }
}

fn expect_u64(value: &Value, ec: ItrErrCode) -> (r: VmrtRes<u64>)
    ensures
        read_result(r, match val_uint_below(value@, 0xffff_ffff_ffff_ffff) { Some(n) => Some(n as u64), None => None }, ec),
{
    match value.extract_u64() {
        Some(n) => Ok(n),
        None => Err(ItrErr::new(ec, "native call requires uint convertible to u64")),
    }
}

fn expect_u128(value: &Value, ec: ItrErrCode) -> (r: VmrtRes<u128>)
    ensures
        read_result(r, match val_uint(value@) { Some(n) => Some(n as u128), None => None }, ec),
{
    match value.extract_u128() {
        Some(n) => Ok(n),
        None => Err(ItrErr::new(ec, "native call requires uint convertible to u128")),
    }
}

fn expect_bytes(value: &Value, ec: ItrErrCode) -> (r: VmrtRes<Vec<u8>>)
    ensures
        match value@ {
            Val::Bytes(b) => r matches Ok(v) && v@ == b,
            _ => r matches Err(e) && e.0 == ec,
        },
{
    match value {
        Value::Bytes(b) => Ok(b.clone()),
        _ => Err(ItrErr::new(ec, "native call requires bytes argument")),
    }
}

fn expect_list(argv: Value, ec: ItrErrCode) -> (r: VmrtRes<Vec<Value>>)
    ensures
        args_result(r, spec_list_items(argv@), ec),
{
    match argv {
        Value::List(items) => {
            proof {
                lemma_seq_views(items);
            }
            Ok(items)
        },
        _ => Err(ItrErr::new(ec, "native call requires list argument")),
    }
}

/// The arguments of a native function, by its catalog arity.
pub fn func_argv(argv: Value, cty: NativeFunc) -> (r: VmrtRes<Vec<Value>>)
    requires
        cty != NativeFunc::Null,
    ensures
        args_result(r, spec_unpack_argv(argv@, spec_func_argv_len(cty) as int), ItrErrCode::NativeFuncError),
{
    expect_argv(argv, cty.argv_len_of(), ItrErrCode::NativeFuncError)
}

/// An argument of a native function convertible to `u8`.
pub fn func_u8(value: &Value, cty: NativeFunc, label: &str) -> (r: VmrtRes<u8>)
    requires
        cty != NativeFunc::Null,
    ensures
        read_result(r, match val_uint_below(value@, 0xff) { Some(n) => Some(n as u8), None => None }, ItrErrCode::NativeFuncError),
{
    expect_u8(value, ItrErrCode::NativeFuncError)
}

/// An argument of a native function convertible to `u16`.
pub fn func_u16(value: &Value, cty: NativeFunc, label: &str) -> (r: VmrtRes<u16>)
    requires
        cty != NativeFunc::Null,
    ensures
        read_result(r, match val_uint_below(value@, 0xffff) { Some(n) => Some(n as u16), None => None }, ItrErrCode::NativeFuncError),
{
    expect_u16(value, ItrErrCode::NativeFuncError)
}

/// An argument of a native function convertible to `u64`.
pub fn func_u64(value: &Value, cty: NativeFunc, label: &str) -> (r: VmrtRes<u64>)
    requires
        cty != NativeFunc::Null,
    ensures
        read_result(r, match val_uint_below(value@, 0xffff_ffff_ffff_ffff) { Some(n) => Some(n as u64), None => None }, ItrErrCode::NativeFuncError),
{
    expect_u64(value, ItrErrCode::NativeFuncError)
}

/// An argument of a native function convertible to `u128`.
pub fn func_u128(value: &Value, cty: NativeFunc, label: &str) -> (r: VmrtRes<u128>)
    requires
        cty != NativeFunc::Null,
    ensures
        read_result(r, match val_uint(value@) { Some(n) => Some(n as u128), None => None }, ItrErrCode::NativeFuncError),
{
    expect_u128(value, ItrErrCode::NativeFuncError)
}

/// A byte-string argument of a native function.
pub fn func_bytes(value: &Value, cty: NativeFunc, label: &str) -> (r: VmrtRes<Vec<u8>>)
    requires
        cty != NativeFunc::Null,
    ensures
        match value@ {
            Val::Bytes(b) => r matches Ok(v) && v@ == b,
            _ => r matches Err(e) && e.0 == ItrErrCode::NativeFuncError,
        },
{
    expect_bytes(value, ItrErrCode::NativeFuncError)
}

/// The one list argument of a native function of arity 1 (`patches`).
pub fn func_list(argv: Value, cty: NativeFunc) -> (r: VmrtRes<Vec<Value>>)
    requires
        cty != NativeFunc::Null,
    ensures
        args_result(
            r,
            if spec_func_argv_len(cty) != 1 { None } else { spec_list_items(argv@) },
            ItrErrCode::NativeFuncError,
        ),
{
    if cty.argv_len_of() != 1 {
        return Err(ItrErr::new(ItrErrCode::NativeFuncError, "native func list argv requires catalog arity 1"));
    }
    expect_list(argv, ItrErrCode::NativeFuncError)
}

/// A `(unit u8, value u128)` argument pair: the unit and the value it counts.
pub open spec fn spec_unit_and_u128(argv: Val) -> Option<(u8, u128)> {
    match argv {
        Val::Tuple(ts) => if ts.len() == 2 {
            match (val_uint_below(ts[0], 0xff), val_uint(ts[1])) {
                (Some(u), Some(v)) => Some((u as u8, v as u128)),
                _ => None,
            }
        } else {
            None
        },
        _ => None,
    }
}

/// The packed `(unit u8, value u128)` arguments of a two-argument native
/// function.
pub fn unit_and_u128(argv: Value, cty: NativeFunc) -> (r: VmrtRes<(u8, u128)>)
    requires
        cty != NativeFunc::Null,
        spec_func_argv_len(cty) == 2,
    ensures
        read_result(r, spec_unit_and_u128(argv@), ItrErrCode::NativeFuncError),
{
    let args = func_argv(argv, cty)?;
    proof {
        assert(vals_of(args@)[0] == crate::value::val_of(args@[0]));
        assert(vals_of(args@)[1] == crate::value::val_of(args@[1]));
    }
    let unit = func_u8(&args[0], cty, "unit")?;
    let value = func_u128(&args[1], cty, "value")?;
    Ok((unit, value))
}

} // verus!
