//! Argument and mode checks of the native controls: the execution mode a
//! control needs, and the shapes of its arguments. Every failure is an
//! `IntentError`.

use vstd::prelude::*;
use crate::error::{ItrErr, ItrErrCode, VmrtErr, VmrtRes};
use crate::value::{Val, Value, lemma_seq_views, val_uint_below, vals_of};

verus! {

/// What a call may do to state.
#[derive(Debug, Clone, Copy, PartialEq, Eq, Structural)]
pub enum EffectMode {
    /// May change state.
    Edit,
    /// May read state.
    View,
    /// May touch no state.
    Pure,
}

/// The execution context of a native control.
#[derive(Debug, Clone, Copy)]
pub struct ExecCtx {
    pub effect: EffectMode,
}

fn intent_err(msg: &str) -> (r: ItrErr)
    ensures
        r.0 == ItrErrCode::IntentError,
{
    ItrErr::new(ItrErrCode::IntentError, msg)
}

/// The control takes no argument: the argument must be `Nil`.
pub fn ctl_expect_no_arg(argv: Value, name: &str) -> (r: VmrtErr)
    ensures
        argv@ is Nil ==> r is Ok,
        !(argv@ is Nil) ==> (r matches Err(e) && e.0 == ItrErrCode::IntentError),
{
    if argv.is_nil() {
        return Ok(());
    }
    Err(intent_err("native ctl expects no arguments"))
}

/// The control changes state: only in edit mode.
pub fn ctl_require_edit(exec: ExecCtx, name: &str) -> (r: VmrtErr)
    ensures
        exec.effect == EffectMode::Edit ==> r is Ok,
        exec.effect != EffectMode::Edit ==> (r matches Err(e) && e.0 == ItrErrCode::IntentError),
{
    if exec.effect != EffectMode::Edit {
        return Err(intent_err("native ctl not allowed in non-edit mode"));
    }
    Ok(())
}

/// The control reads state: not in pure mode.
pub fn ctl_require_non_pure(exec: ExecCtx, name: &str) -> (r: VmrtErr)
    ensures
        exec.effect != EffectMode::Pure ==> r is Ok,
        exec.effect == EffectMode::Pure ==> (r matches Err(e) && e.0 == ItrErrCode::IntentError),
{
    if exec.effect == EffectMode::Pure {
        return Err(intent_err("native ctl not allowed in pure mode"));
    }
    Ok(())
}

/// The intent id an argument carries as a handle, or an error with `err_code`.
pub fn extract_intent_handle_id_with_error(argv: &Value, err_code: ItrErrCode, err_msg: &str) -> (r: VmrtRes<usize>)
    ensures
        match argv@ {
            Val::Handle(h) => if h <= usize::MAX { r == Ok::<usize, ItrErr>(h as usize) } else { r matches Err(e) && e.0 == err_code },
            _ => r matches Err(e) && e.0 == err_code,
        },
{
    match argv {
        Value::Handle(h) => {
            if *h as u128 > usize::MAX as u128 {
                return Err(ItrErr::new(err_code, err_msg));
            }
            Ok(*h as usize)
        },
        _ => Err(ItrErr::new(err_code, err_msg)),
    }
}

/// The intent id an argument carries as a handle.
pub fn extract_intent_handle_id(argv: &Value, name: &str) -> (r: VmrtRes<usize>)
    ensures
        match argv@ {
            Val::Handle(h) => if h <= usize::MAX { r == Ok::<usize, ItrErr>(h as usize) } else { r matches Err(e) && e.0 == ItrErrCode::IntentError },
            _ => r matches Err(e) && e.0 == ItrErrCode::IntentError,
        },
{
    extract_intent_handle_id_with_error(argv, ItrErrCode::IntentError, "native ctl requires intent handle")
}

fn tuple_argv_error(name: &str, expect: usize) -> (r: ItrErr)
    ensures
        r.0 == ItrErrCode::IntentError,
{
    intent_err("native ctl argument count mismatch")
}

/// The items of a tuple argument of exactly `expect` items.
pub fn ctl_expect_tuple(argv: Value, name: &str, expect: usize) -> (r: VmrtRes<Vec<Value>>)
    ensures
        match argv@ {
            Val::Tuple(ts) => if ts.len() == expect {
                r matches Ok(v) && vals_of(v@) == ts
            } else {
                r matches Err(e) && e.0 == ItrErrCode::IntentError
            },
            _ => r matches Err(e) && e.0 == ItrErrCode::IntentError,
        },
{
    match argv {
        Value::Tuple(args) => {
            proof {
                lemma_seq_views(args);
            }
            if args.len() != expect {
                return Err(tuple_argv_error(name, expect));
            }
            Ok(args)
        },
        _ => Err(tuple_argv_error(name, expect)),
    }
}

fn list_argv_error(name: &str) -> (r: ItrErr)
    ensures
        r.0 == ItrErrCode::IntentError,
{
    intent_err("native ctl requires list argument")
}

/// The items of a list argument.
pub fn ctl_expect_list(argv: Value, name: &str) -> (r: VmrtRes<Vec<Value>>)
    ensures
        match argv@ {
            Val::List(ts) => r matches Ok(v) && vals_of(v@) == ts,
            _ => r matches Err(e) && e.0 == ItrErrCode::IntentError,
        },
{
    match argv {
        Value::List(items) => {
            proof {
                lemma_seq_views(items);
            }
            Ok(items)
        },
        _ => Err(list_argv_error(name)),
    }
}

/// The two items of a pair argument.
pub fn ctl_expect_pair(argv: Value, name: &str) -> (r: VmrtRes<(Value, Value)>)
    ensures
        match argv@ {
            Val::Tuple(ts) => if ts.len() == 2 {
                r matches Ok(p) && p.0@ == ts[0] && p.1@ == ts[1]
            } else {
                r matches Err(e) && e.0 == ItrErrCode::IntentError
            },
            _ => r matches Err(e) && e.0 == ItrErrCode::IntentError,
        },
{
    let mut items = ctl_expect_tuple(argv, name, 2)?;
    let ghost vs = vals_of(items@);
    let b = items.pop().unwrap();
    let a = items.pop().unwrap();
    assert(vs[0] == crate::value::val_of(a) && vs[1] == crate::value::val_of(b));
    Ok((a, b))
}

/// The pairs of an even-length list argument `[k0, v0, k1, v1, ...]`.
pub open spec fn spec_kv_pairs(ts: Seq<Val>) -> Seq<(Val, Val)> {
    Seq::new(ts.len() / 2, |i: int| (ts[2 * i], ts[2 * i + 1]))
}

/// The key-value pairs of a list argument of even length.
pub fn ctl_expect_kv_list(argv: Value, name: &str) -> (r: VmrtRes<Vec<(Value, Value)>>)
    ensures
        match argv@ {
            Val::List(ts) => if ts.len() % 2 == 0 {
                r matches Ok(v) && v@.len() == ts.len() / 2
                    && forall|i: int| 0 <= i < v@.len() ==> (#[trigger] v@[i]).0@ == ts[2 * i] && v@[i].1@ == ts[2 * i + 1]
            } else {
                r matches Err(e) && e.0 == ItrErrCode::IntentError
            },
            _ => r matches Err(e) && e.0 == ItrErrCode::IntentError,
        },
{
    let items = ctl_expect_list(argv, name)?;
    let ghost ts = vals_of(items@);
    if items.len() % 2 != 0 {
        return Err(intent_err("native ctl requires list(key,value,...)"));
    }
    let n = items.len() / 2;
    let mut pairs: Vec<(Value, Value)> = Vec::new();
    let mut i: usize = 0;
    while i < n
        invariant
            n == items@.len() / 2,
            items@.len() % 2 == 0,
            items@.len() <= usize::MAX,
            ts == vals_of(items@),
            i <= n,
            pairs@.len() == i,
            forall|k: int| 0 <= k < i ==> (#[trigger] pairs@[k]).0@ == ts[2 * k] && pairs@[k].1@ == ts[2 * k + 1],
        decreases n - i,
    {
        assert(ts[2 * i as int] == crate::value::val_of(items@[2 * i as int]));
        assert(ts[2 * i + 1] == crate::value::val_of(items@[2 * i + 1]));
        let k = items[2 * i].dup();
        let v = items[2 * i + 1].dup();
        pairs.push((k, v));
        i = i + 1;
    }
    Ok(pairs)
}

/// A byte-string argument.
pub fn ctl_expect_bytes(value: &Value, name: &str, label: &str) -> (r: VmrtRes<Vec<u8>>)
    ensures
        match value@ {
            Val::Bytes(b) => r matches Ok(v) && v@ == b,
            _ => r matches Err(e) && e.0 == ItrErrCode::IntentError,
        },
{
    match value {
        Value::Bytes(b) => Ok(b.clone()),
        _ => Err(intent_err("native ctl requires bytes argument")),
    }
}

/// An unsigned integer argument convertible to `u32`.
pub fn ctl_expect_u32(value: &Value, name: &str, label: &str) -> (r: VmrtRes<u32>)
    ensures
        match val_uint_below(value@, 0xffff_ffff) {
            Some(n) => r == Ok::<u32, ItrErr>(n as u32),
            None => r matches Err(e) && e.0 == ItrErrCode::IntentError,
        },
{
    match value.extract_uint() {
        Some(n) => {
            if n <= 0xffff_ffff {
                Ok(n as u32)
            } else {
                Err(intent_err("native ctl requires uint convertible to u32"))
            }
        },
        None => Err(intent_err("native ctl requires uint convertible to u32")),
    }
}

/// An argument that is `Nil` (none) or a byte string.
pub fn ctl_expect_optional_bytes<'a>(value: &'a Value, name: &str, label: &str) -> (r: VmrtRes<Option<&'a Value>>)
    ensures
        value@ is Nil ==> (r matches Ok(x) && x is None),
        value@ is Bytes ==> (r matches Ok(x) && x == Some(value)),
        !(value@ is Nil) && !(value@ is Bytes) ==> (r matches Err(e) && e.0 == ItrErrCode::IntentError),
{
    if value.is_nil() {
        return Ok(None);
    }
    match value {
        Value::Bytes(_) => Ok(Some(value)),
        _ => Err(intent_err("native ctl requires bytes argument")),
    }
}

} // verus!
