//! Runtime values as the VM library sees them: scalars, byte strings,
//! addresses, tuples, compound lists and maps, and intent handles.

use vstd::prelude::*;
use crate::cap::SpaceCap;
use crate::error::{ItrErr, ItrErrCode, VmrtRes};

verus! {

/// Size of an account address.
pub const ADDRESS_SIZE: usize = 21;

/// The type tag of a value.
#[derive(Debug, Clone, Copy, PartialEq, Eq, Structural)]
pub enum ValueTy {
    Nil,
    Bool,
    U8,
    U16,
    U32,
    U64,
    U128,
    Bytes,
    Address,
    Tuple,
    Compo,
    Handle,
}

/// Mathematical model of a value.
#[verifier::ext_equal]
pub enum Val {
    Nil,
    Bool(bool),
    U8(u8),
    U16(u16),
    U32(u32),
    U64(u64),
    U128(u128),
    Bytes(Seq<u8>),
    Address(Seq<u8>),
    Tuple(Seq<Val>),
    List(Seq<Val>),
    Dict(Seq<(Seq<u8>, Val)>),
    Handle(u64),
}

/// A runtime value.
#[derive(Debug, PartialEq)]
pub enum Value {
    Nil,
    Bool(bool),
    U8(u8),
    U16(u16),
    U32(u32),
    U64(u64),
    U128(u128),
    /// A byte string.
    Bytes(Vec<u8>),
    /// An account address (`ADDRESS_SIZE` bytes).
    Address(Vec<u8>),
    /// A fixed tuple, as packed call arguments are.
    Tuple(Vec<Value>),
    /// A compound list.
    List(Vec<Value>),
    /// A compound map from byte keys to values.
    Dict(Vec<(Vec<u8>, Value)>),
    /// An intent handle.
    Handle(u64),
}

/// The model of a value.
pub open spec fn val_of(v: Value) -> Val
    decreases v,
{
    match v {
        Value::Nil => Val::Nil,
        Value::Bool(b) => Val::Bool(b),
        Value::U8(n) => Val::U8(n),
        Value::U16(n) => Val::U16(n),
        Value::U32(n) => Val::U32(n),
        Value::U64(n) => Val::U64(n),
        Value::U128(n) => Val::U128(n),
        Value::Bytes(b) => Val::Bytes(b@),
        Value::Address(b) => Val::Address(b@),
        Value::Tuple(vs) => Val::Tuple(Seq::new(vs@.len(), |i: int| if 0 <= i < vs@.len() { val_of(vs@[i]) } else { Val::Nil })),
        Value::List(vs) => Val::List(Seq::new(vs@.len(), |i: int| if 0 <= i < vs@.len() { val_of(vs@[i]) } else { Val::Nil })),
        Value::Dict(kvs) => Val::Dict(Seq::new(kvs@.len(), |i: int| if 0 <= i < kvs@.len() { (kvs@[i].0@, val_of(kvs@[i].1)) } else { (Seq::empty(), Val::Nil) })),
        Value::Handle(h) => Val::Handle(h),
    }
}

/// The models of a list of values.
pub open spec fn vals_of(v: Seq<Value>) -> Seq<Val> {
    Seq::new(v.len(), |i: int| val_of(v[i]))
}

impl View for Value {
    type V = Val;

    open spec fn view(&self) -> Val {
        val_of(*self)
    }
}

/// The type tag of a modelled value.
pub open spec fn val_ty(v: Val) -> ValueTy {
    match v {
        Val::Nil => ValueTy::Nil,
        Val::Bool(_) => ValueTy::Bool,
        Val::U8(_) => ValueTy::U8,
        Val::U16(_) => ValueTy::U16,
        Val::U32(_) => ValueTy::U32,
        Val::U64(_) => ValueTy::U64,
        Val::U128(_) => ValueTy::U128,
        Val::Bytes(_) => ValueTy::Bytes,
        Val::Address(_) => ValueTy::Address,
        Val::Tuple(_) => ValueTy::Tuple,
        Val::List(_) => ValueTy::Compo,
        Val::Dict(_) => ValueTy::Compo,
        Val::Handle(_) => ValueTy::Handle,
    }
}

/// The unsigned integer a value holds, if it holds one.
pub open spec fn val_uint(v: Val) -> Option<int> {
    match v {
        Val::U8(n) => Some(n as int),
        Val::U16(n) => Some(n as int),
        Val::U32(n) => Some(n as int),
        Val::U64(n) => Some(n as int),
        Val::U128(n) => Some(n as int),
        _ => None,
    }
}

/// The unsigned integer a value holds, if it holds one not above `max`.
pub open spec fn val_uint_below(v: Val, max: int) -> Option<int> {
    match val_uint(v) {
        Some(n) => if n <= max { Some(n) } else { None },
        None => None,
    }
}

/// Big-endian bytes of `n` in `width` bytes.
pub open spec fn be_bytes(n: nat, width: nat) -> Seq<u8>
    decreases width,
{
    if width == 0 {
        Seq::empty()
    } else {
        be_bytes(n / 256, (width - 1) as nat).push((n % 256) as u8)
    }
}

pub proof fn lemma_be_bytes_len(n: nat, width: nat)
    ensures
        be_bytes(n, width).len() == width,
    decreases width,
{
    if width > 0 {
        lemma_be_bytes_len(n / 256, (width - 1) as nat);
    }
}

/// The bytes of a scalar value: a boolean as one byte, an unsigned integer
/// big endian in its own width, a byte string or an address as it is.
pub open spec fn val_scalar_bytes(v: Val) -> Option<Seq<u8>> {
    match v {
        Val::Bool(b) => Some(seq![if b { 1u8 } else { 0u8 }]),
        Val::U8(n) => Some(be_bytes(n as nat, 1)),
        Val::U16(n) => Some(be_bytes(n as nat, 2)),
        Val::U32(n) => Some(be_bytes(n as nat, 4)),
        Val::U64(n) => Some(be_bytes(n as nat, 8)),
        Val::U128(n) => Some(be_bytes(n as nat, 16)),
        Val::Bytes(b) => Some(b),
        Val::Address(b) => Some(b),
        _ => None,
    }
}

/// Concatenation of the bytes of two scalar values, within the value size
/// limit.
pub open spec fn spec_concat(a: Val, b: Val, max: int) -> Result<Val, ItrErrCode> {
    match val_scalar_bytes(a) {
        None => Err(ItrErrCode::CastBeBytesFail),
        Some(x) => match val_scalar_bytes(b) {
            None => Err(ItrErrCode::CastBeBytesFail),
            Some(y) => if x.len() + y.len() > max { Err(ItrErrCode::OutOfValueSize) } else { Ok(Val::Bytes(x + y)) },
        },
    }
}

/// A value within the size limit: a scalar's bytes no longer than `max`.
pub open spec fn spec_size_ok(v: Val, max: int) -> bool {
    match val_scalar_bytes(v) {
        Some(b) => b.len() <= max,
        None => true,
    }
}

/// The result of a value operation against its model.
pub open spec fn value_result(r: VmrtRes<Value>, s: Result<Val, ItrErrCode>) -> bool {
    match s {
        Ok(v) => r matches Ok(x) && x@ == v,
        Err(c) => r matches Err(e) && e.0 == c,
    }
}

/// How the arguments of a call with a given arity travel in one value.
#[derive(Debug, Clone, Copy, PartialEq, Eq, Structural)]
pub enum CallArgsPack {
    /// No argument: `Nil`.
    Nil,
    /// One argument: the value itself.
    Raw,
    /// Two or more: a tuple.
    Tuple,
}

/// The packing of a call with `n` arguments.
pub fn classify_call_args_len(n: usize) -> (r: CallArgsPack)
    ensures
        n == 0 ==> r == CallArgsPack::Nil,
        n == 1 ==> r == CallArgsPack::Raw,
        n >= 2 ==> r == CallArgsPack::Tuple,
{
    if n == 0 {
        CallArgsPack::Nil
    } else if n == 1 {
        CallArgsPack::Raw
    } else {
        CallArgsPack::Tuple
    }
}

/// Big-endian bytes of an unsigned integer in `width` bytes.
pub(crate) fn uint_be_bytes(n: u128, width: usize) -> (r: Vec<u8>)
    requires
        width <= 16,
    ensures
        r@ == be_bytes(n as nat, width as nat),
{
    let mut k: usize = 0;
    let mut x: u128 = n;
    let mut low: Vec<u8> = Vec::new();
    while k < width
        invariant
            k <= width,
            width <= 16,
            low@.len() == k,
            be_bytes(n as nat, width as nat) == be_bytes(x as nat, (width - k) as nat) + low@,
        decreases width - k,
    {
        let b = (x % 256) as u8;
        proof {
            let w = (width - k) as nat;
            assert(be_bytes(x as nat, w) == be_bytes(x as nat / 256, (w - 1) as nat).push((x as nat % 256) as u8));
            assert(be_bytes(x as nat / 256, (w - 1) as nat).push(b) + low@ =~= be_bytes(x as nat / 256, (w - 1) as nat) + (seq![b] + low@));
        }
        let mut next: Vec<u8> = Vec::new();
        next.push(b);
        let mut j: usize = 0;
        while j < low.len()
            invariant
                j <= low@.len(),
                next@ == seq![b] + low@.subrange(0, j as int),
            decreases low@.len() - j,
        {
            next.push(low[j]);
            j = j + 1;
            assert(next@ =~= seq![b] + low@.subrange(0, j as int));
        }
        assert(low@.subrange(0, low@.len() as int) =~= low@);
        low = next;
        x = x / 256;
        k = k + 1;
    }
    assert(be_bytes(x as nat, 0) =~= Seq::<u8>::empty());
    assert(Seq::<u8>::empty() + low@ =~= low@);
    low
}

impl Value {
    /// `Nil`.
    pub fn nil() -> (r: Value)
        ensures
            r@ == Val::Nil,
    {
        Value::Nil
    }

    /// A byte string value.
    pub fn bytes(b: Vec<u8>) -> (r: Value)
        ensures
            r@ == Val::Bytes(b@),
    {
        Value::Bytes(b)
    }

    /// The empty byte string.
    pub fn empty_bytes() -> (r: Value)
        ensures
            r@ == Val::Bytes(Seq::empty()),
    {
        Value::Bytes(Vec::new())
    }

    /// Is this `Nil`.
    pub fn is_nil(&self) -> (r: bool)
        ensures
            r == (self@ is Nil),
    {
        match self {
            Value::Nil => true,
            _ => false,
        }
    }

    /// The type tag.
    pub fn ty(&self) -> (r: ValueTy)
        ensures
            r == val_ty(self@),
    {
        match self {
            Value::Nil => ValueTy::Nil,
            Value::Bool(_) => ValueTy::Bool,
            Value::U8(_) => ValueTy::U8,
            Value::U16(_) => ValueTy::U16,
            Value::U32(_) => ValueTy::U32,
            Value::U64(_) => ValueTy::U64,
            Value::U128(_) => ValueTy::U128,
            Value::Bytes(_) => ValueTy::Bytes,
            Value::Address(_) => ValueTy::Address,
            Value::Tuple(_) => ValueTy::Tuple,
            Value::List(_) => ValueTy::Compo,
            Value::Dict(_) => ValueTy::Compo,
            Value::Handle(_) => ValueTy::Handle,
        }
    }

    /// The unsigned integer held, widened.
    pub fn extract_uint(&self) -> (r: Option<u128>)
        ensures
            match val_uint(self@) {
                Some(n) => r == Some(n as u128),
                None => r is None,
            },
    {
        match self {
            Value::U8(n) => Some(*n as u128),
            Value::U16(n) => Some(*n as u128),
            Value::U32(n) => Some(*n as u128),
            Value::U64(n) => Some(*n as u128),
            Value::U128(n) => Some(*n),
            _ => None,
        }
    }

    /// An unsigned integer convertible to `u8`.
    pub fn extract_u8(&self) -> (r: Option<u8>)
        ensures
            match val_uint_below(self@, 0xff) {
                Some(n) => r == Some(n as u8),
                None => r is None,
            },
    {
        match self.extract_uint() {
            Some(n) => if n <= 0xff { Some(n as u8) } else { None },
            None => None,
        }
    }

    /// An unsigned integer convertible to `u16`.
    pub fn extract_u16(&self) -> (r: Option<u16>)
        ensures
            match val_uint_below(self@, 0xffff) {
                Some(n) => r == Some(n as u16),
                None => r is None,
            },
    {
        match self.extract_uint() {
            Some(n) => if n <= 0xffff { Some(n as u16) } else { None },
            None => None,
        }
    }

    /// An unsigned integer convertible to `u64`.
    pub fn extract_u64(&self) -> (r: Option<u64>)
        ensures
            match val_uint_below(self@, 0xffff_ffff_ffff_ffff) {
                Some(n) => r == Some(n as u64),
                None => r is None,
            },
    {
        match self.extract_uint() {
            Some(n) => if n <= 0xffff_ffff_ffff_ffff { Some(n as u64) } else { None },
            None => None,
        }
    }

    /// An unsigned integer convertible to `u128`: any unsigned integer.
    pub fn extract_u128(&self) -> (r: Option<u128>)
        ensures
            match val_uint(self@) {
                Some(n) => r == Some(n as u128),
                None => r is None,
            },
    {
        self.extract_uint()
    }

    /// An unsigned integer convertible to `u8`, or a cast error.
    pub fn checked_u8(&self) -> (r: VmrtRes<u8>)
        ensures
            match val_uint_below(self@, 0xff) {
                Some(n) => r == Ok::<u8, ItrErr>(n as u8),
                None => r matches Err(e) && e.0 == ItrErrCode::CastBeUintFail,
            },
    {
        match self.extract_u8() {
            Some(n) => Ok(n),
            None => Err(ItrErr::new(ItrErrCode::CastBeUintFail, "value cannot cast to u8")),
        }
    }

    /// The bytes of a scalar value, `None` for a value that has none.
    pub fn scalar_bytes(&self) -> (r: Option<Vec<u8>>)
        ensures
            match val_scalar_bytes(self@) {
                Some(b) => r matches Some(v) && v@ == b,
                None => r is None,
            },
    {
        match self {
            Value::Bool(b) => {
                let mut v: Vec<u8> = Vec::new();
                v.push(if *b { 1u8 } else { 0u8 });
                assert(v@ =~= seq![if *b { 1u8 } else { 0u8 }]);
                Some(v)
            },
            Value::U8(n) => Some(uint_be_bytes(*n as u128, 1)),
            Value::U16(n) => Some(uint_be_bytes(*n as u128, 2)),
            Value::U32(n) => Some(uint_be_bytes(*n as u128, 4)),
            Value::U64(n) => Some(uint_be_bytes(*n as u128, 8)),
            Value::U128(n) => Some(uint_be_bytes(*n, 16)),
            Value::Bytes(b) => Some(b.clone()),
            Value::Address(b) => Some(b.clone()),
            _ => None,
        }
    }

    /// The bytes of `a` followed by those of `b`, as a byte string no longer
    /// than the value size limit.
    pub fn concat(a: &Value, b: &Value, cap: &SpaceCap) -> (r: VmrtRes<Value>)
        ensures
            value_result(r, spec_concat(a@, b@, cap.max_value_size as int)),
    {
        let x = match a.scalar_bytes() {
            Some(x) => x,
            None => return Err(ItrErr::new(ItrErrCode::CastBeBytesFail, "value cannot cast to bytes")),
        };
        let y = match b.scalar_bytes() {
            Some(y) => y,
            None => return Err(ItrErr::new(ItrErrCode::CastBeBytesFail, "value cannot cast to bytes")),
        };
        if x.len() > cap.max_value_size || y.len() > cap.max_value_size - x.len() {
            return Err(ItrErr::new(ItrErrCode::OutOfValueSize, "value size overflow"));
        }
        let mut out = x;
        let ghost x0 = out@;
        let mut k: usize = 0;
        while k < y.len()
            invariant
                k <= y@.len(),
                out@ == x0 + y@.subrange(0, k as int),
            decreases y@.len() - k,
        {
            out.push(y[k]);
            k = k + 1;
            assert(out@ =~= x0 + y@.subrange(0, k as int));
        }
        assert(y@.subrange(0, y@.len() as int) =~= y@);
        Ok(Value::Bytes(out))
    }

    /// This value, if it is within the value size limit.
    pub fn valid(self, cap: &SpaceCap) -> (r: VmrtRes<Value>)
        ensures
            value_result(r, if spec_size_ok(self@, cap.max_value_size as int) { Ok(self@) } else { Err(ItrErrCode::OutOfValueSize) }),
    {
        let ok = match self.scalar_bytes() {
            Some(v) => v.len() <= cap.max_value_size,
            None => true,
        };
        if ok {
            Ok(self)
        } else {
            Err(ItrErr::new(ItrErrCode::OutOfValueSize, "value size overflow"))
        }
    }

    /// A copy of this value.
    pub fn dup(&self) -> (r: Value)
        ensures
            r@ == self@,
        decreases self,
    {
        match self {
            Value::Nil => Value::Nil,
            Value::Bool(b) => Value::Bool(*b),
            Value::U8(n) => Value::U8(*n),
            Value::U16(n) => Value::U16(*n),
            Value::U32(n) => Value::U32(*n),
            Value::U64(n) => Value::U64(*n),
            Value::U128(n) => Value::U128(*n),
            Value::Bytes(b) => Value::Bytes(b.clone()),
            Value::Address(b) => Value::Address(b.clone()),
            Value::Tuple(vs) => {
                let out = dup_values(vs);
                proof {
                    lemma_seq_views(*vs);
                    lemma_seq_views(out);
                }
                Value::Tuple(out)
            },
            Value::List(vs) => {
                let out = dup_values(vs);
                proof {
                    lemma_seq_views(*vs);
                    lemma_seq_views(out);
                }
                Value::List(out)
            },
            Value::Dict(kvs) => {
                let out = dup_entries(kvs);
                proof {
                    lemma_dict_view(*kvs);
                    lemma_dict_view(out);
                }
                Value::Dict(out)
            },
            Value::Handle(h) => Value::Handle(*h),
        }
    }
}

pub proof fn lemma_seq_views(v: Vec<Value>)
    ensures
        val_of(Value::Tuple(v)) == Val::Tuple(vals_of(v@)),
        val_of(Value::List(v)) == Val::List(vals_of(v@)),
{
    assert(val_of(Value::Tuple(v)) matches Val::Tuple(s) && s =~= vals_of(v@));
    assert(val_of(Value::List(v)) matches Val::List(s) && s =~= vals_of(v@));
}

/// The model of a map's entries.
pub open spec fn entries_of(kvs: Seq<(Vec<u8>, Value)>) -> Seq<(Seq<u8>, Val)> {
    Seq::new(kvs.len(), |i: int| (kvs[i].0@, val_of(kvs[i].1)))
}

proof fn lemma_dict_view(kvs: Vec<(Vec<u8>, Value)>)
    ensures
        val_of(Value::Dict(kvs)) == Val::Dict(entries_of(kvs@)),
{
    assert(val_of(Value::Dict(kvs)) matches Val::Dict(s) && s =~= entries_of(kvs@));
}

fn dup_entry(e: &(Vec<u8>, Value)) -> (r: (Vec<u8>, Value))
    ensures
        r.0@ == e.0@,
        val_of(r.1) == val_of(e.1),
    decreases e,
{
    (e.0.clone(), e.1.dup())
}

fn dup_entries(kvs: &Vec<(Vec<u8>, Value)>) -> (r: Vec<(Vec<u8>, Value)>)
    ensures
        entries_of(r@) == entries_of(kvs@),
    decreases kvs,
{
    let mut out: Vec<(Vec<u8>, Value)> = Vec::new();
    let mut i: usize = 0;
    while i < kvs.len()
        invariant
            i <= kvs@.len(),
            out@.len() == i,
            forall|j: int| 0 <= j < i ==> (#[trigger] out@[j]).0@ == kvs@[j].0@ && val_of(out@[j].1) == val_of(kvs@[j].1),
        decreases kvs@.len() - i,
    {
        proof {
            assert(decreases_to!(kvs => kvs@[i as int]));
        }
        let e = dup_entry(&kvs[i]);
        out.push(e);
        i = i + 1;
    }
    assert(entries_of(out@) =~= entries_of(kvs@));
    out
}

/// The models of a list with one more value.
pub proof fn lemma_vals_push(s: Seq<Value>, v: Value)
    ensures
        vals_of(s.push(v)) =~= vals_of(s).push(val_of(v)),
{
}

/// Copies of a list of values.
pub fn dup_values(vs: &Vec<Value>) -> (r: Vec<Value>)
    ensures
        vals_of(r@) == vals_of(vs@),
    decreases vs,
{
    let mut out: Vec<Value> = Vec::new();
    let mut i: usize = 0;
    while i < vs.len()
        invariant
            i <= vs@.len(),
            out@.len() == i,
            forall|j: int| 0 <= j < i ==> #[trigger] val_of(out@[j]) == val_of(vs@[j]),
        decreases vs@.len() - i,
    {
        proof {
            assert(decreases_to!(vs => vs@[i as int]));
        }
        let v = vs[i].dup();
        out.push(v);
        i = i + 1;
    }
    assert(vals_of(out@) =~= vals_of(vs@));
    out
}

/// Items a packed native argument counts: a tuple's or a list's items, one
/// for any other value.
pub open spec fn spec_packed_item_count(v: Val) -> nat {
    match v {
        Val::Tuple(ts) => ts.len(),
        Val::List(ts) => ts.len(),
        _ => 1,
    }
}

/// Items a packed native argument counts.
pub fn packed_item_count(v: &Value) -> (r: usize)
    ensures
        r == spec_packed_item_count(v@),
{
    match v {
        Value::Tuple(t) => {
            proof {
                lemma_seq_views(*t);
            }
            t.len()
        },
        Value::List(l) => {
            proof {
                lemma_seq_views(*l);
            }
            l.len()
        },
        _ => 1,
    }
}

/// Payload bytes of a packed native argument: a scalar's width, a byte
/// string's length, an address's size, and the sum over a tuple's items, a
/// list's items or a map's values (saturating); `Nil` and handles weigh nothing.
pub open spec fn spec_packed_payload(v: Val) -> int
    decreases v,
{
    match v {
        Val::Nil => 0,
        Val::Bool(_) => 1,
        Val::U8(_) => 1,
        Val::U16(_) => 2,
        Val::U32(_) => 4,
        Val::U64(_) => 8,
        Val::U128(_) => 16,
        Val::Bytes(b) => b.len() as int,
        Val::Address(_) => ADDRESS_SIZE as int,
        Val::Tuple(ts) => sat_sum(payloads(ts)),
        Val::List(ts) => sat_sum(payloads(ts)),
        Val::Dict(kvs) => sat_sum(entry_payloads(kvs)),
        Val::Handle(_) => 0,
    }
}

/// Sum of sizes, saturating at `usize::MAX`.
pub open spec fn sat_sum(s: Seq<int>) -> int
    decreases s.len(),
{
    if s.len() == 0 {
        0
    } else {
        let a = sat_sum(s.drop_last());
        if a + s.last() > usize::MAX { usize::MAX as int } else { a + s.last() }
    }
}


/// Payload sizes of a list of items.
pub open spec fn payloads(ts: Seq<Val>) -> Seq<int>
    decreases ts,
{
    Seq::new(ts.len(), |i: int| if 0 <= i < ts.len() { spec_packed_payload(ts[i]) } else { 0 })
}

/// Payload sizes of a map's values.
pub open spec fn entry_payloads(kvs: Seq<(Seq<u8>, Val)>) -> Seq<int>
    decreases kvs,
{
    Seq::new(kvs.len(), |i: int| if 0 <= i < kvs.len() { spec_packed_payload(kvs[i].1) } else { 0 })
}

proof fn lemma_sat_sum_step(s: Seq<int>, i: int)
    requires
        0 <= i < s.len(),
    ensures
        sat_sum(s.take(i + 1)) == (if sat_sum(s.take(i)) + s[i] > usize::MAX { usize::MAX as int } else { sat_sum(s.take(i)) + s[i] }),
{
    assert(s.take(i + 1).drop_last() =~= s.take(i));
}

/// Payload bytes of a packed native argument.
pub fn packed_payload_bytes(v: &Value) -> (r: usize)
    ensures
        r == spec_packed_payload(v@),
    decreases v,
{
    match v {
        Value::Nil => 0,
        Value::Bool(_) => 1,
        Value::U8(_) => 1,
        Value::U16(_) => 2,
        Value::U32(_) => 4,
        Value::U64(_) => 8,
        Value::U128(_) => 16,
        Value::Bytes(b) => b.len(),
        Value::Address(_) => ADDRESS_SIZE,
        Value::Tuple(t) => {
            proof {
                lemma_seq_views(*t);
            }
            payload_sum(t)
        },
        Value::List(l) => {
            proof {
                lemma_seq_views(*l);
            }
            payload_sum(l)
        },
        Value::Dict(kvs) => {
            proof {
                lemma_dict_view(*kvs);
            }
            entry_payload_sum(kvs)
        },
        Value::Handle(_) => 0,
    }
}

fn payload_sum(vs: &Vec<Value>) -> (r: usize)
    ensures
        r == sat_sum(payloads(vals_of(vs@))),
    decreases vs,
{
    let ghost p = payloads(vals_of(vs@));
    let mut sum: usize = 0;
    let mut i: usize = 0;
    while i < vs.len()
        invariant
            i <= vs@.len(),
            p == payloads(vals_of(vs@)),
            sum == sat_sum(p.take(i as int)),
        decreases vs@.len() - i,
    {
        proof {
            assert(decreases_to!(vs => vs@[i as int]));
        }
        let x = packed_payload_bytes(&vs[i]);
        proof {
            lemma_sat_sum_step(p, i as int);
        }
        sum = sum.saturating_add(x);
        i = i + 1;
    }
    assert(p.take(vs@.len() as int) =~= p);
    sum
}

fn entry_payload(e: &(Vec<u8>, Value)) -> (r: usize)
    ensures
        r == spec_packed_payload(val_of(e.1)),
    decreases e,
{
    packed_payload_bytes(&e.1)
}

fn entry_payload_sum(kvs: &Vec<(Vec<u8>, Value)>) -> (r: usize)
    ensures
        r == sat_sum(entry_payloads(entries_of(kvs@))),
    decreases kvs,
{
    let ghost p = entry_payloads(entries_of(kvs@));
    let mut sum: usize = 0;
    let mut i: usize = 0;
    while i < kvs.len()
        invariant
            i <= kvs@.len(),
            p == entry_payloads(entries_of(kvs@)),
            sum == sat_sum(p.take(i as int)),
        decreases kvs@.len() - i,
    {
        proof {
            assert(decreases_to!(kvs => kvs@[i as int]));
        }
        let x = entry_payload(&kvs[i]);
        proof {
            lemma_sat_sum_step(p, i as int);
        }
        sum = sum.saturating_add(x);
        i = i + 1;
    }
    assert(p.take(kvs@.len() as int) =~= p);
    sum
}


} // verus!
