//! ASCII text natives: character classes, trimming, validation with case
//! transforms, decimal numbers with unit suffixes, hex and base58 checks.
//! Each returns `(errno, result)`, where errno 0 is success.

use vstd::prelude::*;
use crate::error::{ItrErr, ItrErrCode, VmrtRes};
use crate::value::{Val, Value, lemma_seq_views, vals_of};

verus! {

pub const ASCII_ERR_OK: u16 = 0;
pub const ASCII_ERR_FORMAT: u16 = 1;
pub const ASCII_ERR_INVALID_CHAR: u16 = 2;
pub const ASCII_ERR_EMPTY: u16 = 3;
pub const ASCII_ERR_DUP_KEY: u16 = 4;
pub const ASCII_ERR_OVERFLOW: u16 = 5;
pub const ASCII_ERR_HEX_ODD: u16 = 6;
pub const ASCII_ERR_SPACE_CAP: u16 = 7;

pub const ASCII_CLASS_ALNUM: u8 = 1;
pub const ASCII_CLASS_IDENT: u8 = 2;
pub const ASCII_CLASS_DEC: u8 = 3;
pub const ASCII_CLASS_HEX: u8 = 4;
pub const ASCII_CLASS_BASE58: u8 = 5;
pub const ASCII_CLASS_LOWER: u8 = 6;
pub const ASCII_CLASS_UPPER: u8 = 7;

pub const TXT_FLAG_TRIM_ASCII_WS: u8 = 1;
pub const TXT_FLAG_ALLOW_EMPTY: u8 = 2;
pub const TXT_FLAG_ALLOW_DASH_AS_EMPTY: u8 = 4;
pub const TXT_FLAG_TO_LOWER: u8 = 8;
pub const TXT_FLAG_TO_UPPER: u8 = 16;

pub const DEC_FLAG_TRIM_ASCII_WS: u8 = 1;
pub const DEC_FLAG_ALLOW_EMPTY_AS_ZERO: u8 = 2;
pub const DEC_FLAG_ALLOW_DASH_AS_ZERO: u8 = 4;
pub const DEC_FLAG_SUFFIX_CASE_INSENSITIVE: u8 = 8;

pub const DEC_UNIT_H100: u8 = 1;
pub const DEC_UNIT_K1E3: u8 = 2;
pub const DEC_UNIT_M1E6: u8 = 4;
pub const DEC_UNIT_B1E9: u8 = 8;
pub const DEC_UNIT_T1E12: u8 = 16;

pub open spec fn is_ws(ch: u8) -> bool {
    ch == 0x20 || ch == 0x09 || ch == 0x0a || ch == 0x0d
}

pub open spec fn is_digit(ch: u8) -> bool {
    0x30 <= ch <= 0x39
}

pub open spec fn is_lower(ch: u8) -> bool {
    0x61 <= ch <= 0x7a
}

pub open spec fn is_upper(ch: u8) -> bool {
    0x41 <= ch <= 0x5a
}

pub open spec fn is_hex(ch: u8) -> bool {
    is_digit(ch) || (0x61 <= ch <= 0x66) || (0x41 <= ch <= 0x46)
}

pub open spec fn is_alnum(ch: u8) -> bool {
    is_digit(ch) || is_lower(ch) || is_upper(ch)
}

/// Base58 digits: `1-9`, letters but `I`, `O` and `l`.
pub open spec fn is_base58(ch: u8) -> bool {
    (0x31 <= ch <= 0x39) || (0x41 <= ch <= 0x48) || (0x4a <= ch <= 0x4e) || (0x50 <= ch <= 0x5a)
        || (0x61 <= ch <= 0x6b) || (0x6d <= ch <= 0x7a)
}

pub open spec fn lower_of(ch: u8) -> u8 {
    if is_upper(ch) { (ch + 32) as u8 } else { ch }
}

pub open spec fn upper_of(ch: u8) -> u8 {
    if is_lower(ch) { (ch - 32) as u8 } else { ch }
}

/// The character classes, by id: 1 alphanumeric, 2 identifier (alphanumeric
/// or `_`), 3 decimal digit, 4 hex digit, 5 base58, 6 lowercase, 7 uppercase.
pub open spec fn class_valid(class_id: u8) -> bool {
    1 <= class_id <= 7
}

pub open spec fn class_has(class_id: u8, ch: u8) -> bool {
    if class_id == ASCII_CLASS_ALNUM {
        is_alnum(ch)
    } else if class_id == ASCII_CLASS_IDENT {
        is_alnum(ch) || ch == 0x5f
    } else if class_id == ASCII_CLASS_DEC {
        is_digit(ch)
    } else if class_id == ASCII_CLASS_HEX {
        is_hex(ch)
    } else if class_id == ASCII_CLASS_BASE58 {
        is_base58(ch)
    } else if class_id == ASCII_CLASS_LOWER {
        is_lower(ch)
    } else if class_id == ASCII_CLASS_UPPER {
        is_upper(ch)
    } else {
        false
    }
}

/// ASCII whitespace: space, tab, newline, carriage return.
pub fn ascii_ws(ch: u8) -> (r: bool)
    ensures
        r == is_ws(ch),
{
    ch == 0x20 || ch == 0x09 || ch == 0x0a || ch == 0x0d
}

/// Lowercase of an ASCII letter; other bytes unchanged.
pub fn ascii_to_lower(ch: u8) -> (r: u8)
    ensures
        r == lower_of(ch),
{
    if 0x41 <= ch && ch <= 0x5a { ch + 32 } else { ch }
}

/// Uppercase of an ASCII letter; other bytes unchanged.
pub fn ascii_to_upper(ch: u8) -> (r: u8)
    ensures
        r == upper_of(ch),
{
    if 0x61 <= ch && ch <= 0x7a { ch - 32 } else { ch }
}

/// Whether a byte is a base58 digit.
pub fn ascii_is_base58(ch: u8) -> (r: bool)
    ensures
        r == is_base58(ch),
{
    (0x31 <= ch && ch <= 0x39) || (0x41 <= ch && ch <= 0x48) || (0x4a <= ch && ch <= 0x4e)
        || (0x50 <= ch && ch <= 0x5a) || (0x61 <= ch && ch <= 0x6b) || (0x6d <= ch && ch <= 0x7a)
}

fn ascii_is_hex(ch: u8) -> (r: bool)
    ensures
        r == is_hex(ch),
{
    (0x30 <= ch && ch <= 0x39) || (0x61 <= ch && ch <= 0x66) || (0x41 <= ch && ch <= 0x46)
}

/// Whether byte `ch` is in class `class_id` (a valid id).
pub fn class_byte_has(class_id: u8, ch: u8) -> (r: bool)
    ensures
        r == class_has(class_id, ch),
{
    let digit = 0x30 <= ch && ch <= 0x39;
    let lower = 0x61 <= ch && ch <= 0x7a;
    let upper = 0x41 <= ch && ch <= 0x5a;
    if class_id == ASCII_CLASS_ALNUM {
        digit || lower || upper
    } else if class_id == ASCII_CLASS_IDENT {
        digit || lower || upper || ch == 0x5f
    } else if class_id == ASCII_CLASS_DEC {
        digit
    } else if class_id == ASCII_CLASS_HEX {
        ascii_is_hex(ch)
    } else if class_id == ASCII_CLASS_BASE58 {
        ascii_is_base58(ch)
    } else if class_id == ASCII_CLASS_LOWER {
        lower
    } else if class_id == ASCII_CLASS_UPPER {
        upper
    } else {
        false
    }
}

/// Check a character class id; an unknown id is an error.
pub fn class_byte_predicate(class_id: u8) -> (r: VmrtRes<u8>)
    ensures
        class_valid(class_id) ==> r == Ok::<u8, ItrErr>(class_id),
        !class_valid(class_id) ==> (r matches Err(e) && e.0 == ItrErrCode::NativeFuncError),
{
    if 1 <= class_id && class_id <= 7 {
        Ok(class_id)
    } else {
        Err(ItrErr::new(ItrErrCode::NativeFuncError, "unsupported ascii class"))
    }
}

/// A big-endian `u16` prefix and the bytes after it.
pub fn decode_prefixed_u16(buf: &[u8]) -> (r: VmrtRes<(u16, &[u8])>)
    ensures
        buf@.len() < 2 ==> (r matches Err(e) && e.0 == ItrErrCode::NativeFuncError),
        buf@.len() >= 2 ==> (r matches Ok(x) && x.0 == buf@[0] as int * 256 + buf@[1] && x.1@ == buf@.subrange(2, buf@.len() as int)),
{
    if buf.len() < 2 {
        return Err(ItrErr::new(ItrErrCode::NativeFuncError, "expects at least 2 bytes"));
    }
    let v: u16 = (buf[0] as u16) * 256 + buf[1] as u16;
    Ok((v, vstd::slice::slice_subrange(buf, 2, buf.len())))
}

/// Big-endian value of the first `n` bytes.
pub open spec fn be_value(s: Seq<u8>, n: nat) -> nat
    decreases n,
{
    if n == 0 { 0 } else { be_value(s, (n - 1) as nat) * 256 + s[n - 1] as nat }
}

/// A big-endian `u64` prefix and the bytes after it.
pub fn decode_prefixed_u64(buf: &[u8]) -> (r: VmrtRes<(u64, &[u8])>)
    ensures
        buf@.len() < 8 ==> (r matches Err(e) && e.0 == ItrErrCode::NativeFuncError),
        buf@.len() >= 8 ==> (r matches Ok(x) && x.0 == be_value(buf@, 8) && x.1@ == buf@.subrange(8, buf@.len() as int)),
{
    if buf.len() < 8 {
        return Err(ItrErr::new(ItrErrCode::NativeFuncError, "expects at least 8 bytes"));
    }
    let mut v: u64 = 0;
    let mut i: usize = 0;
    while i < 8
        invariant
            i <= 8,
            buf@.len() >= 8,
            v == be_value(buf@, i as nat),
            v < pow256(i as nat),
        decreases 8 - i,
    {
        proof {
            lemma_pow256_step(i as nat);
        }
        assert(v * 256 + buf@[i as int] < pow256((i + 1) as nat)) by (nonlinear_arith)
            requires
                v < pow256(i as nat),
                pow256((i + 1) as nat) == pow256(i as nat) * 256,
                buf@[i as int] < 256,
        ;
        assert(pow256(8) == 0x1_0000_0000_0000_0000) by {
            reveal_with_fuel(pow256, 9);
        }
        assert(pow256((i + 1) as nat) <= pow256(8)) by {
            lemma_pow256_mono((i + 1) as nat, 8);
        }
        v = v * 256 + buf[i] as u64;
        i = i + 1;
    }
    Ok((v, vstd::slice::slice_subrange(buf, 8, buf.len())))
}

pub open spec fn pow256(n: nat) -> nat
    decreases n,
{
    if n == 0 { 1 } else { pow256((n - 1) as nat) * 256 }
}

proof fn lemma_pow256_step(n: nat)
    ensures
        pow256(n + 1) == pow256(n) * 256,
{
}

proof fn lemma_pow256_mono(a: nat, b: nat)
    requires
        a <= b,
    ensures
        pow256(a) <= pow256(b),
    decreases b,
{
    if a < b {
        lemma_pow256_mono(a, (b - 1) as nat);
    }
}

/// Leading whitespace removed.
pub open spec fn trim_left(s: Seq<u8>) -> Seq<u8>
    decreases s.len(),
{
    if s.len() > 0 && is_ws(s[0]) { trim_left(s.drop_first()) } else { s }
}

/// Trailing whitespace removed.
pub open spec fn trim_right(s: Seq<u8>) -> Seq<u8>
    decreases s.len(),
{
    if s.len() > 0 && is_ws(s.last()) { trim_right(s.drop_last()) } else { s }
}

/// Whitespace removed at both ends.
pub open spec fn spec_trim(s: Seq<u8>) -> Seq<u8> {
    trim_right(trim_left(s))
}

/// The bytes with ASCII whitespace removed at both ends.
pub fn ascii_trim_range(buf: &[u8]) -> (r: &[u8])
    ensures
        r@ == spec_trim(buf@),
{
    let mut start: usize = 0;
    let mut end: usize = buf.len();
    assert(buf@.subrange(0, buf@.len() as int) =~= buf@);
    while start < end && ascii_ws(buf[start])
        invariant
            start <= end,
            end == buf@.len(),
            trim_left(buf@) == trim_left(buf@.subrange(start as int, end as int)),
        decreases end - start,
    {
        assert(buf@.subrange(start as int, end as int).drop_first() =~= buf@.subrange(start + 1, end as int));
        start = start + 1;
    }
    assert(trim_left(buf@.subrange(start as int, end as int)) == buf@.subrange(start as int, end as int));
    while end > start && ascii_ws(buf[end - 1])
        invariant
            start <= end <= buf@.len(),
            spec_trim(buf@) == trim_right(buf@.subrange(start as int, end as int)),
        decreases end - start,
    {
        assert(buf@.subrange(start as int, end as int).drop_last() =~= buf@.subrange(start as int, end - 1));
        end = end - 1;
    }
    assert(buf@.subrange(0, buf@.len() as int) =~= buf@);
    vstd::slice::slice_subrange(buf, start, end)
}

/// `(errno, bytes)`.
pub open spec fn errno_bytes(errno: u16, out: Seq<u8>) -> Val {
    Val::Tuple(seq![Val::U16(errno), Val::Bytes(out)])
}

/// `(errno, number)`.
pub open spec fn errno_u128(errno: u16, out: u128) -> Val {
    Val::Tuple(seq![Val::U16(errno), Val::U128(out)])
}

/// A tuple of values.
pub fn make_tuple(items: Vec<Value>) -> (r: VmrtRes<Value>)
    ensures
        r matches Ok(v) && v@ == crate::value::val_of(Value::Tuple(items)),
{
    Ok(Value::Tuple(items))
}

/// `(errno, bytes)` as a tuple value.
pub fn tuple_errno_bytes(errno: u16, out: Vec<u8>) -> (r: VmrtRes<Value>)
    ensures
        r matches Ok(v) && v@ == errno_bytes(errno, out@),
{
    let ghost o = out@;
    let mut items: Vec<Value> = Vec::new();
    items.push(Value::U16(errno));
    items.push(Value::Bytes(out));
    proof {
        lemma_seq_views(items);
        assert(vals_of(items@) =~= seq![Val::U16(errno), Val::Bytes(o)]);
    }
    Ok(Value::Tuple(items))
}

/// `(errno, empty bytes)` as a tuple value.
fn tuple_errno_empty(errno: u16) -> (r: VmrtRes<Value>)
    ensures
        r matches Ok(v) && v@ == errno_bytes(errno, Seq::empty()),
{
    let e: Vec<u8> = Vec::new();
    assert(e@ == Seq::<u8>::empty());
    tuple_errno_bytes(errno, e)
}

/// `(errno, number)` as a tuple value.
pub fn tuple_errno_u128(errno: u16, out: u128) -> (r: VmrtRes<Value>)
    ensures
        r matches Ok(v) && v@ == errno_u128(errno, out),
{
    let mut items: Vec<Value> = Vec::new();
    items.push(Value::U16(errno));
    items.push(Value::U128(out));
    proof {
        lemma_seq_views(items);
        assert(vals_of(items@) =~= seq![Val::U16(errno), Val::U128(out)]);
    }
    Ok(Value::Tuple(items))
}

/// Every byte lowercased.
pub fn lowercase_ascii_vec_in_place(buf: &mut Vec<u8>)
    ensures
        final(buf)@ == old(buf)@.map_values(|c: u8| lower_of(c)),
{
    let mut i: usize = 0;
    while i < buf.len()
        invariant
            i <= buf@.len(),
            buf@.len() == old(buf)@.len(),
            forall|j: int| 0 <= j < i ==> buf@[j] == lower_of(old(buf)@[j]),
            forall|j: int| i <= j < buf@.len() ==> buf@[j] == old(buf)@[j],
        decreases buf@.len() - i,
    {
        let c = ascii_to_lower(buf[i]);
        buf.set(i, c);
        i = i + 1;
    }
    assert(buf@ =~= old(buf)@.map_values(|c: u8| lower_of(c)));
}

/// The case transform of text validation: lower, upper, or none.
pub open spec fn case_of(ch: u8, to_lower: bool, to_upper: bool) -> u8 {
    if to_lower && !to_upper { lower_of(ch) } else if to_upper && !to_lower { upper_of(ch) } else { ch }
}

/// Every byte of `data` is in class `class_id`.
pub open spec fn all_in_class(class_id: u8, data: Seq<u8>) -> bool {
    forall|i: int| 0 <= i < data.len() ==> class_has(class_id, #[trigger] data[i])
}

/// `ascii_validate_transform`: a `u16` mode (class id in the low byte, flags
/// in the high byte) then the text. The text, trimmed if asked, must be
/// non-empty (unless allowed), `-` is the empty value (if allowed), every
/// byte must be in the class, and it comes back case-transformed if asked.
pub open spec fn spec_validate_transform(buf: Seq<u8>) -> Result<Val, ItrErrCode> {
    if buf.len() < 2 {
        Err(ItrErrCode::NativeFuncError)
    } else {
        let class_id = buf[1];
        let flags = buf[0];
        let trim = flags & TXT_FLAG_TRIM_ASCII_WS != 0;
        let allow_empty = flags & TXT_FLAG_ALLOW_EMPTY != 0;
        let allow_dash = flags & TXT_FLAG_ALLOW_DASH_AS_EMPTY != 0;
        let to_lower = flags & TXT_FLAG_TO_LOWER != 0;
        let to_upper = flags & TXT_FLAG_TO_UPPER != 0;
        let raw = buf.subrange(2, buf.len() as int);
        let data = if trim { spec_trim(raw) } else { raw };
        if to_lower && to_upper {
            Err(ItrErrCode::NativeFuncError)
        } else if data.len() == 0 {
            Ok(errno_bytes(if allow_empty { ASCII_ERR_OK } else { ASCII_ERR_EMPTY }, Seq::empty()))
        } else if data == seq![0x2du8] {
            Ok(errno_bytes(if allow_dash { ASCII_ERR_OK } else { ASCII_ERR_FORMAT }, Seq::empty()))
        } else if !class_valid(class_id) {
            Err(ItrErrCode::NativeFuncError)
        } else if !all_in_class(class_id, data) {
            Ok(errno_bytes(ASCII_ERR_INVALID_CHAR, Seq::empty()))
        } else {
            Ok(errno_bytes(ASCII_ERR_OK, data.map_values(|c: u8| case_of(c, to_lower, to_upper))))
        }
    }
}

/// Validate text against a character class and transform its case.
pub fn ascii_validate_transform(_hei: u64, buf: &[u8]) -> (r: VmrtRes<Value>)
    ensures
        crate::value::value_result(r, spec_validate_transform(buf@)),
{
    let (mode, raw) = decode_prefixed_u16(buf)?;
    let class_id = (mode % 256) as u8;
    let flags = (mode / 256) as u8;
    assert(flags == buf@[0] && class_id == buf@[1]);
    let trim = flags & TXT_FLAG_TRIM_ASCII_WS != 0;
    let allow_empty = flags & TXT_FLAG_ALLOW_EMPTY != 0;
    let allow_dash = flags & TXT_FLAG_ALLOW_DASH_AS_EMPTY != 0;
    let to_lower = flags & TXT_FLAG_TO_LOWER != 0;
    let to_upper = flags & TXT_FLAG_TO_UPPER != 0;
    if to_lower && to_upper {
        return Err(ItrErr::new(ItrErrCode::NativeFuncError, "lower and upper cannot both be enabled"));
    }
    let data = if trim { ascii_trim_range(raw) } else { raw };
    if data.len() == 0 {
        return tuple_errno_empty(if allow_empty { ASCII_ERR_OK } else { ASCII_ERR_EMPTY });
    }
    if data.len() == 1 && data[0] == 0x2d {
        assert(data@ =~= seq![0x2du8]);
        return tuple_errno_empty(if allow_dash { ASCII_ERR_OK } else { ASCII_ERR_FORMAT });
    }
    assert(data@ != seq![0x2du8]);
    let class_id = class_byte_predicate(class_id)?;
    let ghost expect: Result<Val, ItrErrCode> = if all_in_class(class_id, data@) {
        Ok(errno_bytes(ASCII_ERR_OK, data@.map_values(|c: u8| case_of(c, to_lower, to_upper))))
    } else {
        Ok(errno_bytes(ASCII_ERR_INVALID_CHAR, Seq::empty()))
    };
    assert(spec_validate_transform(buf@) == expect);
    let mut out: Vec<u8> = Vec::new();
    let mut i: usize = 0;
    while i < data.len()
        invariant
            i <= data@.len(),
            spec_validate_transform(buf@) == expect,
            expect == (if all_in_class(class_id, data@) {
                Ok::<Val, ItrErrCode>(errno_bytes(ASCII_ERR_OK, data@.map_values(|c: u8| case_of(c, to_lower, to_upper))))
            } else {
                Ok::<Val, ItrErrCode>(errno_bytes(ASCII_ERR_INVALID_CHAR, Seq::empty()))
            }),
            out@ == data@.subrange(0, i as int).map_values(|c: u8| case_of(c, to_lower, to_upper)),
            forall|j: int| 0 <= j < i ==> class_has(class_id, #[trigger] data@[j]),
        decreases data@.len() - i,
    {
        let ch = data[i];
        if !class_byte_has(class_id, ch) {
            assert(!class_has(class_id, data@[i as int]));
            assert(!all_in_class(class_id, data@));
            return tuple_errno_empty(ASCII_ERR_INVALID_CHAR);
        }
        let c = if to_lower && !to_upper {
            ascii_to_lower(ch)
        } else if to_upper && !to_lower {
            ascii_to_upper(ch)
        } else {
            ch
        };
        out.push(c);
        i = i + 1;
        assert(out@ =~= data@.subrange(0, i as int).map_values(|c: u8| case_of(c, to_lower, to_upper)));
    }
    assert(data@.subrange(0, data@.len() as int) =~= data@);
    tuple_errno_bytes(ASCII_ERR_OK, out)
}

/// The multiplier of a unit suffix enabled in `mask`, if any.
pub open spec fn unit_factor(ch: u8, mask: u8) -> Option<u128> {
    if ch == 0x68 && mask & DEC_UNIT_H100 != 0 {
        Some(100u128)
    } else if ch == 0x6b && mask & DEC_UNIT_K1E3 != 0 {
        Some(1_000u128)
    } else if ch == 0x6d && mask & DEC_UNIT_M1E6 != 0 {
        Some(1_000_000u128)
    } else if ch == 0x62 && mask & DEC_UNIT_B1E9 != 0 {
        Some(1_000_000_000u128)
    } else if ch == 0x74 && mask & DEC_UNIT_T1E12 != 0 {
        Some(1_000_000_000_000u128)
    } else {
        None
    }
}

/// Scanning a decimal number with unit suffixes, after `n` bytes: the digits'
/// value, the product of the suffixes, whether a digit was seen and whether
/// suffixes began; or the errno that stopped it.
pub open spec fn dec_scan(data: Seq<u8>, n: nat, fold: bool, mask: u8) -> Result<(int, int, bool, bool), u16>
    decreases n,
{
    if n == 0 {
        Ok((0, 1, false, false))
    } else {
        match dec_scan(data, (n - 1) as nat, fold, mask) {
            Err(e) => Err(e),
            Ok((num, mul, seen, suffix)) => {
                let ch = if fold { lower_of(data[n - 1]) } else { data[n - 1] };
                if is_digit(ch) {
                    if suffix {
                        Err(ASCII_ERR_FORMAT)
                    } else if num * 10 + (ch - 0x30) > u128::MAX {
                        Err(ASCII_ERR_OVERFLOW)
                    } else {
                        Ok((num * 10 + (ch - 0x30), mul, true, false))
                    }
                } else {
                    match unit_factor(ch, mask) {
                        None => Err(ASCII_ERR_FORMAT),
                        Some(f) => if mul * f > u128::MAX { Err(ASCII_ERR_OVERFLOW) } else { Ok((num, mul * f, seen, true)) },
                    }
                }
            },
        }
    }
}

/// `ascii_u128_dec_unit`: a `u16` mode (unit mask in the low byte, flags in
/// the high byte) then the text: digits, then optional unit suffixes that
/// multiply the value; the result must fit `u128`.
pub open spec fn spec_dec_unit(buf: Seq<u8>) -> Result<Val, ItrErrCode> {
    if buf.len() < 2 {
        Err(ItrErrCode::NativeFuncError)
    } else {
        let flags = buf[0];
        let mask = buf[1];
        let trim = flags & DEC_FLAG_TRIM_ASCII_WS != 0;
        let allow_empty = flags & DEC_FLAG_ALLOW_EMPTY_AS_ZERO != 0;
        let allow_dash = flags & DEC_FLAG_ALLOW_DASH_AS_ZERO != 0;
        let fold = flags & DEC_FLAG_SUFFIX_CASE_INSENSITIVE != 0;
        let raw = buf.subrange(2, buf.len() as int);
        let data = if trim { spec_trim(raw) } else { raw };
        if data.len() == 0 {
            Ok(errno_u128(if allow_empty { ASCII_ERR_OK } else { ASCII_ERR_FORMAT }, 0))
        } else if data == seq![0x2du8] {
            Ok(errno_u128(if allow_dash { ASCII_ERR_OK } else { ASCII_ERR_FORMAT }, 0))
        } else {
            Ok(spec_dec_body(data, fold, mask))
        }
    }
}

/// The decimal scan of non-empty text to its `(errno, value)`.
pub open spec fn spec_dec_body(data: Seq<u8>, fold: bool, mask: u8) -> Val {
    match dec_scan(data, data.len(), fold, mask) {
        Err(e) => errno_u128(e, 0),
        Ok((num, mul, seen, _)) => {
            if !seen {
                errno_u128(ASCII_ERR_FORMAT, 0)
            } else if num * mul > u128::MAX {
                errno_u128(ASCII_ERR_OVERFLOW, 0)
            } else {
                errno_u128(ASCII_ERR_OK, (num * mul) as u128)
            }
        },
    }
}

proof fn lemma_dec_scan_bounds(data: Seq<u8>, n: nat, fold: bool, mask: u8)
    ensures
        dec_scan(data, n, fold, mask) matches Ok((num, mul, _, _)) ==> 0 <= num <= u128::MAX && 1 <= mul <= u128::MAX,
    decreases n,
{
    if n > 0 {
        lemma_dec_scan_bounds(data, (n - 1) as nat, fold, mask);
        match dec_scan(data, (n - 1) as nat, fold, mask) {
            Ok((num, mul, seen, suffix)) => {
                let ch = if fold { lower_of(data[n - 1]) } else { data[n - 1] };
                match unit_factor(ch, mask) {
                    Some(f) => {
                        assert(mul * f >= 1) by (nonlinear_arith)
                            requires
                                mul >= 1,
                                f >= 1,
                        ;
                    },
                    None => {},
                }
            },
            Err(_) => {},
        }
    }
}

proof fn lemma_dec_scan_err(data: Seq<u8>, n: nat, m: nat, fold: bool, mask: u8)
    requires
        n <= m,
        dec_scan(data, n, fold, mask) is Err,
    ensures
        dec_scan(data, m, fold, mask) == dec_scan(data, n, fold, mask),
    decreases m,
{
    if m > n {
        lemma_dec_scan_err(data, n, (m - 1) as nat, fold, mask);
    }
}

fn unit_factor_exec(ch: u8, mask: u8) -> (r: Option<u128>)
    ensures
        r == unit_factor(ch, mask),
{
    if ch == 0x68 && mask & DEC_UNIT_H100 != 0 {
        Some(100u128)
    } else if ch == 0x6b && mask & DEC_UNIT_K1E3 != 0 {
        Some(1_000u128)
    } else if ch == 0x6d && mask & DEC_UNIT_M1E6 != 0 {
        Some(1_000_000u128)
    } else if ch == 0x62 && mask & DEC_UNIT_B1E9 != 0 {
        Some(1_000_000_000u128)
    } else if ch == 0x74 && mask & DEC_UNIT_T1E12 != 0 {
        Some(1_000_000_000_000u128)
    } else {
        None
    }
}

/// Parse a decimal `u128` with optional unit suffixes.
pub fn ascii_u128_dec_unit(_hei: u64, buf: &[u8]) -> (r: VmrtRes<Value>)
    ensures
        crate::value::value_result(r, spec_dec_unit(buf@)),
{
    let (mode, raw) = decode_prefixed_u16(buf)?;
    let flags = (mode / 256) as u8;
    let unit_mask = (mode % 256) as u8;
    assert(flags == buf@[0] && unit_mask == buf@[1]);
    let trim = flags & DEC_FLAG_TRIM_ASCII_WS != 0;
    let allow_empty = flags & DEC_FLAG_ALLOW_EMPTY_AS_ZERO != 0;
    let allow_dash = flags & DEC_FLAG_ALLOW_DASH_AS_ZERO != 0;
    let case_fold = flags & DEC_FLAG_SUFFIX_CASE_INSENSITIVE != 0;
    let data = if trim { ascii_trim_range(raw) } else { raw };
    if data.len() == 0 {
        return tuple_errno_u128(if allow_empty { ASCII_ERR_OK } else { ASCII_ERR_FORMAT }, 0);
    }
    if data.len() == 1 && data[0] == 0x2d {
        assert(data@ =~= seq![0x2du8]);
        return tuple_errno_u128(if allow_dash { ASCII_ERR_OK } else { ASCII_ERR_FORMAT }, 0);
    }
    assert(data@ != seq![0x2du8]);
    assert(spec_dec_unit(buf@) == Ok::<Val, ItrErrCode>(spec_dec_body(data@, case_fold, unit_mask)));
    let mut num: u128 = 0;
    let mut mul: u128 = 1;
    let mut seen_digit = false;
    let mut in_suffix = false;
    let mut i: usize = 0;
    while i < data.len()
        invariant
            i <= data@.len(),
            spec_dec_unit(buf@) == Ok::<Val, ItrErrCode>(spec_dec_body(data@, case_fold, unit_mask)),
            dec_scan(data@, i as nat, case_fold, unit_mask) == Ok::<(int, int, bool, bool), u16>((num as int, mul as int, seen_digit, in_suffix)),
        decreases data@.len() - i,
    {
        let raw_ch = data[i];
        let ch = if case_fold { ascii_to_lower(raw_ch) } else { raw_ch };
        proof {
            if dec_scan(data@, (i + 1) as nat, case_fold, unit_mask) is Err {
                lemma_dec_scan_err(data@, (i + 1) as nat, data@.len(), case_fold, unit_mask);
            }
        }
        if 0x30 <= ch && ch <= 0x39 {
            if in_suffix {
                assert(dec_scan(data@, (i + 1) as nat, case_fold, unit_mask) == Err::<(int, int, bool, bool), u16>(ASCII_ERR_FORMAT));
                assert(dec_scan(data@, data@.len(), case_fold, unit_mask) == Err::<(int, int, bool, bool), u16>(ASCII_ERR_FORMAT));
                return tuple_errno_u128(ASCII_ERR_FORMAT, 0);
            }
            seen_digit = true;
            let digit = (ch - 0x30) as u128;
            let m = num.checked_mul(10);
            let next = match m {
                Some(x) => x.checked_add(digit),
                None => None,
            };
            match next {
                Some(v) => {
                    num = v;
                },
                None => {
                    return tuple_errno_u128(ASCII_ERR_OVERFLOW, 0);
                },
            }
            i = i + 1;
            continue;
        }
        in_suffix = true;
        let factor = match unit_factor_exec(ch, unit_mask) {
            Some(f) => f,
            None => {
                return tuple_errno_u128(ASCII_ERR_FORMAT, 0);
            },
        };
        match mul.checked_mul(factor) {
            Some(v) => {
                mul = v;
            },
            None => {
                return tuple_errno_u128(ASCII_ERR_OVERFLOW, 0);
            },
        }
        i = i + 1;
    }
    if !seen_digit {
        return tuple_errno_u128(ASCII_ERR_FORMAT, 0);
    }
    match num.checked_mul(mul) {
        Some(v) => tuple_errno_u128(ASCII_ERR_OK, v),
        None => tuple_errno_u128(ASCII_ERR_OVERFLOW, 0),
    }
}

/// Every byte of `buf` is a hex digit once lowercased.
pub open spec fn all_hex(buf: Seq<u8>) -> bool {
    forall|i: int| 0 <= i < buf.len() ==> is_hex(lower_of(#[trigger] buf[i]))
}

/// `ascii_hex_lower`: an even number of hex digits, lowercased.
pub open spec fn spec_hex_lower(buf: Seq<u8>) -> Val {
    if buf.len() % 2 != 0 {
        errno_bytes(ASCII_ERR_HEX_ODD, Seq::empty())
    } else if !all_hex(buf) {
        errno_bytes(ASCII_ERR_INVALID_CHAR, Seq::empty())
    } else {
        errno_bytes(ASCII_ERR_OK, buf.map_values(|c: u8| lower_of(c)))
    }
}

/// Check hex text and lowercase it.
pub fn ascii_hex_lower(_hei: u64, buf: &[u8]) -> (r: VmrtRes<Value>)
    ensures
        r matches Ok(v) && v@ == spec_hex_lower(buf@),
{
    if buf.len() % 2 != 0 {
        return tuple_errno_empty(ASCII_ERR_HEX_ODD);
    }
    let mut out: Vec<u8> = Vec::new();
    let mut i: usize = 0;
    while i < buf.len()
        invariant
            i <= buf@.len(),
            buf@.len() % 2 == 0,
            out@ == buf@.subrange(0, i as int).map_values(|c: u8| lower_of(c)),
            forall|j: int| 0 <= j < i ==> is_hex(lower_of(#[trigger] buf@[j])),
        decreases buf@.len() - i,
    {
        let lowered = ascii_to_lower(buf[i]);
        if !ascii_is_hex(lowered) {
            assert(!is_hex(lower_of(buf@[i as int])));
            assert(!all_hex(buf@));
            return tuple_errno_empty(ASCII_ERR_INVALID_CHAR);
        }
        out.push(lowered);
        i = i + 1;
        assert(out@ =~= buf@.subrange(0, i as int).map_values(|c: u8| lower_of(c)));
    }
    assert(buf@.subrange(0, buf@.len() as int) =~= buf@);
    tuple_errno_bytes(ASCII_ERR_OK, out)
}

/// `ascii_base58_validate_or_echo`: base58 text echoed back.
pub open spec fn spec_base58_echo(buf: Seq<u8>) -> Val {
    if exists|i: int| 0 <= i < buf.len() && !is_base58(#[trigger] buf[i]) {
        errno_bytes(ASCII_ERR_INVALID_CHAR, Seq::empty())
    } else {
        errno_bytes(ASCII_ERR_OK, buf)
    }
}

/// Check base58 text and echo it.
pub fn ascii_base58_validate_or_echo(_hei: u64, buf: &[u8]) -> (r: VmrtRes<Value>)
    ensures
        r matches Ok(v) && v@ == spec_base58_echo(buf@),
{
    let mut i: usize = 0;
    while i < buf.len()
        invariant
            i <= buf@.len(),
            forall|j: int| 0 <= j < i ==> is_base58(#[trigger] buf@[j]),
        decreases buf@.len() - i,
    {
        if !ascii_is_base58(buf[i]) {
            return tuple_errno_empty(ASCII_ERR_INVALID_CHAR);
        }
        i = i + 1;
    }
    let out = vstd::slice::slice_to_vec(buf);
    tuple_errno_bytes(ASCII_ERR_OK, out)
}


/// A double-quoted value from `i` on, its opening quote already read: `\"`
/// and `\\` are the only escapes; the result is the unescaped bytes and the
/// position after the closing quote.
pub open spec fn quoted_from(raw: Seq<u8>, i: int, out: Seq<u8>) -> Result<(Seq<u8>, int), u16>
    decreases raw.len() - i,
{
    if i < 0 || i >= raw.len() {
        Err(ASCII_ERR_FORMAT)
    } else if raw[i] == 34 {
        Ok((out, i + 1))
    } else if raw[i] == 92 {
        if i + 1 >= raw.len() {
            Err(ASCII_ERR_FORMAT)
        } else if raw[i + 1] == 34 || raw[i + 1] == 92 {
            quoted_from(raw, i + 2, out.push(raw[i + 1]))
        } else {
            Err(ASCII_ERR_FORMAT)
        }
    } else {
        quoted_from(raw, i + 1, out.push(raw[i]))
    }
}

/// A double-quoted value starting at `start`.
pub open spec fn spec_parse_quoted(raw: Seq<u8>, start: int) -> Result<(Seq<u8>, int), u16> {
    if start >= raw.len() || raw[start] != 34 {
        Err(ASCII_ERR_FORMAT)
    } else {
        quoted_from(raw, start + 1, Seq::empty())
    }
}

/// Read a double-quoted value at `start`: the unescaped bytes and the position
/// after the closing quote, or `ASCII_ERR_FORMAT`.
pub fn parse_quoted_ascii_value(raw: &[u8], start: usize) -> (r: Result<(Vec<u8>, usize), u16>)
    ensures
        match spec_parse_quoted(raw@, start as int) {
            Ok((v, next)) => r matches Ok((o, n)) && o@ == v && n == next,
            Err(e) => r == Err::<(Vec<u8>, usize), u16>(e),
        },
{
    if start >= raw.len() || raw[start] != 34 {
        return Err(ASCII_ERR_FORMAT);
    }
    let ghost target = spec_parse_quoted(raw@, start as int);
    let mut i = start + 1;
    let mut out: Vec<u8> = Vec::new();
    while i < raw.len()
        invariant
            start < i <= raw@.len(),
            quoted_from(raw@, i as int, out@) == target,
            target == spec_parse_quoted(raw@, start as int),
        decreases raw@.len() - i,
    {
        let b = raw[i];
        if b == 34 {
            return Ok((out, i + 1));
        } else if b == 92 {
            if i + 1 >= raw.len() {
                return Err(ASCII_ERR_FORMAT);
            }
            let e = raw[i + 1];
            if e == 34 || e == 92 {
                out.push(e);
                i = i + 2;
            } else {
                return Err(ASCII_ERR_FORMAT);
            }
        } else {
            out.push(b);
            i = i + 1;
        }
    }
    Err(ASCII_ERR_FORMAT)
}


/// Lowercasing hex text is idempotent: text that `ascii_hex_lower` accepts
/// comes back lowercased, and that result is accepted again unchanged.
pub proof fn lemma_hex_lower_idempotent(buf: Seq<u8>)
    requires
        buf.len() % 2 == 0,
        all_hex(buf),
    ensures
        spec_hex_lower(buf) == errno_bytes(ASCII_ERR_OK, buf.map_values(|c: u8| lower_of(c))),
        spec_hex_lower(buf.map_values(|c: u8| lower_of(c))) == spec_hex_lower(buf),
{
    let out = buf.map_values(|c: u8| lower_of(c));
    assert forall|i: int| 0 <= i < out.len() implies is_hex(lower_of(#[trigger] out[i])) by {
        assert(is_hex(lower_of(buf[i])));
    }
    assert(out.map_values(|c: u8| lower_of(c)) =~= out);
}

/// The decimal value of ASCII digits.
pub open spec fn digits_value(d: Seq<u8>) -> int
    decreases d.len(),
{
    if d.len() == 0 {
        0
    } else {
        digits_value(d.drop_last()) * 10 + (d.last() - 0x30)
    }
}

/// A scan over the first `k` bytes reads only those bytes.
proof fn lemma_dec_scan_prefix(d: Seq<u8>, u: u8, k: nat, fold: bool, mask: u8)
    requires
        k <= d.len(),
    ensures
        dec_scan(d.push(u), k, fold, mask) == dec_scan(d, k, fold, mask),
    decreases k,
{
    if k > 0 {
        lemma_dec_scan_prefix(d, u, (k - 1) as nat, fold, mask);
        assert(d.push(u)[k - 1] == d[k - 1]);
    }
}

/// Digits scan to their decimal value, with no scale yet.
proof fn lemma_dec_scan_digits(d: Seq<u8>, fold: bool, mask: u8)
    requires
        forall|i: int| 0 <= i < d.len() ==> is_digit(#[trigger] d[i]),
        digits_value(d) <= u128::MAX,
    ensures
        dec_scan(d, d.len(), fold, mask) == Ok::<(int, int, bool, bool), u16>((digits_value(d), 1, d.len() > 0, false)),
        digits_value(d) >= 0,
    decreases d.len(),
{
    if d.len() > 0 {
        let e = d.drop_last();
        assert forall|i: int| 0 <= i < e.len() implies is_digit(#[trigger] e[i]) by {
            assert(e[i] == d[i]);
        }
        assert(is_digit(d[d.len() - 1]));
        assert(digits_value(e) <= u128::MAX) by {
            if digits_value(e) > u128::MAX {
                lemma_digits_value_nonneg(e);
                assert(digits_value(e) * 10 + (d.last() - 0x30) > u128::MAX) by (nonlinear_arith)
                    requires
                        digits_value(e) > u128::MAX,
                        d.last() >= 0x30;
            }
        }
        lemma_dec_scan_digits(e, fold, mask);
        lemma_dec_scan_prefix(e, d.last(), e.len(), fold, mask);
        assert(e.push(d.last()) =~= d);
    }
}

proof fn lemma_digits_value_nonneg(d: Seq<u8>)
    requires
        forall|i: int| 0 <= i < d.len() ==> is_digit(#[trigger] d[i]),
    ensures
        digits_value(d) >= 0,
    decreases d.len(),
{
    if d.len() > 0 {
        let e = d.drop_last();
        assert forall|i: int| 0 <= i < e.len() implies is_digit(#[trigger] e[i]) by {
            assert(e[i] == d[i]);
        }
        assert(is_digit(d[d.len() - 1]));
        lemma_digits_value_nonneg(e);
    }
}

/// A unit suffix scales the number before it: decimal digits followed by an
/// enabled suffix letter parse to the digits' value times the suffix's
/// scale, `h` a hundred, `k` a thousand, `m` a million, `b` a billion
/// (10^9) and `t` a trillion (10^12), when the product fits `u128`.
#[verifier::spinoff_prover]
pub proof fn lemma_unit_suffix_scales(flags: u8, mask: u8, d: Seq<u8>, u: u8, scale: int)
    requires
        flags & DEC_FLAG_TRIM_ASCII_WS == 0,
        d.len() > 0,
        forall|i: int| 0 <= i < d.len() ==> is_digit(#[trigger] d[i]),
        (u == 0x68 && scale == 100 && mask & DEC_UNIT_H100 != 0)
            || (u == 0x6b && scale == 1_000 && mask & DEC_UNIT_K1E3 != 0)
            || (u == 0x6d && scale == 1_000_000 && mask & DEC_UNIT_M1E6 != 0)
            || (u == 0x62 && scale == 1_000_000_000 && mask & DEC_UNIT_B1E9 != 0)
            || (u == 0x74 && scale == 1_000_000_000_000 && mask & DEC_UNIT_T1E12 != 0),
        digits_value(d) * scale <= u128::MAX,
    ensures
        spec_dec_unit(seq![flags, mask] + d.push(u)) == Ok::<Val, ItrErrCode>(errno_u128(ASCII_ERR_OK, (digits_value(d) * scale) as u128)),
{
    let buf = seq![flags, mask] + d.push(u);
    let data = d.push(u);
    assert(buf.subrange(2, buf.len() as int) =~= data);
    assert(buf[0] == flags && buf[1] == mask);
    lemma_digits_value_nonneg(d);
    assert(digits_value(d) <= u128::MAX) by (nonlinear_arith)
        requires
            digits_value(d) * scale <= u128::MAX,
            scale >= 1,
            digits_value(d) >= 0;
    lemma_dec_scan_digits(d, flags & DEC_FLAG_SUFFIX_CASE_INSENSITIVE != 0, mask);
    lemma_dec_scan_prefix(d, u, d.len(), flags & DEC_FLAG_SUFFIX_CASE_INSENSITIVE != 0, mask);
    let fold = flags & DEC_FLAG_SUFFIX_CASE_INSENSITIVE != 0;
    let v = digits_value(d);
    assert(data[data.len() - 1] == u);
    assert(data.len() >= 2);
    assert(data != seq![0x2du8]) by {
        assert(data.len() != seq![0x2du8].len());
    }
    assert(unit_factor(u, mask) == Some(scale as u128));
    assert(!is_digit(u) && lower_of(u) == u);
    assert(dec_scan(data, (data.len() - 1) as nat, fold, mask) == Ok::<(int, int, bool, bool), u16>((v, 1, true, false)));
    let n = data.len();
    let ch = if fold { lower_of(data[n - 1]) } else { data[n - 1] };
    assert(ch == u);
    assert(unit_factor(ch, mask) == Some(scale as u128));
    assert((scale as u128) as int == scale);
    assert(1 * scale == scale);
    assert(dec_scan(data, n, fold, mask) == Ok::<(int, int, bool, bool), u16>((v, scale, true, true)));
    assert(v * scale <= u128::MAX);
    assert(spec_dec_body(data, fold, mask) == errno_u128(ASCII_ERR_OK, (v * scale) as u128));
}

} // verus!
