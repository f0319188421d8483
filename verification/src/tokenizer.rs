//! The tokenizer of the contract language: source bytes to tokens.
//!
//! Each byte has a class (blank, word, number, string, split, symbol); bytes
//! of one class gather into a token, which is converted when a byte of
//! another class, a blank or a split ends it. A token still open when the
//! text ends is not emitted.

use vstd::prelude::*;
use crate::error::{ItrErr, ItrErrCode, VmrtErr, VmrtRes};
use crate::lang::{KwTy, OpTy, TokenType, spec_kw_named, spec_op_named};
use crate::value::{be_bytes, uint_be_bytes};

verus! {

/// A token of the contract language.
#[derive(Debug, PartialEq, Eq)]
pub enum Token {
    Keyword(KwTy),
    Operator(OpTy),
    Partition(char),
    Identifier(String),
    Integer(u128),
    Bytes(Vec<u8>),
}

/// The model of a token.
pub enum TokenView {
    Keyword(KwTy),
    Operator(OpTy),
    Partition(char),
    Identifier(Seq<char>),
    Integer(u128),
    Bytes(Seq<u8>),
}

impl View for Token {
    type V = TokenView;

    open spec fn view(&self) -> TokenView {
        match self {
            Token::Keyword(k) => TokenView::Keyword(*k),
            Token::Operator(o) => TokenView::Operator(*o),
            Token::Partition(c) => TokenView::Partition(*c),
            Token::Identifier(s) => TokenView::Identifier(s@),
            Token::Integer(n) => TokenView::Integer(*n),
            Token::Bytes(b) => TokenView::Bytes(b@),
        }
    }
}

/// The models of a list of tokens.
pub open spec fn tokens_view(v: Seq<Token>) -> Seq<TokenView> {
    Seq::new(v.len(), |i: int| v[i]@)
}

/// The characters of ASCII bytes.
pub open spec fn str_of(s: Seq<u8>) -> Seq<char> {
    Seq::new(s.len(), |i: int| s[i] as char)
}

pub open spec fn is_dec_digit(c: u8) -> bool {
    48 <= c <= 57
}

pub open spec fn is_letter(c: u8) -> bool {
    (65 <= c <= 90) || (97 <= c <= 122)
}

/// The class of a source byte; `None` for a byte the language does not use.
pub open spec fn char_class(c: u8) -> Option<TokenType> {
    if c == 32 || c == 44 || c == 59 || c == 10 || c == 13 || c == 9 {
        Some(TokenType::Blank)
    } else if c == 95 || c == 36 || is_letter(c) {
        Some(TokenType::Word)
    } else if is_dec_digit(c) {
        Some(TokenType::Number)
    } else if c == 40 || c == 41 || c == 123 || c == 125 || c == 91 || c == 93 {
        Some(TokenType::Split)
    } else if c == 43 || c == 45 || c == 42 || c == 47 || c == 61 || c == 33 || c == 46 || c == 58
        || c == 62 || c == 60 || c == 124 || c == 38 || c == 37 || c == 94 {
        Some(TokenType::Symbol)
    } else if c == 34 || c == 92 {
        Some(TokenType::Str)
    } else {
        None
    }
}

/// The byte an escape `\c` stands for inside a string.
pub open spec fn unescape(c: u8) -> u8 {
    if c == 116 {
        9
    } else if c == 110 {
        10
    } else if c == 114 {
        13
    } else {
        c
    }
}

/// A hex digit.
pub open spec fn is_hex_digit(c: u8) -> bool {
    is_dec_digit(c) || (65 <= c <= 70) || (97 <= c <= 102)
}

/// The value of a hex digit.
pub open spec fn hex_val(c: u8) -> int {
    if is_dec_digit(c) {
        c - 48
    } else if 65 <= c <= 70 {
        c - 55
    } else {
        c - 87
    }
}

/// Hex text decoded: an even number of hex digits, two per byte, high digit
/// first.
pub open spec fn spec_hex_decode(d: Seq<u8>) -> Option<Seq<u8>> {
    if d.len() % 2 == 0 && forall|i: int| 0 <= i < d.len() ==> is_hex_digit(#[trigger] d[i]) {
        Some(Seq::new(d.len() / 2, |i: int| (hex_val(d[2 * i]) * 16 + hex_val(d[2 * i + 1])) as u8))
    } else {
        None
    }
}

#[verifier::external_type_specification]
#[verifier::external_body]
pub struct ExFromHexError(hex::FromHexError);

/// Calls `hex::decode`, which accepts exactly an even number of hex digits in
/// either case and gives one byte per pair, high digit first; any other input
/// is an error.
#[verifier::external_body]
fn hex_decode(data: &[u8]) -> (r: Result<Vec<u8>, hex::FromHexError>)
    ensures
        match spec_hex_decode(data@) {
            Some(b) => r matches Ok(v) && v@ == b,
            None => r is Err,
        },
{
    hex::decode(data)
}

/// Value of a string of digits in a radix, most significant first.
pub open spec fn digits_value(d: Seq<u8>, radix: nat) -> nat
    decreases d.len(),
{
    if d.len() == 0 {
        0
    } else {
        digits_value(d.drop_last(), radix) * radix + (d.last() - 48) as nat
    }
}

pub open spec fn all_digits(d: Seq<u8>, radix: nat) -> bool {
    forall|i: int| 0 <= i < d.len() ==> 48 <= #[trigger] d[i] < 48 + radix
}

/// An unsigned 128-bit number in a radix of at most ten: an optional `+`,
/// then at least one digit; `None` for anything else or a value too large.
pub open spec fn spec_from_radix(v: Seq<u8>, radix: nat) -> Option<u128> {
    if v.len() == 0 {
        None
    } else {
        let d = if v[0] == 43 { v.drop_first() } else { v };
        if d.len() > 0 && all_digits(d, radix) && digits_value(d, radix) <= u128::MAX {
            Some(digits_value(d, radix) as u128)
        } else {
            None
        }
    }
}

/// The outcome of converting one token's text.
pub enum Conv {
    Tok(TokenView),
    Fail,
    /// A binary literal longer than 128 digits that still parses: the slice of
    /// its 16 bytes cannot be taken.
    Panic,
}

/// A number token: `0x` hex bytes; `0b` binary bytes (also any token of ten
/// or more characters, its first two dropped), whole bytes only; otherwise a
/// decimal integer.
pub open spec fn spec_num_or_bytes(s: Seq<u8>) -> Conv {
    if s.len() >= 2 && s[0] == 48 && s[1] == 120 {
        match spec_hex_decode(s.subrange(2, s.len() as int)) {
            Some(b) => Conv::Tok(TokenView::Bytes(b)),
            None => Conv::Fail,
        }
    } else if (s.len() >= 2 && s[0] == 48 && s[1] == 98) || s.len() >= 10 {
        let v = s.subrange(2, s.len() as int);
        if v.len() % 8 != 0 {
            Conv::Fail
        } else {
            let n = v.len() / 8;
            match spec_from_radix(v, 2) {
                Some(d) => if n > 16 {
                    Conv::Panic
                } else {
                    Conv::Tok(TokenView::Bytes(be_bytes(d as nat, 16).subrange(16 - n, 16)))
                },
                None => Conv::Fail,
            }
        }
    } else {
        match spec_from_radix(s, 10) {
            Some(u) => Conv::Tok(TokenView::Integer(u)),
            None => Conv::Fail,
        }
    }
}

/// Convert a token's text by its first byte: a number, a keyword or else an
/// identifier, a quoted string's bytes, a bracket, or a keyword or else an
/// operator.
pub open spec fn spec_conv(s: Seq<u8>) -> Conv {
    let c = s[0];
    if is_dec_digit(c) {
        spec_num_or_bytes(s)
    } else if c == 95 || c == 36 || is_letter(c) {
        match spec_kw_named(str_of(s)) {
            Some(k) => Conv::Tok(TokenView::Keyword(k)),
            None => Conv::Tok(TokenView::Identifier(str_of(s))),
        }
    } else if c == 34 {
        let d = s.drop_first();
        Conv::Tok(TokenView::Bytes(if d.len() > 0 { d.drop_last() } else { d }))
    } else if c == 123 || c == 125 || c == 40 || c == 41 || c == 91 || c == 93 {
        Conv::Tok(TokenView::Partition(c as char))
    } else {
        match spec_kw_named(str_of(s)) {
            Some(k) => Conv::Tok(TokenView::Keyword(k)),
            None => match spec_op_named(str_of(s)) {
                Some(o) => Conv::Tok(TokenView::Operator(o)),
                None => Conv::Fail,
            },
        }
    }
}

/// The tokenizer's state: the class of the open token, its bytes, the tokens
/// emitted so far; or how it stopped.
pub enum Lexed {
    Going(TokenType, Seq<u8>, Seq<TokenView>),
    Failed,
    Panicked,
}

/// Emit the converted open token (if any), then go on in `ty` with `tk` open.
pub open spec fn emit(s: Seq<u8>, toks: Seq<TokenView>, ty: TokenType, tk: Seq<u8>) -> Lexed {
    if s.len() == 0 {
        Lexed::Going(ty, tk, toks)
    } else {
        match spec_conv(s) {
            Conv::Tok(t) => Lexed::Going(ty, tk, toks.push(t)),
            Conv::Fail => Lexed::Failed,
            Conv::Panic => Lexed::Panicked,
        }
    }
}

/// One byte `c` of class `t` fed to the tokenizer.
pub open spec fn spec_push(ty: TokenType, tk: Seq<u8>, toks: Seq<TokenView>, t: TokenType, c: u8) -> Lexed {
    if ty == TokenType::StrEsc {
        Lexed::Going(TokenType::Str, tk.push(unescape(c)), toks)
    } else if ty == TokenType::Str && c == 92 {
        Lexed::Going(TokenType::StrEsc, tk, toks)
    } else if ty == TokenType::Str || t == TokenType::Str {
        if ty == TokenType::Str && c == 34 {
            emit(tk.push(c), toks, TokenType::Blank, Seq::empty())
        } else {
            Lexed::Going(TokenType::Str, tk.push(c), toks)
        }
    } else if t == TokenType::Blank || t == TokenType::Split {
        if t == TokenType::Split {
            match emit(tk, toks, ty, Seq::empty()) {
                Lexed::Going(_, _, toks2) => emit(seq![c], toks2, ty, Seq::empty()),
                other => other,
            }
        } else {
            emit(tk, toks, ty, Seq::empty())
        }
    } else if (ty == TokenType::Number && (c == 120 || c == 98 || c == 46)) || (ty == TokenType::Word && is_dec_digit(c)) || t == ty {
        Lexed::Going(ty, tk.push(c), toks)
    } else {
        emit(tk, toks, t, seq![c])
    }
}

/// The tokenizer run over `texts` from position `i`.
#[verifier::opaque]
pub open spec fn spec_lex_from(texts: Seq<u8>, i: int, st: Lexed) -> Lexed
    decreases texts.len() - i,
{
    if i < 0 || i >= texts.len() {
        st
    } else {
        match st {
            Lexed::Going(ty, tk, toks) => {
                let c = texts[i];
                let next = match char_class(c) {
                    None => Lexed::Failed,
                    Some(t) => spec_push(ty, tk, toks, t, c),
                };
                spec_lex_from(texts, i + 1, next)
            },
            _ => st,
        }
    }
}

/// The tokens of a text.
pub open spec fn spec_tokenize(texts: Seq<u8>) -> Lexed {
    spec_lex_from(texts, 0, Lexed::Going(TokenType::Blank, Seq::empty(), Seq::empty()))
}

/// The run takes the next byte when the tokenizer is going.
proof fn lemma_lex_step(texts: Seq<u8>, i: int, ty: TokenType, tk: Seq<u8>, toks: Seq<TokenView>)
    requires
        0 <= i < texts.len(),
    ensures
        spec_lex_from(texts, i, Lexed::Going(ty, tk, toks)) == spec_lex_from(
            texts,
            i + 1,
            match char_class(texts[i]) {
                None => Lexed::Failed,
                Some(t) => spec_push(ty, tk, toks, t, texts[i]),
            },
        ),
{
    reveal(spec_lex_from);
}

/// Inside a string literal, a backslash and the byte after it put one byte
/// into the literal: `\n` a newline (10), `\t` a tab (9), `\r` a carriage
/// return (13), and any other escaped byte itself (so `\"` a quote and
/// `\\` a backslash); the literal stays open after it.
pub proof fn lemma_string_escape(texts: Seq<u8>, i: int, tk: Seq<u8>, toks: Seq<TokenView>)
    requires
        0 <= i,
        i + 1 < texts.len(),
        texts[i] == 92,
        char_class(texts[i + 1]) is Some,
    ensures
        spec_lex_from(texts, i, Lexed::Going(TokenType::Str, tk, toks)) == spec_lex_from(
            texts,
            i + 2,
            Lexed::Going(
                TokenType::Str,
                tk.push(
                    if texts[i + 1] == 110 { 10u8 } else if texts[i + 1] == 116 { 9u8 } else if texts[i + 1] == 114 { 13u8 } else { texts[i + 1] },
                ),
                toks,
            ),
        ),
{
    lemma_lex_step(texts, i, TokenType::Str, tk, toks);
    lemma_lex_step(texts, i + 1, TokenType::StrEsc, tk, toks);
}

/// A stopped run stays stopped, and a run at the end is its state.
proof fn lemma_lex_stays(texts: Seq<u8>, i: int, st: Lexed)
    requires
        !(st is Going) || i >= texts.len(),
        i >= 0,
    ensures
        spec_lex_from(texts, i, st) == st,
    decreases texts.len() - i,
{
    reveal(spec_lex_from);
}

/// Calls `String::push`, which appends one character.
#[verifier::external_body]
fn string_push(s: &mut String, c: char)
    ensures
        final(s)@ == old(s)@.push(c),
{
    s.push(c)
}

fn string_of(b: &Vec<u8>) -> (r: String)
    ensures
        r@ == str_of(b@),
{
    let mut out = String::new();
    let mut i: usize = 0;
    while i < b.len()
        invariant
            i <= b@.len(),
            out@ == str_of(b@.take(i as int)),
        decreases b@.len() - i,
    {
        string_push(&mut out, b[i] as char);
        i = i + 1;
        assert(str_of(b@.take(i as int)) =~= str_of(b@.take(i - 1)).push(b@[i - 1] as char));
    }
    assert(b@.take(b@.len() as int) =~= b@);
    out
}


proof fn lemma_digits_prefix_le(d: Seq<u8>, j: int, radix: nat)
    requires
        0 <= j <= d.len(),
        all_digits(d, radix),
        radix >= 1,
    ensures
        digits_value(d.take(j), radix) <= digits_value(d, radix),
    decreases d.len() - j,
{
    if j < d.len() {
        lemma_digits_prefix_le(d, j + 1, radix);
        let a = digits_value(d.take(j), radix);
        assert(d.take(j + 1).drop_last() =~= d.take(j));
        assert(a * radix >= a) by (nonlinear_arith)
            requires
                radix >= 1,
        ;
    } else {
        assert(d.take(j) =~= d);
    }
}

/// Parse the digits of `v` from `start` in a radix of at most ten.
fn from_radix(v: &[u8], start: usize, radix: u8) -> (r: Option<u128>)
    requires
        start <= v@.len(),
        2 <= radix <= 10,
    ensures
        r == spec_from_radix(v@.subrange(start as int, v@.len() as int), radix as nat),
{
    let ghost w = v@.subrange(start as int, v@.len() as int);
    let n = v.len();
    if start >= n {
        return None;
    }
    let mut i = start;
    if v[i] == 43 {
        i = i + 1;
    }
    let d0 = i;
    let ghost d = v@.subrange(d0 as int, n as int);
    assert(d =~= (if w[0] == 43 { w.drop_first() } else { w }));
    if d0 >= n {
        return None;
    }
    let mut acc: u128 = 0;
    while i < n
        invariant
            start <= d0 <= i <= n,
            d0 < n,
            n == v@.len(),
            2 <= radix <= 10,
            d == v@.subrange(d0 as int, n as int),
            w == v@.subrange(start as int, n as int),
            d =~= (if w[0] == 43 { w.drop_first() } else { w }),
            all_digits(d.take(i - d0), radix as nat),
            acc == digits_value(d.take(i - d0), radix as nat),
        decreases n - i,
    {
        let c = v[i];
        let k: Ghost<int> = Ghost(i - d0);
        assert(d[k@] == c);
        assert(d.take(k@ + 1).drop_last() =~= d.take(k@));
        if c < 48 || c >= 48 + radix {
            assert(!all_digits(d, radix as nat));
            return None;
        }
        assert(all_digits(d.take(k@ + 1), radix as nat));
        match acc.checked_mul(radix as u128) {
            None => {
                proof {
                    if all_digits(d, radix as nat) {
                        lemma_digits_prefix_le(d, k@ + 1, radix as nat);
                    }
                }
                return None;
            },
            Some(m) => match m.checked_add((c - 48) as u128) {
                None => {
                    proof {
                        if all_digits(d, radix as nat) {
                            lemma_digits_prefix_le(d, k@ + 1, radix as nat);
                        }
                    }
                    return None;
                },
                Some(x) => {
                    acc = x;
                },
            },
        }
        i = i + 1;
    }
    assert(d.take(n - d0) =~= d);
    Some(acc)
}

fn syntax_fault(tip: &str) -> (r: ItrErr)
    ensures
        r.0 == ItrErrCode::CompileError,
{
    ItrErr::new(ItrErrCode::CompileError, tip)
}

/// Convert a token that starts with a digit.
fn parse_num_or_bytes(s: &Vec<u8>) -> (r: VmrtRes<Token>)
    requires
        !(spec_num_or_bytes(s@) is Panic),
    ensures
        match spec_num_or_bytes(s@) {
            Conv::Tok(t) => r matches Ok(x) && x@ == t,
            _ => r matches Err(e) && e.0 == ItrErrCode::CompileError,
        },
{
    let n = s.len();
    if n >= 2 && s[0] == 48 && s[1] == 120 {
        let mut all = s.clone();
        let v = all.split_off(2);
        assert(v@ =~= s@.subrange(2, n as int));
        match hex_decode(v.as_slice()) {
            Ok(b) => Ok(Token::Bytes(b)),
            Err(_) => Err(syntax_fault("hex data format error")),
        }
    } else if (n >= 2 && s[0] == 48 && s[1] == 98) || n >= 10 {
        let vl = n - 2;
        if vl % 8 != 0 {
            return Err(syntax_fault("binary data format error"));
        }
        let nb = vl / 8;
        match from_radix(s.as_slice(), 2, 2) {
            None => Err(syntax_fault("binary data format error")),
            Some(d) => {
                let mut full = uint_be_bytes(d, 16);
                proof {
                    crate::value::lemma_be_bytes_len(d as nat, 16);
                }
                let tail = full.split_off(16 - nb);
                Ok(Token::Bytes(tail))
            },
        }
    } else {
        match from_radix(s.as_slice(), 0, 10) {
            Some(u) => {
                assert(s@.subrange(0, n as int) =~= s@);
                Ok(Token::Integer(u))
            },
            None => {
                assert(s@.subrange(0, n as int) =~= s@);
                Err(syntax_fault("integer format error"))
            },
        }
    }
}

/// Convert one token's text.
fn conv(s: &Vec<u8>) -> (r: VmrtRes<Token>)
    requires
        s@.len() > 0,
        !(spec_conv(s@) is Panic),
    ensures
        match spec_conv(s@) {
            Conv::Tok(t) => r matches Ok(x) && x@ == t,
            _ => r matches Err(e) && e.0 == ItrErrCode::CompileError,
        },
{
    let c = s[0];
    if 48 <= c && c <= 57 {
        parse_num_or_bytes(s)
    } else if c == 95 || c == 36 || (65 <= c && c <= 90) || (97 <= c && c <= 122) {
        let st = string_of(s);
        match KwTy::build(st.as_str()) {
            Ok(k) => Ok(Token::Keyword(k)),
            Err(_) => Ok(Token::Identifier(st)),
        }
    } else if c == 34 {
        let mut all = s.clone();
        let mut d = all.split_off(1);
        assert(d@ =~= s@.drop_first());
        if d.len() > 0 {
            d.pop();
            assert(d@ =~= s@.drop_first().drop_last());
        }
        Ok(Token::Bytes(d))
    } else if c == 123 || c == 125 || c == 40 || c == 41 || c == 91 || c == 93 {
        Ok(Token::Partition(c as char))
    } else {
        let st = string_of(s);
        match KwTy::build(st.as_str()) {
            Ok(k) => Ok(Token::Keyword(k)),
            Err(_) => match OpTy::build(st.as_str()) {
                Ok(o) => Ok(Token::Operator(o)),
                Err(e) => Err(e),
            },
        }
    }
}

/// The class of a source byte.
fn class_of(c: u8) -> (r: Option<TokenType>)
    ensures
        r == char_class(c),
{
    if c == 32 || c == 44 || c == 59 || c == 10 || c == 13 || c == 9 {
        Some(TokenType::Blank)
    } else if c == 95 || c == 36 || (65 <= c && c <= 90) || (97 <= c && c <= 122) {
        Some(TokenType::Word)
    } else if 48 <= c && c <= 57 {
        Some(TokenType::Number)
    } else if c == 40 || c == 41 || c == 123 || c == 125 || c == 91 || c == 93 {
        Some(TokenType::Split)
    } else if c == 43 || c == 45 || c == 42 || c == 47 || c == 61 || c == 33 || c == 46 || c == 58
        || c == 62 || c == 60 || c == 124 || c == 38 || c == 37 || c == 94 {
        Some(TokenType::Symbol)
    } else if c == 34 || c == 92 {
        Some(TokenType::Str)
    } else {
        None
    }
}

fn unescape_byte(c: u8) -> (r: u8)
    ensures
        r == unescape(c),
{
    if c == 116 {
        9
    } else if c == 110 {
        10
    } else if c == 114 {
        13
    } else {
        c
    }
}

/// Splits contract-language source text into tokens.
pub struct Tokenizer<'a> {
    texts: &'a [u8],
    tokty: TokenType,
    idx: usize,
    token: Vec<u8>,
    tokens: Vec<Token>,
}

impl<'a> Tokenizer<'a> {
    /// The source text.
    pub closed spec fn text(&self) -> Seq<u8> {
        self.texts@
    }

    /// The position of the next byte to read.
    pub closed spec fn pos(&self) -> int {
        self.idx as int
    }

    /// The state: class of the open token, its bytes, the tokens so far.
    pub closed spec fn state(&self) -> Lexed {
        Lexed::Going(self.tokty, self.token@, tokens_view(self.tokens@))
    }

    /// A tokenizer at the start of `texts`.
    pub fn new(texts: &'a [u8]) -> (r: Tokenizer<'a>)
        ensures
            r.text() == texts@,
            r.pos() == 0,
            r.state() == Lexed::Going(TokenType::Blank, Seq::<u8>::empty(), Seq::<TokenView>::empty()),
    {
        let r = Tokenizer { texts, tokty: TokenType::Blank, idx: 0, token: Vec::new(), tokens: Vec::new() };
        assert(tokens_view(r.tokens@) =~= Seq::<TokenView>::empty());
        r
    }

    /// Convert and emit the open token, if any; the token is then empty.
    fn flush(&mut self) -> (r: VmrtErr)
        requires
            !(emit(old(self).token@, tokens_view(old(self).tokens@), old(self).tokty, Seq::empty()) is Panicked),
        ensures
            final(self).texts == old(self).texts,
            final(self).idx == old(self).idx,
            final(self).tokty == old(self).tokty,
            match emit(old(self).token@, tokens_view(old(self).tokens@), old(self).tokty, Seq::empty()) {
                Lexed::Going(ty, tk, toks) => r is Ok && final(self).state() == Lexed::Going(ty, tk, toks),
                _ => r matches Err(e) && e.0 == ItrErrCode::CompileError,
            },
    {
        if self.token.len() > 0 {
            let t = conv(&self.token)?;
            let ghost v = tokens_view(self.tokens@);
            let ghost tv = t@;
            self.tokens.push(t);
            assert(tokens_view(self.tokens@) =~= v.push(tv));
            self.token.clear();
            assert(self.token@ =~= Seq::<u8>::empty());
        } else {
            assert(self.token@ =~= Seq::<u8>::empty());
        }
        Ok(())
    }

    /// Feed one byte `c` of class `t`.
    fn push(&mut self, t: TokenType, c: u8) -> (r: VmrtErr)
        requires
            !(spec_push(old(self).tokty, old(self).token@, tokens_view(old(self).tokens@), t, c) is Panicked),
        ensures
            final(self).texts == old(self).texts,
            final(self).idx == old(self).idx,
            match spec_push(old(self).tokty, old(self).token@, tokens_view(old(self).tokens@), t, c) {
                Lexed::Going(ty, tk, toks) => r is Ok && final(self).state() == Lexed::Going(ty, tk, toks),
                _ => r matches Err(e) && e.0 == ItrErrCode::CompileError,
            },
    {
        let ty = self.tokty;
        if ty == TokenType::StrEsc {
            self.token.push(unescape_byte(c));
            self.tokty = TokenType::Str;
        } else if ty == TokenType::Str && c == 92 {
            self.tokty = TokenType::StrEsc;
        } else if ty == TokenType::Str || t == TokenType::Str {
            self.token.push(c);
            if ty == TokenType::Str && c == 34 {
                self.flush()?;
                self.tokty = TokenType::Blank;
            } else {
                self.tokty = TokenType::Str;
            }
        } else if t == TokenType::Blank || t == TokenType::Split {
            self.flush()?;
            if t == TokenType::Split {
                self.token.push(c);
                assert(self.token@ =~= seq![c]);
                self.flush()?;
            }
        } else if (ty == TokenType::Number && (c == 120 || c == 98 || c == 46)) || (ty == TokenType::Word && 48 <= c && c <= 57) || t == ty {
            self.token.push(c);
        } else {
            self.flush()?;
            self.token.push(c);
            assert(self.token@ =~= seq![c]);
            self.tokty = t;
        }
        Ok(())
    }

    /// Run the tokenizer to the end of the text. The token still open at the
    /// end is not emitted.
    pub fn parse(self) -> (r: VmrtRes<Vec<Token>>)
        requires
            !(spec_lex_from(self.text(), self.pos(), self.state()) is Panicked),
        ensures
            match spec_lex_from(self.text(), self.pos(), self.state()) {
                Lexed::Going(_, _, toks) => r matches Ok(v) && tokens_view(v@) == toks,
                _ => r matches Err(e) && e.0 == ItrErrCode::CompileError,
            },
    {
        let mut this = self;
        let ghost target = spec_lex_from(this.texts@, this.idx as int, this.state());
        let max = this.texts.len();
        if this.idx >= max {
            proof {
                lemma_lex_stays(this.texts@, this.idx as int, this.state());
            }
            return Ok(this.tokens);
        }
        while this.idx < max
            invariant
                max == this.texts@.len(),
                this.idx <= max,
                spec_lex_from(this.texts@, this.idx as int, this.state()) == target,
                target == spec_lex_from(self.text(), self.pos(), self.state()),
                !(target is Panicked),
            decreases max - this.idx,
        {
            let c = this.texts[this.idx];
            proof {
                lemma_lex_step(this.texts@, this.idx as int, this.tokty, this.token@, tokens_view(this.tokens@));
                lemma_lex_stays(this.texts@, this.idx + 1, Lexed::Failed);
                lemma_lex_stays(this.texts@, this.idx + 1, Lexed::Panicked);
            }
            let t = match class_of(c) {
                Some(t) => t,
                None => {
                    return Err(syntax_fault("unsupported char"));
                },
            };
            this.push(t, c)?;
            this.idx = this.idx + 1;
        }
        proof {
            lemma_lex_stays(this.texts@, this.idx as int, this.state());
        }
        Ok(this.tokens)
    }
}

} // verus!
