use vm::error::ItrErrCode;
use vm::lang::{KwTy, OpTy};
use vm::tokenizer::{Token, Tokenizer};

fn lex(text: &str) -> Result<Vec<Token>, ItrErrCode> {
    Tokenizer::new(text.as_bytes()).parse().map_err(|e| e.0)
}

fn ident(s: &str) -> Token {
    Token::Identifier(s.to_string())
}

#[test]
fn let_binding_tokens() {
    assert_eq!(
        lex("let a = $0 ").unwrap(),
        vec![Token::Keyword(KwTy::Let), ident("a"), Token::Keyword(KwTy::Assign), ident("$0")]
    );
}

#[test]
fn open_token_at_end_is_not_emitted() {
    assert_eq!(lex("return 1").unwrap(), vec![Token::Keyword(KwTy::Return)]);
    assert_eq!(lex("return 1 ").unwrap(), vec![Token::Keyword(KwTy::Return), Token::Integer(1)]);
    assert_eq!(lex("").unwrap(), vec![]);
}

#[test]
fn hex_and_binary_literals_are_bytes() {
    assert_eq!(lex("0x0bb9 ").unwrap(), vec![Token::Bytes(vec![0x0b, 0xb9])]);
    assert_eq!(lex("0x ").unwrap(), vec![Token::Bytes(vec![])]);
    assert_eq!(lex("0b00000001 ").unwrap(), vec![Token::Bytes(vec![1])]);
    assert_eq!(lex("0b0000000100000010 ").unwrap(), vec![Token::Bytes(vec![1, 2])]);
    // a hex digit that is a letter other than b ends the number token early
    assert_eq!(lex("0x1a ").unwrap_err(), ItrErrCode::CompileError);
}

#[test]
fn malformed_numbers_are_compile_errors() {
    // ten or more characters go the binary way, first two dropped
    assert_eq!(lex("1234567890 ").unwrap_err(), ItrErrCode::CompileError);
    assert_eq!(lex("0b0101 ").unwrap_err(), ItrErrCode::CompileError);
    assert_eq!(lex("1.5 ").unwrap_err(), ItrErrCode::CompileError);
    assert_eq!(lex("0x123 ").unwrap_err(), ItrErrCode::CompileError);
    assert_eq!(lex("123456789 ").unwrap(), vec![Token::Integer(123456789)]);
}

#[test]
fn strings_keep_escapes_and_drop_quotes() {
    assert_eq!(lex("\"a\\tb\" ").unwrap(), vec![Token::Bytes(vec![b'a', 9, b'b'])]);
    assert_eq!(lex("\"x y;\"").unwrap(), vec![Token::Bytes(b"x y;".to_vec())]);
    assert_eq!(lex("\"q\\\"q\"").unwrap(), vec![Token::Bytes(b"q\"q".to_vec())]);
}

#[test]
fn operators_keywords_and_partitions() {
    assert_eq!(
        lex("a+=1 ").unwrap(),
        vec![ident("a"), Token::Keyword(KwTy::AsgAdd), Token::Integer(1)]
    );
    assert_eq!(
        lex("(a>=b) ").unwrap(),
        vec![
            Token::Partition('('),
            ident("a"),
            Token::Operator(OpTy::GE),
            ident("b"),
            Token::Partition(')'),
        ]
    );
    assert_eq!(
        lex("x::y ").unwrap(),
        vec![ident("x"), Token::Keyword(KwTy::DColon), ident("y")]
    );
}

#[test]
fn unknown_bytes_and_symbols_fail() {
    assert_eq!(lex("a # b").unwrap_err(), ItrErrCode::CompileError);
    assert_eq!(lex("a =! b ").unwrap_err(), ItrErrCode::CompileError);
}
