//! Tokens of the contract language: keywords, operators with their binding
//! levels, and the built-in IR functions with their shapes.

use vstd::prelude::*;
use crate::bytecode::Bytecode;
use crate::error::{ItrErr, ItrErrCode};
use crate::text::str_eq;

verus! {

/// Keywords.
#[derive(Debug, Clone, Copy, PartialEq, Eq, Structural)]
pub enum KwTy {
    DColon,
    Colon,
    Dot,
    Assign,
    AsgAdd,
    AsgSub,
    AsgMul,
    AsgDiv,
    Use,
    Lib,
    Let,
    If,
    Else,
    While,
    Finish,
    Return,
    Abort,
    Throw,
    Assert,
    Bool,
    Bytes,
    CallCode,
    ByteCode,
    As,
    U8,
    U16,
    U32,
    U64,
    U128,
}

/// The keyword spelled `s`.
pub open spec fn spec_kw_named(s: Seq<char>) -> Option<KwTy> {
    if s == "::"@ {
        Some(KwTy::DColon)
    } else if s == ":"@ {
        Some(KwTy::Colon)
    } else if s == "."@ {
        Some(KwTy::Dot)
    } else if s == "="@ {
        Some(KwTy::Assign)
    } else if s == "+="@ {
        Some(KwTy::AsgAdd)
    } else if s == "-="@ {
        Some(KwTy::AsgSub)
    } else if s == "*="@ {
        Some(KwTy::AsgMul)
    } else if s == "/="@ {
        Some(KwTy::AsgDiv)
    } else if s == "use"@ {
        Some(KwTy::Use)
    } else if s == "lib"@ {
        Some(KwTy::Lib)
    } else if s == "let"@ {
        Some(KwTy::Let)
    } else if s == "if"@ {
        Some(KwTy::If)
    } else if s == "else"@ {
        Some(KwTy::Else)
    } else if s == "while"@ {
        Some(KwTy::While)
    } else if s == "finish"@ {
        Some(KwTy::Finish)
    } else if s == "return"@ {
        Some(KwTy::Return)
    } else if s == "abort"@ {
        Some(KwTy::Abort)
    } else if s == "throw"@ {
        Some(KwTy::Throw)
    } else if s == "assert"@ {
        Some(KwTy::Assert)
    } else if s == "bool"@ {
        Some(KwTy::Bool)
    } else if s == "bytes"@ {
        Some(KwTy::Bytes)
    } else if s == "callcode"@ {
        Some(KwTy::CallCode)
    } else if s == "bytecode"@ {
        Some(KwTy::ByteCode)
    } else if s == "as"@ {
        Some(KwTy::As)
    } else if s == "u8"@ {
        Some(KwTy::U8)
    } else if s == "u16"@ {
        Some(KwTy::U16)
    } else if s == "u32"@ {
        Some(KwTy::U32)
    } else if s == "u64"@ {
        Some(KwTy::U64)
    } else if s == "u128"@ {
        Some(KwTy::U128)
    } else {
        None
    }
}

impl KwTy {
    /// The keyword spelled `s`; any other word is an error.
    pub fn build(s: &str) -> (r: Result<KwTy, ItrErr>)
        ensures
            match spec_kw_named(s@) {
                Some(k) => r matches Ok(x) && x == k,
                None => r matches Err(e) && e.0 == ItrErrCode::CompileError,
            },
    {
        if str_eq(s, "::") {
            Ok(KwTy::DColon)
        } else if str_eq(s, ":") {
            Ok(KwTy::Colon)
        } else if str_eq(s, ".") {
            Ok(KwTy::Dot)
        } else if str_eq(s, "=") {
            Ok(KwTy::Assign)
        } else if str_eq(s, "+=") {
            Ok(KwTy::AsgAdd)
        } else if str_eq(s, "-=") {
            Ok(KwTy::AsgSub)
        } else if str_eq(s, "*=") {
            Ok(KwTy::AsgMul)
        } else if str_eq(s, "/=") {
            Ok(KwTy::AsgDiv)
        } else if str_eq(s, "use") {
            Ok(KwTy::Use)
        } else if str_eq(s, "lib") {
            Ok(KwTy::Lib)
        } else if str_eq(s, "let") {
            Ok(KwTy::Let)
        } else if str_eq(s, "if") {
            Ok(KwTy::If)
        } else if str_eq(s, "else") {
            Ok(KwTy::Else)
        } else if str_eq(s, "while") {
            Ok(KwTy::While)
        } else if str_eq(s, "finish") {
            Ok(KwTy::Finish)
        } else if str_eq(s, "return") {
            Ok(KwTy::Return)
        } else if str_eq(s, "abort") {
            Ok(KwTy::Abort)
        } else if str_eq(s, "throw") {
            Ok(KwTy::Throw)
        } else if str_eq(s, "assert") {
            Ok(KwTy::Assert)
        } else if str_eq(s, "bool") {
            Ok(KwTy::Bool)
        } else if str_eq(s, "bytes") {
            Ok(KwTy::Bytes)
        } else if str_eq(s, "callcode") {
            Ok(KwTy::CallCode)
        } else if str_eq(s, "bytecode") {
            Ok(KwTy::ByteCode)
        } else if str_eq(s, "as") {
            Ok(KwTy::As)
        } else if str_eq(s, "u8") {
            Ok(KwTy::U8)
        } else if str_eq(s, "u16") {
            Ok(KwTy::U16)
        } else if str_eq(s, "u32") {
            Ok(KwTy::U32)
        } else if str_eq(s, "u64") {
            Ok(KwTy::U64)
        } else if str_eq(s, "u128") {
            Ok(KwTy::U128)
        } else {
            Err(ItrErr::new(ItrErrCode::CompileError, "unsupported keyword"))
        }
    }
}

/// Operators.
#[derive(Debug, Clone, Copy, PartialEq, Eq, Structural)]
pub enum OpTy {
    NOT,
    POW,
    MUL,
    DIV,
    MOD,
    ADD,
    SUB,
    BSHL,
    BSHR,
    BAND,
    BXOR,
    BOR,
    EQ,
    NEQ,
    GE,
    LE,
    GT,
    LT,
    AND,
    OR,
    CAT,
}

/// Binding level of an operator: higher binds tighter.
pub open spec fn spec_op_level(op: OpTy) -> u8 {
    match op {
        OpTy::NOT => 200,
        OpTy::POW => 175,
        OpTy::MUL => 150,
        OpTy::DIV => 150,
        OpTy::MOD => 150,
        OpTy::ADD => 120,
        OpTy::SUB => 120,
        OpTy::BSHL => 110,
        OpTy::BSHR => 110,
        OpTy::BAND => 109,
        OpTy::BXOR => 108,
        OpTy::BOR => 107,
        OpTy::EQ => 90,
        OpTy::NEQ => 90,
        OpTy::GE => 90,
        OpTy::LE => 90,
        OpTy::GT => 90,
        OpTy::LT => 90,
        OpTy::AND => 79,
        OpTy::OR => 78,
        OpTy::CAT => 60,
    }
}

/// Spelling of an operator.
pub open spec fn spec_op_symbol(op: OpTy) -> Seq<char> {
    match op {
        OpTy::NOT => "!"@,
        OpTy::POW => "**"@,
        OpTy::MUL => "*"@,
        OpTy::DIV => "/"@,
        OpTy::MOD => "%"@,
        OpTy::ADD => "+"@,
        OpTy::SUB => "-"@,
        OpTy::BSHL => "<<"@,
        OpTy::BSHR => ">>"@,
        OpTy::BAND => "&"@,
        OpTy::BXOR => "^"@,
        OpTy::BOR => "|"@,
        OpTy::EQ => "=="@,
        OpTy::NEQ => "!="@,
        OpTy::GE => ">="@,
        OpTy::LE => "<="@,
        OpTy::GT => ">"@,
        OpTy::LT => "<"@,
        OpTy::AND => "&&"@,
        OpTy::OR => "||"@,
        OpTy::CAT => "++"@,
    }
}

/// The operator spelled `s`.
pub open spec fn spec_op_named(s: Seq<char>) -> Option<OpTy> {
    if s == "!"@ {
        Some(OpTy::NOT)
    } else if s == "**"@ {
        Some(OpTy::POW)
    } else if s == "*"@ {
        Some(OpTy::MUL)
    } else if s == "/"@ {
        Some(OpTy::DIV)
    } else if s == "%"@ {
        Some(OpTy::MOD)
    } else if s == "+"@ {
        Some(OpTy::ADD)
    } else if s == "-"@ {
        Some(OpTy::SUB)
    } else if s == "<<"@ {
        Some(OpTy::BSHL)
    } else if s == ">>"@ {
        Some(OpTy::BSHR)
    } else if s == "&"@ {
        Some(OpTy::BAND)
    } else if s == "^"@ {
        Some(OpTy::BXOR)
    } else if s == "|"@ {
        Some(OpTy::BOR)
    } else if s == "=="@ {
        Some(OpTy::EQ)
    } else if s == "!="@ {
        Some(OpTy::NEQ)
    } else if s == ">="@ {
        Some(OpTy::GE)
    } else if s == "<="@ {
        Some(OpTy::LE)
    } else if s == ">"@ {
        Some(OpTy::GT)
    } else if s == "<"@ {
        Some(OpTy::LT)
    } else if s == "&&"@ {
        Some(OpTy::AND)
    } else if s == "||"@ {
        Some(OpTy::OR)
    } else if s == "++"@ {
        Some(OpTy::CAT)
    } else {
        None
    }
}

/// The instruction of an operator.
pub open spec fn spec_op_bytecode(op: OpTy) -> Bytecode {
    match op {
        OpTy::NOT => Bytecode::NOT,
        OpTy::POW => Bytecode::POW,
        OpTy::MUL => Bytecode::MUL,
        OpTy::DIV => Bytecode::DIV,
        OpTy::MOD => Bytecode::MOD,
        OpTy::ADD => Bytecode::ADD,
        OpTy::SUB => Bytecode::SUB,
        OpTy::BSHL => Bytecode::BSHL,
        OpTy::BSHR => Bytecode::BSHR,
        OpTy::BAND => Bytecode::BAND,
        OpTy::BXOR => Bytecode::BXOR,
        OpTy::BOR => Bytecode::BOR,
        OpTy::EQ => Bytecode::EQ,
        OpTy::NEQ => Bytecode::NEQ,
        OpTy::GE => Bytecode::GE,
        OpTy::LE => Bytecode::LE,
        OpTy::GT => Bytecode::GT,
        OpTy::LT => Bytecode::LT,
        OpTy::AND => Bytecode::AND,
        OpTy::OR => Bytecode::OR,
        OpTy::CAT => Bytecode::CAT,
    }
}

/// The operator of an instruction.
pub open spec fn spec_op_of(b: Bytecode) -> Option<OpTy> {
    match b {
        Bytecode::NOT => Some(OpTy::NOT),
        Bytecode::POW => Some(OpTy::POW),
        Bytecode::MUL => Some(OpTy::MUL),
        Bytecode::DIV => Some(OpTy::DIV),
        Bytecode::MOD => Some(OpTy::MOD),
        Bytecode::ADD => Some(OpTy::ADD),
        Bytecode::SUB => Some(OpTy::SUB),
        Bytecode::BSHL => Some(OpTy::BSHL),
        Bytecode::BSHR => Some(OpTy::BSHR),
        Bytecode::BAND => Some(OpTy::BAND),
        Bytecode::BXOR => Some(OpTy::BXOR),
        Bytecode::BOR => Some(OpTy::BOR),
        Bytecode::EQ => Some(OpTy::EQ),
        Bytecode::NEQ => Some(OpTy::NEQ),
        Bytecode::GE => Some(OpTy::GE),
        Bytecode::LE => Some(OpTy::LE),
        Bytecode::GT => Some(OpTy::GT),
        Bytecode::LT => Some(OpTy::LT),
        Bytecode::AND => Some(OpTy::AND),
        Bytecode::OR => Some(OpTy::OR),
        Bytecode::CAT => Some(OpTy::CAT),
        _ => None,
    }
}

impl OpTy {
    /// Binding level: higher binds tighter.
    pub fn level(&self) -> (r: u8)
        ensures
            r == spec_op_level(*self),
    {
        match self {
            OpTy::NOT => 200,
            OpTy::POW => 175,
            OpTy::MUL => 150,
            OpTy::DIV => 150,
            OpTy::MOD => 150,
            OpTy::ADD => 120,
            OpTy::SUB => 120,
            OpTy::BSHL => 110,
            OpTy::BSHR => 110,
            OpTy::BAND => 109,
            OpTy::BXOR => 108,
            OpTy::BOR => 107,
            OpTy::EQ => 90,
            OpTy::NEQ => 90,
            OpTy::GE => 90,
            OpTy::LE => 90,
            OpTy::GT => 90,
            OpTy::LT => 90,
            OpTy::AND => 79,
            OpTy::OR => 78,
            OpTy::CAT => 60,
        }
    }

    /// Spelling.
    pub fn symbol(&self) -> (r: &'static str)
        ensures
            r@ == spec_op_symbol(*self),
    {
        match self {
            OpTy::NOT => "!",
            OpTy::POW => "**",
            OpTy::MUL => "*",
            OpTy::DIV => "/",
            OpTy::MOD => "%",
            OpTy::ADD => "+",
            OpTy::SUB => "-",
            OpTy::BSHL => "<<",
            OpTy::BSHR => ">>",
            OpTy::BAND => "&",
            OpTy::BXOR => "^",
            OpTy::BOR => "|",
            OpTy::EQ => "==",
            OpTy::NEQ => "!=",
            OpTy::GE => ">=",
            OpTy::LE => "<=",
            OpTy::GT => ">",
            OpTy::LT => "<",
            OpTy::AND => "&&",
            OpTy::OR => "||",
            OpTy::CAT => "++",
        }
    }

    /// The operator spelled `s`; any other spelling is an error.
    pub fn build(s: &str) -> (r: Result<OpTy, ItrErr>)
        ensures
            match spec_op_named(s@) {
                Some(k) => r matches Ok(x) && x == k,
                None => r matches Err(e) && e.0 == ItrErrCode::CompileError,
            },
    {
        if str_eq(s, "!") {
            Ok(OpTy::NOT)
        } else if str_eq(s, "**") {
            Ok(OpTy::POW)
        } else if str_eq(s, "*") {
            Ok(OpTy::MUL)
        } else if str_eq(s, "/") {
            Ok(OpTy::DIV)
        } else if str_eq(s, "%") {
            Ok(OpTy::MOD)
        } else if str_eq(s, "+") {
            Ok(OpTy::ADD)
        } else if str_eq(s, "-") {
            Ok(OpTy::SUB)
        } else if str_eq(s, "<<") {
            Ok(OpTy::BSHL)
        } else if str_eq(s, ">>") {
            Ok(OpTy::BSHR)
        } else if str_eq(s, "&") {
            Ok(OpTy::BAND)
        } else if str_eq(s, "^") {
            Ok(OpTy::BXOR)
        } else if str_eq(s, "|") {
            Ok(OpTy::BOR)
        } else if str_eq(s, "==") {
            Ok(OpTy::EQ)
        } else if str_eq(s, "!=") {
            Ok(OpTy::NEQ)
        } else if str_eq(s, ">=") {
            Ok(OpTy::GE)
        } else if str_eq(s, "<=") {
            Ok(OpTy::LE)
        } else if str_eq(s, ">") {
            Ok(OpTy::GT)
        } else if str_eq(s, "<") {
            Ok(OpTy::LT)
        } else if str_eq(s, "&&") {
            Ok(OpTy::AND)
        } else if str_eq(s, "||") {
            Ok(OpTy::OR)
        } else if str_eq(s, "++") {
            Ok(OpTy::CAT)
        } else {
            Err(ItrErr::new(ItrErrCode::CompileError, "unsupported operator"))
        }
    }

    /// The instruction that computes this operator.
    pub fn bytecode(&self) -> (r: Bytecode)
        ensures
            r == spec_op_bytecode(*self),
    {
        match self {
            OpTy::NOT => Bytecode::NOT,
            OpTy::POW => Bytecode::POW,
            OpTy::MUL => Bytecode::MUL,
            OpTy::DIV => Bytecode::DIV,
            OpTy::MOD => Bytecode::MOD,
            OpTy::ADD => Bytecode::ADD,
            OpTy::SUB => Bytecode::SUB,
            OpTy::BSHL => Bytecode::BSHL,
            OpTy::BSHR => Bytecode::BSHR,
            OpTy::BAND => Bytecode::BAND,
            OpTy::BXOR => Bytecode::BXOR,
            OpTy::BOR => Bytecode::BOR,
            OpTy::EQ => Bytecode::EQ,
            OpTy::NEQ => Bytecode::NEQ,
            OpTy::GE => Bytecode::GE,
            OpTy::LE => Bytecode::LE,
            OpTy::GT => Bytecode::GT,
            OpTy::LT => Bytecode::LT,
            OpTy::AND => Bytecode::AND,
            OpTy::OR => Bytecode::OR,
            OpTy::CAT => Bytecode::CAT,
        }
    }

    /// The operator an instruction computes; other instructions are an error.
    pub fn from_bytecode(code: Bytecode) -> (r: Result<OpTy, ItrErr>)
        ensures
            match spec_op_of(code) {
                Some(k) => r matches Ok(x) && x == k,
                None => r matches Err(e) && e.0 == ItrErrCode::CompileError,
            },
    {
        match code {
            Bytecode::NOT => Ok(OpTy::NOT),
            Bytecode::POW => Ok(OpTy::POW),
            Bytecode::MUL => Ok(OpTy::MUL),
            Bytecode::DIV => Ok(OpTy::DIV),
            Bytecode::MOD => Ok(OpTy::MOD),
            Bytecode::ADD => Ok(OpTy::ADD),
            Bytecode::SUB => Ok(OpTy::SUB),
            Bytecode::BSHL => Ok(OpTy::BSHL),
            Bytecode::BSHR => Ok(OpTy::BSHR),
            Bytecode::BAND => Ok(OpTy::BAND),
            Bytecode::BXOR => Ok(OpTy::BXOR),
            Bytecode::BOR => Ok(OpTy::BOR),
            Bytecode::EQ => Ok(OpTy::EQ),
            Bytecode::NEQ => Ok(OpTy::NEQ),
            Bytecode::GE => Ok(OpTy::GE),
            Bytecode::LE => Ok(OpTy::LE),
            Bytecode::GT => Ok(OpTy::GT),
            Bytecode::LT => Ok(OpTy::LT),
            Bytecode::AND => Ok(OpTy::AND),
            Bytecode::OR => Ok(OpTy::OR),
            Bytecode::CAT => Ok(OpTy::CAT),
            _ => Err(ItrErr::new(ItrErrCode::CompileError, "cannot find operator")),
        }
    }
}

/// An operator and its instruction determine each other.
pub proof fn lemma_op_bytecode_roundtrip(op: OpTy, b: Bytecode)
    ensures
        spec_op_of(spec_op_bytecode(op)) == Some(op),
        spec_op_of(b) matches Some(o) ==> spec_op_bytecode(o) == b,
{
}

/// Every operator is parsed back from its symbol.
pub proof fn lemma_op_symbol_roundtrip(op: OpTy)
    ensures
        spec_op_named(spec_op_symbol(op)) == Some(op),
{
    reveal_strlit("!");
    reveal_strlit("**");
    reveal_strlit("*");
    reveal_strlit("/");
    reveal_strlit("%");
    reveal_strlit("+");
    reveal_strlit("-");
    reveal_strlit("<<");
    reveal_strlit(">>");
    reveal_strlit("&");
    reveal_strlit("^");
    reveal_strlit("|");
    reveal_strlit("==");
    reveal_strlit("!=");
    reveal_strlit(">=");
    reveal_strlit("<=");
    reveal_strlit(">");
    reveal_strlit("<");
    reveal_strlit("&&");
    reveal_strlit("||");
    reveal_strlit("++");
    assert("!"@.len() == 1);
    assert("**"@.len() == 2);
    assert("*"@.len() == 1);
    assert("/"@.len() == 1);
    assert("%"@.len() == 1);
    assert("+"@.len() == 1);
    assert("-"@.len() == 1);
    assert("<<"@.len() == 2);
    assert(">>"@.len() == 2);
    assert("&"@.len() == 1);
    assert("^"@.len() == 1);
    assert("|"@.len() == 1);
    assert("=="@.len() == 2);
    assert("!="@.len() == 2);
    assert(">="@.len() == 2);
    assert("<="@.len() == 2);
    assert(">"@.len() == 1);
    assert("<"@.len() == 1);
    assert("&&"@.len() == 2);
    assert("||"@.len() == 2);
    assert("++"@.len() == 2);
    match op {
        OpTy::NOT => {
            assert(spec_op_named("!"@) == Some(OpTy::NOT));
        },
        OpTy::POW => {
            assert(spec_op_named("**"@) == Some(OpTy::POW));
        },
        OpTy::MUL => {
            assert("!"@[0] != "*"@[0]);
            assert(spec_op_named("*"@) == Some(OpTy::MUL));
        },
        OpTy::DIV => {
            assert("!"@[0] != "/"@[0]);
            assert("*"@[0] != "/"@[0]);
            assert(spec_op_named("/"@) == Some(OpTy::DIV));
        },
        OpTy::MOD => {
            assert("!"@[0] != "%"@[0]);
            assert("*"@[0] != "%"@[0]);
            assert("/"@[0] != "%"@[0]);
            assert(spec_op_named("%"@) == Some(OpTy::MOD));
        },
        OpTy::ADD => {
            assert("!"@[0] != "+"@[0]);
            assert("*"@[0] != "+"@[0]);
            assert("/"@[0] != "+"@[0]);
            assert("%"@[0] != "+"@[0]);
            assert(spec_op_named("+"@) == Some(OpTy::ADD));
        },
        OpTy::SUB => {
            assert("!"@[0] != "-"@[0]);
            assert("*"@[0] != "-"@[0]);
            assert("/"@[0] != "-"@[0]);
            assert("%"@[0] != "-"@[0]);
            assert("+"@[0] != "-"@[0]);
            assert(spec_op_named("-"@) == Some(OpTy::SUB));
        },
        OpTy::BSHL => {
            assert("**"@[0] != "<<"@[0]);
            assert(spec_op_named("<<"@) == Some(OpTy::BSHL));
        },
        OpTy::BSHR => {
            assert("**"@[0] != ">>"@[0]);
            assert("<<"@[0] != ">>"@[0]);
            assert(spec_op_named(">>"@) == Some(OpTy::BSHR));
        },
        OpTy::BAND => {
            assert("!"@[0] != "&"@[0]);
            assert("*"@[0] != "&"@[0]);
            assert("/"@[0] != "&"@[0]);
            assert("%"@[0] != "&"@[0]);
            assert("+"@[0] != "&"@[0]);
            assert("-"@[0] != "&"@[0]);
            assert(spec_op_named("&"@) == Some(OpTy::BAND));
        },
        OpTy::BXOR => {
            assert("!"@[0] != "^"@[0]);
            assert("*"@[0] != "^"@[0]);
            assert("/"@[0] != "^"@[0]);
            assert("%"@[0] != "^"@[0]);
            assert("+"@[0] != "^"@[0]);
            assert("-"@[0] != "^"@[0]);
            assert("&"@[0] != "^"@[0]);
            assert(spec_op_named("^"@) == Some(OpTy::BXOR));
        },
        OpTy::BOR => {
            assert("!"@[0] != "|"@[0]);
            assert("*"@[0] != "|"@[0]);
            assert("/"@[0] != "|"@[0]);
            assert("%"@[0] != "|"@[0]);
            assert("+"@[0] != "|"@[0]);
            assert("-"@[0] != "|"@[0]);
            assert("&"@[0] != "|"@[0]);
            assert("^"@[0] != "|"@[0]);
            assert(spec_op_named("|"@) == Some(OpTy::BOR));
        },
        OpTy::EQ => {
            assert("**"@[0] != "=="@[0]);
            assert("<<"@[0] != "=="@[0]);
            assert(">>"@[0] != "=="@[0]);
            assert(spec_op_named("=="@) == Some(OpTy::EQ));
        },
        OpTy::NEQ => {
            assert("**"@[0] != "!="@[0]);
            assert("<<"@[0] != "!="@[0]);
            assert(">>"@[0] != "!="@[0]);
            assert("=="@[0] != "!="@[0]);
            assert(spec_op_named("!="@) == Some(OpTy::NEQ));
        },
        OpTy::GE => {
            assert("**"@[0] != ">="@[0]);
            assert("<<"@[0] != ">="@[0]);
            assert(">>"@[1] != ">="@[1]);
            assert("=="@[0] != ">="@[0]);
            assert("!="@[0] != ">="@[0]);
            assert(spec_op_named(">="@) == Some(OpTy::GE));
        },
        OpTy::LE => {
            assert("**"@[0] != "<="@[0]);
            assert("<<"@[1] != "<="@[1]);
            assert(">>"@[0] != "<="@[0]);
            assert("=="@[0] != "<="@[0]);
            assert("!="@[0] != "<="@[0]);
            assert(">="@[0] != "<="@[0]);
            assert(spec_op_named("<="@) == Some(OpTy::LE));
        },
        OpTy::GT => {
            assert("!"@[0] != ">"@[0]);
            assert("*"@[0] != ">"@[0]);
            assert("/"@[0] != ">"@[0]);
            assert("%"@[0] != ">"@[0]);
            assert("+"@[0] != ">"@[0]);
            assert("-"@[0] != ">"@[0]);
            assert("&"@[0] != ">"@[0]);
            assert("^"@[0] != ">"@[0]);
            assert("|"@[0] != ">"@[0]);
            assert(spec_op_named(">"@) == Some(OpTy::GT));
        },
        OpTy::LT => {
            assert("!"@[0] != "<"@[0]);
            assert("*"@[0] != "<"@[0]);
            assert("/"@[0] != "<"@[0]);
            assert("%"@[0] != "<"@[0]);
            assert("+"@[0] != "<"@[0]);
            assert("-"@[0] != "<"@[0]);
            assert("&"@[0] != "<"@[0]);
            assert("^"@[0] != "<"@[0]);
            assert("|"@[0] != "<"@[0]);
            assert(">"@[0] != "<"@[0]);
            assert(spec_op_named("<"@) == Some(OpTy::LT));
        },
        OpTy::AND => {
            assert("**"@[0] != "&&"@[0]);
            assert("<<"@[0] != "&&"@[0]);
            assert(">>"@[0] != "&&"@[0]);
            assert("=="@[0] != "&&"@[0]);
            assert("!="@[0] != "&&"@[0]);
            assert(">="@[0] != "&&"@[0]);
            assert("<="@[0] != "&&"@[0]);
            assert(spec_op_named("&&"@) == Some(OpTy::AND));
        },
        OpTy::OR => {
            assert("**"@[0] != "||"@[0]);
            assert("<<"@[0] != "||"@[0]);
            assert(">>"@[0] != "||"@[0]);
            assert("=="@[0] != "||"@[0]);
            assert("!="@[0] != "||"@[0]);
            assert(">="@[0] != "||"@[0]);
            assert("<="@[0] != "||"@[0]);
            assert("&&"@[0] != "||"@[0]);
            assert(spec_op_named("||"@) == Some(OpTy::OR));
        },
        OpTy::CAT => {
            assert("**"@[0] != "++"@[0]);
            assert("<<"@[0] != "++"@[0]);
            assert(">>"@[0] != "++"@[0]);
            assert("=="@[0] != "++"@[0]);
            assert("!="@[0] != "++"@[0]);
            assert(">="@[0] != "++"@[0]);
            assert("<="@[0] != "++"@[0]);
            assert("&&"@[0] != "++"@[0]);
            assert("||"@[0] != "++"@[0]);
            assert(spec_op_named("++"@) == Some(OpTy::CAT));
        },
    }
}

/// Built-in IR functions.
#[allow(non_camel_case_types)]
#[derive(Debug, Clone, Copy, PartialEq, Eq, Structural)]
pub enum IrFn {
    type_id,
    chiose,
    size,
    concat,
    byte,
    buffer_cut,
    buffer_left,
    buffer_right,
    increase,
    decrease,
    heap_grow,
    heap_write,
    heap_read,
    local_alloc,
    storage_rent,
    storage_delete,
    storage_load,
    memory_get,
    memory_put,
    memory_patch,
    global_get,
    global_put,
    gas_burn,
}

/// The built-in IR function called `s`: its instruction, how many
/// immediate bytes it takes, how many operands, and how many results.
pub open spec fn spec_irfn_named(s: Seq<char>) -> Option<(IrFn, Bytecode, usize, usize, usize)> {
    if s == "type_id"@ {
        Some((IrFn::type_id, Bytecode::TID, 0, 1, 1))
    } else if s == "chiose"@ {
        Some((IrFn::chiose, Bytecode::CHOOSE, 0, 3, 1))
    } else if s == "size"@ {
        Some((IrFn::size, Bytecode::SIZE, 0, 1, 1))
    } else if s == "concat"@ {
        Some((IrFn::concat, Bytecode::CAT, 0, 2, 1))
    } else if s == "byte"@ {
        Some((IrFn::byte, Bytecode::BYTE, 0, 2, 1))
    } else if s == "buffer_cut"@ {
        Some((IrFn::buffer_cut, Bytecode::CUT, 0, 3, 1))
    } else if s == "buffer_left"@ {
        Some((IrFn::buffer_left, Bytecode::LEFT, 1, 1, 1))
    } else if s == "buffer_right"@ {
        Some((IrFn::buffer_right, Bytecode::RIGHT, 1, 1, 1))
    } else if s == "increase"@ {
        Some((IrFn::increase, Bytecode::INC, 1, 1, 1))
    } else if s == "decrease"@ {
        Some((IrFn::decrease, Bytecode::DEC, 1, 1, 1))
    } else if s == "heap_grow"@ {
        Some((IrFn::heap_grow, Bytecode::HGROW, 1, 0, 0))
    } else if s == "heap_write"@ {
        Some((IrFn::heap_write, Bytecode::HWRITE, 0, 2, 0))
    } else if s == "heap_read"@ {
        Some((IrFn::heap_read, Bytecode::HREAD, 0, 2, 1))
    } else if s == "local_alloc"@ {
        Some((IrFn::local_alloc, Bytecode::ALLOC, 1, 0, 0))
    } else if s == "storage_rent"@ {
        Some((IrFn::storage_rent, Bytecode::SRENT, 0, 1, 0))
    } else if s == "storage_delete"@ {
        Some((IrFn::storage_delete, Bytecode::SDEL, 0, 1, 0))
    } else if s == "storage_load"@ {
        Some((IrFn::storage_load, Bytecode::SLOAD, 0, 1, 1))
    } else if s == "memory_get"@ {
        Some((IrFn::memory_get, Bytecode::MGET, 0, 1, 1))
    } else if s == "memory_put"@ {
        Some((IrFn::memory_put, Bytecode::MPUT, 0, 2, 0))
    } else if s == "memory_patch"@ {
        Some((IrFn::memory_patch, Bytecode::MPATCH, 0, 3, 1))
    } else if s == "global_get"@ {
        Some((IrFn::global_get, Bytecode::GGET, 0, 1, 1))
    } else if s == "global_put"@ {
        Some((IrFn::global_put, Bytecode::GPUT, 0, 2, 0))
    } else if s == "gas_burn"@ {
        Some((IrFn::gas_burn, Bytecode::BURN, 2, 0, 0))
    } else {
        None
    }
}

impl IrFn {
    /// The built-in IR function called `s`, with its instruction and shape.
    pub fn from_name(s: &str) -> (r: Option<(IrFn, Bytecode, usize, usize, usize)>)
        ensures
            r == spec_irfn_named(s@),
    {
        if str_eq(s, "type_id") {
            Some((IrFn::type_id, Bytecode::TID, 0, 1, 1))
        } else if str_eq(s, "chiose") {
            Some((IrFn::chiose, Bytecode::CHOOSE, 0, 3, 1))
        } else if str_eq(s, "size") {
            Some((IrFn::size, Bytecode::SIZE, 0, 1, 1))
        } else if str_eq(s, "concat") {
            Some((IrFn::concat, Bytecode::CAT, 0, 2, 1))
        } else if str_eq(s, "byte") {
            Some((IrFn::byte, Bytecode::BYTE, 0, 2, 1))
        } else if str_eq(s, "buffer_cut") {
            Some((IrFn::buffer_cut, Bytecode::CUT, 0, 3, 1))
        } else if str_eq(s, "buffer_left") {
            Some((IrFn::buffer_left, Bytecode::LEFT, 1, 1, 1))
        } else if str_eq(s, "buffer_right") {
            Some((IrFn::buffer_right, Bytecode::RIGHT, 1, 1, 1))
        } else if str_eq(s, "increase") {
            Some((IrFn::increase, Bytecode::INC, 1, 1, 1))
        } else if str_eq(s, "decrease") {
            Some((IrFn::decrease, Bytecode::DEC, 1, 1, 1))
        } else if str_eq(s, "heap_grow") {
            Some((IrFn::heap_grow, Bytecode::HGROW, 1, 0, 0))
        } else if str_eq(s, "heap_write") {
            Some((IrFn::heap_write, Bytecode::HWRITE, 0, 2, 0))
        } else if str_eq(s, "heap_read") {
            Some((IrFn::heap_read, Bytecode::HREAD, 0, 2, 1))
        } else if str_eq(s, "local_alloc") {
            Some((IrFn::local_alloc, Bytecode::ALLOC, 1, 0, 0))
        } else if str_eq(s, "storage_rent") {
            Some((IrFn::storage_rent, Bytecode::SRENT, 0, 1, 0))
        } else if str_eq(s, "storage_delete") {
            Some((IrFn::storage_delete, Bytecode::SDEL, 0, 1, 0))
        } else if str_eq(s, "storage_load") {
            Some((IrFn::storage_load, Bytecode::SLOAD, 0, 1, 1))
        } else if str_eq(s, "memory_get") {
            Some((IrFn::memory_get, Bytecode::MGET, 0, 1, 1))
        } else if str_eq(s, "memory_put") {
            Some((IrFn::memory_put, Bytecode::MPUT, 0, 2, 0))
        } else if str_eq(s, "memory_patch") {
            Some((IrFn::memory_patch, Bytecode::MPATCH, 0, 3, 1))
        } else if str_eq(s, "global_get") {
            Some((IrFn::global_get, Bytecode::GGET, 0, 1, 1))
        } else if str_eq(s, "global_put") {
            Some((IrFn::global_put, Bytecode::GPUT, 0, 2, 0))
        } else if str_eq(s, "gas_burn") {
            Some((IrFn::gas_burn, Bytecode::BURN, 2, 0, 0))
        } else {
            None
        }
    }
}

/// Character classes of the tokenizer.
#[derive(Debug, Clone, Copy, PartialEq, Eq, Structural, Default)]
pub enum TokenType {
    #[default]
    Blank,
    Word,
    Number,
    Str,
    StrEsc,
    Split,
    Symbol,
}

} // verus!
