//! The Hacash contract VM: bytecode catalog and verifier, IR parser and
//! compiler, native function catalog and pure natives, runtime containers.

pub mod error;
pub mod xop;
pub mod text;
pub mod bytecode;
pub mod verify;
pub mod ir;
pub mod ir_parse;
pub mod ir_compile;
pub mod value;
pub mod catalog;
pub mod cap;
pub mod gas;
pub mod hash;
pub mod argv;
pub mod natives;
pub mod stack;
pub mod sourcemap;
pub mod lang;
pub mod funcs;
pub mod deferred;
pub mod actdefs;
pub mod ast;
pub mod ascii;
pub mod addr;
pub mod ctl;
pub mod extensions;
pub mod tokenizer;
pub mod syntax;
