# vm

The core of the Hacash contract VM as a verified Verus library: the bytecode
catalog and its static verifier, the IR parser and IR-to-bytecode compiler,
the tokenizer and parser of the contract language, the native-function
catalogs and the natives that compute on plain values (digests, ASCII checks,
patch sets, address predicates, buffer readers; rows that need the Hacash
field codec are answered with an error), and the runtime containers (operand
stack, deferred-hook registry, source map).

Every executable function in `src/` carries a `requires`/`ensures` contract
proved by Verus; cross-function properties (round trips, jump targets of
compiled control flow, invariants of the registries) are stated as public
proof functions next to the code they speak of.

Layout:

- `src/bytecode.rs`, `src/verify.rs`, `src/xop.rs`: opcodes, metadata, the
  code verifier and local-operator marks.
- `src/ir.rs`, `src/ir_parse.rs`, `src/ir_compile.rs`: the IR tree, its
  parser and the compiler to runtime bytecode.
- `src/tokenizer.rs`, `src/syntax.rs`, `src/lang.rs`, `src/ast.rs`,
  `src/funcs.rs`: the contract language's tokens, parser, keywords, operators
  and call helpers.
- `src/catalog.rs`, `src/natives.rs`, `src/argv.rs`, `src/hash.rs`,
  `src/ascii.rs`, `src/addr.rs`, `src/extensions.rs`, `src/ctl.rs`: native
  calls; `src/hash.rs` holds the calls into the digest crates.
- `src/value.rs`, `src/stack.rs`, `src/deferred.rs`, `src/sourcemap.rs`,
  `src/gas.rs`, `src/cap.rs`, `src/error.rs`, `src/actdefs.rs`: runtime
  values, containers, limits and errors.
- `tests/`: executable tests of the library.
