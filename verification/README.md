# iris

The front end of the Iris language compiler, verified with Verus.

- `src/` is the verified library: source files and their line tables,
  diagnostics, the lexer, the token stream and the expression parser, the
  symbol interner, the global scope of a module and name resolution, the
  modules of the intermediate representation (their items, scope, exports
  and body), and the layout of a rendered diagnostic. Every function states what it returns in
  its contract; the laws of the library (interning, lexing, line tables,
  spans, scopes, type flags) are public proof functions.
- Expressions, statements and type annotations are not lowered into the
  intermediate representation here: the library defines no representation of
  expressions or types to lower into, and carries expressions and
  statements by the numbers they were allocated under.
- `tests/` runs the library on concrete inputs.
- `app/` is the unverified rest: reading files, caches shared between
  threads, and rendering diagnostics with colors.
