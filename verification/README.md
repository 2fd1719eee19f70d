# nj-derive

The analysis and code generation behind the `#[node_bindgen]` attribute,
which turns a Rust function into a function of a Node.js native module
(N-API), verified with Verus.

The attribute's input (its arguments and the annotated function) is held as
plain values (`src/model.rs`). From it the library

- reads the attribute arguments: `name = "..."`, `constructor`, `getter`,
  `setter`, `mt` (`src/ast/attribute.rs`);
- reads the function's arguments: plain values, references, closures (a
  generic parameter bounded by `Fn(...)`), and `&JsCallback`
  (`src/ast/arg.rs`);
- generates the native wrapper `#[no_mangle] pub extern "C" fn n_<name>`, which reads the JS arguments,
  calls the function and converts its result, and the registration of the
  wrapper under the function's name in camel case (`src/function/`);
- decides what the attribute emits (`src/expand.rs`): for a function, its
  native wrapper and the wrapper's registration (a `constructor` is emitted
  as it is); for an `impl` block, nothing. A refused attribute argument or
  function argument is answered with the refusal and the span of what was
  refused.

Every generated text is specified exactly by spec functions; the properties
that span several parts of the generator are proved in
`src/function/laws.rs`.

`app/lib.rs` is the compiler's edge: it parses with `syn`, converts to the
model, lexes the emitted text into tokens, and turns a refusal into a
`compile_error!` at the refusal's span. `tests/` exercises the library on concrete
functions.
