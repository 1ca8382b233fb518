# watt

A runtime front end for Rust procedural macros compiled to WebAssembly,
written in Verus.

- `src/wasm_macro.rs`: `WasmMacro`, a compiled Wasm module together with its
  lazily assigned id, and the calls (`proc_macro`, `proc_macro_derive`,
  `proc_macro_attribute`) that describe which exported function the runtime
  runs on which token streams.
- `src/demo.rs`: the example `Demo` derive, built on `syn` and `proc-macro2`:
  it gives a type a `MESSAGE` constant that greets by the type's name.
- `app/lib.rs`: the process-wide id counter, a `static` that the library
  takes as an argument.
- `tests/`: tests of both modules.
