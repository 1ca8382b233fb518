//! Watt: the front end of a runtime for Rust procedural macros compiled
//! as WebAssembly. It holds the compiled modules and describes the calls
//! that the runtime performs on them; it does not execute Wasm itself.
//!
//! A [`WasmMacro`] holds the bytes of a compiled Wasm module and, lazily, a
//! process-wide id under which the runtime caches the instantiated module.
//! Its `proc_macro`, `proc_macro_derive` and `proc_macro_attribute` methods
//! describe the call that the runtime performs: which exported function of
//! the module is invoked, and with which token streams, in which order.
//!
//! The `demo` module holds the example derive macro that is meant to be
//! compiled to Wasm and run this way.

mod wasm_macro;
pub mod demo;

pub use wasm_macro::{
    decide_id, decided_id, lemma_loaded_id_is_kept, lemma_settled_id_marks_a_stored_claim, settle_id, settled_id, MacroCall, WasmMacro, FIRST_ID,
    UNASSIGNED_ID,
};
