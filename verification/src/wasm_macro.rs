use std::sync::atomic::AtomicUsize;
use std::sync::atomic::Ordering;
use vstd::prelude::*;

verus! {

/// The id that a module carries before one has been assigned to it.
pub const UNASSIGNED_ID: usize = 0;

/// The first id that the process-wide id counter hands out; a counter that
/// [`WasmMacro::id`] draws from starts at this value.
pub const FIRST_ID: usize = 1;

/// An instantiation of a WebAssembly module used to invoke procedural macro
/// methods on the wasm module.
pub struct WasmMacro<'bytecode> {
    wasm: &'bytecode [u8],
    id: AtomicUsize,
}

/// One invocation of a macro implemented in wasm: the exported function
/// `fun` of `module` applied to the token streams `args`, in this order.
pub struct MacroCall<'m, 'bytecode, T> {
    pub fun: &'m str,
    pub args: Vec<T>,
    pub module: &'m WasmMacro<'bytecode>,
}

/// What [`WasmMacro::id`] returns once it has tried to store a fresh id:
/// the value that the module's id slot held when the attempt was made,
/// whether the attempt went through or not. After a successful attempt that
/// is the unassigned marker (the stored id is what later calls return);
/// after a failed one it is the id that was stored first.
pub open spec fn settled_id(claim: Result<usize, usize>) -> usize {
    match claim {
        Ok(previous) => previous,
        Err(stored) => stored,
    }
}

/// Resolves the outcome of an attempt to store a fresh id in a module's id
/// slot: the value that the slot held, on success as on failure.
pub fn settle_id(claim: Result<usize, usize>) -> (id: usize)
    ensures
        id == settled_id(claim),
{
    match claim {
        Ok(previous) => previous,
        Err(stored) => stored,
    }
}

/// What [`WasmMacro::id`] returns, given what it loaded from the module's
/// id slot and, when that was the unassigned marker, the outcome of its
/// attempt to store a fresh id: an assigned id that was loaded is returned
/// as it is; otherwise the attempt is settled by [`settled_id`].
pub open spec fn decided_id(loaded: usize, claim: Option<Result<usize, usize>>) -> usize {
    match claim {
        Some(attempt) if loaded == UNASSIGNED_ID => settled_id(attempt),
        _ => loaded,
    }
}

/// Decides what [`WasmMacro::id`] returns from the values it observed.
pub fn decide_id(loaded: usize, claim: Option<Result<usize, usize>>) -> (id: usize)
    ensures
        id == decided_id(loaded, claim),
        loaded != UNASSIGNED_ID ==> id == loaded,
{
    if loaded != UNASSIGNED_ID {
        return loaded;
    }
    match claim {
        Some(attempt) => settle_id(attempt),
        None => loaded,
    }
}

/// Once a module's slot holds an assigned id, every later decision returns
/// that id, whatever attempt to store accompanies it.
pub proof fn lemma_loaded_id_is_kept(loaded: usize, claim: Option<Result<usize, usize>>)
    requires
        loaded != UNASSIGNED_ID,
    ensures
        decided_id(loaded, claim) == loaded,
        decided_id(loaded, claim) == decided_id(loaded, None),
{
}

/// An attempt on an unassigned slot settles to the unassigned marker
/// exactly when it stored its fresh id: a successful attempt reports the
/// marker it replaced, a failed one the assigned id that was already there.
pub proof fn lemma_settled_id_marks_a_stored_claim(claim: Result<usize, usize>)
    requires
        claim matches Ok(previous) ==> previous == UNASSIGNED_ID,
        claim matches Err(stored) ==> stored != UNASSIGNED_ID,
    ensures
        (settled_id(claim) == UNASSIGNED_ID) <==> (claim is Ok),
{
}

/// Calls `AtomicUsize::compare_exchange` on `slot` with sequentially
/// consistent ordering. Its contract claims what the std documentation
/// states: on success the returned previous value equals `current` (and
/// `new` was stored); on failure the returned actual value differs from
/// `current`. Which of the two happens depends on other threads and is
/// not stated.
#[verifier::external_body]
fn compare_exchange_seqcst(slot: &AtomicUsize, current: usize, new: usize) -> (r: Result<
    usize,
    usize,
>)
    ensures
        r matches Ok(previous) ==> previous == current,
        r matches Err(actual) ==> actual != current,
{
    slot.compare_exchange(current, new, Ordering::SeqCst, Ordering::SeqCst)
}

impl<'bytecode> WasmMacro<'bytecode> {
    /// The bytes of the Wasm module.
    pub closed spec fn bytecode(&self) -> Seq<u8> {
        self.wasm@
    }

    /// Creates a new `WasmMacro` from the statically included blob of wasm
    /// bytes. No id is assigned to it yet.
    pub fn new(wasm: &'bytecode [u8]) -> (m: Self)
        ensures
            m.bytecode() == wasm@,
    {
        WasmMacro { wasm, id: AtomicUsize::new(UNASSIGNED_ID) }
    }

    /// The bytes of the Wasm module, as handed to [`WasmMacro::new`].
    pub fn wasm(&self) -> (wasm: &'bytecode [u8])
        ensures
            wasm@ == self.bytecode(),
    {
        self.wasm
    }

    /// A #\[proc_macro\] implemented in wasm: the exported function `fun`
    /// is called with the macro's input.
    pub fn proc_macro<'m, T>(&'m self, fun: &'m str, input: T) -> (call: MacroCall<
        'm,
        'bytecode,
        T,
    >)
        ensures
            call.fun@ == fun@,
            call.args@ == seq![input],
            call.module == self,
    {
        let mut args: Vec<T> = Vec::new();
        args.push(input);
        MacroCall { fun, args, module: self }
    }

    /// A #\[proc_macro_derive\] implemented in wasm: the exported function
    /// `fun` is called with the item that the derive is attached to.
    pub fn proc_macro_derive<'m, T>(&'m self, fun: &'m str, input: T) -> (call: MacroCall<
        'm,
        'bytecode,
        T,
    >)
        ensures
            call.fun@ == fun@,
            call.args@ == seq![input],
            call.module == self,
    {
        let mut args: Vec<T> = Vec::new();
        args.push(input);
        MacroCall { fun, args, module: self }
    }

    /// A #\[proc_macro_attribute\] implemented in wasm: the exported
    /// function `fun` is called with the attribute's arguments first and the
    /// annotated item second.
    pub fn proc_macro_attribute<'m, T>(
        &'m self,
        fun: &'m str,
        args: T,
        input: T,
    ) -> (call: MacroCall<'m, 'bytecode, T>)
        ensures
            call.fun@ == fun@,
            call.args@ == seq![args, input],
            call.module == self,
    {
        let mut call_args: Vec<T> = Vec::new();
        call_args.push(args);
        call_args.push(input);
        MacroCall { fun, args: call_args, module: self }
    }

    /// The id of this module, under which the runtime caches its
    /// instantiation. A call that finds the slot unassigned draws a fresh id
    /// from `next_id` and stores it unless another thread stored one first;
    /// it returns what the slot held at that moment, so the call that stores
    /// the id returns the unassigned marker and later calls return the
    /// stored id.
    ///
    /// What the atomic operations read depends on other threads, so the
    /// contract states nothing of the returned value; the decision made from
    /// the observed values is [`decide_id`].
    pub fn id(&self, next_id: &AtomicUsize) -> usize {
        let loaded = self.id.load(Ordering::SeqCst);
        let claim = if loaded == UNASSIGNED_ID {
            let candidate = next_id.fetch_add(1, Ordering::SeqCst);
            Some(compare_exchange_seqcst(&self.id, UNASSIGNED_ID, candidate))
        } else {
            None
        };
        decide_id(loaded, claim)
    }
}

} // verus!
