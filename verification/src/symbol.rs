//! The fixed names under which the runtime's pieces meet at link time.

use vstd::prelude::*;

verus! {

/// A linkable symbol that the runtime offers or needs.
#[derive(Clone, Copy, Debug, PartialEq, Eq, Structural)]
pub enum Symbol {
    /// The no-operation routine.
    Nop,
    /// The wait-for-interrupt routine.
    Wait,
    /// The breakpoint routine.
    Break,
    /// The entry point that hardware runs after reset.
    Reset,
    /// The data word, in the vector table, that holds the address of `Reset`.
    ResetVector,
    /// The top of the stack region, fixed by the linker script.
    StackStart,
    /// The entry of the higher-level runtime, which takes over after reset.
    RustEntry,
    /// The target of the panic hook, which no unit ever defines.
    PanicForward,
}

impl Symbol {
    /// The unmangled name that the linker sees.
    pub open spec fn name_spec(self) -> Seq<char> {
        match self {
            Symbol::Nop => "__nop"@,
            Symbol::Wait => "__wait"@,
            Symbol::Break => "__break"@,
            Symbol::Reset => "Reset"@,
            Symbol::ResetVector => "__RESET_VECTOR"@,
            Symbol::StackStart => "_stack_start"@,
            Symbol::RustEntry => "RustEntry"@,
            Symbol::PanicForward =>
                "cortex-m internal error: panic handler not optimized out, please file an issue at https://github.com/rust-embedded/cortex-m"@,
        }
    }

    /// The unmangled name that the linker sees.
    pub fn name(self) -> (s: &'static str)
        ensures
            s@ == self.name_spec(),
    {
        match self {
            Symbol::Nop => "__nop",
            Symbol::Wait => "__wait",
            Symbol::Break => "__break",
            Symbol::Reset => "Reset",
            Symbol::ResetVector => "__RESET_VECTOR",
            Symbol::StackStart => "_stack_start",
            Symbol::RustEntry => "RustEntry",
            Symbol::PanicForward =>
                "cortex-m internal error: panic handler not optimized out, please file an issue at https://github.com/rust-embedded/cortex-m",
        }
    }
}

/// No two symbols share a name, so a name picks out at most one symbol.
pub proof fn lemma_names_distinct(a: Symbol, b: Symbol)
    ensures
        a.name_spec() == b.name_spec() <==> a == b,
{
    reveal_strlit("__nop");
    reveal_strlit("__wait");
    reveal_strlit("__break");
    reveal_strlit("Reset");
    reveal_strlit("__RESET_VECTOR");
    reveal_strlit("_stack_start");
    reveal_strlit("RustEntry");
    reveal_strlit(
        "cortex-m internal error: panic handler not optimized out, please file an issue at https://github.com/rust-embedded/cortex-m",
    );
    if a != b && a.name_spec().len() == b.name_spec().len() {
        assert(a.name_spec()[0] != b.name_spec()[0]);
    }
}

} // verus!
