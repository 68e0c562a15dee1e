//! The primitive routines, and the shim through which a call site reaches them.
//!
//! Each routine is one instruction. A call site either emits that instruction
//! in place or calls the symbol under which a prebuilt archive offers the same
//! routine; which of the two is fixed when the crate is built, and the
//! instruction that runs is the same either way.

use vstd::prelude::*;
use vstd::pervasive::unreached;
use crate::instruction::Instruction;
use crate::symbol::Symbol;

verus! {

/// Whether call sites emit a routine's instruction in place, rather than call
/// the archive's symbol for it.
pub const INLINE_EMISSION: bool = false;

/// A primitive routine: no arguments, no result, no state.
#[derive(Clone, Copy, Debug, PartialEq, Eq, Structural)]
pub enum Routine {
    Nop,
    Wait,
    Break,
}

impl Routine {
    /// The one instruction that is the routine's whole body.
    pub open spec fn body_spec(self) -> Instruction {
        match self {
            Routine::Nop => Instruction::Nop,
            Routine::Wait => Instruction::Wait,
            Routine::Break => Instruction::Break,
        }
    }

    /// The one instruction that is the routine's whole body.
    pub fn body(self) -> (i: Instruction)
        ensures
            i == self.body_spec(),
    {
        match self {
            Routine::Nop => Instruction::Nop,
            Routine::Wait => Instruction::Wait,
            Routine::Break => Instruction::Break,
        }
    }

    /// The symbol under which the archive offers the routine.
    pub open spec fn symbol_spec(self) -> Symbol {
        match self {
            Routine::Nop => Symbol::Nop,
            Routine::Wait => Symbol::Wait,
            Routine::Break => Symbol::Break,
        }
    }

    /// The symbol under which the archive offers the routine.
    pub fn symbol(self) -> (s: Symbol)
        ensures
            s == self.symbol_spec(),
    {
        match self {
            Routine::Nop => Symbol::Nop,
            Routine::Wait => Symbol::Wait,
            Routine::Break => Symbol::Break,
        }
    }
}

/// All there is to know of a routine.
#[derive(Clone, Copy, Debug, PartialEq, Eq, Structural)]
pub struct RoutineDescriptor {
    /// The routine that is described.
    pub routine: Routine,
    /// The name that call sites and the archive share.
    pub symbol: Symbol,
    /// How many arguments the routine takes.
    pub arguments: usize,
    /// Whether the routine gives a value back.
    pub returns_value: bool,
    /// The routine's one implementation.
    pub body: Instruction,
}

/// The descriptor of `routine`: its symbol, no arguments, no result, and the
/// one instruction that implements it.
pub fn describe(routine: Routine) -> (descriptor: RoutineDescriptor)
    ensures
        descriptor == (RoutineDescriptor {
            routine,
            symbol: routine.symbol_spec(),
            arguments: 0,
            returns_value: false,
            body: routine.body_spec(),
        }),
{
    RoutineDescriptor {
        routine,
        symbol: routine.symbol(),
        arguments: 0,
        returns_value: false,
        body: routine.body(),
    }
}

/// The routine that the archive defines under `symbol`, if it defines one.
pub open spec fn archive_routine_spec(symbol: Symbol) -> Option<Routine> {
    match symbol {
        Symbol::Nop => Some(Routine::Nop),
        Symbol::Wait => Some(Routine::Wait),
        Symbol::Break => Some(Routine::Break),
        _ => None,
    }
}

/// The routine that the archive defines under `symbol`, if it defines one.
pub fn archive_routine(symbol: Symbol) -> (r: Option<Routine>)
    ensures
        r == archive_routine_spec(symbol),
{
    match symbol {
        Symbol::Nop => Some(Routine::Nop),
        Symbol::Wait => Some(Routine::Wait),
        Symbol::Break => Some(Routine::Break),
        _ => None,
    }
}

/// What the shim leaves at the place where a routine is invoked.
#[derive(Clone, Copy, Debug, PartialEq, Eq, Structural)]
pub enum CallSite {
    /// The routine's instruction, emitted in place.
    Inline(Instruction),
    /// A call, by the C convention, to a symbol that the archive resolves.
    Call(Symbol),
}

impl CallSite {
    /// The instruction that the routine behind this call site executes, or
    /// `None` where the call names a symbol that the archive does not define.
    pub open spec fn emits_spec(self) -> Option<Instruction> {
        match self {
            CallSite::Inline(i) => Some(i),
            CallSite::Call(symbol) => match archive_routine_spec(symbol) {
                Some(routine) => Some(routine.body_spec()),
                None => None,
            },
        }
    }

    /// The instruction that the routine behind this call site executes, or
    /// `None` where the call names a symbol that the archive does not define.
    pub fn emits(self) -> (i: Option<Instruction>)
        ensures
            i == self.emits_spec(),
    {
        match self {
            CallSite::Inline(i) => Some(i),
            CallSite::Call(symbol) => match archive_routine(symbol) {
                Some(routine) => Some(routine.body()),
                None => None,
            },
        }
    }

    /// What link-time optimization makes of this call site: a call into the
    /// archive collapses into the routine's instruction; anything else stays.
    pub open spec fn inlined_spec(self) -> CallSite {
        match self {
            CallSite::Inline(i) => CallSite::Inline(i),
            CallSite::Call(symbol) => match archive_routine_spec(symbol) {
                Some(routine) => CallSite::Inline(routine.body_spec()),
                None => CallSite::Call(symbol),
            },
        }
    }

    /// What link-time optimization makes of this call site: a call into the
    /// archive collapses into the routine's instruction; anything else stays.
    pub fn inlined(self) -> (site: CallSite)
        ensures
            site == self.inlined_spec(),
    {
        match self {
            CallSite::Inline(i) => CallSite::Inline(i),
            CallSite::Call(symbol) => match archive_routine(symbol) {
                Some(routine) => CallSite::Inline(routine.body()),
                None => CallSite::Call(symbol),
            },
        }
    }
}

/// The call site that the shim produces for `routine`.
pub open spec fn call_site_spec(routine: Routine, inline: bool) -> CallSite {
    if inline {
        CallSite::Inline(routine.body_spec())
    } else {
        CallSite::Call(routine.symbol_spec())
    }
}

/// The call site that the shim produces for `routine`: its instruction in
/// place where `inline` is set, a call to its symbol where it is not.
pub fn dispatch(routine: Routine, inline: bool) -> (site: CallSite)
    ensures
        site == call_site_spec(routine, inline),
{
    if inline {
        CallSite::Inline(routine.body())
    } else {
        CallSite::Call(routine.symbol())
    }
}

/// The two forms of a call site run the same instruction, the routine's own,
/// and link-time optimization turns the call into the inline form.
pub proof fn lemma_dispatch_equivalent(routine: Routine)
    ensures
        call_site_spec(routine, true).emits_spec() == Some(routine.body_spec()),
        call_site_spec(routine, false).emits_spec() == Some(routine.body_spec()),
        call_site_spec(routine, false).inlined_spec() == call_site_spec(routine, true),
        call_site_spec(routine, true).inlined_spec() == call_site_spec(routine, true),
{
}

/// Each routine has a symbol of its own, the archive defines exactly the
/// routines' symbols, and each of them as the routine it is named for.
pub proof fn lemma_one_symbol_per_routine(a: Routine, b: Routine, symbol: Symbol)
    ensures
        a.symbol_spec() == b.symbol_spec() <==> a == b,
        a.symbol_spec().name_spec() == b.symbol_spec().name_spec() <==> a == b,
        archive_routine_spec(symbol) == Some(a) <==> symbol == a.symbol_spec(),
{
    crate::symbol::lemma_names_distinct(a.symbol_spec(), b.symbol_spec());
}

/// Runs `routine` through the shim, as this build has it, and gives the
/// instruction that the invocation executes.
fn invoke(routine: Routine) -> (emitted: Instruction)
    ensures
        emitted == routine.body_spec(),
{
    match dispatch(routine, INLINE_EMISSION).emits() {
        Some(instruction) => instruction,
        None => unreached(),
    }
}

/// A no-operation: the invocation executes exactly one `nop`.
pub fn nop() -> (emitted: Instruction)
    ensures
        emitted == Instruction::Nop,
{
    invoke(Routine::Nop)
}

/// Waits for an interrupt: the invocation executes exactly one `wait`.
pub fn wait() -> (emitted: Instruction)
    ensures
        emitted == Instruction::Wait,
{
    invoke(Routine::Wait)
}

/// A breakpoint: the invocation executes exactly one `break`.
pub fn breakpoint() -> (emitted: Instruction)
    ensures
        emitted == Instruction::Break,
{
    invoke(Routine::Break)
}

} // verus!
