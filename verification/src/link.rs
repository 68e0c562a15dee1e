//! Symbol resolution at link time, and what it makes of the panic hook.
//!
//! The unit that holds the routines and the entry point must not be able to
//! panic. Its panic hook forwards to a symbol that nothing defines, so a hook
//! that survives into the image leaves that symbol unresolved and the link
//! fails: a property of the running program becomes a property of the build.

use vstd::prelude::*;
use crate::symbol::Symbol;

verus! {

/// Why an image could not be linked.
#[derive(Clone, Copy, Debug, PartialEq, Eq, Structural)]
pub enum LinkError {
    /// A symbol is referred to and nowhere defined.
    Unresolved(Symbol),
}

/// The link section that holds the panic hook, and nothing else.
pub open spec fn panic_hook_section_spec() -> Seq<char> {
    "panic_handler_unreachable"@
}

/// The link section that holds the panic hook, and nothing else.
pub fn panic_hook_section() -> (section: &'static str)
    ensures
        section@ == panic_hook_section_spec(),
{
    "panic_handler_unreachable"
}

/// Whether `symbol` is among `definitions`.
pub fn is_defined(definitions: &Vec<Symbol>, symbol: Symbol) -> (b: bool)
    ensures
        b == definitions@.contains(symbol),
{
    let mut i: usize = 0;
    while i < definitions.len()
        invariant
            i <= definitions.len(),
            forall|j: int| 0 <= j < i ==> definitions@[j] != symbol,
        decreases definitions.len() - i,
    {
        if definitions[i] == symbol {
            return true;
        }
        i += 1;
    }
    false
}

/// Whether every symbol of `references` is among `definitions`.
pub open spec fn resolves_spec(references: Seq<Symbol>, definitions: Seq<Symbol>) -> bool {
    forall|i: int| 0 <= i < references.len() ==> definitions.contains(#[trigger] references[i])
}

/// Whether `symbol` is the first of `references` that `definitions` lacks.
pub open spec fn first_unresolved_spec(
    references: Seq<Symbol>,
    definitions: Seq<Symbol>,
    symbol: Symbol,
) -> bool {
    exists|i: int|
        {
            &&& 0 <= i < references.len()
            &&& #[trigger] references[i] == symbol
            &&& !definitions.contains(symbol)
            &&& resolves_spec(references.take(i), definitions)
        }
}

/// Resolves `references` against `definitions`. The link succeeds exactly
/// where every reference is defined; where it fails, the error names the
/// first reference that is not.
pub fn link(references: &Vec<Symbol>, definitions: &Vec<Symbol>) -> (outcome: Result<
    (),
    LinkError,
>)
    ensures
        outcome is Ok <==> resolves_spec(references@, definitions@),
        outcome matches Err(LinkError::Unresolved(symbol)) ==> first_unresolved_spec(
            references@,
            definitions@,
            symbol,
        ),
{
    let mut i: usize = 0;
    while i < references.len()
        invariant
            i <= references.len(),
            resolves_spec(references@.take(i as int), definitions@),
        decreases references.len() - i,
    {
        let symbol = references[i];
        if !is_defined(definitions, symbol) {
            assert(!resolves_spec(references@, definitions@));
            return Err(LinkError::Unresolved(symbol));
        }
        proof {
            let before = references@.take(i as int);
            let after = references@.take(i + 1);
            assert forall|j: int| 0 <= j < after.len() implies definitions@.contains(
                #[trigger] after[j],
            ) by {
                if j < i {
                    assert(before[j] == after[j]);
                }
            }
        }
        i += 1;
    }
    assert(references@.take(i as int) =~= references@);
    Ok(())
}

/// The symbols that the unit defines: the routines, the entry point and the
/// reset vector.
pub open spec fn unit_definitions_spec() -> Seq<Symbol> {
    seq![Symbol::Nop, Symbol::Wait, Symbol::Break, Symbol::Reset, Symbol::ResetVector]
}

/// The symbols that the unit defines: the routines, the entry point and the
/// reset vector.
pub fn unit_definitions() -> (symbols: Vec<Symbol>)
    ensures
        symbols@ == unit_definitions_spec(),
{
    let mut symbols: Vec<Symbol> = Vec::new();
    symbols.push(Symbol::Nop);
    symbols.push(Symbol::Wait);
    symbols.push(Symbol::Break);
    symbols.push(Symbol::Reset);
    symbols.push(Symbol::ResetVector);
    assert(symbols@ =~= unit_definitions_spec());
    symbols
}

/// The symbols that the unit needs from elsewhere: the top of the stack and
/// the runtime's entry, for the entry point, and the target of the panic hook
/// where, and only where, some operation of the unit can panic.
pub open spec fn unit_references_spec(can_panic: bool) -> Seq<Symbol> {
    if can_panic {
        seq![Symbol::StackStart, Symbol::RustEntry, Symbol::PanicForward]
    } else {
        seq![Symbol::StackStart, Symbol::RustEntry]
    }
}

/// The symbols that the unit needs from elsewhere: the top of the stack and
/// the runtime's entry, for the entry point, and the target of the panic hook
/// where, and only where, some operation of the unit can panic.
pub fn unit_references(can_panic: bool) -> (symbols: Vec<Symbol>)
    ensures
        symbols@ == unit_references_spec(can_panic),
{
    let mut symbols: Vec<Symbol> = Vec::new();
    symbols.push(Symbol::StackStart);
    symbols.push(Symbol::RustEntry);
    if can_panic {
        symbols.push(Symbol::PanicForward);
    }
    assert(symbols@ =~= unit_references_spec(can_panic));
    symbols
}

/// Links the unit into an image whose other parts define `definitions`.
pub fn link_unit(can_panic: bool, definitions: &Vec<Symbol>) -> (outcome: Result<(), LinkError>)
    ensures
        outcome is Ok <==> resolves_spec(unit_references_spec(can_panic), definitions@),
        outcome matches Err(LinkError::Unresolved(symbol)) ==> first_unresolved_spec(
            unit_references_spec(can_panic),
            definitions@,
            symbol,
        ),
{
    let references = unit_references(can_panic);
    link(&references, definitions)
}

/// A unit in which nothing can panic never asks for the target of
/// the panic hook, so its link goes the same way whether or not that symbol
/// is defined. A unit in which something can panic does not link as long as
/// nothing defines the target; where all else is resolved, the target is the
/// symbol that the failure names.
pub proof fn lemma_panic_gate(definitions: Seq<Symbol>, symbol: Symbol)
    ensures
        !unit_references_spec(false).contains(Symbol::PanicForward),
        resolves_spec(unit_references_spec(false), definitions) <==> resolves_spec(
            unit_references_spec(false),
            definitions.push(Symbol::PanicForward),
        ),
        !definitions.contains(Symbol::PanicForward) ==> !resolves_spec(
            unit_references_spec(true),
            definitions,
        ),
        !definitions.contains(Symbol::PanicForward) && resolves_spec(
            unit_references_spec(false),
            definitions,
        ) && first_unresolved_spec(unit_references_spec(true), definitions, symbol) ==> symbol
            == Symbol::PanicForward,
{
    let quiet = unit_references_spec(false);
    let loud = unit_references_spec(true);
    let more = definitions.push(Symbol::PanicForward);
    assert(quiet[0] == Symbol::StackStart && quiet[1] == Symbol::RustEntry);
    assert(loud[2] == Symbol::PanicForward);
    assert forall|s: Symbol| s != Symbol::PanicForward implies (definitions.contains(s)
        <==> more.contains(s)) by {
        if definitions.contains(s) {
            let i = choose|i: int| 0 <= i < definitions.len() && definitions[i] == s;
            assert(more[i] == s);
        }
        if more.contains(s) {
            let i = choose|i: int| 0 <= i < more.len() && more[i] == s;
            assert(definitions[i] == s);
        }
    }
    if first_unresolved_spec(loud, definitions, symbol) && resolves_spec(quiet, definitions) {
        let i = choose|i: int|
            {
                &&& 0 <= i < loud.len()
                &&& #[trigger] loud[i] == symbol
                &&& !definitions.contains(symbol)
                &&& resolves_spec(loud.take(i), definitions)
            };
        if i < 2 {
            assert(quiet[i] == loud[i]);
        }
    }
}

} // verus!
