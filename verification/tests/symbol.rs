use mips_rt::instruction::{Instruction, Register};
use mips_rt::routines::{describe, Routine, RoutineDescriptor};
use mips_rt::symbol::Symbol;

const SYMBOLS: [Symbol; 8] = [
    Symbol::Nop,
    Symbol::Wait,
    Symbol::Break,
    Symbol::Reset,
    Symbol::ResetVector,
    Symbol::StackStart,
    Symbol::RustEntry,
    Symbol::PanicForward,
];

#[test]
fn symbol_names() {
    assert_eq!(Symbol::Nop.name(), "__nop");
    assert_eq!(Symbol::Wait.name(), "__wait");
    assert_eq!(Symbol::Break.name(), "__break");
    assert_eq!(Symbol::Reset.name(), "Reset");
    assert_eq!(Symbol::ResetVector.name(), "__RESET_VECTOR");
    assert_eq!(Symbol::StackStart.name(), "_stack_start");
    assert_eq!(Symbol::RustEntry.name(), "RustEntry");
    assert_eq!(
        Symbol::PanicForward.name(),
        "cortex-m internal error: panic handler not optimized out, please file an \
         issue at https://github.com/rust-embedded/cortex-m"
    );
}

#[test]
fn symbol_names_are_distinct() {
    for (i, a) in SYMBOLS.iter().enumerate() {
        for (j, b) in SYMBOLS.iter().enumerate() {
            assert_eq!(a.name() == b.name(), i == j);
        }
    }
}

#[test]
fn register_names() {
    assert_eq!(Register::Zero.name(), "$zero");
    assert_eq!(Register::Gp.name(), "$gp");
    assert_eq!(Register::Sp.name(), "$sp");
    assert_eq!(Register::Fp.name(), "$fp");
}

#[test]
fn instruction_text() {
    assert_eq!(Instruction::Nop.text(), "nop");
    assert_eq!(Instruction::Wait.text(), "wait");
    assert_eq!(Instruction::Break.text(), "break");
    assert_eq!(
        Instruction::Move { dst: Register::Sp, src: Register::Fp }.text(),
        "move $sp, $fp"
    );
    assert_eq!(
        Instruction::LoadAddress { dst: Register::Gp, symbol: Symbol::RustEntry }.text(),
        "li $gp, RustEntry"
    );
    assert_eq!(Instruction::Jump { target: Symbol::Reset }.text(), "j Reset");
}

#[test]
fn descriptors() {
    assert_eq!(
        describe(Routine::Nop),
        RoutineDescriptor {
            routine: Routine::Nop,
            symbol: Symbol::Nop,
            arguments: 0,
            returns_value: false,
            body: Instruction::Nop,
        }
    );
    assert_eq!(
        describe(Routine::Wait),
        RoutineDescriptor {
            routine: Routine::Wait,
            symbol: Symbol::Wait,
            arguments: 0,
            returns_value: false,
            body: Instruction::Wait,
        }
    );
    assert_eq!(
        describe(Routine::Break),
        RoutineDescriptor {
            routine: Routine::Break,
            symbol: Symbol::Break,
            arguments: 0,
            returns_value: false,
            body: Instruction::Break,
        }
    );
}
