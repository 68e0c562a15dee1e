//! The machine instructions that the runtime emits, as data.

use vstd::prelude::*;
use vstd::string::*;
use crate::symbol::Symbol;

verus! {

/// A general-purpose register that the reset sequence names.
#[derive(Clone, Copy, Debug, PartialEq, Eq, Structural)]
pub enum Register {
    /// The register that always reads as zero.
    Zero,
    /// The global pointer.
    Gp,
    /// The stack pointer.
    Sp,
    /// The frame pointer.
    Fp,
}

impl Register {
    /// The register's name in assembly text.
    pub open spec fn name_spec(self) -> Seq<char> {
        match self {
            Register::Zero => "$zero"@,
            Register::Gp => "$gp"@,
            Register::Sp => "$sp"@,
            Register::Fp => "$fp"@,
        }
    }

    /// The register's name in assembly text.
    pub fn name(self) -> (s: &'static str)
        ensures
            s@ == self.name_spec(),
    {
        match self {
            Register::Zero => "$zero",
            Register::Gp => "$gp",
            Register::Sp => "$sp",
            Register::Fp => "$fp",
        }
    }
}

/// One machine instruction.
///
/// A load takes its value from a symbol, never from a computation, and the
/// only transfer of control is a jump, which records no return address: the
/// type has no way to say otherwise.
#[derive(Clone, Copy, Debug, PartialEq, Eq, Structural)]
pub enum Instruction {
    /// Do nothing for one cycle.
    Nop,
    /// Idle until an interrupt arrives.
    Wait,
    /// Trap into the debugger.
    Break,
    /// Copy `src` into `dst`.
    Move { dst: Register, src: Register },
    /// Load the address of `symbol`, as the linker resolved it, into `dst`.
    LoadAddress { dst: Register, symbol: Symbol },
    /// Jump to `target` without linking.
    Jump { target: Symbol },
}

impl Instruction {
    /// The instruction as one line of assembly text.
    pub open spec fn text_spec(self) -> Seq<char> {
        match self {
            Instruction::Nop => "nop"@,
            Instruction::Wait => "wait"@,
            Instruction::Break => "break"@,
            Instruction::Move { dst, src } => "move "@ + dst.name_spec() + ", "@ + src.name_spec(),
            Instruction::LoadAddress { dst, symbol } => "li "@ + dst.name_spec() + ", "@
                + symbol.name_spec(),
            Instruction::Jump { target } => "j "@ + target.name_spec(),
        }
    }

    /// The instruction as one line of assembly text.
    pub fn text(self) -> (line: String)
        ensures
            line@ == self.text_spec(),
    {
        match self {
            Instruction::Nop => String::from_str("nop"),
            Instruction::Wait => String::from_str("wait"),
            Instruction::Break => String::from_str("break"),
            Instruction::Move { dst, src } => {
                let mut line = String::from_str("move ");
                line.append(dst.name());
                line.append(", ");
                line.append(src.name());
                line
            },
            Instruction::LoadAddress { dst, symbol } => {
                let mut line = String::from_str("li ");
                line.append(dst.name());
                line.append(", ");
                line.append(symbol.name());
                line
            },
            Instruction::Jump { target } => {
                let mut line = String::from_str("j ");
                line.append(target.name());
                line
            },
        }
    }
}

} // verus!
