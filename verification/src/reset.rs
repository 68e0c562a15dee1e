//! The reset sequence: from power-on to the hand-off into the runtime.
//!
//! The sequence is a state machine with one way through it. Each transition
//! is a fixed run of instructions, and nothing else belongs to the entry
//! point: it has no frame set-up or tear-down, since the stack is not valid
//! until the second transition is done.

use vstd::prelude::*;
use crate::instruction::{Instruction, Register};
use crate::symbol::Symbol;

verus! {

/// How far the processor has come since reset.
#[derive(Clone, Copy, Debug, PartialEq, Eq, Structural)]
pub enum BootstrapState {
    /// Out of reset. The pointer registers hold whatever they held.
    PoweredOn,
    /// The global pointer and the frame pointer are zero.
    RegistersCleared,
    /// The stack pointer holds the top of the stack region: calls are safe.
    StackInitialized,
    /// Control has passed to the runtime's entry, for good.
    HandoffComplete,
}

impl BootstrapState {
    /// The number of transitions taken to reach this state.
    pub open spec fn rank(self) -> nat {
        match self {
            BootstrapState::PoweredOn => 0,
            BootstrapState::RegistersCleared => 1,
            BootstrapState::StackInitialized => 2,
            BootstrapState::HandoffComplete => 3,
        }
    }

    /// The state that follows this one, or `None` at the end.
    pub open spec fn next_spec(self) -> Option<BootstrapState> {
        match self {
            BootstrapState::PoweredOn => Some(BootstrapState::RegistersCleared),
            BootstrapState::RegistersCleared => Some(BootstrapState::StackInitialized),
            BootstrapState::StackInitialized => Some(BootstrapState::HandoffComplete),
            BootstrapState::HandoffComplete => None,
        }
    }

    /// The instructions of the transition that leaves this state.
    pub open spec fn code_spec(self) -> Seq<Instruction> {
        match self {
            BootstrapState::PoweredOn => seq![
                Instruction::Move { dst: Register::Gp, src: Register::Zero },
                Instruction::Move { dst: Register::Fp, src: Register::Zero },
            ],
            BootstrapState::RegistersCleared => seq![
                Instruction::LoadAddress { dst: Register::Sp, symbol: Symbol::StackStart },
            ],
            BootstrapState::StackInitialized => seq![
                Instruction::Jump { target: Symbol::RustEntry },
            ],
            BootstrapState::HandoffComplete => Seq::empty(),
        }
    }

    /// All that has been executed when this state is reached.
    pub open spec fn executed_spec(self) -> Seq<Instruction> {
        match self {
            BootstrapState::PoweredOn => Seq::empty(),
            BootstrapState::RegistersCleared => BootstrapState::PoweredOn.code_spec(),
            BootstrapState::StackInitialized => BootstrapState::PoweredOn.code_spec()
                + BootstrapState::RegistersCleared.code_spec(),
            BootstrapState::HandoffComplete => BootstrapState::PoweredOn.code_spec()
                + BootstrapState::RegistersCleared.code_spec()
                + BootstrapState::StackInitialized.code_spec(),
        }
    }

    /// Whether the global pointer and the frame pointer are known to be zero.
    pub open spec fn pointers_cleared_spec(self) -> bool {
        self.rank() >= 1
    }

    /// Whether the stack pointer is valid, so that a call may be made.
    pub open spec fn stack_valid_spec(self) -> bool {
        self.rank() >= 2
    }

    /// Whether the global pointer and the frame pointer are known to be zero.
    pub fn pointers_cleared(self) -> (b: bool)
        ensures
            b == self.pointers_cleared_spec(),
    {
        match self {
            BootstrapState::PoweredOn => false,
            _ => true,
        }
    }

    /// Whether the stack pointer is valid, so that a call may be made.
    pub fn stack_valid(self) -> (b: bool)
        ensures
            b == self.stack_valid_spec(),
    {
        match self {
            BootstrapState::PoweredOn | BootstrapState::RegistersCleared => false,
            _ => true,
        }
    }

    /// Takes the one transition that leaves this state: gives the state it
    /// leads to and the instructions it executes, or `None` at the end.
    pub fn advance(self) -> (step: Option<(BootstrapState, Vec<Instruction>)>)
        ensures
            step is Some <==> self != BootstrapState::HandoffComplete,
            step matches Some((next, code)) ==> {
                &&& Some(next) == self.next_spec()
                &&& code@ == self.code_spec()
            },
    {
        let mut code: Vec<Instruction> = Vec::new();
        match self {
            BootstrapState::PoweredOn => {
                code.push(Instruction::Move { dst: Register::Gp, src: Register::Zero });
                code.push(Instruction::Move { dst: Register::Fp, src: Register::Zero });
                assert(code@ =~= self.code_spec());
                Some((BootstrapState::RegistersCleared, code))
            },
            BootstrapState::RegistersCleared => {
                code.push(
                    Instruction::LoadAddress { dst: Register::Sp, symbol: Symbol::StackStart },
                );
                assert(code@ =~= self.code_spec());
                Some((BootstrapState::StackInitialized, code))
            },
            BootstrapState::StackInitialized => {
                code.push(Instruction::Jump { target: Symbol::RustEntry });
                assert(code@ =~= self.code_spec());
                Some((BootstrapState::HandoffComplete, code))
            },
            BootstrapState::HandoffComplete => None,
        }
    }
}

/// The whole of the entry point, in the order in which it executes.
pub open spec fn reset_program_spec() -> Seq<Instruction> {
    seq![
        Instruction::Move { dst: Register::Gp, src: Register::Zero },
        Instruction::Move { dst: Register::Fp, src: Register::Zero },
        Instruction::LoadAddress { dst: Register::Sp, symbol: Symbol::StackStart },
        Instruction::Jump { target: Symbol::RustEntry },
    ]
}

/// The entry point that hardware runs after reset, as the instructions it
/// executes: it clears the global and frame pointers, loads the stack pointer
/// with the address that the linker gave the top of the stack, and jumps to
/// the runtime's entry. It holds nothing before, between or after these.
#[allow(non_snake_case)]
pub fn Reset() -> (program: Vec<Instruction>)
    ensures
        program@ == reset_program_spec(),
{
    let mut state = BootstrapState::PoweredOn;
    let mut program: Vec<Instruction> = Vec::new();
    loop
        invariant
            program@ == state.executed_spec(),
        ensures
            state == BootstrapState::HandoffComplete,
            program@ == state.executed_spec(),
        decreases 3 - state.rank(),
    {
        match state.advance() {
            Some((next, mut code)) => {
                proof {
                    assert(state.executed_spec() + state.code_spec() =~= next.executed_spec());
                }
                program.append(&mut code);
                state = next;
            },
            None => {
                break;
            },
        }
    }
    assert(program@ =~= reset_program_spec());
    program
}

/// Where the address of the entry point is placed for hardware to find it.
#[derive(Clone, Copy, Debug)]
pub struct VectorEntry {
    /// The symbol of the data word itself.
    pub symbol: Symbol,
    /// The link section that puts the word at the reset vector.
    pub section: &'static str,
    /// The symbol whose address the word holds.
    pub target: Symbol,
}

/// The name of the link section that lands on the reset vector.
pub open spec fn reset_vector_section_spec() -> Seq<char> {
    ".vector_table.reset_vector"@
}

/// The reset vector: a word in its own link section that points at `Reset`.
pub fn reset_vector() -> (entry: VectorEntry)
    ensures
        entry.symbol == Symbol::ResetVector,
        entry.section@ == reset_vector_section_spec(),
        entry.target == Symbol::Reset,
{
    VectorEntry {
        symbol: Symbol::ResetVector,
        section: ".vector_table.reset_vector",
        target: Symbol::Reset,
    }
}

/// Whether `path` is a run of the machine: it starts out of reset, each state
/// is followed by its successor, and it ends at the hand-off.
pub open spec fn is_run(path: Seq<BootstrapState>) -> bool {
    &&& path.len() > 0
    &&& path[0] == BootstrapState::PoweredOn
    &&& path.last() == BootstrapState::HandoffComplete
    &&& forall|i: int|
        0 <= i < path.len() - 1 ==> (#[trigger] path[i]).next_spec() == Some(path[i + 1])
}

/// The instructions that a path through the machine executes.
pub open spec fn path_code(path: Seq<BootstrapState>) -> Seq<Instruction>
    decreases path.len(),
{
    if path.len() <= 1 {
        Seq::empty()
    } else {
        path_code(path.drop_last()) + path[path.len() - 2].code_spec()
    }
}

/// There is one run and no other: the pointer registers are cleared, then
/// the stack pointer is loaded, then control is handed off. No run leaves a
/// transition out, repeats one or takes two in another order, and every run
/// executes the entry point's instructions, in their order.
pub proof fn lemma_reset_order(path: Seq<BootstrapState>)
    requires
        is_run(path),
    ensures
        path == seq![
            BootstrapState::PoweredOn,
            BootstrapState::RegistersCleared,
            BootstrapState::StackInitialized,
            BootstrapState::HandoffComplete,
        ],
        path_code(path) == reset_program_spec(),
{
    assert forall|i: int| 0 <= i < path.len() implies (#[trigger] path[i]).rank() == i by {
        lemma_rank_along_run(path, i);
    }
    assert(path.len() == 4) by {
        assert(path.last().rank() == 3);
    }
    assert(path =~= seq![
        BootstrapState::PoweredOn,
        BootstrapState::RegistersCleared,
        BootstrapState::StackInitialized,
        BootstrapState::HandoffComplete,
    ]) by {
        assert(path[0].rank() == 0 && path[1].rank() == 1 && path[2].rank() == 2);
    }
    assert(path_code(path) =~= reset_program_spec()) by {
        reveal_with_fuel(path_code, 5);
        let three = path.drop_last();
        let two = three.drop_last();
        assert(two.drop_last().len() == 1);
        assert(two[0] == path[0] && three[1] == path[1]);
    }
}

/// Along a run, the state at position `i` has taken `i` transitions.
proof fn lemma_rank_along_run(path: Seq<BootstrapState>, i: int)
    requires
        is_run(path),
        0 <= i < path.len(),
    ensures
        path[i].rank() == i,
    decreases i,
{
    if i > 0 {
        lemma_rank_along_run(path, i - 1);
        assert(path[i - 1].next_spec() == Some(path[i]));
    }
}

/// What a transition has established stays established: once the pointer
/// registers are cleared, and once the stack is valid, every later state
/// has them so, and the stack is never valid before the registers are clear.
pub proof fn lemma_progress_is_kept(state: BootstrapState)
    ensures
        state.stack_valid_spec() ==> state.pointers_cleared_spec(),
        state.next_spec() matches Some(next) ==> {
            &&& next.rank() == state.rank() + 1
            &&& (state.pointers_cleared_spec() ==> next.pointers_cleared_spec())
            &&& (state.stack_valid_spec() ==> next.stack_valid_spec())
            &&& next.executed_spec() == state.executed_spec() + state.code_spec()
        },
        state.executed_spec().len() > 0 ==> state.pointers_cleared_spec(),
{
    if state.next_spec() is Some {
        let next = state.next_spec()->0;
        assert(next.executed_spec() =~= state.executed_spec() + state.code_spec());
    }
}

} // verus!
