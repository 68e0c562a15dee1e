use mips_rt::instruction::{Instruction, Register};
use mips_rt::reset::{reset_vector, BootstrapState, Reset};
use mips_rt::symbol::Symbol;

#[test]
fn reset_executes_four_instructions_in_order() {
    assert_eq!(
        Reset(),
        vec![
            Instruction::Move { dst: Register::Gp, src: Register::Zero },
            Instruction::Move { dst: Register::Fp, src: Register::Zero },
            Instruction::LoadAddress { dst: Register::Sp, symbol: Symbol::StackStart },
            Instruction::Jump { target: Symbol::RustEntry },
        ]
    );
}

#[test]
fn reset_as_assembly_text() {
    let lines: Vec<String> = Reset().into_iter().map(|i| i.text()).collect();
    assert_eq!(
        lines,
        vec!["move $gp, $zero", "move $fp, $zero", "li $sp, _stack_start", "j RustEntry"]
    );
}

#[test]
fn reset_is_the_same_every_time() {
    assert_eq!(Reset(), Reset());
}

#[test]
fn first_transition_clears_the_pointer_registers() {
    let (next, code) = BootstrapState::PoweredOn.advance().unwrap();
    assert_eq!(next, BootstrapState::RegistersCleared);
    assert_eq!(
        code,
        vec![
            Instruction::Move { dst: Register::Gp, src: Register::Zero },
            Instruction::Move { dst: Register::Fp, src: Register::Zero },
        ]
    );
}

#[test]
fn second_transition_loads_the_stack_pointer() {
    let (next, code) = BootstrapState::RegistersCleared.advance().unwrap();
    assert_eq!(next, BootstrapState::StackInitialized);
    assert_eq!(
        code,
        vec![Instruction::LoadAddress { dst: Register::Sp, symbol: Symbol::StackStart }]
    );
}

#[test]
fn third_transition_jumps_to_the_runtime() {
    let (next, code) = BootstrapState::StackInitialized.advance().unwrap();
    assert_eq!(next, BootstrapState::HandoffComplete);
    assert_eq!(code, vec![Instruction::Jump { target: Symbol::RustEntry }]);
}

#[test]
fn handoff_is_terminal() {
    assert_eq!(BootstrapState::HandoffComplete.advance(), None);
}

#[test]
fn walking_the_machine_takes_three_transitions() {
    let mut state = BootstrapState::PoweredOn;
    let mut visited = vec![state];
    let mut program = Vec::new();
    while let Some((next, code)) = state.advance() {
        program.extend(code);
        visited.push(next);
        state = next;
    }
    assert_eq!(
        visited,
        vec![
            BootstrapState::PoweredOn,
            BootstrapState::RegistersCleared,
            BootstrapState::StackInitialized,
            BootstrapState::HandoffComplete,
        ]
    );
    assert_eq!(program, Reset());
}

#[test]
fn pointers_are_cleared_after_the_first_transition() {
    assert!(!BootstrapState::PoweredOn.pointers_cleared());
    assert!(BootstrapState::RegistersCleared.pointers_cleared());
    assert!(BootstrapState::StackInitialized.pointers_cleared());
    assert!(BootstrapState::HandoffComplete.pointers_cleared());
}

#[test]
fn stack_is_valid_after_the_second_transition() {
    assert!(!BootstrapState::PoweredOn.stack_valid());
    assert!(!BootstrapState::RegistersCleared.stack_valid());
    assert!(BootstrapState::StackInitialized.stack_valid());
    assert!(BootstrapState::HandoffComplete.stack_valid());
}

#[test]
fn reset_makes_no_call_and_sets_up_no_frame() {
    let program = Reset();
    // The stack pointer is written once, from a symbol, and there is one
    // transfer of control, the last instruction.
    let writes_sp = program
        .iter()
        .filter(|i| matches!(i, Instruction::LoadAddress { dst: Register::Sp, .. }
            | Instruction::Move { dst: Register::Sp, .. }))
        .count();
    assert_eq!(writes_sp, 1);
    let jumps = program.iter().filter(|i| matches!(i, Instruction::Jump { .. })).count();
    assert_eq!(jumps, 1);
    assert!(matches!(program.last(), Some(Instruction::Jump { target: Symbol::RustEntry })));
}

#[test]
fn reset_vector_points_at_reset() {
    let entry = reset_vector();
    assert_eq!(entry.symbol, Symbol::ResetVector);
    assert_eq!(entry.symbol.name(), "__RESET_VECTOR");
    assert_eq!(entry.section, ".vector_table.reset_vector");
    assert_eq!(entry.target, Symbol::Reset);
    assert_eq!(entry.target.name(), "Reset");
}
