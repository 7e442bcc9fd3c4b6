use lunify::function::builder::{InstructionBuilder, InstructionContext};
use lunify::instruction::lua51::{Instruction, Opcode};
use lunify::instruction::{Mode, Settings};
use lunify::LunifyError;

fn load_k(a: u64, bx: u64) -> Instruction {
    Instruction { opcode: Opcode::LoadK, a, mode: Mode::Bx(bx) }
}

fn jump(a: u64, sbx: i64) -> Instruction {
    Instruction { opcode: Opcode::Jump, a, mode: Mode::SignedBx(sbx) }
}

#[test]
fn instruction_context_new() {
    let instruction = load_k(0, 1);
    let context = InstructionContext::new(instruction);
    let expected = InstructionContext { instruction, line_weight: 0, final_offset: 0, is_fixed: false };

    assert_eq!(context, expected);
}

#[test]
fn instruction_context_new_extra() {
    let instruction = load_k(0, 1);
    let context = InstructionContext::new_extra(instruction);
    let expected = InstructionContext { instruction, line_weight: 1, final_offset: 0, is_fixed: false };

    assert_eq!(context, expected);
}

#[test]
fn metadata_new() {
    let instruction = load_k(0, 1);
    let context = InstructionContext::new(instruction);
    let expected = InstructionContext { instruction, line_weight: 0, final_offset: 0, is_fixed: false };

    assert_eq!(context, expected);
}

#[test]
fn metadata_new_extra() {
    let instruction = load_k(0, 1);
    let context = InstructionContext::new_extra(instruction);
    let expected = InstructionContext { instruction, line_weight: 1, final_offset: 0, is_fixed: false };

    assert_eq!(context, expected);
}

#[test]
fn set_line_number() {
    let mut builder = InstructionBuilder::new();

    builder.set_line_number(9);

    assert_eq!(builder.get_line_number(), 9);
}

#[test]
fn line_number_applies() {
    let mut builder = InstructionBuilder::new();
    let instruction = load_k(0, 1);

    builder.set_line_number(9);
    builder.instruction(instruction);

    assert_eq!(builder.get_line_info_entry(0), 9);
}

#[test]
fn builder_instruction() {
    let mut builder = InstructionBuilder::new();
    let instruction = load_k(0, 1);

    builder.instruction(instruction);

    assert_eq!(builder.get_context(0), InstructionContext::new(instruction));
    assert_eq!(builder.get_program_counter(), 1);
    assert_eq!(builder.get_line_info_entry(0), 0);
}

#[test]
fn extra_instruction() {
    let mut builder = InstructionBuilder::new();
    let instruction = load_k(0, 1);

    builder.extra_instruction(instruction);

    assert_eq!(builder.get_context(0), InstructionContext::new_extra(instruction));
    assert_eq!(builder.get_program_counter(), 1);
    assert_eq!(builder.get_line_info_entry(0), 0);
}

#[test]
fn insert_extra_instruction() {
    let mut builder = InstructionBuilder::new();
    let instruction = load_k(0, 1);
    let extra_instruction = load_k(0, 10);

    builder.instruction(instruction);
    builder.set_line_number(9);
    builder.instruction(instruction);
    builder.insert_extra_instruction(1, extra_instruction);

    assert_eq!(builder.get_context(0), InstructionContext::new(instruction));
    assert_eq!(builder.get_context(1), InstructionContext::new_extra(extra_instruction));
    assert_eq!(builder.get_context(2), InstructionContext::new(instruction));
    assert_eq!(builder.get_line_info_entry(0), 0);
    assert_eq!(builder.get_line_info_entry(1), 9);
    assert_eq!(builder.get_line_info_entry(2), 9);
}

#[test]
fn remove_instruction() {
    let mut builder = InstructionBuilder::new();
    let instruction = load_k(0, 1);
    let removed_instruction = load_k(0, 10);

    builder.instruction(instruction);
    builder.instruction(removed_instruction);
    builder.instruction(instruction);
    builder.remove_instruction(1);

    assert_eq!(builder.get_context(0), InstructionContext::new(instruction));
    assert_eq!(
        builder.get_context(1),
        InstructionContext { line_weight: -1, ..InstructionContext::new(instruction) },
    );
    assert_eq!(builder.get_program_counter(), 2);
    assert_eq!(builder.get_line_info_entry(0), 0);
    assert_eq!(builder.get_line_info_entry(1), 0);
}

#[test]
fn remove_extra_instruction() {
    let mut builder = InstructionBuilder::new();
    let instruction = load_k(0, 1);
    let removed_instruction = load_k(0, 10);

    builder.instruction(instruction);
    builder.extra_instruction(removed_instruction);
    builder.instruction(instruction);
    builder.remove_instruction(1);

    assert_eq!(builder.get_context(0), InstructionContext::new(instruction));
    assert_eq!(builder.get_context(1), InstructionContext::new(instruction));
    assert_eq!(builder.get_program_counter(), 2);
    assert_eq!(builder.get_line_info_entry(0), 0);
    assert_eq!(builder.get_line_info_entry(1), 0);
}

#[test]
fn last_instruction_fixed() {
    let mut builder = InstructionBuilder::new();
    let instruction = load_k(0, 1);

    builder.instruction(instruction);
    builder.last_instruction_fixed();

    assert!(builder.get_context(0).is_fixed);
}

#[test]
fn last_instruction_offset() {
    let mut builder = InstructionBuilder::new();
    let instruction = jump(0, -4);

    builder.instruction(instruction);
    builder.last_instruction_offset(-9);

    assert_eq!(builder.get_context(0).final_offset, -9);
}

#[test]
fn jump_destination_negative() {
    let mut builder = InstructionBuilder::new();
    let instruction = load_k(0, 1);

    builder.instruction(instruction);
    builder.extra_instruction(instruction);

    let result = builder.jump_destination(builder.get_program_counter() - 1, -1, 0);
    assert_eq!(result, Ok(-2));
}

#[test]
fn jump_destination_zero() {
    let mut builder = InstructionBuilder::new();
    let instruction = load_k(0, 1);

    builder.extra_instruction(instruction);

    let result = builder.jump_destination(0, 0, 0);
    assert_eq!(result, Ok(0));
}

#[test]
fn jump_destination_positive() {
    let mut builder = InstructionBuilder::new();
    let instruction = load_k(0, 1);

    builder.extra_instruction(instruction);
    builder.instruction(instruction);
    builder.instruction(instruction);

    let result = builder.jump_destination(0, 1, 0);
    assert_eq!(result, Ok(1));
}

#[test]
fn jump_destination_offset_applies() {
    let mut builder = InstructionBuilder::new();
    let instruction = load_k(0, 1);

    builder.instruction(instruction);
    builder.instruction(instruction);

    let result = builder.jump_destination(builder.get_program_counter() - 1, -2, 2);
    assert_eq!(result, Ok(0));
}

#[test]
fn adjusted_jump_destination() {
    let mut builder = InstructionBuilder::new();
    let instruction = load_k(0, 1);

    builder.instruction(instruction);
    builder.extra_instruction(instruction);
    builder.instruction(instruction);

    assert_eq!(builder.adjusted_jump_destination(-2), Ok(0));
}

#[test]
fn adjusted_jump_destination_positive() {
    let mut builder = InstructionBuilder::new();
    let instruction = load_k(0, 1);

    builder.instruction(instruction);
    builder.extra_instruction(instruction);
    builder.instruction(instruction);

    assert_eq!(builder.adjusted_jump_destination(1), Err(LunifyError::UnexpectedForwardJump));
}

#[test]
fn finalize_expands_stack() {
    let mut builder = InstructionBuilder::new();
    let instruction = load_k(10, 1);
    let mut maxstacksize = 0;

    builder.instruction(instruction);
    builder.finalize(&mut maxstacksize, &Settings::default()).unwrap();

    assert_eq!(maxstacksize, 11);
}

#[test]
fn finalize_expands_stack_too_large() {
    let mut builder = InstructionBuilder::new();
    let instruction = load_k(250, 1);
    let mut maxstacksize = 0;

    builder.instruction(instruction);

    let result = builder.finalize(&mut maxstacksize, &Settings::default());
    assert!(result.is_err());
    assert_eq!(result.err(), Some(LunifyError::StackTooLarge(251)));
}

#[test]
fn finalize_adjusts_jump_destinations() {
    let mut builder = InstructionBuilder::new();
    let instruction = load_k(0, 1);
    let jump_instruction = jump(0, -1);

    builder.instruction(instruction);
    builder.extra_instruction(instruction);
    builder.extra_instruction(jump_instruction);
    let (instructions, _) = builder.finalize(&mut 0, &Settings::default()).unwrap();

    assert_eq!(instructions.last().unwrap().mode, Mode::SignedBx(-3));
}
