use lunify::function::convert::convert;
use lunify::instruction::lua51::{Instruction, Opcode};
use lunify::instruction::operand::{Mode, OperandMode, BC};
use lunify::instruction::Settings;
use lunify::LunifyError;

fn test_settings() -> Settings {
    let mut settings = Settings::default();
    settings.lua51.fields_per_flush = 5;
    settings.output.fields_per_flush = 8;
    settings
}

fn new_table(a: u64) -> Instruction {
    Instruction { opcode: Opcode::NewTable, a, mode: Mode::BC(BC(OperandMode::Unused, OperandMode::Unused)) }
}

fn load_k(a: u64, bx: u64) -> Instruction {
    Instruction { opcode: Opcode::LoadK, a, mode: Mode::Bx(bx) }
}

fn set_list(a: u64, b: u64, c: u64) -> Instruction {
    Instruction {
        opcode: Opcode::SetList,
        a,
        mode: Mode::BC(BC(OperandMode::Generic(b), OperandMode::Generic(c))),
    }
}

fn lua51_setlist(size: u64, settings: &Settings) -> Vec<Instruction> {
    let mut instructions = vec![new_table(0)];

    for index in 0..size {
        let stack_position = (index % settings.lua51.fields_per_flush) + 1;
        let page = (index / settings.lua51.fields_per_flush) + 1;

        instructions.push(load_k(stack_position, 0));

        if stack_position == settings.lua51.fields_per_flush || index + 1 == size {
            instructions.push(set_list(0, stack_position, page));
        }
    }

    instructions
}

fn output_setlist(size: u64, settings: &Settings) -> Vec<Instruction> {
    let mut instructions = vec![new_table(0)];

    for index in 0..size {
        let stack_position = (index % settings.output.fields_per_flush) + 1;
        let page = (index / settings.output.fields_per_flush) + 1;

        instructions.push(load_k(stack_position, 0));

        if stack_position == settings.output.fields_per_flush || index + 1 == size {
            instructions.push(set_list(0, stack_position, page));
        }
    }

    instructions
}

fn set_list_test(count: u64) -> Result<(), LunifyError> {
    let settings = test_settings();
    let instructions = lua51_setlist(count, &settings);
    let instruction_count = instructions.len();

    let (instructions, _) = convert(instructions, vec![0; instruction_count], &mut 2, &settings)?;
    let expected = output_setlist(count, &settings);

    assert_eq!(instructions, expected);
    Ok(())
}

#[test]
fn convert_set_list() -> Result<(), LunifyError> {
    set_list_test(4)
}

#[test]
fn convert_set_list_bigger_than_50_flush() -> Result<(), LunifyError> {
    set_list_test(6)
}

#[test]
fn convert_set_list_bigger_than_51_flush() -> Result<(), LunifyError> {
    set_list_test(9)
}

#[test]
fn convert_set_list_large() -> Result<(), LunifyError> {
    set_list_test(20)
}

#[test]
fn convert_set_list_from_parameters_bigger_than_50_flush() -> Result<(), LunifyError> {
    let settings = test_settings();
    let instructions = vec![
        load_k(5, 0),
        set_list(0, 5, 1),
        load_k(1, 0),
        set_list(0, 1, 2),
    ];

    let (instructions, _) = convert(instructions, vec![0; 12], &mut 2, &settings)?;
    let expected = vec![load_k(5, 0), load_k(6, 0), set_list(0, 6, 1)];

    assert_eq!(instructions, expected);
    Ok(())
}
