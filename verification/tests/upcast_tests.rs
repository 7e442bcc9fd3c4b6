use lunify::function::constant::Constant;
use lunify::function::upcast::upcast;
use lunify::instruction::operand::{Mode, OperandMode, BC};
use lunify::instruction::{lua50, lua51, Settings};
use lunify::LunifyError;

fn test_settings() -> Settings {
    let mut settings = Settings::default();
    settings.lua50.fields_per_flush = 5;
    settings.output.fields_per_flush = 8;
    settings
}

fn instruction50(opcode: lua50::Opcode, a: u64, mode: Mode) -> lua50::Instruction {
    lua50::Instruction { opcode, a, mode }
}

fn instruction51(opcode: lua51::Opcode, a: u64, mode: Mode) -> lua51::Instruction {
    lua51::Instruction { opcode, a, mode }
}

fn bc(b: OperandMode, c: OperandMode) -> Mode {
    Mode::BC(BC(b, c))
}

fn lua50_setlist(size: u64, settings: &Settings) -> Vec<lua50::Instruction> {
    let mut instructions = vec![
        instruction50(lua50::Opcode::NewTable, 0, bc(OperandMode::Unused, OperandMode::Unused)),
    ];

    for index in 0..size {
        let stack_position = (index % settings.lua50.fields_per_flush) + 1;

        instructions.push(instruction50(lua50::Opcode::LoadK, stack_position, Mode::Bx(0)));

        if stack_position == settings.lua50.fields_per_flush || index + 1 == size {
            instructions.push(instruction50(lua50::Opcode::SetList, 0, Mode::Bx(index)));
        }
    }

    instructions
}

fn output_setlist(size: u64, settings: &Settings) -> Vec<lua51::Instruction> {
    let mut instructions = vec![
        instruction51(lua51::Opcode::NewTable, 0, bc(OperandMode::Unused, OperandMode::Unused)),
    ];

    for index in 0..size {
        let stack_position = (index % settings.output.fields_per_flush) + 1;
        let page = (index / settings.output.fields_per_flush) + 1;

        instructions.push(instruction51(lua51::Opcode::LoadK, stack_position, Mode::Bx(0)));

        if stack_position == settings.output.fields_per_flush || index + 1 == size {
            instructions.push(instruction51(
                lua51::Opcode::SetList,
                0,
                bc(OperandMode::Generic(stack_position), OperandMode::Generic(page)),
            ));
        }
    }

    instructions
}

fn set_list_test(count: u64) -> Result<(), LunifyError> {
    let settings = test_settings();
    let instructions = lua50_setlist(count, &settings);
    let instruction_count = instructions.len();

    let (instructions, _) = upcast(
        instructions,
        vec![0; instruction_count],
        &mut Vec::new(),
        &mut 2,
        0,
        false,
        &settings,
    )?;

    let expected = output_setlist(count, &settings);

    assert_eq!(instructions, expected);
    Ok(())
}

#[test]
fn upcast_test() -> Result<(), LunifyError> {
    let settings = test_settings();
    let instructions = vec![
        instruction50(lua50::Opcode::Test, 0, bc(OperandMode::Register(0), OperandMode::Generic(0))),
    ];

    let (instructions, _) = upcast(instructions, vec![0; 1], &mut Vec::new(), &mut 2, 0, false, &settings)?;
    let expected = vec![
        instruction51(
            lua51::Opcode::TestSet,
            0,
            bc(OperandMode::ConstantRegister(0, false), OperandMode::Generic(0)),
        ),
    ];

    assert_eq!(instructions, expected);
    Ok(())
}

#[test]
fn upcast_for_loop() -> Result<(), LunifyError> {
    let settings = test_settings();
    let instructions = vec![instruction50(lua50::Opcode::ForLoop, 0, Mode::SignedBx(-1))];

    let (instructions, _) = upcast(instructions, vec![0; 1], &mut Vec::new(), &mut 2, 0, false, &settings)?;
    let expected = vec![
        instruction51(lua51::Opcode::GetGlobal, 3, Mode::Bx(0)),
        instruction51(lua51::Opcode::SetGlobal, 3, Mode::Bx(0)),
        instruction51(lua51::Opcode::ForLoop, 0, Mode::SignedBx(-3)),
    ];

    assert_eq!(instructions, expected);
    Ok(())
}

#[test]
fn upcast_t_for_loop() -> Result<(), LunifyError> {
    let settings = test_settings();
    let instructions = vec![
        instruction50(lua50::Opcode::TForLoop, 0, bc(OperandMode::Unused, OperandMode::Generic(0))),
    ];

    let (instructions, _) = upcast(instructions, vec![0; 1], &mut Vec::new(), &mut 2, 0, false, &settings)?;
    let expected = vec![
        instruction51(lua51::Opcode::TForLoop, 0, bc(OperandMode::Unused, OperandMode::Generic(1))),
    ];

    assert_eq!(instructions, expected);
    Ok(())
}

#[test]
fn upcast_t_for_loop_c_bigger_zero() -> Result<(), LunifyError> {
    let settings = test_settings();
    let instructions = vec![
        instruction50(lua50::Opcode::TForLoop, 0, bc(OperandMode::Unused, OperandMode::Generic(1))),
    ];
    let mut constants = Vec::new();

    let (instructions, _) = upcast(instructions, vec![0; 1], &mut constants, &mut 2, 0, false, &settings)?;
    let expected = vec![
        instruction51(lua51::Opcode::Move, 4, bc(OperandMode::Register(0), OperandMode::Unused)),
        instruction51(lua51::Opcode::Move, 5, bc(OperandMode::Register(1), OperandMode::Unused)),
        instruction51(lua51::Opcode::Move, 6, bc(OperandMode::Register(2), OperandMode::Unused)),
        instruction51(lua51::Opcode::Call, 4, bc(OperandMode::Generic(3), OperandMode::Generic(3))),
        instruction51(lua51::Opcode::Move, 3, bc(OperandMode::Register(5), OperandMode::Unused)),
        instruction51(lua51::Opcode::Move, 2, bc(OperandMode::Register(4), OperandMode::Unused)),
        instruction51(lua51::Opcode::LoadK, 4, Mode::Bx(0)),
        instruction51(
            lua51::Opcode::Equals,
            0,
            bc(OperandMode::ConstantRegister(2, false), OperandMode::ConstantRegister(4, false)),
        ),
    ];

    assert_eq!(instructions, expected);
    assert_eq!(&constants, &vec![Constant::Nil]);
    Ok(())
}

#[test]
fn upcast_t_for_prep() -> Result<(), LunifyError> {
    let settings = test_settings();
    let instructions = vec![instruction50(lua50::Opcode::TForPrep, 0, Mode::SignedBx(-1))];
    let mut constants = Vec::new();

    let (instructions, _) = upcast(instructions, vec![0; 1], &mut constants, &mut 2, 0, false, &settings)?;
    let expected = vec![
        instruction51(lua51::Opcode::SetGlobal, 1, Mode::Bx(0)),
        instruction51(lua51::Opcode::SetGlobal, 2, Mode::Bx(1)),
        instruction51(lua51::Opcode::GetGlobal, 1, Mode::Bx(2)),
        instruction51(lua51::Opcode::Move, 2, bc(OperandMode::Register(0), OperandMode::Unused)),
        instruction51(lua51::Opcode::Call, 1, bc(OperandMode::Generic(2), OperandMode::Generic(2))),
        instruction51(lua51::Opcode::LoadK, 2, Mode::Bx(3)),
        instruction51(
            lua51::Opcode::Equals,
            0,
            bc(OperandMode::ConstantRegister(1, false), OperandMode::ConstantRegister(2, false)),
        ),
        instruction51(lua51::Opcode::Jump, 0, Mode::SignedBx(2)),
        instruction51(lua51::Opcode::SetGlobal, 0, Mode::Bx(0)),
        instruction51(lua51::Opcode::GetGlobal, 0, Mode::Bx(4)),
        instruction51(lua51::Opcode::GetGlobal, 1, Mode::Bx(0)),
        instruction51(lua51::Opcode::GetGlobal, 2, Mode::Bx(1)),
        instruction51(lua51::Opcode::Jump, 0, Mode::SignedBx(-13)),
    ];
    let expected_constants = vec![
        Constant::String(b"type\0".to_vec()),
        Constant::String(b"table\0".to_vec()),
        Constant::String(b"next\0".to_vec()),
    ];

    assert_eq!(instructions, expected);
    assert_eq!(&constants[2..], &expected_constants[..]);
    Ok(())
}

#[test]
fn upcast_set_list() -> Result<(), LunifyError> {
    set_list_test(4)
}

#[test]
fn upcast_set_list_bigger_than_50_flush() -> Result<(), LunifyError> {
    set_list_test(6)
}

#[test]
fn upcast_set_list_bigger_than_51_flush() -> Result<(), LunifyError> {
    set_list_test(9)
}

#[test]
fn upcast_set_list_large() -> Result<(), LunifyError> {
    set_list_test(20)
}

#[test]
fn upcast_set_list_from_parameters() -> Result<(), LunifyError> {
    let settings = test_settings();
    let instructions = vec![
        instruction50(lua50::Opcode::LoadK, 5, Mode::Bx(0)),
        instruction50(lua50::Opcode::SetList, 0, Mode::Bx(4)),
    ];

    let (instructions, _) = upcast(instructions, vec![0; 2], &mut Vec::new(), &mut 2, 0, false, &settings)?;
    let expected = vec![
        instruction51(lua51::Opcode::LoadK, 5, Mode::Bx(0)),
        instruction51(lua51::Opcode::SetList, 0, bc(OperandMode::Generic(5), OperandMode::Generic(1))),
    ];

    assert_eq!(instructions, expected);
    Ok(())
}

#[test]
fn upcast_set_list_from_parameters_bigger_than_50_flush() -> Result<(), LunifyError> {
    let settings = test_settings();
    let instructions = vec![
        instruction50(lua50::Opcode::LoadK, 5, Mode::Bx(0)),
        instruction50(lua50::Opcode::SetList, 0, Mode::Bx(4)),
        instruction50(lua50::Opcode::LoadK, 1, Mode::Bx(0)),
        instruction50(lua50::Opcode::SetList, 0, Mode::Bx(5)),
    ];

    let (instructions, _) = upcast(instructions, vec![0; 12], &mut Vec::new(), &mut 2, 0, false, &settings)?;
    let expected = vec![
        instruction51(lua51::Opcode::LoadK, 5, Mode::Bx(0)),
        instruction51(lua51::Opcode::LoadK, 6, Mode::Bx(0)),
        instruction51(lua51::Opcode::SetList, 0, bc(OperandMode::Generic(6), OperandMode::Generic(1))),
    ];

    assert_eq!(instructions, expected);
    Ok(())
}

#[test]
fn variadic() -> Result<(), LunifyError> {
    let settings = test_settings();
    let instructions = vec![instruction50(lua50::Opcode::LoadK, 1, Mode::Bx(0))];

    let (instructions, _) = upcast(instructions, vec![0; 1], &mut Vec::new(), &mut 2, 0, true, &settings)?;
    let expected = vec![
        instruction51(lua51::Opcode::NewTable, 1, bc(OperandMode::Unused, OperandMode::Unused)),
        instruction51(lua51::Opcode::VarArg, 2, bc(OperandMode::Generic(0), OperandMode::Unused)),
        instruction51(lua51::Opcode::SetList, 1, bc(OperandMode::Generic(0), OperandMode::Generic(1))),
        instruction51(lua51::Opcode::Move, 0, bc(OperandMode::Register(1), OperandMode::Unused)),
        instruction51(lua51::Opcode::LoadK, 1, Mode::Bx(0)),
    ];

    assert_eq!(instructions, expected);
    Ok(())
}

#[test]
fn plain_program_keeps_jump_distances() {
    // With no instruction inserted or removed, re-tagging keeps every
    // instruction and every jump distance exactly as it was.
    let settings = test_settings();
    let instructions = vec![
        instruction50(lua50::Opcode::LoadK, 0, Mode::Bx(0)),
        instruction50(lua50::Opcode::LoadK, 1, Mode::Bx(1)),
        instruction50(lua50::Opcode::Jump, 0, Mode::SignedBx(-2)),
        instruction50(lua50::Opcode::Return, 0, bc(OperandMode::Generic(1), OperandMode::Unused)),
    ];

    let (instructions, line_info) =
        upcast(instructions, vec![7; 4], &mut Vec::new(), &mut 2, 0, false, &settings).unwrap();
    let expected = vec![
        instruction51(lua51::Opcode::LoadK, 0, Mode::Bx(0)),
        instruction51(lua51::Opcode::LoadK, 1, Mode::Bx(1)),
        instruction51(lua51::Opcode::Jump, 0, Mode::SignedBx(-2)),
        instruction51(lua51::Opcode::Return, 0, bc(OperandMode::Generic(1), OperandMode::Unused)),
    ];

    assert_eq!(instructions, expected);
    assert_eq!(line_info, vec![7; 4]);
}

#[test]
fn upcast_t_for_prep_reuses_existing_strings() {
    // When the pool already holds the well-known strings, the lowering
    // reuses their indices instead of appending them again.
    let settings = test_settings();
    let instructions = vec![instruction50(lua50::Opcode::TForPrep, 0, Mode::SignedBx(-1))];
    let mut constants = vec![
        Constant::String(b"next\0".to_vec()),
        Constant::String(b"type\0".to_vec()),
        Constant::String(b"table\0".to_vec()),
    ];

    let (instructions, _) =
        upcast(instructions, vec![0; 1], &mut constants, &mut 2, 0, false, &settings).unwrap();

    // The two fresh globals take positions 3 and 4; type/table/next keep
    // their old indices 1, 2 and 0.
    assert_eq!(instructions[0], instruction51(lua51::Opcode::SetGlobal, 1, Mode::Bx(3)));
    assert_eq!(instructions[1], instruction51(lua51::Opcode::SetGlobal, 2, Mode::Bx(4)));
    assert_eq!(instructions[2], instruction51(lua51::Opcode::GetGlobal, 1, Mode::Bx(1)));
    assert_eq!(instructions[5], instruction51(lua51::Opcode::LoadK, 2, Mode::Bx(2)));
    assert_eq!(instructions[9], instruction51(lua51::Opcode::GetGlobal, 0, Mode::Bx(0)));
    assert_eq!(constants.len(), 5);
}
