use lunify::instruction::layout::OperandLayout;
use lunify::instruction::operand::{Mode, OperandKind, OperandMode, BC};
use lunify::instruction::Settings;
use lunify::{InstructionLayout, LunifyError, OperandType};

#[test]
fn layout_new() {
    let layout = OperandLayout::new(8, 6);
    let expected = OperandLayout { size: 8, position: 6, bit_mask: 0b11111111 };

    assert_eq!(layout, expected);
}

#[test]
fn layout_get() {
    let layout = OperandLayout::new(2, 2);
    assert_eq!(layout.get(0b11100), 0b11);
}

#[test]
fn layout_put() {
    let layout = OperandLayout::new(2, 2);
    assert_eq!(layout.put(0b11), Ok(0b1100));
}

#[test]
fn layout_put_out_of_bounds() {
    let layout = OperandLayout::new(2, 2);
    assert_eq!(layout.put(0b111), Err(LunifyError::ValueTooBigForOperand));
}

#[test]
fn from_specification() {
    let layout = InstructionLayout::from_specification([
        OperandType::Opcode(6),
        OperandType::C(9),
        OperandType::B(9),
        OperandType::A(8),
    ])
    .unwrap();

    assert_eq!(layout.opcode.position, 0);
    assert_eq!(layout.a.position, 24);
    assert_eq!(layout.b.position, 15);
    assert_eq!(layout.c.position, 6);
    assert_eq!(layout.bx.position, 6);
    assert_eq!(layout.bx.size, layout.b.size + layout.c.size);
    assert_eq!(layout.signed_offset, 131071);
}

#[test]
fn from_specification_opcode_twice() {
    let result = InstructionLayout::from_specification([
        OperandType::Opcode(6),
        OperandType::Opcode(6),
        OperandType::B(9),
        OperandType::A(8),
    ]);
    assert_eq!(result, Err(LunifyError::InvalidInstructionLayout));
}

#[test]
fn from_specification_a_twice() {
    let result = InstructionLayout::from_specification([
        OperandType::Opcode(6),
        OperandType::A(8),
        OperandType::B(9),
        OperandType::A(8),
    ]);
    assert_eq!(result, Err(LunifyError::InvalidInstructionLayout));
}

#[test]
fn from_specification_b_twice() {
    let result = InstructionLayout::from_specification([
        OperandType::Opcode(6),
        OperandType::B(9),
        OperandType::B(9),
        OperandType::A(8),
    ]);
    assert_eq!(result, Err(LunifyError::InvalidInstructionLayout));
}

#[test]
fn from_specification_c_twice() {
    let result = InstructionLayout::from_specification([
        OperandType::Opcode(6),
        OperandType::C(9),
        OperandType::C(9),
        OperandType::A(8),
    ]);
    assert_eq!(result, Err(LunifyError::InvalidInstructionLayout));
}

#[test]
fn from_specification_b_and_c_seperated() {
    let result = InstructionLayout::from_specification([
        OperandType::Opcode(6),
        OperandType::C(9),
        OperandType::A(9),
        OperandType::B(8),
    ]);
    assert_eq!(result, Err(LunifyError::InvalidInstructionLayout));
}

#[test]
fn opcode() {
    let settings = Settings::default();
    assert_eq!(settings.lua51.layout.opcode.get(1), 1);
    assert_eq!(settings.output.layout.opcode.put(1), Ok(1));
}

#[test]
fn a() {
    let settings = Settings::default();
    assert_eq!(settings.lua51.layout.a.get(1 << 6), 1);
    assert_eq!(settings.output.layout.a.put(1), Ok(1 << 6));
}

#[test]
fn b() {
    let settings = Settings::default();
    let mode = Mode::BC(BC(OperandMode::Generic(1), OperandMode::Generic(0)));
    assert_eq!(
        OperandMode::get_lua51(OperandKind::Generic, settings.lua51.layout.b.get(1 << 23), &settings),
        OperandMode::Generic(1),
    );
    assert_eq!(mode.put(&settings), Ok(1 << 23));
}

#[test]
fn b_offset() {
    let mut mode = Mode::BC(BC(OperandMode::Register(4), OperandMode::Register(4)));
    mode.offset(0, 5);
    assert_eq!(mode, Mode::BC(BC(OperandMode::Register(9), OperandMode::Register(9))));
}

#[test]
fn c() {
    let settings = Settings::default();
    let mode = Mode::BC(BC(OperandMode::Generic(0), OperandMode::Generic(1)));
    assert_eq!(
        OperandMode::get_lua51(OperandKind::Generic, settings.lua51.layout.c.get(1 << 14), &settings),
        OperandMode::Generic(1),
    );
    assert_eq!(mode.put(&settings), Ok(1 << 14));
}

#[test]
fn c_const_lua50() {
    let settings = Settings::default();

    let input_value = (1 + settings.lua50.stack_limit) << 6;
    let b = OperandMode::get_lua50(
        OperandKind::ConstantRegister,
        settings.lua50.layout.b.get(input_value),
        &settings,
    );
    let c = OperandMode::get_lua50(
        OperandKind::ConstantRegister,
        settings.lua50.layout.c.get(input_value),
        &settings,
    );
    assert_eq!(
        BC(b, c),
        BC(OperandMode::ConstantRegister(0, false), OperandMode::ConstantRegister(1, true)),
    );

    let output_value = Mode::BC(BC(b, c)).put(&settings);
    assert_eq!(output_value, Ok((1 | settings.output.get_constant_bit()) << 14));
}

#[test]
fn c_const_lua51() {
    let mut settings = Settings::default();
    // Set the size of B for Lua 5.1 to something smaller than the size of
    // B for output, so we can test that the constant bit is cleared and
    // set correctly.
    settings.lua51.layout.b.size = 5;

    let input_value = (1 | settings.lua51.get_constant_bit()) << 14;
    let c = OperandMode::get_lua51(
        OperandKind::ConstantRegister,
        settings.lua51.layout.c.get(input_value),
        &settings,
    );
    assert_eq!(c, OperandMode::ConstantRegister(1, true));

    let output_value = Mode::BC(BC(OperandMode::Generic(0), c)).put(&settings);
    assert_eq!(output_value, Ok((1 | settings.output.get_constant_bit()) << 14));
}

#[test]
fn bx() {
    let settings = Settings::default();
    assert_eq!(settings.lua51.layout.bx.get(1 << 14), 1);
    assert_eq!(Mode::Bx(1).put(&settings), Ok(1 << 14));
}

#[test]
fn bx_offset() {
    let mut mode = Mode::Bx(10);
    mode.offset(0, 5);
    assert_eq!(mode, Mode::Bx(10));
}

#[test]
fn signed_bx() {
    let settings = Settings::default();
    let raw = settings.lua51.layout.bx.get(131072 << 14);
    assert_eq!(raw as i64 - settings.lua51.layout.signed_offset, 1);
    assert_eq!(Mode::SignedBx(1).put(&settings), Ok(131072 << 14));
}

#[test]
fn signed_bx_offset() {
    let mut mode = Mode::SignedBx(10);
    mode.offset(0, 5);
    assert_eq!(mode, Mode::SignedBx(10));
}

#[test]
fn operant_opcode() {
    let settings = Settings::default();
    assert_eq!(settings.lua51.layout.opcode.get(1), 1);
    assert_eq!(settings.output.layout.opcode.put(1), Ok(1));
}

#[test]
fn operant_a() {
    let settings = Settings::default();
    assert_eq!(settings.lua51.layout.a.get(1 << 6), 1);
    assert_eq!(settings.output.layout.a.put(1), Ok(1 << 6));
}

#[test]
fn operant_b() {
    let settings = Settings::default();
    assert_eq!(settings.lua51.layout.b.get(1 << 23), 1);
    assert_eq!(
        Mode::BC(BC(OperandMode::Generic(1), OperandMode::Generic(0))).put(&settings),
        Ok(1 << 23),
    );
}

#[test]
fn operant_c() {
    let settings = Settings::default();
    assert_eq!(settings.lua51.layout.c.get(1 << 14), 1);
    assert_eq!(
        Mode::BC(BC(OperandMode::Generic(0), OperandMode::Generic(1))).put(&settings),
        Ok(1 << 14),
    );
}

#[test]
fn operant_c_const_lua50() {
    let settings = Settings::default();
    let value = (1 + settings.lua50.stack_limit) << 6;

    let c = OperandMode::get_lua50(
        OperandKind::ConstantRegister,
        settings.lua50.layout.c.get(value),
        &settings,
    );
    let expected = BC::const_c(0, 1, &settings);
    assert_eq!(c, expected.1);
}

#[test]
fn operant_c_const_lua51() {
    let mut settings = Settings::default();
    // Set the size of B for Lua 5.1 to something smaller than the size of
    // B for output, so we can test that the constant bit is cleared and
    // set correctly.
    settings.lua51.layout.b.size = 5;

    let value = (1 | settings.lua51.get_constant_bit()) << 14;
    let c = OperandMode::get_lua51(
        OperandKind::ConstantRegister,
        settings.lua51.layout.c.get(value),
        &settings,
    );
    let expected = BC::const_c(0, 1, &settings);
    assert_eq!(c, expected.1);
}

#[test]
fn operant_bc_new_const_c() {
    let settings = Settings::default();
    let bc = BC::const_c(0, 1, &settings);
    assert_eq!(bc.1, OperandMode::ConstantRegister(1, true));
}

#[test]
fn operant_bx() {
    let settings = Settings::default();
    assert_eq!(settings.lua51.layout.bx.get(1 << 14), 1);
    assert_eq!(Mode::Bx(1).put(&settings), Ok(1 << 14));
}

#[test]
fn operant_signed_bx() {
    let settings = Settings::default();
    let raw = settings.lua51.layout.bx.get(131072 << 14);
    assert_eq!(raw as i64 - settings.lua51.layout.signed_offset, 1);
    assert_eq!(Mode::SignedBx(1).put(&settings), Ok(131072 << 14));
}

#[test]
fn settings_get_constant_bit() {
    let settings = lunify::lua51::Settings::default();
    assert_eq!(settings.get_constant_bit(), 1 << 8);
}

#[test]
fn settings_get_maximum_constant_index() {
    let settings = lunify::lua51::Settings::default();
    assert_eq!(settings.get_maximum_constant_index(), (1 << 8) - 1);
}

fn mode_get_lua50(kind: OperandKind, value: u64) -> OperandMode {
    let settings = Settings::default();
    OperandMode::get_lua50(kind, settings.lua50.layout.c.get(value << 6), &settings)
}

fn mode_get_lua51(kind: OperandKind, value: u64) -> OperandMode {
    let settings = Settings::default();
    OperandMode::get_lua51(kind, settings.lua50.layout.c.get(value << 6), &settings)
}

fn mode_put(value: OperandMode) -> Result<u64, LunifyError> {
    let settings = Settings::default();
    value.put(&settings, &settings.lua50.layout.c).map(|value| value >> 6)
}

#[test]
fn unused_get() {
    assert_eq!(mode_get_lua50(OperandKind::Unused, 0), OperandMode::Unused);
}

#[test]
fn unused_put() {
    assert_eq!(mode_put(OperandMode::Unused), Ok(0));
}

#[test]
fn generic_get() {
    assert_eq!(mode_get_lua50(OperandKind::Generic, 1), OperandMode::Generic(1));
}

#[test]
fn generic_put() {
    assert_eq!(mode_put(OperandMode::Generic(1)), Ok(1));
}

#[test]
fn generic_offset() {
    let mut operand = OperandMode::Generic(4);
    operand.offset(0, 5);
    assert_eq!(operand, OperandMode::Generic(4));
}

#[test]
fn register_get() {
    assert_eq!(mode_get_lua50(OperandKind::Register, 1), OperandMode::Register(1));
}

#[test]
fn register_put() {
    assert_eq!(mode_put(OperandMode::Register(1)), Ok(1));
}

#[test]
fn register_offset() {
    let mut operand = OperandMode::Register(4);
    operand.offset(0, 5);
    assert_eq!(operand, OperandMode::Register(9));
}

#[test]
fn constant_register_get() {
    assert_eq!(
        mode_get_lua50(OperandKind::ConstantRegister, 1),
        OperandMode::ConstantRegister(1, false),
    );
}

#[test]
fn constant_register_get_constant_lua_50() {
    let settings = Settings::default();
    assert_eq!(
        mode_get_lua50(OperandKind::ConstantRegister, 1 + settings.lua50.stack_limit),
        OperandMode::ConstantRegister(1, true),
    );
}

#[test]
fn constant_register_get_constant_lua_51() {
    let settings = Settings::default();
    assert_eq!(
        mode_get_lua51(OperandKind::ConstantRegister, 1 | settings.lua51.get_constant_bit()),
        OperandMode::ConstantRegister(1, true),
    );
}

#[test]
fn constant_register_put() {
    assert_eq!(mode_put(OperandMode::ConstantRegister(1, false)), Ok(1));
}

#[test]
fn constant_register_put_value_too_big() {
    let settings = Settings::default();
    assert_eq!(
        mode_put(OperandMode::ConstantRegister(1 + settings.output.get_maximum_constant_index(), false)),
        Err(LunifyError::ValueTooBigForOperand),
    );
}

#[test]
fn constant_register_offset() {
    let mut operand = OperandMode::ConstantRegister(4, false);
    operand.offset(0, 5);
    assert_eq!(operand, OperandMode::ConstantRegister(9, false));
}

#[test]
fn constant_register_offset_constant() {
    let mut operand = OperandMode::ConstantRegister(4, true);
    operand.offset(0, 5);
    assert_eq!(operand, OperandMode::ConstantRegister(4, true));
}

#[test]
fn operand_round_trip_masks_word() {
    // Reading a field out of a word and packing it again keeps exactly
    // the field's bits: put(get(w)) == w & (mask << position).
    let settings = Settings::default();
    let word: u64 = 0xDEADBEEF;

    let field = settings.lua51.layout.b;
    let packed = field.put(field.get(word)).unwrap();
    assert_eq!(packed, word & (field.bit_mask << field.position));

    let field = settings.lua51.layout.a;
    let packed = field.put(field.get(word)).unwrap();
    assert_eq!(packed, word & (field.bit_mask << field.position));

    let field = settings.lua50.layout.c;
    let packed = field.put(field.get(word)).unwrap();
    assert_eq!(packed, word & (field.bit_mask << field.position));
}
