use lunify::format::endianness::Endianness;
use lunify::format::version::LuaVersion;
use lunify::format::width::BitWidth;
use lunify::function::constant::Constant;
use lunify::function::upcast::upcast;
use lunify::function::{Function, LocalVariable};
use lunify::instruction::operand::{OperandMode, BC};
use lunify::instruction::{lua50, lua51, Mode, Settings};
use lunify::number::Number;
use lunify::serialization::{ByteStream, ByteWriter};
use lunify::{unify, Format, LunifyError};

fn format_32bit() -> Format {
    Format {
        format: 0,
        endianness: Endianness::Little,
        integer_width: BitWidth::Bit32,
        size_t_width: BitWidth::Bit32,
        instruction_width: BitWidth::Bit32,
        number_width: BitWidth::Bit64,
        is_number_integral: false,
    }
}

fn format_64bit() -> Format {
    Format { size_t_width: BitWidth::Bit64, ..format_32bit() }
}

/// A compiled module with an empty root prototype, in the given format.
fn minimal_module(format: &Format) -> Vec<u8> {
    let mut writer = ByteWriter::new(format);
    writer.slice(b"\x1bLua");
    writer.byte(0x51);
    format.write(&mut writer);
    // Root prototype: empty source, lines 0/0, no upvalues, no
    // parameters, not variadic, two stack slots.
    writer.string(b"");
    writer.integer(0);
    writer.integer(0);
    writer.byte(0);
    writer.byte(0);
    writer.byte(0);
    writer.byte(2);
    // No instructions, constants, prototypes, line info, locals, upvalues.
    writer.integer(0);
    writer.integer(0);
    writer.integer(0);
    writer.integer(0);
    writer.integer(0);
    writer.integer(0);
    writer.finalize()
}

#[test]
fn incorrect_signature() {
    let output_format = Format::default();
    let result = unify(b"\x1bLuo", &output_format, &Default::default());

    assert_eq!(result, Err(LunifyError::IncorrectSignature));
}

#[test]
fn unsupported_version_byte() {
    let result = unify(b"\x1bLua\x52", &Format::default(), &Default::default());
    assert_eq!(result, Err(LunifyError::UnsupportedVersion(0x52)));
}

#[test]
fn invalid_endianness_byte() {
    // Lua 5.1 header with compiler-format byte 0 and endianness byte 2.
    let result = unify(b"\x1bLua\x51\x00\x02", &Format::default(), &Default::default());
    assert_eq!(result, Err(LunifyError::InvalidEndianness(2)));
}

#[test]
fn lua50_instruction_format_guard() {
    // Lua 5.0 header whose instruction sizes are [6, 9, 8, 9].
    let result = unify(
        &[0x1B, b'L', b'u', b'a', 0x50, 1, 4, 4, 4, 6, 9, 8, 9],
        &Format::default(),
        &Default::default(),
    );
    assert_eq!(result, Err(LunifyError::UnsupportedInstructionFormat([6, 9, 8, 9])));
}

#[test]
fn matching_format_pass_through() {
    // A header that already stores the output format comes back as it
    // went in, byte for byte, without the body even being read.
    let input = vec![0x1B, b'L', b'u', b'a', 0x51, 0, 1, 4, 4, 4, 8, 0];
    let output_format = format_32bit();

    let result = unify(&input, &output_format, &Default::default());
    assert_eq!(result, Ok(input));
}

#[test]
fn size_t_width_upgrade() {
    // Converting from a 32-bit size_t to a 64-bit size_t grows every
    // length-prefixed string field from 4 to 8 bytes and changes nothing
    // else.
    let input = minimal_module(&format_32bit());
    let expected = minimal_module(&format_64bit());

    let result = unify(&input, &format_64bit(), &Default::default());
    assert_eq!(result, Ok(expected));
}

#[test]
fn trailing_bytes_rejected() {
    let mut input = minimal_module(&format_32bit());
    input.extend_from_slice(b"extra bytes");

    let result = unify(&input, &format_64bit(), &Default::default());
    assert_eq!(result, Err(LunifyError::InputTooLong));
}

#[test]
fn get_constants_invalid() {
    let format = Format::default();
    let mut byte_writer = ByteWriter::new(&format);

    // Constant count.
    byte_writer.integer(1);
    // Invalid type.
    byte_writer.byte(5);

    let bytes = byte_writer.finalize();
    let mut byte_stream = ByteStream::new(&bytes);
    byte_stream.set_format(format);

    let result = Function::get_constants(&mut byte_stream);
    assert_eq!(result, Err(LunifyError::InvalidConstantType(5)));
    assert!(byte_stream.is_empty());
}

#[test]
fn invalid_opcode() {
    let settings = Settings::default();
    let result = lua51::Instruction::decode(63, &settings, &settings.lua51.layout);
    assert_eq!(result, Err(LunifyError::InvalidOpcode(63)));

    let result = lua50::Instruction::decode(35, &settings, &settings.lua50.layout);
    assert_eq!(result, Err(LunifyError::InvalidOpcode(35)));
}

#[test]
fn too_many_constants() {
    // A constant pool already at the output's maximum constant index
    // cannot take the fresh global a FORLOOP lowering needs.
    let settings = Settings::default();
    let mut constants = vec![Constant::Nil; 256];
    let instructions = vec![lua50::Instruction {
        opcode: lua50::Opcode::ForLoop,
        a: 0,
        mode: Mode::SignedBx(-1),
    }];

    let result = upcast(instructions, vec![0; 1], &mut constants, &mut 2, 0, false, &settings);
    assert_eq!(result, Err(LunifyError::TooManyConstants(256)));
}

/// Parse a module's header and root prototype with the library's own
/// parser.
fn parse_module(bytes: &[u8], settings: &Settings) -> Function {
    let mut stream = ByteStream::new(bytes);
    assert!(stream.remove_signature(b"\x1bLua"));
    let version_byte = stream.byte().unwrap();
    let version = LuaVersion::try_from(version_byte).unwrap();
    let format = lunify::Format::from_byte_stream(&mut stream, version).unwrap();
    stream.set_format(format);
    let function = Function::from_byte_stream(&mut stream, version, settings).unwrap();
    assert!(stream.is_empty());
    function
}

#[test]
fn round_trip_preserves_structure() {
    // A richer module: constants of every kind, a nested prototype,
    // locals, upvalue names and line numbers. Re-serializing it under a
    // different word layout and parsing it back yields the same
    // prototype tree.
    let settings = Settings::default();
    let load_k = lua51::Instruction { opcode: lua51::Opcode::LoadK, a: 0, mode: Mode::Bx(3) };
    let ret = lua51::Instruction {
        opcode: lua51::Opcode::Return,
        a: 0,
        mode: Mode::BC(BC(OperandMode::Generic(1), OperandMode::Unused)),
    };

    let input_format = format_32bit();
    let mut writer = ByteWriter::new(&input_format);
    writer.slice(b"\x1bLua");
    writer.byte(0x51);
    input_format.write(&mut writer);
    writer.string(b"@test\0");
    writer.integer(1);
    writer.integer(2);
    writer.byte(1);
    writer.byte(1);
    writer.byte(0);
    writer.byte(2);
    // Two instructions.
    writer.integer(2);
    writer.instruction(load_k.to_u64(&settings).unwrap());
    writer.instruction(ret.to_u64(&settings).unwrap());
    // Four constants.
    writer.integer(4);
    writer.byte(0);
    writer.byte(1);
    writer.byte(1);
    writer.byte(3);
    writer.number(Number::Float(42.5f64.to_bits())).unwrap();
    writer.byte(4);
    writer.string(b"hi\0");
    // One empty nested prototype.
    writer.integer(1);
    writer.string(b"");
    writer.integer(0);
    writer.integer(0);
    writer.byte(0);
    writer.byte(0);
    writer.byte(0);
    writer.byte(2);
    writer.integer(0);
    writer.integer(0);
    writer.integer(0);
    writer.integer(0);
    writer.integer(0);
    writer.integer(0);
    // Line info, locals, upvalue names.
    writer.integer(2);
    writer.integer(1);
    writer.integer(2);
    writer.integer(1);
    writer.string(b"x\0");
    writer.integer(0);
    writer.integer(1);
    writer.integer(1);
    writer.string(b"up\0");
    let input = writer.finalize();

    let output_format = Format {
        endianness: Endianness::Big,
        size_t_width: BitWidth::Bit64,
        ..format_32bit()
    };
    let output = unify(&input, &output_format, &settings).unwrap();

    let parsed_input = parse_module(&input, &settings);
    let parsed_output = parse_module(&output, &settings);
    assert_functions_equal(&parsed_input, &parsed_output);
    assert_eq!(parsed_input.line_info.len(), parsed_input.instructions.len());
    assert_eq!(
        parsed_input.local_variables,
        vec![LocalVariable { name: b"x\0".to_vec(), start_program_counter: 0, end_program_counter: 1 }],
    );
}

/// Compare two prototype trees field by field.
fn assert_functions_equal(left: &Function, right: &Function) {
    assert_eq!(left.source_file, right.source_file);
    assert_eq!(left.line_defined, right.line_defined);
    assert_eq!(left.last_line_defined, right.last_line_defined);
    assert_eq!(left.parameter_count, right.parameter_count);
    assert_eq!(left.is_variadic, right.is_variadic);
    assert_eq!(left.maximum_stack_size, right.maximum_stack_size);
    assert_eq!(left.instructions, right.instructions);
    assert_eq!(left.constants, right.constants);
    assert_eq!(left.local_variables, right.local_variables);
    assert_eq!(left.line_info, right.line_info);
    assert_eq!(left.upvalues, right.upvalues);
    assert_eq!(left.functions.len(), right.functions.len());
    for index in 0..left.functions.len() {
        assert_functions_equal(&left.functions[index], &right.functions[index]);
    }
}

#[test]
fn existing_constant_found_in_full_pool() {
    // Only allocations can fail with TooManyConstants: a lookup that
    // finds its constant succeeds even when the pool is already past the
    // maximum constant index.
    let settings = Settings::default();
    let mut constants = vec![Constant::Nil; 256];
    let instructions = vec![lua50::Instruction {
        opcode: lua50::Opcode::TForLoop,
        a: 0,
        mode: Mode::BC(BC(OperandMode::Unused, OperandMode::Generic(1))),
    }];

    let result = upcast(instructions, vec![0; 1], &mut constants, &mut 9, 0, false, &settings);
    assert!(result.is_ok());
    assert_eq!(constants.len(), 256);
}
