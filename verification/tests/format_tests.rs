use lunify::format::endianness::Endianness;
use lunify::format::version::LuaVersion;
use lunify::format::width::BitWidth;
use lunify::format::Format;
use lunify::serialization::{ByteStream, ByteWriter};
use lunify::LunifyError;

fn expected_format() -> Format {
    Format {
        format: 0,
        endianness: Endianness::Little,
        integer_width: BitWidth::Bit32,
        size_t_width: BitWidth::Bit64,
        instruction_width: BitWidth::Bit32,
        number_width: BitWidth::Bit64,
        is_number_integral: false,
    }
}

fn from_test_data(version: LuaVersion, bytes: &[u8]) -> Result<Format, LunifyError> {
    let mut byte_stream = ByteStream::new(bytes);
    let result = Format::from_byte_stream(&mut byte_stream, version);

    assert!(byte_stream.is_empty());
    result
}

#[test]
fn big_endian() {
    assert_eq!(Endianness::try_from(0), Ok(Endianness::Big));
}

#[test]
fn small_endian() {
    assert_eq!(Endianness::try_from(1), Ok(Endianness::Little));
}

#[test]
fn unsupported_endianness() {
    assert_eq!(Endianness::try_from(2), Err(LunifyError::InvalidEndianness(2)));
}

#[test]
fn lua51() {
    assert_eq!(LuaVersion::try_from(0x51), Ok(LuaVersion::Lua51));
}

#[test]
fn lua50() {
    assert_eq!(LuaVersion::try_from(0x50), Ok(LuaVersion::Lua50));
}

#[test]
fn unsupported_version() {
    assert_eq!(LuaVersion::try_from(0x52), Err(LunifyError::UnsupportedVersion(0x52)));
}

#[test]
fn lua50_to_u8() {
    assert_eq!(LuaVersion::Lua50.to_u8(), 0x50);
}

#[test]
fn lua51_to_u8() {
    assert_eq!(LuaVersion::Lua51.to_u8(), 0x51);
}

#[test]
fn format_lua50() {
    assert_eq!(LuaVersion::Lua50.display_text(), "Lua 5.0");
}

#[test]
fn format_lua51() {
    assert_eq!(LuaVersion::Lua51.display_text(), "Lua 5.1");
}

#[test]
fn bit32() {
    assert_eq!(BitWidth::try_from(4), Ok(BitWidth::Bit32));
}

#[test]
fn bit64() {
    assert_eq!(BitWidth::try_from(8), Ok(BitWidth::Bit64));
}

#[test]
fn unsupported_width() {
    assert_eq!(BitWidth::try_from(6), Err(6));
}

#[test]
fn format_bit32() {
    assert_eq!(BitWidth::Bit32.display_text(), "32 bit");
}

#[test]
fn format_bit64() {
    assert_eq!(BitWidth::Bit64.display_text(), "64 bit");
}

#[test]
fn lua_51() {
    let result = from_test_data(LuaVersion::Lua51, &[0, 1, 4, 8, 4, 8, 0]);
    assert_eq!(result, Ok(expected_format()));
}

#[test]
fn lua_50() {
    let result = from_test_data(LuaVersion::Lua50, &[
        1, 4, 8, 4, 6, 8, 9, 9, 8, 0xB6, 0x09, 0x93, 0x68, 0xE7, 0xF5, 0x7D, 0x41,
    ]);
    assert_eq!(result, Ok(expected_format()));
}

#[test]
fn write() {
    let format = expected_format();
    let mut byte_writer = ByteWriter::new(&format);
    format.write(&mut byte_writer);
    assert_eq!(byte_writer.finalize(), vec![0, 1, 4, 8, 4, 8, 0]);
}

#[test]
fn lua_50_unsupported_instruction_format() {
    let result = from_test_data(LuaVersion::Lua50, &[1, 4, 8, 4, 6, 9, 8, 9]);
    assert_eq!(result, Err(LunifyError::UnsupportedInstructionFormat([6, 9, 8, 9])));
}

#[test]
fn unsupported_integer_width() {
    let result = from_test_data(LuaVersion::Lua51, &[0, 1, 6]);
    assert_eq!(result, Err(LunifyError::UnsupportedIntegerWidth(6)));
}

#[test]
fn unsupported_size_t_width() {
    let result = from_test_data(LuaVersion::Lua51, &[0, 1, 4, 6]);
    assert_eq!(result, Err(LunifyError::UnsupportedSizeTWidth(6)));
}

#[test]
fn unsupported_instruction_width() {
    let result = from_test_data(LuaVersion::Lua51, &[0, 1, 4, 8, 6]);
    assert_eq!(result, Err(LunifyError::UnsupportedInstructionWidth(6)));
}

#[test]
fn unsupported_number_width() {
    let result = from_test_data(LuaVersion::Lua51, &[0, 1, 4, 8, 4, 6]);
    assert_eq!(result, Err(LunifyError::UnsupportedNumberWidth(6)));
}
