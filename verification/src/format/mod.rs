use vstd::prelude::*;

pub mod endianness;
pub mod version;
pub mod width;

pub use endianness::Endianness;
pub use version::LuaVersion;
pub use width::BitWidth;

use crate::error::LunifyError;
use crate::number::f64_bits_from_f32_bits;
use crate::serialization::{word_from_bytes, ByteStream, ByteWriter};

verus! {

/// The bit pattern of the binary64 value `3.14159265358979e7`, which Lua
/// 5.0 writes into the header as a sample number. A header whose sample
/// decodes to exactly this value stores numbers as floats; any other
/// decoded value means numbers are stored integrally.
pub const LUA50_NUMBER_SAMPLE_BITS: u64 = 0x417DF5E7689309B6;

/// Lua byte code format: the word layout that all multi-byte fields of the
/// binary use.
#[derive(Clone, Copy, Debug, PartialEq, Eq, Structural, Hash)]
pub struct Format {
    /// The format of the compiler. The standard is 0.
    pub format: u8,
    /// The endianness of the target system.
    pub endianness: Endianness,
    /// The width of an integer on the target system.
    pub integer_width: BitWidth,
    /// The width of a C `size_t` on the target system. Also the pointer
    /// width.
    pub size_t_width: BitWidth,
    /// The width of a Lua instruction inside the binary.
    pub instruction_width: BitWidth,
    /// The width of the Lua number type.
    pub number_width: BitWidth,
    /// Whether a Lua number is stored as an integer instead of a float.
    pub is_number_integral: bool,
}

/// The format the parser of a Lua 5.1 header names: the seven header bytes
/// after the version byte, each validated, or the first error among them.
pub open spec fn spec_parse_format51(s: Seq<u8>) -> Result<Format, LunifyError> {
    if s.len() < 2 {
        Err(LunifyError::InputTooShort)
    } else if s[1] > 1 {
        Err(LunifyError::InvalidEndianness(s[1]))
    } else if s.len() < 3 {
        Err(LunifyError::InputTooShort)
    } else if s[2] != 4 && s[2] != 8 {
        Err(LunifyError::UnsupportedIntegerWidth(s[2]))
    } else if s.len() < 4 {
        Err(LunifyError::InputTooShort)
    } else if s[3] != 4 && s[3] != 8 {
        Err(LunifyError::UnsupportedSizeTWidth(s[3]))
    } else if s.len() < 5 {
        Err(LunifyError::InputTooShort)
    } else if s[4] != 4 && s[4] != 8 {
        Err(LunifyError::UnsupportedInstructionWidth(s[4]))
    } else if s.len() < 6 {
        Err(LunifyError::InputTooShort)
    } else if s[5] != 4 && s[5] != 8 {
        Err(LunifyError::UnsupportedNumberWidth(s[5]))
    } else if s.len() < 7 {
        Err(LunifyError::InputTooShort)
    } else {
        Ok(Format {
            format: s[0],
            endianness: spec_endianness(s[1]),
            integer_width: spec_width(s[2]),
            size_t_width: spec_width(s[3]),
            instruction_width: spec_width(s[4]),
            number_width: spec_width(s[5]),
            is_number_integral: s[6] == 1,
        })
    }
}

/// The number of bytes a Lua 5.0 header holds after the version byte, when
/// its number width byte is `w`.
pub open spec fn spec_format50_length(w: u8) -> int {
    9 + w as int
}

/// The format the parser of a Lua 5.0 header names, or the first error in
/// it. After endianness and the three width bytes, the header carries the
/// four instruction layout sizes (which must be exactly `[6, 8, 9, 9]`),
/// the number width, and a sample number whose decoded value decides
/// whether numbers are integral.
pub open spec fn spec_parse_format50(s: Seq<u8>) -> Result<Format, LunifyError> {
    if s.len() < 1 {
        Err(LunifyError::InputTooShort)
    } else if s[0] > 1 {
        Err(LunifyError::InvalidEndianness(s[0]))
    } else if s.len() < 2 {
        Err(LunifyError::InputTooShort)
    } else if s[1] != 4 && s[1] != 8 {
        Err(LunifyError::UnsupportedIntegerWidth(s[1]))
    } else if s.len() < 3 {
        Err(LunifyError::InputTooShort)
    } else if s[2] != 4 && s[2] != 8 {
        Err(LunifyError::UnsupportedSizeTWidth(s[2]))
    } else if s.len() < 4 {
        Err(LunifyError::InputTooShort)
    } else if s[3] != 4 && s[3] != 8 {
        Err(LunifyError::UnsupportedInstructionWidth(s[3]))
    } else if s.len() < 8 {
        Err(LunifyError::InputTooShort)
    } else if !(s[4] == 6 && s[5] == 8 && s[6] == 9 && s[7] == 9) {
        Err(LunifyError::UnsupportedInstructionFormat([s[4], s[5], s[6], s[7]]))
    } else if s.len() < 9 {
        Err(LunifyError::InputTooShort)
    } else if s[8] != 4 && s[8] != 8 {
        Err(LunifyError::UnsupportedNumberWidth(s[8]))
    } else if s.len() < spec_format50_length(s[8]) {
        Err(LunifyError::InputTooShort)
    } else {
        let endianness = spec_endianness(s[0]);
        let number_width = spec_width(s[8]);
        let sample_word = word_from_bytes(s.subrange(9, 9 + s[8] as int), endianness);
        let sample_bits = if s[8] == 4 {
            f64_bits_from_f32_bits(sample_word as u32)
        } else {
            sample_word
        };
        Ok(Format {
            format: 0,
            endianness,
            integer_width: spec_width(s[1]),
            size_t_width: spec_width(s[2]),
            instruction_width: spec_width(s[3]),
            number_width,
            is_number_integral: sample_bits != LUA50_NUMBER_SAMPLE_BITS,
        })
    }
}

/// The endianness a valid endianness byte names.
pub open spec fn spec_endianness(byte: u8) -> Endianness
    recommends
        byte <= 1,
{
    if byte == 0 {
        Endianness::Big
    } else {
        Endianness::Little
    }
}

/// The width a valid width byte names.
pub open spec fn spec_width(byte: u8) -> BitWidth
    recommends
        byte == 4 || byte == 8,
{
    if byte == 4 {
        BitWidth::Bit32
    } else {
        BitWidth::Bit64
    }
}

/// The seven header bytes that a format writes after the version byte.
pub open spec fn spec_format_bytes(format: Format) -> Seq<u8> {
    seq![
        format.format,
        if format.endianness == Endianness::Big { 0u8 } else { 1u8 },
        format.integer_width.byte_count(),
        format.size_t_width.byte_count(),
        format.instruction_width.byte_count(),
        format.number_width.byte_count(),
        if format.is_number_integral { 1u8 } else { 0u8 },
    ]
}

impl Format {
    /// The format that `Default` builds: a 64-bit little-endian layout with
    /// 32-bit integers and instructions and binary64 numbers.
    pub open spec fn standard() -> Format {
        Format {
            format: 0,
            endianness: Endianness::Little,
            integer_width: BitWidth::Bit32,
            size_t_width: BitWidth::Bit64,
            instruction_width: BitWidth::Bit32,
            number_width: BitWidth::Bit64,
            is_number_integral: false,
        }
    }

    /// Parse the format section of the header: everything between the
    /// version byte and the root function prototype.
    pub fn from_byte_stream(byte_stream: &mut ByteStream, version: LuaVersion) -> (result: Result<
        Format,
        LunifyError,
    >)
        requires
            old(byte_stream).wf(),
        ensures
            final(byte_stream).wf(),
            final(byte_stream).same_source(old(byte_stream)),
            final(byte_stream).cursor() >= old(byte_stream).cursor(),
            version == LuaVersion::Lua51 ==> result == spec_parse_format51(
                old(byte_stream).bytes().skip(old(byte_stream).cursor()),
            ),
            version == LuaVersion::Lua50 ==> result == spec_parse_format50(
                old(byte_stream).bytes().skip(old(byte_stream).cursor()),
            ),
            (version == LuaVersion::Lua51 && result is Ok) ==> final(byte_stream).cursor() == old(
                byte_stream,
            ).cursor() + 7,
            (version == LuaVersion::Lua50 && result is Ok) ==> final(byte_stream).cursor() == old(
                byte_stream,
            ).cursor() + spec_format50_length(old(byte_stream).bytes()[old(byte_stream).cursor() + 8]),
    {
        match version {
            LuaVersion::Lua51 => Self::from_byte_stream_lua51(byte_stream),
            LuaVersion::Lua50 => Self::from_byte_stream_lua50(byte_stream),
        }
    }

    /// Parse the Lua 5.1 form of the format section.
    #[verifier::rlimit(60)]
    fn from_byte_stream_lua51(byte_stream: &mut ByteStream) -> (result: Result<Format, LunifyError>)
        requires
            old(byte_stream).wf(),
        ensures
            final(byte_stream).wf(),
            final(byte_stream).same_source(old(byte_stream)),
            final(byte_stream).cursor() >= old(byte_stream).cursor(),
            result == spec_parse_format51(old(byte_stream).bytes().skip(old(byte_stream).cursor())),
            result is Ok ==> final(byte_stream).cursor() == old(byte_stream).cursor() + 7,
    {
        let ghost s = old(byte_stream).bytes().skip(old(byte_stream).cursor());
        let format = byte_stream.byte()?;
        let endianness_byte = byte_stream.byte()?;
        proof {
            assert(s[0] == format && s[1] == endianness_byte);
        }
        let endianness = match Endianness::try_from(endianness_byte) {
            Ok(endianness) => endianness,
            Err(error) => return Err(error),
        };

        let integer_byte = byte_stream.byte()?;
        proof {
            assert(s[2] == integer_byte);
        }
        let integer_width = match BitWidth::try_from(integer_byte) {
            Ok(width) => width,
            Err(byte) => return Err(LunifyError::UnsupportedIntegerWidth(byte)),
        };

        let size_t_byte = byte_stream.byte()?;
        proof {
            assert(s[3] == size_t_byte);
        }
        let size_t_width = match BitWidth::try_from(size_t_byte) {
            Ok(width) => width,
            Err(byte) => return Err(LunifyError::UnsupportedSizeTWidth(byte)),
        };

        let instruction_byte = byte_stream.byte()?;
        proof {
            assert(s[4] == instruction_byte);
        }
        let instruction_width = match BitWidth::try_from(instruction_byte) {
            Ok(width) => width,
            Err(byte) => return Err(LunifyError::UnsupportedInstructionWidth(byte)),
        };

        let number_byte = byte_stream.byte()?;
        proof {
            assert(s[5] == number_byte);
        }
        let number_width = match BitWidth::try_from(number_byte) {
            Ok(width) => width,
            Err(byte) => return Err(LunifyError::UnsupportedNumberWidth(byte)),
        };

        let integral_byte = byte_stream.byte()?;
        proof {
            assert(s[6] == integral_byte);
        }

        Ok(Format {
            format,
            endianness,
            integer_width,
            size_t_width,
            instruction_width,
            number_width,
            is_number_integral: integral_byte == 1,
        })
    }

    /// Parse the Lua 5.0 form of the format section.
    #[verifier::rlimit(80)]
    fn from_byte_stream_lua50(byte_stream: &mut ByteStream) -> (result: Result<Format, LunifyError>)
        requires
            old(byte_stream).wf(),
        ensures
            final(byte_stream).wf(),
            final(byte_stream).same_source(old(byte_stream)),
            final(byte_stream).cursor() >= old(byte_stream).cursor(),
            result == spec_parse_format50(old(byte_stream).bytes().skip(old(byte_stream).cursor())),
            result is Ok ==> final(byte_stream).cursor() == old(byte_stream).cursor()
                + spec_format50_length(old(byte_stream).bytes()[old(byte_stream).cursor() + 8]),
    {
        let ghost s = old(byte_stream).bytes().skip(old(byte_stream).cursor());
        let endianness_byte = byte_stream.byte()?;
        proof {
            assert(s[0] == endianness_byte);
        }
        let endianness = match Endianness::try_from(endianness_byte) {
            Ok(endianness) => endianness,
            Err(error) => return Err(error),
        };

        let integer_byte = byte_stream.byte()?;
        proof {
            assert(s[1] == integer_byte);
        }
        let integer_width = match BitWidth::try_from(integer_byte) {
            Ok(width) => width,
            Err(byte) => return Err(LunifyError::UnsupportedIntegerWidth(byte)),
        };

        let size_t_byte = byte_stream.byte()?;
        proof {
            assert(s[2] == size_t_byte);
        }
        let size_t_width = match BitWidth::try_from(size_t_byte) {
            Ok(width) => width,
            Err(byte) => return Err(LunifyError::UnsupportedSizeTWidth(byte)),
        };

        let instruction_byte = byte_stream.byte()?;
        proof {
            assert(s[3] == instruction_byte);
        }
        let instruction_width = match BitWidth::try_from(instruction_byte) {
            Ok(width) => width,
            Err(byte) => return Err(LunifyError::UnsupportedInstructionWidth(byte)),
        };

        if byte_stream.remaining_bytes() < 4 {
            byte_stream.skip_to_end();
            return Err(LunifyError::InputTooShort);
        }
        let layout0 = byte_stream.take_byte();
        let layout1 = byte_stream.take_byte();
        let layout2 = byte_stream.take_byte();
        let layout3 = byte_stream.take_byte();
        proof {
            assert(s[4] == layout0 && s[5] == layout1 && s[6] == layout2 && s[7] == layout3);
        }
        if !(layout0 == 6 && layout1 == 8 && layout2 == 9 && layout3 == 9) {
            return Err(LunifyError::UnsupportedInstructionFormat([layout0, layout1, layout2, layout3]));
        }

        let number_byte = byte_stream.byte()?;
        proof {
            assert(s[8] == number_byte);
        }
        let number_width = match BitWidth::try_from(number_byte) {
            Ok(width) => width,
            Err(byte) => return Err(LunifyError::UnsupportedNumberWidth(byte)),
        };

        let sample_word = match byte_stream.word(number_width.to_u8(), endianness) {
            Ok(word) => word,
            Err(error) => return Err(error),
        };
        proof {
            assert(old(byte_stream).bytes().subrange(
                old(byte_stream).cursor() + 9,
                old(byte_stream).cursor() + 9 + number_byte as int,
            ) =~= s.subrange(9, 9 + number_byte as int));
        }
        let sample_bits = match number_width {
            BitWidth::Bit32 => {
                let bits32 = sample_word as u32;
                crate::number::f32_bits_to_f64_bits(bits32)
            },
            BitWidth::Bit64 => sample_word,
        };

        Ok(Format {
            format: 0,
            endianness,
            integer_width,
            size_t_width,
            instruction_width,
            number_width,
            is_number_integral: sample_bits != LUA50_NUMBER_SAMPLE_BITS,
        })
    }

    /// Write the format section of the header: the seven bytes after the
    /// version byte, in the Lua 5.1 layout.
    pub fn write(&self, byte_writer: &mut ByteWriter)
        ensures
            final(byte_writer).bytes() == old(byte_writer).bytes() + spec_format_bytes(*self),
            final(byte_writer).spec_format() == old(byte_writer).spec_format(),
    {
        byte_writer.byte(self.format);
        byte_writer.byte(self.endianness.to_u8());
        byte_writer.byte(self.integer_width.to_u8());
        byte_writer.byte(self.size_t_width.to_u8());
        byte_writer.byte(self.instruction_width.to_u8());
        byte_writer.byte(self.number_width.to_u8());
        byte_writer.byte(if self.is_number_integral {
            1
        } else {
            0
        });
        proof {
            assert(final(byte_writer).bytes() =~= old(byte_writer).bytes() + spec_format_bytes(*self));
        }
    }

    /// All widths a format can hold are supported by construction, so this
    /// check always passes; it mirrors the validation that parsing performs
    /// on the raw width bytes.
    pub fn assert_supported(&self) -> (result: Result<(), LunifyError>)
        ensures
            result == Result::<(), LunifyError>::Ok(()),
    {
        Ok(())
    }
}

impl Default for Format {
    /// The standard format: see [`Format::standard`].
    fn default() -> (result: Format)
        ensures
            result == Format::standard(),
    {
        Format {
            format: 0,
            endianness: Endianness::Little,
            integer_width: BitWidth::Bit32,
            size_t_width: BitWidth::Bit64,
            instruction_width: BitWidth::Bit32,
            number_width: BitWidth::Bit64,
            is_number_integral: false,
        }
    }
}

} // verus!
