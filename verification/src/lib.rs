//! Convert Lua 5.0 and Lua 5.1 byte code to a caller-specified Lua 5.1
//! binary layout.

mod error;
/// The byte code format descriptor and its header codec.
pub mod format;
/// Function prototypes: parsing, rewriting and serializing.
pub mod function;
/// The instruction model: layouts, operands and the two instruction sets.
pub mod instruction;
/// Lua numbers as integer arithmetic on bit patterns.
pub mod number;
/// The endian- and width-aware byte reader and writer.
pub mod serialization;

pub use error::LunifyError;
pub use format::{BitWidth, Endianness, Format};
pub use instruction::{lua50, lua51, InstructionLayout, OperandType, Settings};

use format::{spec_format_bytes, spec_parse_format50, spec_parse_format51, LuaVersion};
use function::Function;
use serialization::{ByteStream, ByteWriter};
use vstd::prelude::*;

verus! {

/// The bytes of the input after its binary signature, when the input
/// starts with one of the configured signatures. The Lua 5.0 signature is
/// tried first, as parsing does.
pub open spec fn spec_after_signature(input: Seq<u8>, settings: Settings) -> Option<Seq<u8>> {
    if settings.lua50.binary_signature@.is_prefix_of(input) {
        Some(input.skip(settings.lua50.binary_signature@.len() as int))
    } else if settings.lua51.binary_signature@.is_prefix_of(input) {
        Some(input.skip(settings.lua51.binary_signature@.len() as int))
    } else {
        None
    }
}

/// The format stored in the input's header, when the signature, the
/// version byte and the format section all parse.
pub open spec fn spec_header_format(input: Seq<u8>, settings: Settings) -> Option<Format> {
    match spec_after_signature(input, settings) {
        None => None,
        Some(after_signature) => if after_signature.len() < 1 {
            None
        } else if after_signature[0] == 0x50 {
            match spec_parse_format50(after_signature.skip(1)) {
                Ok(format) => Some(format),
                Err(_) => None,
            }
        } else if after_signature[0] == 0x51 {
            match spec_parse_format51(after_signature.skip(1)) {
                Ok(format) => Some(format),
                Err(_) => None,
            }
        } else {
            None
        },
    }
}

/// Take Lua byte code in a supported format and convert it to byte code in
/// the specified output [`Format`]. An input that already has the output
/// format is handed back unchanged.
pub fn unify(input_bytes: &[u8], output_format: &Format, settings: &Settings) -> (result: Result<
    Vec<u8>,
    LunifyError,
>)
    requires
        settings.wf(),
    ensures
        // Unless the input already stores the output format (and is
        // handed back as it went in), every output starts with the output
        // signature, the Lua 5.1 version byte and the output format's
        // header bytes.
        result matches Ok(bytes) ==> (spec_header_format(input_bytes@, *settings) == Some(
            *output_format,
        ) || (settings.output.binary_signature@ + seq![0x51u8] + spec_format_bytes(
            *output_format,
        )).is_prefix_of(bytes@)),
        // An input that already stores the output format comes back as it
        // went in.
        spec_header_format(input_bytes@, *settings) == Some(*output_format) ==> (
        result matches Ok(bytes) && bytes@ == input_bytes@),
        // The signature check fails exactly when the input starts with
        // neither configured signature.
        result == Err::<Vec<u8>, LunifyError>(LunifyError::IncorrectSignature)
            <==> spec_after_signature(input_bytes@, *settings) is None,
        // A version byte other than the two supported ones is handed back
        // in the error.
        spec_after_signature(input_bytes@, *settings) matches Some(after_signature) ==> (
        (after_signature.len() >= 1 && after_signature[0] != 0x50 && after_signature[0] != 0x51)
            ==> result == Err::<Vec<u8>, LunifyError>(
            LunifyError::UnsupportedVersion(after_signature[0]),
        )),
        // A header error of the format section is handed through.
        spec_after_signature(input_bytes@, *settings) matches Some(after_signature) ==> (
        (after_signature.len() >= 1 && after_signature[0] == 0x51) ==> (spec_parse_format51(
            after_signature.skip(1),
        ) matches Err(header_error) ==> result == Err::<Vec<u8>, LunifyError>(header_error))),
        spec_after_signature(input_bytes@, *settings) matches Some(after_signature) ==> (
        (after_signature.len() >= 1 && after_signature[0] == 0x50) ==> (spec_parse_format50(
            after_signature.skip(1),
        ) matches Err(header_error) ==> result == Err::<Vec<u8>, LunifyError>(header_error))),
{
    let mut byte_stream = ByteStream::new(input_bytes);

    if !byte_stream.remove_signature(settings.lua50.binary_signature.as_slice())
        && !byte_stream.remove_signature(settings.lua51.binary_signature.as_slice()) {
        return Err(LunifyError::IncorrectSignature);
    }
    proof {
        assert(byte_stream.bytes().skip(byte_stream.cursor())
            == spec_after_signature(input_bytes@, *settings)->Some_0);
    }
    let ghost after_signature = byte_stream.bytes().skip(byte_stream.cursor());

    let version_byte = match byte_stream.byte() {
        Ok(byte) => byte,
        Err(error) => {
            return Err(error);
        },
    };
    proof {
        assert(after_signature[0] == version_byte);
        assert(after_signature.skip(1) =~= byte_stream.bytes().skip(byte_stream.cursor()));
    }
    let version = match LuaVersion::try_from(version_byte) {
        Ok(version) => version,
        Err(error) => {
            return Err(error);
        },
    };

    let input_format = match Format::from_byte_stream(&mut byte_stream, version) {
        Ok(format) => format,
        Err(error) => {
            return Err(error);
        },
    };

    // If the input is already in the correct format, return it as is.
    if input_format == *output_format {
        return Ok(copy_bytes(input_bytes));
    }

    byte_stream.set_format(input_format);

    let root_function = Function::from_byte_stream(&mut byte_stream, version, settings)?;

    if !byte_stream.is_empty() {
        return Err(LunifyError::InputTooLong);
    }

    let mut byte_writer = ByteWriter::new(output_format);

    byte_writer.slice(settings.output.binary_signature.as_slice());
    byte_writer.byte(LuaVersion::Lua51.to_u8());
    output_format.write(&mut byte_writer);
    let ghost header = settings.output.binary_signature@ + seq![0x51u8] + spec_format_bytes(
        *output_format,
    );
    proof {
        assert(byte_writer.bytes() =~= header);
    }
    root_function.write(&mut byte_writer)?;
    proof {
        assert(header.is_prefix_of(byte_writer.bytes()));
    }

    Ok(byte_writer.finalize())
}

/// An owned copy of a run of bytes.
fn copy_bytes(data: &[u8]) -> (result: Vec<u8>)
    ensures
        result@ == data@,
{
    let mut copy: Vec<u8> = Vec::new();
    let mut index: usize = 0;
    while index < data.len()
        invariant
            index <= data@.len(),
            copy@ == data@.take(index as int),
        decreases data@.len() - index,
    {
        copy.push(data[index]);
        index += 1;
        proof {
            assert(copy@ =~= data@.take(index as int));
        }
    }
    proof {
        assert(copy@ =~= data@);
    }
    copy
}

} // verus!
