use lunify::format::endianness::Endianness;
use lunify::format::width::BitWidth;
use lunify::format::Format;
use lunify::number::Number;
use lunify::serialization::{ByteStream, ByteWriter};
use lunify::LunifyError;

fn test_format() -> Format {
    Format {
        format: 80,
        endianness: Endianness::Little,
        integer_width: BitWidth::Bit32,
        size_t_width: BitWidth::Bit64,
        instruction_width: BitWidth::Bit32,
        number_width: BitWidth::Bit64,
        is_number_integral: false,
    }
}

fn uniform_format(endianness: Endianness, width: BitWidth, is_number_integral: bool) -> Format {
    Format {
        format: 0,
        endianness,
        integer_width: width,
        size_t_width: width,
        instruction_width: width,
        number_width: width,
        is_number_integral,
    }
}

fn reading_stream(bytes: &[u8], endianness: Endianness, width: BitWidth) -> ByteStream {
    let mut stream = ByteStream::new(bytes);
    stream.set_format(uniform_format(endianness, width, false));
    stream
}

#[test]
fn set_format() {
    let mut stream = ByteStream::new(&[]);
    stream.set_format(test_format());
    assert_eq!(stream.get_format(), test_format());
}

#[test]
fn stream_byte() {
    let mut stream = ByteStream::new(&[9]);
    assert_eq!(stream.byte(), Ok(9));
    assert!(stream.is_empty());
}

#[test]
fn byte_too_short() {
    let mut stream = ByteStream::new(&[]);
    assert_eq!(stream.byte(), Err(LunifyError::InputTooShort));
    assert!(stream.is_empty());
}

#[test]
fn stream_integer() {
    let mut stream = reading_stream(&[9, 0, 0, 0], Endianness::Little, BitWidth::Bit32);
    assert_eq!(stream.integer(), Ok(9));
    assert!(stream.is_empty());

    let mut stream = reading_stream(&[0, 0, 0, 9], Endianness::Big, BitWidth::Bit32);
    assert_eq!(stream.integer(), Ok(9));
    assert!(stream.is_empty());

    let mut stream = reading_stream(&[9, 0, 0, 0, 0, 0, 0, 0], Endianness::Little, BitWidth::Bit64);
    assert_eq!(stream.integer(), Ok(9));
    assert!(stream.is_empty());

    let mut stream = reading_stream(&[0, 0, 0, 0, 0, 0, 0, 9], Endianness::Big, BitWidth::Bit64);
    assert_eq!(stream.integer(), Ok(9));
    assert!(stream.is_empty());
}

#[test]
fn stream_size_t() {
    let mut stream = reading_stream(&[9, 0, 0, 0], Endianness::Little, BitWidth::Bit32);
    assert_eq!(stream.size_t(), Ok(9));
    assert!(stream.is_empty());

    let mut stream = reading_stream(&[0, 0, 0, 9], Endianness::Big, BitWidth::Bit32);
    assert_eq!(stream.size_t(), Ok(9));
    assert!(stream.is_empty());

    let mut stream = reading_stream(&[9, 0, 0, 0, 0, 0, 0, 0], Endianness::Little, BitWidth::Bit64);
    assert_eq!(stream.size_t(), Ok(9));
    assert!(stream.is_empty());

    let mut stream = reading_stream(&[0, 0, 0, 0, 0, 0, 0, 9], Endianness::Big, BitWidth::Bit64);
    assert_eq!(stream.size_t(), Ok(9));
    assert!(stream.is_empty());
}

#[test]
fn stream_instruction() {
    let mut stream = reading_stream(&[9, 0, 0, 0], Endianness::Little, BitWidth::Bit32);
    assert_eq!(stream.instruction(), Ok(9));
    assert!(stream.is_empty());

    let mut stream = reading_stream(&[0, 0, 0, 9], Endianness::Big, BitWidth::Bit32);
    assert_eq!(stream.instruction(), Ok(9));
    assert!(stream.is_empty());

    let mut stream = reading_stream(&[9, 0, 0, 0, 0, 0, 0, 0], Endianness::Little, BitWidth::Bit64);
    assert_eq!(stream.instruction(), Ok(9));
    assert!(stream.is_empty());

    let mut stream = reading_stream(&[0, 0, 0, 0, 0, 0, 0, 9], Endianness::Big, BitWidth::Bit64);
    assert_eq!(stream.instruction(), Ok(9));
    assert!(stream.is_empty());
}

#[test]
fn stream_number() {
    // Integer representation.
    let mut stream = ByteStream::new(&[9, 0, 0, 0]);
    stream.set_format(uniform_format(Endianness::Little, BitWidth::Bit32, true));
    assert_eq!(stream.number(), Ok(Number::Integer(9)));
    assert!(stream.is_empty());

    let mut stream = ByteStream::new(&[0, 0, 0, 9]);
    stream.set_format(uniform_format(Endianness::Big, BitWidth::Bit32, true));
    assert_eq!(stream.number(), Ok(Number::Integer(9)));
    assert!(stream.is_empty());

    let mut stream = ByteStream::new(&[9, 0, 0, 0, 0, 0, 0, 0]);
    stream.set_format(uniform_format(Endianness::Little, BitWidth::Bit64, true));
    assert_eq!(stream.number(), Ok(Number::Integer(9)));
    assert!(stream.is_empty());

    let mut stream = ByteStream::new(&[0, 0, 0, 0, 0, 0, 0, 9]);
    stream.set_format(uniform_format(Endianness::Big, BitWidth::Bit64, true));
    assert_eq!(stream.number(), Ok(Number::Integer(9)));
    assert!(stream.is_empty());

    // Float representation; the stream hands back binary64 bit patterns.
    let expected = Number::Float(9.0f64.to_bits());

    let mut stream = ByteStream::new(&[0, 0, 16, 65]);
    stream.set_format(uniform_format(Endianness::Little, BitWidth::Bit32, false));
    assert_eq!(stream.number(), Ok(expected));
    assert!(stream.is_empty());

    let mut stream = ByteStream::new(&[65, 16, 0, 0]);
    stream.set_format(uniform_format(Endianness::Big, BitWidth::Bit32, false));
    assert_eq!(stream.number(), Ok(expected));
    assert!(stream.is_empty());

    let mut stream = ByteStream::new(&[0, 0, 0, 0, 0, 0, 34, 64]);
    stream.set_format(uniform_format(Endianness::Little, BitWidth::Bit64, false));
    assert_eq!(stream.number(), Ok(expected));
    assert!(stream.is_empty());

    let mut stream = ByteStream::new(&[64, 34, 0, 0, 0, 0, 0, 0]);
    stream.set_format(uniform_format(Endianness::Big, BitWidth::Bit64, false));
    assert_eq!(stream.number(), Ok(expected));
    assert!(stream.is_empty());
}

#[test]
fn stream_slice() {
    let mut stream = ByteStream::new(&[9, 9, 9]);
    stream.set_format(test_format());
    assert_eq!(stream.slice(3), Ok(vec![9, 9, 9]));
    assert!(stream.is_empty());
}

#[test]
fn empty_slice() {
    let mut stream = ByteStream::new(&[]);
    stream.set_format(test_format());
    assert_eq!(stream.slice(0), Ok(vec![]));
    assert!(stream.is_empty());
}

#[test]
fn slice_too_short() {
    let mut stream = ByteStream::new(&[9, 9]);
    stream.set_format(test_format());
    assert_eq!(stream.slice(3), Err(LunifyError::InputTooShort));
    assert!(stream.is_empty());
}

#[test]
fn stream_string() {
    let mut stream = ByteStream::new(&[3, 0, 0, 0, 0, 0, 0, 0, b'L', b'U', b'A']);
    stream.set_format(test_format());
    assert_eq!(stream.string(), Ok(b"LUA".to_vec()));
    assert!(stream.is_empty());
}

#[test]
fn string_too_short() {
    let mut stream = ByteStream::new(&[3, 0, 0, 0, 0, 0, 0, 0, b'L', b'U']);
    stream.set_format(test_format());
    assert_eq!(stream.string(), Err(LunifyError::InputTooShort));
    assert!(stream.is_empty());
}

#[test]
fn is_empty() {
    let stream = ByteStream::new(&[]);
    assert!(stream.is_empty());
}

#[test]
fn is_not_empty() {
    let stream = ByteStream::new(&[0]);
    assert!(!stream.is_empty());
}

fn writing_writer(endianness: Endianness, width: BitWidth, is_number_integral: bool) -> ByteWriter {
    ByteWriter::new(&uniform_format(endianness, width, is_number_integral))
}

#[test]
fn writer_byte() {
    let mut writer = ByteWriter::new(&test_format());
    writer.byte(9);
    assert_eq!(writer.finalize(), vec![9]);
}

#[test]
fn writer_slice() {
    let mut writer = ByteWriter::new(&test_format());
    writer.slice(&[7, 8, 9]);
    assert_eq!(writer.finalize(), vec![7, 8, 9]);
}

#[test]
fn writer_integer() {
    let mut writer = writing_writer(Endianness::Little, BitWidth::Bit32, false);
    writer.integer(9);
    assert_eq!(writer.finalize(), vec![9, 0, 0, 0]);

    let mut writer = writing_writer(Endianness::Big, BitWidth::Bit32, false);
    writer.integer(9);
    assert_eq!(writer.finalize(), vec![0, 0, 0, 9]);

    let mut writer = writing_writer(Endianness::Little, BitWidth::Bit64, false);
    writer.integer(9);
    assert_eq!(writer.finalize(), vec![9, 0, 0, 0, 0, 0, 0, 0]);

    let mut writer = writing_writer(Endianness::Big, BitWidth::Bit64, false);
    writer.integer(9);
    assert_eq!(writer.finalize(), vec![0, 0, 0, 0, 0, 0, 0, 9]);
}

#[test]
fn writer_size_t() {
    let mut writer = writing_writer(Endianness::Little, BitWidth::Bit32, false);
    writer.size_t(9);
    assert_eq!(writer.finalize(), vec![9, 0, 0, 0]);

    let mut writer = writing_writer(Endianness::Big, BitWidth::Bit32, false);
    writer.size_t(9);
    assert_eq!(writer.finalize(), vec![0, 0, 0, 9]);

    let mut writer = writing_writer(Endianness::Little, BitWidth::Bit64, false);
    writer.size_t(9);
    assert_eq!(writer.finalize(), vec![9, 0, 0, 0, 0, 0, 0, 0]);

    let mut writer = writing_writer(Endianness::Big, BitWidth::Bit64, false);
    writer.size_t(9);
    assert_eq!(writer.finalize(), vec![0, 0, 0, 0, 0, 0, 0, 9]);
}

#[test]
fn writer_instruction() {
    let mut writer = writing_writer(Endianness::Little, BitWidth::Bit32, false);
    writer.instruction(9);
    assert_eq!(writer.finalize(), vec![9, 0, 0, 0]);

    let mut writer = writing_writer(Endianness::Big, BitWidth::Bit32, false);
    writer.instruction(9);
    assert_eq!(writer.finalize(), vec![0, 0, 0, 9]);

    let mut writer = writing_writer(Endianness::Little, BitWidth::Bit64, false);
    writer.instruction(9);
    assert_eq!(writer.finalize(), vec![9, 0, 0, 0, 0, 0, 0, 0]);

    let mut writer = writing_writer(Endianness::Big, BitWidth::Bit64, false);
    writer.instruction(9);
    assert_eq!(writer.finalize(), vec![0, 0, 0, 0, 0, 0, 0, 9]);
}

#[test]
fn writer_number() {
    // Integer representation.
    let mut writer = writing_writer(Endianness::Little, BitWidth::Bit32, true);
    assert_eq!(writer.number(Number::Integer(9)), Ok(()));
    assert_eq!(writer.finalize(), vec![9, 0, 0, 0]);

    let mut writer = writing_writer(Endianness::Big, BitWidth::Bit32, true);
    assert_eq!(writer.number(Number::Integer(9)), Ok(()));
    assert_eq!(writer.finalize(), vec![0, 0, 0, 9]);

    let mut writer = writing_writer(Endianness::Little, BitWidth::Bit64, true);
    assert_eq!(writer.number(Number::Integer(9)), Ok(()));
    assert_eq!(writer.finalize(), vec![9, 0, 0, 0, 0, 0, 0, 0]);

    let mut writer = writing_writer(Endianness::Big, BitWidth::Bit64, true);
    assert_eq!(writer.number(Number::Integer(9)), Ok(()));
    assert_eq!(writer.finalize(), vec![0, 0, 0, 0, 0, 0, 0, 9]);

    // Float representation.
    let nine = Number::Float(9.0f64.to_bits());

    let mut writer = writing_writer(Endianness::Little, BitWidth::Bit32, false);
    assert_eq!(writer.number(nine), Ok(()));
    assert_eq!(writer.finalize(), vec![0, 0, 16, 65]);

    let mut writer = writing_writer(Endianness::Big, BitWidth::Bit32, false);
    assert_eq!(writer.number(nine), Ok(()));
    assert_eq!(writer.finalize(), vec![65, 16, 0, 0]);

    let mut writer = writing_writer(Endianness::Little, BitWidth::Bit64, false);
    assert_eq!(writer.number(nine), Ok(()));
    assert_eq!(writer.finalize(), vec![0, 0, 0, 0, 0, 0, 34, 64]);

    let mut writer = writing_writer(Endianness::Big, BitWidth::Bit64, false);
    assert_eq!(writer.number(nine), Ok(()));
    assert_eq!(writer.finalize(), vec![64, 34, 0, 0, 0, 0, 0, 0]);
}

#[test]
fn writer_string() {
    let mut writer = writing_writer(Endianness::Little, BitWidth::Bit32, false);
    writer.string(b"LUA");
    assert_eq!(writer.finalize(), vec![3, 0, 0, 0, b'L', b'U', b'A']);
}

#[test]
fn finalize() {
    let mut writer = ByteWriter::new(&test_format());
    writer.slice(&[7, 8, 9]);
    assert_eq!(writer.finalize(), vec![7, 8, 9]);
}

#[test]
fn integer_round_trip() {
    // Writing an integer and parsing it back reproduces it, for every
    // width and endianness.
    let value = -123456789i64;
    for endianness in [Endianness::Little, Endianness::Big] {
        for width in [BitWidth::Bit32, BitWidth::Bit64] {
            let format = uniform_format(endianness, width, false);
            let mut writer = ByteWriter::new(&format);
            writer.integer(value);
            let bytes = writer.finalize();

            let mut stream = ByteStream::new(&bytes);
            stream.set_format(format);
            assert_eq!(stream.integer(), Ok(value));
            assert!(stream.is_empty());
        }
    }
}
