use vstd::prelude::*;

use crate::error::LunifyError;
use crate::format::{Endianness, Format};
use crate::number::{number_from_word, sign_extend_word, Number};
use super::{signed_from_word, word_from_bytes};

verus! {

/// Positional cursor over an immutable run of bytes, with a current
/// [`Format`] that decides the width and byte order of multi-byte reads.
pub struct ByteStream {
    data: Vec<u8>,
    offset: usize,
    format: Format,
}

impl ByteStream {
    /// The bytes the stream was created over.
    pub closed spec fn bytes(&self) -> Seq<u8> {
        self.data@
    }

    /// The current cursor position.
    pub closed spec fn cursor(&self) -> int {
        self.offset as int
    }

    /// The current format.
    pub closed spec fn spec_format(&self) -> Format {
        self.format
    }

    /// The cursor never stands before the data or past its end.
    pub open spec fn wf(&self) -> bool {
        0 <= self.cursor() <= self.bytes().len()
    }

    /// The number of bytes left to read.
    pub open spec fn remaining(&self) -> int {
        self.bytes().len() - self.cursor()
    }

    /// The bytes and the format are never changed by reading; only the
    /// cursor moves.
    pub open spec fn same_source(&self, old: &ByteStream) -> bool {
        &&& self.bytes() == old.bytes()
        &&& self.spec_format() == old.spec_format()
    }

    /// The next `count` bytes in front of the cursor.
    pub open spec fn chunk(&self, count: int) -> Seq<u8> {
        self.bytes().subrange(self.cursor(), self.cursor() + count)
    }

    /// Create a byte stream over a copy of the given bytes, with the default
    /// format.
    pub fn new(data: &[u8]) -> (result: ByteStream)
        ensures
            result.wf(),
            result.bytes() == data@,
            result.cursor() == 0,
            result.spec_format() == Format::standard(),
    {
        let mut copy: Vec<u8> = Vec::new();
        let mut index: usize = 0;
        while index < data.len()
            invariant
                index <= data@.len(),
                copy@ == data@.take(index as int),
            decreases data@.len() - index,
        {
            copy.push(data[index]);
            index += 1;
            proof {
                assert(copy@ =~= data@.take(index as int));
            }
        }
        proof {
            assert(copy@ =~= data@);
        }
        ByteStream { data: copy, offset: 0, format: Format::default() }
    }

    /// Replace the stream's format. All following multi-byte reads use the
    /// new widths and byte order.
    pub fn set_format(&mut self, format: Format)
        requires
            old(self).wf(),
        ensures
            final(self).wf(),
            final(self).bytes() == old(self).bytes(),
            final(self).cursor() == old(self).cursor(),
            final(self).spec_format() == format,
    {
        self.format = format;
    }

    /// The current format, as set by [`ByteStream::set_format`].
    pub fn get_format(&self) -> (result: Format)
        ensures
            result == self.spec_format(),
    {
        self.format
    }

    /// Read a single byte and advance the cursor past it. At the end of the
    /// stream this fails with `InputTooShort`.
    pub fn byte(&mut self) -> (result: Result<u8, LunifyError>)
        requires
            old(self).wf(),
        ensures
            final(self).wf(),
            final(self).same_source(old(self)),
            final(self).cursor() >= old(self).cursor(),
            old(self).remaining() >= 1 ==> {
                &&& result == Result::<u8, LunifyError>::Ok(old(self).bytes()[old(self).cursor()])
                &&& final(self).cursor() == old(self).cursor() + 1
            },
            old(self).remaining() == 0 ==> {
                &&& result == Result::<u8, LunifyError>::Err(LunifyError::InputTooShort)
                &&& final(self).cursor() == old(self).cursor()
            },
    {
        if self.offset < self.data.len() {
            let byte = self.data[self.offset];
            self.offset += 1;
            Ok(byte)
        } else {
            Err(LunifyError::InputTooShort)
        }
    }

    /// The number of bytes left to read.
    pub fn remaining_bytes(&self) -> (result: usize)
        requires
            self.wf(),
        ensures
            result == self.remaining(),
    {
        self.data.len() - self.offset
    }

    /// Move the cursor to the end of the data, as a failed read does.
    pub fn skip_to_end(&mut self)
        requires
            old(self).wf(),
        ensures
            final(self).wf(),
            final(self).same_source(old(self)),
            final(self).cursor() == final(self).bytes().len(),
    {
        self.offset = self.data.len();
    }

    /// Read a single byte off a stream that is known to have one left.
    pub fn take_byte(&mut self) -> (result: u8)
        requires
            old(self).wf(),
            old(self).remaining() >= 1,
        ensures
            final(self).wf(),
            final(self).same_source(old(self)),
            result == old(self).bytes()[old(self).cursor()],
            final(self).cursor() == old(self).cursor() + 1,
    {
        let length = self.data.len();
        let byte = self.data[self.offset];
        self.offset += 1;
        byte
    }

    /// Read an unsigned word of `count` bytes in the given byte order and
    /// advance the cursor past it.
    pub(crate) fn word(&mut self, count: u8, endianness: Endianness) -> (result: Result<u64, LunifyError>)
        requires
            old(self).wf(),
            count == 4 || count == 8,
        ensures
            final(self).wf(),
            final(self).same_source(old(self)),
            final(self).cursor() >= old(self).cursor(),
            old(self).remaining() >= count ==> {
                &&& result == Result::<u64, LunifyError>::Ok(
                    word_from_bytes(old(self).chunk(count as int), endianness),
                )
                &&& final(self).cursor() == old(self).cursor() + count
            },
            old(self).remaining() < count ==> {
                &&& result == Result::<u64, LunifyError>::Err(LunifyError::InputTooShort)
                &&& final(self).cursor() == final(self).bytes().len()
            },
            count == 4 && old(self).remaining() >= 4 ==> (result matches Ok(word) && word < 0x100000000),
    {
        if self.data.len() - self.offset < count as usize {
            self.offset = self.data.len();
            return Err(LunifyError::InputTooShort);
        }

        let base = self.offset;
        let ghost chunk = self.chunk(count as int);
        let value: u64 = if count == 4 {
            let (b0, b1, b2, b3) = match endianness {
                Endianness::Little => (self.data[base], self.data[base + 1], self.data[base + 2], self.data[base + 3]),
                Endianness::Big => (self.data[base + 3], self.data[base + 2], self.data[base + 1], self.data[base]),
            };
            proof {
                if endianness == Endianness::Big {
                    assert(chunk.reverse() =~= seq![b0, b1, b2, b3]);
                } else {
                    assert(chunk =~= seq![b0, b1, b2, b3]);
                }
            }
            b0 as u64 + b1 as u64 * 0x100 + b2 as u64 * 0x10000 + b3 as u64 * 0x1000000
        } else {
            let (b0, b1, b2, b3, b4, b5, b6, b7) = match endianness {
                Endianness::Little => (
                    self.data[base], self.data[base + 1], self.data[base + 2], self.data[base + 3],
                    self.data[base + 4], self.data[base + 5], self.data[base + 6], self.data[base + 7],
                ),
                Endianness::Big => (
                    self.data[base + 7], self.data[base + 6], self.data[base + 5], self.data[base + 4],
                    self.data[base + 3], self.data[base + 2], self.data[base + 1], self.data[base],
                ),
            };
            proof {
                if endianness == Endianness::Big {
                    assert(chunk.reverse() =~= seq![b0, b1, b2, b3, b4, b5, b6, b7]);
                } else {
                    assert(chunk =~= seq![b0, b1, b2, b3, b4, b5, b6, b7]);
                }
            }
            b0 as u64 + b1 as u64 * 0x100 + b2 as u64 * 0x10000 + b3 as u64 * 0x1000000
                + b4 as u64 * 0x100000000 + b5 as u64 * 0x10000000000
                + b6 as u64 * 0x1000000000000 + b7 as u64 * 0x100000000000000
        };

        self.offset = base + count as usize;
        Ok(value)
    }

    /// Read a signed integer of the format's integer width, sign-extended to
    /// 64 bits.
    pub fn integer(&mut self) -> (result: Result<i64, LunifyError>)
        requires
            old(self).wf(),
        ensures
            final(self).wf(),
            final(self).same_source(old(self)),
            final(self).cursor() >= old(self).cursor(),
            ({
                let count = old(self).spec_format().integer_width.byte_count() as int;
                &&& old(self).remaining() >= count ==> {
                    &&& result == Result::<i64, LunifyError>::Ok(
                        signed_from_word(
                            word_from_bytes(old(self).chunk(count), old(self).spec_format().endianness),
                            count,
                        ),
                    )
                    &&& final(self).cursor() == old(self).cursor() + count
                }
                &&& old(self).remaining() < count ==> result == Result::<i64, LunifyError>::Err(
                    LunifyError::InputTooShort,
                )
            }),
    {
        let count = self.format.integer_width.to_u8();
        let endianness = self.format.endianness;
        let raw = self.word(count, endianness)?;
        Ok(sign_extend_word(raw, count))
    }

    /// Read a signed `size_t` of the format's `size_t` width, sign-extended
    /// to 64 bits.
    pub fn size_t(&mut self) -> (result: Result<i64, LunifyError>)
        requires
            old(self).wf(),
        ensures
            final(self).wf(),
            final(self).same_source(old(self)),
            final(self).cursor() >= old(self).cursor(),
            ({
                let count = old(self).spec_format().size_t_width.byte_count() as int;
                &&& old(self).remaining() >= count ==> {
                    &&& result == Result::<i64, LunifyError>::Ok(
                        signed_from_word(
                            word_from_bytes(old(self).chunk(count), old(self).spec_format().endianness),
                            count,
                        ),
                    )
                    &&& final(self).cursor() == old(self).cursor() + count
                }
                &&& old(self).remaining() < count ==> result == Result::<i64, LunifyError>::Err(
                    LunifyError::InputTooShort,
                )
            }),
    {
        let count = self.format.size_t_width.to_u8();
        let endianness = self.format.endianness;
        let raw = self.word(count, endianness)?;
        Ok(sign_extend_word(raw, count))
    }

    /// Read an unsigned instruction word of the format's instruction width.
    pub fn instruction(&mut self) -> (result: Result<u64, LunifyError>)
        requires
            old(self).wf(),
        ensures
            final(self).wf(),
            final(self).same_source(old(self)),
            final(self).cursor() >= old(self).cursor(),
            ({
                let count = old(self).spec_format().instruction_width.byte_count() as int;
                &&& old(self).remaining() >= count ==> {
                    &&& result == Result::<u64, LunifyError>::Ok(
                        word_from_bytes(old(self).chunk(count), old(self).spec_format().endianness),
                    )
                    &&& final(self).cursor() == old(self).cursor() + count
                }
                &&& old(self).remaining() < count ==> result == Result::<u64, LunifyError>::Err(
                    LunifyError::InputTooShort,
                )
            }),
    {
        let count = self.format.instruction_width.to_u8();
        let endianness = self.format.endianness;
        self.word(count, endianness)
    }

    /// Read a Lua number of the format's number width: an integer when the
    /// format stores numbers integrally, otherwise a float held as its
    /// 64-bit IEEE 754 bit pattern.
    pub fn number(&mut self) -> (result: Result<Number, LunifyError>)
        requires
            old(self).wf(),
        ensures
            final(self).wf(),
            final(self).same_source(old(self)),
            final(self).cursor() >= old(self).cursor(),
            ({
                let count = old(self).spec_format().number_width.byte_count() as int;
                &&& old(self).remaining() >= count ==> {
                    &&& result == Result::<Number, LunifyError>::Ok(
                        number_from_word(
                            word_from_bytes(old(self).chunk(count), old(self).spec_format().endianness),
                            count,
                            old(self).spec_format().is_number_integral,
                        ),
                    )
                    &&& final(self).cursor() == old(self).cursor() + count
                }
                &&& old(self).remaining() < count ==> result == Result::<Number, LunifyError>::Err(
                    LunifyError::InputTooShort,
                )
            }),
    {
        let count = self.format.number_width.to_u8();
        let endianness = self.format.endianness;
        let is_integral = self.format.is_number_integral;
        let raw = self.word(count, endianness)?;
        Ok(Number::from_word(raw, count, is_integral))
    }

    /// Read `length` raw bytes and advance the cursor past them.
    pub fn slice(&mut self, length: usize) -> (result: Result<Vec<u8>, LunifyError>)
        requires
            old(self).wf(),
        ensures
            final(self).wf(),
            final(self).same_source(old(self)),
            final(self).cursor() >= old(self).cursor(),
            old(self).remaining() >= length ==> {
                &&& result matches Ok(bytes) && bytes@ == old(self).chunk(length as int)
                &&& final(self).cursor() == old(self).cursor() + length
            },
            old(self).remaining() < length ==> {
                &&& result == Result::<Vec<u8>, LunifyError>::Err(LunifyError::InputTooShort)
                &&& final(self).cursor() == final(self).bytes().len()
            },
    {
        if self.data.len() - self.offset < length {
            self.offset = self.data.len();
            return Err(LunifyError::InputTooShort);
        }

        let base = self.offset;
        let mut bytes: Vec<u8> = Vec::new();
        let mut index: usize = 0;
        while index < length
            invariant
                self.wf(),
                self.data@.len() <= usize::MAX,
                base + length <= self.data@.len(),
                index <= length,
                bytes@ == self.data@.subrange(base as int, base + index),
            decreases length - index,
        {
            bytes.push(self.data[base + index]);
            index += 1;
            proof {
                assert(bytes@ =~= self.data@.subrange(base as int, base + index));
            }
        }
        self.offset = base + length;
        Ok(bytes)
    }

    /// Read a `size_t`-prefixed run of raw bytes and advance the cursor past
    /// it. The length prefix counts the bytes that follow.
    pub fn string(&mut self) -> (result: Result<Vec<u8>, LunifyError>)
        requires
            old(self).wf(),
        ensures
            final(self).wf(),
            final(self).same_source(old(self)),
            final(self).cursor() >= old(self).cursor(),
            result matches Ok(bytes) ==> final(self).cursor() > old(self).cursor(),
            // The only failure is running out of bytes, and success is
            // owed whenever the length prefix and that many bytes remain.
            result is Err ==> result == Err::<Vec<u8>, LunifyError>(LunifyError::InputTooShort),
            old(self).remaining() < old(self).spec_format().size_t_width.byte_count() ==> result is Err,
            ({
                let count = old(self).spec_format().size_t_width.byte_count() as int;
                let length = signed_from_word(
                    word_from_bytes(old(self).chunk(count), old(self).spec_format().endianness),
                    count,
                );
                (old(self).remaining() >= count && 0 <= length <= usize::MAX) ==> (result is Ok
                    <==> old(self).remaining() >= count + length)
            }),
            result matches Ok(bytes) ==> ({
                let count = old(self).spec_format().size_t_width.byte_count() as int;
                let length = signed_from_word(
                    word_from_bytes(old(self).chunk(count), old(self).spec_format().endianness),
                    count,
                );
                0 <= length <= usize::MAX ==> {
                    &&& bytes@ == old(self).bytes().subrange(
                        old(self).cursor() + count,
                        old(self).cursor() + count + length,
                    )
                    &&& final(self).cursor() == old(self).cursor() + count + length
                }
            }),
    {
        let length_value = self.size_t()?;
        let length: usize = if length_value >= 0 && (length_value as u64) <= (usize::MAX as u64) {
            length_value as usize
        } else {
            // A length that cannot fit the address space cannot fit the
            // stream either; reading it as unsigned makes the following
            // slice fail.
            #[verifier::truncate] (length_value as usize)
        };
        let ghost mid = *self;
        let bytes = self.slice(length)?;
        proof {
            if 0 <= length_value <= usize::MAX {
                let count = old(self).spec_format().size_t_width.byte_count() as int;
                assert(bytes@ =~= old(self).bytes().subrange(
                    old(self).cursor() + count,
                    old(self).cursor() + count + length_value,
                ));
            }
        }
        Ok(bytes)
    }

    /// Whether the cursor stands at (or past) the end of the data.
    pub fn is_empty(&self) -> (result: bool)
        ensures
            result == (self.remaining() <= 0),
    {
        self.offset >= self.data.len()
    }

    /// Consume the given signature if the stream starts with it. Returns
    /// whether the signature was found; when it is not found the cursor does
    /// not move.
    pub fn remove_signature(&mut self, signature: &[u8]) -> (result: bool)
        requires
            old(self).wf(),
        ensures
            final(self).wf(),
            final(self).same_source(old(self)),
            result == (old(self).remaining() >= signature@.len()
                && old(self).chunk(signature@.len() as int) == signature@),
            result ==> final(self).cursor() == old(self).cursor() + signature@.len(),
            !result ==> final(self).cursor() == old(self).cursor(),
    {
        if self.data.len() - self.offset < signature.len() {
            return false;
        }

        let base = self.offset;
        let mut index: usize = 0;
        while index < signature.len()
            invariant
                self == old(self),
                base == self.offset,
                self.wf(),
                self.data@.len() <= usize::MAX,
                base + signature@.len() <= self.data@.len(),
                index <= signature@.len(),
                self.data@.subrange(base as int, base + index) =~= signature@.take(index as int),
            decreases signature@.len() - index,
        {
            if self.data[base + index] != signature[index] {
                proof {
                    assert(old(self).chunk(signature@.len() as int)[index as int] != signature@[index as int]);
                }
                return false;
            }
            index += 1;
            proof {
                assert(self.data@.subrange(base as int, base + index) =~= signature@.take(index as int));
            }
        }
        proof {
            assert(old(self).chunk(signature@.len() as int) =~= signature@);
        }
        self.offset = base + signature.len();
        true
    }
}

} // verus!
