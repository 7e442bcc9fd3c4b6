use vstd::prelude::*;

use crate::error::LunifyError;
use crate::format::{Endianness, Format};
use crate::number::{number_to_word, truncate_signed, Number};
use super::{pow256, word_from_signed, word_to_bytes, word_to_bytes_le};

verus! {

/// The two's complement word of `count` bytes that stores a (possibly
/// unbounded) length, truncated to the word's width.
pub open spec fn word_from_int(value: int, count: int) -> u64
    recommends
        count == 4 || count == 8,
{
    if count == 4 {
        (value % 0x100000000) as u64
    } else {
        (value % 0x10000000000000000) as u64
    }
}

/// Growing buffer of bytes, with a [`Format`] that decides the width and
/// byte order of multi-byte writes.
pub struct ByteWriter {
    data: Vec<u8>,
    format: Format,
}

impl ByteWriter {
    /// The bytes written so far.
    pub closed spec fn bytes(&self) -> Seq<u8> {
        self.data@
    }

    /// The format the writer was created with.
    pub closed spec fn spec_format(&self) -> Format {
        self.format
    }

    /// Create an empty writer for the given output format.
    pub fn new(format: &Format) -> (result: ByteWriter)
        ensures
            result.bytes() == Seq::<u8>::empty(),
            result.spec_format() == *format,
    {
        let data = Vec::new();
        proof {
            assert(data@ =~= Seq::<u8>::empty());
        }
        ByteWriter { data, format: *format }
    }

    /// Append a single byte.
    pub fn byte(&mut self, byte: u8)
        ensures
            final(self).bytes() == old(self).bytes().push(byte),
            final(self).spec_format() == old(self).spec_format(),
    {
        self.data.push(byte);
    }

    /// Append a run of raw bytes.
    pub fn slice(&mut self, slice: &[u8])
        ensures
            final(self).bytes() == old(self).bytes() + slice@,
            final(self).spec_format() == old(self).spec_format(),
    {
        let mut index: usize = 0;
        while index < slice.len()
            invariant
                index <= slice@.len(),
                self.data@ == old(self).data@ + slice@.take(index as int),
                self.format == old(self).format,
            decreases slice@.len() - index,
        {
            self.data.push(slice[index]);
            index += 1;
            proof {
                assert(self.data@ =~= old(self).data@ + slice@.take(index as int));
            }
        }
        proof {
            assert(self.data@ =~= old(self).data@ + slice@);
        }
    }

    /// Append an unsigned word of `count` bytes in the given byte order.
    fn word(&mut self, word: u64, count: u8, endianness: Endianness)
        requires
            count == 4 || count == 8,
        ensures
            final(self).bytes() == old(self).bytes() + word_to_bytes(word, count as int, endianness),
            final(self).spec_format() == old(self).spec_format(),
    {
        proof {
            assert(pow256(0) == 1);
            assert(pow256(1) == 0x100);
            assert(pow256(2) == 0x10000);
            assert(pow256(3) == 0x1000000);
            assert(pow256(4) == 0x100000000);
            assert(pow256(5) == 0x10000000000);
            assert(pow256(6) == 0x1000000000000);
            assert(pow256(7) == 0x100000000000000);
        }
        let b0 = (word % 0x100) as u8;
        let b1 = ((word / 0x100) % 0x100) as u8;
        let b2 = ((word / 0x10000) % 0x100) as u8;
        let b3 = ((word / 0x1000000) % 0x100) as u8;
        if count == 4 {
            let ghost le = word_to_bytes_le(word, 4);
            proof {
                assert(le =~= seq![b0, b1, b2, b3]);
            }
            match endianness {
                Endianness::Little => {
                    self.data.push(b0);
                    self.data.push(b1);
                    self.data.push(b2);
                    self.data.push(b3);
                    proof {
                        assert(self.data@ =~= old(self).data@ + le);
                    }
                },
                Endianness::Big => {
                    self.data.push(b3);
                    self.data.push(b2);
                    self.data.push(b1);
                    self.data.push(b0);
                    proof {
                        assert(self.data@ =~= old(self).data@ + le.reverse());
                    }
                },
            }
        } else {
            let b4 = ((word / 0x100000000) % 0x100) as u8;
            let b5 = ((word / 0x10000000000) % 0x100) as u8;
            let b6 = ((word / 0x1000000000000) % 0x100) as u8;
            let b7 = ((word / 0x100000000000000) % 0x100) as u8;
            let ghost le = word_to_bytes_le(word, 8);
            proof {
                assert(le =~= seq![b0, b1, b2, b3, b4, b5, b6, b7]);
            }
            match endianness {
                Endianness::Little => {
                    self.data.push(b0);
                    self.data.push(b1);
                    self.data.push(b2);
                    self.data.push(b3);
                    self.data.push(b4);
                    self.data.push(b5);
                    self.data.push(b6);
                    self.data.push(b7);
                    proof {
                        assert(self.data@ =~= old(self).data@ + le);
                    }
                },
                Endianness::Big => {
                    self.data.push(b7);
                    self.data.push(b6);
                    self.data.push(b5);
                    self.data.push(b4);
                    self.data.push(b3);
                    self.data.push(b2);
                    self.data.push(b1);
                    self.data.push(b0);
                    proof {
                        assert(self.data@ =~= old(self).data@ + le.reverse());
                    }
                },
            }
        }
    }

    /// Append a signed integer of the format's integer width.
    pub fn integer(&mut self, value: i64)
        ensures
            final(self).bytes() == old(self).bytes() + word_to_bytes(
                word_from_signed(value, old(self).spec_format().integer_width.byte_count() as int),
                old(self).spec_format().integer_width.byte_count() as int,
                old(self).spec_format().endianness,
            ),
            final(self).spec_format() == old(self).spec_format(),
    {
        let count = self.format.integer_width.to_u8();
        let endianness = self.format.endianness;
        let word = truncate_signed(value, count);
        self.word(word, count, endianness);
    }

    /// Append a signed `size_t` of the format's `size_t` width.
    pub fn size_t(&mut self, value: i64)
        ensures
            final(self).bytes() == old(self).bytes() + word_to_bytes(
                word_from_signed(value, old(self).spec_format().size_t_width.byte_count() as int),
                old(self).spec_format().size_t_width.byte_count() as int,
                old(self).spec_format().endianness,
            ),
            final(self).spec_format() == old(self).spec_format(),
    {
        let count = self.format.size_t_width.to_u8();
        let endianness = self.format.endianness;
        let word = truncate_signed(value, count);
        self.word(word, count, endianness);
    }

    /// Append an unsigned instruction word of the format's instruction
    /// width.
    pub fn instruction(&mut self, instruction: u64)
        ensures
            final(self).bytes() == old(self).bytes() + word_to_bytes(
                instruction,
                old(self).spec_format().instruction_width.byte_count() as int,
                old(self).spec_format().endianness,
            ),
            final(self).spec_format() == old(self).spec_format(),
    {
        let count = self.format.instruction_width.to_u8();
        let endianness = self.format.endianness;
        self.word(instruction, count, endianness);
    }

    /// Append a Lua number of the format's number width. Fails when the
    /// number does not fit the format's number interpretation.
    pub fn number(&mut self, value: Number) -> (result: Result<(), LunifyError>)
        ensures
            final(self).spec_format() == old(self).spec_format(),
            ({
                let count = old(self).spec_format().number_width.byte_count() as int;
                match number_to_word(value, count, old(self).spec_format().is_number_integral) {
                    Ok(word) => {
                        &&& result == Result::<(), LunifyError>::Ok(())
                        &&& final(self).bytes() == old(self).bytes() + word_to_bytes(
                            word,
                            count,
                            old(self).spec_format().endianness,
                        )
                    },
                    Err(error) => {
                        &&& result == Result::<(), LunifyError>::Err(error)
                        &&& final(self).bytes() == old(self).bytes()
                    },
                }
            }),
    {
        let count = self.format.number_width.to_u8();
        let endianness = self.format.endianness;
        let is_integral = self.format.is_number_integral;
        let word = value.to_word(count, is_integral)?;
        self.word(word, count, endianness);
        Ok(())
    }

    /// Append a `size_t`-prefixed run of raw bytes. The length prefix counts
    /// the bytes that follow.
    pub fn string(&mut self, value: &[u8])
        ensures
            final(self).bytes() == old(self).bytes() + word_to_bytes(
                word_from_int(
                    value@.len() as int,
                    old(self).spec_format().size_t_width.byte_count() as int,
                ),
                old(self).spec_format().size_t_width.byte_count() as int,
                old(self).spec_format().endianness,
            ) + value@,
            final(self).spec_format() == old(self).spec_format(),
    {
        let count = self.format.size_t_width.to_u8();
        let endianness = self.format.endianness;
        let length = value.len();
        let word = if count == 4 {
            proof {
                assert((length as u64) % 0x100000000u64 == length as int % 0x100000000) by (bit_vector)
                    requires length <= 0xFFFFFFFFFFFFFFFFu64;
            }
            (length as u64) % 0x100000000
        } else {
            length as u64
        };
        self.word(word, count, endianness);
        self.slice(value);
    }

    /// Hand out the written bytes, consuming the writer.
    pub fn finalize(self) -> (result: Vec<u8>)
        ensures
            result@ == self.bytes(),
    {
        self.data
    }

}

} // verus!
