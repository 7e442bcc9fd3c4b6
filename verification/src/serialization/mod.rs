use vstd::prelude::*;

use crate::format::Endianness;

pub mod stream;
pub mod writer;

pub use stream::ByteStream;
pub use writer::ByteWriter;

verus! {

/// The unsigned value stored by a little-endian run of 4 or 8 bytes.
pub open spec fn word_from_bytes_le(s: Seq<u8>) -> u64
    recommends
        s.len() == 4 || s.len() == 8,
{
    if s.len() == 4 {
        (s[0] as int + s[1] as int * 0x100 + s[2] as int * 0x10000 + s[3] as int * 0x1000000) as u64
    } else {
        (s[0] as int + s[1] as int * 0x100 + s[2] as int * 0x10000 + s[3] as int * 0x1000000
            + s[4] as int * 0x100000000 + s[5] as int * 0x10000000000
            + s[6] as int * 0x1000000000000 + s[7] as int * 0x100000000000000) as u64
    }
}

/// The unsigned value stored by a big-endian run of 4 or 8 bytes.
pub open spec fn word_from_bytes_be(s: Seq<u8>) -> u64
    recommends
        s.len() == 4 || s.len() == 8,
{
    word_from_bytes_le(s.reverse())
}

/// The unsigned value stored by a run of 4 or 8 bytes in the given byte
/// order.
pub open spec fn word_from_bytes(s: Seq<u8>, endianness: Endianness) -> u64
    recommends
        s.len() == 4 || s.len() == 8,
{
    match endianness {
        Endianness::Little => word_from_bytes_le(s),
        Endianness::Big => word_from_bytes_be(s),
    }
}

/// The little-endian encoding of the low `count` bytes of a word.
pub open spec fn word_to_bytes_le(word: u64, count: int) -> Seq<u8>
    recommends
        count == 4 || count == 8,
{
    Seq::new(count as nat, |k: int| ((word as int / pow256(k)) % 0x100) as u8)
}

/// The encoding of the low `count` bytes of a word in the given byte order.
pub open spec fn word_to_bytes(word: u64, count: int, endianness: Endianness) -> Seq<u8>
    recommends
        count == 4 || count == 8,
{
    match endianness {
        Endianness::Little => word_to_bytes_le(word, count),
        Endianness::Big => word_to_bytes_le(word, count).reverse(),
    }
}

/// 256 to the power `k`, used to place the byte at index `k`.
pub open spec fn pow256(k: int) -> int
    decreases k,
{
    if k <= 0 {
        1
    } else {
        0x100 * pow256(k - 1)
    }
}

/// The signed value of a word of `count` bytes, read as a two's complement
/// integer and sign-extended to 64 bits.
pub open spec fn signed_from_word(raw: u64, count: int) -> i64
    recommends
        count == 4 || count == 8,
        count == 4 ==> raw < 0x100000000,
{
    if count == 4 {
        if raw < 0x80000000 {
            raw as i64
        } else {
            (raw as int - 0x100000000) as i64
        }
    } else {
        if raw < 0x8000000000000000 {
            raw as i64
        } else {
            (raw as int - 0x10000000000000000) as i64
        }
    }
}

/// The two's complement word of `count` bytes that stores a signed value,
/// truncated to the word's width.
pub open spec fn word_from_signed(value: i64, count: int) -> u64
    recommends
        count == 4 || count == 8,
{
    if count == 4 {
        (value as int % 0x100000000) as u64
    } else {
        (value as int % 0x10000000000000000) as u64
    }
}

/// Whatever was already written stays in place when more bytes follow.
pub proof fn lemma_append_keeps_prefix(before: Seq<u8>, suffix: Seq<u8>)
    ensures
        before.is_prefix_of(before + suffix),
{
    assert((before + suffix).take(before.len() as int) =~= before);
}

/// A prefix of a prefix is a prefix.
pub proof fn lemma_prefix_transitive(first: Seq<u8>, second: Seq<u8>, third: Seq<u8>)
    requires
        first.is_prefix_of(second),
        second.is_prefix_of(third),
    ensures
        first.is_prefix_of(third),
{
    assert forall|i: int| 0 <= i < first.len() implies third[i] == first[i] by {
        assert(second.take(first.len() as int)[i] == second[i]);
        assert(third.take(second.len() as int)[i] == third[i]);
    }
    assert(third.take(first.len() as int) =~= first);
}

/// Writing a word of 4 or 8 bytes and reading it back in the same byte order
/// gives back the word, as long as the word fits the width.
pub proof fn lemma_word_round_trip(word: u64, count: int, endianness: Endianness)
    requires
        count == 4 || count == 8,
        count == 4 ==> word < 0x100000000,
    ensures
        word_from_bytes(word_to_bytes(word, count, endianness), endianness) == word,
{
    let le = word_to_bytes_le(word, count);
    assert(le.len() == count);
    if endianness == Endianness::Big {
        assert(word_to_bytes(word, count, endianness).reverse() =~= le);
    }
    if count == 4 {
        assert(le[0] as int + le[1] as int * 0x100 + le[2] as int * 0x10000 + le[3] as int * 0x1000000 == word) by {
            assert((word as int % 0x100) + ((word as int / 0x100) % 0x100) * 0x100
                + ((word as int / 0x10000) % 0x100) * 0x10000
                + ((word as int / 0x1000000) % 0x100) * 0x1000000 == word as int % 0x100000000) by (bit_vector);
        }
    } else {
        assert(le[0] as int + le[1] as int * 0x100 + le[2] as int * 0x10000 + le[3] as int * 0x1000000
            + le[4] as int * 0x100000000 + le[5] as int * 0x10000000000
            + le[6] as int * 0x1000000000000 + le[7] as int * 0x100000000000000 == word) by {
            assert((word as int % 0x100) + ((word as int / 0x100) % 0x100) * 0x100
                + ((word as int / 0x10000) % 0x100) * 0x10000
                + ((word as int / 0x1000000) % 0x100) * 0x1000000
                + ((word as int / 0x100000000) % 0x100) * 0x100000000
                + ((word as int / 0x10000000000) % 0x100) * 0x10000000000
                + ((word as int / 0x1000000000000) % 0x100) * 0x1000000000000
                + ((word as int / 0x100000000000000) % 0x100) * 0x100000000000000 == word as int) by (bit_vector);
        }
    }
}

/// Writing an integer with a given width and endianness and parsing it back
/// reproduces the source integer, as long as the integer fits the width.
pub proof fn lemma_integer_round_trip(value: i64, count: int, endianness: Endianness)
    requires
        count == 4 || count == 8,
        count == 4 ==> -0x80000000 <= value < 0x80000000,
    ensures
        signed_from_word(
            word_from_bytes(word_to_bytes(word_from_signed(value, count), count, endianness), endianness),
            count,
        ) == value,
{
    let word = word_from_signed(value, count);
    assert(count == 4 ==> word < 0x100000000) by {
        if count == 4 {
            assert(0 <= value as int % 0x100000000 < 0x100000000);
        }
    }
    lemma_word_round_trip(word, count, endianness);
    if count == 4 {
        if value >= 0 {
            assert(value as int % 0x100000000 == value);
        } else {
            assert(value as int % 0x100000000 == value + 0x100000000);
        }
    } else {
        if value >= 0 {
            assert(value as int % 0x10000000000000000 == value);
        } else {
            assert(value as int % 0x10000000000000000 == value + 0x10000000000000000);
        }
    }
}

} // verus!
