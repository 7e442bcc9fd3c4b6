use vstd::prelude::*;

use crate::error::LunifyError;

verus! {

/// Byte order of the multi-byte fields in the binary.
#[derive(Clone, Copy, Debug, PartialEq, Eq, Structural, Hash)]
pub enum Endianness {
    /// Most significant byte first.
    Big,
    /// Least significant byte first.
    Little,
}

impl Endianness {
    /// Parse the endianness byte of the header.
    pub fn try_from(value: u8) -> (result: Result<Endianness, LunifyError>)
        ensures
            result == (match value {
                0u8 => Result::<Endianness, LunifyError>::Ok(Endianness::Big),
                1u8 => Result::<Endianness, LunifyError>::Ok(Endianness::Little),
                _ => Result::<Endianness, LunifyError>::Err(LunifyError::InvalidEndianness(value)),
            }),
    {
        match value {
            0 => Ok(Endianness::Big),
            1 => Ok(Endianness::Little),
            endianness => Err(LunifyError::InvalidEndianness(endianness)),
        }
    }

    /// The byte that stands for this endianness in the header.
    pub fn to_u8(self) -> (result: u8)
        ensures
            result == (match self {
                Endianness::Big => 0u8,
                Endianness::Little => 1u8,
            }),
    {
        match self {
            Endianness::Big => 0,
            Endianness::Little => 1,
        }
    }
}

} // verus!
