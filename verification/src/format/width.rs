use vstd::prelude::*;

verus! {

/// The width of Lua-internal types in bits.
#[derive(Clone, Copy, Debug, PartialEq, Eq, Structural, Hash)]
pub enum BitWidth {
    /// 32 bits
    Bit32,
    /// 64 bits
    Bit64,
}

impl BitWidth {
    /// Parse a width byte of the header. Only the values 4 and 8 name a
    /// supported width; any other byte is handed back as the error.
    pub fn try_from(value: u8) -> (result: Result<BitWidth, u8>)
        ensures
            result == (match value {
                4u8 => Result::<BitWidth, u8>::Ok(BitWidth::Bit32),
                8u8 => Result::<BitWidth, u8>::Ok(BitWidth::Bit64),
                _ => Result::<BitWidth, u8>::Err(value),
            }),
    {
        match value {
            4 => Ok(BitWidth::Bit32),
            8 => Ok(BitWidth::Bit64),
            width => Err(width),
        }
    }

    /// The number of bytes a value of this width occupies in the binary,
    /// which is also the byte that stands for the width in the header.
    pub fn to_u8(self) -> (result: u8)
        ensures
            result == self.byte_count(),
    {
        match self {
            BitWidth::Bit32 => 4,
            BitWidth::Bit64 => 8,
        }
    }

    /// The number of bytes a value of this width occupies in the binary.
    pub open spec fn byte_count(self) -> u8 {
        match self {
            BitWidth::Bit32 => 4u8,
            BitWidth::Bit64 => 8u8,
        }
    }

    /// A printable name for this width.
    pub fn display_text(self) -> (result: &'static str)
        ensures
            self == BitWidth::Bit32 ==> result@ == "32 bit"@,
            self == BitWidth::Bit64 ==> result@ == "64 bit"@,
    {
        match self {
            BitWidth::Bit32 => "32 bit",
            BitWidth::Bit64 => "64 bit",
        }
    }
}

} // verus!
