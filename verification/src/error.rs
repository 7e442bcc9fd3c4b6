use vstd::prelude::*;

verus! {

/// Error during [unify](crate::unify).
#[derive(Clone, Copy, Debug, PartialEq, Eq, Hash)]
pub enum LunifyError {
    /// The specified instruction layout is not valid. This can happen when
    /// size limitations are not respected, when operand types are specified
    /// more than once, or when the B and C operands are not adjacent.
    InvalidInstructionLayout,
    /// The provided byte code does not start with a recognized signature.
    IncorrectSignature,
    /// The version of Lua that the byte code was compiled for is not
    /// supported.
    UnsupportedVersion(u8),
    /// The specified format does not specify a valid endianness.
    InvalidEndianness(u8),
    /// The instruction memory layout of the Lua 5.0 input is not supported.
    UnsupportedInstructionFormat([u8; 4]),
    /// The pointer width of the system that the byte code was compiled for is
    /// not supported.
    UnsupportedSizeTWidth(u8),
    /// The integer width of the system that the byte code was compiled for is
    /// not supported.
    UnsupportedIntegerWidth(u8),
    /// The instruction width of the system that the byte code was compiled
    /// for is not supported.
    UnsupportedInstructionWidth(u8),
    /// The number width of the system that the byte code was compiled for is
    /// not supported.
    UnsupportedNumberWidth(u8),
    /// The byte code contains an instruction with an opcode that is not
    /// recognized.
    InvalidOpcode(u64),
    /// The byte code contains a constant with a type tag that is not
    /// recognized.
    InvalidConstantType(u8),
    /// The byte code contains a number with a non-integral value that can't
    /// be represented when `is_number_integral` is set to true.
    FloatPrecisionLoss,
    /// The byte code contains an integral value that is too big to be
    /// represented when `is_number_integral` is set to false.
    IntegerOverflow,
    /// The byte code is truncated.
    InputTooShort,
    /// The byte code has excess bytes after the root function prototype.
    InputTooLong,
    /// The byte code generated by converting is using stack values that are
    /// bigger than the Lua 5.1 `MAXSTACK`.
    StackTooLarge(u64),
    /// The byte code generated by converting is using more constants than Lua
    /// 5.1 supports (`MAXINDEXRK`).
    TooManyConstants(u64),
    /// The byte code generated by converting to Lua 5.1 needs to store a
    /// value in an operand that exceeds the maximum possible value.
    ValueTooBigForOperand,
    /// The Lua 5.0 `FORLOOP` instruction specified a positive jump, even
    /// though we expect it to always be negative.
    UnexpectedForwardJump,
}

} // verus!
