use vstd::prelude::*;

use crate::error::LunifyError;
use super::layout::{InstructionLayout, OperandLayout};
use super::settings::Settings;

verus! {

/// How one of the B and C positions of an instruction is used, together
/// with its value. The kind decides how the raw bit field is interpreted
/// and whether stack renumbering applies.
#[derive(Clone, Copy, Debug, PartialEq, Eq, Structural, Hash)]
pub enum OperandMode {
    /// The position carries no information; it reads and writes zero.
    Unused,
    /// A raw value: read and written as is, untouched by renumbering.
    Generic(u64),
    /// A stack slot: read and written as is, shifted by renumbering.
    Register(u64),
    /// Either a stack slot or a constant-pool index; the flag tells which.
    /// Renumbering shifts only the register form.
    ConstantRegister(u64, bool),
}

/// The B and C positions of a BC-shaped instruction.
#[derive(Clone, Copy, Debug, PartialEq, Eq, Structural, Hash)]
pub struct BC(pub OperandMode, pub OperandMode);

/// The operand part of an instruction: either separate B and C positions,
/// the combined unsigned Bx field, or the signed sBx field.
#[derive(Clone, Copy, Debug, PartialEq, Eq, Structural, Hash)]
pub enum Mode {
    /// Separate B and C positions.
    BC(BC),
    /// The combined field spanning B and C, unsigned.
    Bx(u64),
    /// The combined field spanning B and C, biased to be signed.
    SignedBx(i64),
}

/// The interpretation an instruction assigns to one of its B and C
/// positions.
#[derive(Clone, Copy, Debug, PartialEq, Eq, Structural, Hash)]
pub enum OperandKind {
    /// The position carries no information.
    Unused,
    /// A raw value.
    Generic,
    /// A stack slot.
    Register,
    /// Either a stack slot or a constant-pool index.
    ConstantRegister,
}

/// The operand shape of an instruction: which fields it carries and how
/// each is used.
#[derive(Clone, Copy, Debug, PartialEq, Eq, Structural, Hash)]
pub enum OpShape {
    /// Separate B and C positions with the given interpretations.
    BC(OperandKind, OperandKind),
    /// The combined unsigned Bx field.
    Bx,
    /// The combined signed sBx field.
    SignedBx,
}

impl BC {
    /// A BC pair whose B holds a raw value and whose C holds a
    /// constant-pool index, marked as constant so that writing it sets the
    /// output's constant bit.
    pub fn const_c(b: u64, c: u64, _settings: &Settings) -> (result: BC)
        ensures
            result == BC(OperandMode::Generic(b), OperandMode::ConstantRegister(c, true)),
    {
        BC(OperandMode::Generic(b), OperandMode::ConstantRegister(c, true))
    }
}

/// A stack value shifted by a renumbering delta, when it lies at or above
/// the renumbered region; the shift wraps as two's complement arithmetic
/// does.
pub open spec fn spec_offset_value(value: u64, stack_start: u64, offset: i64) -> u64 {
    if value >= stack_start {
        vstd::wrapping::u64_specs::wrapping_add_signed(value, offset)
    } else {
        value
    }
}

impl OperandMode {
    /// The value after stack renumbering: registers (and register-form
    /// constant-register operands) at or above `stack_start` move by
    /// `offset`; everything else stays.
    pub open spec fn spec_offset(self, stack_start: u64, offset: i64) -> OperandMode {
        match self {
            OperandMode::Unused => OperandMode::Unused,
            OperandMode::Generic(value) => OperandMode::Generic(value),
            OperandMode::Register(value) => OperandMode::Register(
                spec_offset_value(value, stack_start, offset),
            ),
            OperandMode::ConstantRegister(value, is_constant) => if is_constant {
                OperandMode::ConstantRegister(value, true)
            } else {
                OperandMode::ConstantRegister(spec_offset_value(value, stack_start, offset), false)
            },
        }
    }

    /// Apply stack renumbering to this operand.
    pub fn offset(&mut self, stack_start: u64, offset: i64)
        ensures
            *final(self) == old(self).spec_offset(stack_start, offset),
    {
        match self {
            OperandMode::Unused => {},
            OperandMode::Generic(_) => {},
            OperandMode::Register(value) => {
                if *value >= stack_start {
                    *value = value.wrapping_add_signed(offset);
                }
            },
            OperandMode::ConstantRegister(value, is_constant) => {
                if *value >= stack_start && !*is_constant {
                    *value = value.wrapping_add_signed(offset);
                }
            },
        }
    }

    /// The packed contribution of this operand in the given output field,
    /// or the error when its value does not fit: a constant-pool index must
    /// stay at or below the output's maximum constant index, and every
    /// value must fit the field.
    pub open spec fn spec_put(self, settings: Settings, field: OperandLayout) -> Result<u64, LunifyError> {
        match self {
            OperandMode::Unused => Ok(0),
            OperandMode::Generic(value) => field.spec_put(value),
            OperandMode::Register(value) => field.spec_put(value),
            OperandMode::ConstantRegister(value, is_constant) => if value
                > settings.output.spec_maximum_constant_index() {
                Err(LunifyError::ValueTooBigForOperand)
            } else {
                field.spec_put(
                    if is_constant {
                        value | settings.output.spec_constant_bit()
                    } else {
                        value
                    },
                )
            },
        }
    }

    /// Pack this operand into the given output field.
    pub fn put(self, settings: &Settings, field: &OperandLayout) -> (result: Result<u64, LunifyError>)
        requires
            field.wf(),
            settings.output.layout.wf(),
        ensures
            result == self.spec_put(*settings, *field),
    {
        match self {
            OperandMode::Unused => Ok(0),
            OperandMode::Generic(value) => field.put(value),
            OperandMode::Register(value) => field.put(value),
            OperandMode::ConstantRegister(value, is_constant) => {
                if value > settings.output.get_maximum_constant_index() {
                    return Err(LunifyError::ValueTooBigForOperand);
                }
                let raw = if is_constant {
                    value | settings.output.get_constant_bit()
                } else {
                    value
                };
                field.put(raw)
            },
        }
    }

    /// The operand a raw Lua 5.0 field value decodes to under the given
    /// interpretation: values at or above the stack limit are constants,
    /// offset by the limit.
    pub open spec fn spec_get_lua50(kind: OperandKind, raw: u64, settings: Settings) -> OperandMode {
        match kind {
            OperandKind::Unused => OperandMode::Unused,
            OperandKind::Generic => OperandMode::Generic(raw),
            OperandKind::Register => OperandMode::Register(raw),
            OperandKind::ConstantRegister => if raw >= settings.lua50.stack_limit {
                OperandMode::ConstantRegister((raw - settings.lua50.stack_limit) as u64, true)
            } else {
                OperandMode::ConstantRegister(raw, false)
            },
        }
    }

    /// Decode a raw Lua 5.0 field value under the given interpretation.
    pub fn get_lua50(kind: OperandKind, raw: u64, settings: &Settings) -> (result: OperandMode)
        ensures
            result == Self::spec_get_lua50(kind, raw, *settings),
    {
        match kind {
            OperandKind::Unused => OperandMode::Unused,
            OperandKind::Generic => OperandMode::Generic(raw),
            OperandKind::Register => OperandMode::Register(raw),
            OperandKind::ConstantRegister => {
                if raw >= settings.lua50.stack_limit {
                    OperandMode::ConstantRegister(raw - settings.lua50.stack_limit, true)
                } else {
                    OperandMode::ConstantRegister(raw, false)
                }
            },
        }
    }

    /// The operand a raw Lua 5.1 field value decodes to under the given
    /// interpretation: a set constant bit marks a constant, and the bit is
    /// cleared off the index.
    pub open spec fn spec_get_lua51(kind: OperandKind, raw: u64, settings: Settings) -> OperandMode {
        match kind {
            OperandKind::Unused => OperandMode::Unused,
            OperandKind::Generic => OperandMode::Generic(raw),
            OperandKind::Register => OperandMode::Register(raw),
            OperandKind::ConstantRegister => if raw & settings.lua51.spec_constant_bit() != 0 {
                OperandMode::ConstantRegister(raw ^ settings.lua51.spec_constant_bit(), true)
            } else {
                OperandMode::ConstantRegister(raw, false)
            },
        }
    }

    /// Decode a raw Lua 5.1 field value under the given interpretation.
    pub fn get_lua51(kind: OperandKind, raw: u64, settings: &Settings) -> (result: OperandMode)
        requires
            1 <= settings.lua51.layout.b.size <= 63,
        ensures
            result == Self::spec_get_lua51(kind, raw, *settings),
    {
        match kind {
            OperandKind::Unused => OperandMode::Unused,
            OperandKind::Generic => OperandMode::Generic(raw),
            OperandKind::Register => OperandMode::Register(raw),
            OperandKind::ConstantRegister => {
                let constant_bit = settings.lua51.get_constant_bit();
                if raw & constant_bit != 0 {
                    OperandMode::ConstantRegister(raw ^ constant_bit, true)
                } else {
                    OperandMode::ConstantRegister(raw, false)
                }
            },
        }
    }
}

impl Mode {
    /// The mode after stack renumbering: both positions of a BC pair are
    /// renumbered; Bx and sBx fields carry no stack slots and stay.
    pub open spec fn spec_offset(self, stack_start: u64, offset: i64) -> Mode {
        match self {
            Mode::BC(BC(b, c)) => Mode::BC(
                BC(b.spec_offset(stack_start, offset), c.spec_offset(stack_start, offset)),
            ),
            Mode::Bx(value) => Mode::Bx(value),
            Mode::SignedBx(value) => Mode::SignedBx(value),
        }
    }

    /// Apply stack renumbering to the operands of this mode.
    pub fn offset(&mut self, stack_start: u64, offset: i64)
        ensures
            *final(self) == old(self).spec_offset(stack_start, offset),
    {
        match self {
            Mode::BC(bc) => {
                bc.0.offset(stack_start, offset);
                bc.1.offset(stack_start, offset);
            },
            Mode::Bx(_) => {},
            Mode::SignedBx(_) => {},
        }
    }

    /// The packed operand bits of this mode in the output layout, or the
    /// error when a value does not fit its field. A signed offset is biased
    /// by the output's signed bias; an offset so large that biasing it
    /// overflows cannot fit the field either.
    pub open spec fn spec_put(self, settings: Settings) -> Result<u64, LunifyError> {
        match self {
            Mode::BC(BC(b, c)) => match (
                b.spec_put(settings, settings.output.layout.b),
                c.spec_put(settings, settings.output.layout.c),
            ) {
                (Ok(b_bits), Ok(c_bits)) => Ok(b_bits | c_bits),
                (Err(error), _) => Err(error),
                (_, Err(error)) => Err(error),
            },
            Mode::Bx(value) => settings.output.layout.bx.spec_put(value),
            Mode::SignedBx(value) => {
                let biased = value + settings.output.layout.signed_offset;
                if biased > i64::MAX || biased < 0 {
                    Err(LunifyError::ValueTooBigForOperand)
                } else {
                    settings.output.layout.bx.spec_put(biased as u64)
                }
            },
        }
    }

    /// Pack the operand bits of this mode into the output layout.
    pub fn put(self, settings: &Settings) -> (result: Result<u64, LunifyError>)
        requires
            settings.output.layout.wf(),
        ensures
            result matches Err(error) ==> !(error is IncorrectSignature),
            result == self.spec_put(*settings),
    {
        match self {
            Mode::BC(BC(b, c)) => {
                let b_bits = b.put(settings, &settings.output.layout.b)?;
                let c_bits = c.put(settings, &settings.output.layout.c)?;
                Ok(b_bits | c_bits)
            },
            Mode::Bx(value) => settings.output.layout.bx.put(value),
            Mode::SignedBx(value) => {
                proof {
                    let size = settings.output.layout.bx.size;
                    assert((0xFFFFFFFFFFFFFFFFu64 >> ((64 - ((size - 1) as u64)) as u64))
                        < 0x8000000000000000) by (bit_vector)
                        requires 2 <= size <= 63,
                    ;
                }
                let signed_offset = settings.output.layout.signed_offset;
                if value >= 0 && value > i64::MAX - signed_offset {
                    return Err(LunifyError::ValueTooBigForOperand);
                }
                let biased = value + signed_offset;
                if biased < 0 {
                    return Err(LunifyError::ValueTooBigForOperand);
                }
                settings.output.layout.bx.put(biased as u64)
            },
        }
    }
}

} // verus!
