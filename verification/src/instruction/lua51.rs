use vstd::prelude::*;

use crate::error::LunifyError;
use crate::serialization::{word_from_bytes, ByteStream};
use super::layout::{spec_low_mask, InstructionLayout, OperandLayout, OperandType};
use super::operand::{Mode, OpShape, OperandKind, OperandMode, BC};

verus! {

/// The Lua 5.1 instruction set.
#[derive(Clone, Copy, Debug, PartialEq, Eq, Structural, Hash)]
pub enum Opcode {
    /// `MOVE`
    Move,
    /// `LOADK`
    LoadK,
    /// `LOADBOOL`
    LoadBool,
    /// `LOADNIL`
    LoadNil,
    /// `GETUPVAL`
    GetUpValue,
    /// `GETGLOBAL`
    GetGlobal,
    /// `GETTABLE`
    GetTable,
    /// `SETGLOBAL`
    SetGlobal,
    /// `SETUPVAL`
    SetUpValue,
    /// `SETTABLE`
    SetTable,
    /// `NEWTABLE`
    NewTable,
    /// `SELF`
    _Self,
    /// `ADD`
    Add,
    /// `SUB`
    Subtract,
    /// `MUL`
    Multiply,
    /// `DIV`
    Divide,
    /// `MOD`
    Modulo,
    /// `POW`
    Power,
    /// `UNM`
    Unary,
    /// `NOT`
    Not,
    /// `LEN`
    Length,
    /// `CONCAT`
    Concatinate,
    /// `JMP`
    Jump,
    /// `EQ`
    Equals,
    /// `LT`
    LessThan,
    /// `LE`
    LessEquals,
    /// `TEST`
    Test,
    /// `TESTSET`
    TestSet,
    /// `CALL`
    Call,
    /// `TAILCALL`
    TailCall,
    /// `RETURN`
    Return,
    /// `FORLOOP`
    ForLoop,
    /// `FORPREP`
    ForPrep,
    /// `TFORLOOP`
    TForLoop,
    /// `SETLIST`
    SetList,
    /// `CLOSE`
    Close,
    /// `CLOSURE`
    Closure,
    /// `VARARG`
    VarArg,
}

impl Opcode {
    /// The number that stores this opcode in the instruction word.
    pub open spec fn spec_index(self) -> u64 {
        match self {
            Opcode::Move => 0,
            Opcode::LoadK => 1,
            Opcode::LoadBool => 2,
            Opcode::LoadNil => 3,
            Opcode::GetUpValue => 4,
            Opcode::GetGlobal => 5,
            Opcode::GetTable => 6,
            Opcode::SetGlobal => 7,
            Opcode::SetUpValue => 8,
            Opcode::SetTable => 9,
            Opcode::NewTable => 10,
            Opcode::_Self => 11,
            Opcode::Add => 12,
            Opcode::Subtract => 13,
            Opcode::Multiply => 14,
            Opcode::Divide => 15,
            Opcode::Modulo => 16,
            Opcode::Power => 17,
            Opcode::Unary => 18,
            Opcode::Not => 19,
            Opcode::Length => 20,
            Opcode::Concatinate => 21,
            Opcode::Jump => 22,
            Opcode::Equals => 23,
            Opcode::LessThan => 24,
            Opcode::LessEquals => 25,
            Opcode::Test => 26,
            Opcode::TestSet => 27,
            Opcode::Call => 28,
            Opcode::TailCall => 29,
            Opcode::Return => 30,
            Opcode::ForLoop => 31,
            Opcode::ForPrep => 32,
            Opcode::TForLoop => 33,
            Opcode::SetList => 34,
            Opcode::Close => 35,
            Opcode::Closure => 36,
            Opcode::VarArg => 37,
        }
    }

    /// The number that stores this opcode in the instruction word.
    pub fn index(self) -> (result: u64)
        ensures
            result == self.spec_index(),
    {
        match self {
            Opcode::Move => 0,
            Opcode::LoadK => 1,
            Opcode::LoadBool => 2,
            Opcode::LoadNil => 3,
            Opcode::GetUpValue => 4,
            Opcode::GetGlobal => 5,
            Opcode::GetTable => 6,
            Opcode::SetGlobal => 7,
            Opcode::SetUpValue => 8,
            Opcode::SetTable => 9,
            Opcode::NewTable => 10,
            Opcode::_Self => 11,
            Opcode::Add => 12,
            Opcode::Subtract => 13,
            Opcode::Multiply => 14,
            Opcode::Divide => 15,
            Opcode::Modulo => 16,
            Opcode::Power => 17,
            Opcode::Unary => 18,
            Opcode::Not => 19,
            Opcode::Length => 20,
            Opcode::Concatinate => 21,
            Opcode::Jump => 22,
            Opcode::Equals => 23,
            Opcode::LessThan => 24,
            Opcode::LessEquals => 25,
            Opcode::Test => 26,
            Opcode::TestSet => 27,
            Opcode::Call => 28,
            Opcode::TailCall => 29,
            Opcode::Return => 30,
            Opcode::ForLoop => 31,
            Opcode::ForPrep => 32,
            Opcode::TForLoop => 33,
            Opcode::SetList => 34,
            Opcode::Close => 35,
            Opcode::Closure => 36,
            Opcode::VarArg => 37,
        }
    }

    /// The opcode a number decodes to, when there is one.
    pub open spec fn spec_from_index(value: u64) -> Option<Opcode> {
        match value {
            0 => Some(Opcode::Move),
            1 => Some(Opcode::LoadK),
            2 => Some(Opcode::LoadBool),
            3 => Some(Opcode::LoadNil),
            4 => Some(Opcode::GetUpValue),
            5 => Some(Opcode::GetGlobal),
            6 => Some(Opcode::GetTable),
            7 => Some(Opcode::SetGlobal),
            8 => Some(Opcode::SetUpValue),
            9 => Some(Opcode::SetTable),
            10 => Some(Opcode::NewTable),
            11 => Some(Opcode::_Self),
            12 => Some(Opcode::Add),
            13 => Some(Opcode::Subtract),
            14 => Some(Opcode::Multiply),
            15 => Some(Opcode::Divide),
            16 => Some(Opcode::Modulo),
            17 => Some(Opcode::Power),
            18 => Some(Opcode::Unary),
            19 => Some(Opcode::Not),
            20 => Some(Opcode::Length),
            21 => Some(Opcode::Concatinate),
            22 => Some(Opcode::Jump),
            23 => Some(Opcode::Equals),
            24 => Some(Opcode::LessThan),
            25 => Some(Opcode::LessEquals),
            26 => Some(Opcode::Test),
            27 => Some(Opcode::TestSet),
            28 => Some(Opcode::Call),
            29 => Some(Opcode::TailCall),
            30 => Some(Opcode::Return),
            31 => Some(Opcode::ForLoop),
            32 => Some(Opcode::ForPrep),
            33 => Some(Opcode::TForLoop),
            34 => Some(Opcode::SetList),
            35 => Some(Opcode::Close),
            36 => Some(Opcode::Closure),
            37 => Some(Opcode::VarArg),
            _ => None,
        }
    }

    /// Decode an opcode number.
    pub fn from_index(value: u64) -> (result: Option<Opcode>)
        ensures
            result == Self::spec_from_index(value),
    {
        match value {
            0 => Some(Opcode::Move),
            1 => Some(Opcode::LoadK),
            2 => Some(Opcode::LoadBool),
            3 => Some(Opcode::LoadNil),
            4 => Some(Opcode::GetUpValue),
            5 => Some(Opcode::GetGlobal),
            6 => Some(Opcode::GetTable),
            7 => Some(Opcode::SetGlobal),
            8 => Some(Opcode::SetUpValue),
            9 => Some(Opcode::SetTable),
            10 => Some(Opcode::NewTable),
            11 => Some(Opcode::_Self),
            12 => Some(Opcode::Add),
            13 => Some(Opcode::Subtract),
            14 => Some(Opcode::Multiply),
            15 => Some(Opcode::Divide),
            16 => Some(Opcode::Modulo),
            17 => Some(Opcode::Power),
            18 => Some(Opcode::Unary),
            19 => Some(Opcode::Not),
            20 => Some(Opcode::Length),
            21 => Some(Opcode::Concatinate),
            22 => Some(Opcode::Jump),
            23 => Some(Opcode::Equals),
            24 => Some(Opcode::LessThan),
            25 => Some(Opcode::LessEquals),
            26 => Some(Opcode::Test),
            27 => Some(Opcode::TestSet),
            28 => Some(Opcode::Call),
            29 => Some(Opcode::TailCall),
            30 => Some(Opcode::Return),
            31 => Some(Opcode::ForLoop),
            32 => Some(Opcode::ForPrep),
            33 => Some(Opcode::TForLoop),
            34 => Some(Opcode::SetList),
            35 => Some(Opcode::Close),
            36 => Some(Opcode::Closure),
            37 => Some(Opcode::VarArg),
            _ => None,
        }
    }

    /// Which operand fields the instruction carries and how each is used.
    pub open spec fn spec_shape(self) -> OpShape {
        match self {
            Opcode::Move => OpShape::BC(OperandKind::Register, OperandKind::Unused),
            Opcode::LoadK => OpShape::Bx,
            Opcode::LoadBool => OpShape::BC(OperandKind::Generic, OperandKind::Generic),
            Opcode::LoadNil => OpShape::BC(OperandKind::Register, OperandKind::Unused),
            Opcode::GetUpValue => OpShape::BC(OperandKind::Generic, OperandKind::Unused),
            Opcode::GetGlobal => OpShape::Bx,
            Opcode::GetTable => OpShape::BC(OperandKind::Register, OperandKind::ConstantRegister),
            Opcode::SetGlobal => OpShape::Bx,
            Opcode::SetUpValue => OpShape::BC(OperandKind::Generic, OperandKind::Unused),
            Opcode::SetTable => OpShape::BC(OperandKind::ConstantRegister, OperandKind::ConstantRegister),
            Opcode::NewTable => OpShape::BC(OperandKind::Unused, OperandKind::Unused),
            Opcode::_Self => OpShape::BC(OperandKind::Register, OperandKind::ConstantRegister),
            Opcode::Add => OpShape::BC(OperandKind::ConstantRegister, OperandKind::ConstantRegister),
            Opcode::Subtract => OpShape::BC(OperandKind::ConstantRegister, OperandKind::ConstantRegister),
            Opcode::Multiply => OpShape::BC(OperandKind::ConstantRegister, OperandKind::ConstantRegister),
            Opcode::Divide => OpShape::BC(OperandKind::ConstantRegister, OperandKind::ConstantRegister),
            Opcode::Modulo => OpShape::BC(OperandKind::ConstantRegister, OperandKind::ConstantRegister),
            Opcode::Power => OpShape::BC(OperandKind::ConstantRegister, OperandKind::ConstantRegister),
            Opcode::Unary => OpShape::BC(OperandKind::Register, OperandKind::ConstantRegister),
            Opcode::Not => OpShape::BC(OperandKind::Register, OperandKind::Unused),
            Opcode::Length => OpShape::BC(OperandKind::Register, OperandKind::Unused),
            Opcode::Concatinate => OpShape::BC(OperandKind::Register, OperandKind::Register),
            Opcode::Jump => OpShape::SignedBx,
            Opcode::Equals => OpShape::BC(OperandKind::ConstantRegister, OperandKind::ConstantRegister),
            Opcode::LessThan => OpShape::BC(OperandKind::ConstantRegister, OperandKind::ConstantRegister),
            Opcode::LessEquals => OpShape::BC(OperandKind::ConstantRegister, OperandKind::ConstantRegister),
            Opcode::Test => OpShape::BC(OperandKind::Register, OperandKind::Generic),
            Opcode::TestSet => OpShape::BC(OperandKind::ConstantRegister, OperandKind::Generic),
            Opcode::Call => OpShape::BC(OperandKind::Generic, OperandKind::Generic),
            Opcode::TailCall => OpShape::BC(OperandKind::Generic, OperandKind::Generic),
            Opcode::Return => OpShape::BC(OperandKind::Generic, OperandKind::Unused),
            Opcode::ForLoop => OpShape::SignedBx,
            Opcode::ForPrep => OpShape::SignedBx,
            Opcode::TForLoop => OpShape::BC(OperandKind::Unused, OperandKind::Generic),
            Opcode::SetList => OpShape::BC(OperandKind::Generic, OperandKind::Generic),
            Opcode::Close => OpShape::BC(OperandKind::Unused, OperandKind::Unused),
            Opcode::Closure => OpShape::Bx,
            Opcode::VarArg => OpShape::BC(OperandKind::Generic, OperandKind::Unused),
        }
    }

    /// Which operand fields the instruction carries and how each is used.
    pub fn shape(self) -> (result: OpShape)
        ensures
            result == self.spec_shape(),
    {
        match self {
            Opcode::Move => OpShape::BC(OperandKind::Register, OperandKind::Unused),
            Opcode::LoadK => OpShape::Bx,
            Opcode::LoadBool => OpShape::BC(OperandKind::Generic, OperandKind::Generic),
            Opcode::LoadNil => OpShape::BC(OperandKind::Register, OperandKind::Unused),
            Opcode::GetUpValue => OpShape::BC(OperandKind::Generic, OperandKind::Unused),
            Opcode::GetGlobal => OpShape::Bx,
            Opcode::GetTable => OpShape::BC(OperandKind::Register, OperandKind::ConstantRegister),
            Opcode::SetGlobal => OpShape::Bx,
            Opcode::SetUpValue => OpShape::BC(OperandKind::Generic, OperandKind::Unused),
            Opcode::SetTable => OpShape::BC(OperandKind::ConstantRegister, OperandKind::ConstantRegister),
            Opcode::NewTable => OpShape::BC(OperandKind::Unused, OperandKind::Unused),
            Opcode::_Self => OpShape::BC(OperandKind::Register, OperandKind::ConstantRegister),
            Opcode::Add => OpShape::BC(OperandKind::ConstantRegister, OperandKind::ConstantRegister),
            Opcode::Subtract => OpShape::BC(OperandKind::ConstantRegister, OperandKind::ConstantRegister),
            Opcode::Multiply => OpShape::BC(OperandKind::ConstantRegister, OperandKind::ConstantRegister),
            Opcode::Divide => OpShape::BC(OperandKind::ConstantRegister, OperandKind::ConstantRegister),
            Opcode::Modulo => OpShape::BC(OperandKind::ConstantRegister, OperandKind::ConstantRegister),
            Opcode::Power => OpShape::BC(OperandKind::ConstantRegister, OperandKind::ConstantRegister),
            Opcode::Unary => OpShape::BC(OperandKind::Register, OperandKind::ConstantRegister),
            Opcode::Not => OpShape::BC(OperandKind::Register, OperandKind::Unused),
            Opcode::Length => OpShape::BC(OperandKind::Register, OperandKind::Unused),
            Opcode::Concatinate => OpShape::BC(OperandKind::Register, OperandKind::Register),
            Opcode::Jump => OpShape::SignedBx,
            Opcode::Equals => OpShape::BC(OperandKind::ConstantRegister, OperandKind::ConstantRegister),
            Opcode::LessThan => OpShape::BC(OperandKind::ConstantRegister, OperandKind::ConstantRegister),
            Opcode::LessEquals => OpShape::BC(OperandKind::ConstantRegister, OperandKind::ConstantRegister),
            Opcode::Test => OpShape::BC(OperandKind::Register, OperandKind::Generic),
            Opcode::TestSet => OpShape::BC(OperandKind::ConstantRegister, OperandKind::Generic),
            Opcode::Call => OpShape::BC(OperandKind::Generic, OperandKind::Generic),
            Opcode::TailCall => OpShape::BC(OperandKind::Generic, OperandKind::Generic),
            Opcode::Return => OpShape::BC(OperandKind::Generic, OperandKind::Unused),
            Opcode::ForLoop => OpShape::SignedBx,
            Opcode::ForPrep => OpShape::SignedBx,
            Opcode::TForLoop => OpShape::BC(OperandKind::Unused, OperandKind::Generic),
            Opcode::SetList => OpShape::BC(OperandKind::Generic, OperandKind::Generic),
            Opcode::Close => OpShape::BC(OperandKind::Unused, OperandKind::Unused),
            Opcode::Closure => OpShape::Bx,
            Opcode::VarArg => OpShape::BC(OperandKind::Generic, OperandKind::Unused),
        }
    }

    /// Whether stack renumbering applies to the A operand.
    pub open spec fn spec_moves_a(self) -> bool {
        match self {
            Opcode::Move => true,
            Opcode::LoadK => true,
            Opcode::LoadBool => true,
            Opcode::LoadNil => true,
            Opcode::GetUpValue => true,
            Opcode::GetGlobal => true,
            Opcode::GetTable => true,
            Opcode::SetGlobal => true,
            Opcode::SetUpValue => true,
            Opcode::SetTable => true,
            Opcode::NewTable => true,
            Opcode::_Self => true,
            Opcode::Add => true,
            Opcode::Subtract => true,
            Opcode::Multiply => true,
            Opcode::Divide => true,
            Opcode::Modulo => true,
            Opcode::Power => true,
            Opcode::Unary => true,
            Opcode::Not => true,
            Opcode::Length => true,
            Opcode::Concatinate => true,
            Opcode::Jump => false,
            Opcode::Equals => false,
            Opcode::LessThan => false,
            Opcode::LessEquals => false,
            Opcode::Test => true,
            Opcode::TestSet => true,
            Opcode::Call => true,
            Opcode::TailCall => true,
            Opcode::Return => true,
            Opcode::ForLoop => true,
            Opcode::ForPrep => true,
            Opcode::TForLoop => true,
            Opcode::SetList => true,
            Opcode::Close => true,
            Opcode::Closure => true,
            Opcode::VarArg => true,
        }
    }

    /// Whether stack renumbering applies to the A operand.
    pub fn moves_a(self) -> (result: bool)
        ensures
            result == self.spec_moves_a(),
    {
        match self {
            Opcode::Move => true,
            Opcode::LoadK => true,
            Opcode::LoadBool => true,
            Opcode::LoadNil => true,
            Opcode::GetUpValue => true,
            Opcode::GetGlobal => true,
            Opcode::GetTable => true,
            Opcode::SetGlobal => true,
            Opcode::SetUpValue => true,
            Opcode::SetTable => true,
            Opcode::NewTable => true,
            Opcode::_Self => true,
            Opcode::Add => true,
            Opcode::Subtract => true,
            Opcode::Multiply => true,
            Opcode::Divide => true,
            Opcode::Modulo => true,
            Opcode::Power => true,
            Opcode::Unary => true,
            Opcode::Not => true,
            Opcode::Length => true,
            Opcode::Concatinate => true,
            Opcode::Jump => false,
            Opcode::Equals => false,
            Opcode::LessThan => false,
            Opcode::LessEquals => false,
            Opcode::Test => true,
            Opcode::TestSet => true,
            Opcode::Call => true,
            Opcode::TailCall => true,
            Opcode::Return => true,
            Opcode::ForLoop => true,
            Opcode::ForPrep => true,
            Opcode::TForLoop => true,
            Opcode::SetList => true,
            Opcode::Close => true,
            Opcode::Closure => true,
            Opcode::VarArg => true,
        }
    }
}

/// The value carried at the B position of a mode, with 0 where there is
/// none.
pub open spec fn spec_mode_b_value(mode: Mode) -> u64 {
    match mode {
        Mode::BC(BC(b, _)) => spec_operand_value(b),
        Mode::Bx(_) => 0,
        Mode::SignedBx(_) => 0,
    }
}

/// The value carried at the C position of a mode, with 0 where there is
/// none.
pub open spec fn spec_mode_c_value(mode: Mode) -> u64 {
    match mode {
        Mode::BC(BC(_, c)) => spec_operand_value(c),
        Mode::Bx(_) => 0,
        Mode::SignedBx(_) => 0,
    }
}

/// The numeric value an operand carries, with 0 for an unused position.
pub open spec fn spec_operand_value(operand: OperandMode) -> u64 {
    match operand {
        OperandMode::Unused => 0,
        OperandMode::Generic(value) => value,
        OperandMode::Register(value) => value,
        OperandMode::ConstantRegister(value, _) => value,
    }
}

/// The value carried at the B position of a mode.
pub fn mode_b_value(mode: Mode) -> (result: u64)
    ensures
        result == spec_mode_b_value(mode),
{
    match mode {
        Mode::BC(BC(b, _)) => operand_value(b),
        Mode::Bx(_) => 0,
        Mode::SignedBx(_) => 0,
    }
}

/// The value carried at the C position of a mode.
pub fn mode_c_value(mode: Mode) -> (result: u64)
    ensures
        result == spec_mode_c_value(mode),
{
    match mode {
        Mode::BC(BC(_, c)) => operand_value(c),
        Mode::Bx(_) => 0,
        Mode::SignedBx(_) => 0,
    }
}

/// The numeric value an operand carries.
pub fn operand_value(operand: OperandMode) -> (result: u64)
    ensures
        result == spec_operand_value(operand),
{
    match operand {
        OperandMode::Unused => 0,
        OperandMode::Generic(value) => value,
        OperandMode::Register(value) => value,
        OperandMode::ConstantRegister(value, _) => value,
    }
}

/// Addition clamped to the 64-bit range.
pub open spec fn spec_sat_add(left: u64, right: u64) -> u64 {
    if left + right <= u64::MAX {
        (left + right) as u64
    } else {
        u64::MAX
    }
}

/// Subtraction clamped at zero.
pub open spec fn spec_sat_sub(left: u64, right: u64) -> u64 {
    if left >= right {
        (left - right) as u64
    } else {
        0
    }
}

/// The larger of two values.
pub open spec fn spec_max(left: u64, right: u64) -> u64 {
    if left >= right {
        left
    } else {
        right
    }
}

/// Addition clamped to the 64-bit range.
pub fn sat_add(left: u64, right: u64) -> (result: u64)
    ensures
        result == spec_sat_add(left, right),
{
    if left <= u64::MAX - right {
        left + right
    } else {
        u64::MAX
    }
}

/// Subtraction clamped at zero.
pub fn sat_sub(left: u64, right: u64) -> (result: u64)
    ensures
        result == spec_sat_sub(left, right),
{
    if left >= right {
        left - right
    } else {
        0
    }
}

/// The larger of two values.
pub fn max_u64(left: u64, right: u64) -> (result: u64)
    ensures
        result == spec_max(left, right),
{
    if left >= right {
        left
    } else {
        right
    }
}

/// A Lua 5.1 instruction: its opcode, its A operand and its mode-specific
/// operands.
#[derive(Clone, Copy, Debug, PartialEq, Eq, Structural, Hash)]
pub struct Instruction {
    /// The opcode.
    pub opcode: Opcode,
    /// The A operand.
    pub a: u64,
    /// The remaining operands, as the instruction's shape arranges them.
    pub mode: Mode,
}

/// The instruction a packed word decodes to under the given input layout
/// and the Lua 5.1 operand conventions, or `InvalidOpcode` when the opcode
/// number names no instruction.
pub open spec fn spec_decode(word: u64, settings: super::settings::Settings, layout: InstructionLayout) -> Result<
    Instruction,
    LunifyError,
> {
    let opcode_value = layout.opcode.spec_get(word);
    match Opcode::spec_from_index(opcode_value) {
        None => Err(LunifyError::InvalidOpcode(opcode_value)),
        Some(opcode) => Ok(
            Instruction {
                opcode,
                a: layout.a.spec_get(word),
                mode: spec_decode_mode(opcode.spec_shape(), word, settings, layout),
            },
        ),
    }
}

/// The mode a packed word decodes to for an instruction of the given
/// shape, under the Lua 5.1 constant-bit convention.
pub open spec fn spec_decode_mode(shape: OpShape, word: u64, settings: super::settings::Settings, layout: InstructionLayout) -> Mode {
    match shape {
        OpShape::Bx => Mode::Bx(layout.bx.spec_get(word)),
        OpShape::SignedBx => Mode::SignedBx(
            (layout.bx.spec_get(word) - layout.signed_offset) as i64,
        ),
        OpShape::BC(b_kind, c_kind) => Mode::BC(
            BC(
                OperandMode::spec_get_lua51(b_kind, layout.b.spec_get(word), settings),
                OperandMode::spec_get_lua51(c_kind, layout.c.spec_get(word), settings),
            ),
        ),
    }
}

/// The packed word that stores an instruction in the output layout, or the
/// error when one of its operands does not fit its field.
pub open spec fn spec_to_u64(instruction: Instruction, settings: super::settings::Settings) -> Result<u64, LunifyError> {
    match settings.output.layout.opcode.spec_put(instruction.opcode.spec_index()) {
        Err(error) => Err(error),
        Ok(opcode_bits) => match settings.output.layout.a.spec_put(instruction.a) {
            Err(error) => Err(error),
            Ok(a_bits) => match instruction.mode.spec_put(settings) {
                Err(error) => Err(error),
                Ok(mode_bits) => Ok(opcode_bits | a_bits | mode_bits),
            },
        },
    }
}

/// The instruction after stack renumbering: the A operand moves when the
/// opcode writes through it, and the mode's operands move by their own
/// kinds.
pub open spec fn spec_move_stack(instruction: Instruction, stack_start: u64, offset: i64) -> Instruction {
    Instruction {
        opcode: instruction.opcode,
        a: if instruction.opcode.spec_moves_a() {
            super::operand::spec_offset_value(instruction.a, stack_start, offset)
        } else {
            instruction.a
        },
        mode: instruction.mode.spec_offset(stack_start, offset),
    }
}

impl Instruction {
    /// Read one instruction word off the stream and decode it under the
    /// given input layout.
    pub fn from_byte_stream(byte_stream: &mut ByteStream, settings: &super::settings::Settings, layout: &InstructionLayout) -> (result:
        Result<Instruction, LunifyError>)
        requires
            old(byte_stream).wf(),
            layout.wf(),
            settings.lua51.layout.wf(),
        ensures
            final(byte_stream).wf(),
            final(byte_stream).same_source(old(byte_stream)),
            final(byte_stream).cursor() >= old(byte_stream).cursor(),
            ({
                let count = old(byte_stream).spec_format().instruction_width.byte_count() as int;
                &&& old(byte_stream).remaining() >= count ==> {
                    &&& result == spec_decode(
                        word_from_bytes(old(byte_stream).chunk(count), old(byte_stream).spec_format().endianness),
                        *settings,
                        *layout,
                    )
                    &&& final(byte_stream).cursor() == old(byte_stream).cursor() + count
                }
                &&& old(byte_stream).remaining() < count ==> result == Err::<Instruction, LunifyError>(
                    LunifyError::InputTooShort,
                )
            }),
    {
        let word = byte_stream.instruction()?;
        Self::decode(word, settings, layout)
    }

    /// Decode a packed instruction word under the given input layout.
    pub fn decode(word: u64, settings: &super::settings::Settings, layout: &InstructionLayout) -> (result: Result<
        Instruction,
        LunifyError,
    >)
        requires
            layout.wf(),
            settings.lua51.layout.wf(),
        ensures
            result == spec_decode(word, *settings, *layout),
    {
        let opcode_value = layout.opcode.get(word);
        let opcode = match Opcode::from_index(opcode_value) {
            Some(opcode) => opcode,
            None => {
                return Err(LunifyError::InvalidOpcode(opcode_value));
            },
        };
        let a = layout.a.get(word);
        let mode = match opcode.shape() {
            OpShape::Bx => Mode::Bx(layout.bx.get(word)),
            OpShape::SignedBx => {
                proof {
                    let size = layout.bx.size;
                    let mask = layout.bx.bit_mask;
                    assert(mask < 0x8000000000000000) by (bit_vector)
                        requires mask == 0xFFFFFFFFFFFFFFFFu64 >> ((64 - size) as u64), 1 <= size <= 63,
                    ;
                    assert((0xFFFFFFFFFFFFFFFFu64 >> ((64 - ((size - 1) as u64)) as u64))
                        < 0x8000000000000000) by (bit_vector)
                        requires 2 <= size <= 63,
                    ;
                }
                Mode::SignedBx((layout.bx.get(word) as i64) - layout.signed_offset)
            },
            OpShape::BC(b_kind, c_kind) => Mode::BC(
                BC(
                    OperandMode::get_lua51(b_kind, layout.b.get(word), settings),
                    OperandMode::get_lua51(c_kind, layout.c.get(word), settings),
                ),
            ),
        };
        Ok(Instruction { opcode, a, mode })
    }

    /// Pack this instruction into a word of the output layout.
    pub fn to_u64(&self, settings: &super::settings::Settings) -> (result: Result<u64, LunifyError>)
        requires
            settings.output.layout.wf(),
        ensures
            result matches Err(error) ==> !(error is IncorrectSignature),
            result == spec_to_u64(*self, *settings),
    {
        let opcode_bits = settings.output.layout.opcode.put(self.opcode.index())?;
        let a_bits = settings.output.layout.a.put(self.a)?;
        let mode_bits = self.mode.put(settings)?;
        Ok(opcode_bits | a_bits | mode_bits)
    }

    /// The inclusive range of stack slots this instruction writes, when it
    /// writes any. `SetTable` and `SetList` modify rather than move data,
    /// but the rewriter uses this range to find the start of a table setup,
    /// so they name their table slot here.
    pub open spec fn spec_stack_destination(&self) -> Option<(u64, u64)> {
        match self.opcode {
            Opcode::Move => Some((self.a, self.a)),
            Opcode::LoadK => Some((self.a, self.a)),
            Opcode::LoadBool => Some((self.a, self.a)),
            Opcode::LoadNil => Some((self.a, spec_mode_b_value(self.mode))),
            Opcode::GetUpValue => Some((self.a, self.a)),
            Opcode::GetGlobal => Some((self.a, self.a)),
            Opcode::GetTable => Some((self.a, self.a)),
            Opcode::SetGlobal => None,
            Opcode::SetUpValue => None,
            Opcode::SetTable => Some((self.a, self.a)),
            Opcode::NewTable => Some((self.a, self.a)),
            Opcode::_Self => Some((self.a, spec_sat_add(self.a, 1))),
            Opcode::Add => Some((self.a, self.a)),
            Opcode::Subtract => Some((self.a, self.a)),
            Opcode::Multiply => Some((self.a, self.a)),
            Opcode::Divide => Some((self.a, self.a)),
            Opcode::Modulo => Some((self.a, self.a)),
            Opcode::Power => Some((self.a, self.a)),
            Opcode::Unary => Some((self.a, self.a)),
            Opcode::Not => Some((self.a, self.a)),
            Opcode::Length => Some((self.a, self.a)),
            Opcode::Concatinate => Some((self.a, self.a)),
            Opcode::Jump => None,
            Opcode::Equals => None,
            Opcode::LessThan => None,
            Opcode::LessEquals => None,
            Opcode::Test => None,
            Opcode::TestSet => Some((self.a, self.a)),
            Opcode::Call => Some((self.a, spec_sat_sub(spec_sat_add(self.a, spec_mode_c_value(self.mode)), 1))),
            Opcode::TailCall => None,
            Opcode::Return => None,
            Opcode::ForLoop => Some((self.a, spec_sat_add(self.a, 3))),
            Opcode::ForPrep => Some((self.a, spec_sat_add(self.a, 2))),
            Opcode::TForLoop => Some((self.a, spec_sat_add(spec_sat_add(self.a, 2), spec_mode_c_value(self.mode)))),
            Opcode::SetList => Some((self.a, self.a)),
            Opcode::Close => None,
            Opcode::Closure => Some((self.a, self.a)),
            Opcode::VarArg => Some((self.a, spec_max(self.a, spec_sat_sub(spec_sat_add(self.a, spec_mode_b_value(self.mode)), 1)))),
        }
    }

    /// The inclusive range of stack slots this instruction writes, when it
    /// writes any.
    pub fn stack_destination(&self) -> (result: Option<(u64, u64)>)
        ensures
            result == self.spec_stack_destination(),
    {
        match self.opcode {
            Opcode::Move => Some((self.a, self.a)),
            Opcode::LoadK => Some((self.a, self.a)),
            Opcode::LoadBool => Some((self.a, self.a)),
            Opcode::LoadNil => Some((self.a, mode_b_value(self.mode))),
            Opcode::GetUpValue => Some((self.a, self.a)),
            Opcode::GetGlobal => Some((self.a, self.a)),
            Opcode::GetTable => Some((self.a, self.a)),
            Opcode::SetGlobal => None,
            Opcode::SetUpValue => None,
            Opcode::SetTable => Some((self.a, self.a)),
            Opcode::NewTable => Some((self.a, self.a)),
            Opcode::_Self => Some((self.a, sat_add(self.a, 1))),
            Opcode::Add => Some((self.a, self.a)),
            Opcode::Subtract => Some((self.a, self.a)),
            Opcode::Multiply => Some((self.a, self.a)),
            Opcode::Divide => Some((self.a, self.a)),
            Opcode::Modulo => Some((self.a, self.a)),
            Opcode::Power => Some((self.a, self.a)),
            Opcode::Unary => Some((self.a, self.a)),
            Opcode::Not => Some((self.a, self.a)),
            Opcode::Length => Some((self.a, self.a)),
            Opcode::Concatinate => Some((self.a, self.a)),
            Opcode::Jump => None,
            Opcode::Equals => None,
            Opcode::LessThan => None,
            Opcode::LessEquals => None,
            Opcode::Test => None,
            Opcode::TestSet => Some((self.a, self.a)),
            Opcode::Call => Some((self.a, sat_sub(sat_add(self.a, mode_c_value(self.mode)), 1))),
            Opcode::TailCall => None,
            Opcode::Return => None,
            Opcode::ForLoop => Some((self.a, sat_add(self.a, 3))),
            Opcode::ForPrep => Some((self.a, sat_add(self.a, 2))),
            Opcode::TForLoop => Some((self.a, sat_add(sat_add(self.a, 2), mode_c_value(self.mode)))),
            Opcode::SetList => Some((self.a, self.a)),
            Opcode::Close => None,
            Opcode::Closure => Some((self.a, self.a)),
            Opcode::VarArg => Some((self.a, max_u64(self.a, sat_sub(sat_add(self.a, mode_b_value(self.mode)), 1)))),
        }
    }

    /// Move every stack slot this instruction references at or above
    /// `stack_start` by `offset`.
    pub fn move_stack_accesses(&mut self, stack_start: u64, offset: i64)
        ensures
            *final(self) == spec_move_stack(*old(self), stack_start, offset),
    {
        if self.opcode.moves_a() {
            if self.a >= stack_start {
                self.a = self.a.wrapping_add_signed(offset);
            }
        }
        self.mode.offset(stack_start, offset);
    }
}

/// Lua 5.1 compile constants (`MAXSTACK`, `LFIELDS_PER_FLUSH`,
/// `LUA_SIGNATURE`, `SIZE_*`/`POS_*`).
#[derive(Clone, Debug, PartialEq, Eq, Hash)]
pub struct Settings {
    /// Maximum number of elements that can be on the stack at the same
    /// time (`MAXSTACK`).
    pub stack_limit: u64,
    /// Number of elements to put on the stack before inserting a `SETLIST`
    /// instruction (`LFIELDS_PER_FLUSH`).
    pub fields_per_flush: u64,
    /// Lua binary file signature (`LUA_SIGNATURE`).
    pub binary_signature: Vec<u8>,
    /// Memory layout of instructions inside the Lua byte code (`SIZE_*`,
    /// `POS_*`).
    pub layout: InstructionLayout,
}

/// The instruction layout of a stock Lua 5.1 interpreter: opcode, A, C, B,
/// lowest bits first.
pub open spec fn spec_standard_layout() -> InstructionLayout {
    InstructionLayout {
        opcode: OperandLayout { size: 6, position: 0, bit_mask: 0x3F },
        a: OperandLayout { size: 8, position: 6, bit_mask: 0xFF },
        c: OperandLayout { size: 9, position: 14, bit_mask: 0x1FF },
        b: OperandLayout { size: 9, position: 23, bit_mask: 0x1FF },
        bx: OperandLayout { size: 18, position: 14, bit_mask: 0x3FFFF },
        signed_offset: 0x1FFFF,
    }
}

/// The standard layouts hold masks that belong to their sizes.
pub proof fn lemma_standard_settings_wf()
    ensures
        spec_standard_layout().wf(),
        Settings::spec_standard_is_wf(),
{
    assert(0xFFFFFFFFFFFFFFFFu64 >> 58u64 == 0x3F) by (bit_vector);
    assert(0xFFFFFFFFFFFFFFFFu64 >> 56u64 == 0xFF) by (bit_vector);
    assert(0xFFFFFFFFFFFFFFFFu64 >> 55u64 == 0x1FF) by (bit_vector);
    assert(0xFFFFFFFFFFFFFFFFu64 >> 46u64 == 0x3FFFF) by (bit_vector);
    assert(0xFFFFFFFFFFFFFFFFu64 >> 47u64 == 0x1FFFF) by (bit_vector);
}

impl Settings {
    /// The layout fits the instruction word and the limits are small
    /// enough for the rewrite arithmetic.
    pub open spec fn wf(&self) -> bool {
        &&& self.layout.wf()
        &&& self.layout.b.size <= 32
        &&& 1 <= self.stack_limit <= 255
        &&& 1 <= self.fields_per_flush <= 0x7FFFFFFF
    }

    /// Whether these are the constants of a stock Lua 5.1 interpreter.
    pub open spec fn is_standard(&self) -> bool {
        &&& self.stack_limit == 250
        &&& self.fields_per_flush == 50
        &&& self.binary_signature@ == seq![0x1Bu8, 0x4Cu8, 0x75u8, 0x61u8]
        &&& self.layout == spec_standard_layout()
    }

    /// The standard constants are well-formed.
    pub open spec fn spec_standard_is_wf() -> bool {
        spec_standard_layout().wf()
    }

    /// The bit that marks a B or C operand value as a constant-pool index
    /// (the highest bit of the B field).
    pub open spec fn spec_constant_bit(&self) -> u64
        recommends
            1 <= self.layout.b.size <= 63,
    {
        1u64 << ((self.layout.b.size - 1) as u64)
    }

    /// The largest constant-pool index that still fits a B or C operand
    /// together with the constant bit.
    pub open spec fn spec_maximum_constant_index(&self) -> u64
        recommends
            1 <= self.layout.b.size <= 63,
    {
        (self.spec_constant_bit() - 1) as u64
    }

    /// The bit that marks a B or C operand value as a constant-pool index.
    pub fn get_constant_bit(&self) -> (result: u64)
        requires
            1 <= self.layout.b.size <= 63,
        ensures
            result == self.spec_constant_bit(),
    {
        1u64 << (self.layout.b.size - 1)
    }

    /// The largest constant-pool index that fits a B or C operand.
    pub fn get_maximum_constant_index(&self) -> (result: u64)
        requires
            1 <= self.layout.b.size <= 63,
        ensures
            result == self.spec_maximum_constant_index(),
    {
        proof {
            let shift = (self.layout.b.size - 1) as u64;
            assert(1u64 << shift >= 1) by (bit_vector)
                requires shift <= 62,
            ;
        }
        self.get_constant_bit() - 1
    }
}

impl Default for Settings {
    /// The constants of a stock Lua 5.1 interpreter.
    fn default() -> (result: Settings)
        ensures
            result.is_standard(),
    {
        let mut binary_signature: Vec<u8> = Vec::new();
        binary_signature.push(0x1B);
        binary_signature.push(0x4C);
        binary_signature.push(0x75);
        binary_signature.push(0x61);
        proof {
            assert(binary_signature@ =~= seq![0x1Bu8, 0x4Cu8, 0x75u8, 0x61u8]);
        }
        Settings {
            stack_limit: 250,
            fields_per_flush: 50,
            binary_signature,
            layout: InstructionLayout {
                opcode: OperandLayout { size: 6, position: 0, bit_mask: 0x3F },
                a: OperandLayout { size: 8, position: 6, bit_mask: 0xFF },
                c: OperandLayout { size: 9, position: 14, bit_mask: 0x1FF },
                b: OperandLayout { size: 9, position: 23, bit_mask: 0x1FF },
                bx: OperandLayout { size: 18, position: 14, bit_mask: 0x3FFFF },
                signed_offset: 0x1FFFF,
            },
        }
    }
}

} // verus!
