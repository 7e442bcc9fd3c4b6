use vstd::prelude::*;

use crate::error::LunifyError;
use crate::serialization::{word_from_bytes, ByteStream};
use super::layout::{InstructionLayout, OperandLayout};
use super::operand::{Mode, OpShape, OperandKind, OperandMode, BC};

verus! {

/// The Lua 5.0 instruction set.
#[derive(Clone, Copy, Debug, PartialEq, Eq, Structural, Hash)]
pub enum Opcode {
    /// `MOVE`
    Move,
    /// `LOADK`
    LoadK,
    /// `LOADBOOL`
    LoadBool,
    /// `LOADNIL`
    LoadNil,
    /// `GETUPVAL`
    GetUpValue,
    /// `GETGLOBAL`
    GetGlobal,
    /// `GETTABLE`
    GetTable,
    /// `SETGLOBAL`
    SetGlobal,
    /// `SETUPVAL`
    SetUpValue,
    /// `SETTABLE`
    SetTable,
    /// `NEWTABLE`
    NewTable,
    /// `SELF`
    _Self,
    /// `ADD`
    Add,
    /// `SUB`
    Subtract,
    /// `MUL`
    Multiply,
    /// `DIV`
    Divide,
    /// `POW`
    Power,
    /// `UNM`
    Unary,
    /// `NOT`
    Not,
    /// `CONCAT`
    Concatinate,
    /// `JMP`
    Jump,
    /// `EQ`
    Equals,
    /// `LT`
    LessThan,
    /// `LE`
    LessEquals,
    /// `TEST`
    Test,
    /// `CALL`
    Call,
    /// `TAILCALL`
    TailCall,
    /// `RETURN`
    Return,
    /// `FORLOOP`
    ForLoop,
    /// `TFORLOOP`
    TForLoop,
    /// `TFORPREP`
    TForPrep,
    /// `SETLIST`
    SetList,
    /// `SETLISTO`
    SetListO,
    /// `CLOSE`
    Close,
    /// `CLOSURE`
    Closure,
}

impl Opcode {
    /// The opcode a number decodes to, when there is one.
    pub open spec fn spec_from_index(value: u64) -> Option<Opcode> {
        match value {
            0 => Some(Opcode::Move),
            1 => Some(Opcode::LoadK),
            2 => Some(Opcode::LoadBool),
            3 => Some(Opcode::LoadNil),
            4 => Some(Opcode::GetUpValue),
            5 => Some(Opcode::GetGlobal),
            6 => Some(Opcode::GetTable),
            7 => Some(Opcode::SetGlobal),
            8 => Some(Opcode::SetUpValue),
            9 => Some(Opcode::SetTable),
            10 => Some(Opcode::NewTable),
            11 => Some(Opcode::_Self),
            12 => Some(Opcode::Add),
            13 => Some(Opcode::Subtract),
            14 => Some(Opcode::Multiply),
            15 => Some(Opcode::Divide),
            16 => Some(Opcode::Power),
            17 => Some(Opcode::Unary),
            18 => Some(Opcode::Not),
            19 => Some(Opcode::Concatinate),
            20 => Some(Opcode::Jump),
            21 => Some(Opcode::Equals),
            22 => Some(Opcode::LessThan),
            23 => Some(Opcode::LessEquals),
            24 => Some(Opcode::Test),
            25 => Some(Opcode::Call),
            26 => Some(Opcode::TailCall),
            27 => Some(Opcode::Return),
            28 => Some(Opcode::ForLoop),
            29 => Some(Opcode::TForLoop),
            30 => Some(Opcode::TForPrep),
            31 => Some(Opcode::SetList),
            32 => Some(Opcode::SetListO),
            33 => Some(Opcode::Close),
            34 => Some(Opcode::Closure),
            _ => None,
        }
    }

    /// Decode an opcode number.
    pub fn from_index(value: u64) -> (result: Option<Opcode>)
        ensures
            result == Self::spec_from_index(value),
    {
        match value {
            0 => Some(Opcode::Move),
            1 => Some(Opcode::LoadK),
            2 => Some(Opcode::LoadBool),
            3 => Some(Opcode::LoadNil),
            4 => Some(Opcode::GetUpValue),
            5 => Some(Opcode::GetGlobal),
            6 => Some(Opcode::GetTable),
            7 => Some(Opcode::SetGlobal),
            8 => Some(Opcode::SetUpValue),
            9 => Some(Opcode::SetTable),
            10 => Some(Opcode::NewTable),
            11 => Some(Opcode::_Self),
            12 => Some(Opcode::Add),
            13 => Some(Opcode::Subtract),
            14 => Some(Opcode::Multiply),
            15 => Some(Opcode::Divide),
            16 => Some(Opcode::Power),
            17 => Some(Opcode::Unary),
            18 => Some(Opcode::Not),
            19 => Some(Opcode::Concatinate),
            20 => Some(Opcode::Jump),
            21 => Some(Opcode::Equals),
            22 => Some(Opcode::LessThan),
            23 => Some(Opcode::LessEquals),
            24 => Some(Opcode::Test),
            25 => Some(Opcode::Call),
            26 => Some(Opcode::TailCall),
            27 => Some(Opcode::Return),
            28 => Some(Opcode::ForLoop),
            29 => Some(Opcode::TForLoop),
            30 => Some(Opcode::TForPrep),
            31 => Some(Opcode::SetList),
            32 => Some(Opcode::SetListO),
            33 => Some(Opcode::Close),
            34 => Some(Opcode::Closure),
            _ => None,
        }
    }

    /// Which operand fields the instruction carries and how each is used.
    pub open spec fn spec_shape(self) -> OpShape {
        match self {
            Opcode::Move => OpShape::BC(OperandKind::Register, OperandKind::Unused),
            Opcode::LoadK => OpShape::Bx,
            Opcode::LoadBool => OpShape::BC(OperandKind::Generic, OperandKind::Generic),
            Opcode::LoadNil => OpShape::BC(OperandKind::Register, OperandKind::Unused),
            Opcode::GetUpValue => OpShape::BC(OperandKind::Generic, OperandKind::Unused),
            Opcode::GetGlobal => OpShape::Bx,
            Opcode::GetTable => OpShape::BC(OperandKind::Register, OperandKind::ConstantRegister),
            Opcode::SetGlobal => OpShape::Bx,
            Opcode::SetUpValue => OpShape::BC(OperandKind::Generic, OperandKind::Unused),
            Opcode::SetTable => OpShape::BC(OperandKind::ConstantRegister, OperandKind::ConstantRegister),
            Opcode::NewTable => OpShape::BC(OperandKind::Unused, OperandKind::Unused),
            Opcode::_Self => OpShape::BC(OperandKind::Register, OperandKind::ConstantRegister),
            Opcode::Add => OpShape::BC(OperandKind::ConstantRegister, OperandKind::ConstantRegister),
            Opcode::Subtract => OpShape::BC(OperandKind::ConstantRegister, OperandKind::ConstantRegister),
            Opcode::Multiply => OpShape::BC(OperandKind::ConstantRegister, OperandKind::ConstantRegister),
            Opcode::Divide => OpShape::BC(OperandKind::ConstantRegister, OperandKind::ConstantRegister),
            Opcode::Power => OpShape::BC(OperandKind::ConstantRegister, OperandKind::ConstantRegister),
            Opcode::Unary => OpShape::BC(OperandKind::Register, OperandKind::ConstantRegister),
            Opcode::Not => OpShape::BC(OperandKind::Register, OperandKind::Unused),
            Opcode::Concatinate => OpShape::BC(OperandKind::Register, OperandKind::Register),
            Opcode::Jump => OpShape::SignedBx,
            Opcode::Equals => OpShape::BC(OperandKind::ConstantRegister, OperandKind::ConstantRegister),
            Opcode::LessThan => OpShape::BC(OperandKind::ConstantRegister, OperandKind::ConstantRegister),
            Opcode::LessEquals => OpShape::BC(OperandKind::ConstantRegister, OperandKind::ConstantRegister),
            Opcode::Test => OpShape::BC(OperandKind::Register, OperandKind::Generic),
            Opcode::Call => OpShape::BC(OperandKind::Generic, OperandKind::Generic),
            Opcode::TailCall => OpShape::BC(OperandKind::Generic, OperandKind::Generic),
            Opcode::Return => OpShape::BC(OperandKind::Generic, OperandKind::Unused),
            Opcode::ForLoop => OpShape::SignedBx,
            Opcode::TForLoop => OpShape::BC(OperandKind::Unused, OperandKind::Generic),
            Opcode::TForPrep => OpShape::SignedBx,
            Opcode::SetList => OpShape::Bx,
            Opcode::SetListO => OpShape::Bx,
            Opcode::Close => OpShape::BC(OperandKind::Unused, OperandKind::Unused),
            Opcode::Closure => OpShape::Bx,
        }
    }

    /// Which operand fields the instruction carries and how each is used.
    pub fn shape(self) -> (result: OpShape)
        ensures
            result == self.spec_shape(),
    {
        match self {
            Opcode::Move => OpShape::BC(OperandKind::Register, OperandKind::Unused),
            Opcode::LoadK => OpShape::Bx,
            Opcode::LoadBool => OpShape::BC(OperandKind::Generic, OperandKind::Generic),
            Opcode::LoadNil => OpShape::BC(OperandKind::Register, OperandKind::Unused),
            Opcode::GetUpValue => OpShape::BC(OperandKind::Generic, OperandKind::Unused),
            Opcode::GetGlobal => OpShape::Bx,
            Opcode::GetTable => OpShape::BC(OperandKind::Register, OperandKind::ConstantRegister),
            Opcode::SetGlobal => OpShape::Bx,
            Opcode::SetUpValue => OpShape::BC(OperandKind::Generic, OperandKind::Unused),
            Opcode::SetTable => OpShape::BC(OperandKind::ConstantRegister, OperandKind::ConstantRegister),
            Opcode::NewTable => OpShape::BC(OperandKind::Unused, OperandKind::Unused),
            Opcode::_Self => OpShape::BC(OperandKind::Register, OperandKind::ConstantRegister),
            Opcode::Add => OpShape::BC(OperandKind::ConstantRegister, OperandKind::ConstantRegister),
            Opcode::Subtract => OpShape::BC(OperandKind::ConstantRegister, OperandKind::ConstantRegister),
            Opcode::Multiply => OpShape::BC(OperandKind::ConstantRegister, OperandKind::ConstantRegister),
            Opcode::Divide => OpShape::BC(OperandKind::ConstantRegister, OperandKind::ConstantRegister),
            Opcode::Power => OpShape::BC(OperandKind::ConstantRegister, OperandKind::ConstantRegister),
            Opcode::Unary => OpShape::BC(OperandKind::Register, OperandKind::ConstantRegister),
            Opcode::Not => OpShape::BC(OperandKind::Register, OperandKind::Unused),
            Opcode::Concatinate => OpShape::BC(OperandKind::Register, OperandKind::Register),
            Opcode::Jump => OpShape::SignedBx,
            Opcode::Equals => OpShape::BC(OperandKind::ConstantRegister, OperandKind::ConstantRegister),
            Opcode::LessThan => OpShape::BC(OperandKind::ConstantRegister, OperandKind::ConstantRegister),
            Opcode::LessEquals => OpShape::BC(OperandKind::ConstantRegister, OperandKind::ConstantRegister),
            Opcode::Test => OpShape::BC(OperandKind::Register, OperandKind::Generic),
            Opcode::Call => OpShape::BC(OperandKind::Generic, OperandKind::Generic),
            Opcode::TailCall => OpShape::BC(OperandKind::Generic, OperandKind::Generic),
            Opcode::Return => OpShape::BC(OperandKind::Generic, OperandKind::Unused),
            Opcode::ForLoop => OpShape::SignedBx,
            Opcode::TForLoop => OpShape::BC(OperandKind::Unused, OperandKind::Generic),
            Opcode::TForPrep => OpShape::SignedBx,
            Opcode::SetList => OpShape::Bx,
            Opcode::SetListO => OpShape::Bx,
            Opcode::Close => OpShape::BC(OperandKind::Unused, OperandKind::Unused),
            Opcode::Closure => OpShape::Bx,
        }
    }
}

/// A Lua 5.0 instruction: its opcode, its A operand and its mode-specific
/// operands.
#[derive(Clone, Copy, Debug, PartialEq, Eq, Structural, Hash)]
pub struct Instruction {
    /// The opcode.
    pub opcode: Opcode,
    /// The A operand.
    pub a: u64,
    /// The remaining operands, as the instruction's shape arranges them.
    pub mode: Mode,
}

/// The instruction a packed word decodes to under the given input layout
/// and the Lua 5.0 operand conventions, or `InvalidOpcode` when the opcode
/// number names no instruction.
pub open spec fn spec_decode(word: u64, settings: super::settings::Settings, layout: InstructionLayout) -> Result<
    Instruction,
    LunifyError,
> {
    let opcode_value = layout.opcode.spec_get(word);
    match Opcode::spec_from_index(opcode_value) {
        None => Err(LunifyError::InvalidOpcode(opcode_value)),
        Some(opcode) => Ok(
            Instruction {
                opcode,
                a: layout.a.spec_get(word),
                mode: spec_decode_mode(opcode.spec_shape(), word, settings, layout),
            },
        ),
    }
}

/// The mode a packed word decodes to for an instruction of the given
/// shape, under the Lua 5.0 stack-limit convention for constants.
pub open spec fn spec_decode_mode(shape: OpShape, word: u64, settings: super::settings::Settings, layout: InstructionLayout) -> Mode {
    match shape {
        OpShape::Bx => Mode::Bx(layout.bx.spec_get(word)),
        OpShape::SignedBx => Mode::SignedBx(
            (layout.bx.spec_get(word) - layout.signed_offset) as i64,
        ),
        OpShape::BC(b_kind, c_kind) => Mode::BC(
            BC(
                OperandMode::spec_get_lua50(b_kind, layout.b.spec_get(word), settings),
                OperandMode::spec_get_lua50(c_kind, layout.c.spec_get(word), settings),
            ),
        ),
    }
}

impl Instruction {
    /// Read one instruction word off the stream and decode it under the
    /// given input layout.
    pub fn from_byte_stream(byte_stream: &mut ByteStream, settings: &super::settings::Settings, layout: &InstructionLayout) -> (result:
        Result<Instruction, LunifyError>)
        requires
            old(byte_stream).wf(),
            layout.wf(),
        ensures
            final(byte_stream).wf(),
            final(byte_stream).same_source(old(byte_stream)),
            final(byte_stream).cursor() >= old(byte_stream).cursor(),
            ({
                let count = old(byte_stream).spec_format().instruction_width.byte_count() as int;
                &&& old(byte_stream).remaining() >= count ==> {
                    &&& result == spec_decode(
                        word_from_bytes(old(byte_stream).chunk(count), old(byte_stream).spec_format().endianness),
                        *settings,
                        *layout,
                    )
                    &&& final(byte_stream).cursor() == old(byte_stream).cursor() + count
                }
                &&& old(byte_stream).remaining() < count ==> result == Err::<Instruction, LunifyError>(
                    LunifyError::InputTooShort,
                )
            }),
    {
        let word = byte_stream.instruction()?;
        Self::decode(word, settings, layout)
    }

    /// Decode a packed instruction word under the given input layout.
    pub fn decode(word: u64, settings: &super::settings::Settings, layout: &InstructionLayout) -> (result: Result<
        Instruction,
        LunifyError,
    >)
        requires
            layout.wf(),
        ensures
            result == spec_decode(word, *settings, *layout),
    {
        let opcode_value = layout.opcode.get(word);
        let opcode = match Opcode::from_index(opcode_value) {
            Some(opcode) => opcode,
            None => {
                return Err(LunifyError::InvalidOpcode(opcode_value));
            },
        };
        let a = layout.a.get(word);
        let mode = match opcode.shape() {
            OpShape::Bx => Mode::Bx(layout.bx.get(word)),
            OpShape::SignedBx => {
                proof {
                    let size = layout.bx.size;
                    let mask = layout.bx.bit_mask;
                    assert(mask < 0x8000000000000000) by (bit_vector)
                        requires mask == 0xFFFFFFFFFFFFFFFFu64 >> ((64 - size) as u64), 1 <= size <= 63,
                    ;
                    assert((0xFFFFFFFFFFFFFFFFu64 >> ((64 - ((size - 1) as u64)) as u64))
                        < 0x8000000000000000) by (bit_vector)
                        requires 2 <= size <= 63,
                    ;
                }
                Mode::SignedBx((layout.bx.get(word) as i64) - layout.signed_offset)
            },
            OpShape::BC(b_kind, c_kind) => Mode::BC(
                BC(
                    OperandMode::get_lua50(b_kind, layout.b.get(word), settings),
                    OperandMode::get_lua50(c_kind, layout.c.get(word), settings),
                ),
            ),
        };
        Ok(Instruction { opcode, a, mode })
    }
}

/// Lua 5.0 compile constants (`MAXSTACK`, `LFIELDS_PER_FLUSH`,
/// `LUA_SIGNATURE`, `SIZE_*`/`POS_*`).
#[derive(Clone, Debug, PartialEq, Eq, Hash)]
pub struct Settings {
    /// Maximum number of elements that can be on the stack at the same
    /// time (`MAXSTACK`).
    pub stack_limit: u64,
    /// Number of elements to put on the stack before inserting a `SETLIST`
    /// instruction (`LFIELDS_PER_FLUSH`).
    pub fields_per_flush: u64,
    /// Lua binary file signature (`LUA_SIGNATURE`).
    pub binary_signature: Vec<u8>,
    /// Memory layout of instructions inside the Lua byte code (`SIZE_*`,
    /// `POS_*`).
    pub layout: InstructionLayout,
}

/// The instruction layout of a stock Lua 5.0 interpreter: opcode, C, B, A,
/// lowest bits first.
pub open spec fn spec_standard_layout() -> InstructionLayout {
    InstructionLayout {
        opcode: OperandLayout { size: 6, position: 0, bit_mask: 0x3F },
        c: OperandLayout { size: 9, position: 6, bit_mask: 0x1FF },
        b: OperandLayout { size: 9, position: 15, bit_mask: 0x1FF },
        a: OperandLayout { size: 8, position: 24, bit_mask: 0xFF },
        bx: OperandLayout { size: 18, position: 6, bit_mask: 0x3FFFF },
        signed_offset: 0x1FFFF,
    }
}

/// The standard Lua 5.0 layout holds masks that belong to their sizes.
pub proof fn lemma_standard_settings_wf()
    ensures
        spec_standard_layout().wf(),
{
    assert(0xFFFFFFFFFFFFFFFFu64 >> 58u64 == 0x3F) by (bit_vector);
    assert(0xFFFFFFFFFFFFFFFFu64 >> 56u64 == 0xFF) by (bit_vector);
    assert(0xFFFFFFFFFFFFFFFFu64 >> 55u64 == 0x1FF) by (bit_vector);
    assert(0xFFFFFFFFFFFFFFFFu64 >> 46u64 == 0x3FFFF) by (bit_vector);
    assert(0xFFFFFFFFFFFFFFFFu64 >> 47u64 == 0x1FFFF) by (bit_vector);
}

impl Settings {
    /// The layout fits the instruction word and the limits are small
    /// enough for the rewrite arithmetic.
    pub open spec fn wf(&self) -> bool {
        &&& self.layout.wf()
        &&& 1 <= self.stack_limit <= 0x7FFFFFFF
        &&& 1 <= self.fields_per_flush <= 0x7FFFFFFF
    }

    /// Whether these are the constants of a stock Lua 5.0 interpreter.
    pub open spec fn is_standard(&self) -> bool {
        &&& self.stack_limit == 250
        &&& self.fields_per_flush == 32
        &&& self.binary_signature@ == seq![0x1Bu8, 0x4Cu8, 0x75u8, 0x61u8]
        &&& self.layout == spec_standard_layout()
    }
}

impl Default for Settings {
    /// The constants of a stock Lua 5.0 interpreter.
    fn default() -> (result: Settings)
        ensures
            result.is_standard(),
    {
        let mut binary_signature: Vec<u8> = Vec::new();
        binary_signature.push(0x1B);
        binary_signature.push(0x4C);
        binary_signature.push(0x75);
        binary_signature.push(0x61);
        proof {
            assert(binary_signature@ =~= seq![0x1Bu8, 0x4Cu8, 0x75u8, 0x61u8]);
        }
        Settings {
            stack_limit: 250,
            fields_per_flush: 32,
            binary_signature,
            layout: InstructionLayout {
                opcode: OperandLayout { size: 6, position: 0, bit_mask: 0x3F },
                c: OperandLayout { size: 9, position: 6, bit_mask: 0x1FF },
                b: OperandLayout { size: 9, position: 15, bit_mask: 0x1FF },
                a: OperandLayout { size: 8, position: 24, bit_mask: 0xFF },
                bx: OperandLayout { size: 18, position: 6, bit_mask: 0x3FFFF },
                signed_offset: 0x1FFFF,
            },
        }
    }
}

} // verus!
