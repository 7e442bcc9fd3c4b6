use vstd::prelude::*;

use crate::error::LunifyError;

verus! {

/// A run of ones covering the low `size` bits of a word.
pub open spec fn spec_low_mask(size: u64) -> u64
    recommends
        1 <= size <= 63,
{
    0xFFFFFFFFFFFFFFFFu64 >> ((64 - size) as u64)
}

/// The position and width of one operand's bit field inside the packed
/// instruction word.
#[derive(Clone, Copy, Debug, Default, PartialEq, Eq, Structural, Hash)]
pub struct OperandLayout {
    /// The number of bits of the field.
    pub size: u64,
    /// The index of the field's lowest bit.
    pub position: u64,
    /// A mask of `size` ones, before shifting to the field's position.
    pub bit_mask: u64,
}

impl OperandLayout {
    /// The field can be read and written with 64-bit shifts, and the mask
    /// belongs to the size.
    pub open spec fn wf(&self) -> bool {
        &&& 1 <= self.size <= 63
        &&& self.position + self.size <= 64
        &&& self.bit_mask == spec_low_mask(self.size)
    }

    /// The field's bits of a packed word, moved down to the low end.
    pub open spec fn spec_get(&self, value: u64) -> u64
        recommends
            self.wf(),
    {
        (value >> self.position) & self.bit_mask
    }

    /// The packed contribution of a field value, or the error when the
    /// value does not fit the field.
    pub open spec fn spec_put(&self, value: u64) -> Result<u64, LunifyError>
        recommends
            self.wf(),
    {
        if value > self.bit_mask {
            Err(LunifyError::ValueTooBigForOperand)
        } else {
            Ok((value & self.bit_mask) << self.position)
        }
    }

    /// A field of `size` bits starting at bit `position`.
    pub fn new(size: u64, position: u64) -> (result: OperandLayout)
        requires
            1 <= size <= 63,
        ensures
            result.size == size,
            result.position == position,
            result.bit_mask == spec_low_mask(size),
            position + size <= 64 ==> result.wf(),
    {
        let bit_mask = 0xFFFFFFFFFFFFFFFFu64 >> (64 - size);
        OperandLayout { size, position, bit_mask }
    }

    /// Read the field's bits out of a packed word.
    pub fn get(&self, value: u64) -> (result: u64)
        requires
            self.wf(),
        ensures
            result == self.spec_get(value),
            result <= self.bit_mask,
    {
        proof {
            let position = self.position;
            let bit_mask = self.bit_mask;
            assert(((value >> position) & bit_mask) <= bit_mask) by (bit_vector);
        }
        (value >> self.position) & self.bit_mask
    }

    /// Pack a field value into its position, or fail when the value does
    /// not fit the field.
    pub fn put(&self, value: u64) -> (result: Result<u64, LunifyError>)
        requires
            self.wf(),
        ensures
            result == self.spec_put(value),
    {
        proof {
            let size = self.size;
            assert((1u64 << size) - 1 == 0xFFFFFFFFFFFFFFFFu64 >> ((64 - size) as u64)) by (bit_vector)
                requires 1 <= size <= 63,
            ;
        }
        let maximum_value = (1u64 << self.size) - 1;

        if value > maximum_value {
            return Err(LunifyError::ValueTooBigForOperand);
        }

        Ok((value & self.bit_mask) << self.position)
    }
}

/// Reading a field out of a packed word and packing it again gives back
/// exactly the field's bits of the word: for every layout whose field fits
/// the word, `put(get(w)) == w & (mask << position)`.
pub proof fn lemma_operand_round_trip(layout: OperandLayout, word: u64)
    requires
        layout.wf(),
    ensures
        layout.spec_put(layout.spec_get(word)) == Ok::<u64, LunifyError>(
            word & (layout.bit_mask << layout.position),
        ),
{
    let p = layout.position;
    let m = layout.bit_mask;
    assert(((word >> p) & m) <= m) by (bit_vector);
    assert((((word >> p) & m) & m) << p == word & (m << p)) by (bit_vector);
}

/// All possible operands of an instruction.
#[derive(Clone, Copy, Debug, PartialEq, Eq, Structural, Hash)]
pub enum OperandType {
    /// Size of the opcode (`SIZE_OP`).
    Opcode(u64),
    /// Size of the A operand (`SIZE_A`).
    A(u64),
    /// Size of the B operand (`SIZE_B`).
    B(u64),
    /// Size of the C operand (`SIZE_C`).
    C(u64),
}

/// Memory layout of instructions inside the Lua byte code (`SIZE_*`,
/// `POS_*`).
#[derive(Clone, Copy, Debug, PartialEq, Eq, Structural, Hash)]
pub struct InstructionLayout {
    /// The opcode field.
    pub opcode: OperandLayout,
    /// The A operand field.
    pub a: OperandLayout,
    /// The B operand field.
    pub b: OperandLayout,
    /// The C operand field.
    pub c: OperandLayout,
    /// The combined field spanning B and C.
    pub bx: OperandLayout,
    /// The bias that turns the unsigned Bx field into a signed offset.
    pub signed_offset: i64,
}

/// The state of reading a layout specification: the fields seen so far and
/// the next free bit position.
#[derive(Clone, Copy, Debug, PartialEq, Eq, Structural, Hash)]
pub struct LayoutBuilder {
    /// The opcode field, when its size was seen.
    pub opcode: Option<OperandLayout>,
    /// The A field, when its size was seen.
    pub a: Option<OperandLayout>,
    /// The B field, when its size was seen.
    pub b: Option<OperandLayout>,
    /// The C field, when its size was seen.
    pub c: Option<OperandLayout>,
    /// The next free bit position.
    pub offset: u64,
}

/// One step of reading a layout specification: place the named field at the
/// next free position, unless its size is out of range or the field was
/// named before.
pub open spec fn spec_apply_operand(state: LayoutBuilder, entry: OperandType) -> Result<
    LayoutBuilder,
    LunifyError,
> {
    match entry {
        OperandType::Opcode(size) => if !(6 <= size < 32) || state.opcode is Some || state.offset + size > 64 {
            Err(LunifyError::InvalidInstructionLayout)
        } else {
            Ok(LayoutBuilder {
                opcode: Some(
                    OperandLayout { size, position: state.offset, bit_mask: spec_low_mask(size) },
                ),
                offset: (state.offset + size) as u64,
                ..state
            })
        },
        OperandType::A(size) => if !(7 <= size < 32) || state.a is Some || state.offset + size > 64 {
            Err(LunifyError::InvalidInstructionLayout)
        } else {
            Ok(LayoutBuilder {
                a: Some(OperandLayout { size, position: state.offset, bit_mask: spec_low_mask(size) }),
                offset: (state.offset + size) as u64,
                ..state
            })
        },
        OperandType::B(size) => if !(8 <= size < 32) || state.b is Some || state.offset + size > 64 {
            Err(LunifyError::InvalidInstructionLayout)
        } else {
            Ok(LayoutBuilder {
                b: Some(OperandLayout { size, position: state.offset, bit_mask: spec_low_mask(size) }),
                offset: (state.offset + size) as u64,
                ..state
            })
        },
        OperandType::C(size) => if !(8 <= size < 32) || state.c is Some || state.offset + size > 64 {
            Err(LunifyError::InvalidInstructionLayout)
        } else {
            Ok(LayoutBuilder {
                c: Some(OperandLayout { size, position: state.offset, bit_mask: spec_low_mask(size) }),
                offset: (state.offset + size) as u64,
                ..state
            })
        },
    }
}

/// Reading a whole layout specification: the fold of
/// [`spec_apply_operand`] over its entries.
pub open spec fn spec_apply_all(state: LayoutBuilder, entries: Seq<OperandType>) -> Result<
    LayoutBuilder,
    LunifyError,
>
    decreases entries.len(),
{
    if entries.len() == 0 {
        Ok(state)
    } else {
        match spec_apply_operand(state, entries[0]) {
            Err(error) => Err(error),
            Ok(next) => spec_apply_all(next, entries.skip(1)),
        }
    }
}

/// The layout a fully read specification builds: every operand must have
/// been named, B and C must be adjacent, and Bx spans both with the
/// matching signed bias.
pub open spec fn spec_finish_layout(state: LayoutBuilder) -> Result<InstructionLayout, LunifyError> {
    match (state.opcode, state.a, state.b, state.c) {
        (Some(opcode), Some(a), Some(b), Some(c)) => if c.position + c.size != b.position
            && b.position + b.size != c.position {
            Err(LunifyError::InvalidInstructionLayout)
        } else {
            let bx_size = (b.size + c.size) as u64;
            let bx_position = if b.position <= c.position {
                b.position
            } else {
                c.position
            };
            Ok(InstructionLayout {
                opcode,
                a,
                b,
                c,
                bx: OperandLayout { size: bx_size, position: bx_position, bit_mask: spec_low_mask(bx_size) },
                signed_offset: spec_low_mask((bx_size - 1) as u64) as i64,
            })
        },
        _ => Err(LunifyError::InvalidInstructionLayout),
    }
}

/// The layout a specification names: place each entry at the next free
/// bit, then derive Bx and the signed bias.
pub open spec fn spec_from_specification(specification: Seq<OperandType>) -> Result<
    InstructionLayout,
    LunifyError,
>
    recommends
        specification.len() == 4,
{
    let initial = LayoutBuilder { opcode: None, a: None, b: None, c: None, offset: 0 };
    match spec_apply_all(initial, specification) {
        Err(error) => Err(error),
        Ok(state) => spec_finish_layout(state),
    }
}

impl InstructionLayout {
    /// Every field can be read and written with 64-bit shifts, Bx spans B
    /// and C, and the signed bias belongs to the Bx width.
    pub open spec fn wf(&self) -> bool {
        &&& self.opcode.wf()
        &&& self.a.wf()
        &&& self.b.wf()
        &&& self.c.wf()
        &&& self.bx.wf()
        &&& self.bx.size == self.b.size + self.c.size
        &&& self.signed_offset == spec_low_mask((self.bx.size - 1) as u64) as i64
        &&& self.bx.size >= 2
    }

    /// Create a memory layout from a list of [`OperandType`]s.
    ///
    /// Each operand is placed at the next free bit, lowest bits first. The
    /// opcode must be 6 to 31 bits wide, A 7 to 31 bits, B and C 8 to 31
    /// bits; each operand must be named exactly once, and B and C must be
    /// adjacent so that Bx can span both. Any violation is
    /// `InvalidInstructionLayout`.
    pub fn from_specification(specification: [OperandType; 4]) -> (result: Result<
        InstructionLayout,
        LunifyError,
    >)
        ensures
            result == spec_from_specification(specification@),
            result matches Ok(layout) ==> {
                &&& layout.wf()
                &&& 6 <= layout.opcode.size < 32
                &&& 7 <= layout.a.size < 32
                &&& 8 <= layout.b.size < 32
                &&& 8 <= layout.c.size < 32
                &&& layout.bx.size == layout.b.size + layout.c.size
                &&& layout.bx.position == if layout.b.position <= layout.c.position {
                    layout.b.position
                } else {
                    layout.c.position
                }
                &&& (layout.c.position + layout.c.size == layout.b.position || layout.b.position
                    + layout.b.size == layout.c.position)
            },
            result is Err ==> result == Err::<InstructionLayout, LunifyError>(
                LunifyError::InvalidInstructionLayout,
            ),
    {
        let mut state = LayoutBuilder { opcode: None, a: None, b: None, c: None, offset: 0 };
        proof {
            assert(specification@.skip(0) =~= specification@);
        }

        let mut index: usize = 0;
        while index < 4
            invariant
                state.opcode matches Some(layout) ==> (layout.wf() && 6 <= layout.size < 32),
                state.a matches Some(layout) ==> (layout.wf() && 7 <= layout.size < 32),
                state.b matches Some(layout) ==> (layout.wf() && 8 <= layout.size < 32 && layout.position
                    + layout.size <= state.offset),
                state.c matches Some(layout) ==> (layout.wf() && 8 <= layout.size < 32 && layout.position
                    + layout.size <= state.offset),
                state.offset <= 64,
                index <= 4,
                specification@.len() == 4,
                spec_from_specification(specification@) == (match spec_apply_all(
                    state,
                    specification@.skip(index as int),
                ) {
                    Err(error) => Err(error),
                    Ok(finished) => spec_finish_layout(finished),
                }),
            decreases 4 - index,
        {
            let entry = specification[index];
            proof {
                assert(specification@.skip(index as int)[0] == specification@[index as int]);
                assert(specification@.skip(index as int).skip(1) =~= specification@.skip(
                    index as int + 1,
                ));
            }
            let next = Self::apply_operand(state, entry);
            match next {
                Ok(next_state) => {
                    state = next_state;
                },
                Err(error) => {
                    proof {
                        assert(spec_apply_all(state, specification@.skip(index as int))
                            == Err::<LayoutBuilder, LunifyError>(error));
                    }
                    return Err(error);
                },
            }
            index += 1;
        }
        proof {
            assert(specification@.skip(4) =~= Seq::<OperandType>::empty());
            assert(spec_apply_all(state, specification@.skip(4)) == Ok::<LayoutBuilder, LunifyError>(
                state,
            ));
        }

        let (opcode, a, b, c) = match (state.opcode, state.a, state.b, state.c) {
            (Some(opcode), Some(a), Some(b), Some(c)) => (opcode, a, b, c),
            _ => {
                return Err(LunifyError::InvalidInstructionLayout);
            },
        };

        // Make sure that B and C are next to each other.
        if c.position + c.size != b.position && b.position + b.size != c.position {
            return Err(LunifyError::InvalidInstructionLayout);
        }

        let bx_size = b.size + c.size;
        let bx_position = if b.position <= c.position {
            b.position
        } else {
            c.position
        };
        proof {
            assert(bx_position + bx_size <= 64);
        }
        let bx = OperandLayout::new(bx_size, bx_position);
        let signed_offset = (0xFFFFFFFFFFFFFFFFu64 >> (64 - bx_size + 1)) as i64;
        proof {
            let size = bx_size;
            assert((0xFFFFFFFFFFFFFFFFu64 >> ((64 - size + 1) as u64)) < 0x8000000000000000) by (bit_vector)
                requires 2 <= size <= 63,
            ;
        }

        Ok(InstructionLayout { opcode, a, b, c, bx, signed_offset })
    }

    /// Place one named operand at the next free position.
    fn apply_operand(state: LayoutBuilder, entry: OperandType) -> (result: Result<
        LayoutBuilder,
        LunifyError,
    >)
        requires
            state.offset <= 64,
        ensures
            result == spec_apply_operand(state, entry),
    {
        match entry {
            OperandType::Opcode(size) => {
                if !(6 <= size && size < 32) || state.opcode.is_some() || state.offset + size > 64 {
                    return Err(LunifyError::InvalidInstructionLayout);
                }
                let layout = OperandLayout::new(size, state.offset);
                Ok(LayoutBuilder { opcode: Some(layout), offset: state.offset + size, ..state })
            },
            OperandType::A(size) => {
                if !(7 <= size && size < 32) || state.a.is_some() || state.offset + size > 64 {
                    return Err(LunifyError::InvalidInstructionLayout);
                }
                let layout = OperandLayout::new(size, state.offset);
                Ok(LayoutBuilder { a: Some(layout), offset: state.offset + size, ..state })
            },
            OperandType::B(size) => {
                if !(8 <= size && size < 32) || state.b.is_some() || state.offset + size > 64 {
                    return Err(LunifyError::InvalidInstructionLayout);
                }
                let layout = OperandLayout::new(size, state.offset);
                Ok(LayoutBuilder { b: Some(layout), offset: state.offset + size, ..state })
            },
            OperandType::C(size) => {
                if !(8 <= size && size < 32) || state.c.is_some() || state.offset + size > 64 {
                    return Err(LunifyError::InvalidInstructionLayout);
                }
                let layout = OperandLayout::new(size, state.offset);
                Ok(LayoutBuilder { c: Some(layout), offset: state.offset + size, ..state })
            },
        }
    }
}

} // verus!
