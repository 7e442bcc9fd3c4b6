use vstd::prelude::*;

use crate::error::LunifyError;
use crate::instruction::lua51::Instruction;
use crate::instruction::lua51::Opcode;
use crate::instruction::{Mode, Settings};

verus! {

/// One instruction under construction, together with the metadata the
/// final jump retargeting needs.
#[derive(Clone, Copy, Debug, PartialEq, Eq, Structural, Hash)]
pub struct InstructionContext {
    /// The instruction itself.
    pub instruction: Instruction,
    /// 0 for an instruction copied from the input, 1 for an extra
    /// instruction the rewriter synthesised: jumps across an extra
    /// instruction must stretch by its weight. An instruction that took
    /// the place of removed ones carries their weights minus one each.
    pub line_weight: i64,
    /// A delta applied to a jump's target after retargeting, used when the
    /// jump must land just before an instruction inserted at its target.
    pub final_offset: i64,
    /// Whether the jump's target already refers to the rewritten program
    /// counter and must not be retargeted.
    pub is_fixed: bool,
}

impl InstructionContext {
    /// The context of an instruction copied from the input.
    pub open spec fn spec_new(instruction: Instruction) -> InstructionContext {
        InstructionContext { instruction, line_weight: 0, final_offset: 0, is_fixed: false }
    }

    /// The context of an extra instruction the rewriter synthesised.
    pub open spec fn spec_new_extra(instruction: Instruction) -> InstructionContext {
        InstructionContext { instruction, line_weight: 1, final_offset: 0, is_fixed: false }
    }

    /// The context of an instruction copied from the input.
    pub fn new(instruction: Instruction) -> (result: InstructionContext)
        ensures
            result == InstructionContext::spec_new(instruction),
    {
        InstructionContext { instruction, line_weight: 0, final_offset: 0, is_fixed: false }
    }

    /// The context of an extra instruction the rewriter synthesised.
    pub fn new_extra(instruction: Instruction) -> (result: InstructionContext)
        ensures
            result == InstructionContext::spec_new_extra(instruction),
    {
        InstructionContext { instruction, line_weight: 1, final_offset: 0, is_fixed: false }
    }
}

/// The largest jump distance the retargeting walk keeps: a distance beyond
/// this cannot fit any operand field, so the walk gives up on it.
pub const JUMP_DISTANCE_LIMIT: i64 = 0x4000000000000000;

/// The retargeting walk itself: starting with `steps` instructions left
/// to cross, step outward from `context_index` in the jump's direction,
/// stretching the distance by each crossed instruction's line weight (an
/// extra instruction also adds one more step to cross).
pub open spec fn spec_walk(
    contexts: Seq<InstructionContext>,
    context_index: int,
    positive: bool,
    bx: int,
    steps: int,
    offset: int,
) -> Result<i64, LunifyError>
    decreases contexts.len() + 1 - offset,
{
    if steps == 0 {
        Ok(bx as i64)
    } else {
        let index = if positive {
            context_index + offset
        } else {
            context_index - offset
        };
        if index < 0 || index >= contexts.len() || offset > contexts.len() {
            Err(LunifyError::UnexpectedForwardJump)
        } else {
            let weight = contexts[index].line_weight;
            let new_bx = if positive {
                bx + weight
            } else {
                bx - weight
            };
            let new_steps = steps + weight - 1;
            if new_bx > JUMP_DISTANCE_LIMIT || new_bx < -(JUMP_DISTANCE_LIMIT as int) || new_steps
                > JUMP_DISTANCE_LIMIT || new_steps < -(JUMP_DISTANCE_LIMIT as int) {
                Err(LunifyError::ValueTooBigForOperand)
            } else {
                spec_walk(contexts, context_index, positive, new_bx, new_steps, offset + 1)
            }
        }
    }
}

/// The retargeted distance of a jump at `context_index` with input
/// distance `bx`: walk the contexts in the jump's direction, stretching the
/// distance by the line weight of every instruction stepped across, then
/// add the jump's final offset. A walk that runs off the instructions ends
/// in `UnexpectedForwardJump`; a distance that grows beyond any operand
/// field ends in `ValueTooBigForOperand`.
pub open spec fn spec_jump_destination(
    contexts: Seq<InstructionContext>,
    context_index: int,
    bx: int,
    final_offset: int,
) -> Result<i64, LunifyError> {
    let positive = bx > 0;
    let steps = if positive {
        bx + 1
    } else {
        -bx
    };
    let start_offset: int = if positive {
        1
    } else {
        0
    };
    match spec_walk(contexts, context_index, positive, bx, steps, start_offset) {
        Err(error) => Err(error),
        Ok(new_bx) => {
            let with_offset = new_bx + final_offset;
            if with_offset > JUMP_DISTANCE_LIMIT || with_offset < -(JUMP_DISTANCE_LIMIT as int) {
                Err(LunifyError::ValueTooBigForOperand)
            } else {
                Ok(with_offset as i64)
            }
        },
    }
}

/// The instruction the finalizer emits for position `index`: a jump whose
/// target is not fixed is retargeted; everything else is copied.
pub open spec fn spec_finalized_instruction(
    contexts: Seq<InstructionContext>,
    index: int,
) -> Result<Instruction, LunifyError>
    recommends
        0 <= index < contexts.len(),
{
    let context = contexts[index];
    if spec_is_retargeted(context) {
        match context.instruction.mode {
            Mode::SignedBx(bx) => match spec_jump_destination(
                contexts,
                index,
                bx as int,
                context.final_offset as int,
            ) {
                Err(error) => Err(error),
                Ok(new_bx) => Ok(
                    Instruction {
                        opcode: context.instruction.opcode,
                        a: context.instruction.a,
                        mode: Mode::SignedBx(new_bx),
                    },
                ),
            },
            _ => Ok(context.instruction),
        }
    } else {
        Ok(context.instruction)
    }
}

/// Whether the finalizer retargets this instruction: it is one of the
/// jump-carrying opcodes and its target is not fixed.
pub open spec fn spec_is_retargeted(context: InstructionContext) -> bool {
    &&& (context.instruction.opcode == Opcode::Jump || context.instruction.opcode == Opcode::ForLoop
        || context.instruction.opcode == Opcode::ForPrep)
    &&& !context.is_fixed
}

/// The size the stack must have for the instruction at `index`: one past
/// the last slot it writes, or zero when it writes none.
pub open spec fn spec_written_size(contexts: Seq<InstructionContext>, index: int) -> u64 {
    match contexts[index].instruction.spec_stack_destination() {
        Some(destination) => crate::instruction::lua51::spec_sat_add(destination.1, 1),
        None => 0,
    }
}

/// The largest stack size any of the first `index` instructions needs.
pub open spec fn spec_written_peak(contexts: Seq<InstructionContext>, index: int) -> u64
    decreases index,
{
    if index <= 0 {
        0
    } else {
        let previous = spec_written_peak(contexts, index - 1);
        let here = spec_written_size(contexts, index - 1);
        if here > previous {
            here
        } else {
            previous
        }
    }
}

/// The first failure the finalizer meets, scanning from `index`: for each
/// instruction the stack check comes before its retargeting.
pub open spec fn spec_finalize_error(
    contexts: Seq<InstructionContext>,
    stack_limit: u64,
    index: int,
) -> Option<LunifyError>
    decreases contexts.len() - index,
{
    if index < 0 || index >= contexts.len() {
        None
    } else if spec_written_size(contexts, index) > stack_limit {
        Some(LunifyError::StackTooLarge(spec_written_size(contexts, index)))
    } else {
        match spec_finalized_instruction(contexts, index) {
            Err(error) => Some(error),
            Ok(_) => spec_finalize_error(contexts, stack_limit, index + 1),
        }
    }
}

/// Mutable buffer of instructions annotated with the line-weight metadata
/// used to re-target jumps after insertions and removals. Finalizing hands
/// out a flat instruction sequence with every jump pointing at its
/// original semantic target.
pub struct InstructionBuilder {
    contexts: Vec<InstructionContext>,
    line_info: Vec<i64>,
    line_number: i64,
}

impl InstructionBuilder {
    /// The instructions collected so far, with their metadata.
    pub closed spec fn contexts(&self) -> Seq<InstructionContext> {
        self.contexts@
    }

    /// The line number recorded for each collected instruction.
    pub closed spec fn line_info(&self) -> Seq<i64> {
        self.line_info@
    }

    /// The line number given to instructions collected next.
    pub closed spec fn line_number(&self) -> i64 {
        self.line_number
    }

    /// Every instruction carries a line number.
    pub open spec fn wf(&self) -> bool {
        self.contexts().len() == self.line_info().len()
    }

    /// An empty builder.
    pub fn new() -> (result: InstructionBuilder)
        ensures
            result.wf(),
            result.contexts() == Seq::<InstructionContext>::empty(),
            result.line_info() == Seq::<i64>::empty(),
            result.line_number() == 0,
    {
        let result = InstructionBuilder { contexts: Vec::new(), line_info: Vec::new(), line_number: 0 };
        proof {
            assert(result.contexts() =~= Seq::<InstructionContext>::empty());
            assert(result.line_info() =~= Seq::<i64>::empty());
        }
        result
    }

    /// Set the line number recorded for the instructions collected next.
    pub fn set_line_number(&mut self, line_number: i64)
        ensures
            final(self).contexts() == old(self).contexts(),
            final(self).line_info() == old(self).line_info(),
            final(self).line_number() == line_number,
    {
        self.line_number = line_number;
    }

    /// Append an instruction copied from the input.
    pub fn instruction(&mut self, instruction: Instruction)
        requires
            old(self).wf(),
        ensures
            final(self).wf(),
            final(self).contexts() == old(self).contexts().push(InstructionContext::spec_new(instruction)),
            final(self).line_info() == old(self).line_info().push(old(self).line_number()),
            final(self).line_number() == old(self).line_number(),
    {
        self.contexts.push(InstructionContext::new(instruction));
        self.line_info.push(self.line_number);
    }

    /// Append an extra instruction synthesised by the rewriter.
    pub fn extra_instruction(&mut self, instruction: Instruction)
        requires
            old(self).wf(),
        ensures
            final(self).wf(),
            final(self).contexts() == old(self).contexts().push(
                InstructionContext::spec_new_extra(instruction),
            ),
            final(self).line_info() == old(self).line_info().push(old(self).line_number()),
            final(self).line_number() == old(self).line_number(),
    {
        self.contexts.push(InstructionContext::new_extra(instruction));
        self.line_info.push(self.line_number);
    }

    /// Insert an extra instruction before position `index`, taking the
    /// line number the instruction at that position has.
    pub fn insert_extra_instruction(&mut self, index: usize, instruction: Instruction)
        requires
            old(self).wf(),
            index < old(self).contexts().len(),
        ensures
            final(self).wf(),
            final(self).contexts() == old(self).contexts().insert(
                index as int,
                InstructionContext::spec_new_extra(instruction),
            ),
            final(self).line_info() == old(self).line_info().insert(
                index as int,
                old(self).line_info()[index as int],
            ),
            final(self).line_number() == old(self).line_number(),
    {
        let line_number = self.line_info[index];
        self.contexts.insert(index, InstructionContext::new_extra(instruction));
        self.line_info.insert(index, line_number);
    }

    /// Remove the instruction at `index`. Its line weight, less one for
    /// the removal itself, moves onto the instruction that takes its
    /// place, so that jumps across the spot keep their targets.
    pub fn remove_instruction(&mut self, index: usize)
        requires
            old(self).wf(),
            index + 1 < old(self).contexts().len(),
        ensures
            final(self).wf(),
            final(self).contexts() == old(self).contexts().remove(index as int).update(
                index as int,
                InstructionContext {
                    line_weight: spec_clamped_weight(
                        old(self).contexts()[index as int].line_weight as int + old(
                            self,
                        ).contexts()[index as int + 1].line_weight as int - 1,
                    ),
                    ..old(self).contexts()[index as int + 1]
                },
            ),
            final(self).line_info() == old(self).line_info().remove(index as int),
            final(self).line_number() == old(self).line_number(),
    {
        let removed = self.contexts.remove(index);
        self.line_info.remove(index);
        let mut successor = self.contexts[index];
        successor.line_weight = clamped_weight_add(successor.line_weight, removed.line_weight);
        self.contexts.set(index, successor);
    }

    /// Mark the most recent instruction as carrying a fixed jump target.
    pub fn last_instruction_fixed(&mut self)
        requires
            old(self).wf(),
            old(self).contexts().len() >= 1,
        ensures
            final(self).wf(),
            final(self).contexts() == old(self).contexts().update(
                old(self).contexts().len() - 1,
                InstructionContext { is_fixed: true, ..old(self).contexts().last() },
            ),
            final(self).line_info() == old(self).line_info(),
            final(self).line_number() == old(self).line_number(),
    {
        let index = self.contexts.len() - 1;
        let mut context = self.contexts[index];
        context.is_fixed = true;
        self.contexts.set(index, context);
    }

    /// Give the most recent instruction a post-retarget delta.
    pub fn last_instruction_offset(&mut self, final_offset: i64)
        requires
            old(self).wf(),
            old(self).contexts().len() >= 1,
        ensures
            final(self).wf(),
            final(self).contexts() == old(self).contexts().update(
                old(self).contexts().len() - 1,
                InstructionContext { final_offset, ..old(self).contexts().last() },
            ),
            final(self).line_info() == old(self).line_info(),
            final(self).line_number() == old(self).line_number(),
    {
        let index = self.contexts.len() - 1;
        let mut context = self.contexts[index];
        context.final_offset = final_offset;
        self.contexts.set(index, context);
    }

    /// The instruction at `index`.
    pub fn get_instruction(&self, index: usize) -> (result: Instruction)
        requires
            index < self.contexts().len(),
        ensures
            result == self.contexts()[index as int].instruction,
    {
        self.contexts[index].instruction
    }

    /// Replace the instruction at `index`, keeping its metadata.
    pub fn set_instruction(&mut self, index: usize, instruction: Instruction)
        requires
            old(self).wf(),
            index < old(self).contexts().len(),
        ensures
            final(self).wf(),
            final(self).contexts() == old(self).contexts().update(
                index as int,
                InstructionContext { instruction, ..old(self).contexts()[index as int] },
            ),
            final(self).line_info() == old(self).line_info(),
            final(self).line_number() == old(self).line_number(),
    {
        let mut context = self.contexts[index];
        context.instruction = instruction;
        self.contexts.set(index, context);
    }

    /// The line number most recently given to [`InstructionBuilder::set_line_number`].
    pub fn get_line_number(&self) -> (result: i64)
        ensures
            result == self.line_number(),
    {
        self.line_number
    }

    /// The instruction at `index`, with its metadata.
    pub fn get_context(&self, index: usize) -> (result: InstructionContext)
        requires
            index < self.contexts().len(),
        ensures
            result == self.contexts()[index as int],
    {
        self.contexts[index]
    }

    /// The line number recorded for the instruction at `index`.
    pub fn get_line_info_entry(&self, index: usize) -> (result: i64)
        requires
            index < self.line_info().len(),
        ensures
            result == self.line_info()[index as int],
    {
        self.line_info[index]
    }

    /// The position the next appended instruction will take.
    pub fn get_program_counter(&self) -> (result: usize)
        ensures
            result == self.contexts().len(),
    {
        self.contexts.len()
    }

    /// Walk the contexts in the direction of `bx` and hand back the
    /// retargeted jump distance; see [`spec_jump_destination`].
    pub fn jump_destination(&self, context_index: usize, bx: i64, final_offset: i64) -> (result: Result<
        i64,
        LunifyError,
    >)
        requires
            context_index < self.contexts().len(),
        ensures
            result matches Err(error) ==> !(error is IncorrectSignature),
            result == spec_jump_destination(
                self.contexts(),
                context_index as int,
                bx as int,
                final_offset as int,
            ),
    {
        let length = self.contexts.len();
        let positive = bx > 0;
        let mut steps: i128 = if positive {
            bx as i128 + 1
        } else {
            -(bx as i128)
        };
        let mut offset: usize = if positive {
            1
        } else {
            0
        };
        let mut current_bx: i128 = bx as i128;

        while steps != 0
            invariant
                self.contexts().len() == length,
                context_index < length,
                offset <= length,
                positive == (bx > 0),
                -0x8000000000000000 <= current_bx <= 0x7FFFFFFFFFFFFFFF,
                -0x8000000000000000 <= steps <= 0x8000000000000000,
                spec_walk(
                    self.contexts(),
                    context_index as int,
                    positive,
                    current_bx as int,
                    steps as int,
                    offset as int,
                ) == spec_walk(
                    self.contexts(),
                    context_index as int,
                    positive,
                    bx as int,
                    if positive {
                        bx as int + 1
                    } else {
                        -(bx as int)
                    },
                    if positive {
                        1int
                    } else {
                        0int
                    },
                ),
            decreases length - offset,
        {
            let ghost spec_index: int = if positive {
                context_index + offset
            } else {
                context_index - offset
            };
            let index = if positive {
                if offset > length || context_index >= length - offset {
                    proof {
                        assert(spec_index >= length || offset > length);
                        assert(spec_walk(
                            self.contexts(),
                            context_index as int,
                            positive,
                            current_bx as int,
                            steps as int,
                            offset as int,
                        ) == Err::<i64, LunifyError>(LunifyError::UnexpectedForwardJump));
                    }
                    return Err(LunifyError::UnexpectedForwardJump);
                }
                context_index + offset
            } else {
                if offset > context_index {
                    proof {
                        assert(spec_index < 0);
                        assert(spec_walk(
                            self.contexts(),
                            context_index as int,
                            positive,
                            current_bx as int,
                            steps as int,
                            offset as int,
                        ) == Err::<i64, LunifyError>(LunifyError::UnexpectedForwardJump));
                    }
                    return Err(LunifyError::UnexpectedForwardJump);
                }
                context_index - offset
            };

            let weight = self.contexts[index].line_weight;
            let new_bx: i128 = if positive {
                current_bx + weight as i128
            } else {
                current_bx - weight as i128
            };
            let new_steps: i128 = steps + weight as i128 - 1;
            if new_bx > JUMP_DISTANCE_LIMIT as i128 || new_bx < -(JUMP_DISTANCE_LIMIT as i128) || new_steps
                > JUMP_DISTANCE_LIMIT as i128 || new_steps < -(JUMP_DISTANCE_LIMIT as i128) {
                proof {
                    assert(spec_walk(
                        self.contexts(),
                        context_index as int,
                        positive,
                        current_bx as int,
                        steps as int,
                        offset as int,
                    ) == Err::<i64, LunifyError>(LunifyError::ValueTooBigForOperand));
                }
                return Err(LunifyError::ValueTooBigForOperand);
            }
            proof {
                assert(spec_walk(
                    self.contexts(),
                    context_index as int,
                    positive,
                    current_bx as int,
                    steps as int,
                    offset as int,
                ) == spec_walk(
                    self.contexts(),
                    context_index as int,
                    positive,
                    new_bx as int,
                    new_steps as int,
                    offset as int + 1,
                ));
            }
            current_bx = new_bx;
            steps = new_steps;
            offset = offset + 1;
        }

        let with_offset: i128 = current_bx + final_offset as i128;
        if with_offset > JUMP_DISTANCE_LIMIT as i128 || with_offset < -(JUMP_DISTANCE_LIMIT as i128) {
            return Err(LunifyError::ValueTooBigForOperand);
        }
        Ok(with_offset as i64)
    }

    /// The rewritten position that a backward jump of distance `bx` from
    /// the current end of the instructions lands on, after retargeting. A
    /// positive distance is a bug in the caller and fails with
    /// `UnexpectedForwardJump`, as does a landing position outside the
    /// instructions.
    pub fn adjusted_jump_destination(&self, bx: i64) -> (result: Result<usize, LunifyError>)
        requires
            self.contexts().len() >= 1,
        ensures
            result matches Err(error) ==> !(error is IncorrectSignature),
            result == spec_adjusted_jump_destination(self.contexts(), bx as int),
    {
        if bx > 0 {
            return Err(LunifyError::UnexpectedForwardJump);
        }

        let program_counter = self.contexts.len();
        let new_bx = self.jump_destination(program_counter - 1, bx, 0)?;

        let position = program_counter as i128 + new_bx as i128;
        if new_bx > 0 || position < 0 || position >= program_counter as i128 {
            return Err(LunifyError::UnexpectedForwardJump);
        }
        Ok(position as usize)
    }

    /// Finalize the collected instructions: retarget every non-fixed jump
    /// (see [`spec_finalized_instruction`]), grow `maxstacksize` over every
    /// written stack slot, and fail with `StackTooLarge` as soon as a slot
    /// would pass the output's stack limit. Hands back the instructions
    /// and their line numbers.
    pub fn finalize(self, maxstacksize: &mut u8, settings: &Settings) -> (result: Result<
        (Vec<Instruction>, Vec<i64>),
        LunifyError,
    >)
        requires
            self.wf(),
            settings.wf(),
        ensures
            result matches Err(error) ==> !(error is IncorrectSignature),
            result matches Ok(pair) ==> {
                &&& pair.1@ == self.line_info()
                &&& pair.0@.len() == self.contexts().len()
                &&& forall|i: int|
                    0 <= i < self.contexts().len() ==> spec_finalized_instruction(self.contexts(), i)
                        == Ok::<Instruction, LunifyError>(#[trigger] pair.0@[i])
                &&& forall|i: int|
                    0 <= i < self.contexts().len()
                        ==> (#[trigger] self.contexts()[i].instruction.spec_stack_destination() matches Some(
                        destination,
                    ) ==> destination.1 < settings.output.stack_limit)
                &&& forall|i: int|
                    0 <= i < self.contexts().len()
                        ==> (#[trigger] self.contexts()[i].instruction.spec_stack_destination() matches Some(
                        destination,
                    ) ==> destination.1 + 1 <= *final(maxstacksize))
                &&& *final(maxstacksize) >= *old(maxstacksize)
                &&& *final(maxstacksize) <= spec_max_u8(
                    *old(maxstacksize),
                    settings.output.stack_limit as u8,
                )
            },
            // The outcome is decided by the first failure of the scan:
            // success is owed when there is none, and the error (with its
            // payload) is pinned when there is one.
            (match spec_finalize_error(self.contexts(), settings.output.stack_limit, 0) {
                Some(error) => result == Err::<(Vec<Instruction>, Vec<i64>), LunifyError>(error),
                None => result is Ok,
            }),
            // On success the new maximum stack size is exactly the old
            // one grown over every written slot (and so unchanged when no
            // instruction writes the stack).
            result is Ok ==> *final(maxstacksize) == spec_max_u8(
                *old(maxstacksize),
                spec_written_peak(self.contexts(), self.contexts().len() as int) as u8,
            ),
    {
        let mut instructions: Vec<Instruction> = Vec::new();
        let mut context_index: usize = 0;
        let length = self.contexts.len();

        while context_index < length
            invariant
                self.wf(),
                settings.wf(),
                self.contexts().len() == length,
                context_index <= length,
                instructions@.len() == context_index,
                forall|i: int|
                    0 <= i < context_index ==> spec_finalized_instruction(self.contexts(), i)
                        == Ok::<Instruction, LunifyError>(#[trigger] instructions@[i]),
                forall|i: int|
                    0 <= i < context_index
                        ==> (#[trigger] self.contexts()[i].instruction.spec_stack_destination() matches Some(
                        destination,
                    ) ==> destination.1 < settings.output.stack_limit),
                forall|i: int|
                    0 <= i < context_index
                        ==> (#[trigger] self.contexts()[i].instruction.spec_stack_destination() matches Some(
                        destination,
                    ) ==> destination.1 + 1 <= *maxstacksize),
                *maxstacksize >= *old(maxstacksize),
                *maxstacksize <= spec_max_u8(*old(maxstacksize), settings.output.stack_limit as u8),
                spec_finalize_error(self.contexts(), settings.output.stack_limit, 0)
                    == spec_finalize_error(self.contexts(), settings.output.stack_limit, context_index as int),
                spec_written_peak(self.contexts(), context_index as int) <= settings.output.stack_limit,
                *maxstacksize == spec_max_u8(
                    *old(maxstacksize),
                    spec_written_peak(self.contexts(), context_index as int) as u8,
                ),
            decreases length - context_index,
        {
            let context = self.contexts[context_index];

            // The stack positions might have changed significantly, so go
            // over every instruction and make sure that maxstacksize is
            // big enough. Values on the stack are only read after another
            // instruction has put them there, so making space for the
            // writes is enough to keep the stack from overflowing.
            if let Some(destination) = context.instruction.stack_destination() {
                let new_stack_size = crate::instruction::lua51::sat_add(destination.1, 1);
                if !(new_stack_size <= settings.output.stack_limit) {
                    proof {
                        assert(spec_written_size(self.contexts(), context_index as int)
                            == new_stack_size);
                        assert(spec_finalize_error(
                            self.contexts(),
                            settings.output.stack_limit,
                            context_index as int,
                        ) == Some(LunifyError::StackTooLarge(new_stack_size)));
                    }
                    return Err(LunifyError::StackTooLarge(new_stack_size));
                }
                if new_stack_size as u8 > *maxstacksize {
                    *maxstacksize = new_stack_size as u8;
                }
            }

            let finalized = if context.is_fixed {
                context.instruction
            } else {
                match (context.instruction.opcode, context.instruction.mode) {
                    (Opcode::Jump, Mode::SignedBx(bx)) | (Opcode::ForLoop, Mode::SignedBx(bx))
                        | (Opcode::ForPrep, Mode::SignedBx(bx)) => {
                        let new_bx = match self.jump_destination(context_index, bx, context.final_offset) {
                            Ok(new_bx) => new_bx,
                            Err(walk_error) => {
                                proof {
                                    assert(spec_finalized_instruction(self.contexts(), context_index as int)
                                        == Err::<Instruction, LunifyError>(walk_error));
                                    assert(spec_finalize_error(
                                        self.contexts(),
                                        settings.output.stack_limit,
                                        context_index as int,
                                    ) == Some(walk_error));
                                }
                                return Err(walk_error);
                            },
                        };
                        Instruction {
                            opcode: context.instruction.opcode,
                            a: context.instruction.a,
                            mode: Mode::SignedBx(new_bx),
                        }
                    },
                    _ => context.instruction,
                }
            };
            proof {
                assert(spec_finalized_instruction(self.contexts(), context_index as int)
                    == Ok::<Instruction, LunifyError>(finalized));
                assert(spec_finalize_error(
                    self.contexts(),
                    settings.output.stack_limit,
                    context_index as int,
                ) == spec_finalize_error(
                    self.contexts(),
                    settings.output.stack_limit,
                    context_index as int + 1,
                ));
            }
            instructions.push(finalized);
            context_index += 1;
        }

        Ok((instructions, self.line_info))
    }
}

/// A retargeting walk across instructions of weight zero keeps the
/// distance: the walk only counts down its steps.
proof fn lemma_walk_zero_weights(
    contexts: Seq<InstructionContext>,
    context_index: int,
    positive: bool,
    bx: int,
    steps: int,
    offset: int,
)
    requires
        forall|i: int| 0 <= i < contexts.len() ==> (#[trigger] contexts[i]).line_weight == 0,
        0 <= steps <= JUMP_DISTANCE_LIMIT,
        0 <= context_index < contexts.len(),
        offset >= if positive { 1int } else { 0int },
        -(JUMP_DISTANCE_LIMIT as int) <= bx <= JUMP_DISTANCE_LIMIT,
        positive ==> context_index + offset + steps - 1 < contexts.len(),
        !positive ==> context_index - offset - steps + 1 >= 0,
    ensures
        spec_walk(contexts, context_index, positive, bx, steps, offset) == Ok::<i64, LunifyError>(
            bx as i64,
        ),
    decreases steps,
{
    if steps != 0 {
        lemma_walk_zero_weights(contexts, context_index, positive, bx, steps - 1, offset + 1);
    }
}

/// A jump across a stretch of instructions that were neither inserted nor
/// removed keeps its distance: when every instruction the walk steps
/// across has line weight zero and the jump's target lies inside the
/// instructions, retargeting hands the distance back unchanged. Inserted
/// and removed instructions are exactly what moves a target.
pub proof fn lemma_jump_destination_unchanged(
    contexts: Seq<InstructionContext>,
    context_index: int,
    bx: i64,
)
    requires
        forall|i: int| 0 <= i < contexts.len() ==> (#[trigger] contexts[i]).line_weight == 0,
        0 <= context_index < contexts.len(),
        -(JUMP_DISTANCE_LIMIT as int) <= bx < JUMP_DISTANCE_LIMIT,
        bx > 0 ==> context_index + bx + 1 < contexts.len(),
        bx <= 0 ==> context_index + bx >= 0,
    ensures
        spec_jump_destination(contexts, context_index, bx as int, 0) == Ok::<i64, LunifyError>(bx),
{
    if bx > 0 {
        lemma_walk_zero_weights(contexts, context_index, true, bx as int, bx + 1, 1);
    } else {
        lemma_walk_zero_weights(contexts, context_index, false, bx as int, -(bx as int), 0);
    }
}

/// Retargeting never changes which stack slots an instruction writes: it
/// only rewrites the signed jump distance.
pub proof fn lemma_finalized_destination(contexts: Seq<InstructionContext>, index: int)
    requires
        0 <= index < contexts.len(),
    ensures
        spec_finalized_instruction(contexts, index) matches Ok(instruction)
            ==> instruction.spec_stack_destination() == contexts[index].instruction.spec_stack_destination(),
{
}

/// The larger of two bytes.
pub open spec fn spec_max_u8(left: u8, right: u8) -> u8 {
    if left >= right {
        left
    } else {
        right
    }
}

/// The retargeted landing position of a backward jump of distance `bx`
/// taken from the current end of the instructions.
pub open spec fn spec_adjusted_jump_destination(contexts: Seq<InstructionContext>, bx: int) -> Result<
    usize,
    LunifyError,
> {
    if bx > 0 {
        Err(LunifyError::UnexpectedForwardJump)
    } else {
        match spec_jump_destination(contexts, contexts.len() - 1, bx, 0) {
            Err(error) => Err(error),
            Ok(new_bx) => {
                let position = contexts.len() + new_bx;
                if new_bx > 0 || position < 0 || position >= contexts.len() {
                    Err(LunifyError::UnexpectedForwardJump)
                } else {
                    Ok(position as usize)
                }
            },
        }
    }
}

/// A removal's weight transfer, clamped so that weights stay within the
/// retargeting walk's range.
pub open spec fn spec_clamped_weight(value: int) -> i64 {
    if value > JUMP_DISTANCE_LIMIT {
        JUMP_DISTANCE_LIMIT
    } else if value < -(JUMP_DISTANCE_LIMIT as int) {
        (-(JUMP_DISTANCE_LIMIT as int)) as i64
    } else {
        value as i64
    }
}

/// Add a removed instruction's weight, less one, onto its successor's
/// weight, clamped to the walk's range.
fn clamped_weight_add(weight: i64, removed_weight: i64) -> (result: i64)
    ensures
        result == spec_clamped_weight(weight as int + removed_weight as int - 1),
{
    let wide = weight as i128 + removed_weight as i128 - 1;
    if wide > JUMP_DISTANCE_LIMIT as i128 {
        JUMP_DISTANCE_LIMIT
    } else if wide < -(JUMP_DISTANCE_LIMIT as i128) {
        -JUMP_DISTANCE_LIMIT
    } else {
        wide as i64
    }
}

} // verus!
