use vstd::prelude::*;

use crate::error::LunifyError;
use crate::instruction::lua51::{Instruction, Opcode};
use crate::instruction::operand::{Mode, OperandMode, BC};
use crate::instruction::Settings;
use super::builder::{
    lemma_finalized_destination, spec_finalize_error, spec_finalized_instruction, spec_max_u8,
    InstructionBuilder, InstructionContext,
};
use super::repage::spec_redistribute;

verus! {

/// The effect of converting one instruction: a `SETLIST` batch closer
/// with plain operand values is re-paged, everything else is appended as
/// it is, under the given line number.
pub open spec fn spec_convert_step(
    contexts: Seq<InstructionContext>,
    lines: Seq<i64>,
    line_number: i64,
    instruction: Instruction,
    settings: crate::instruction::Settings,
) -> Result<(Seq<InstructionContext>, Seq<i64>), LunifyError> {
    match (instruction.opcode, instruction.mode) {
        (Opcode::SetList, Mode::BC(BC(OperandMode::Generic(b), OperandMode::Generic(c)))) => spec_convert_set_list(
            contexts,
            lines,
            line_number,
            instruction.a,
            b,
            c,
            settings,
        ),
        _ => Ok((contexts.push(InstructionContext::spec_new(instruction)), lines.push(line_number))),
    }
}

/// The converter's whole pass over the instructions, before jumps are
/// retargeted: each instruction converted in order under its line number.
pub open spec fn spec_convert_contexts(
    contexts: Seq<InstructionContext>,
    lines: Seq<i64>,
    instructions: Seq<Instruction>,
    line_info: Seq<i64>,
    settings: crate::instruction::Settings,
) -> Result<(Seq<InstructionContext>, Seq<i64>), LunifyError>
    decreases instructions.len(),
{
    if instructions.len() == 0 {
        Ok((contexts, lines))
    } else {
        match spec_convert_step(contexts, lines, line_info[0], instructions[0], settings) {
            Err(error) => Err(error),
            Ok((next_contexts, next_lines)) => spec_convert_contexts(
                next_contexts,
                next_lines,
                instructions.skip(1),
                line_info.skip(1),
                settings,
            ),
        }
    }
}

/// Convert Lua 5.1 byte code to Lua 5.1 byte code with a different
/// `LFIELDS_PER_FLUSH`: every `SETLIST` batch is re-paged to the output's
/// flush count, and the instructions that feed the table are moved to the
/// stack slots of their new page. With equal flush counts the input is
/// handed back unchanged.
pub fn convert(
    instructions: Vec<Instruction>,
    line_info: Vec<i64>,
    maximum_stack_size: &mut u8,
    settings: &Settings,
) -> (result: Result<(Vec<Instruction>, Vec<i64>), LunifyError>)
    requires
        settings.wf(),
    ensures
        result matches Err(error) ==> !(error is IncorrectSignature),
        settings.lua51.fields_per_flush == settings.output.fields_per_flush ==> result == Ok::<
            (Vec<Instruction>, Vec<i64>),
            LunifyError,
        >((instructions, line_info)),
        settings.lua51.fields_per_flush == settings.output.fields_per_flush ==> *final(maximum_stack_size)
            == *old(maximum_stack_size),
        // With differing flush counts the whole conversion is pinned: the
        // converted context sequence is the fold of the per-instruction
        // mirror, the outcome is decided by its first failure and then by
        // the retargeting scan, and on success every instruction of the
        // output is the retargeted form of its context.
        (settings.lua51.fields_per_flush != settings.output.fields_per_flush && instructions@.len()
            == line_info@.len()) ==> (match spec_convert_contexts(
            Seq::empty(),
            Seq::empty(),
            instructions@,
            line_info@,
            *settings,
        ) {
            Err(convert_error) => result == Err::<(Vec<Instruction>, Vec<i64>), LunifyError>(
                convert_error,
            ),
            Ok((contexts, lines)) => match spec_finalize_error(
                contexts,
                settings.output.stack_limit,
                0,
            ) {
                Some(finalize_error) => result == Err::<(Vec<Instruction>, Vec<i64>), LunifyError>(
                    finalize_error,
                ),
                None => result matches Ok(pair) && pair.1@ == lines && pair.0@.len() == contexts.len()
                    && (forall|i: int|
                    0 <= i < contexts.len() ==> spec_finalized_instruction(contexts, i) == Ok::<
                        Instruction,
                        LunifyError,
                    >(#[trigger] pair.0@[i])),
            },
        }),
        result matches Ok(pair) ==> (settings.lua51.fields_per_flush
            != settings.output.fields_per_flush ==> {
            &&& pair.0@.len() == pair.1@.len()
            &&& forall|i: int|
                0 <= i < pair.0@.len() ==> ((#[trigger] pair.0@[i]).spec_stack_destination() matches Some(
                    destination,
                ) ==> (destination.1 + 1 <= settings.output.stack_limit && destination.1 + 1
                    <= *final(maximum_stack_size)))
            &&& *final(maximum_stack_size) >= *old(maximum_stack_size)
            &&& *final(maximum_stack_size) <= spec_max_u8(
                *old(maximum_stack_size),
                settings.output.stack_limit as u8,
            )
        }),
{
    // If `fields_per_flush` is the same, there is nothing to convert, so
    // return early.
    if settings.lua51.fields_per_flush == settings.output.fields_per_flush {
        return Ok((instructions, line_info));
    }

    let mut builder = InstructionBuilder::new();

    let count = if instructions.len() <= line_info.len() {
        instructions.len()
    } else {
        line_info.len()
    };
    let ghost lengths_match = instructions@.len() == line_info@.len();
    let ghost full = spec_convert_contexts(
        Seq::empty(),
        Seq::empty(),
        instructions@,
        line_info@,
        *settings,
    );
    proof {
        if lengths_match {
            assert(instructions@.skip(0) =~= instructions@);
            assert(line_info@.skip(0) =~= line_info@);
            assert(builder.contexts() =~= Seq::<InstructionContext>::empty());
            assert(builder.line_info() =~= Seq::<i64>::empty());
        }
    }
    let mut index: usize = 0;
    while index < count
        invariant
            settings.wf(),
            settings.lua51.fields_per_flush != settings.output.fields_per_flush,
            builder.wf(),
            count <= instructions@.len(),
            count <= line_info@.len(),
            index <= count,
            lengths_match == (instructions@.len() == line_info@.len()),
            lengths_match ==> count == instructions@.len(),
            full == spec_convert_contexts(
                Seq::empty(),
                Seq::empty(),
                instructions@,
                line_info@,
                *settings,
            ),
            lengths_match ==> full == spec_convert_contexts(
                builder.contexts(),
                builder.line_info(),
                instructions@.skip(index as int),
                line_info@.skip(index as int),
                *settings,
            ),
        decreases count - index,
    {
        let instruction = instructions[index];
        builder.set_line_number(line_info[index]);
        proof {
            if lengths_match {
                assert(instructions@.skip(index as int)[0] == instructions@[index as int]);
                assert(line_info@.skip(index as int)[0] == line_info@[index as int]);
                assert(instructions@.skip(index as int).skip(1) =~= instructions@.skip(index as int + 1));
                assert(line_info@.skip(index as int).skip(1) =~= line_info@.skip(index as int + 1));
            }
        }
        let ghost step_contexts = builder.contexts();
        let ghost step_lines = builder.line_info();

        let handled = match (instruction.opcode, instruction.mode) {
            (Opcode::SetList, Mode::BC(BC(OperandMode::Generic(b), OperandMode::Generic(c)))) => {
                match set_list(&mut builder, instruction.a, b, c, settings) {
                    Ok(()) => {},
                    Err(error) => {
                        proof {
                            if lengths_match {
                                assert(spec_convert_step(
                                    step_contexts,
                                    step_lines,
                                    line_info@[index as int],
                                    instruction,
                                    *settings,
                                ) == Err::<(Seq<InstructionContext>, Seq<i64>), LunifyError>(error));
                            }
                        }
                        return Err(error);
                    },
                }
                true
            },
            _ => false,
        };
        if !handled {
            builder.instruction(instruction);
        }
        proof {
            if lengths_match {
                assert(spec_convert_step(
                    step_contexts,
                    step_lines,
                    line_info@[index as int],
                    instruction,
                    *settings,
                ) == Ok::<(Seq<InstructionContext>, Seq<i64>), LunifyError>(
                    (builder.contexts(), builder.line_info()),
                ));
            }
        }
        index += 1;
    }
    proof {
        if lengths_match {
            assert(instructions@.skip(count as int) =~= Seq::<Instruction>::empty());
            assert(full == Ok::<(Seq<InstructionContext>, Seq<i64>), LunifyError>(
                (builder.contexts(), builder.line_info()),
            ));
        }
    }

    let ghost contexts = builder.contexts();
    let pair = builder.finalize(maximum_stack_size, settings)?;
    proof {
        assert forall|i: int|
            0 <= i < pair.0@.len() implies ((#[trigger] pair.0@[i]).spec_stack_destination() matches Some(
            destination,
        ) ==> destination.1 + 1 <= settings.output.stack_limit && destination.1 + 1
            <= *final(maximum_stack_size)) by {
            lemma_finalized_destination(contexts, i);
        }
    }
    Ok(pair)
}

/// The effect of re-paging one `SETLIST a, BC(b, c)` batch closer,
/// mirrored step for step: the batch's flat element index is re-paged to
/// the output's flush count; a batch that fits the first output page is
/// appended as a single-page closer, anything else first merges the
/// previous batch (see [`spec_redistribute`]) and then appends the
/// closer of the final page.
pub open spec fn spec_convert_set_list(
    contexts: Seq<InstructionContext>,
    lines: Seq<i64>,
    line_number: i64,
    a: u64,
    b: u64,
    c: u64,
    settings: super::super::instruction::Settings,
) -> Result<(Seq<InstructionContext>, Seq<i64>), LunifyError> {
    if c == 0 {
        Err(LunifyError::ValueTooBigForOperand)
    } else if (c - 1) * settings.lua51.fields_per_flush > 0xFFFFFFFFFFFFFFFF {
        Err(LunifyError::ValueTooBigForOperand)
    } else if (c - 1) * settings.lua51.fields_per_flush + b > 0xFFFFFFFFFFFFFFFF {
        Err(LunifyError::ValueTooBigForOperand)
    } else {
        let flat_index = ((c - 1) * settings.lua51.fields_per_flush + b) as u64;
        let page = flat_index / settings.output.fields_per_flush;
        let new_b: u64 = if b == 0 {
            0
        } else {
            flat_index % settings.output.fields_per_flush
        };
        let smaller_flush = if settings.lua51.fields_per_flush <= settings.output.fields_per_flush {
            settings.lua51.fields_per_flush
        } else {
            settings.output.fields_per_flush
        };
        if page == 0 && flat_index <= smaller_flush {
            Ok(
                (
                    contexts.push(spec_set_list_context(a, new_b, 1)),
                    lines.push(line_number),
                ),
            )
        } else {
            match spec_redistribute(contexts, lines, a, settings.output.fields_per_flush) {
                Err(error) => Err(error),
                Ok((merged_contexts, merged_lines)) => if page == 0xFFFFFFFFFFFFFFFF {
                    Err(LunifyError::ValueTooBigForOperand)
                } else {
                    Ok(
                        (
                            merged_contexts.push(spec_set_list_context(a, new_b, (page + 1) as u64)),
                            merged_lines.push(line_number),
                        ),
                    )
                },
            }
        }
    }
}

/// A freshly appended `SETLIST` batch closer.
pub open spec fn spec_set_list_context(a: u64, b: u64, c: u64) -> InstructionContext {
    InstructionContext::spec_new(
        Instruction {
            opcode: Opcode::SetList,
            a,
            mode: Mode::BC(BC(OperandMode::Generic(b), OperandMode::Generic(c))),
        },
    )
}

/// Re-page one `SETLIST a, BC(b, c)` instruction from the input's flush
/// count to the output's. When the batch fits the first output page it is
/// copied; otherwise the previous batch closer is removed and the feeding
/// instructions are redistributed into output-sized pages.
fn set_list(
    builder: &mut InstructionBuilder,
    a: u64,
    b: u64,
    c: u64,
    settings: &Settings,
) -> (result: Result<(), LunifyError>)
    requires
        old(builder).wf(),
        settings.wf(),
        settings.lua51.fields_per_flush != settings.output.fields_per_flush,
    ensures
        result matches Err(error) ==> !(error is IncorrectSignature),
        result is Ok ==> final(builder).wf(),
        // The batch is re-paged exactly as the mirror says.
        (match spec_convert_set_list(
            old(builder).contexts(),
            old(builder).line_info(),
            old(builder).line_number(),
            a,
            b,
            c,
            *settings,
        ) {
            Ok((contexts, lines)) => result is Ok && final(builder).contexts() == contexts
                && final(builder).line_info() == lines,
            Err(repage_error) => result == Err::<(), LunifyError>(repage_error),
        }),
{
    if c == 0 {
        // A batch closer always stores at least one element; a zero page
        // count cannot be re-paged.
        return Err(LunifyError::ValueTooBigForOperand);
    }
    let flat_index = match (c - 1).checked_mul(settings.lua51.fields_per_flush) {
        Some(product) => match product.checked_add(b) {
            Some(sum) => sum,
            None => {
                return Err(LunifyError::ValueTooBigForOperand);
            },
        },
        None => {
            return Err(LunifyError::ValueTooBigForOperand);
        },
    };
    let page = flat_index / settings.output.fields_per_flush;
    let offset = flat_index % settings.output.fields_per_flush;

    // If b was 0 before, we need to keep it that way.
    let new_b = if b == 0 {
        0
    } else {
        offset
    };

    let smaller_flush = if settings.lua51.fields_per_flush <= settings.output.fields_per_flush {
        settings.lua51.fields_per_flush
    } else {
        settings.output.fields_per_flush
    };

    // Good case: we are on the first page and the number of entries is
    // smaller than either `LFIELDS_PER_FLUSH`, meaning we can just insert
    // a `SETLIST` instruction without any modification to the previous
    // code.
    if page == 0 && flat_index <= smaller_flush {
        builder.instruction(
            Instruction {
                opcode: Opcode::SetList,
                a,
                mode: Mode::BC(BC(OperandMode::Generic(new_b), OperandMode::Generic(1))),
            },
        );
        return Ok(());
    }

    super::repage::redistribute(builder, a, settings)?;

    // Append the original instruction.
    let final_page = match page.checked_add(1) {
        Some(final_page) => final_page,
        None => {
            return Err(LunifyError::ValueTooBigForOperand);
        },
    };
    builder.instruction(
        Instruction {
            opcode: Opcode::SetList,
            a,
            mode: Mode::BC(BC(OperandMode::Generic(new_b), OperandMode::Generic(final_page))),
        },
    );
    Ok(())
}

} // verus!
