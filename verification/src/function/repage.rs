use vstd::prelude::*;

use crate::error::LunifyError;
use crate::instruction::lua51::{spec_move_stack, Instruction, Opcode};
use crate::instruction::operand::{Mode, OperandMode, BC};
use crate::instruction::Settings;
use super::builder::{spec_clamped_weight, InstructionBuilder, InstructionContext};

verus! {

/// The position where the table setup for slot `a` starts, scanning
/// backward from `index`: the nearest instruction whose stack destination
/// starts at `a`, or the very first instruction.
pub open spec fn spec_setup_start(contexts: Seq<InstructionContext>, a: u64, index: int) -> int
    decreases index,
{
    if index <= 0 {
        0
    } else if (match contexts[index].instruction.spec_stack_destination() {
        Some(destination) => destination.0 == a,
        None => false,
    }) {
        index
    } else {
        spec_setup_start(contexts, a, index - 1)
    }
}

/// Whether an instruction is a `SETLIST` batch closer with plain operand
/// values, the only shape the re-paging walk rewrites.
pub open spec fn spec_is_batch_closer(instruction: Instruction) -> bool {
    instruction.opcode == Opcode::SetList && (instruction.mode matches Mode::BC(
        BC(OperandMode::Generic(_), OperandMode::Generic(_)),
    ))
}

/// The forward walk of the re-paging rewrite, mirrored step for step:
/// whenever the instruction at `walk_index` writes a slot that, after the
/// running shift, reaches one past the output page, an output-sized batch
/// closer for the current page is inserted before it and the shift drops
/// by a page; otherwise the instruction's stack accesses move by the
/// shift. A shift or page count that leaves its range stops the walk with
/// `ValueTooBigForOperand`.
pub open spec fn spec_repage_walk(
    contexts: Seq<InstructionContext>,
    lines: Seq<i64>,
    a: u64,
    fields_per_flush: u64,
    walk_index: int,
    offset: int,
    page: u64,
) -> Result<(Seq<InstructionContext>, Seq<i64>), LunifyError>
    decreases offset + 0x8000000000000000, contexts.len() - walk_index,
        when -0x7FFFFFFFFFFFFFFF <= offset <= 0x7FFFFFFFFFFFFFFF && fields_per_flush >= 1
{
    if walk_index < 0 || walk_index >= contexts.len() {
        Ok((contexts, lines))
    } else {
        let instruction = contexts[walk_index].instruction;
        let fills_page = match instruction.spec_stack_destination() {
            Some(destination) => offset + destination.0 - 1 == a + fields_per_flush,
            None => false,
        };
        if fills_page {
            let closer = InstructionContext::spec_new_extra(
                Instruction {
                    opcode: Opcode::SetList,
                    a,
                    mode: Mode::BC(
                        BC(OperandMode::Generic(fields_per_flush), OperandMode::Generic(page)),
                    ),
                },
            );
            let inserted_contexts = contexts.insert(walk_index, closer);
            let inserted_lines = lines.insert(walk_index, lines[walk_index]);
            if offset - fields_per_flush < -0x7FFFFFFFFFFFFFFF {
                Err(LunifyError::ValueTooBigForOperand)
            } else if page == 0xFFFFFFFFFFFFFFFF {
                Err(LunifyError::ValueTooBigForOperand)
            } else {
                spec_repage_walk(
                    inserted_contexts,
                    inserted_lines,
                    a,
                    fields_per_flush,
                    walk_index + 1,
                    offset - fields_per_flush,
                    (page + 1) as u64,
                )
            }
        } else {
            let moved = InstructionContext {
                instruction: spec_move_stack(instruction, a, offset as i64),
                ..contexts[walk_index]
            };
            spec_repage_walk(
                contexts.update(walk_index, moved),
                lines,
                a,
                fields_per_flush,
                walk_index + 1,
                offset,
                page,
            )
        }
    }
}

/// The whole re-paging rewrite: find the table setup's start, and when it
/// is the previous batch closer, remove it (its line weight moving onto
/// its successor) and run the forward walk from its position with the
/// closer's element count as the shift and its page count as the page.
/// Anything else is left untouched.
pub open spec fn spec_redistribute(
    contexts: Seq<InstructionContext>,
    lines: Seq<i64>,
    a: u64,
    fields_per_flush: u64,
) -> Result<(Seq<InstructionContext>, Seq<i64>), LunifyError> {
    if contexts.len() < 2 {
        Ok((contexts, lines))
    } else {
        let start = spec_setup_start(contexts, a, contexts.len() - 2);
        match contexts[start].instruction.mode {
            Mode::BC(BC(OperandMode::Generic(closer_b), OperandMode::Generic(closer_c))) => if contexts[start].instruction.opcode
                != Opcode::SetList {
                Ok((contexts, lines))
            } else if start >= contexts.len() - 1 {
                Ok((contexts, lines))
            } else if closer_b > 0x7FFFFFFFFFFFFFFF {
                Err(LunifyError::ValueTooBigForOperand)
            } else {
                let successor = InstructionContext {
                    line_weight: spec_clamped_weight(
                        contexts[start].line_weight + contexts[start + 1].line_weight - 1,
                    ),
                    ..contexts[start + 1]
                };
                spec_repage_walk(
                    contexts.remove(start).update(start, successor),
                    lines.remove(start),
                    a,
                    fields_per_flush,
                    start,
                    closer_b as int,
                    closer_c,
                )
            },
            _ => Ok((contexts, lines)),
        }
    }
}

/// The shared re-paging walk of the `SETLIST` rewrites: search backward
/// for the instruction that starts the table setup, and when it is the
/// previous batch closer, remove it and walk forward again, inserting an
/// output-sized batch closer per filled page and shifting the feeding
/// instructions' stack slots into place; exactly [`spec_redistribute`].
pub fn redistribute(builder: &mut InstructionBuilder, a: u64, settings: &Settings) -> (result: Result<
    (),
    LunifyError,
>)
    requires
        old(builder).wf(),
        settings.wf(),
    ensures
        result matches Err(error) ==> !(error is IncorrectSignature),
        result is Ok ==> final(builder).wf(),
        final(builder).line_number() == old(builder).line_number(),
        // The rewrite is exactly the mirrored walk: see
        // [`spec_redistribute`].
        (match spec_redistribute(
            old(builder).contexts(),
            old(builder).line_info(),
            a,
            settings.output.fields_per_flush,
        ) {
            Ok((contexts, lines)) => result is Ok && final(builder).contexts() == contexts
                && final(builder).line_info() == lines,
            Err(walk_error) => result == Err::<(), LunifyError>(walk_error),
        }),
{
    let program_counter = builder.get_program_counter();
    if program_counter < 2 {
        // Nothing stands between a possible table setup and the batch
        // closer; there is nothing to redistribute.
        return Ok(());
    }
    let ghost out_flush = settings.output.fields_per_flush;

    // Go back until we find some instruction that moves data to a stack
    // position that is the same as our A, because that is where the setup
    // starts. The element on slot A might technically already be on the
    // stack as a parameter of the surrounding call before any instruction
    // ran, so the very first instruction always counts as a start.
    let mut instruction_index = program_counter - 2;
    loop
        invariant
            builder.wf(),
            settings.wf(),
            out_flush == settings.output.fields_per_flush,
            builder == old(builder),
            builder.line_number() == old(builder).line_number(),
            program_counter == builder.contexts().len(),
            instruction_index <= program_counter - 2,
            spec_setup_start(builder.contexts(), a, program_counter - 2) == spec_setup_start(
                builder.contexts(),
                a,
                instruction_index as int,
            ),
        decreases instruction_index,
    {
        let instruction = builder.get_instruction(instruction_index);
        let starts_here = match instruction.stack_destination() {
            Some(destination) => destination.0 == a,
            None => false,
        };

        if starts_here || instruction_index == 0 {
            proof {
                // The scan's answer is this very position.
                assert(spec_setup_start(builder.contexts(), a, instruction_index as int)
                    == instruction_index as int);
                assert(spec_setup_start(old(builder).contexts(), a, program_counter - 2)
                    == instruction_index as int);
            }
            // Should either be `NEWTABLE` or `SETLIST`.
            if let (Opcode::SetList, Mode::BC(BC(OperandMode::Generic(closer_b), OperandMode::Generic(closer_c)))) = (
                instruction.opcode,
                instruction.mode,
            ) {
                if instruction_index >= builder.get_program_counter() - 1 {
                    // The batch closer is the last instruction; nothing
                    // follows that could feed the table.
                    return Ok(());
                }
                let mut offset: i64 = if closer_b <= 0x7FFFFFFFFFFFFFFF {
                    closer_b as i64
                } else {
                    return Err(LunifyError::ValueTooBigForOperand);
                };
                let mut page = closer_c;

                // Remove the `SETLIST` instruction.
                builder.remove_instruction(instruction_index);
                proof {
                    assert(spec_redistribute(
                        old(builder).contexts(),
                        old(builder).line_info(),
                        a,
                        out_flush,
                    ) == spec_repage_walk(
                        builder.contexts(),
                        builder.line_info(),
                        a,
                        out_flush,
                        instruction_index as int,
                        closer_b as int,
                        closer_c,
                    ));
                }

                // Go back up the stack and update the stack positions.
                let mut walk_index = instruction_index;
                while walk_index < builder.get_program_counter()
                    invariant
                        builder.wf(),
                        settings.wf(),
                        out_flush == settings.output.fields_per_flush,
                        builder.line_number() == old(builder).line_number(),
                        -0x7FFFFFFFFFFFFFFF <= offset <= 0x7FFFFFFFFFFFFFFF,
                        spec_redistribute(
                            old(builder).contexts(),
                            old(builder).line_info(),
                            a,
                            out_flush,
                        ) == spec_repage_walk(
                            builder.contexts(),
                            builder.line_info(),
                            a,
                            out_flush,
                            walk_index as int,
                            offset as int,
                            page,
                        ),
                    decreases offset + 0x8000000000000000, builder.contexts().len() - walk_index,
                {
                    let ghost step_contexts = builder.contexts();
                    let ghost step_lines = builder.line_info();
                    let ghost step_offset = offset as int;
                    let ghost step_page = page;
                    let walk_instruction = builder.get_instruction(walk_index);

                    let fills_page = match walk_instruction.stack_destination() {
                        Some(destination) => {
                            let shifted = offset as i128 + destination.0 as i128 - 1;
                            shifted == a as i128 + settings.output.fields_per_flush as i128
                        },
                        None => false,
                    };

                    if fills_page {
                        // Add a new `SETLIST` instruction.
                        builder.insert_extra_instruction(
                            walk_index,
                            Instruction {
                                opcode: Opcode::SetList,
                                a,
                                mode: Mode::BC(
                                    BC(
                                        OperandMode::Generic(settings.output.fields_per_flush),
                                        OperandMode::Generic(page),
                                    ),
                                ),
                            },
                        );

                        let wide_offset = offset as i128 - settings.output.fields_per_flush as i128;
                        if wide_offset < -0x7FFFFFFFFFFFFFFF {
                            proof {
                                assert(spec_repage_walk(
                                    step_contexts,
                                    step_lines,
                                    a,
                                    out_flush,
                                    walk_index as int,
                                    step_offset,
                                    step_page,
                                ) == Err::<(Seq<InstructionContext>, Seq<i64>), LunifyError>(
                                    LunifyError::ValueTooBigForOperand,
                                ));
                            }
                            return Err(LunifyError::ValueTooBigForOperand);
                        }
                        offset = wide_offset as i64;
                        page = match page.checked_add(1) {
                            Some(page) => page,
                            None => {
                                proof {
                                    assert(spec_repage_walk(
                                        step_contexts,
                                        step_lines,
                                        a,
                                        out_flush,
                                        walk_index as int,
                                        step_offset,
                                        step_page,
                                    ) == Err::<(Seq<InstructionContext>, Seq<i64>), LunifyError>(
                                        LunifyError::ValueTooBigForOperand,
                                    ));
                                }
                                return Err(LunifyError::ValueTooBigForOperand);
                            },
                        };
                        proof {
                            assert(spec_repage_walk(
                                step_contexts,
                                step_lines,
                                a,
                                out_flush,
                                walk_index as int,
                                step_offset,
                                step_page,
                            ) == spec_repage_walk(
                                builder.contexts(),
                                builder.line_info(),
                                a,
                                out_flush,
                                walk_index as int + 1,
                                offset as int,
                                page,
                            ));
                        }
                    } else {
                        let mut moved = walk_instruction;
                        moved.move_stack_accesses(a, offset);
                        builder.set_instruction(walk_index, moved);
                        proof {
                            assert(spec_repage_walk(
                                step_contexts,
                                step_lines,
                                a,
                                out_flush,
                                walk_index as int,
                                step_offset,
                                step_page,
                            ) == spec_repage_walk(
                                builder.contexts(),
                                builder.line_info(),
                                a,
                                out_flush,
                                walk_index as int + 1,
                                offset as int,
                                page,
                            ));
                        }
                    }
                    walk_index += 1;
                }
            }

            return Ok(());
        }

        instruction_index -= 1;
    }
}

} // verus!
