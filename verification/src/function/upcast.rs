use vstd::prelude::*;

use crate::error::LunifyError;
use crate::instruction::lua51::{operand_value, sat_add, spec_sat_add, Instruction, Opcode};
use crate::instruction::lua50;
use crate::instruction::operand::{Mode, OperandMode, BC};
use crate::instruction::Settings;
use super::builder::{
    lemma_finalized_destination, spec_adjusted_jump_destination, spec_finalized_instruction,
    spec_max_u8, InstructionBuilder, InstructionContext,
};
use super::constant::{
    constant_for_str, constant_lookup_nil, constant_lookup_str, constant_nil, create_unique,
    spec_find_nil, spec_find_string, Constant,
};
use super::convert::spec_set_list_context;
use super::repage::{redistribute, spec_redistribute};

verus! {

/// Up-cast Lua 5.0 byte code to Lua 5.1 byte code: re-tag the opcodes that
/// both versions share, lower `FORLOOP`, `TFORLOOP` and `TFORPREP` to
/// sequences with Lua 5.1 semantics, re-page `SETLIST`/`SETLISTO` batches
/// to the output's flush count, and materialise the `arg` table of a
/// variadic function.
pub fn upcast(
    instructions: Vec<lua50::Instruction>,
    line_info: Vec<i64>,
    constants: &mut Vec<Constant>,
    maximum_stack_size: &mut u8,
    parameter_count: u8,
    is_variadic: bool,
    settings: &Settings,
) -> (result: Result<(Vec<Instruction>, Vec<i64>), LunifyError>)
    requires
        settings.wf(),
    ensures
        result matches Err(error) ==> !(error is IncorrectSignature),
        result matches Ok(pair) ==> {
            &&& pair.0@.len() == pair.1@.len()
            &&& forall|i: int|
                0 <= i < pair.0@.len() ==> ((#[trigger] pair.0@[i]).spec_stack_destination() matches Some(
                    destination,
                ) ==> (destination.1 + 1 <= settings.output.stack_limit && destination.1 + 1
                    <= *final(maximum_stack_size)))
            &&& *final(maximum_stack_size) >= *old(maximum_stack_size)
            &&& *final(maximum_stack_size) <= spec_max_u8(
                *old(maximum_stack_size),
                settings.output.stack_limit as u8,
            )
        },
        // A function whose rewrite depends on the constant pool at most
        // through its size (everything but the multi-variable `TFORLOOP`
        // and `TFORPREP` lowerings, whose constants are looked up by
        // content) is pinned end to end: the fold of the per-instruction
        // mirror, the variadic prologue when one applies, the first
        // failure of fold and retargeting scan, and on success the exact
        // retargeted output with its line map.
        (line_info@.len() == instructions@.len() && (forall|i: int|
            0 <= i < instructions@.len() ==> spec_is_pool_simple(#[trigger] instructions@[i])))
            ==> (match spec_upcast_simple_contexts(
            Seq::empty(),
            Seq::empty(),
            old(constants)@.len() as int,
            settings.output.spec_maximum_constant_index() as int,
            instructions@,
            line_info@,
            *settings,
        ) {
            Err(step_error) => result == Err::<(Vec<Instruction>, Vec<i64>), LunifyError>(step_error),
            Ok((folded_contexts, folded_lines, folded_length)) => ({
                let with_prologue = is_variadic && folded_contexts.len() >= 1;
                let contexts = if with_prologue {
                    spec_variadic_prologue(parameter_count) + folded_contexts
                } else {
                    folded_contexts
                };
                let lines = if with_prologue {
                    seq![folded_lines[0], folded_lines[0], folded_lines[0], folded_lines[0]]
                        + folded_lines
                } else {
                    folded_lines
                };
                &&& final(constants)@.len() == folded_length
                &&& match super::builder::spec_finalize_error(
                    contexts,
                    settings.output.stack_limit,
                    0,
                ) {
                    Some(finalize_error) => result == Err::<(Vec<Instruction>, Vec<i64>), LunifyError>(
                        finalize_error,
                    ),
                    None => result matches Ok(pair) && pair.1@ == lines && pair.0@.len()
                        == contexts.len() && (forall|i: int|
                        0 <= i < contexts.len() ==> spec_finalized_instruction(contexts, i) == Ok::<
                            Instruction,
                            LunifyError,
                        >(#[trigger] pair.0@[i])),
                }
            }),
        }),
        // A function whose instructions all re-tag one for one comes out
        // as exactly the re-tagged sequence — prefixed, when the function
        // is variadic, by the `local arg = {...}` prologue at positions 0
        // to 3 — with every non-fixed jump retargeted over the resulting
        // line weights (for the non-variadic case all zero, which by
        // `lemma_jump_destination_unchanged` keeps every in-range jump
        // distance).
        (line_info@.len() == instructions@.len() && (forall|i: int|
            0 <= i < instructions@.len() ==> spec_is_plain_retag(#[trigger] instructions@[i])))
            ==> (result matches Ok(pair) ==> {
            let mapped = spec_plain_retag_contexts(instructions@);
            let with_prologue = instructions@.len() >= 1 && is_variadic;
            let contexts = if with_prologue {
                spec_variadic_prologue(parameter_count) + mapped
            } else {
                mapped
            };
            let lines = if with_prologue {
                seq![line_info@[0], line_info@[0], line_info@[0], line_info@[0]] + line_info@
            } else {
                line_info@
            };
            &&& pair.0@.len() == contexts.len()
            &&& pair.1@ == lines
            &&& forall|i: int|
                0 <= i < contexts.len() ==> spec_finalized_instruction(contexts, i) == Ok::<
                    Instruction,
                    LunifyError,
                >(#[trigger] pair.0@[i])
        }),
{
    let mut builder = InstructionBuilder::new();

    let count = if instructions.len() <= line_info.len() {
        instructions.len()
    } else {
        line_info.len()
    };
    let ghost all_plain = forall|i: int|
        0 <= i < instructions@.len() ==> spec_is_plain_retag(#[trigger] instructions@[i]);
    let ghost lengths_match = line_info@.len() == instructions@.len();
    let ghost all_simple = forall|i: int|
        0 <= i < instructions@.len() ==> spec_is_pool_simple(#[trigger] instructions@[i]);
    let ghost maximum_index = settings.output.spec_maximum_constant_index() as int;
    let ghost simple_fold = spec_upcast_simple_contexts(
        Seq::empty(),
        Seq::empty(),
        old(constants)@.len() as int,
        maximum_index,
        instructions@,
        line_info@,
        *settings,
    );
    proof {
        if lengths_match && all_simple {
            assert(instructions@.skip(0) =~= instructions@);
            assert(line_info@.skip(0) =~= line_info@);
            assert(builder.contexts() =~= Seq::<InstructionContext>::empty());
            assert(builder.line_info() =~= Seq::<i64>::empty());
        }
    }
    let mut index: usize = 0;
    while index < count
        invariant
            settings.wf(),
            builder.wf(),
            count <= instructions@.len(),
            count <= line_info@.len(),
            index <= count,
            all_plain == (forall|i: int|
                0 <= i < instructions@.len() ==> spec_is_plain_retag(#[trigger] instructions@[i])),
            lengths_match == (line_info@.len() == instructions@.len()),
            lengths_match ==> count == instructions@.len(),
            all_simple == (forall|i: int|
                0 <= i < instructions@.len() ==> spec_is_pool_simple(#[trigger] instructions@[i])),
            maximum_index == settings.output.spec_maximum_constant_index() as int,
            simple_fold == spec_upcast_simple_contexts(
                Seq::empty(),
                Seq::empty(),
                old(constants)@.len() as int,
                maximum_index,
                instructions@,
                line_info@,
                *settings,
            ),
            (lengths_match && all_simple) ==> simple_fold == spec_upcast_simple_contexts(
                builder.contexts(),
                builder.line_info(),
                constants@.len() as int,
                maximum_index,
                instructions@.skip(index as int),
                line_info@.skip(index as int),
                *settings,
            ),
            all_plain && count == instructions@.len() ==> builder.contexts()
                == spec_plain_retag_contexts(instructions@).take(index as int),
            all_plain && count == instructions@.len() ==> builder.line_info() == line_info@.take(
                index as int,
            ),
        decreases count - index,
    {
        let instruction = instructions[index];
        builder.set_line_number(line_info[index]);
        proof {
            if lengths_match && all_simple {
                assert(instructions@.skip(index as int)[0] == instructions@[index as int]);
                assert(line_info@.skip(index as int)[0] == line_info@[index as int]);
                assert(instructions@.skip(index as int).skip(1) =~= instructions@.skip(index as int + 1));
                assert(line_info@.skip(index as int).skip(1) =~= line_info@.skip(index as int + 1));
            }
        }
        let ghost step_contexts = builder.contexts();
        let ghost step_lines = builder.line_info();
        let ghost step_pool_length = constants@.len() as int;
        match upcast_instruction(&mut builder, constants, instruction, settings) {
            Ok(()) => {},
            Err(error) => {
                proof {
                    if lengths_match && all_simple {
                        assert(spec_upcast_simple_step(
                            step_contexts,
                            step_lines,
                            step_pool_length,
                            maximum_index,
                            line_info@[index as int],
                            instruction,
                            *settings,
                        ) == Err::<(Seq<InstructionContext>, Seq<i64>, int), LunifyError>(error));
                    }
                }
                return Err(error);
            },
        }
        proof {
            if lengths_match && all_simple {
                assert(spec_upcast_simple_step(
                    step_contexts,
                    step_lines,
                    step_pool_length,
                    maximum_index,
                    line_info@[index as int],
                    instruction,
                    *settings,
                ) == Ok::<(Seq<InstructionContext>, Seq<i64>, int), LunifyError>(
                    (builder.contexts(), builder.line_info(), constants@.len() as int),
                ));
            }
            if all_plain && count == instructions@.len() {
                assert(builder.contexts() =~= spec_plain_retag_contexts(instructions@).take(
                    index + 1,
                ));
                assert(builder.line_info() =~= line_info@.take(index + 1));
            }
        }
        index += 1;
    }
    proof {
        if all_plain && count == instructions@.len() {
            assert(builder.contexts() =~= spec_plain_retag_contexts(instructions@));
            if count == line_info@.len() {
                assert(builder.line_info() =~= line_info@);
            }
        }
        if lengths_match && all_simple {
            assert(instructions@.skip(count as int) =~= Seq::<lua50::Instruction>::empty());
            assert(simple_fold == Ok::<(Seq<InstructionContext>, Seq<i64>, int), LunifyError>(
                (builder.contexts(), builder.line_info(), constants@.len() as int),
            ));
        }
    }
    let ghost body_contexts = builder.contexts();
    let ghost body_lines = builder.line_info();

    // Lua 5.0 used to collect variadic arguments in a table stored in a
    // local variable `arg`. Lua 5.1 does things differently, so for
    // variadic functions insert the equivalent of `local arg = {...}` at
    // the very beginning, where the stack above the arguments is still
    // free.
    if is_variadic && builder.get_program_counter() >= 1 {
        let arg_stack_position = parameter_count as u64;

        // Create a new empty table to hold our arguments.
        builder.insert_extra_instruction(
            0,
            Instruction {
                opcode: Opcode::NewTable,
                a: arg_stack_position + 1,
                mode: Mode::BC(BC(OperandMode::Unused, OperandMode::Unused)),
            },
        );

        // Push all variadic arguments onto the stack.
        builder.insert_extra_instruction(
            1,
            Instruction {
                opcode: Opcode::VarArg,
                a: arg_stack_position + 2,
                mode: Mode::BC(BC(OperandMode::Generic(0), OperandMode::Unused)),
            },
        );

        // Add all values from the stack to the table.
        builder.insert_extra_instruction(
            2,
            Instruction {
                opcode: Opcode::SetList,
                a: arg_stack_position + 1,
                mode: Mode::BC(BC(OperandMode::Generic(0), OperandMode::Generic(1))),
            },
        );

        // Move the table to the location of the argument.
        builder.insert_extra_instruction(
            3,
            Instruction {
                opcode: Opcode::Move,
                a: arg_stack_position,
                mode: Mode::BC(BC(OperandMode::Register(arg_stack_position + 1), OperandMode::Unused)),
            },
        );
    }

    proof {
        if is_variadic && body_contexts.len() >= 1 {
            assert(builder.contexts() =~= spec_variadic_prologue(parameter_count) + body_contexts);
            assert(builder.line_info() =~= seq![
                body_lines[0],
                body_lines[0],
                body_lines[0],
                body_lines[0],
            ] + body_lines);
        }
    }

    let ghost contexts = builder.contexts();
    let pair = builder.finalize(maximum_stack_size, settings)?;
    proof {
        assert forall|i: int|
            0 <= i < pair.0@.len() implies ((#[trigger] pair.0@[i]).spec_stack_destination() matches Some(
            destination,
        ) ==> destination.1 + 1 <= settings.output.stack_limit && destination.1 + 1
            <= *final(maximum_stack_size)) by {
            lemma_finalized_destination(contexts, i);
        }
    }
    Ok(pair)
}

/// The Lua 5.1 opcode that a Lua 5.0 opcode re-tags to one for one.
pub open spec fn spec_upcast_opcode(opcode: lua50::Opcode) -> Opcode {
    match opcode {
        lua50::Opcode::Move => Opcode::Move,
        lua50::Opcode::LoadK => Opcode::LoadK,
        lua50::Opcode::LoadBool => Opcode::LoadBool,
        lua50::Opcode::LoadNil => Opcode::LoadNil,
        lua50::Opcode::GetUpValue => Opcode::GetUpValue,
        lua50::Opcode::GetGlobal => Opcode::GetGlobal,
        lua50::Opcode::GetTable => Opcode::GetTable,
        lua50::Opcode::SetGlobal => Opcode::SetGlobal,
        lua50::Opcode::SetUpValue => Opcode::SetUpValue,
        lua50::Opcode::SetTable => Opcode::SetTable,
        lua50::Opcode::NewTable => Opcode::NewTable,
        lua50::Opcode::_Self => Opcode::_Self,
        lua50::Opcode::Add => Opcode::Add,
        lua50::Opcode::Subtract => Opcode::Subtract,
        lua50::Opcode::Multiply => Opcode::Multiply,
        lua50::Opcode::Divide => Opcode::Divide,
        lua50::Opcode::Power => Opcode::Power,
        lua50::Opcode::Unary => Opcode::Unary,
        lua50::Opcode::Not => Opcode::Not,
        lua50::Opcode::Concatinate => Opcode::Concatinate,
        lua50::Opcode::Jump => Opcode::Jump,
        lua50::Opcode::Equals => Opcode::Equals,
        lua50::Opcode::LessThan => Opcode::LessThan,
        lua50::Opcode::LessEquals => Opcode::LessEquals,
        lua50::Opcode::Test => Opcode::TestSet,
        lua50::Opcode::Call => Opcode::Call,
        lua50::Opcode::TailCall => Opcode::TailCall,
        lua50::Opcode::Return => Opcode::Return,
        lua50::Opcode::ForLoop => Opcode::ForLoop,
        lua50::Opcode::TForLoop => Opcode::TForLoop,
        lua50::Opcode::TForPrep => Opcode::Jump,
        lua50::Opcode::SetList => Opcode::SetList,
        lua50::Opcode::SetListO => Opcode::SetList,
        lua50::Opcode::Close => Opcode::Close,
        lua50::Opcode::Closure => Opcode::Closure,
    }
}

/// The Lua 5.1 opcode that a Lua 5.0 opcode re-tags to one for one. The
/// opcodes with non-local rewrites (`Test`, `ForLoop`, `TForLoop`,
/// `TForPrep`, `SetList`, `SetListO`) are handled separately and re-tag to
/// their nearest relative here only as a fallback for operand shapes that
/// no decoder produces.
fn upcast_opcode(opcode: lua50::Opcode) -> (result: Opcode)
    ensures
        result == spec_upcast_opcode(opcode),
{
    match opcode {
        lua50::Opcode::Move => Opcode::Move,
        lua50::Opcode::LoadK => Opcode::LoadK,
        lua50::Opcode::LoadBool => Opcode::LoadBool,
        lua50::Opcode::LoadNil => Opcode::LoadNil,
        lua50::Opcode::GetUpValue => Opcode::GetUpValue,
        lua50::Opcode::GetGlobal => Opcode::GetGlobal,
        lua50::Opcode::GetTable => Opcode::GetTable,
        lua50::Opcode::SetGlobal => Opcode::SetGlobal,
        lua50::Opcode::SetUpValue => Opcode::SetUpValue,
        lua50::Opcode::SetTable => Opcode::SetTable,
        lua50::Opcode::NewTable => Opcode::NewTable,
        lua50::Opcode::_Self => Opcode::_Self,
        lua50::Opcode::Add => Opcode::Add,
        lua50::Opcode::Subtract => Opcode::Subtract,
        lua50::Opcode::Multiply => Opcode::Multiply,
        lua50::Opcode::Divide => Opcode::Divide,
        lua50::Opcode::Power => Opcode::Power,
        lua50::Opcode::Unary => Opcode::Unary,
        lua50::Opcode::Not => Opcode::Not,
        lua50::Opcode::Concatinate => Opcode::Concatinate,
        lua50::Opcode::Jump => Opcode::Jump,
        lua50::Opcode::Equals => Opcode::Equals,
        lua50::Opcode::LessThan => Opcode::LessThan,
        lua50::Opcode::LessEquals => Opcode::LessEquals,
        lua50::Opcode::Test => Opcode::TestSet,
        lua50::Opcode::Call => Opcode::Call,
        lua50::Opcode::TailCall => Opcode::TailCall,
        lua50::Opcode::Return => Opcode::Return,
        lua50::Opcode::ForLoop => Opcode::ForLoop,
        lua50::Opcode::TForLoop => Opcode::TForLoop,
        lua50::Opcode::TForPrep => Opcode::Jump,
        lua50::Opcode::SetList => Opcode::SetList,
        lua50::Opcode::SetListO => Opcode::SetList,
        lua50::Opcode::Close => Opcode::Close,
        lua50::Opcode::Closure => Opcode::Closure,
    }
}

/// Make room for one more constant: the pool may not grow past the
/// output's maximum constant index, so that every use of the new constant
/// can still be encoded in a B or C operand.
fn ensure_constant_room(constants: &Vec<Constant>, settings: &Settings) -> (result: Result<
    (),
    LunifyError,
>)
    requires
        settings.wf(),
    ensures
        result is Ok <==> constants@.len() <= settings.output.spec_maximum_constant_index(),
        result is Ok ==> constants@.len() < 0x10000000000000,
        result is Err ==> result == Err::<(), LunifyError>(
            LunifyError::TooManyConstants(constants@.len() as u64),
        ),
        settings.output.spec_maximum_constant_index() < 0x100000000,
{
    proof {
        let size = settings.output.layout.b.size;
        assert(1u64 <= (1u64 << ((size - 1) as u64)) <= 0x80000000) by (bit_vector)
            requires 1 <= size <= 32,
        ;
    }
    let maximum_constant_index = settings.output.get_maximum_constant_index();
    if constants.len() as u64 > maximum_constant_index {
        return Err(LunifyError::TooManyConstants(constants.len() as u64));
    }
    Ok(())
}

/// Whether an instruction's rewrite leaves the constant pool alone:
/// everything except the `FORLOOP`, multi-variable `TFORLOOP` and
/// `TFORPREP` lowerings, which mint or look up constants.
pub open spec fn spec_is_poolless(instruction: lua50::Instruction) -> bool {
    match (instruction.opcode, instruction.mode) {
        (lua50::Opcode::ForLoop, Mode::SignedBx(_)) => false,
        (lua50::Opcode::TForPrep, Mode::SignedBx(_)) => false,
        (lua50::Opcode::TForLoop, Mode::BC(BC(_, c))) => crate::instruction::lua51::spec_operand_value(
            c,
        ) == 0,
        _ => true,
    }
}

/// Whether an instruction's rewrite depends on the constant pool at most
/// through its size: the pool-untouching instructions plus the `FORLOOP`
/// lowering, whose fresh global takes the next pool position.
pub open spec fn spec_is_pool_simple(instruction: lua50::Instruction) -> bool {
    ||| spec_is_poolless(instruction)
    ||| (instruction.opcode == lua50::Opcode::ForLoop && instruction.mode matches Mode::SignedBx(_))
}

/// The effect of up-casting one pool-simple instruction: like
/// [`spec_upcast_poolless_step`], with the `FORLOOP` lowering minting the
/// constant at `pool_length` and growing the pool by one.
pub open spec fn spec_upcast_simple_step(
    contexts: Seq<InstructionContext>,
    lines: Seq<i64>,
    pool_length: int,
    maximum: int,
    line_number: i64,
    instruction: lua50::Instruction,
    settings: crate::instruction::Settings,
) -> Result<(Seq<InstructionContext>, Seq<i64>, int), LunifyError>
    recommends
        spec_is_pool_simple(instruction),
{
    match (instruction.opcode, instruction.mode) {
        (lua50::Opcode::ForLoop, Mode::SignedBx(bx)) => if pool_length > maximum {
            Err(LunifyError::TooManyConstants(pool_length as u64))
        } else {
            let staged = spec_for_loop_staged(contexts, instruction.a, bx, pool_length as u64);
            let staged_lines = lines.push(line_number).push(line_number);
            match spec_adjusted_jump_destination(staged, bx as int) {
                Err(walk_error) => Err(walk_error),
                Ok(position) => Ok(
                    (
                        staged.insert(
                            position as int,
                            spec_for_loop_restore(instruction.a, pool_length as u64),
                        ),
                        staged_lines.insert(position as int, staged_lines[position as int]),
                        pool_length + 1,
                    ),
                ),
            }
        },
        _ => match spec_upcast_poolless_step(contexts, lines, line_number, instruction, settings) {
            Err(error) => Err(error),
            Ok((next_contexts, next_lines)) => Ok((next_contexts, next_lines, pool_length)),
        },
    }
}

/// The upcaster's whole pass over a pool-simple instruction sequence,
/// before the variadic prologue and the jump retargeting.
pub open spec fn spec_upcast_simple_contexts(
    contexts: Seq<InstructionContext>,
    lines: Seq<i64>,
    pool_length: int,
    maximum: int,
    instructions: Seq<lua50::Instruction>,
    line_info: Seq<i64>,
    settings: crate::instruction::Settings,
) -> Result<(Seq<InstructionContext>, Seq<i64>, int), LunifyError>
    decreases instructions.len(),
{
    if instructions.len() == 0 {
        Ok((contexts, lines, pool_length))
    } else {
        match spec_upcast_simple_step(
            contexts,
            lines,
            pool_length,
            maximum,
            line_info[0],
            instructions[0],
            settings,
        ) {
            Err(error) => Err(error),
            Ok((next_contexts, next_lines, next_length)) => spec_upcast_simple_contexts(
                next_contexts,
                next_lines,
                next_length,
                maximum,
                instructions.skip(1),
                line_info.skip(1),
                settings,
            ),
        }
    }
}

/// The effect of up-casting one pool-untouching instruction on the
/// builder: re-tag, `TEST` to `TESTSET`, single-variable `TFORLOOP`, or a
/// `SETLIST`/`SETLISTO` re-page.
pub open spec fn spec_upcast_poolless_step(
    contexts: Seq<InstructionContext>,
    lines: Seq<i64>,
    line_number: i64,
    instruction: lua50::Instruction,
    settings: crate::instruction::Settings,
) -> Result<(Seq<InstructionContext>, Seq<i64>), LunifyError>
    recommends
        spec_is_poolless(instruction),
{
    match (instruction.opcode, instruction.mode) {
        (lua50::Opcode::SetList, Mode::Bx(bx)) => spec_upcast_set_list(
            contexts,
            lines,
            line_number,
            instruction.a,
            bx,
            false,
            settings,
        ),
        (lua50::Opcode::SetListO, Mode::Bx(bx)) => spec_upcast_set_list(
            contexts,
            lines,
            line_number,
            instruction.a,
            bx,
            true,
            settings,
        ),
        (lua50::Opcode::Test, Mode::BC(BC(b, c))) => Ok(
            (
                contexts.push(
                    InstructionContext::spec_new(
                        Instruction {
                            opcode: Opcode::TestSet,
                            a: instruction.a,
                            mode: Mode::BC(
                                BC(
                                    OperandMode::ConstantRegister(
                                        crate::instruction::lua51::spec_operand_value(b),
                                        false,
                                    ),
                                    c,
                                ),
                            ),
                        },
                    ),
                ),
                lines.push(line_number),
            ),
        ),
        (lua50::Opcode::TForLoop, Mode::BC(_)) => Ok(
            (
                contexts.push(
                    InstructionContext::spec_new(
                        Instruction {
                            opcode: Opcode::TForLoop,
                            a: instruction.a,
                            mode: Mode::BC(BC(OperandMode::Unused, OperandMode::Generic(1))),
                        },
                    ),
                ),
                lines.push(line_number),
            ),
        ),
        _ => Ok(
            (
                contexts.push(
                    InstructionContext::spec_new(
                        Instruction {
                            opcode: spec_upcast_opcode(instruction.opcode),
                            a: instruction.a,
                            mode: instruction.mode,
                        },
                    ),
                ),
                lines.push(line_number),
            ),
        ),
    }
}

/// The builder contexts that re-tagging a plain instruction sequence one
/// for one produces: every entry carries line weight zero.
pub open spec fn spec_plain_retag_contexts(instructions: Seq<lua50::Instruction>) -> Seq<
    InstructionContext,
> {
    Seq::new(
        instructions.len(),
        |i: int|
            InstructionContext::spec_new(
                Instruction {
                    opcode: spec_upcast_opcode(instructions[i].opcode),
                    a: instructions[i].a,
                    mode: instructions[i].mode,
                },
            ),
    )
}

/// Whether an instruction is re-tagged one for one: everything except the
/// opcodes with non-local rewrites in their decoded operand shapes.
pub open spec fn spec_is_plain_retag(instruction: lua50::Instruction) -> bool {
    match (instruction.opcode, instruction.mode) {
        (lua50::Opcode::Test, Mode::BC(_)) => false,
        (lua50::Opcode::ForLoop, Mode::SignedBx(_)) => false,
        (lua50::Opcode::TForLoop, Mode::BC(_)) => false,
        (lua50::Opcode::TForPrep, Mode::SignedBx(_)) => false,
        (lua50::Opcode::SetList, Mode::Bx(_)) => false,
        (lua50::Opcode::SetListO, Mode::Bx(_)) => false,
        _ => true,
    }
}

/// Look up a string constant, appending it only when it is absent and
/// the pool still has room: only an allocation can fail with
/// `TooManyConstants`.
fn constant_for_str_checked(
    constants: &mut Vec<Constant>,
    constant_str: &[u8],
    settings: &Settings,
) -> (result: Result<u64, LunifyError>)
    requires
        settings.wf(),
    ensures
        result matches Err(error) ==> !(error is IncorrectSignature),
        ({
            let zero_terminated = constant_str@ + seq![0u8];
            match spec_find_string(old(constants)@, zero_terminated) {
                Some(index) => result == Ok::<u64, LunifyError>(index as u64) && final(constants)@
                    == old(constants)@,
                None => if old(constants)@.len() > settings.output.spec_maximum_constant_index() {
                    result == Err::<u64, LunifyError>(
                        LunifyError::TooManyConstants(old(constants)@.len() as u64),
                    ) && final(constants)@ == old(constants)@
                } else {
                    result == Ok::<u64, LunifyError>(old(constants)@.len() as u64)
                        && final(constants)@ == old(constants)@.push(
                        final(constants)@[old(constants)@.len() as int],
                    ) && final(constants)@[old(constants)@.len() as int].spec_is_string(
                        zero_terminated,
                    )
                },
            }
        }),
{
    if let Some(existing) = constant_lookup_str(constants, constant_str) {
        return Ok(existing);
    }
    ensure_constant_room(constants, settings)?;
    Ok(constant_for_str(constants, constant_str))
}

/// Look up the nil constant, appending it only when it is absent and the
/// pool still has room.
fn constant_nil_checked(constants: &mut Vec<Constant>, settings: &Settings) -> (result: Result<
    u64,
    LunifyError,
>)
    requires
        settings.wf(),
    ensures
        result matches Err(error) ==> !(error is IncorrectSignature),
        match spec_find_nil(old(constants)@) {
            Some(index) => result == Ok::<u64, LunifyError>(index as u64)
                && final(constants)@ == old(constants)@,
            None => if old(constants)@.len() > settings.output.spec_maximum_constant_index() {
                result == Err::<u64, LunifyError>(
                    LunifyError::TooManyConstants(old(constants)@.len() as u64),
                ) && final(constants)@ == old(constants)@
            } else {
                result == Ok::<u64, LunifyError>(old(constants)@.len() as u64) && final(constants)@
                    == old(constants)@.push(Constant::Nil)
            },
        },
{
    if let Some(existing) = constant_lookup_nil(constants) {
        return Ok(existing);
    }
    ensure_constant_room(constants, settings)?;
    Ok(constant_nil(constants))
}

/// The `local arg = {...}` prologue a variadic function gets at positions
/// 0 to 3: collect the variadic arguments into a fresh table and move it
/// onto the `arg` slot.
pub open spec fn spec_variadic_prologue(parameter_count: u8) -> Seq<InstructionContext> {
    let arg_stack_position = parameter_count as u64;
    seq![
        InstructionContext::spec_new_extra(
            Instruction {
                opcode: Opcode::NewTable,
                a: (arg_stack_position + 1) as u64,
                mode: Mode::BC(BC(OperandMode::Unused, OperandMode::Unused)),
            },
        ),
        InstructionContext::spec_new_extra(
            Instruction {
                opcode: Opcode::VarArg,
                a: (arg_stack_position + 2) as u64,
                mode: Mode::BC(BC(OperandMode::Generic(0), OperandMode::Unused)),
            },
        ),
        InstructionContext::spec_new_extra(
            Instruction {
                opcode: Opcode::SetList,
                a: (arg_stack_position + 1) as u64,
                mode: Mode::BC(BC(OperandMode::Generic(0), OperandMode::Generic(1))),
            },
        ),
        InstructionContext::spec_new_extra(
            Instruction {
                opcode: Opcode::Move,
                a: arg_stack_position,
                mode: Mode::BC(BC(OperandMode::Register((arg_stack_position + 1) as u64), OperandMode::Unused)),
            },
        ),
    ]
}

/// One of the moves that copy the iterator call's results back onto the
/// control-variable slots.
pub open spec fn spec_t_for_loop_move(a: u64, call_base: u64, k: u64) -> InstructionContext {
    InstructionContext::spec_new_extra(
        Instruction {
            opcode: Opcode::Move,
            a: spec_sat_add(spec_sat_add(a, k), 2),
            mode: Mode::BC(
                BC(OperandMode::Register(spec_sat_add(call_base, k)), OperandMode::Unused),
            ),
        },
    )
}

/// The sequence the multi-variable `TFORLOOP` lowering appends: move the
/// iterator triple to a fresh call base, call it, move the results back
/// onto the control-variable slots (highest first), load nil and compare
/// the control variable against it.
pub open spec fn spec_t_for_loop_contexts(a: u64, c_value: u64, nil_index: u64) -> Seq<
    InstructionContext,
> {
    let variable_count = spec_sat_add(c_value, 1);
    let call_base = spec_sat_add(spec_sat_add(a, variable_count), 2);
    seq![
        InstructionContext::spec_new(
            Instruction {
                opcode: Opcode::Move,
                a: call_base,
                mode: Mode::BC(BC(OperandMode::Register(a), OperandMode::Unused)),
            },
        ),
        InstructionContext::spec_new_extra(
            Instruction {
                opcode: Opcode::Move,
                a: spec_sat_add(call_base, 1),
                mode: Mode::BC(BC(OperandMode::Register(spec_sat_add(a, 1)), OperandMode::Unused)),
            },
        ),
        InstructionContext::spec_new_extra(
            Instruction {
                opcode: Opcode::Move,
                a: spec_sat_add(call_base, 2),
                mode: Mode::BC(BC(OperandMode::Register(spec_sat_add(a, 2)), OperandMode::Unused)),
            },
        ),
        InstructionContext::spec_new_extra(
            Instruction {
                opcode: Opcode::Call,
                a: call_base,
                mode: Mode::BC(
                    BC(
                        OperandMode::Generic(3),
                        OperandMode::Generic(spec_sat_add(variable_count, 1)),
                    ),
                ),
            },
        ),
    ] + Seq::new(
        variable_count as nat,
        |i: int| spec_t_for_loop_move(a, call_base, (variable_count - 1 - i) as u64),
    ) + seq![
        InstructionContext::spec_new_extra(
            Instruction { opcode: Opcode::LoadK, a: call_base, mode: Mode::Bx(nil_index) },
        ),
        InstructionContext::spec_new_extra(
            Instruction {
                opcode: Opcode::Equals,
                a: 0,
                mode: Mode::BC(
                    BC(
                        OperandMode::ConstantRegister(spec_sat_add(a, 2), false),
                        OperandMode::ConstantRegister(call_base, false),
                    ),
                ),
            },
        ),
    ]
}

/// The effect of re-paging one Lua 5.0 `SETLIST`/`SETLISTO` batch (whose
/// Bx operand stores the flat index of its last element), mirrored step
/// for step; see [`spec_redistribute`] for the merge of the previous
/// batch.
pub open spec fn spec_upcast_set_list(
    contexts: Seq<InstructionContext>,
    lines: Seq<i64>,
    line_number: i64,
    a: u64,
    bx: u64,
    is_open: bool,
    settings: crate::instruction::Settings,
) -> Result<(Seq<InstructionContext>, Seq<i64>), LunifyError> {
    if bx == 0xFFFFFFFFFFFFFFFF {
        Err(LunifyError::ValueTooBigForOperand)
    } else {
        let flat_index = (bx + 1) as u64;
        let page = flat_index / settings.output.fields_per_flush;
        let new_b: u64 = if is_open {
            0
        } else {
            flat_index % settings.output.fields_per_flush
        };
        let smaller_flush = if settings.lua50.fields_per_flush <= settings.output.fields_per_flush {
            settings.lua50.fields_per_flush
        } else {
            settings.output.fields_per_flush
        };
        if page == 0 && flat_index <= smaller_flush {
            Ok((contexts.push(spec_set_list_context(a, new_b, 1)), lines.push(line_number)))
        } else {
            match spec_redistribute(contexts, lines, a, settings.output.fields_per_flush) {
                Err(error) => Err(error),
                Ok((merged_contexts, merged_lines)) => if page == 0xFFFFFFFFFFFFFFFF {
                    Err(LunifyError::ValueTooBigForOperand)
                } else {
                    Ok(
                        (
                            merged_contexts.push(spec_set_list_context(a, new_b, (page + 1) as u64)),
                            merged_lines.push(line_number),
                        ),
                    )
                },
            }
        }
    }
}

/// The two instructions the `FORLOOP` lowering appends before it fixes
/// the landing point: the save of RA+3 into the fresh global `k`, and the
/// loop instruction itself, marked to land one instruction early.
pub open spec fn spec_for_loop_staged(
    contexts: Seq<InstructionContext>,
    a: u64,
    bx: i64,
    k: u64,
) -> Seq<InstructionContext> {
    contexts.push(
        InstructionContext::spec_new(
            Instruction {
                opcode: Opcode::SetGlobal,
                a: spec_sat_add(a, 3),
                mode: Mode::Bx(k),
            },
        ),
    ).push(
        InstructionContext {
            final_offset: -1i64,
            ..InstructionContext::spec_new_extra(
                Instruction { opcode: Opcode::ForLoop, a, mode: Mode::SignedBx(bx) },
            )
        },
    )
}

/// The restore of RA+3 from the fresh global `k`, inserted at the loop's
/// landing point.
pub open spec fn spec_for_loop_restore(a: u64, k: u64) -> InstructionContext {
    InstructionContext::spec_new_extra(
        Instruction { opcode: Opcode::GetGlobal, a: spec_sat_add(a, 3), mode: Mode::Bx(k) },
    )
}

/// Up-cast a single Lua 5.0 instruction, appending its Lua 5.1 form (or
/// lowered sequence) to the builder.
#[verifier::rlimit(50)]
fn upcast_instruction(
    builder: &mut InstructionBuilder,
    constants: &mut Vec<Constant>,
    instruction: lua50::Instruction,
    settings: &Settings,
) -> (result: Result<(), LunifyError>)
    requires
        old(builder).wf(),
        settings.wf(),
    ensures
        result matches Err(error) ==> !(error is IncorrectSignature),
        result is Ok ==> final(builder).wf(),
        // The `FORLOOP` lowering is pinned exactly: save RA+3 into a fresh
        // global (the next constant index), append the loop with a landing
        // offset of minus one, and insert the restore at the retargeted
        // landing point; the pool grows by the one minted constant.
        instruction.mode matches Mode::SignedBx(bx) ==> (instruction.opcode == lua50::Opcode::ForLoop
            ==> ({
            let k = old(constants)@.len() as u64;
            let staged = spec_for_loop_staged(
                old(builder).contexts(),
                instruction.a,
                bx,
                k,
            );
            let staged_lines = old(builder).line_info().push(old(builder).line_number()).push(
                old(builder).line_number(),
            );
            &&& old(constants)@.len() > settings.output.spec_maximum_constant_index()
                ==> result == Err::<(), LunifyError>(
                LunifyError::TooManyConstants(old(constants)@.len() as u64),
            )
            &&& old(constants)@.len() <= settings.output.spec_maximum_constant_index() ==> {
                &&& final(constants)@.len() == old(constants)@.len() + 1
                &&& match spec_adjusted_jump_destination(staged, bx as int) {
                    Err(walk_error) => result == Err::<(), LunifyError>(walk_error),
                    Ok(position) => result is Ok && final(builder).contexts() == staged.insert(
                        position as int,
                        spec_for_loop_restore(instruction.a, k),
                    ) && final(builder).line_info() == staged_lines.insert(
                        position as int,
                        staged_lines[position as int],
                    ),
                }
            }
        })),
        // Both `SETLIST` forms are re-paged exactly as the mirror says,
        // `SETLISTO` with its open-ended B of zero.
        instruction.mode matches Mode::Bx(bx) ==> (instruction.opcode == lua50::Opcode::SetList
            ==> final(constants)@ == old(constants)@ && (match spec_upcast_set_list(
            old(builder).contexts(),
            old(builder).line_info(),
            old(builder).line_number(),
            instruction.a,
            bx,
            false,
            *settings,
        ) {
            Ok((contexts, lines)) => result is Ok && final(builder).contexts() == contexts
                && final(builder).line_info() == lines,
            Err(repage_error) => result == Err::<(), LunifyError>(repage_error),
        })),
        instruction.mode matches Mode::Bx(bx) ==> (instruction.opcode == lua50::Opcode::SetListO
            ==> final(constants)@ == old(constants)@ && (match spec_upcast_set_list(
            old(builder).contexts(),
            old(builder).line_info(),
            old(builder).line_number(),
            instruction.a,
            bx,
            true,
            *settings,
        ) {
            Ok((contexts, lines)) => result is Ok && final(builder).contexts() == contexts
                && final(builder).line_info() == lines,
            Err(repage_error) => result == Err::<(), LunifyError>(repage_error),
        })),
        // `TEST` becomes `TESTSET` with its B operand a plain register,
        // and a single-variable `TFORLOOP` maps directly with the Lua 5.1
        // variable count of one.
        instruction.mode matches Mode::BC(BC(b, c)) ==> (instruction.opcode == lua50::Opcode::Test
            ==> (result is Ok && final(constants)@ == old(constants)@
            && final(builder).contexts() == old(builder).contexts().push(
            super::builder::InstructionContext::spec_new(
                Instruction {
                    opcode: Opcode::TestSet,
                    a: instruction.a,
                    mode: Mode::BC(
                        BC(
                            OperandMode::ConstantRegister(
                                crate::instruction::lua51::spec_operand_value(b),
                                false,
                            ),
                            c,
                        ),
                    ),
                },
            ),
        ) && final(builder).line_info() == old(builder).line_info().push(old(builder).line_number()))),
        instruction.mode matches Mode::BC(BC(b, c)) ==> ((instruction.opcode == lua50::Opcode::TForLoop
            && crate::instruction::lua51::spec_operand_value(c) == 0) ==> (result is Ok
            && final(constants)@ == old(constants)@
            && final(builder).contexts() == old(builder).contexts().push(
            super::builder::InstructionContext::spec_new(
                Instruction {
                    opcode: Opcode::TForLoop,
                    a: instruction.a,
                    mode: Mode::BC(BC(OperandMode::Unused, OperandMode::Generic(1))),
                },
            ),
        ) && final(builder).line_info() == old(builder).line_info().push(old(builder).line_number()))),
        // The multi-variable `TFORLOOP` lowering is pinned exactly; its
        // nil constant is looked up, appended only when absent and the
        // pool has room.
        instruction.mode matches Mode::BC(BC(b, c)) ==> ((instruction.opcode == lua50::Opcode::TForLoop
            && crate::instruction::lua51::spec_operand_value(c) > 0) ==> ({
            let c_value = crate::instruction::lua51::spec_operand_value(c);
            let run_length = spec_sat_add(c_value, 1) + 6;
            let pinned_run = |nil_index: u64|
                {
                    &&& result is Ok
                    &&& final(builder).contexts() == old(builder).contexts()
                        + spec_t_for_loop_contexts(instruction.a, c_value, nil_index)
                    &&& final(builder).line_info() == old(builder).line_info() + Seq::new(
                        run_length as nat,
                        |i: int| old(builder).line_number(),
                    )
                };
            match spec_find_nil(old(constants)@) {
                Some(nil_index) => final(constants)@ == old(constants)@ && pinned_run(
                    nil_index as u64,
                ),
                None => if old(constants)@.len() > settings.output.spec_maximum_constant_index() {
                    result == Err::<(), LunifyError>(
                        LunifyError::TooManyConstants(old(constants)@.len() as u64),
                    )
                } else {
                    final(constants)@ == old(constants)@.push(Constant::Nil) && pinned_run(
                        old(constants)@.len() as u64,
                    )
                },
            }
        })),
        // A shared opcode is re-tagged one for one, with its A operand and
        // mode kept, under the line number most recently set.
        spec_is_plain_retag(instruction) ==> (result is Ok && final(constants)@ == old(constants)@
            && final(builder).contexts() == old(
            builder,
        ).contexts().push(
            super::builder::InstructionContext::spec_new(
                Instruction {
                    opcode: spec_upcast_opcode(instruction.opcode),
                    a: instruction.a,
                    mode: instruction.mode,
                },
            ),
        ) && final(builder).line_info() == old(builder).line_info().push(old(builder).line_number())),
{
    let a = instruction.a;
    match (instruction.opcode, instruction.mode) {
        (lua50::Opcode::Test, Mode::BC(BC(b, c))) => {
            // Lua 5.0 `TEST` corresponds to Lua 5.1 `TESTSET`, whose B
            // operand is a plain register.
            builder.instruction(
                Instruction {
                    opcode: Opcode::TestSet,
                    a,
                    mode: Mode::BC(BC(OperandMode::ConstantRegister(operand_value(b), false), c)),
                },
            );
            Ok(())
        },
        (lua50::Opcode::ForLoop, Mode::SignedBx(bx)) => {
            // Lua 5.1 additionally writes the loop induction variable to
            // RA+3, which Lua 5.0 does not. Save RA+3 to a fresh global
            // before the loop instruction and restore it at the loop's
            // landing point.
            ensure_constant_room(constants, settings)?;
            let global_constant = create_unique(constants, builder.get_program_counter());

            // Instruction to save RA+3.
            builder.instruction(
                Instruction { opcode: Opcode::SetGlobal, a: sat_add(a, 3), mode: Mode::Bx(global_constant) },
            );

            // The original instruction. A restore instruction will be
            // inserted just before the landing point, so the retargeted
            // jump has to land one instruction earlier.
            builder.extra_instruction(
                Instruction { opcode: Opcode::ForLoop, a, mode: Mode::SignedBx(bx) },
            );
            builder.last_instruction_offset(-1);

            proof {
                assert(builder.contexts() =~= spec_for_loop_staged(
                    old(builder).contexts(),
                    a,
                    bx,
                    (old(constants)@.len() as u64),
                ));
            }

            // Take the *adjusted* landing position, because instructions
            // may have been added or removed inside the loop body, which
            // would make the original distance invalid.
            let position = builder.adjusted_jump_destination(bx)?;

            // Instruction to restore RA+3 once the loop is entered. A Lua
            // 5.0 numeric for begins with a forward JMP onto the FORLOOP
            // instruction, so the restore always runs after the save.
            builder.insert_extra_instruction(
                position,
                Instruction { opcode: Opcode::GetGlobal, a: sat_add(a, 3), mode: Mode::Bx(global_constant) },
            );
            Ok(())
        },
        (lua50::Opcode::TForLoop, Mode::BC(BC(b, c))) => {
            let c_value = operand_value(c);
            let ghost operand_value_ghost = c_value;
            if c_value == 0 {
                // With a single loop variable the instruction maps
                // directly; Lua 5.1 encodes the variable count in C.
                builder.instruction(
                    Instruction {
                        opcode: Opcode::TForLoop,
                        a,
                        mode: Mode::BC(BC(OperandMode::Unused, OperandMode::Generic(1))),
                    },
                );
                return Ok(());
            }

            // Lua 5.0 `TFORLOOP` moves multiple results below the call
            // base itself; Lua 5.1 moves only one. Lower the instruction
            // to an explicit call at a fresh call base followed by moves
            // back onto the control-variable slots.
            let variable_count = sat_add(c_value, 1);
            let call_base = sat_add(sat_add(a, variable_count), 2);
            let constant_nil_index = constant_nil_checked(constants, settings)?;

            // Move the iterator function, the state and the control
            // variable to the call base.
            builder.instruction(
                Instruction {
                    opcode: Opcode::Move,
                    a: call_base,
                    mode: Mode::BC(BC(OperandMode::Register(a), OperandMode::Unused)),
                },
            );
            builder.extra_instruction(
                Instruction {
                    opcode: Opcode::Move,
                    a: sat_add(call_base, 1),
                    mode: Mode::BC(BC(OperandMode::Register(sat_add(a, 1)), OperandMode::Unused)),
                },
            );
            builder.extra_instruction(
                Instruction {
                    opcode: Opcode::Move,
                    a: sat_add(call_base, 2),
                    mode: Mode::BC(BC(OperandMode::Register(sat_add(a, 2)), OperandMode::Unused)),
                },
            );

            // Call the iterator function.
            builder.extra_instruction(
                Instruction {
                    opcode: Opcode::Call,
                    a: call_base,
                    mode: Mode::BC(
                        BC(OperandMode::Generic(3), OperandMode::Generic(sat_add(variable_count, 1))),
                    ),
                },
            );

            // Move the results of the call back onto the control-variable
            // slots at A+2 and upwards.
            let ghost after_call_contexts = builder.contexts();
            let ghost after_call_lines = builder.line_info();
            let ghost move_line = builder.line_number();
            let mut remaining = variable_count;
            while remaining > 0
                invariant
                    builder.wf(),
                    remaining <= variable_count,
                    call_base == spec_sat_add(spec_sat_add(a, variable_count), 2),
                    builder.line_number() == move_line,
                    builder.contexts() == after_call_contexts + Seq::new(
                        (variable_count - remaining) as nat,
                        |i: int| spec_t_for_loop_move(a, call_base, (variable_count - 1 - i) as u64),
                    ),
                    builder.line_info() == after_call_lines + Seq::new(
                        (variable_count - remaining) as nat,
                        |i: int| move_line,
                    ),
                decreases remaining,
            {
                remaining = remaining - 1;
                builder.extra_instruction(
                    Instruction {
                        opcode: Opcode::Move,
                        a: sat_add(sat_add(a, remaining), 2),
                        mode: Mode::BC(
                            BC(OperandMode::Register(sat_add(call_base, remaining)), OperandMode::Unused),
                        ),
                    },
                );
                proof {
                    assert(builder.contexts() =~= after_call_contexts + Seq::new(
                        (variable_count - remaining) as nat,
                        |i: int| spec_t_for_loop_move(a, call_base, (variable_count - 1 - i) as u64),
                    ));
                    assert(builder.line_info() =~= after_call_lines + Seq::new(
                        (variable_count - remaining) as nat,
                        |i: int| move_line,
                    ));
                }
            }

            // Load nil onto the stack instead of using the constant in the
            // comparison directly, to stay clear of the maximum constant
            // index of the B and C operands.
            builder.extra_instruction(
                Instruction { opcode: Opcode::LoadK, a: call_base, mode: Mode::Bx(constant_nil_index) },
            );

            // The control variable sits at A+2; as soon as it is nil the
            // iteration is over. The following JMP of the source program
            // repeats the loop and is retargeted as usual.
            builder.extra_instruction(
                Instruction {
                    opcode: Opcode::Equals,
                    a: 0,
                    mode: Mode::BC(
                        BC(
                            OperandMode::ConstantRegister(sat_add(a, 2), false),
                            OperandMode::ConstantRegister(call_base, false),
                        ),
                    ),
                },
            );
            proof {
                assert(builder.contexts() =~= old(builder).contexts() + spec_t_for_loop_contexts(
                    a,
                    operand_value_ghost,
                    constant_nil_index,
                ));
                assert(builder.line_info() =~= old(builder).line_info() + Seq::new(
                    (spec_sat_add(operand_value_ghost, 1) + 6) as nat,
                    |i: int| old(builder).line_number(),
                ));
            }
            Ok(())
        },
        (lua50::Opcode::TForPrep, Mode::SignedBx(bx)) => {
            upcast_t_for_prep(builder, constants, a, bx, settings)
        },
        (lua50::Opcode::SetList, Mode::Bx(bx)) => {
            upcast_set_list(builder, a, bx, false, settings)
        },
        (lua50::Opcode::SetListO, Mode::Bx(bx)) => {
            upcast_set_list(builder, a, bx, true, settings)
        },
        (opcode, mode) => {
            builder.instruction(Instruction { opcode: upcast_opcode(opcode), a, mode });
            Ok(())
        },
    }
}

/// The index a string lookup-or-append hands out: the constant's position
/// when the pool holds it, the pool's size otherwise.
pub open spec fn spec_lookup_or_append_index(pool: Seq<Constant>, zero_terminated: Seq<u8>) -> int {
    match spec_find_string(pool, zero_terminated) {
        Some(index) => index,
        None => pool.len() as int,
    }
}

/// The pool size after a string lookup-or-append: one larger exactly when
/// the constant was absent.
pub open spec fn spec_lookup_or_append_length(pool: Seq<Constant>, zero_terminated: Seq<u8>) -> int {
    if spec_find_string(pool, zero_terminated) is Some {
        pool.len() as int
    } else {
        pool.len() as int + 1
    }
}

/// The NUL-terminated bytes of `type`.
pub open spec fn spec_type_name() -> Seq<u8> {
    seq![0x74u8, 0x79u8, 0x70u8, 0x65u8, 0u8]
}

/// The NUL-terminated bytes of `table`.
pub open spec fn spec_table_name() -> Seq<u8> {
    seq![0x74u8, 0x61u8, 0x62u8, 0x6Cu8, 0x65u8, 0u8]
}

/// The NUL-terminated bytes of `next`.
pub open spec fn spec_next_name() -> Seq<u8> {
    seq![0x6Eu8, 0x65u8, 0x78u8, 0x74u8, 0u8]
}

/// The thirteen instructions the `TFORPREP` lowering appends, given the
/// constant indices of the two fresh globals and of `type`, `table` and
/// `next`.
pub open spec fn spec_t_for_prep_contexts(
    a: u64,
    bx: i64,
    ra1: u64,
    ra2: u64,
    type_index: u64,
    table_index: u64,
    next_index: u64,
) -> Seq<InstructionContext> {
    seq![
        InstructionContext::spec_new(
            Instruction { opcode: Opcode::SetGlobal, a: spec_sat_add(a, 1), mode: Mode::Bx(ra1) },
        ),
        InstructionContext::spec_new_extra(
            Instruction { opcode: Opcode::SetGlobal, a: spec_sat_add(a, 2), mode: Mode::Bx(ra2) },
        ),
        InstructionContext::spec_new_extra(
            Instruction { opcode: Opcode::GetGlobal, a: spec_sat_add(a, 1), mode: Mode::Bx(type_index) },
        ),
        InstructionContext::spec_new_extra(
            Instruction {
                opcode: Opcode::Move,
                a: spec_sat_add(a, 2),
                mode: Mode::BC(BC(OperandMode::Register(a), OperandMode::Unused)),
            },
        ),
        InstructionContext::spec_new_extra(
            Instruction {
                opcode: Opcode::Call,
                a: spec_sat_add(a, 1),
                mode: Mode::BC(BC(OperandMode::Generic(2), OperandMode::Generic(2))),
            },
        ),
        InstructionContext::spec_new_extra(
            Instruction { opcode: Opcode::LoadK, a: spec_sat_add(a, 2), mode: Mode::Bx(table_index) },
        ),
        InstructionContext::spec_new_extra(
            Instruction {
                opcode: Opcode::Equals,
                a: 0,
                mode: Mode::BC(
                    BC(
                        OperandMode::ConstantRegister(spec_sat_add(a, 1), false),
                        OperandMode::ConstantRegister(spec_sat_add(a, 2), false),
                    ),
                ),
            },
        ),
        InstructionContext {
            is_fixed: true,
            ..InstructionContext::spec_new_extra(
                Instruction { opcode: Opcode::Jump, a, mode: Mode::SignedBx(2) },
            )
        },
        InstructionContext::spec_new_extra(
            Instruction { opcode: Opcode::SetGlobal, a, mode: Mode::Bx(ra1) },
        ),
        InstructionContext::spec_new_extra(
            Instruction { opcode: Opcode::GetGlobal, a, mode: Mode::Bx(next_index) },
        ),
        InstructionContext::spec_new_extra(
            Instruction { opcode: Opcode::GetGlobal, a: spec_sat_add(a, 1), mode: Mode::Bx(ra1) },
        ),
        InstructionContext::spec_new_extra(
            Instruction { opcode: Opcode::GetGlobal, a: spec_sat_add(a, 2), mode: Mode::Bx(ra2) },
        ),
        InstructionContext::spec_new_extra(
            Instruction { opcode: Opcode::Jump, a, mode: Mode::SignedBx(bx) },
        ),
    ]
}

/// Lower Lua 5.0 `TFORPREP`, which Lua 5.1 has no equivalent of: probe
/// whether RA holds a table, and if so arrange `next` as the iterator
/// function, saving and restoring the neighbouring slots through fresh
/// globals.
#[verifier::rlimit(100)]
fn upcast_t_for_prep(
    builder: &mut InstructionBuilder,
    constants: &mut Vec<Constant>,
    a: u64,
    bx: i64,
    settings: &Settings,
) -> (result: Result<(), LunifyError>)
    requires
        old(builder).wf(),
        settings.wf(),
    ensures
        result matches Err(error) ==> !(error is IncorrectSignature),
        result is Ok ==> final(builder).wf(),
        // The lowering is pinned exactly: two fresh globals at the next
        // two pool positions, the three well-known strings looked up or
        // appended, and the thirteen-instruction sequence over those
        // indices; a pool past the maximum constant index fails the next
        // allocation.
        ({
            let pool = final(constants)@;
            let first_length = old(constants)@.len() as int;
            let maximum = settings.output.spec_maximum_constant_index() as int;
            &&& first_length > maximum ==> result == Err::<(), LunifyError>(
                LunifyError::TooManyConstants(old(constants)@.len() as u64),
            )
            &&& first_length <= maximum ==> {
                &&& pool.take(first_length) == old(constants)@
                &&& pool.len() >= first_length + 1
                &&& first_length + 1 > maximum ==> result == Err::<(), LunifyError>(
                    LunifyError::TooManyConstants((first_length + 1) as u64),
                )
                &&& first_length + 1 <= maximum ==> ({
                    let second_pool = pool.take(first_length + 2);
                    let type_index = spec_lookup_or_append_index(second_pool, spec_type_name());
                    let type_fails = spec_find_string(second_pool, spec_type_name()) is None
                        && second_pool.len() > maximum;
                    &&& pool.len() >= first_length + 2
                    &&& type_fails ==> result == Err::<(), LunifyError>(
                        LunifyError::TooManyConstants(second_pool.len() as u64),
                    )
                    &&& !type_fails ==> ({
                        let third_pool = pool.take(
                            spec_lookup_or_append_length(second_pool, spec_type_name()),
                        );
                        let table_index = spec_lookup_or_append_index(third_pool, spec_table_name());
                        let table_fails = spec_find_string(third_pool, spec_table_name()) is None
                            && third_pool.len() > maximum;
                        &&& table_fails ==> result == Err::<(), LunifyError>(
                            LunifyError::TooManyConstants(third_pool.len() as u64),
                        )
                        &&& !table_fails ==> ({
                            let fourth_pool = pool.take(
                                spec_lookup_or_append_length(third_pool, spec_table_name()),
                            );
                            let next_index = spec_lookup_or_append_index(fourth_pool, spec_next_name());
                            let next_fails = spec_find_string(fourth_pool, spec_next_name()) is None
                                && fourth_pool.len() > maximum;
                            &&& next_fails ==> result == Err::<(), LunifyError>(
                                LunifyError::TooManyConstants(fourth_pool.len() as u64),
                            )
                            &&& !next_fails ==> (result is Ok && final(builder).contexts() == old(
                                builder,
                            ).contexts() + spec_t_for_prep_contexts(
                                a,
                                bx,
                                first_length as u64,
                                (first_length + 1) as u64,
                                type_index as u64,
                                table_index as u64,
                                next_index as u64,
                            ) && final(builder).line_info() == old(builder).line_info() + Seq::new(
                                13,
                                |i: int| old(builder).line_number(),
                            ))
                        })
                    })
                })
            }
        }),
{
    // Globals for saving RA+1 and RA+2.
    let program_counter = builder.get_program_counter();
    ensure_constant_room(constants, settings)?;
    let ra1_constant = create_unique(constants, program_counter);
    let ghost pool_after_first = constants@;
    match ensure_constant_room(constants, settings) {
        Ok(()) => {},
        Err(error) => {
            proof {
                assert(constants@.take(old(constants)@.len() as int) =~= old(constants)@);
            }
            return Err(error);
        },
    }
    let ra2_constant = create_unique(
        constants,
        if program_counter < usize::MAX {
            program_counter + 1
        } else {
            program_counter
        },
    );

    let ghost pool_after_mints = constants@;
    proof {
        assert(constants@.take(old(constants)@.len() as int) =~= old(constants)@);
        assert(constants@.take(old(constants)@.len() as int + 2) =~= pool_after_mints);
    }
    proof {
        assert(([0x74u8, 0x79u8, 0x70u8, 0x65u8])@ + seq![0u8] =~= spec_type_name());
        assert(([0x74u8, 0x61u8, 0x62u8, 0x6Cu8, 0x65u8])@ + seq![0u8] =~= spec_table_name());
        assert(([0x6Eu8, 0x65u8, 0x78u8, 0x74u8])@ + seq![0u8] =~= spec_next_name());
    }
    let type_global_constant = match constant_for_str_checked(
        constants,
        &[0x74, 0x79, 0x70, 0x65],
        settings,
    ) {
        Ok(index) => index,
        Err(error) => {
            return Err(error);
        },
    };
    let ghost pool_after_type = constants@;
    proof {
        assert(constants@.take(old(constants)@.len() as int) =~= old(constants)@);
        assert(constants@.take(old(constants)@.len() as int + 2) =~= pool_after_mints);
        assert(constants@.take(pool_after_type.len() as int) =~= pool_after_type);
    }
    let table_global_constant = match constant_for_str_checked(
        constants,
        &[0x74, 0x61, 0x62, 0x6C, 0x65],
        settings,
    ) {
        Ok(index) => index,
        Err(error) => {
            return Err(error);
        },
    };
    let ghost pool_after_table = constants@;
    proof {
        assert(constants@.take(old(constants)@.len() as int) =~= old(constants)@);
        assert(constants@.take(old(constants)@.len() as int + 2) =~= pool_after_mints);
        assert(constants@.take(pool_after_type.len() as int) =~= pool_after_type);
        assert(constants@.take(pool_after_table.len() as int) =~= pool_after_table);
    }
    let next_global_constant = match constant_for_str_checked(
        constants,
        &[0x6E, 0x65, 0x78, 0x74],
        settings,
    ) {
        Ok(index) => index,
        Err(error) => {
            return Err(error);
        },
    };
    proof {
        assert(constants@.take(old(constants)@.len() as int) =~= old(constants)@);
        assert(constants@.take(old(constants)@.len() as int + 2) =~= pool_after_mints);
        assert(constants@.take(pool_after_type.len() as int) =~= pool_after_type);
        assert(constants@.take(pool_after_table.len() as int) =~= pool_after_table);
    }

    // Instructions to save RA+1 and RA+2.
    builder.instruction(
        Instruction { opcode: Opcode::SetGlobal, a: sat_add(a, 1), mode: Mode::Bx(ra1_constant) },
    );
    builder.extra_instruction(
        Instruction { opcode: Opcode::SetGlobal, a: sat_add(a, 2), mode: Mode::Bx(ra2_constant) },
    );

    // Prepare the arguments and call `type` on the value in RA.
    builder.extra_instruction(
        Instruction { opcode: Opcode::GetGlobal, a: sat_add(a, 1), mode: Mode::Bx(type_global_constant) },
    );
    builder.extra_instruction(
        Instruction {
            opcode: Opcode::Move,
            a: sat_add(a, 2),
            mode: Mode::BC(BC(OperandMode::Register(a), OperandMode::Unused)),
        },
    );
    builder.extra_instruction(
        Instruction {
            opcode: Opcode::Call,
            a: sat_add(a, 1),
            mode: Mode::BC(BC(OperandMode::Generic(2), OperandMode::Generic(2))),
        },
    );

    // Load the string "table" to compare the result against.
    builder.extra_instruction(
        Instruction { opcode: Opcode::LoadK, a: sat_add(a, 2), mode: Mode::Bx(table_global_constant) },
    );

    // If RA is not a table, fall through to the restore instructions.
    builder.extra_instruction(
        Instruction {
            opcode: Opcode::Equals,
            a: 0,
            mode: Mode::BC(
                BC(
                    OperandMode::ConstantRegister(sat_add(a, 1), false),
                    OperandMode::ConstantRegister(sat_add(a, 2), false),
                ),
            ),
        },
    );
    // This jump's target is a literal distance over the two fallback
    // instructions; re-emitting must not move it.
    builder.extra_instruction(Instruction { opcode: Opcode::Jump, a, mode: Mode::SignedBx(2) });
    builder.last_instruction_fixed();

    // Not a table: move RA to RA+1 (through its saved global, since RA+1
    // is restored right after) and put the global `next` into RA, exactly
    // like `TFORPREP` does.
    builder.extra_instruction(
        Instruction { opcode: Opcode::SetGlobal, a, mode: Mode::Bx(ra1_constant) },
    );
    builder.extra_instruction(
        Instruction { opcode: Opcode::GetGlobal, a, mode: Mode::Bx(next_global_constant) },
    );

    // Restore RA+1 and RA+2.
    builder.extra_instruction(
        Instruction { opcode: Opcode::GetGlobal, a: sat_add(a, 1), mode: Mode::Bx(ra1_constant) },
    );
    builder.extra_instruction(
        Instruction { opcode: Opcode::GetGlobal, a: sat_add(a, 2), mode: Mode::Bx(ra2_constant) },
    );

    // The original jump onto the loop instruction, retargeted as usual.
    builder.extra_instruction(Instruction { opcode: Opcode::Jump, a, mode: Mode::SignedBx(bx) });
    proof {
        assert(builder.contexts() =~= old(builder).contexts() + spec_t_for_prep_contexts(
            a,
            bx,
            ra1_constant,
            ra2_constant,
            type_global_constant,
            table_global_constant,
            next_global_constant,
        ));
        assert(builder.line_info() =~= old(builder).line_info() + Seq::new(
            13,
            |i: int| old(builder).line_number(),
        ));
    }
    Ok(())
}

/// Re-page one Lua 5.0 `SETLIST`/`SETLISTO` batch (whose Bx operand stores
/// the flat index of its last element) to the output's flush count.
fn upcast_set_list(
    builder: &mut InstructionBuilder,
    a: u64,
    bx: u64,
    is_open: bool,
    settings: &Settings,
) -> (result: Result<(), LunifyError>)
    requires
        old(builder).wf(),
        settings.wf(),
    ensures
        result matches Err(error) ==> !(error is IncorrectSignature),
        result is Ok ==> final(builder).wf(),
        // The batch is re-paged exactly as the mirror says.
        (match spec_upcast_set_list(
            old(builder).contexts(),
            old(builder).line_info(),
            old(builder).line_number(),
            a,
            bx,
            is_open,
            *settings,
        ) {
            Ok((contexts, lines)) => result is Ok && final(builder).contexts() == contexts
                && final(builder).line_info() == lines,
            Err(repage_error) => result == Err::<(), LunifyError>(repage_error),
        }),
{
    let flat_index = match bx.checked_add(1) {
        Some(flat_index) => flat_index,
        None => {
            return Err(LunifyError::ValueTooBigForOperand);
        },
    };
    let page = flat_index / settings.output.fields_per_flush;
    let offset = flat_index % settings.output.fields_per_flush;
    proof {
        let out = settings.output.fields_per_flush;
        if flat_index < out {
            assert(flat_index / out == 0 && flat_index % out == flat_index) by (nonlinear_arith)
                requires flat_index < out, out >= 1,
            ;
        } else {
            assert(flat_index / out >= 1) by (nonlinear_arith)
                requires flat_index >= out, out >= 1,
            ;
        }
    }

    // In Lua 5.1, `SETLISTO` and `SETLIST` became a single instruction; a
    // B of zero stands for the open-ended behaviour.
    let new_b = if is_open {
        0
    } else {
        offset
    };

    let smaller_flush = if settings.lua50.fields_per_flush <= settings.output.fields_per_flush {
        settings.lua50.fields_per_flush
    } else {
        settings.output.fields_per_flush
    };

    // Good case: we are on the first page and the number of entries is
    // smaller than either `LFIELDS_PER_FLUSH`, meaning we can just insert
    // a `SETLIST` instruction without any modification to the previous
    // code.
    if page == 0 && flat_index <= smaller_flush {
        builder.instruction(
            Instruction {
                opcode: Opcode::SetList,
                a,
                mode: Mode::BC(BC(OperandMode::Generic(new_b), OperandMode::Generic(1))),
            },
        );
        return Ok(());
    }

    redistribute(builder, a, settings)?;

    // Append the original instruction.
    let final_page = match page.checked_add(1) {
        Some(final_page) => final_page,
        None => {
            return Err(LunifyError::ValueTooBigForOperand);
        },
    };
    builder.instruction(
        Instruction {
            opcode: Opcode::SetList,
            a,
            mode: Mode::BC(BC(OperandMode::Generic(new_b), OperandMode::Generic(final_page))),
        },
    );
    Ok(())
}

} // verus!
