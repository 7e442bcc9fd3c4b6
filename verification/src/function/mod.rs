use vstd::prelude::*;

use crate::error::LunifyError;
use crate::format::LuaVersion;
use crate::instruction::{lua50, lua51, InstructionLayout, Settings};
use crate::number::{number_from_word, Number};
use crate::serialization::{
    lemma_append_keeps_prefix, lemma_prefix_transitive, signed_from_word, word_from_bytes, ByteStream,
    ByteWriter,
};

/// Instruction buffer with jump retargeting.
pub mod builder;
/// Constant pool management.
pub mod constant;
/// The Lua 5.1 to Lua 5.1 converter.
pub mod convert;
/// The shared `SETLIST` re-paging walk.
pub mod repage;
/// The Lua 5.0 to Lua 5.1 upcaster.
pub mod upcast;

use builder::spec_max_u8;
use constant::Constant;
use convert::convert;
use upcast::upcast;

verus! {

/// A local variable's scope markers, preserved verbatim.
#[derive(Clone, Debug, PartialEq, Eq)]
pub struct LocalVariable {
    /// The variable's name.
    pub name: Vec<u8>,
    /// The first program counter at which the variable is live.
    pub start_program_counter: i64,
    /// The program counter just past the variable's scope.
    pub end_program_counter: i64,
}

/// A compiled function: code, constants, nested prototypes and debug
/// tables, already rewritten to the Lua 5.1 instruction set.
pub struct Function {
    /// The source path of the chunk.
    pub source_file: Vec<u8>,
    /// The first line of the function's definition.
    pub line_defined: i64,
    /// The last line of the function's definition.
    pub last_line_defined: i64,
    /// The number of fixed parameters.
    pub parameter_count: u8,
    /// The variadic flags.
    pub is_variadic: u8,
    /// The number of stack slots the function needs.
    pub maximum_stack_size: u8,
    /// The instructions, packed for the output layout.
    pub instructions: Vec<u64>,
    /// The constant pool.
    pub constants: Vec<Constant>,
    /// The nested function prototypes.
    pub functions: Vec<Function>,
    /// The local variable scopes.
    pub local_variables: Vec<LocalVariable>,
    /// The line number of each instruction.
    pub line_info: Vec<i64>,
    /// The names of the captured upvalues.
    pub upvalues: Vec<Vec<u8>>,
}

/// The mathematical value of one constant: what [`Constant`] stores, with
/// a string as its byte sequence.
pub enum ConstantValue {
    /// The nil value.
    Nil,
    /// A boolean.
    Boolean(bool),
    /// A number.
    Number(Number),
    /// A string's bytes.
    String(Seq<u8>),
}

impl Constant {
    /// The mathematical value this constant stores.
    pub open spec fn spec_value(&self) -> ConstantValue {
        match self {
            Constant::Nil => ConstantValue::Nil,
            Constant::Boolean(boolean) => ConstantValue::Boolean(*boolean),
            Constant::Number(number) => ConstantValue::Number(*number),
            Constant::String(bytes) => ConstantValue::String(bytes@),
        }
    }
}

/// One constant parsed off the bytes at `offset`: its value and the
/// offset just past it, or the error. `None` stands for a string whose
/// declared length does not fit the address space; what such a read does
/// is left to the byte codec.
pub open spec fn spec_parse_constant(bytes: Seq<u8>, offset: int, format: crate::format::Format) -> Option<
    Result<(ConstantValue, int), LunifyError>,
> {
    if bytes.len() - offset < 1 {
        Some(Err(LunifyError::InputTooShort))
    } else {
        let tag = bytes[offset];
        if tag == 0 {
            Some(Ok((ConstantValue::Nil, offset + 1)))
        } else if tag == 1 {
            if bytes.len() - (offset + 1) < 1 {
                Some(Err(LunifyError::InputTooShort))
            } else {
                Some(Ok((ConstantValue::Boolean(bytes[offset + 1] != 0), offset + 2)))
            }
        } else if tag == 3 {
            let count = format.number_width.byte_count() as int;
            if bytes.len() - (offset + 1) < count {
                Some(Err(LunifyError::InputTooShort))
            } else {
                Some(
                    Ok(
                        (
                            ConstantValue::Number(
                                number_from_word(
                                    word_from_bytes(
                                        bytes.subrange(offset + 1, offset + 1 + count),
                                        format.endianness,
                                    ),
                                    count,
                                    format.is_number_integral,
                                ),
                            ),
                            offset + 1 + count,
                        ),
                    ),
                )
            }
        } else if tag == 4 {
            let count = format.size_t_width.byte_count() as int;
            if bytes.len() - (offset + 1) < count {
                Some(Err(LunifyError::InputTooShort))
            } else {
                let length = signed_from_word(
                    word_from_bytes(bytes.subrange(offset + 1, offset + 1 + count), format.endianness),
                    count,
                );
                if !(0 <= length <= usize::MAX) {
                    None
                } else if bytes.len() - (offset + 1 + count) < length {
                    Some(Err(LunifyError::InputTooShort))
                } else {
                    Some(
                        Ok(
                            (
                                ConstantValue::String(
                                    bytes.subrange(offset + 1 + count, offset + 1 + count + length),
                                ),
                                offset + 1 + count + length,
                            ),
                        ),
                    )
                }
            }
        } else {
            Some(Err(LunifyError::InvalidConstantType(tag)))
        }
    }
}

/// A run of `n` constants parsed off the bytes at `offset`: their values
/// in order and the offset just past them, or the first error.
pub open spec fn spec_parse_constants(
    bytes: Seq<u8>,
    offset: int,
    format: crate::format::Format,
    n: nat,
) -> Option<Result<(Seq<ConstantValue>, int), LunifyError>>
    decreases n,
{
    if n == 0 {
        Some(Ok((Seq::empty(), offset)))
    } else {
        match spec_parse_constant(bytes, offset, format) {
            None => None,
            Some(Err(error)) => Some(Err(error)),
            Some(Ok((constant, next_offset))) => match spec_parse_constants(
                bytes,
                next_offset,
                format,
                (n - 1) as nat,
            ) {
                None => None,
                Some(Err(error)) => Some(Err(error)),
                Some(Ok((rest, end))) => Some(Ok((seq![constant] + rest, end))),
            },
        }
    }
}

/// Parsing `n >= 1` constants is one constant followed by `n - 1` more.
pub proof fn lemma_parse_constants_step(bytes: Seq<u8>, offset: int, format: crate::format::Format, n: nat)
    requires
        n >= 1,
    ensures
        spec_parse_constants(bytes, offset, format, n) == (match spec_parse_constant(bytes, offset, format) {
            None => None,
            Some(Err(error)) => Some(Err(error)),
            Some(Ok((value, next_offset))) => match spec_parse_constants(
                bytes,
                next_offset,
                format,
                (n - 1) as nat,
            ) {
                None => None,
                Some(Err(error)) => Some(Err(error)),
                Some(Ok((rest, end))) => Some(Ok((seq![value] + rest, end))),
            },
        }),
{
}

impl Function {
    /// Read the instruction block of a Lua 5.0 function.
    fn get_instructions_lua50(
        byte_stream: &mut ByteStream,
        settings: &Settings,
        layout: &InstructionLayout,
    ) -> (result: Result<Vec<lua50::Instruction>, LunifyError>)
        requires
            old(byte_stream).wf(),
            layout.wf(),
        ensures
            result matches Err(error) ==> !(error is IncorrectSignature),
            final(byte_stream).wf(),
            final(byte_stream).same_source(old(byte_stream)),
            final(byte_stream).cursor() >= old(byte_stream).cursor(),
            result matches Ok(items) ==> ({
                let count = old(byte_stream).spec_format().integer_width.byte_count() as int;
                let declared = signed_from_word(
                    word_from_bytes(
                        old(byte_stream).chunk(count),
                        old(byte_stream).spec_format().endianness,
                    ),
                    count,
                );
                0 <= declared <= usize::MAX ==> items@.len() == declared
            }),
    {
        let declared_count = byte_stream.integer()?;
        let instruction_count: usize = if declared_count >= 0 && (declared_count as u64) <= (usize::MAX as u64) {
            declared_count as usize
        } else {
            #[verifier::truncate] (declared_count as usize)
        };
        let mut instructions: Vec<lua50::Instruction> = Vec::new();

        let mut index: usize = 0;
        while index < instruction_count
            invariant
                byte_stream.wf(),
                byte_stream.same_source(old(byte_stream)),
                byte_stream.cursor() >= old(byte_stream).cursor(),
                layout.wf(),
                instructions@.len() == index,
                index <= instruction_count,
            decreases instruction_count - index,
        {
            let instruction = lua50::Instruction::from_byte_stream(byte_stream, settings, layout)?;
            instructions.push(instruction);
            index += 1;
        }

        Ok(instructions)
    }

    /// Read the instruction block of a Lua 5.1 function.
    fn get_instructions_lua51(
        byte_stream: &mut ByteStream,
        settings: &Settings,
        layout: &InstructionLayout,
    ) -> (result: Result<Vec<lua51::Instruction>, LunifyError>)
        requires
            old(byte_stream).wf(),
            layout.wf(),
            settings.lua51.layout.wf(),
        ensures
            result matches Err(error) ==> !(error is IncorrectSignature),
            final(byte_stream).wf(),
            final(byte_stream).same_source(old(byte_stream)),
            final(byte_stream).cursor() >= old(byte_stream).cursor(),
            result matches Ok(items) ==> ({
                let count = old(byte_stream).spec_format().integer_width.byte_count() as int;
                let declared = signed_from_word(
                    word_from_bytes(
                        old(byte_stream).chunk(count),
                        old(byte_stream).spec_format().endianness,
                    ),
                    count,
                );
                0 <= declared <= usize::MAX ==> items@.len() == declared
            }),
    {
        let declared_count = byte_stream.integer()?;
        let instruction_count: usize = if declared_count >= 0 && (declared_count as u64) <= (usize::MAX as u64) {
            declared_count as usize
        } else {
            #[verifier::truncate] (declared_count as usize)
        };
        let mut instructions: Vec<lua51::Instruction> = Vec::new();

        let mut index: usize = 0;
        while index < instruction_count
            invariant
                byte_stream.wf(),
                byte_stream.same_source(old(byte_stream)),
                byte_stream.cursor() >= old(byte_stream).cursor(),
                layout.wf(),
                settings.lua51.layout.wf(),
                instructions@.len() == index,
                index <= instruction_count,
            decreases instruction_count - index,
        {
            let instruction = lua51::Instruction::from_byte_stream(byte_stream, settings, layout)?;
            instructions.push(instruction);
            index += 1;
        }

        Ok(instructions)
    }

    /// Read one constant off the stream: its type tag, then its payload.
    fn get_constant(byte_stream: &mut ByteStream) -> (result: Result<Constant, LunifyError>)
        requires
            old(byte_stream).wf(),
        ensures
            result matches Err(error) ==> !(error is IncorrectSignature),
            final(byte_stream).wf(),
            final(byte_stream).same_source(old(byte_stream)),
            final(byte_stream).cursor() >= old(byte_stream).cursor(),
            (match spec_parse_constant(
                old(byte_stream).bytes(),
                old(byte_stream).cursor(),
                old(byte_stream).spec_format(),
            ) {
                None => true,
                Some(Ok((value, end))) => (result matches Ok(constant) && constant.spec_value() == value
                    && final(byte_stream).cursor() == end),
                Some(Err(parse_error)) => result == Err::<Constant, LunifyError>(parse_error),
            }),
    {
        let ghost source = old(byte_stream).bytes();
        let ghost parse_format = old(byte_stream).spec_format();
        let ghost start_cursor = old(byte_stream).cursor();

        let constant_type = byte_stream.byte()?;

        match constant_type {
            0 => Ok(Constant::Nil),
            1 => {
                let boolean = byte_stream.byte()?;
                Ok(Constant::Boolean(boolean != 0))
            },
            3 => {
                let number = byte_stream.number()?;
                proof {
                    let count = parse_format.number_width.byte_count() as int;
                    assert(source.subrange(start_cursor + 1, start_cursor + 1 + count)
                        =~= byte_stream.bytes().subrange(start_cursor + 1, start_cursor + 1 + count));
                }
                Ok(Constant::Number(number))
            },
            4 => {
                let string = byte_stream.string()?;
                proof {
                    let count = parse_format.size_t_width.byte_count() as int;
                    assert(source.subrange(start_cursor + 1, start_cursor + 1 + count)
                        =~= byte_stream.bytes().subrange(start_cursor + 1, start_cursor + 1 + count));
                }
                Ok(Constant::String(string))
            },
            invalid => Err(LunifyError::InvalidConstantType(invalid)),
        }
    }

    /// Read the constant pool of a function: the declared count, then for
    /// each constant a type tag and its payload.
    #[verifier::rlimit(100)]
    pub fn get_constants(byte_stream: &mut ByteStream) -> (result: Result<Vec<Constant>, LunifyError>)
        requires
            old(byte_stream).wf(),
        ensures
            result matches Err(error) ==> !(error is IncorrectSignature),
            final(byte_stream).wf(),
            final(byte_stream).same_source(old(byte_stream)),
            final(byte_stream).cursor() >= old(byte_stream).cursor(),
            result matches Ok(items) ==> ({
                let count = old(byte_stream).spec_format().integer_width.byte_count() as int;
                let declared = signed_from_word(
                    word_from_bytes(
                        old(byte_stream).chunk(count),
                        old(byte_stream).spec_format().endianness,
                    ),
                    count,
                );
                0 <= declared <= usize::MAX ==> items@.len() == declared
            }),
            // The parsed constants are exactly what the byte run at the
            // cursor stores.
            ({
                let count = old(byte_stream).spec_format().integer_width.byte_count() as int;
                let declared = signed_from_word(
                    word_from_bytes(
                        old(byte_stream).chunk(count),
                        old(byte_stream).spec_format().endianness,
                    ),
                    count,
                );
                (old(byte_stream).remaining() >= count && 0 <= declared <= usize::MAX) ==> (
                match spec_parse_constants(
                    old(byte_stream).bytes(),
                    old(byte_stream).cursor() + count,
                    old(byte_stream).spec_format(),
                    declared as nat,
                ) {
                    None => true,
                    Some(Ok((items, end))) => (result matches Ok(got) && got@.map_values(
                        |constant: Constant| constant.spec_value(),
                    ) == items && final(byte_stream).cursor() == end),
                    Some(Err(parse_error)) => result == Err::<Vec<Constant>, LunifyError>(parse_error),
                })
            }),
    {
        let declared_count = byte_stream.integer()?;
        let constant_count: usize = if declared_count >= 0 && (declared_count as u64) <= (usize::MAX as u64) {
            declared_count as usize
        } else {
            #[verifier::truncate] (declared_count as usize)
        };
        let mut constants: Vec<Constant> = Vec::new();

        let ghost source = byte_stream.bytes();
        let ghost parse_format = byte_stream.spec_format();
        let ghost start_cursor = byte_stream.cursor();
        let ghost full = spec_parse_constants(source, start_cursor, parse_format, constant_count as nat);
        let ghost mut values: Seq<ConstantValue> = Seq::empty();

        let mut index: usize = 0;
        while index < constant_count
            invariant
                byte_stream.wf(),
                byte_stream.same_source(old(byte_stream)),
                byte_stream.cursor() >= old(byte_stream).cursor(),
                source == byte_stream.bytes(),
                parse_format == byte_stream.spec_format(),
                constants@.len() == index,
                index <= constant_count,
                values == constants@.map_values(|constant: Constant| constant.spec_value()),
                full == spec_parse_constants(source, start_cursor, parse_format, constant_count as nat),
                ({
                    let count = old(byte_stream).spec_format().integer_width.byte_count() as int;
                    let declared = signed_from_word(
                        word_from_bytes(
                            old(byte_stream).chunk(count),
                            old(byte_stream).spec_format().endianness,
                        ),
                        count,
                    );
                    (old(byte_stream).remaining() >= count && 0 <= declared <= usize::MAX) ==> (
                    start_cursor == old(byte_stream).cursor() + count && constant_count == declared)
                }),
                (match full {
                    None => true,
                    Some(outcome) => match spec_parse_constants(
                        source,
                        byte_stream.cursor(),
                        parse_format,
                        (constant_count - index) as nat,
                    ) {
                        None => false,
                        Some(Ok((rest, end))) => outcome == Ok::<
                            (Seq<ConstantValue>, int),
                            LunifyError,
                        >((values + rest, end)),
                        Some(Err(parse_error)) => outcome == Err::<
                            (Seq<ConstantValue>, int),
                            LunifyError,
                        >(parse_error),
                    },
                }),
            decreases constant_count - index,
        {
            let ghost iter_cursor = byte_stream.cursor();
            let ghost remaining_n = (constant_count - index) as nat;
            proof {
                lemma_parse_constants_step(source, iter_cursor, parse_format, remaining_n);
            }
            let constant = match Self::get_constant(byte_stream) {
                Ok(constant) => constant,
                Err(error) => {
                    return Err(error);
                },
            };

            let ghost previous_values = values;
            constants.push(constant);
            index += 1;
            proof {
                values = values.push(constant.spec_value());
                assert(values =~= constants@.map_values(|constant: Constant| constant.spec_value()));
                if full is Some {
                    match spec_parse_constant(source, iter_cursor, parse_format) {
                        Some(Ok((parsed_value, next_offset))) => {
                            match spec_parse_constants(
                                source,
                                next_offset,
                                parse_format,
                                (remaining_n - 1) as nat,
                            ) {
                                Some(Ok((rest, end))) => {
                                    assert(previous_values + (seq![parsed_value] + rest)
                                        =~= values + rest);
                                },
                                _ => {},
                            }
                        },
                        _ => {},
                    }
                }
            }
        }

        proof {
            if full matches Some(outcome) {
                assert(spec_parse_constants(source, byte_stream.cursor(), parse_format, 0) == Some(
                    Ok::<(Seq<ConstantValue>, int), LunifyError>((Seq::empty(), byte_stream.cursor())),
                ));
                assert(values + Seq::<ConstantValue>::empty() =~= values);
            }
        }
        Ok(constants)
    }

    /// Read the nested function prototypes of a function.
    fn get_functions(
        byte_stream: &mut ByteStream,
        version: LuaVersion,
        settings: &Settings,
    ) -> (result: Result<Vec<Function>, LunifyError>)
        requires
            old(byte_stream).wf(),
            settings.wf(),
        ensures
            result matches Err(error) ==> !(error is IncorrectSignature),
            final(byte_stream).wf(),
            final(byte_stream).same_source(old(byte_stream)),
            final(byte_stream).cursor() >= old(byte_stream).cursor(),
            result matches Ok(items) ==> ({
                let count = old(byte_stream).spec_format().integer_width.byte_count() as int;
                let declared = signed_from_word(
                    word_from_bytes(
                        old(byte_stream).chunk(count),
                        old(byte_stream).spec_format().endianness,
                    ),
                    count,
                );
                0 <= declared <= usize::MAX ==> items@.len() == declared
            }),
        decreases old(byte_stream).remaining(), 0int,
    {
        let declared_count = byte_stream.integer()?;
        let function_count: usize = if declared_count >= 0 && (declared_count as u64) <= (usize::MAX as u64) {
            declared_count as usize
        } else {
            #[verifier::truncate] (declared_count as usize)
        };
        let mut functions: Vec<Function> = Vec::new();

        let mut index: usize = 0;
        while index < function_count
            invariant
                byte_stream.wf(),
                byte_stream.same_source(old(byte_stream)),
                byte_stream.remaining() < old(byte_stream).remaining(),
                settings.wf(),
                functions@.len() == index,
                index <= function_count,
            decreases function_count - index,
        {
            let function = Function::from_byte_stream(byte_stream, version, settings)?;
            functions.push(function);
            index += 1;
        }

        Ok(functions)
    }

    /// Read the local variable scopes of a function.
    fn get_local_variables(byte_stream: &mut ByteStream) -> (result: Result<
        Vec<LocalVariable>,
        LunifyError,
    >)
        requires
            old(byte_stream).wf(),
        ensures
            result matches Err(error) ==> !(error is IncorrectSignature),
            final(byte_stream).wf(),
            final(byte_stream).same_source(old(byte_stream)),
            final(byte_stream).cursor() >= old(byte_stream).cursor(),
            result matches Ok(items) ==> ({
                let count = old(byte_stream).spec_format().integer_width.byte_count() as int;
                let declared = signed_from_word(
                    word_from_bytes(
                        old(byte_stream).chunk(count),
                        old(byte_stream).spec_format().endianness,
                    ),
                    count,
                );
                0 <= declared <= usize::MAX ==> items@.len() == declared
            }),
    {
        let declared_count = byte_stream.integer()?;
        let local_variable_count: usize = if declared_count >= 0 && (declared_count as u64) <= (usize::MAX as u64) {
            declared_count as usize
        } else {
            #[verifier::truncate] (declared_count as usize)
        };
        let mut local_variables: Vec<LocalVariable> = Vec::new();

        let mut index: usize = 0;
        while index < local_variable_count
            invariant
                byte_stream.wf(),
                byte_stream.same_source(old(byte_stream)),
                byte_stream.cursor() >= old(byte_stream).cursor(),
                local_variables@.len() == index,
                index <= local_variable_count,
            decreases local_variable_count - index,
        {
            let name = byte_stream.string()?;
            let start_program_counter = byte_stream.integer()?;
            let end_program_counter = byte_stream.integer()?;
            local_variables.push(LocalVariable { name, start_program_counter, end_program_counter });
            index += 1;
        }

        Ok(local_variables)
    }

    /// Read the per-instruction line numbers of a function.
    fn get_line_info(byte_stream: &mut ByteStream) -> (result: Result<Vec<i64>, LunifyError>)
        requires
            old(byte_stream).wf(),
        ensures
            result matches Err(error) ==> !(error is IncorrectSignature),
            final(byte_stream).wf(),
            final(byte_stream).same_source(old(byte_stream)),
            final(byte_stream).cursor() >= old(byte_stream).cursor(),
            result matches Ok(items) ==> ({
                let count = old(byte_stream).spec_format().integer_width.byte_count() as int;
                let declared = signed_from_word(
                    word_from_bytes(
                        old(byte_stream).chunk(count),
                        old(byte_stream).spec_format().endianness,
                    ),
                    count,
                );
                0 <= declared <= usize::MAX ==> items@.len() == declared
            }),
    {
        let declared_count = byte_stream.integer()?;
        let line_info_count: usize = if declared_count >= 0 && (declared_count as u64) <= (usize::MAX as u64) {
            declared_count as usize
        } else {
            #[verifier::truncate] (declared_count as usize)
        };
        let mut line_info: Vec<i64> = Vec::new();

        let mut index: usize = 0;
        while index < line_info_count
            invariant
                byte_stream.wf(),
                byte_stream.same_source(old(byte_stream)),
                byte_stream.cursor() >= old(byte_stream).cursor(),
                line_info@.len() == index,
                index <= line_info_count,
            decreases line_info_count - index,
        {
            let line = byte_stream.integer()?;
            line_info.push(line);
            index += 1;
        }

        Ok(line_info)
    }

    /// Read the upvalue names of a function.
    fn get_upvalues(byte_stream: &mut ByteStream) -> (result: Result<Vec<Vec<u8>>, LunifyError>)
        requires
            old(byte_stream).wf(),
        ensures
            result matches Err(error) ==> !(error is IncorrectSignature),
            final(byte_stream).wf(),
            final(byte_stream).same_source(old(byte_stream)),
            final(byte_stream).cursor() >= old(byte_stream).cursor(),
            result matches Ok(items) ==> ({
                let count = old(byte_stream).spec_format().integer_width.byte_count() as int;
                let declared = signed_from_word(
                    word_from_bytes(
                        old(byte_stream).chunk(count),
                        old(byte_stream).spec_format().endianness,
                    ),
                    count,
                );
                0 <= declared <= usize::MAX ==> items@.len() == declared
            }),
    {
        let declared_count = byte_stream.integer()?;
        let upvalue_count: usize = if declared_count >= 0 && (declared_count as u64) <= (usize::MAX as u64) {
            declared_count as usize
        } else {
            #[verifier::truncate] (declared_count as usize)
        };
        let mut upvalues: Vec<Vec<u8>> = Vec::new();

        let mut index: usize = 0;
        while index < upvalue_count
            invariant
                byte_stream.wf(),
                byte_stream.same_source(old(byte_stream)),
                byte_stream.cursor() >= old(byte_stream).cursor(),
                upvalues@.len() == index,
                index <= upvalue_count,
            decreases upvalue_count - index,
        {
            let upvalue = byte_stream.string()?;
            upvalues.push(upvalue);
            index += 1;
        }

        Ok(upvalues)
    }

    /// Pack rewritten instructions into words of the output layout.
    fn strip_instructions(instructions: &Vec<lua51::Instruction>, settings: &Settings) -> (result: Result<
        Vec<u64>,
        LunifyError,
    >)
        requires
            settings.wf(),
        ensures
            result matches Err(error) ==> !(error is IncorrectSignature),
            result matches Ok(words) ==> words@.len() == instructions@.len(),
    {
        let mut words: Vec<u64> = Vec::new();
        let mut index: usize = 0;
        while index < instructions.len()
            invariant
                settings.wf(),
                index <= instructions@.len(),
                words@.len() == index,
            decreases instructions@.len() - index,
        {
            let word = instructions[index].to_u64(settings)?;
            words.push(word);
            index += 1;
        }
        Ok(words)
    }

    /// Parse one function prototype off the stream, rewriting its
    /// instructions to the output's Lua 5.1 form on the way: a Lua 5.0
    /// function is up-cast, a Lua 5.1 function is re-paged to the output's
    /// `LFIELDS_PER_FLUSH`.
    pub fn from_byte_stream(
        byte_stream: &mut ByteStream,
        version: LuaVersion,
        settings: &Settings,
    ) -> (result: Result<Function, LunifyError>)
        requires
            old(byte_stream).wf(),
            settings.wf(),
        ensures
            result matches Err(error) ==> !(error is IncorrectSignature),
            final(byte_stream).wf(),
            final(byte_stream).same_source(old(byte_stream)),
            final(byte_stream).cursor() >= old(byte_stream).cursor(),
            result is Ok ==> final(byte_stream).cursor() > old(byte_stream).cursor(),
            result matches Ok(function) ==> (version == LuaVersion::Lua50
                ==> function.line_info@.len() == function.instructions@.len()),
            // The header fields of the prototype are exactly the bytes at
            // the cursor: the size_t-prefixed source path, the defining
            // lines, and the four header bytes; the variadic flags and the
            // maximum stack size answer for the documented rewrites.
            ({
                let s = old(byte_stream).bytes();
                let cursor = old(byte_stream).cursor();
                let parse_format = old(byte_stream).spec_format();
                let size_t_count = parse_format.size_t_width.byte_count() as int;
                let integer_count = parse_format.integer_width.byte_count() as int;
                let source_length = signed_from_word(
                    word_from_bytes(s.subrange(cursor, cursor + size_t_count), parse_format.endianness),
                    size_t_count,
                );
                let lines_offset = cursor + size_t_count + source_length;
                let header_offset = lines_offset + (if version == LuaVersion::Lua51 {
                    2 * integer_count
                } else {
                    integer_count
                });
                (old(byte_stream).remaining() >= size_t_count && 0 <= source_length <= usize::MAX)
                    ==> (result matches Ok(function) ==> {
                    &&& function.source_file@ == s.subrange(
                        cursor + size_t_count,
                        cursor + size_t_count + source_length,
                    )
                    &&& function.line_defined == signed_from_word(
                        word_from_bytes(
                            s.subrange(lines_offset, lines_offset + integer_count),
                            parse_format.endianness,
                        ),
                        integer_count,
                    )
                    &&& version == LuaVersion::Lua50 ==> function.last_line_defined
                        == function.line_defined
                    &&& version == LuaVersion::Lua51 ==> function.last_line_defined == signed_from_word(
                        word_from_bytes(
                            s.subrange(
                                lines_offset + integer_count,
                                lines_offset + 2 * integer_count,
                            ),
                            parse_format.endianness,
                        ),
                        integer_count,
                    )
                    &&& function.parameter_count == s[header_offset + 1]
                    &&& version == LuaVersion::Lua51 ==> function.is_variadic == s[header_offset + 2]
                    &&& version == LuaVersion::Lua50 ==> function.is_variadic == (
                    if s[header_offset + 2] == 0 {
                        0u8
                    } else {
                        s[header_offset + 2] | 2
                    })
                    &&& function.maximum_stack_size >= s[header_offset + 3]
                })
            }),
            // Every prototype of the output respects the output's stack
            // limit; an input that declares a larger stack size is
            // rejected outright.
            result matches Ok(function) ==> function.maximum_stack_size
                <= settings.output.stack_limit,
        decreases old(byte_stream).remaining(), 1int,
    {
        let ghost s = old(byte_stream).bytes();
        let ghost start_cursor = old(byte_stream).cursor();
        let source_file = byte_stream.string()?;
        let ghost lines_offset = byte_stream.cursor();
        let line_defined = byte_stream.integer()?;

        let last_line_defined = match version {
            LuaVersion::Lua51 => byte_stream.integer()?,
            LuaVersion::Lua50 => line_defined,
        };

        let ghost header_offset = byte_stream.cursor();
        let _upvalue_count = byte_stream.byte()?;
        let parameter_count = byte_stream.byte()?;
        let mut is_variadic = byte_stream.byte()?;
        let mut maximum_stack_size = byte_stream.byte()?;

        // The stack size a prototype declares must already respect the
        // output's stack limit; the rewrite only ever grows it up to that
        // limit.
        if maximum_stack_size as u64 > settings.output.stack_limit {
            return Err(LunifyError::StackTooLarge(maximum_stack_size as u64));
        }

        match version {
            LuaVersion::Lua51 => {
                let instructions = Self::get_instructions_lua51(
                    byte_stream,
                    settings,
                    &settings.lua51.layout,
                )?;
                let constants = Self::get_constants(byte_stream)?;
                let functions = Self::get_functions(byte_stream, version, settings)?;
                let line_info = Self::get_line_info(byte_stream)?;
                let local_variables = Self::get_local_variables(byte_stream)?;
                let upvalues = Self::get_upvalues(byte_stream)?;

                // Convert from the input Lua 5.1 byte code to the desired
                // output Lua 5.1 byte code.
                let (instructions, line_info) = convert(
                    instructions,
                    line_info,
                    &mut maximum_stack_size,
                    settings,
                )?;
                let instructions = Self::strip_instructions(&instructions, settings)?;

                Ok(Function {
                    source_file,
                    line_defined,
                    last_line_defined,
                    parameter_count,
                    is_variadic,
                    maximum_stack_size,
                    instructions,
                    constants,
                    functions,
                    local_variables,
                    line_info,
                    upvalues,
                })
            },
            LuaVersion::Lua50 => {
                let line_info = Self::get_line_info(byte_stream)?;
                let local_variables = Self::get_local_variables(byte_stream)?;
                let upvalues = Self::get_upvalues(byte_stream)?;
                let mut constants = Self::get_constants(byte_stream)?;
                let functions = Self::get_functions(byte_stream, version, settings)?;
                let instructions = Self::get_instructions_lua50(
                    byte_stream,
                    settings,
                    &settings.lua50.layout,
                )?;

                if is_variadic != 0 {
                    // Lua 5.1 marks variadic functions with an additional
                    // `VARARG_ISVARARG` flag, without which the function
                    // would be invalid.
                    is_variadic = is_variadic | 2;
                }

                // Up-cast the instructions from Lua 5.0 to Lua 5.1.
                let (instructions, line_info) = upcast(
                    instructions,
                    line_info,
                    &mut constants,
                    &mut maximum_stack_size,
                    parameter_count,
                    is_variadic != 0,
                    settings,
                )?;
                let instructions = Self::strip_instructions(&instructions, settings)?;

                Ok(Function {
                    source_file,
                    line_defined,
                    last_line_defined,
                    parameter_count,
                    is_variadic,
                    maximum_stack_size,
                    instructions,
                    constants,
                    functions,
                    local_variables,
                    line_info,
                    upvalues,
                })
            },
        }
    }

    /// Serialize the function prototype in the Lua 5.1 order: header
    /// fields, instructions, constants, nested prototypes, line numbers,
    /// local variables, upvalue names.
    pub fn write(&self, byte_writer: &mut ByteWriter) -> (result: Result<(), LunifyError>)
        ensures
            result matches Err(error) ==> !(error is IncorrectSignature),
            final(byte_writer).spec_format() == old(byte_writer).spec_format(),
            old(byte_writer).bytes().is_prefix_of(final(byte_writer).bytes()),
        decreases self,
    {
        byte_writer.string(self.source_file.as_slice());
        byte_writer.integer(self.line_defined);
        byte_writer.integer(self.last_line_defined);
        byte_writer.byte(#[verifier::truncate] (self.upvalues.len() as u8));
        byte_writer.byte(self.parameter_count);
        byte_writer.byte(self.is_variadic);
        byte_writer.byte(self.maximum_stack_size);

        // Instructions.
        byte_writer.integer(#[verifier::truncate] (self.instructions.len() as i64));
        proof {
            assert(old(byte_writer).bytes().is_prefix_of(byte_writer.bytes())) by {
                assert(byte_writer.bytes().take(old(byte_writer).bytes().len() as int)
                    =~= old(byte_writer).bytes());
            }
        }
        let mut index: usize = 0;
        while index < self.instructions.len()
            invariant
                byte_writer.spec_format() == old(byte_writer).spec_format(),
                old(byte_writer).bytes().is_prefix_of(byte_writer.bytes()),
            decreases self.instructions@.len() - index,
        {
            let ghost before = byte_writer.bytes();
            byte_writer.instruction(self.instructions[index]);
            proof {
                lemma_append_keeps_prefix(
                    before,
                    byte_writer.bytes().skip(before.len() as int),
                );
                assert(before + byte_writer.bytes().skip(before.len() as int) =~= byte_writer.bytes());
                lemma_prefix_transitive(old(byte_writer).bytes(), before, byte_writer.bytes());
            }
            index += 1;
        }

        // Constants.
        byte_writer.integer(#[verifier::truncate] (self.constants.len() as i64));
        proof {
            assert(old(byte_writer).bytes().is_prefix_of(byte_writer.bytes())) by {
                assert(byte_writer.bytes().take(old(byte_writer).bytes().len() as int)
                    =~= old(byte_writer).bytes());
            }
        }
        let mut index: usize = 0;
        while index < self.constants.len()
            invariant
                byte_writer.spec_format() == old(byte_writer).spec_format(),
                old(byte_writer).bytes().is_prefix_of(byte_writer.bytes()),
            decreases self.constants@.len() - index,
        {
            let ghost before = byte_writer.bytes();
            match &self.constants[index] {
                Constant::Nil => {
                    byte_writer.byte(0);
                },
                Constant::Boolean(boolean) => {
                    byte_writer.byte(1);
                    byte_writer.byte(if *boolean {
                        1
                    } else {
                        0
                    });
                },
                Constant::Number(number) => {
                    byte_writer.byte(3);
                    byte_writer.number(*number)?;
                },
                Constant::String(string) => {
                    byte_writer.byte(4);
                    byte_writer.string(string.as_slice());
                },
            }
            proof {
                assert(before.is_prefix_of(byte_writer.bytes())) by {
                    assert(byte_writer.bytes().take(before.len() as int) =~= before);
                }
                lemma_prefix_transitive(old(byte_writer).bytes(), before, byte_writer.bytes());
            }
            index += 1;
        }

        // Nested functions.
        byte_writer.integer(#[verifier::truncate] (self.functions.len() as i64));
        proof {
            assert(old(byte_writer).bytes().is_prefix_of(byte_writer.bytes())) by {
                assert(byte_writer.bytes().take(old(byte_writer).bytes().len() as int)
                    =~= old(byte_writer).bytes());
            }
        }
        let mut index: usize = 0;
        while index < self.functions.len()
            invariant
                byte_writer.spec_format() == old(byte_writer).spec_format(),
                old(byte_writer).bytes().is_prefix_of(byte_writer.bytes()),
            decreases self.functions@.len() - index,
        {
            proof {
                assert(self.functions@[index as int] == self.functions@.index(index as int));
            }
            let ghost before = byte_writer.bytes();
            self.functions[index].write(byte_writer)?;
            proof {
                lemma_prefix_transitive(old(byte_writer).bytes(), before, byte_writer.bytes());
            }
            index += 1;
        }

        // Line info.
        byte_writer.integer(#[verifier::truncate] (self.line_info.len() as i64));
        proof {
            assert(old(byte_writer).bytes().is_prefix_of(byte_writer.bytes())) by {
                assert(byte_writer.bytes().take(old(byte_writer).bytes().len() as int)
                    =~= old(byte_writer).bytes());
            }
        }
        let mut index: usize = 0;
        while index < self.line_info.len()
            invariant
                byte_writer.spec_format() == old(byte_writer).spec_format(),
                old(byte_writer).bytes().is_prefix_of(byte_writer.bytes()),
            decreases self.line_info@.len() - index,
        {
            let ghost before = byte_writer.bytes();
            byte_writer.integer(self.line_info[index]);
            proof {
                assert(before.is_prefix_of(byte_writer.bytes())) by {
                    assert(byte_writer.bytes().take(before.len() as int) =~= before);
                }
                lemma_prefix_transitive(old(byte_writer).bytes(), before, byte_writer.bytes());
            }
            index += 1;
        }

        // Local variables.
        byte_writer.integer(#[verifier::truncate] (self.local_variables.len() as i64));
        proof {
            assert(old(byte_writer).bytes().is_prefix_of(byte_writer.bytes())) by {
                assert(byte_writer.bytes().take(old(byte_writer).bytes().len() as int)
                    =~= old(byte_writer).bytes());
            }
        }
        let mut index: usize = 0;
        while index < self.local_variables.len()
            invariant
                byte_writer.spec_format() == old(byte_writer).spec_format(),
                old(byte_writer).bytes().is_prefix_of(byte_writer.bytes()),
            decreases self.local_variables@.len() - index,
        {
            let ghost before = byte_writer.bytes();
            byte_writer.string(self.local_variables[index].name.as_slice());
            byte_writer.integer(self.local_variables[index].start_program_counter);
            byte_writer.integer(self.local_variables[index].end_program_counter);
            proof {
                assert(before.is_prefix_of(byte_writer.bytes())) by {
                    assert(byte_writer.bytes().take(before.len() as int) =~= before);
                }
                lemma_prefix_transitive(old(byte_writer).bytes(), before, byte_writer.bytes());
            }
            index += 1;
        }

        // Upvalue names.
        byte_writer.integer(#[verifier::truncate] (self.upvalues.len() as i64));
        proof {
            assert(old(byte_writer).bytes().is_prefix_of(byte_writer.bytes())) by {
                assert(byte_writer.bytes().take(old(byte_writer).bytes().len() as int)
                    =~= old(byte_writer).bytes());
            }
        }
        let mut index: usize = 0;
        while index < self.upvalues.len()
            invariant
                byte_writer.spec_format() == old(byte_writer).spec_format(),
                old(byte_writer).bytes().is_prefix_of(byte_writer.bytes()),
            decreases self.upvalues@.len() - index,
        {
            let ghost before = byte_writer.bytes();
            byte_writer.string(self.upvalues[index].as_slice());
            proof {
                assert(before.is_prefix_of(byte_writer.bytes())) by {
                    assert(byte_writer.bytes().take(before.len() as int) =~= before);
                }
                lemma_prefix_transitive(old(byte_writer).bytes(), before, byte_writer.bytes());
            }
            index += 1;
        }

        Ok(())
    }
}

} // verus!
