use vstd::prelude::*;

use crate::number::Number;

verus! {

/// One entry of a function's constant pool.
#[derive(Clone, Debug, PartialEq, Eq)]
pub enum Constant {
    /// The nil value.
    Nil,
    /// A boolean.
    Boolean(bool),
    /// A number, integral or floating-point.
    Number(Number),
    /// A string; in the Lua convention it carries a trailing NUL byte and
    /// the stored length includes it.
    String(Vec<u8>),
}

impl Constant {
    /// Whether this constant is the string with exactly the given bytes.
    pub open spec fn spec_is_string(&self, bytes: Seq<u8>) -> bool {
        match self {
            Constant::String(own) => own@ == bytes,
            _ => false,
        }
    }
}

/// The decimal digits of a value, most significant first.
pub open spec fn spec_decimal(value: u64) -> Seq<u8>
    decreases value,
{
    if value < 10 {
        seq![(0x30 + value) as u8]
    } else {
        spec_decimal(value / 10).push((0x30 + value % 10) as u8)
    }
}

/// Append the decimal digits of a value, most significant first.
pub fn push_decimal(bytes: &mut Vec<u8>, value: u64)
    ensures
        final(bytes)@ == old(bytes)@ + spec_decimal(value),
    decreases value,
{
    if value < 10 {
        bytes.push((0x30 + value) as u8);
        proof {
            assert(final(bytes)@ =~= old(bytes)@ + spec_decimal(value));
        }
    } else {
        push_decimal(bytes, value / 10);
        bytes.push((0x30 + value % 10) as u8);
        proof {
            assert(final(bytes)@ =~= old(bytes)@ + spec_decimal(value));
        }
    }
}

/// The name of the fresh global minted for the loop at `program_counter`,
/// with discriminator `index`, NUL-terminated.
pub open spec fn spec_unique_name(program_counter: u64, index: u64) -> Seq<u8> {
    spec_name_prefix() + spec_decimal(program_counter) + seq![0x5Fu8] + spec_decimal(index) + seq![0u8]
}

/// The prefix of every minted global name: `__%lunify%__temp`.
pub open spec fn spec_name_prefix() -> Seq<u8> {
    seq![
        0x5Fu8, 0x5Fu8, 0x25u8, 0x6Cu8, 0x75u8, 0x6Eu8, 0x69u8, 0x66u8, 0x79u8, 0x25u8, 0x5Fu8,
        0x5Fu8, 0x74u8, 0x65u8, 0x6Du8, 0x70u8,
    ]
}

/// The minted global name for the loop at `program_counter` with
/// discriminator `index`.
fn unique_name(program_counter: u64, index: u64) -> (result: Vec<u8>)
    ensures
        result@ == spec_unique_name(program_counter, index),
{
    let mut bytes: Vec<u8> = Vec::new();
    bytes.push(0x5F);
    bytes.push(0x5F);
    bytes.push(0x25);
    bytes.push(0x6C);
    bytes.push(0x75);
    bytes.push(0x6E);
    bytes.push(0x69);
    bytes.push(0x66);
    bytes.push(0x79);
    bytes.push(0x25);
    bytes.push(0x5F);
    bytes.push(0x5F);
    bytes.push(0x74);
    bytes.push(0x65);
    bytes.push(0x6D);
    bytes.push(0x70);
    proof {
        assert(bytes@ =~= spec_name_prefix());
    }
    push_decimal(&mut bytes, program_counter);
    bytes.push(0x5F);
    push_decimal(&mut bytes, index);
    bytes.push(0);
    proof {
        assert(bytes@ =~= spec_unique_name(program_counter, index));
    }
    bytes
}

/// Whether two byte runs hold the same bytes.
fn bytes_equal(left: &Vec<u8>, right: &Vec<u8>) -> (result: bool)
    ensures
        result == (left@ == right@),
{
    if left.len() != right.len() {
        proof {
            assert(left@ != right@);
        }
        return false;
    }
    let mut index: usize = 0;
    while index < left.len()
        invariant
            index <= left@.len(),
            left@.len() == right@.len(),
            forall|j: int| 0 <= j < index ==> left@[j] == right@[j],
        decreases left@.len() - index,
    {
        if left[index] != right[index] {
            proof {
                assert(left@[index as int] != right@[index as int]);
            }
            return false;
        }
        index += 1;
    }
    proof {
        assert(left@ =~= right@);
    }
    true
}

/// The smallest index of a string constant with exactly the given bytes,
/// when there is one.
pub open spec fn spec_find_string(constants: Seq<Constant>, bytes: Seq<u8>) -> Option<int>
    decreases constants.len(),
{
    if constants.len() == 0 {
        None
    } else if constants[0].spec_is_string(bytes) {
        Some(0)
    } else {
        match spec_find_string(constants.skip(1), bytes) {
            None => None,
            Some(index) => Some(index + 1),
        }
    }
}

/// The smallest index of a nil constant, when there is one.
pub open spec fn spec_find_nil(constants: Seq<Constant>) -> Option<int>
    decreases constants.len(),
{
    if constants.len() == 0 {
        None
    } else if constants[0] is Nil {
        Some(0)
    } else {
        match spec_find_nil(constants.skip(1)) {
            None => None,
            Some(index) => Some(index + 1),
        }
    }
}

/// `spec_find_string` names the smallest matching index, and `None` means
/// no entry matches.
pub proof fn lemma_find_string(constants: Seq<Constant>, bytes: Seq<u8>)
    ensures
        spec_find_string(constants, bytes) matches Some(index) ==> 0 <= index < constants.len()
            && constants[index].spec_is_string(bytes) && (forall|j: int|
            0 <= j < index ==> !constants[j].spec_is_string(bytes)),
        spec_find_string(constants, bytes) is None ==> forall|j: int|
            0 <= j < constants.len() ==> !constants[j].spec_is_string(bytes),
    decreases constants.len(),
{
    if constants.len() > 0 {
        let rest = constants.skip(1);
        lemma_find_string(rest, bytes);
        if !constants[0].spec_is_string(bytes) {
            match spec_find_string(rest, bytes) {
                Some(inner) => {
                    assert(constants[inner + 1] == rest[inner]);
                    assert forall|j: int| 0 <= j < inner + 1 implies !constants[j].spec_is_string(
                        bytes,
                    ) by {
                        if j >= 1 {
                            assert(constants[j] == rest[j - 1]);
                            assert(!rest[j - 1].spec_is_string(bytes));
                        }
                    }
                },
                None => {
                    assert forall|j: int| 0 <= j < constants.len() implies !constants[j].spec_is_string(
                        bytes,
                    ) by {
                        if j >= 1 {
                            assert(constants[j] == rest[j - 1]);
                            assert(!rest[j - 1].spec_is_string(bytes));
                        }
                    }
                },
            }
        }
    }
}

/// `spec_find_nil` names the smallest nil index, and `None` means no entry
/// is nil.
pub proof fn lemma_find_nil(constants: Seq<Constant>)
    ensures
        spec_find_nil(constants) matches Some(index) ==> 0 <= index < constants.len()
            && constants[index] is Nil && (forall|j: int| 0 <= j < index ==> !(constants[j] is Nil)),
        spec_find_nil(constants) is None ==> forall|j: int|
            0 <= j < constants.len() ==> !(constants[j] is Nil),
    decreases constants.len(),
{
    if constants.len() > 0 {
        let rest = constants.skip(1);
        lemma_find_nil(rest);
        if !(constants[0] is Nil) {
            match spec_find_nil(rest) {
                Some(inner) => {
                    assert(constants[inner + 1] == rest[inner]);
                    assert forall|j: int| 0 <= j < inner + 1 implies !(constants[j] is Nil) by {
                        if j >= 1 {
                            assert(constants[j] == rest[j - 1]);
                            assert(!(rest[j - 1] is Nil));
                        }
                    }
                },
                None => {
                    assert forall|j: int| 0 <= j < constants.len() implies !(constants[j] is Nil) by {
                        if j >= 1 {
                            assert(constants[j] == rest[j - 1]);
                            assert(!(rest[j - 1] is Nil));
                        }
                    }
                },
            }
        }
    }
}

/// The smallest index of a string constant with exactly the given bytes.
fn find_string(constants: &Vec<Constant>, bytes: &Vec<u8>) -> (result: Option<usize>)
    ensures
        result matches Some(index) ==> Some(index as int) == spec_find_string(constants@, bytes@),
        result is None ==> spec_find_string(constants@, bytes@) is None,
{
    let mut index: usize = 0;
    while index < constants.len()
        invariant
            index <= constants@.len(),
            forall|j: int| 0 <= j < index ==> !(#[trigger] constants@[j]).spec_is_string(bytes@),
        decreases constants@.len() - index,
    {
        let matches_entry = match &constants[index] {
            Constant::String(own) => bytes_equal(own, bytes),
            _ => false,
        };
        if matches_entry {
            proof {
                lemma_find_string(constants@, bytes@);
            }
            return Some(index);
        }
        index += 1;
    }
    proof {
        lemma_find_string(constants@, bytes@);
    }
    None
}

/// The index of the string constant with exactly the given bytes plus
/// the trailing NUL, when the pool holds one.
pub fn constant_lookup_str(constants: &Vec<Constant>, constant_str: &[u8]) -> (result: Option<u64>)
    ensures
        ({
            let zero_terminated = constant_str@ + seq![0u8];
            match spec_find_string(constants@, zero_terminated) {
                Some(index) => result == Some(index as u64),
                None => result is None,
            }
        }),
{
    let mut zero_terminated: Vec<u8> = Vec::new();
    let mut index: usize = 0;
    while index < constant_str.len()
        invariant
            index <= constant_str@.len(),
            zero_terminated@ == constant_str@.take(index as int),
        decreases constant_str@.len() - index,
    {
        zero_terminated.push(constant_str[index]);
        index += 1;
        proof {
            assert(zero_terminated@ =~= constant_str@.take(index as int));
        }
    }
    zero_terminated.push(0);
    proof {
        assert(zero_terminated@ =~= constant_str@ + seq![0u8]);
    }

    match find_string(constants, &zero_terminated) {
        Some(found) => Some(found as u64),
        None => None,
    }
}

/// The index of the nil constant, when the pool holds one.
pub fn constant_lookup_nil(constants: &Vec<Constant>) -> (result: Option<u64>)
    ensures
        match spec_find_nil(constants@) {
            Some(index) => result == Some(index as u64),
            None => result is None,
        },
{
    let mut index: usize = 0;
    while index < constants.len()
        invariant
            index <= constants@.len(),
            forall|j: int| 0 <= j < index ==> !((#[trigger] constants@[j]) is Nil),
        decreases constants@.len() - index,
    {
        let found = match &constants[index] {
            Constant::Nil => true,
            _ => false,
        };
        if found {
            proof {
                lemma_find_nil(constants@);
            }
            return Some(index as u64);
        }
        index += 1;
    }
    proof {
        lemma_find_nil(constants@);
    }
    None
}

/// Look up a string constant by value (bytes plus the trailing NUL) and
/// hand back its index; append it when it is not there yet.
pub fn constant_for_str(constants: &mut Vec<Constant>, constant_str: &[u8]) -> (result: u64)
    requires
        old(constants)@.len() < 0x10000000000000,
    ensures
        ({
            let zero_terminated = constant_str@ + seq![0u8];
            match spec_find_string(old(constants)@, zero_terminated) {
                Some(index) => {
                    &&& result == index
                    &&& final(constants)@ == old(constants)@
                },
                None => {
                    &&& result == old(constants)@.len()
                    &&& final(constants)@.len() == old(constants)@.len() + 1
                    &&& final(constants)@ == old(constants)@.push(
                        final(constants)@[old(constants)@.len() as int],
                    )
                    &&& final(constants)@[old(constants)@.len() as int].spec_is_string(zero_terminated)
                },
            }
        }),
{
    let mut zero_terminated: Vec<u8> = Vec::new();
    let mut index: usize = 0;
    while index < constant_str.len()
        invariant
            index <= constant_str@.len(),
            zero_terminated@ == constant_str@.take(index as int),
        decreases constant_str@.len() - index,
    {
        zero_terminated.push(constant_str[index]);
        index += 1;
        proof {
            assert(zero_terminated@ =~= constant_str@.take(index as int));
        }
    }
    zero_terminated.push(0);
    proof {
        assert(zero_terminated@ =~= constant_str@ + seq![0u8]);
    }

    // If the constant already exists we don't need to add it again.
    if let Some(existing) = find_string(constants, &zero_terminated) {
        return existing as u64;
    }

    let constant_index = constants.len() as u64;
    constants.push(Constant::String(zero_terminated));
    constant_index
}

/// Look up the nil constant and hand back its index; append it when it is
/// not there yet.
pub fn constant_nil(constants: &mut Vec<Constant>) -> (result: u64)
    requires
        old(constants)@.len() < 0x10000000000000,
    ensures
        match spec_find_nil(old(constants)@) {
            Some(index) => {
                &&& result == index
                &&& final(constants)@ == old(constants)@
            },
            None => {
                &&& result == old(constants)@.len()
                &&& final(constants)@ == old(constants)@.push(Constant::Nil)
            },
        },
{
    let mut index: usize = 0;
    while index < constants.len()
        invariant
            index <= constants@.len(),
            forall|j: int| 0 <= j < index ==> !((#[trigger] constants@[j]) is Nil),
        decreases constants@.len() - index,
    {
        let found = match &constants[index] {
            Constant::Nil => true,
            _ => false,
        };
        if found {
            proof {
                lemma_find_nil(constants@);
            }
            return index as u64;
        }
        index += 1;
    }
    proof {
        lemma_find_nil(constants@);
    }
    let constant_index = constants.len() as u64;
    constants.push(Constant::Nil);
    constant_index
}

/// The discriminator the mint uses: the smallest whose name is absent
/// from the pool, probing at most one past the pool's size.
pub open spec fn spec_first_free_discriminator(
    constants: Seq<Constant>,
    program_counter: u64,
    discriminator: u64,
) -> u64
    decreases constants.len() + 2 - discriminator,
{
    if discriminator > constants.len() {
        discriminator
    } else if spec_find_string(
        constants,
        spec_unique_name(program_counter, discriminator),
    ) is None {
        discriminator
    } else if discriminator == 0xFFFFFFFFFFFFFFFF {
        discriminator
    } else {
        spec_first_free_discriminator(constants, program_counter, (discriminator + 1) as u64)
    }
}

/// Mint a unique NUL-terminated string constant for the loop at
/// `program_counter` and hand back its index. The smallest discriminator
/// whose name is absent is used, so repeated mints at one program counter
/// stay distinct.
pub fn create_unique(constants: &mut Vec<Constant>, program_counter: usize) -> (result: u64)
    requires
        old(constants)@.len() < 0x10000000000000,
    ensures
        result == old(constants)@.len(),
        final(constants)@.len() == old(constants)@.len() + 1,
        // The minted constant is exactly the name of the first free
        // discriminator.
        final(constants)@ == old(constants)@.push(
            final(constants)@[old(constants)@.len() as int],
        ),
        final(constants)@[old(constants)@.len() as int].spec_is_string(
            spec_unique_name(
                program_counter as u64,
                spec_first_free_discriminator(old(constants)@, program_counter as u64, 0),
            ),
        ),
        spec_first_free_discriminator(old(constants)@, program_counter as u64, 0) <= old(
            constants,
        )@.len() ==> spec_find_string(
            old(constants)@,
            spec_unique_name(
                program_counter as u64,
                spec_first_free_discriminator(old(constants)@, program_counter as u64, 0),
            ),
        ) is None,
{
    let constant_index = constants.len() as u64;
    let mut discriminator: u64 = 0;
    let length = constants.len();

    loop
        invariant
            constants@ == old(constants)@,
            constants@.len() == length,
            constant_index == length,
            length < 0x10000000000000,
            discriminator <= length + 1,
            spec_first_free_discriminator(constants@, program_counter as u64, 0)
                == spec_first_free_discriminator(constants@, program_counter as u64, discriminator),
        decreases length + 2 - discriminator,
    {
        let name = unique_name(program_counter as u64, discriminator);
        if find_string(constants, &name).is_none() {
            proof {
                assert(spec_first_free_discriminator(constants@, program_counter as u64, discriminator)
                    == discriminator);
            }
            constants.push(Constant::String(name));
            proof {
                assert(constants@[length as int].spec_is_string(
                    spec_unique_name(program_counter as u64, discriminator),
                ));
                assert(constants@ =~= old(constants)@.push(constants@[length as int]));
            }
            return constant_index;
        }
        if discriminator > length as u64 {
            // More distinct names probed than there are constants: at
            // least one probe cannot actually be present. Unreachable, but
            // the search has to stop somewhere; reuse the last name.
            proof {
                assert(spec_first_free_discriminator(constants@, program_counter as u64, discriminator)
                    == discriminator);
            }
            constants.push(Constant::String(name));
            proof {
                assert(constants@[length as int].spec_is_string(
                    spec_unique_name(program_counter as u64, discriminator),
                ));
                assert(constants@ =~= old(constants)@.push(constants@[length as int]));
            }
            return constant_index;
        }
        discriminator += 1;
    }
}

} // verus!
