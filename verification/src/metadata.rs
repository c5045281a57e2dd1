//! The metadata of a module, and how it is stored inside the artifact.
//!
//! The metadata is stored under one symbol as a ten-byte length followed by
//! the serialized record. The length is an unsigned LEB128 number, padded
//! with zero bytes, so that a loader can read a slice of fixed size first.

use crate::error::DeserializeError;
use crate::names::{derive_symbol_name, symbol_name, SymbolRole};
use crate::varint::{
    lemma_encoding_length, lemma_read_written, lemma_room_of_u64, read_unsigned,
    read_unsigned_leb128, unsigned_leb128, write_unsigned,
};
use vstd::prelude::*;

verus! {

/// The number of bytes that the length of the metadata takes.
pub const LENGTH_PREFIX_SIZE: usize = 10;

/// The length in bytes of the machine code of each local function, kept
/// by local function index in the entity map that the runtime uses for
/// such tables.
#[verifier::external_body]
#[derive(Debug)]
pub struct FunctionBodyLengths {
    map: wasmer_types::entity::PrimaryMap<wasmer_types::LocalFunctionIndex, u64>,
}

/// The lengths that a table holds, in the order of the local function
/// indices.
pub uninterp spec fn body_lengths(lengths: FunctionBodyLengths) -> Seq<u64>;

impl View for FunctionBodyLengths {
    type V = Seq<u64>;

    open spec fn view(&self) -> Seq<u64> {
        body_lengths(*self)
    }
}

/// Collects lengths into an entity map, as the `FromIterator` of
/// `PrimaryMap` does: the lengths get the indices 0, 1, 2 and so on, in
/// their order.
#[verifier::external_body]
pub(crate) fn collect_lengths(lengths: Vec<u64>) -> (table: FunctionBodyLengths)
    ensures
        body_lengths(table) == lengths@,
{
    FunctionBodyLengths { map: lengths.into_iter().collect() }
}

/// Hands out the lengths of an entity map with `PrimaryMap::values`, in the
/// order of the indices.
#[verifier::external_body]
pub(crate) fn lengths_of(table: &FunctionBodyLengths) -> (lengths: Vec<u64>)
    ensures
        lengths@ == body_lengths(*table),
{
    table.map.values().copied().collect()
}

/// Counts the lengths of an entity map with `PrimaryMap::len`.
#[verifier::external_body]
pub(crate) fn count_lengths(table: &FunctionBodyLengths) -> (count: usize)
    ensures
        count == body_lengths(*table).len(),
{
    table.map.len()
}

impl FunctionBodyLengths {
    /// The number of local functions that the table has a length for.
    pub fn len(&self) -> (count: usize)
        ensures
            count == self@.len(),
    {
        count_lengths(self)
    }

    /// The table of these lengths, the first one for the local function
    /// with index zero.
    pub fn from_vec(lengths: Vec<u64>) -> (table: Self)
        ensures
            table@ == lengths@,
    {
        collect_lengths(lengths)
    }

    /// The lengths in the order of the local function indices.
    pub fn to_vec(&self) -> (lengths: Vec<u64>)
        ensures
            lengths@ == self@,
    {
        lengths_of(self)
    }
}

/// The type of a function of a module, `wasmer_types::FunctionType`.
#[verifier::external_type_specification]
#[verifier::external_body]
pub struct ExFunctionType(wasmer_types::FunctionType);

/// What a loader has to know of a compiled module to find its parts again.
#[derive(Debug)]
pub struct ModuleMetadata {
    /// The text that sets the symbols of this module apart from those of
    /// other modules in the process.
    pub prefix: String,
    /// The length in bytes of the machine code of each local function.
    pub function_body_lengths: FunctionBodyLengths,
    /// The signatures of the module, by signature index.
    pub signatures: Vec<wasmer_types::FunctionType>,
    /// The number of functions of the module, imported ones included.
    pub num_functions: usize,
    /// The number of imported functions of the module.
    pub num_imported_funcs: usize,
}

impl ModuleMetadata {
    /// The number of imported functions that have a dynamic trampoline:
    /// all of them, as long as the module has that many functions.
    pub open spec fn dynamic_trampolines(self) -> nat {
        if self.num_imported_funcs <= self.num_functions {
            self.num_imported_funcs as nat
        } else {
            self.num_functions as nat
        }
    }

    /// The number of imported functions that have a dynamic trampoline.
    pub fn num_dynamic_trampolines(&self) -> (n: usize)
        ensures
            n == self.dynamic_trampolines(),
    {
        if self.num_imported_funcs <= self.num_functions {
            self.num_imported_funcs
        } else {
            self.num_functions
        }
    }

    /// The symbol of the body of a local function.
    pub fn get_function_name(&self, index: usize) -> (name: String)
        ensures
            name@ == symbol_name(SymbolRole::FunctionBody, self.prefix@, index as nat),
    {
        derive_symbol_name(SymbolRole::FunctionBody, self.prefix.as_str(), index)
    }

    /// The symbol of a custom section.
    pub fn get_section_name(&self, index: usize) -> (name: String)
        ensures
            name@ == symbol_name(SymbolRole::Section, self.prefix@, index as nat),
    {
        derive_symbol_name(SymbolRole::Section, self.prefix.as_str(), index)
    }

    /// The symbol of the call trampoline of a signature.
    pub fn get_function_call_trampoline_name(&self, index: usize) -> (name: String)
        ensures
            name@ == symbol_name(SymbolRole::CallTrampoline, self.prefix@, index as nat),
    {
        derive_symbol_name(SymbolRole::CallTrampoline, self.prefix.as_str(), index)
    }

    /// The symbol of the dynamic trampoline of an imported function.
    pub fn get_dynamic_function_trampoline_name(&self, index: usize) -> (name: String)
        ensures
            name@ == symbol_name(SymbolRole::DynamicTrampoline, self.prefix@, index as nat),
    {
        derive_symbol_name(SymbolRole::DynamicTrampoline, self.prefix.as_str(), index)
    }
}

/// The ten bytes that announce `length` bytes of metadata: the length as
/// unsigned LEB128, then zeros.
pub open spec fn length_prefix(length: nat) -> Seq<u8> {
    let number = unsigned_leb128(length);
    number + Seq::new((LENGTH_PREFIX_SIZE - number.len()) as nat, |i: int| 0u8)
}

/// The serialized metadata as it is stored in the artifact.
pub open spec fn framed(serialized: Seq<u8>) -> Seq<u8> {
    length_prefix(serialized.len()) + serialized
}

/// The message of the error for a length that cannot be read.
pub open spec fn unreadable_length_message() -> Seq<char> {
    "Can't read metadata size"@
}

/// Puts the length of the serialized metadata in front of it.
pub fn frame_metadata(serialized: &[u8]) -> (blob: Vec<u8>)
    ensures
        blob@ == framed(serialized@),
        blob@.len() == LENGTH_PREFIX_SIZE + serialized@.len(),
{
    let length = serialized.len() as u64;
    let mut blob = write_unsigned(length);
    proof {
        lemma_room_of_u64(length);
        lemma_encoding_length(length as nat, 0);
    }
    let ghost number = blob@;
    while blob.len() < LENGTH_PREFIX_SIZE
        invariant
            number.len() <= blob@.len() <= LENGTH_PREFIX_SIZE,
            blob@ == number + Seq::new((blob@.len() - number.len()) as nat, |i: int| 0u8),
        decreases LENGTH_PREFIX_SIZE - blob.len(),
    {
        blob.push(0);
    }
    let mut i: usize = 0;
    while i < serialized.len()
        invariant
            i <= serialized.len(),
            blob@ == length_prefix(serialized@.len()) + serialized@.subrange(0, i as int),
            length_prefix(serialized@.len()).len() == LENGTH_PREFIX_SIZE,
        decreases serialized.len() - i,
    {
        blob.push(serialized[i]);
        i += 1;
    }
    assert(serialized@.subrange(0, i as int) == serialized@);
    blob
}

/// Reads the length of the metadata from the bytes stored under the metadata
/// symbol. Only the length prefix is looked at.
///
/// A length that is not a 64-bit unsigned LEB128 number is reported as a
/// corrupted binary.
pub fn read_metadata_length(stored: &[u8]) -> (result: Result<u64, DeserializeError>)
    ensures
        match result {
            Ok(length) => read_unsigned_leb128(stored@, 0) == Some(length as nat),
            Err(error) => read_unsigned_leb128(stored@, 0) is None
                && error.is_corrupted_binary(unreadable_length_message()),
        },
{
    match read_unsigned(stored) {
        Some(length) => Ok(length),
        None => Err(
            DeserializeError::CorruptedBinary(String::from_str("Can't read metadata size")),
        ),
    }
}

/// The length prefix is ten bytes long for every length that fits in 64
/// bits.
pub proof fn lemma_length_prefix_size(length: nat)
    requires
        length <= u64::MAX,
    ensures
        length_prefix(length).len() == LENGTH_PREFIX_SIZE,
{
    lemma_room_of_u64(length as u64);
    lemma_encoding_length(length, 0);
}

/// What was framed can be found again: the length that is read from a
/// framed record is the length of the record, and the record follows the
/// ten bytes of the prefix unchanged, whatever comes after it.
pub proof fn lemma_frame_round_trip(serialized: Seq<u8>, rest: Seq<u8>)
    requires
        serialized.len() <= u64::MAX,
    ensures
        read_unsigned_leb128(framed(serialized) + rest, 0) == Some(serialized.len()),
        (framed(serialized) + rest).subrange(
            LENGTH_PREFIX_SIZE as int,
            LENGTH_PREFIX_SIZE + serialized.len(),
        ) == serialized,
{
    let length = serialized.len();
    lemma_length_prefix_size(length);
    lemma_room_of_u64(length as u64);
    let number = unsigned_leb128(length);
    let padding = Seq::new((LENGTH_PREFIX_SIZE - number.len()) as nat, |i: int| 0u8);
    assert(framed(serialized) + rest =~= number + (padding + serialized + rest));
    lemma_read_written(length, 0, padding + serialized + rest);
    assert((framed(serialized) + rest).subrange(
        LENGTH_PREFIX_SIZE as int,
        LENGTH_PREFIX_SIZE + serialized.len(),
    ) =~= serialized);
}

} // verus!
