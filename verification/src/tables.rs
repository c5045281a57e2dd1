//! The tables of a loaded artifact, kept by index in the entity maps that
//! the runtime uses for such tables.

use crate::artifact::FunctionPointer;
use vstd::prelude::*;

verus! {

/// The pointers to the bodies of the local functions, by local function
/// index.
#[verifier::external_body]
#[derive(Debug)]
pub struct FunctionTable {
    map: wasmer_types::entity::PrimaryMap<wasmer_types::LocalFunctionIndex, FunctionPointer>,
}

/// The pointers to the dynamic trampolines of the imported functions, by
/// function index.
#[verifier::external_body]
#[derive(Debug)]
pub struct TrampolineTable {
    map: wasmer_types::entity::PrimaryMap<wasmer_types::FunctionIndex, FunctionPointer>,
}

/// The identifiers of the signatures of a module in the registry, by
/// signature index.
#[verifier::external_body]
#[derive(Debug)]
pub struct SignatureTable {
    map: wasmer_types::entity::PrimaryMap<
        wasmer_types::SignatureIndex,
        wasmer_vm::VMSharedSignatureIndex,
    >,
}

/// The pointers that a table of functions holds, in the order of the
/// local function indices.
pub uninterp spec fn function_pointers(table: FunctionTable) -> Seq<FunctionPointer>;

/// The pointers that a table of trampolines holds, in the order of the
/// function indices.
pub uninterp spec fn trampoline_pointers(table: TrampolineTable) -> Seq<FunctionPointer>;

/// The identifiers that a table of signatures holds, in the order of the
/// signature indices.
pub uninterp spec fn signature_identifiers(table: SignatureTable) -> Seq<
    wasmer_vm::VMSharedSignatureIndex,
>;

impl View for FunctionTable {
    type V = Seq<FunctionPointer>;

    open spec fn view(&self) -> Seq<FunctionPointer> {
        function_pointers(*self)
    }
}

impl View for TrampolineTable {
    type V = Seq<FunctionPointer>;

    open spec fn view(&self) -> Seq<FunctionPointer> {
        trampoline_pointers(*self)
    }
}

impl View for SignatureTable {
    type V = Seq<wasmer_vm::VMSharedSignatureIndex>;

    open spec fn view(&self) -> Seq<wasmer_vm::VMSharedSignatureIndex> {
        signature_identifiers(*self)
    }
}

/// Collects pointers into an entity map, as the `FromIterator` of
/// `PrimaryMap` does: they get the indices 0, 1, 2 and so on, in their
/// order.
#[verifier::external_body]
pub(crate) fn collect_functions(pointers: Vec<FunctionPointer>) -> (table: FunctionTable)
    ensures
        function_pointers(table) == pointers@,
{
    FunctionTable { map: pointers.into_iter().collect() }
}

/// Hands out the pointers of an entity map with `PrimaryMap::values`, in
/// the order of the indices.
#[verifier::external_body]
pub(crate) fn functions_of(table: &FunctionTable) -> (pointers: Vec<FunctionPointer>)
    ensures
        pointers@ == function_pointers(*table),
{
    table.map.values().copied().collect()
}

/// Collects pointers into an entity map, as the `FromIterator` of
/// `PrimaryMap` does: they get the indices 0, 1, 2 and so on, in their
/// order.
#[verifier::external_body]
pub(crate) fn collect_trampolines(pointers: Vec<FunctionPointer>) -> (table: TrampolineTable)
    ensures
        trampoline_pointers(table) == pointers@,
{
    TrampolineTable { map: pointers.into_iter().collect() }
}

/// Hands out the pointers of an entity map with `PrimaryMap::values`, in
/// the order of the indices.
#[verifier::external_body]
pub(crate) fn trampolines_of(table: &TrampolineTable) -> (pointers: Vec<FunctionPointer>)
    ensures
        pointers@ == trampoline_pointers(*table),
{
    table.map.values().copied().collect()
}

/// Collects identifiers into an entity map, as the `FromIterator` of
/// `PrimaryMap` does: they get the indices 0, 1, 2 and so on, in their
/// order.
#[verifier::external_body]
pub(crate) fn collect_signatures(ids: Vec<wasmer_vm::VMSharedSignatureIndex>) -> (table:
    SignatureTable)
    ensures
        signature_identifiers(table) == ids@,
{
    SignatureTable { map: ids.into_iter().collect() }
}

/// Hands out the identifiers of an entity map with `PrimaryMap::values`,
/// in the order of the indices.
#[verifier::external_body]
pub(crate) fn signatures_of(table: &SignatureTable) -> (ids: Vec<
    wasmer_vm::VMSharedSignatureIndex,
>)
    ensures
        ids@ == signature_identifiers(*table),
{
    table.map.values().copied().collect()
}

impl FunctionTable {
    /// The table of these pointers, the first one for the local function
    /// with index zero.
    pub fn from_vec(pointers: Vec<FunctionPointer>) -> (table: Self)
        ensures
            table@ == pointers@,
    {
        collect_functions(pointers)
    }

    /// The pointers in the order of the local function indices.
    pub fn to_vec(&self) -> (pointers: Vec<FunctionPointer>)
        ensures
            pointers@ == self@,
    {
        functions_of(self)
    }
}

impl TrampolineTable {
    /// The table of these pointers, the first one for the function with
    /// index zero.
    pub fn from_vec(pointers: Vec<FunctionPointer>) -> (table: Self)
        ensures
            table@ == pointers@,
    {
        collect_trampolines(pointers)
    }

    /// The pointers in the order of the function indices.
    pub fn to_vec(&self) -> (pointers: Vec<FunctionPointer>)
        ensures
            pointers@ == self@,
    {
        trampolines_of(self)
    }
}

impl SignatureTable {
    /// The table of these identifiers, the first one for the signature
    /// with index zero.
    pub fn from_vec(ids: Vec<wasmer_vm::VMSharedSignatureIndex>) -> (table: Self)
        ensures
            table@ == ids@,
    {
        collect_signatures(ids)
    }

    /// The identifiers in the order of the signature indices.
    pub fn to_vec(&self) -> (ids: Vec<wasmer_vm::VMSharedSignatureIndex>)
        ensures
            ids@ == self@,
    {
        signatures_of(self)
    }
}

} // verus!
