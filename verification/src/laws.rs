//! What holds of the parts of this library taken together.

use crate::artifact::{NativeArtifact, SymbolLookup};
use crate::compilation::Compilation;
use crate::emit::{
    emitted, lemma_parts, part_name, part_record, patched_text, text_before, Contents, Part,
    Request,
};
use crate::metadata::ModuleMetadata;
use crate::names::{name_bytes, symbol_name, SymbolRole};
use crate::object_file::SymbolScope;
use crate::target::{ObjectFormat, ObjectTarget};
use vstd::prelude::*;

verus! {

/// Whether the metadata counts the parts of a module as the compilation
/// holds them: a length for each function body, which is the length of the
/// body, a signature for each call trampoline, and a dynamic trampoline for
/// each imported function that has one.
pub open spec fn describes(metadata: ModuleMetadata, compilation: Compilation) -> bool {
    &&& metadata.records_bodies(compilation)
    &&& metadata.signatures@.len() == compilation.function_call_trampolines@.len()
    &&& metadata.dynamic_trampolines() == compilation.dynamic_function_trampolines@.len()
}

/// The place among the pieces of the text section of the part that lookup
/// `i` is for.
pub open spec fn lookup_part(compilation: Compilation, i: int) -> int {
    compilation.custom_sections@.len() + i
}

/// Every symbol that a loader looks up is defined in the object: the
/// object finds a symbol under the name of the lookup, which other objects
/// can see, and which lies in the text section.
///
/// The symbol of a function body has the size that the metadata records
/// for the function, so that the pointer that a loader makes for it covers
/// the machine code of the function and nothing else.
pub proof fn lemma_lookups_are_defined(
    c: Contents,
    target: ObjectTarget,
    metadata: ModuleMetadata,
    blob: Seq<u8>,
    compilation: Compilation,
    i: int,
)
    requires
        emitted(c, target, metadata.prefix@, blob, compilation),
        describes(metadata, compilation),
        0 <= i < metadata.symbol_count(),
    ensures
        ({
            let name = name_bytes(
                symbol_name(
                    metadata.lookup_role(i),
                    metadata.prefix@,
                    metadata.lookup_index(i) as nat,
                ),
            );
            &&& c.symbol_ids.contains_key(name)
            &&& 0 <= c.symbol_ids[name] < c.symbols.len()
            &&& c.symbols[c.symbol_ids[name]].name == name
            &&& c.symbols[c.symbol_ids[name]].scope == SymbolScope::Dynamic
            &&& c.symbols[c.symbol_ids[name]].section == Some(1int)
            &&& i < metadata.function_body_lengths@.len() ==> c.symbols[c.symbol_ids[name]].size
                == metadata.function_body_lengths@[i]
        }),
{
    let parts = compilation.parts();
    let prefix = metadata.prefix@;
    let k = lookup_part(compilation, i);
    lemma_parts(compilation, prefix);
    assert(0 <= k < parts.len());
    assert(parts[k].role == metadata.lookup_role(i) && parts[k].index == metadata.lookup_index(i))
        by {
        let sections = compilation.custom_sections@.len() as int;
        let functions = compilation.functions@.len() as int;
        let calls = compilation.function_call_trampolines@.len() as int;
        if i < functions {
            assert(parts[sections + i].role == SymbolRole::FunctionBody);
        } else if i < functions + calls {
            assert(parts[sections + functions + (i - functions)].role
                == SymbolRole::CallTrampoline);
        } else {
            assert(parts[sections + functions + calls + (i - functions - calls)].role
                == SymbolRole::DynamicTrampoline);
        }
    }
    assert(c.symbol_ids.contains_key(part_name(prefix, parts[k])));
    assert(c.symbols[k + 1] == part_record(prefix, parts, k));
}

/// The text grows with every piece that is laid out.
pub proof fn lemma_text_grows(parts: Seq<Part>, fewer: int, more: int)
    requires
        fewer <= more,
    ensures
        text_before(parts, fewer).len() <= text_before(parts, more).len(),
    decreases more - fewer,
{
    if fewer < more {
        lemma_text_grows(parts, fewer, more - 1);
    }
}

/// Nothing is written into the text of an ELF object: its text section is
/// the text of the pieces, whatever the relocations are.
pub proof fn lemma_elf_text_is_untouched(
    target: ObjectTarget,
    text: Seq<u8>,
    requests: Seq<Request>,
    count: int,
)
    requires
        target.format == ObjectFormat::Elf,
    ensures
        patched_text(target, text, requests, count) == text,
    decreases count,
{
    if count > 0 {
        lemma_elf_text_is_untouched(target, text, requests, count - 1);
    }
}

/// An ELF object takes every relocation of a compilation whose text, with
/// room for an offset of 32 bits behind it, can be addressed with 64 bits.
pub proof fn lemma_elf_takes_every_relocation(compilation: Compilation, target: ObjectTarget)
    requires
        target.format == ObjectFormat::Elf,
        text_before(compilation.parts(), compilation.parts().len() as int).len() + u32::MAX
            <= u64::MAX,
    ensures
        compilation.relocatable(target),
{
    let parts = compilation.parts();
    assert forall|owner: int, k: int|
        0 <= owner < compilation.owners() && 0 <= k < compilation.owner_relocations(
            owner,
        ).len() implies #[trigger] compilation.takes(target, owner, k) by {
        lemma_parts(compilation, Seq::empty());
        lemma_text_grows(parts, compilation.owner_part(owner), parts.len() as int);
    }
}

/// The artifact has a dynamic trampoline for every imported function that
/// has one, and the pointer to it is the address at which the dynamic
/// loader found its symbol: it is not null unless the loader found the
/// symbol at the address null.
pub proof fn lemma_dynamic_trampolines_are_not_null(
    artifact: NativeArtifact,
    metadata: ModuleMetadata,
    path: std::path::PathBuf,
    library: libloading::Library,
    lookups: Seq<SymbolLookup>,
    signatures: Seq<wasmer_vm::VMSharedSignatureIndex>,
    f: int,
)
    requires
        artifact.hydrated(metadata, path, library, lookups, signatures),
        0 <= f < metadata.dynamic_trampolines(),
        lookups[metadata.function_body_lengths@.len() + metadata.signatures@.len() + f]->Found_0
            != 0,
    ensures
        artifact.dynamic_trampolines().len() == metadata.dynamic_trampolines(),
        artifact.dynamic_trampolines()[f].address != 0,
{
}

/// Artifacts that are made of the same metadata have tables of the same
/// shape, whatever the dynamic loader found: as many pointers to function
/// bodies, with the same lengths, and as many dynamic trampolines. An
/// artifact that is loaded again from its shared library is made of the
/// metadata that is stored there.
pub proof fn lemma_same_metadata_same_shape(
    artifact: NativeArtifact,
    other: NativeArtifact,
    metadata: ModuleMetadata,
    path: std::path::PathBuf,
    library: libloading::Library,
    lookups: Seq<SymbolLookup>,
    signatures: Seq<wasmer_vm::VMSharedSignatureIndex>,
    other_path: std::path::PathBuf,
    other_library: libloading::Library,
    other_lookups: Seq<SymbolLookup>,
    other_signatures: Seq<wasmer_vm::VMSharedSignatureIndex>,
)
    requires
        artifact.hydrated(metadata, path, library, lookups, signatures),
        other.hydrated(metadata, other_path, other_library, other_lookups, other_signatures),
    ensures
        artifact.metadata_of() == other.metadata_of(),
        artifact.functions().len() == other.functions().len(),
        forall|i: int|
            0 <= i < artifact.functions().len() ==> (#[trigger] artifact.functions()[i]).length
                == other.functions()[i].length,
        artifact.dynamic_trampolines().len() == other.dynamic_trampolines().len(),
{
    assert forall|i: int| 0 <= i < artifact.functions().len() implies (
    #[trigger] artifact.functions()[i]).length == other.functions()[i].length by {
        assert(other.functions()[i].length == metadata.function_body_lengths@[i] as usize);
    }
}

/// An artifact that was made for another target cannot be instantiated.
pub proof fn lemma_cross_compiled_is_not_instantiable(artifact: NativeArtifact)
    requires
        artifact.cross_compiled(),
    ensures
        !artifact.instantiable(),
{
}

} // verus!
