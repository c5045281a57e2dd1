//! The artifact: a compiled module as a shared library, with the pointers
//! into the library once it is loaded.

use crate::compilation::Compilation;
use crate::emit::{emit, emitted, nul_in_prefix_message, ObjectFile};
use crate::error::{CompileError, DeserializeError, InstantiationError, LinkError};
use crate::linker::{link_command, linker_arguments, linker_program, LinkCommand};
use crate::metadata::{frame_metadata, framed, ModuleMetadata};
use crate::names::{symbol_name, SymbolRole};
use crate::tables::{FunctionTable, SignatureTable, TrampolineTable};
use crate::target::{
    default_extension, extension_for, has_host_magic, has_magic, is_cross_compiling, object_target,
    object_target_of, HostPlatform, Triple,
};
use vstd::prelude::*;

verus! {

/// A loaded shared library, `libloading::Library`. The library stays
/// loaded as long as the value lives.
#[verifier::external_type_specification]
#[verifier::external_body]
pub struct ExLibrary(libloading::Library);

/// A path in the file system, `std::path::PathBuf`.
#[verifier::external_type_specification]
#[verifier::external_body]
pub struct ExPathBuf(std::path::PathBuf);

/// The identifier of a signature in the registry of the runtime,
/// `wasmer_vm::VMSharedSignatureIndex`.
#[verifier::external_type_specification]
#[verifier::external_body]
pub struct ExSharedSignatureIndex(wasmer_vm::VMSharedSignatureIndex);

/// The registry of the signatures of a process,
/// `wasmer_vm::SignatureRegistry`.
#[verifier::external_type_specification]
#[verifier::external_body]
pub struct ExSignatureRegistry(wasmer_vm::SignatureRegistry);

/// A piece of machine code in a loaded library: where it starts, and how
/// many bytes it has as far as that is known.
#[derive(Clone, Copy, Debug, PartialEq, Eq, Structural)]
pub struct FunctionPointer {
    pub address: usize,
    pub length: usize,
}

/// A symbol that has to be looked up in the loaded library.
#[derive(Debug)]
pub struct SymbolRequest {
    pub role: SymbolRole,
    /// The index of the part among those of its kind.
    pub index: usize,
    pub name: String,
}

/// What the dynamic loader answered for a symbol: its address, or the
/// reason why there is none.
#[derive(Debug)]
pub enum SymbolLookup {
    Found(usize),
    Missing(String),
}

/// What is needed to link a compiled module into a shared library.
#[derive(Debug)]
pub struct NativeBuild {
    /// The relocatable object, to be written to a file.
    pub object: ObjectFile,
    /// The extension of the shared library.
    pub extension: &'static str,
    /// Whether the library is made for another target than the host, and
    /// can therefore not be loaded here.
    pub cross_compiling: bool,
    /// The invocation of the linker.
    pub command: LinkCommand,
}

/// A compiled module, ready to be instantiated.
#[derive(Debug)]
pub struct NativeArtifact {
    sharedobject_path: std::path::PathBuf,
    metadata: ModuleMetadata,
    library: Option<libloading::Library>,
    finished_functions: FunctionTable,
    finished_dynamic_function_trampolines: TrampolineTable,
    signatures: SignatureTable,
}

/// The message for bytes that are no shared library of the host.
pub open spec fn incompatible_message() -> Seq<char> {
    "The provided bytes are not in any native format Wasmer can understand"@
}

/// The message for an engine that cannot compile.
pub open spec fn no_compiler_message() -> Seq<char> {
    "Compilation is not enabled in the engine"@
}

/// The message for an artifact that was made for another target.
pub open spec fn cross_compiled_message() -> Seq<char> {
    "Cross compiled artifacts can't be instantiated."@
}

/// The message for a shared library that the dynamic loader did not open.
pub open spec fn library_loading_message(reason: Seq<char>) -> Seq<char> {
    "Library loading failed: "@ + reason
}

/// The message for a shared library without the metadata symbol.
pub open spec fn foreign_library_message(reason: Seq<char>) -> Seq<char> {
    "The provided object file doesn't seem to be generated by Wasmer: "@ + reason
}

impl ModuleMetadata {
    /// Whether the metadata records the bodies of a compilation: a length
    /// for each local function, which is the length of its machine code.
    pub open spec fn records_bodies(self, compilation: Compilation) -> bool {
        &&& self.function_body_lengths@.len() == compilation.functions@.len()
        &&& forall|i: int|
            0 <= i < compilation.functions@.len() ==> #[trigger] self.function_body_lengths@[i]
                == compilation.functions@[i].body@.len()
    }

    /// Tests whether the metadata records the bodies of a compilation.
    pub fn has_lengths_of(&self, compilation: &Compilation) -> (recorded: bool)
        ensures
            recorded == self.records_bodies(*compilation),
    {
        let lengths = self.function_body_lengths.to_vec();
        if lengths.len() != compilation.functions.len() {
            return false;
        }
        let mut i: usize = 0;
        while i < lengths.len()
            invariant
                i <= lengths@.len() == compilation.functions@.len(),
                lengths@ == self.function_body_lengths@,
                forall|k: int|
                    0 <= k < i ==> #[trigger] lengths@[k] == compilation.functions@[k].body@.len(),
            decreases lengths.len() - i,
        {
            if lengths[i] != compilation.functions[i].body.len() as u64 {
                return false;
            }
            i += 1;
        }
        true
    }

    /// The number of symbols that a loader looks up: one for each function
    /// body, each signature and each imported function with a dynamic
    /// trampoline.
    pub open spec fn symbol_count(self) -> nat {
        (self.function_body_lengths@.len() + self.signatures@.len()
            + self.dynamic_trampolines()) as nat
    }

    /// The kind of part that lookup `i` is for: function bodies come
    /// first, then call trampolines, then dynamic trampolines.
    pub open spec fn lookup_role(self, i: int) -> SymbolRole {
        if i < self.function_body_lengths@.len() {
            SymbolRole::FunctionBody
        } else if i < self.function_body_lengths@.len() + self.signatures@.len() {
            SymbolRole::CallTrampoline
        } else {
            SymbolRole::DynamicTrampoline
        }
    }

    /// The index among the parts of its kind that lookup `i` is for.
    pub open spec fn lookup_index(self, i: int) -> int {
        if i < self.function_body_lengths@.len() {
            i
        } else if i < self.function_body_lengths@.len() + self.signatures@.len() {
            i - self.function_body_lengths@.len()
        } else {
            i - self.function_body_lengths@.len() - self.signatures@.len()
        }
    }

    /// Whether `requests` are the lookups of the first `count` symbols.
    pub open spec fn requests_symbols(self, requests: Seq<SymbolRequest>, count: int) -> bool {
        &&& requests.len() == count
        &&& forall|i: int|
            0 <= i < count ==> {
                &&& (#[trigger] requests[i]).role == self.lookup_role(i)
                &&& requests[i].index == self.lookup_index(i)
                &&& requests[i].name@ == symbol_name(
                    self.lookup_role(i),
                    self.prefix@,
                    self.lookup_index(i) as nat,
                )
            }
    }

    /// The symbols that a loader has to look up to make the module
    /// callable, in the order in which it looks them up: the body of every
    /// local function, the call trampoline of every signature, and the
    /// dynamic trampoline of every imported function.
    pub fn symbol_requests(&self) -> (requests: Vec<SymbolRequest>)
        ensures
            self.requests_symbols(requests@, self.symbol_count() as int),
    {
        let mut requests: Vec<SymbolRequest> = Vec::new();
        let functions = self.function_body_lengths.len();
        let mut i: usize = 0;
        while i < functions
            invariant
                i <= functions == self.function_body_lengths@.len(),
                self.requests_symbols(requests@, i as int),
            decreases functions - i,
        {
            let name = self.get_function_name(i);
            requests.push(SymbolRequest { role: SymbolRole::FunctionBody, index: i, name });
            i += 1;
        }
        let signatures = self.signatures.len();
        let mut i: usize = 0;
        while i < signatures
            invariant
                i <= signatures == self.signatures@.len(),
                functions == self.function_body_lengths@.len(),
                self.requests_symbols(requests@, functions + i),
            decreases signatures - i,
        {
            let name = self.get_function_call_trampoline_name(i);
            requests.push(SymbolRequest { role: SymbolRole::CallTrampoline, index: i, name });
            i += 1;
        }
        let dynamics = self.num_dynamic_trampolines();
        let mut i: usize = 0;
        while i < dynamics
            invariant
                i <= dynamics == self.dynamic_trampolines(),
                functions == self.function_body_lengths@.len(),
                self.requests_symbols(requests@, functions + self.signatures@.len() + i),
            decreases dynamics - i,
        {
            let name = self.get_dynamic_function_trampoline_name(i);
            requests.push(SymbolRequest { role: SymbolRole::DynamicTrampoline, index: i, name });
            i += 1;
        }
        requests
    }
}

/// Whether a registry keeps `id` as the identifier of a signature. A
/// registry gives a signature its identifier when the signature is first
/// registered, and keeps it from then on.
pub uninterp spec fn holds_signature(
    registry: wasmer_vm::SignatureRegistry,
    signature: wasmer_types::FunctionType,
    id: wasmer_vm::VMSharedSignatureIndex,
) -> bool;

/// Whether `ids` are the identifiers that a registry keeps for
/// `signatures`, one for each and in their order.
pub open spec fn registered(
    registry: wasmer_vm::SignatureRegistry,
    signatures: Seq<wasmer_types::FunctionType>,
    ids: Seq<wasmer_vm::VMSharedSignatureIndex>,
) -> bool {
    &&& ids.len() == signatures.len()
    &&& forall|s: int|
        0 <= s < signatures.len() ==> holds_signature(registry, signatures[s], #[trigger] ids[s])
}

/// Whether signatures that are the same have the same identifier.
pub open spec fn same_for_same(
    signatures: Seq<wasmer_types::FunctionType>,
    ids: Seq<wasmer_vm::VMSharedSignatureIndex>,
) -> bool {
    forall|s: int, t: int|
        0 <= s < signatures.len() && 0 <= t < signatures.len() && signatures[s] == signatures[t]
            ==> #[trigger] ids[s] == #[trigger] ids[t]
}

/// Registers a signature with `wasmer_vm::SignatureRegistry::register`,
/// which answers with the identifier of the signature in the registry: the
/// one that the registry holds for the signature already, or a new one
/// that it holds from then on. Which number the identifier is depends on
/// what was registered before, and nothing is said of that. A registry
/// holds no second identifier for a signature.
#[verifier::external_body]
pub(crate) fn register_signature(
    registry: &wasmer_vm::SignatureRegistry,
    signature: &wasmer_types::FunctionType,
) -> (id: wasmer_vm::VMSharedSignatureIndex)
    ensures
        holds_signature(*registry, *signature, id),
        forall|other: wasmer_vm::VMSharedSignatureIndex| #[trigger]
            holds_signature(*registry, *signature, other) ==> other == id,
{
    registry.register(signature)
}

/// Registers the signatures of a module, and collects their identifiers in
/// the order of the signatures. Signatures that are the same get the same
/// identifier.
pub fn register_signatures(
    registry: &wasmer_vm::SignatureRegistry,
    signatures: &Vec<wasmer_types::FunctionType>,
) -> (ids: Vec<wasmer_vm::VMSharedSignatureIndex>)
    ensures
        registered(*registry, signatures@, ids@),
        same_for_same(signatures@, ids@),
{
    let mut ids: Vec<wasmer_vm::VMSharedSignatureIndex> = Vec::new();
    let mut i: usize = 0;
    while i < signatures.len()
        invariant
            i <= signatures@.len(),
            registered(*registry, signatures@.take(i as int), ids@),
            forall|s: int, t: int|
                0 <= s < i && 0 <= t < i && signatures@[s] == signatures@[t] ==> #[trigger] ids@[s]
                    == #[trigger] ids@[t],
        decreases signatures.len() - i,
    {
        let id = register_signature(registry, &signatures[i]);
        proof {
            assert forall|s: int| 0 <= s < i && signatures@[s] == signatures@[i as int] implies (
            #[trigger] ids@[s]) == id by {
                assert(signatures@.take(i as int)[s] == signatures@[s]);
                assert(holds_signature(*registry, signatures@[i as int], ids@[s]));
            }
        }
        ids.push(id);
        proof {
            assert forall|s: int| 0 <= s < i + 1 implies holds_signature(
                *registry,
                signatures@.take(i + 1)[s],
                #[trigger] ids@[s],
            ) by {
                if s < i {
                    assert(signatures@.take(i as int)[s] == signatures@[s]);
                }
            }
        }
        i += 1;
    }
    assert(signatures@.take(i as int) =~= signatures@);
    ids
}

/// Tests whether every lookup found its symbol.
pub fn all_found(lookups: &Vec<SymbolLookup>) -> (found: bool)
    ensures
        found == first_missing(lookups@, lookups@.len() as int) is None,
{
    let mut i: usize = 0;
    while i < lookups.len()
        invariant
            i <= lookups@.len(),
            first_missing(lookups@, i as int) is None,
        decreases lookups.len() - i,
    {
        if let SymbolLookup::Missing(_) = &lookups[i] {
            proof {
                lemma_missing_is_last(lookups@, i + 1, lookups@.len() as int);
            }
            return false;
        }
        i += 1;
    }
    true
}

/// The first of the `count` first lookups that found nothing, if there is
/// one.
pub open spec fn first_missing(lookups: Seq<SymbolLookup>, count: int) -> Option<int>
    decreases count,
{
    if count <= 0 {
        None
    } else {
        match first_missing(lookups, count - 1) {
            Some(i) => Some(i),
            None => if lookups[count - 1] is Missing {
                Some(count - 1)
            } else {
                None
            },
        }
    }
}

/// What there is to know of the first missing lookup: it is missing, and
/// everything before it was found.
pub proof fn lemma_first_missing(lookups: Seq<SymbolLookup>, count: int)
    requires
        0 <= count <= lookups.len(),
    ensures
        match first_missing(lookups, count) {
            Some(i) => 0 <= i < count && lookups[i] is Missing && forall|k: int|
                0 <= k < i ==> (#[trigger] lookups[k]) is Found,
            None => forall|k: int| 0 <= k < count ==> (#[trigger] lookups[k]) is Found,
        },
    decreases count,
{
    if count > 0 {
        lemma_first_missing(lookups, count - 1);
    }
}

impl NativeArtifact {
    /// Where the shared library lies. The file is the serialized form of
    /// the artifact.
    pub closed spec fn path(self) -> std::path::PathBuf {
        self.sharedobject_path
    }

    /// The metadata of the module.
    pub closed spec fn metadata_of(self) -> ModuleMetadata {
        self.metadata
    }

    /// The loaded library, unless the artifact was made for another
    /// target.
    pub closed spec fn library(self) -> Option<libloading::Library> {
        self.library
    }

    /// The bodies of the local functions in the loaded library.
    pub closed spec fn functions(self) -> Seq<FunctionPointer> {
        self.finished_functions@
    }

    /// The dynamic trampolines of the imported functions in the loaded
    /// library.
    pub closed spec fn dynamic_trampolines(self) -> Seq<FunctionPointer> {
        self.finished_dynamic_function_trampolines@
    }

    /// The identifiers under which the signatures of the module are
    /// registered.
    pub closed spec fn signature_ids(self) -> Seq<wasmer_vm::VMSharedSignatureIndex> {
        self.signatures@
    }

    /// Whether the artifact can be instantiated: it can if it holds a
    /// loaded library.
    pub open spec fn instantiable(self) -> bool {
        self.library() is Some
    }

    /// Whether the artifact is as one made for another target: without a
    /// library, without pointers and without signatures.
    pub open spec fn cross_compiled(self) -> bool {
        &&& self.library() is None
        &&& self.functions().len() == 0
        &&& self.dynamic_trampolines().len() == 0
        &&& self.signature_ids().len() == 0
    }

    /// What [`NativeArtifact::hydrate`] makes of lookups that all found
    /// their symbol: every function body with the length that the metadata
    /// gives, every dynamic trampoline with no length, the signatures as
    /// they were registered.
    pub open spec fn hydrated(
        self,
        metadata: ModuleMetadata,
        path: std::path::PathBuf,
        library: libloading::Library,
        lookups: Seq<SymbolLookup>,
        signatures: Seq<wasmer_vm::VMSharedSignatureIndex>,
    ) -> bool {
        let functions = metadata.function_body_lengths@.len() as int;
        let first_dynamic = functions + metadata.signatures@.len();
        &&& self.path() == path
        &&& self.metadata_of() == metadata
        &&& self.library() == Some(library)
        &&& self.functions().len() == functions
        &&& forall|i: int|
            0 <= i < functions ==> (#[trigger] self.functions()[i]) == (FunctionPointer {
                address: lookups[i]->Found_0,
                length: metadata.function_body_lengths@[i] as usize,
            })
        &&& self.dynamic_trampolines().len() == metadata.dynamic_trampolines()
        &&& forall|i: int|
            0 <= i < metadata.dynamic_trampolines() ==> (#[trigger] self.dynamic_trampolines()[i])
                == (FunctionPointer { address: lookups[first_dynamic + i]->Found_0, length: 0 })
        &&& self.signature_ids() == signatures
    }

    /// Tests whether `bytes` look like an artifact that `host` can load:
    /// whether they begin like a shared library of the host, which is all
    /// that is looked at. No host but macOS, Linux and Windows can load
    /// any.
    pub fn is_deserializable(host: HostPlatform, bytes: &[u8]) -> (deserializable: bool)
        ensures
            deserializable == has_host_magic(host, bytes@),
    {
        has_magic(host, bytes)
    }

    /// The extension of shared libraries on the operating system of the
    /// triple: `dll` on Windows, `dylib` on Apple systems, `so` elsewhere.
    pub fn get_default_extension(triple: &Triple) -> (extension: &'static str)
        ensures
            extension@ == default_extension(triple.operating_system),
    {
        extension_for(triple)
    }

    /// Prepares the shared library of a compiled module for `target` on
    /// `host`.
    ///
    /// `compilation` is what the compiler of the engine made of the
    /// module, `metadata` records the length of every function body of
    /// it, and `serialized_metadata` is that metadata in its serialized
    /// form. Without a compilation, that is with an engine that has no
    /// compiler, there is nothing to build.
    ///
    /// The result holds the relocatable object as [`emit`] builds it from
    /// the framed metadata and the compilation, and says how the linker
    /// makes the shared library of it. The errors are, in this order: no
    /// compiler, a target that objects cannot be written for, a prefix
    /// from which no name can be derived that an object file can hold, and
    /// the first relocation that the object does not take.
    pub fn new(
        target: &Triple,
        host: &Triple,
        metadata: &ModuleMetadata,
        serialized_metadata: &[u8],
        compilation: Option<&Compilation>,
    ) -> (result: Result<NativeBuild, CompileError>)
        requires
            compilation matches Some(compilation) ==> compilation.well_formed()
                && metadata.records_bodies(*compilation),
        ensures
            match result {
                Ok(build) => {
                    &&& compilation is Some
                    &&& object_target_of(*target) is Ok
                    &&& compilation->Some_0.takes_names(metadata.prefix@)
                    &&& compilation->Some_0.relocatable(object_target_of(*target)->Ok_0)
                    &&& emitted(
                        build.object.contents(),
                        object_target_of(*target)->Ok_0,
                        metadata.prefix@,
                        framed(serialized_metadata@),
                        *compilation->Some_0,
                    )
                    &&& build.extension@ == default_extension(target.operating_system)
                    &&& build.cross_compiling == !target.same(*host)
                    &&& build.command.program@ == linker_program(build.cross_compiling)
                    &&& build.command.arguments_view() == linker_arguments(
                        target.operating_system,
                        target.name@,
                        build.cross_compiling,
                    )
                },
                Err(error) => match compilation {
                    None => error.message() == no_compiler_message(),
                    Some(compilation) => match object_target_of(*target) {
                        Err(message) => error.message() == message,
                        Ok(object_target) => if !compilation.takes_names(metadata.prefix@) {
                            error.message() == nul_in_prefix_message()
                        } else {
                            !compilation.relocatable(object_target) && exists|
                                owner: int,
                                k: int,
                            | #[trigger]
                                compilation.first_refused(object_target, owner, k)
                                    && error.message() == compilation.refusal(
                                    object_target,
                                    owner,
                                    k,
                                )
                        },
                    },
                },
            },
    {
        let compilation = match compilation {
            Some(compilation) => compilation,
            None => {
                return Err(
                    CompileError::Codegen(
                        String::from_str("Compilation is not enabled in the engine"),
                    ),
                );
            },
        };
        let object_target = match object_target(target) {
            Ok(object_target) => object_target,
            Err(error) => {
                return Err(error);
            },
        };
        let blob = frame_metadata(serialized_metadata);
        let object = match emit(object_target, metadata, blob.as_slice(), compilation) {
            Ok(object) => object,
            Err(error) => {
                return Err(error);
            },
        };
        let cross_compiling = is_cross_compiling(target, host);
        Ok(
            NativeBuild {
                object,
                extension: extension_for(target),
                cross_compiling,
                command: link_command(target, cross_compiling),
            },
        )
    }

    /// Makes the artifact of a shared library for another target. Such an
    /// artifact has no loaded library and no pointers.
    pub fn from_parts_crosscompiled(
        metadata: ModuleMetadata,
        sharedobject_path: std::path::PathBuf,
    ) -> (result: Result<Self, CompileError>)
        ensures
            result matches Ok(artifact) && {
                &&& artifact.path() == sharedobject_path
                &&& artifact.metadata_of() == metadata
                &&& artifact.cross_compiled()
            },
    {
        Ok(
            NativeArtifact {
                sharedobject_path,
                metadata,
                library: None,
                finished_functions: FunctionTable::from_vec(Vec::new()),
                finished_dynamic_function_trampolines: TrampolineTable::from_vec(Vec::new()),
                signatures: SignatureTable::from_vec(Vec::new()),
            },
        )
    }

    /// Makes the artifact of a loaded shared library from what the dynamic
    /// loader found in it and from the identifiers of its signatures.
    ///
    /// `lookups` are the answers to [`ModuleMetadata::symbol_requests`], in
    /// their order and up to the first one that is missing, and
    /// `signatures` are the identifiers under which the signatures of the
    /// module were registered. The first missing symbol is a code
    /// generation error with the reason for which it is missing. Otherwise
    /// the artifact holds the library, a pointer to every function body
    /// with the length that the metadata gives, a pointer to every dynamic
    /// trampoline, and the signatures.
    pub fn hydrate(
        metadata: ModuleMetadata,
        sharedobject_path: std::path::PathBuf,
        lib: libloading::Library,
        lookups: &Vec<SymbolLookup>,
        signatures: Vec<wasmer_vm::VMSharedSignatureIndex>,
    ) -> (result: Result<Self, CompileError>)
        requires
            lookups@.len() <= metadata.symbol_count(),
            lookups@.len() == metadata.symbol_count() || (lookups@.len() > 0
                && lookups@.last() is Missing),
        ensures
            match first_missing(lookups@, lookups@.len() as int) {
                Some(i) => result matches Err(error) && error.message() == lookups@[i]->Missing_0@,
                None => result matches Ok(artifact) && artifact.hydrated(
                    metadata,
                    sharedobject_path,
                    lib,
                    lookups@,
                    signatures@,
                ),
            },
    {
        let lengths = metadata.function_body_lengths.to_vec();
        let functions = lengths.len();
        let mut finished_functions: Vec<FunctionPointer> = Vec::new();
        let mut finished_dynamic_function_trampolines: Vec<FunctionPointer> = Vec::new();
        let dynamics = metadata.num_dynamic_trampolines();
        let mut i: usize = 0;
        while i < lookups.len()
            invariant
                i <= lookups@.len() <= metadata.symbol_count(),
                lengths@ == metadata.function_body_lengths@,
                functions == metadata.function_body_lengths@.len(),
                dynamics == metadata.dynamic_trampolines(),
                first_missing(lookups@, i as int) is None,
                finished_functions@.len() == if i < functions {
                    i as int
                } else {
                    functions as int
                },
                forall|k: int|
                    0 <= k < finished_functions@.len() ==> (#[trigger] finished_functions@[k])
                        == (FunctionPointer {
                        address: lookups@[k]->Found_0,
                        length: metadata.function_body_lengths@[k] as usize,
                    }),
                finished_dynamic_function_trampolines@.len() == if i < functions
                    + metadata.signatures@.len() {
                    0
                } else {
                    i - functions - metadata.signatures@.len()
                },
                forall|k: int|
                    0 <= k < finished_dynamic_function_trampolines@.len() ==> (
                    #[trigger] finished_dynamic_function_trampolines@[k]) == (FunctionPointer {
                        address: lookups@[functions + metadata.signatures@.len() + k]->Found_0,
                        length: 0,
                    }),
            decreases lookups.len() - i,
        {
            match &lookups[i] {
                SymbolLookup::Missing(reason) => {
                    proof {
                        lemma_first_missing(lookups@, lookups@.len() as int);
                        lemma_first_missing(lookups@, i as int);
                        lemma_first_missing(lookups@, i + 1);
                        lemma_missing_is_last(lookups@, i + 1, lookups@.len() as int);
                    }
                    return Err(CompileError::Codegen(reason.clone()));
                },
                SymbolLookup::Found(address) => {
                    if i < functions {
                        finished_functions.push(
                            FunctionPointer {
                                address: *address,
                                length: lengths[i] as usize,
                            },
                        );
                    } else if i - functions >= metadata.signatures.len() {
                        finished_dynamic_function_trampolines.push(
                            FunctionPointer { address: *address, length: 0 },
                        );
                    }
                },
            }
            i += 1;
        }
        proof {
            lemma_first_missing(lookups@, lookups@.len() as int);
        }
        Ok(
            NativeArtifact {
                sharedobject_path,
                metadata,
                library: Some(lib),
                finished_functions: FunctionTable::from_vec(finished_functions),
                finished_dynamic_function_trampolines: TrampolineTable::from_vec(
                    finished_dynamic_function_trampolines,
                ),
                signatures: SignatureTable::from_vec(signatures),
            },
        )
    }

    /// Decides whether `bytes` can be loaded as an artifact on `host`.
    /// Bytes that do not begin like a shared library of the host are
    /// incompatible. Accepted bytes are to be stored in a file, and the
    /// file loaded without a second look at its beginning.
    pub fn deserialize(host: HostPlatform, bytes: &[u8]) -> (result: Result<(), DeserializeError>)
        ensures
            result is Ok <==> has_host_magic(host, bytes@),
            result matches Err(error) ==> error.is_incompatible(incompatible_message()),
    {
        if !Self::is_deserializable(host, bytes) {
            return Err(
                DeserializeError::Incompatible(
                    String::from_str(
                        "The provided bytes are not in any native format Wasmer can understand",
                    ),
                ),
            );
        }
        Ok(())
    }

    /// Decides whether a file can be loaded as an artifact on `host`, from
    /// the five bytes at its start.
    pub fn deserialize_from_file(host: HostPlatform, header: &[u8; 5]) -> (result: Result<
        (),
        DeserializeError,
    >)
        ensures
            result is Ok <==> has_host_magic(host, header@),
            result matches Err(error) ==> error.is_incompatible(incompatible_message()),
    {
        Self::deserialize(host, header.as_slice())
    }

    /// Makes the artifact of a loaded shared library from what the dynamic
    /// loader found in it.
    ///
    /// `lookups` are the answers to [`ModuleMetadata::symbol_requests`], in
    /// their order and up to the first one that is missing. The first
    /// missing symbol is a code generation error with the reason for which
    /// it is missing. Otherwise the signatures of the module are
    /// registered with `registry`, and the artifact is made of the lookups
    /// and of the identifiers of the signatures as
    /// [`NativeArtifact::hydrate`] makes it: the identifier at the index of
    /// a signature is the one that the registry keeps for that signature.
    pub fn from_parts(
        registry: &wasmer_vm::SignatureRegistry,
        metadata: ModuleMetadata,
        sharedobject_path: std::path::PathBuf,
        lib: libloading::Library,
        lookups: &Vec<SymbolLookup>,
    ) -> (result: Result<Self, CompileError>)
        requires
            lookups@.len() <= metadata.symbol_count(),
            lookups@.len() == metadata.symbol_count() || (lookups@.len() > 0
                && lookups@.last() is Missing),
        ensures
            match first_missing(lookups@, lookups@.len() as int) {
                Some(i) => result matches Err(error) && error.message() == lookups@[i]->Missing_0@,
                None => result matches Ok(artifact) && artifact.hydrated(
                    metadata,
                    sharedobject_path,
                    lib,
                    lookups@,
                    artifact.signature_ids(),
                ) && registered(*registry, metadata.signatures@, artifact.signature_ids())
                    && same_for_same(metadata.signatures@, artifact.signature_ids()),
            },
    {
        let signatures = if all_found(lookups) {
            register_signatures(registry, &metadata.signatures)
        } else {
            Vec::new()
        };
        Self::hydrate(metadata, sharedobject_path, lib, lookups, signatures)
    }

    /// Makes the artifact of a shared library that was loaded from a file,
    /// as [`NativeArtifact::from_parts`] does. A symbol that is missing is
    /// reported as a failure of the compiler.
    pub fn deserialize_from_file_unchecked(
        registry: &wasmer_vm::SignatureRegistry,
        metadata: ModuleMetadata,
        path: std::path::PathBuf,
        lib: libloading::Library,
        lookups: &Vec<SymbolLookup>,
    ) -> (result: Result<Self, DeserializeError>)
        requires
            lookups@.len() <= metadata.symbol_count(),
            lookups@.len() == metadata.symbol_count() || (lookups@.len() > 0
                && lookups@.last() is Missing),
        ensures
            match first_missing(lookups@, lookups@.len() as int) {
                Some(i) => result matches Err(error) && error.is_compiler(
                    lookups@[i]->Missing_0@,
                ),
                None => result matches Ok(artifact) && artifact.hydrated(
                    metadata,
                    path,
                    lib,
                    lookups@,
                    artifact.signature_ids(),
                ) && registered(*registry, metadata.signatures@, artifact.signature_ids())
                    && same_for_same(metadata.signatures@, artifact.signature_ids()),
            },
    {
        match Self::from_parts(registry, metadata, path, lib, lookups) {
            Ok(artifact) => Ok(artifact),
            Err(error) => Err(DeserializeError::Compiler(error)),
        }
    }

    /// The error for a shared library that the dynamic loader did not
    /// open, with the reason that the loader gave.
    pub fn library_loading_failed(reason: &str) -> (error: DeserializeError)
        ensures
            error.is_corrupted_binary(library_loading_message(reason@)),
    {
        DeserializeError::CorruptedBinary(
            String::from_str("Library loading failed: ").concat(reason),
        )
    }

    /// The error for a shared library that has no metadata symbol, with
    /// the reason that the loader gave.
    pub fn metadata_symbol_missing(reason: &str) -> (error: DeserializeError)
        ensures
            error.is_corrupted_binary(foreign_library_message(reason@)),
    {
        DeserializeError::CorruptedBinary(
            String::from_str(
                "The provided object file doesn't seem to be generated by Wasmer: ",
            ).concat(reason),
        )
    }

    /// The error for metadata that cannot be decoded, with the reason that
    /// the decoder gave.
    pub fn metadata_corrupted(reason: &str) -> (error: DeserializeError)
        ensures
            error.is_corrupted_binary(reason@),
    {
        DeserializeError::CorruptedBinary(String::from_str(reason))
    }

    /// Where the shared library lies.
    pub fn sharedobject_path(&self) -> (path: &std::path::PathBuf)
        ensures
            *path == self.path(),
    {
        &self.sharedobject_path
    }

    /// The metadata of the module.
    pub fn metadata(&self) -> (metadata: &ModuleMetadata)
        ensures
            *metadata == self.metadata_of(),
    {
        &self.metadata
    }

    /// Whether the artifact holds a loaded library.
    pub fn is_loaded(&self) -> (loaded: bool)
        ensures
            loaded == self.library() is Some,
    {
        self.library.is_some()
    }

    /// Frame information is not registered for native artifacts.
    pub fn register_frame_info(&self) {
    }

    /// The pointers to the bodies of the local functions, by local
    /// function index.
    pub fn finished_functions(&self) -> (functions: &FunctionTable)
        ensures
            functions@ == self.functions(),
    {
        &self.finished_functions
    }

    /// The pointers to the dynamic trampolines of the imported functions,
    /// by function index.
    pub fn finished_dynamic_function_trampolines(&self) -> (trampolines: &TrampolineTable)
        ensures
            trampolines@ == self.dynamic_trampolines(),
    {
        &self.finished_dynamic_function_trampolines
    }

    /// The identifiers of the signatures, by signature index.
    pub fn signatures(&self) -> (signatures: &SignatureTable)
        ensures
            signatures@ == self.signature_ids(),
    {
        &self.signatures
    }

    /// Checks that the artifact can be instantiated: it can, unless it was
    /// made for another target and holds no loaded library.
    pub fn preinstantiate(&self) -> (result: Result<(), InstantiationError>)
        ensures
            result is Ok <==> self.instantiable(),
            result matches Err(error) ==> error.is_link_trap(cross_compiled_message()),
    {
        if self.library.is_none() {
            return Err(
                InstantiationError::Link(
                    LinkError::Trap(
                        String::from_str("Cross compiled artifacts can't be instantiated."),
                    ),
                ),
            );
        }
        Ok(())
    }
}

/// A missing lookup at the end of the lookups is the first missing one if
/// nothing is missing before it.
proof fn lemma_missing_is_last(lookups: Seq<SymbolLookup>, count: int, all: int)
    requires
        0 < count <= all <= lookups.len(),
        first_missing(lookups, count) == Some(count - 1),
    ensures
        first_missing(lookups, all) == Some(count - 1),
    decreases all - count,
{
    if count < all {
        lemma_missing_is_last(lookups, count, all - 1);
    }
}

} // verus!
