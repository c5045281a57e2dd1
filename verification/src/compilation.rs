//! What a compiler hands over for one module: machine code, trampolines,
//! custom sections, and the relocations that tie them together.

use crate::metadata::FunctionBodyLengths;
use vstd::prelude::*;

verus! {

/// A helper of the runtime that compiled code may call.
#[derive(Clone, Copy, Debug, PartialEq, Eq, Structural)]
pub enum LibCall {
    CeilF32,
    CeilF64,
    FloorF32,
    FloorF64,
    NearestF32,
    NearestF64,
    Probestack,
    RaiseTrap,
    TruncF32,
    TruncF64,
}

/// What a relocation refers to.
#[derive(Clone, Copy, Debug, PartialEq, Eq, Structural)]
pub enum RelocationTarget {
    /// A function defined in the module, by its local index.
    LocalFunc(usize),
    /// A helper of the runtime.
    LibCall(LibCall),
    /// A jump table of a local function. These are resolved inside the
    /// code and need nothing from the object.
    JumpTable(usize, usize),
    /// A custom section, by its index.
    CustomSection(usize),
}

/// A place in machine code that has to be patched with an address.
#[derive(Clone, Copy, Debug, PartialEq, Eq, Structural)]
pub struct Relocation {
    pub target: RelocationTarget,
    /// The offset of the place from the start of the code it belongs to.
    pub offset: u32,
    /// What is added to the address.
    pub addend: i64,
}

/// How the memory of a custom section may be used.
#[derive(Clone, Copy, Debug, PartialEq, Eq, Structural)]
pub enum CustomSectionProtection {
    /// The section is read.
    Read,
    /// The section is read and executed.
    ReadExecute,
}

/// Bytes that the compiler wants to have next to the code.
#[derive(Debug)]
pub struct CustomSection {
    pub protection: CustomSectionProtection,
    pub bytes: Vec<u8>,
    pub relocations: Vec<Relocation>,
}

/// The machine code of one function.
#[derive(Debug)]
pub struct FunctionBody {
    pub body: Vec<u8>,
    pub relocations: Vec<Relocation>,
}

/// Everything the compiler made of one module.
#[derive(Debug)]
pub struct Compilation {
    /// The local functions, by local function index.
    pub functions: Vec<FunctionBody>,
    /// The custom sections, by section index.
    pub custom_sections: Vec<CustomSection>,
    /// The call trampolines, by signature index.
    pub function_call_trampolines: Vec<Vec<u8>>,
    /// The dynamic trampolines of the imported functions, by function index.
    pub dynamic_function_trampolines: Vec<Vec<u8>>,
}

/// The name of the function behind a helper, as most systems spell it.
pub open spec fn libcall_name(libcall: LibCall) -> Seq<char> {
    match libcall {
        LibCall::CeilF32 => "wasmer_f32_ceil"@,
        LibCall::CeilF64 => "wasmer_f64_ceil"@,
        LibCall::FloorF32 => "wasmer_f32_floor"@,
        LibCall::FloorF64 => "wasmer_f64_floor"@,
        LibCall::NearestF32 => "wasmer_f32_nearest"@,
        LibCall::NearestF64 => "wasmer_f64_nearest"@,
        LibCall::Probestack => "wasmer_probestack"@,
        LibCall::RaiseTrap => "wasmer_raise_trap"@,
        LibCall::TruncF32 => "wasmer_f32_trunc"@,
        LibCall::TruncF64 => "wasmer_f64_trunc"@,
    }
}

/// Whether `name` is a name of the function behind a helper. The stack
/// probe has a second spelling, with an underscore in front, on systems
/// that put one in front of every C symbol.
pub open spec fn names_libcall(libcall: LibCall, name: Seq<char>) -> bool {
    name == libcall_name(libcall) || (libcall == LibCall::Probestack && name
        == "_wasmer_probestack"@)
}

/// Asks the runtime for the name of the function behind a helper, with
/// `wasmer_vm::libcalls::LibCall::to_function_name`. Which of the two
/// spellings of the stack probe comes back depends on the system that the
/// runtime was built for.
#[verifier::external_body]
pub(crate) fn libcall_function_name(libcall: LibCall) -> (name: String)
    ensures
        names_libcall(libcall, name@),
{
    let call = match libcall {
        LibCall::CeilF32 => wasmer_vm::libcalls::LibCall::CeilF32,
        LibCall::CeilF64 => wasmer_vm::libcalls::LibCall::CeilF64,
        LibCall::FloorF32 => wasmer_vm::libcalls::LibCall::FloorF32,
        LibCall::FloorF64 => wasmer_vm::libcalls::LibCall::FloorF64,
        LibCall::NearestF32 => wasmer_vm::libcalls::LibCall::NearestF32,
        LibCall::NearestF64 => wasmer_vm::libcalls::LibCall::NearestF64,
        LibCall::Probestack => wasmer_vm::libcalls::LibCall::Probestack,
        LibCall::RaiseTrap => wasmer_vm::libcalls::LibCall::RaiseTrap,
        LibCall::TruncF32 => wasmer_vm::libcalls::LibCall::TruncF32,
        LibCall::TruncF64 => wasmer_vm::libcalls::LibCall::TruncF64,
    };
    call.to_function_name().to_string()
}

/// The name of a helper does not hold the character with the number
/// zero.
pub proof fn lemma_libcall_name_has_no_nul(libcall: LibCall, name: Seq<char>)
    requires
        names_libcall(libcall, name),
    ensures
        !name.contains('\0'),
{
    reveal_strlit("wasmer_f32_ceil");
    reveal_strlit("wasmer_f64_ceil");
    reveal_strlit("wasmer_f32_floor");
    reveal_strlit("wasmer_f64_floor");
    reveal_strlit("wasmer_f32_nearest");
    reveal_strlit("wasmer_f64_nearest");
    reveal_strlit("wasmer_probestack");
    reveal_strlit("_wasmer_probestack");
    reveal_strlit("wasmer_raise_trap");
    reveal_strlit("wasmer_f32_trunc");
    reveal_strlit("wasmer_f64_trunc");
    if name.contains('\0') {
        let j = choose|j: int| 0 <= j < name.len() && name[j] == '\0';
        assert(name[j] == '\0');
    }
}

impl Compilation {
    /// Whether a relocation refers to something that the compilation
    /// holds.
    pub open spec fn holds_target(self, relocation: Relocation) -> bool {
        match relocation.target {
            RelocationTarget::LocalFunc(index) => index < self.functions@.len(),
            RelocationTarget::CustomSection(index) => index < self.custom_sections@.len(),
            _ => true,
        }
    }

    /// Whether every relocation refers to something that the compilation
    /// holds.
    pub open spec fn well_formed(self) -> bool {
        &&& forall|f: int, r: int|
            0 <= f < self.functions@.len() && 0 <= r < self.functions@[f].relocations@.len()
                ==> self.holds_target(#[trigger] self.functions@[f].relocations@[r])
        &&& forall|s: int, r: int|
            0 <= s < self.custom_sections@.len() && 0 <= r
                < self.custom_sections@[s].relocations@.len() ==> self.holds_target(
                #[trigger] self.custom_sections@[s].relocations@[r],
            )
    }

    /// The length in bytes of the machine code of each local function, as
    /// the metadata records it.
    pub fn function_body_lengths(&self) -> (lengths: FunctionBodyLengths)
        ensures
            lengths@.len() == self.functions@.len(),
            forall|i: int|
                0 <= i < lengths@.len() ==> #[trigger] lengths@[i]
                    == self.functions@[i].body@.len(),
    {
        let mut lengths: Vec<u64> = Vec::new();
        let mut i: usize = 0;
        while i < self.functions.len()
            invariant
                i <= self.functions@.len(),
                lengths@.len() == i,
                forall|k: int|
                    0 <= k < i ==> #[trigger] lengths@[k] == self.functions@[k].body@.len(),
            decreases self.functions.len() - i,
        {
            lengths.push(self.functions[i].body.len() as u64);
            i += 1;
        }
        FunctionBodyLengths::from_vec(lengths)
    }

    /// Tests whether a relocation refers to something that the compilation
    /// holds.
    fn has_target(&self, relocation: &Relocation) -> (held: bool)
        ensures
            held == self.holds_target(*relocation),
    {
        match relocation.target {
            RelocationTarget::LocalFunc(index) => index < self.functions.len(),
            RelocationTarget::CustomSection(index) => index < self.custom_sections.len(),
            _ => true,
        }
    }

    /// Tests whether all of `relocations` refer to something that the
    /// compilation holds.
    fn has_targets(&self, relocations: &Vec<Relocation>) -> (held: bool)
        ensures
            held == forall|r: int|
                0 <= r < relocations@.len() ==> self.holds_target(#[trigger] relocations@[r]),
    {
        let mut r: usize = 0;
        while r < relocations.len()
            invariant
                r <= relocations@.len(),
                forall|k: int| 0 <= k < r ==> self.holds_target(#[trigger] relocations@[k]),
            decreases relocations.len() - r,
        {
            if !self.has_target(&relocations[r]) {
                return false;
            }
            r += 1;
        }
        true
    }

    /// Tests whether every relocation refers to something that the
    /// compilation holds.
    pub fn is_well_formed(&self) -> (well_formed: bool)
        ensures
            well_formed == self.well_formed(),
    {
        let mut f: usize = 0;
        while f < self.functions.len()
            invariant
                f <= self.functions@.len(),
                forall|i: int, r: int|
                    0 <= i < f && 0 <= r < self.functions@[i].relocations@.len()
                        ==> self.holds_target(#[trigger] self.functions@[i].relocations@[r]),
            decreases self.functions.len() - f,
        {
            if !self.has_targets(&self.functions[f].relocations) {
                return false;
            }
            f += 1;
        }
        let mut s: usize = 0;
        while s < self.custom_sections.len()
            invariant
                s <= self.custom_sections@.len(),
                forall|i: int, r: int|
                    0 <= i < self.functions@.len() && 0 <= r
                        < self.functions@[i].relocations@.len() ==> self.holds_target(
                        #[trigger] self.functions@[i].relocations@[r],
                    ),
                forall|i: int, r: int|
                    0 <= i < s && 0 <= r < self.custom_sections@[i].relocations@.len()
                        ==> self.holds_target(
                        #[trigger] self.custom_sections@[i].relocations@[r],
                    ),
            decreases self.custom_sections.len() - s,
        {
            if !self.has_targets(&self.custom_sections[s].relocations) {
                return false;
            }
            s += 1;
        }
        true
    }
}

} // verus!
