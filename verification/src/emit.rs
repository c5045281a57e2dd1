//! Laying a compiled module out in a relocatable object.
//!
//! The metadata goes into the data section under its fixed symbol. Every
//! custom section, function body, call trampoline and dynamic trampoline
//! goes into the text section, in that order, each under the symbol that is
//! derived from its index. Then the relocations of the functions and of the
//! custom sections are handed to the object, each at the offset of its owner
//! in the text section plus its own.

use crate::compilation::{
    lemma_libcall_name_has_no_nul, libcall_function_name, names_libcall, Compilation,
    CustomSectionProtection, LibCall, Relocation, RelocationTarget,
};
use crate::error::CompileError;
use crate::metadata::ModuleMetadata;
use crate::names::{
    holds_nul, holds_zero, lemma_name_bytes_injective, lemma_name_bytes_not_empty,
    lemma_name_bytes_nul, lemma_symbol_name_bytes, lemma_symbol_name_injective,
    lemma_symbol_name_is_not_metadata, lemma_tags, metadata_symbol, name_bytes, symbol_name,
    SymbolRole,
};
use crate::object_file::{
    add_relocation, add_symbol, add_symbol_data, addend_in_place, empty_section, error_text,
    failed_image, invalid_offset_message, kept_relocation, new_object, new_symbol, object_image,
    object_sections, object_standard_sections, object_symbol_ids, object_symbols, object_target,
    section_id, section_index, section_symbol, symbol_id, symbol_index, symbol_section_and_offset,
    writable, write_object, written_image, written_in_place, ObjectRelocation, RelocationEncoding,
    RelocationKind, RelocationRecord, SectionRecord, StandardSection, SymbolKind, SymbolRecord,
    SymbolScope,
};
use crate::target::{ObjectArchitecture, ObjectFormat, ObjectTarget};
use vstd::prelude::*;

verus! {

/// What an object holds.
#[verifier::ext_equal]
pub struct Contents {
    pub target: ObjectTarget,
    pub symbols: Seq<SymbolRecord>,
    pub symbol_ids: Map<Seq<u8>, int>,
    pub sections: Seq<SectionRecord>,
    pub standard_sections: Map<StandardSection, int>,
}

/// What an object holds.
pub open spec fn contents(obj: object::write::Object) -> Contents {
    Contents {
        target: object_target(obj),
        symbols: object_symbols(obj),
        symbol_ids: object_symbol_ids(obj),
        sections: object_sections(obj),
        standard_sections: object_standard_sections(obj),
    }
}

/// A relocatable object that this library has built.
#[derive(Debug)]
pub struct ObjectFile {
    obj: object::write::Object,
}

impl ObjectFile {
    /// Every name of the object can be written.
    #[verifier::type_invariant]
    spec fn names_can_be_written(self) -> bool {
        writable(object_symbols(self.obj))
    }

    /// What the object holds.
    pub closed spec fn contents(self) -> Contents {
        contents(self.obj)
    }

    /// The object file that the object is written as, or the message of
    /// the error that writing it ends with.
    pub closed spec fn image(self) -> Result<Seq<u8>, Seq<char>> {
        object_image(self.obj)
    }

    /// The object, to be looked at.
    pub fn object(&self) -> (obj: &object::write::Object)
        ensures
            contents(*obj) == self.contents(),
            object_image(*obj) == self.image(),
    {
        &self.obj
    }
}

/// One piece of the text section: a custom section, a function body or a
/// trampoline.
pub struct Part {
    pub role: SymbolRole,
    /// The index of the piece among those of its kind.
    pub index: int,
    /// What the symbol of the piece stands for.
    pub kind: SymbolKind,
    pub data: Seq<u8>,
}

/// What the symbol of a custom section stands for. A section that is only
/// read counts as data, though it is stored with the code.
pub open spec fn section_symbol_kind(protection: CustomSectionProtection) -> SymbolKind {
    match protection {
        CustomSectionProtection::ReadExecute => SymbolKind::Text,
        CustomSectionProtection::Read => SymbolKind::Data,
    }
}

impl Compilation {
    /// The pieces of the text section in their order: custom sections,
    /// function bodies, call trampolines, dynamic trampolines.
    pub open spec fn parts(self) -> Seq<Part> {
        Seq::new(
            self.custom_sections@.len(),
            |i: int|
                Part {
                    role: SymbolRole::Section,
                    index: i,
                    kind: section_symbol_kind(self.custom_sections@[i].protection),
                    data: self.custom_sections@[i].bytes@,
                },
        ) + Seq::new(
            self.functions@.len(),
            |i: int|
                Part {
                    role: SymbolRole::FunctionBody,
                    index: i,
                    kind: SymbolKind::Text,
                    data: self.functions@[i].body@,
                },
        ) + Seq::new(
            self.function_call_trampolines@.len(),
            |i: int|
                Part {
                    role: SymbolRole::CallTrampoline,
                    index: i,
                    kind: SymbolKind::Text,
                    data: self.function_call_trampolines@[i]@,
                },
        ) + Seq::new(
            self.dynamic_function_trampolines@.len(),
            |i: int|
                Part {
                    role: SymbolRole::DynamicTrampoline,
                    index: i,
                    kind: SymbolKind::Text,
                    data: self.dynamic_function_trampolines@[i]@,
                },
        )
    }
}

/// The text section when the first `count` pieces are in it.
pub open spec fn text_before(parts: Seq<Part>, count: int) -> Seq<u8>
    decreases count,
{
    if count <= 0 {
        Seq::empty()
    } else {
        text_before(parts, count - 1) + parts[count - 1].data
    }
}

/// The name of the symbol of a piece, as bytes.
pub open spec fn part_name(prefix: Seq<char>, part: Part) -> Seq<u8> {
    name_bytes(symbol_name(part.role, prefix, part.index as nat))
}

/// The symbol of the metadata: a data object of the size of the stored
/// metadata, at the start of the data section.
pub open spec fn metadata_record(blob: Seq<u8>) -> SymbolRecord {
    SymbolRecord {
        name: name_bytes(metadata_symbol()),
        kind: SymbolKind::Data,
        scope: SymbolScope::Dynamic,
        weak: false,
        section: Some(0),
        value: 0,
        size: blob.len() as int,
    }
}

/// The symbol of piece `k`: it lies in the text section, behind the pieces
/// before it.
pub open spec fn part_record(prefix: Seq<char>, parts: Seq<Part>, k: int) -> SymbolRecord {
    SymbolRecord {
        name: part_name(prefix, parts[k]),
        kind: parts[k].kind,
        scope: SymbolScope::Dynamic,
        weak: false,
        section: Some(1),
        value: text_before(parts, k).len() as int,
        size: parts[k].data.len() as int,
    }
}

/// The names under which an object finds the metadata and the first
/// `count` pieces: each under its own name, and nothing else.
pub open spec fn names_parts(
    ids: Map<Seq<u8>, int>,
    prefix: Seq<char>,
    parts: Seq<Part>,
    count: int,
) -> bool {
    &&& ids.contains_key(name_bytes(metadata_symbol()))
    &&& ids[name_bytes(metadata_symbol())] == 0
    &&& forall|k: int|
        0 <= k < count ==> ids.contains_key(#[trigger] part_name(prefix, parts[k]))
            && ids[part_name(prefix, parts[k])] == k + 1
    &&& forall|name: Seq<u8>| #[trigger]
        ids.contains_key(name) ==> name == name_bytes(metadata_symbol()) || exists|k: int|
            0 <= k < count && name == part_name(prefix, parts[k])
}

/// What an object holds when the metadata and the first `count` pieces are
/// laid out in it.
pub open spec fn laid_out(
    c: Contents,
    target: ObjectTarget,
    prefix: Seq<char>,
    blob: Seq<u8>,
    parts: Seq<Part>,
    count: int,
) -> bool {
    &&& c.target == target
    &&& c.symbols =~= seq![metadata_record(blob)] + Seq::new(
        count as nat,
        |k: int| part_record(prefix, parts, k),
    )
    &&& names_parts(c.symbol_ids, prefix, parts, count)
    &&& c.sections.len() == if count == 0 {
        1nat
    } else {
        2nat
    }
    &&& c.sections[0] == SectionRecord { data: blob, ..empty_section() }
    &&& count > 0 ==> c.sections[1] == SectionRecord {
        data: text_before(parts, count),
        ..empty_section()
    }
    &&& c.standard_sections =~= if count == 0 {
        map![StandardSection::Data => 0int]
    } else {
        map![StandardSection::Data => 0int, StandardSection::Text => 1int]
    }
}

/// What an object holds after a symbol was added to it and defined as
/// `data` at the end of a standard section.
pub open spec fn with_defined_symbol(
    c: Contents,
    name: Seq<u8>,
    kind: SymbolKind,
    section: StandardSection,
    data: Seq<u8>,
) -> Contents {
    let known = c.standard_sections.contains_key(section);
    let s = if known {
        c.standard_sections[section]
    } else {
        c.sections.len() as int
    };
    let before = if known {
        c.sections[s]
    } else {
        empty_section()
    };
    let after = SectionRecord { data: before.data + data, ..before };
    Contents {
        target: c.target,
        symbols: c.symbols.push(
            SymbolRecord {
                name,
                kind,
                scope: SymbolScope::Dynamic,
                weak: false,
                section: Some(s),
                value: before.data.len() as int,
                size: data.len() as int,
            },
        ),
        symbol_ids: c.symbol_ids.insert(name, c.symbols.len() as int),
        sections: if known {
            c.sections.update(s, after)
        } else {
            c.sections.push(after)
        },
        standard_sections: c.standard_sections.insert(section, s),
    }
}

/// Adds a symbol that other objects can see, and defines it as `data` at
/// the end of a standard section.
fn define_symbol(
    obj: &mut object::write::Object,
    name: &str,
    kind: SymbolKind,
    section: StandardSection,
    data: &[u8],
)
    requires
        name@.len() > 0,
        kind == SymbolKind::Text || kind == SymbolKind::Data,
        object_standard_sections(*old(obj)).contains_key(section) ==> 0
            <= object_standard_sections(*old(obj))[section] < object_sections(*old(obj)).len(),
    ensures
        contents(*final(obj)) == with_defined_symbol(
            contents(*old(obj)),
            name_bytes(name@),
            kind,
            section,
            data@,
        ),
        object_symbols(*final(obj)).last().value <= u64::MAX,
{
    proof {
        lemma_name_bytes_not_empty(name@);
    }
    let bytes = vstd::slice::slice_to_vec(name.as_bytes());
    let symbol = add_symbol(obj, bytes, kind, SymbolScope::Dynamic, false, 0, 0);
    let section = section_id(obj, section);
    let _ = add_symbol_data(obj, symbol, section, data, 1);
}

/// What a relocation of the object refers to.
pub enum Reference {
    /// A piece of the text section, by its place among the pieces.
    Part(int),
    /// A helper of the runtime.
    Call(LibCall),
}

/// A relocation as it is asked of the object.
pub struct Request {
    /// The offset of the place in the text section.
    pub place: int,
    pub reference: Reference,
    pub addend: int,
}

impl Compilation {
    /// The number of pieces that may own relocations: the functions and
    /// the custom sections.
    pub open spec fn owners(self) -> int {
        (self.functions@.len() + self.custom_sections@.len()) as int
    }

    /// The place among the pieces of the owner `owner`. The functions come
    /// first among the owners, the custom sections after them.
    pub open spec fn owner_part(self, owner: int) -> int {
        if owner < self.functions@.len() {
            self.custom_sections@.len() + owner
        } else {
            owner - self.functions@.len()
        }
    }

    /// The relocations of the owner `owner`.
    pub open spec fn owner_relocations(self, owner: int) -> Seq<Relocation> {
        if owner < self.functions@.len() {
            self.functions@[owner].relocations@
        } else {
            self.custom_sections@[owner - self.functions@.len()].relocations@
        }
    }

    /// What relocation `k` of the owner `owner` asks of the object, if
    /// anything: its place is counted from the start of the owner, and
    /// jump tables ask for nothing.
    pub open spec fn request(self, owner: int, k: int) -> Option<Request> {
        let relocation = self.owner_relocations(owner)[k];
        let place = text_before(self.parts(), self.owner_part(owner)).len()
            + relocation.offset;
        let addend = relocation.addend as int;
        match relocation.target {
            RelocationTarget::LocalFunc(index) => Some(
                Request {
                    place,
                    reference: Reference::Part(self.custom_sections@.len() + index),
                    addend,
                },
            ),
            RelocationTarget::CustomSection(index) => Some(
                Request { place, reference: Reference::Part(index as int), addend },
            ),
            RelocationTarget::LibCall(libcall) => Some(
                Request { place, reference: Reference::Call(libcall), addend },
            ),
            RelocationTarget::JumpTable(_, _) => None,
        }
    }

    /// What the first `count` relocations of the owner `owner` ask of the
    /// object.
    pub open spec fn owner_requests(self, owner: int, count: int) -> Seq<Request>
        decreases count,
    {
        if count <= 0 {
            Seq::empty()
        } else {
            match self.request(owner, count - 1) {
                Some(request) => self.owner_requests(owner, count - 1).push(request),
                None => self.owner_requests(owner, count - 1),
            }
        }
    }

    /// What the relocations of the first `owners` owners ask of the
    /// object.
    pub open spec fn requests_before(self, owners: int) -> Seq<Request>
        decreases owners,
    {
        if owners <= 0 {
            Seq::empty()
        } else {
            self.requests_before(owners - 1) + self.owner_requests(
                owners - 1,
                self.owner_relocations(owners - 1).len() as int,
            )
        }
    }

    /// What the relocations of the compilation ask of the object, in the
    /// order in which they are asked.
    pub open spec fn requests(self) -> Seq<Request> {
        self.requests_before(self.owners())
    }

    /// Whether an object for `target` takes relocation `k` of the owner
    /// `owner`.
    pub open spec fn takes(self, target: ObjectTarget, owner: int, k: int) -> bool {
        match self.request(owner, k) {
            Some(request) => accepts(
                target,
                text_before(self.parts(), self.parts().len() as int).len() as int,
                request,
            ),
            None => true,
        }
    }

    /// The message of the error for relocation `k` of the owner `owner`,
    /// if an object for `target` does not take it: what of the demands of
    /// [`accepts`] it misses first, or the words of the object for a place
    /// outside the text.
    pub open spec fn refusal(self, target: ObjectTarget, owner: int, k: int) -> Seq<char> {
        let request = self.request(owner, k)->Some_0;
        if request.place > u64::MAX {
            "relocation offset out of range"@
        } else if request.addend + 4 > i64::MAX {
            "relocation addend out of range"@
        } else if target.format == ObjectFormat::Coff && target.architecture
            == ObjectArchitecture::Aarch64 {
            "COFF has no such relocation for aarch64"@
        } else if request.place > usize::MAX {
            "relocation offset out of range"@
        } else {
            invalid_offset_message(
                request.place as nat,
                32,
                text_before(self.parts(), self.parts().len() as int).len(),
            )
        }
    }

    /// Whether relocation `k` of the owner `owner` is the first that an
    /// object for `target` does not take.
    pub open spec fn first_refused(self, target: ObjectTarget, owner: int, k: int) -> bool {
        &&& 0 <= owner < self.owners()
        &&& 0 <= k < self.owner_relocations(owner).len()
        &&& !self.takes(target, owner, k)
        &&& forall|j: int| 0 <= j < k ==> #[trigger] self.takes(target, owner, j)
        &&& forall|o: int, j: int|
            0 <= o < owner && 0 <= j < self.owner_relocations(o).len() ==> #[trigger] self.takes(
                target,
                o,
                j,
            )
    }

    /// Whether names that an object file can hold are derived from a
    /// prefix for the pieces of the compilation: whether the prefix does
    /// not hold the character with the number zero, or there is no piece
    /// to name.
    pub open spec fn takes_names(self, prefix: Seq<char>) -> bool {
        !holds_nul(prefix) || self.parts().len() == 0
    }

    /// Whether an object for `target` takes every relocation.
    pub open spec fn relocatable(self, target: ObjectTarget) -> bool {
        forall|owner: int, k: int|
            0 <= owner < self.owners() && 0 <= k < self.owner_relocations(owner).len()
                ==> #[trigger] self.takes(target, owner, k)
    }
}

/// Whether an object for `target` with `text` bytes of text takes a
/// request.
///
/// The place has to be a 64-bit offset. ELF asks no more. Mach-O and COFF
/// write the addend and four more, or in COFF nothing for the addends from
/// -9 to -4, into the place: the sum must fit in 64 bits, and unless it is
/// zero the place must lie within the text. COFF has no such relocations
/// for aarch64.
pub open spec fn accepts(target: ObjectTarget, text: int, request: Request) -> bool {
    &&& request.place <= u64::MAX
    &&& target.format != ObjectFormat::Elf ==> {
        &&& request.addend + 4 <= i64::MAX
        &&& !(target.format == ObjectFormat::Coff && target.architecture
            == ObjectArchitecture::Aarch64)
        &&& addend_in_place(target.format, request.addend) != 0 ==> request.place + 4 <= text
            && request.place <= usize::MAX
    }
}

/// The helpers that the first `count` requests refer to, each of them once,
/// in the order in which they are first referred to.
pub open spec fn calls_among(requests: Seq<Request>, count: int) -> Seq<LibCall>
    decreases count,
{
    if count <= 0 {
        Seq::empty()
    } else {
        let before = calls_among(requests, count - 1);
        match requests[count - 1].reference {
            Reference::Call(libcall) => if before.contains(libcall) {
                before
            } else {
                before.push(libcall)
            },
            Reference::Part(_) => before,
        }
    }
}

/// The index of the symbol that request `i` refers to, in an object with
/// `parts` pieces. The symbol of a piece follows the metadata symbol in the
/// order of the pieces. Every helper has one symbol, whatever the number of
/// requests for it: the symbols of the helpers stand behind the symbol of
/// the text section, in the order in which the helpers are first referred
/// to.
pub open spec fn referred_symbol(parts: int, requests: Seq<Request>, i: int) -> int {
    match requests[i].reference {
        Reference::Part(part) => part + 1,
        Reference::Call(libcall) => parts + 2 + calls_among(requests, i + 1).index_of(libcall),
    }
}

/// The relocation that an object of this format keeps for request `i`: 32
/// bits, relative to the procedure linkage table, encoded as the operand of
/// an x86 branch.
pub open spec fn kept_request(
    format: ObjectFormat,
    parts: int,
    requests: Seq<Request>,
    i: int,
) -> RelocationRecord {
    RelocationRecord {
        offset: requests[i].place,
        size: 32,
        kind: match format {
            ObjectFormat::Coff => RelocationKind::Relative,
            _ => RelocationKind::PltRelative,
        },
        encoding: RelocationEncoding::X86Branch,
        symbol: referred_symbol(parts, requests, i),
        addend: requests[i].addend - addend_in_place(format, requests[i].addend),
    }
}

/// The text section after the first `count` requests: `text` with what an
/// object for `target` writes into the place of each of them, one after the
/// other.
pub open spec fn patched_text(
    target: ObjectTarget,
    text: Seq<u8>,
    requests: Seq<Request>,
    count: int,
) -> Seq<u8>
    decreases count,
{
    if count <= 0 {
        text
    } else {
        written_in_place(
            patched_text(target, text, requests, count - 1),
            requests[count - 1].place,
            target.endianness,
            addend_in_place(target.format, requests[count - 1].addend),
        )
    }
}

/// Whether a symbol is the undefined symbol of a helper.
pub open spec fn is_call_symbol(symbol: SymbolRecord, libcall: LibCall) -> bool {
    exists|name: Seq<char>|
        names_libcall(libcall, name) && symbol == new_symbol(
            #[trigger] name_bytes(name),
            SymbolKind::Unknown,
            SymbolScope::Unknown,
            false,
            0,
            0,
        )
}

/// What an object holds when all pieces are laid out in it and `requests`
/// were asked of it.
///
/// The symbols are those of the metadata and of the pieces, the symbol of
/// the text section, and one undefined symbol for each helper that the
/// requests refer to. Names are found as before. The text section keeps one
/// relocation for each request, and its data is the text of the pieces with
/// what was written into the places of the requests.
pub open spec fn relocated(
    c: Contents,
    target: ObjectTarget,
    prefix: Seq<char>,
    blob: Seq<u8>,
    parts: Seq<Part>,
    requests: Seq<Request>,
) -> bool {
    let n = parts.len() as int;
    let calls = calls_among(requests, requests.len() as int);
    let text = text_before(parts, n);
    &&& n > 0
    &&& c.target == target
    &&& c.symbols.len() == n + 2 + calls.len()
    &&& c.symbols[0] == metadata_record(blob)
    &&& forall|k: int| 0 <= k < n ==> #[trigger] c.symbols[k + 1] == part_record(prefix, parts, k)
    &&& c.symbols[n + 1] == section_symbol(1)
    &&& forall|q: int|
        0 <= q < calls.len() ==> is_call_symbol(#[trigger] c.symbols[n + 2 + q], calls[q])
    &&& names_parts(c.symbol_ids, prefix, parts, n)
    &&& c.sections.len() == 2
    &&& c.sections[0] == SectionRecord { data: blob, ..empty_section() }
    &&& c.sections[1].symbol == Some(n + 1)
    &&& c.sections[1].relocations =~= Seq::new(
        requests.len(),
        |i: int| kept_request(target.format, n, requests, i),
    )
    &&& c.sections[1].data.len() == text.len()
    &&& c.sections[1].data == patched_text(target, text, requests, requests.len() as int)
    &&& c.standard_sections =~= map![StandardSection::Data => 0int, StandardSection::Text => 1int]
}

/// What an object holds when the whole compilation is in it: with nothing
/// that owns relocations it is as the pieces were laid out, and else as the
/// requests left it.
pub open spec fn emitted(
    c: Contents,
    target: ObjectTarget,
    prefix: Seq<char>,
    blob: Seq<u8>,
    compilation: Compilation,
) -> bool {
    if compilation.owners() == 0 {
        laid_out(c, target, prefix, blob, compilation.parts(), compilation.parts().len() as int)
    } else {
        relocated(c, target, prefix, blob, compilation.parts(), compilation.requests())
    }
}

/// Where the pieces of each kind stand among all pieces, and that no two
/// pieces have the same name.
pub proof fn lemma_parts(c: Compilation, prefix: Seq<char>)
    ensures
        c.parts().len() == c.custom_sections@.len() + c.functions@.len()
            + c.function_call_trampolines@.len() + c.dynamic_function_trampolines@.len(),
        forall|i: int|
            0 <= i < c.custom_sections@.len() ==> (#[trigger] c.parts()[i]) == (Part {
                role: SymbolRole::Section,
                index: i,
                kind: section_symbol_kind(c.custom_sections@[i].protection),
                data: c.custom_sections@[i].bytes@,
            }),
        forall|i: int|
            0 <= i < c.functions@.len() ==> (#[trigger] c.parts()[c.custom_sections@.len() + i])
                == (Part {
                role: SymbolRole::FunctionBody,
                index: i,
                kind: SymbolKind::Text,
                data: c.functions@[i].body@,
            }),
        forall|i: int|
            0 <= i < c.function_call_trampolines@.len() ==> (#[trigger] c.parts()[
                c.custom_sections@.len() + c.functions@.len() + i]) == (Part {
                role: SymbolRole::CallTrampoline,
                index: i,
                kind: SymbolKind::Text,
                data: c.function_call_trampolines@[i]@,
            }),
        forall|i: int|
            0 <= i < c.dynamic_function_trampolines@.len() ==> (#[trigger] c.parts()[
                c.custom_sections@.len() + c.functions@.len()
                    + c.function_call_trampolines@.len() + i]) == (Part {
                role: SymbolRole::DynamicTrampoline,
                index: i,
                kind: SymbolKind::Text,
                data: c.dynamic_function_trampolines@[i]@,
            }),
        forall|j: int, k: int|
            0 <= j < k < c.parts().len() ==> part_name(prefix, #[trigger] c.parts()[j])
                != part_name(prefix, #[trigger] c.parts()[k]),
        forall|k: int|
            0 <= k < c.parts().len() ==> {
                &&& (#[trigger] c.parts()[k]).index >= 0
                &&& c.parts()[k].kind == SymbolKind::Text || c.parts()[k].kind
                    == SymbolKind::Data
                &&& part_name(prefix, c.parts()[k]) != name_bytes(metadata_symbol())
                &&& symbol_name(c.parts()[k].role, prefix, c.parts()[k].index as nat).len() > 0
            },
{
    let parts = c.parts();
    assert forall|k: int| 0 <= k < parts.len() implies {
        &&& (#[trigger] parts[k]).index >= 0
        &&& parts[k].kind == SymbolKind::Text || parts[k].kind == SymbolKind::Data
        &&& part_name(prefix, parts[k]) != name_bytes(metadata_symbol())
        &&& symbol_name(parts[k].role, prefix, parts[k].index as nat).len() > 0
    } by {
        let name = symbol_name(parts[k].role, prefix, parts[k].index as nat);
        lemma_tags(parts[k].role);
        lemma_symbol_name_is_not_metadata(parts[k].role, prefix, parts[k].index as nat);
        if name_bytes(name) == name_bytes(metadata_symbol()) {
            lemma_name_bytes_injective(name, metadata_symbol());
        }
    }
    assert forall|j: int, k: int| 0 <= j < k < parts.len() implies part_name(
        prefix,
        #[trigger] parts[j],
    ) != part_name(prefix, #[trigger] parts[k]) by {
        let left = symbol_name(parts[j].role, prefix, parts[j].index as nat);
        let right = symbol_name(parts[k].role, prefix, parts[k].index as nat);
        if name_bytes(left) == name_bytes(right) {
            lemma_name_bytes_injective(left, right);
            lemma_symbol_name_injective(
                parts[j].role,
                prefix,
                parts[j].index as nat,
                parts[k].role,
                prefix,
                parts[k].index as nat,
            );
        }
    }
}

/// Whether each of the first `count` pieces starts at an offset of 64
/// bits.
pub open spec fn offsets_fit(parts: Seq<Part>, count: int) -> bool {
    forall|k: int| 0 <= k < count ==> #[trigger] text_before(parts, k).len() <= u64::MAX
}

/// Laying out one more piece keeps the object as [`laid_out`] describes
/// it.
proof fn lemma_lay_out_step(
    before: Contents,
    after: Contents,
    target: ObjectTarget,
    c: Compilation,
    prefix: Seq<char>,
    blob: Seq<u8>,
    k: int,
)
    requires
        0 <= k < c.parts().len(),
        laid_out(before, target, prefix, blob, c.parts(), k),
        after == with_defined_symbol(
            before,
            part_name(prefix, c.parts()[k]),
            c.parts()[k].kind,
            StandardSection::Text,
            c.parts()[k].data,
        ),
    ensures
        laid_out(after, target, prefix, blob, c.parts(), k + 1),
{
    let parts = c.parts();
    lemma_parts(c, prefix);
    assert(text_before(parts, k + 1) == text_before(parts, k) + parts[k].data);
    if k == 0 {
        assert(text_before(parts, 0).len() == 0);
        assert(Seq::<u8>::empty() + parts[k].data =~= parts[k].data);
    }
    assert(after.symbols =~= seq![metadata_record(blob)] + Seq::new(
        (k + 1) as nat,
        |j: int| part_record(prefix, parts, j),
    ));
    assert(after.sections[1] == SectionRecord {
        data: text_before(parts, k + 1),
        ..empty_section()
    });
    assert forall|name: Seq<u8>| #[trigger] after.symbol_ids.contains_key(name) implies name
        == name_bytes(metadata_symbol()) || exists|j: int|
        0 <= j < k + 1 && name == part_name(prefix, parts[j]) by {
        if name != part_name(prefix, parts[k]) {
            assert(before.symbol_ids.contains_key(name));
        }
    }
    assert forall|j: int| 0 <= j < k + 1 implies after.symbol_ids.contains_key(
        #[trigger] part_name(prefix, parts[j]),
    ) && after.symbol_ids[part_name(prefix, parts[j])] == j + 1 by {
        if j < k {
            assert(part_name(prefix, parts[j]) != part_name(prefix, parts[k]));
        }
    }
}

/// Makes the object and lays the metadata and all pieces out in it.
fn lay_out(
    target: ObjectTarget,
    metadata: &ModuleMetadata,
    blob: &[u8],
    compilation: &Compilation,
) -> (obj: object::write::Object)
    ensures
        laid_out(
            contents(obj),
            target,
            metadata.prefix@,
            blob@,
            compilation.parts(),
            compilation.parts().len() as int,
        ),
        offsets_fit(compilation.parts(), compilation.parts().len() as int),
{
    let ghost prefix = metadata.prefix@;
    let ghost parts = compilation.parts();
    let mut obj = new_object(target);
    proof {
        reveal_strlit("WASMER_METADATA");
        lemma_parts(*compilation, prefix);
    }
    define_symbol(&mut obj, "WASMER_METADATA", SymbolKind::Data, StandardSection::Data, blob);
    assert(laid_out(contents(obj), target, prefix, blob@, parts, 0)) by {
        let c = contents(obj);
        assert(Seq::<u8>::empty() + blob@ =~= blob@);
        assert(c.symbols =~= seq![metadata_record(blob@)] + Seq::new(
            0,
            |k: int| part_record(prefix, parts, k),
        ));
    }
    let sections = compilation.custom_sections.len();
    let functions = compilation.functions.len();
    let calls = compilation.function_call_trampolines.len();
    let dynamics = compilation.dynamic_function_trampolines.len();
    let mut i: usize = 0;
    while i < sections
        invariant
            i <= sections == compilation.custom_sections@.len(),
            parts == compilation.parts(),
            prefix == metadata.prefix@,
            laid_out(contents(obj), target, prefix, blob@, parts, i as int),
            offsets_fit(parts, i as int),
        decreases sections - i,
    {
        let section = &compilation.custom_sections[i];
        let kind = match section.protection {
            CustomSectionProtection::ReadExecute => SymbolKind::Text,
            CustomSectionProtection::Read => SymbolKind::Data,
        };
        let name = metadata.get_section_name(i);
        let ghost before = contents(obj);
        proof {
            lemma_parts(*compilation, prefix);
            assert(parts[i as int].role == SymbolRole::Section);
        }
        define_symbol(
            &mut obj,
            name.as_str(),
            kind,
            StandardSection::Text,
            section.bytes.as_slice(),
        );
        proof {
            lemma_lay_out_step(
                before,
                contents(obj),
                target,
                *compilation,
                prefix,
                blob@,
                i as int,
            );
        }
        i += 1;
    }
    let mut i: usize = 0;
    while i < functions
        invariant
            i <= functions == compilation.functions@.len(),
            sections == compilation.custom_sections@.len(),
            parts == compilation.parts(),
            prefix == metadata.prefix@,
            laid_out(contents(obj), target, prefix, blob@, parts, sections + i),
            offsets_fit(parts, sections + i),
        decreases functions - i,
    {
        let name = metadata.get_function_name(i);
        let ghost before = contents(obj);
        proof {
            lemma_parts(*compilation, prefix);
            assert(parts[sections + i].role == SymbolRole::FunctionBody);
        }
        define_symbol(
            &mut obj,
            name.as_str(),
            SymbolKind::Text,
            StandardSection::Text,
            compilation.functions[i].body.as_slice(),
        );
        proof {
            lemma_lay_out_step(
                before,
                contents(obj),
                target,
                *compilation,
                prefix,
                blob@,
                sections + i,
            );
        }
        i += 1;
    }
    let mut i: usize = 0;
    while i < calls
        invariant
            i <= calls == compilation.function_call_trampolines@.len(),
            sections == compilation.custom_sections@.len(),
            functions == compilation.functions@.len(),
            parts == compilation.parts(),
            prefix == metadata.prefix@,
            laid_out(contents(obj), target, prefix, blob@, parts, sections + functions + i),
            offsets_fit(parts, sections + functions + i),
        decreases calls - i,
    {
        let name = metadata.get_function_call_trampoline_name(i);
        let ghost before = contents(obj);
        proof {
            lemma_parts(*compilation, prefix);
            assert(parts[sections + functions + i].role == SymbolRole::CallTrampoline);
        }
        define_symbol(
            &mut obj,
            name.as_str(),
            SymbolKind::Text,
            StandardSection::Text,
            compilation.function_call_trampolines[i].as_slice(),
        );
        proof {
            lemma_lay_out_step(
                before,
                contents(obj),
                target,
                *compilation,
                prefix,
                blob@,
                sections + functions + i,
            );
        }
        i += 1;
    }
    let mut i: usize = 0;
    while i < dynamics
        invariant
            i <= dynamics == compilation.dynamic_function_trampolines@.len(),
            sections == compilation.custom_sections@.len(),
            functions == compilation.functions@.len(),
            calls == compilation.function_call_trampolines@.len(),
            parts == compilation.parts(),
            prefix == metadata.prefix@,
            laid_out(
                contents(obj),
                target,
                prefix,
                blob@,
                parts,
                sections + functions + calls + i,
            ),
            offsets_fit(parts, sections + functions + calls + i),
        decreases dynamics - i,
    {
        let name = metadata.get_dynamic_function_trampoline_name(i);
        let ghost before = contents(obj);
        proof {
            lemma_parts(*compilation, prefix);
            assert(parts[sections + functions + calls + i].role == SymbolRole::DynamicTrampoline);
        }
        define_symbol(
            &mut obj,
            name.as_str(),
            SymbolKind::Text,
            StandardSection::Text,
            compilation.dynamic_function_trampolines[i].as_slice(),
        );
        proof {
            lemma_lay_out_step(
                before,
                contents(obj),
                target,
                *compilation,
                prefix,
                blob@,
                sections + functions + calls + i,
            );
        }
        i += 1;
    }
    proof {
        lemma_parts(*compilation, prefix);
    }
    obj
}

/// The helpers among the first requests are the same in two lists of
/// requests that begin alike.
proof fn lemma_calls_among_agree(a: Seq<Request>, b: Seq<Request>, count: int)
    requires
        0 <= count <= a.len(),
        count <= b.len(),
        forall|i: int| 0 <= i < count ==> a[i] == b[i],
    ensures
        calls_among(a, count) == calls_among(b, count),
    decreases count,
{
    if count > 0 {
        lemma_calls_among_agree(a, b, count - 1);
    }
}

/// The text after the first requests is the same for two lists of
/// requests that begin alike.
proof fn lemma_patched_text_agree(
    target: ObjectTarget,
    text: Seq<u8>,
    a: Seq<Request>,
    b: Seq<Request>,
    count: int,
)
    requires
        0 <= count <= a.len(),
        count <= b.len(),
        forall|i: int| 0 <= i < count ==> a[i] == b[i],
    ensures
        patched_text(target, text, a, count) == patched_text(target, text, b, count),
        patched_text(target, text, a, count).len() == text.len(),
    decreases count,
{
    if count > 0 {
        lemma_patched_text_agree(target, text, a, b, count - 1);
    }
}

/// No helper stands twice among the helpers of the requests.
proof fn lemma_calls_are_distinct(requests: Seq<Request>, count: int)
    ensures
        calls_among(requests, count).no_duplicates(),
    decreases count,
{
    if count > 0 {
        lemma_calls_are_distinct(requests, count - 1);
    }
}

/// Where a helper stands among helpers of which none stands twice.
proof fn lemma_call_position(calls: Seq<LibCall>, libcall: LibCall, q: int)
    requires
        calls.no_duplicates(),
        0 <= q < calls.len(),
        calls[q] == libcall,
    ensures
        calls.index_of(libcall) == q,
{
}

/// One more request keeps the object as [`relocated`] describes it.
proof fn lemma_relocate_step(
    before: Contents,
    after: Contents,
    target: ObjectTarget,
    prefix: Seq<char>,
    blob: Seq<u8>,
    parts: Seq<Part>,
    requests: Seq<Request>,
    request: Request,
)
    requires
        relocated(before, target, prefix, blob, parts, requests),
        after.target == before.target,
        after.symbol_ids == before.symbol_ids,
        after.standard_sections == before.standard_sections,
        match request.reference {
            Reference::Part(_) => after.symbols == before.symbols,
            Reference::Call(libcall) => if calls_among(requests, requests.len() as int).contains(
                libcall,
            ) {
                after.symbols == before.symbols
            } else {
                after.symbols.len() == before.symbols.len() + 1 && after.symbols.drop_last()
                    == before.symbols && is_call_symbol(after.symbols.last(), libcall)
            },
        },
        after.sections.len() == 2,
        after.sections[0] == before.sections[0],
        after.sections[1].symbol == before.sections[1].symbol,
        after.sections[1].relocations == before.sections[1].relocations.push(
            kept_request(
                target.format,
                parts.len() as int,
                requests.push(request),
                requests.len() as int,
            ),
        ),
        after.sections[1].data == written_in_place(
            before.sections[1].data,
            request.place,
            target.endianness,
            addend_in_place(target.format, request.addend),
        ),
    ensures
        relocated(after, target, prefix, blob, parts, requests.push(request)),
{
    let n = parts.len() as int;
    let next = requests.push(request);
    let count = requests.len() as int;
    let text = text_before(parts, n);
    lemma_calls_among_agree(requests, next, count);
    let calls = calls_among(next, count + 1);
    assert(calls == match request.reference {
        Reference::Call(libcall) => if calls_among(requests, count).contains(libcall) {
            calls_among(requests, count)
        } else {
            calls_among(requests, count).push(libcall)
        },
        Reference::Part(_) => calls_among(requests, count),
    });
    assert forall|i: int| 0 <= i < count implies kept_request(target.format, n, next, i)
        == kept_request(target.format, n, requests, i) by {
        lemma_calls_among_agree(requests, next, i + 1);
    }
    assert(after.sections[1].relocations =~= Seq::new(
        next.len(),
        |i: int| kept_request(target.format, n, next, i),
    ));
    lemma_patched_text_agree(target, text, requests, next, count);
    assert forall|q: int| 0 <= q < calls.len() implies is_call_symbol(
        #[trigger] after.symbols[n + 2 + q],
        calls[q],
    ) by {
        if q < calls_among(requests, count).len() {
            assert(after.symbols[n + 2 + q] == before.symbols[n + 2 + q]);
        }
    }
    assert forall|k: int| 0 <= k < n implies #[trigger] after.symbols[k + 1] == part_record(
        prefix,
        parts,
        k,
    ) by {
        assert(after.symbols[k + 1] == before.symbols[k + 1]);
    }
    assert(after.symbols[0] == before.symbols[0]);
    assert(after.symbols[n + 1] == before.symbols[n + 1]);
}

/// The helpers that have a symbol in the object, with their symbols, in
/// the order in which the symbols were added.
struct Helpers {
    calls: Vec<LibCall>,
    symbols: Vec<object::write::SymbolId>,
}

impl Helpers {
    /// Whether the record holds these helpers, each with the symbol that
    /// stands for it in an object with `parts` pieces.
    spec fn records(self, parts: int, calls: Seq<LibCall>) -> bool {
        &&& self.calls@ == calls
        &&& self.symbols@.len() == calls.len()
        &&& forall|q: int|
            0 <= q < calls.len() ==> symbol_index(#[trigger] self.symbols@[q]) == parts + 2 + q
    }

    /// A record without helpers.
    fn new() -> (helpers: Self)
        ensures
            helpers.calls@.len() == 0,
            helpers.symbols@.len() == 0,
    {
        Helpers { calls: Vec::new(), symbols: Vec::new() }
    }

    /// Where a helper stands in the record, if it has a symbol.
    fn find(&self, libcall: LibCall) -> (found: Option<usize>)
        ensures
            match found {
                Some(q) => q < self.calls@.len() && self.calls@[q as int] == libcall,
                None => !self.calls@.contains(libcall),
            },
    {
        let mut q: usize = 0;
        while q < self.calls.len()
            invariant
                q <= self.calls@.len(),
                forall|j: int| 0 <= j < q ==> self.calls@[j] != libcall,
            decreases self.calls.len() - q,
        {
            if self.calls[q] == libcall {
                return Some(q);
            }
            q += 1;
        }
        None
    }
}

/// The error for a relocation that the object does not take.
fn refusal(message: String) -> (error: CompileError)
    ensures
        error.message() == message@,
{
    CompileError::Codegen(message)
}

/// Asks the object for one relocation of an owner that lies at `offset`
/// in the text section.
fn place_relocation(
    obj: &mut object::write::Object,
    metadata: &ModuleMetadata,
    compilation: &Compilation,
    target: ObjectTarget,
    text: object::write::SectionId,
    offset: u64,
    relocation: Relocation,
    helpers: &mut Helpers,
    Ghost(blob): Ghost<Seq<u8>>,
    Ghost(done): Ghost<Seq<Request>>,
    Ghost(owner): Ghost<int>,
    Ghost(k): Ghost<int>,
) -> (result: Result<(), CompileError>)
    requires
        compilation.well_formed(),
        0 <= owner < compilation.owners(),
        0 <= k < compilation.owner_relocations(owner).len(),
        relocation == compilation.owner_relocations(owner)[k],
        offset == text_before(compilation.parts(), compilation.owner_part(owner)).len(),
        section_index(text) == 1,
        relocated(
            contents(*old(obj)),
            target,
            metadata.prefix@,
            blob,
            compilation.parts(),
            done,
        ),
        old(helpers).records(
            compilation.parts().len() as int,
            calls_among(done, done.len() as int),
        ),
    ensures
        match result {
            Ok(()) => compilation.takes(target, owner, k) && relocated(
                contents(*final(obj)),
                target,
                metadata.prefix@,
                blob,
                compilation.parts(),
                match compilation.request(owner, k) {
                    Some(request) => done.push(request),
                    None => done,
                },
            ) && final(helpers).records(
                compilation.parts().len() as int,
                match compilation.request(owner, k) {
                    Some(request) => calls_among(done.push(request), done.len() as int + 1),
                    None => calls_among(done, done.len() as int),
                },
            ),
            Err(error) => !compilation.takes(target, owner, k) && error.message()
                == compilation.refusal(target, owner, k),
        },
{
    let ghost prefix = metadata.prefix@;
    let ghost parts = compilation.parts();
    let ghost n = parts.len() as int;
    let ghost before = contents(*obj);
    proof {
        lemma_parts(*compilation, prefix);
    }
    if let RelocationTarget::JumpTable(_, _) = relocation.target {
        return Ok(());
    }
    let ghost request = compilation.request(owner, k)->Some_0;
    let place = match offset.checked_add(relocation.offset as u64) {
        Some(place) => place,
        None => {
            return Err(refusal(String::from_str("relocation offset out of range")));
        },
    };
    let mut in_place: i64 = 0;
    match target.format {
        ObjectFormat::Elf => {},
        format => {
            if relocation.addend > i64::MAX - 4 {
                return Err(refusal(String::from_str("relocation addend out of range")));
            }
            if let ObjectFormat::Coff = format {
                if let ObjectArchitecture::Aarch64 = target.architecture {
                    return Err(
                        refusal(String::from_str("COFF has no such relocation for aarch64")),
                    );
                }
                if !(-9 <= relocation.addend && relocation.addend <= -4) {
                    in_place = relocation.addend + 4;
                }
            } else {
                in_place = relocation.addend + 4;
            }
            if in_place != 0 && place > usize::MAX as u64 {
                return Err(refusal(String::from_str("relocation offset out of range")));
            }
        },
    }
    assert(in_place == addend_in_place(target.format, request.addend));
    let symbol = match relocation.target {
        RelocationTarget::LocalFunc(index) => {
            let name = metadata.get_function_name(index);
            proof {
                assert(parts[compilation.custom_sections@.len() + index].role
                    == SymbolRole::FunctionBody);
                assert(name_bytes(name@) == part_name(
                    prefix,
                    parts[compilation.custom_sections@.len() + index],
                ));
            }
            symbol_id(obj, name.as_str().as_bytes()).unwrap()
        },
        RelocationTarget::CustomSection(index) => {
            let name = metadata.get_section_name(index);
            proof {
                assert(parts[index as int].role == SymbolRole::Section);
                assert(name_bytes(name@) == part_name(prefix, parts[index as int]));
            }
            symbol_id(obj, name.as_str().as_bytes()).unwrap()
        },
        RelocationTarget::LibCall(libcall) => {
            proof {
                lemma_calls_are_distinct(done, done.len() as int);
                lemma_calls_are_distinct(done.push(request), done.len() as int + 1);
            }
            match helpers.find(libcall) {
                Some(q) => {
                    proof {
                        lemma_call_position(
                            calls_among(done, done.len() as int),
                            libcall,
                            q as int,
                        );
                    }
                    helpers.symbols[q]
                },
                None => {
                    let name = libcall_function_name(libcall);
                    let bytes = vstd::slice::slice_to_vec(name.as_str().as_bytes());
                    let symbol = add_symbol(
                        obj,
                        bytes,
                        SymbolKind::Unknown,
                        SymbolScope::Unknown,
                        false,
                        0,
                        0,
                    );
                    helpers.calls.push(libcall);
                    helpers.symbols.push(symbol);
                    proof {
                        let added = contents(*obj).symbols;
                        assert(added.drop_last() =~= before.symbols);
                        assert(added.last() == new_symbol(
                            name_bytes(name@),
                            SymbolKind::Unknown,
                            SymbolScope::Unknown,
                            false,
                            0,
                            0,
                        ));
                        assert(is_call_symbol(added.last(), libcall));
                        lemma_call_position(
                            calls_among(done, done.len() as int).push(libcall),
                            libcall,
                            calls_among(done, done.len() as int).len() as int,
                        );
                    }
                    symbol
                },
            }
        },
        RelocationTarget::JumpTable(_, _) => {
            return Ok(());
        },
    };
    let asked = ObjectRelocation {
        offset: place,
        size: 32,
        kind: RelocationKind::PltRelative,
        encoding: RelocationEncoding::X86Branch,
        symbol,
        addend: relocation.addend,
    };
    proof {
        lemma_calls_among_agree(done, done.push(request), done.len() as int);
        assert(done.push(request)[done.len() as int] == request);
        assert(kept_relocation(target.format, asked) == kept_request(
            target.format,
            n,
            done.push(request),
            done.len() as int,
        ));
    }
    match add_relocation(obj, text, asked) {
        Ok(()) => {
            proof {
                lemma_relocate_step(
                    before,
                    contents(*obj),
                    target,
                    prefix,
                    blob,
                    parts,
                    done,
                    request,
                );
            }
            Ok(())
        },
        Err(error) => Err(refusal(error_text(&error))),
    }
}

/// The message of the error for a prefix from which no name can be
/// derived that an object file can hold.
pub open spec fn nul_in_prefix_message() -> Seq<char> {
    "The prefix of the module holds a null character"@
}

/// Every name of an object that holds a whole compilation can be written
/// if the names of its pieces can.
pub proof fn lemma_emitted_is_writable(
    c: Contents,
    target: ObjectTarget,
    prefix: Seq<char>,
    blob: Seq<u8>,
    compilation: Compilation,
)
    requires
        emitted(c, target, prefix, blob, compilation),
        compilation.takes_names(prefix),
    ensures
        writable(c.symbols),
{
    let parts = compilation.parts();
    let n = parts.len() as int;
    lemma_parts(compilation, prefix);
    lemma_symbol_name_bytes(SymbolRole::Section, prefix, 0);
    assert forall|i: int| 0 <= i < c.symbols.len() implies !(#[trigger] c.symbols[i]).name.contains(
        0u8,
    ) by {
        if i == 0 {
        } else if i <= n {
            assert(c.symbols[i] == part_record(prefix, parts, i - 1));
            lemma_symbol_name_bytes(parts[i - 1].role, prefix, parts[i - 1].index as nat);
        } else if i == n + 1 {
            assert(c.symbols[i] == section_symbol(1));
        } else {
            let calls = calls_among(compilation.requests(), compilation.requests().len() as int);
            let q = i - n - 2;
            assert(is_call_symbol(c.symbols[n + 2 + q], calls[q]));
            let name = choose|name: Seq<char>|
                names_libcall(calls[q], name) && c.symbols[i] == new_symbol(
                    #[trigger] name_bytes(name),
                    SymbolKind::Unknown,
                    SymbolScope::Unknown,
                    false,
                    0,
                    0,
                );
            lemma_libcall_name_has_no_nul(calls[q], name);
            lemma_name_bytes_nul(name);
        }
    }
}

/// The first relocation of an owner that is not taken is the first of all
/// if every relocation of the owners before is taken.
proof fn lemma_first_refused(
    compilation: Compilation,
    target: ObjectTarget,
    owner: int,
    message: Seq<char>,
)
    requires
        0 <= owner < compilation.owners(),
        forall|o: int, j: int|
            0 <= o < owner && 0 <= j < compilation.owner_relocations(o).len()
                ==> #[trigger] compilation.takes(target, o, j),
        exists|k: int|
            0 <= k < compilation.owner_relocations(owner).len() && !#[trigger] compilation.takes(
                target,
                owner,
                k,
            ) && message == compilation.refusal(target, owner, k) && forall|j: int|
                0 <= j < k ==> #[trigger] compilation.takes(target, owner, j),
    ensures
        !compilation.relocatable(target),
        exists|o: int, k: int| #[trigger]
            compilation.first_refused(target, o, k) && message == compilation.refusal(
                target,
                o,
                k,
            ),
{
    let k = choose|k: int|
        0 <= k < compilation.owner_relocations(owner).len() && !#[trigger] compilation.takes(
            target,
            owner,
            k,
        ) && message == compilation.refusal(target, owner, k) && forall|j: int|
            0 <= j < k ==> #[trigger] compilation.takes(target, owner, j);
    assert(compilation.first_refused(target, owner, k));
}

/// Asks the object for the relocations of one owner.
fn relocate_owner(
    obj: &mut object::write::Object,
    metadata: &ModuleMetadata,
    compilation: &Compilation,
    target: ObjectTarget,
    owner_name: &str,
    relocations: &Vec<Relocation>,
    helpers: &mut Helpers,
    Ghost(blob): Ghost<Seq<u8>>,
    Ghost(owner): Ghost<int>,
) -> (result: Result<(), CompileError>)
    requires
        compilation.well_formed(),
        0 <= owner < compilation.owners(),
        relocations@ == compilation.owner_relocations(owner),
        old(helpers).records(
            compilation.parts().len() as int,
            calls_among(
                compilation.requests_before(owner),
                compilation.requests_before(owner).len() as int,
            ),
        ),
        name_bytes(owner_name@) == part_name(
            metadata.prefix@,
            compilation.parts()[compilation.owner_part(owner)],
        ),
        offsets_fit(compilation.parts(), compilation.parts().len() as int),
        owner == 0 ==> laid_out(
            contents(*old(obj)),
            target,
            metadata.prefix@,
            blob,
            compilation.parts(),
            compilation.parts().len() as int,
        ),
        owner > 0 ==> relocated(
            contents(*old(obj)),
            target,
            metadata.prefix@,
            blob,
            compilation.parts(),
            compilation.requests_before(owner),
        ),
    ensures
        match result {
            Ok(()) => relocated(
                contents(*final(obj)),
                target,
                metadata.prefix@,
                blob,
                compilation.parts(),
                compilation.requests_before(owner + 1),
            ) && final(helpers).records(
                compilation.parts().len() as int,
                calls_among(
                    compilation.requests_before(owner + 1),
                    compilation.requests_before(owner + 1).len() as int,
                ),
            ) && forall|k: int|
                0 <= k < relocations@.len() ==> #[trigger] compilation.takes(target, owner, k),
            Err(error) => exists|k: int|
                0 <= k < relocations@.len() && !#[trigger] compilation.takes(target, owner, k)
                    && error.message() == compilation.refusal(target, owner, k) && forall|j: int|
                    0 <= j < k ==> #[trigger] compilation.takes(target, owner, j),
        },
{
    let ghost prefix = metadata.prefix@;
    let ghost parts = compilation.parts();
    let ghost n = parts.len() as int;
    let ghost done = compilation.requests_before(owner);
    let ghost part = compilation.owner_part(owner);
    proof {
        lemma_parts(*compilation, prefix);
        assert(0 <= part < n);
        assert(done.len() == 0 || owner > 0);
    }
    let symbol = symbol_id(obj, owner_name.as_bytes()).unwrap();
    assert(symbol_index(symbol) == part + 1);
    assert(object_symbols(*obj)[part + 1] == part_record(prefix, parts, part));
    let offset = symbol_section_and_offset(obj, symbol).unwrap();
    let text = section_id(obj, StandardSection::Text);
    assert(relocated(contents(*obj), target, prefix, blob, parts, done)) by {
        if owner == 0 {
            assert(done =~= Seq::<Request>::empty());
            assert(calls_among(done, 0) =~= Seq::<LibCall>::empty());
        }
    }
    assert(done + compilation.owner_requests(owner, 0) =~= done);
    let mut k: usize = 0;
    while k < relocations.len()
        invariant
            k <= relocations@.len(),
            compilation.well_formed(),
            0 <= owner < compilation.owners(),
            relocations@ == compilation.owner_relocations(owner),
            prefix == metadata.prefix@,
            parts == compilation.parts(),
            done == compilation.requests_before(owner),
            offset == text_before(parts, compilation.owner_part(owner)).len(),
            section_index(text) == 1,
            relocated(
                contents(*obj),
                target,
                prefix,
                blob,
                parts,
                done + compilation.owner_requests(owner, k as int),
            ),
            helpers.records(
                parts.len() as int,
                calls_among(
                    done + compilation.owner_requests(owner, k as int),
                    (done + compilation.owner_requests(owner, k as int)).len() as int,
                ),
            ),
            forall|j: int| 0 <= j < k ==> #[trigger] compilation.takes(target, owner, j),
        decreases relocations.len() - k,
    {
        let ghost so_far = done + compilation.owner_requests(owner, k as int);
        match place_relocation(
            obj,
            metadata,
            compilation,
            target,
            text,
            offset,
            relocations[k],
            helpers,
            Ghost(blob),
            Ghost(so_far),
            Ghost(owner),
            Ghost(k as int),
        ) {
            Ok(()) => {},
            Err(error) => {
                return Err(error);
            },
        }
        proof {
            let next = compilation.owner_requests(owner, k + 1);
            match compilation.request(owner, k as int) {
                Some(request) => {
                    assert(so_far.push(request) =~= done + next);
                },
                None => {
                    assert(so_far =~= done + next);
                },
            }
        }
        k += 1;
    }
    Ok(())
}

/// Builds the relocatable object of a compiled module for `target`.
///
/// `blob` is the metadata as it is stored, with its length in front. It
/// becomes the data section under the metadata symbol. The custom
/// sections, function bodies, call trampolines and dynamic trampolines
/// follow each other in the text section, each under its derived name, with
/// one byte of alignment. Then every relocation of a function and of a
/// custom section, but for those that refer to a jump table, is asked of
/// the object at the offset of its owner plus its own, 32 bits wide and
/// relative to the procedure linkage table. The first relocation that
/// refers to a helper of the runtime adds an undefined symbol of the
/// helper's name to the object, and every later one refers to that symbol.
///
/// A prefix that holds the character with the number zero is refused
/// where there is a piece to name, because no object file can hold a name
/// that is derived from it.
/// Otherwise the result is an error exactly if the object does not take
/// one of the relocations, and the error is that of the first one that it
/// does not take.
pub fn emit(
    target: ObjectTarget,
    metadata: &ModuleMetadata,
    blob: &[u8],
    compilation: &Compilation,
) -> (result: Result<ObjectFile, CompileError>)
    requires
        compilation.well_formed(),
    ensures
        match result {
            Ok(file) => compilation.takes_names(metadata.prefix@) && compilation.relocatable(target)
                && emitted(file.contents(), target, metadata.prefix@, blob@, *compilation),
            Err(error) => if !compilation.takes_names(metadata.prefix@) {
                error.message() == nul_in_prefix_message()
            } else {
                !compilation.relocatable(target) && exists|owner: int, k: int| #[trigger]
                    compilation.first_refused(target, owner, k) && error.message()
                        == compilation.refusal(target, owner, k)
            },
        },
{
    let ghost prefix = metadata.prefix@;
    let ghost parts = compilation.parts();
    proof {
        lemma_name_bytes_nul(prefix);
    }
    let named = compilation.custom_sections.len() > 0 || compilation.functions.len() > 0
        || compilation.function_call_trampolines.len() > 0
        || compilation.dynamic_function_trampolines.len() > 0;
    proof {
        lemma_parts(*compilation, prefix);
    }
    if named && holds_zero(metadata.prefix.as_str().as_bytes()) {
        return Err(
            refusal(String::from_str("The prefix of the module holds a null character")),
        );
    }
    let mut obj = lay_out(target, metadata, blob, compilation);
    let mut helpers = Helpers::new();
    let functions = compilation.functions.len();
    let sections = compilation.custom_sections.len();
    proof {
        lemma_parts(*compilation, prefix);
        assert(helpers.calls@ =~= calls_among(compilation.requests_before(0), 0));
    }
    let mut i: usize = 0;
    while i < functions
        invariant
            i <= functions == compilation.functions@.len(),
            sections == compilation.custom_sections@.len(),
            compilation.well_formed(),
            prefix == metadata.prefix@,
            compilation.takes_names(prefix),
            parts == compilation.parts(),
            offsets_fit(parts, parts.len() as int),
            i == 0 ==> laid_out(contents(obj), target, prefix, blob@, parts, parts.len() as int),
            i > 0 ==> relocated(
                contents(obj),
                target,
                prefix,
                blob@,
                parts,
                compilation.requests_before(i as int),
            ),
            helpers.records(
                parts.len() as int,
                calls_among(
                    compilation.requests_before(i as int),
                    compilation.requests_before(i as int).len() as int,
                ),
            ),
            forall|owner: int, k: int|
                0 <= owner < i && 0 <= k < compilation.owner_relocations(owner).len()
                    ==> #[trigger] compilation.takes(target, owner, k),
        decreases functions - i,
    {
        let name = metadata.get_function_name(i);
        proof {
            lemma_parts(*compilation, prefix);
            assert(parts[sections + i].role == SymbolRole::FunctionBody);
        }
        match relocate_owner(
            &mut obj,
            metadata,
            compilation,
            target,
            name.as_str(),
            &compilation.functions[i].relocations,
            &mut helpers,
            Ghost(blob@),
            Ghost(i as int),
        ) {
            Ok(()) => {},
            Err(error) => {
                proof {
                    lemma_first_refused(*compilation, target, i as int, error.message());
                }
                return Err(error);
            },
        }
        i += 1;
    }
    let mut j: usize = 0;
    while j < sections
        invariant
            j <= sections == compilation.custom_sections@.len(),
            functions == compilation.functions@.len(),
            compilation.well_formed(),
            prefix == metadata.prefix@,
            compilation.takes_names(prefix),
            parts == compilation.parts(),
            offsets_fit(parts, parts.len() as int),
            functions + j == 0 ==> laid_out(
                contents(obj),
                target,
                prefix,
                blob@,
                parts,
                parts.len() as int,
            ),
            functions + j > 0 ==> relocated(
                contents(obj),
                target,
                prefix,
                blob@,
                parts,
                compilation.requests_before(functions + j),
            ),
            helpers.records(
                parts.len() as int,
                calls_among(
                    compilation.requests_before(functions + j),
                    compilation.requests_before(functions + j).len() as int,
                ),
            ),
            forall|owner: int, k: int|
                0 <= owner < functions + j && 0 <= k < compilation.owner_relocations(owner).len()
                    ==> #[trigger] compilation.takes(target, owner, k),
        decreases sections - j,
    {
        let name = metadata.get_section_name(j);
        proof {
            lemma_parts(*compilation, prefix);
            assert(parts[j as int].role == SymbolRole::Section);
        }
        match relocate_owner(
            &mut obj,
            metadata,
            compilation,
            target,
            name.as_str(),
            &compilation.custom_sections[j].relocations,
            &mut helpers,
            Ghost(blob@),
            Ghost(functions + j),
        ) {
            Ok(()) => {},
            Err(error) => {
                proof {
                    lemma_first_refused(*compilation, target, functions + j, error.message());
                }
                return Err(error);
            },
        }
        j += 1;
    }
    proof {
        lemma_emitted_is_writable(contents(obj), target, prefix, blob@, *compilation);
    }
    Ok(ObjectFile { obj })
}

/// Writes the object file of a relocatable object. An object that cannot
/// be written in its format is a code generation error with the reason
/// that the writer gives.
pub fn write_file(file: &ObjectFile) -> (result: Result<Vec<u8>, CompileError>)
    ensures
        match result {
            Ok(bytes) => file.image() == written_image(bytes@),
            Err(error) => file.image() == failed_image(error.message()),
        },
{
    proof {
        use_type_invariant(file);
    }
    match write_object(&file.obj) {
        Ok(bytes) => Ok(bytes),
        Err(error) => Err(refusal(error_text(&error))),
    }
}

} // verus!
