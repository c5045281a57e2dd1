//! The relocatable object under construction, as far as this library fills
//! and reads it.
//!
//! The object itself belongs to the `object` crate. What it holds is
//! described here by a handful of functions without a definition, one for
//! each part of its state that matters, and every operation on it is a small
//! function whose contract restates, over those functions, what the source
//! of the crate does. Nothing in this file is proved.

use crate::names::decimal;
use crate::target::{Endianness, ObjectArchitecture, ObjectFormat, ObjectTarget};
use vstd::prelude::*;

verus! {

/// The object under construction, `object::write::Object`.
#[verifier::external_type_specification]
#[verifier::external_body]
pub struct ExObject(object::write::Object);

/// The identifier of a symbol of an object, `object::write::SymbolId`.
#[verifier::external_type_specification]
#[verifier::external_body]
pub struct ExSymbolId(object::write::SymbolId);

/// The identifier of a section of an object, `object::write::SectionId`.
#[verifier::external_type_specification]
#[verifier::external_body]
pub struct ExSectionId(object::write::SectionId);

/// The error of the object writer, `object::write::Error`.
#[verifier::external_type_specification]
#[verifier::external_body]
pub struct ExWriteError(object::write::Error);

/// What a symbol stands for.
#[derive(Clone, Copy, Debug, PartialEq, Eq, Structural)]
pub enum SymbolKind {
    Unknown,
    /// Executable code.
    Text,
    /// A data object.
    Data,
    /// A section of the object.
    Section,
}

/// Where a symbol can be seen from.
#[derive(Clone, Copy, Debug, PartialEq, Eq, Structural)]
pub enum SymbolScope {
    Unknown,
    /// Within the object only.
    Compilation,
    /// From dynamically linked objects.
    Dynamic,
}

/// The sections that this library fills.
#[derive(Clone, Copy, Debug, PartialEq, Eq, Structural)]
pub enum StandardSection {
    Text,
    Data,
}

/// How the value of a relocation is computed.
#[derive(Clone, Copy, Debug, PartialEq, Eq, Structural)]
pub enum RelocationKind {
    /// The address of the symbol, relative to the place.
    Relative,
    /// The address of the symbol's entry in the procedure linkage table,
    /// relative to the place.
    PltRelative,
}

/// How the value of a relocation is stored at its place.
#[derive(Clone, Copy, Debug, PartialEq, Eq, Structural)]
pub enum RelocationEncoding {
    /// The operand of an x86 branch instruction.
    X86Branch,
}

/// A relocation as it is handed to the object.
#[derive(Clone, Copy, Debug)]
pub struct ObjectRelocation {
    /// The offset of the place in its section.
    pub offset: u64,
    /// The size of the place in bits.
    pub size: u8,
    pub kind: RelocationKind,
    pub encoding: RelocationEncoding,
    /// The symbol that the relocation refers to.
    pub symbol: object::write::SymbolId,
    pub addend: i64,
}

/// A symbol of an object.
pub struct SymbolRecord {
    /// The name that the symbol was added under, before the object format
    /// adds its prefix for global names. A section symbol, which the object
    /// makes by itself, is recorded without a name.
    pub name: Seq<u8>,
    pub kind: SymbolKind,
    pub scope: SymbolScope,
    pub weak: bool,
    /// The index of the section that holds the symbol, if it is defined.
    pub section: Option<int>,
    /// The offset of the symbol in its section.
    pub value: int,
    pub size: int,
}

/// A relocation of a section, as the object keeps it.
pub struct RelocationRecord {
    pub offset: int,
    pub size: int,
    pub kind: RelocationKind,
    pub encoding: RelocationEncoding,
    /// The index of the symbol that the relocation refers to.
    pub symbol: int,
    pub addend: int,
}

/// A section of an object.
pub struct SectionRecord {
    pub data: Seq<u8>,
    pub relocations: Seq<RelocationRecord>,
    /// The index of the symbol of the section, once there is one.
    pub symbol: Option<int>,
}

/// The format, architecture and byte order that an object was made for.
pub uninterp spec fn object_target(obj: object::write::Object) -> ObjectTarget;

/// The symbols of an object, in the order of their indices.
pub uninterp spec fn object_symbols(obj: object::write::Object) -> Seq<SymbolRecord>;

/// The index of the symbol that an object finds under a name.
pub uninterp spec fn object_symbol_ids(obj: object::write::Object) -> Map<Seq<u8>, int>;

/// The sections of an object, in the order of their indices.
pub uninterp spec fn object_sections(obj: object::write::Object) -> Seq<SectionRecord>;

/// The index of the section that an object uses as a standard section.
pub uninterp spec fn object_standard_sections(obj: object::write::Object) -> Map<
    StandardSection,
    int,
>;

/// The index that a symbol identifier stands for.
pub uninterp spec fn symbol_index(id: object::write::SymbolId) -> int;

/// The index that a section identifier stands for.
pub uninterp spec fn section_index(id: object::write::SectionId) -> int;

/// The object file that an object is written as, or the message of the
/// error that writing it ends with.
pub uninterp spec fn object_image(obj: object::write::Object) -> Result<Seq<u8>, Seq<char>>;

/// The text of an error of the object writer.
pub uninterp spec fn error_message(error: object::write::Error) -> Seq<char>;

/// Whether the names of the symbols can stand in the tables of an object
/// file: whether none of them holds a zero byte, which ends a name there.
pub open spec fn writable(symbols: Seq<SymbolRecord>) -> bool {
    forall|i: int| 0 <= i < symbols.len() ==> !(#[trigger] symbols[i]).name.contains(0u8)
}

/// The names of an object without symbols.
pub open spec fn no_symbol_ids() -> Map<Seq<u8>, int> {
    Map::empty()
}

/// The standard sections of an object without sections.
pub open spec fn no_standard_sections() -> Map<StandardSection, int> {
    Map::empty()
}

/// The outcome of writing an object that can be written.
pub open spec fn written_image(bytes: Seq<u8>) -> Result<Seq<u8>, Seq<char>> {
    Ok(bytes)
}

/// The outcome of writing an object that cannot be written.
pub open spec fn failed_image(message: Seq<char>) -> Result<Seq<u8>, Seq<char>> {
    Err(message)
}

/// The symbol that `add_symbol` adds: not defined yet, without flags.
pub open spec fn new_symbol(
    name: Seq<u8>,
    kind: SymbolKind,
    scope: SymbolScope,
    weak: bool,
    value: int,
    size: int,
) -> SymbolRecord {
    SymbolRecord { name, kind, scope, weak, section: None, value, size }
}

/// The symbol that an object makes for its section `section`.
pub open spec fn section_symbol(section: int) -> SymbolRecord {
    SymbolRecord {
        name: Seq::empty(),
        kind: SymbolKind::Section,
        scope: SymbolScope::Compilation,
        weak: false,
        section: Some(section),
        value: 0,
        size: 0,
    }
}

/// A section as `section_id` makes it.
pub open spec fn empty_section() -> SectionRecord {
    SectionRecord { data: Seq::empty(), relocations: Seq::empty(), symbol: None }
}

/// The part of the addend of a relocation relative to the procedure linkage
/// table that an object of this format writes into the place itself.
pub open spec fn addend_in_place(format: ObjectFormat, addend: int) -> int {
    match format {
        ObjectFormat::Elf => 0,
        ObjectFormat::MachO => addend + 4,
        ObjectFormat::Coff => if -9 <= addend <= -4 {
            0
        } else {
            addend + 4
        },
    }
}

/// A relocation relative to the procedure linkage table as an object of
/// this format keeps it: COFF knows no such kind and takes it as relative,
/// and what was written into the place is taken off the addend.
pub open spec fn kept_relocation(
    format: ObjectFormat,
    relocation: ObjectRelocation,
) -> RelocationRecord {
    RelocationRecord {
        offset: relocation.offset as int,
        size: relocation.size as int,
        kind: match format {
            ObjectFormat::Coff => RelocationKind::Relative,
            _ => relocation.kind,
        },
        encoding: relocation.encoding,
        symbol: symbol_index(relocation.symbol),
        addend: relocation.addend - addend_in_place(format, relocation.addend as int),
    }
}

/// The text of the error for a place of `size` bits at `offset` that does
/// not lie within the `length` bytes of a section.
pub open spec fn invalid_offset_message(offset: nat, size: nat, length: nat) -> Seq<char> {
    "invalid relocation offset "@ + decimal(offset) + "+"@ + decimal(size) + " (max "@ + decimal(
        length,
    ) + ")"@
}

/// The four bytes that hold the low 32 bits of `value` in a byte order.
pub open spec fn place_bytes(endianness: Endianness, value: int) -> Seq<u8> {
    let low = value % 0x1_0000_0000;
    let bytes = seq![
        (low % 0x100) as u8,
        (low / 0x100 % 0x100) as u8,
        (low / 0x1_0000 % 0x100) as u8,
        (low / 0x100_0000 % 0x100) as u8,
    ];
    match endianness {
        Endianness::Little => bytes,
        Endianness::Big => bytes.reverse(),
    }
}

/// The data of a section after `part` of an addend was written into the
/// four bytes from `place` on. Nothing is written for a part of zero.
pub open spec fn written_in_place(
    data: Seq<u8>,
    place: int,
    endianness: Endianness,
    part: int,
) -> Seq<u8> {
    if part == 0 {
        data
    } else {
        Seq::new(
            data.len(),
            |i: int|
                if place <= i < place + 4 {
                    place_bytes(endianness, part)[i - place]
                } else {
                    data[i]
                },
        )
    }
}

/// Makes an empty object with `object::write::Object::new`: no symbols and
/// no sections.
#[verifier::external_body]
pub(crate) fn new_object(target: ObjectTarget) -> (obj: object::write::Object)
    ensures
        object_target(obj) == target,
        object_symbols(obj) == Seq::<SymbolRecord>::empty(),
        object_symbol_ids(obj) == no_symbol_ids(),
        object_sections(obj) == Seq::<SectionRecord>::empty(),
        object_standard_sections(obj) == no_standard_sections(),
{
    let format = match target.format {
        ObjectFormat::Elf => object::BinaryFormat::Elf,
        ObjectFormat::MachO => object::BinaryFormat::MachO,
        ObjectFormat::Coff => object::BinaryFormat::Coff,
    };
    let architecture = match target.architecture {
        ObjectArchitecture::X86_64 => object::Architecture::X86_64,
        ObjectArchitecture::Aarch64 => object::Architecture::Aarch64,
    };
    let endianness = match target.endianness {
        Endianness::Little => object::Endianness::Little,
        Endianness::Big => object::Endianness::Big,
    };
    object::write::Object::new(format, architecture, endianness)
}

/// Adds an undefined symbol with `Object::add_symbol`. The symbol gets the
/// next index. A symbol for code or data that has a name is found under
/// that name from then on, in place of an earlier symbol of the same name.
#[verifier::external_body]
pub(crate) fn add_symbol(
    obj: &mut object::write::Object,
    name: Vec<u8>,
    kind: SymbolKind,
    scope: SymbolScope,
    weak: bool,
    value: u64,
    size: u64,
) -> (id: object::write::SymbolId)
    requires
        kind != SymbolKind::Section,
    ensures
        symbol_index(id) == object_symbols(*old(obj)).len(),
        object_symbols(*final(obj)) == object_symbols(*old(obj)).push(
            new_symbol(name@, kind, scope, weak, value as int, size as int),
        ),
        object_symbol_ids(*final(obj)) == if name@.len() > 0 && (kind == SymbolKind::Text
            || kind == SymbolKind::Data) {
            object_symbol_ids(*old(obj)).insert(name@, object_symbols(*old(obj)).len() as int)
        } else {
            object_symbol_ids(*old(obj))
        },
        object_sections(*final(obj)) == object_sections(*old(obj)),
        object_standard_sections(*final(obj)) == object_standard_sections(*old(obj)),
        object_target(*final(obj)) == object_target(*old(obj)),
{
    let kind = match kind {
        SymbolKind::Unknown => object::SymbolKind::Unknown,
        SymbolKind::Text => object::SymbolKind::Text,
        SymbolKind::Data => object::SymbolKind::Data,
        SymbolKind::Section => object::SymbolKind::Section,
    };
    let scope = match scope {
        SymbolScope::Unknown => object::SymbolScope::Unknown,
        SymbolScope::Compilation => object::SymbolScope::Compilation,
        SymbolScope::Dynamic => object::SymbolScope::Dynamic,
    };
    let section = object::write::SymbolSection::Undefined;
    let flags = object::SymbolFlags::None;
    obj.add_symbol(object::write::Symbol { name, value, size, kind, scope, weak, section, flags })
}

/// Finds a standard section with `Object::section_id`, which makes the
/// section first if the object has none for it: empty, with the next index.
#[verifier::external_body]
pub(crate) fn section_id(obj: &mut object::write::Object, section: StandardSection) -> (id:
    object::write::SectionId)
    ensures
        object_standard_sections(*old(obj)).contains_key(section) ==> {
            &&& section_index(id) == object_standard_sections(*old(obj))[section]
            &&& object_sections(*final(obj)) == object_sections(*old(obj))
            &&& object_standard_sections(*final(obj)) == object_standard_sections(*old(obj))
        },
        !object_standard_sections(*old(obj)).contains_key(section) ==> {
            &&& section_index(id) == object_sections(*old(obj)).len()
            &&& object_sections(*final(obj)) == object_sections(*old(obj)).push(
                empty_section(),
            )
            &&& object_standard_sections(*final(obj)) == object_standard_sections(
                *old(obj),
            ).insert(section, object_sections(*old(obj)).len() as int)
        },
        object_symbols(*final(obj)) == object_symbols(*old(obj)),
        object_symbol_ids(*final(obj)) == object_symbol_ids(*old(obj)),
        object_target(*final(obj)) == object_target(*old(obj)),
{
    obj.section_id(
        match section {
            StandardSection::Text => object::write::StandardSection::Text,
            StandardSection::Data => object::write::StandardSection::Data,
        },
    )
}

/// Appends `data` to a section and defines a symbol as that data, with
/// `Object::add_symbol_data`. With an alignment of one byte nothing is put
/// between the old end of the section and the data. The offset of the data
/// in the section is returned.
#[verifier::external_body]
pub(crate) fn add_symbol_data(
    obj: &mut object::write::Object,
    symbol: object::write::SymbolId,
    section: object::write::SectionId,
    data: &[u8],
    align: u64,
) -> (offset: u64)
    requires
        0 <= symbol_index(symbol) < object_symbols(*old(obj)).len(),
        0 <= section_index(section) < object_sections(*old(obj)).len(),
        object_symbols(*old(obj))[symbol_index(symbol)].scope != SymbolScope::Unknown,
        object_symbols(*old(obj))[symbol_index(symbol)].kind != SymbolKind::Section,
        align == 1,
    ensures
        offset == object_sections(*old(obj))[section_index(section)].data.len(),
        object_sections(*final(obj)) == object_sections(*old(obj)).update(
            section_index(section),
            SectionRecord {
                data: object_sections(*old(obj))[section_index(section)].data + data@,
                ..object_sections(*old(obj))[section_index(section)]
            },
        ),
        object_symbols(*final(obj)) == object_symbols(*old(obj)).update(
            symbol_index(symbol),
            SymbolRecord {
                section: Some(section_index(section)),
                value: offset as int,
                size: data@.len() as int,
                ..object_symbols(*old(obj))[symbol_index(symbol)]
            },
        ),
        object_symbol_ids(*final(obj)) == object_symbol_ids(*old(obj)),
        object_standard_sections(*final(obj)) == object_standard_sections(*old(obj)),
        object_target(*final(obj)) == object_target(*old(obj)),
{
    obj.add_symbol_data(symbol, section, data, align)
}

/// Looks a symbol up by its name with `Object::symbol_id`.
#[verifier::external_body]
pub(crate) fn symbol_id(obj: &object::write::Object, name: &[u8]) -> (id: Option<
    object::write::SymbolId,
>)
    ensures
        match id {
            Some(id) => object_symbol_ids(*obj).contains_key(name@) && symbol_index(id)
                == object_symbol_ids(*obj)[name@],
            None => !object_symbol_ids(*obj).contains_key(name@),
        },
{
    obj.symbol_id(name)
}

/// Asks for the offset of a symbol in its section with
/// `Object::symbol_section_and_offset`. A symbol that is not defined has
/// none. For a defined symbol the object makes sure on the way that the
/// section has a symbol of its own, which it adds if there is none yet.
#[verifier::external_body]
pub(crate) fn symbol_section_and_offset(
    obj: &mut object::write::Object,
    symbol: object::write::SymbolId,
) -> (offset: Option<u64>)
    requires
        0 <= symbol_index(symbol) < object_symbols(*old(obj)).len(),
        object_symbols(*old(obj))[symbol_index(symbol)].kind != SymbolKind::Section,
        object_symbols(*old(obj))[symbol_index(symbol)].section matches Some(section) ==> 0
            <= section < object_sections(*old(obj)).len(),
    ensures
        match object_symbols(*old(obj))[symbol_index(symbol)].section {
            None => {
                &&& offset is None
                &&& object_symbols(*final(obj)) == object_symbols(*old(obj))
                &&& object_sections(*final(obj)) == object_sections(*old(obj))
            },
            Some(section) => {
                &&& offset == Some(object_symbols(*old(obj))[symbol_index(symbol)].value as u64)
                &&& object_sections(*old(obj))[section].symbol is Some ==> {
                    &&& object_symbols(*final(obj)) == object_symbols(*old(obj))
                    &&& object_sections(*final(obj)) == object_sections(*old(obj))
                }
                &&& object_sections(*old(obj))[section].symbol is None ==> {
                    &&& object_symbols(*final(obj)) == object_symbols(*old(obj)).push(
                        section_symbol(section),
                    )
                    &&& object_sections(*final(obj)) == object_sections(*old(obj)).update(
                        section,
                        SectionRecord {
                            symbol: Some(object_symbols(*old(obj)).len() as int),
                            ..object_sections(*old(obj))[section]
                        },
                    )
                }
            },
        },
        object_symbol_ids(*final(obj)) == object_symbol_ids(*old(obj)),
        object_standard_sections(*final(obj)) == object_standard_sections(*old(obj)),
        object_target(*final(obj)) == object_target(*old(obj)),
{
    match obj.symbol_section_and_offset(symbol) {
        Some((_, offset)) => Some(offset),
        None => None,
    }
}

/// Adds a relocation of 32 bits, relative to the procedure linkage table,
/// to a section with `Object::add_relocation`.
///
/// ELF keeps the relocation as it is given. Mach-O and COFF write a part of
/// the addend into the four bytes of the place, in the byte order of the
/// object, and keep the rest; where that part is not zero and the place does
/// not lie within the data of the section, the relocation is refused with an
/// error that names the offset, the size and the length of the data, and
/// the object stays as it was.
#[verifier::external_body]
pub(crate) fn add_relocation(
    obj: &mut object::write::Object,
    section: object::write::SectionId,
    relocation: ObjectRelocation,
) -> (result: Result<(), object::write::Error>)
    requires
        0 <= section_index(section) < object_sections(*old(obj)).len(),
        0 <= symbol_index(relocation.symbol) < object_symbols(*old(obj)).len(),
        relocation.size == 32,
        relocation.kind == RelocationKind::PltRelative,
        object_target(*old(obj)).format != ObjectFormat::Elf ==> relocation.addend + 4 <= i64::MAX,
        addend_in_place(object_target(*old(obj)).format, relocation.addend as int) != 0
            ==> relocation.offset <= usize::MAX,
        !(object_target(*old(obj)).format == ObjectFormat::Coff && object_target(
            *old(obj),
        ).architecture == ObjectArchitecture::Aarch64),
    ensures
        result is Ok <==> addend_in_place(
            object_target(*old(obj)).format,
            relocation.addend as int,
        ) == 0 || relocation.offset + 4 <= object_sections(*old(obj))[section_index(
            section,
        )].data.len(),
        result is Ok ==> {
            &&& object_sections(*final(obj)).len() == object_sections(*old(obj)).len()
            &&& forall|i: int|
                0 <= i < object_sections(*old(obj)).len() && i != section_index(section)
                    ==> #[trigger] object_sections(*final(obj))[i] == object_sections(
                    *old(obj),
                )[i]
            &&& object_sections(*final(obj))[section_index(section)].relocations
                == object_sections(*old(obj))[section_index(section)].relocations.push(
                kept_relocation(object_target(*old(obj)).format, relocation),
            )
            &&& object_sections(*final(obj))[section_index(section)].symbol == object_sections(
                *old(obj),
            )[section_index(section)].symbol
            &&& object_sections(*final(obj))[section_index(section)].data == written_in_place(
                object_sections(*old(obj))[section_index(section)].data,
                relocation.offset as int,
                object_target(*old(obj)).endianness,
                addend_in_place(object_target(*old(obj)).format, relocation.addend as int),
            )
        },
        result is Err ==> object_sections(*final(obj)) == object_sections(*old(obj)),
        result matches Err(error) ==> error_message(error) == invalid_offset_message(
            relocation.offset as nat,
            relocation.size as nat,
            object_sections(*old(obj))[section_index(section)].data.len(),
        ),
        object_symbols(*final(obj)) == object_symbols(*old(obj)),
        object_symbol_ids(*final(obj)) == object_symbol_ids(*old(obj)),
        object_standard_sections(*final(obj)) == object_standard_sections(*old(obj)),
        object_target(*final(obj)) == object_target(*old(obj)),
{
    let kind = match relocation.kind {
        RelocationKind::Relative => object::RelocationKind::Relative,
        RelocationKind::PltRelative => object::RelocationKind::PltRelative,
    };
    let encoding = match relocation.encoding {
        RelocationEncoding::X86Branch => object::RelocationEncoding::X86Branch,
    };
    let ObjectRelocation { offset, size, symbol, addend, .. } = relocation;
    let relocation = object::write::Relocation { offset, size, kind, encoding, symbol, addend };
    obj.add_relocation(section, relocation)
}

/// Writes the object file with `Object::write`. The writer puts the names
/// of the symbols into a table of strings that end in a zero byte, and does
/// not take a name that holds one.
#[verifier::external_body]
pub(crate) fn write_object(obj: &object::write::Object) -> (result: Result<
    Vec<u8>,
    object::write::Error,
>)
    requires
        writable(object_symbols(*obj)),
    ensures
        match result {
            Ok(bytes) => object_image(*obj) == written_image(bytes@),
            Err(error) => object_image(*obj) == failed_image(error_message(error)),
        },
{
    obj.write()
}

/// The text of an error of the object writer, as it displays itself.
#[verifier::external_body]
pub(crate) fn error_text(error: &object::write::Error) -> (text: String)
    ensures
        text@ == error_message(*error),
{
    error.to_string()
}

} // verus!
