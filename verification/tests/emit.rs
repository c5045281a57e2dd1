use object::read::{Object, ObjectSection};
use wasmer_engine_native::compilation::{
    Compilation, CustomSection, CustomSectionProtection, FunctionBody, LibCall, Relocation,
    RelocationTarget,
};
use wasmer_engine_native::emit::{emit, write_file, ObjectFile};
use wasmer_engine_native::error::CompileError;
use wasmer_engine_native::metadata::{frame_metadata, FunctionBodyLengths, ModuleMetadata};
use wasmer_engine_native::target::{Endianness, ObjectArchitecture, ObjectFormat, ObjectTarget};

fn elf() -> ObjectTarget {
    ObjectTarget {
        format: ObjectFormat::Elf,
        architecture: ObjectArchitecture::X86_64,
        endianness: Endianness::Little,
    }
}

fn mach_o() -> ObjectTarget {
    ObjectTarget {
        format: ObjectFormat::MachO,
        architecture: ObjectArchitecture::X86_64,
        endianness: Endianness::Little,
    }
}

fn coff(architecture: ObjectArchitecture) -> ObjectTarget {
    ObjectTarget { format: ObjectFormat::Coff, architecture, endianness: Endianness::Little }
}

fn metadata(prefix: &str) -> ModuleMetadata {
    ModuleMetadata {
        prefix: prefix.to_string(),
        function_body_lengths: FunctionBodyLengths::from_vec(vec![]),
        signatures: vec![],
        num_functions: 0,
        num_imported_funcs: 0,
    }
}

fn empty() -> Compilation {
    Compilation {
        functions: vec![],
        custom_sections: vec![],
        function_call_trampolines: vec![],
        dynamic_function_trampolines: vec![],
    }
}

fn body(bytes: &[u8], relocations: Vec<Relocation>) -> FunctionBody {
    FunctionBody { body: bytes.to_vec(), relocations }
}

fn relocation(target: RelocationTarget, offset: u32, addend: i64) -> Relocation {
    Relocation { target, offset, addend }
}

fn message(error: CompileError) -> String {
    match error {
        CompileError::Codegen(message) => message,
    }
}

fn symbol<'a>(file: &'a ObjectFile, name: &[u8]) -> &'a object::write::Symbol {
    let object = file.object();
    object.symbol(object.symbol_id(name).unwrap())
}

struct Found {
    name: String,
    address: u64,
    size: u64,
    undefined: bool,
    section: Option<String>,
    kind: object::SymbolKind,
    global: bool,
}

fn symbols_of(bytes: &[u8]) -> Vec<Found> {
    let file = object::read::File::parse(bytes).unwrap();
    let mut found = Vec::new();
    for (_, symbol) in file.symbols() {
        let section = match symbol.section_index() {
            Some(index) => match file.section_by_index(index) {
                Ok(section) => Some(section.name().unwrap().to_string()),
                Err(_) => None,
            },
            None => None,
        };
        found.push(Found {
            name: symbol.name().unwrap_or("").to_string(),
            address: symbol.address(),
            size: symbol.size(),
            undefined: symbol.is_undefined(),
            section,
            kind: symbol.kind(),
            global: symbol.is_global(),
        });
    }
    found
}

fn named<'a>(symbols: &'a [Found], name: &str) -> Vec<&'a Found> {
    let mut matching = Vec::new();
    for symbol in symbols {
        if symbol.name == name {
            matching.push(symbol);
        }
    }
    matching
}

fn section_data(bytes: &[u8], name: &str) -> Vec<u8> {
    let file = object::read::File::parse(bytes).unwrap();
    file.section_by_name(name).unwrap().data().unwrap().to_vec()
}

struct Kept {
    offset: u64,
    symbol: String,
    index: usize,
    addend: i64,
    size: u8,
    kind: object::RelocationKind,
}

fn relocations_of(bytes: &[u8], section: &str) -> Vec<Kept> {
    let file = object::read::File::parse(bytes).unwrap();
    let section = file.section_by_name(section).unwrap();
    let mut kept = Vec::new();
    for (offset, relocation) in section.relocations() {
        let index = match relocation.target() {
            object::read::RelocationTarget::Symbol(index) => index,
            _ => panic!("a relocation without a symbol"),
        };
        let symbol = file.symbol_by_index(index).unwrap().name().unwrap_or("").to_string();
        kept.push(Kept {
            offset,
            symbol,
            index: index.0,
            addend: relocation.addend(),
            size: relocation.size(),
            kind: relocation.kind(),
        });
    }
    kept
}

#[test]
fn an_empty_module_gives_an_object_with_only_the_metadata() {
    let blob = frame_metadata(&[1, 2, 3, 4]);
    let object = emit(elf(), &metadata("e"), &blob, &empty()).unwrap();
    let symbol = symbol(&object, b"WASMER_METADATA");
    assert_eq!(symbol.value, 0);
    assert_eq!(symbol.size, 14);
    assert_eq!(symbol.kind, object::SymbolKind::Data);
    assert_eq!(symbol.scope, object::SymbolScope::Dynamic);
    assert!(!symbol.weak);
    let bytes = write_file(&object).unwrap();
    assert_eq!(&bytes[..5], &[0x7f, b'E', b'L', b'F', 2]);
    let symbols = symbols_of(&bytes);
    let metadata_symbols = named(&symbols, "WASMER_METADATA");
    assert_eq!(metadata_symbols.len(), 1);
    assert_eq!(metadata_symbols[0].size, 14);
    assert_eq!(metadata_symbols[0].address, 0);
    assert!(metadata_symbols[0].global);
    assert_eq!(metadata_symbols[0].section.as_deref(), Some(".data"));
    assert_eq!(section_data(&bytes, ".data"), blob);
    let file = object::read::File::parse(&bytes[..]).unwrap();
    assert!(file.section_by_name(".text").is_none());
    for symbol in &symbols {
        assert!(!symbol.name.starts_with("wasm_"));
    }
}

#[test]
fn one_function_and_its_trampoline_follow_each_other_in_the_text() {
    let code = [0xb8, 0x2a, 0x00, 0x00, 0x00, 0xc3];
    let trampoline = [0x55, 0x48, 0x89, 0xe5, 0xff, 0xd6, 0x5d, 0xc3];
    let mut compilation = empty();
    compilation.functions.push(body(&code, vec![]));
    compilation.function_call_trampolines.push(trampoline.to_vec());
    let blob = frame_metadata(b"meta");
    let object = emit(elf(), &metadata("t"), &blob, &compilation).unwrap();
    let function = symbol(&object, b"wasm_function_t_0");
    assert_eq!((function.value, function.size), (0, 6));
    assert_eq!(function.kind, object::SymbolKind::Text);
    assert_eq!(function.scope, object::SymbolScope::Dynamic);
    let call = symbol(&object, b"wasm_trampoline_t_0");
    assert_eq!((call.value, call.size), (6, 8));
    assert!(object.object().symbol_id(b"wasm_function_t_1").is_none());
    let bytes = write_file(&object).unwrap();
    let mut text = code.to_vec();
    text.extend_from_slice(&trampoline);
    assert_eq!(section_data(&bytes, ".text"), text);
    let symbols = symbols_of(&bytes);
    let found = named(&symbols, "wasm_function_t_0");
    assert_eq!(found.len(), 1);
    assert_eq!((found[0].address, found[0].size), (0, 6));
    assert_eq!(found[0].section.as_deref(), Some(".text"));
    assert_eq!(found[0].kind, object::SymbolKind::Text);
    assert!(found[0].global && !found[0].undefined);
    let found = named(&symbols, "wasm_trampoline_t_0");
    assert_eq!((found[0].address, found[0].size), (6, 8));
}

#[test]
fn the_parts_are_laid_out_in_their_order() {
    let mut compilation = empty();
    compilation.custom_sections.push(CustomSection {
        protection: CustomSectionProtection::Read,
        bytes: vec![1, 1, 1],
        relocations: vec![],
    });
    compilation.custom_sections.push(CustomSection {
        protection: CustomSectionProtection::ReadExecute,
        bytes: vec![2, 2],
        relocations: vec![],
    });
    compilation.functions.push(body(&[3, 3, 3, 3], vec![]));
    compilation.functions.push(body(&[], vec![]));
    compilation.functions.push(body(&[4], vec![]));
    compilation.function_call_trampolines.push(vec![5, 5]);
    compilation.dynamic_function_trampolines.push(vec![6, 6, 6]);
    compilation.dynamic_function_trampolines.push(vec![7]);
    let blob = frame_metadata(&[]);
    let object = emit(elf(), &metadata("x1"), &blob, &compilation).unwrap();
    let expected: [(&[u8], u64, u64, object::SymbolKind); 8] = [
        (b"wasm_section_x1_0", 0, 3, object::SymbolKind::Data),
        (b"wasm_section_x1_1", 3, 2, object::SymbolKind::Text),
        (b"wasm_function_x1_0", 5, 4, object::SymbolKind::Text),
        (b"wasm_function_x1_1", 9, 0, object::SymbolKind::Text),
        (b"wasm_function_x1_2", 9, 1, object::SymbolKind::Text),
        (b"wasm_trampoline_x1_0", 10, 2, object::SymbolKind::Text),
        (b"wasm_dyn_trampoline_x1_0", 12, 3, object::SymbolKind::Text),
        (b"wasm_dyn_trampoline_x1_1", 15, 1, object::SymbolKind::Text),
    ];
    let text_section = symbol(&object, b"wasm_function_x1_0").section;
    for (name, value, size, kind) in expected {
        let symbol = symbol(&object, name);
        assert_eq!((symbol.value, symbol.size), (value, size));
        assert_eq!(symbol.kind, kind);
        assert_eq!(symbol.scope, object::SymbolScope::Dynamic);
        assert_eq!(symbol.section, text_section);
    }
    let metadata_symbol = symbol(&object, b"WASMER_METADATA");
    assert_ne!(metadata_symbol.section, text_section);
    let bytes = write_file(&object).unwrap();
    assert_eq!(
        section_data(&bytes, ".text"),
        vec![1, 1, 1, 2, 2, 3, 3, 3, 3, 4, 5, 5, 6, 6, 6, 7]
    );
    assert_eq!(section_data(&bytes, ".data"), vec![0u8; 10]);
}

#[test]
fn relocations_are_placed_at_the_offset_of_their_owner() {
    let mut compilation = empty();
    compilation.custom_sections.push(CustomSection {
        protection: CustomSectionProtection::Read,
        bytes: vec![0; 16],
        relocations: vec![relocation(RelocationTarget::LocalFunc(1), 8, 0)],
    });
    compilation.functions.push(body(
        &[0x90; 12],
        vec![
            relocation(RelocationTarget::LocalFunc(1), 1, -4),
            relocation(RelocationTarget::JumpTable(0, 0), 3, 0),
            relocation(RelocationTarget::CustomSection(0), 6, 12),
        ],
    ));
    compilation.functions.push(body(&[0xc3; 4], vec![]));
    let blob = frame_metadata(&[]);
    let object = emit(elf(), &metadata("r"), &blob, &compilation).unwrap();
    let bytes = write_file(&object).unwrap();
    let kept = relocations_of(&bytes, ".text");
    assert_eq!(kept.len(), 3);
    assert_eq!(kept[0].offset, 16 + 1);
    assert_eq!(kept[0].symbol, "wasm_function_r_1");
    assert_eq!(kept[0].addend, -4);
    assert_eq!(kept[1].offset, 16 + 6);
    assert_eq!(kept[1].symbol, "wasm_section_r_0");
    assert_eq!(kept[1].addend, 12);
    assert_eq!(kept[2].offset, 8);
    assert_eq!(kept[2].symbol, "wasm_function_r_1");
    assert_eq!(kept[2].addend, 0);
    for relocation in &kept {
        assert_eq!(relocation.size, 32);
        assert_eq!(relocation.kind, object::RelocationKind::PltRelative);
    }
    let mut text = vec![0u8; 16];
    text.extend_from_slice(&[0x90; 12]);
    text.extend_from_slice(&[0xc3; 4]);
    assert_eq!(section_data(&bytes, ".text"), text);
}

#[test]
fn every_helper_gets_one_undefined_symbol() {
    let mut compilation = empty();
    compilation.functions.push(body(
        &[0; 32],
        vec![
            relocation(RelocationTarget::LibCall(LibCall::CeilF32), 2, -4),
            relocation(RelocationTarget::LibCall(LibCall::RaiseTrap), 9, -4),
            relocation(RelocationTarget::LibCall(LibCall::CeilF32), 20, -4),
        ],
    ));
    compilation.functions.push(body(
        &[0; 8],
        vec![
            relocation(RelocationTarget::LibCall(LibCall::RaiseTrap), 1, -4),
            relocation(RelocationTarget::LibCall(LibCall::TruncF64), 4, -4),
        ],
    ));
    compilation.custom_sections.push(CustomSection {
        protection: CustomSectionProtection::ReadExecute,
        bytes: vec![0; 16],
        relocations: vec![relocation(RelocationTarget::LibCall(LibCall::CeilF32), 8, 0)],
    });
    let blob = frame_metadata(&[]);
    let object = emit(elf(), &metadata("h"), &blob, &compilation).unwrap();
    assert!(object.object().symbol_id(b"wasmer_f32_ceil").is_none());
    let bytes = write_file(&object).unwrap();
    let symbols = symbols_of(&bytes);
    for name in ["wasmer_f32_ceil", "wasmer_raise_trap", "wasmer_f64_trunc"] {
        let helper = named(&symbols, name);
        assert_eq!(helper.len(), 1);
        assert!(helper[0].undefined);
        assert_eq!(helper[0].section, None);
    }
    assert!(named(&symbols, "wasmer_f64_floor").is_empty());
    let kept = relocations_of(&bytes, ".text");
    assert_eq!(kept.len(), 6);
    assert_eq!((kept[0].offset, kept[0].symbol.as_str()), (16 + 2, "wasmer_f32_ceil"));
    assert_eq!((kept[1].offset, kept[1].symbol.as_str()), (16 + 9, "wasmer_raise_trap"));
    assert_eq!((kept[2].offset, kept[2].symbol.as_str()), (16 + 20, "wasmer_f32_ceil"));
    assert_eq!((kept[3].offset, kept[3].symbol.as_str()), (48 + 1, "wasmer_raise_trap"));
    assert_eq!((kept[4].offset, kept[4].symbol.as_str()), (48 + 4, "wasmer_f64_trunc"));
    assert_eq!((kept[5].offset, kept[5].symbol.as_str()), (8, "wasmer_f32_ceil"));
    assert_eq!(kept[0].index, kept[2].index);
    assert_eq!(kept[0].index, kept[5].index);
    assert_eq!(kept[1].index, kept[3].index);
    assert_ne!(kept[0].index, kept[1].index);
    assert_ne!(kept[1].index, kept[4].index);
    // The helpers follow each other in the order of their first reference.
    assert_eq!(kept[1].index, kept[0].index + 1);
    assert_eq!(kept[4].index, kept[1].index + 1);
}

#[test]
fn a_prefix_with_a_null_character_is_refused() {
    let mut compilation = empty();
    compilation.functions.push(body(&[], vec![]));
    for prefix in ["\0", "a\0b", "abc\0"] {
        let error = emit(elf(), &metadata(prefix), &frame_metadata(&[]), &compilation).unwrap_err();
        assert_eq!(message(error), "The prefix of the module holds a null character");
        // Without a piece to name, the prefix goes into no name.
        let object = emit(elf(), &metadata(prefix), &frame_metadata(&[]), &empty()).unwrap();
        assert!(write_file(&object).is_ok());
        let mut trampoline = empty();
        trampoline.dynamic_function_trampolines.push(vec![0xc3]);
        let error = emit(elf(), &metadata(prefix), &frame_metadata(&[]), &trampoline).unwrap_err();
        assert_eq!(message(error), "The prefix of the module holds a null character");
    }
    for prefix in ["", "0", "h\u{e9}", "\u{100}\u{1000}\u{10000}", "\u{1}"] {
        let object = emit(elf(), &metadata(prefix), &frame_metadata(&[]), &compilation).unwrap();
        assert!(write_file(&object).is_ok());
    }
}

#[test]
fn the_prefix_is_looked_at_before_the_relocations() {
    let mut compilation = empty();
    compilation
        .functions
        .push(body(&[0; 8], vec![relocation(RelocationTarget::LocalFunc(0), 6, 1)]));
    let error = emit(mach_o(), &metadata("\0"), &frame_metadata(&[]), &compilation).unwrap_err();
    assert_eq!(message(error), "The prefix of the module holds a null character");
}

#[test]
fn the_helpers_have_the_names_of_the_runtime() {
    let helpers = [
        (LibCall::CeilF32, "wasmer_f32_ceil"),
        (LibCall::CeilF64, "wasmer_f64_ceil"),
        (LibCall::FloorF32, "wasmer_f32_floor"),
        (LibCall::FloorF64, "wasmer_f64_floor"),
        (LibCall::NearestF32, "wasmer_f32_nearest"),
        (LibCall::NearestF64, "wasmer_f64_nearest"),
        (LibCall::RaiseTrap, "wasmer_raise_trap"),
        (LibCall::TruncF32, "wasmer_f32_trunc"),
        (LibCall::TruncF64, "wasmer_f64_trunc"),
    ];
    for (helper, name) in helpers {
        let mut compilation = empty();
        compilation
            .functions
            .push(body(&[0; 8], vec![relocation(RelocationTarget::LibCall(helper), 1, 0)]));
        let object = emit(elf(), &metadata("n"), &frame_metadata(&[]), &compilation).unwrap();
        let bytes = write_file(&object).unwrap();
        let kept = relocations_of(&bytes, ".text");
        assert_eq!(kept.len(), 1);
        assert_eq!(kept[0].symbol, name);
    }
    let mut compilation = empty();
    compilation.functions.push(body(
        &[0; 8],
        vec![relocation(RelocationTarget::LibCall(LibCall::Probestack), 1, 0)],
    ));
    let object = emit(elf(), &metadata("n"), &frame_metadata(&[]), &compilation).unwrap();
    let bytes = write_file(&object).unwrap();
    let kept = relocations_of(&bytes, ".text");
    assert!(kept[0].symbol == "wasmer_probestack" || kept[0].symbol == "_wasmer_probestack");
}

#[test]
fn elf_takes_relocations_outside_the_text() {
    let mut compilation = empty();
    compilation.functions.push(body(
        &[0; 4],
        vec![relocation(RelocationTarget::LocalFunc(0), 4000, 77)],
    ));
    let object = emit(elf(), &metadata("o"), &frame_metadata(&[]), &compilation).unwrap();
    let bytes = write_file(&object).unwrap();
    let kept = relocations_of(&bytes, ".text");
    assert_eq!((kept[0].offset, kept[0].addend), (4000, 77));
}

#[test]
fn mach_o_writes_the_addend_into_the_place() {
    let mut compilation = empty();
    compilation.functions.push(body(
        &[0xaa; 12],
        vec![
            relocation(RelocationTarget::LocalFunc(0), 2, 0),
            relocation(RelocationTarget::LocalFunc(0), 8, -4),
        ],
    ));
    let object = emit(mach_o(), &metadata("m"), &frame_metadata(&[]), &compilation).unwrap();
    assert!(object.object().symbol_id(b"wasm_function_m_0").is_some());
    let bytes = write_file(&object).unwrap();
    assert_eq!(&bytes[..4], &[0xcf, 0xfa, 0xed, 0xfe]);
    let text = section_data(&bytes, "__text");
    assert_eq!(text, vec![0xaa, 0xaa, 4, 0, 0, 0, 0xaa, 0xaa, 0xaa, 0xaa, 0xaa, 0xaa]);
    let symbols = symbols_of(&bytes);
    assert_eq!(named(&symbols, "_wasm_function_m_0").len(), 1);
}

#[test]
fn a_negative_part_of_the_addend_is_written_as_its_low_32_bits() {
    let mut compilation = empty();
    compilation.functions.push(body(
        &[0x77; 10],
        vec![
            relocation(RelocationTarget::LocalFunc(0), 1, -100),
            relocation(RelocationTarget::LocalFunc(0), 6, 0x1_0000_0000 - 4 + 0x0102_0304),
        ],
    ));
    let object = emit(mach_o(), &metadata("m"), &frame_metadata(&[]), &compilation).unwrap();
    let bytes = write_file(&object).unwrap();
    assert_eq!(
        section_data(&bytes, "__text"),
        vec![0x77, 0xa0, 0xff, 0xff, 0xff, 0x77, 0x04, 0x03, 0x02, 0x01]
    );
}

#[test]
fn later_requests_write_over_earlier_ones() {
    let mut compilation = empty();
    compilation.functions.push(body(
        &[0; 8],
        vec![
            relocation(RelocationTarget::LocalFunc(0), 0, 0x0a0b_0c0d - 4),
            relocation(RelocationTarget::LocalFunc(0), 2, 0x0102_0304 - 4),
        ],
    ));
    let object = emit(mach_o(), &metadata("m"), &frame_metadata(&[]), &compilation).unwrap();
    let bytes = write_file(&object).unwrap();
    assert_eq!(section_data(&bytes, "__text"), vec![0x0d, 0x0c, 0x04, 0x03, 0x02, 0x01, 0, 0]);
}

#[test]
fn a_big_endian_object_writes_the_addend_big_endian() {
    let mut compilation = empty();
    compilation
        .functions
        .push(body(&[0; 6], vec![relocation(RelocationTarget::LocalFunc(0), 1, 0x0102_0304 - 4)]));
    let target = ObjectTarget {
        format: ObjectFormat::MachO,
        architecture: ObjectArchitecture::X86_64,
        endianness: Endianness::Big,
    };
    let object = emit(target, &metadata("m"), &frame_metadata(&[]), &compilation).unwrap();
    let bytes = write_file(&object).unwrap();
    assert_eq!(section_data(&bytes, "__text"), vec![0, 0x01, 0x02, 0x03, 0x04, 0]);
}

#[test]
fn mach_o_refuses_a_place_outside_the_text() {
    let mut compilation = empty();
    compilation
        .functions
        .push(body(&[0; 8], vec![relocation(RelocationTarget::LocalFunc(0), 5, 0)]));
    assert!(emit(mach_o(), &metadata("m"), &frame_metadata(&[]), &compilation).is_err());
    let mut compilation = empty();
    compilation
        .functions
        .push(body(&[0; 8], vec![relocation(RelocationTarget::LocalFunc(0), 4, 0)]));
    assert!(emit(mach_o(), &metadata("m"), &frame_metadata(&[]), &compilation).is_ok());
    let mut compilation = empty();
    compilation
        .functions
        .push(body(&[0; 8], vec![relocation(RelocationTarget::LocalFunc(0), 500, -4)]));
    assert!(emit(mach_o(), &metadata("m"), &frame_metadata(&[]), &compilation).is_ok());
}

#[test]
fn the_refusal_of_the_object_is_a_codegen_error() {
    let mut compilation = empty();
    compilation
        .functions
        .push(body(&[0; 8], vec![relocation(RelocationTarget::LocalFunc(0), 6, 1)]));
    let error = emit(mach_o(), &metadata("m"), &frame_metadata(&[]), &compilation).unwrap_err();
    assert_eq!(message(error), "invalid relocation offset 6+32 (max 8)");
}

#[test]
fn the_first_refused_relocation_is_reported() {
    let mut compilation = empty();
    compilation.custom_sections.push(CustomSection {
        protection: CustomSectionProtection::ReadExecute,
        bytes: vec![0; 100],
        relocations: vec![relocation(RelocationTarget::LocalFunc(0), 3000, 0)],
    });
    compilation.functions.push(body(
        &[0; 20],
        vec![
            relocation(RelocationTarget::LocalFunc(1), 16, 0),
            relocation(RelocationTarget::LocalFunc(1), 117, 0),
            relocation(RelocationTarget::LocalFunc(1), 900, 0),
        ],
    ));
    compilation.functions.push(body(
        &[0; 4],
        vec![relocation(RelocationTarget::LocalFunc(0), 2, i64::MAX)],
    ));
    let error = emit(mach_o(), &metadata("m"), &frame_metadata(&[]), &compilation).unwrap_err();
    assert_eq!(message(error), "invalid relocation offset 217+32 (max 124)");
    compilation.functions[0].relocations.remove(1);
    let error = emit(mach_o(), &metadata("m"), &frame_metadata(&[]), &compilation).unwrap_err();
    assert_eq!(message(error), "invalid relocation offset 1000+32 (max 124)");
    compilation.functions[0].relocations.truncate(1);
    let error = emit(mach_o(), &metadata("m"), &frame_metadata(&[]), &compilation).unwrap_err();
    assert_eq!(message(error), "relocation addend out of range");
    compilation.functions[1].relocations.clear();
    let error = emit(mach_o(), &metadata("m"), &frame_metadata(&[]), &compilation).unwrap_err();
    assert_eq!(message(error), "invalid relocation offset 3000+32 (max 124)");
}

#[test]
fn addends_that_overflow_are_refused_outside_elf() {
    let mut compilation = empty();
    compilation.functions.push(body(
        &[0; 8],
        vec![relocation(RelocationTarget::LocalFunc(0), 0, i64::MAX - 3)],
    ));
    let error = emit(mach_o(), &metadata("m"), &frame_metadata(&[]), &compilation).unwrap_err();
    assert_eq!(message(error), "relocation addend out of range");
    let windows = coff(ObjectArchitecture::X86_64);
    let error = emit(windows, &metadata("m"), &frame_metadata(&[]), &compilation).unwrap_err();
    assert_eq!(message(error), "relocation addend out of range");
    assert!(emit(elf(), &metadata("m"), &frame_metadata(&[]), &compilation).is_ok());
}

#[test]
fn coff_keeps_small_negative_addends_out_of_the_place() {
    let mut compilation = empty();
    compilation.functions.push(body(
        &[0x11; 8],
        vec![
            relocation(RelocationTarget::LocalFunc(0), 0, -4),
            relocation(RelocationTarget::LocalFunc(0), 4, 6),
        ],
    ));
    let target = coff(ObjectArchitecture::X86_64);
    let object = emit(target, &metadata("c"), &frame_metadata(&[]), &compilation).unwrap();
    let bytes = write_file(&object).unwrap();
    assert_eq!(section_data(&bytes, ".text"), vec![0x11, 0x11, 0x11, 0x11, 10, 0, 0, 0]);
}

#[test]
fn coff_has_no_relocations_for_aarch64() {
    let mut compilation = empty();
    compilation.functions.push(body(&[0; 8], vec![]));
    let target = coff(ObjectArchitecture::Aarch64);
    assert!(emit(target, &metadata("c"), &frame_metadata(&[]), &compilation).is_ok());
    compilation.functions[0].relocations.push(relocation(RelocationTarget::JumpTable(0, 1), 0, 0));
    assert!(emit(target, &metadata("c"), &frame_metadata(&[]), &compilation).is_ok());
    compilation.functions[0].relocations.push(relocation(RelocationTarget::LocalFunc(0), 0, -4));
    let error = emit(target, &metadata("c"), &frame_metadata(&[]), &compilation).unwrap_err();
    assert_eq!(message(error), "COFF has no such relocation for aarch64");
}

#[test]
fn an_object_that_cannot_be_written_is_a_codegen_error() {
    let mut compilation = empty();
    compilation
        .functions
        .push(body(&[0; 8], vec![relocation(RelocationTarget::LocalFunc(0), 0, 0)]));
    let target = ObjectTarget {
        format: ObjectFormat::Elf,
        architecture: ObjectArchitecture::Aarch64,
        endianness: Endianness::Little,
    };
    let object = emit(target, &metadata("a"), &frame_metadata(&[]), &compilation).unwrap();
    let error = write_file(&object).unwrap_err();
    assert!(message(error).starts_with("unimplemented relocation"));
}

#[test]
fn well_formed_compilations_are_told_apart() {
    let mut compilation = empty();
    assert!(compilation.is_well_formed());
    compilation.functions.push(body(
        &[0; 8],
        vec![
            relocation(RelocationTarget::LocalFunc(0), 0, 0),
            relocation(RelocationTarget::JumpTable(9, 9), 0, 0),
            relocation(RelocationTarget::LibCall(LibCall::TruncF64), 0, 0),
        ],
    ));
    assert!(compilation.is_well_formed());
    compilation.functions[0].relocations.push(relocation(RelocationTarget::LocalFunc(1), 0, 0));
    assert!(!compilation.is_well_formed());
    compilation.functions.push(body(&[], vec![]));
    assert!(compilation.is_well_formed());
    compilation.custom_sections.push(CustomSection {
        protection: CustomSectionProtection::Read,
        bytes: vec![],
        relocations: vec![relocation(RelocationTarget::CustomSection(1), 0, 0)],
    });
    assert!(!compilation.is_well_formed());
    compilation.custom_sections[0].relocations[0].target = RelocationTarget::CustomSection(0);
    assert!(compilation.is_well_formed());
}

#[test]
fn function_body_lengths_are_the_lengths_of_the_bodies() {
    let mut compilation = empty();
    assert_eq!(compilation.function_body_lengths().to_vec(), Vec::<u64>::new());
    compilation.functions.push(body(&[0; 8], vec![]));
    compilation.functions.push(body(&[], vec![]));
    compilation.functions.push(body(&[1, 2, 3], vec![]));
    assert_eq!(compilation.function_body_lengths().to_vec(), vec![8, 0, 3]);
    assert_eq!(compilation.function_body_lengths().len(), 3);
}

#[test]
fn big_endian_objects_are_written_big_endian() {
    let target = ObjectTarget {
        format: ObjectFormat::Elf,
        architecture: ObjectArchitecture::Aarch64,
        endianness: Endianness::Big,
    };
    let object = emit(target, &metadata("b"), &frame_metadata(&[7]), &empty()).unwrap();
    let bytes = write_file(&object).unwrap();
    assert_eq!(&bytes[..6], &[0x7f, b'E', b'L', b'F', 2, 2]);
    let file = object::read::File::parse(&bytes[..]).unwrap();
    assert_eq!(file.architecture(), object::Architecture::Aarch64);
    assert!(!file.is_little_endian());
}

#[test]
fn coff_cannot_write_the_symbols_of_helpers() {
    let mut compilation = empty();
    compilation.functions.push(body(
        &[0x90; 16],
        vec![
            relocation(RelocationTarget::LibCall(LibCall::FloorF64), 4, -4),
            relocation(RelocationTarget::LocalFunc(0), 10, -4),
        ],
    ));
    for target in [elf(), mach_o()] {
        let object = emit(target, &metadata("f"), &frame_metadata(&[1, 2]), &compilation).unwrap();
        let bytes = write_file(&object).unwrap();
        let symbols = symbols_of(&bytes);
        let mut helpers = 0;
        for symbol in &symbols {
            if symbol.name.ends_with("wasmer_f64_floor") {
                assert!(symbol.undefined);
                helpers += 1;
            }
        }
        assert_eq!(helpers, 1);
    }
    let windows = coff(ObjectArchitecture::X86_64);
    let object = emit(windows, &metadata("f"), &frame_metadata(&[1, 2]), &compilation).unwrap();
    let error = write_file(&object).unwrap_err();
    assert_eq!(message(error), "unimplemented symbol `wasmer_f64_floor` kind Unknown");
}

#[test]
fn the_metadata_is_stored_in_every_format() {
    let blob = frame_metadata(&[0xaa, 0xbb, 0xcc]);
    for (target, section) in
        [(elf(), ".data"), (mach_o(), "__data"), (coff(ObjectArchitecture::X86_64), ".data")]
    {
        let object = emit(target, &metadata("d"), &blob, &empty()).unwrap();
        let bytes = write_file(&object).unwrap();
        assert_eq!(section_data(&bytes, section), blob);
        let symbols = symbols_of(&bytes);
        let mut found = 0;
        for symbol in &symbols {
            if symbol.name.ends_with("WASMER_METADATA") {
                assert!(!symbol.undefined);
                assert!(symbol.global);
                found += 1;
            }
        }
        assert_eq!(found, 1);
    }
}
