//! Targets: what an artifact is built for, and what the host can load.

use crate::error::CompileError;
use vstd::prelude::*;

verus! {

/// The hardware architecture of a target.
#[derive(Debug)]
pub enum Architecture {
    X86_64,
    Aarch64,
    /// Any other architecture, with the name the target triple gives it.
    Other(String),
}

/// The object file format of a target.
#[derive(Debug)]
pub enum BinaryFormat {
    Elf,
    Coff,
    Macho,
    /// Any other format, with the name the target triple gives it.
    Other(String),
}

/// The operating system of a target.
#[derive(Clone, Copy, Debug, PartialEq, Eq, Structural)]
pub enum OperatingSystem {
    Windows,
    Darwin,
    Ios,
    MacOSX,
    Linux,
    Other,
}

/// The byte order of a target.
#[derive(Clone, Copy, Debug, PartialEq, Eq, Structural)]
pub enum Endianness {
    Little,
    Big,
}

/// A target: architecture, operating system, binary format and byte order,
/// together with the name under which toolchains know it.
#[derive(Debug)]
pub struct Triple {
    pub architecture: Architecture,
    pub operating_system: OperatingSystem,
    pub binary_format: BinaryFormat,
    /// The byte order of the architecture, where it is known.
    pub endianness: Option<Endianness>,
    /// The triple in text, such as `x86_64-unknown-linux-gnu`.
    pub name: String,
}

/// The kind of machine this process runs on, as far as loading a shared
/// library is concerned.
#[derive(Clone, Copy, Debug, PartialEq, Eq, Structural)]
pub enum HostPlatform {
    /// macOS, whose shared libraries are 64-bit Mach-O files.
    MacOs,
    /// 64-bit Linux.
    Linux64,
    /// 32-bit Linux.
    Linux32,
    /// Windows.
    Windows,
    /// Anything else: nothing can be loaded there.
    Other,
}

/// The object file formats an object can be written in.
#[derive(Clone, Copy, Debug, PartialEq, Eq, Structural)]
pub enum ObjectFormat {
    Elf,
    MachO,
    Coff,
}

/// The architectures an object can be written for.
#[derive(Clone, Copy, Debug, PartialEq, Eq, Structural)]
pub enum ObjectArchitecture {
    X86_64,
    Aarch64,
}

/// What the object writer needs to know of a target.
#[derive(Clone, Copy, Debug, PartialEq, Eq, Structural)]
pub struct ObjectTarget {
    pub format: ObjectFormat,
    pub architecture: ObjectArchitecture,
    pub endianness: Endianness,
}

impl Architecture {
    /// Whether two architectures are the same one.
    pub open spec fn same(self, other: Architecture) -> bool {
        match (self, other) {
            (Architecture::X86_64, Architecture::X86_64) => true,
            (Architecture::Aarch64, Architecture::Aarch64) => true,
            (Architecture::Other(a), Architecture::Other(b)) => a@ == b@,
            _ => false,
        }
    }

    /// Compares two architectures.
    pub fn is_same(&self, other: &Architecture) -> (r: bool)
        ensures
            r == self.same(*other),
    {
        match (self, other) {
            (Architecture::X86_64, Architecture::X86_64) => true,
            (Architecture::Aarch64, Architecture::Aarch64) => true,
            (Architecture::Other(a), Architecture::Other(b)) => *a == *b,
            _ => false,
        }
    }
}

impl BinaryFormat {
    /// Whether two formats are the same one.
    pub open spec fn same(self, other: BinaryFormat) -> bool {
        match (self, other) {
            (BinaryFormat::Elf, BinaryFormat::Elf) => true,
            (BinaryFormat::Coff, BinaryFormat::Coff) => true,
            (BinaryFormat::Macho, BinaryFormat::Macho) => true,
            (BinaryFormat::Other(a), BinaryFormat::Other(b)) => a@ == b@,
            _ => false,
        }
    }

    /// Compares two formats.
    pub fn is_same(&self, other: &BinaryFormat) -> (r: bool)
        ensures
            r == self.same(*other),
    {
        match (self, other) {
            (BinaryFormat::Elf, BinaryFormat::Elf) => true,
            (BinaryFormat::Coff, BinaryFormat::Coff) => true,
            (BinaryFormat::Macho, BinaryFormat::Macho) => true,
            (BinaryFormat::Other(a), BinaryFormat::Other(b)) => *a == *b,
            _ => false,
        }
    }
}

impl Triple {
    /// Whether two triples describe the same target.
    pub open spec fn same(self, other: Triple) -> bool {
        &&& self.architecture.same(other.architecture)
        &&& self.operating_system == other.operating_system
        &&& self.binary_format.same(other.binary_format)
        &&& self.endianness == other.endianness
        &&& self.name@ == other.name@
    }

    /// Compares two triples.
    pub fn is_same(&self, other: &Triple) -> (r: bool)
        ensures
            r == self.same(*other),
    {
        let endianness = match (self.endianness, other.endianness) {
            (None, None) => true,
            (Some(a), Some(b)) => a == b,
            _ => false,
        };
        self.architecture.is_same(&other.architecture)
            && self.operating_system == other.operating_system
            && self.binary_format.is_same(&other.binary_format)
            && endianness
            && self.name == other.name
    }
}

/// The leading bytes of a shared library that `host` can load, if it can
/// load any.
pub open spec fn magic_header(host: HostPlatform) -> Option<Seq<u8>> {
    match host {
        HostPlatform::MacOs => Some(seq![0xcfu8, 0xfau8, 0xedu8, 0xfeu8]),
        HostPlatform::Linux64 => Some(seq![0x7fu8, 0x45u8, 0x4cu8, 0x46u8, 2u8]),
        HostPlatform::Linux32 => Some(seq![0x7fu8, 0x45u8, 0x4cu8, 0x46u8, 1u8]),
        HostPlatform::Windows => Some(seq![0x4du8, 0x5au8]),
        HostPlatform::Other => None,
    }
}

/// Whether `bytes` begin like a shared library of `host`.
pub open spec fn has_host_magic(host: HostPlatform, bytes: Seq<u8>) -> bool {
    match magic_header(host) {
        Some(magic) => magic.is_prefix_of(bytes),
        None => false,
    }
}

/// The extension of shared libraries under an operating system.
pub open spec fn default_extension(os: OperatingSystem) -> Seq<char> {
    match os {
        OperatingSystem::Windows => "dll"@,
        OperatingSystem::Darwin | OperatingSystem::Ios | OperatingSystem::MacOSX => "dylib"@,
        _ => "so"@,
    }
}

/// What [`object_target`] answers for a triple: the object target, or the
/// message of the error.
pub open spec fn object_target_of(triple: Triple) -> Result<ObjectTarget, Seq<char>> {
    match triple.binary_format {
        BinaryFormat::Other(name) => Err("Binary format "@ + name@ + " not supported"@),
        _ => match triple.architecture {
            Architecture::Other(name) => Err("Architecture "@ + name@ + " not supported"@),
            _ => match triple.endianness {
                None => Err("Can't detect endianness"@),
                Some(endianness) => Ok(
                    ObjectTarget {
                        format: match triple.binary_format {
                            BinaryFormat::Elf => ObjectFormat::Elf,
                            BinaryFormat::Macho => ObjectFormat::MachO,
                            _ => ObjectFormat::Coff,
                        },
                        architecture: match triple.architecture {
                            Architecture::X86_64 => ObjectArchitecture::X86_64,
                            _ => ObjectArchitecture::Aarch64,
                        },
                        endianness,
                    },
                ),
            },
        },
    }
}

/// Whether `result` is what `expected` describes: the same value, or a code
/// generation error with the expected message.
pub open spec fn codegen_result<T>(
    result: Result<T, CompileError>,
    expected: Result<T, Seq<char>>,
) -> bool {
    match (result, expected) {
        (Ok(value), Ok(wanted)) => value == wanted,
        (Err(error), Err(message)) => error.message() == message,
        _ => false,
    }
}

/// Tests whether `bytes` begin with `prefix`.
pub fn starts_with(bytes: &[u8], prefix: &[u8]) -> (r: bool)
    ensures
        r == prefix@.is_prefix_of(bytes@),
{
    if prefix.len() > bytes.len() {
        return false;
    }
    let mut i: usize = 0;
    while i < prefix.len()
        invariant
            i <= prefix.len() <= bytes.len(),
            forall|k: int| 0 <= k < i ==> prefix@[k] == bytes@[k],
        decreases prefix.len() - i,
    {
        if prefix[i] != bytes[i] {
            assert(prefix@ != bytes@.subrange(0, prefix@.len() as int)) by {
                assert(bytes@.subrange(0, prefix@.len() as int)[i as int] == bytes@[i as int]);
            }
            return false;
        }
        i += 1;
    }
    assert(prefix@ =~= bytes@.subrange(0, prefix@.len() as int));
    true
}

/// Tests whether `bytes` begin like a shared library that `host` can load.
/// Only the first few bytes are looked at.
pub fn has_magic(host: HostPlatform, bytes: &[u8]) -> (r: bool)
    ensures
        r == has_host_magic(host, bytes@),
{
    match host {
        HostPlatform::MacOs => {
            let magic: [u8; 4] = [0xcf, 0xfa, 0xed, 0xfe];
            assert(magic@ =~= magic_header(host)->Some_0);
            starts_with(bytes, magic.as_slice())
        },
        HostPlatform::Linux64 => {
            let magic: [u8; 5] = [0x7f, 0x45, 0x4c, 0x46, 2];
            assert(magic@ =~= magic_header(host)->Some_0);
            starts_with(bytes, magic.as_slice())
        },
        HostPlatform::Linux32 => {
            let magic: [u8; 5] = [0x7f, 0x45, 0x4c, 0x46, 1];
            assert(magic@ =~= magic_header(host)->Some_0);
            starts_with(bytes, magic.as_slice())
        },
        HostPlatform::Windows => {
            let magic: [u8; 2] = [0x4d, 0x5a];
            assert(magic@ =~= magic_header(host)->Some_0);
            starts_with(bytes, magic.as_slice())
        },
        HostPlatform::Other => false,
    }
}

/// The extension that shared libraries carry on the triple's operating
/// system: `dll` on Windows, `dylib` on Apple systems, `so` elsewhere.
pub fn extension_for(triple: &Triple) -> (extension: &'static str)
    ensures
        extension@ == default_extension(triple.operating_system),
{
    match triple.operating_system {
        OperatingSystem::Windows => "dll",
        OperatingSystem::Darwin | OperatingSystem::Ios | OperatingSystem::MacOSX => "dylib",
        _ => "so",
    }
}

/// Whether building for `target` on `host` is a cross-compilation: it is,
/// unless the two triples are the same.
pub fn is_cross_compiling(target: &Triple, host: &Triple) -> (cross: bool)
    ensures
        cross == !target.same(*host),
{
    !target.is_same(host)
}

/// Chooses the object format, architecture and byte order for a target.
///
/// Objects can be written as ELF, Mach-O or COFF, for x86_64 or aarch64.
/// Any other target is refused with a code generation error that names what
/// is not supported: first the format, then the architecture, then a byte
/// order that is not known.
pub fn object_target(triple: &Triple) -> (result: Result<ObjectTarget, CompileError>)
    ensures
        codegen_result(result, object_target_of(*triple)),
{
    let format = match &triple.binary_format {
        BinaryFormat::Elf => ObjectFormat::Elf,
        BinaryFormat::Macho => ObjectFormat::MachO,
        BinaryFormat::Coff => ObjectFormat::Coff,
        BinaryFormat::Other(name) => {
            let message = String::from_str("Binary format ").concat(name.as_str()).concat(
                " not supported",
            );
            return Err(CompileError::Codegen(message));
        },
    };
    let architecture = match &triple.architecture {
        Architecture::X86_64 => ObjectArchitecture::X86_64,
        Architecture::Aarch64 => ObjectArchitecture::Aarch64,
        Architecture::Other(name) => {
            let message = String::from_str("Architecture ").concat(name.as_str()).concat(
                " not supported",
            );
            return Err(CompileError::Codegen(message));
        },
    };
    let endianness = match triple.endianness {
        Some(endianness) => endianness,
        None => {
            return Err(CompileError::Codegen(String::from_str("Can't detect endianness")));
        },
    };
    Ok(ObjectTarget { format, architecture, endianness })
}

} // verus!
