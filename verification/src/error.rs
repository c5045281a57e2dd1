//! The failures that building or loading an artifact can report.

use vstd::prelude::*;

verus! {

/// A failure while turning a compiled module into a native artifact.
#[derive(Debug)]
pub enum CompileError {
    /// Code generation failed; the message says why.
    Codegen(String),
}

/// A failure while loading a serialized artifact.
#[derive(Debug)]
pub enum DeserializeError {
    /// The bytes are not a shared library of the host.
    Incompatible(String),
    /// The shared library is not a usable artifact.
    CorruptedBinary(String),
    /// The library was loaded, but its symbols could not be resolved.
    Compiler(CompileError),
}

/// A failure while linking an artifact into an instance.
#[derive(Debug)]
pub enum LinkError {
    /// A trap with its message.
    Trap(String),
}

/// A failure while preparing an artifact for instantiation.
#[derive(Debug)]
pub enum InstantiationError {
    /// The artifact cannot be linked.
    Link(LinkError),
}

impl CompileError {
    /// The message carried by the error.
    pub open spec fn message(self) -> Seq<char> {
        match self {
            CompileError::Codegen(m) => m@,
        }
    }
}

impl DeserializeError {
    /// Whether the error reports an incompatible format with this message.
    pub open spec fn is_incompatible(self, message: Seq<char>) -> bool {
        match self {
            DeserializeError::Incompatible(m) => m@ == message,
            _ => false,
        }
    }

    /// Whether the error reports a corrupted binary with this message.
    pub open spec fn is_corrupted_binary(self, message: Seq<char>) -> bool {
        match self {
            DeserializeError::CorruptedBinary(m) => m@ == message,
            _ => false,
        }
    }

    /// Whether the error reports a code generation failure with this
    /// message, met while resolving the symbols of a loaded library.
    pub open spec fn is_compiler(self, message: Seq<char>) -> bool {
        match self {
            DeserializeError::Compiler(e) => e.message() == message,
            _ => false,
        }
    }
}

impl InstantiationError {
    /// Whether the error is a link error that carries a trap with this
    /// message.
    pub open spec fn is_link_trap(self, message: Seq<char>) -> bool {
        match self {
            InstantiationError::Link(LinkError::Trap(m)) => m@ == message,
        }
    }
}

} // verus!
