//! How the relocatable object is turned into a shared library: which
//! compiler driver is run as the linker, with which arguments, and what is
//! made of its failure.

use crate::error::CompileError;
use crate::target::{OperatingSystem, Triple};
use vstd::prelude::*;

verus! {

/// One argument of the linker.
#[derive(Debug)]
pub enum LinkArgument {
    /// The path of the relocatable object.
    Object,
    /// The path of the shared library that is to be made.
    Output,
    /// An option, as it is written.
    Flag(String),
}

/// One argument of the linker, as a value.
pub enum LinkArgumentView {
    Object,
    Output,
    Flag(Seq<char>),
}

impl View for LinkArgument {
    type V = LinkArgumentView;

    open spec fn view(&self) -> LinkArgumentView {
        match self {
            LinkArgument::Object => LinkArgumentView::Object,
            LinkArgument::Output => LinkArgumentView::Output,
            LinkArgument::Flag(text) => LinkArgumentView::Flag(text@),
        }
    }
}

/// The invocation of the linker.
#[derive(Debug)]
pub struct LinkCommand {
    /// The program, to be found on the search path.
    pub program: String,
    pub arguments: Vec<LinkArgument>,
}

impl LinkCommand {
    /// The arguments as values.
    pub open spec fn arguments_view(self) -> Seq<LinkArgumentView> {
        Seq::new(self.arguments@.len(), |i: int| self.arguments@[i]@)
    }
}

/// The linker for a build: `gcc` for the host, `clang-10` for another
/// target.
pub open spec fn linker_program(cross: bool) -> Seq<char> {
    if cross {
        "clang-10"@
    } else {
        "gcc"@
    }
}

/// The options that let symbols stay undefined until the library is
/// loaded.
pub open spec fn undefined_symbol_flags(os: OperatingSystem, cross: bool) -> Seq<
    LinkArgumentView,
> {
    match os {
        OperatingSystem::Windows => if cross {
            seq![LinkArgumentView::Flag("-Wl,/force:unresolved"@)]
        } else {
            seq![LinkArgumentView::Flag("-Wl,-undefined,dynamic_lookup"@)]
        },
        _ => seq![
            LinkArgumentView::Flag("-nostartfiles"@),
            LinkArgumentView::Flag("-Wl,-undefined,dynamic_lookup"@),
        ],
    }
}

/// The options that a build for another target adds.
pub open spec fn cross_flags(target_name: Seq<char>, cross: bool) -> Seq<LinkArgumentView> {
    if cross {
        seq![
            LinkArgumentView::Flag("--target="@ + target_name),
            LinkArgumentView::Flag("-fuse-ld=lld"@),
            LinkArgumentView::Flag("-nodefaultlibs"@),
            LinkArgumentView::Flag("-nostdlib"@),
        ]
    } else {
        Seq::empty()
    }
}

/// The arguments of the linker, in their order.
pub open spec fn linker_arguments(os: OperatingSystem, target_name: Seq<char>, cross: bool) -> Seq<
    LinkArgumentView,
> {
    seq![LinkArgumentView::Object, LinkArgumentView::Flag("-o"@), LinkArgumentView::Output]
        + undefined_symbol_flags(os, cross) + seq![LinkArgumentView::Flag("-shared"@)]
        + cross_flags(target_name, cross) + seq![LinkArgumentView::Flag("-v"@)]
}

/// The message of the error for a linker that failed, with what it wrote
/// to its two outputs.
pub open spec fn link_failure_message(stderr: Seq<char>, stdout: Seq<char>) -> Seq<char> {
    "Shared object file generator failed with:\nstderr:"@ + stderr + "\nstdout:"@ + stdout
}

/// The text that `String::from_utf8_lossy` makes of bytes.
pub uninterp spec fn lossy_text(bytes: Seq<u8>) -> Seq<char>;

/// What `str::trim_end` leaves of a text.
pub uninterp spec fn trimmed_end(text: Seq<char>) -> Seq<char>;

/// Reads bytes as text with `String::from_utf8_lossy`, which puts the
/// replacement character in place of what is not UTF-8.
#[verifier::external_body]
pub(crate) fn text_of(bytes: &[u8]) -> (text: String)
    ensures
        text@ == lossy_text(bytes@),
{
    String::from_utf8_lossy(bytes).into_owned()
}

/// Takes the white space off the end of a text with `str::trim_end`.
#[verifier::external_body]
pub(crate) fn trim_end(text: &str) -> (trimmed: &str)
    ensures
        trimmed@ == trimmed_end(text@),
{
    text.trim_end()
}

/// An option of the linker.
fn flag(text: &str) -> (argument: LinkArgument)
    ensures
        argument@ == LinkArgumentView::Flag(text@),
{
    LinkArgument::Flag(String::from_str(text))
}

/// The invocation of the linker that makes a shared library for `target`
/// out of the relocatable object. `cross` says whether the target is
/// another one than the host.
pub fn link_command(target: &Triple, cross: bool) -> (command: LinkCommand)
    ensures
        command.program@ == linker_program(cross),
        command.arguments_view() == linker_arguments(
            target.operating_system,
            target.name@,
            cross,
        ),
{
    let mut arguments: Vec<LinkArgument> = Vec::new();
    arguments.push(LinkArgument::Object);
    arguments.push(flag("-o"));
    arguments.push(LinkArgument::Output);
    match target.operating_system {
        OperatingSystem::Windows => {
            if cross {
                arguments.push(flag("-Wl,/force:unresolved"));
            } else {
                arguments.push(flag("-Wl,-undefined,dynamic_lookup"));
            }
        },
        _ => {
            arguments.push(flag("-nostartfiles"));
            arguments.push(flag("-Wl,-undefined,dynamic_lookup"));
        },
    }
    arguments.push(flag("-shared"));
    if cross {
        let target_flag = String::from_str("--target=").concat(target.name.as_str());
        arguments.push(LinkArgument::Flag(target_flag));
        arguments.push(flag("-fuse-ld=lld"));
        arguments.push(flag("-nodefaultlibs"));
        arguments.push(flag("-nostdlib"));
    }
    arguments.push(flag("-v"));
    let program = if cross {
        String::from_str("clang-10")
    } else {
        String::from_str("gcc")
    };
    let command = LinkCommand { program, arguments };
    assert(command.arguments_view() =~= linker_arguments(
        target.operating_system,
        target.name@,
        cross,
    ));
    command
}

/// The error for a linker that failed after writing `stderr` and `stdout`.
pub fn link_failure(stderr: &str, stdout: &str) -> (error: CompileError)
    ensures
        error.message() == link_failure_message(stderr@, stdout@),
{
    let message = String::from_str("Shared object file generator failed with:\nstderr:").concat(
        stderr,
    ).concat("\nstdout:").concat(stdout);
    CompileError::Codegen(message)
}

/// What is made of a linker that has run: nothing if it succeeded, and
/// else the error with its two outputs, read as text and without the white
/// space at their ends.
pub fn link_outcome(success: bool, stdout: &[u8], stderr: &[u8]) -> (result: Result<
    (),
    CompileError,
>)
    ensures
        result is Ok <==> success,
        result matches Err(error) ==> error.message() == link_failure_message(
            trimmed_end(lossy_text(stderr@)),
            trimmed_end(lossy_text(stdout@)),
        ),
{
    if success {
        Ok(())
    } else {
        let stderr = text_of(stderr);
        let stdout = text_of(stdout);
        Err(link_failure(trim_end(stderr.as_str()), trim_end(stdout.as_str())))
    }
}

} // verus!
