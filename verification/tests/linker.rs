use wasmer_engine_native::error::CompileError;
use wasmer_engine_native::linker::{link_command, link_failure, link_outcome, LinkArgument};
use wasmer_engine_native::target::{
    Architecture, BinaryFormat, Endianness, OperatingSystem, Triple,
};

fn target(operating_system: OperatingSystem, name: &str) -> Triple {
    Triple {
        architecture: Architecture::X86_64,
        operating_system,
        binary_format: BinaryFormat::Elf,
        endianness: Some(Endianness::Little),
        name: name.to_string(),
    }
}

fn written(arguments: &[LinkArgument]) -> Vec<String> {
    let mut texts = Vec::new();
    for argument in arguments {
        texts.push(match argument {
            LinkArgument::Object => "<object>".to_string(),
            LinkArgument::Output => "<output>".to_string(),
            LinkArgument::Flag(text) => text.clone(),
        });
    }
    texts
}

fn message(error: CompileError) -> String {
    match error {
        CompileError::Codegen(message) => message,
    }
}

#[test]
fn native_link_on_linux_uses_gcc() {
    let command = link_command(&target(OperatingSystem::Linux, "x86_64-unknown-linux-gnu"), false);
    assert_eq!(command.program, "gcc");
    assert_eq!(
        written(&command.arguments),
        vec![
            "<object>",
            "-o",
            "<output>",
            "-nostartfiles",
            "-Wl,-undefined,dynamic_lookup",
            "-shared",
            "-v"
        ]
    );
}

#[test]
fn native_link_on_windows_looks_symbols_up_dynamically() {
    let command = link_command(&target(OperatingSystem::Windows, "x86_64-pc-windows-gnu"), false);
    assert_eq!(command.program, "gcc");
    assert_eq!(
        written(&command.arguments),
        vec!["<object>", "-o", "<output>", "-Wl,-undefined,dynamic_lookup", "-shared", "-v"]
    );
}

#[test]
fn cross_link_uses_clang_with_the_target() {
    let command = link_command(&target(OperatingSystem::Darwin, "x86_64-apple-darwin"), true);
    assert_eq!(command.program, "clang-10");
    assert_eq!(
        written(&command.arguments),
        vec![
            "<object>",
            "-o",
            "<output>",
            "-nostartfiles",
            "-Wl,-undefined,dynamic_lookup",
            "-shared",
            "--target=x86_64-apple-darwin",
            "-fuse-ld=lld",
            "-nodefaultlibs",
            "-nostdlib",
            "-v"
        ]
    );
}

#[test]
fn cross_link_for_windows_forces_unresolved_symbols() {
    let command = link_command(&target(OperatingSystem::Windows, "x86_64-pc-windows-msvc"), true);
    assert_eq!(command.program, "clang-10");
    assert_eq!(
        written(&command.arguments),
        vec![
            "<object>",
            "-o",
            "<output>",
            "-Wl,/force:unresolved",
            "-shared",
            "--target=x86_64-pc-windows-msvc",
            "-fuse-ld=lld",
            "-nodefaultlibs",
            "-nostdlib",
            "-v"
        ]
    );
}

#[test]
fn a_linker_that_succeeded_is_no_error() {
    assert!(link_outcome(true, b"anything", b"warnings\n").is_ok());
    assert!(link_outcome(true, b"", b"").is_ok());
}

#[test]
fn a_linker_that_failed_is_reported_with_its_trimmed_outputs() {
    let error = link_outcome(false, b"out line\n\n", b"ld: cannot find -lfoo \t\r\n").unwrap_err();
    assert_eq!(
        message(error),
        "Shared object file generator failed with:\nstderr:ld: cannot find -lfoo\nstdout:out line"
    );
}

#[test]
fn only_the_end_of_the_outputs_is_trimmed() {
    let error = link_outcome(false, b"  a  b  ", b"\n x \n").unwrap_err();
    assert_eq!(
        message(error),
        "Shared object file generator failed with:\nstderr:\n x\nstdout:  a  b"
    );
}

#[test]
fn outputs_that_are_not_utf8_are_read_with_replacement_characters() {
    let error = link_outcome(false, &[b'o', 0xff, b'k'], &[0xc3, 0x28]).unwrap_err();
    assert_eq!(
        message(error),
        "Shared object file generator failed with:\nstderr:\u{fffd}(\nstdout:o\u{fffd}k"
    );
}

#[test]
fn empty_outputs_leave_an_empty_report() {
    let error = link_outcome(false, b"", b"").unwrap_err();
    assert_eq!(message(error), "Shared object file generator failed with:\nstderr:\nstdout:");
}

#[test]
fn link_failure_puts_the_outputs_into_the_message() {
    assert_eq!(
        message(link_failure("E", "O")),
        "Shared object file generator failed with:\nstderr:E\nstdout:O"
    );
}
