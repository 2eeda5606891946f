use tf::cli::{command, error_line, run, Args, Command, Outcome};
use tf::failure::Failure;
use tf::filetype::FileTypes;

fn plain() {
    colored::control::set_override(false);
}

fn args(name: Option<&str>, supported_filetypes: bool) -> Args {
    Args { name: name.map(String::from), supported_filetypes }
}

#[test]
fn demo_c_ends_in_a_c_file_and_exit_code_zero() {
    let outcome = run(&args(Some("demo.c"), false), Some("ada"));
    assert_eq!(outcome.exit_code(), 0);
    match outcome {
        Outcome::NewFile(file) => {
            assert_eq!(file.path, "demo.c");
            assert_eq!(file.mode(), None);
            assert!(file.content.starts_with(
                "////////////////////////////////////////////////////////////////////////\n// Author  : ada\n// File    : demo.c\n// Date    : "
            ));
            assert!(file.content.contains("\n// Purpose : TODO\n"));
            assert!(file.content.ends_with(
                "\n\n#include <stdio.h>\n\nint main(int argc, char *argv[]) {\n  printf(\"Hello, World!\\n\");\n  return 0;\n}\n\n"
            ));
        }
        other => panic!("{:?}", other),
    }
}

#[test]
fn demo_bash_ends_in_an_executable_script() {
    match run(&args(Some("demo.bash"), false), Some("ada")) {
        Outcome::NewFile(file) => {
            assert_eq!(file.path, "demo.bash");
            assert!(file.executable);
            assert_eq!(file.mode(), Some(0o744));
            assert_eq!(file.content.lines().next(), Some("#!/bin/bash"));
        }
        other => panic!("{:?}", other),
    }
}

#[test]
fn demo_xyz_ends_in_no_file_and_exit_code_one() {
    plain();
    let outcome = run(&args(Some("demo.xyz"), false), Some("ada"));
    assert_eq!(outcome.exit_code(), 1);
    match outcome {
        Outcome::Rejected(failure) => {
            assert!(matches!(&failure, Failure::UnsupportedFiletype(extension) if extension == "xyz"));
            assert_eq!(failure.exit_code(), 1);
            let line = error_line(&failure);
            assert!(line.starts_with("ERROR"));
            assert!(line.contains(".xyz"));
            assert_eq!(
                line,
                "ERROR: Filetype '.xyz' is not supported. Run 'tf --list-filetypes' for available filetypes."
            );
        }
        other => panic!("{:?}", other),
    }
}

#[test]
fn the_list_flag_ends_in_the_list_and_exit_code_zero() {
    let outcome = run(&args(None, true), Some("ada"));
    assert_eq!(outcome.exit_code(), 0);
    match outcome {
        Outcome::Listing(lines) => {
            assert_eq!(lines.len(), 11);
            assert!(lines[0].contains("Software Filetypes:"));
            assert!(lines[8].contains("HDL Filetypes:"));
        }
        other => panic!("{:?}", other),
    }
}

#[test]
fn the_list_flag_wins_over_any_name() {
    for name in ["demo.c", "demo.xyz", "", "foo", "a.b.c", "."] {
        let outcome = run(&args(Some(name), true), Some("ada"));
        assert_eq!(outcome.exit_code(), 0);
        assert!(matches!(outcome, Outcome::Listing(_)));
        assert!(matches!(command(&args(Some(name), true)), Ok(Command::ShowFiletypes)));
    }
    assert!(matches!(command(&args(None, true)), Ok(Command::ShowFiletypes)));
}

#[test]
fn without_the_list_flag_a_name_is_required() {
    assert!(matches!(command(&args(None, false)), Err(Failure::MissingArgument)));
    let outcome = run(&args(None, false), Some("ada"));
    assert_eq!(outcome.exit_code(), 1);
    assert!(matches!(outcome, Outcome::Rejected(Failure::MissingArgument)));
}

#[test]
fn an_invalid_name_is_rejected() {
    assert!(matches!(
        run(&args(Some(""), false), Some("ada")),
        Outcome::Rejected(Failure::MissingFilename)
    ));
    assert!(matches!(
        run(&args(Some("foo"), false), Some("ada")),
        Outcome::Rejected(Failure::MissingExtension)
    ));
}

#[test]
fn a_valid_name_is_a_command_to_generate_its_file() {
    match command(&args(Some("x.y.svh"), false)) {
        Ok(Command::Generate(request)) => {
            assert_eq!(request.base(), "x.y");
            assert_eq!(request.kind(), FileTypes::SystemVerilogPackage);
        }
        other => panic!("{:?}", other),
    }
}

#[test]
fn error_lines_are_exact() {
    plain();
    assert_eq!(
        error_line(&Failure::MissingArgument),
        "ERROR: Program requires argument. See help with 'tf --help'"
    );
    assert_eq!(
        error_line(&Failure::MissingFilename),
        "ERROR with input: Input filename is expected."
    );
    assert_eq!(
        error_line(&Failure::MissingExtension),
        "ERROR with input: Filename with file extension is expected."
    );
    assert_eq!(
        error_line(&Failure::Io(String::from("Is a directory (os error 21)"))),
        "ERROR creating file: Is a directory (os error 21)"
    );
    assert_eq!(error_line(&Failure::MissingAuthor), "ERROR: $LOGNAME isn't defined?");
}

#[test]
fn the_author_goes_into_the_banner_as_given() {
    match run(&args(Some("a.py"), false), Some("Grace Hopper")) {
        Outcome::NewFile(file) => assert!(file.content.contains("\nAuthor  : Grace Hopper\n")),
        other => panic!("{:?}", other),
    }
}

#[test]
fn without_an_author_nothing_is_done() {
    for (name, list) in [(Some("demo.c"), false), (Some("demo.xyz"), false), (None, true), (None, false)] {
        let outcome = run(&args(name, list), None);
        assert_eq!(outcome.exit_code(), 1);
        assert!(matches!(outcome, Outcome::Rejected(Failure::MissingAuthor)));
    }
}
