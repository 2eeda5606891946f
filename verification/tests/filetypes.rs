use tf::failure::Failure;
use tf::filetype::{resolve_kind, FileTypes};

fn all() -> Vec<FileTypes> {
    vec![
        FileTypes::C,
        FileTypes::H,
        FileTypes::Python,
        FileTypes::CPP,
        FileTypes::HPP,
        FileTypes::Bash,
        FileTypes::SystemVerilogModule,
        FileTypes::SystemVerilogPackage,
    ]
}

fn unsupported(extension: &str) -> bool {
    match resolve_kind(extension) {
        Err(Failure::UnsupportedFiletype(named)) => named == extension,
        _ => false,
    }
}

#[test]
fn each_extension_resolves_to_its_file_type() {
    assert_eq!(resolve_kind("c").unwrap(), FileTypes::C);
    assert_eq!(resolve_kind("h").unwrap(), FileTypes::H);
    assert_eq!(resolve_kind("py").unwrap(), FileTypes::Python);
    assert_eq!(resolve_kind("cpp").unwrap(), FileTypes::CPP);
    assert_eq!(resolve_kind("hpp").unwrap(), FileTypes::HPP);
    assert_eq!(resolve_kind("bash").unwrap(), FileTypes::Bash);
    assert_eq!(resolve_kind("sv").unwrap(), FileTypes::SystemVerilogModule);
    assert_eq!(resolve_kind("svh").unwrap(), FileTypes::SystemVerilogPackage);
}

#[test]
fn the_extension_of_a_file_type_resolves_back_to_it() {
    for kind in all() {
        assert_eq!(resolve_kind(kind.extension()).unwrap(), kind);
    }
}

#[test]
fn no_two_file_types_share_an_extension_or_a_label() {
    let kinds = all();
    for (i, a) in kinds.iter().enumerate() {
        for b in kinds.iter().skip(i + 1) {
            assert_ne!(a.extension(), b.extension());
            assert_ne!(a.label(), b.label());
        }
    }
}

#[test]
fn the_extensions_are_the_eight_known() {
    let extensions: Vec<&str> = all().iter().map(|kind| kind.extension()).collect();
    assert_eq!(extensions, vec!["c", "h", "py", "cpp", "hpp", "bash", "sv", "svh"]);
}

#[test]
fn the_labels_are_the_eight_known() {
    let labels: Vec<&str> = all().iter().map(|kind| kind.label()).collect();
    assert_eq!(
        labels,
        vec![
            "C",
            "H",
            "Python",
            "CPP",
            "HPP",
            "Bash",
            "SystemVerilog (module)",
            "SystemVerilog (package)"
        ]
    );
}

#[test]
fn unknown_extensions_are_rejected_by_name() {
    assert!(unsupported("xyz"));
    assert!(unsupported("rs"));
    assert!(unsupported("txt"));
    assert!(unsupported("sh"));
}

#[test]
fn the_empty_extension_is_rejected() {
    assert!(unsupported(""));
}

#[test]
fn resolution_is_case_sensitive() {
    assert!(unsupported("C"));
    assert!(unsupported("Py"));
    assert!(unsupported("BASH"));
    assert!(unsupported("SVH"));
}

#[test]
fn resolution_is_an_exact_match() {
    assert!(unsupported("c "));
    assert!(unsupported(" c"));
    assert!(unsupported(".c"));
    assert!(unsupported("cp"));
    assert!(unsupported("cppp"));
    assert!(unsupported("svhh"));
    assert!(unsupported("ç"));
}

#[test]
fn only_the_shell_script_is_executable() {
    for kind in all() {
        assert_eq!(kind.is_executable(), kind == FileTypes::Bash);
    }
}

#[test]
fn only_the_systemverilog_file_types_describe_hardware() {
    for kind in all() {
        assert_eq!(
            kind.is_hardware(),
            kind == FileTypes::SystemVerilogModule || kind == FileTypes::SystemVerilogPackage
        );
    }
}
