//! The closed set of file types and the extension that selects each of them.

use vstd::prelude::*;
use crate::failure::{Failure, FailureModel};
use crate::text::same_text;

verus! {

/// One tag per supported extension.
#[derive(Clone, Copy, Debug, PartialEq, Eq, Structural)]
pub enum FileTypes {
    /// A C source file.
    C,
    /// A C header.
    H,
    /// A Python module.
    Python,
    /// A C++ source file.
    CPP,
    /// A C++ header.
    HPP,
    /// A shell script.
    Bash,
    /// A SystemVerilog file that declares a module.
    SystemVerilogModule,
    /// A SystemVerilog header that declares a package.
    SystemVerilogPackage,
}

impl FileTypes {
    /// The extension, without its dot, that selects this file type.
    pub open spec fn extension_text(self) -> Seq<char> {
        match self {
            FileTypes::C => "c"@,
            FileTypes::H => "h"@,
            FileTypes::Python => "py"@,
            FileTypes::CPP => "cpp"@,
            FileTypes::HPP => "hpp"@,
            FileTypes::Bash => "bash"@,
            FileTypes::SystemVerilogModule => "sv"@,
            FileTypes::SystemVerilogPackage => "svh"@,
        }
    }

    /// The extension, without its dot, that selects this file type.
    pub fn extension(self) -> (extension: &'static str)
        ensures
            extension@ == self.extension_text(),
    {
        match self {
            FileTypes::C => "c",
            FileTypes::H => "h",
            FileTypes::Python => "py",
            FileTypes::CPP => "cpp",
            FileTypes::HPP => "hpp",
            FileTypes::Bash => "bash",
            FileTypes::SystemVerilogModule => "sv",
            FileTypes::SystemVerilogPackage => "svh",
        }
    }

    /// The name under which the list of file types shows this one.
    pub open spec fn label_text(self) -> Seq<char> {
        match self {
            FileTypes::C => "C"@,
            FileTypes::H => "H"@,
            FileTypes::Python => "Python"@,
            FileTypes::CPP => "CPP"@,
            FileTypes::HPP => "HPP"@,
            FileTypes::Bash => "Bash"@,
            FileTypes::SystemVerilogModule => "SystemVerilog (module)"@,
            FileTypes::SystemVerilogPackage => "SystemVerilog (package)"@,
        }
    }

    /// The name under which the list of file types shows this one.
    pub fn label(self) -> (label: &'static str)
        ensures
            label@ == self.label_text(),
    {
        match self {
            FileTypes::C => "C",
            FileTypes::H => "H",
            FileTypes::Python => "Python",
            FileTypes::CPP => "CPP",
            FileTypes::HPP => "HPP",
            FileTypes::Bash => "Bash",
            FileTypes::SystemVerilogModule => "SystemVerilog (module)",
            FileTypes::SystemVerilogPackage => "SystemVerilog (package)",
        }
    }

    /// Whether a new file of this type must be marked executable: a shell
    /// script must, nothing else.
    pub open spec fn executable(self) -> bool {
        self == FileTypes::Bash
    }

    /// Whether a new file of this type must be marked executable.
    pub fn is_executable(self) -> (executable: bool)
        ensures
            executable == self.executable(),
    {
        match self {
            FileTypes::Bash => true,
            _ => false,
        }
    }

    /// Whether this file type describes hardware rather than software.
    pub open spec fn hardware(self) -> bool {
        self == FileTypes::SystemVerilogModule || self == FileTypes::SystemVerilogPackage
    }

    /// Whether this file type describes hardware rather than software.
    pub fn is_hardware(self) -> (hardware: bool)
        ensures
            hardware == self.hardware(),
    {
        match self {
            FileTypes::SystemVerilogModule => true,
            FileTypes::SystemVerilogPackage => true,
            _ => false,
        }
    }
}

/// The file type that `extension` selects, if any. The match is exact and
/// case-sensitive, on the extension without its dot.
pub open spec fn filetype_of(extension: Seq<char>) -> Option<FileTypes> {
    if extension == "c"@ {
        Some(FileTypes::C)
    } else if extension == "h"@ {
        Some(FileTypes::H)
    } else if extension == "py"@ {
        Some(FileTypes::Python)
    } else if extension == "cpp"@ {
        Some(FileTypes::CPP)
    } else if extension == "hpp"@ {
        Some(FileTypes::HPP)
    } else if extension == "bash"@ {
        Some(FileTypes::Bash)
    } else if extension == "sv"@ {
        Some(FileTypes::SystemVerilogModule)
    } else if extension == "svh"@ {
        Some(FileTypes::SystemVerilogPackage)
    } else {
        None
    }
}

/// Resolves an extension, given without its dot, to its file type. An
/// extension that selects none is rejected, and the failure names it.
pub fn resolve_kind(extension: &str) -> (resolved: Result<FileTypes, Failure>)
    ensures
        match filetype_of(extension@) {
            Some(kind) => resolved == Ok::<FileTypes, Failure>(kind),
            None => resolved matches Err(failure) && failure@ == FailureModel::UnsupportedFiletype(
                extension@,
            ),
        },
{
    if same_text(extension, "c") {
        Ok(FileTypes::C)
    } else if same_text(extension, "h") {
        Ok(FileTypes::H)
    } else if same_text(extension, "py") {
        Ok(FileTypes::Python)
    } else if same_text(extension, "cpp") {
        Ok(FileTypes::CPP)
    } else if same_text(extension, "hpp") {
        Ok(FileTypes::HPP)
    } else if same_text(extension, "bash") {
        Ok(FileTypes::Bash)
    } else if same_text(extension, "sv") {
        Ok(FileTypes::SystemVerilogModule)
    } else if same_text(extension, "svh") {
        Ok(FileTypes::SystemVerilogPackage)
    } else {
        Err(Failure::UnsupportedFiletype(String::from_str(extension)))
    }
}

/// Makes the characters of the eight extensions known to the solver.
proof fn reveal_extensions()
    ensures
        "c"@ == seq!['c'],
        "h"@ == seq!['h'],
        "py"@ == seq!['p', 'y'],
        "cpp"@ == seq!['c', 'p', 'p'],
        "hpp"@ == seq!['h', 'p', 'p'],
        "bash"@ == seq!['b', 'a', 's', 'h'],
        "sv"@ == seq!['s', 'v'],
        "svh"@ == seq!['s', 'v', 'h'],
{
    reveal_strlit("c");
    reveal_strlit("h");
    reveal_strlit("py");
    reveal_strlit("cpp");
    reveal_strlit("hpp");
    reveal_strlit("bash");
    reveal_strlit("sv");
    reveal_strlit("svh");
}

/// The extension of a file type resolves to that file type: no two file
/// types share an extension.
pub proof fn lemma_extension_selects_its_filetype(kind: FileTypes)
    ensures
        filetype_of(kind.extension_text()) == Some(kind),
{
    reveal_extensions();
    // Extensions of one length differ in their first character.
    let e = kind.extension_text();
    assert(e.len() == 1 ==> e[0] == 'c' || e[0] == 'h');
    assert(e.len() == 2 ==> e[0] == 'p' || e[0] == 's');
    assert(e.len() == 3 ==> e[0] == 'c' || e[0] == 'h' || e[0] == 's');
}

/// An extension resolves to a file type only if it is that file type's own
/// extension, and to none only if it is the extension of no file type.
pub proof fn lemma_filetype_of_is_exact(extension: Seq<char>)
    ensures
        forall|kind: FileTypes|
            filetype_of(extension) == Some(kind) <==> extension == #[trigger] kind.extension_text(),
        filetype_of(extension) is None <==> forall|kind: FileTypes|
            extension != #[trigger] kind.extension_text(),
{
    assert forall|kind: FileTypes|
        filetype_of(extension) == Some(kind) <==> extension
            == #[trigger] kind.extension_text() by {
        lemma_extension_selects_its_filetype(kind);
    }
    if filetype_of(extension) is Some {
        let kind = filetype_of(extension).unwrap();
        assert(extension == kind.extension_text());
    }
}

/// No extension holds a dot.
pub proof fn lemma_extension_holds_no_dot(kind: FileTypes)
    ensures
        !kind.extension_text().contains('.'),
{
    reveal_extensions();
}

} // verus!
