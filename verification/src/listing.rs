//! The list of supported file types, as the terminal shows it.

use vstd::prelude::*;
use crate::filetype::FileTypes;
use crate::paint::{filetype_extension, filetype_name, heading, holds_escape, shows};

verus! {

/// The software file types, in the order in which they are listed.
pub open spec fn listed_software() -> Seq<FileTypes> {
    seq![
        FileTypes::C,
        FileTypes::H,
        FileTypes::Python,
        FileTypes::CPP,
        FileTypes::HPP,
        FileTypes::Bash,
    ]
}

/// The hardware file types, in the order in which they are listed.
pub open spec fn listed_hardware() -> Seq<FileTypes> {
    seq![FileTypes::SystemVerilogModule, FileTypes::SystemVerilogPackage]
}

/// Every file type is listed, each once and under the heading it belongs
/// to.
pub proof fn lemma_every_filetype_is_listed(kind: FileTypes)
    ensures
        kind.hardware() ==> listed_hardware().contains(kind) && !listed_software().contains(kind),
        !kind.hardware() ==> listed_software().contains(kind) && !listed_hardware().contains(kind),
        listed_software().no_duplicates(),
        listed_hardware().no_duplicates(),
{
    let software = listed_software();
    let hardware = listed_hardware();
    assert(software[0] == FileTypes::C && software[1] == FileTypes::H && software[2]
        == FileTypes::Python && software[3] == FileTypes::CPP && software[4] == FileTypes::HPP
        && software[5] == FileTypes::Bash);
    assert(hardware[0] == FileTypes::SystemVerilogModule && hardware[1]
        == FileTypes::SystemVerilogPackage);
}

/// The column, counted from the start of a name, in which the rows under
/// one heading have their colon: one past the longest name.
pub open spec fn colon_column(kind: FileTypes) -> nat {
    if kind.hardware() {
        24
    } else {
        7
    }
}

/// The column in which the rows under the heading of `kind` have their
/// colon.
pub fn column_of(kind: FileTypes) -> (column: usize)
    ensures
        column == colon_column(kind),
{
    if kind.is_hardware() {
        24
    } else {
        7
    }
}

/// A run of `count` spaces.
pub open spec fn spaces(count: nat) -> Seq<char> {
    Seq::new(count, |i: int| ' ')
}

/// The row of the list for `kind`, given its name and its extension as the
/// terminal is to show them: the indented name, spaces up to the colon, and
/// the extension in quotes.
pub open spec fn row_text(kind: FileTypes, name: Seq<char>, extension: Seq<char>) -> Seq<char> {
    "  "@ + name + spaces((colon_column(kind) - kind.label_text().len()) as nat) + ": '"@
        + extension + "'"@
}

/// Whether `line` is the row of the list for `kind`: it shows the name of
/// the file type and its extension with the dot, decorated or not.
pub open spec fn is_row(line: Seq<char>, kind: FileTypes) -> bool {
    exists|name: Seq<char>, extension: Seq<char>|
        shows(name, kind.label_text()) && shows(extension, "."@ + kind.extension_text())
            && line == #[trigger] row_text(kind, name, extension)
}

/// Whether `lines` is the list of supported file types: a heading and the
/// software file types, an empty line, a heading and the hardware file
/// types.
pub open spec fn is_listing(lines: Seq<Seq<char>>) -> bool {
    let software = listed_software();
    let hardware = listed_hardware();
    let break_at = 1 + software.len() as int;
    &&& lines.len() == software.len() + hardware.len() + 3
    &&& shows(lines[0], "Software Filetypes:"@)
    &&& forall|i: int| 0 <= i < software.len() ==> is_row(#[trigger] lines[1 + i], software[i])
    &&& lines[break_at] == Seq::<char>::empty()
    &&& shows(lines[break_at + 1], "HDL Filetypes:"@)
    &&& forall|i: int|
        0 <= i < hardware.len() ==> is_row(#[trigger] lines[break_at + 2 + i], hardware[i])
}

/// What the solver needs to know of the names and extensions: how long a
/// name is, and that neither holds the escape character.
proof fn lemma_names_and_extensions(kind: FileTypes)
    ensures
        kind.label_text().len() < colon_column(kind),
        !holds_escape(kind.label_text()),
        !holds_escape("."@ + kind.extension_text()),
{
    reveal_strlit("C");
    reveal_strlit("H");
    reveal_strlit("Python");
    reveal_strlit("CPP");
    reveal_strlit("HPP");
    reveal_strlit("Bash");
    reveal_strlit("SystemVerilog (module)");
    reveal_strlit("SystemVerilog (package)");
    reveal_strlit(".");
    reveal_strlit("c");
    reveal_strlit("h");
    reveal_strlit("py");
    reveal_strlit("cpp");
    reveal_strlit("hpp");
    reveal_strlit("bash");
    reveal_strlit("sv");
    reveal_strlit("svh");
}

/// The row of the list for `kind`, given its name and its extension as the
/// terminal is to show them.
pub fn filetype_row(kind: FileTypes, name: &str, extension: &str) -> (line: String)
    ensures
        line@ == row_text(kind, name@, extension@),
{
    proof {
        lemma_names_and_extensions(kind);
    }
    let gap: usize = column_of(kind) - kind.label().unicode_len();
    let mut line = String::from_str("  ");
    line.append(name);
    let ghost indented = line@;
    let mut i: usize = 0;
    while i < gap
        invariant
            i <= gap,
            line@ == indented + spaces(i as nat),
        decreases gap - i,
    {
        line.append(" ");
        i += 1;
        proof {
            reveal_strlit(" ");
            assert(line@ =~= indented + spaces(i as nat));
        }
    }
    line.append(": '");
    line.append(extension);
    line.append("'");
    line
}

/// The row of the list for `kind`, decorated as the terminal allows.
fn painted_row(kind: FileTypes) -> (line: String)
    ensures
        is_row(line@, kind),
{
    proof {
        lemma_names_and_extensions(kind);
    }
    let mut dotted = String::from_str(".");
    dotted.append(kind.extension());
    let shown_name = filetype_name(kind.label());
    let shown_extension = filetype_extension(dotted.as_str());
    let line = filetype_row(kind, shown_name.as_str(), shown_extension.as_str());
    line
}

/// The lines that list the supported file types, for the terminal: the
/// software file types under one heading and the hardware file types under
/// another. Whether names and extensions are decorated is for the terminal
/// to say; what is listed, and in which order, is not.
pub fn show_supported_filetypes() -> (lines: Vec<String>)
    ensures
        is_listing(lines.deep_view()),
{
    proof {
        reveal_strlit("Software Filetypes:");
        reveal_strlit("HDL Filetypes:");
    }
    let mut lines: Vec<String> = Vec::new();
    lines.push(heading("Software Filetypes:"));
    lines.push(painted_row(FileTypes::C));
    lines.push(painted_row(FileTypes::H));
    lines.push(painted_row(FileTypes::Python));
    lines.push(painted_row(FileTypes::CPP));
    lines.push(painted_row(FileTypes::HPP));
    lines.push(painted_row(FileTypes::Bash));
    lines.push(String::new());
    lines.push(heading("HDL Filetypes:"));
    lines.push(painted_row(FileTypes::SystemVerilogModule));
    lines.push(painted_row(FileTypes::SystemVerilogPackage));
    lines
}

} // verus!
