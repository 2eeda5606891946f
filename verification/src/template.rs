//! The text of a new file: a banner that names author, file and date,
//! followed by the skeleton that belongs to the file type.

use vstd::prelude::*;
use vstd::utf8::encode_utf8;
use crate::filetype::FileTypes;
use crate::text::{cut_at_last, text_after_last, text_before_last, uppercased};

verus! {

/// What a banner says about the file it opens. The three texts are written
/// into the banner as they are.
#[derive(Debug, PartialEq, Eq)]
pub struct Info {
    /// The day the file is created, as `MM/DD/YYYY`.
    pub date: String,
    /// Who creates the file.
    pub author: String,
    /// The name of the file, with its extension.
    pub file: String,
}

/// An `Info` with its texts as sequences of characters.
pub struct InfoModel {
    pub date: Seq<char>,
    pub author: Seq<char>,
    pub file: Seq<char>,
}

impl View for Info {
    type V = InfoModel;

    open spec fn view(&self) -> InfoModel {
        InfoModel { date: self.date@, author: self.author@, file: self.file@ }
    }
}

/// The four fields of a banner, one per line and in fixed order, each line
/// opened by `margin`. The purpose is left for the author to fill in.
pub open spec fn banner_fields(margin: Seq<char>, info: InfoModel) -> Seq<char> {
    margin + "Author  : "@ + info.author + "\n"@
        + margin + "File    : "@ + info.file + "\n"@
        + margin + "Date    : "@ + info.date + "\n"@
        + margin + "Purpose : TODO\n"@
}

/// The banner of the languages that comment with `//`: the fields between
/// two rules.
pub open spec fn slash_banner(info: InfoModel) -> Seq<char> {
    "////////////////////////////////////////////////////////////////////////\n"@
        + banner_fields("// "@, info)
        + "////////////////////////////////////////////////////////////////////////\n"@
}

/// A C source file: the banner and a program that greets the world.
pub open spec fn c_file_text(info: InfoModel) -> Seq<char> {
    slash_banner(info)
        + "\n#include <stdio.h>\n\nint main(int argc, char *argv[]) {\n  printf(\"Hello, World!\\n\");\n  return 0;\n}\n\n"@
}

/// A C header: the banner and, inside an include guard on `guard`, the
/// sections for structs and functions.
pub open spec fn h_file_text(info: InfoModel, guard: Seq<char>) -> Seq<char> {
    slash_banner(info)
        + "\n#ifndef "@ + guard + "\n#define "@ + guard
        + "\n\n// STRUCTS\n\n// FUNCTIONS\n\n////////////////////////////////////////////////////////////////////////\n#endif\n"@
}

/// A Python module: the banner as a docstring, a `main` and the guard that
/// calls it.
pub open spec fn py_file_text(info: InfoModel) -> Seq<char> {
    "\"\"\"\n"@ + banner_fields(""@, info)
        + "\"\"\"\n\n\ndef main() -> int:\n    return 0\n\n\nif __name__ == \"__main__\":\n    main()"@
}

/// A C++ source file: the banner and a program that greets the world.
pub open spec fn cpp_file_text(info: InfoModel) -> Seq<char> {
    slash_banner(info)
        + "\n#include <iostream>\n\nint main(int argc, char *argv[]) {\n  std::cout << \"Hello, World!\" << std::endl;\n  return 0;\n}\n\n"@
}

/// A C++ header: the banner, `#pragma once` and the sections for structs
/// and functions.
pub open spec fn hpp_file_text(info: InfoModel) -> Seq<char> {
    slash_banner(info)
        + "\n#pragma once\n\n// STRUCTS\n\n// FUNCTIONS\n\n////////////////////////////////////////////////////////////////////////\n"@
}

/// A shell script: the shebang, the banner between two rules of `#`, strict
/// settings and a greeting.
pub open spec fn bash_file_text(info: InfoModel) -> Seq<char> {
    "#!/bin/bash\n########################################################################\n"@
        + banner_fields("# "@, info)
        + "########################################################################\nset -e # exit immediately on error\nset -u # treat unbound variables as errors\nset -x # enable tracing\n\necho \"Hello, World!\"\n"@
}

/// A SystemVerilog module named `module`: the banner and an empty module
/// with clock and reset inputs.
pub open spec fn sv_file_text(info: InfoModel, module: Seq<char>) -> Seq<char> {
    slash_banner(info)
        + "\n`default_nettype none\n\nmodule "@ + module
        + " (\n  input logic clk,\n  input logic rst\n  );\n\n  // TODO - Implementation\n\nendmodule\n\n`default_nettype wire\n\n"@
}

/// A SystemVerilog package named `package`: the banner and, inside a macro
/// guard on `guard`, an empty package.
pub open spec fn svh_file_text(info: InfoModel, package: Seq<char>, guard: Seq<char>) -> Seq<
    char,
> {
    slash_banner(info)
        + "\n`ifndef "@ + guard + "\n`define "@ + guard + "\n\npackage "@ + package
        + ";\n\n  // TODO - Implementation\n\nendpackage: "@ + package + "\n\n`endif\n\n"@
}

/// The base of a file name: what it says before its last dot, which opens
/// the extension, or all of it where it holds no dot. A module or package is
/// named by the base of its file.
pub open spec fn stem(file: Seq<char>) -> Seq<char> {
    text_before_last(file, '.')
}

/// The name that a header is guarded by, before it is put in upper case:
/// the base and the extension of the file name, joined by an underscore.
/// Nothing else is rewritten: a base with characters that no identifier may
/// hold, dots among them, gives a guard that holds them too.
pub open spec fn guard_name(file: Seq<char>) -> Seq<char> {
    if file.contains('.') {
        stem(file) + "_"@ + text_after_last(file, '.')
    } else {
        file
    }
}

/// The include guard of a header: its guard name in upper case.
pub open spec fn header_guard(file: Seq<char>) -> Seq<char> {
    uppercased(guard_name(file))
}

/// The text of a new file of type `kind`.
pub open spec fn rendered_text(kind: FileTypes, info: InfoModel) -> Seq<char> {
    match kind {
        FileTypes::C => c_file_text(info),
        FileTypes::H => h_file_text(info, header_guard(info.file)),
        FileTypes::Python => py_file_text(info),
        FileTypes::CPP => cpp_file_text(info),
        FileTypes::HPP => hpp_file_text(info),
        FileTypes::Bash => bash_file_text(info),
        FileTypes::SystemVerilogModule => sv_file_text(info, stem(info.file)),
        FileTypes::SystemVerilogPackage => svh_file_text(
            info,
            stem(info.file),
            uppercased(stem(info.file)),
        ),
    }
}

/// Appends the four banner fields to `text`, each line opened by `margin`.
fn append_banner_fields(text: &mut String, margin: &str, info: &Info)
    ensures
        final(text)@ == old(text)@ + banner_fields(margin@, info@),
{
    text.append(margin);
    text.append("Author  : ");
    text.append(info.author.as_str());
    text.append("\n");
    text.append(margin);
    text.append("File    : ");
    text.append(info.file.as_str());
    text.append("\n");
    text.append(margin);
    text.append("Date    : ");
    text.append(info.date.as_str());
    text.append("\n");
    text.append(margin);
    text.append("Purpose : TODO\n");
}

/// A new string that holds the `//` banner for `info`.
fn new_slash_banner(info: &Info) -> (text: String)
    ensures
        text@ == slash_banner(info@),
{
    let mut text = String::from_str(
        "////////////////////////////////////////////////////////////////////////\n",
    );
    append_banner_fields(&mut text, "// ", info);
    text.append("////////////////////////////////////////////////////////////////////////\n");
    text
}

/// The text of a new C source file.
pub fn create_c_file(info: &Info) -> (text: String)
    ensures
        text@ == c_file_text(info@),
{
    let mut text = new_slash_banner(info);
    text.append(
        "\n#include <stdio.h>\n\nint main(int argc, char *argv[]) {\n  printf(\"Hello, World!\\n\");\n  return 0;\n}\n\n",
    );
    text
}

/// The text of a new C header whose include guard is on `guard`.
pub fn h_file_with_guard(info: &Info, guard: &str) -> (text: String)
    ensures
        text@ == h_file_text(info@, guard@),
{
    let mut text = new_slash_banner(info);
    text.append("\n#ifndef ");
    text.append(guard);
    text.append("\n#define ");
    text.append(guard);
    text.append(
        "\n\n// STRUCTS\n\n// FUNCTIONS\n\n////////////////////////////////////////////////////////////////////////\n#endif\n",
    );
    text
}

/// The text of a new C header. Its include guard is derived from the file
/// name: `foo.h` is guarded by `FOO_H`.
pub fn create_h_file(info: &Info) -> (text: String)
    ensures
        text@ == h_file_text(info@, header_guard(info@.file)),
{
    let guard = match cut_at_last(info.file.as_str(), '.') {
        Some((base, extension)) => {
            let mut name = String::from_str(base);
            name.append("_");
            name.append(extension);
            name.as_str().to_uppercase()
        },
        None => info.file.as_str().to_uppercase(),
    };
    h_file_with_guard(info, guard.as_str())
}

/// The text of a new Python module.
pub fn create_py_file(info: &Info) -> (text: String)
    ensures
        text@ == py_file_text(info@),
{
    let mut text = String::from_str("\"\"\"\n");
    append_banner_fields(&mut text, "", info);
    text.append(
        "\"\"\"\n\n\ndef main() -> int:\n    return 0\n\n\nif __name__ == \"__main__\":\n    main()",
    );
    text
}

/// The text of a new C++ source file.
pub fn create_cpp_file(info: &Info) -> (text: String)
    ensures
        text@ == cpp_file_text(info@),
{
    let mut text = new_slash_banner(info);
    text.append(
        "\n#include <iostream>\n\nint main(int argc, char *argv[]) {\n  std::cout << \"Hello, World!\" << std::endl;\n  return 0;\n}\n\n",
    );
    text
}

/// The text of a new C++ header.
pub fn create_hpp_file(info: &Info) -> (text: String)
    ensures
        text@ == hpp_file_text(info@),
{
    let mut text = new_slash_banner(info);
    text.append(
        "\n#pragma once\n\n// STRUCTS\n\n// FUNCTIONS\n\n////////////////////////////////////////////////////////////////////////\n",
    );
    text
}

/// The text of a new shell script.
pub fn create_bash_file(info: &Info) -> (text: String)
    ensures
        text@ == bash_file_text(info@),
{
    let mut text = String::from_str(
        "#!/bin/bash\n########################################################################\n",
    );
    append_banner_fields(&mut text, "# ", info);
    text.append(
        "########################################################################\nset -e # exit immediately on error\nset -u # treat unbound variables as errors\nset -x # enable tracing\n\necho \"Hello, World!\"\n",
    );
    text
}

/// The base of the file name `file`.
fn stem_of<'a>(file: &'a str) -> (name: &'a str)
    ensures
        name@ == stem(file@),
{
    match cut_at_last(file, '.') {
        Some((base, _)) => base,
        None => file,
    }
}

/// The text of a new SystemVerilog module. The module is named by the base
/// of the file name, as it is written there.
pub fn create_sv_file(info: &Info) -> (text: String)
    ensures
        text@ == sv_file_text(info@, stem(info@.file)),
{
    let module = stem_of(info.file.as_str());
    let mut text = new_slash_banner(info);
    text.append("\n`default_nettype none\n\nmodule ");
    text.append(module);
    text.append(
        " (\n  input logic clk,\n  input logic rst\n  );\n\n  // TODO - Implementation\n\nendmodule\n\n`default_nettype wire\n\n",
    );
    text
}

/// The text of a new SystemVerilog package named `package` whose macro
/// guard is on `guard`.
pub fn svh_file_with_guard(info: &Info, package: &str, guard: &str) -> (text: String)
    ensures
        text@ == svh_file_text(info@, package@, guard@),
{
    let mut text = new_slash_banner(info);
    text.append("\n`ifndef ");
    text.append(guard);
    text.append("\n`define ");
    text.append(guard);
    text.append("\n\npackage ");
    text.append(package);
    text.append(";\n\n  // TODO - Implementation\n\nendpackage: ");
    text.append(package);
    text.append("\n\n`endif\n\n");
    text
}

/// The text of a new SystemVerilog package. The package is named by the
/// base of the file name, and guarded by that name in upper case.
pub fn create_svh_file(info: &Info) -> (text: String)
    ensures
        text@ == svh_file_text(info@, stem(info@.file), uppercased(stem(info@.file))),
{
    let package = stem_of(info.file.as_str());
    let guard = package.to_uppercase();
    svh_file_with_guard(info, package, guard.as_str())
}

/// The text of a new file of type `kind`, with the banner filled in from
/// `info`.
pub fn render(kind: FileTypes, info: &Info) -> (text: String)
    ensures
        text@ == rendered_text(kind, info@),
{
    match kind {
        FileTypes::C => create_c_file(info),
        FileTypes::H => create_h_file(info),
        FileTypes::Python => create_py_file(info),
        FileTypes::CPP => create_cpp_file(info),
        FileTypes::HPP => create_hpp_file(info),
        FileTypes::Bash => create_bash_file(info),
        FileTypes::SystemVerilogModule => create_sv_file(info),
        FileTypes::SystemVerilogPackage => create_svh_file(info),
    }
}

/// Rendering is a function of the file type and of what the banner says:
/// two texts rendered for the same file type from the same author, file and
/// date are the same, character for character and byte for byte.
pub proof fn lemma_render_is_deterministic(
    kind: FileTypes,
    first_info: Info,
    second_info: Info,
    first: String,
    second: String,
)
    requires
        first_info@ == second_info@,
        first@ == rendered_text(kind, first_info@),
        second@ == rendered_text(kind, second_info@),
    ensures
        first@ == second@,
        encode_utf8(first@) == encode_utf8(second@),
{
}

} // verus!
