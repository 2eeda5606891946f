//! The file that a request asks for: where it goes, what it holds, and
//! whether it is to be marked executable.

use vstd::prelude::*;
use std::time::SystemTime;
use crate::clock::{date_at, date_text_at, is_date};
use crate::failure::{Failure, FailureModel};
use crate::filetype::lemma_extension_holds_no_dot;
use crate::request::{GenerationRequest, RequestModel};
use crate::template::{header_guard, render, rendered_text, stem, Info, InfoModel};
use crate::text::{lemma_last_of_joined, uppercased};

verus! {

/// The mode of a file that is marked executable: all rights for the owner,
/// reading for everyone else.
pub const EXECUTABLE_MODE: u32 = 0o744;

/// A file that is ready to be written.
#[derive(Debug, PartialEq, Eq)]
pub struct OutputFile {
    /// Where to write the file.
    pub path: String,
    /// What to write.
    pub content: String,
    /// Whether to mark the file executable once it is written.
    pub executable: bool,
}

/// An `OutputFile` with its texts as sequences of characters.
pub struct OutputModel {
    pub path: Seq<char>,
    pub content: Seq<char>,
    pub executable: bool,
}

impl View for OutputFile {
    type V = OutputModel;

    open spec fn view(&self) -> OutputModel {
        OutputModel { path: self.path@, content: self.content@, executable: self.executable }
    }
}

impl OutputFile {
    /// The mode to set on the file once it is written, if any.
    pub fn mode(&self) -> (mode: Option<u32>)
        ensures
            mode == if self.executable {
                Some(EXECUTABLE_MODE)
            } else {
                None
            },
    {
        if self.executable {
            Some(EXECUTABLE_MODE)
        } else {
            None
        }
    }
}

/// What the banner of the requested file says.
pub open spec fn banner_info(
    request: RequestModel,
    author: Seq<char>,
    date: Seq<char>,
) -> InfoModel {
    InfoModel { date, author, file: request.filename() }
}

/// The file that `request` asks for, created by `author` on `date`. It is
/// written under the name that its banner shows.
pub open spec fn planned_file(
    request: RequestModel,
    author: Seq<char>,
    date: Seq<char>,
) -> OutputModel {
    OutputModel {
        path: request.filename(),
        content: rendered_text(request.kind, banner_info(request, author, date)),
        executable: request.kind.executable(),
    }
}

/// Plans the file that `request` asks for, created by `author` on `date`.
pub fn plan_file(request: &GenerationRequest, author: &str, date: &str) -> (file: OutputFile)
    ensures
        file@ == planned_file(request@, author@, date@),
{
    let info = Info {
        date: String::from_str(date),
        author: String::from_str(author),
        file: request.filename(),
    };
    let content = render(request.kind(), &info);
    OutputFile { path: info.file, content, executable: request.kind().is_executable() }
}

/// The file that `request` asks for, created by `author` at a time with
/// the date `date`: the planned file, or a failure of the clock where the
/// time has no date.
pub open spec fn created_file(
    request: RequestModel,
    author: Seq<char>,
    date: Option<Seq<char>>,
) -> Result<OutputModel, FailureModel> {
    match date {
        Some(date) => Ok(planned_file(request, author, date)),
        None => Err(FailureModel::Clock),
    }
}

/// Whether `created` is what `expected` says: the file, text for text, or
/// the failure.
pub open spec fn is_created(
    created: Result<OutputFile, Failure>,
    expected: Result<OutputModel, FailureModel>,
) -> bool {
    match expected {
        Ok(file) => created matches Ok(planned) && planned@ == file,
        Err(failure) => created matches Err(found) && found@ == failure,
    }
}

/// Plans the file that `request` asks for, created by `author` at the time
/// `at`. The file is dated by `at`; where `at` has no date, there is no
/// file.
pub fn create_file_at(
    request: &GenerationRequest,
    author: &str,
    at: SystemTime,
) -> (created: Result<OutputFile, Failure>)
    ensures
        is_created(created, created_file(request@, author@, date_text_at(at))),
        created matches Ok(file) ==> exists|date: Seq<char>|
            is_date(date) && file@ == #[trigger] planned_file(request@, author@, date),
{
    match date_at(at) {
        Some(date) => Ok(plan_file(request, author, date.as_str())),
        None => Err(Failure::Clock),
    }
}

/// Plans the file that `request` asks for, created by `author` now. The
/// clock is read once, and the file is as `create_file_at` has it for that
/// reading.
pub fn create_file(request: &GenerationRequest, author: &str) -> (created: Result<
    OutputFile,
    Failure,
>)
    ensures
        exists|at: SystemTime|
            is_created(
                created,
                created_file(request@, author@, #[trigger] date_text_at(at)),
            ),
        created matches Ok(file) ==> exists|date: Seq<char>|
            is_date(date) && file@ == #[trigger] planned_file(request@, author@, date),
{
    create_file_at(request, author, SystemTime::now())
}

/// The base of the requested file's name is the base of the request, dots
/// included: a module or package is named after it.
pub proof fn lemma_stem_of_filename(request: RequestModel)
    ensures
        stem(request.filename()) == request.base,
{
    reveal_strlit(".");
    let extension = request.kind.extension_text();
    assert(request.filename() =~= request.base.push('.') + extension);
    lemma_extension_holds_no_dot(request.kind);
    lemma_last_of_joined(request.base, extension, '.');
}

/// The include guard of a requested header is its base and its extension,
/// joined by an underscore, in upper case.
pub proof fn lemma_guard_of_filename(request: RequestModel)
    ensures
        header_guard(request.filename()) == uppercased(
            request.base + "_"@ + request.kind.extension_text(),
        ),
{
    reveal_strlit(".");
    let extension = request.kind.extension_text();
    let name = request.base.push('.') + extension;
    assert(request.filename() =~= name);
    assert(name[request.base.len() as int] == '.');
    lemma_extension_holds_no_dot(request.kind);
    lemma_last_of_joined(request.base, extension, '.');
}

} // verus!
