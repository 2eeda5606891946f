//! One invocation from its arguments to what is left for the caller to do:
//! print a list, write a file, or report a failure.

use vstd::prelude::*;
use std::time::SystemTime;
use crate::clock::{date_text_at, is_date};
use crate::failure::{Failure, FailureModel};
use crate::filetype::FileTypes;
use crate::listing::{is_listing, show_supported_filetypes};
use crate::paint::{error_tag, shows};
use crate::plan::{created_file, create_file, planned_file, OutputFile, OutputModel};
use crate::request::{
    lemma_unsupported_extension_is_rejected, parsed_request, GenerationRequest, RequestModel,
};

verus! {

/// The arguments of an invocation.
#[derive(Debug, PartialEq, Eq)]
pub struct Args {
    /// The name of the file to generate, with its extension.
    pub name: Option<String>,
    /// Whether the list of supported file types was asked for.
    pub supported_filetypes: bool,
}

/// `Args` with the name as a sequence of characters.
pub struct ArgsModel {
    pub name: Option<Seq<char>>,
    pub supported_filetypes: bool,
}

impl View for Args {
    type V = ArgsModel;

    open spec fn view(&self) -> ArgsModel {
        ArgsModel {
            name: match self.name {
                Some(name) => Some(name@),
                None => None,
            },
            supported_filetypes: self.supported_filetypes,
        }
    }
}

/// What an invocation asks for.
#[derive(Debug, PartialEq, Eq)]
pub enum Command {
    /// Show the list of supported file types.
    ShowFiletypes,
    /// Generate the requested file.
    Generate(GenerationRequest),
}

/// A `Command` with its request as a model.
pub enum CommandModel {
    ShowFiletypes,
    Generate(RequestModel),
}

impl View for Command {
    type V = CommandModel;

    open spec fn view(&self) -> CommandModel {
        match self {
            Command::ShowFiletypes => CommandModel::ShowFiletypes,
            Command::Generate(request) => CommandModel::Generate(request@),
        }
    }
}

/// What the arguments ask for, or why they ask for nothing. Asking for the
/// list wins over everything else: the name, given or not, valid or not, is
/// then not looked at.
pub open spec fn command_of(args: ArgsModel) -> Result<CommandModel, FailureModel> {
    if args.supported_filetypes {
        Ok(CommandModel::ShowFiletypes)
    } else {
        match args.name {
            None => Err(FailureModel::MissingArgument),
            Some(name) => match parsed_request(name) {
                Ok(request) => Ok(CommandModel::Generate(request)),
                Err(failure) => Err(failure),
            },
        }
    }
}

/// Reads the arguments of an invocation.
pub fn command(args: &Args) -> (parsed: Result<Command, Failure>)
    ensures
        match command_of(args@) {
            Ok(model) => parsed matches Ok(command) && command@ == model,
            Err(failure) => parsed matches Err(found) && found@ == failure,
        },
{
    if args.supported_filetypes {
        return Ok(Command::ShowFiletypes);
    }
    match &args.name {
        None => Err(Failure::MissingArgument),
        Some(name) => match GenerationRequest::parse(name.as_str()) {
            Ok(request) => Ok(Command::Generate(request)),
            Err(failure) => Err(failure),
        },
    }
}

/// With the list asked for, the name plays no part: any two invocations
/// that ask for the list are the same command, and it is to show the list.
pub proof fn lemma_list_ignores_the_name(first: ArgsModel, second: ArgsModel)
    requires
        first.supported_filetypes,
        second.supported_filetypes,
    ensures
        command_of(first) == command_of(second),
        command_of(first) == Ok::<CommandModel, FailureModel>(CommandModel::ShowFiletypes),
{
}

/// A name that ends in a dot and an extension that selects no file type is
/// no command: nothing is generated for it.
pub proof fn lemma_unsupported_extension_is_no_command(head: Seq<char>, extension: Seq<char>)
    requires
        !extension.contains('.'),
        forall|kind: FileTypes| extension != #[trigger] kind.extension_text(),
    ensures
        command_of(
            ArgsModel { name: Some(head.push('.') + extension), supported_filetypes: false },
        ) == Err::<CommandModel, FailureModel>(FailureModel::UnsupportedFiletype(extension)),
{
    lemma_unsupported_extension_is_rejected(head, extension);
}

/// What is left to do when the library has done its part.
#[derive(Debug, PartialEq, Eq)]
pub enum Outcome {
    /// Print these lines; the invocation has then succeeded.
    Listing(Vec<String>),
    /// Write this file, and set its mode if it has one; the invocation has
    /// succeeded if both do.
    NewFile(OutputFile),
    /// Report this failure; nothing is to be written.
    Rejected(Failure),
}

impl Outcome {
    /// The exit code of the invocation, provided that a file to write is
    /// written without failure.
    pub fn exit_code(&self) -> (code: i32)
        ensures
            code == if self is Rejected {
                1i32
            } else {
                0i32
            },
    {
        match self {
            Outcome::Rejected(_) => 1,
            _ => 0,
        }
    }
}

/// Whether `outcome` ends a creation as `created` says: with the file to
/// write, text for text, or with the failure to report.
pub open spec fn ends_creation(
    outcome: Outcome,
    created: Result<OutputModel, FailureModel>,
) -> bool {
    match created {
        Ok(file) => outcome matches Outcome::NewFile(planned) && planned@ == file,
        Err(failure) => outcome matches Outcome::Rejected(found) && found@ == failure,
    }
}

/// Runs one invocation up to the point where something is to be printed or
/// written. `author` is the invoking user, as far as the environment names
/// one. Without an author the invocation fails at once, whatever the
/// arguments are; with one, the author goes into the banner of a new file,
/// and its date is that of one reading of the clock. A file that cannot be
/// dated is not planned.
pub fn run(args: &Args, author: Option<&str>) -> (outcome: Outcome)
    ensures
        match author {
            None => outcome matches Outcome::Rejected(found) && found@
                == FailureModel::MissingAuthor,
            Some(author) => match command_of(args@) {
                Ok(CommandModel::ShowFiletypes) => outcome matches Outcome::Listing(lines)
                    && is_listing(lines.deep_view()),
                Ok(CommandModel::Generate(request)) => {
                    &&& exists|at: SystemTime|
                        ends_creation(
                            outcome,
                            created_file(request, author@, #[trigger] date_text_at(at)),
                        )
                    &&& outcome matches Outcome::NewFile(file) ==> exists|date: Seq<char>|
                        is_date(date) && file@ == #[trigger] planned_file(request, author@, date)
                },
                Err(failure) => outcome matches Outcome::Rejected(found) && found@ == failure,
            },
        },
{
    let author = match author {
        None => {
            return Outcome::Rejected(Failure::MissingAuthor);
        },
        Some(author) => author,
    };
    match command(args) {
        Ok(Command::ShowFiletypes) => Outcome::Listing(show_supported_filetypes()),
        Ok(Command::Generate(request)) => match create_file(&request, author) {
            Ok(file) => Outcome::NewFile(file),
            Err(failure) => Outcome::Rejected(failure),
        },
        Err(failure) => Outcome::Rejected(failure),
    }
}

/// The line that reports `failure` on the error stream. It opens with the
/// tag `ERROR`, in red where the terminal allows.
pub fn error_line(failure: &Failure) -> (line: String)
    ensures
        exists|tag: Seq<char>| shows(tag, "ERROR"@) && line@ == #[trigger] failure@.report(tag),
{
    proof {
        reveal_strlit("ERROR");
    }
    let tag = error_tag("ERROR");
    let line = failure.report(tag.as_str());
    line
}

} // verus!
