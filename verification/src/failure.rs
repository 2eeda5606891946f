//! Why an invocation ends without a new file, and the line that says so.

use vstd::prelude::*;

verus! {

/// Every way in which an invocation can fail. None is recovered from: each
/// ends the invocation with one line on the error stream and exit code 1.
#[derive(Debug, PartialEq, Eq)]
pub enum Failure {
    /// The environment does not say who the invoking user is, so no banner
    /// can name its author.
    MissingAuthor,
    /// No file name was given, and the list of file types was not asked for.
    MissingArgument,
    /// The file name is empty.
    MissingFilename,
    /// The file name holds no dot, so it has no extension.
    MissingExtension,
    /// The extension, held here without its dot, selects no file type.
    UnsupportedFiletype(String),
    /// Writing the file or setting its mode failed; the text is the
    /// operating system's account of it.
    Io(String),
    /// The clock shows a time for which no date can be written: one before
    /// 1970, or one too far off.
    Clock,
}

/// A `Failure` with its texts as sequences of characters.
pub enum FailureModel {
    MissingAuthor,
    MissingArgument,
    MissingFilename,
    MissingExtension,
    UnsupportedFiletype(Seq<char>),
    Io(Seq<char>),
    Clock,
}

impl View for Failure {
    type V = FailureModel;

    open spec fn view(&self) -> FailureModel {
        match self {
            Failure::MissingAuthor => FailureModel::MissingAuthor,
            Failure::MissingArgument => FailureModel::MissingArgument,
            Failure::MissingFilename => FailureModel::MissingFilename,
            Failure::MissingExtension => FailureModel::MissingExtension,
            Failure::UnsupportedFiletype(extension) => FailureModel::UnsupportedFiletype(
                extension@,
            ),
            Failure::Io(cause) => FailureModel::Io(cause@),
            Failure::Clock => FailureModel::Clock,
        }
    }
}

impl FailureModel {
    /// What went wrong, in words.
    pub open spec fn message(self) -> Seq<char> {
        match self {
            FailureModel::MissingAuthor => "$LOGNAME isn't defined?"@,
            FailureModel::MissingArgument => "Program requires argument. See help with 'tf --help'"@,
            FailureModel::MissingFilename => "Input filename is expected."@,
            FailureModel::MissingExtension => "Filename with file extension is expected."@,
            FailureModel::UnsupportedFiletype(extension) => "Filetype '."@ + extension
                + "' is not supported. Run 'tf --list-filetypes' for available filetypes."@,
            FailureModel::Io(cause) => cause,
            FailureModel::Clock => "System clock shows no date."@,
        }
    }

    /// What stands between the error tag and the message.
    pub open spec fn lead(self) -> Seq<char> {
        match self {
            FailureModel::MissingAuthor => ": "@,
            FailureModel::MissingArgument => ": "@,
            FailureModel::MissingFilename => " with input: "@,
            FailureModel::MissingExtension => " with input: "@,
            FailureModel::UnsupportedFiletype(_) => ": "@,
            FailureModel::Io(_) => " creating file: "@,
            FailureModel::Clock => " creating file: "@,
        }
    }

    /// The line for the error stream: the tag, the lead and the message.
    pub open spec fn report(self, tag: Seq<char>) -> Seq<char> {
        tag + self.lead() + self.message()
    }
}

impl Failure {
    /// What went wrong, in words.
    pub fn message(&self) -> (message: String)
        ensures
            message@ == self@.message(),
    {
        match self {
            Failure::MissingAuthor => String::from_str("$LOGNAME isn't defined?"),
            Failure::MissingArgument => String::from_str(
                "Program requires argument. See help with 'tf --help'",
            ),
            Failure::MissingFilename => String::from_str("Input filename is expected."),
            Failure::MissingExtension => String::from_str(
                "Filename with file extension is expected.",
            ),
            Failure::UnsupportedFiletype(extension) => {
                let mut message = String::from_str("Filetype '.");
                message.append(extension.as_str());
                message.append(
                    "' is not supported. Run 'tf --list-filetypes' for available filetypes.",
                );
                message
            },
            Failure::Io(cause) => cause.clone(),
            Failure::Clock => String::from_str("System clock shows no date."),
        }
    }

    /// The line for the error stream. `tag` opens it: the word that marks the
    /// line as an error, as the terminal is to show it.
    pub fn report(&self, tag: &str) -> (line: String)
        ensures
            line@ == self@.report(tag@),
    {
        let mut line = String::from_str(tag);
        match self {
            Failure::MissingAuthor => line.append(": "),
            Failure::MissingArgument => line.append(": "),
            Failure::MissingFilename => line.append(" with input: "),
            Failure::MissingExtension => line.append(" with input: "),
            Failure::UnsupportedFiletype(_) => line.append(": "),
            Failure::Io(_) => line.append(" creating file: "),
            Failure::Clock => line.append(" creating file: "),
        }
        let message = self.message();
        line.append(message.as_str());
        line
    }

    /// The exit code of an invocation that ends with this failure.
    pub fn exit_code(&self) -> (code: i32)
        ensures
            code == 1,
    {
        1
    }
}

} // verus!
