//! From the file name that the user typed to a request for one new file.

use vstd::prelude::*;
use crate::failure::{Failure, FailureModel};
use crate::filetype::{
    filetype_of, lemma_extension_holds_no_dot, lemma_extension_selects_its_filetype,
    lemma_filetype_of_is_exact, resolve_kind, FileTypes,
};
use crate::text::{
    cut_at_last, lemma_last_of_joined, lemma_single_segment, lemma_split_is_nonempty,
    lemma_text_around_last, split, split_text, text_after_last, text_before_last,
};

verus! {

/// What is wrong with a file name that was split at its dots into
/// `segments`, if anything: a single empty segment is a missing file name,
/// and at most one segment is a missing extension.
pub open spec fn input_errors(segments: Seq<Seq<char>>) -> Option<FailureModel> {
    if segments == seq![Seq::<char>::empty()] {
        Some(FailureModel::MissingFilename)
    } else if segments.len() <= 1 {
        Some(FailureModel::MissingExtension)
    } else {
        None
    }
}

/// What is wrong with a file name, if anything: an empty name is a missing
/// file name, and a name without a dot is a missing extension.
pub open spec fn invalid_input(name: Seq<char>) -> Option<FailureModel> {
    if name.len() == 0 {
        Some(FailureModel::MissingFilename)
    } else if !name.contains('.') {
        Some(FailureModel::MissingExtension)
    } else {
        None
    }
}

/// Checking the segments of a name is checking the name.
pub proof fn lemma_input_errors_of_split(name: Seq<char>)
    ensures
        input_errors(split_text(name, '.')) == invalid_input(name),
{
    lemma_single_segment(name, '.');
    lemma_split_is_nonempty(name, '.');
}

/// Checks a file name that was split at its dots into `input`.
pub fn check_input_errs(input: &Vec<&str>) -> (checked: Result<(), Failure>)
    ensures
        match input_errors(input.deep_view()) {
            Some(failure) => checked matches Err(found) && found@ == failure,
            None => checked is Ok,
        },
{
    if input.len() == 1 && input[0].is_empty() {
        assert(input.deep_view()[0] =~= Seq::<char>::empty());
        assert(input.deep_view() =~= seq![Seq::<char>::empty()]);
        return Err(Failure::MissingFilename);
    }
    assert(input.deep_view() != seq![Seq::<char>::empty()]) by {
        if input.deep_view() == seq![Seq::<char>::empty()] {
            assert(input.deep_view().len() == 1);
            assert(input.deep_view()[0].len() == 0);
        }
    }
    if input.len() <= 1 {
        return Err(Failure::MissingExtension);
    }
    Ok(())
}

/// Checks a file name: it must not be empty, and it must hold a dot. A bare
/// name is rejected; no extension is assumed for it.
pub fn validate_input(name: &str) -> (checked: Result<(), Failure>)
    ensures
        match invalid_input(name@) {
            Some(failure) => checked matches Err(found) && found@ == failure,
            None => checked is Ok,
        },
{
    let parts = split(name, '.');
    proof {
        lemma_input_errors_of_split(name@);
    }
    check_input_errs(&parts)
}

/// A validated request for one new file. It is made by `parse` alone and
/// never changes: its file type is one of the closed set.
#[derive(Debug, PartialEq, Eq)]
pub struct GenerationRequest {
    base: String,
    kind: FileTypes,
}

/// A `GenerationRequest` with its base as a sequence of characters.
pub struct RequestModel {
    pub base: Seq<char>,
    pub kind: FileTypes,
}

impl RequestModel {
    /// The name of the file to write: the base, a dot, and the extension of
    /// the file type.
    pub open spec fn filename(self) -> Seq<char> {
        self.base + "."@ + self.kind.extension_text()
    }
}

/// The request that a file name stands for, or why it stands for none. The
/// extension is what the name says after its last dot, and it selects the
/// file type; the base is what the name says before that dot, other dots
/// included.
pub open spec fn parsed_request(name: Seq<char>) -> Result<RequestModel, FailureModel> {
    match invalid_input(name) {
        Some(failure) => Err(failure),
        None => {
            let extension = text_after_last(name, '.');
            match filetype_of(extension) {
                Some(kind) => Ok(RequestModel { base: text_before_last(name, '.'), kind }),
                None => Err(FailureModel::UnsupportedFiletype(extension)),
            }
        },
    }
}

impl View for GenerationRequest {
    type V = RequestModel;

    closed spec fn view(&self) -> RequestModel {
        RequestModel { base: self.base@, kind: self.kind }
    }
}

impl GenerationRequest {
    /// Validates `name` and resolves its extension.
    pub fn parse(name: &str) -> (parsed: Result<GenerationRequest, Failure>)
        ensures
            match parsed_request(name@) {
                Ok(model) => parsed matches Ok(request) && request@ == model,
                Err(failure) => parsed matches Err(found) && found@ == failure,
            },
    {
        match cut_at_last(name, '.') {
            None => if name.is_empty() {
                Err(Failure::MissingFilename)
            } else {
                Err(Failure::MissingExtension)
            },
            Some((base, extension)) => match resolve_kind(extension) {
                Err(failure) => Err(failure),
                Ok(kind) => Ok(GenerationRequest { base: String::from_str(base), kind }),
            },
        }
    }

    /// The base of the file name: what the user typed before the last dot.
    pub fn base(&self) -> (base: &str)
        ensures
            base@ == self@.base,
    {
        self.base.as_str()
    }

    /// The file type that the extension selected.
    pub fn kind(&self) -> (kind: FileTypes)
        ensures
            kind == self@.kind,
    {
        self.kind
    }

    /// The name of the file to write.
    pub fn filename(&self) -> (filename: String)
        ensures
            filename@ == self@.filename(),
    {
        let mut filename = self.base.clone();
        filename.append(".");
        filename.append(self.kind.extension());
        filename
    }
}

/// The file of a request is written under the name that was asked for:
/// nothing of the name is dropped, and nothing is added to it.
pub proof fn lemma_request_keeps_the_name(name: Seq<char>)
    ensures
        parsed_request(name) matches Ok(request) ==> request.filename() == name,
{
    if let Ok(request) = parsed_request(name) {
        reveal_strlit(".");
        lemma_text_around_last(name, '.');
        lemma_filetype_of_is_exact(text_after_last(name, '.'));
        assert(request.filename() =~= name);
    }
}

/// A name that ends in a dot and the extension of a file type is a request
/// for that file type and no other, and all that stands before the dot is
/// its base.
pub proof fn lemma_supported_extension_is_resolved(head: Seq<char>, kind: FileTypes)
    ensures
        parsed_request(head.push('.') + kind.extension_text()) == Ok::<RequestModel, FailureModel>(
            RequestModel { base: head, kind },
        ),
{
    let extension = kind.extension_text();
    let name = head.push('.') + extension;
    assert(name[head.len() as int] == '.');
    lemma_extension_holds_no_dot(kind);
    lemma_extension_selects_its_filetype(kind);
    lemma_last_of_joined(head, extension, '.');
}

/// A name that ends in a dot and an extension that selects no file type is
/// rejected as unsupported, and the failure names that extension.
pub proof fn lemma_unsupported_extension_is_rejected(head: Seq<char>, extension: Seq<char>)
    requires
        !extension.contains('.'),
        forall|kind: FileTypes| extension != #[trigger] kind.extension_text(),
    ensures
        parsed_request(head.push('.') + extension) == Err::<RequestModel, FailureModel>(
            FailureModel::UnsupportedFiletype(extension),
        ),
{
    let name = head.push('.') + extension;
    assert(name[head.len() as int] == '.');
    lemma_last_of_joined(head, extension, '.');
    lemma_filetype_of_is_exact(extension);
}

} // verus!
