//! Colour and weight for the words that go to the terminal. The `colored`
//! crate decides, by the environment and by whether the output is a
//! terminal, if a text is decorated at all.

use vstd::prelude::*;
use colored::{ColoredString, Colorize};

verus! {

/// `colored::ColoredString`: a text together with the colour and style it is
/// to be shown in. It is carried through as it is; nothing is read from it.
#[verifier::external_type_specification]
#[verifier::external_body]
pub struct ExColoredString(ColoredString);

/// The plain text that a `ColoredString` decorates: its field `input`.
pub uninterp spec fn decorated_text(styled: ColoredString) -> Seq<char>;

/// Whether `text` holds the escape character, with which the control
/// sequences of a terminal begin.
pub open spec fn holds_escape(text: Seq<char>) -> bool {
    text.contains('\x1b')
}

/// Whether `codes` can select colour and style in a control sequence:
/// numbers, with semicolons between them, so digits and semicolons only.
pub open spec fn selects_style(codes: Seq<char>) -> bool {
    forall|i: int|
        0 <= i < codes.len() ==> ('0' <= #[trigger] codes[i] <= '9') || codes[i] == ';'
}

/// Whether `shown` is `text` as a terminal is to show it: `text` itself, or
/// `text` between a control sequence that selects colour and style and the
/// one that resets them, or `text` before the reset alone.
pub open spec fn shows(shown: Seq<char>, text: Seq<char>) -> bool {
    ||| shown == text
    ||| shown == text + "\x1b[0m"@
    ||| exists|codes: Seq<char>|
        #[trigger] selects_style(codes) && shown == "\x1b["@ + codes + "m"@ + text + "\x1b[0m"@
}

/// `Colorize::red` on a string slice: a `ColoredString` that holds a copy of
/// the text and red as its foreground colour.
#[verifier::external_body]
fn red(text: &str) -> (styled: ColoredString)
    ensures
        decorated_text(styled) == text@,
{
    text.red()
}

/// `Colorize::bright_cyan` on a string slice: a `ColoredString` that holds a
/// copy of the text and bright cyan as its foreground colour.
#[verifier::external_body]
fn bright_cyan(text: &str) -> (styled: ColoredString)
    ensures
        decorated_text(styled) == text@,
{
    text.bright_cyan()
}

/// `Colorize::bright_green` on a string slice: a `ColoredString` that holds
/// a copy of the text and bright green as its foreground colour.
#[verifier::external_body]
fn bright_green(text: &str) -> (styled: ColoredString)
    ensures
        decorated_text(styled) == text@,
{
    text.bright_green()
}

/// `Colorize::bold` on a `ColoredString`: adds the bold style and keeps the
/// text.
#[verifier::external_body]
fn bold(styled: ColoredString) -> (bolder: ColoredString)
    ensures
        decorated_text(bolder) == decorated_text(styled),
{
    styled.bold()
}

/// `Colorize::underline` on a `ColoredString`: adds the underline style and
/// keeps the text.
#[verifier::external_body]
fn underline(styled: ColoredString) -> (underlined: ColoredString)
    ensures
        decorated_text(underlined) == decorated_text(styled),
{
    styled.underline()
}

/// The `Display` of a `ColoredString`, through `to_string`. Where colours are
/// off it writes the text alone. Where they are on it writes the control
/// sequence for colour and style, the text, and the reset sequence. Between
/// the opening of the control sequence and its `m` stand the numbers of the
/// styles and of the colours, joined by semicolons, and nothing else. The
/// switch is asked again for each part, so where another thread turns
/// colours off in between, the text may come with the reset alone. A text
/// that holds reset sequences of its own would have the style written again
/// after each of them, so the claim is made for texts without the escape
/// character only.
#[verifier::external_body]
fn shown(styled: &ColoredString) -> (shown: String)
    ensures
        !holds_escape(decorated_text(*styled)) ==> shows(shown@, decorated_text(*styled)),
{
    styled.to_string()
}

/// `text` as a heading: bright cyan, bold and underlined.
pub fn heading(text: &str) -> (painted: String)
    ensures
        !holds_escape(text@) ==> shows(painted@, text@),
{
    shown(&underline(bold(bright_cyan(text))))
}

/// `text` as the name of a file type: bright cyan and bold.
pub fn filetype_name(text: &str) -> (painted: String)
    ensures
        !holds_escape(text@) ==> shows(painted@, text@),
{
    shown(&bold(bright_cyan(text)))
}

/// `text` as an extension: bright green and bold.
pub fn filetype_extension(text: &str) -> (painted: String)
    ensures
        !holds_escape(text@) ==> shows(painted@, text@),
{
    shown(&bold(bright_green(text)))
}

/// `text` as the tag of an error line: red.
pub fn error_tag(text: &str) -> (painted: String)
    ensures
        !holds_escape(text@) ==> shows(painted@, text@),
{
    shown(&red(text))
}

} // verus!
