//! Lines that the user interface asks to have logged: the level by its
//! name, and the line as it goes to the log.

use vstd::prelude::*;
use crate::text::same_text;

verus! {

/// What a line from the user interface starts with in the log.
pub const FRONTEND_TAG: &'static str = "[frontend] ";

/// How much a logged line matters.
#[derive(Clone, Copy, PartialEq, Eq, Structural, Debug)]
pub enum Severity {
    Trace,
    Debug,
    Info,
    Warn,
    Error,
}

/// The lower-case form of a text, as the standard library gives it.
pub uninterp spec fn lowercase_of(text: Seq<char>) -> Seq<char>;

/// The level that a name in lower case stands for: each of four levels by
/// its own name, and `Info` by any other text.
pub open spec fn severity_named(name: Seq<char>) -> Severity {
    if name == "trace"@ {
        Severity::Trace
    } else if name == "debug"@ {
        Severity::Debug
    } else if name == "warn"@ {
        Severity::Warn
    } else if name == "error"@ {
        Severity::Error
    } else {
        Severity::Info
    }
}

/// `str::to_lowercase` of the standard library: the result is the
/// lower-case form of the text. Nothing more is claimed of that form.
#[verifier::external_body]
fn lowercase(text: &str) -> (r: String)
    ensures
        r@ == lowercase_of(text@),
{
    text.to_lowercase()
}

/// The level that `name`, which is in lower case, stands for.
pub fn severity_from_lowercase(name: &str) -> (r: Severity)
    ensures
        r == severity_named(name@),
{
    if same_text(name, "trace") {
        Severity::Trace
    } else if same_text(name, "debug") {
        Severity::Debug
    } else if same_text(name, "warn") {
        Severity::Warn
    } else if same_text(name, "error") {
        Severity::Error
    } else {
        Severity::Info
    }
}

/// The level that `level` stands for, whatever case it is written in.
pub fn severity_of(level: &str) -> (r: Severity)
    ensures
        r == severity_named(lowercase_of(level@)),
{
    let name = lowercase(level);
    severity_from_lowercase(name.as_str())
}

/// The line that goes to the log for `message`.
pub fn frontend_line(message: &str) -> (r: String)
    ensures
        r@ == FRONTEND_TAG@ + message@,
{
    let mut line = String::from_str(FRONTEND_TAG);
    line.append(message);
    line
}

} // verus!
