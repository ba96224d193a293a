//! Errors of extraction.

use vstd::prelude::*;

use crate::models::{Submission, SubmissionView};
use crate::text::{chars_of, trim, trimmed};

verus! {

/// What went wrong while a record was extracted.
#[derive(Clone, Debug)]
pub enum ExtractErrorKind {
    NoExtractor(String),
    Parse(String),
    Convert(String),
    MissingField(String),
    RegexMismatch(String),
    SelectorParse(String),
    TimeParse(String),
    MemoryParse(String),
    LanguageParse(String),
    StatusParse(String),
    InvalidUrl(String),
    EmptyContent,
    NotInSubmissionPage(String),
    NoSubmissionSelected(String),
    Other(String),
}

/// A failed extraction: its kind and, where fields were recovered, the partial record.
#[derive(Clone, Debug)]
pub struct ExtractError {
    pub kind: ExtractErrorKind,
    pub partial: Option<Box<Submission>>,
}

impl ExtractError {
    pub fn new(kind: ExtractErrorKind) -> (r: Self)
        ensures
            r.kind == kind,
            r.partial is None,
    {
        ExtractError { kind, partial: None }
    }

    pub fn with_partial(kind: ExtractErrorKind, partial: Submission) -> (r: Self)
        ensures
            r.kind == kind,
            r.partial == Some(Box::new(partial)),
    {
        ExtractError { kind, partial: Some(Box::new(partial)) }
    }
}

/// The errors that the entry points return.
#[derive(Clone, Debug)]
pub enum Error {
    /// No registered extractor ranks the url above zero.
    NoExtractor(String),
    Extract(ExtractError),
}

pub type Result<T> = std::result::Result<T, Error>;

/// The required field that a record lacks, checked in the order `pid`, `rid`, `code`.
pub open spec fn missing_field(sub: SubmissionView) -> Option<Seq<char>> {
    if sub.pid.len() == 0 {
        Some("pid"@)
    } else if sub.rid.len() == 0 {
        Some("rid"@)
    } else if sub.code.len() == 0 {
        Some("code"@)
    } else {
        None
    }
}

/// The outcome owed for an assembled record: the record itself when it has every required
/// field, else `MissingField` naming the first one missing, with the whole record attached.
pub open spec fn validated(sub: SubmissionView, r: Result<Submission>) -> bool {
    match missing_field(sub) {
        None => r matches Ok(s) && s@ == sub,
        Some(name) => match r {
            Err(Error::Extract(e)) => (e.partial matches Some(p) && p@ == sub) && (
            e.kind matches ExtractErrorKind::MissingField(f) && f@ == name),
            _ => false,
        },
    }
}

/// Checks the required fields of an assembled record.
pub fn validate_submission(sub: Submission) -> (r: Result<Submission>)
    ensures
        validated(sub@, r),
{
    let name = if sub.pid.as_str().is_empty() {
        "pid"
    } else if sub.rid.as_str().is_empty() {
        "rid"
    } else if sub.code.as_str().is_empty() {
        "code"
    } else {
        return Ok(sub);
    };
    Err(
        Error::Extract(
            ExtractError::with_partial(ExtractErrorKind::MissingField(name.to_string()), sub),
        ),
    )
}

/// `true` when the markup is empty or whitespace only.
pub open spec fn blank(content: Seq<char>) -> bool {
    trim(content).len() == 0
}

pub fn is_blank(content: &str) -> (r: bool)
    ensures
        r == blank(content@),
{
    trimmed(&chars_of(content)).len() == 0
}

/// The error for blank markup.
pub fn empty_content() -> (r: Error)
    ensures
        r matches Error::Extract(e) && e.kind is EmptyContent && e.partial is None,
{
    Error::Extract(ExtractError::new(ExtractErrorKind::EmptyContent))
}



} // verus!
