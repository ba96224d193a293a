//! The capability every site extractor offers.

use vstd::prelude::*;

use crate::error::{blank, validated, Error, Result};
use crate::models::{Submission, SubmissionView};

verus! {

/// Extracts a submission record from a page's url and markup.
pub trait Extractor {
    /// The record that the extractor assembles from a page, before its required fields are
    /// checked.
    spec fn record(&self, url: Seq<char>, content: Seq<char>) -> SubmissionView;

    /// `EmptyContent` for blank markup; else the assembled record when it has every required
    /// field, or `MissingField` for the first one missing, with the record attached.
    fn extract(&self, url: &str, content: &str) -> (r: Result<Submission>)
        ensures
            blank(content@) ==> (r matches Err(Error::Extract(e)) && e.kind is EmptyContent
                && e.partial is None),
            !blank(content@) ==> validated(self.record(url@, content@), r),
    ;
}

} // verus!
