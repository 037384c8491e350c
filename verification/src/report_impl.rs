//! Error reporting: an error's message followed by the messages of its sources.

use vstd::prelude::*;

use crate::errors::{report_text, BoxError};

verus! {

/// Tag selecting the report of an error held behind a reference.
pub struct BoxedErrorTag;

impl BoxedErrorTag {
    /// Reports an error and its sources, each source preceded by `": "`.
    pub fn report(self, error: &BoxError) -> (r: String)
        ensures
            r@ == report_text(*error),
    {
        error.report()
    }
}

/// Selects [`BoxedErrorTag`] for errors held behind a reference.
pub trait BoxedErrorKind {
    fn report_kind(&self) -> BoxedErrorTag {
        BoxedErrorTag
    }
}

impl<'a> BoxedErrorKind for &'a BoxError {}

/// Tag selecting the report of an owned error.
pub struct StdErrorTag;

impl StdErrorTag {
    /// Reports an error and its sources, each source preceded by `": "`.
    pub fn report(self, error: BoxError) -> (r: String)
        ensures
            r@ == report_text(error),
    {
        error.report()
    }
}

/// Selects [`StdErrorTag`] for owned errors.
pub trait StdErrorKind {
    fn report_kind(&self) -> StdErrorTag {
        StdErrorTag
    }
}

impl StdErrorKind for BoxError {}

} // verus!
