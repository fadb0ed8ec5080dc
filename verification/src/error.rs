//! What can go wrong in a run, by the stage that it went wrong in.

use vstd::prelude::*;

verus! {

/// The failure of a run. Each kind carries the diagnostic as it was reported.
#[derive(Debug, Clone, PartialEq, Eq)]
pub enum PipelineError {
    /// The database could not be reached, or refused the credentials, or the
    /// attempt timed out.
    Connection(String),
    /// A catalog query was rejected, or its result could not be read.
    CatalogQuery(String),
    /// The output file could not be created or written.
    OutputWrite(String),
}

/// The view of a [`PipelineError`].
pub ghost enum ErrorView {
    Connection(Seq<char>),
    CatalogQuery(Seq<char>),
    OutputWrite(Seq<char>),
}

impl ErrorView {
    /// The diagnostic that the error carries.
    pub open spec fn message(self) -> Seq<char> {
        match self {
            ErrorView::Connection(m) => m,
            ErrorView::CatalogQuery(m) => m,
            ErrorView::OutputWrite(m) => m,
        }
    }
}

impl View for PipelineError {
    type V = ErrorView;

    open spec fn view(&self) -> ErrorView {
        match self {
            PipelineError::Connection(m) => ErrorView::Connection(m@),
            PipelineError::CatalogQuery(m) => ErrorView::CatalogQuery(m@),
            PipelineError::OutputWrite(m) => ErrorView::OutputWrite(m@),
        }
    }
}

impl PipelineError {
    /// The diagnostic that the error carries, word for word.
    pub fn message(&self) -> (text: String)
        ensures
            text@ == self@.message(),
    {
        match self {
            PipelineError::Connection(m) => m.clone(),
            PipelineError::CatalogQuery(m) => m.clone(),
            PipelineError::OutputWrite(m) => m.clone(),
        }
    }

    /// A fresh error equal to this one.
    pub fn duplicate(&self) -> (copy: PipelineError)
        ensures
            copy@ == self@,
    {
        match self {
            PipelineError::Connection(m) => PipelineError::Connection(m.clone()),
            PipelineError::CatalogQuery(m) => PipelineError::CatalogQuery(m.clone()),
            PipelineError::OutputWrite(m) => PipelineError::OutputWrite(m.clone()),
        }
    }
}

} // verus!
