//! The error taxonomy that crosses the library boundary.
//!
//! Every fallibility below the whole-file level is absorbed during
//! extraction; only two failures ever reach a front end: the source could
//! not open and parse a file, or it could not persist a cleared one.

use vstd::prelude::*;

verus! {

/// A failure that crosses the library boundary, carrying the metadata
/// source's own description of it.
#[derive(Clone, Debug, PartialEq, Eq)]
pub enum AppError {
    /// The source could not open or parse the file.
    FailedReadingMetadata(String),
    /// The source could not persist the cleared file.
    FailedWritingMetadata(String),
}

/// Mathematical model of an [`AppError`].
#[verifier::ext_equal]
pub enum AppErrorModel {
    FailedReadingMetadata(Seq<char>),
    FailedWritingMetadata(Seq<char>),
}

impl View for AppError {
    type V = AppErrorModel;

    open spec fn view(&self) -> AppErrorModel {
        match self {
            AppError::FailedReadingMetadata(d) => AppErrorModel::FailedReadingMetadata(d@),
            AppError::FailedWritingMetadata(d) => AppErrorModel::FailedWritingMetadata(d@),
        }
    }
}

/// The message a front end shows for an error.
pub open spec fn error_message_text(e: AppErrorModel) -> Seq<char> {
    match e {
        AppErrorModel::FailedReadingMetadata(d) => "Failed reading metadata: "@ + d,
        AppErrorModel::FailedWritingMetadata(d) => "Failed writing metadata: "@ + d,
    }
}

impl AppError {
    /// The display text of the error: which step failed, then the
    /// source's own description.
    pub fn message(&self) -> (r: String)
        ensures
            r@ == error_message_text(self@),
    {
        match self {
            AppError::FailedReadingMetadata(d) => {
                let mut r = String::from_str("Failed reading metadata: ");
                r.append(d.as_str());
                r
            },
            AppError::FailedWritingMetadata(d) => {
                let mut r = String::from_str("Failed writing metadata: ");
                r.append(d.as_str());
                r
            },
        }
    }
}

} // verus!
