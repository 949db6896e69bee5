//! Reporting the outcome of the destructive clear-and-save step.
//!
//! Clearing the in-memory handle always succeeds; only persisting the
//! cleared file can fail.  The destructive call itself belongs to the
//! outside metadata source, so a front end makes it and hands the outcome
//! back; the writer turns that outcome into the library's error taxonomy.

use crate::error::AppError;
use crate::error::AppErrorModel;
use vstd::prelude::*;

verus! {

/// The decision side of the clear-and-save step.
pub struct MetadataWriter;

impl MetadataWriter {
    /// Turns the source's save outcome into the library's error taxonomy:
    /// success passes through, and a failure detail becomes the
    /// write-side error, if and only if the save failed.
    pub fn report_save(outcome: Result<(), String>) -> (r: Result<(), AppError>)
        ensures
            r is Ok <==> outcome is Ok,
            (outcome matches Err(d) ==> r matches Err(e) && e@
                == AppErrorModel::FailedWritingMetadata(d@)),
    {
        match outcome {
            Ok(_) => Ok(()),
            Err(detail) => Err(AppError::FailedWritingMetadata(detail)),
        }
    }
}

} // verus!
