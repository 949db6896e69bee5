//! Core of a metadata cleaner for image files.
//!
//! The crate turns the readings of an outside metadata source (EXIF, IPTC
//! and XMP tags, dimensions, camera parameters, GPS coordinates) into an
//! owned, immutable snapshot, renders that snapshot as an ordered list of
//! labelled text values, and reports the outcome of stripping the metadata
//! from the file.  The metadata source itself is an outside collaborator:
//! a front end hands its readings to this crate as plain values and carries
//! the destructive clear-and-save call.

pub mod error;
pub mod render;
pub mod session;
pub mod snapshot;
pub mod text;
pub mod writer;
