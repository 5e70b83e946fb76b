//! Core of a multipart uploader: the plan that cuts a file into parts, the
//! part number carried by a pre-signed URL, the PUT request of one part, the
//! backoff schedule, and the state machine that drives one part's
//! send/retry cycle.
//!
//! Nothing here performs I/O. A driver sends the request, awaits the
//! response, sleeps for the backoff, and feeds what happened back to the
//! [`client::UploadClient`].

pub mod error;
pub mod plan;
pub mod part_number;
pub mod backoff;
pub mod request;
pub mod client;
pub mod trace;
