//! What the service answers with.

use vstd::prelude::*;

verus! {

/// The body of the answer to a request that starts a large file.
#[derive(Debug)]
pub struct StartLargeFileResponse {
    /// The identifier under which the parts of the file are uploaded.
    pub file_id: String,
}

/// The body of the answer to a request that uploads a part.
#[derive(Debug)]
pub struct UploadPartResponse {
    /// The checksum of the part, as the service took it down.
    pub content_sha1: String,
}

/// Whether an answer with this status accepts the request. Every status but one refuses it.
pub open spec fn accepts(status: u16) -> bool {
    status == 200
}

/// The error that a refused request ends with: the one that was read out of the answer or, where
/// the answer could not be read, the one that kept it from being read.
pub open spec fn refusal<E>(parsed: Result<E, E>) -> E {
    match parsed {
        Ok(error) => error,
        Err(error) => error,
    }
}

/// Compares `http::StatusCode::OK` with the number of a status, by the `PartialEq<u16>` of
/// `http::StatusCode`. Trusted: they are equal for the number 200 and for no other.
#[verifier::external_body]
pub(crate) fn is_status_ok(status: u16) -> (ok: bool)
    ensures
        ok == (status == 200),
{
    http::StatusCode::OK == status
}

} // verus!
