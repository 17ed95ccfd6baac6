//! What is asked of the service.

use vstd::prelude::*;

verus! {

/// Upload a whole file at once.
pub struct UploadFile<'a, O, B> {
    /// Where the file goes.
    pub path: &'a str,
    /// How long the file is, where that is known.
    pub size: Option<u64>,
    /// The options that the file is written with.
    pub op: &'a O,
    /// What the file holds.
    pub body: B,
}

/// Start a file that is uploaded in parts.
pub struct StartLargeFile<'a, O> {
    /// Where the file goes.
    pub path: &'a str,
    /// The options that the file is written with.
    pub op: &'a O,
}

/// Upload one part of a large file.
pub struct UploadPart<'a, B> {
    /// The large file that the part belongs to.
    pub upload_id: &'a str,
    /// The number of the part, counted from one.
    pub part_number: usize,
    /// How long the part is.
    pub size: u64,
    /// What the part holds.
    pub body: B,
}

/// Put the parts of a large file together.
pub struct FinishLargeFile<'a> {
    /// The large file.
    pub upload_id: &'a str,
    /// The SHA-1 of each part, in the order of the parts.
    pub part_sha1_array: Vec<String>,
}

/// Give a large file up.
pub struct CancelLargeFile<'a> {
    /// The large file.
    pub upload_id: &'a str,
}

/// A request, and the exchange that it opens.
pub struct Call<Q, X> {
    /// What is to be sent.
    pub request: Q,
    /// What becomes of it.
    pub exchange: X,
}

} // verus!
