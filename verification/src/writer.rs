//! The writer of one file.

use std::sync::Arc;

use vstd::prelude::*;

use crate::acknowledgement::Acknowledgement;
use crate::part;
use crate::part::{part_sha1_array, MultipartUploadPart};
use crate::request::{
    Call, CancelLargeFile, FinishLargeFile, StartLargeFile, UploadFile, UploadPart,
};
use crate::retrieval;
use crate::retrieval::{FileId, Retrieval, RetrievalEvent, StoredPart};

verus! {

/// Writes one file, at once or in parts.
///
/// `C` is what reaches the service and `O` the options that a file is written with. The writer
/// passes both on as they are.
pub struct B2Writer<C, O> {
    core: Arc<C>,
    op: O,
    path: String,
}

/// What a writer is made of.
pub struct WriterView<C, O> {
    /// What reaches the service.
    pub core: Arc<C>,
    /// Where the file goes.
    pub path: Seq<char>,
    /// The options that the file is written with.
    pub op: O,
}

impl<C, O> View for B2Writer<C, O> {
    type V = WriterView<C, O>;

    closed spec fn view(&self) -> WriterView<C, O> {
        WriterView { core: self.core, path: self.path@, op: self.op }
    }
}

/// The number that the service knows a part by: it counts from one, the caller from zero.
pub open spec fn service_number(part_number: int) -> int {
    part_number + 1
}

impl<C, O> B2Writer<C, O> {
    /// A writer of the file at `path`.
    pub fn new(core: Arc<C>, path: &str, op: O) -> (writer: Self)
        ensures
            writer@ == (WriterView { core, path: path@, op }),
    {
        B2Writer { core, path: path.to_string(), op }
    }

    /// What reaches the service.
    pub fn get_core(&self) -> (core: &Arc<C>)
        ensures
            *core == self@.core,
    {
        &self.core
    }

    /// Writes the whole file, of which `body` is the content and `size` the length.
    pub fn write_once<'a, B, E>(&'a self, size: u64, body: B) -> (call: Call<
        UploadFile<'a, O, B>,
        Acknowledgement<E>,
    >)
        ensures
            call.request.path@ == self@.path,
            call.request.size == Some(size),
            *call.request.op == self@.op,
            call.request.body == body,
            call.exchange == Acknowledgement::<E>::Sent,
    {
        Call {
            request: UploadFile { path: self.path.as_str(), size: Some(size), op: &self.op, body },
            exchange: Acknowledgement::Sent,
        }
    }

    /// Starts a large file and returns its identifier.
    pub fn initiate_part<'a, E>(&'a self) -> (call: Call<
        StartLargeFile<'a, O>,
        Retrieval<FileId, E>,
    >)
        ensures
            call.request.path@ == self@.path,
            *call.request.op == self@.op,
            call.exchange == Retrieval::<FileId, E>::Sent(FileId {  }),
    {
        Call {
            request: StartLargeFile { path: self.path.as_str(), op: &self.op },
            exchange: Retrieval::Sent(FileId {  }),
        }
    }

    /// Uploads a part, which the caller counts from zero, and returns what the service stored.
    pub fn write_part<'a, B, E>(
        &self,
        upload_id: &'a str,
        part_number: usize,
        size: u64,
        body: B,
    ) -> (call: Call<UploadPart<'a, B>, Retrieval<StoredPart, E>>)
        requires
            part_number < usize::MAX,
        ensures
            call.request.upload_id == upload_id,
            call.request.part_number == part_number + 1,
            call.request.part_number == service_number(part_number as int),
            call.request.size == size,
            call.request.body == body,
            call.exchange == Retrieval::<StoredPart, E>::Sent(
                (StoredPart { part_number: call.request.part_number }),
            ),
    {
        // The service takes the numbers from 1 to 10000.
        let part_number: usize = part_number + 1;
        Call {
            request: UploadPart { upload_id, part_number, size, body },
            exchange: Retrieval::Sent(StoredPart { part_number }),
        }
    }

    /// Puts `parts` together, in their order.
    pub fn complete_part<'a, E>(
        &self,
        upload_id: &'a str,
        parts: &[MultipartUploadPart],
    ) -> (call: Call<FinishLargeFile<'a>, Acknowledgement<E>>)
        ensures
            call.request.upload_id == upload_id,
            call.request.part_sha1_array.deep_view() == part::sha1s_of(parts@),
            call.request.part_sha1_array@.len() == parts@.len(),
            forall|i: int|
                0 <= i < parts@.len() ==> if "unverified:"@.is_prefix_of(parts@[i].etag@) {
                    parts@[i].etag@ == "unverified:"@ + #[trigger] call.request.part_sha1_array@[i]@
                } else {
                    call.request.part_sha1_array@[i]@.len() == 0
                },
            call.exchange == Acknowledgement::<E>::Sent,
    {
        Call {
            request: FinishLargeFile { upload_id, part_sha1_array: part_sha1_array(parts) },
            exchange: Acknowledgement::Sent,
        }
    }

    /// Gives a large file up.
    pub fn abort_part<'a, E>(&self, upload_id: &'a str) -> (call: Call<
        CancelLargeFile<'a>,
        Acknowledgement<E>,
    >)
        ensures
            call.request.upload_id == upload_id,
            call.exchange == Acknowledgement::<E>::Sent,
    {
        Call { request: CancelLargeFile { upload_id }, exchange: Acknowledgement::Sent }
    }
}

/// Different parts get different numbers, in the order of the parts and without a gap, and the
/// first ten thousand parts get exactly the numbers from 1 to 10000.
pub proof fn parts_are_numbered_from_one(part: int, other: int)
    requires
        0 <= part,
        0 <= other,
    ensures
        service_number(part) == service_number(other) <==> part == other,
        service_number(part) < service_number(other) <==> part < other,
        service_number(other) - service_number(part) == other - part,
        service_number(0) == 1,
        1 <= service_number(part),
        service_number(part) <= 10000 <==> part < 10000,
{
}

/// A part that an upload returns is the part that was uploaded: it bears the number that it was
/// uploaded under and, whatever that reads, the checksum that the service answered with.
pub proof fn stored_part_is_the_uploaded_one<E>(
    part_number: usize,
    upload: Seq<RetrievalEvent<StoredPart, E>>,
    part: MultipartUploadPart,
) -> (end: int)
    requires
        Retrieval::<StoredPart, E>::Sent((StoredPart { part_number })).after_all(upload)
            == Retrieval::<StoredPart, E>::Done(Ok(part)),
    ensures
        part.part_number == part_number,
        0 <= end < upload.len(),
        upload[end] is Decoded,
        upload[end]->Decoded_0 is Ok,
        part.etag == upload[end]->Decoded_0->Ok_0.content_sha1,
{
    let (_, _, end) = retrieval::retrieved_only_if_accepted(
        StoredPart { part_number },
        upload,
        part,
    );
    end
}

/// A file is put together from the checksums that its parts were stored with: if each of `parts`
/// is what the upload under the number in `numbers` returned, then the parts bear those numbers;
/// and where `sha1s` holds, for each upload that the service answered with a marked checksum, that
/// checksum, and nothing for any other upload, `sha1s` is what the file is finished with.
pub proof fn file_is_finished_with_the_sha1s_of_its_parts<E>(
    numbers: Seq<usize>,
    uploads: Seq<Seq<RetrievalEvent<StoredPart, E>>>,
    sha1s: Seq<Seq<char>>,
    parts: Seq<MultipartUploadPart>,
)
    requires
        numbers.len() == uploads.len() == sha1s.len() == parts.len(),
        forall|i: int|
            0 <= i < parts.len() ==> Retrieval::<StoredPart, E>::Sent(
                (StoredPart { part_number: numbers[i] }),
            ).after_all(#[trigger] uploads[i]) == Retrieval::<StoredPart, E>::Done(Ok(parts[i])),
        forall|i: int, j: int|
            0 <= i < uploads.len() && 0 <= j < uploads[i].len() && (
            #[trigger] uploads[i][j]) is Decoded && uploads[i][j]->Decoded_0 is Ok ==> {
                let content_sha1 = uploads[i][j]->Decoded_0->Ok_0.content_sha1@;
                if "unverified:"@.is_prefix_of(content_sha1) {
                    content_sha1 == "unverified:"@ + sha1s[i]
                } else {
                    sha1s[i].len() == 0
                }
            },
    ensures
        forall|i: int| 0 <= i < parts.len() ==> (#[trigger] parts[i]).part_number == numbers[i],
        part::sha1s_of(parts) == sha1s,
{
    assert forall|i: int| 0 <= i < parts.len() implies (#[trigger] parts[i]).part_number
        == numbers[i] && part::sha1_of(parts[i].etag@) == sha1s[i] by {
        let _ = uploads[i];
        let end = stored_part_is_the_uploaded_one(numbers[i], uploads[i], parts[i]);
        assert(uploads[i][end] is Decoded);
        part::marked_etag_holds_its_sha1(sha1s[i]);
        if !"unverified:"@.is_prefix_of(parts[i].etag@) {
            part::unmarked_etag_holds_no_sha1(parts[i].etag@);
            assert(part::sha1_of(parts[i].etag@) =~= sha1s[i]);
        }
    }
    assert(part::sha1s_of(parts) =~= sha1s);
}

} // verus!
