//! What each operation comes to, over every run of the functions that make it up.
//!
//! A law speaks of what the functions return: of any values that calls of them can give.

#![allow(unused_imports)]

use std::sync::Arc;

use vstd::prelude::*;

use crate::acknowledgement::{Acknowledgement, AcknowledgementEvent};
use crate::part;
use crate::part::MultipartUploadPart;
use crate::request::{
    Call, CancelLargeFile, FinishLargeFile, StartLargeFile, UploadFile, UploadPart,
};
use crate::response::{StartLargeFileResponse, UploadPartResponse};
use crate::retrieval::{FileId, Receipt, Retrieval, RetrievalEvent, StoredPart};
use crate::writer::B2Writer;

verus! {

/// An operation that waits for consent always returns: the error of a request that failed, what
/// the consuming of the body gave for status 200, and for any other status the error that the
/// parsing of the answer gave, whether it read that error or failed with it.
pub proof fn acknowledgement_returns<E>(
    reply: Result<u16, E>,
    replied: Acknowledgement<E>,
    consumed: Result<(), E>,
    after_consumed: Acknowledgement<E>,
    parsed: Result<E, E>,
    after_parsed: Acknowledgement<E>,
)
    requires
        call_ensures(
            Acknowledgement::<E>::next,
            (Acknowledgement::<E>::Sent, AcknowledgementEvent::<E>::Replied(reply)),
            replied,
        ),
        call_ensures(
            Acknowledgement::<E>::next,
            (replied, AcknowledgementEvent::<E>::Consumed(consumed)),
            after_consumed,
        ),
        call_ensures(
            Acknowledgement::<E>::next,
            (replied, AcknowledgementEvent::<E>::ErrorParsed(parsed)),
            after_parsed,
        ),
    ensures
        match reply {
            Err(error) => {
                &&& replied == Acknowledgement::<E>::Done(Err(error))
                &&& after_consumed == replied
                &&& after_parsed == replied
            },
            Ok(status) => if status == 200 {
                &&& replied == Acknowledgement::<E>::Consume
                &&& after_consumed == Acknowledgement::<E>::Done(consumed)
                &&& after_parsed == replied
            } else {
                &&& replied == Acknowledgement::<E>::ParseError
                &&& after_consumed == replied
                &&& forall|error: E|
                    parsed == Ok::<E, E>(error) || parsed == Err::<E, E>(error) ==> after_parsed
                        == Acknowledgement::<E>::Done(Err(error))
            },
        },
{
}

/// An event that does not tell how the pending step went leaves an acknowledgement as it is; and
/// an acknowledgement that is over stays as it is.
pub proof fn acknowledgement_waits<E>(
    exchange: Acknowledgement<E>,
    event: AcknowledgementEvent<E>,
    next: Acknowledgement<E>,
)
    requires
        call_ensures(Acknowledgement::<E>::next, (exchange, event), next),
    ensures
        !(exchange is Sent && event is Replied) && !(exchange is Consume && event is Consumed) && !(
        exchange is ParseError && event is ErrorParsed) ==> next == exchange,
{
}

/// An operation that reads its answer always returns: the error of a request that failed; for
/// status 200 the error of reading or of decoding, or what the receipt makes of the decoded body,
/// the bytes to decode being those that were read; and for any other status the error that the
/// parsing of the answer gave, whether it read that error or failed with it.
pub proof fn retrieval_returns<R: Receipt, E>(
    receipt: R,
    reply: Result<u16, E>,
    replied: Retrieval<R, E>,
    body: Result<Vec<u8>, E>,
    after_read: Retrieval<R, E>,
    decoded: Result<R::Decoded, E>,
    after_decoded: Retrieval<R, E>,
    parsed: Result<E, E>,
    after_parsed: Retrieval<R, E>,
)
    requires
        call_ensures(
            Retrieval::<R, E>::next,
            (Retrieval::<R, E>::Sent(receipt), RetrievalEvent::<R, E>::Replied(reply)),
            replied,
        ),
        call_ensures(
            Retrieval::<R, E>::next,
            (replied, RetrievalEvent::<R, E>::BodyRead(body)),
            after_read,
        ),
        call_ensures(
            Retrieval::<R, E>::next,
            (after_read, RetrievalEvent::<R, E>::Decoded(decoded)),
            after_decoded,
        ),
        call_ensures(
            Retrieval::<R, E>::next,
            (replied, RetrievalEvent::<R, E>::ErrorParsed(parsed)),
            after_parsed,
        ),
    ensures
        match reply {
            Err(error) => {
                &&& replied == Retrieval::<R, E>::Done(Err(error))
                &&& after_decoded == replied
                &&& after_parsed == replied
            },
            Ok(status) => if status == 200 {
                &&& replied == Retrieval::<R, E>::Read(receipt)
                &&& after_parsed == replied
                &&& match body {
                    Err(error) => {
                        &&& after_read == Retrieval::<R, E>::Done(Err(error))
                        &&& after_decoded == after_read
                    },
                    Ok(bytes) => {
                        &&& after_read == Retrieval::<R, E>::Decode(receipt, bytes)
                        &&& match decoded {
                            Err(error) => after_decoded == Retrieval::<R, E>::Done(Err(error)),
                            Ok(decoded) => after_decoded == Retrieval::<R, E>::Done(
                                Ok(receipt.output(decoded)),
                            ),
                        }
                    },
                }
            } else {
                &&& replied == Retrieval::<R, E>::ParseError
                &&& after_decoded == replied
                &&& forall|error: E|
                    parsed == Ok::<E, E>(error) || parsed == Err::<E, E>(error) ==> after_parsed
                        == Retrieval::<R, E>::Done(Err(error))
            },
        },
{
}

/// An event that does not tell how the pending step went leaves a retrieval as it is; and a
/// retrieval that is over stays as it is.
pub proof fn retrieval_waits<R: Receipt, E>(
    exchange: Retrieval<R, E>,
    event: RetrievalEvent<R, E>,
    next: Retrieval<R, E>,
)
    requires
        call_ensures(Retrieval::<R, E>::next, (exchange, event), next),
    ensures
        !(exchange is Sent && event is Replied) && !(exchange is Read && event is BodyRead) && !(
        exchange is Decode && event is Decoded) && !(exchange is ParseError
            && event is ErrorParsed) ==> next == exchange,
{
}

/// Starting a large file returns the identifier that the service answered with.
pub proof fn started_file_is_identified<C, O, E>(
    writer: &B2Writer<C, O>,
    call: Call<StartLargeFile<'_, O>, Retrieval<FileId, E>>,
    replied: Retrieval<FileId, E>,
    bytes: Vec<u8>,
    after_read: Retrieval<FileId, E>,
    decoded: StartLargeFileResponse,
    done: Retrieval<FileId, E>,
)
    requires
        call_ensures(B2Writer::<C, O>::initiate_part::<E>, (writer,), call),
        call_ensures(
            Retrieval::<FileId, E>::next,
            (call.exchange, RetrievalEvent::<FileId, E>::Replied(Ok(200))),
            replied,
        ),
        call_ensures(
            Retrieval::<FileId, E>::next,
            (replied, RetrievalEvent::<FileId, E>::BodyRead(Ok(bytes))),
            after_read,
        ),
        call_ensures(
            Retrieval::<FileId, E>::next,
            (after_read, RetrievalEvent::<FileId, E>::Decoded(Ok(decoded))),
            done,
        ),
    ensures
        done == Retrieval::<FileId, E>::Done(Ok(decoded.file_id)),
{
}

/// Uploading a part returns the number that the part was uploaded under, which is one more than
/// the caller's, and the checksum that the service answered with, whatever that reads.
pub proof fn uploaded_part_is_returned<C, O, B, E>(
    writer: &B2Writer<C, O>,
    upload_id: &str,
    part_number: usize,
    size: u64,
    body: B,
    call: Call<UploadPart<'_, B>, Retrieval<StoredPart, E>>,
    replied: Retrieval<StoredPart, E>,
    bytes: Vec<u8>,
    after_read: Retrieval<StoredPart, E>,
    decoded: UploadPartResponse,
    done: Retrieval<StoredPart, E>,
)
    requires
        call_ensures(
            B2Writer::<C, O>::write_part::<B, E>,
            (writer, upload_id, part_number, size, body),
            call,
        ),
        call_ensures(
            Retrieval::<StoredPart, E>::next,
            (call.exchange, RetrievalEvent::<StoredPart, E>::Replied(Ok(200))),
            replied,
        ),
        call_ensures(
            Retrieval::<StoredPart, E>::next,
            (replied, RetrievalEvent::<StoredPart, E>::BodyRead(Ok(bytes))),
            after_read,
        ),
        call_ensures(
            Retrieval::<StoredPart, E>::next,
            (after_read, RetrievalEvent::<StoredPart, E>::Decoded(Ok(decoded))),
            done,
        ),
    ensures
        call.request.upload_id@ == upload_id@,
        call.request.part_number == part_number + 1,
        call.request.size == size,
        call.request.body == body,
        done is Done,
        done->Done_0 is Ok,
        done->Done_0->Ok_0.part_number == call.request.part_number,
        done->Done_0->Ok_0.etag@ == decoded.content_sha1@,
{
}

/// Two parts are as far apart at the service as they are with the caller.
pub proof fn uploads_keep_their_distance<C, O, B, E>(
    writer: &B2Writer<C, O>,
    upload_id: &str,
    part_number: usize,
    other_number: usize,
    size: u64,
    body: B,
    call: Call<UploadPart<'_, B>, Retrieval<StoredPart, E>>,
    other: Call<UploadPart<'_, B>, Retrieval<StoredPart, E>>,
)
    requires
        call_ensures(
            B2Writer::<C, O>::write_part::<B, E>,
            (writer, upload_id, part_number, size, body),
            call,
        ),
        call_ensures(
            B2Writer::<C, O>::write_part::<B, E>,
            (writer, upload_id, other_number, size, body),
            other,
        ),
    ensures
        other.request.part_number - call.request.part_number == other_number - part_number,
{
}

/// A large file is finished with one checksum for each part, in their order: what follows the mark
/// in the etag of the part, and nothing for a part whose etag does not start with the mark.
pub proof fn file_is_finished_with_what_its_etags_hold<C, O, E>(
    writer: &B2Writer<C, O>,
    upload_id: &str,
    parts: &[MultipartUploadPart],
    call: Call<FinishLargeFile<'_>, Acknowledgement<E>>,
)
    requires
        call_ensures(B2Writer::<C, O>::complete_part::<E>, (writer, upload_id, parts), call),
    ensures
        call.request.upload_id@ == upload_id@,
        call.request.part_sha1_array@.len() == parts@.len(),
        forall|i: int, sha1: Seq<char>|
            0 <= i < parts@.len() && #[trigger] parts@[i].etag@ == #[trigger] ("unverified:"@
                + sha1) ==> call.request.part_sha1_array@[i]@ == sha1,
        forall|i: int|
            0 <= i < parts@.len() && !"unverified:"@.is_prefix_of(#[trigger] parts@[i].etag@)
                ==> call.request.part_sha1_array@[i]@.len() == 0,
        call.exchange == Acknowledgement::<E>::Sent,
{
    let sha1s = call.request.part_sha1_array;
    assert forall|i: int, sha1: Seq<char>|
        0 <= i < parts@.len() && #[trigger] parts@[i].etag@ == #[trigger] ("unverified:"@
            + sha1) implies sha1s@[i]@ == sha1 by {
        let mark = "unverified:"@;
        assert(mark.is_prefix_of(parts@[i].etag@));
        assert(parts@[i].etag@ == mark + sha1s@[i]@);
        assert(parts@[i].etag@.skip(mark.len() as int) =~= sha1);
        assert(parts@[i].etag@.skip(mark.len() as int) =~= sha1s@[i]@);
    }
    assert forall|i: int|
        0 <= i < parts@.len() && !"unverified:"@.is_prefix_of(
            #[trigger] parts@[i].etag@,
        ) implies sha1s@[i]@.len() == 0 by {
        let _ = sha1s@[i]@;
    }
}

/// A single etag gives what a file is finished with for a part that bears it.
pub proof fn etag_gives_what_follows_its_mark(etag: &str, found: String)
    requires
        call_ensures(part::etag_sha1, (etag,), found),
    ensures
        forall|sha1: Seq<char>|
            etag@ == #[trigger] ("unverified:"@ + sha1) ==> found@ == sha1,
        !"unverified:"@.is_prefix_of(etag@) ==> found@.len() == 0,
{
    assert forall|sha1: Seq<char>| etag@ == #[trigger] ("unverified:"@ + sha1) implies found@
        == sha1 by {
        let mark = "unverified:"@;
        assert(mark.is_prefix_of(etag@));
        assert(etag@.skip(mark.len() as int) =~= sha1);
        assert(etag@.skip(mark.len() as int) =~= found@);
    }
}

/// A writer sends what it is given where it was made to write, with the options it was made with,
/// through the core it was made with; and it returns once the service has accepted.
pub proof fn file_is_written_as_asked<C, O, B, E>(
    core: Arc<C>,
    path: &str,
    op: O,
    writer: &B2Writer<C, O>,
    through: &Arc<C>,
    size: u64,
    body: B,
    call: Call<UploadFile<'_, O, B>, Acknowledgement<E>>,
    start: Call<StartLargeFile<'_, O>, Retrieval<FileId, E>>,
    replied: Acknowledgement<E>,
    consumed: Result<(), E>,
    done: Acknowledgement<E>,
)
    requires
        call_ensures(B2Writer::<C, O>::new, (core, path, op), *writer),
        call_ensures(B2Writer::<C, O>::get_core, (writer,), through),
        call_ensures(B2Writer::<C, O>::write_once::<B, E>, (writer, size, body), call),
        call_ensures(B2Writer::<C, O>::initiate_part::<E>, (writer,), start),
        call_ensures(
            Acknowledgement::<E>::next,
            (call.exchange, AcknowledgementEvent::<E>::Replied(Ok(200))),
            replied,
        ),
        call_ensures(
            Acknowledgement::<E>::next,
            (replied, AcknowledgementEvent::<E>::Consumed(consumed)),
            done,
        ),
    ensures
        *through == core,
        call.request.path@ == path@,
        call.request.size == Some(size),
        *call.request.op == op,
        call.request.body == body,
        start.request.path@ == path@,
        *start.request.op == op,
        done == Acknowledgement::<E>::Done(consumed),
{
}

/// Giving a large file up asks for that file and ends as any wait for consent does.
pub proof fn file_is_given_up<C, O, E>(
    writer: &B2Writer<C, O>,
    upload_id: &str,
    call: Call<CancelLargeFile<'_>, Acknowledgement<E>>,
    status: u16,
    replied: Acknowledgement<E>,
    consumed: Result<(), E>,
    after_consumed: Acknowledgement<E>,
    error: E,
    after_parsed: Acknowledgement<E>,
)
    requires
        call_ensures(B2Writer::<C, O>::abort_part::<E>, (writer, upload_id), call),
        call_ensures(
            Acknowledgement::<E>::next,
            (call.exchange, AcknowledgementEvent::<E>::Replied(Ok(status))),
            replied,
        ),
        call_ensures(
            Acknowledgement::<E>::next,
            (replied, AcknowledgementEvent::<E>::Consumed(consumed)),
            after_consumed,
        ),
        call_ensures(
            Acknowledgement::<E>::next,
            (replied, AcknowledgementEvent::<E>::ErrorParsed(Ok(error))),
            after_parsed,
        ),
    ensures
        call.request.upload_id@ == upload_id@,
        status == 200 ==> after_consumed == Acknowledgement::<E>::Done(consumed),
        status != 200 ==> after_parsed == Acknowledgement::<E>::Done(Err(error)),
{
}

} // verus!
