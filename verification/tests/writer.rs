use std::sync::Arc;

use b2_writer::acknowledgement::{Acknowledgement, AcknowledgementEvent};
use b2_writer::part::{etag_sha1, part_sha1_array, MultipartUploadPart};
use b2_writer::response::{StartLargeFileResponse, UploadPartResponse};
use b2_writer::retrieval::{FileId, Receipt, Retrieval, RetrievalEvent, StoredPart};
use b2_writer::writer::B2Writer;

type Error = &'static str;

fn writer() -> B2Writer<&'static str, &'static str> {
    B2Writer::new(Arc::new("service"), "dir/file.txt", "text/plain")
}

fn part(part_number: usize, etag: &str) -> MultipartUploadPart {
    MultipartUploadPart { part_number, etag: etag.to_string() }
}

fn acknowledged(
    exchange: Acknowledgement<Error>,
    events: Vec<AcknowledgementEvent<Error>>,
) -> Acknowledgement<Error> {
    let mut exchange = exchange;
    for event in events {
        exchange = exchange.next(event);
    }
    exchange
}

fn retrieved<R: Receipt>(
    exchange: Retrieval<R, Error>,
    events: Vec<RetrievalEvent<R, Error>>,
) -> Retrieval<R, Error> {
    let mut exchange = exchange;
    for event in events {
        exchange = exchange.next(event);
    }
    exchange
}

#[test]
fn new_keeps_the_core() {
    let core = Arc::new(7);
    let writer = B2Writer::new(core.clone(), "a", ());
    assert!(Arc::ptr_eq(writer.get_core(), &core));
}

#[test]
fn write_once_asks_for_an_upload() {
    let writer = writer();
    let call = writer.write_once::<_, Error>(11, vec![1u8, 2, 3]);
    assert_eq!(call.request.path, "dir/file.txt");
    assert_eq!(call.request.size, Some(11));
    assert_eq!(*call.request.op, "text/plain");
    assert_eq!(call.request.body, vec![1u8, 2, 3]);
    assert!(matches!(call.exchange, Acknowledgement::Sent));
}

#[test]
fn write_once_of_an_empty_file_gives_its_size() {
    let writer = writer();
    let call = writer.write_once::<_, Error>(0, ());
    assert_eq!(call.request.size, Some(0));
}

#[test]
fn write_once_succeeds_when_accepted_and_consumed() {
    let writer = writer();
    let call = writer.write_once::<_, Error>(1, ());
    let exchange = call.exchange.next(AcknowledgementEvent::Replied(Ok(200)));
    assert!(matches!(exchange, Acknowledgement::Consume));
    let exchange = exchange.next(AcknowledgementEvent::Consumed(Ok(())));
    assert!(matches!(exchange, Acknowledgement::Done(Ok(()))));
}

#[test]
fn write_once_fails_when_the_body_cannot_be_consumed() {
    let writer = writer();
    let exchange = acknowledged(
        writer.write_once(1, ()).exchange,
        vec![
            AcknowledgementEvent::Replied(Ok(200)),
            AcknowledgementEvent::Consumed(Err("cut off")),
        ],
    );
    assert!(matches!(exchange, Acknowledgement::Done(Err("cut off"))));
}

#[test]
fn failed_request_ends_with_its_error() {
    let writer = writer();
    let exchange = acknowledged(
        writer.write_once(1, ()).exchange,
        vec![
            AcknowledgementEvent::Replied(Err("no route")),
            AcknowledgementEvent::Replied(Ok(200)),
            AcknowledgementEvent::Consumed(Ok(())),
        ],
    );
    assert!(matches!(exchange, Acknowledgement::Done(Err("no route"))));
}

#[test]
fn only_status_ok_accepts() {
    for status in 0..=1000u16 {
        let exchange: Acknowledgement<Error> =
            Acknowledgement::Sent.next(AcknowledgementEvent::Replied(Ok(status)));
        if status == 200 {
            assert!(matches!(exchange, Acknowledgement::Consume));
        } else {
            assert!(matches!(exchange, Acknowledgement::ParseError));
        }
    }
    assert_eq!(http::StatusCode::OK.as_u16(), 200);
}

#[test]
fn refused_request_ends_with_the_parsed_error() {
    let exchange = acknowledged(
        Acknowledgement::Sent,
        vec![
            AcknowledgementEvent::Replied(Ok(503)),
            AcknowledgementEvent::Consumed(Ok(())),
            AcknowledgementEvent::ErrorParsed(Ok("busy")),
            AcknowledgementEvent::Consumed(Ok(())),
        ],
    );
    assert!(matches!(exchange, Acknowledgement::Done(Err("busy"))));
}

#[test]
fn refused_request_that_cannot_be_parsed_ends_with_that_error() {
    let exchange = acknowledged(
        Acknowledgement::Sent,
        vec![
            AcknowledgementEvent::Replied(Ok(201)),
            AcknowledgementEvent::ErrorParsed(Err("cut off")),
        ],
    );
    assert!(matches!(exchange, Acknowledgement::Done(Err("cut off"))));
}

#[test]
fn stray_events_leave_an_acknowledgement_as_it_is() {
    let exchange = acknowledged(
        Acknowledgement::Sent,
        vec![
            AcknowledgementEvent::Consumed(Ok(())),
            AcknowledgementEvent::ErrorParsed(Ok("busy")),
        ],
    );
    assert!(matches!(exchange, Acknowledgement::Sent));
}

#[test]
fn initiate_part_returns_the_file_id() {
    let writer = writer();
    let call = writer.initiate_part::<Error>();
    assert_eq!(call.request.path, "dir/file.txt");
    assert_eq!(*call.request.op, "text/plain");
    let exchange = call.exchange.next(RetrievalEvent::Replied(Ok(200)));
    assert!(matches!(exchange, Retrieval::Read(_)));
    let exchange = exchange.next(RetrievalEvent::BodyRead(Ok(vec![4, 5])));
    match &exchange {
        Retrieval::Decode(_, bytes) => assert_eq!(*bytes, vec![4, 5]),
        _ => panic!("the body is to be decoded"),
    }
    let response = StartLargeFileResponse { file_id: "4_z27".to_string() };
    match exchange.next(RetrievalEvent::Decoded(Ok(response))) {
        Retrieval::Done(Ok(file_id)) => assert_eq!(file_id, "4_z27"),
        _ => panic!("the operation is over"),
    }
}

#[test]
fn initiate_part_fails_with_each_step() {
    let writer = writer();
    let sent = || writer.initiate_part().exchange;
    let exchange = retrieved(sent(), vec![RetrievalEvent::Replied(Err("no route"))]);
    assert!(matches!(exchange, Retrieval::Done(Err("no route"))));
    let exchange = retrieved(
        sent(),
        vec![RetrievalEvent::Replied(Ok(200)), RetrievalEvent::BodyRead(Err("cut off"))],
    );
    assert!(matches!(exchange, Retrieval::Done(Err("cut off"))));
    let exchange = retrieved(
        sent(),
        vec![
            RetrievalEvent::Replied(Ok(200)),
            RetrievalEvent::BodyRead(Ok(Vec::new())),
            RetrievalEvent::Decoded(Err("not json")),
        ],
    );
    assert!(matches!(exchange, Retrieval::Done(Err("not json"))));
    let exchange = retrieved(
        sent(),
        vec![RetrievalEvent::Replied(Ok(401)), RetrievalEvent::ErrorParsed(Ok("denied"))],
    );
    assert!(matches!(exchange, Retrieval::Done(Err("denied"))));
    let exchange = retrieved(
        sent(),
        vec![RetrievalEvent::Replied(Ok(401)), RetrievalEvent::ErrorParsed(Err("cut off"))],
    );
    assert!(matches!(exchange, Retrieval::Done(Err("cut off"))));
}

#[test]
fn stray_events_leave_a_retrieval_as_it_is() {
    let exchange: Retrieval<FileId, Error> = retrieved(
        Retrieval::Sent(FileId {}),
        vec![
            RetrievalEvent::BodyRead(Ok(Vec::new())),
            RetrievalEvent::Decoded(Err("not json")),
            RetrievalEvent::ErrorParsed(Ok("denied")),
        ],
    );
    assert!(matches!(exchange, Retrieval::Sent(_)));
}

#[test]
fn write_part_counts_from_one() {
    let writer = writer();
    for (index, number) in [(0, 1), (1, 2), (9999, 10000), (usize::MAX - 1, usize::MAX)] {
        let call = writer.write_part::<_, Error>("id", index, 5, "body");
        assert_eq!(call.request.upload_id, "id");
        assert_eq!(call.request.part_number, number);
        assert_eq!(call.request.size, 5);
        assert_eq!(call.request.body, "body");
        assert!(matches!(call.exchange,
            Retrieval::Sent(StoredPart { part_number }) if part_number == number));
    }
}

#[test]
fn write_part_returns_the_checksum_and_the_number() {
    let writer = writer();
    let response = UploadPartResponse { content_sha1: "unverified:ab12".to_string() };
    let exchange: Retrieval<StoredPart, Error> = retrieved(
        writer.write_part("id", 2, 5, ()).exchange,
        vec![
            RetrievalEvent::Replied(Ok(200)),
            RetrievalEvent::BodyRead(Ok(vec![0])),
            RetrievalEvent::Decoded(Ok(response)),
        ],
    );
    match exchange {
        Retrieval::Done(Ok(part)) => {
            assert_eq!(part.etag, "unverified:ab12");
            assert_eq!(part.part_number, 3);
        }
        _ => panic!("the operation is over"),
    }
}

#[test]
fn complete_part_sends_the_checksums_of_the_stored_parts() {
    let writer = writer();
    let mut parts = Vec::new();
    for (index, sha1) in ["unverified:aa", "unverified:bb"].into_iter().enumerate() {
        let response = UploadPartResponse { content_sha1: sha1.to_string() };
        let exchange: Retrieval<StoredPart, Error> = retrieved(
            writer.write_part("id", index, 5, ()).exchange,
            vec![
                RetrievalEvent::Replied(Ok(200)),
                RetrievalEvent::BodyRead(Ok(Vec::new())),
                RetrievalEvent::Decoded(Ok(response)),
            ],
        );
        match exchange {
            Retrieval::Done(Ok(part)) => parts.push(part),
            _ => panic!("the operation is over"),
        }
    }
    let call = writer.complete_part::<Error>("id", &parts);
    assert_eq!(call.request.upload_id, "id");
    assert_eq!(call.request.part_sha1_array, vec!["aa", "bb"]);
    assert!(matches!(call.exchange, Acknowledgement::Sent));
}

#[test]
fn complete_part_keeps_the_order_and_ignores_the_numbers() {
    let parts = [part(3, "unverified:c"), part(1, "plain"), part(1, "unverified:a")];
    assert_eq!(part_sha1_array(&parts), vec!["c", "", "a"]);
    assert_eq!(part_sha1_array(&[]), Vec::<String>::new());
}

#[test]
fn etag_loses_exactly_one_mark() {
    assert_eq!(etag_sha1("unverified:ab12"), "ab12");
    assert_eq!(etag_sha1("unverified:unverified:ab12"), "unverified:ab12");
    assert_eq!(etag_sha1("unverified:"), "");
    assert_eq!(etag_sha1("unverified:\u{e9}\u{4e2d}"), "\u{e9}\u{4e2d}");
}

#[test]
fn etag_without_the_mark_gives_no_checksum() {
    assert_eq!(etag_sha1("ab12"), "");
    assert_eq!(etag_sha1(""), "");
    assert_eq!(etag_sha1("unverified"), "");
    assert_eq!(etag_sha1("Unverified:ab12"), "");
    assert_eq!(etag_sha1(" unverified:ab12"), "");
}

#[test]
fn abort_part_asks_to_cancel() {
    let writer = writer();
    let call = writer.abort_part("id");
    assert_eq!(call.request.upload_id, "id");
    let exchange = acknowledged(
        call.exchange,
        vec![AcknowledgementEvent::Replied(Ok(200)), AcknowledgementEvent::Consumed(Ok(()))],
    );
    assert!(matches!(exchange, Acknowledgement::Done(Ok(()))));
}
