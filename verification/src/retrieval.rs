//! Exchanges whose answer tells something.
//!
//! An exchange says what is to be done next, takes in how that went, and ends with the result of
//! the operation. An event that it is not waiting for leaves it as it is.

use vstd::prelude::*;

use crate::part::MultipartUploadPart;
use crate::response;
use crate::response::{StartLargeFileResponse, UploadPartResponse};

verus! {

/// What an operation makes of the body of the answer.
pub trait Receipt: Sized {
    /// What the body is decoded into.
    type Decoded;

    /// What the operation returns.
    type Output;

    /// What the operation returns for a decoded body.
    spec fn output(self, decoded: Self::Decoded) -> Self::Output;

    /// Turns the decoded body into what the operation returns.
    fn finish(self, decoded: Self::Decoded) -> (output: Self::Output)
        ensures
            output == self.output(decoded),
    ;
}

/// Returns the identifier of a large file.
pub struct FileId {}

impl Receipt for FileId {
    type Decoded = StartLargeFileResponse;

    type Output = String;

    open spec fn output(self, decoded: StartLargeFileResponse) -> String {
        decoded.file_id
    }

    fn finish(self, decoded: StartLargeFileResponse) -> (output: String)
        ensures
            output == decoded.file_id,
    {
        decoded.file_id
    }
}

/// Returns the part that was stored under `part_number`.
pub struct StoredPart {
    /// The number that the part was uploaded under.
    pub part_number: usize,
}

impl Receipt for StoredPart {
    type Decoded = UploadPartResponse;

    type Output = MultipartUploadPart;

    open spec fn output(self, decoded: UploadPartResponse) -> MultipartUploadPart {
        MultipartUploadPart { etag: decoded.content_sha1, part_number: self.part_number }
    }

    fn finish(self, decoded: UploadPartResponse) -> (output: MultipartUploadPart)
        ensures
            output.etag == decoded.content_sha1,
            output.part_number == self.part_number,
    {
        MultipartUploadPart { etag: decoded.content_sha1, part_number: self.part_number }
    }
}

/// An exchange whose answer tells something. The body of the answer is read and decoded.
pub enum Retrieval<R: Receipt, E> {
    /// The request is on its way: wait for the answer.
    Sent(R),
    /// The request was accepted: read the body of the answer.
    Read(R),
    /// The body was read: decode these bytes.
    Decode(R, Vec<u8>),
    /// The request was refused: parse the answer into an error.
    ParseError,
    /// The operation is over.
    Done(Result<R::Output, E>),
}

/// How a step of a retrieval went.
pub enum RetrievalEvent<R: Receipt, E> {
    /// The service answered with this status, or the request failed.
    Replied(Result<u16, E>),
    /// The body was read, or reading it failed.
    BodyRead(Result<Vec<u8>, E>),
    /// The body was decoded, or does not hold what it should.
    Decoded(Result<R::Decoded, E>),
    /// The answer was parsed into an error, or reading it failed.
    ErrorParsed(Result<E, E>),
}

impl<R: Receipt, E> Retrieval<R, E> {
    /// Whether `event` tells how the step went that the exchange is at.
    pub open spec fn awaits(self, event: RetrievalEvent<R, E>) -> bool {
        match self {
            Retrieval::Sent(_) => event is Replied,
            Retrieval::Read(_) => event is BodyRead,
            Retrieval::Decode(_, _) => event is Decoded,
            Retrieval::ParseError => event is ErrorParsed,
            Retrieval::Done(_) => false,
        }
    }

    /// Whether the exchange, at its step since the event at `from`, goes on with the one at `at`.
    pub open spec fn goes_on_at(
        self,
        events: Seq<RetrievalEvent<R, E>>,
        from: int,
        at: int,
    ) -> bool {
        &&& 0 <= from <= at < events.len()
        &&& self.awaits(events[at])
        &&& forall|j: int| from <= j < at ==> !self.awaits(#[trigger] events[j])
    }

    /// The exchange after `event`.
    pub open spec fn after(self, event: RetrievalEvent<R, E>) -> Self {
        if !self.awaits(event) {
            self
        } else {
            match event {
                RetrievalEvent::Replied(Err(error)) => Retrieval::Done(Err(error)),
                RetrievalEvent::Replied(Ok(status)) => if response::accepts(status) {
                    Retrieval::Read(self->Sent_0)
                } else {
                    Retrieval::ParseError
                },
                RetrievalEvent::BodyRead(Err(error)) => Retrieval::Done(Err(error)),
                RetrievalEvent::BodyRead(Ok(bytes)) => Retrieval::Decode(self->Read_0, bytes),
                RetrievalEvent::Decoded(Err(error)) => Retrieval::Done(Err(error)),
                RetrievalEvent::Decoded(Ok(decoded)) => {
                    Retrieval::Done(Ok(self->Decode_0.output(decoded)))
                },
                RetrievalEvent::ErrorParsed(parsed) => {
                    Retrieval::Done(Err(response::refusal(parsed)))
                },
            }
        }
    }

    /// The exchange after all of `events`, in their order.
    pub open spec fn after_all(self, events: Seq<RetrievalEvent<R, E>>) -> Self
        decreases events.len(),
    {
        if events.len() == 0 {
            self
        } else {
            self.after_all(events.drop_last()).after(events.last())
        }
    }

    /// How many steps the exchange can still take.
    pub open spec fn steps_left(self) -> nat {
        match self {
            Retrieval::Sent(_) => 3,
            Retrieval::Read(_) => 2,
            Retrieval::Decode(_, _) => 1,
            Retrieval::ParseError => 1,
            Retrieval::Done(_) => 0,
        }
    }

    /// Takes in how the last step went.
    pub fn next(self, event: RetrievalEvent<R, E>) -> (exchange: Self)
        ensures
            exchange == self.after(event),
    {
        match (self, event) {
            (Retrieval::Sent(_), RetrievalEvent::Replied(Err(error))) => {
                Retrieval::Done(Err(error))
            },
            (Retrieval::Sent(receipt), RetrievalEvent::Replied(Ok(status))) => {
                if response::is_status_ok(status) {
                    Retrieval::Read(receipt)
                } else {
                    Retrieval::ParseError
                }
            },
            (Retrieval::Read(_), RetrievalEvent::BodyRead(Err(error))) => {
                Retrieval::Done(Err(error))
            },
            (Retrieval::Read(receipt), RetrievalEvent::BodyRead(Ok(bytes))) => {
                Retrieval::Decode(receipt, bytes)
            },
            (Retrieval::Decode(_, _), RetrievalEvent::Decoded(Err(error))) => {
                Retrieval::Done(Err(error))
            },
            (Retrieval::Decode(receipt, _), RetrievalEvent::Decoded(Ok(decoded))) => {
                Retrieval::Done(Ok(receipt.finish(decoded)))
            },
            (Retrieval::ParseError, RetrievalEvent::ErrorParsed(Ok(error))) => {
                Retrieval::Done(Err(error))
            },
            (Retrieval::ParseError, RetrievalEvent::ErrorParsed(Err(error))) => {
                Retrieval::Done(Err(error))
            },
            (exchange, _) => exchange,
        }
    }
}

/// An exchange takes events in from the front.
proof fn retrieval_from_the_front<R: Receipt, E>(
    exchange: Retrieval<R, E>,
    events: Seq<RetrievalEvent<R, E>>,
    from: int,
)
    requires
        0 <= from < events.len(),
    ensures
        exchange.after_all(events.skip(from)) == exchange.after(events[from]).after_all(
            events.skip(from + 1),
        ),
    decreases events.len(),
{
    let rest = events.skip(from);
    let tail = events.skip(from + 1);
    if tail.len() == 0 {
        assert(exchange.after_all(rest.drop_last()) == exchange);
    } else {
        let shorter = events.drop_last();
        retrieval_from_the_front(exchange, shorter, from);
        assert(rest.drop_last() =~= shorter.skip(from));
        assert(tail.drop_last() =~= shorter.skip(from + 1));
    }
}

/// Events that an exchange is not waiting for change nothing: it stays at its step.
pub proof fn retrieval_ignores_stray_events<R: Receipt, E>(
    exchange: Retrieval<R, E>,
    events: Seq<RetrievalEvent<R, E>>,
    from: int,
)
    requires
        0 <= from <= events.len(),
        forall|j: int| from <= j < events.len() ==> !exchange.awaits(#[trigger] events[j]),
    ensures
        exchange.after_all(events.skip(from)) == exchange,
    decreases events.len() - from,
{
    if from < events.len() {
        retrieval_from_the_front(exchange, events, from);
        assert(!exchange.awaits(events[from]));
        retrieval_ignores_stray_events(exchange, events, from + 1);
    }
}

/// An exchange goes on with the first event that it is waiting for.
pub proof fn retrieval_goes_on<R: Receipt, E>(
    exchange: Retrieval<R, E>,
    events: Seq<RetrievalEvent<R, E>>,
    from: int,
    at: int,
)
    requires
        exchange.goes_on_at(events, from, at),
    ensures
        exchange.after_all(events.skip(from)) == exchange.after(events[at]).after_all(
            events.skip(at + 1),
        ),
    decreases at - from,
{
    retrieval_from_the_front(exchange, events, from);
    if from < at {
        assert(!exchange.awaits(events[from]));
        retrieval_goes_on(exchange, events, from + 1, at);
    }
}

/// Where an exchange goes on, if any of the events from `from` is one that it is waiting for.
proof fn retrieval_next_turn<R: Receipt, E>(
    exchange: Retrieval<R, E>,
    events: Seq<RetrievalEvent<R, E>>,
    from: int,
    some: int,
) -> (at: int)
    requires
        0 <= from <= some < events.len(),
        exchange.awaits(events[some]),
    ensures
        exchange.goes_on_at(events, from, at),
    decreases some - from,
{
    if exchange.awaits(events[from]) {
        from
    } else {
        retrieval_next_turn(exchange, events, from + 1, some)
    }
}

/// Every event that an exchange is waiting for brings it nearer to its end, no other event does,
/// and only at its end are no steps left.
pub proof fn retrieval_comes_to_an_end<R: Receipt, E>(
    exchange: Retrieval<R, E>,
    event: RetrievalEvent<R, E>,
)
    ensures
        exchange.awaits(event) <==> (exchange is Sent && event is Replied) || (exchange is Read
            && event is BodyRead) || (exchange is Decode && event is Decoded) || (
        exchange is ParseError && event is ErrorParsed),
        exchange.awaits(event) ==> exchange.after(event).steps_left() < exchange.steps_left(),
        !exchange.awaits(event) ==> exchange.after(event) == exchange,
        exchange.steps_left() == 0 <==> exchange is Done,
{
}

/// A request that failed ends the operation with the error it failed with, whatever comes after.
pub proof fn failed_request_retrieves_nothing<R: Receipt, E>(
    receipt: R,
    events: Seq<RetrievalEvent<R, E>>,
    at: int,
    error: E,
)
    requires
        0 <= at < events.len(),
        forall|j: int| 0 <= j < at ==> !(#[trigger] events[j] is Replied),
        events[at] == RetrievalEvent::<R, E>::Replied(Err(error)),
    ensures
        Retrieval::<R, E>::Sent(receipt).after_all(events) == Retrieval::<R, E>::Done(Err(error)),
{
    assert(events.skip(0) =~= events);
    retrieval_goes_on(Retrieval::<R, E>::Sent(receipt), events, 0, at);
    retrieval_ignores_stray_events(Retrieval::<R, E>::Done(Err(error)), events, at + 1);
}

/// A refused request never ends well: until its answer is parsed nothing else is to be done, and
/// from then on the operation is over with the error that the parsing gave.
pub proof fn refused_request_retrieves_nothing<R: Receipt, E>(
    receipt: R,
    events: Seq<RetrievalEvent<R, E>>,
    at: int,
    status: u16,
)
    requires
        0 <= at < events.len(),
        forall|j: int| 0 <= j < at ==> !(#[trigger] events[j] is Replied),
        events[at] == RetrievalEvent::<R, E>::Replied(Ok(status)),
        status != 200,
    ensures
        (forall|j: int| at < j < events.len() ==> !(#[trigger] events[j] is ErrorParsed))
            ==> Retrieval::<R, E>::Sent(receipt).after_all(events)
            == Retrieval::<R, E>::ParseError,
        forall|end: int|
            at < end < events.len() && #[trigger] events[end] is ErrorParsed && (forall|j: int|
                at < j < end ==> !(#[trigger] events[j] is ErrorParsed)) ==> Retrieval::<
                R,
                E,
            >::Sent(receipt).after_all(events) == Retrieval::<R, E>::Done(
                match events[end]->ErrorParsed_0 {
                    Ok(error) => Err(error),
                    Err(error) => Err(error),
                },
            ),
{
    let sent = Retrieval::<R, E>::Sent(receipt);
    let refused = Retrieval::<R, E>::ParseError;
    assert(events.skip(0) =~= events);
    retrieval_goes_on(sent, events, 0, at);
    if forall|j: int| at < j < events.len() ==> !(#[trigger] events[j] is ErrorParsed) {
        retrieval_ignores_stray_events(refused, events, at + 1);
    }
    assert forall|end: int|
        at < end < events.len() && #[trigger] events[end] is ErrorParsed && (forall|j: int|
            at < j < end ==> !(#[trigger] events[j] is ErrorParsed)) implies sent.after_all(events)
        == refused.after(events[end]) by {
        retrieval_goes_on(refused, events, at + 1, end);
        retrieval_ignores_stray_events(refused.after(events[end]), events, end + 1);
    }
}

/// An accepted request whose answer cannot be read ends with the error that reading it gave.
pub proof fn unread_body_retrieves_nothing<R: Receipt, E>(
    receipt: R,
    events: Seq<RetrievalEvent<R, E>>,
    at: int,
    status: u16,
    read: int,
    error: E,
)
    requires
        0 <= at < events.len(),
        forall|j: int| 0 <= j < at ==> !(#[trigger] events[j] is Replied),
        events[at] == RetrievalEvent::<R, E>::Replied(Ok(status)),
        status == 200,
        at < read < events.len(),
        forall|j: int| at < j < read ==> !(#[trigger] events[j] is BodyRead),
        events[read] == RetrievalEvent::<R, E>::BodyRead(Err(error)),
    ensures
        Retrieval::<R, E>::Sent(receipt).after_all(events) == Retrieval::<R, E>::Done(Err(error)),
{
    assert(events.skip(0) =~= events);
    retrieval_goes_on(Retrieval::<R, E>::Sent(receipt), events, 0, at);
    retrieval_goes_on(Retrieval::<R, E>::Read(receipt), events, at + 1, read);
    retrieval_ignores_stray_events(Retrieval::<R, E>::Done(Err(error)), events, read + 1);
}

/// What is decoded is what was read, and the operation ends as the decoding does: with its error,
/// or with what the receipt makes of the decoded body.
pub proof fn accepted_request_retrieves_its_answer<R: Receipt, E>(
    receipt: R,
    events: Seq<RetrievalEvent<R, E>>,
    at: int,
    status: u16,
    read: int,
    bytes: Vec<u8>,
)
    requires
        0 <= at < events.len(),
        forall|j: int| 0 <= j < at ==> !(#[trigger] events[j] is Replied),
        events[at] == RetrievalEvent::<R, E>::Replied(Ok(status)),
        status == 200,
        at < read < events.len(),
        forall|j: int| at < j < read ==> !(#[trigger] events[j] is BodyRead),
        events[read] == RetrievalEvent::<R, E>::BodyRead(Ok(bytes)),
    ensures
        (forall|j: int| read < j < events.len() ==> !(#[trigger] events[j] is Decoded))
            ==> Retrieval::<R, E>::Sent(receipt).after_all(events) == Retrieval::<R, E>::Decode(
            receipt,
            bytes,
        ),
        forall|end: int|
            read < end < events.len() && #[trigger] events[end] is Decoded && (forall|j: int|
                read < j < end ==> !(#[trigger] events[j] is Decoded))
                ==> Retrieval::<R, E>::Sent(receipt).after_all(events) == Retrieval::<R, E>::Done(
                match events[end]->Decoded_0 {
                    Ok(decoded) => Ok(receipt.output(decoded)),
                    Err(error) => Err(error),
                },
            ),
{
    let sent = Retrieval::<R, E>::Sent(receipt);
    let decode = Retrieval::<R, E>::Decode(receipt, bytes);
    assert(events.skip(0) =~= events);
    retrieval_goes_on(sent, events, 0, at);
    retrieval_goes_on(Retrieval::<R, E>::Read(receipt), events, at + 1, read);
    if forall|j: int| read < j < events.len() ==> !(#[trigger] events[j] is Decoded) {
        retrieval_ignores_stray_events(decode, events, read + 1);
    }
    assert forall|end: int|
        read < end < events.len() && #[trigger] events[end] is Decoded && (forall|j: int|
            read < j < end ==> !(#[trigger] events[j] is Decoded)) implies sent.after_all(events)
        == decode.after(events[end]) by {
        retrieval_goes_on(decode, events, read + 1, end);
        retrieval_ignores_stray_events(decode.after(events[end]), events, end + 1);
    }
}

/// Where the service accepted the request of an operation that returned something.
proof fn retrieved_after_acceptance<R: Receipt, E>(
    receipt: R,
    events: Seq<RetrievalEvent<R, E>>,
    output: R::Output,
) -> (at: int)
    requires
        Retrieval::<R, E>::Sent(receipt).after_all(events) == Retrieval::<R, E>::Done(Ok(output)),
    ensures
        Retrieval::<R, E>::Sent(receipt).goes_on_at(events, 0, at),
        events[at] == RetrievalEvent::<R, E>::Replied(Ok(200)),
        Retrieval::<R, E>::Read(receipt).after_all(events.skip(at + 1)) == Retrieval::<R, E>::Done(
            Ok(output),
        ),
{
    let sent = Retrieval::<R, E>::Sent(receipt);
    assert(events.skip(0) =~= events);
    if forall|j: int| 0 <= j < events.len() ==> !sent.awaits(#[trigger] events[j]) {
        retrieval_ignores_stray_events(sent, events, 0);
    }
    let some = choose|j: int| 0 <= j < events.len() && sent.awaits(#[trigger] events[j]);
    let at = retrieval_next_turn(sent, events, 0, some);
    retrieval_goes_on(sent, events, 0, at);
    match events[at]->Replied_0 {
        Err(error) => failed_request_retrieves_nothing(receipt, events, at, error),
        Ok(status) => {
            if status != 200 {
                let refused = Retrieval::<R, E>::ParseError;
                if forall|j: int| at < j < events.len() ==> !refused.awaits(#[trigger] events[j]) {
                    retrieval_ignores_stray_events(refused, events, at + 1);
                } else {
                    let other = choose|j: int|
                        at < j < events.len() && refused.awaits(#[trigger] events[j]);
                    let end = retrieval_next_turn(refused, events, at + 1, other);
                    retrieval_goes_on(refused, events, at + 1, end);
                    retrieval_ignores_stray_events(refused.after(events[end]), events, end + 1);
                }
            }
        },
    }
    at
}

/// Where the body of the answer was read, if the operation returns something after `from`.
proof fn retrieved_after_reading<R: Receipt, E>(
    receipt: R,
    events: Seq<RetrievalEvent<R, E>>,
    from: int,
    output: R::Output,
) -> (read: int)
    requires
        0 <= from <= events.len(),
        Retrieval::<R, E>::Read(receipt).after_all(events.skip(from)) == Retrieval::<R, E>::Done(
            Ok(output),
        ),
    ensures
        Retrieval::<R, E>::Read(receipt).goes_on_at(events, from, read),
        events[read]->BodyRead_0 is Ok,
        Retrieval::<R, E>::Decode(receipt, events[read]->BodyRead_0->Ok_0).after_all(
            events.skip(read + 1),
        ) == Retrieval::<R, E>::Done(Ok(output)),
{
    let accepted = Retrieval::<R, E>::Read(receipt);
    if forall|j: int| from <= j < events.len() ==> !accepted.awaits(#[trigger] events[j]) {
        retrieval_ignores_stray_events(accepted, events, from);
    }
    let some = choose|j: int| from <= j < events.len() && accepted.awaits(#[trigger] events[j]);
    let read = retrieval_next_turn(accepted, events, from, some);
    retrieval_goes_on(accepted, events, from, read);
    if events[read]->BodyRead_0 is Err {
        retrieval_ignores_stray_events(accepted.after(events[read]), events, read + 1);
    }
    read
}

/// An operation returns something only where the service accepted the request, the body of its
/// answer was read and was decoded after that; and it returns what the receipt makes of it.
pub proof fn retrieved_only_if_accepted<R: Receipt, E>(
    receipt: R,
    events: Seq<RetrievalEvent<R, E>>,
    output: R::Output,
) -> (turns: (int, int, int))
    requires
        Retrieval::<R, E>::Sent(receipt).after_all(events) == Retrieval::<R, E>::Done(Ok(output)),
    ensures
        Retrieval::<R, E>::Sent(receipt).goes_on_at(events, 0, turns.0),
        Retrieval::<R, E>::Read(receipt).goes_on_at(events, turns.0 + 1, turns.1),
        0 <= turns.0 < turns.1 < turns.2 < events.len(),
        forall|j: int| 0 <= j < turns.0 ==> !(#[trigger] events[j] is Replied),
        events[turns.0] == RetrievalEvent::<R, E>::Replied(Ok(200)),
        forall|j: int| turns.0 < j < turns.1 ==> !(#[trigger] events[j] is BodyRead),
        events[turns.1] is BodyRead,
        events[turns.1]->BodyRead_0 is Ok,
        forall|j: int| turns.1 < j < turns.2 ==> !(#[trigger] events[j] is Decoded),
        events[turns.2] is Decoded,
        Retrieval::<R, E>::Decode(receipt, events[turns.1]->BodyRead_0->Ok_0).goes_on_at(
            events,
            turns.1 + 1,
            turns.2,
        ),
        events[turns.2]->Decoded_0 is Ok,
        output == receipt.output(events[turns.2]->Decoded_0->Ok_0),
{
    let at = retrieved_after_acceptance(receipt, events, output);
    let read = retrieved_after_reading(receipt, events, at + 1, output);
    let decode = Retrieval::<R, E>::Decode(receipt, events[read]->BodyRead_0->Ok_0);
    if forall|j: int| read < j < events.len() ==> !decode.awaits(#[trigger] events[j]) {
        retrieval_ignores_stray_events(decode, events, read + 1);
    }
    let some = choose|j: int| read < j < events.len() && decode.awaits(#[trigger] events[j]);
    let end = retrieval_next_turn(decode, events, read + 1, some);
    retrieval_goes_on(decode, events, read + 1, end);
    retrieval_ignores_stray_events(decode.after(events[end]), events, end + 1);
    (at, read, end)
}

} // verus!
