//! Exchanges of which only the service's consent matters.
//!
//! An exchange says what is to be done next, takes in how that went, and ends with the result of
//! the operation. An event that it is not waiting for leaves it as it is.

use vstd::prelude::*;

use crate::response;

verus! {

/// An exchange of which only the service's consent matters. The body of the answer is read to its
/// end and dropped.
pub enum Acknowledgement<E> {
    /// The request is on its way: wait for the answer.
    Sent,
    /// The request was accepted: consume the body of the answer.
    Consume,
    /// The request was refused: parse the answer into an error.
    ParseError,
    /// The operation is over.
    Done(Result<(), E>),
}

/// How a step of an acknowledgement went.
pub enum AcknowledgementEvent<E> {
    /// The service answered with this status, or the request failed.
    Replied(Result<u16, E>),
    /// The body was consumed, or reading it failed.
    Consumed(Result<(), E>),
    /// The answer was parsed into an error, or reading it failed.
    ErrorParsed(Result<E, E>),
}

impl<E> Acknowledgement<E> {
    /// Whether `event` tells how the step went that the exchange is at.
    pub open spec fn awaits(self, event: AcknowledgementEvent<E>) -> bool {
        match self {
            Acknowledgement::Sent => event is Replied,
            Acknowledgement::Consume => event is Consumed,
            Acknowledgement::ParseError => event is ErrorParsed,
            Acknowledgement::Done(_) => false,
        }
    }

    /// Whether the exchange, at its step since the event at `from`, goes on with the one at `at`.
    pub open spec fn goes_on_at(
        self,
        events: Seq<AcknowledgementEvent<E>>,
        from: int,
        at: int,
    ) -> bool {
        &&& 0 <= from <= at < events.len()
        &&& self.awaits(events[at])
        &&& forall|j: int| from <= j < at ==> !self.awaits(#[trigger] events[j])
    }

    /// The exchange after `event`.
    pub open spec fn after(self, event: AcknowledgementEvent<E>) -> Self {
        if !self.awaits(event) {
            self
        } else {
            match event {
                AcknowledgementEvent::Replied(Err(error)) => Acknowledgement::Done(Err(error)),
                AcknowledgementEvent::Replied(Ok(status)) => if response::accepts(status) {
                    Acknowledgement::Consume
                } else {
                    Acknowledgement::ParseError
                },
                AcknowledgementEvent::Consumed(consumed) => Acknowledgement::Done(consumed),
                AcknowledgementEvent::ErrorParsed(parsed) => {
                    Acknowledgement::Done(Err(response::refusal(parsed)))
                },
            }
        }
    }

    /// The exchange after all of `events`, in their order.
    pub open spec fn after_all(self, events: Seq<AcknowledgementEvent<E>>) -> Self
        decreases events.len(),
    {
        if events.len() == 0 {
            self
        } else {
            self.after_all(events.drop_last()).after(events.last())
        }
    }

    /// How many steps the exchange can still take.
    pub open spec fn steps_left(self) -> nat {
        match self {
            Acknowledgement::Sent => 2,
            Acknowledgement::Consume => 1,
            Acknowledgement::ParseError => 1,
            Acknowledgement::Done(_) => 0,
        }
    }

    /// Takes in how the last step went.
    pub fn next(self, event: AcknowledgementEvent<E>) -> (exchange: Self)
        ensures
            exchange == self.after(event),
    {
        match (self, event) {
            (Acknowledgement::Sent, AcknowledgementEvent::Replied(Err(error))) => {
                Acknowledgement::Done(Err(error))
            },
            (Acknowledgement::Sent, AcknowledgementEvent::Replied(Ok(status))) => {
                if response::is_status_ok(status) {
                    Acknowledgement::Consume
                } else {
                    Acknowledgement::ParseError
                }
            },
            (Acknowledgement::Consume, AcknowledgementEvent::Consumed(consumed)) => {
                Acknowledgement::Done(consumed)
            },
            (Acknowledgement::ParseError, AcknowledgementEvent::ErrorParsed(Ok(error))) => {
                Acknowledgement::Done(Err(error))
            },
            (Acknowledgement::ParseError, AcknowledgementEvent::ErrorParsed(Err(error))) => {
                Acknowledgement::Done(Err(error))
            },
            (exchange, _) => exchange,
        }
    }
}

/// An exchange takes events in from the front.
proof fn acknowledgement_from_the_front<E>(
    exchange: Acknowledgement<E>,
    events: Seq<AcknowledgementEvent<E>>,
    from: int,
)
    requires
        0 <= from < events.len(),
    ensures
        exchange.after_all(events.skip(from)) == exchange.after(events[from]).after_all(
            events.skip(from + 1),
        ),
    decreases events.len(),
{
    let rest = events.skip(from);
    let tail = events.skip(from + 1);
    if tail.len() == 0 {
        assert(exchange.after_all(rest.drop_last()) == exchange);
    } else {
        let shorter = events.drop_last();
        acknowledgement_from_the_front(exchange, shorter, from);
        assert(rest.drop_last() =~= shorter.skip(from));
        assert(tail.drop_last() =~= shorter.skip(from + 1));
    }
}

/// Events that an exchange is not waiting for change nothing: it stays at its step.
pub proof fn acknowledgement_ignores_stray_events<E>(
    exchange: Acknowledgement<E>,
    events: Seq<AcknowledgementEvent<E>>,
    from: int,
)
    requires
        0 <= from <= events.len(),
        forall|j: int| from <= j < events.len() ==> !exchange.awaits(#[trigger] events[j]),
    ensures
        exchange.after_all(events.skip(from)) == exchange,
    decreases events.len() - from,
{
    if from < events.len() {
        acknowledgement_from_the_front(exchange, events, from);
        assert(!exchange.awaits(events[from]));
        acknowledgement_ignores_stray_events(exchange, events, from + 1);
    }
}

/// An exchange goes on with the first event that it is waiting for.
pub proof fn acknowledgement_goes_on<E>(
    exchange: Acknowledgement<E>,
    events: Seq<AcknowledgementEvent<E>>,
    from: int,
    at: int,
)
    requires
        exchange.goes_on_at(events, from, at),
    ensures
        exchange.after_all(events.skip(from)) == exchange.after(events[at]).after_all(
            events.skip(at + 1),
        ),
    decreases at - from,
{
    acknowledgement_from_the_front(exchange, events, from);
    if from < at {
        assert(!exchange.awaits(events[from]));
        acknowledgement_goes_on(exchange, events, from + 1, at);
    }
}

/// Where an exchange goes on, if any of the events from `from` is one that it is waiting for.
proof fn acknowledgement_next_turn<E>(
    exchange: Acknowledgement<E>,
    events: Seq<AcknowledgementEvent<E>>,
    from: int,
    some: int,
) -> (at: int)
    requires
        0 <= from <= some < events.len(),
        exchange.awaits(events[some]),
    ensures
        exchange.goes_on_at(events, from, at),
    decreases some - from,
{
    if exchange.awaits(events[from]) {
        from
    } else {
        acknowledgement_next_turn(exchange, events, from + 1, some)
    }
}

/// Every event that an exchange is waiting for brings it nearer to its end, no other event does,
/// and only at its end are no steps left.
pub proof fn acknowledgement_comes_to_an_end<E>(
    exchange: Acknowledgement<E>,
    event: AcknowledgementEvent<E>,
)
    ensures
        exchange.awaits(event) <==> (exchange is Sent && event is Replied) || (exchange is Consume
            && event is Consumed) || (exchange is ParseError && event is ErrorParsed),
        exchange.awaits(event) ==> exchange.after(event).steps_left() < exchange.steps_left(),
        !exchange.awaits(event) ==> exchange.after(event) == exchange,
        exchange.steps_left() == 0 <==> exchange is Done,
{
}

/// A request that failed ends the operation with the error it failed with, whatever comes after.
pub proof fn failed_request_is_not_acknowledged<E>(
    events: Seq<AcknowledgementEvent<E>>,
    at: int,
    error: E,
)
    requires
        0 <= at < events.len(),
        forall|j: int| 0 <= j < at ==> !(#[trigger] events[j] is Replied),
        events[at] == AcknowledgementEvent::<E>::Replied(Err(error)),
    ensures
        Acknowledgement::<E>::Sent.after_all(events) == Acknowledgement::Done(Err(error)),
{
    assert(events.skip(0) =~= events);
    acknowledgement_goes_on(Acknowledgement::<E>::Sent, events, 0, at);
    acknowledgement_ignores_stray_events(Acknowledgement::Done(Err(error)), events, at + 1);
}

/// A refused request never ends well: until its answer is parsed nothing else is to be done, and
/// from then on the operation is over with the error that the parsing gave.
pub proof fn refused_request_is_not_acknowledged<E>(
    events: Seq<AcknowledgementEvent<E>>,
    at: int,
    status: u16,
)
    requires
        0 <= at < events.len(),
        forall|j: int| 0 <= j < at ==> !(#[trigger] events[j] is Replied),
        events[at] == AcknowledgementEvent::<E>::Replied(Ok(status)),
        status != 200,
    ensures
        (forall|j: int| at < j < events.len() ==> !(#[trigger] events[j] is ErrorParsed))
            ==> Acknowledgement::<E>::Sent.after_all(events) == Acknowledgement::<E>::ParseError,
        forall|end: int|
            at < end < events.len() && #[trigger] events[end] is ErrorParsed && (forall|j: int|
                at < j < end ==> !(#[trigger] events[j] is ErrorParsed))
                ==> Acknowledgement::<E>::Sent.after_all(events) == Acknowledgement::<E>::Done(
                match events[end]->ErrorParsed_0 {
                    Ok(error) => Err(error),
                    Err(error) => Err(error),
                },
            ),
{
    let refused = Acknowledgement::<E>::ParseError;
    assert(events.skip(0) =~= events);
    acknowledgement_goes_on(Acknowledgement::<E>::Sent, events, 0, at);
    if forall|j: int| at < j < events.len() ==> !(#[trigger] events[j] is ErrorParsed) {
        acknowledgement_ignores_stray_events(refused, events, at + 1);
    }
    assert forall|end: int|
        at < end < events.len() && #[trigger] events[end] is ErrorParsed && (forall|j: int|
            at < j < end ==> !(#[trigger] events[j] is ErrorParsed)) implies Acknowledgement::<
        E,
    >::Sent.after_all(events) == refused.after(events[end]) by {
        acknowledgement_goes_on(refused, events, at + 1, end);
        acknowledgement_ignores_stray_events(refused.after(events[end]), events, end + 1);
    }
}

/// An accepted request ends as the consuming of the answer's body does.
pub proof fn accepted_request_is_acknowledged<E>(
    events: Seq<AcknowledgementEvent<E>>,
    at: int,
    status: u16,
    end: int,
)
    requires
        0 <= at < events.len(),
        forall|j: int| 0 <= j < at ==> !(#[trigger] events[j] is Replied),
        events[at] == AcknowledgementEvent::<E>::Replied(Ok(status)),
        status == 200,
        at < end < events.len(),
        events[end] is Consumed,
        forall|j: int| at < j < end ==> !(#[trigger] events[j] is Consumed),
    ensures
        Acknowledgement::<E>::Sent.after_all(events) == Acknowledgement::Done(
            events[end]->Consumed_0,
        ),
{
    let accepted = Acknowledgement::<E>::Consume;
    assert(events.skip(0) =~= events);
    acknowledgement_goes_on(Acknowledgement::<E>::Sent, events, 0, at);
    acknowledgement_goes_on(accepted, events, at + 1, end);
    acknowledgement_ignores_stray_events(accepted.after(events[end]), events, end + 1);
}

/// Nothing makes a refused request end well.
proof fn refused_stays_refused<E>(events: Seq<AcknowledgementEvent<E>>, from: int)
    requires
        0 <= from <= events.len(),
    ensures
        Acknowledgement::<E>::ParseError.after_all(events.skip(from))
            != Acknowledgement::<E>::Done(Ok(())),
{
    let refused = Acknowledgement::<E>::ParseError;
    if forall|j: int| from <= j < events.len() ==> !refused.awaits(#[trigger] events[j]) {
        acknowledgement_ignores_stray_events(refused, events, from);
    } else {
        let some = choose|j: int| from <= j < events.len() && refused.awaits(#[trigger] events[j]);
        let end = acknowledgement_next_turn(refused, events, from, some);
        acknowledgement_goes_on(refused, events, from, end);
        acknowledgement_ignores_stray_events(refused.after(events[end]), events, end + 1);
    }
}

/// An operation ends well only where the service accepted the request and the whole body of its
/// answer was consumed after that.
pub proof fn acknowledged_only_if_accepted<E>(events: Seq<AcknowledgementEvent<E>>) -> (turns: (
    int,
    int,
))
    requires
        Acknowledgement::<E>::Sent.after_all(events) == Acknowledgement::<E>::Done(Ok(())),
    ensures
        Acknowledgement::<E>::Sent.goes_on_at(events, 0, turns.0),
        Acknowledgement::<E>::Consume.goes_on_at(events, turns.0 + 1, turns.1),
        0 <= turns.0 < turns.1 < events.len(),
        forall|j: int| 0 <= j < turns.0 ==> !(#[trigger] events[j] is Replied),
        events[turns.0] == AcknowledgementEvent::<E>::Replied(Ok(200)),
        forall|j: int| turns.0 < j < turns.1 ==> !(#[trigger] events[j] is Consumed),
        events[turns.1] == AcknowledgementEvent::<E>::Consumed(Ok(())),
{
    let sent = Acknowledgement::<E>::Sent;
    let accepted = Acknowledgement::<E>::Consume;
    assert(events.skip(0) =~= events);
    if forall|j: int| 0 <= j < events.len() ==> !sent.awaits(#[trigger] events[j]) {
        acknowledgement_ignores_stray_events(sent, events, 0);
    }
    let some = choose|j: int| 0 <= j < events.len() && sent.awaits(#[trigger] events[j]);
    let at = acknowledgement_next_turn(sent, events, 0, some);
    acknowledgement_goes_on(sent, events, 0, at);
    match events[at]->Replied_0 {
        Err(error) => failed_request_is_not_acknowledged(events, at, error),
        Ok(status) => {
            if status != 200 {
                refused_stays_refused(events, at + 1);
            }
        },
    }
    if forall|j: int| at < j < events.len() ==> !accepted.awaits(#[trigger] events[j]) {
        acknowledgement_ignores_stray_events(accepted, events, at + 1);
    }
    let other = choose|j: int| at < j < events.len() && accepted.awaits(#[trigger] events[j]);
    let end = acknowledgement_next_turn(accepted, events, at + 1, other);
    acknowledgement_goes_on(accepted, events, at + 1, end);
    acknowledgement_ignores_stray_events(accepted.after(events[end]), events, end + 1);
    (at, end)
}

} // verus!
