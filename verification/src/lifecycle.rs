//! The life of one request, from its arrival to its outcome.
//!
//! A request is either passed through untouched, or observed. An observed
//! request is first [`Draining`]: its body is read to the end, chunk by
//! chunk. Then the observers are told that it has started and it is
//! [`Handling`]: the handler works on it, with the buffered body to read.
//! When the handler is done the observers are told that the request has
//! ended, and the handler's outcome goes back to the server as it is.
//!
//! Reading the body and running the handler are the caller's part, since both
//! have to be waited for. Everything between is decided and done here. The
//! two states are two types, and each step consumes the state it leaves, so
//! a start notification cannot come after the handler, nor an end
//! notification without a start.
use crate::body::{buffer_bytes, payload_bytes, payload_complete, repackage};
use crate::ident::RequestId;
use crate::observer::{fan_out, EndRecord, Event, Notice, Observer, StartRecord};
use crate::Inner;
use actix_http::error::PayloadError;
use actix_http::h1::Payload;
use actix_web::dev::ServiceRequest;
use actix_web::http::StatusCode;
use actix_web::web::BytesMut;
use std::rc::Rc;
use std::time::{Duration, Instant};
use vstd::prelude::*;

verus! {

/// `std::time::Instant`, a reading of the monotonic clock.
#[verifier::external_type_specification]
#[verifier::external_body]
pub struct ExInstant(std::time::Instant);

/// `Instant::now`: the current reading of the clock. Nothing is known of it.
pub assume_specification[ std::time::Instant::now ]() -> (now: Instant)
;

/// `Instant::elapsed`: the time that has passed since the reading was taken.
/// Nothing is known of it.
pub assume_specification[ std::time::Instant::elapsed ](start: &Instant) -> (elapsed: Duration)
;

/// The body of a request could not be read to its end.
pub struct TransportError {
    /// What the body stream reported.
    pub cause: PayloadError,
}

/// How the handler finished, with the status that the server will send:
/// that of the response, or the one that the error maps to.
pub enum HandlerOutcome<T, E> {
    Responded { response: T, status: StatusCode },
    Failed { error: E, status: StatusCode },
}

impl<T, E> HandlerOutcome<T, E> {
    /// The status of either branch.
    pub open spec fn spec_status(&self) -> StatusCode {
        match self {
            HandlerOutcome::Responded { status, .. } => *status,
            HandlerOutcome::Failed { status, .. } => *status,
        }
    }

    /// The response or the error, without the status.
    pub open spec fn spec_into_result(self) -> Result<T, E> {
        match self {
            HandlerOutcome::Responded { response, .. } => Ok(response),
            HandlerOutcome::Failed { error, .. } => Err(error),
        }
    }

    /// The status of either branch.
    #[verifier::when_used_as_spec(spec_status)]
    pub fn status(&self) -> (status: StatusCode)
        ensures
            status == self.spec_status(),
    {
        match self {
            HandlerOutcome::Responded { status, .. } => *status,
            HandlerOutcome::Failed { status, .. } => *status,
        }
    }

    /// The response or the error, without the status.
    #[verifier::when_used_as_spec(spec_into_result)]
    pub fn into_result(self) -> (result: Result<T, E>)
        ensures
            result == self.spec_into_result(),
    {
        match self {
            HandlerOutcome::Responded { response, .. } => Ok(response),
            HandlerOutcome::Failed { error, .. } => Err(error),
        }
    }
}

/// The record of one observed request: the notices of the start
/// notifications, then those of the end notifications.
pub open spec fn observed_notices(observers: nat, start: StartRecord, end: EndRecord) -> Seq<
    Notice,
> {
    fan_out(observers, Event::Started(start)) + fan_out(observers, Event::Ended(end))
}

/// The identifier that a notice carries.
pub open spec fn notice_request_id(notice: Notice) -> u128 {
    match notice.event {
        Event::Started(record) => record.request_id,
        Event::Ended(record) => record.request_id,
    }
}

/// The record of an observed request with `observers` observers holds twice
/// as many notices. Each observer is named exactly twice: once with the
/// start notification, and later once with the end notification. Where the
/// two notifications carry one identifier, as those of [`Draining::start`]
/// and [`Handling::complete`] do, every notice of the request carries it.
pub proof fn lemma_one_pair_per_observer(
    observers: nat,
    start: StartRecord,
    end: EndRecord,
    k: int,
)
    requires
        0 <= k < observers,
        start.request_id == end.request_id,
    ensures
        observed_notices(observers, start, end).len() == 2 * observers,
        observed_notices(observers, start, end)[k] == (Notice {
            observer: k,
            event: Event::Started(start),
        }),
        observed_notices(observers, start, end)[observers + k] == (Notice {
            observer: k,
            event: Event::Ended(end),
        }),
        forall|i: int|
            0 <= i < 2 * observers && (#[trigger] observed_notices(
                observers,
                start,
                end,
            )[i]).observer == k ==> i == k || i == observers + k,
        forall|i: int|
            0 <= i < 2 * observers ==> notice_request_id(
                #[trigger] observed_notices(observers, start, end)[i],
            ) == start.request_id,
{
}

/// In the record of one request, every start notification comes before
/// every end notification, and within each of the two rounds the observers
/// stand in registration order.
pub proof fn lemma_notices_in_order(observers: nat, start: StartRecord, end: EndRecord)
    ensures
        forall|i: int|
            0 <= i < observers ==> (#[trigger] observed_notices(observers, start, end)[i])
                == (Notice { observer: i, event: Event::Started(start) }),
        forall|i: int|
            observers <= i < 2 * observers ==> (#[trigger] observed_notices(
                observers,
                start,
                end,
            )[i]) == (Notice { observer: i - observers, event: Event::Ended(end) }),
{
}

/// An observed request whose body is being read.
pub struct Draining {
    config: Rc<Inner>,
    started_at: Instant,
    request_id: RequestId,
    uri: String,
    method: String,
    body: BytesMut,
}

/// An observed request that the handler is working on.
pub struct Handling {
    config: Rc<Inner>,
    started_at: Instant,
    request_id: RequestId,
    uri: String,
    method: String,
}

/// What the caller does after the start notifications: attach `payload` to
/// the request, call the handler, and report the outcome to `handling`.
pub struct Dispatch {
    pub handling: Handling,
    pub payload: Payload,
    /// The notifications that were delivered.
    pub notices: Ghost<Seq<Notice>>,
}

/// What the caller does after the end notifications: return `outcome`.
pub struct Completion<T, E> {
    /// The handler's response or error, as it was reported.
    pub outcome: Result<T, E>,
    /// The time from the request's arrival to the handler's end.
    pub elapsed: Duration,
    /// The notifications that were delivered.
    pub notices: Ghost<Seq<Notice>>,
}

/// What the hook decides when a request arrives.
pub enum Admission {
    /// The request is excluded: the caller hands it to the handler as it is
    /// and returns what the handler returns. No identifier was made, no clock
    /// was read and no observer was called.
    Passthrough,
    /// The request is observed: the caller reads its body into the state.
    Observed(Draining),
}

impl Draining {
    /// The state of a request that has just arrived, with nothing read yet.
    pub(crate) fn open(
        config: Rc<Inner>,
        request_id: RequestId,
        started_at: Instant,
        uri: String,
        method: String,
    ) -> (state: Self)
        ensures
            state.observers() == config.registry.observers(),
            state.request_id() == request_id,
            state.started_at() == started_at,
            state.uri() == uri@,
            state.method() == method@,
            state.body() == Seq::<u8>::empty(),
    {
        Draining { config, started_at, request_id, uri, method, body: BytesMut::new() }
    }

    /// The observers that will be notified, in registration order.
    pub closed spec fn observers(&self) -> Seq<Rc<dyn Observer>> {
        self.config.registry.observers()
    }

    /// The request's identifier.
    pub closed spec fn request_id(&self) -> RequestId {
        self.request_id
    }

    /// The clock reading taken when the request arrived.
    pub closed spec fn started_at(&self) -> Instant {
        self.started_at
    }

    /// The request's URI.
    pub closed spec fn uri(&self) -> Seq<char> {
        self.uri@
    }

    /// The request's method.
    pub closed spec fn method(&self) -> Seq<char> {
        self.method@
    }

    /// The part of the body read so far.
    pub closed spec fn body(&self) -> Seq<u8> {
        buffer_bytes(self.body)
    }

    /// Takes the next chunk of the body: it is appended to what was read
    /// before. Nothing else changes.
    pub fn push_chunk(&mut self, chunk: &[u8])
        ensures
            final(self).body() == old(self).body() + chunk@,
            final(self).observers() == old(self).observers(),
            final(self).request_id() == old(self).request_id(),
            final(self).started_at() == old(self).started_at(),
            final(self).uri() == old(self).uri(),
            final(self).method() == old(self).method(),
    {
        self.body.extend_from_slice(chunk);
    }

    /// The body stream reported an error: the request fails here. No observer
    /// has been called for it and none will be.
    pub fn abort(self, cause: PayloadError) -> (error: TransportError)
        ensures
            error.cause == cause,
    {
        TransportError { cause }
    }

    /// The body has been read to its end. Every observer is told, in
    /// registration order, that the request has started, with the whole body;
    /// the handler's payload holds the same bytes and is complete.
    pub fn start(self, req: &ServiceRequest) -> (next: Dispatch)
        ensures
            next.notices@ == fan_out(
                self.observers().len(),
                Event::Started(
                    StartRecord {
                        req: *req,
                        request_id: self.request_id().bits(),
                        uri: self.uri(),
                        method: self.method(),
                        body: self.body(),
                    },
                ),
            ),
            payload_bytes(next.payload) == self.body(),
            payload_complete(next.payload),
            next.handling.observers() == self.observers(),
            next.handling.request_id() == self.request_id(),
            next.handling.started_at() == self.started_at(),
            next.handling.uri() == self.uri(),
            next.handling.method() == self.method(),
    {
        let Draining { config, started_at, request_id, uri, method, body } = self;
        let both = repackage(body);
        let notices = config.registry.notify_started(req, request_id, &uri, &method, &both.observed);
        Dispatch {
            handling: Handling { config, started_at, request_id, uri, method },
            payload: both.payload,
            notices,
        }
    }
}

impl Handling {
    /// The observers that will be notified, in registration order.
    pub closed spec fn observers(&self) -> Seq<Rc<dyn Observer>> {
        self.config.registry.observers()
    }

    /// The request's identifier.
    pub closed spec fn request_id(&self) -> RequestId {
        self.request_id
    }

    /// The clock reading taken when the request arrived.
    pub closed spec fn started_at(&self) -> Instant {
        self.started_at
    }

    /// The request's URI.
    pub closed spec fn uri(&self) -> Seq<char> {
        self.uri@
    }

    /// The request's method.
    pub closed spec fn method(&self) -> Seq<char> {
        self.method@
    }

    /// The handler is done and `elapsed` has passed since the request
    /// arrived. Every observer is told, in registration order, that the
    /// request has ended, with the status of the outcome, whichever it is.
    /// The outcome itself is returned as it came.
    pub fn complete_after<T, E>(self, outcome: HandlerOutcome<T, E>, elapsed: Duration) -> (done:
        Completion<T, E>)
        ensures
            done.outcome == outcome.spec_into_result(),
            done.elapsed == elapsed,
            done.notices@ == fan_out(
                self.observers().len(),
                Event::Ended(
                    EndRecord {
                        request_id: self.request_id().bits(),
                        elapsed,
                        uri: self.uri(),
                        method: self.method(),
                        status: outcome.spec_status(),
                    },
                ),
            ),
    {
        let status = outcome.status();
        let notices = self.config.registry.notify_ended(
            self.request_id,
            elapsed,
            &self.uri,
            &self.method,
            status,
        );
        Completion { outcome: outcome.into_result(), elapsed, notices }
    }

    /// The handler is done. The time since the request's arrival is read
    /// from the clock, and the rest is [`Handling::complete_after`] with
    /// that time.
    pub fn complete<T, E>(self, outcome: HandlerOutcome<T, E>) -> (done: Completion<T, E>)
        ensures
            done.outcome == outcome.spec_into_result(),
            done.notices@ == fan_out(
                self.observers().len(),
                Event::Ended(
                    EndRecord {
                        request_id: self.request_id().bits(),
                        elapsed: done.elapsed,
                        uri: self.uri(),
                        method: self.method(),
                        status: outcome.spec_status(),
                    },
                ),
            ),
    {
        let elapsed = self.started_at.elapsed();
        self.complete_after(outcome, elapsed)
    }
}

} // verus!
