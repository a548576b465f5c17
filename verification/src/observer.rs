//! [`Observer`] trait, the data that observers are handed, and the registry
//! that notifies them.
//!
//! For one event the registry calls every registered observer once, in
//! registration order, each with the same data. The calls themselves are
//! not something the verifier can see: an observer is a trait object of the
//! user's, and what it does with a notification is its own business. So the
//! fan-out functions keep a record beside the calls, a ghost sequence with
//! one [`Notice`] for each call as the loop makes it, and return it. What
//! is proved is that this record lists every observer once, in registration
//! order, with the data that was built for it. That nothing else is called,
//! and nothing left out, is read off the two loops, where each call stands
//! next to the line that records it. The record costs nothing at run time.
use crate::body::buffer_bytes;
use crate::ident::RequestId;
use actix_web::dev::ServiceRequest;
use actix_web::http::StatusCode;
use actix_web::web::BytesMut;
use std::rc::Rc;
use std::time::Duration;
use vstd::prelude::*;

verus! {

/// Request start arguments container
///
/// # Properties
///
/// * `req` - borrowed ServiceRequest.
/// * `request_id` - unique identifier of a request, identifies connection between request start and end.
/// * `uri` - uri of request.
/// * `method` - http method of request.
/// * `body` - the request body, read to its end.
pub struct RequestStartData<'l> {
    pub req: &'l ServiceRequest,
    pub request_id: RequestId,
    pub uri: String,
    pub method: String,
    pub body: BytesMut,
}

/// Request end arguments container
///
/// # Properties
///
/// * `request_id` - unique identifier of a request, identifies connection between request start and end.
/// * `elapsed` - elapsed time between request start and end hook.
/// * `uri` - uri of request.
/// * `method` - http method of request.
/// * `status` - http status code of response.
pub struct RequestEndData {
    pub request_id: RequestId,
    pub elapsed: Duration,
    pub uri: String,
    pub method: String,
    pub status: StatusCode,
}

/// What a start notification says.
pub struct StartRecord {
    pub req: ServiceRequest,
    pub request_id: u128,
    pub uri: Seq<char>,
    pub method: Seq<char>,
    pub body: Seq<u8>,
}

/// What an end notification says.
pub struct EndRecord {
    pub request_id: u128,
    pub elapsed: Duration,
    pub uri: Seq<char>,
    pub method: Seq<char>,
    pub status: StatusCode,
}

impl<'l> View for RequestStartData<'l> {
    type V = StartRecord;

    open spec fn view(&self) -> StartRecord {
        StartRecord {
            req: *self.req,
            request_id: self.request_id.bits(),
            uri: self.uri@,
            method: self.method@,
            body: buffer_bytes(self.body),
        }
    }
}

impl View for RequestEndData {
    type V = EndRecord;

    open spec fn view(&self) -> EndRecord {
        EndRecord {
            request_id: self.request_id.bits(),
            elapsed: self.elapsed,
            uri: self.uri@,
            method: self.method@,
            status: self.status,
        }
    }
}

/// An Observer is notified before a request is passed for processing, and
/// after processing into a response. Nothing is asked of an implementation
/// and nothing is assumed of it.
pub trait Observer {
    /// Fired before handler call. See [RequestStartData] for available arguments.
    fn on_request_started(&self, data: RequestStartData);

    /// Fired after handler call. See [RequestEndData] for available arguments.
    fn on_request_ended(&self, data: RequestEndData);
}

/// The two points of a request's life at which observers are notified.
pub enum Event {
    Started(StartRecord),
    Ended(EndRecord),
}

/// One call of one observer: the observer's position in registration order,
/// and what it was told.
pub struct Notice {
    pub observer: int,
    pub event: Event,
}

/// The notices of one fan-out of `event` to `count` observers: one for each
/// observer, in registration order.
pub open spec fn fan_out(count: nat, event: Event) -> Seq<Notice> {
    Seq::new(count, |i: int| Notice { observer: i, event })
}

/// The record of a fan-out names each observer exactly once: the observer
/// at position `k` is the subject of the notice at position `k` and of no
/// other, and every notice carries the same event. So the record lists the
/// observers in registration order, as many notices as there are observers.
pub proof fn lemma_fan_out_once_each(count: nat, event: Event, k: int)
    requires
        0 <= k < count,
    ensures
        fan_out(count, event).len() == count,
        fan_out(count, event)[k] == (Notice { observer: k, event }),
        forall|i: int|
            0 <= i < count && (#[trigger] fan_out(count, event)[i]).observer == k ==> i == k,
        forall|i: int, j: int|
            0 <= i < j < count ==> (#[trigger] fan_out(count, event)[i]).observer < (
            #[trigger] fan_out(count, event)[j]).observer,
{
}

/// With no observer registered, the record of a fan-out is empty.
pub proof fn lemma_fan_out_none(event: Event)
    ensures
        fan_out(0, event) == Seq::<Notice>::empty(),
{
    assert(fan_out(0, event) =~= Seq::<Notice>::empty());
}

/// `<Rc<T> as Clone>::clone`: another handle to the same value.
#[verifier::external_body]
pub(crate) fn share<T: ?Sized>(handle: &Rc<T>) -> (other: Rc<T>)
    ensures
        other == handle,
{
    Rc::clone(handle)
}

/// A vector of `item` alone. A trait object is moved through this on its way
/// into a collection: the type of the vector follows from the item, so that
/// nothing is converted from one trait-object type to another.
pub(crate) fn alone<T>(item: T) -> (list: Vec<T>)
    ensures
        list@.len() == 1,
        list@[0] == item,
{
    let mut list = Vec::new();
    list.push(item);
    list
}

/// The observers, in the order in which they were registered.
pub struct Registry {
    observers: Vec<Rc<dyn Observer>>,
}

impl Registry {
    /// The registered observers, in registration order.
    pub closed spec fn observers(&self) -> Seq<Rc<dyn Observer>> {
        self.observers@
    }

    /// A registry without observers.
    pub fn new() -> (registry: Self)
        ensures
            registry.observers().len() == 0,
    {
        Registry { observers: Vec::new() }
    }

    /// The number of registered observers.
    pub fn len(&self) -> (count: usize)
        ensures
            count == self.observers().len(),
    {
        self.observers.len()
    }

    /// Registers `observer` after those already registered.
    pub fn register(&mut self, observer: Rc<dyn Observer>)
        ensures
            final(self).observers().len() == old(self).observers().len() + 1,
            final(self).observers().drop_last() == old(self).observers(),
            final(self).observers().last() == observer,
    {
        let mut last = alone(observer);
        self.extend(&mut last);
        assert(self.observers@.drop_last() =~= old(self).observers@);
    }

    /// Registers the observers of `more`, in their order, after those already
    /// registered, and leaves `more` empty.
    pub fn extend(&mut self, more: &mut Vec<Rc<dyn Observer>>)
        ensures
            final(self).observers() == old(self).observers() + old(more)@,
            final(more)@.len() == 0,
    {
        self.observers.append(more);
    }

    /// A second registry that shares the same observers, in the same order.
    pub fn duplicate(&self) -> (copy: Self)
        ensures
            copy.observers() == self.observers(),
    {
        let mut observers = Vec::new();
        let mut i: usize = 0;
        while i < self.observers.len()
            invariant
                i <= self.observers@.len(),
                observers@ == self.observers@.take(i as int),
            decreases self.observers@.len() - i,
        {
            observers.push(share(&self.observers[i]));
            assert(observers@ =~= self.observers@.take(i + 1));
            i += 1;
        }
        assert(observers@ =~= self.observers@);
        Registry { observers }
    }

    /// Tells every observer, in registration order, that a request has
    /// started. Each observer gets data of its own, equal to that of the
    /// others: the request, the identifier, the URI, the method and a copy of
    /// the buffered body. The record that is returned is kept beside the
    /// calls: each turn of the loop builds the data, calls one observer and
    /// adds one notice.
    pub fn notify_started(
        &self,
        req: &ServiceRequest,
        request_id: RequestId,
        uri: &String,
        method: &String,
        body: &BytesMut,
    ) -> (notices: Ghost<Seq<Notice>>)
        ensures
            notices@ == fan_out(
                self.observers().len(),
                Event::Started(
                    StartRecord {
                        req: *req,
                        request_id: request_id.bits(),
                        uri: uri@,
                        method: method@,
                        body: buffer_bytes(*body),
                    },
                ),
            ),
    {
        let ghost event = Event::Started(
            StartRecord {
                req: *req,
                request_id: request_id.bits(),
                uri: uri@,
                method: method@,
                body: buffer_bytes(*body),
            },
        );
        let ghost mut told: Seq<Notice> = Seq::empty();
        let mut i: usize = 0;
        while i < self.observers.len()
            invariant
                i <= self.observers@.len(),
                told == fan_out(i as nat, event),
                event == Event::Started(
                    StartRecord {
                        req: *req,
                        request_id: request_id.bits(),
                        uri: uri@,
                        method: method@,
                        body: buffer_bytes(*body),
                    },
                ),
            decreases self.observers@.len() - i,
        {
            let data = RequestStartData {
                req,
                request_id,
                uri: uri.clone(),
                method: method.clone(),
                body: body.clone(),
            };
            assert(Event::Started(data@) == event);
            self.observers[i].on_request_started(data);
            proof {
                told = told.push(Notice { observer: i as int, event });
                assert(told =~= fan_out((i + 1) as nat, event));
            }
            i += 1;
        }
        Ghost(told)
    }

    /// Tells every observer, in registration order, that a request has
    /// ended. Each observer gets data of its own, equal to that of the
    /// others. The record that is returned is kept beside the calls, as in
    /// [`Registry::notify_started`].
    pub fn notify_ended(
        &self,
        request_id: RequestId,
        elapsed: Duration,
        uri: &String,
        method: &String,
        status: StatusCode,
    ) -> (notices: Ghost<Seq<Notice>>)
        ensures
            notices@ == fan_out(
                self.observers().len(),
                Event::Ended(
                    EndRecord {
                        request_id: request_id.bits(),
                        elapsed,
                        uri: uri@,
                        method: method@,
                        status,
                    },
                ),
            ),
    {
        let ghost event = Event::Ended(
            EndRecord { request_id: request_id.bits(), elapsed, uri: uri@, method: method@, status },
        );
        let ghost mut told: Seq<Notice> = Seq::empty();
        let mut i: usize = 0;
        while i < self.observers.len()
            invariant
                i <= self.observers@.len(),
                told == fan_out(i as nat, event),
                event == Event::Ended(
                    EndRecord {
                        request_id: request_id.bits(),
                        elapsed,
                        uri: uri@,
                        method: method@,
                        status,
                    },
                ),
            decreases self.observers@.len() - i,
        {
            let data = RequestEndData {
                request_id,
                elapsed,
                uri: uri.clone(),
                method: method.clone(),
                status,
            };
            assert(Event::Ended(data@) == event);
            self.observers[i].on_request_ended(data);
            proof {
                told = told.push(Notice { observer: i as int, event });
                assert(told =~= fan_out((i + 1) as nat, event));
            }
            i += 1;
        }
        Ghost(told)
    }
}

} // verus!
