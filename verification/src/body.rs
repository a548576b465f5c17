//! Buffering a request body and making it readable again.
//!
//! A body stream can be read once. The hook reads it to the end into a
//! buffer, shows the observers a copy, and hands the handler a fresh payload
//! over the same bytes. Buffers and payloads are those of `bytes` (as
//! `actix_web::web` re-exports it) and `actix_http`; what is assumed of them
//! is stated here over their contents.
use actix_http::h1::Payload;
use actix_web::web::{Bytes, BytesMut};
use vstd::prelude::*;

verus! {

/// `bytes::BytesMut`, a growable byte buffer.
#[verifier::external_type_specification]
#[verifier::external_body]
pub struct ExBytesMut(actix_web::web::BytesMut);

/// `bytes::Bytes`, an immutable byte buffer.
#[verifier::external_type_specification]
#[verifier::external_body]
pub struct ExBytes(actix_web::web::Bytes);

/// `actix_http::h1::Payload`, a body stream over buffered chunks.
#[verifier::external_type_specification]
#[verifier::external_body]
pub struct ExPayload(actix_http::h1::Payload);

/// `actix_http::error::PayloadError`, what a body stream reports when it
/// cannot be read. It is carried as an opaque value.
#[verifier::external_type_specification]
#[verifier::external_body]
pub struct ExPayloadError(actix_http::error::PayloadError);

/// The bytes that a growable buffer holds.
pub uninterp spec fn buffer_bytes(buffer: BytesMut) -> Seq<u8>;

/// The bytes that an immutable buffer holds.
pub uninterp spec fn frozen_bytes(bytes: Bytes) -> Seq<u8>;

/// The bytes that a payload yields when it is read to its end.
pub uninterp spec fn payload_bytes(payload: Payload) -> Seq<u8>;

/// The payload is complete: all of its bytes are buffered in it and its end
/// has been reached, so that reading it never waits and never fails.
pub uninterp spec fn payload_complete(payload: Payload) -> bool;

/// `BytesMut::new`: an empty buffer.
pub assume_specification[ actix_web::web::BytesMut::new ]() -> (buffer: BytesMut)
    ensures
        buffer_bytes(buffer) == Seq::<u8>::empty(),
;

/// `BytesMut::extend_from_slice`: the given bytes are appended to the buffer,
/// which grows as needed.
pub assume_specification[ actix_web::web::BytesMut::extend_from_slice ](
    buffer: &mut BytesMut,
    extend: &[u8],
)
    ensures
        buffer_bytes(*final(buffer)) == buffer_bytes(*old(buffer)) + extend@,
;

/// `<BytesMut as Clone>::clone`: a new buffer made from the bytes of this one.
pub assume_specification[ <BytesMut as Clone>::clone ](buffer: &BytesMut) -> (copy: BytesMut)
    ensures
        buffer_bytes(copy) == buffer_bytes(*buffer),
;

/// `BytesMut::freeze`: the same bytes, now immutable.
pub assume_specification[ actix_web::web::BytesMut::freeze ](buffer: BytesMut) -> (bytes: Bytes)
    ensures
        frozen_bytes(bytes) == buffer_bytes(buffer),
;

/// The bytes of a body that arrived as `chunks`: the chunks one after the
/// other, in the order of their arrival.
pub open spec fn drained(chunks: Seq<Seq<u8>>) -> Seq<u8>
    decreases chunks.len(),
{
    if chunks.len() == 0 {
        Seq::empty()
    } else {
        drained(chunks.drop_last()) + chunks.last()
    }
}

/// Draining one more chunk appends it to what was drained before.
pub proof fn lemma_drained_push(chunks: Seq<Seq<u8>>, chunk: Seq<u8>)
    ensures
        drained(chunks.push(chunk)) == drained(chunks) + chunk,
{
    assert(chunks.push(chunk).drop_last() =~= chunks);
}

/// A body that arrives in one piece is that piece, and a body without chunks
/// is empty.
pub proof fn lemma_drained_whole(whole: Seq<u8>)
    ensures
        drained(seq![whole]) == whole,
        drained(Seq::<Seq<u8>>::empty()) == Seq::<u8>::empty(),
{
    lemma_drained_push(Seq::<Seq<u8>>::empty(), whole);
    assert(Seq::<Seq<u8>>::empty().push(whole) =~= seq![whole]);
    assert(Seq::<u8>::empty() + whole =~= whole);
}

/// Round trip: a body is drained from `chunks`, repackaged as a payload that
/// yields it as a single chunk, and drained again by whoever reads the
/// payload. The reader gets the bytes that arrived, all of them and in their
/// order, however they were cut into chunks.
pub proof fn lemma_replay_round_trip(chunks: Seq<Seq<u8>>)
    ensures
        drained(seq![drained(chunks)]) == drained(chunks),
{
    lemma_drained_whole(drained(chunks));
}

/// The length of a drained body is the sum of the lengths of its chunks:
/// nothing is dropped and nothing is added.
pub proof fn lemma_drained_len(chunks: Seq<Seq<u8>>)
    ensures
        drained(chunks).len() == chunks.fold_left(0nat, |sum: nat, chunk: Seq<u8>| sum + chunk.len()),
    decreases chunks.len(),
{
    if chunks.len() > 0 {
        lemma_drained_len(chunks.drop_last());
    }
}

/// Converts bytes to a payload stream.
///
/// The payload is made by `actix_http::h1::Payload::create` in the state
/// "end of stream reached", and the bytes are put back at its front with
/// `unread_data`. Reading it yields these bytes as one chunk and then the
/// end, without waiting for anything and without an error: nothing is left
/// that could feed it or fail it. `actix_http::Payload::from` turns the
/// result into the payload that a request carries.
#[verifier::external_body]
pub fn get_payload(bytes: Bytes) -> (payload: Payload)
    ensures
        payload_bytes(payload) == frozen_bytes(bytes),
        payload_complete(payload),
{
    let mut repack_payload = actix_http::h1::Payload::create(true);
    repack_payload.1.unread_data(bytes);
    repack_payload.1
}

/// A buffered body, once for the observers and once for the handler.
pub struct Repackaged {
    /// The copy that observers are shown.
    pub observed: BytesMut,
    /// The payload to attach to the request in place of the one consumed.
    pub payload: Payload,
}

/// Splits a fully buffered body in two: a copy for the observers and a
/// complete payload from which the handler reads the same bytes.
pub fn repackage(body: BytesMut) -> (both: Repackaged)
    ensures
        buffer_bytes(both.observed) == buffer_bytes(body),
        payload_bytes(both.payload) == buffer_bytes(body),
        payload_complete(both.payload),
{
    let observed = body.clone();
    let payload = get_payload(body.freeze());
    Repackaged { observed, payload }
}

} // verus!
