//! What the hook reads from the server: the path, URI and method of a
//! request, and the status of a handler's result.
//!
//! These are values of `actix_web` and opaque to the verifier. What a request
//! reports of itself is given a name, since it depends on the request alone.
//! The status of a result has none: for an error it is whatever the error's
//! own implementation answers. The functions that decide take what was read
//! as plain arguments, and are exact.
use crate::lifecycle::HandlerOutcome;
use actix_web::dev::{ServiceRequest, ServiceResponse};
use actix_web::http::StatusCode;
use actix_web::Error;
use vstd::prelude::*;

verus! {

/// `actix_web::dev::ServiceRequest`, carried as an opaque value.
#[verifier::external_type_specification]
#[verifier::external_body]
pub struct ExServiceRequest(actix_web::dev::ServiceRequest);

/// `actix_web::http::StatusCode`, carried as an opaque value.
#[verifier::external_type_specification]
#[verifier::external_body]
pub struct ExStatusCode(actix_web::http::StatusCode);

/// `actix_web::dev::ServiceResponse`, carried as an opaque value.
#[verifier::external_type_specification]
#[verifier::external_body]
#[verifier::reject_recursive_types(B)]
pub struct ExServiceResponse<B>(actix_web::dev::ServiceResponse<B>);

/// `actix_web::Error`, carried as an opaque value.
#[verifier::external_type_specification]
#[verifier::external_body]
pub struct ExError(actix_web::Error);

/// The path of the request's URI, as `ServiceRequest::path` returns it.
pub uninterp spec fn request_path_text(req: ServiceRequest) -> Seq<char>;

/// The request's URI, as `ServiceRequest::uri` returns it, written out.
pub uninterp spec fn request_uri_text(req: ServiceRequest) -> Seq<char>;

/// The request's method, as `ServiceRequest::method` returns it, written out.
pub uninterp spec fn request_method_text(req: ServiceRequest) -> Seq<char>;

/// `ServiceRequest::path`: the path of the request's URI. It is read from
/// the request's head and depends on nothing else.
#[verifier::external_body]
pub(crate) fn request_path(req: &ServiceRequest) -> (path: &str)
    ensures
        path@ == request_path_text(*req),
{
    req.path()
}

/// `ServiceRequest::uri`, written out as a string. It is read from the
/// request's head and depends on nothing else.
#[verifier::external_body]
pub(crate) fn request_uri(req: &ServiceRequest) -> (uri: String)
    ensures
        uri@ == request_uri_text(*req),
{
    req.uri().to_string()
}

/// `ServiceRequest::method`, written out as a string. It is read from the
/// request's head and depends on nothing else.
#[verifier::external_body]
pub(crate) fn request_method(req: &ServiceRequest) -> (method: String)
    ensures
        method@ == request_method_text(*req),
{
    req.method().to_string()
}

/// `ServiceResponse::status`: the status code of the response.
#[verifier::external_body]
pub(crate) fn response_status<B>(response: &ServiceResponse<B>) -> (status: StatusCode) {
    response.status()
}

/// `Error::error_response`, of which the status is kept: the status that the
/// server sends for this error.
#[verifier::external_body]
pub(crate) fn error_status(error: &Error) -> (status: StatusCode) {
    error.error_response().status()
}

/// The outcome of a handler's result: the response with its status, or the
/// error with the status that it maps to. The result itself is kept as it
/// is.
pub fn outcome_of<B>(result: Result<ServiceResponse<B>, Error>) -> (outcome: HandlerOutcome<
    ServiceResponse<B>,
    Error,
>)
    ensures
        outcome.spec_into_result() == result,
{
    match result {
        Err(error) => {
            let status = error_status(&error);
            HandlerOutcome::Failed { error, status }
        },
        Ok(response) => {
            let status = response_status(&response);
            HandlerOutcome::Responded { response, status }
        },
    }
}

} // verus!
