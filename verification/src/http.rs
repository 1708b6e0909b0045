//! Requests as plain data, and the rules that resolve a response to a payload or an error.

use crate::error::{BlindPayError, ErrorView};
use crate::json::{parsed_document, Json, JsonView};
use crate::types::{
    BlindPayApiResponse, BlindPayErrorResponse, BlindPaySuccessResponse, ErrorResponse,
};
use vstd::prelude::*;
use vstd::string::*;

verus! {

/// The method of a request.
#[derive(Debug, Clone, Copy, PartialEq, Eq, Structural)]
pub enum HttpMethod {
    Get,
    Post,
    Put,
    Patch,
    Delete,
}

impl HttpMethod {
    /// The method's name on the wire.
    pub open spec fn name(self) -> Seq<char> {
        match self {
            HttpMethod::Get => "GET"@,
            HttpMethod::Post => "POST"@,
            HttpMethod::Put => "PUT"@,
            HttpMethod::Patch => "PATCH"@,
            HttpMethod::Delete => "DELETE"@,
        }
    }

    /// The method's name on the wire.
    pub fn as_str(&self) -> (name: &'static str)
        ensures
            name@ == self.name(),
    {
        match self {
            HttpMethod::Get => "GET",
            HttpMethod::Post => "POST",
            HttpMethod::Put => "PUT",
            HttpMethod::Patch => "PATCH",
            HttpMethod::Delete => "DELETE",
        }
    }
}

/// One header of a request.
#[derive(Debug, PartialEq, Eq)]
pub struct Header {
    pub name: String,
    pub value: String,
}

/// One request, ready to be sent: where it goes, what it carries.
#[derive(Debug, PartialEq, Eq)]
pub struct HttpRequest {
    pub method: HttpMethod,
    pub url: String,
    pub headers: Vec<Header>,
    pub body: Option<Json>,
}

/// The mathematical value of an [`HttpRequest`].
pub struct HttpRequestView {
    pub method: HttpMethod,
    pub url: Seq<char>,
    pub headers: Seq<(Seq<char>, Seq<char>)>,
    pub body: Option<JsonView>,
}

impl View for HttpRequest {
    type V = HttpRequestView;

    open spec fn view(&self) -> HttpRequestView {
        HttpRequestView {
            method: self.method,
            url: self.url@,
            headers: Seq::new(
                self.headers@.len(),
                |i: int| (self.headers@[i].name@, self.headers@[i].value@),
            ),
            body: match self.body {
                Some(doc) => Some(doc@),
                None => None,
            },
        }
    }
}

impl Clone for Header {
    fn clone(&self) -> (copy: Self)
        ensures
            copy.name@ == self.name@,
            copy.value@ == self.value@,
    {
        Header { name: self.name.clone(), value: self.value.clone() }
    }
}

impl Clone for HttpRequest {
    /// A copy of the request, for a caller that sends it again.
    fn clone(&self) -> (copy: Self)
        ensures
            copy@ == self@,
    {
        let mut headers: Vec<Header> = Vec::new();
        let mut i: usize = 0;
        while i < self.headers.len()
            invariant
                i <= self.headers.len(),
                headers@.len() == i,
                forall|j: int|
                    0 <= j < i ==> (#[trigger] headers@[j]).name@ == self.headers@[j].name@
                        && headers@[j].value@ == self.headers@[j].value@,
            decreases self.headers.len() - i,
        {
            headers.push(self.headers[i].clone());
            i += 1;
        }
        let body = match &self.body {
            Some(doc) => Some(doc.clone()),
            None => None,
        };
        let copy = HttpRequest { method: self.method, url: self.url.clone(), headers, body };
        assert(copy@.headers =~= self@.headers);
        copy
    }
}

/// Whether a status code reports success: the codes from 200 to 299.
pub open spec fn is_success_status(status: u16) -> bool {
    200 <= status < 300
}

/// Whether the field `key` of an object is missing or null.
pub open spec fn absent_or_null(doc: JsonView, key: Seq<char>) -> bool {
    doc.field(key) is None || doc.field(key) == Some(JsonView::Null)
}

/// The message of a document of the failure shape: an object whose `data` is missing or
/// null and whose `error` is an object with a string `message`.
pub open spec fn failure_message(doc: JsonView) -> Option<Seq<char>> {
    if doc is Object && absent_or_null(doc, "data"@) {
        match doc.field("error"@) {
            Some(JsonView::Object(fields)) => match JsonView::Object(fields).field("message"@) {
                Some(JsonView::Str(message)) => Some(message),
                _ => None,
            },
            _ => None,
        }
    } else {
        None
    }
}

/// The payload of a document of the success shape: an object that has a `data` field and
/// whose `error` is missing or null.
pub open spec fn success_payload(doc: JsonView) -> Option<JsonView> {
    if doc is Object && absent_or_null(doc, "error"@) {
        doc.field("data"@)
    } else {
        None
    }
}

/// What a response comes to.
pub enum Resolution {
    /// The payload of a success.
    Payload(JsonView),
    /// The message of a failure that the server reported.
    Failure(Seq<char>),
    /// The body has neither shape.
    Undecodable,
}

/// What a status and a parsed body come to. Under a success status the success shape is
/// tried first and the failure shape second; under another status only the failure shape.
pub open spec fn resolve(status: u16, doc: JsonView) -> Resolution {
    if is_success_status(status) && success_payload(doc) is Some {
        Resolution::Payload(success_payload(doc)->Some_0)
    } else {
        match failure_message(doc) {
            Some(message) => Resolution::Failure(message),
            None => Resolution::Undecodable,
        }
    }
}

/// Whether a result is the one that a resolution asks for.
pub open spec fn delivers(outcome: Result<Json, BlindPayError>, resolution: Resolution) -> bool {
    match resolution {
        Resolution::Payload(payload) => outcome matches Ok(doc) && doc@ == payload,
        Resolution::Failure(message) => outcome matches Err(error) && error@
            == ErrorView::ApiError(message),
        Resolution::Undecodable => outcome matches Err(error) && error@ is SerializationError,
    }
}

/// No document has both shapes: one with a payload carries no failure message.
pub proof fn lemma_shapes_exclude(doc: JsonView)
    ensures
        !(success_payload(doc) is Some && failure_message(doc) is Some),
{
}

/// A success is never made up: a payload comes only under a success status, and it is
/// the `data` field of the body.
pub proof fn lemma_payload_only_on_success(status: u16, doc: JsonView)
    ensures
        resolve(status, doc) is Payload ==> is_success_status(status) && doc.field("data"@)
            == Some(resolve(status, doc)->Payload_0),
{
}

/// Whether a status code reports success.
pub fn status_is_success(status: u16) -> (ok: bool)
    ensures
        ok == is_success_status(status),
{
    200 <= status && status < 300
}

fn field_absent_or_null(document: &Json, key: &str) -> (ok: bool)
    ensures
        ok == absent_or_null(document@, key@),
{
    match document.get(key) {
        None => true,
        Some(Json::Null) => true,
        Some(_) => false,
    }
}

/// Reads a document of the failure shape.
pub fn read_failure(document: &Json) -> (found: Option<BlindPayErrorResponse>)
    ensures
        match found {
            Some(failure) => failure_message(document@) == Some(failure.error.message@)
                && failure.data is None,
            None => failure_message(document@) is None,
        },
{
    match document {
        Json::Object(_) => {},
        _ => {
            return None;
        },
    }
    if !field_absent_or_null(document, "data") {
        return None;
    }
    match document.get("error") {
        Some(inner) => match inner {
            Json::Object(_) => match inner.get("message") {
                Some(Json::Str(message)) => Some(
                    BlindPayErrorResponse {
                        data: None,
                        error: ErrorResponse { message: message.clone() },
                    },
                ),
                _ => None,
            },
            _ => None,
        },
        None => None,
    }
}

/// Reads a document of the success shape, keeping the payload as a document.
pub fn read_success(document: Json) -> (found: Option<BlindPaySuccessResponse<Json>>)
    ensures
        match found {
            Some(success) => success_payload(document@) == Some(success.data@)
                && success.error is None,
            None => success_payload(document@) is None,
        },
{
    match document {
        Json::Object(_) => {},
        _ => {
            return None;
        },
    }
    if !field_absent_or_null(&document, "error") {
        return None;
    }
    match document.into_field("data") {
        Some(data) => Some(BlindPaySuccessResponse { data, error: None }),
        None => None,
    }
}

/// Reads the envelope of a body that came under a success status: the success shape
/// where the body has it, else the failure shape. No body has both.
pub fn read_envelope(document: Json) -> (found: Option<BlindPayApiResponse<Json>>)
    ensures
        match found {
            Some(BlindPayApiResponse::Success(success)) => success_payload(document@) == Some(
                success.data@,
            ) && success.error is None,
            Some(BlindPayApiResponse::Error(failure)) => success_payload(document@) is None
                && failure_message(document@) == Some(failure.error.message@) && failure.data
                is None,
            None => success_payload(document@) is None && failure_message(document@) is None,
        },
{
    match read_failure(&document) {
        Some(failure) => {
            proof {
                lemma_shapes_exclude(document@);
            }
            Some(BlindPayApiResponse::Error(failure))
        },
        None => match read_success(document) {
            Some(success) => Some(BlindPayApiResponse::Success(success)),
            None => None,
        },
    }
}

/// Resolves a status and a parsed body to the payload or to the error that they stand
/// for.
pub fn resolve_envelope(status: u16, document: Json) -> (outcome: Result<Json, BlindPayError>)
    ensures
        delivers(outcome, resolve(status, document@)),
{
    if !status_is_success(status) {
        return match read_failure(&document) {
            Some(failure) => Err(BlindPayError::ApiError(failure.error.message)),
            None => Err(
                BlindPayError::SerializationError(
                    String::from_str("the body of the failed response holds no error message"),
                ),
            ),
        };
    }
    match read_envelope(document) {
        Some(BlindPayApiResponse::Success(success)) => Ok(success.data),
        Some(BlindPayApiResponse::Error(failure)) => Err(
            BlindPayError::ApiError(failure.error.message),
        ),
        None => Err(
            BlindPayError::SerializationError(
                String::from_str("the body has neither the success shape nor the error shape"),
            ),
        ),
    }
}

/// Resolves a received status and body. A body that is no JSON text is a
/// `SerializationError`; any other is resolved as [`resolve`] says of the document that
/// the text holds.
pub fn decode_response(status: u16, body: &str) -> (outcome: Result<Json, BlindPayError>)
    ensures
        match parsed_document(body@) {
            Some(doc) => delivers(outcome, resolve(status, doc)),
            None => outcome matches Err(error) && error@ is SerializationError,
        },
{
    match Json::parse(body) {
        Ok(document) => resolve_envelope(status, document),
        Err(error) => Err(error),
    }
}

} // verus!
