//! Shared data types: methods, body classifications, body contents, and the
//! error taxonomy for request construction and body access.

use vstd::prelude::*;
use vstd::string::StringExecFns;

verus! {

/// The closed set of HTTP methods the core dispatches on.
#[allow(non_camel_case_types)]
#[derive(Clone, Copy, PartialEq, Eq, Structural, Debug, Hash)]
pub enum HttpMethods {
    GET,
    PUT,
    POST,
    DELETE,
    PATCH,
}

impl HttpMethods {
    /// The canonical upper-case name of the method.
    pub open spec fn name_spec(self) -> Seq<char> {
        match self {
            HttpMethods::GET => "GET"@,
            HttpMethods::PUT => "PUT"@,
            HttpMethods::POST => "POST"@,
            HttpMethods::DELETE => "DELETE"@,
            HttpMethods::PATCH => "PATCH"@,
        }
    }

    /// Returns the canonical name of the method as an owned string.
    pub fn as_string(&self) -> (r: String)
        ensures
            r@ == self.name_spec(),
    {
        match self {
            HttpMethods::GET => String::from_str("GET"),
            HttpMethods::PUT => String::from_str("PUT"),
            HttpMethods::POST => String::from_str("POST"),
            HttpMethods::DELETE => String::from_str("DELETE"),
            HttpMethods::PATCH => String::from_str("PATCH"),
        }
    }
}

/// Content-type classification of a request body. The tag is decided once,
/// at request construction, from the `content-type` header.
#[allow(non_camel_case_types)]
#[derive(Clone, Copy, PartialEq, Eq, Structural, Debug)]
pub enum RequestBodyType {
    JSON,
    TEXT,
    FORM,
}

/// The parsed request body. The variant always agrees with the request's
/// [`RequestBodyType`] classification: the two are set together at
/// construction and never diverge.
#[allow(non_camel_case_types)]
pub enum RequestBodyContent {
    TEXT(String),
    JSON(serde_json::Value),
    FORM(String),
}

/// Content-type of an outgoing response, implied by which body setter of the
/// response builder ran last.
#[allow(non_camel_case_types)]
#[derive(Clone, Copy, PartialEq, Eq, Structural, Debug)]
pub enum ResponseContentType {
    JSON,
    TEXT,
}

/// Body of an outgoing response.
#[allow(non_camel_case_types)]
pub enum ResponseContentBody {
    JSON(serde_json::Value),
    TEXT(String),
}

impl ResponseContentBody {
    /// Builds a plain-text response body from a string slice.
    pub fn new_text(text: &str) -> (r: Self)
        ensures
            r matches ResponseContentBody::TEXT(t) && t@ == text@,
    {
        ResponseContentBody::TEXT(text.to_owned())
    }
}

/// Failures while building a request or reading its body. Construction
/// failures (`BodyTooLarge`, `InvalidUtf8`, `InvalidJson`) reject the request
/// before any handler runs; the others are recoverable values returned to the
/// calling handler or middleware.
#[derive(Debug, PartialEq)]
pub enum HttpRequestError {
    /// The body stream exceeded the hard size cap.
    BodyTooLarge,
    /// The body bytes were not valid UTF-8 under the declared parse path.
    InvalidUtf8,
    /// A JSON-classified body failed to parse; carries the parser's message.
    InvalidJson(String),
    /// A body accessor was invoked against a mismatched classification.
    WrongBodyType,
    /// The body parsed as JSON but did not fit the requested shape.
    DeserializeFailed(String),
}

/// Failures while building a response.
#[derive(Debug, PartialEq)]
pub enum HttpResponseError {
    /// A response-construction step required a header that is absent.
    MissingHeader(String),
}

impl HttpResponseError {
    /// A human-readable description of the error.
    pub fn message(&self) -> (r: String)
        ensures
            self matches HttpResponseError::MissingHeader(h) ==> r@ == "Missing header: "@ + h@,
    {
        match self {
            HttpResponseError::MissingHeader(header) => {
                let mut m = String::from_str("Missing header: ");
                m.append(header.as_str());
                m
            },
        }
    }
}

} // verus!
