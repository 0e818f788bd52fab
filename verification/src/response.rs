//! The value-semantics response builder: a status code (default 200), a body,
//! and the content-type implied by whichever body setter ran last.

use crate::types::{ResponseContentBody, ResponseContentType};
use vstd::prelude::*;

verus! {

/// An outgoing response under construction. Every mutating operation
/// consumes the builder and returns the new value; the builder threaded
/// through a middleware chain is always the most recently produced value.
pub struct HttpResponse {
    status_code: u16,
    content_type: ResponseContentType,
    body: ResponseContentBody,
}

impl HttpResponse {
    /// The status code.
    pub closed spec fn spec_status(&self) -> u16 {
        self.status_code
    }

    /// The implied content-type: that of the body setter that ran last.
    pub closed spec fn spec_content_type(&self) -> ResponseContentType {
        self.content_type
    }

    /// The body.
    pub closed spec fn spec_body(&self) -> ResponseContentBody {
        self.body
    }

    /// The implied content-type always agrees with the body variant.
    pub open spec fn wf(&self) -> bool {
        match self.spec_body() {
            ResponseContentBody::TEXT(_) => self.spec_content_type() == ResponseContentType::TEXT,
            ResponseContentBody::JSON(_) => self.spec_content_type() == ResponseContentType::JSON,
        }
    }

    /// A fresh builder: status 200 and an empty plain-text body.
    pub fn new() -> (r: Self)
        ensures
            r.wf(),
            r.spec_status() == 200,
            r.spec_content_type() == ResponseContentType::TEXT,
            r.spec_body() matches ResponseContentBody::TEXT(t) && t@ == Seq::<char>::empty(),
    {
        HttpResponse {
            status_code: 200,
            content_type: ResponseContentType::TEXT,
            body: ResponseContentBody::TEXT(String::new()),
        }
    }

    /// Replaces the status code, leaving the body untouched.
    pub fn status(self, code: u16) -> (r: Self)
        ensures
            r.spec_status() == code,
            r.spec_content_type() == self.spec_content_type(),
            r.spec_body() == self.spec_body(),
            r.wf() == self.wf(),
    {
        HttpResponse { status_code: code, content_type: self.content_type, body: self.body }
    }

    /// Sets the body to the given JSON value; the implied content-type
    /// becomes JSON. A later body setter wins.
    pub fn json(self, value: serde_json::Value) -> (r: Self)
        ensures
            r.wf(),
            r.spec_status() == self.spec_status(),
            r.spec_content_type() == ResponseContentType::JSON,
            r.spec_body() == ResponseContentBody::JSON(value),
    {
        HttpResponse {
            status_code: self.status_code,
            content_type: ResponseContentType::JSON,
            body: ResponseContentBody::JSON(value),
        }
    }

    /// Sets the body to the given text; the implied content-type becomes
    /// plain text. A later body setter wins.
    pub fn text(self, value: &str) -> (r: Self)
        ensures
            r.wf(),
            r.spec_status() == self.spec_status(),
            r.spec_content_type() == ResponseContentType::TEXT,
            r.spec_body() matches ResponseContentBody::TEXT(t) && t@ == value@,
    {
        HttpResponse {
            status_code: self.status_code,
            content_type: ResponseContentType::TEXT,
            body: ResponseContentBody::TEXT(value.to_owned()),
        }
    }

    /// The status code.
    pub fn get_status(&self) -> (r: u16)
        ensures
            r == self.spec_status(),
    {
        self.status_code
    }

    /// The implied content-type.
    pub fn get_content_type(&self) -> (r: ResponseContentType)
        ensures
            r == self.spec_content_type(),
    {
        self.content_type
    }

    /// The text body, when the body is plain text.
    pub fn get_text(&self) -> (r: Option<String>)
        ensures
            match self.spec_body() {
                ResponseContentBody::TEXT(t) => r matches Some(s) && s@ == t@,
                ResponseContentBody::JSON(_) => r is None,
            },
    {
        match &self.body {
            ResponseContentBody::TEXT(t) => Some(t.clone()),
            ResponseContentBody::JSON(_) => None,
        }
    }

    /// Finalizes the builder into its transport-facing parts: status code,
    /// implied content-type, and body, with no further validation.
    pub fn into_parts(self) -> (r: (u16, ResponseContentType, ResponseContentBody))
        ensures
            r.0 == self.spec_status(),
            r.1 == self.spec_content_type(),
            r.2 == self.spec_body(),
    {
        (self.status_code, self.content_type, self.body)
    }
}

} // verus!
