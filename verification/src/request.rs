//! The immutable per-request snapshot: construction from transport
//! primitives (query/cookie/header/param maps, client address, body bytes)
//! and pure accessors over the stored data.

use crate::jsonval::{clone_json_value, json_text_wf, parse_json};
use crate::kv::{assoc, KvList};
use crate::strutil::{
    contains_seq, find_char, find_char_in, kv_pairs, parse_kv_pairs, str_contains, str_trim,
    trim_spec, utf8_to_string,
};
use crate::types::{HttpMethods, HttpRequestError, RequestBodyContent, RequestBodyType};
use vstd::prelude::*;
use vstd::string::{StrSliceExecFns, StringExecFns};
use vstd::utf8::{decode_utf8, valid_utf8};

verus! {

/// Hard cap on the accumulated body size, in bytes. A request whose body
/// exceeds it is rejected with [`HttpRequestError::BodyTooLarge`] before any
/// handler runs.
pub const MAX_BODY_BYTES: usize = 262144;

/// The body of a request together with its classification. The two are set
/// together at construction and never diverge.
struct RequestBody {
    content: RequestBodyContent,
    content_type: RequestBodyType,
}

/// The view of an entry list as a sequence of key/value character pairs.
pub open spec fn entries_view(v: Seq<(String, String)>) -> Seq<(Seq<char>, Seq<char>)> {
    v.map_values(|p: (String, String)| (p.0@, p.1@))
}

/// The view of a chunk list as a sequence of byte strings.
pub open spec fn chunks_view(v: Seq<Vec<u8>>) -> Seq<Seq<u8>> {
    v.map_values(|c: Vec<u8>| c@)
}

/// The concatenation of a sequence of byte strings.
pub open spec fn concat_chunks(cs: Seq<Seq<u8>>) -> Seq<u8>
    decreases cs.len(),
{
    if cs.len() == 0 {
        Seq::empty()
    } else {
        cs[0] + concat_chunks(cs.drop_first())
    }
}

/// Accumulates body chunks into one byte string, failing with
/// [`HttpRequestError::BodyTooLarge`] as soon as the running total exceeds
/// [`MAX_BODY_BYTES`].
pub fn assemble_body(chunks: &Vec<Vec<u8>>) -> (r: Result<Vec<u8>, HttpRequestError>)
    ensures
        match r {
            Ok(b) => b@ == concat_chunks(chunks_view(chunks@)) && b@.len() <= MAX_BODY_BYTES,
            Err(e) => e == HttpRequestError::BodyTooLarge && concat_chunks(
                chunks_view(chunks@),
            ).len() > MAX_BODY_BYTES,
        },
{
    let ghost cs: Seq<Seq<u8>> = chunks_view(chunks@);
    let mut buf: Vec<u8> = Vec::new();
    let mut i: usize = 0;
    proof {
        assert(cs.skip(0) =~= cs);
        assert(buf@ + concat_chunks(cs) =~= concat_chunks(cs));
    }
    while i < chunks.len()
        invariant
            i <= chunks.len(),
            cs == chunks_view(chunks@),
            buf@.len() <= MAX_BODY_BYTES,
            buf@ + concat_chunks(cs.skip(i as int)) == concat_chunks(cs),
        decreases chunks.len() - i,
    {
        proof {
            assert(cs.skip(i as int)[0] == chunks@[i as int]@);
            assert(cs.skip(i as int).drop_first() =~= cs.skip(i + 1));
        }
        let chunk = &chunks[i];
        if chunk.len() > MAX_BODY_BYTES - buf.len() {
            proof {
                assert(concat_chunks(cs.skip(i as int)) =~= chunks@[i as int]@ + concat_chunks(
                    cs.skip(i + 1),
                ));
                assert(concat_chunks(cs).len() >= buf@.len() + chunks@[i as int]@.len());
            }
            return Err(HttpRequestError::BodyTooLarge);
        }
        let ghost buf0 = buf@;
        buf.extend_from_slice(chunk.as_slice());
        proof {
            assert(buf@ =~= buf0 + chunks@[i as int]@);
            assert(buf@ + concat_chunks(cs.skip(i + 1)) =~= concat_chunks(cs));
        }
        i += 1;
    }
    proof {
        assert(cs.skip(chunks.len() as int) =~= Seq::<Seq<u8>>::empty());
        assert(buf@ =~= concat_chunks(cs));
    }
    Ok(buf)
}

/// The classification a `content-type` header value implies: a case-sensitive
/// substring search for `application/json`, then
/// `application/x-www-form-urlencoded`, defaulting to plain text when neither
/// matches or the header is absent.
pub open spec fn classify(ct: Option<Seq<char>>) -> RequestBodyType {
    match ct {
        None => RequestBodyType::TEXT,
        Some(s) => if contains_seq(s, "application/json"@) {
            RequestBodyType::JSON
        } else if contains_seq(s, "application/x-www-form-urlencoded"@) {
            RequestBodyType::FORM
        } else {
            RequestBodyType::TEXT
        },
    }
}

/// Classifies a request's body from its stored `content-type` header.
pub fn determine_content_type(headers: &KvList) -> (r: RequestBodyType)
    ensures
        r == classify(assoc(headers@, "content-type"@)),
{
    match headers.get("content-type") {
        None => RequestBodyType::TEXT,
        Some(ct) => {
            if str_contains(ct.as_str(), "application/json") {
                RequestBodyType::JSON
            } else if str_contains(ct.as_str(), "application/x-www-form-urlencoded") {
                RequestBodyType::FORM
            } else {
                RequestBodyType::TEXT
            }
        },
    }
}

/// A request carrying no `content-type` header is classified as plain
/// text: by the construction and accessor contracts above, its text
/// accessor then returns exactly the UTF-8-decoded body bytes and its JSON
/// accessor fails with [`HttpRequestError::WrongBodyType`].
pub proof fn lemma_absent_content_type_defaults_to_text(headers: Seq<(Seq<char>, Seq<char>)>)
    requires
        assoc(headers, "content-type"@) is None,
    ensures
        classify(assoc(headers, "content-type"@)) == RequestBodyType::TEXT,
{
}

/// The text before the first comma, or all of it when no comma occurs.
pub open spec fn first_comma_segment(v: Seq<char>) -> Seq<char> {
    match find_char(v, ',') {
        None => v,
        Some(i) => v.take(i),
    }
}

/// The client IP a request reports: the first comma-separated entry of an
/// `X-Forwarded-For` value, trimmed of surrounding whitespace; otherwise the
/// transport peer address; otherwise the literal `unknown`.
pub open spec fn client_ip_spec(xff: Option<Seq<char>>, peer: Option<Seq<char>>) -> Seq<char> {
    match xff {
        Some(v) => trim_spec(first_comma_segment(v)),
        None => match peer {
            Some(p) => p,
            None => "unknown"@,
        },
    }
}

/// The view of an optional owned string.
pub open spec fn opt_str_view(s: Option<String>) -> Option<Seq<char>> {
    match s {
        Some(p) => Some(p@),
        None => None,
    }
}

/// Resolves the client IP from the stored headers and the transport-reported
/// peer address.
pub fn get_real_ip(headers: &KvList, peer: &Option<String>) -> (r: String)
    ensures
        r@ == client_ip_spec(assoc(headers@, "X-Forwarded-For"@), opt_str_view(*peer)),
{
    match headers.get("X-Forwarded-For") {
        Some(v) => {
            match find_char_in(v.as_str(), ',') {
                None => str_trim(v.as_str()),
                Some(i) => {
                    proof {
                        crate::strutil::lemma_find_char(v@, ',');
                    }
                    let head = v.as_str().substring_char(0, i);
                    proof {
                        assert(head@ =~= v@.take(i as int));
                    }
                    str_trim(head)
                },
            }
        },
        None => match peer {
            Some(p) => p.clone(),
            None => String::from_str("unknown"),
        },
    }
}

/// Everything the transport server supplies for one inbound request, as
/// plain values: the adapter converts its own request representation into
/// this bundle and hands it to [`HttpRequest::from_transport`].
pub struct TransportRequest {
    pub method: HttpMethods,
    pub path: String,
    pub origin_url: String,
    pub query_string: String,
    pub headers: Vec<(String, String)>,
    pub cookies: Vec<(String, String)>,
    pub params: Vec<(String, String)>,
    pub peer_addr: Option<String>,
    pub body_chunks: Vec<Vec<u8>>,
}

/// An immutable snapshot of one inbound HTTP request.
pub struct HttpRequest {
    params: KvList,
    queries: KvList,
    body: RequestBody,
    ip: String,
    method: HttpMethods,
    origin_url: String,
    path: String,
    headers: KvList,
    cookies: KvList,
}

impl HttpRequest {
    /// Route-pattern captures, in insertion order.
    pub closed spec fn spec_params(&self) -> Seq<(Seq<char>, Seq<char>)> {
        self.params@
    }

    /// Query pairs, in order of occurrence; lookups take the last.
    pub closed spec fn spec_queries(&self) -> Seq<(Seq<char>, Seq<char>)> {
        self.queries@
    }

    /// Headers exactly as received, no case folding.
    pub closed spec fn spec_headers(&self) -> Seq<(Seq<char>, Seq<char>)> {
        self.headers@
    }

    /// Cookie pairs; a later entry overwrites an earlier one on lookup.
    pub closed spec fn spec_cookies(&self) -> Seq<(Seq<char>, Seq<char>)> {
        self.cookies@
    }

    /// The resolved client IP.
    pub closed spec fn spec_ip(&self) -> Seq<char> {
        self.ip@
    }

    /// The request method.
    pub closed spec fn spec_method(&self) -> HttpMethods {
        self.method
    }

    /// The requested path.
    pub closed spec fn spec_path(&self) -> Seq<char> {
        self.path@
    }

    /// Path plus raw query string.
    pub closed spec fn spec_origin_url(&self) -> Seq<char> {
        self.origin_url@
    }

    /// The body's content-type classification.
    pub closed spec fn spec_body_type(&self) -> RequestBodyType {
        self.body.content_type
    }

    /// The parsed body.
    pub closed spec fn spec_body_content(&self) -> RequestBodyContent {
        self.body.content
    }

    /// The stored classification always agrees with the body variant.
    pub closed spec fn wf(&self) -> bool {
        match self.body.content {
            RequestBodyContent::TEXT(_) => self.body.content_type == RequestBodyType::TEXT,
            RequestBodyContent::JSON(_) => self.body.content_type == RequestBodyType::JSON,
            RequestBodyContent::FORM(_) => self.body.content_type == RequestBodyType::FORM,
        }
    }

    /// An empty request: no captures, queries, headers or cookies, an empty
    /// text body, and empty strings elsewhere.
    pub fn new() -> (r: Self)
        ensures
            r.wf(),
            r.spec_params() == Seq::<(Seq<char>, Seq<char>)>::empty(),
            r.spec_queries() == Seq::<(Seq<char>, Seq<char>)>::empty(),
            r.spec_headers() == Seq::<(Seq<char>, Seq<char>)>::empty(),
            r.spec_cookies() == Seq::<(Seq<char>, Seq<char>)>::empty(),
            r.spec_ip() == Seq::<char>::empty(),
            r.spec_method() == HttpMethods::GET,
            r.spec_path() == Seq::<char>::empty(),
            r.spec_origin_url() == Seq::<char>::empty(),
            r.spec_body_type() == RequestBodyType::TEXT,
            r.spec_body_content() matches RequestBodyContent::TEXT(t) && t@ == Seq::<char>::empty(),
    {
        HttpRequest {
            params: KvList::new(),
            queries: KvList::new(),
            body: RequestBody {
                content_type: RequestBodyType::TEXT,
                content: RequestBodyContent::TEXT(String::new()),
            },
            ip: String::new(),
            method: HttpMethods::GET,
            origin_url: String::new(),
            path: String::new(),
            headers: KvList::new(),
            cookies: KvList::new(),
        }
    }

    /// Builds the snapshot from transport primitives: parses the query
    /// string, stores headers, cookies and captures verbatim, resolves the
    /// client IP, classifies the body by the `content-type` header, and
    /// reads the body under the size cap, decoding it per classification.
    pub fn from_transport(t: TransportRequest) -> (r: Result<Self, HttpRequestError>)
        ensures
            ({
                let headers = entries_view(t.headers@);
                let bytes = concat_chunks(chunks_view(t.body_chunks@));
                let classification = classify(assoc(headers, "content-type"@));
                &&& (r is Ok <==> bytes.len() <= MAX_BODY_BYTES && valid_utf8(bytes) && (
                classification == RequestBodyType::JSON ==> json_text_wf(decode_utf8(bytes))))
                &&& match r {
                    Ok(req) => {
                        &&& req.wf()
                        &&& req.spec_method() == t.method
                        &&& req.spec_path() == t.path@
                        &&& req.spec_origin_url() == t.origin_url@
                        &&& req.spec_queries() == kv_pairs(t.query_string@)
                        &&& req.spec_headers() == headers
                        &&& req.spec_cookies() == entries_view(t.cookies@)
                        &&& req.spec_params() == entries_view(t.params@)
                        &&& req.spec_ip() == client_ip_spec(
                            assoc(headers, "X-Forwarded-For"@),
                            opt_str_view(t.peer_addr),
                        )
                        &&& req.spec_body_type() == classification
                        &&& match req.spec_body_content() {
                            RequestBodyContent::TEXT(s) => s@ == decode_utf8(bytes),
                            RequestBodyContent::FORM(s) => s@ == decode_utf8(bytes),
                            RequestBodyContent::JSON(_) => true,
                        }
                    },
                    Err(e) => {
                        &&& (e == HttpRequestError::BodyTooLarge <==> bytes.len()
                            > MAX_BODY_BYTES)
                        &&& (e == HttpRequestError::InvalidUtf8 <==> bytes.len()
                            <= MAX_BODY_BYTES && !valid_utf8(bytes))
                        &&& (e matches HttpRequestError::InvalidJson(_) <==> bytes.len()
                            <= MAX_BODY_BYTES && valid_utf8(bytes) && classification
                            == RequestBodyType::JSON && !json_text_wf(decode_utf8(bytes)))
                    },
                }
            }),
    {
        let queries = KvList::from_entries(parse_kv_pairs(t.query_string.as_str()));
        let headers = KvList::from_entries(t.headers);
        let cookies = KvList::from_entries(t.cookies);
        let params = KvList::from_entries(t.params);
        let ip = get_real_ip(&headers, &t.peer_addr);
        let content_type = determine_content_type(&headers);
        let bytes = match assemble_body(&t.body_chunks) {
            Ok(b) => b,
            Err(e) => {
                return Err(e);
            },
        };
        let text = match utf8_to_string(bytes) {
            Some(s) => s,
            None => {
                return Err(HttpRequestError::InvalidUtf8);
            },
        };
        let body = match content_type {
            RequestBodyType::JSON => {
                match parse_json(text.as_str()) {
                    Ok(v) => RequestBody {
                        content: RequestBodyContent::JSON(v),
                        content_type: RequestBodyType::JSON,
                    },
                    Err(m) => {
                        return Err(HttpRequestError::InvalidJson(m));
                    },
                }
            },
            RequestBodyType::FORM => RequestBody {
                content: RequestBodyContent::FORM(text),
                content_type: RequestBodyType::FORM,
            },
            RequestBodyType::TEXT => RequestBody {
                content: RequestBodyContent::TEXT(text),
                content_type: RequestBodyType::TEXT,
            },
        };
        Ok(
            HttpRequest {
                params,
                queries,
                body,
                ip,
                method: t.method,
                origin_url: t.origin_url,
                path: t.path,
                headers,
                cookies,
            },
        )
    }

    /// Runtime check of [`HttpRequest::wf`]: whether the stored
    /// classification agrees with the body variant. Every constructor and
    /// mutator of this type establishes it; the check lets unverified
    /// callers guard the accessors that assume it.
    pub fn is_well_formed(&self) -> (r: bool)
        ensures
            r == self.wf(),
    {
        match &self.body.content {
            RequestBodyContent::TEXT(_) => self.body.content_type == RequestBodyType::TEXT,
            RequestBodyContent::JSON(_) => self.body.content_type == RequestBodyType::JSON,
            RequestBodyContent::FORM(_) => self.body.content_type == RequestBodyType::FORM,
        }
    }

    /// Whether the body classification equals the given one.
    pub fn is(&self, content_type: RequestBodyType) -> (r: bool)
        ensures
            r == (self.spec_body_type() == content_type),
    {
        self.body.content_type == content_type
    }

    /// The request method's canonical name.
    pub fn get_method(&self) -> (r: String)
        ensures
            r@ == self.spec_method().name_spec(),
    {
        self.method.as_string()
    }

    /// The method itself.
    pub fn method(&self) -> (r: HttpMethods)
        ensures
            r == self.spec_method(),
    {
        self.method
    }

    /// The origin URL (path plus raw query string).
    pub fn get_origin_url(&self) -> (r: Option<String>)
        ensures
            r matches Some(u) && u@ == self.spec_origin_url(),
    {
        Some(self.origin_url.clone())
    }

    /// The value of the named cookie, if present; later writes win.
    pub fn get_cookie(&self, name: &str) -> (r: Option<String>)
        ensures
            match r {
                Some(v) => assoc(self.spec_cookies(), name@) == Some(v@),
                None => assoc(self.spec_cookies(), name@) is None,
            },
    {
        self.cookies.get(name)
    }

    /// The requested path.
    pub fn get_path(&self) -> (r: Option<String>)
        ensures
            r matches Some(p) && p@ == self.spec_path(),
    {
        Some(self.path.clone())
    }

    /// The resolved client IP.
    pub fn ip(&self) -> (r: Option<String>)
        ensures
            r matches Some(ip) && ip@ == self.spec_ip(),
    {
        Some(self.ip.clone())
    }

    /// The value of the named route capture, if present.
    pub fn get_params(&self, param_name: &str) -> (r: Option<String>)
        ensures
            match r {
                Some(v) => assoc(self.spec_params(), param_name@) == Some(v@),
                None => assoc(self.spec_params(), param_name@) is None,
            },
    {
        self.params.get(param_name)
    }

    /// The value of the named header, matched byte-exactly, if present.
    pub fn get_header(&self, header_name: &str) -> (r: Option<String>)
        ensures
            match r {
                Some(v) => assoc(self.spec_headers(), header_name@) == Some(v@),
                None => assoc(self.spec_headers(), header_name@) is None,
            },
    {
        self.headers.get(header_name)
    }

    /// The value of the named query parameter, if present; on duplicate
    /// names the last occurrence wins.
    pub fn get_query(&self, query_name: &str) -> (r: Option<String>)
        ensures
            match r {
                Some(v) => assoc(self.spec_queries(), query_name@) == Some(v@),
                None => assoc(self.spec_queries(), query_name@) is None,
            },
    {
        self.queries.get(query_name)
    }

    /// The stored JSON body. Fails with
    /// [`HttpRequestError::WrongBodyType`] when the body is not classified
    /// as JSON.
    pub fn json(&self) -> (r: Result<serde_json::Value, HttpRequestError>)
        requires
            self.wf(),
        ensures
            self.spec_body_type() == RequestBodyType::JSON ==> (r matches Ok(v)
                && self.spec_body_content() == RequestBodyContent::JSON(v)),
            self.spec_body_type() != RequestBodyType::JSON ==> r == Err::<
                serde_json::Value,
                HttpRequestError,
            >(HttpRequestError::WrongBodyType),
    {
        if self.body.content_type == RequestBodyType::JSON {
            match &self.body.content {
                RequestBodyContent::JSON(v) => Ok(clone_json_value(v)),
                _ => vstd::pervasive::unreached(),
            }
        } else {
            Err(HttpRequestError::WrongBodyType)
        }
    }

    /// The text body. Fails with [`HttpRequestError::WrongBodyType`] when
    /// the body is not classified as plain text.
    pub fn text(&self) -> (r: Result<String, HttpRequestError>)
        requires
            self.wf(),
        ensures
            self.spec_body_type() == RequestBodyType::TEXT ==> (r matches Ok(t)
                && self.spec_body_content() matches RequestBodyContent::TEXT(s) && t@ == s@),
            self.spec_body_type() != RequestBodyType::TEXT ==> r == Err::<
                String,
                HttpRequestError,
            >(HttpRequestError::WrongBodyType),
    {
        if self.body.content_type == RequestBodyType::TEXT {
            match &self.body.content {
                RequestBodyContent::TEXT(t) => Ok(t.clone()),
                _ => vstd::pervasive::unreached(),
            }
        } else {
            Err(HttpRequestError::WrongBodyType)
        }
    }

    /// The form body, split into key/value pairs on `&` and the first `=`
    /// of each segment; segments lacking an `=` are dropped silently. Fails
    /// with [`HttpRequestError::WrongBodyType`] when the body is not
    /// classified as form data.
    pub fn form_data(&self) -> (r: Result<KvList, HttpRequestError>)
        requires
            self.wf(),
        ensures
            self.spec_body_type() == RequestBodyType::FORM ==> (r matches Ok(kv)
                && self.spec_body_content() matches RequestBodyContent::FORM(raw) && kv@
                == kv_pairs(raw@)),
            self.spec_body_type() != RequestBodyType::FORM ==> r == Err::<
                KvList,
                HttpRequestError,
            >(HttpRequestError::WrongBodyType),
    {
        if self.body.content_type == RequestBodyType::FORM {
            match &self.body.content {
                RequestBodyContent::FORM(raw) => Ok(
                    KvList::from_entries(parse_kv_pairs(raw.as_str())),
                ),
                _ => vstd::pervasive::unreached(),
            }
        } else {
            Err(HttpRequestError::WrongBodyType)
        }
    }
    /// Whether two snapshots agree on method, path, origin URL and IP.
    pub open spec fn same_request_line(a: Self, b: Self) -> bool {
        a.spec_method() == b.spec_method() && a.spec_path() == b.spec_path()
            && a.spec_origin_url() == b.spec_origin_url() && a.spec_ip() == b.spec_ip()
    }

    /// Whether two snapshots agree on body classification and content.
    pub open spec fn same_body(a: Self, b: Self) -> bool {
        a.spec_body_type() == b.spec_body_type() && a.spec_body_content() == b.spec_body_content()
    }

    /// Appends a query pair; the new entry wins lookups under its key.
    /// A fixture mutator: production requests are built once, by
    /// [`HttpRequest::from_transport`], and never mutated.
    pub fn set_query(&mut self, key: &str, value: &str)
        ensures
            final(self).spec_queries() == old(self).spec_queries().push((key@, value@)),
            final(self).spec_headers() == old(self).spec_headers(),
            final(self).spec_cookies() == old(self).spec_cookies(),
            final(self).spec_params() == old(self).spec_params(),
            Self::same_request_line(*final(self), *old(self)),
            Self::same_body(*final(self), *old(self)),
    {
        self.queries.insert(key, value);
    }

    /// Appends a header pair, stored byte-exactly. A fixture mutator.
    pub fn set_header(&mut self, key: &str, value: &str)
        ensures
            final(self).spec_headers() == old(self).spec_headers().push((key@, value@)),
            final(self).spec_queries() == old(self).spec_queries(),
            final(self).spec_cookies() == old(self).spec_cookies(),
            final(self).spec_params() == old(self).spec_params(),
            Self::same_request_line(*final(self), *old(self)),
            Self::same_body(*final(self), *old(self)),
    {
        self.headers.insert(key, value);
    }

    /// Appends a cookie pair; the new entry wins lookups under its name.
    /// A fixture mutator.
    pub fn set_cookie(&mut self, key: &str, value: &str)
        ensures
            final(self).spec_cookies() == old(self).spec_cookies().push((key@, value@)),
            final(self).spec_queries() == old(self).spec_queries(),
            final(self).spec_headers() == old(self).spec_headers(),
            final(self).spec_params() == old(self).spec_params(),
            Self::same_request_line(*final(self), *old(self)),
            Self::same_body(*final(self), *old(self)),
    {
        self.cookies.insert(key, value);
    }

    /// Appends a route capture. A fixture mutator.
    pub fn set_param(&mut self, key: &str, value: &str)
        ensures
            final(self).spec_params() == old(self).spec_params().push((key@, value@)),
            final(self).spec_queries() == old(self).spec_queries(),
            final(self).spec_headers() == old(self).spec_headers(),
            final(self).spec_cookies() == old(self).spec_cookies(),
            Self::same_request_line(*final(self), *old(self)),
            Self::same_body(*final(self), *old(self)),
    {
        self.params.insert(key, value);
    }

    /// Replaces the body with the given JSON value and classifies the
    /// request as JSON. A fixture mutator.
    pub fn set_json(&mut self, json: serde_json::Value)
        ensures
            final(self).wf(),
            final(self).spec_body_type() == RequestBodyType::JSON,
            final(self).spec_body_content() == RequestBodyContent::JSON(json),
            final(self).spec_queries() == old(self).spec_queries(),
            final(self).spec_headers() == old(self).spec_headers(),
            final(self).spec_cookies() == old(self).spec_cookies(),
            final(self).spec_params() == old(self).spec_params(),
            Self::same_request_line(*final(self), *old(self)),
    {
        self.body = RequestBody {
            content_type: RequestBodyType::JSON,
            content: RequestBodyContent::JSON(json),
        };
    }

    /// Replaces the body with the given text and classifies the request as
    /// plain text. A fixture mutator.
    pub fn set_text(&mut self, text: &str)
        ensures
            final(self).wf(),
            final(self).spec_body_type() == RequestBodyType::TEXT,
            final(self).spec_body_content() matches RequestBodyContent::TEXT(t) && t@ == text@,
            final(self).spec_queries() == old(self).spec_queries(),
            final(self).spec_headers() == old(self).spec_headers(),
            final(self).spec_cookies() == old(self).spec_cookies(),
            final(self).spec_params() == old(self).spec_params(),
            Self::same_request_line(*final(self), *old(self)),
    {
        self.body = RequestBody {
            content_type: RequestBodyType::TEXT,
            content: RequestBodyContent::TEXT(text.to_owned()),
        };
    }

    /// Adds a `key=value` pair to the form body: appended after `&` when the
    /// body already holds form data, otherwise the body becomes that single
    /// pair. Classifies the request as form data. A fixture mutator.
    pub fn set_form(&mut self, key: &str, value: &str)
        ensures
            final(self).wf(),
            final(self).spec_body_type() == RequestBodyType::FORM,
            match old(self).spec_body_content() {
                RequestBodyContent::FORM(s) => final(self).spec_body_content()
                    matches RequestBodyContent::FORM(s2) && s2@ == s@ + "&"@ + key@ + "="@
                    + value@,
                _ => final(self).spec_body_content() matches RequestBodyContent::FORM(s2) && s2@
                    == key@ + "="@ + value@,
            },
            final(self).spec_queries() == old(self).spec_queries(),
            final(self).spec_headers() == old(self).spec_headers(),
            final(self).spec_cookies() == old(self).spec_cookies(),
            final(self).spec_params() == old(self).spec_params(),
            Self::same_request_line(*final(self), *old(self)),
    {
        let content = match &self.body.content {
            RequestBodyContent::FORM(existing) => {
                let mut s = existing.clone();
                s.append("&");
                s.append(key);
                s.append("=");
                s.append(value);
                RequestBodyContent::FORM(s)
            },
            _ => {
                let mut s = String::new();
                s.append(key);
                s.append("=");
                s.append(value);
                RequestBodyContent::FORM(s)
            },
        };
        self.body = RequestBody { content_type: RequestBodyType::FORM, content };
    }
}

} // verus!
