//! Responses and the shaping of their bodies.

use vstd::prelude::*;
use vstd::string::StringExecFns;

verus! {

/// The media type of a response body.
#[derive(Clone, Copy, Debug, PartialEq, Eq, Structural)]
pub enum ContentType {
    /// `text/plain`
    Plain,
    /// `application/json`
    Json,
    /// `application/xml`
    Xml,
    /// `application/octet_stream`
    OctetStream,
}

impl ContentType {
    /// The media type as it is written in a header.
    pub open spec fn mime(self) -> Seq<char> {
        match self {
            ContentType::Plain => "text/plain"@,
            ContentType::Json => "application/json"@,
            ContentType::Xml => "application/xml"@,
            ContentType::OctetStream => "application/octet_stream"@,
        }
    }

    /// The media type as it is written in a header.
    pub fn as_str(&self) -> (r: &'static str)
        ensures
            r@ == self.mime(),
    {
        match self {
            ContentType::Plain => "text/plain",
            ContentType::Json => "application/json",
            ContentType::Xml => "application/xml",
            ContentType::OctetStream => "application/octet_stream",
        }
    }
}

/// The body of a response.
#[derive(Debug, PartialEq, Eq)]
pub enum Body {
    /// Text.
    Text(String),
    /// Raw bytes.
    Bytes(Vec<u8>),
}

/// What a body holds.
pub enum BodyView {
    Text(Seq<char>),
    Bytes(Seq<u8>),
}

impl View for Body {
    type V = BodyView;

    open spec fn view(&self) -> BodyView {
        match self {
            Body::Text(s) => BodyView::Text(s@),
            Body::Bytes(b) => BodyView::Bytes(b@),
        }
    }
}

/// A response: status code, media type and body.
#[derive(Debug, PartialEq, Eq)]
pub struct Response {
    /// The status code: 200, 400 or 404.
    pub status: u16,
    /// The media type, where one is set.
    pub content_type: Option<ContentType>,
    /// The body.
    pub body: Body,
}

/// What a response holds.
pub struct ResponseView {
    pub status: int,
    pub content_type: Option<ContentType>,
    pub body: BodyView,
}

impl View for Response {
    type V = ResponseView;

    open spec fn view(&self) -> ResponseView {
        ResponseView {
            status: self.status as int,
            content_type: self.content_type,
            body: self.body@,
        }
    }
}

/// What an optional response holds.
pub open spec fn opt_response(r: Option<Response>) -> Option<ResponseView> {
    match r {
        Some(x) => Some(x@),
        None => None,
    }
}

/// A successful response with the text `body` of media type `content_type`.
pub open spec fn ok_text(content_type: ContentType, body: Seq<char>) -> ResponseView {
    ResponseView { status: 200, content_type: Some(content_type), body: BodyView::Text(body) }
}

/// A successful response with the bytes `body` as an octet stream.
pub open spec fn ok_bytes(body: Seq<u8>) -> ResponseView {
    ResponseView {
        status: 200,
        content_type: Some(ContentType::OctetStream),
        body: BodyView::Bytes(body),
    }
}

/// The response to a request for something that is not there.
pub open spec fn not_found_view() -> ResponseView {
    ResponseView { status: 404, content_type: None, body: BodyView::Text("Not Found"@) }
}

/// The response to a request whose year and date disagree.
pub open spec fn bad_request_view() -> ResponseView {
    ResponseView { status: 400, content_type: None, body: BodyView::Text("Bad request"@) }
}

/// Handles requests for what is not found: status 404.
pub fn not_found() -> (r: Response)
    ensures
        r@ == not_found_view(),
{
    Response { status: 404, content_type: None, body: Body::Text(String::from_str("Not Found")) }
}

/// Handles a bad request: status 400.
pub fn bad_request() -> (r: Response)
    ensures
        r@ == bad_request_view(),
{
    Response {
        status: 400,
        content_type: None,
        body: Body::Text(String::from_str("Bad request")),
    }
}

/// Creates a JSON response, if there is JSON to send.
pub fn json_response(json: Option<String>) -> (r: Option<Response>)
    ensures
        opt_response(r) == match json {
            Some(j) => Some(ok_text(ContentType::Json, j@)),
            None => None,
        },
{
    match json {
        Some(j) => Some(
            Response { status: 200, content_type: Some(ContentType::Json), body: Body::Text(j) },
        ),
        None => None,
    }
}

/// Creates an XML response, if there is XML to send.
pub fn xml_response(xml: Option<String>) -> (r: Option<Response>)
    ensures
        opt_response(r) == match xml {
            Some(x) => Some(ok_text(ContentType::Xml, x@)),
            None => None,
        },
{
    match xml {
        Some(x) => Some(
            Response { status: 200, content_type: Some(ContentType::Xml), body: Body::Text(x) },
        ),
        None => None,
    }
}

/// Creates a plain text response, if there is text to send.
pub fn text_response(text: Option<String>) -> (r: Option<Response>)
    ensures
        opt_response(r) == match text {
            Some(t) => Some(ok_text(ContentType::Plain, t@)),
            None => None,
        },
{
    match text {
        Some(t) => Some(
            Response { status: 200, content_type: Some(ContentType::Plain), body: Body::Text(t) },
        ),
        None => None,
    }
}

} // verus!
