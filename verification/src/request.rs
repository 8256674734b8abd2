//! The request that is to be sent, and the client that sends it.

use vstd::prelude::*;
use vstd::string::StringExecFns;
use vstd::utf8::encode_utf8;
use crate::deflate::deflated;
use crate::method::Method;

verus! {

/// Seconds after which an exchange is given up: one hour.
pub const TIMEOUT_SECS: u64 = 3600;

/// How the single-use client of a call is set up.
#[derive(Clone, Copy, Debug, PartialEq, Eq, Structural)]
pub struct ClientConfig {
    /// Whether the client offers to take a compressed response.
    pub gzip: bool,
    /// Whether small writes go out at once instead of being gathered.
    pub tcp_nodelay: bool,
    /// Seconds the whole exchange may take.
    pub timeout_secs: u64,
}

/// The set-up for a call with this compression level: compressed responses
/// are negotiated only for a level above zero; writes are never gathered;
/// the time limit is one hour.
pub open spec fn config_for(compression_level: usize) -> ClientConfig {
    ClientConfig { gzip: compression_level > 0, tcp_nodelay: true, timeout_secs: TIMEOUT_SECS }
}

impl ClientConfig {
    /// The set-up for a call with this compression level.
    pub fn for_level(compression_level: usize) -> (config: ClientConfig)
        ensures
            config == config_for(compression_level),
    {
        ClientConfig { gzip: compression_level > 0, tcp_nodelay: true, timeout_secs: TIMEOUT_SECS }
    }
}

/// One header line of a request.
#[derive(Clone, Debug, PartialEq, Eq)]
pub struct Header {
    pub name: String,
    pub value: String,
}

impl View for Header {
    type V = (Seq<char>, Seq<char>);

    open spec fn view(&self) -> (Seq<char>, Seq<char>) {
        (self.name@, self.value@)
    }
}

/// A request, ready to be sent.
#[derive(Clone, Debug, PartialEq, Eq)]
pub struct Request {
    pub method: Method,
    pub url: String,
    /// The header lines, in the order in which they were set.
    pub headers: Vec<Header>,
    /// The bytes to transmit as the body, if there is a body.
    pub body: Option<Vec<u8>>,
}

/// What a [`Request`] holds, as plain mathematical values.
pub struct RequestView {
    pub method: Method,
    pub url: Seq<char>,
    pub headers: Seq<(Seq<char>, Seq<char>)>,
    pub body: Option<Seq<u8>>,
}

impl View for Request {
    type V = RequestView;

    open spec fn view(&self) -> RequestView {
        RequestView {
            method: self.method,
            url: self.url@,
            headers: Seq::new(self.headers@.len(), |i: int| self.headers@[i]@),
            body: match self.body {
                Some(bytes) => Some(bytes@),
                None => None,
            },
        }
    }
}

/// The effort handed to the compressor: the low eight bits of the level.
pub open spec fn effort_of(compression_level: usize) -> u8 {
    (compression_level % 256) as u8
}

/// The bytes transmitted for the body `text`: its UTF-8 bytes as they are for
/// level zero, and their deflate stream for any other level.
pub open spec fn wire_body(text: Seq<char>, compression_level: usize) -> Seq<u8> {
    if compression_level > 0 {
        deflated(encode_utf8(text), effort_of(compression_level))
    } else {
        encode_utf8(text)
    }
}

/// The header lines of a request. The content type is always announced as
/// JSON, whatever the body holds; a deflated body is announced as such.
pub open spec fn header_lines(body_deflated: bool) -> Seq<(Seq<char>, Seq<char>)> {
    if body_deflated {
        seq![("Content-Type"@, "application/json"@), ("Content-Encoding"@, "deflate"@)]
    } else {
        seq![("Content-Type"@, "application/json"@)]
    }
}

/// The request for a method, a target that names its scheme, and the bytes
/// of a body with the note whether they are a deflate stream. Without a body
/// that note means nothing.
pub open spec fn request_of(
    method: Method,
    url: Seq<char>,
    body: Option<Seq<u8>>,
    deflated: bool,
) -> RequestView {
    RequestView { method, url, headers: header_lines(body.is_some() && deflated), body }
}

/// Turns the text of a body into the bytes that are transmitted for it.
pub fn encode_body(text: &str, compression_level: usize) -> (bytes: Vec<u8>)
    ensures
        bytes@ == wire_body(text@, compression_level),
{
    if compression_level > 0 {
        let effort: u8 = (compression_level % 256) as u8;
        miniz_oxide::deflate::compress_to_vec(text.as_bytes(), effort)
    } else {
        text.as_bytes_vec()
    }
}

impl Request {
    /// Puts a request together from parts that are already in their final
    /// form: `body` holds the bytes to transmit, and `deflated` says whether
    /// they are a deflate stream.
    pub fn assemble(
        method: Method,
        url: String,
        body: Option<Vec<u8>>,
        deflated: bool,
    ) -> (request: Request)
        ensures
            request@ == request_of(
                method,
                url@,
                match body {
                    Some(bytes) => Some(bytes@),
                    None => None,
                },
                deflated,
            ),
    {
        let mut headers: Vec<Header> = Vec::new();
        headers.push(
            Header {
                name: String::from_str("Content-Type"),
                value: String::from_str("application/json"),
            },
        );
        if body.is_some() && deflated {
            headers.push(
                Header {
                    name: String::from_str("Content-Encoding"),
                    value: String::from_str("deflate"),
                },
            );
        }
        let request = Request { method, url, headers, body };
        assert(request@.headers =~= header_lines(body.is_some() && deflated));
        request
    }
}

} // verus!
