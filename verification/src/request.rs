//! Building the wire form of an HTTP/1.1 GET request from a URL string.
//! URL syntax itself is decided by the `url` crate behind one trusted
//! wrapper; everything assembled from the parsed host and path is verified.

use vstd::prelude::*;

use crate::HttpError;

verus! {

/// Whether `url::Url::parse` accepts the string as an absolute URL.
pub uninterp spec fn url_ok(s: Seq<char>) -> bool;

/// The host that `url::Url::host_str` reads back from a parsed URL
/// (the empty sequence for a URL without a host).
pub uninterp spec fn url_host(s: Seq<char>) -> Seq<char>;

/// The path that `url::Url::path` reads back from a parsed URL.
pub uninterp spec fn url_path(s: Seq<char>) -> Seq<char>;

/// Relies on `url::Url::parse` to decide whether the string is an absolute
/// URL, and on `Url::host_str` and `Url::path` to read back the parsed host
/// and path.  A parse can only succeed when the string holds a `:` ending
/// its scheme, so a result is promised only for such strings.
#[verifier::external_body]
fn parse_url_parts(url: &str) -> (r: Option<(String, String)>)
    ensures
        r is Some <==> url_ok(url@),
        (r matches Some(hp) ==> hp.0@ == url_host(url@) && hp.1@ == url_path(url@)),
        r is Some ==> exists|i: int| 0 <= i < url@.len() && url@[i] == ':',
{
    match url::Url::parse(url) {
        Result::Ok(parsed) => Some((
            match parsed.host_str() {
                Some(h) => h.to_owned(),
                None => String::new(),
            },
            parsed.path().to_owned(),
        )),
        Result::Err(_) => None,
    }
}

/// An immutable GET request: the target URL, the resolved host, the fixed
/// port 80, and the three pieces of its serialized form.
#[derive(Clone)]
pub struct Request {
    url: String,
    port: usize,
    host: String,
    request_line: String,
    headers: String,
    body: String,
}

/// The mathematical image of a [`Request`]: each field as a character
/// sequence, the port as an integer.
pub struct RequestView {
    pub url: Seq<char>,
    pub port: int,
    pub host: Seq<char>,
    pub request_line: Seq<char>,
    pub headers: Seq<char>,
    pub body: Seq<char>,
}

impl View for Request {
    type V = RequestView;

    closed spec fn view(&self) -> RequestView {
        RequestView {
            url: self.url@,
            port: self.port as int,
            host: self.host@,
            request_line: self.request_line@,
            headers: self.headers@,
            body: self.body@,
        }
    }
}

/// The request line that a GET for `path` carries on the wire.
pub open spec fn spec_request_line(path: Seq<char>) -> Seq<char> {
    "GET "@ + path + " HTTP/1.1"@
}

/// The header block for `host`: a `Host` header and `Connection: close`.
pub open spec fn spec_headers(host: Seq<char>) -> Seq<char> {
    "Host: "@ + host + " \r\n"@ + "Connection: close"@
}

impl Request {
    /// A request is well formed when every piece is what building it from
    /// its URL's host and path produces: port 80, the GET request line for
    /// the parsed path, the header block for the parsed host, and an empty
    /// line for a body.
    pub open spec fn well_formed(self) -> bool {
        &&& url_ok(self@.url)
        &&& self@.port == 80
        &&& self@.host == url_host(self@.url)
        &&& self@.request_line == spec_request_line(url_path(self@.url))
        &&& self@.headers == spec_headers(url_host(self@.url))
        &&& self@.body == "\r\n"@
    }

    /// Builds the GET request for `url`.  Succeeds exactly when the string
    /// parses as an absolute URL; a string without the `:` of a scheme
    /// separator is always rejected as `InvalidUrl`.
    pub fn new_get(url: String) -> (r: Result<Request, HttpError>)
        ensures
            r is Ok <==> url_ok(url@),
            (r matches Ok(req) ==> req@.url == url@ && req.well_formed()),
            (r matches Err(e) ==> e == HttpError::InvalidUrl),
            (forall|i: int| 0 <= i < url@.len() ==> url@[i] != ':') ==> (r matches Err(
                e,
            ) && e == HttpError::InvalidUrl),
    {
        match parse_url_parts(url.as_str()) {
            Some((host, path)) => {
                let mut request_line = String::new();
                request_line.append("GET ");
                request_line.append(path.as_str());
                request_line.append(" HTTP/1.1");
                let mut headers = String::new();
                headers.append("Host: ");
                headers.append(host.as_str());
                headers.append(" \r\n");
                headers.append("Connection: close");
                Ok(Request {
                    url,
                    port: 80,
                    host,
                    request_line,
                    headers,
                    body: String::from_str("\r\n"),
                })
            },
            None => Err(HttpError::InvalidUrl),
        }
    }

    /// The host this request resolves to.
    pub fn get_host(&self) -> (r: String)
        ensures
            r@ == self@.host,
    {
        self.host.clone()
    }

    /// The target URL this request was built from.
    pub fn get_url(&self) -> (r: String)
        ensures
            r@ == self@.url,
    {
        self.url.clone()
    }

    /// The target port of this request (80: plain HTTP only).
    pub fn get_port(&self) -> (r: usize)
        ensures
            r == self@.port,
    {
        self.port
    }

    /// The exact bytes of the request on the wire: the request line, the
    /// header block, and the empty line that ends the header section, each
    /// part closed by `\r\n`.
    pub fn to_string(&self) -> (r: String)
        ensures
            r@ == self@.request_line + "\r\n"@ + self@.headers + "\r\n"@ + self@.body,
    {
        let mut request = String::new();
        request.append(self.request_line.as_str());
        request.append("\r\n");
        request.append(self.headers.as_str());
        request.append("\r\n");
        request.append(self.body.as_str());
        request
    }
}

} // verus!
