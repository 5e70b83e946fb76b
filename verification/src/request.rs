//! The PUT request that uploads one part.
//!
//! A request is plain data: the driver turns it into whatever its HTTP
//! stack sends. The body is the part's bytes as they are, never text.

use vstd::prelude::*;
use vstd::slice::slice_to_vec;
use vstd::string::StringExecFns;
use crate::error::ErrorKind;
use crate::part_number::{chars_of, find_char, find_from, lemma_find_from_unique};

verus! {

/// The HTTP method of a request. A part is always uploaded with `PUT`.
#[derive(Clone, Copy, Debug, PartialEq, Eq, Structural)]
pub enum Method {
    Put,
}

/// How a request relates to the origin of its sender. A part is always
/// uploaded across origins.
#[derive(Clone, Copy, Debug, PartialEq, Eq, Structural)]
pub enum Mode {
    CrossOrigin,
}

/// The mathematical content of a [`Header`].
pub ghost struct HeaderView {
    pub name: Seq<char>,
    pub value: Seq<char>,
}

/// One header of a request.
#[derive(Debug, PartialEq, Eq)]
pub struct Header {
    pub name: String,
    pub value: String,
}

impl View for Header {
    type V = HeaderView;

    open spec fn view(&self) -> HeaderView {
        HeaderView { name: self.name@, value: self.value@ }
    }
}

/// The mathematical content of a [`Request`].
pub ghost struct RequestView {
    pub method: Method,
    pub mode: Mode,
    pub url: Seq<char>,
    pub headers: Seq<HeaderView>,
    pub body: Seq<u8>,
}

/// The headers of `headers`, each by its view.
pub open spec fn header_views(headers: Seq<Header>) -> Seq<HeaderView> {
    Seq::new(headers.len(), |i: int| headers[i]@)
}

/// What an optional text holds.
pub open spec fn text_of(text: Option<&str>) -> Option<Seq<char>> {
    match text {
        Some(t) => Some(t@),
        None => None,
    }
}

/// Whether `c` is a blank or a control character: anything up to the
/// space, and the delete character.
pub open spec fn is_blank_or_control(c: char) -> bool {
    c <= ' ' || c == '\x7f'
}

/// Whether a URL can be parsed: something stands before its query, and no
/// character of it is a blank or a control character.
pub open spec fn url_parses(url: Seq<char>) -> bool {
    &&& find_from(url, '?', 0) > 0
    &&& forall|i: int| 0 <= i < url.len() ==> !is_blank_or_control(#[trigger] url[i])
}

/// The header that lets the response carry credentials.
pub open spec fn allow_credentials_header() -> HeaderView {
    HeaderView { name: "Access-Control-Allow-Credentials"@, value: "true"@ }
}

/// The header that makes the `ETag` of the response readable across
/// origins.
pub open spec fn expose_etag_header() -> HeaderView {
    HeaderView { name: "Access-Control-Expose-Headers"@, value: "ETag"@ }
}

/// The header that names the type of the content.
pub open spec fn content_type_header(content_type: Seq<char>) -> HeaderView {
    HeaderView { name: "Content-Type"@, value: content_type }
}

/// The header that offers the content as a file named `filename`.
pub open spec fn content_disposition_header(filename: Seq<char>) -> HeaderView {
    HeaderView {
        name: "Content-Disposition"@,
        value: "attachment; filename=\""@ + filename + "\""@,
    }
}

/// The headers of the request for one part: the two that every request
/// has, then the content type and the file name where they are given.
pub open spec fn headers_of(
    filename: Option<Seq<char>>,
    content_type: Option<Seq<char>>,
) -> Seq<HeaderView> {
    let fixed = seq![allow_credentials_header(), expose_etag_header()];
    let typed = match content_type {
        Some(t) => fixed.push(content_type_header(t)),
        None => fixed,
    };
    match filename {
        Some(f) => typed.push(content_disposition_header(f)),
        None => typed,
    }
}

/// The request that uploads `bytes` to `url`.
pub open spec fn request_of(
    url: Seq<char>,
    bytes: Seq<u8>,
    filename: Option<Seq<char>>,
    content_type: Option<Seq<char>>,
) -> RequestView {
    RequestView {
        method: Method::Put,
        mode: Mode::CrossOrigin,
        url,
        headers: headers_of(filename, content_type),
        body: bytes,
    }
}

/// The request that uploads one part.
#[derive(Debug, PartialEq, Eq)]
pub struct Request {
    method: Method,
    mode: Mode,
    url: String,
    headers: Vec<Header>,
    body: Vec<u8>,
}

impl View for Request {
    type V = RequestView;

    closed spec fn view(&self) -> RequestView {
        RequestView {
            method: self.method,
            mode: self.mode,
            url: self.url@,
            headers: header_views(self.headers@),
            body: self.body@,
        }
    }
}

impl Request {
    /// The HTTP method.
    pub fn method(&self) -> (method: Method)
        ensures
            method == self@.method,
    {
        self.method
    }

    /// The mode.
    pub fn mode(&self) -> (mode: Mode)
        ensures
            mode == self@.mode,
    {
        self.mode
    }

    /// The URL that the request goes to, as it was given.
    pub fn url(&self) -> (url: &str)
        ensures
            url@ == self@.url,
    {
        self.url.as_str()
    }

    /// The headers, in the order in which they were added.
    pub fn headers(&self) -> (headers: &Vec<Header>)
        ensures
            header_views(headers@) == self@.headers,
    {
        &self.headers
    }

    /// The body: the bytes of the part.
    pub fn body(&self) -> (body: &Vec<u8>)
        ensures
            body@ == self@.body,
    {
        &self.body
    }
}

impl Method {
    /// The method as HTTP writes it.
    pub open spec fn name_spec(self) -> Seq<char> {
        "PUT"@
    }

    /// The method as HTTP writes it.
    pub fn name(&self) -> (s: &'static str)
        ensures
            s@ == self.name_spec(),
    {
        "PUT"
    }
}

/// Whether something stands before the query of `url` and `url` holds no
/// blank or control character.
fn can_parse_url(url: &str) -> (ok: bool)
    ensures
        ok == url_parses(url@),
{
    let v = chars_of(url);
    let n = v.len();
    let mark = find_char(&v, '?', 0, n);
    proof {
        lemma_find_from_unique(v@, '?', 0, mark as int);
    }
    if mark == 0 {
        return false;
    }
    let mut at: usize = 0;
    while at < n
        invariant
            at <= n == v.len(),
            v@ == url@,
            find_from(url@, '?', 0) > 0,
            forall|i: int| 0 <= i < at ==> !is_blank_or_control(#[trigger] v@[i]),
        decreases n - at,
    {
        let c: char = v[at];
        if c <= ' ' || c == '\x7f' {
            assert(is_blank_or_control(url@[at as int]));
            return false;
        }
        at += 1;
    }
    true
}

/// Builds the request that uploads `bytes` to `url`.
///
/// The request is a cross-origin `PUT` whose body is `bytes`, unchanged.
/// It always has the headers `Access-Control-Allow-Credentials: true` and
/// `Access-Control-Expose-Headers: ETag`; `Content-Type` and
/// `Content-Disposition` follow where `content_type` and `filename` are
/// given. A URL that cannot be parsed is refused with `InvalidRequest`.
pub fn build(
    url: &str,
    bytes: Vec<u8>,
    filename: Option<&str>,
    content_type: Option<&str>,
) -> (result: Result<Request, ErrorKind>)
    ensures
        result.is_ok() <==> url_parses(url@),
        result.is_err() ==> result == Err::<Request, ErrorKind>(ErrorKind::InvalidRequest),
        result.is_ok() ==> result.unwrap()@ == request_of(
            url@,
            bytes@,
            text_of(filename),
            text_of(content_type),
        ),
{
    if !can_parse_url(url) {
        return Err(ErrorKind::InvalidRequest);
    }
    let mut headers: Vec<Header> = Vec::new();
    headers.push(
        Header {
            name: "Access-Control-Allow-Credentials".to_owned(),
            value: "true".to_owned(),
        },
    );
    headers.push(
        Header { name: "Access-Control-Expose-Headers".to_owned(), value: "ETag".to_owned() },
    );
    match content_type {
        Some(t) => {
            headers.push(Header { name: "Content-Type".to_owned(), value: t.to_owned() });
        },
        None => {},
    }
    match filename {
        Some(f) => {
            let mut value = "attachment; filename=\"".to_owned();
            value.append(f);
            value.append("\"");
            headers.push(Header { name: "Content-Disposition".to_owned(), value });
        },
        None => {},
    }
    let request = Request {
        method: Method::Put,
        mode: Mode::CrossOrigin,
        url: url.to_owned(),
        headers,
        body: bytes,
    };
    proof {
        assert(request@.headers =~= headers_of(text_of(filename), text_of(content_type)));
    }
    Ok(request)
}

/// Builds the request that uploads the part `data` to `url`, with no
/// content type and no file name.
pub fn create_upload_part_request(url: &str, data: &[u8]) -> (result: Result<Request, ErrorKind>)
    ensures
        result.is_ok() <==> url_parses(url@),
        result.is_err() ==> result == Err::<Request, ErrorKind>(ErrorKind::InvalidRequest),
        result.is_ok() ==> result.unwrap()@ == request_of(url@, data@, None, None),
{
    build(url, slice_to_vec(data), None, None)
}

} // verus!
