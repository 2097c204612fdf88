//! Requests and responses, and header lookup.

use vstd::prelude::*;
use vstd::slice::slice_to_vec;
use crate::text::{same_ignoring_case, same_text_ignoring_case};

verus! {

/// The version of HTTP that a message is written in.
#[derive(Clone, Copy, Debug, PartialEq, Eq, Structural)]
pub enum HttpVersion {
    Http09,
    Http10,
    Http11,
    Http2,
    Http3,
}

impl HttpVersion {
    /// Whether this is HTTP/1.1 or a later version.
    pub open spec fn at_least_1_1(self) -> bool {
        self != HttpVersion::Http09 && self != HttpVersion::Http10
    }

    /// Whether this is HTTP/1.1 or a later version.
    pub fn is_at_least_1_1(self) -> (res: bool)
        ensures
            res == self.at_least_1_1(),
    {
        match self {
            HttpVersion::Http09 => false,
            HttpVersion::Http10 => false,
            _ => true,
        }
    }
}

/// One header line: a name, and a value as the bytes that were sent.
#[derive(Clone, Debug)]
pub struct Header {
    pub name: String,
    pub value: Vec<u8>,
}

/// What a [`Header`] stands for.
pub struct HeaderView {
    pub name: Seq<char>,
    pub value: Seq<u8>,
}

impl View for Header {
    type V = HeaderView;

    open spec fn view(&self) -> HeaderView {
        HeaderView { name: self.name@, value: self.value@ }
    }
}

/// The views of a list of headers, in the same order.
pub open spec fn header_views(headers: Seq<Header>) -> Seq<HeaderView> {
    Seq::new(headers.len(), |i: int| headers[i]@)
}

/// The value of the first header from position `from` on whose name is
/// `name` up to ASCII case.
pub open spec fn first_value_from(
    headers: Seq<HeaderView>,
    name: Seq<char>,
    from: int,
) -> Option<Seq<u8>>
    decreases headers.len() - from,
{
    if from < 0 || from >= headers.len() {
        None
    } else if same_ignoring_case(headers[from].name, name) {
        Some(headers[from].value)
    } else {
        first_value_from(headers, name, from + 1)
    }
}

/// The value of the first header whose name is `name` up to ASCII case.
pub open spec fn first_value(headers: Seq<HeaderView>, name: Seq<char>) -> Option<Seq<u8>> {
    first_value_from(headers, name, 0)
}

/// Declares `hyper::header::HeaderValue`, the value type of the header map
/// of a request. Nothing is claimed of it.
#[verifier::external_type_specification]
#[verifier::external_body]
pub struct ExHeaderValue(hyper::header::HeaderValue);

/// Declares `hyper::HeaderMap`, in which a request holds its headers.
/// Nothing is claimed of it but through [`header_entries`].
#[verifier::external_type_specification]
#[verifier::external_body]
#[verifier::reject_recursive_types(T)]
pub struct ExHeaderMap<T>(hyper::HeaderMap<T>);

/// The headers that a header map holds, each with its name and the bytes of
/// its value, the values of one name in the order in which they were added.
pub uninterp spec fn header_entries(map: hyper::HeaderMap) -> Seq<HeaderView>;

/// Calls `HeaderMap::get` with a name given as text and hands out the bytes
/// of what it returns. The map returns the first value that was added under
/// the name, or nothing where no header has it; it holds names in small
/// letters and lowers the name it is asked for, so the case in which a name
/// is written makes no difference.
#[verifier::external_body]
fn map_value<'a>(map: &'a hyper::HeaderMap, name: &str) -> (res: Option<&'a [u8]>)
    ensures
        match res {
            Some(value) => first_value(header_entries(*map), name@) == Some(value@),
            None => first_value(header_entries(*map), name@) is None,
        },
{
    match map.get(name) {
        Some(value) => Some(value.as_bytes()),
        None => None,
    }
}

/// Calls `HeaderMap::contains_key` with a name given as text: whether the
/// map holds a header of that name, in whatever case the name is written.
#[verifier::external_body]
fn map_has(map: &hyper::HeaderMap, name: &str) -> (res: bool)
    ensures
        res == (first_value(header_entries(*map), name@) is Some),
{
    map.contains_key(name)
}

impl Header {
    /// A header with the given name and value.
    pub fn new(name: &str, value: &[u8]) -> (res: Header)
        ensures
            res@.name == name@,
            res@.value == value@,
    {
        Header { name: String::from_str(name), value: slice_to_vec(value) }
    }
}

/// The value of the first header in `headers` named `name`, names compared
/// without regard to ASCII case.
pub fn find_header<'a>(headers: &'a Vec<Header>, name: &str) -> (res: Option<&'a Vec<u8>>)
    ensures
        match res {
            Some(value) => first_value(header_views(headers@), name@) == Some(value@),
            None => first_value(header_views(headers@), name@) is None,
        },
{
    let ghost views = header_views(headers@);
    let mut i: usize = 0;
    while i < headers.len()
        invariant
            i <= headers@.len(),
            views == header_views(headers@),
            first_value(views, name@) == first_value_from(views, name@, i as int),
        decreases headers@.len() - i,
    {
        if same_text_ignoring_case(headers[i].name.as_str(), name) {
            return Some(&headers[i].value);
        }
        i += 1;
    }
    None
}

/// An HTTP request, as far as the handler reads it.
#[derive(Debug)]
pub struct Request {
    pub method: String,
    pub path: String,
    pub version: HttpVersion,
    pub headers: hyper::HeaderMap,
}

/// What a [`Request`] stands for.
pub struct RequestView {
    pub method: Seq<char>,
    pub path: Seq<char>,
    pub version: HttpVersion,
    pub headers: Seq<HeaderView>,
}

impl View for Request {
    type V = RequestView;

    open spec fn view(&self) -> RequestView {
        RequestView {
            method: self.method@,
            path: self.path@,
            version: self.version,
            headers: header_entries(self.headers),
        }
    }
}

impl RequestView {
    /// The value of the first header named `name`.
    pub open spec fn header(self, name: Seq<char>) -> Option<Seq<u8>> {
        first_value(self.headers, name)
    }

    /// Whether some header is named `name`.
    pub open spec fn has_header(self, name: Seq<char>) -> bool {
        first_value(self.headers, name) is Some
    }
}

impl Request {
    /// A request with the given method, path, version and headers.
    pub fn new(method: &str, path: &str, version: HttpVersion, headers: hyper::HeaderMap) -> (res:
        Request)
        ensures
            res@.method == method@,
            res@.path == path@,
            res@.version == version,
            res@.headers == header_entries(headers),
            res.headers == headers,
    {
        Request {
            method: String::from_str(method),
            path: String::from_str(path),
            version,
            headers,
        }
    }

    /// The value of the first header named `name`, if there is one.
    pub fn header(&self, name: &str) -> (res: Option<&[u8]>)
        ensures
            match res {
                Some(value) => self@.header(name@) == Some(value@),
                None => self@.header(name@) is None,
            },
    {
        map_value(&self.headers, name)
    }

    /// Whether the request carries a header named `name`.
    pub fn has_header(&self, name: &str) -> (res: bool)
        ensures
            res == self@.has_header(name@),
    {
        map_has(&self.headers, name)
    }
}

/// An HTTP response: a status code, a version, headers and a text body.
#[derive(Clone, Debug)]
pub struct Response {
    pub status: u16,
    pub version: HttpVersion,
    pub headers: Vec<Header>,
    pub body: String,
}

/// What a [`Response`] stands for.
pub struct ResponseView {
    pub status: u16,
    pub version: HttpVersion,
    pub headers: Seq<HeaderView>,
    pub body: Seq<char>,
}

impl View for Response {
    type V = ResponseView;

    open spec fn view(&self) -> ResponseView {
        ResponseView {
            status: self.status,
            version: self.version,
            headers: header_views(self.headers@),
            body: self.body@,
        }
    }
}

impl Response {
    /// An HTTP/1.1 response with the given status and body and no headers of
    /// its own.
    pub fn text(status: u16, body: String) -> (res: Response)
        ensures
            res@ == (ResponseView {
                status,
                version: HttpVersion::Http11,
                headers: Seq::empty(),
                body: body@,
            }),
    {
        let res = Response { status, version: HttpVersion::Http11, headers: Vec::new(), body };
        assert(res@.headers =~= Seq::empty());
        res
    }

    /// The value of the first header named `name`, if there is one.
    pub fn header(&self, name: &str) -> (res: Option<&Vec<u8>>)
        ensures
            match res {
                Some(value) => first_value(self@.headers, name@) == Some(value@),
                None => first_value(self@.headers, name@) is None,
            },
    {
        find_header(&self.headers, name)
    }
}

} // verus!
