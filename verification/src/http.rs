//! Requests as the handler reads them and responses as it writes them.

use vstd::prelude::*;
use vstd::string::*;

verus! {

/// The small letter for a capital letter of ASCII; any other character itself.
pub open spec fn ascii_lower(c: char) -> char {
    if 'A' <= c && c <= 'Z' {
        ((c as u8) + 32) as char
    } else {
        c
    }
}

/// Whether `a` and `b` are equal once the capital letters of ASCII are
/// replaced by their small letters.
pub open spec fn eq_ignore_ascii_case(a: Seq<char>, b: Seq<char>) -> bool {
    &&& a.len() == b.len()
    &&& forall|i: int| 0 <= i < a.len() ==> ascii_lower(#[trigger] a[i]) == ascii_lower(b[i])
}

/// The name of the only method that is served.
pub open spec fn get_method() -> Seq<char> {
    "GET"@
}

/// The name of the header that carries a validator received earlier.
pub open spec fn if_none_match_name() -> Seq<char> {
    "If-None-Match"@
}

/// What a header is: a name and a value.
pub struct HeaderModel {
    pub name: Seq<char>,
    pub value: Seq<char>,
}

/// What a request is.
pub struct RequestModel {
    pub method: Seq<char>,
    pub path: Seq<char>,
    pub headers: Seq<HeaderModel>,
}

/// What a response is.
pub struct ResponseModel {
    pub status: u16,
    pub headers: Seq<HeaderModel>,
    pub body: Seq<u8>,
}

/// The value of the first header of `headers` whose name is `name`, letter
/// case aside.
pub open spec fn header_value(headers: Seq<HeaderModel>, name: Seq<char>) -> Option<Seq<char>>
    decreases headers.len(),
{
    if headers.len() == 0 {
        None
    } else if eq_ignore_ascii_case(headers[0].name, name) {
        Some(headers[0].value)
    } else {
        header_value(headers.subrange(1, headers.len() as int), name)
    }
}

/// One header line.
#[derive(Debug, Clone)]
pub struct Header {
    pub name: String,
    pub value: String,
}

impl View for Header {
    type V = HeaderModel;

    open spec fn view(&self) -> HeaderModel {
        HeaderModel { name: self.name@, value: self.value@ }
    }
}

/// The models of a list of headers, in order.
pub open spec fn headers_model(headers: Seq<Header>) -> Seq<HeaderModel> {
    Seq::new(headers.len(), |i: int| headers[i]@)
}

/// An incoming request: method, path below the mount point, and headers.
#[derive(Debug, Clone)]
pub struct Request {
    pub method: String,
    pub path: String,
    pub headers: Vec<Header>,
}

impl View for Request {
    type V = RequestModel;

    open spec fn view(&self) -> RequestModel {
        RequestModel {
            method: self.method@,
            path: self.path@,
            headers: headers_model(self.headers@),
        }
    }
}

/// An outgoing response: status code, headers and body.
#[derive(Debug, Clone)]
pub struct Response {
    pub status: u16,
    pub headers: Vec<Header>,
    pub body: Vec<u8>,
}

impl View for Response {
    type V = ResponseModel;

    open spec fn view(&self) -> ResponseModel {
        ResponseModel {
            status: self.status,
            headers: headers_model(self.headers@),
            body: self.body@,
        }
    }
}

/// The small letter for a capital letter of ASCII; any other character itself.
pub fn to_ascii_lower(c: char) -> (r: char)
    ensures
        r == ascii_lower(c),
{
    if 'A' <= c && c <= 'Z' {
        ((c as u8) + 32) as char
    } else {
        c
    }
}

/// Compares two strings, taking a capital letter of ASCII for its small letter.
pub fn same_ignoring_ascii_case(a: &str, b: &str) -> (same: bool)
    ensures
        same == eq_ignore_ascii_case(a@, b@),
{
    let n: usize = a.unicode_len();
    if n != b.unicode_len() {
        return false;
    }
    let mut i: usize = 0;
    while i < n
        invariant
            n == a@.len(),
            n == b@.len(),
            i <= n,
            forall|k: int| 0 <= k < i ==> ascii_lower(#[trigger] a@[k]) == ascii_lower(b@[k]),
        decreases n - i,
    {
        if to_ascii_lower(a.get_char(i)) != to_ascii_lower(b.get_char(i)) {
            return false;
        }
        i = i + 1;
    }
    true
}

/// The value of the first header of `headers` named `name`, in capital or
/// small letters.
pub fn find_header<'a>(headers: &'a Vec<Header>, name: &str) -> (value: Option<&'a str>)
    ensures
        match value {
            Some(v) => header_value(headers_model(headers@), name@) == Some(v@),
            None => header_value(headers_model(headers@), name@).is_none(),
        },
{
    let ghost all = headers_model(headers@);
    let n: usize = headers.len();
    let mut i: usize = 0;
    assert(all.subrange(0, all.len() as int) =~= all);
    while i < n
        invariant
            n == headers@.len(),
            all == headers_model(headers@),
            i <= n,
            header_value(all, name@) == header_value(all.subrange(i as int, n as int), name@),
        decreases n - i,
    {
        let ghost rest = all.subrange(i as int, n as int);
        assert(rest[0] == headers@[i as int]@);
        assert(rest.subrange(1, rest.len() as int) =~= all.subrange(i + 1, n as int));
        if same_ignoring_ascii_case(headers[i].name.as_str(), name) {
            return Some(headers[i].value.as_str());
        }
        i = i + 1;
    }
    None
}

impl Header {
    /// A header with the given name and value.
    pub fn new(name: &str, value: &str) -> (header: Header)
        ensures
            header@ == (HeaderModel { name: name@, value: value@ }),
    {
        Header { name: String::from_str(name), value: String::from_str(value) }
    }
}

impl Request {
    /// A request without headers.
    pub fn new(method: &str, path: &str) -> (req: Request)
        ensures
            req@ == (RequestModel { method: method@, path: path@, headers: Seq::empty() }),
    {
        let req = Request {
            method: String::from_str(method),
            path: String::from_str(path),
            headers: Vec::new(),
        };
        assert(req@.headers =~= Seq::empty());
        req
    }

    /// A `GET` request without headers.
    pub fn get(path: &str) -> (req: Request)
        ensures
            req@ == (RequestModel { method: get_method(), path: path@, headers: Seq::empty() }),
    {
        Request::new("GET", path)
    }

    /// The request with one more header, after those it has.
    pub fn with_header(self, name: &str, value: &str) -> (req: Request)
        ensures
            req@ == (RequestModel {
                method: self@.method,
                path: self@.path,
                headers: self@.headers.push(HeaderModel { name: name@, value: value@ }),
            }),
    {
        let mut headers = self.headers;
        headers.push(Header::new(name, value));
        let req = Request { method: self.method, path: self.path, headers };
        assert(req@.headers =~= self@.headers.push(HeaderModel { name: name@, value: value@ }));
        req
    }

    /// Whether the method is `GET`, in capital or small letters.
    pub fn is_get(&self) -> (yes: bool)
        ensures
            yes == eq_ignore_ascii_case(self@.method, get_method()),
    {
        same_ignoring_ascii_case(self.method.as_str(), "GET")
    }

    /// The value of the first header named `name`, in capital or small letters.
    pub fn header(&self, name: &str) -> (value: Option<&str>)
        ensures
            match value {
                Some(v) => header_value(self@.headers, name@) == Some(v@),
                None => header_value(self@.headers, name@).is_none(),
            },
    {
        find_header(&self.headers, name)
    }
}

impl Response {
    /// A response without headers.
    pub fn new(status: u16, body: Vec<u8>) -> (resp: Response)
        ensures
            resp@ == (ResponseModel { status, headers: Seq::empty(), body: body@ }),
    {
        let resp = Response { status, headers: Vec::new(), body };
        assert(resp@.headers =~= Seq::empty());
        resp
    }

    /// The response with one more header, after those it has.
    pub fn with_header(self, name: &str, value: &str) -> (resp: Response)
        ensures
            resp@ == (ResponseModel {
                status: self@.status,
                headers: self@.headers.push(HeaderModel { name: name@, value: value@ }),
                body: self@.body,
            }),
    {
        let mut headers = self.headers;
        headers.push(Header::new(name, value));
        let resp = Response { status: self.status, headers, body: self.body };
        assert(resp@.headers =~= self@.headers.push(HeaderModel { name: name@, value: value@ }));
        resp
    }

    /// The value of the first header named `name`, in capital or small letters.
    pub fn header(&self, name: &str) -> (value: Option<&str>)
        ensures
            match value {
                Some(v) => header_value(self@.headers, name@) == Some(v@),
                None => header_value(self@.headers, name@).is_none(),
            },
    {
        find_header(&self.headers, name)
    }
}

} // verus!
