//! A client library for the Gitlab v4 API: request construction, credentials
//! and the classification of responses into results and errors.
use vstd::prelude::*;

pub mod errors;
pub mod gitignores;
pub mod issues;
pub mod encoding;
pub mod json;
pub mod params;
pub mod payload;
pub mod projects;

pub use errors::Error;

use gitignores::GitIgnores;
use projects::Projects;
use errors::{fault_status, is_fault_status};
use json::{check_json, json_text_member, json_valid, text_member};

verus! {

/// Credentials for Gitlab authentication.
#[derive(Debug, PartialEq)]
pub enum Credentials {
    /// Unauthenticated anonymous access.
    Anonymous,
    /// OAuth2 token.
    OauthToken(String),
    /// Personal access / private token.
    AccessToken(String),
}

impl Default for Credentials {
    fn default() -> (r: Credentials)
        ensures
            r is Anonymous,
    {
        Credentials::Anonymous
    }
}

/// One request header, as a name and a value.
pub struct Header {
    pub name: String,
    pub value: String,
}

pub open spec fn header_view(h: Header) -> (Seq<char>, Seq<char>) {
    (h.name@, h.value@)
}

pub open spec fn headers_view(hs: Seq<Header>) -> Seq<(Seq<char>, Seq<char>)> {
    hs.map_values(|h: Header| header_view(h))
}

pub open spec fn json_mime() -> Seq<char> {
    "application/json"@
}

/// The authentication header that a credential calls for, if any.
pub open spec fn auth_headers(c: Credentials) -> Seq<(Seq<char>, Seq<char>)> {
    match c {
        Credentials::Anonymous => seq![],
        Credentials::OauthToken(t) => seq![("Authorization"@, "Bearer "@ + t@)],
        Credentials::AccessToken(t) => seq![("PRIVATE-TOKEN"@, t@)],
    }
}

/// Every request carries JSON content type and accept headers, then the
/// credential's authentication header.
pub open spec fn headers_for(c: Credentials) -> Seq<(Seq<char>, Seq<char>)> {
    seq![("Content-Type"@, json_mime()), ("Accept"@, json_mime())] + auth_headers(c)
}

/// The names of the authentication headers.
pub open spec fn is_auth_name(n: Seq<char>) -> bool {
    n == "Authorization"@ || n == "PRIVATE-TOKEN"@
}

/// Every request has the JSON content type and accept headers first; a
/// credential adds exactly one authentication header, and anonymous access
/// adds none.
pub proof fn lemma_one_auth_header(c: Credentials)
    ensures
        headers_for(c).len() >= 2,
        headers_for(c)[0] == ("Content-Type"@, json_mime()),
        headers_for(c)[1] == ("Accept"@, json_mime()),
        c is Anonymous ==> forall|i: int|
            0 <= i < headers_for(c).len() ==> !is_auth_name(#[trigger] headers_for(c)[i].0),
        !(c is Anonymous) ==> headers_for(c).len() == 3 && is_auth_name(headers_for(c)[2].0)
            && forall|i: int| 0 <= i < 2 ==> !is_auth_name(#[trigger] headers_for(c)[i].0),
{
    reveal_strlit("Content-Type");
    reveal_strlit("Accept");
    reveal_strlit("Authorization");
    reveal_strlit("PRIVATE-TOKEN");
    let h = headers_for(c);
    assert(h[0].0.len() != "Authorization"@.len() && h[0].0.len() != "PRIVATE-TOKEN"@.len());
    assert(h[1].0.len() != "Authorization"@.len() && h[1].0.len() != "PRIVATE-TOKEN"@.len());
    assert(!is_auth_name(h[0].0) && !is_auth_name(h[1].0));
}

fn header(name: &str, value: String) -> (r: Header)
    ensures
        header_view(r) == (name@, value@),
{
    Header { name: String::from_str(name), value }
}

/// The headers for a request made with credentials `c`.
pub fn request_headers(c: &Credentials) -> (r: Vec<Header>)
    ensures
        headers_view(r@) == headers_for(*c),
{
    let mut h: Vec<Header> = Vec::new();
    h.push(header("Content-Type", String::from_str("application/json")));
    h.push(header("Accept", String::from_str("application/json")));
    match c {
        Credentials::OauthToken(token) => {
            let v = String::from_str("Bearer ").concat(token.as_str());
            h.push(header("Authorization", v));
        },
        Credentials::AccessToken(token) => {
            h.push(header("PRIVATE-TOKEN", token.clone()));
        },
        Credentials::Anonymous => {},
    }
    assert(headers_view(h@) =~= headers_for(*c));
    h
}

/// The HTTP verbs that the API calls use.
#[derive(Debug, Clone, Copy, PartialEq, Eq, Structural)]
pub enum Method {
    Get,
    Post,
    Delete,
}

/// One HTTP call to be made: verb, full URL, headers and, for a post, the body.
pub struct Request {
    pub method: Method,
    pub url: String,
    pub headers: Vec<Header>,
    pub body: Option<Vec<u8>>,
}

/// The path that the API version adds to a host.
pub open spec fn api_prefix() -> Seq<char> {
    "/api/v4"@
}

/// `r` is the call `method` on `url` with the headers of `c` and body `body`.
pub open spec fn is_request(
    r: Request,
    method: Method,
    url: Seq<char>,
    c: Credentials,
    body: Option<Seq<u8>>,
) -> bool {
    &&& r.method == method
    &&& r.url@ == url
    &&& headers_view(r.headers@) == headers_for(c)
    &&& match body {
        Some(b) => r.body matches Some(rb) && rb@ == b,
        None => r.body is None,
    }
}

/// The text of a fault: the body's `message` member, else its `error`
/// member, else a generic description.
pub open spec fn chosen_message(message: Option<Seq<char>>, error: Option<Seq<char>>) -> Seq<
    char,
> {
    match message {
        Some(m) => m,
        None => match error {
            Some(e) => e,
            None => "request failed"@,
        },
    }
}

pub open spec fn fault_message(body: Seq<u8>) -> Seq<char> {
    chosen_message(json_text_member(body, "message"@), json_text_member(body, "error"@))
}

pub open spec fn opt_view(o: Option<String>) -> Option<Seq<char>> {
    match o {
        Some(s) => Some(s@),
        None => None,
    }
}

/// `e` is the fault of status `code` with text `text`.
pub open spec fn is_fault(e: Error, code: u16, text: Seq<char>) -> bool {
    e matches Error::Fault { code: c, error: t } && c == code && t@ == text
}

/// The fault for status `code`, from the `message` and `error` members
/// found in its body.
pub fn fault(code: u16, message: Option<String>, error: Option<String>) -> (r: Error)
    ensures
        is_fault(r, code, chosen_message(opt_view(message), opt_view(error))),
{
    let text = match message {
        Some(m) => m,
        None => match error {
            Some(e) => e,
            None => String::from_str("request failed"),
        },
    };
    Error::Fault { code, error: text }
}

fn fault_of_body(code: u16, body: &Vec<u8>) -> (r: Error)
    ensures
        is_fault(r, code, fault_message(body@)),
{
    let message = text_member(body, "message");
    let error = match message {
        Some(_) => None,
        None => text_member(body, "error"),
    };
    fault(code, message, error)
}

/// Gitlab API client: the API root and the credentials of every request.
pub struct Gitlab {
    host: String,
    credentials: Credentials,
}

impl Gitlab {
    /// The API root that resources are appended to.
    pub closed spec fn base(&self) -> Seq<char> {
        self.host@
    }

    pub closed spec fn creds(&self) -> Credentials {
        self.credentials
    }

    /// Create a client for `host`; the API version path is appended here, once.
    pub fn new(host: &str, credentials: Credentials) -> (r: Gitlab)
        ensures
            r.base() == host@ + api_prefix(),
            r.creds() == credentials,
    {
        Gitlab { host: String::from_str(host).concat("/api/v4"), credentials }
    }

    pub fn gitignores(&self) -> (r: GitIgnores)
        ensures
            r.client() == *self,
    {
        GitIgnores::new(self)
    }

    pub fn projects(&self) -> (r: Projects)
        ensures
            r.client() == *self,
    {
        Projects::new(self)
    }

    fn url(&self, resource: &str) -> (r: String)
        ensures
            r@ == self.base() + resource@,
    {
        self.host.clone().concat(resource)
    }

    /// The GET request for `resource`.
    pub fn get(&self, resource: &str) -> (r: Request)
        ensures
            is_request(r, Method::Get, self.base() + resource@, self.creds(), None),
    {
        Request {
            method: Method::Get,
            url: self.url(resource),
            headers: request_headers(&self.credentials),
            body: None,
        }
    }

    /// The POST request for `resource` with `body`.
    pub fn post(&self, resource: &str, body: Vec<u8>) -> (r: Request)
        ensures
            is_request(r, Method::Post, self.base() + resource@, self.creds(), Some(body@)),
    {
        Request {
            method: Method::Post,
            url: self.url(resource),
            headers: request_headers(&self.credentials),
            body: Some(body),
        }
    }

    /// The DELETE request for `resource`.
    pub fn delete(&self, resource: &str) -> (r: Request)
        ensures
            is_request(r, Method::Delete, self.base() + resource@, self.creds(), None),
    {
        Request {
            method: Method::Delete,
            url: self.url(resource),
            headers: request_headers(&self.credentials),
            body: None,
        }
    }

    /// Classify the answer to a GET or POST: a fault status is a fault and
    /// its body is not decoded; any other status asks for the body to be
    /// decoded (`Ok`), which fails as a codec error where it is not JSON.
    pub fn response(status: u16, body: &Vec<u8>) -> (r: Result<(), Error>)
        ensures
            is_fault_status(status) ==> (r matches Err(e) && is_fault(e, status, fault_message(body@))),
            !is_fault_status(status) ==> (r is Ok <==> json_valid(body@)),
            !is_fault_status(status) && !json_valid(body@) ==> r matches Err(Error::Codec(_)),
    {
        if fault_status(status) {
            Err(fault_of_body(status, body))
        } else {
            match check_json(body) {
                Ok(()) => Ok(()),
                Err(text) => Err(Error::Codec(text)),
            }
        }
    }

    /// Classify the answer to a DELETE: a fault status is a fault; any
    /// other status is success, and the body is not read.
    pub fn delete_response(status: u16, body: &Vec<u8>) -> (r: Result<(), Error>)
        ensures
            is_fault_status(status) ==> (r matches Err(e) && is_fault(e, status, fault_message(body@))),
            !is_fault_status(status) ==> r is Ok,
    {
        if fault_status(status) {
            Err(fault_of_body(status, body))
        } else {
            Ok(())
        }
    }
}

} // verus!
