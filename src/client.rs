//! The client's configuration and the request that each call sends.

use vstd::prelude::*;

verus! {

/// The service's production endpoint.
pub open spec fn default_api_url() -> Seq<char> {
    "https://api-resellers.ittv.com.br"@
}

/// What a client holds: its bearer token and its base URL.
pub struct ClientView {
    pub api_key: Seq<char>,
    pub api_url: Seq<char>,
}

/// A client of the API. Its configuration is fixed at construction.
pub struct Client {
    api_key: String,
    api_url: String,
}

impl View for Client {
    type V = ClientView;

    closed spec fn view(&self) -> ClientView {
        ClientView { api_key: self.api_key@, api_url: self.api_url@ }
    }
}

/// The HTTP method of a request.
#[derive(Clone, Copy, Debug, PartialEq, Eq, Structural)]
pub enum Method {
    Post,
    Put,
}

/// The content of a request.
pub struct RequestView {
    pub method: Method,
    pub url: Seq<char>,
    pub authorization: Seq<char>,
    pub body: Seq<char>,
}

/// A request to send: its method, full URL, the value of its
/// `Authorization` header and its JSON body.
#[derive(Clone, Debug)]
pub struct Request {
    pub method: Method,
    pub url: String,
    pub authorization: String,
    pub body: String,
}

impl View for Request {
    type V = RequestView;

    open spec fn view(&self) -> RequestView {
        RequestView {
            method: self.method,
            url: self.url@,
            authorization: self.authorization@,
            body: self.body@,
        }
    }
}

/// The value of the `Authorization` header for token `key`.
pub open spec fn bearer(key: Seq<char>) -> Seq<char> {
    "Bearer "@ + key
}

/// The request that client `c` sends with `method` to `path` below its base
/// URL, carrying `body`.
pub open spec fn request_of(c: ClientView, method: Method, path: Seq<char>, body: Seq<char>) -> RequestView {
    RequestView { method, url: c.api_url + path, authorization: bearer(c.api_key), body }
}

impl Client {
    /// A client with token `api_key` for the production endpoint.
    pub fn new(api_key: &str) -> (r: Client)
        ensures
            r@.api_key == api_key@,
            r@.api_url == default_api_url(),
    {
        Client {
            api_key: String::from_str(api_key),
            api_url: String::from_str("https://api-resellers.ittv.com.br"),
        }
    }

    /// A client with token `api_key` for the service at `api_url`.
    pub fn with_base_url(api_key: &str, api_url: &str) -> (r: Client)
        ensures
            r@.api_key == api_key@,
            r@.api_url == api_url@,
    {
        Client { api_key: String::from_str(api_key), api_url: String::from_str(api_url) }
    }

    /// The request of one call: `method` to `path` below the base URL, with
    /// the bearer header and `body`.
    pub fn request(&self, method: Method, path: &str, body: String) -> (r: Request)
        ensures
            r@ == request_of(self@, method, path@, body@),
    {
        let mut url = self.api_url.clone();
        url.append(path);
        let mut authorization = String::from_str("Bearer ");
        authorization.append(self.api_key.as_str());
        Request { method, url, authorization, body }
    }
}

} // verus!
