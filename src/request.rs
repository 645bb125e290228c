//! The description of one HTTP call, as every client method produces it, and
//! the chain-scoped endpoint that composes its URL and headers.
use vstd::prelude::*;
use crate::text::{QueryParam, param_views, query_string, query_text};
use crate::{Kiln, KilnView};

verus! {

/// The HTTP method of a call.
#[derive(Clone, Copy, Debug, PartialEq, Eq, Structural)]
pub enum Method {
    Get,
    Post,
    Put,
    Delete,
}

/// What a call asks for: a JSON envelope, or raw bytes of a report.
#[derive(Clone, Copy, Debug, PartialEq, Eq, Structural)]
pub enum Accept {
    Json,
    OctetStream,
}

/// The `Accept` header value of each kind of call.
pub open spec fn accept_text(a: Accept) -> Seq<char> {
    match a {
        Accept::Json => "application/json; charset=utf-8"@,
        Accept::OctetStream => "application/octet-stream"@,
    }
}

impl Accept {
    /// The value of the `Accept` header.
    pub fn header_value(&self) -> (r: &'static str)
        ensures
            r@ == accept_text(*self),
    {
        match self {
            Accept::Json => "application/json; charset=utf-8",
            Accept::OctetStream => "application/octet-stream",
        }
    }
}

/// One HTTP call: method, full URL, `Accept` and `Authorization` headers, and
/// the JSON body of a write.
pub struct Request {
    pub method: Method,
    pub url: String,
    pub accept: Accept,
    pub authorization: String,
    pub body: Option<String>,
}

pub struct RequestView {
    pub method: Method,
    pub url: Seq<char>,
    pub accept: Accept,
    pub authorization: Seq<char>,
    pub body: Option<Seq<char>>,
}

impl View for Request {
    type V = RequestView;

    open spec fn view(&self) -> RequestView {
        RequestView {
            method: self.method,
            url: self.url@,
            accept: self.accept,
            authorization: self.authorization@,
            body: match self.body {
                Some(b) => Some(b@),
                None => None,
            },
        }
    }
}

/// The base URL of one chain or domain and the `Authorization` value.
pub struct EndpointView {
    pub base_url: Seq<char>,
    pub authorization: Seq<char>,
}

/// The endpoint of the chain or domain under `prefix`: the handle's URL with
/// `/prefix` appended, and `Bearer <token>`.
pub open spec fn chain_endpoint(k: KilnView, prefix: Seq<char>) -> EndpointView {
    EndpointView {
        base_url: k.base_url + seq!['/'] + prefix,
        authorization: "Bearer "@ + k.api_token,
    }
}

/// `base/resource`.
pub open spec fn resource_url(base: Seq<char>, resource: Seq<char>) -> Seq<char> {
    base + seq!['/'] + resource
}

/// `base/resource?query`.
pub open spec fn query_url(
    base: Seq<char>,
    resource: Seq<char>,
    params: Seq<(Seq<char>, Seq<char>)>,
) -> Seq<char> {
    resource_url(base, resource) + seq!['?'] + query_text(params)
}

/// `base/resource?&query`: the form of the on-chain staking routes, whose
/// query starts with an empty field.
pub open spec fn query_url_amp(
    base: Seq<char>,
    resource: Seq<char>,
    params: Seq<(Seq<char>, Seq<char>)>,
) -> Seq<char> {
    resource_url(base, resource) + seq!['?', '&'] + query_text(params)
}

/// The call that an endpoint makes to `url`.
pub open spec fn call(
    e: EndpointView,
    method: Method,
    accept: Accept,
    url: Seq<char>,
    body: Option<Seq<char>>,
) -> RequestView {
    RequestView { method, url, accept, authorization: e.authorization, body }
}

/// A read of a JSON envelope.
pub open spec fn get_json(e: EndpointView, url: Seq<char>) -> RequestView {
    call(e, Method::Get, Accept::Json, url, None)
}

/// A download of raw bytes.
pub open spec fn get_bytes(e: EndpointView, url: Seq<char>) -> RequestView {
    call(e, Method::Get, Accept::OctetStream, url, None)
}

/// A write with a JSON body, answered by a JSON envelope.
pub open spec fn send_json(e: EndpointView, method: Method, url: Seq<char>, body: Seq<char>) -> RequestView {
    call(e, method, Accept::Json, url, Some(body))
}

/// The base URL and `Authorization` value shared by all calls of one client.
#[derive(Clone, Debug)]
pub struct Endpoint {
    base_url: String,
    authorization: String,
}

impl View for Endpoint {
    type V = EndpointView;

    closed spec fn view(&self) -> EndpointView {
        EndpointView { base_url: self.base_url@, authorization: self.authorization@ }
    }
}

impl Endpoint {
    /// The endpoint of the chain or domain whose path segment is `prefix`.
    pub fn for_chain(kiln: &Kiln, prefix: &str) -> (r: Endpoint)
        ensures
            r@ == chain_endpoint(kiln@, prefix@),
    {
        let mut base_url = String::from_str(kiln.base_url());
        base_url.append("/");
        base_url.append(prefix);
        let mut authorization = String::from_str("Bearer ");
        authorization.append(kiln.api_token());
        proof {
            reveal_strlit("/");
            assert("/"@ =~= seq!['/']);
        }
        Endpoint { base_url, authorization }
    }

    pub fn base_url(&self) -> (r: &str)
        ensures
            r@ == self@.base_url,
    {
        self.base_url.as_str()
    }

    pub fn authorization(&self) -> (r: &str)
        ensures
            r@ == self@.authorization,
    {
        self.authorization.as_str()
    }

    /// `base/resource`.
    pub fn url(&self, resource: &str) -> (r: String)
        ensures
            r@ == resource_url(self@.base_url, resource@),
    {
        let mut u = self.base_url.clone();
        u.append("/");
        u.append(resource);
        proof {
            reveal_strlit("/");
            assert("/"@ =~= seq!['/']);
        }
        u
    }

    /// `base/resource?query`, the query built from `params` in order.
    pub fn url_with_query(&self, resource: &str, params: &Vec<QueryParam>) -> (r: String)
        ensures
            r@ == query_url(self@.base_url, resource@, param_views(params@)),
    {
        let mut u = self.url(resource);
        u.append("?");
        let q = query_string(params);
        u.append(q.as_str());
        proof {
            reveal_strlit("?");
            assert("?"@ =~= seq!['?']);
        }
        u
    }

    /// `base/resource?&query`, the query built from `params` in order.
    pub fn url_with_amp_query(&self, resource: &str, params: &Vec<QueryParam>) -> (r: String)
        ensures
            r@ == query_url_amp(self@.base_url, resource@, param_views(params@)),
    {
        let mut u = self.url(resource);
        u.append("?&");
        let q = query_string(params);
        u.append(q.as_str());
        proof {
            reveal_strlit("?&");
            assert("?&"@ =~= seq!['?', '&']);
        }
        u
    }

    fn call(&self, method: Method, accept: Accept, url: String, body: Option<String>) -> (r: Request)
        ensures
            r@ == call(self@, method, accept, url@, match body { Some(b) => Some(b@), None => None }),
    {
        Request { method, url, accept, authorization: self.authorization.clone(), body }
    }

    /// A read of a JSON envelope from `url`.
    pub fn get_json(&self, url: String) -> (r: Request)
        ensures
            r@ == get_json(self@, url@),
    {
        self.call(Method::Get, Accept::Json, url, None)
    }

    /// A download of the raw bytes at `url`.
    pub fn get_bytes(&self, url: String) -> (r: Request)
        ensures
            r@ == get_bytes(self@, url@),
    {
        self.call(Method::Get, Accept::OctetStream, url, None)
    }

    /// A write of the JSON text `body` to `url`.
    pub fn send_json(&self, method: Method, url: String, body: String) -> (r: Request)
        ensures
            r@ == send_json(self@, method, url@, body@),
    {
        self.call(method, Accept::Json, url, Some(body))
    }

    /// A JSON read with no body and no query, such as a delete.
    pub fn call_json(&self, method: Method, url: String) -> (r: Request)
        ensures
            r@ == call(self@, method, Accept::Json, url@, None),
    {
        self.call(method, Accept::Json, url, None)
    }
}

} // verus!
