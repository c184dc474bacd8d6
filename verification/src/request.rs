//! A container for the data of one request, as the middleware sees it.

use vstd::prelude::*;
use crate::path::{lemma_strip_query_of_path_and_query, strip_query, strip_query_str};
use crate::router::{lookup, RouteResult};

verus! {

/// The method of a request.
#[derive(Debug)]
pub enum Method {
    Options,
    Get,
    Post,
    Put,
    Delete,
    Head,
    Trace,
    Connect,
    Patch,
    /// A method beyond the standard ones, by name.
    Extension(String),
}

/// The version of HTTP that a request was sent with.
#[derive(Clone, Copy, Debug, PartialEq, Eq, Structural)]
pub enum HttpVersion {
    Http09,
    Http10,
    Http11,
    H2,
    H2c,
}

/// An incoming request as the server's HTTP parser delivered it.
pub struct RequestOrigin {
    /// The request method.
    pub method: Method,
    /// The request target, as sent: path and query string.
    pub uri: String,
    /// The path of the target, as the HTTP parser reported it.
    pub path: String,
    /// The HTTP version.
    pub version: HttpVersion,
    /// The headers, by name and value, in the order received.
    pub headers: Vec<(String, String)>,
    /// The request body.
    pub body: Vec<u8>,
}

impl RequestOrigin {
    /// The origin of a request with the given parts.
    pub fn new(
        method: Method,
        uri: String,
        path: String,
        version: HttpVersion,
        headers: Vec<(String, String)>,
        body: Vec<u8>,
    ) -> (r: RequestOrigin)
        ensures
            r == (RequestOrigin { method, uri, path, version, headers, body }),
    {
        RequestOrigin { method, uri, path, version, headers, body }
    }

    /// The request method.
    pub fn method(&self) -> (r: &Method)
        ensures
            *r == self.method,
    {
        &self.method
    }

    /// The request target, with its query string.
    pub fn uri(&self) -> (r: &str)
        ensures
            r@ == self.uri@,
    {
        self.uri.as_str()
    }

    /// The path of the request target.
    pub fn path(&self) -> (r: &str)
        ensures
            r@ == self.path@,
    {
        self.path.as_str()
    }

    /// The request body.
    pub fn body(&self) -> (r: &[u8])
        ensures
            r@ == self.body@,
    {
        self.body.as_slice()
    }
}

/// The storage in which plugins keep what they have computed for a request,
/// one value per key type.
#[verifier::external_body]
pub struct Extensions {
    pub map: typemap::TypeMap,
}

/// The number of values held in the storage.
pub uninterp spec fn extensions_len(e: Extensions) -> nat;

impl Extensions {
    /// Empty storage, made by `typemap::TypeMap::new`; that map holds no
    /// value when made.
    #[verifier::external_body]
    fn new() -> (e: Extensions)
        ensures
            extensions_len(e) == 0,
    {
        Extensions { map: typemap::TypeMap::new() }
    }
}

/// A container for all the request data.
///
/// The lifetime `'mw` represents the lifetime of various bits of
/// middleware state within the framework. It can vary and get shorter.
pub struct Request<'mw, D: 'mw = ()> {
    /// The request as it came in.
    pub origin: &'mw RequestOrigin,
    /// The parameters of the route that the request matched, once routing
    /// has taken place.
    pub route_result: Option<RouteResult>,
    /// The storage of the plugins' values for this request.
    pub map: Extensions,
    /// The data that the server shares with every request.
    pub data: &'mw D,
}

impl<'mw, D> Request<'mw, D> {
    /// The request that `from_internal` builds of `req` and `data`: it keeps
    /// both, has not been routed yet and holds no extension.
    pub open spec fn fresh(self, req: RequestOrigin, data: D) -> bool {
        &&& *self.origin == req
        &&& self.route_result is None
        &&& extensions_len(self.map) == 0
        &&& *self.data == data
    }

    /// A request just built for a path `p` followed by a query `'?' + q`
    /// has no route yet, shares `data`, and has `p` for its path without
    /// query string.
    pub proof fn lemma_fresh_request(
        r: Request<'mw, D>,
        req: RequestOrigin,
        data: D,
        p: Seq<char>,
        q: Seq<char>,
    )
        requires
            r.fresh(req, data),
            req.path@ == p + seq!['?'] + q,
            forall|k: int| 0 <= k < p.len() ==> p[k] != '?',
        ensures
            *r.data == data,
            r.route_result is None,
            strip_query(r.origin.path@) == p,
    {
        lemma_strip_query_of_path_and_query(p, q);
    }

    /// A request for `req`, sharing the server's `data`, not yet routed,
    /// with empty extension storage.
    pub fn from_internal(req: &'mw RequestOrigin, data: &'mw D) -> (r: Request<'mw, D>)
        ensures
            r.fresh(*req, *data),
    {
        Request { origin: req, route_result: None, map: Extensions::new(), data: data }
    }

    /// The value that the matched route bound to `key`, if it bound one.
    ///
    /// The request must have been routed.
    pub fn param(&self, key: &str) -> (r: Option<&str>)
        requires
            self.route_result is Some,
        ensures
            match r {
                Some(v) => lookup(self.route_result->0@, key@) == Some(v@),
                None => lookup(self.route_result->0@, key@) is None,
            },
    {
        match &self.route_result {
            Some(route_result) => route_result.param(key),
            None => None,
        }
    }

    /// The request's path without its query string: everything up to the
    /// first `'?'`.
    pub fn path_without_query(&self) -> (r: Option<&str>)
        ensures
            r is Some,
            r->0@ == strip_query(self.origin.path@),
    {
        Some(strip_query_str(self.origin.path()))
    }

    /// The data that the server shares with every request.
    pub fn server_data(&self) -> (r: &'mw D)
        ensures
            *r == *self.data,
    {
        self.data
    }

    /// The request's extension storage.
    pub fn extensions(&self) -> (r: &Extensions)
        ensures
            *r == self.map,
    {
        &self.map
    }

    /// The request's extension storage, to change; the rest of the request
    /// stays as it is.
    pub fn extensions_mut(&mut self) -> (r: &mut Extensions)
        ensures
            *r == old(self).map,
            final(self).map == *final(r),
            final(self).origin == old(self).origin,
            final(self).route_result == old(self).route_result,
            final(self).data == old(self).data,
    {
        &mut self.map
    }
}

} // verus!
