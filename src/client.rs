use vstd::prelude::*;
use vstd::string::StringSliceAdditionalSpecFns;
use crate::encode::{decimal, push_decimal};
use crate::url::Param;

verus! {

/// The HTTP verb of an endpoint.
#[derive(Clone, Copy, Debug, PartialEq, Eq, Structural)]
pub enum Method {
    Get,
    Post,
    Patch,
    Put,
    Delete,
}

/// What a request carries: no body at all, or these bytes (which may be none, to send an
/// explicit zero-length body).
#[derive(Debug)]
pub enum Payload {
    NoBody,
    Bytes(Vec<u8>),
}

/// One resolved call: verb, request path (with its query), payload, and whether the result is
/// gathered over all pages.
#[derive(Debug)]
pub struct Endpoint {
    pub method: Method,
    pub path: Vec<u8>,
    pub payload: Payload,
    pub paginated: bool,
}

/// What a client needs to reach a service: the base address and the most pages that one listing
/// may fetch.
#[derive(Debug)]
pub struct Client {
    pub base_url: String,
    pub max_pages: u64,
}

impl Client {
    pub fn new(base_url: String, max_pages: u64) -> (r: Client)
        ensures
            r.base_url@ == base_url@,
            r.max_pages == max_pages,
    {
        Client { base_url, max_pages }
    }
}

/// An endpoint with this verb and path, no payload, fetched once.
pub open spec fn plain(e: Endpoint, method: Method, path: Seq<u8>) -> bool {
    e.method == method && e.path@ == path && e.payload is NoBody && !e.paginated
}

/// An endpoint with this verb and path that carries exactly `body`, fetched once.
pub open spec fn with_body(e: Endpoint, method: Method, path: Seq<u8>, body: Seq<u8>) -> bool {
    e.method == method && e.path@ == path && (e.payload matches Payload::Bytes(b) && b@ == body)
        && !e.paginated
}

/// A `GET` at this path whose result is gathered over all pages.
pub open spec fn listing(e: Endpoint, path: Seq<u8>) -> bool {
    e.method == Method::Get && e.path@ == path && e.payload is NoBody && e.paginated
}

pub fn endpoint(method: Method, path: Vec<u8>, payload: Payload, paginated: bool) -> (r: Endpoint)
    ensures
        r.method == method,
        r.path@ == path@,
        r.payload == payload,
        r.paginated == paginated,
{
    Endpoint { method, path, payload, paginated }
}

/// The `page` and `per_page` parameters, in that order.
pub open spec fn paging(page: i64, per_page: i64) -> Seq<(Seq<u8>, Seq<u8>)> {
    seq![("page".spec_bytes(), decimal(page as int)), ("per_page".spec_bytes(), decimal(per_page as int))]
}

/// A parameter whose value is the UTF-8 text of `value`.
pub fn text_param(key: &str, value: &str) -> (r: Param)
    ensures
        r@ == (key.spec_bytes(), value.spec_bytes()),
{
    Param { key: crate::url::bytes_of(key), value: crate::url::bytes_of(value) }
}

/// A parameter whose value is the canonical decimal form of `value`.
pub fn int_param(key: &str, value: i64) -> (r: Param)
    ensures
        r@ == (key.spec_bytes(), decimal(value as int)),
{
    let mut v: Vec<u8> = Vec::new();
    push_decimal(&mut v, value);
    proof {
        assert(v@ =~= decimal(value as int));
    }
    Param { key: crate::url::bytes_of(key), value: v }
}

/// The `page` and `per_page` parameters, in that order.
pub fn paging_params(page: i64, per_page: i64) -> (r: Vec<Param>)
    ensures
        r@.map_values(|p: Param| p@) == paging(page, per_page),
{
    let mut r: Vec<Param> = Vec::new();
    r.push(int_param("page", page));
    r.push(int_param("per_page", per_page));
    proof {
        assert(r@.map_values(|p: Param| p@) =~= paging(page, per_page));
    }
    r
}

} // verus!
