use vstd::prelude::*;
use vstd::string::StringSliceAdditionalSpecFns;
use crate::client::{endpoint, listing, plain, text_param, with_body, Client, Endpoint, Method, Payload};
use crate::encode::{digits, percent_encoded, push_bytes, push_digits, push_encoded};
use crate::url::{build_query, bytes_of, query_string, Param};

verus! {

/// The users endpoints of a payments service.
pub struct Users {
    pub client: Client,
}

/// The filters of a user listing, in the service's order.
pub open spec fn user_filters(department_id: &str, location_id: &str) -> Seq<(Seq<u8>, Seq<u8>)> {
    seq![
        ("department_id".spec_bytes(), department_id.spec_bytes()),
        ("location_id".spec_bytes(), location_id.spec_bytes()),
    ]
}

/// The parameters of one page of users: the filters, the page size, then the cursor.
pub open spec fn user_page_params(start: &str, page_size: u64, department_id: &str, location_id: &str) -> Seq<
    (Seq<u8>, Seq<u8>),
> {
    user_filters(department_id, location_id).push(("page_size".spec_bytes(), digits(page_size as nat))).push(
        ("start".spec_bytes(), start.spec_bytes()),
    )
}

fn filters(department_id: &str, location_id: &str) -> (r: Vec<Param>)
    ensures
        r@.map_values(|p: Param| p@) == user_filters(department_id, location_id),
{
    let mut r: Vec<Param> = Vec::new();
    r.push(text_param("department_id", department_id));
    r.push(text_param("location_id", location_id));
    proof {
        assert(r@.map_values(|p: Param| p@) =~= user_filters(department_id, location_id));
    }
    r
}

fn users_query(params: &Vec<Param>) -> (r: Vec<u8>)
    ensures
        r@ == "/users?".spec_bytes() + query_string(params@.map_values(|p: Param| p@)),
{
    let mut path = bytes_of("/users?");
    let q = build_query(params);
    push_bytes(&mut path, q.as_slice());
    path
}

/// `prefix` followed by the encoded identifier.
fn path_with_id(prefix: &str, id: &str) -> (r: Vec<u8>)
    ensures
        r@ == prefix.spec_bytes() + percent_encoded(id.spec_bytes()),
{
    let mut p = bytes_of(prefix);
    push_encoded(&mut p, id.as_bytes());
    p
}

impl Users {
    pub fn new(client: Client) -> (r: Users)
        ensures
            r.client.base_url@ == client.base_url@,
            r.client.max_pages == client.max_pages,
    {
        Users { client }
    }

    /// Gets a user: `GET /users/{id}`.
    pub fn get_users_user_id(&self, id: &str) -> (r: Endpoint)
        ensures
            plain(r, Method::Get, "/users/".spec_bytes() + percent_encoded(id.spec_bytes())),
    {
        endpoint(Method::Get, path_with_id("/users/", id), Payload::NoBody, false)
    }

    /// Suspends a user: `DELETE /users/{id}`.
    pub fn delete_users_id(&self, id: &str) -> (r: Endpoint)
        ensures
            plain(r, Method::Delete, "/users/".spec_bytes() + percent_encoded(id.spec_bytes())),
    {
        endpoint(Method::Delete, path_with_id("/users/", id), Payload::NoBody, false)
    }

    /// Modifies a user: `PATCH /users/{id}` with the JSON body.
    pub fn patch_users_id(&self, id: &str, body: Vec<u8>) -> (r: Endpoint)
        ensures
            with_body(r, Method::Patch, "/users/".spec_bytes() + percent_encoded(id.spec_bytes()), body@),
    {
        endpoint(Method::Patch, path_with_id("/users/", id), Payload::Bytes(body), false)
    }

    /// One page of users: `GET /users?department_id=..&location_id=..&page_size=..&start=..`,
    /// each filter and the cursor left out when empty.
    pub fn get_users(&self, start: &str, page_size: u64, department_id: &str, location_id: &str) -> (r:
        Endpoint)
        ensures
            plain(
                r,
                Method::Get,
                "/users?".spec_bytes() + query_string(
                    user_page_params(start, page_size, department_id, location_id),
                ),
            ),
    {
        let mut params = filters(department_id, location_id);
        let ghost f = params@;
        let mut size: Vec<u8> = Vec::new();
        push_digits(&mut size, page_size);
        proof {
            assert(size@ =~= digits(page_size as nat));
        }
        params.push(Param { key: bytes_of("page_size"), value: size });
        params.push(text_param("start", start));
        proof {
            assert(params@.map_values(|p: Param| p@) =~= user_page_params(
                start,
                page_size,
                department_id,
                location_id,
            ));
        }
        endpoint(Method::Get, users_query(&params), Payload::NoBody, false)
    }

    /// All users, over every page: `GET /users?department_id=..&location_id=..`, each filter left
    /// out when empty.
    pub fn get_all_users(&self, department_id: &str, location_id: &str) -> (r: Endpoint)
        ensures
            listing(r, "/users?".spec_bytes() + query_string(user_filters(department_id, location_id))),
    {
        let params = filters(department_id, location_id);
        endpoint(Method::Get, users_query(&params), Payload::NoBody, true)
    }

    /// Invites a user: `POST /users/deferred` with the JSON body.
    pub fn post_users_deferred(&self, body: Vec<u8>) -> (r: Endpoint)
        ensures
            with_body(r, Method::Post, "/users/deferred".spec_bytes(), body@),
    {
        endpoint(Method::Post, bytes_of("/users/deferred"), Payload::Bytes(body), false)
    }

    /// The status of a deferred user task: `GET /users/deferred/status/{id}`.
    pub fn get_users_deferred_status_id(&self, id: &str) -> (r: Endpoint)
        ensures
            plain(
                r,
                Method::Get,
                "/users/deferred/status/".spec_bytes() + percent_encoded(id.spec_bytes()),
            ),
    {
        endpoint(Method::Get, path_with_id("/users/deferred/status/", id), Payload::NoBody, false)
    }
}

} // verus!
