use vstd::prelude::*;
use vstd::string::StringSliceAdditionalSpecFns;
use crate::client::{endpoint, listing, paging, paging_params, plain, with_body, Client, Endpoint, Method, Payload};
use crate::encode::{decimal, percent_encoded, push_bytes, push_encoded, push_str, to_decimal};
use crate::time::{iso8601_bytes, Timestamp};
use crate::url::{build_query, query_string, Param};

verus! {

/// The gists endpoints of a code-hosting service.
pub struct Gists {
    pub client: Client,
}

/// `/gists/{id}` followed by `rest`, with the identifier encoded.
pub open spec fn gist_path(id: Seq<u8>, rest: Seq<u8>) -> Seq<u8> {
    "/gists/".spec_bytes() + percent_encoded(id) + rest
}

/// `/gists/{id}/comments/{comment_id}`.
pub open spec fn comment_path(id: Seq<u8>, comment_id: i64) -> Seq<u8> {
    gist_path(id, "/comments/".spec_bytes()) + percent_encoded(decimal(comment_id as int))
}

/// The paging parameters followed by `since`.
pub open spec fn paging_since(page: i64, per_page: i64, since: Timestamp) -> Seq<(Seq<u8>, Seq<u8>)> {
    paging(page, per_page).push(("since".spec_bytes(), iso8601_bytes(since)))
}

fn path_under_gist(id: &str, rest: &str) -> (r: Vec<u8>)
    ensures
        r@ == gist_path(id.spec_bytes(), rest.spec_bytes()),
{
    let mut p: Vec<u8> = Vec::new();
    push_str(&mut p, "/gists/");
    push_encoded(&mut p, id.as_bytes());
    push_str(&mut p, rest);
    proof {
        assert(p@ =~= gist_path(id.spec_bytes(), rest.spec_bytes()));
    }
    p
}

fn path_of_gist(id: &str) -> (r: Vec<u8>)
    ensures
        r@ == gist_path(id.spec_bytes(), Seq::empty()),
{
    let mut p: Vec<u8> = Vec::new();
    push_str(&mut p, "/gists/");
    push_encoded(&mut p, id.as_bytes());
    proof {
        assert(p@ =~= gist_path(id.spec_bytes(), Seq::empty()));
    }
    p
}

fn path_of_comment(id: &str, comment_id: i64) -> (r: Vec<u8>)
    ensures
        r@ == comment_path(id.spec_bytes(), comment_id),
{
    let mut p = path_under_gist(id, "/comments/");
    let c = to_decimal(comment_id);
    push_encoded(&mut p, c.as_slice());
    p
}

fn append_query(path: Vec<u8>, params: &Vec<Param>) -> (r: Vec<u8>)
    ensures
        r@ == path@ + query_string(params@.map_values(|p: Param| p@)),
{
    let mut path = path;
    let q = build_query(params);
    push_bytes(&mut path, q.as_slice());
    path
}

fn since_params(page: i64, per_page: i64, since: Timestamp) -> (r: Vec<Param>)
    requires
        since.wf(),
    ensures
        r@.map_values(|p: Param| p@) == paging_since(page, per_page, since),
{
    let mut r = paging_params(page, per_page);
    let ghost before = r@;
    r.push(Param { key: crate::url::bytes_of("since"), value: since.iso8601() });
    proof {
        assert(r@ =~= before.push(r@.last()));
        assert(r@.map_values(|p: Param| p@) =~= paging_since(page, per_page, since));
    }
    r
}

fn listing_with_since(prefix: Vec<u8>, since: Timestamp, per_page: i64, page: i64) -> (r: Endpoint)
    requires
        since.wf(),
    ensures
        listing(r, prefix@ + query_string(paging_since(page, per_page, since))),
{
    let params = since_params(page, per_page, since);
    endpoint(Method::Get, append_query(prefix, &params), Payload::NoBody, true)
}

fn listing_under_gist(gist_id: &str, rest: &str, per_page: i64, page: i64) -> (r: Endpoint)
    ensures
        listing(r, gist_path(gist_id.spec_bytes(), rest.spec_bytes()) + query_string(paging(page, per_page))),
{
    let params = paging_params(page, per_page);
    endpoint(Method::Get, append_query(path_under_gist(gist_id, rest), &params), Payload::NoBody, true)
}

impl Gists {
    pub fn new(client: Client) -> (r: Gists)
        ensures
            r.client.base_url@ == client.base_url@,
            r.client.max_pages == client.max_pages,
    {
        Gists { client }
    }

    /// Lists the authenticated user's gists: `GET /gists?page=..&per_page=..&since=..`, all pages.
    pub fn list(&self, since: Timestamp, per_page: i64, page: i64) -> (r: Endpoint)
        requires
            since.wf(),
        ensures
            listing(r, "/gists?".spec_bytes() + query_string(paging_since(page, per_page, since))),
    {
        listing_with_since(crate::url::bytes_of("/gists?"), since, per_page, page)
    }

    /// Creates a gist: `POST /gists` with the JSON body.
    pub fn create(&self, body: Vec<u8>) -> (r: Endpoint)
        ensures
            with_body(r, Method::Post, "/gists".spec_bytes(), body@),
    {
        endpoint(Method::Post, crate::url::bytes_of("/gists"), Payload::Bytes(body), false)
    }

    /// Lists public gists: `GET /gists/public?page=..&per_page=..&since=..`, all pages.
    pub fn list_public(&self, since: Timestamp, per_page: i64, page: i64) -> (r: Endpoint)
        requires
            since.wf(),
        ensures
            listing(r, "/gists/public?".spec_bytes() + query_string(paging_since(page, per_page, since))),
    {
        listing_with_since(crate::url::bytes_of("/gists/public?"), since, per_page, page)
    }

    /// Lists starred gists: `GET /gists/starred?page=..&per_page=..&since=..`, all pages.
    pub fn list_starred(&self, since: Timestamp, per_page: i64, page: i64) -> (r: Endpoint)
        requires
            since.wf(),
        ensures
            listing(r, "/gists/starred?".spec_bytes() + query_string(paging_since(page, per_page, since))),
    {
        listing_with_since(crate::url::bytes_of("/gists/starred?"), since, per_page, page)
    }

    /// Gets a gist: `GET /gists/{gist_id}`.
    pub fn get(&self, gist_id: &str) -> (r: Endpoint)
        ensures
            plain(r, Method::Get, gist_path(gist_id.spec_bytes(), Seq::empty())),
    {
        endpoint(Method::Get, path_of_gist(gist_id), Payload::NoBody, false)
    }

    /// Deletes a gist: `DELETE /gists/{gist_id}`.
    pub fn delete(&self, gist_id: &str) -> (r: Endpoint)
        ensures
            plain(r, Method::Delete, gist_path(gist_id.spec_bytes(), Seq::empty())),
    {
        endpoint(Method::Delete, path_of_gist(gist_id), Payload::NoBody, false)
    }

    /// Updates a gist: `PATCH /gists/{gist_id}` with the JSON body.
    pub fn update(&self, gist_id: &str, body: Vec<u8>) -> (r: Endpoint)
        ensures
            with_body(r, Method::Patch, gist_path(gist_id.spec_bytes(), Seq::empty()), body@),
    {
        endpoint(Method::Patch, path_of_gist(gist_id), Payload::Bytes(body), false)
    }

    /// Lists a gist's comments: `GET /gists/{gist_id}/comments?page=..&per_page=..`, all pages.
    pub fn list_comments(&self, gist_id: &str, per_page: i64, page: i64) -> (r: Endpoint)
        ensures
            listing(r, gist_path(gist_id.spec_bytes(), "/comments?".spec_bytes()) + query_string(paging(page, per_page))),
    {
        listing_under_gist(gist_id, "/comments?", per_page, page)
    }

    /// Comments on a gist: `POST /gists/{gist_id}/comments` with the JSON body.
    pub fn create_comment(&self, gist_id: &str, body: Vec<u8>) -> (r: Endpoint)
        ensures
            with_body(r, Method::Post, gist_path(gist_id.spec_bytes(), "/comments".spec_bytes()), body@),
    {
        endpoint(Method::Post, path_under_gist(gist_id, "/comments"), Payload::Bytes(body), false)
    }

    /// Gets a comment: `GET /gists/{gist_id}/comments/{comment_id}`.
    pub fn get_comment(&self, gist_id: &str, comment_id: i64) -> (r: Endpoint)
        ensures
            plain(r, Method::Get, comment_path(gist_id.spec_bytes(), comment_id)),
    {
        endpoint(Method::Get, path_of_comment(gist_id, comment_id), Payload::NoBody, false)
    }

    /// Deletes a comment: `DELETE /gists/{gist_id}/comments/{comment_id}`.
    pub fn delete_comment(&self, gist_id: &str, comment_id: i64) -> (r: Endpoint)
        ensures
            plain(r, Method::Delete, comment_path(gist_id.spec_bytes(), comment_id)),
    {
        endpoint(Method::Delete, path_of_comment(gist_id, comment_id), Payload::NoBody, false)
    }

    /// Updates a comment: `PATCH /gists/{gist_id}/comments/{comment_id}` with the JSON body.
    pub fn update_comment(&self, gist_id: &str, comment_id: i64, body: Vec<u8>) -> (r: Endpoint)
        ensures
            with_body(r, Method::Patch, comment_path(gist_id.spec_bytes(), comment_id), body@),
    {
        endpoint(Method::Patch, path_of_comment(gist_id, comment_id), Payload::Bytes(body), false)
    }

    /// Lists a gist's commits: `GET /gists/{gist_id}/commits?page=..&per_page=..`, all pages.
    pub fn list_commits(&self, gist_id: &str, per_page: i64, page: i64) -> (r: Endpoint)
        ensures
            listing(r, gist_path(gist_id.spec_bytes(), "/commits?".spec_bytes()) + query_string(paging(page, per_page))),
    {
        listing_under_gist(gist_id, "/commits?", per_page, page)
    }

    /// Lists a gist's forks: `GET /gists/{gist_id}/forks?page=..&per_page=..`, all pages.
    pub fn list_forks(&self, gist_id: &str, per_page: i64, page: i64) -> (r: Endpoint)
        ensures
            listing(r, gist_path(gist_id.spec_bytes(), "/forks?".spec_bytes()) + query_string(paging(page, per_page))),
    {
        listing_under_gist(gist_id, "/forks?", per_page, page)
    }

    /// Forks a gist: `POST /gists/{gist_id}/forks` with no body.
    pub fn fork(&self, gist_id: &str) -> (r: Endpoint)
        ensures
            plain(r, Method::Post, gist_path(gist_id.spec_bytes(), "/forks".spec_bytes())),
    {
        endpoint(Method::Post, path_under_gist(gist_id, "/forks"), Payload::NoBody, false)
    }

    /// Checks whether a gist is starred: `GET /gists/{gist_id}/star`.
    pub fn check_is_starred(&self, gist_id: &str) -> (r: Endpoint)
        ensures
            plain(r, Method::Get, gist_path(gist_id.spec_bytes(), "/star".spec_bytes())),
    {
        endpoint(Method::Get, path_under_gist(gist_id, "/star"), Payload::NoBody, false)
    }

    /// Stars a gist: `PUT /gists/{gist_id}/star` with an explicit zero-length body, which the
    /// service asks for.
    pub fn star(&self, gist_id: &str) -> (r: Endpoint)
        ensures
            with_body(r, Method::Put, gist_path(gist_id.spec_bytes(), "/star".spec_bytes()), Seq::empty()),
    {
        endpoint(Method::Put, path_under_gist(gist_id, "/star"), Payload::Bytes(Vec::new()), false)
    }

    /// Unstars a gist: `DELETE /gists/{gist_id}/star`.
    pub fn unstar(&self, gist_id: &str) -> (r: Endpoint)
        ensures
            plain(r, Method::Delete, gist_path(gist_id.spec_bytes(), "/star".spec_bytes())),
    {
        endpoint(Method::Delete, path_under_gist(gist_id, "/star"), Payload::NoBody, false)
    }

    /// Gets a revision of a gist: `GET /gists/{gist_id}/{sha}`.
    pub fn get_revision(&self, gist_id: &str, sha: &str) -> (r: Endpoint)
        ensures
            plain(r, Method::Get, gist_path(gist_id.spec_bytes(), "/".spec_bytes()) + percent_encoded(sha.spec_bytes())),
    {
        let mut p = path_under_gist(gist_id, "/");
        push_encoded(&mut p, sha.as_bytes());
        endpoint(Method::Get, p, Payload::NoBody, false)
    }

    /// Lists a user's public gists: `GET /users/{username}/gists?page=..&per_page=..&since=..`,
    /// all pages.
    pub fn list_for_user(&self, username: &str, since: Timestamp, per_page: i64, page: i64) -> (r: Endpoint)
        requires
            since.wf(),
        ensures
            listing(
                r,
                "/users/".spec_bytes() + percent_encoded(username.spec_bytes()) + "/gists?".spec_bytes()
                    + query_string(paging_since(page, per_page, since)),
            ),
    {
        let mut p: Vec<u8> = Vec::new();
        push_str(&mut p, "/users/");
        push_encoded(&mut p, username.as_bytes());
        push_str(&mut p, "/gists?");
        listing_with_since(p, since, per_page, page)
    }
}

} // verus!
