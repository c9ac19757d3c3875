use api_bindings::client::{Client, Method, Payload};
use api_bindings::encode::{encode_path, to_decimal};
use api_bindings::link::next_link;
use api_bindings::gists::Gists;
use api_bindings::time::Timestamp;
use api_bindings::url::{build_query, request_url, resolve_path, Param, PathPart};
use api_bindings::users::Users;

fn param(k: &str, v: &str) -> Param {
    Param { key: k.as_bytes().to_vec(), value: v.as_bytes().to_vec() }
}

fn gists() -> Gists {
    Gists::new(Client::new("https://api.example.com".to_string(), 10))
}

fn users() -> Users {
    Users::new(Client::new("https://api.example.com/v1".to_string(), 10))
}

#[test]
fn identifier_with_space_is_encoded() {
    let parts = vec![
        PathPart::Literal("/resource/".to_string()),
        PathPart::Identifier("abc def".to_string()),
    ];
    assert_eq!(resolve_path(&parts), b"/resource/abc%20def".to_vec());
}

#[test]
fn reserved_characters_are_encoded() {
    assert_eq!(encode_path("a/b?c#d e"), b"a%2Fb%3Fc%23d%20e".to_vec());
    let parts = vec![
        PathPart::Literal("/r/".to_string()),
        PathPart::Identifier("../x?y=1#z".to_string()),
        PathPart::Literal("/end".to_string()),
    ];
    let p = resolve_path(&parts);
    assert_eq!(p, b"/r/..%2Fx%3Fy%3D1%23z/end".to_vec());
    assert!(!p.contains(&b'?'));
    assert!(!p.contains(&b'#'));
    assert_eq!(p.iter().filter(|b| **b == b'/').count(), 3);
}

#[test]
fn unreserved_characters_stay() {
    assert_eq!(encode_path("Az09-._~"), b"Az09-._~".to_vec());
    assert_eq!(encode_path(""), Vec::<u8>::new());
}

#[test]
fn non_ascii_is_encoded_by_utf8_bytes() {
    assert_eq!(encode_path("é"), b"%C3%A9".to_vec());
    assert_eq!(encode_path("%"), b"%25".to_vec());
}

#[test]
fn empty_values_are_omitted() {
    let q = build_query(&vec![param("a", "1"), param("b", ""), param("c", "3"), param("d", "")]);
    assert_eq!(q, b"a=1&c=3".to_vec());
    let q = build_query(&vec![param("a", ""), param("b", "2")]);
    assert_eq!(q, b"b=2".to_vec());
    let q = build_query(&vec![param("a", ""), param("b", "")]);
    assert_eq!(q, Vec::<u8>::new());
    assert_eq!(build_query(&vec![]), Vec::<u8>::new());
}

#[test]
fn decimal_forms() {
    assert_eq!(to_decimal(0), b"0".to_vec());
    assert_eq!(to_decimal(42), b"42".to_vec());
    assert_eq!(to_decimal(-7), b"-7".to_vec());
    assert_eq!(to_decimal(1000000), b"1000000".to_vec());
    assert_eq!(to_decimal(i64::MIN), b"-9223372036854775808".to_vec());
    assert_eq!(to_decimal(i64::MAX), b"9223372036854775807".to_vec());
}

#[test]
fn timestamps_are_checked() {
    assert!(Timestamp::new(2020, 2, 29, 0, 0, 0).is_some());
    assert!(Timestamp::new(2021, 2, 29, 0, 0, 0).is_none());
    assert!(Timestamp::new(1900, 2, 29, 0, 0, 0).is_none());
    assert!(Timestamp::new(2000, 2, 29, 0, 0, 0).is_some());
    assert!(Timestamp::new(2020, 4, 31, 0, 0, 0).is_none());
    assert!(Timestamp::new(2020, 13, 1, 0, 0, 0).is_none());
    assert!(Timestamp::new(2020, 1, 1, 24, 0, 0).is_none());
    assert!(Timestamp::new(10000, 1, 1, 0, 0, 0).is_none());
}

#[test]
fn timestamp_is_iso8601_utc() {
    let t = Timestamp::new(2020, 1, 2, 3, 4, 5).unwrap();
    assert_eq!(t.iso8601(), b"2020-01-02T03:04:05Z".to_vec());
    let t = Timestamp::new(7, 12, 31, 23, 59, 59).unwrap();
    assert_eq!(t.iso8601(), b"0007-12-31T23:59:59Z".to_vec());
}

#[test]
fn gist_get_encodes_identifier() {
    let e = gists().get("a/b");
    assert_eq!(e.method, Method::Get);
    assert_eq!(e.path, b"/gists/a%2Fb".to_vec());
    assert!(matches!(e.payload, Payload::NoBody));
    assert!(!e.paginated);
}

#[test]
fn gist_listing_has_paging_and_since() {
    let since = Timestamp::new(2020, 1, 2, 3, 4, 5).unwrap();
    let e = gists().list(since, 30, 2);
    assert_eq!(e.path, b"/gists?page=2&per_page=30&since=2020-01-02T03:04:05Z".to_vec());
    assert!(e.paginated);
    let e = gists().list_for_user("o k", since, 100, 1);
    assert_eq!(
        e.path,
        b"/users/o%20k/gists?page=1&per_page=100&since=2020-01-02T03:04:05Z".to_vec()
    );
    let e = gists().list_public(since, 1, 1);
    assert_eq!(e.path, b"/gists/public?page=1&per_page=1&since=2020-01-02T03:04:05Z".to_vec());
    let e = gists().list_starred(since, 1, 1);
    assert_eq!(e.path, b"/gists/starred?page=1&per_page=1&since=2020-01-02T03:04:05Z".to_vec());
}

#[test]
fn gist_subresources() {
    let g = gists();
    assert_eq!(g.list_comments("x", 5, 3).path, b"/gists/x/comments?page=3&per_page=5".to_vec());
    assert_eq!(g.list_commits("x", 5, 3).path, b"/gists/x/commits?page=3&per_page=5".to_vec());
    assert_eq!(g.list_forks("x", 5, 3).path, b"/gists/x/forks?page=3&per_page=5".to_vec());
    assert_eq!(g.get_comment("x", 17).path, b"/gists/x/comments/17".to_vec());
    assert_eq!(g.delete_comment("x", -1).path, b"/gists/x/comments/-1".to_vec());
    assert_eq!(g.delete_comment("x", -1).method, Method::Delete);
    assert_eq!(g.get_revision("x", "ab c").path, b"/gists/x/ab%20c".to_vec());
    assert_eq!(g.fork("x").path, b"/gists/x/forks".to_vec());
    assert_eq!(g.fork("x").method, Method::Post);
    assert_eq!(g.check_is_starred("x").path, b"/gists/x/star".to_vec());
    assert_eq!(g.unstar("x").method, Method::Delete);
    assert_eq!(g.delete("x").path, b"/gists/x".to_vec());
}

#[test]
fn gist_bodies() {
    let g = gists();
    let e = g.create(b"{\"public\":true}".to_vec());
    assert_eq!(e.method, Method::Post);
    assert_eq!(e.path, b"/gists".to_vec());
    assert!(matches!(e.payload, Payload::Bytes(ref b) if b == b"{\"public\":true}"));
    let e = g.update("x", b"{}".to_vec());
    assert_eq!(e.method, Method::Patch);
    assert!(matches!(e.payload, Payload::Bytes(ref b) if b == b"{}"));
    let e = g.create_comment("x", b"{}".to_vec());
    assert_eq!(e.path, b"/gists/x/comments".to_vec());
    let e = g.update_comment("x", 9, b"{}".to_vec());
    assert_eq!(e.path, b"/gists/x/comments/9".to_vec());
    assert_eq!(e.method, Method::Patch);
}

#[test]
fn star_sends_explicit_empty_body() {
    let e = gists().star("x");
    assert_eq!(e.method, Method::Put);
    assert_eq!(e.path, b"/gists/x/star".to_vec());
    assert!(matches!(e.payload, Payload::Bytes(ref b) if b.is_empty()));
}

#[test]
fn user_listing_omits_empty_filters() {
    let u = users();
    let e = u.get_users("", 1000, "d1", "");
    assert_eq!(e.path, b"/users?department_id=d1&page_size=1000".to_vec());
    assert!(!e.paginated);
    let e = u.get_users("c9", 2, "", "l2");
    assert_eq!(e.path, b"/users?location_id=l2&page_size=2&start=c9".to_vec());
    let e = u.get_all_users("", "");
    assert_eq!(e.path, b"/users?".to_vec());
    assert!(e.paginated);
    let e = u.get_all_users("d", "l");
    assert_eq!(e.path, b"/users?department_id=d&location_id=l".to_vec());
}

#[test]
fn user_single_resources() {
    let u = users();
    assert_eq!(u.get_users_user_id("u 1").path, b"/users/u%201".to_vec());
    assert_eq!(u.get_users_user_id("u 1").method, Method::Get);
    let e = u.delete_users_id("a/b");
    assert_eq!(e.method, Method::Delete);
    assert_eq!(e.path, b"/users/a%2Fb".to_vec());
    let e = u.patch_users_id("42", b"{\"role\":\"x\"}".to_vec());
    assert_eq!(e.method, Method::Patch);
    assert_eq!(e.path, b"/users/42".to_vec());
    assert!(matches!(e.payload, Payload::Bytes(ref b) if b == b"{\"role\":\"x\"}"));
    let e = u.post_users_deferred(b"{}".to_vec());
    assert_eq!(e.path, b"/users/deferred".to_vec());
    assert_eq!(e.method, Method::Post);
    assert_eq!(u.get_users_deferred_status_id("t?1").path, b"/users/deferred/status/t%3F1".to_vec());
}

#[test]
fn client_keeps_configuration() {
    let g = gists();
    assert_eq!(g.client.base_url, "https://api.example.com");
    assert_eq!(g.client.max_pages, 10);
    assert_eq!(users().client.base_url, "https://api.example.com/v1");
}

#[test]
fn request_url_joins_paths_and_keeps_full_urls() {
    assert_eq!(request_url("https://h.example", b"/gists?page=1"), b"https://h.example/gists?page=1".to_vec());
    assert_eq!(request_url("https://h.example", b"https://o.example/x"), b"https://o.example/x".to_vec());
    assert_eq!(request_url("https://h.example", b"http://o.example/x"), b"http://o.example/x".to_vec());
    assert_eq!(request_url("https://h.example", b"httpx"), b"https://h.examplehttpx".to_vec());
}

#[test]
fn link_header_next_entry() {
    let h = br#"<https://api.example.com/gists?page=2>; rel="next", <https://api.example.com/gists?page=5>; rel="last""#;
    assert_eq!(next_link(h), Some(b"https://api.example.com/gists?page=2".to_vec()));
    let h = br#"<https://a/x?page=1>; rel="prev", <https://a/x?page=3>; rel="next""#;
    assert_eq!(next_link(h), Some(b"https://a/x?page=3".to_vec()));
    let h = br#"<https://a/x?page=1>; rel="prev", <https://a/x?page=1>; rel="first""#;
    assert_eq!(next_link(h), None);
    assert_eq!(next_link(b""), None);
    assert_eq!(next_link(br#"rel="next""#), None);
}
