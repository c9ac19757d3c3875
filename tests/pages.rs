use api_bindings::pager::{PageStep, Pager};
use api_bindings::response::{check_status, decoded, finish, ClientError};

/// Drives a listing against a server given as a function from address to page and
/// continuation, counting the requests.
fn drive(
    base: &str,
    first: &[u8],
    max_pages: u64,
    server: impl Fn(&[u8]) -> (Vec<u64>, Option<Vec<u8>>),
) -> (Result<Vec<u64>, ClientError>, Vec<Vec<u8>>) {
    let mut pager: Pager<u64> = Pager::new(base, first, max_pages);
    let mut address = pager.current().clone();
    let mut requests = vec![];
    loop {
        requests.push(address.clone());
        let (items, next) = server(&address);
        match pager.accept(items, next) {
            PageStep::Fetch(u) => address = u,
            step => return (finish(pager, step), requests),
        }
    }
}

/// Reads `{"items":[..],"next":..}` the way a cursor envelope is decoded.
fn cursor_page(body: &str) -> (Vec<u64>, Option<Vec<u8>>) {
    let v: serde_json::Value = serde_json::from_str(body).unwrap();
    let items = v["items"].as_array().unwrap().iter().map(|i| i.as_u64().unwrap()).collect();
    let next = v["next"].as_str().map(|s| s.as_bytes().to_vec());
    (items, next)
}

#[test]
fn cursor_pages_are_concatenated() {
    let (r, requests) = drive("", b"page1", 10, |a| match a {
        b"page1" => cursor_page(r#"{"items":[1,2],"next":"page2"}"#),
        b"page2" => cursor_page(r#"{"items":[3],"next":null}"#),
        _ => panic!("unexpected request"),
    });
    assert_eq!(r.unwrap(), vec![1, 2, 3]);
    assert_eq!(requests, vec![b"page1".to_vec(), b"page2".to_vec()]);
}

#[test]
fn n_pages_take_n_requests() {
    let (r, requests) = drive("", b"pg0", 10, |a| {
        let k: u64 = std::str::from_utf8(&a[2..]).unwrap().parse().unwrap();
        let next = if k < 4 { Some(format!("pg{}", k + 1).into_bytes()) } else { None };
        (vec![k * 10, k * 10 + 1], next)
    });
    assert_eq!(r.unwrap(), vec![0, 1, 10, 11, 20, 21, 30, 31, 40, 41]);
    assert_eq!(requests.len(), 5);
}

#[test]
fn single_page_without_continuation() {
    let (r, requests) = drive("", b"only", 1, |_| (vec![7], None));
    assert_eq!(r.unwrap(), vec![7]);
    assert_eq!(requests.len(), 1);
}

#[test]
fn endless_continuation_stops_at_bound() {
    let (r, requests) = drive("", b"pg0", 5, |a| {
        let mut next = a.to_vec();
        next.push(b'x');
        (vec![1], Some(next))
    });
    assert!(matches!(r, Err(ClientError::PageLimit { max_pages: 5 })));
    assert_eq!(requests.len(), 5);
}

#[test]
fn repeated_continuation_is_refused() {
    let (r, requests) = drive("", b"a", 10, |a| match a {
        b"a" => (vec![1], Some(b"b".to_vec())),
        _ => (vec![2], Some(b"a".to_vec())),
    });
    assert!(matches!(r, Err(ClientError::RepeatedPage { ref address }) if address == b"a"));
    assert_eq!(requests, vec![b"a".to_vec(), b"b".to_vec()]);
}

#[test]
fn pager_accumulates_in_order() {
    let mut p: Pager<u64> = Pager::new("", b"x", 3);
    assert!(matches!(p.accept(vec![5, 6], Some(b"y".to_vec())), PageStep::Fetch(ref u) if u == b"y"));
    assert!(matches!(p.accept(vec![], Some(b"z".to_vec())), PageStep::Fetch(_)));
    assert!(matches!(p.accept(vec![7], Some(b"w".to_vec())), PageStep::LimitReached));
    assert_eq!(p.into_items(), vec![5, 6, 7]);
}

#[test]
fn not_found_is_an_http_error() {
    let body = br#"{"message":"Not Found"}"#.to_vec();
    match check_status(404, body.clone()) {
        Err(ClientError::Http { status, body: b }) => {
            assert_eq!(status, 404);
            assert_eq!(b, body);
        }
        other => panic!("unexpected {:?}", other),
    }
    assert!(matches!(check_status(500, vec![]), Err(ClientError::Http { status: 500, .. })));
    assert!(matches!(check_status(199, vec![]), Err(ClientError::Http { status: 199, .. })));
    assert!(matches!(check_status(300, vec![]), Err(ClientError::Http { status: 300, .. })));
}

#[test]
fn success_body_goes_on() {
    assert_eq!(check_status(200, b"{}".to_vec()).unwrap(), b"{}".to_vec());
    assert_eq!(check_status(204, vec![]).unwrap(), Vec::<u8>::new());
    assert_eq!(check_status(299, b"x".to_vec()).unwrap(), b"x".to_vec());
}

#[test]
fn missing_field_is_a_decode_error_with_raw_body() {
    let raw = br#"{"name":"x"}"#.to_vec();
    let v: serde_json::Value = serde_json::from_slice(&raw).unwrap();
    let outcome: Result<u64, String> = match v.get("id").and_then(|i| i.as_u64()) {
        Some(id) => Ok(id),
        None => Err("missing field `id`".to_string()),
    };
    match decoded(raw.clone(), outcome) {
        Err(ClientError::Decode { raw: r, cause }) => {
            assert_eq!(r, raw);
            assert!(cause.contains("id"));
        }
        other => panic!("unexpected {:?}", other),
    }
    assert_eq!(decoded(raw, Ok::<u64, String>(3)).unwrap(), 3);
}

#[test]
fn finished_listing_hands_out_items() {
    let mut p: Pager<u64> = Pager::new("", b"x", 2);
    let step = p.accept(vec![1], None);
    assert_eq!(finish(p, step).unwrap(), vec![1]);
}

#[test]
fn continuation_to_first_page_url_is_refused() {
    let (r, requests) = drive("https://h.example", b"/gists?page=1", 10, |a| match a {
        b"https://h.example/gists?page=1" => (vec![1], Some(b"https://h.example/gists?page=2".to_vec())),
        b"https://h.example/gists?page=2" => (vec![2], Some(b"https://h.example/gists?page=1".to_vec())),
        _ => panic!("unexpected request"),
    });
    assert!(matches!(r, Err(ClientError::RepeatedPage { ref address }) if address == b"https://h.example/gists?page=1"));
    assert_eq!(requests.len(), 2);
}

#[test]
fn relative_continuation_is_resolved_against_base() {
    let (r, requests) = drive("https://h.example", b"/users?", 10, |a| match a {
        b"https://h.example/users?" => (vec![1, 2], Some(b"/users?start=9".to_vec())),
        b"https://h.example/users?start=9" => (vec![3], None),
        _ => panic!("unexpected request"),
    });
    assert_eq!(r.unwrap(), vec![1, 2, 3]);
    assert_eq!(requests, vec![b"https://h.example/users?".to_vec(), b"https://h.example/users?start=9".to_vec()]);
}
