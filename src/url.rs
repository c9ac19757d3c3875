use vstd::prelude::*;
use vstd::string::StringSliceAdditionalSpecFns;
use vstd::utf8::encode_utf8;
use crate::link::{at, has_at};
use crate::encode::{is_unreserved, percent_encoded, push_bytes, push_encoded, push_str, lemma_encoded_has_no_delimiters};

verus! {

/// One piece of a path template: text of the template itself, or an opaque identifier that is
/// percent-encoded before it is put in.
pub enum PathPart {
    Literal(String),
    Identifier(String),
}

/// The bytes that one piece contributes to a resolved path.
pub open spec fn part_bytes(p: PathPart) -> Seq<u8> {
    match p {
        PathPart::Literal(s) => encode_utf8(s@),
        PathPart::Identifier(s) => percent_encoded(encode_utf8(s@)),
    }
}

/// A path template with each identifier encoded on its own and the literals left as they are.
pub open spec fn resolved(parts: Seq<PathPart>) -> Seq<u8>
    decreases parts.len(),
{
    if parts.len() == 0 {
        Seq::empty()
    } else {
        resolved(parts.drop_last()) + part_bytes(parts.last())
    }
}

/// Resolves a path template into the bytes of a request path.
pub fn resolve_path(parts: &Vec<PathPart>) -> (r: Vec<u8>)
    ensures
        r@ == resolved(parts@),
{
    let mut out: Vec<u8> = Vec::new();
    let mut i: usize = 0;
    while i < parts.len()
        invariant
            i <= parts@.len(),
            out@ == resolved(parts@.subrange(0, i as int)),
        decreases parts@.len() - i,
    {
        match &parts[i] {
            PathPart::Literal(s) => push_str(&mut out, s.as_str()),
            PathPart::Identifier(s) => push_encoded(&mut out, s.as_str().as_bytes()),
        }
        proof {
            let next = parts@.subrange(0, i + 1);
            assert(next.drop_last() =~= parts@.subrange(0, i as int));
        }
        i = i + 1;
    }
    proof {
        assert(parts@.subrange(0, parts@.len() as int) =~= parts@);
    }
    out
}

/// A byte that the encoding of an identifier never lets through: any that is neither
/// unreserved nor `%` (among them `/`, `?`, `#` and space) appears in a resolved path only where
/// the template's own literals hold it.
pub proof fn lemma_identifiers_add_no_delimiter(parts: Seq<PathPart>, d: u8)
    requires
        !is_unreserved(d),
        d != 0x25,
        forall|j: int|
            0 <= j < parts.len() ==> match #[trigger] parts[j] {
                PathPart::Literal(s) => !encode_utf8(s@).contains(d),
                PathPart::Identifier(_) => true,
            },
    ensures
        !resolved(parts).contains(d),
    decreases parts.len(),
{
    if parts.len() > 0 {
        let init = parts.drop_last();
        assert forall|j: int| 0 <= j < init.len() implies match #[trigger] init[j] {
            PathPart::Literal(s) => !encode_utf8(s@).contains(d),
            PathPart::Identifier(_) => true,
        } by {
            assert(init[j] == parts[j]);
        }
        lemma_identifiers_add_no_delimiter(init, d);
        let a = resolved(init);
        let b = part_bytes(parts.last());
        assert(parts.last() == parts[parts.len() - 1]);
        match parts.last() {
            PathPart::Literal(s) => {},
            PathPart::Identifier(s) => {
                lemma_encoded_has_no_delimiters(encode_utf8(s@));
            },
        }
        if resolved(parts).contains(d) {
            let k = choose|k: int| 0 <= k < resolved(parts).len() && resolved(parts)[k] == d;
            if k < a.len() {
                assert(a[k] == d);
            } else {
                assert(b[k - a.len()] == d);
            }
        }
    }
}

/// One query parameter: a key and its value, both as bytes.
pub struct Param {
    pub key: Vec<u8>,
    pub value: Vec<u8>,
}

impl View for Param {
    type V = (Seq<u8>, Seq<u8>);

    open spec fn view(&self) -> (Seq<u8>, Seq<u8>) {
        (self.key@, self.value@)
    }
}

/// `key=value` for one parameter.
pub open spec fn pair_bytes(p: (Seq<u8>, Seq<u8>)) -> Seq<u8> {
    p.0 + seq![0x3Du8] + p.1
}

/// Parameters joined by `&`, in the order given.
pub open spec fn joined(ps: Seq<(Seq<u8>, Seq<u8>)>) -> Seq<u8>
    decreases ps.len(),
{
    if ps.len() == 0 {
        Seq::empty()
    } else if ps.len() == 1 {
        pair_bytes(ps[0])
    } else {
        joined(ps.drop_last()) + seq![0x26u8] + pair_bytes(ps.last())
    }
}

/// The query string of a parameter list: each parameter whose value is not empty, in order,
/// as `key=value`, separated by `&`.
pub open spec fn query_string(ps: Seq<(Seq<u8>, Seq<u8>)>) -> Seq<u8>
    decreases ps.len(),
{
    if ps.len() == 0 {
        Seq::empty()
    } else {
        let prev = query_string(ps.drop_last());
        let p = ps.last();
        if p.1.len() == 0 {
            prev
        } else if prev.len() == 0 {
            pair_bytes(p)
        } else {
            prev + seq![0x26u8] + pair_bytes(p)
        }
    }
}

/// Whether a parameter is kept in the query string.
pub open spec fn has_value(p: (Seq<u8>, Seq<u8>)) -> bool {
    p.1.len() > 0
}

/// Builds the query string of `params`, leaving out those with an empty value.
pub fn build_query(params: &Vec<Param>) -> (r: Vec<u8>)
    ensures
        r@ == query_string(params@.map_values(|p: Param| p@)),
{
    let ghost ps = params@.map_values(|p: Param| p@);
    let mut out: Vec<u8> = Vec::new();
    let mut i: usize = 0;
    while i < params.len()
        invariant
            i <= params@.len(),
            ps == params@.map_values(|p: Param| p@),
            out@ == query_string(ps.subrange(0, i as int)),
        decreases params@.len() - i,
    {
        let p = &params[i];
        let ghost prev = out@;
        if p.value.len() > 0 {
            if out.len() > 0 {
                out.push(0x26);
            }
            push_bytes(&mut out, p.key.as_slice());
            out.push(0x3D);
            push_bytes(&mut out, p.value.as_slice());
        }
        proof {
            let next = ps.subrange(0, i + 1);
            assert(next.drop_last() =~= ps.subrange(0, i as int));
            assert(next.last() == p@);
            if p.value@.len() > 0 {
                assert(out@ =~= query_string(next));
            }
        }
        i = i + 1;
    }
    proof {
        assert(ps.subrange(0, ps.len() as int) =~= ps);
    }
    out
}

proof fn lemma_joined_nonempty(ps: Seq<(Seq<u8>, Seq<u8>)>)
    requires
        ps.len() > 0,
    ensures
        joined(ps).len() > 0,
    decreases ps.len(),
{
    if ps.len() > 1 {
        lemma_joined_nonempty(ps.drop_last());
    }
}

/// Parameters with an empty value are left out entirely: the query string is the plain join of
/// the parameters that have a value.
pub proof fn lemma_empty_values_omitted(ps: Seq<(Seq<u8>, Seq<u8>)>)
    ensures
        query_string(ps) == joined(ps.filter(|p: (Seq<u8>, Seq<u8>)| has_value(p))),
    decreases ps.len(),
{
    let pred = |p: (Seq<u8>, Seq<u8>)| has_value(p);
    reveal(Seq::filter);
    if ps.len() > 0 {
        lemma_empty_values_omitted(ps.drop_last());
        let f = ps.drop_last().filter(pred);
        if has_value(ps.last()) {
            assert(ps.filter(pred) == f.push(ps.last()));
            let g = f.push(ps.last());
            assert(g.drop_last() =~= f);
            if f.len() > 0 {
                lemma_joined_nonempty(f);
            }
        } else {
            assert(ps.filter(pred) == f);
        }
    }
}

/// Whether an address is a full URL rather than a path on the service.
pub open spec fn is_absolute(a: Seq<u8>) -> bool {
    has_at(a, 0, "http://".spec_bytes()) || has_at(a, 0, "https://".spec_bytes())
}

/// Where a request for `address` goes: a full URL as it is, a path after the base URL.
pub open spec fn request_url_bytes(base: Seq<u8>, address: Seq<u8>) -> Seq<u8> {
    if is_absolute(address) {
        address
    } else {
        base + address
    }
}

/// The URL to request for `address`, which is either a path on the service (from an endpoint)
/// or a full URL (from a continuation).
pub fn request_url(base: &str, address: &[u8]) -> (r: Vec<u8>)
    ensures
        r@ == request_url_bytes(base.spec_bytes(), address@),
{
    resolve_address(base.as_bytes(), address)
}

/// The URL to request for `address`, with the base URL given as bytes.
pub fn resolve_address(base: &[u8], address: &[u8]) -> (r: Vec<u8>)
    ensures
        r@ == request_url_bytes(base@, address@),
{
    let mut out: Vec<u8> = Vec::new();
    if at(address, 0, "http://".as_bytes()) || at(address, 0, "https://".as_bytes()) {
        push_bytes(&mut out, address);
    } else {
        push_bytes(&mut out, base);
        push_bytes(&mut out, address);
    }
    proof {
        assert(out@ =~= request_url_bytes(base@, address@));
    }
    out
}

/// Copies the UTF-8 bytes of `s` into a new vector.
pub fn bytes_of(s: &str) -> (r: Vec<u8>)
    ensures
        r@ == s.spec_bytes(),
{
    let mut out: Vec<u8> = Vec::new();
    push_bytes(&mut out, s.as_bytes());
    proof {
        assert(out@ =~= Seq::<u8>::empty() + s.spec_bytes());
    }
    out
}

} // verus!
