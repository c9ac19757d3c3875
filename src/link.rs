use vstd::prelude::*;
use vstd::string::StringSliceAdditionalSpecFns;

verus! {

/// The first position at or after `i` that holds `c`, or the length when there is none.
pub open spec fn find_from(h: Seq<u8>, c: u8, i: int) -> int
    decreases h.len() - i,
{
    if i < 0 || i >= h.len() {
        h.len() as int
    } else if h[i] == c {
        i
    } else {
        find_from(h, c, i + 1)
    }
}

/// The first position at or after `i`, and before `end`, that holds no space.
pub open spec fn skip_spaces(h: Seq<u8>, i: int, end: int) -> int
    decreases end - i,
{
    if 0 <= i && i < end && i < h.len() && h[i] == 0x20 {
        skip_spaces(h, i + 1, end)
    } else {
        i
    }
}

/// Whether `pat` stands in `h` at position `i`.
pub open spec fn has_at(h: Seq<u8>, i: int, pat: Seq<u8>) -> bool {
    0 <= i && i + pat.len() <= h.len() && h.subrange(i, i + pat.len()) == pat
}

/// Whether `pat` stands in `h` wholly between `i` and `end`.
pub open spec fn occurs_within(h: Seq<u8>, i: int, end: int, pat: Seq<u8>) -> bool
    decreases end + 1 - i,
{
    if i < 0 || i + pat.len() > end {
        false
    } else if has_at(h, i, pat) {
        true
    } else {
        occurs_within(h, i + 1, end, pat)
    }
}

/// The parameter that marks the link to the following page.
pub open spec fn rel_next() -> Seq<u8> {
    "rel=\"next\"".spec_bytes()
}

/// The target of the link entry between `start` and `end`, where the entry is
/// `<target>` (after optional spaces) with `rel="next"` among its parameters.
pub open spec fn entry_next(h: Seq<u8>, start: int, end: int) -> Option<Seq<u8>> {
    let s = skip_spaces(h, start, end);
    if s < end && s < h.len() && h[s] == 0x3C {
        let g = find_from(h, 0x3E, s + 1);
        if g < end && occurs_within(h, g + 1, end, rel_next()) {
            Some(h.subrange(s + 1, g))
        } else {
            None
        }
    } else {
        None
    }
}

/// The target of the first entry from `start` on, in a comma-separated `Link` header, that is
/// marked as the link to the next page.
pub open spec fn next_link_from(h: Seq<u8>, start: int) -> Option<Seq<u8>>
    decreases h.len() - start,
{
    if start < 0 || start > h.len() {
        None
    } else {
        let end = find_from(h, 0x2C, start);
        match entry_next(h, start, end) {
            Some(u) => Some(u),
            None => if start <= end && end < h.len() {
                next_link_from(h, end + 1)
            } else {
                None
            },
        }
    }
}

fn find(h: &[u8], c: u8, i: usize) -> (r: usize)
    requires
        i <= h@.len(),
    ensures
        r as int == find_from(h@, c, i as int),
        i <= r <= h@.len(),
{
    let mut j = i;
    while j < h.len()
        invariant
            i <= j <= h@.len(),
            find_from(h@, c, i as int) == find_from(h@, c, j as int),
        decreases h@.len() - j,
    {
        if h[j] == c {
            return j;
        }
        j = j + 1;
    }
    j
}

fn skip(h: &[u8], i: usize, end: usize) -> (r: usize)
    requires
        i <= end <= h@.len(),
    ensures
        r as int == skip_spaces(h@, i as int, end as int),
        i <= r <= end,
{
    let mut j = i;
    while j < end && h[j] == 0x20
        invariant
            i <= j <= end,
            end <= h@.len(),
            skip_spaces(h@, i as int, end as int) == skip_spaces(h@, j as int, end as int),
        decreases end - j,
    {
        j = j + 1;
    }
    j
}

pub(crate) fn at(h: &[u8], i: usize, pat: &[u8]) -> (r: bool)
    requires
        i <= h@.len(),
    ensures
        r == has_at(h@, i as int, pat@),
{
    if pat.len() > h.len() - i {
        return false;
    }
    let mut k: usize = 0;
    while k < pat.len()
        invariant
            k <= pat@.len(),
            i + pat@.len() <= h@.len(),
            h@.len() <= usize::MAX,
            forall|m: int| 0 <= m < k ==> h@[i + m] == pat@[m],
        decreases pat@.len() - k,
    {
        if h[i + k] != pat[k] {
            proof {
                assert(h@.subrange(i as int, i + pat@.len())[k as int] != pat@[k as int]);
            }
            return false;
        }
        k = k + 1;
    }
    proof {
        assert(h@.subrange(i as int, i + pat@.len()) =~= pat@);
    }
    true
}

fn occurs(h: &[u8], i: usize, end: usize, pat: &[u8]) -> (r: bool)
    requires
        i <= end <= h@.len(),
    ensures
        r == occurs_within(h@, i as int, end as int, pat@),
{
    if pat.len() == 0 {
        proof {
            assert(h@.subrange(i as int, i as int) =~= pat@);
        }
        return true;
    }
    let mut j = i;
    while j <= end && pat.len() <= end - j
        invariant
            i <= j,
            pat@.len() >= 1,
            end <= h@.len(),
            occurs_within(h@, i as int, end as int, pat@) == occurs_within(h@, j as int, end as int, pat@),
        decreases end + 1 - j,
    {
        if at(h, j, pat) {
            return true;
        }
        j = j + 1;
    }
    false
}

fn entry(h: &[u8], start: usize, end: usize) -> (r: Option<Vec<u8>>)
    requires
        start <= end <= h@.len(),
    ensures
        r matches Some(u) ==> entry_next(h@, start as int, end as int) == Some(u@),
        r is None ==> entry_next(h@, start as int, end as int) is None,
{
    let s = skip(h, start, end);
    if s < end && h[s] == 0x3C {
        let g = find(h, 0x3E, s + 1);
        if g < end && occurs(h, g + 1, end, "rel=\"next\"".as_bytes()) {
            let mut u: Vec<u8> = Vec::new();
            crate::encode::push_bytes(&mut u, &h[s + 1..g]);
            proof {
                assert(u@ =~= h@.subrange(s + 1, g as int));
            }
            return Some(u);
        }
    }
    None
}

/// The address of the next page named in a `Link` header, if an entry carries `rel="next"`.
pub fn next_link(header: &[u8]) -> (r: Option<Vec<u8>>)
    ensures
        r matches Some(u) ==> next_link_from(header@, 0) == Some(u@),
        r is None ==> next_link_from(header@, 0) is None,
{
    let mut start: usize = 0;
    while start <= header.len()
        invariant
            next_link_from(header@, 0) == next_link_from(header@, start as int),
        decreases header@.len() + 1 - start,
    {
        let end = find(header, 0x2C, start);
        match entry(header, start, end) {
            Some(u) => {
                return Some(u);
            },
            None => {
                if end < header.len() {
                    start = end + 1;
                } else {
                    return None;
                }
            },
        }
    }
    None
}

} // verus!
