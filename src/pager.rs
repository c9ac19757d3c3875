use vstd::prelude::*;
use vstd::string::StringSliceAdditionalSpecFns;
use crate::url::{request_url_bytes, resolve_address};

verus! {

/// What to do after a page has come in.
pub enum NextPage {
    /// Fetch the page at this address next.
    Fetch(Seq<u8>),
    /// No continuation: every page is in.
    Finished,
    /// The continuation names a page that was fetched already.
    Repeated(Seq<u8>),
    /// The continuation would take the listing past its page bound.
    LimitReached,
}

/// The decision after a page, given the addresses fetched so far and the page bound.
pub open spec fn next_step(visited: Seq<Seq<u8>>, max_pages: nat, next: Option<Seq<u8>>) -> NextPage {
    match next {
        None => NextPage::Finished,
        Some(u) => if visited.contains(u) {
            NextPage::Repeated(u)
        } else if visited.len() >= max_pages {
            NextPage::LimitReached
        } else {
            NextPage::Fetch(u)
        },
    }
}

/// A continuation as the full URL it names, relative ones resolved against `base`.
pub open spec fn resolved_next(base: Seq<u8>, next: Option<Seq<u8>>) -> Option<Seq<u8>> {
    match next {
        Some(u) => Some(request_url_bytes(base, u)),
        None => None,
    }
}

/// The addresses fetched once the decision is carried out.
pub open spec fn visited_after(visited: Seq<Seq<u8>>, step: NextPage) -> Seq<Seq<u8>> {
    match step {
        NextPage::Fetch(u) => visited.push(u),
        _ => visited,
    }
}

/// A listing on the service at `base` driven through a server that answers its request number
/// `k` with `server(k)`: the items gathered, the URLs requested and the last decision, after at
/// most `fuel` answers. Each step is what `Pager::accept` does.
pub open spec fn run<T>(
    base: Seq<u8>,
    items: Seq<T>,
    visited: Seq<Seq<u8>>,
    max_pages: nat,
    server: spec_fn(int) -> (Seq<T>, Option<Seq<u8>>),
    fuel: nat,
) -> (Seq<T>, Seq<Seq<u8>>, NextPage)
    decreases fuel,
{
    let answer = server(visited.len() - 1);
    let step = next_step(visited, max_pages, resolved_next(base, answer.1));
    let items2 = items + answer.0;
    let visited2 = visited_after(visited, step);
    if fuel <= 1 || !(step is Fetch) {
        (items2, visited2, step)
    } else {
        run(base, items2, visited2, max_pages, server, (fuel - 1) as nat)
    }
}

/// What the pager tells its driver after a page.
#[derive(Debug)]
pub enum PageStep {
    Fetch(Vec<u8>),
    Finished,
    Repeated(Vec<u8>),
    LimitReached,
}

impl View for PageStep {
    type V = NextPage;

    open spec fn view(&self) -> NextPage {
        match self {
            PageStep::Fetch(u) => NextPage::Fetch(u@),
            PageStep::Finished => NextPage::Finished,
            PageStep::Repeated(u) => NextPage::Repeated(u@),
            PageStep::LimitReached => NextPage::LimitReached,
        }
    }
}

/// The state of a listing that walks every page: the base URL that relative addresses are
/// resolved against, the items so far, in page order, and the URLs requested so far, the first
/// one included. Every address is compared as the full URL it resolves to.
pub struct Pager<T> {
    pub base: Vec<u8>,
    pub items: Vec<T>,
    pub visited: Vec<Vec<u8>>,
    pub max_pages: u64,
}

/// The addresses as byte sequences.
pub open spec fn addresses(v: Seq<Vec<u8>>) -> Seq<Seq<u8>> {
    v.map_values(|a: Vec<u8>| a@)
}

fn same_bytes(a: &Vec<u8>, b: &Vec<u8>) -> (r: bool)
    ensures
        r == (a@ == b@),
{
    if a.len() != b.len() {
        return false;
    }
    let mut i: usize = 0;
    while i < a.len()
        invariant
            a@.len() == b@.len(),
            i <= a@.len(),
            forall|j: int| 0 <= j < i ==> a@[j] == b@[j],
        decreases a@.len() - i,
    {
        if a[i] != b[i] {
            return false;
        }
        i = i + 1;
    }
    proof {
        assert(a@ =~= b@);
    }
    true
}

fn holds_address(v: &Vec<Vec<u8>>, u: &Vec<u8>) -> (r: bool)
    ensures
        r == addresses(v@).contains(u@),
{
    let mut i: usize = 0;
    while i < v.len()
        invariant
            i <= v@.len(),
            forall|j: int| 0 <= j < i ==> v@[j]@ != u@,
        decreases v@.len() - i,
    {
        if same_bytes(&v[i], u) {
            proof {
                assert(addresses(v@)[i as int] == u@);
            }
            return true;
        }
        i = i + 1;
    }
    proof {
        if addresses(v@).contains(u@) {
            let k = choose|k: int| 0 <= k < addresses(v@).len() && addresses(v@)[k] == u@;
            assert(v@[k]@ == u@);
        }
    }
    false
}

impl<T> Pager<T> {
    /// At least one and at most `max_pages` requests, none of them to the same address twice.
    pub open spec fn wf(&self) -> bool {
        &&& 1 <= self.visited@.len() <= self.max_pages
        &&& addresses(self.visited@).no_duplicates()
    }

    /// A listing on the service at `base` whose first request goes to `first` (a path or a full
    /// URL), bounded to `max_pages` requests.
    pub fn new(base: &str, first: &[u8], max_pages: u64) -> (r: Pager<T>)
        requires
            max_pages >= 1,
        ensures
            r.wf(),
            r.base@ == base.spec_bytes(),
            r.items@ == Seq::<T>::empty(),
            addresses(r.visited@) == seq![request_url_bytes(base.spec_bytes(), first@)],
            r.max_pages == max_pages,
    {
        let base = crate::url::bytes_of(base);
        let mut visited: Vec<Vec<u8>> = Vec::new();
        visited.push(resolve_address(base.as_slice(), first));
        let r = Pager { base, items: Vec::new(), visited, max_pages };
        proof {
            assert(addresses(r.visited@) =~= seq![request_url_bytes(r.base@, first@)]);
        }
        r
    }

    /// The URL requested last.
    pub fn current(&self) -> (r: &Vec<u8>)
        requires
            self.wf(),
        ensures
            r@ == addresses(self.visited@).last(),
    {
        let n = self.visited.len();
        &self.visited[n - 1]
    }

    /// Takes in one page's items and its continuation, and says what comes next. The
    /// continuation is resolved against the base URL first. The items are kept in page order; a
    /// URL is requested only once, and never more than `max_pages` in all.
    pub fn accept(&mut self, page: Vec<T>, next: Option<Vec<u8>>) -> (r: PageStep)
        requires
            old(self).wf(),
        ensures
            final(self).wf(),
            final(self).max_pages == old(self).max_pages,
            final(self).base@ == old(self).base@,
            final(self).items@ == old(self).items@ + page@,
            r@ == next_step(
                addresses(old(self).visited@),
                old(self).max_pages as nat,
                resolved_next(
                    old(self).base@,
                    match next {
                        Some(u) => Some(u@),
                        None => None,
                    },
                ),
            ),
            addresses(final(self).visited@) == visited_after(addresses(old(self).visited@), r@),
    {
        let mut page = page;
        self.items.append(&mut page);
        let ghost old_addr = addresses(self.visited@);
        match next {
            None => PageStep::Finished,
            Some(next) => {
                let u = resolve_address(self.base.as_slice(), next.as_slice());
                if holds_address(&self.visited, &u) {
                    PageStep::Repeated(u)
                } else if self.visited.len() as u64 >= self.max_pages {
                    PageStep::LimitReached
                } else {
                    let copy = copy_bytes(&u);
                    self.visited.push(copy);
                    proof {
                        assert(addresses(self.visited@) =~= old_addr.push(u@));
                    }
                    PageStep::Fetch(u)
                }
            },
        }
    }

    /// The items gathered, in page order.
    pub fn into_items(self) -> (r: Vec<T>)
        ensures
            r@ == self.items@,
    {
        self.items
    }
}

fn copy_bytes(a: &Vec<u8>) -> (r: Vec<u8>)
    ensures
        r@ == a@,
{
    let mut r: Vec<u8> = Vec::new();
    crate::encode::push_bytes(&mut r, a.as_slice());
    proof {
        assert(r@ =~= a@);
    }
    r
}

proof fn lemma_run_bounded<T>(
    base: Seq<u8>,
    items: Seq<T>,
    visited: Seq<Seq<u8>>,
    max_pages: nat,
    server: spec_fn(int) -> (Seq<T>, Option<Seq<u8>>),
    fuel: nat,
)
    requires
        1 <= visited.len() <= max_pages,
        fuel >= max_pages - visited.len() + 1,
    ensures
        !(run(base, items, visited, max_pages, server, fuel).2 is Fetch),
        run(base, items, visited, max_pages, server, fuel).1.len() <= max_pages,
    decreases fuel,
{
    let answer = server(visited.len() - 1);
    let step = next_step(visited, max_pages, resolved_next(base, answer.1));
    if fuel > 1 && step is Fetch {
        lemma_run_bounded(base, items + answer.0, visited_after(visited, step), max_pages, server, (fuel - 1) as nat);
    }
}

/// However the server answers, even with a continuation every time, a listing stops within
/// `max_pages` answers and never requests more than `max_pages` pages.
pub proof fn lemma_pagination_terminates<T>(
    base: Seq<u8>,
    first: Seq<u8>,
    max_pages: nat,
    server: spec_fn(int) -> (Seq<T>, Option<Seq<u8>>),
)
    requires
        max_pages >= 1,
    ensures
        !(run(base, Seq::<T>::empty(), seq![first], max_pages, server, max_pages).2 is Fetch),
        run(base, Seq::<T>::empty(), seq![first], max_pages, server, max_pages).1.len() <= max_pages,
{
    lemma_run_bounded(base, Seq::<T>::empty(), seq![first], max_pages, server, max_pages);
}

proof fn lemma_run_collects<T>(
    base: Seq<u8>,
    pages: Seq<Seq<T>>,
    addrs: Seq<Seq<u8>>,
    max_pages: nat,
    server: spec_fn(int) -> (Seq<T>, Option<Seq<u8>>),
    j: nat,
    items: Seq<T>,
)
    requires
        pages.len() >= 1,
        addrs.len() == pages.len(),
        pages.len() <= max_pages,
        addrs.no_duplicates(),
        1 <= j <= pages.len(),
        forall|k: int|
            0 <= k < pages.len() - 1 ==> (#[trigger] server(k)).0 == pages[k] && resolved_next(
                base,
                server(k).1,
            ) == Some(addrs[k + 1]),
        server(pages.len() - 1) == (pages[pages.len() - 1], None::<Seq<u8>>),
    ensures
        run(base, items, addrs.subrange(0, j as int), max_pages, server, (pages.len() - j + 1) as nat) == (
            items + pages.subrange(j - 1, pages.len() as int).flatten(),
            addrs,
            NextPage::Finished,
        ),
    decreases pages.len() - j,
{
    let n = pages.len();
    let visited = addrs.subrange(0, j as int);
    let answer = server(visited.len() - 1);
    let rest = pages.subrange(j - 1, n as int);
    assert(rest.drop_first() =~= pages.subrange(j as int, n as int));
    assert(rest.first() == pages[j - 1]);
    if j == n {
        assert(visited =~= addrs);
        assert(rest.drop_first() =~= Seq::<Seq<T>>::empty());
        assert(rest.flatten() =~= pages[j - 1] + Seq::<Seq<T>>::empty().flatten());
        assert(items + pages[j - 1] =~= items + rest.flatten());
    } else {
        assert(answer == server(j - 1));
        let u = addrs[j as int];
        assert(!visited.contains(u)) by {
            if visited.contains(u) {
                let k = choose|k: int| 0 <= k < visited.len() && visited[k] == u;
                assert(addrs[k] == addrs[j as int]);
            }
        }
        assert(addrs.subrange(0, j as int + 1) =~= visited.push(u));
        lemma_run_collects(base, pages, addrs, max_pages, server, j + 1, items + pages[j - 1]);
        assert(rest.flatten() == pages[j - 1] + pages.subrange(j as int, n as int).flatten());
        assert(items + pages[j - 1] + pages.subrange(j as int, n as int).flatten() =~= items
            + rest.flatten());
    }
}

/// A server that answers `pages.len()` requests, with a continuation to a new URL after every
/// page but the last: the listing gathers exactly the pages' items in order, requests each URL
/// once, exactly `pages.len()` requests in all, and finishes. (A continuation back to a URL
/// already fetched ends the listing with `Repeated` instead, so the URLs are distinct here.)
pub proof fn lemma_pages_concatenated<T>(
    base: Seq<u8>,
    pages: Seq<Seq<T>>,
    addrs: Seq<Seq<u8>>,
    max_pages: nat,
    server: spec_fn(int) -> (Seq<T>, Option<Seq<u8>>),
)
    requires
        pages.len() >= 1,
        addrs.len() == pages.len(),
        pages.len() <= max_pages,
        addrs.no_duplicates(),
        forall|k: int|
            0 <= k < pages.len() - 1 ==> (#[trigger] server(k)).0 == pages[k] && resolved_next(
                base,
                server(k).1,
            ) == Some(addrs[k + 1]),
        server(pages.len() - 1) == (pages[pages.len() - 1], None::<Seq<u8>>),
    ensures
        run(base, Seq::<T>::empty(), seq![addrs[0]], max_pages, server, pages.len()) == (
            pages.flatten(),
            addrs,
            NextPage::Finished,
        ),
{
    lemma_run_collects(base, pages, addrs, max_pages, server, 1, Seq::<T>::empty());
    assert(addrs.subrange(0, 1) =~= seq![addrs[0]]);
    assert(pages.subrange(0, pages.len() as int) =~= pages);
    assert(Seq::<T>::empty() + pages.flatten() =~= pages.flatten());
}

} // verus!
