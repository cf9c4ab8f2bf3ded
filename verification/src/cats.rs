//! The cat-fetch variant: a numeric input drives a fetch of cat images.
//! A zero count is rejected before any request is sent; a positive count
//! is folded into the query string as the `limit` parameter, and the
//! response is truncated client-side to the requested count.

use vstd::prelude::*;
use vstd::string::StringExecFns;
use crate::cell::{CellModel, FetchCell, FetchError, step_reject, step_request, step_resolve};
use crate::text::{decimal_string, spec_decimal};

verus! {

/// One entry of the image-search response: just the image URL.
#[derive(Clone, Debug, PartialEq, Eq)]
pub struct Cat {
    pub url: String,
}

/// Domain validation failure of the cat-fetch variant, raised before any
/// request is sent.
#[derive(Clone, Copy, Debug, PartialEq, Eq, Structural)]
pub enum CatError {
    /// The requested count was zero.
    NonZeroCats,
}

/// The fixed message shown for a zero count.
pub open spec fn zero_cats_message() -> Seq<char> {
    "Please request more than zero cats."@
}

impl CatError {
    /// The human-readable message rendered in the error list.
    pub fn message(&self) -> (m: String)
        ensures
            m@ == zero_cats_message(),
    {
        match self {
            CatError::NonZeroCats => "Please request more than zero cats.".to_owned(),
        }
    }
}

/// The endpoint of the image-search API, up to the `limit` parameter.
pub open spec fn cat_search_prefix() -> Seq<char> {
    "https://api.thecatapi.com/v1/images/search?limit="@
}

/// The GET URL of the cat fetch: the requested count folded into the
/// query string as the `limit` parameter.
pub fn cat_search_url(count: usize) -> (u: String)
    ensures
        u@ == cat_search_prefix() + spec_decimal(count as nat),
{
    let mut u = "https://api.thecatapi.com/v1/images/search?limit=".to_owned();
    let digits = decimal_string(count);
    u.append(digits.as_str());
    u
}

/// The rendered image list of a successful response: the first `count`
/// URLs, in response order — `min(count, returned)` entries, since the
/// server is not trusted to honour the `limit` parameter.
pub open spec fn spec_cat_urls(count: int, cats: Seq<Cat>) -> Seq<Seq<char>> {
    Seq::new(
        (if count <= cats.len() as int {
            count
        } else {
            cats.len() as int
        }) as nat,
        |j: int| cats[j].url@,
    )
}

/// Truncate a response to the requested count and keep only the URLs.
pub fn project_cat_urls(count: usize, cats: &Vec<Cat>) -> (urls: Vec<String>)
    ensures
        urls.deep_view() == spec_cat_urls(count as int, cats@),
        urls@.len() == if count as int <= cats@.len() {
            count as int
        } else {
            cats@.len() as int
        },
{
    let n = if count <= cats.len() {
        count
    } else {
        cats.len()
    };
    let mut urls: Vec<String> = Vec::new();
    let mut i: usize = 0;
    while i < n
        invariant
            n <= cats@.len(),
            i <= n,
            urls@.len() == i as int,
            forall|j: int| 0 <= j < i as int ==> urls@[j]@ == cats@[j].url@,
        decreases n - i,
    {
        urls.push(cats[i].url.clone());
        i += 1;
    }
    proof {
        assert(urls.deep_view() =~= spec_cat_urls(count as int, cats@));
    }
    urls
}

/// A fetch the surrounding runtime must perform: GET `url`, then hand the
/// decoded outcome back to `resolve_cats` together with `token` and the
/// count it was issued for.
pub struct CatRequest {
    pub token: u64,
    pub count: usize,
    pub url: String,
}

/// Feed a new requested count into the cell. Zero is rejected before any
/// request is sent — no token is spent and the error state at once shows
/// the fixed message, while earlier data stays. A positive count issues a
/// fresh fetch whose URL carries the count as the `limit` parameter.
pub fn set_cat_count(cell: &mut FetchCell<String>, count: usize) -> (req: Option<CatRequest>)
    requires
        old(cell).wf(),
        old(cell).next_token < u64::MAX,
    ensures
        final(cell).wf(),
        count == 0 ==> req is None && final(cell)@ == step_reject(
            old(cell)@,
            zero_cats_message(),
        ) && final(cell)@.phase() is Failed,
        req matches Some(r) ==> count > 0 && r.token == old(cell)@.next_token && r.count == count
            && r.url@ == cat_search_prefix() + spec_decimal(count as nat),
        count > 0 ==> req is Some && final(cell)@ == step_request(old(cell)@)
            && final(cell)@.phase() is Pending,
{
    if count == 0 {
        let e = CatError::NonZeroCats;
        cell.reject(e.message());
        None
    } else {
        let token = cell.request();
        let url = cat_search_url(count);
        Some(CatRequest { token, count, url })
    }
}

/// The model of a cat-fetch outcome: the truncated URL list, or the
/// carried failure message.
pub open spec fn spec_cat_outcome(count: int, outcome: Result<Vec<Cat>, FetchError>) -> Result<
    Seq<Seq<char>>,
    Seq<char>,
> {
    match outcome {
        Ok(cats) => Ok(spec_cat_urls(count, cats@)),
        Err(e) => Err(e.spec_message()),
    }
}

/// Apply the outcome of the cat request `token`, issued for `count`: on
/// success the rendered list holds the first `count` image URLs in
/// response order; on failure the error list holds exactly the carried
/// message and earlier data stays. A stale token changes nothing.
pub fn resolve_cats(
    cell: &mut FetchCell<String>,
    token: u64,
    count: usize,
    outcome: Result<Vec<Cat>, FetchError>,
)
    requires
        old(cell).wf(),
    ensures
        final(cell).wf(),
        final(cell)@ == step_resolve(old(cell)@, token as int, spec_cat_outcome(count as int, outcome)),
        old(cell)@.current != Some(token as int) ==> final(cell)@ == old(cell)@,
        outcome matches Ok(cats) ==> (old(cell)@.current == Some(token as int)
            ==> final(cell)@.data == Some(spec_cat_urls(count as int, cats@))),
{
    match outcome {
        Ok(cats) => {
            let urls = project_cat_urls(count, &cats);
            cell.resolve(token, Ok(urls));
        },
        Err(e) => {
            cell.resolve(token, Err(e));
        },
    }
}

/// Law: repeating the same fetch with the same count against a stable
/// upstream response renders a structurally equal list, whatever either
/// cell held before.
pub proof fn lemma_cat_fetch_idempotent(
    m1: CellModel<Seq<char>>,
    m2: CellModel<Seq<char>>,
    count: int,
    cats: Seq<Cat>,
)
    ensures
        ({
            let a = step_resolve(step_request(m1), m1.next_token, Ok(spec_cat_urls(count, cats)));
            let b = step_resolve(step_request(m2), m2.next_token, Ok(spec_cat_urls(count, cats)));
            &&& a.data == b.data
            &&& a.data == Some(spec_cat_urls(count, cats))
            &&& a.phase() is Ready
            &&& b.phase() is Ready
        }),
{
}

} // verus!
