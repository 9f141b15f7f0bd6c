//! Paging through a list endpoint: each request asks for the page that starts
//! where the previous one ended, until the API reports no next page or sends
//! an empty one. Also how an HTTP status of the API is answered.

use vstd::prelude::*;
use crate::error::AppError;
use crate::models::filter::FilterRequest;

verus! {

/// Where the next page starts and how many items a page asks for.
pub struct Pager {
    pub skip: u64,
    pub limit: u64,
}

/// The page size when the filter sets none.
pub const DEFAULT_PAGE_LIMIT: u64 = 100;

/// The pager after a page of `count` items: `None` (stop) when the page was
/// empty or the API said no page follows, else the next page's start.
pub open spec fn next_spec(p: Pager, count: u64, has_next: bool) -> Option<Pager> {
    if !has_next || count == 0 {
        None
    } else {
        Some(Pager { skip: (p.skip + count) as u64, limit: p.limit })
    }
}

/// The pager after a run of pages, or `None` once one of them stopped it.
pub open spec fn after_pages(p: Pager, pages: Seq<(u64, bool)>) -> Option<Pager>
    decreases pages.len(),
{
    if pages.len() == 0 {
        Some(p)
    } else {
        match after_pages(p, pages.drop_last()) {
            Some(q) => next_spec(q, pages.last().0, pages.last().1),
            None => None,
        }
    }
}

/// The number of items in a run of pages.
pub open spec fn items_in(pages: Seq<(u64, bool)>) -> nat
    decreases pages.len(),
{
    if pages.len() == 0 {
        0
    } else {
        items_in(pages.drop_last()) + pages.last().0 as nat
    }
}

impl Pager {
    /// The first page of a listing: the filter's skip (or 0) and limit (or 100).
    pub fn start(filter: &FilterRequest) -> (r: Pager)
        ensures
            r.skip == match filter.skip {
                Some(s) => s,
                None => 0,
            },
            r.limit == match filter.limit {
                Some(l) => l,
                None => DEFAULT_PAGE_LIMIT,
            },
    {
        let limit = match filter.limit {
            Some(l) => l,
            None => DEFAULT_PAGE_LIMIT,
        };
        let skip = match filter.skip {
            Some(s) => s,
            None => 0,
        };
        Pager { skip, limit }
    }

    /// Set the paging of the request for the current page.
    pub fn apply(&self, filter: &mut FilterRequest)
        ensures
            final(filter).conditions() == old(filter).conditions(),
            final(filter).filters == old(filter).filters,
            final(filter).skip == Some(self.skip),
            final(filter).limit == Some(self.limit),
    {
        filter.skip = Some(self.skip);
        filter.limit = Some(self.limit);
    }

    /// The pager after a page of `count` items with the API's `has_next`.
    pub fn next(&self, count: u64, has_next: bool) -> (r: Option<Pager>)
        requires
            has_next && count > 0 ==> self.skip + count <= u64::MAX,
        ensures
            r == next_spec(*self, count, has_next),
    {
        if !has_next || count == 0 {
            None
        } else {
            Some(Pager { skip: self.skip + count, limit: self.limit })
        }
    }
}

/// Paging law: after a run of pages that were all non-empty and all said
/// another page follows, the next request starts at the first request's start
/// plus every item received so far, with the same page size.
pub proof fn pager_skips_received_items(p: Pager, pages: Seq<(u64, bool)>)
    requires
        forall|i: int| 0 <= i < pages.len() ==> #[trigger] pages[i].1 && pages[i].0 > 0,
        p.skip + items_in(pages) <= u64::MAX,
    ensures
        after_pages(p, pages) == Some(Pager { skip: (p.skip + items_in(pages)) as u64, limit: p.limit }),
    decreases pages.len(),
{
    if pages.len() > 0 {
        let init = pages.drop_last();
        assert forall|i: int| 0 <= i < init.len() implies #[trigger] init[i].1 && init[i].0 > 0 by {
            assert(init[i] == pages[i]);
        }
        pager_skips_received_items(p, init);
        assert(pages.last() == pages[pages.len() - 1]);
    }
}

/// Paging law: a page that is empty or says no page follows ends the listing,
/// whatever comes after it.
pub proof fn pager_stops_for_good(p: Pager, pages: Seq<(u64, bool)>, k: int)
    requires
        0 <= k < pages.len(),
        !pages[k].1 || pages[k].0 == 0,
    ensures
        after_pages(p, pages) is None,
    decreases pages.len(),
{
    if k == pages.len() - 1 {
        match after_pages(p, pages.drop_last()) {
            Some(q) => {
                assert(pages.last() == pages[k]);
            },
            None => {},
        }
    } else {
        let init = pages.drop_last();
        assert(init[k] == pages[k]);
        pager_stops_for_good(p, init, k);
    }
}

/// Whether a response status is a success (`2xx`); its body is then the answer.
pub fn is_success_status(status: u16) -> (r: bool)
    ensures
        r == (200 <= status <= 299),
{
    200 <= status && status <= 299
}

/// The error of a response that did not succeed: `429` is the rate limit; any
/// other status is an API error that carries the status and the response body.
pub fn status_error(status: u16, body: String) -> (r: AppError)
    ensures
        status == 429 ==> r is RateLimited,
        status != 429 ==> (r matches AppError::Api { status: s, message } && s == status && message@
            == body@),
{
    if status == 429 {
        AppError::RateLimited
    } else {
        AppError::Api { status, message: body }
    }
}

} // verus!
