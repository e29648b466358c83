use vstd::prelude::*;
use crate::model::{ArticleSummary, UpstreamError};

verus! {

/// Most listing pages requested in one pass.
pub const MAX_PAGES: u32 = 10;

/// Where a multi-page listing pass stands.
#[derive(Clone, Copy, Debug, PartialEq, Eq, Structural)]
pub enum ListingStatus {
    /// The page `page` is still to be requested.
    Open,
    /// Pagination ended: an empty page, a failed later page, or the page bound.
    Complete,
    /// The first page failed: the pass produced nothing usable.
    Failed(UpstreamError),
}

pub ghost struct ListingView {
    pub page: nat,
    pub items: Seq<ArticleSummary>,
    pub status: ListingStatus,
}

/// Drives the listing requests for pages `1..=MAX_PAGES`, gathering the
/// summaries of every page received until one comes back empty or fails.
pub struct Listing {
    page: u32,
    items: Vec<ArticleSummary>,
    status: ListingStatus,
}

/// What one listing page request gave, with its summaries viewed as a sequence.
pub open spec fn page_view(r: Result<Vec<ArticleSummary>, UpstreamError>) -> Result<
    Seq<ArticleSummary>,
    UpstreamError,
> {
    match r {
        Ok(v) => Ok(v@),
        Err(e) => Err(e),
    }
}

/// The pass after the answer `r` to the request for page `v.page`.
pub open spec fn after_page(v: ListingView, r: Result<Seq<ArticleSummary>, UpstreamError>) -> ListingView {
    if v.status != ListingStatus::Open {
        v
    } else {
        match r {
            Err(e) => ListingView {
                status: if v.page == 1 {
                    ListingStatus::Failed(e)
                } else {
                    ListingStatus::Complete
                },
                ..v
            },
            Ok(s) => if s.len() == 0 {
                ListingView { status: ListingStatus::Complete, ..v }
            } else if v.page >= MAX_PAGES {
                ListingView { items: v.items + s, status: ListingStatus::Complete, ..v }
            } else {
                ListingView { page: v.page + 1, items: v.items + s, ..v }
            },
        }
    }
}

pub open spec fn listing_wf(v: ListingView) -> bool {
    1 <= v.page <= MAX_PAGES
}

impl View for Listing {
    type V = ListingView;

    closed spec fn view(&self) -> ListingView {
        ListingView { page: self.page as nat, items: self.items@, status: self.status }
    }
}

impl Listing {
    /// A pass that has requested nothing yet.
    pub fn new() -> (r: Listing)
        ensures
            r.wf(),
            r@ == (ListingView { page: 1, items: Seq::empty(), status: ListingStatus::Open }),
    {
        Listing { page: 1, items: Vec::new(), status: ListingStatus::Open }
    }

    pub open spec fn wf(&self) -> bool {
        listing_wf(self@)
    }

    /// The page to request next, while the pass is open.
    pub fn next_page(&self) -> (r: Option<u32>)
        ensures
            r == (if self@.status == ListingStatus::Open {
                Some(self@.page as u32)
            } else {
                None::<u32>
            }),
    {
        match self.status {
            ListingStatus::Open => Some(self.page),
            _ => None,
        }
    }

    /// Takes in the answer to the request for the current page. A failed
    /// first page fails the pass; a failed later page or an empty page ends
    /// it with what was gathered so far.
    pub fn record(&mut self, r: Result<Vec<ArticleSummary>, UpstreamError>)
        requires
            old(self).wf(),
        ensures
            final(self).wf(),
            final(self)@ == after_page(old(self)@, page_view(r)),
    {
        if self.status != ListingStatus::Open {
            return;
        }
        match r {
            Err(e) => {
                self.status = if self.page == 1 {
                    ListingStatus::Failed(e)
                } else {
                    ListingStatus::Complete
                };
            },
            Ok(mut v) => {
                if v.len() == 0 {
                    self.status = ListingStatus::Complete;
                } else {
                    let ghost before = self.items@;
                    let ghost got = v@;
                    self.items.append(&mut v);
                    assert(self.items@ =~= before + got);
                    if self.page >= MAX_PAGES {
                        self.status = ListingStatus::Complete;
                    } else {
                        self.page = self.page + 1;
                    }
                }
            },
        }
    }

    /// The outcome of the pass: the summaries gathered, or the failure of
    /// the first page.
    pub fn finish(self) -> (r: Result<Vec<ArticleSummary>, UpstreamError>)
        ensures
            r is Ok <==> !(self@.status is Failed),
            r is Ok ==> r->Ok_0@ == self@.items,
            r is Err ==> self@.status == ListingStatus::Failed(r->Err_0),
    {
        match self.status {
            ListingStatus::Failed(e) => Err(e),
            _ => Ok(self.items),
        }
    }
}

} // verus!
