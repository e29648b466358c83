use vstd::prelude::*;
use crate::cache::{installed, Cache, CacheView};
use crate::clock::{day_before, now_millis, yesterday};
use crate::hydrate::{hydrate, successes};
use crate::listing::{
    after_page, listing_wf, page_view, Listing, ListingStatus, ListingView, MAX_PAGES,
};
use crate::model::{copy_articles, Article, ArticleSummary, UpstreamError};
use crate::ranker::{lemma_top_ranked, select_top_for_day, top, window_of};

verus! {

/// How many of the day's most popular articles are hydrated and served.
pub const TOP_COUNT: usize = 27;

/// What the caller driving a refresh is to do next.
#[derive(Clone, Copy, Debug, PartialEq, Eq, Structural)]
pub enum Action {
    /// Request this listing page, then hand the answer to `on_page`.
    FetchPage(u32),
    /// Request the detail of this article, then hand the answer to `on_detail`.
    FetchDetail(u64),
    /// The refresh completed: `apply` installs its articles.
    Install,
    /// The listing failed: `apply` leaves the cache as it was.
    Fallback,
}

pub ghost enum StageView {
    Listing(ListingView),
    Hydrating(Seq<ArticleSummary>, Seq<Result<Article, UpstreamError>>),
    Failed(UpstreamError),
}

pub ghost struct RefreshView {
    /// The UTC calendar day whose articles are gathered.
    pub day: int,
    /// How many articles are kept after ranking.
    pub limit: nat,
    pub stage: StageView,
}

enum Stage {
    Listing(Listing),
    Hydrating(Vec<ArticleSummary>, Vec<Result<Article, UpstreamError>>),
    Failed(UpstreamError),
}

/// One refresh attempt: the listing pages, then ranking, then one detail
/// fetch per ranked summary, in rank order. The caller performs each
/// `Action` and hands back what the upstream source answered.
pub struct Refresh {
    day: i64,
    limit: usize,
    stage: Stage,
}

impl View for Refresh {
    type V = RefreshView;

    closed spec fn view(&self) -> RefreshView {
        RefreshView {
            day: self.day as int,
            limit: self.limit as nat,
            stage: match self.stage {
                Stage::Listing(l) => StageView::Listing(l@),
                Stage::Hydrating(r, f) => StageView::Hydrating(r@, f@),
                Stage::Failed(e) => StageView::Failed(e),
            },
        }
    }
}

pub open spec fn refresh_wf(v: RefreshView) -> bool {
    match v.stage {
        StageView::Listing(l) => listing_wf(l) && l.status == ListingStatus::Open,
        StageView::Hydrating(r, f) => f.len() <= r.len() && r.len() <= v.limit,
        StageView::Failed(_) => true,
    }
}

/// The step the refresh `v` asks for.
pub open spec fn next_action(v: RefreshView) -> Action {
    match v.stage {
        StageView::Listing(l) => Action::FetchPage(l.page as u32),
        StageView::Hydrating(r, f) => if f.len() < r.len() {
            Action::FetchDetail(r[f.len() as int].id)
        } else {
            Action::Install
        },
        StageView::Failed(_) => Action::Fallback,
    }
}

/// The stage after the answer `p` to the listing request that `v` asked for.
pub open spec fn stage_after_page(v: RefreshView, p: Result<Seq<ArticleSummary>, UpstreamError>) -> StageView {
    match v.stage {
        StageView::Listing(l) => {
            let l2 = after_page(l, p);
            match l2.status {
                ListingStatus::Open => StageView::Listing(l2),
                ListingStatus::Failed(e) => StageView::Failed(e),
                ListingStatus::Complete => StageView::Hydrating(
                    top(window_of(l2.items, v.day), v.limit),
                    Seq::empty(),
                ),
            }
        },
        _ => v.stage,
    }
}

/// The stage after the answer `d` to the detail request that `v` asked for.
pub open spec fn stage_after_detail(v: RefreshView, d: Result<Article, UpstreamError>) -> StageView {
    match v.stage {
        StageView::Hydrating(r, f) => if f.len() < r.len() {
            StageView::Hydrating(r, f.push(d))
        } else {
            v.stage
        },
        _ => v.stage,
    }
}

/// The cache after `apply` of the refresh `v` to the cache `c` at `now`.
pub open spec fn applied(v: RefreshView, c: CacheView, now: i64) -> CacheView {
    match v.stage {
        StageView::Hydrating(r, f) => if f.len() >= r.len() {
            installed(successes(f), now)
        } else {
            c
        },
        _ => c,
    }
}

/// The articles that `apply` of the refresh `v` to the cache `c` returns.
pub open spec fn served(v: RefreshView, c: CacheView) -> Seq<Article> {
    match v.stage {
        StageView::Hydrating(r, f) => if f.len() >= r.len() {
            successes(f)
        } else {
            c.articles
        },
        _ => c.articles,
    }
}

impl Refresh {
    pub open spec fn wf(&self) -> bool {
        refresh_wf(self@)
    }

    /// A refresh gathering the day before the one holding `now`, keeping
    /// the `limit` most popular articles.
    pub fn new_at(now: i64, limit: usize) -> (r: Refresh)
        ensures
            r.wf(),
            r@ == (RefreshView {
                day: day_before(now as int),
                limit: limit as nat,
                stage: StageView::Listing(
                    ListingView { page: 1, items: Seq::empty(), status: ListingStatus::Open },
                ),
            }),
    {
        Refresh { day: yesterday(now), limit, stage: Stage::Listing(Listing::new()) }
    }

    /// A refresh gathering yesterday's `limit` most popular articles.
    pub fn start(limit: usize) -> (r: Refresh)
        ensures
            r.wf(),
            r@.limit == limit,
            r@.stage == StageView::Listing(
                ListingView { page: 1, items: Seq::empty(), status: ListingStatus::Open },
            ),
    {
        Refresh::new_at(now_millis(), limit)
    }

    /// The step to perform next.
    pub fn action(&self) -> (r: Action)
        requires
            self.wf(),
        ensures
            r == next_action(self@),
    {
        match &self.stage {
            Stage::Listing(l) => {
                let p = l.next_page();
                match p {
                    Some(page) => Action::FetchPage(page),
                    None => Action::Fallback,
                }
            },
            Stage::Hydrating(r, f) => {
                if f.len() < r.len() {
                    Action::FetchDetail(r[f.len()].id)
                } else {
                    Action::Install
                }
            },
            Stage::Failed(_) => Action::Fallback,
        }
    }

    /// Takes in the answer to the listing request asked for. Once the
    /// listing ends, the day's summaries are ranked and hydration begins;
    /// a failed first page fails the refresh.
    pub fn on_page(self, p: Result<Vec<ArticleSummary>, UpstreamError>) -> (r: Refresh)
        requires
            self.wf(),
        ensures
            r.wf(),
            r@ == (RefreshView { stage: stage_after_page(self@, page_view(p)), ..self@ }),
    {
        let Refresh { day, limit, stage } = self;
        match stage {
            Stage::Listing(mut l) => {
                l.record(p);
                match l.next_page() {
                    Some(_) => Refresh { day, limit, stage: Stage::Listing(l) },
                    None => {
                        let ghost lv = l@;
                        match l.finish() {
                            Err(e) => Refresh { day, limit, stage: Stage::Failed(e) },
                            Ok(items) => {
                                assert(lv.status == ListingStatus::Complete);
                                proof {
                                    lemma_top_ranked(window_of(lv.items, day as int), limit as nat);
                                }
                                let ranked = select_top_for_day(items, day, limit);
                                Refresh { day, limit, stage: Stage::Hydrating(ranked, Vec::new()) }
                            },
                        }
                    },
                }
            },
            _ => Refresh { day, limit, stage },
        }
    }

    /// Takes in the answer to the detail request asked for; a failure
    /// drops only that article.
    pub fn on_detail(self, d: Result<Article, UpstreamError>) -> (r: Refresh)
        requires
            self.wf(),
        ensures
            r.wf(),
            r@ == (RefreshView { stage: stage_after_detail(self@, d), ..self@ }),
    {
        let Refresh { day, limit, stage } = self;
        match stage {
            Stage::Hydrating(ranked, mut fetched) => {
                if fetched.len() < ranked.len() {
                    fetched.push(d);
                }
                Refresh { day, limit, stage: Stage::Hydrating(ranked, fetched) }
            },
            _ => Refresh { day, limit, stage },
        }
    }

    /// Ends the refresh on `cache` at instant `now`. A completed refresh
    /// installs its hydrated articles, even none, and returns them; otherwise
    /// the cache is left untouched and its current articles are returned.
    pub fn apply_at(self, cache: &mut Cache, now: i64) -> (r: Vec<Article>)
        ensures
            final(cache)@ == applied(self@, old(cache)@, now),
            r@ == served(self@, old(cache)@),
    {
        match &self.stage {
            Stage::Hydrating(ranked, fetched) => {
                if fetched.len() >= ranked.len() {
                    let result = hydrate(fetched);
                    cache.install(copy_articles(&result), now);
                    return result;
                }
            },
            _ => {},
        }
        cache.articles()
    }

    /// Ends the refresh on `cache`, stamping an install with the current
    /// instant.
    pub fn apply(self, cache: &mut Cache) -> (r: Vec<Article>)
        ensures
            r@ == served(self@, old(cache)@),
            exists|t: i64| final(cache)@ == #[trigger] applied(self@, old(cache)@, t),
    {
        let now = now_millis();
        let r = self.apply_at(cache, now);
        assert(cache@ == applied(self@, old(cache)@, now));
        r
    }
}

/// The articles that a completed refresh `v` produced.
pub open spec fn refreshed_articles(v: RefreshView) -> Seq<Article> {
    match v.stage {
        StageView::Hydrating(_, f) => successes(f),
        _ => Seq::empty(),
    }
}

/// Two refreshes that both complete, applied one after the other on any
/// cache state: the cache ends holding exactly the articles of the one
/// applied last, stamped with its instant, and each caller receives the
/// articles of its own refresh whole, never a mix of the two.
pub proof fn lemma_last_refresh_wins(
    first: RefreshView,
    second: RefreshView,
    c: CacheView,
    t1: i64,
    t2: i64,
)
    requires
        next_action(first) == Action::Install,
        next_action(second) == Action::Install,
    ensures
        applied(second, applied(first, c, t1), t2) == installed(refreshed_articles(second), t2),
        served(first, c) == refreshed_articles(first),
        served(second, applied(first, c, t1)) == refreshed_articles(second),
{
}

/// A refresh whose listing failed leaves the cache as it was and serves
/// what the cache held.
pub proof fn lemma_failed_refresh_keeps_cache(v: RefreshView, c: CacheView, now: i64)
    requires
        next_action(v) == Action::Fallback,
        refresh_wf(v),
    ensures
        applied(v, c, now) == c,
        served(v, c) == c.articles,
{
}

/// Every listing request a refresh asks for is for a page in
/// `1..=MAX_PAGES`, the next page asked for is one past the last, and at
/// most `limit` detail fetches are asked for in all.
pub proof fn lemma_pages_bounded(v: RefreshView, p: Result<Seq<ArticleSummary>, UpstreamError>)
    requires
        refresh_wf(v),
    ensures
        next_action(v) matches Action::FetchPage(k) ==> 1 <= k <= MAX_PAGES,
        ({
            let after = RefreshView { stage: stage_after_page(v, p), ..v };
            (next_action(v) is FetchPage && next_action(after) is FetchPage) ==> next_action(
                after,
            )->FetchPage_0 == next_action(v)->FetchPage_0 + 1
        }),
        v.stage is Hydrating ==> v.stage->Hydrating_0.len() <= v.limit,
{
}

} // verus!
