use vstd::prelude::*;
use crate::clock::now_millis;
use crate::model::{copy_articles, Article};

verus! {

/// Default time to live of a cached article set: 24 hours, in milliseconds.
pub const TTL_MILLIS: i64 = 86_400_000;

pub ghost struct CacheView {
    pub articles: Seq<Article>,
    /// Instant of the last completed refresh, absent before the first one.
    pub fetched_at: Option<i64>,
}

/// A snapshot of the cache: the article set and when it was fetched.
pub struct CacheEntry {
    pub articles: Vec<Article>,
    pub fetched_at: Option<i64>,
}

/// The last hydrated article set (in rank order) with its fetch instant.
/// Shared behind a read-write guard, every change is one `install`, which
/// swaps in both parts together.
pub struct Cache {
    articles: Vec<Article>,
    fetched_at: Option<i64>,
}

/// The cache state right after installing `articles` at instant `now`.
pub open spec fn installed(articles: Seq<Article>, now: i64) -> CacheView {
    CacheView { articles, fetched_at: Some(now) }
}

/// Whether an entry fetched at `fetched_at` is due for a refresh at `now`:
/// never fetched, or older than `ttl` (strictly).
pub open spec fn stale(fetched_at: Option<i64>, now: int, ttl: int) -> bool {
    match fetched_at {
        None => true,
        Some(f) => now - f > ttl,
    }
}

pub open spec fn cache_wf(v: CacheView) -> bool {
    v.fetched_at is None ==> v.articles.len() == 0
}

impl View for Cache {
    type V = CacheView;

    closed spec fn view(&self) -> CacheView {
        CacheView { articles: self.articles@, fetched_at: self.fetched_at }
    }
}

impl Cache {
    /// An empty cache, never refreshed.
    pub fn new() -> (r: Cache)
        ensures
            r@ == (CacheView { articles: Seq::empty(), fetched_at: None }),
            cache_wf(r@),
    {
        Cache { articles: Vec::new(), fetched_at: None }
    }

    /// A copy of the current entry.
    pub fn read(&self) -> (r: CacheEntry)
        ensures
            r.articles@ == self@.articles,
            r.fetched_at == self@.fetched_at,
    {
        CacheEntry { articles: copy_articles(&self.articles), fetched_at: self.fetched_at }
    }

    /// A copy of the cached articles.
    pub fn articles(&self) -> (r: Vec<Article>)
        ensures
            r@ == self@.articles,
    {
        copy_articles(&self.articles)
    }

    /// Instant of the last completed refresh.
    pub fn fetched_at(&self) -> (r: Option<i64>)
        ensures
            r == self@.fetched_at,
    {
        self.fetched_at
    }

    /// Whether the entry is due for a refresh at instant `now`.
    pub fn is_stale(&self, now: i64, ttl: i64) -> (r: bool)
        ensures
            r == stale(self@.fetched_at, now as int, ttl as int),
    {
        match self.fetched_at {
            None => true,
            Some(f) => (now as i128) - (f as i128) > ttl as i128,
        }
    }

    /// Replaces the article set and stamps it with `now`, as one change.
    pub fn install(&mut self, articles: Vec<Article>, now: i64)
        ensures
            final(self)@ == installed(articles@, now),
            cache_wf(final(self)@),
    {
        self.articles = articles;
        self.fetched_at = Some(now);
    }

    /// The cached articles when they are still fresh at `now`; `None` when
    /// a refresh is due.
    pub fn fresh_at(&self, now: i64, ttl: i64) -> (r: Option<Vec<Article>>)
        ensures
            r is None <==> stale(self@.fetched_at, now as int, ttl as int),
            r is Some ==> r->Some_0@ == self@.articles,
    {
        if self.is_stale(now, ttl) {
            None
        } else {
            Some(copy_articles(&self.articles))
        }
    }

    /// The cached articles when they are still fresh now; `None` when a
    /// refresh is due.
    pub fn fresh(&self, ttl: i64) -> (r: Option<Vec<Article>>)
        ensures
            r is Some ==> r->Some_0@ == self@.articles,
            self@.fetched_at is None ==> r is None,
    {
        self.fresh_at(now_millis(), ttl)
    }
}

/// Reading right after installing `x` at `now` gives back exactly `x`,
/// stamped with `now`.
pub proof fn lemma_install_then_read(x: Seq<Article>, now: i64)
    ensures
        installed(x, now).articles == x,
        installed(x, now).fetched_at == Some(now),
        cache_wf(installed(x, now)),
{
}

/// With a time to live `ttl`, an entry installed at `t` is fresh at `t` and
/// through `t + ttl` inclusive, and stale from `t + ttl + 1` on.
pub proof fn lemma_staleness_boundary(t: i64, ttl: int, now: int)
    requires
        ttl >= 0,
    ensures
        !stale(installed(Seq::empty(), t).fetched_at, t as int, ttl),
        !stale(installed(Seq::empty(), t).fetched_at, t + ttl - 1, ttl),
        !stale(installed(Seq::empty(), t).fetched_at, t + ttl, ttl),
        stale(installed(Seq::empty(), t).fetched_at, t + ttl + 1, ttl),
        stale(Some(t), now, ttl) <==> now > t + ttl,
        stale(None, now, ttl),
{
}

} // verus!
