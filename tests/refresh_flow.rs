use devnews::cache::{Cache, TTL_MILLIS};
use devnews::hydrate::hydrate;
use devnews::listing::{Listing, MAX_PAGES};
use devnews::model::{copy_articles, Article, ArticleSummary, UpstreamError};
use devnews::ranker::MILLIS_PER_DAY;
use devnews::refresh::{Action, Refresh, TOP_COUNT};

const NOW: i64 = 19_675 * MILLIS_PER_DAY + 8 * 3_600_000;
const YESTERDAY_START: i64 = 19_674 * MILLIS_PER_DAY;

fn article(id: u64) -> Article {
    Article::new(id, format!("title {}", id), format!("author {}", id), format!("# body {}", id))
}

fn summary(id: u64, popularity: i32, published_at: i64) -> ArticleSummary {
    ArticleSummary { id, popularity, published_at }
}

fn ids(v: &[Article]) -> Vec<u64> {
    v.iter().map(|a| a.id).collect()
}

#[test]
fn hydrate_drops_only_failed_fetches() {
    let fetched = vec![
        Ok(article(1)),
        Err(UpstreamError::Status(404)),
        Ok(article(3)),
        Err(UpstreamError::Malformed),
        Ok(article(5)),
    ];
    let out = hydrate(&fetched);
    assert_eq!(ids(&out), vec![1, 3, 5]);
    assert_eq!(out[1].title, "title 3");
    assert_eq!(out[2].content, "# body 5");
}

#[test]
fn hydrate_all_failed_is_empty() {
    let fetched: Vec<Result<Article, UpstreamError>> =
        vec![Err(UpstreamError::Transport), Err(UpstreamError::Status(500))];
    assert!(hydrate(&fetched).is_empty());
}

#[test]
fn copy_is_independent() {
    let source = vec![article(1), article(2)];
    let mut copy = copy_articles(&source);
    copy[0].title.push_str(" changed");
    assert_eq!(source[0].title, "title 1");
    assert_eq!(ids(&copy), vec![1, 2]);
}

#[test]
fn new_cache_is_empty_and_stale() {
    let cache = Cache::new();
    let entry = cache.read();
    assert!(entry.articles.is_empty());
    assert_eq!(entry.fetched_at, None);
    assert!(cache.is_stale(NOW, TTL_MILLIS));
    assert!(cache.fresh_at(NOW, TTL_MILLIS).is_none());
}

#[test]
fn install_then_read_returns_the_same_articles() {
    let mut cache = Cache::new();
    let mut installed = vec![article(7), article(8)];
    cache.install(copy_articles(&installed), NOW);
    installed[0].title.push_str(" later");
    let entry = cache.read();
    assert_eq!(ids(&entry.articles), vec![7, 8]);
    assert_eq!(entry.articles[0].title, "title 7");
    assert_eq!(entry.fetched_at, Some(NOW));
    assert_eq!(cache.fetched_at(), Some(NOW));
}

#[test]
fn staleness_uses_strict_bound() {
    let mut cache = Cache::new();
    cache.install(vec![article(1)], NOW);
    assert!(!cache.is_stale(NOW, TTL_MILLIS));
    assert!(!cache.is_stale(NOW + TTL_MILLIS - 1, TTL_MILLIS));
    assert!(!cache.is_stale(NOW + TTL_MILLIS, TTL_MILLIS));
    assert!(cache.is_stale(NOW + TTL_MILLIS + 1, TTL_MILLIS));
    assert_eq!(ids(&cache.fresh_at(NOW + TTL_MILLIS, TTL_MILLIS).unwrap()), vec![1]);
    assert!(cache.fresh_at(NOW + TTL_MILLIS + 1, TTL_MILLIS).is_none());
}

#[test]
fn staleness_does_not_overflow() {
    let mut cache = Cache::new();
    cache.install(Vec::new(), i64::MIN);
    assert!(cache.is_stale(i64::MAX, TTL_MILLIS));
    cache.install(Vec::new(), i64::MAX);
    assert!(!cache.is_stale(i64::MIN, TTL_MILLIS));
}

#[test]
fn fresh_reads_the_clock() {
    let mut cache = Cache::new();
    cache.install(vec![article(1)], 0);
    assert!(cache.fresh(TTL_MILLIS).is_none());
    cache.install(vec![article(2)], i64::MAX);
    assert_eq!(ids(&cache.fresh(TTL_MILLIS).unwrap()), vec![2]);
}

#[test]
fn listing_stops_on_empty_page() {
    let mut l = Listing::new();
    assert_eq!(l.next_page(), Some(1));
    l.record(Ok(vec![summary(1, 0, 0), summary(2, 0, 0)]));
    assert_eq!(l.next_page(), Some(2));
    l.record(Ok(Vec::new()));
    assert_eq!(l.next_page(), None);
    let got: Vec<u64> = l.finish().unwrap().iter().map(|s| s.id).collect();
    assert_eq!(got, vec![1, 2]);
}

#[test]
fn listing_later_page_failure_keeps_earlier_pages() {
    let mut l = Listing::new();
    l.record(Ok(vec![summary(1, 0, 0)]));
    l.record(Ok(vec![summary(2, 0, 0)]));
    l.record(Err(UpstreamError::Status(503)));
    assert_eq!(l.next_page(), None);
    let got: Vec<u64> = l.finish().unwrap().iter().map(|s| s.id).collect();
    assert_eq!(got, vec![1, 2]);
}

#[test]
fn listing_first_page_failure_fails() {
    let mut l = Listing::new();
    l.record(Err(UpstreamError::Status(500)));
    assert_eq!(l.next_page(), None);
    assert_eq!(l.finish().err(), Some(UpstreamError::Status(500)));
}

#[test]
fn listing_stops_after_page_bound() {
    let mut l = Listing::new();
    let mut requested = Vec::new();
    while let Some(p) = l.next_page() {
        requested.push(p);
        l.record(Ok(vec![summary(p as u64, 0, 0)]));
    }
    assert_eq!(requested, (1..=MAX_PAGES).collect::<Vec<u32>>());
    assert_eq!(l.finish().unwrap().len(), MAX_PAGES as usize);
}

#[test]
fn failed_first_listing_page_serves_previous_articles() {
    let mut cache = Cache::new();
    let previous: Vec<Article> = (1..=10u64).map(article).collect();
    cache.install(copy_articles(&previous), NOW - 2 * TTL_MILLIS);
    assert!(cache.fresh_at(NOW, TTL_MILLIS).is_none());

    let mut run = Refresh::new_at(NOW, TOP_COUNT);
    assert_eq!(run.action(), Action::FetchPage(1));
    run = run.on_page(Err(UpstreamError::Status(502)));
    assert_eq!(run.action(), Action::Fallback);
    let served = run.apply_at(&mut cache, NOW);
    assert_eq!(ids(&served), ids(&previous));
    assert_eq!(cache.fetched_at(), Some(NOW - 2 * TTL_MILLIS));
    assert_eq!(ids(&cache.read().articles), ids(&previous));
}

#[test]
fn cold_cache_refresh_with_partial_hydration() {
    let mut cache = Cache::new();
    let mut run = Refresh::new_at(NOW, TOP_COUNT);
    let page = vec![
        summary(11, 4, YESTERDAY_START + 1_000),
        summary(12, 9, YESTERDAY_START + 2_000),
        summary(13, 1, YESTERDAY_START + 3_000),
        summary(14, 7, YESTERDAY_START + 4_000),
        summary(15, 2, YESTERDAY_START + 5_000),
        summary(16, 99, NOW),
    ];
    let mut detail_requests = Vec::new();
    loop {
        match run.action() {
            Action::FetchPage(1) => run = run.on_page(Ok(page.clone())),
            Action::FetchPage(_) => run = run.on_page(Ok(Vec::new())),
            Action::FetchDetail(id) => {
                detail_requests.push(id);
                let answer = if id == 14 || id == 13 {
                    Err(UpstreamError::Status(404))
                } else {
                    Ok(article(id))
                };
                run = run.on_detail(answer);
            }
            Action::Install | Action::Fallback => break,
        }
    }
    assert_eq!(run.action(), Action::Install);
    assert_eq!(detail_requests, vec![12, 14, 11, 15, 13]);
    let served = run.apply_at(&mut cache, NOW);
    assert_eq!(ids(&served), vec![12, 11, 15]);
    assert_eq!(cache.fetched_at(), Some(NOW));
    assert_eq!(ids(&cache.read().articles), vec![12, 11, 15]);
}

#[test]
fn refresh_with_nothing_from_yesterday_installs_empty_set() {
    let mut cache = Cache::new();
    cache.install(vec![article(1)], NOW - 2 * TTL_MILLIS);
    let mut run = Refresh::new_at(NOW, TOP_COUNT);
    run = run.on_page(Ok(vec![summary(5, 3, NOW)]));
    run = run.on_page(Ok(Vec::new()));
    assert_eq!(run.action(), Action::Install);
    let served = run.apply_at(&mut cache, NOW);
    assert!(served.is_empty());
    assert!(cache.read().articles.is_empty());
    assert_eq!(cache.fetched_at(), Some(NOW));
}

#[test]
fn refresh_limit_bounds_detail_fetches() {
    let mut run = Refresh::new_at(NOW, 2);
    run = run.on_page(Ok((1..=5u64).map(|i| summary(i, i as i32, YESTERDAY_START)).collect()));
    run = run.on_page(Err(UpstreamError::Transport));
    assert_eq!(run.action(), Action::FetchDetail(5));
    run = run.on_detail(Ok(article(5)));
    assert_eq!(run.action(), Action::FetchDetail(4));
    run = run.on_detail(Ok(article(4)));
    assert_eq!(run.action(), Action::Install);
    run = run.on_detail(Ok(article(3)));
    let mut cache = Cache::new();
    assert_eq!(ids(&run.apply_at(&mut cache, NOW)), vec![5, 4]);
}

#[test]
fn unfinished_refresh_leaves_cache_alone() {
    let mut cache = Cache::new();
    cache.install(vec![article(1)], 5);
    let run = Refresh::new_at(NOW, TOP_COUNT);
    let served = run.apply_at(&mut cache, NOW);
    assert_eq!(ids(&served), vec![1]);
    assert_eq!(cache.fetched_at(), Some(5));
}

fn completed_refresh(detail_ids: &[u64]) -> Refresh {
    let mut run = Refresh::new_at(NOW, TOP_COUNT);
    let page: Vec<ArticleSummary> = detail_ids
        .iter()
        .enumerate()
        .map(|(i, &id)| summary(id, 100 - i as i32, YESTERDAY_START + 1))
        .collect();
    run = run.on_page(Ok(page));
    run = run.on_page(Ok(Vec::new()));
    for &id in detail_ids {
        assert_eq!(run.action(), Action::FetchDetail(id));
        run = run.on_detail(Ok(article(id)));
    }
    run
}

#[test]
fn concurrent_refreshes_last_install_wins() {
    let mut cache = Cache::new();
    let first = completed_refresh(&[1, 2, 3]);
    let second = completed_refresh(&[7, 8]);
    let served_second = second.apply_at(&mut cache, NOW + 1);
    let served_first = first.apply_at(&mut cache, NOW + 2);
    assert_eq!(ids(&served_second), vec![7, 8]);
    assert_eq!(ids(&served_first), vec![1, 2, 3]);
    assert_eq!(ids(&cache.read().articles), vec![1, 2, 3]);
    assert_eq!(cache.fetched_at(), Some(NOW + 2));
}

#[test]
fn started_refresh_asks_for_first_page_and_stamps_now() {
    let mut cache = Cache::new();
    let mut run = Refresh::start(TOP_COUNT);
    assert_eq!(run.action(), Action::FetchPage(1));
    run = run.on_page(Ok(Vec::new()));
    assert_eq!(run.action(), Action::Install);
    run.apply(&mut cache);
    let stamped = cache.fetched_at().unwrap();
    assert!(stamped > 1_600_000_000_000);
    assert!(cache.fresh(TTL_MILLIS).is_some());
}
