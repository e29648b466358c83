use vstd::prelude::*;
use crate::model::ArticleSummary;

verus! {

/// Milliseconds in one UTC calendar day.
pub const MILLIS_PER_DAY: i64 = 86_400_000;

/// Offset of the last whole second of a day (23:59:59.000) from its start.
pub const LAST_SECOND_OFFSET: i64 = 86_399_000;

/// First instant of UTC calendar day `day` (days counted from the Unix epoch).
pub open spec fn window_start(day: int) -> int {
    day * MILLIS_PER_DAY
}

/// Last instant admitted for `day`: 23:59:59.000 of that day.
pub open spec fn window_end(day: int) -> int {
    day * MILLIS_PER_DAY + LAST_SECOND_OFFSET
}

pub open spec fn in_window(s: ArticleSummary, day: int) -> bool {
    window_start(day) <= s.published_at && s.published_at <= window_end(day)
}

/// The summaries of `s` published within `day`, in their input order.
pub open spec fn window_of(s: Seq<ArticleSummary>, day: int) -> Seq<ArticleSummary>
    decreases s.len(),
{
    if s.len() == 0 {
        Seq::empty()
    } else if in_window(s.last(), day) {
        window_of(s.drop_last(), day).push(s.last())
    } else {
        window_of(s.drop_last(), day)
    }
}

/// Index of the first summary of highest popularity (0 for an empty sequence).
pub open spec fn best_index(s: Seq<ArticleSummary>) -> int
    decreases s.len(),
{
    if s.len() <= 1 {
        0
    } else {
        let j = best_index(s.drop_last());
        if s.last().popularity > s[j].popularity {
            s.len() - 1
        } else {
            j
        }
    }
}

/// The first `n` summaries of `s` once stably ordered by descending
/// popularity: repeatedly take the earliest summary of highest popularity.
pub open spec fn top(s: Seq<ArticleSummary>, n: nat) -> Seq<ArticleSummary>
    decreases n,
{
    if n == 0 || s.len() == 0 {
        Seq::empty()
    } else {
        let b = best_index(s);
        seq![s[b]].add(top(s.remove(b), (n - 1) as nat))
    }
}

/// Whether the instant `t` lies within UTC calendar day `day`,
/// from 00:00:00.000 through 23:59:59.000 inclusive.
pub fn published_within(t: i64, day: i64) -> (r: bool)
    ensures
        r == (window_start(day as int) <= t && t <= window_end(day as int)),
{
    assert(-0x8000_0000_0000_0000 * 86_400_000 <= (day as int) * 86_400_000
        <= 0x7fff_ffff_ffff_ffff * 86_400_000) by (nonlinear_arith)
        requires
            -0x8000_0000_0000_0000 <= day <= 0x7fff_ffff_ffff_ffff,
    ;
    let start: i128 = (day as i128) * (MILLIS_PER_DAY as i128);
    let end: i128 = start + LAST_SECOND_OFFSET as i128;
    start <= t as i128 && t as i128 <= end
}

/// Keeps the summaries published within UTC calendar day `day`, in order.
pub fn filter_window(summaries: Vec<ArticleSummary>, day: i64) -> (r: Vec<ArticleSummary>)
    ensures
        r@ == window_of(summaries@, day as int),
{
    let mut r: Vec<ArticleSummary> = Vec::new();
    let mut i: usize = 0;
    while i < summaries.len()
        invariant
            i <= summaries.len(),
            r@ == window_of(summaries@.subrange(0, i as int), day as int),
        decreases summaries.len() - i,
    {
        let s = summaries[i];
        assert(summaries@.subrange(0, i + 1).drop_last() =~= summaries@.subrange(0, i as int));
        if published_within(s.published_at, day) {
            r.push(s);
        }
        i = i + 1;
    }
    assert(summaries@.subrange(0, i as int) =~= summaries@);
    r
}

/// Index of the earliest summary of highest popularity.
fn best_position(v: &Vec<ArticleSummary>) -> (b: usize)
    requires
        v.len() > 0,
    ensures
        b == best_index(v@),
        b < v.len(),
{
    let mut b: usize = 0;
    let mut i: usize = 1;
    assert(v@.subrange(0, 1).len() == 1);
    while i < v.len()
        invariant
            1 <= i <= v.len(),
            b < i,
            b == best_index(v@.subrange(0, i as int)),
        decreases v.len() - i,
    {
        let ghost pre = v@.subrange(0, i as int);
        let ghost cur = v@.subrange(0, i + 1);
        assert(cur.drop_last() =~= pre);
        assert(cur[b as int] == v@[b as int]);
        if v[i].popularity > v[b].popularity {
            b = i;
        }
        i = i + 1;
    }
    assert(v@.subrange(0, i as int) =~= v@);
    b
}

/// Stably orders `summaries` by descending popularity (ties keep their
/// input order) and keeps the first `n`.
pub fn top_n(summaries: Vec<ArticleSummary>, n: usize) -> (r: Vec<ArticleSummary>)
    ensures
        r@ == top(summaries@, n as nat),
{
    let mut rest = summaries;
    let mut r: Vec<ArticleSummary> = Vec::new();
    let mut k: usize = 0;
    while k < n && rest.len() > 0
        invariant
            k <= n,
            r@.add(top(rest@, (n - k) as nat)) == top(summaries@, n as nat),
        decreases n - k,
    {
        let ghost before = rest@;
        let b = best_position(&rest);
        let s = rest.remove(b);
        assert(top(before, (n - k) as nat) == seq![s].add(top(rest@, (n - k - 1) as nat)));
        assert(r@.push(s).add(top(rest@, (n - k - 1) as nat)) =~= r@.add(
            seq![s].add(top(rest@, (n - k - 1) as nat)),
        ));
        r.push(s);
        k = k + 1;
    }
    assert(top(rest@, (n - k) as nat) =~= Seq::<ArticleSummary>::empty());
    assert(r@.add(Seq::<ArticleSummary>::empty()) =~= r@);
    r
}

/// The summaries to hydrate: the `n` most popular of those published
/// within UTC calendar day `day`.
pub fn select_top_for_day(summaries: Vec<ArticleSummary>, day: i64, n: usize) -> (r: Vec<
    ArticleSummary,
>)
    ensures
        r@ == top(window_of(summaries@, day as int), n as nat),
{
    top_n(filter_window(summaries, day), n)
}

/// The summaries of `s` whose popularity is `p`, in their order in `s`.
pub open spec fn of_popularity(s: Seq<ArticleSummary>, p: i32) -> Seq<ArticleSummary>
    decreases s.len(),
{
    if s.len() == 0 {
        Seq::empty()
    } else {
        let rest = of_popularity(s.subrange(1, s.len() as int), p);
        if s[0].popularity == p {
            seq![s[0]].add(rest)
        } else {
            rest
        }
    }
}

/// A summary is kept by the day filter exactly when it is one of the input
/// summaries and was published between 00:00:00.000 and 23:59:59.000 of
/// that day, both inclusive; everything before or after is left out.
pub proof fn lemma_window_exact(s: Seq<ArticleSummary>, day: int)
    ensures
        forall|x: ArticleSummary|
            #[trigger] window_of(s, day).contains(x) <==> (s.contains(x) && in_window(x, day)),
    decreases s.len(),
{
    if s.len() > 0 {
        let p = s.drop_last();
        let w = window_of(s, day);
        let wp = window_of(p, day);
        lemma_window_exact(p, day);
        assert(s =~= p.push(s.last()));
        assert forall|x: ArticleSummary| #[trigger] w.contains(x) <==> (s.contains(x) && in_window(x, day)) by {
            if s.contains(x) && in_window(x, day) {
                let i = choose|i: int| 0 <= i < s.len() && s[i] == x;
                if i < s.len() - 1 {
                    assert(p[i] == x);
                    assert(wp.contains(x));
                    let k = choose|k: int| 0 <= k < wp.len() && wp[k] == x;
                    if in_window(s.last(), day) {
                        assert(w[k] == x);
                    }
                } else {
                    assert(w == wp.push(x));
                    assert(w[wp.len() as int] == x);
                }
            }
            if w.contains(x) {
                let i = choose|i: int| 0 <= i < w.len() && w[i] == x;
                if in_window(s.last(), day) {
                    assert(w == wp.push(s.last()));
                    if i < wp.len() {
                        assert(wp[i] == x);
                        assert(wp.contains(x));
                        let k = choose|k: int| 0 <= k < p.len() && p[k] == x;
                        assert(s[k] == x);
                    } else {
                        assert(s[s.len() - 1] == x);
                    }
                } else {
                    assert(w == wp);
                    assert(wp.contains(x));
                    let k = choose|k: int| 0 <= k < p.len() && p[k] == x;
                    assert(s[k] == x);
                }
            }
        }
    }
}

/// `best_index` picks a summary of highest popularity, and the earliest one.
pub proof fn lemma_best_index(s: Seq<ArticleSummary>)
    requires
        s.len() > 0,
    ensures
        0 <= best_index(s) < s.len(),
        forall|i: int| 0 <= i < s.len() ==> #[trigger] s[i].popularity <= s[best_index(s)].popularity,
        forall|i: int|
            0 <= i < best_index(s) ==> #[trigger] s[i].popularity < s[best_index(s)].popularity,
    decreases s.len(),
{
    if s.len() > 1 {
        let p = s.drop_last();
        lemma_best_index(p);
        assert forall|i: int| 0 <= i < p.len() implies p[i] == s[i] by {}
    }
}

proof fn lemma_top_members(s: Seq<ArticleSummary>, n: nat)
    ensures
        forall|k: int| 0 <= k < top(s, n).len() ==> s.contains(#[trigger] top(s, n)[k]),
    decreases n,
{
    if n > 0 && s.len() > 0 {
        let b = best_index(s);
        lemma_best_index(s);
        let rest = s.remove(b);
        lemma_top_members(rest, (n - 1) as nat);
        assert forall|k: int| 0 <= k < top(s, n).len() implies s.contains(#[trigger] top(s, n)[k]) by {
            if k == 0 {
                assert(s[b] == top(s, n)[0]);
            } else {
                assert(top(s, n)[k] == top(rest, (n - 1) as nat)[k - 1]);
                let j = choose|j: int| 0 <= j < rest.len() && rest[j] == top(rest, (n - 1) as nat)[k - 1];
                if j < b {
                    assert(s[j] == rest[j]);
                } else {
                    assert(s[j + 1] == rest[j]);
                }
            }
        }
    }
}

proof fn lemma_of_popularity_concat(a: Seq<ArticleSummary>, b: Seq<ArticleSummary>, p: i32)
    ensures
        of_popularity(a + b, p) == of_popularity(a, p) + of_popularity(b, p),
    decreases a.len(),
{
    if a.len() == 0 {
        assert(a + b =~= b);
        assert(of_popularity(a, p) + of_popularity(b, p) =~= of_popularity(b, p));
    } else {
        let t = a.subrange(1, a.len() as int);
        lemma_of_popularity_concat(t, b, p);
        assert((a + b).subrange(1, (a + b).len() as int) =~= t + b);
        if a[0].popularity == p {
            assert(seq![a[0]].add(of_popularity(t, p)) + of_popularity(b, p) =~= seq![a[0]].add(
                of_popularity(t, p) + of_popularity(b, p),
            ));
        }
    }
}

proof fn lemma_of_popularity_none(a: Seq<ArticleSummary>, p: i32)
    requires
        forall|i: int| 0 <= i < a.len() ==> a[i].popularity != p,
    ensures
        of_popularity(a, p) == Seq::<ArticleSummary>::empty(),
    decreases a.len(),
{
    if a.len() > 0 {
        lemma_of_popularity_none(a.subrange(1, a.len() as int), p);
    }
}

proof fn lemma_of_popularity_single(x: ArticleSummary, p: i32)
    ensures
        of_popularity(seq![x], p) == (if x.popularity == p {
            seq![x]
        } else {
            Seq::<ArticleSummary>::empty()
        }),
{
    let e = Seq::<ArticleSummary>::empty();
    assert(seq![x].subrange(1, 1) =~= e);
    assert(of_popularity(e, p) == e);
    assert(seq![x][0] == x);
    if x.popularity == p {
        assert(seq![x].add(Seq::<ArticleSummary>::empty()) =~= seq![x]);
    }
}

/// `top(s, n)` holds `min(n, |s|)` summaries, each one of `s`, in
/// non-increasing popularity; and for every popularity value the summaries
/// of that value come out in their input order, being the first ones of
/// that value in the input (a stable order).
pub proof fn lemma_top_ranked(s: Seq<ArticleSummary>, n: nat)
    ensures
        top(s, n).len() == if n < s.len() {
            n
        } else {
            s.len()
        },
        forall|k: int| 0 <= k < top(s, n).len() ==> s.contains(#[trigger] top(s, n)[k]),
        forall|i: int, j: int|
            0 <= i < j < top(s, n).len() ==> #[trigger] top(s, n)[i].popularity
                >= #[trigger] top(s, n)[j].popularity,
        forall|p: i32|
            (#[trigger] of_popularity(top(s, n), p)).len() <= of_popularity(s, p).len()
                && of_popularity(top(s, n), p) == of_popularity(s, p).subrange(
                0,
                of_popularity(top(s, n), p).len() as int,
            ),
    decreases n,
{
    lemma_top_members(s, n);
    if n == 0 || s.len() == 0 {
        assert forall|p: i32|
            (#[trigger] of_popularity(top(s, n), p)).len() <= of_popularity(s, p).len()
                && of_popularity(top(s, n), p) == of_popularity(s, p).subrange(
                0,
                of_popularity(top(s, n), p).len() as int,
            ) by {
            assert(of_popularity(s, p).subrange(0, 0) =~= Seq::<ArticleSummary>::empty());
        }
    } else {
        let b = best_index(s);
        lemma_best_index(s);
        let rest = s.remove(b);
        let m = (n - 1) as nat;
        lemma_top_ranked(rest, m);
        let t = top(s, n);
        let tr = top(rest, m);
        assert(t == seq![s[b]].add(tr));
        assert forall|i: int, j: int| 0 <= i < j < t.len() implies #[trigger] t[i].popularity
            >= #[trigger] t[j].popularity by {
            assert(t[j] == tr[j - 1]);
            assert(rest.contains(tr[j - 1]));
            let q = choose|q: int| 0 <= q < rest.len() && rest[q] == tr[j - 1];
            if q < b {
                assert(s[q] == rest[q]);
            } else {
                assert(s[q + 1] == rest[q]);
            }
            if i > 0 {
                assert(t[i] == tr[i - 1]);
            }
        }
        let pre = s.subrange(0, b);
        let post = s.subrange(b + 1, s.len() as int);
        assert(s =~= pre + seq![s[b]] + post);
        assert(rest =~= pre + post);
        assert forall|p: i32|
            (#[trigger] of_popularity(t, p)).len() <= of_popularity(s, p).len()
                && of_popularity(t, p) == of_popularity(s, p).subrange(
                0,
                of_popularity(t, p).len() as int,
            ) by {
            lemma_of_popularity_concat(pre + seq![s[b]], post, p);
            lemma_of_popularity_concat(pre, seq![s[b]], p);
            lemma_of_popularity_concat(pre, post, p);
            lemma_of_popularity_concat(seq![s[b]], tr, p);
            lemma_of_popularity_single(s[b], p);
            assert(of_popularity(tr, p).len() <= of_popularity(rest, p).len());
            assert(of_popularity(tr, p) == of_popularity(rest, p).subrange(
                0,
                of_popularity(tr, p).len() as int,
            ));
            if s[b].popularity == p {
                lemma_of_popularity_none(pre, p);
                assert(of_popularity(s, p) =~= seq![s[b]] + of_popularity(post, p));
                assert(of_popularity(rest, p) =~= of_popularity(post, p));
                assert(of_popularity(t, p) =~= seq![s[b]] + of_popularity(tr, p));
                assert(of_popularity(t, p) =~= of_popularity(s, p).subrange(
                    0,
                    of_popularity(t, p).len() as int,
                ));
            } else {
                assert(of_popularity(s, p) =~= of_popularity(pre, p) + of_popularity(post, p));
                assert(of_popularity(t, p) =~= of_popularity(tr, p));
            }
        }
    }
}

} // verus!
