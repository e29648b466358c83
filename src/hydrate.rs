use vstd::prelude::*;
use crate::model::{Article, UpstreamError};

verus! {

/// The articles of the successful detail fetches in `s`, in order.
pub open spec fn successes(s: Seq<Result<Article, UpstreamError>>) -> Seq<Article>
    decreases s.len(),
{
    if s.len() == 0 {
        Seq::empty()
    } else {
        match s.last() {
            Ok(a) => successes(s.drop_last()).push(a),
            Err(_) => successes(s.drop_last()),
        }
    }
}

/// How many detail fetches in `s` failed.
pub open spec fn failures(s: Seq<Result<Article, UpstreamError>>) -> nat
    decreases s.len(),
{
    if s.len() == 0 {
        0
    } else {
        match s.last() {
            Ok(_) => failures(s.drop_last()),
            Err(_) => failures(s.drop_last()) + 1,
        }
    }
}

/// Positions in `s` of its successful fetches, in increasing order.
pub open spec fn success_positions(s: Seq<Result<Article, UpstreamError>>) -> Seq<int>
    decreases s.len(),
{
    if s.len() == 0 {
        Seq::empty()
    } else {
        match s.last() {
            Ok(_) => success_positions(s.drop_last()).push(s.len() - 1),
            Err(_) => success_positions(s.drop_last()),
        }
    }
}

/// Keeps the article of every successful detail fetch, in fetch order; a
/// failed fetch drops only its own article.
pub fn hydrate(fetched: &Vec<Result<Article, UpstreamError>>) -> (r: Vec<Article>)
    ensures
        r@ == successes(fetched@),
{
    let mut r: Vec<Article> = Vec::new();
    let mut i: usize = 0;
    while i < fetched.len()
        invariant
            i <= fetched.len(),
            r@ == successes(fetched@.subrange(0, i as int)),
        decreases fetched.len() - i,
    {
        assert(fetched@.subrange(0, i + 1).drop_last() =~= fetched@.subrange(0, i as int));
        match &fetched[i] {
            Ok(a) => r.push(a.duplicate()),
            Err(_) => {},
        }
        i = i + 1;
    }
    assert(fetched@.subrange(0, i as int) =~= fetched@);
    r
}

/// When `k` of `m` detail fetches fail, `m - k` articles remain; the
/// article at each place of the result is the one fetched at the matching
/// position of `success_positions`, and those positions strictly increase,
/// so the result keeps fetch order and holds no article of a failed fetch.
pub proof fn lemma_hydrate_keeps_successes(s: Seq<Result<Article, UpstreamError>>)
    ensures
        successes(s).len() == s.len() - failures(s),
        success_positions(s).len() == successes(s).len(),
        forall|k: int|
            0 <= k < successes(s).len() ==> 0 <= #[trigger] success_positions(s)[k] < s.len()
                && s[success_positions(s)[k]] == Ok::<Article, UpstreamError>(successes(s)[k]),
        forall|j: int, k: int|
            0 <= j < k < successes(s).len() ==> success_positions(s)[j]
                < success_positions(s)[k],
    decreases s.len(),
{
    if s.len() > 0 {
        let p = s.drop_last();
        lemma_hydrate_keeps_successes(p);
        assert forall|k: int| 0 <= k < successes(p).len() implies s[success_positions(p)[k]]
            == p[success_positions(p)[k]] by {}
    }
}

} // verus!
