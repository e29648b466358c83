use vstd::prelude::*;

verus! {

/// One entry of an upstream listing page: enough to rank an article.
#[derive(Clone, Copy, Debug, PartialEq, Eq, Structural)]
pub struct ArticleSummary {
    pub id: u64,
    /// Popularity score (count of positive reactions).
    pub popularity: i32,
    /// Publication instant, in milliseconds since the Unix epoch (UTC).
    pub published_at: i64,
}

/// A fully hydrated article, as served to display clients.
#[derive(Debug)]
pub struct Article {
    pub id: u64,
    pub title: String,
    pub author: String,
    /// Raw markup of the article body.
    pub content: String,
}

impl Article {
    pub fn new(id: u64, title: String, author: String, content: String) -> (r: Article)
        ensures
            r == (Article { id, title, author, content }),
    {
        Article { id, title, author, content }
    }

    /// An independent copy of this article.
    pub fn duplicate(&self) -> (r: Article)
        ensures
            r == *self,
    {
        Article {
            id: self.id,
            title: self.title.clone(),
            author: self.author.clone(),
            content: self.content.clone(),
        }
    }
}

/// A failed call to the upstream content source.
#[derive(Clone, Copy, Debug, PartialEq, Eq, Structural)]
pub enum UpstreamError {
    /// The source answered with a non-success HTTP status.
    Status(u16),
    /// The payload could not be decoded.
    Malformed,
    /// The request did not complete (connection failure, timeout).
    Transport,
}

/// An independent copy of a sequence of articles.
pub fn copy_articles(v: &Vec<Article>) -> (r: Vec<Article>)
    ensures
        r@ == v@,
{
    let mut r: Vec<Article> = Vec::new();
    let mut i: usize = 0;
    while i < v.len()
        invariant
            i <= v.len(),
            r@ == v@.subrange(0, i as int),
        decreases v.len() - i,
    {
        r.push(v[i].duplicate());
        i = i + 1;
        assert(r@ =~= v@.subrange(0, i as int));
    }
    assert(r@ =~= v@);
    r
}

} // verus!
