use vstd::prelude::*;

verus! {

/// An article joined with its author, keyed by numeric ids.
#[derive(Debug, PartialEq, Eq, Clone)]
pub struct Article {
    pub id: i32,
    pub title: String,
    pub content: String,
    pub author_id: i32,
    pub author_name: String,
    pub author_desc: String,
}

/// The payload of a failed response.
#[derive(Debug, PartialEq, Eq, Clone, Copy)]
pub struct FailureData(pub ());

/// All the articles.
#[derive(Debug, PartialEq, Eq, Clone)]
pub struct AllArticleData(pub Vec<Article>);

} // verus!
