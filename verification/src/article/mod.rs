use vstd::prelude::*;

pub mod db_service;
pub mod file_operate;
pub mod route;

use crate::types::Status;

verus! {

/// Which of a user's articles a request asks for.
#[derive(Debug, PartialEq, Eq, Clone)]
pub struct UserAticleParams {
    pub user_id: String,
    pub article_id: String,
    pub all: bool,
}

impl UserAticleParams {
    /// The request guard's decision. `is_valid_token` is what the token check
    /// of the request found; `request` is, when the request carries a token
    /// header, the token's `id` claim and the request's `id` and `all` query
    /// values. The guard succeeds only on a valid token that is present.
    pub fn from_data(is_valid_token: bool, request: Option<(String, String, bool)>) -> (r: Result<
        UserAticleParams,
        (Status, String),
    >)
        ensures
            request matches Some(req) ==> (is_valid_token ==> r == Ok::<
                UserAticleParams,
                (Status, String),
            >(UserAticleParams { user_id: req.0, article_id: req.1, all: req.2 })),
            !(is_valid_token && request is Some) ==> r is Err && r->Err_0.0 == Status::BadRequest
                && r->Err_0.1@ == "user no login or token expired"@,
    {
        if is_valid_token {
            match request {
                Some((user_id, article_id, all)) => Ok(UserAticleParams { user_id, article_id, all }),
                None => Err((Status::BadRequest, String::from_str("user no login or token expired"))),
            }
        } else {
            Err((Status::BadRequest, String::from_str("user no login or token expired")))
        }
    }
}

/// An article of the requesting user.
#[derive(Debug, PartialEq, Eq, Clone)]
pub struct UserArticle {
    pub id: String,
    pub title: String,
    pub description: String,
    pub modify_time: u64,
}

/// The payload of a response listing the user's articles.
#[derive(Debug, PartialEq, Eq, Clone)]
pub enum UserArticleType {
    Success(Vec<UserArticle>),
    Fail,
}

/// The form that adds an article.
#[derive(Debug, Eq, PartialEq, Clone)]
pub struct AddArticleData {
    pub title: String,
    pub content: String,
}

/// The form that creates (empty `id`) or updates an article.
#[derive(Debug, Eq, PartialEq, Clone)]
pub struct SetArticleData {
    pub id: String,
    pub title: String,
    pub description: String,
    pub content: String,
    pub is_publish: bool,
}

/// The payload of a response to saving an article: its modification time, or a
/// failure.
#[derive(Debug, Eq, PartialEq, Clone, Copy)]
pub enum SetArticleDataState {
    Success(u64),
    Fail(()),
}

/// An article as its detail page shows it.
#[derive(Debug, Eq, PartialEq, Clone)]
pub struct ArticleDetail {
    pub id: String,
    pub title: String,
    pub content: String,
    pub modify_time: u64,
    pub can_edit: bool,
}

/// The payload of a response to a detail request.
#[derive(Debug, Eq, PartialEq, Clone)]
pub enum ArticleDetailData {
    Success(ArticleDetail),
    Fail,
}

} // verus!
