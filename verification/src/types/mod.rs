use vstd::prelude::*;

pub mod rt_type;

use self::rt_type::Rt;

verus! {

/// The HTTP statuses that the server's logic answers with.
#[derive(Debug, PartialEq, Eq, Clone, Copy, Structural)]
pub enum Status {
    NonAuthoritativeInformation,
    BadRequest,
    NotFound,
    InternalServerError,
}

/// The numeric HTTP code of a status.
pub open spec fn status_code(s: Status) -> u16 {
    match s {
        Status::NonAuthoritativeInformation => 203,
        Status::BadRequest => 400,
        Status::NotFound => 404,
        Status::InternalServerError => 500,
    }
}

impl Status {
    /// The numeric HTTP code of this status.
    pub fn code(&self) -> (r: u16)
        ensures
            r == status_code(*self),
    {
        match self {
            Status::NonAuthoritativeInformation => 203,
            Status::BadRequest => 400,
            Status::NotFound => 404,
            Status::InternalServerError => 500,
        }
    }
}

/// The `rt` field of a response: the error handlers and the login guard write a
/// negative number, the routes write an [`Rt`] kind.
#[derive(Debug, PartialEq, Eq, Clone, Copy, Structural)]
pub enum RtCode {
    Num(i32),
    Kind(Rt),
}

/// An article as the public listing shows it.
#[derive(Debug, PartialEq, Eq, Clone)]
pub struct Article {
    pub id: String,
    pub title: String,
    pub modify_time: u64,
    pub description: String,
    pub author_name: String,
    pub author_desc: String,
}

/// The payload of a failed response (serialised as `null`).
#[derive(Debug, PartialEq, Eq, Clone, Copy)]
pub struct FailureData(pub ());

/// The payload of a successful response that carries nothing.
#[derive(Debug, PartialEq, Eq, Clone, Copy)]
pub struct DefaultSuccessData(pub ());

/// A list of articles.
#[derive(Debug, PartialEq, Eq, Clone)]
pub struct ArticleData {
    pub list: Vec<Article>,
}

/// What a successful login or registration reports about the user.
#[derive(Debug, PartialEq, Eq, Clone)]
pub struct LoginSuccessData {
    pub name: String,
    pub desc: String,
    pub user_id: String,
}

/// The envelope of every JSON response.
#[derive(Debug, Eq, PartialEq, Clone)]
pub struct RtData<T> {
    pub success: bool,
    pub rt: RtCode,
    pub data: T,
    pub msg: String,
}

impl<T> RtData<T> {
    /// The response reports success exactly when its `rt` is the success kind.
    pub open spec fn consistent(&self) -> bool {
        self.success <==> self.rt == RtCode::Kind(Rt::Success)
    }
}

/// The result of a search: the articles found, or a failure.
#[derive(Debug, PartialEq, Eq, Clone)]
pub enum GetArticleData {
    Success(ArticleData),
    Fail,
}

/// The user on whose behalf a request is made.
#[derive(Debug, PartialEq, Eq, Clone)]
pub struct UserMsg {
    pub id: String,
}

impl UserMsg {
    /// The request guard's decision. `is_valid_token` is what the token check of
    /// the request found; `token_id` is the `id` claim of the token that the
    /// request carries in its token header, if it carries one. The guard
    /// succeeds only on a valid token that is present.
    pub fn from_request(is_valid_token: bool, token_id: Option<String>) -> (r: Result<
        UserMsg,
        (Status, String),
    >)
        ensures
            is_valid_token && token_id is Some ==> r == Ok::<UserMsg, (Status, String)>(
                UserMsg { id: token_id->0 },
            ),
            !(is_valid_token && token_id is Some) ==> r is Err && r->Err_0.0 == Status::BadRequest
                && r->Err_0.1@ == "user no login or token expired"@,
    {
        if is_valid_token {
            match token_id {
                Some(id) => Ok(UserMsg { id }),
                None => Err((Status::BadRequest, String::from_str("user no login or token expired"))),
            }
        } else {
            Err((Status::BadRequest, String::from_str("user no login or token expired")))
        }
    }
}

} // verus!
