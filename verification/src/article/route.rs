use vstd::prelude::*;
use vstd::string::StringExecFns;

use crate::article::db_service::{ArticleDetailRow, ArticleRow, UserArticleRow};
use crate::article::{
    ArticleDetail, ArticleDetailData, SetArticleData, SetArticleDataState, UserArticle,
    UserArticleType,
};
use crate::db::DbError;
use crate::ids::{is_drawn_uuid_text, is_v4_uuid_text, new_uuid};
use crate::types::rt_type::Rt;
use crate::types::{
    Article, ArticleData, DefaultSuccessData, GetArticleData, RtCode, RtData, Status,
};

verus! {

/// Where the root page sends its visitors.
pub fn index() -> (r: String)
    ensures
        r@ == "/get_article?all=true&id=-1&author_id=-1"@,
{
    String::from_str("/get_article?all=true&id=-1&author_id=-1")
}

/// The page size of the article listing: 20 when the request gives a negative
/// one.
pub fn route_article_limit(limit: i32) -> (r: i32)
    ensures
        r == if limit < 0 {
            20
        } else {
            limit
        },
        r >= 0,
{
    if limit < 0 {
        20
    } else {
        limit
    }
}

/// The article that a listing row shows.
pub open spec fn article_of(row: ArticleRow) -> Article {
    Article {
        id: row.id,
        title: row.title,
        modify_time: row.modify_time as u64,
        description: row.description,
        author_name: row.author_name,
        author_desc: row.author_desc,
    }
}

/// Whether a list shows the rows one for one, in order: each article carries
/// its row's id, title, description, author name and author description
/// unchanged, and its row's modification time read as a `u64`.
pub open spec fn shows_rows(list: Seq<Article>, rows: Seq<ArticleRow>) -> bool {
    &&& list.len() == rows.len()
    &&& forall|i: int|
        0 <= i < rows.len() ==> {
            &&& (#[trigger] list[i]).id == rows[i].id
            &&& list[i].title == rows[i].title
            &&& list[i].modify_time == rows[i].modify_time as u64
            &&& list[i].description == rows[i].description
            &&& list[i].author_name == rows[i].author_name
            &&& list[i].author_desc == rows[i].author_desc
        }
}

/// Whether a list shows the user's rows one for one, in order, each field
/// unchanged and the modification time read as a `u64`.
pub open spec fn shows_user_rows(list: Seq<UserArticle>, rows: Seq<UserArticleRow>) -> bool {
    &&& list.len() == rows.len()
    &&& forall|i: int|
        0 <= i < rows.len() ==> {
            &&& (#[trigger] list[i]).id == rows[i].id
            &&& list[i].title == rows[i].title
            &&& list[i].description == rows[i].description
            &&& list[i].modify_time == rows[i].modify_time as u64
        }
}

/// Two lists that show the same rows are the same list: what a listing or a
/// search answers is determined by the rows the query returned.
pub proof fn lemma_shows_rows_unique(l1: Seq<Article>, l2: Seq<Article>, rows: Seq<ArticleRow>)
    requires
        shows_rows(l1, rows),
        shows_rows(l2, rows),
    ensures
        l1 == l2,
{
    assert forall|i: int| 0 <= i < l1.len() implies l1[i] == l2[i] by {
        assert(l1[i].id == rows[i].id && l2[i].id == rows[i].id);
    }
    assert(l1 =~= l2);
}

/// The articles that listing rows show, in order.
pub fn articles_of_rows(rows: &Vec<ArticleRow>) -> (r: Vec<Article>)
    ensures
        r@ == rows@.map_values(|row: ArticleRow| article_of(row)),
        shows_rows(r@, rows@),
{
    let mut out: Vec<Article> = Vec::new();
    let n = rows.len();
    let mut i: usize = 0;
    while i < n
        invariant
            n == rows@.len(),
            i <= n,
            out@.len() == i,
            forall|j: int| 0 <= j < i ==> out@[j] == article_of(#[trigger] rows@[j]),
        decreases n - i,
    {
        let row = &rows[i];
        out.push(
            Article {
                id: row.id.clone(),
                title: row.title.clone(),
                modify_time: row.modify_time as u64,
                description: row.description.clone(),
                author_name: row.author_name.clone(),
                author_desc: row.author_desc.clone(),
            },
        );
        i = i + 1;
    }
    assert(out@ =~= rows@.map_values(|row: ArticleRow| article_of(row)));
    out
}

/// The response to the article listing query: the articles, or a server error
/// when the query failed.
pub fn route_article_response(result: Result<Vec<ArticleRow>, DbError>) -> (r: Result<
    RtData<ArticleData>,
    Status,
>)
    ensures
        result matches Ok(rows) ==> (r matches Ok(b) && {
            &&& b.success
            &&& b.rt == RtCode::Kind(Rt::Success)
            &&& b.msg@ == "get all article success!"@
            &&& b.data.list@ == rows@.map_values(|row: ArticleRow| article_of(row))
            &&& shows_rows(b.data.list@, rows@)
        }),
        result is Err ==> r == Err::<RtData<ArticleData>, Status>(Status::InternalServerError),
        r matches Ok(b) ==> b.consistent(),
{
    match result {
        Ok(v) => Ok(
            RtData {
                success: true,
                msg: String::from_str("get all article success!"),
                rt: RtCode::Kind(Rt::Success),
                data: ArticleData { list: articles_of_rows(&v) },
            },
        ),
        Err(_) => Err(Status::InternalServerError),
    }
}

/// The article of the user that a row shows.
pub open spec fn user_article_of(row: UserArticleRow) -> UserArticle {
    UserArticle {
        id: row.id,
        title: row.title,
        description: row.description,
        modify_time: row.modify_time as u64,
    }
}

/// The response to the query for the user's articles: the articles (none when
/// the query found no row), or a server error when it failed otherwise.
pub fn get_user_article_response(result: Result<Vec<UserArticleRow>, DbError>) -> (r: Result<
    RtData<UserArticleType>,
    Status,
>)
    ensures
        result matches Ok(rows) ==> (r matches Ok(b) && {
            &&& b.success
            &&& b.rt == RtCode::Kind(Rt::Success)
            &&& b.msg@ == "get user article success"@
            &&& b.data matches UserArticleType::Success(list) && list@ == rows@.map_values(
                |row: UserArticleRow| user_article_of(row),
            ) && shows_user_rows(list@, rows@)
        }),
        result == Err::<Vec<UserArticleRow>, DbError>(DbError::RowNotFound) ==> (r matches Ok(b)
            && {
            &&& b.success
            &&& b.rt == RtCode::Kind(Rt::Success)
            &&& b.msg@ == "get user article success"@
            &&& b.data matches UserArticleType::Success(list) && list@.len() == 0
        }),
        result matches Err(e) ==> (e != DbError::RowNotFound ==> r == Err::<
            RtData<UserArticleType>,
            Status,
        >(Status::InternalServerError)),
        r matches Ok(b) ==> b.consistent(),
{
    match result {
        Ok(v) => {
            let mut data: Vec<UserArticle> = Vec::new();
            let n = v.len();
            let mut i: usize = 0;
            while i < n
                invariant
                    n == v@.len(),
                    i <= n,
                    data@.len() == i,
                    forall|j: int| 0 <= j < i ==> data@[j] == user_article_of(#[trigger] v@[j]),
                decreases n - i,
            {
                let item = &v[i];
                data.push(
                    UserArticle {
                        id: item.id.clone(),
                        title: item.title.clone(),
                        description: item.description.clone(),
                        modify_time: item.modify_time as u64,
                    },
                );
                i = i + 1;
            }
            assert(data@ =~= v@.map_values(|row: UserArticleRow| user_article_of(row)));
            Ok(
                RtData {
                    success: true,
                    rt: RtCode::Kind(Rt::Success),
                    msg: String::from_str("get user article success"),
                    data: UserArticleType::Success(data),
                },
            )
        },
        Err(DbError::RowNotFound) => Ok(
            RtData {
                success: true,
                rt: RtCode::Kind(Rt::Success),
                msg: String::from_str("get user article success"),
                data: UserArticleType::Success(Vec::new()),
            },
        ),
        Err(_) => Err(Status::InternalServerError),
    }
}

/// How an article is saved: what is stored in its markdown file (the title as
/// a heading, then the content), who writes it, whether it is new, its id, and
/// the directory of the author's files.
#[derive(Debug, PartialEq, Eq, Clone)]
pub struct SetArticlePlan {
    pub title: String,
    pub description: String,
    pub content: String,
    pub user_id: String,
    pub is_publish: bool,
    pub is_add: bool,
    pub article_id: String,
    pub dir_path: String,
}

/// The markdown stored for an article: `# {title}`, a line break, the content.
pub open spec fn md_content(title: Seq<char>, content: Seq<char>) -> Seq<char> {
    "# "@ + title + "\n"@ + content
}

/// Whether a plan saves the article from the form on behalf of the user, with
/// `article_id` as its id.
pub open spec fn plans(p: SetArticlePlan, article: SetArticleData, user_id: String) -> bool {
    &&& p.title == article.title
    &&& p.description == article.description
    &&& p.content@ == md_content(article.title@, article.content@)
    &&& p.user_id == user_id
    &&& p.is_publish == article.is_publish
    &&& p.is_add == (article.id@.len() == 0)
    &&& p.dir_path@ == "md/"@ + user_id@
    &&& !p.is_add ==> p.article_id == article.id
}

/// The plan for saving an article, with `new_id` as the id of a new article.
pub fn set_article_plan_with(article: SetArticleData, user_id: String, new_id: String) -> (r:
    SetArticlePlan)
    ensures
        plans(r, article, user_id),
        r.is_add ==> r.article_id == new_id,
{
    let SetArticleData { id, title, description, content, is_publish } = article;
    let mut save_content = String::from_str("# ");
    save_content.append(title.as_str());
    save_content.append("\n");
    save_content.append(content.as_str());
    let is_add = id.as_str().is_empty();
    let article_id = if is_add {
        new_id
    } else {
        id
    };
    let mut dir_path = String::from_str("md/");
    dir_path.append(user_id.as_str());
    let r = SetArticlePlan {
        title,
        description,
        content: save_content,
        user_id,
        is_publish,
        is_add,
        article_id,
        dir_path,
    };
    r
}

/// The plan for saving an article; a new article gets a fresh random id.
pub fn set_article_plan(article: SetArticleData, user_id: String) -> (r: SetArticlePlan)
    ensures
        plans(r, article, user_id),
        r.is_add ==> is_v4_uuid_text(r.article_id@),
        r.is_add ==> is_drawn_uuid_text(r.article_id@),
{
    let new_id = if article.id.as_str().is_empty() {
        new_uuid()
    } else {
        String::new()
    };
    let r = set_article_plan_with(article, user_id, new_id);
    r
}

/// The response to saving an article: its modification time when the
/// statement ran (it returns no row, so "no row" counts as success too), a
/// failure otherwise.
pub fn set_article_response(result: Result<u64, (DbError, u64)>) -> (r: RtData<SetArticleDataState>)
    ensures
        result matches Ok(t) ==> {
            &&& r.success
            &&& r.rt == RtCode::Kind(Rt::Success)
            &&& r.msg@ == "set article success"@
            &&& r.data == SetArticleDataState::Success(t)
        },
        result matches Err(p) ==> (p.0 == DbError::RowNotFound ==> {
            &&& r.success
            &&& r.rt == RtCode::Kind(Rt::Success)
            &&& r.msg@ == "set article success"@
            &&& r.data == SetArticleDataState::Success(p.1)
        }),
        result matches Err(p) ==> (p.0 != DbError::RowNotFound ==> {
            &&& !r.success
            &&& r.rt == RtCode::Kind(Rt::Fail)
            &&& r.msg@ == "set article fail"@
            &&& r.data == SetArticleDataState::Fail(())
        }),
        r.consistent(),
{
    match result {
        Ok(modify_time) => RtData {
            success: true,
            rt: RtCode::Kind(Rt::Success),
            msg: String::from_str("set article success"),
            data: SetArticleDataState::Success(modify_time),
        },
        Err((DbError::RowNotFound, modify_time)) => RtData {
            success: true,
            rt: RtCode::Kind(Rt::Success),
            msg: String::from_str("set article success"),
            data: SetArticleDataState::Success(modify_time),
        },
        Err(_) => RtData {
            success: false,
            rt: RtCode::Kind(Rt::Fail),
            msg: String::from_str("set article fail"),
            data: SetArticleDataState::Fail(()),
        },
    }
}

/// The response to a deletion: success when the article was deleted, a
/// failure when the user owns no such article, a server error when the
/// deletion failed.
pub fn del_article_response(result: Result<bool, DbError>) -> (r: Result<
    RtData<DefaultSuccessData>,
    Status,
>)
    ensures
        result == Ok::<bool, DbError>(true) ==> (r matches Ok(b) && {
            &&& b.success
            &&& b.rt == RtCode::Kind(Rt::Success)
            &&& b.msg@ == "delete success !"@
        }),
        result == Ok::<bool, DbError>(false) ==> (r matches Ok(b) && {
            &&& !b.success
            &&& b.rt == RtCode::Kind(Rt::Fail)
            &&& b.msg@ == "delete fail, 有内鬼，终止交易!"@
        }),
        result is Err ==> r == Err::<RtData<DefaultSuccessData>, Status>(
            Status::InternalServerError,
        ),
        r matches Ok(b) ==> b.consistent(),
{
    match result {
        Ok(state) => {
            if state {
                Ok(
                    RtData {
                        success: true,
                        rt: RtCode::Kind(Rt::Success),
                        data: DefaultSuccessData(()),
                        msg: String::from_str("delete success !"),
                    },
                )
            } else {
                Ok(
                    RtData {
                        success: false,
                        rt: RtCode::Kind(Rt::Fail),
                        data: DefaultSuccessData(()),
                        msg: String::from_str("delete fail, 有内鬼，终止交易!"),
                    },
                )
            }
        },
        Err(_) => Err(Status::InternalServerError),
    }
}

/// The detail that a row and the article's markdown show to a user: the user
/// may edit the article when they are its author.
pub open spec fn detail_of(row: ArticleDetailRow, content: String, user_id: Seq<char>) -> ArticleDetail {
    ArticleDetail {
        id: row.id,
        title: row.title,
        content,
        modify_time: row.modify_time as u64,
        can_edit: row.author_id@ == user_id,
    }
}

/// The response to a detail request: the article's row with its markdown, a
/// failure when the query found no row, a server error when it failed
/// otherwise.
pub fn get_article_detail_response(
    result: Result<(ArticleDetailRow, String), DbError>,
    user_id: &str,
) -> (r: Result<RtData<ArticleDetailData>, Status>)
    ensures
        result matches Ok(p) ==> (r matches Ok(b) && {
            &&& b.success
            &&& b.rt == RtCode::Kind(Rt::Success)
            &&& b.msg@ == "get detail success"@
            &&& b.data == ArticleDetailData::Success(detail_of(p.0, p.1, user_id@))
            &&& b.data matches ArticleDetailData::Success(d) && {
                &&& d.id == p.0.id
                &&& d.title == p.0.title
                &&& d.content == p.1
                &&& d.modify_time == p.0.modify_time as u64
                &&& d.can_edit == (p.0.author_id@ == user_id@)
            }
        }),
        result == Err::<(ArticleDetailRow, String), DbError>(DbError::RowNotFound) ==> (
        r matches Ok(b) && {
            &&& !b.success
            &&& b.rt == RtCode::Kind(Rt::Fail)
            &&& b.msg@ == "not found"@
            &&& b.data == ArticleDetailData::Fail
        }),
        result matches Err(e) ==> (e != DbError::RowNotFound ==> r == Err::<
            RtData<ArticleDetailData>,
            Status,
        >(Status::InternalServerError)),
        r matches Ok(b) ==> b.consistent(),
{
    match result {
        Ok((row, content)) => {
            let requester = String::from_str(user_id);
            let can_edit = row.author_id == requester;
            let article_detail = ArticleDetail {
                id: row.id,
                title: row.title,
                content,
                modify_time: row.modify_time as u64,
                can_edit,
            };
            Ok(
                RtData {
                    success: true,
                    rt: RtCode::Kind(Rt::Success),
                    data: ArticleDetailData::Success(article_detail),
                    msg: String::from_str("get detail success"),
                },
            )
        },
        Err(DbError::RowNotFound) => Ok(
            RtData {
                success: false,
                rt: RtCode::Kind(Rt::Fail),
                data: ArticleDetailData::Fail,
                msg: String::from_str("not found"),
            },
        ),
        Err(_) => Err(Status::InternalServerError),
    }
}

/// The response to a search: the articles found, a failure when the query
/// found no row, a server error when it failed otherwise.
pub fn search_article_response(result: Result<Vec<ArticleRow>, DbError>) -> (r: Result<
    RtData<GetArticleData>,
    Status,
>)
    ensures
        result matches Ok(rows) ==> (r matches Ok(b) && {
            &&& b.success
            &&& b.rt == RtCode::Kind(Rt::Success)
            &&& b.msg@ == "search success"@
            &&& b.data matches GetArticleData::Success(d) && d.list@ == rows@.map_values(
                |row: ArticleRow| article_of(row),
            ) && shows_rows(d.list@, rows@)
        }),
        result == Err::<Vec<ArticleRow>, DbError>(DbError::RowNotFound) ==> (r matches Ok(b) && {
            &&& !b.success
            &&& b.rt == RtCode::Kind(Rt::Fail)
            &&& b.msg@ == "not found"@
            &&& b.data == GetArticleData::Fail
        }),
        result matches Err(e) ==> (e != DbError::RowNotFound ==> r == Err::<
            RtData<GetArticleData>,
            Status,
        >(Status::InternalServerError)),
        r matches Ok(b) ==> b.consistent(),
{
    match result {
        Ok(rows) => Ok(
            RtData {
                success: true,
                rt: RtCode::Kind(Rt::Success),
                data: GetArticleData::Success(ArticleData { list: articles_of_rows(&rows) }),
                msg: String::from_str("search success"),
            },
        ),
        Err(DbError::RowNotFound) => Ok(
            RtData {
                success: false,
                rt: RtCode::Kind(Rt::Fail),
                msg: String::from_str("not found"),
                data: GetArticleData::Fail,
            },
        ),
        Err(_) => Err(Status::InternalServerError),
    }
}

} // verus!
