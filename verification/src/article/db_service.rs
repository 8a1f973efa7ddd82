use vstd::prelude::*;
use vstd::string::StringExecFns;

use crate::clock::{is_clock_reading, read_clock};
use crate::db::DbError;
use crate::text::{bool_text, int_dec, nat_dec, push_bool, push_i64, push_u64};

verus! {

/// A row of the article listing or of a search: an article with its author.
#[derive(Debug, PartialEq, Eq, Clone)]
pub struct ArticleRow {
    pub id: String,
    pub title: String,
    pub description: String,
    pub modify_time: i64,
    pub author_name: String,
    pub author_desc: String,
}

/// A row of a user's own articles.
#[derive(Debug, PartialEq, Eq, Clone)]
pub struct UserArticleRow {
    pub id: String,
    pub title: String,
    pub description: String,
    pub modify_time: i64,
}

/// The row of an article's detail.
#[derive(Debug, PartialEq, Eq, Clone)]
pub struct ArticleDetailRow {
    pub id: String,
    pub title: String,
    pub modify_time: i64,
    pub author_id: String,
}

/// The query for published articles with their authors, before the filter and
/// the page.
pub const PUBLISHED_SQL: &'static str = "SELECT a.id, a.title, a.description, a.author_id, a.modify_time, b.name, b.description FROM public.article AS a LEFT JOIN public.user AS b ON a.author_id = b.id WHERE a.is_publish = true";

/// The query for one page of published articles: when `all` is not set and the
/// id is empty, the (empty) id is written into a filter; then the page size and
/// the offset `page_no * limit`.
pub open spec fn article_list_sql(all: bool, id: Seq<char>, limit: int, page_no: int) -> Seq<char> {
    let filter = if !all && id.len() == 0 {
        " AND id = "@ + id
    } else {
        Seq::empty()
    };
    PUBLISHED_SQL@ + filter + " LIMIT = "@ + int_dec(limit) + " OFFSET = "@ + int_dec(
        page_no * limit,
    )
}

/// The SQL text that selects a page of published articles.
pub fn get_article_sql(all: bool, id: &str, limit: i32, page_no: i32) -> (sql: String)
    requires
        i32::MIN <= page_no * limit <= i32::MAX,
    ensures
        sql@ == article_list_sql(all, id@, limit as int, page_no as int),
{
    let mut sql = String::from_str(PUBLISHED_SQL);
    let offset = page_no * limit;
    if !all && id.is_empty() {
        sql.append(" AND id = ");
        sql.append(id);
    }
    sql.append(" LIMIT = ");
    push_i64(&mut sql, limit as i64);
    sql.append(" OFFSET = ");
    push_i64(&mut sql, offset as i64);
    sql
}

/// The query for a user's articles: all of them, or the one with the id.
pub open spec fn user_article_sql(all: bool, user_id: Seq<char>, id: Seq<char>) -> Seq<char> {
    "SELECT id, title, description, modify_time FROM public.article WHERE author_id = '"@
        + user_id + "'"@ + if all {
        Seq::empty()
    } else {
        " AND id = "@ + id
    }
}

/// The SQL text that selects a user's articles.
pub fn try_get_user_article_sql(all: bool, user_id: &str, id: &str) -> (sql: String)
    ensures
        sql@ == user_article_sql(all, user_id@, id@),
{
    let mut sql = String::from_str(
        "SELECT id, title, description, modify_time FROM public.article WHERE author_id = '",
    );
    sql.append(user_id);
    sql.append("'");
    if !all {
        sql.append(" AND id = ");
        sql.append(id);
    }
    sql
}

/// The statement that saves an article: an insertion when `is_add`, an update
/// of the article with the id otherwise.
pub open spec fn save_sql(
    is_add: bool,
    author_id: Seq<char>,
    article_id: Seq<char>,
    title: Seq<char>,
    description: Seq<char>,
    modify_time: u64,
    is_publish: bool,
) -> Seq<char> {
    if is_add {
        "INSERT INTO public.article (id, title, author_id, description, modify_time, is_publish) VALUES ('"@
            + article_id + "', '"@ + title + "', '"@ + author_id + "', '"@ + description + "', "@
            + nat_dec(modify_time as nat) + ", "@ + bool_text(is_publish) + ")"@
    } else {
        "UPDATE public.article SET title = '"@ + title + "', description = '"@ + description
            + "', modify_time = "@ + nat_dec(modify_time as nat) + ", is_publish = "@ + bool_text(
            is_publish,
        ) + " WHERE id = '"@ + article_id + "'"@
    }
}

/// The SQL text that saves an article, modified at `modify_time`.
pub fn save_article_sql(
    is_add: bool,
    author_id: &str,
    article_id: &str,
    title: &str,
    description: &str,
    modify_time: u64,
    is_publish: bool,
) -> (sql: String)
    ensures
        sql@ == save_sql(
            is_add,
            author_id@,
            article_id@,
            title@,
            description@,
            modify_time,
            is_publish,
        ),
{
    if is_add {
        let mut sql = String::from_str(
            "INSERT INTO public.article (id, title, author_id, description, modify_time, is_publish) VALUES ('",
        );
        sql.append(article_id);
        sql.append("', '");
        sql.append(title);
        sql.append("', '");
        sql.append(author_id);
        sql.append("', '");
        sql.append(description);
        sql.append("', ");
        push_u64(&mut sql, modify_time);
        sql.append(", ");
        push_bool(&mut sql, is_publish);
        sql.append(")");
        sql
    } else {
        let mut sql = String::from_str("UPDATE public.article SET title = '");
        sql.append(title);
        sql.append("', description = '");
        sql.append(description);
        sql.append("', modify_time = ");
        push_u64(&mut sql, modify_time);
        sql.append(", is_publish = ");
        push_bool(&mut sql, is_publish);
        sql.append(" WHERE id = '");
        sql.append(article_id);
        sql.append("'");
        sql
    }
}

/// The statement that saves an article now, and the modification time it
/// records: the clock's reading taken during the call.
pub fn save_article_query(
    is_add: bool,
    author_id: &str,
    article_id: &str,
    title: &str,
    description: &str,
    is_publish: bool,
) -> (r: (String, u64))
    ensures
        r.0@ == save_sql(is_add, author_id@, article_id@, title@, description@, r.1, is_publish),
        is_clock_reading(r.1),
{
    let modify_time = read_clock();
    (
        save_article_sql(is_add, author_id, article_id, title, description, modify_time, is_publish),
        modify_time,
    )
}

/// The query that checks that an article exists and belongs to the author.
pub open spec fn delete_lookup_sql(id: Seq<char>, author_id: Seq<char>) -> Seq<char> {
    "SELECT * FROM public.article WHERE id = '"@ + id + "' AND author_id = '"@ + author_id
        + "' LIMIT 1"@
}

/// The statement that deletes an article of the author.
pub open spec fn delete_sql(id: Seq<char>, author_id: Seq<char>) -> Seq<char> {
    "DELETE FROM public.article WHERE id = '"@ + id + "' AND author_id = '"@ + author_id + "'"@
}

/// The SQL text of the ownership check before a deletion.
pub fn try_delete_article_lookup_sql(id: &str, author_id: &str) -> (sql: String)
    ensures
        sql@ == delete_lookup_sql(id@, author_id@),
{
    let mut sql = String::from_str("SELECT * FROM public.article WHERE id = '");
    sql.append(id);
    sql.append("' AND author_id = '");
    sql.append(author_id);
    sql.append("' LIMIT 1");
    sql
}

/// The SQL text of a deletion.
pub fn try_delete_article_sql(id: &str, author_id: &str) -> (sql: String)
    ensures
        sql@ == delete_sql(id@, author_id@),
{
    let mut sql = String::from_str("DELETE FROM public.article WHERE id = '");
    sql.append(id);
    sql.append("' AND author_id = '");
    sql.append(author_id);
    sql.append("'");
    sql
}

/// Where a deletion stands: checking ownership, or deleting.
#[derive(Debug, PartialEq, Eq, Clone, Copy, Structural)]
pub enum DeleteStage {
    Lookup,
    Delete,
}

/// What a deletion does next: run the delete statement, or end with an
/// outcome (whether the article was deleted, or an error).
#[derive(Debug, PartialEq, Eq)]
pub enum DeleteAction {
    RunDelete,
    Finish(Result<bool, DbError>),
}

/// One step of a deletion, as a function of the stage and the result of its
/// query.
pub open spec fn delete_step(stage: DeleteStage, event: Result<(), DbError>) -> DeleteAction {
    match (stage, event) {
        (DeleteStage::Lookup, Ok(())) => DeleteAction::RunDelete,
        (DeleteStage::Lookup, Err(DbError::RowNotFound)) => DeleteAction::Finish(Ok(false)),
        (DeleteStage::Delete, Ok(())) => DeleteAction::Finish(Ok(true)),
        (DeleteStage::Delete, Err(DbError::RowNotFound)) => DeleteAction::Finish(Ok(true)),
        (_, Err(e)) => DeleteAction::Finish(Err(e)),
    }
}

/// The outcome of a whole deletion, given the result of the ownership check
/// and, when it comes to that, of the delete statement.
pub open spec fn delete_outcome(lookup: Result<(), DbError>, delete: Result<(), DbError>) -> Result<
    bool,
    DbError,
> {
    match delete_step(DeleteStage::Lookup, lookup) {
        DeleteAction::RunDelete => match delete_step(DeleteStage::Delete, delete) {
            DeleteAction::Finish(r) => r,
            DeleteAction::RunDelete => Ok(false),
        },
        DeleteAction::Finish(r) => r,
    }
}

/// A deletion reports that it deleted the article only when the ownership
/// check found the article, and it reports that it deleted nothing exactly
/// when the check found no article.
pub proof fn lemma_delete_only_after_lookup(lookup: Result<(), DbError>, delete: Result<(), DbError>)
    ensures
        delete_outcome(lookup, delete) == Ok::<bool, DbError>(true) ==> lookup is Ok,
        delete_outcome(lookup, delete) == Ok::<bool, DbError>(false) <==> lookup == Err::<
            (),
            DbError,
        >(DbError::RowNotFound),
        delete_step(DeleteStage::Delete, delete) is Finish,
{
}

/// One step of a deletion, from the stage and the result of the query that the
/// stage ran. The ownership check that finds the article leads to the delete
/// statement; one that finds nothing ends with `false`. The delete statement
/// returns no row, so its "no row" counts as success. Any other error ends the
/// deletion with that error.
pub fn try_delete_article_step(stage: DeleteStage, event: Result<(), DbError>) -> (r: DeleteAction)
    ensures
        r == delete_step(stage, event),
        r is RunDelete <==> stage == DeleteStage::Lookup && event is Ok,
        stage == DeleteStage::Lookup && event == Err::<(), DbError>(DbError::RowNotFound) ==> r
            == DeleteAction::Finish(Ok(false)),
        stage == DeleteStage::Delete && (event is Ok || event == Err::<(), DbError>(
            DbError::RowNotFound,
        )) ==> r == DeleteAction::Finish(Ok(true)),
        event matches Err(e) ==> (e != DbError::RowNotFound ==> r == DeleteAction::Finish(
            Err(e),
        )),
{
    match (stage, event) {
        (DeleteStage::Lookup, Ok(())) => DeleteAction::RunDelete,
        (DeleteStage::Lookup, Err(DbError::RowNotFound)) => DeleteAction::Finish(Ok(false)),
        (DeleteStage::Delete, Ok(())) => DeleteAction::Finish(Ok(true)),
        (DeleteStage::Delete, Err(DbError::RowNotFound)) => DeleteAction::Finish(Ok(true)),
        (_, Err(e)) => DeleteAction::Finish(Err(e)),
    }
}

} // verus!
