use vstd::prelude::*;
use vstd::string::StringExecFns;

verus! {

/// The query for articles joined with their authors, before any filter.
pub const ARTICLE_JOIN_SQL: &'static str = "SELECT a.id, a.title, a.content, a.author_id, b.name, b.desc FROM public.article AS a LEFT JOIN public.user AS b ON a.author_id = b.id";

/// The filter that `get_article` appends: none when `all` is set; otherwise it
/// depends on which of the two ids is empty, and an empty id is the one that
/// is written into the filter.
pub open spec fn article_filter(all: bool, art_id: Seq<char>, user_id: Seq<char>) -> Seq<char> {
    if all {
        Seq::empty()
    } else if art_id.len() == 0 && user_id.len() == 0 {
        " WHERE id = "@ + art_id + " And author_id = "@ + user_id
    } else if art_id.len() != 0 && user_id.len() == 0 {
        " WHERE author_id = "@ + user_id
    } else if art_id.len() == 0 && user_id.len() != 0 {
        " WHERE id = "@ + art_id
    } else {
        Seq::empty()
    }
}

/// The SQL text that selects articles with their authors.
pub fn get_article(all: bool, art_id: &str, user_id: &str) -> (sql: String)
    ensures
        sql@ == ARTICLE_JOIN_SQL@ + article_filter(all, art_id@, user_id@),
{
    let mut sql = String::from_str(ARTICLE_JOIN_SQL);
    if !all {
        let art_empty = art_id.is_empty();
        let user_empty = user_id.is_empty();
        if art_empty && user_empty {
            sql.append(" WHERE id = ");
            sql.append(art_id);
            sql.append(" And author_id = ");
            sql.append(user_id);
        } else if !art_empty && user_empty {
            sql.append(" WHERE author_id = ");
            sql.append(user_id);
        } else if art_empty && !user_empty {
            sql.append(" WHERE id = ");
            sql.append(art_id);
        }
    }
    sql
}

} // verus!
