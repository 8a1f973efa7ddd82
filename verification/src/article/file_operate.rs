use vstd::prelude::*;
use vstd::string::StringExecFns;

verus! {

/// Where an article's markdown is stored: `md/{user_id}/{article_id}.md`.
pub open spec fn md_path(user_id: Seq<char>, article_id: Seq<char>) -> Seq<char> {
    "md/"@ + user_id + "/"@ + article_id + ".md"@
}

/// The path of the markdown file of an article of a user.
pub fn format_md_path(user_id: &str, article_id: &str) -> (r: String)
    ensures
        r@ == md_path(user_id@, article_id@),
{
    let mut r = String::from_str("md/");
    r.append(user_id);
    r.append("/");
    r.append(article_id);
    r.append(".md");
    r
}

} // verus!
