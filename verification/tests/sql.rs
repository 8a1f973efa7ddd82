use blog_server::article::db_service::{
    get_article_sql, save_article_sql, try_delete_article_lookup_sql, try_delete_article_sql,
    try_get_user_article_sql,
};
use blog_server::auth::db_service::{get_user_msg_sql, register_user_at, try_register_user_sql};
use blog_server::db_service::get_article;

const JOIN: &str = "SELECT a.id, a.title, a.content, a.author_id, b.name, b.desc FROM public.article AS a LEFT JOIN public.user AS b ON a.author_id = b.id";
const PUBLISHED: &str = "SELECT a.id, a.title, a.description, a.author_id, a.modify_time, b.name, b.description FROM public.article AS a LEFT JOIN public.user AS b ON a.author_id = b.id WHERE a.is_publish = true";

#[test]
fn article_join_all() {
    assert_eq!(get_article(true, "1", "2"), JOIN);
    assert_eq!(get_article(true, "", ""), JOIN);
}

#[test]
fn article_join_filters() {
    assert_eq!(get_article(false, "", ""), format!("{JOIN} WHERE id =  And author_id = "));
    assert_eq!(get_article(false, "5", ""), format!("{JOIN} WHERE author_id = "));
    assert_eq!(get_article(false, "", "7"), format!("{JOIN} WHERE id = "));
    assert_eq!(get_article(false, "5", "7"), JOIN);
}

#[test]
fn article_page_query() {
    assert_eq!(get_article_sql(true, "x", 20, 3), format!("{PUBLISHED} LIMIT = 20 OFFSET = 60"));
    assert_eq!(get_article_sql(false, "x", 10, 0), format!("{PUBLISHED} LIMIT = 10 OFFSET = 0"));
    assert_eq!(get_article_sql(false, "", 10, 1), format!("{PUBLISHED} AND id =  LIMIT = 10 OFFSET = 10"));
    assert_eq!(get_article_sql(true, "", 5, -2), format!("{PUBLISHED} LIMIT = 5 OFFSET = -10"));
}

#[test]
fn user_article_query() {
    assert_eq!(
        try_get_user_article_sql(true, "u1", "a1"),
        "SELECT id, title, description, modify_time FROM public.article WHERE author_id = 'u1'"
    );
    assert_eq!(
        try_get_user_article_sql(false, "u1", "a1"),
        "SELECT id, title, description, modify_time FROM public.article WHERE author_id = 'u1' AND id = a1"
    );
}

#[test]
fn save_article_statements() {
    assert_eq!(
        save_article_sql(true, "u1", "a1", "T", "D", 1700000000, true),
        "INSERT INTO public.article (id, title, author_id, description, modify_time, is_publish) VALUES ('a1', 'T', 'u1', 'D', 1700000000, true)"
    );
    assert_eq!(
        save_article_sql(false, "u1", "a1", "T", "D", 5, false),
        "UPDATE public.article SET title = 'T', description = 'D', modify_time = 5, is_publish = false WHERE id = 'a1'"
    );
}

#[test]
fn delete_statements() {
    assert_eq!(
        try_delete_article_lookup_sql("a1", "u1"),
        "SELECT * FROM public.article WHERE id = 'a1' AND author_id = 'u1' LIMIT 1"
    );
    assert_eq!(
        try_delete_article_sql("a1", "u1"),
        "DELETE FROM public.article WHERE id = 'a1' AND author_id = 'u1'"
    );
}

#[test]
fn user_lookup_query() {
    assert_eq!(
        get_user_msg_sql("a@b.cn", "abc", true),
        "SELECT name, description, id FROM public.user WHERE pwd = '900150983cd24fb0d6963f7d28e17f72' AND email = 'a@b.cn'"
    );
    assert_eq!(
        get_user_msg_sql("13812345678", "abc", false),
        "SELECT name, description, id FROM public.user WHERE pwd = '900150983cd24fb0d6963f7d28e17f72' AND phone = 13812345678"
    );
}

#[test]
fn existing_user_query() {
    assert_eq!(
        try_register_user_sql("a@b.cn", "13812345678"),
        "SELECT * FROM public.user WHERE email = 'a@b.cn' OR phone = 13812345678 LIMIT 1"
    );
}

#[test]
fn insert_user_statement() {
    let plan = register_user_at(
        ("dan".to_string(), "abc".to_string(), "a@b.cn".to_string(), "13812345678".to_string(), String::new()),
        "00112233-4455-6677-8899-aabbccddeeff".to_string(),
        1700000000,
    );
    assert_eq!(plan.id, "00112233-4455-6677-8899-aabbccddeeff");
    assert_eq!(plan.desc, "这人很懒，什么都没留下~");
    assert_eq!(
        plan.sql,
        "INSERT INTO public.user (id, name, pwd, email, phone, description, create_time) VALUES ('00112233-4455-6677-8899-aabbccddeeff', 'dan', '900150983cd24fb0d6963f7d28e17f72', 'a@b.cn', 13812345678, '这人很懒，什么都没留下~', 1700000000)"
    );
    let plan = register_user_at(
        ("dan".to_string(), "abc".to_string(), "a@b.cn".to_string(), "13812345678".to_string(), "hi".to_string()),
        "id".to_string(),
        0,
    );
    assert_eq!(plan.desc, "hi");
    assert!(plan.sql.ends_with("'hi', 0)"));
}
