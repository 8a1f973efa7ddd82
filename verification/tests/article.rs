use blog_server::article::db_service::{
    save_article_query, try_delete_article_step, ArticleDetailRow, ArticleRow, DeleteAction,
    DeleteStage, UserArticleRow,
};
use blog_server::article::file_operate::format_md_path;
use blog_server::article::route::{
    del_article_response, get_article_detail_response, get_user_article_response, index,
    route_article_limit, route_article_response, search_article_response, set_article_plan,
    set_article_plan_with, set_article_response,
};
use blog_server::article::{
    ArticleDetail, ArticleDetailData, SetArticleData, SetArticleDataState, UserAticleParams,
    UserArticle, UserArticleType,
};
use blog_server::catcher::{bad_request_catcher, error_catcher};
use blog_server::db::DbError;
use blog_server::types::rt_type::Rt;
use blog_server::types::{Article, GetArticleData, RtCode, Status};

fn row(id: &str, t: i64) -> ArticleRow {
    ArticleRow {
        id: id.to_string(),
        title: "T".to_string(),
        description: "D".to_string(),
        modify_time: t,
        author_name: "N".to_string(),
        author_desc: "A".to_string(),
    }
}

fn form(id: &str) -> SetArticleData {
    SetArticleData {
        id: id.to_string(),
        title: "Hello".to_string(),
        description: "desc".to_string(),
        content: "body".to_string(),
        is_publish: true,
    }
}

#[test]
fn root_redirect_target() {
    assert_eq!(index(), "/get_article?all=true&id=-1&author_id=-1");
}

#[test]
fn page_size() {
    assert_eq!(route_article_limit(-1), 20);
    assert_eq!(route_article_limit(i32::MIN), 20);
    assert_eq!(route_article_limit(0), 0);
    assert_eq!(route_article_limit(7), 7);
}

#[test]
fn listing_response() {
    let r = route_article_response(Ok(vec![row("a", 5), row("b", -1)])).unwrap();
    assert!(r.success);
    assert_eq!(r.rt, RtCode::Kind(Rt::Success));
    assert_eq!(r.msg, "get all article success!");
    assert_eq!(r.data.list.len(), 2);
    assert_eq!(
        r.data.list[0],
        Article {
            id: "a".to_string(),
            title: "T".to_string(),
            modify_time: 5,
            description: "D".to_string(),
            author_name: "N".to_string(),
            author_desc: "A".to_string(),
        }
    );
    assert_eq!(r.data.list[1].modify_time, u64::MAX);
    assert_eq!(route_article_response(Err(DbError::RowNotFound)), Err(Status::InternalServerError));
}

#[test]
fn user_articles_response() {
    let rows = vec![UserArticleRow { id: "a".to_string(), title: "T".to_string(), description: "D".to_string(), modify_time: 3 }];
    let r = get_user_article_response(Ok(rows)).unwrap();
    assert!(r.success);
    assert_eq!(r.msg, "get user article success");
    assert_eq!(
        r.data,
        UserArticleType::Success(vec![UserArticle { id: "a".to_string(), title: "T".to_string(), description: "D".to_string(), modify_time: 3 }])
    );
    let r = get_user_article_response(Err(DbError::RowNotFound)).unwrap();
    assert!(r.success);
    assert_eq!(r.data, UserArticleType::Success(vec![]));
    assert_eq!(get_user_article_response(Err(DbError::Database)), Err(Status::InternalServerError));
}

#[test]
fn user_article_params_guard() {
    let p = UserAticleParams::from_data(true, Some(("u".to_string(), "a".to_string(), true))).unwrap();
    assert_eq!(p, UserAticleParams { user_id: "u".to_string(), article_id: "a".to_string(), all: true });
    let refused = Err((Status::BadRequest, "user no login or token expired".to_string()));
    assert_eq!(UserAticleParams::from_data(true, None), refused);
    assert_eq!(UserAticleParams::from_data(false, Some(("u".to_string(), "a".to_string(), true))), refused);
}

#[test]
fn md_paths() {
    assert_eq!(format_md_path("u1", "a1"), "md/u1/a1.md");
    assert_eq!(format_md_path("", ""), "md//.md");
}

#[test]
fn plan_for_update() {
    let p = set_article_plan_with(form("a1"), "u1".to_string(), "new".to_string());
    assert!(!p.is_add);
    assert_eq!(p.article_id, "a1");
    assert_eq!(p.content, "# Hello\nbody");
    assert_eq!(p.dir_path, "md/u1");
    assert_eq!(p.title, "Hello");
    assert_eq!(p.description, "desc");
    assert!(p.is_publish);
}

#[test]
fn plan_for_new_article() {
    let p = set_article_plan_with(form(""), "u1".to_string(), "new".to_string());
    assert!(p.is_add);
    assert_eq!(p.article_id, "new");
    let p = set_article_plan(form(""), "u1".to_string());
    assert!(p.is_add);
    assert_eq!(p.article_id.len(), 36);
    let p = set_article_plan(form("a1"), "u1".to_string());
    assert_eq!(p.article_id, "a1");
}

#[test]
fn save_query_now() {
    let (sql, t) = save_article_query(false, "u1", "a1", "T", "D", true);
    assert_eq!(sql, format!("UPDATE public.article SET title = 'T', description = 'D', modify_time = {t}, is_publish = true WHERE id = 'a1'"));
    assert!(t > 1_600_000_000);
}

#[test]
fn save_responses() {
    let r = set_article_response(Ok(9));
    assert!(r.success);
    assert_eq!(r.msg, "set article success");
    assert_eq!(r.data, SetArticleDataState::Success(9));
    let r = set_article_response(Err((DbError::RowNotFound, 8)));
    assert!(r.success);
    assert_eq!(r.data, SetArticleDataState::Success(8));
    let r = set_article_response(Err((DbError::Database, 8)));
    assert!(!r.success);
    assert_eq!(r.rt, RtCode::Kind(Rt::Fail));
    assert_eq!(r.msg, "set article fail");
    assert_eq!(r.data, SetArticleDataState::Fail(()));
}

#[test]
fn deletion_steps() {
    assert_eq!(try_delete_article_step(DeleteStage::Lookup, Ok(())), DeleteAction::RunDelete);
    assert_eq!(try_delete_article_step(DeleteStage::Lookup, Err(DbError::RowNotFound)), DeleteAction::Finish(Ok(false)));
    assert_eq!(try_delete_article_step(DeleteStage::Lookup, Err(DbError::Database)), DeleteAction::Finish(Err(DbError::Database)));
    assert_eq!(try_delete_article_step(DeleteStage::Delete, Ok(())), DeleteAction::Finish(Ok(true)));
    assert_eq!(try_delete_article_step(DeleteStage::Delete, Err(DbError::RowNotFound)), DeleteAction::Finish(Ok(true)));
    assert_eq!(try_delete_article_step(DeleteStage::Delete, Err(DbError::Other)), DeleteAction::Finish(Err(DbError::Other)));
}

#[test]
fn deletion_responses() {
    let r = del_article_response(Ok(true)).unwrap();
    assert!(r.success);
    assert_eq!(r.msg, "delete success !");
    let r = del_article_response(Ok(false)).unwrap();
    assert!(!r.success);
    assert_eq!(r.rt, RtCode::Kind(Rt::Fail));
    assert_eq!(r.msg, "delete fail, 有内鬼，终止交易!");
    assert_eq!(del_article_response(Err(DbError::Database)), Err(Status::InternalServerError));
}

#[test]
fn detail_responses() {
    let d = ArticleDetailRow { id: "a".to_string(), title: "T".to_string(), modify_time: 4, author_id: "u1".to_string() };
    let r = get_article_detail_response(Ok((d.clone(), "# T\nbody".to_string())), "u1").unwrap();
    assert!(r.success);
    assert_eq!(r.msg, "get detail success");
    assert_eq!(
        r.data,
        ArticleDetailData::Success(ArticleDetail { id: "a".to_string(), title: "T".to_string(), content: "# T\nbody".to_string(), modify_time: 4, can_edit: true })
    );
    let r = get_article_detail_response(Ok((d, String::new())), "u2").unwrap();
    assert!(matches!(r.data, ArticleDetailData::Success(ArticleDetail { can_edit: false, .. })));
    let r = get_article_detail_response(Err(DbError::RowNotFound), "u1").unwrap();
    assert!(!r.success);
    assert_eq!(r.msg, "not found");
    assert_eq!(r.data, ArticleDetailData::Fail);
    assert_eq!(get_article_detail_response(Err(DbError::Other), "u1"), Err(Status::InternalServerError));
}

#[test]
fn search_responses() {
    let r = search_article_response(Ok(vec![row("a", 1)])).unwrap();
    assert!(r.success);
    assert_eq!(r.msg, "search success");
    assert!(matches!(&r.data, GetArticleData::Success(d) if d.list.len() == 1 && d.list[0].id == "a"));
    let r = search_article_response(Err(DbError::RowNotFound)).unwrap();
    assert!(!r.success);
    assert_eq!(r.rt, RtCode::Kind(Rt::Fail));
    assert_eq!(r.data, GetArticleData::Fail);
    assert_eq!(search_article_response(Err(DbError::Database)), Err(Status::InternalServerError));
}

#[test]
fn catchers() {
    let r = bad_request_catcher().unwrap();
    assert!(!r.success);
    assert_eq!(r.rt, RtCode::Num(-3));
    assert_eq!(r.msg, "get wrong params");
    let r = error_catcher().unwrap();
    assert!(!r.success);
    assert_eq!(r.rt, RtCode::Num(-2));
    assert_eq!(r.msg, "server internal error");
}
