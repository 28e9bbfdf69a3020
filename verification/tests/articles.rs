use crud_api::articles::handlers::{
    count_response, create_post, create_post_with, delete_post, failure_response, get_post, init,
    insert_response, list_all_posts, list_deleted_posts, list_posts, lookup_response, remove_post,
    remove_post_at, rows_response, update_post,
};
use crud_api::articles::models::{Article, CreateArticle, Listing, UpdateArticle};
use crud_api::articles::table::ArticleTable;
use crud_api::error::StoreError;
use crud_api::response::{Body, Response};
use crud_api::routes::{Handler, Method, Route};

fn draft(title: &str, content: &str, is_published: bool) -> CreateArticle {
    CreateArticle { title: title.to_string(), content: content.to_string(), is_published }
}

fn no_patch() -> UpdateArticle {
    UpdateArticle { title: None, content: None, is_published: None, published_at: None }
}

fn ids(r: &Response) -> Vec<u128> {
    match &r.body {
        Body::Articles(rows) => rows.iter().map(|a| a.id).collect(),
        _ => panic!("not a listing"),
    }
}

fn article(r: Response) -> Article {
    match r.body {
        Body::Article(a) => a,
        _ => panic!("not one article"),
    }
}

/// A table with a published row 1, an unpublished row 2 and a deleted,
/// published row 3.
fn sample() -> ArticleTable {
    let mut t = ArticleTable::new();
    assert_eq!(create_post_with(&mut t, &draft("one", "first", true), 1, 10).status, 200);
    assert_eq!(create_post_with(&mut t, &draft("two", "second", false), 2, 20).status, 200);
    assert_eq!(create_post_with(&mut t, &draft("three", "third", true), 3, 30).status, 200);
    assert_eq!(remove_post_at(&mut t, 3, 40).status, 200);
    t
}

#[test]
fn create_then_get_returns_the_submitted_fields() {
    let mut t = ArticleTable::new();
    let r = create_post_with(&mut t, &draft("Title", "Body text", true), 0xabc, 1_700_000_000_000_000);
    assert_eq!(r, Response { status: 200, body: Body::Id(0xabc) });
    let got = get_post(&t, 0xabc);
    assert_eq!(
        got,
        Response {
            status: 200,
            body: Body::Article(Article {
                id: 0xabc,
                title: "Title".to_string(),
                content: "Body text".to_string(),
                published_at: 1_700_000_000_000_000,
                is_published: true,
                is_deleted: false,
                deleted_at: None,
            }),
        }
    );
}

#[test]
fn create_keeps_an_unpublished_flag() {
    let mut t = ArticleTable::new();
    create_post_with(&mut t, &draft("t", "c", false), 5, 0);
    let a = article(get_post(&t, 5));
    assert!(!a.is_published);
    assert!(!a.is_deleted);
    assert_eq!(a.deleted_at, None);
}

#[test]
fn create_under_a_taken_identifier_is_refused() {
    let mut t = ArticleTable::new();
    assert_eq!(create_post_with(&mut t, &draft("a", "b", true), 9, 1).status, 200);
    let r = create_post_with(&mut t, &draft("x", "y", false), 9, 2);
    assert_eq!(r, Response { status: 500, body: Body::Empty });
    assert_eq!(t.len(), 1);
    assert_eq!(article(get_post(&t, 9)).title, "a");
}

#[test]
fn create_post_draws_a_random_identifier_and_the_time() {
    let mut t = ArticleTable::new();
    let r = create_post(&mut t, &draft("fresh", "text", true));
    assert_eq!(r.status, 200);
    let id = match r.body {
        Body::Id(id) => id,
        _ => panic!("no identifier"),
    };
    assert_eq!((id >> 76) & 0xf, 4);
    assert_eq!((id >> 62) & 0x3, 2);
    let a = article(get_post(&t, id));
    assert_eq!(a.id, id);
    assert_eq!(a.title, "fresh");
    assert_eq!(a.content, "text");
    assert!(a.is_published);
    assert!(!a.is_deleted);
    // Microseconds: later than the year 2020, earlier than the year 3000.
    assert!(a.published_at > 1_577_836_800_000_000);
    assert!(a.published_at < 32_503_680_000_000_000);
}

#[test]
fn create_post_twice_stores_two_rows() {
    let mut t = ArticleTable::new();
    let a = create_post(&mut t, &draft("a", "a", true));
    let b = create_post(&mut t, &draft("b", "b", true));
    assert_eq!(a.status, 200);
    assert_eq!(b.status, 200);
    assert_ne!(a.body, b.body);
    assert_eq!(t.len(), 2);
}

#[test]
fn get_post_of_a_missing_identifier_is_not_found() {
    let t = sample();
    assert_eq!(get_post(&t, 77), Response { status: 404, body: Body::Empty });
    let empty = ArticleTable::new();
    assert_eq!(get_post(&empty, 1).status, 404);
}

#[test]
fn list_posts_shows_published_and_not_deleted() {
    let t = sample();
    let r = list_posts(&t);
    assert_eq!(r.status, 200);
    assert_eq!(ids(&r), vec![1]);
}

#[test]
fn list_all_posts_shows_not_deleted() {
    let t = sample();
    let r = list_all_posts(&t);
    assert_eq!(r.status, 200);
    assert_eq!(ids(&r), vec![1, 2]);
}

#[test]
fn list_deleted_posts_shows_deleted() {
    let t = sample();
    let r = list_deleted_posts(&t);
    assert_eq!(r.status, 200);
    assert_eq!(ids(&r), vec![3]);
}

#[test]
fn listings_of_an_empty_table_are_empty() {
    let t = ArticleTable::new();
    assert_eq!(list_posts(&t), Response { status: 200, body: Body::Articles(vec![]) });
    assert_eq!(list_all_posts(&t), Response { status: 200, body: Body::Articles(vec![]) });
    assert_eq!(list_deleted_posts(&t), Response { status: 200, body: Body::Articles(vec![]) });
}

#[test]
fn listings_keep_table_order() {
    let mut t = ArticleTable::new();
    for id in [5u128, 3, 9, 1] {
        create_post_with(&mut t, &draft("t", "c", true), id, 0);
    }
    assert_eq!(ids(&list_posts(&t)), vec![5, 3, 9, 1]);
}

#[test]
fn remove_post_marks_the_row_and_moves_it_between_listings() {
    let mut t = ArticleTable::new();
    create_post_with(&mut t, &draft("keep", "k", true), 1, 10);
    create_post_with(&mut t, &draft("go", "g", true), 2, 20);
    assert_eq!(ids(&list_posts(&t)), vec![1, 2]);
    let r = remove_post_at(&mut t, 2, 99);
    assert_eq!(r, Response { status: 200, body: Body::Empty });
    let a = article(get_post(&t, 2));
    assert!(a.is_deleted);
    assert_eq!(a.deleted_at, Some(99));
    assert_eq!(a.title, "go");
    assert_eq!(a.content, "g");
    assert_eq!(a.published_at, 20);
    assert!(a.is_published);
    assert_eq!(ids(&list_posts(&t)), vec![1]);
    assert_eq!(ids(&list_all_posts(&t)), vec![1]);
    assert_eq!(ids(&list_deleted_posts(&t)), vec![2]);
    assert_eq!(t.len(), 2);
}

#[test]
fn remove_post_of_a_missing_identifier_is_not_found() {
    let mut t = sample();
    assert_eq!(remove_post_at(&mut t, 77, 5), Response { status: 404, body: Body::Empty });
    assert_eq!(remove_post(&mut t, 78), Response { status: 404, body: Body::Empty });
    assert_eq!(ids(&list_deleted_posts(&t)), vec![3]);
}

#[test]
fn remove_post_stamps_the_current_time() {
    let mut t = ArticleTable::new();
    create_post_with(&mut t, &draft("a", "b", true), 4, 0);
    assert_eq!(remove_post(&mut t, 4).status, 200);
    let a = article(get_post(&t, 4));
    assert!(a.is_deleted);
    let at = a.deleted_at.expect("a deleted row carries its time");
    assert!(at > 1_577_836_800_000_000);
    assert!(at < 32_503_680_000_000_000);
}

#[test]
fn remove_post_twice_restamps_the_row() {
    let mut t = ArticleTable::new();
    create_post_with(&mut t, &draft("a", "b", true), 4, 0);
    assert_eq!(remove_post_at(&mut t, 4, 10).status, 200);
    assert_eq!(remove_post_at(&mut t, 4, 20).status, 200);
    assert_eq!(article(get_post(&t, 4)).deleted_at, Some(20));
}

#[test]
fn delete_post_takes_the_row_away() {
    let mut t = sample();
    assert_eq!(delete_post(&mut t, 1), Response { status: 200, body: Body::Empty });
    assert_eq!(get_post(&t, 1).status, 404);
    assert_eq!(t.len(), 2);
    assert_eq!(ids(&list_all_posts(&t)), vec![2]);
    assert_eq!(ids(&list_deleted_posts(&t)), vec![3]);
}

#[test]
fn delete_post_of_a_missing_identifier_is_not_found() {
    let mut t = sample();
    assert_eq!(delete_post(&mut t, 77), Response { status: 404, body: Body::Empty });
    assert_eq!(t.len(), 3);
    assert_eq!(delete_post(&mut t, 1).status, 200);
    assert_eq!(delete_post(&mut t, 1).status, 404);
}

#[test]
fn delete_post_removes_a_soft_deleted_row_too() {
    let mut t = sample();
    assert_eq!(delete_post(&mut t, 3).status, 200);
    assert_eq!(ids(&list_deleted_posts(&t)), Vec::<u128>::new());
}

#[test]
fn update_post_with_a_title_only_keeps_the_rest() {
    let mut t = ArticleTable::new();
    create_post_with(&mut t, &draft("old", "content", false), 1, 10);
    let patch = UpdateArticle { title: Some("X".to_string()), ..no_patch() };
    assert_eq!(update_post(&mut t, 1, &patch), Response { status: 200, body: Body::Empty });
    assert_eq!(
        article(get_post(&t, 1)),
        Article {
            id: 1,
            title: "X".to_string(),
            content: "content".to_string(),
            published_at: 10,
            is_published: false,
            is_deleted: false,
            deleted_at: None,
        }
    );
}

#[test]
fn update_post_writes_every_field_that_is_named() {
    let mut t = ArticleTable::new();
    create_post_with(&mut t, &draft("old", "content", false), 1, 10);
    let patch = UpdateArticle {
        title: Some("new".to_string()),
        content: Some("text".to_string()),
        is_published: Some(true),
        published_at: Some(55),
    };
    assert_eq!(update_post(&mut t, 1, &patch).status, 200);
    let a = article(get_post(&t, 1));
    assert_eq!(a.title, "new");
    assert_eq!(a.content, "text");
    assert!(a.is_published);
    assert_eq!(a.published_at, 55);
    assert!(!a.is_deleted);
}

#[test]
fn update_post_leaves_the_other_rows() {
    let mut t = sample();
    let patch = UpdateArticle { content: Some("changed".to_string()), ..no_patch() };
    assert_eq!(update_post(&mut t, 2, &patch).status, 200);
    assert_eq!(article(get_post(&t, 1)).content, "first");
    assert_eq!(article(get_post(&t, 2)).content, "changed");
    assert_eq!(article(get_post(&t, 3)).content, "third");
    assert_eq!(ids(&list_all_posts(&t)), vec![1, 2]);
}

#[test]
fn update_post_keeps_the_deleted_mark() {
    let mut t = sample();
    let patch = UpdateArticle { is_published: Some(false), ..no_patch() };
    assert_eq!(update_post(&mut t, 3, &patch).status, 200);
    let a = article(get_post(&t, 3));
    assert!(a.is_deleted);
    assert_eq!(a.deleted_at, Some(40));
    assert!(!a.is_published);
}

#[test]
fn update_post_can_publish_a_draft() {
    let mut t = sample();
    assert_eq!(ids(&list_posts(&t)), vec![1]);
    let patch = UpdateArticle { is_published: Some(true), ..no_patch() };
    assert_eq!(update_post(&mut t, 2, &patch).status, 200);
    assert_eq!(ids(&list_posts(&t)), vec![1, 2]);
}

#[test]
fn update_post_with_an_empty_patch_changes_nothing() {
    let mut t = sample();
    let before = article(get_post(&t, 1));
    assert_eq!(update_post(&mut t, 1, &no_patch()).status, 200);
    assert_eq!(article(get_post(&t, 1)), before);
}

#[test]
fn update_post_of_a_missing_identifier_is_not_found() {
    let mut t = sample();
    let patch = UpdateArticle { title: Some("X".to_string()), ..no_patch() };
    assert_eq!(update_post(&mut t, 77, &patch), Response { status: 404, body: Body::Empty });
    assert_eq!(article(get_post(&t, 1)).title, "one");
}

#[test]
fn deleted_rows_always_carry_their_time() {
    let mut t = sample();
    update_post(&mut t, 3, &UpdateArticle { title: Some("t".to_string()), ..no_patch() });
    remove_post_at(&mut t, 1, 50);
    delete_post(&mut t, 2);
    for id in [1u128, 3] {
        let a = article(get_post(&t, id));
        assert!(a.is_deleted);
        assert!(a.deleted_at.is_some());
    }
}

#[test]
fn table_statements_report_the_rows_they_touch() {
    let mut t = ArticleTable::new();
    let row = Article::new(&draft("a", "b", true), 1, 5);
    assert_eq!(t.insert(row.clone()), Ok(1));
    assert_eq!(t.insert(row.clone()), Err(StoreError::DuplicateKey));
    assert_eq!(t.get(1), Some(row));
    assert_eq!(t.get(2), None);
    assert_eq!(t.update(1, &no_patch()), 1);
    assert_eq!(t.update(2, &no_patch()), 0);
    assert_eq!(t.retire(1, 9), 1);
    assert_eq!(t.retire(2, 9), 0);
    assert_eq!(t.select(Listing::Deleted).len(), 1);
    assert_eq!(t.select(Listing::Active).len(), 0);
    assert_eq!(t.select(Listing::Published).len(), 0);
    assert_eq!(t.delete(2), 0);
    assert_eq!(t.delete(1), 1);
    assert_eq!(t.len(), 0);
}

#[test]
fn row_helpers_build_what_they_say() {
    let row = Article::new(&draft("a", "b", false), 3, 7);
    assert_eq!(
        row,
        Article {
            id: 3,
            title: "a".to_string(),
            content: "b".to_string(),
            published_at: 7,
            is_published: false,
            is_deleted: false,
            deleted_at: None,
        }
    );
    let gone = row.retire(8);
    assert!(gone.is_deleted);
    assert_eq!(gone.deleted_at, Some(8));
    assert_eq!(gone.title, "a");
    let patched = row.with_patch(&UpdateArticle { published_at: Some(1), ..no_patch() });
    assert_eq!(patched.published_at, 1);
    assert_eq!(patched.content, "b");
    assert!(Listing::Active.admits(&row));
    assert!(!Listing::Published.admits(&row));
    assert!(!Listing::Deleted.admits(&row));
    assert!(Listing::Deleted.admits(&gone));
    assert!(!Listing::Active.admits(&gone));
}

#[test]
fn responses_follow_what_the_store_said() {
    assert_eq!(insert_response::<StoreError>(4, Ok(1)), Response { status: 200, body: Body::Id(4) });
    assert_eq!(
        insert_response(4, Err(StoreError::DuplicateKey)),
        Response { status: 500, body: Body::Empty }
    );
    assert_eq!(lookup_response(None), Response { status: 404, body: Body::Empty });
    let row = Article::new(&draft("a", "b", true), 1, 5);
    assert_eq!(
        lookup_response(Some(row.clone())),
        Response { status: 200, body: Body::Article(row.clone()) }
    );
    assert_eq!(
        rows_response(vec![row.clone()]),
        Response { status: 200, body: Body::Articles(vec![row]) }
    );
    assert_eq!(count_response(0), Response { status: 404, body: Body::Empty });
    assert_eq!(count_response(1), Response { status: 200, body: Body::Empty });
    assert_eq!(count_response(3), Response { status: 200, body: Body::Empty });
    assert_eq!(failure_response(), Response { status: 500, body: Body::Empty });
    assert_eq!(Response::unavailable(), Response { status: 503, body: Body::Empty });
}

#[test]
fn init_lists_the_article_routes() {
    let scope = init();
    assert_eq!(scope.prefix, "/post");
    assert_eq!(
        scope.routes,
        vec![
            Route { method: Method::Post, path: "/create_post", handler: Handler::CreatePost },
            Route { method: Method::Get, path: "/get_post/{uuid}", handler: Handler::GetPost },
            Route { method: Method::Get, path: "/list_posts", handler: Handler::ListPosts },
            Route { method: Method::Get, path: "/list_all_posts", handler: Handler::ListAllPosts },
            Route {
                method: Method::Get,
                path: "/list_deleted_posts",
                handler: Handler::ListDeletedPosts,
            },
            Route { method: Method::Put, path: "/update_post/{uuid}", handler: Handler::UpdatePost },
            Route {
                method: Method::Delete,
                path: "/delete_post/{uuid}",
                handler: Handler::DeletePost,
            },
            Route {
                method: Method::Delete,
                path: "/remove_post/{uuid}",
                handler: Handler::RemovePost,
            },
        ]
    );
}

#[test]
fn a_patch_is_empty_when_it_names_no_field() {
    assert!(no_patch().is_empty());
    assert!(!UpdateArticle { title: Some(String::new()), ..no_patch() }.is_empty());
    assert!(!UpdateArticle { content: Some("c".to_string()), ..no_patch() }.is_empty());
    assert!(!UpdateArticle { is_published: Some(false), ..no_patch() }.is_empty());
    assert!(!UpdateArticle { published_at: Some(0), ..no_patch() }.is_empty());
}

#[test]
fn fresh_article_takes_the_payload() {
    let row = crud_api::articles::handlers::fresh_article(&draft("t", "c", false));
    assert_eq!((row.id >> 76) & 0xf, 4);
    assert_eq!((row.id >> 62) & 0x3, 2);
    assert_eq!(row.title, "t");
    assert_eq!(row.content, "c");
    assert!(!row.is_published);
    assert!(!row.is_deleted);
    assert_eq!(row.deleted_at, None);
    assert!(row.published_at > 1_577_836_800_000_000);
}
