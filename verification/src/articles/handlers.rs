//! The article handlers: what each request does to the table and what it
//! answers.

use vstd::prelude::*;
use crate::ambient::{is_random_uuid, random_uuid, utc_now_micros};
use crate::articles::models::{
    created, Article, ArticleView, CreateArticle, CreateArticleView, Listing, UpdateArticle,
};
use crate::articles::table::{
    deleted, listed, lookup, present, soft_deleted, updated, view_of, views, ArticleTable,
};
use crate::response::{
    bare, ok_with, Body, BodyView, Response, ResponseView, INTERNAL_SERVER_ERROR, NOT_FOUND, OK,
};
use crate::routes::{route, Handler, Method, Route, RouteView, Scope};

verus! {

/// The table after a create request: the new row stands behind the others,
/// unless its identifier was taken.
pub open spec fn after_create(
    s: Seq<ArticleView>,
    item: CreateArticleView,
    id: u128,
    now: i64,
) -> Seq<ArticleView> {
    if present(s, id) {
        s
    } else {
        s.push(created(item, id, now))
    }
}

/// The answer to a create request: 200 with the new identifier, or 500 when
/// the identifier was taken.
pub open spec fn create_reply(s: Seq<ArticleView>, id: u128) -> ResponseView {
    if present(s, id) {
        bare(INTERNAL_SERVER_ERROR)
    } else {
        ok_with(BodyView::Id(id))
    }
}

/// The answer to a fetch: 200 with the row, or 404.
pub open spec fn get_reply(s: Seq<ArticleView>, id: u128) -> ResponseView {
    match lookup(s, id) {
        Some(a) => ok_with(BodyView::Article(a)),
        None => bare(NOT_FOUND),
    }
}

/// The answer to a listing: 200 with the rows that the listing shows.
pub open spec fn list_reply(s: Seq<ArticleView>, l: Listing) -> ResponseView {
    ok_with(BodyView::Articles(listed(s, l)))
}

/// The answer to a request that changes the row `id`: 200 when the row was
/// there, 404 when it was not.
pub open spec fn change_reply(s: Seq<ArticleView>, id: u128) -> ResponseView {
    if present(s, id) {
        bare(OK)
    } else {
        bare(NOT_FOUND)
    }
}

/// The answer to an insert under `id`, given what the store said.
pub fn insert_response<E>(id: u128, outcome: Result<usize, E>) -> (r: Response)
    ensures
        r@ == match outcome {
            Ok(_) => ok_with(BodyView::Id(id)),
            Err(_) => bare(INTERNAL_SERVER_ERROR),
        },
{
    match outcome {
        Ok(_) => Response::ok(Body::Id(id)),
        Err(_) => Response::empty(INTERNAL_SERVER_ERROR),
    }
}

/// The answer to a fetch, given the row that the store found.
pub fn lookup_response(found: Option<Article>) -> (r: Response)
    ensures
        r@ == match view_of(found) {
            Some(a) => ok_with(BodyView::Article(a)),
            None => bare(NOT_FOUND),
        },
{
    match found {
        Some(a) => Response::ok(Body::Article(a)),
        None => Response::empty(NOT_FOUND),
    }
}

/// The answer to a listing, given the rows that the store selected.
pub fn rows_response(rows: Vec<Article>) -> (r: Response)
    ensures
        r@ == ok_with(BodyView::Articles(views(rows@))),
{
    Response::ok(Body::Articles(rows))
}

/// The answer to an update or delete, given how many rows it touched.
pub fn count_response(touched: usize) -> (r: Response)
    ensures
        r@ == if touched > 0 {
            bare(OK)
        } else {
            bare(NOT_FOUND)
        },
{
    if touched > 0 {
        Response::empty(OK)
    } else {
        Response::empty(NOT_FOUND)
    }
}

/// The answer when the store failed a statement: 500, no body.
pub fn failure_response() -> (r: Response)
    ensures
        r@ == bare(INTERNAL_SERVER_ERROR),
{
    Response::empty(INTERNAL_SERVER_ERROR)
}

/// Stores a new article under `id`, published at `now`, and answers with the
/// identifier. An identifier that is taken leaves the table as it was and is
/// answered with 500.
pub fn create_post_with(
    table: &mut ArticleTable,
    item: &CreateArticle,
    id: u128,
    now: i64,
) -> (r: Response)
    requires
        old(table).wf(),
    ensures
        final(table).wf(),
        final(table)@ == after_create(old(table)@, item@, id, now),
        r@ == create_reply(old(table)@, id),
{
    let outcome = table.insert(Article::new(item, id, now));
    insert_response(id, outcome)
}

/// The row for a create request: under a fresh random identifier, published
/// now, not deleted.
pub fn fresh_article(item: &CreateArticle) -> (row: Article)
    ensures
        is_random_uuid(row.id),
        row@ == created(item@, row.id, row.published_at),
{
    let id = random_uuid();
    let now = utc_now_micros();
    Article::new(item, id, now)
}

/// Stores a new article under a fresh random identifier, published now, and
/// answers with the identifier. Should the identifier be taken, the table
/// stays as it was and the answer is 500.
pub fn create_post(table: &mut ArticleTable, item: &CreateArticle) -> (r: Response)
    requires
        old(table).wf(),
    ensures
        final(table).wf(),
        exists|id: u128, now: i64|
            {
                &&& is_random_uuid(id)
                &&& final(table)@ == #[trigger] after_create(old(table)@, item@, id, now)
                &&& r@ == create_reply(old(table)@, id)
            },
{
    let row = fresh_article(item);
    let id = row.id;
    let ghost now = row.published_at;
    let outcome = table.insert(row);
    proof {
        assert(final(table)@ == after_create(old(table)@, item@, id, now));
    }
    insert_response(id, outcome)
}

/// Answers with the article `id`, or with 404.
pub fn get_post(table: &ArticleTable, id: u128) -> (r: Response)
    requires
        table.wf(),
    ensures
        r@ == get_reply(table@, id),
{
    lookup_response(table.get(id))
}

/// Answers with the articles that are published and not deleted.
pub fn list_posts(table: &ArticleTable) -> (r: Response)
    ensures
        r@ == list_reply(table@, Listing::Published),
{
    rows_response(table.select(Listing::Published))
}

/// Answers with the articles that are not deleted, published or not.
pub fn list_all_posts(table: &ArticleTable) -> (r: Response)
    ensures
        r@ == list_reply(table@, Listing::Active),
{
    rows_response(table.select(Listing::Active))
}

/// Answers with the articles that are soft-deleted.
pub fn list_deleted_posts(table: &ArticleTable) -> (r: Response)
    ensures
        r@ == list_reply(table@, Listing::Deleted),
{
    rows_response(table.select(Listing::Deleted))
}

/// Writes the fields that `item` names into the article `id`. Answers 200 when
/// the article was there, 404 when it was not.
pub fn update_post(table: &mut ArticleTable, id: u128, item: &UpdateArticle) -> (r: Response)
    requires
        old(table).wf(),
    ensures
        final(table).wf(),
        final(table)@ == updated(old(table)@, id, item@),
        r@ == change_reply(old(table)@, id),
{
    count_response(table.update(id, item))
}

/// Removes the article `id` for good. Answers 200 when the article was there,
/// 404 when it was not.
pub fn delete_post(table: &mut ArticleTable, id: u128) -> (r: Response)
    requires
        old(table).wf(),
    ensures
        final(table).wf(),
        final(table)@ == deleted(old(table)@, id),
        r@ == change_reply(old(table)@, id),
{
    count_response(table.delete(id))
}

/// Marks the article `id` as deleted at `now`; the row stays in the table.
/// Answers 200 when the article was there, 404 when it was not.
pub fn remove_post_at(table: &mut ArticleTable, id: u128, now: i64) -> (r: Response)
    requires
        old(table).wf(),
    ensures
        final(table).wf(),
        final(table)@ == soft_deleted(old(table)@, id, now),
        r@ == change_reply(old(table)@, id),
{
    count_response(table.retire(id, now))
}

/// Marks the article `id` as deleted now; the row stays in the table.
/// Answers 200 when the article was there, 404 when it was not.
pub fn remove_post(table: &mut ArticleTable, id: u128) -> (r: Response)
    requires
        old(table).wf(),
    ensures
        final(table).wf(),
        r@ == change_reply(old(table)@, id),
        exists|now: i64| final(table)@ == #[trigger] soft_deleted(old(table)@, id, now),
{
    let now = utc_now_micros();
    let r = remove_post_at(table, id, now);
    proof {
        assert(final(table)@ == soft_deleted(old(table)@, id, now));
    }
    r
}

/// The route table of the article service.
pub open spec fn article_routes() -> Seq<RouteView> {
    seq![
        route(Method::Post, "/create_post", Handler::CreatePost),
        route(Method::Get, "/get_post/{uuid}", Handler::GetPost),
        route(Method::Get, "/list_posts", Handler::ListPosts),
        route(Method::Get, "/list_all_posts", Handler::ListAllPosts),
        route(Method::Get, "/list_deleted_posts", Handler::ListDeletedPosts),
        route(Method::Put, "/update_post/{uuid}", Handler::UpdatePost),
        route(Method::Delete, "/delete_post/{uuid}", Handler::DeletePost),
        route(Method::Delete, "/remove_post/{uuid}", Handler::RemovePost),
    ]
}

/// The routes of the article service, below `/post`.
pub fn init() -> (scope: Scope)
    ensures
        scope@.prefix == "/post"@,
        scope@.routes == article_routes(),
{
    let mut routes: Vec<Route> = Vec::new();
    routes.push(Route::new(Method::Post, "/create_post", Handler::CreatePost));
    routes.push(Route::new(Method::Get, "/get_post/{uuid}", Handler::GetPost));
    routes.push(Route::new(Method::Get, "/list_posts", Handler::ListPosts));
    routes.push(Route::new(Method::Get, "/list_all_posts", Handler::ListAllPosts));
    routes.push(Route::new(Method::Get, "/list_deleted_posts", Handler::ListDeletedPosts));
    routes.push(Route::new(Method::Put, "/update_post/{uuid}", Handler::UpdatePost));
    routes.push(Route::new(Method::Delete, "/delete_post/{uuid}", Handler::DeletePost));
    routes.push(Route::new(Method::Delete, "/remove_post/{uuid}", Handler::RemovePost));
    let scope = Scope { prefix: "/post", routes };
    assert(scope@.routes =~= article_routes());
    scope
}

} // verus!
