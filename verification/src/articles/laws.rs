//! What holds of the article handlers taken together, stated over the rows of
//! a table without duplicate identifiers.

use vstd::prelude::*;
use crate::articles::handlers::{after_create, change_reply, create_reply, get_reply, list_reply};
use crate::articles::models::{
    consistent, created, patched, retired, shows, ArticleView, CreateArticleView, Listing,
    UpdateArticleView,
};
use crate::articles::table::{
    deleted, distinct, lemma_found, listed, lookup, position, present, shown_by, soft_deleted,
    updated,
};
use crate::response::{bare, ok_with, BodyView, NOT_FOUND, OK};

verus! {

/// Every row of `s` is consistent: a deleted row carries the time of its
/// deletion.
pub open spec fn all_consistent(s: Seq<ArticleView>) -> bool {
    forall|i: int| 0 <= i < s.len() ==> consistent(#[trigger] s[i])
}

/// Putting another row with the same identifier in place of a row keeps the
/// identifiers distinct, and that row is then the one found under the
/// identifier.
proof fn lemma_replace(s: Seq<ArticleView>, id: u128, row: ArticleView)
    requires
        distinct(s),
        present(s, id),
        row.id == id,
    ensures
        distinct(s.update(position(s, id), row)),
        lookup(s.update(position(s, id), row), id) == Some(row),
{
    let p = position(s, id);
    let t = s.update(p, row);
    assert forall|i: int, j: int| 0 <= i < j < t.len() implies (#[trigger] t[i]).id != (
    #[trigger] t[j]).id by {
        assert(t[i].id == s[i].id);
        assert(t[j].id == s[j].id);
    }
    lemma_found(t, id, p);
}

/// A row of a listing that carries `id` is the row that the table holds
/// under `id`.
proof fn lemma_listed_row(s: Seq<ArticleView>, l: Listing, k: int, id: u128)
    requires
        distinct(s),
        0 <= k < listed(s, l).len(),
        listed(s, l)[k].id == id,
    ensures
        lookup(s, id) == Some(listed(s, l)[k]),
        shows(l, listed(s, l)[k]),
{
    let row = listed(s, l)[k];
    s.lemma_filter_pred(shown_by(l), k);
    assert(listed(s, l).contains(row));
    s.lemma_filter_contains_rev(shown_by(l), row);
    let j = choose|j: int| 0 <= j < s.len() && s[j] == row;
    lemma_found(s, id, j);
}

/// A row of the table that a listing shows is found in that listing under
/// its identifier.
proof fn lemma_row_listed(s: Seq<ArticleView>, l: Listing, id: u128)
    requires
        present(s, id),
        shows(l, s[position(s, id)]),
    ensures
        present(listed(s, l), id),
{
    let p = position(s, id);
    s.lemma_filter_contains(shown_by(l), p);
    let k = choose|k: int| 0 <= k < listed(s, l).len() && listed(s, l)[k] == s[p];
    assert(listed(s, l)[k].id == id);
}

/// Create, then fetch: a create request that is answered with success stores
/// a row that a fetch of the new identifier returns, with the title, content
/// and publish flag that were submitted, and not deleted.
pub proof fn law_create_then_get(s: Seq<ArticleView>, item: CreateArticleView, id: u128, now: i64)
    requires
        distinct(s),
        create_reply(s, id).status == OK,
    ensures
        create_reply(s, id) == ok_with(BodyView::Id(id)),
        distinct(after_create(s, item, id, now)),
        get_reply(after_create(s, item, id, now), id) == ok_with(
            BodyView::Article(created(item, id, now)),
        ),
        created(item, id, now).title == item.title,
        created(item, id, now).content == item.content,
        created(item, id, now).is_published == item.is_published,
        !created(item, id, now).is_deleted,
{
    let row = created(item, id, now);
    let t = s.push(row);
    assert(!present(s, id));
    assert forall|i: int, j: int| 0 <= i < j < t.len() implies (#[trigger] t[i]).id != (
    #[trigger] t[j]).id by {
        assert(t[i] == s[i]);
        if j < s.len() {
            assert(t[j] == s[j]);
        }
    }
    lemma_found(t, id, s.len() as int);
}

/// A listing holds exactly the rows of the table that it shows: each of its
/// rows is a row of the table and passes its test, and each row of the table
/// that passes the test is in it.
pub proof fn law_listing_exact(s: Seq<ArticleView>, l: Listing)
    ensures
        list_reply(s, l) == ok_with(BodyView::Articles(listed(s, l))),
        forall|k: int|
            0 <= k < listed(s, l).len() ==> shows(l, #[trigger] listed(s, l)[k]) && s.contains(
                listed(s, l)[k],
            ),
        forall|i: int|
            0 <= i < s.len() && shows(l, s[i]) ==> listed(s, l).contains(#[trigger] s[i]),
{
    assert forall|k: int| 0 <= k < listed(s, l).len() implies shows(l, #[trigger] listed(s, l)[k])
        && s.contains(listed(s, l)[k]) by {
        s.lemma_filter_pred(shown_by(l), k);
        assert(listed(s, l).contains(listed(s, l)[k]));
        s.lemma_filter_contains_rev(shown_by(l), listed(s, l)[k]);
    }
    assert forall|i: int| 0 <= i < s.len() && shows(l, s[i]) implies listed(s, l).contains(
        #[trigger] s[i],
    ) by {
        s.lemma_filter_contains(shown_by(l), i);
    }
}

/// The listing of published articles never holds a row that is deleted or
/// unpublished; the listing of all articles never holds a deleted row; the
/// listing of deleted articles holds deleted rows only.
pub proof fn law_listings_hide(s: Seq<ArticleView>)
    ensures
        forall|k: int|
            0 <= k < listed(s, Listing::Published).len() ==> {
                let row = #[trigger] listed(s, Listing::Published)[k];
                !row.is_deleted && row.is_published
            },
        forall|k: int|
            0 <= k < listed(s, Listing::Active).len() ==> !(#[trigger] listed(
                s,
                Listing::Active,
            )[k]).is_deleted,
        forall|k: int|
            0 <= k < listed(s, Listing::Deleted).len() ==> (#[trigger] listed(
                s,
                Listing::Deleted,
            )[k]).is_deleted,
{
    law_listing_exact(s, Listing::Published);
    law_listing_exact(s, Listing::Active);
    law_listing_exact(s, Listing::Deleted);
}

/// Soft delete of an article that is there: the answer is 200, the row stays
/// under its identifier with the deleted flag set and the time of deletion,
/// it is gone from the listing of published articles and from the listing of
/// all articles, and it is in the listing of deleted articles.
pub proof fn law_remove_post(s: Seq<ArticleView>, id: u128, now: i64)
    requires
        distinct(s),
        present(s, id),
    ensures
        change_reply(s, id) == bare(OK),
        distinct(soft_deleted(s, id, now)),
        lookup(soft_deleted(s, id, now), id) == Some(retired(s[position(s, id)], now)),
        retired(s[position(s, id)], now).is_deleted,
        retired(s[position(s, id)], now).deleted_at == Some(now),
        !present(listed(soft_deleted(s, id, now), Listing::Published), id),
        !present(listed(soft_deleted(s, id, now), Listing::Active), id),
        present(listed(soft_deleted(s, id, now), Listing::Deleted), id),
{
    let row = retired(s[position(s, id)], now);
    let t = soft_deleted(s, id, now);
    lemma_replace(s, id, row);
    assert(t == s.update(position(s, id), row));
    let published = listed(t, Listing::Published);
    assert forall|k: int| 0 <= k < published.len() implies (#[trigger] published[k]).id != id by {
        if published[k].id == id {
            lemma_listed_row(t, Listing::Published, k, id);
        }
    }
    let active = listed(t, Listing::Active);
    assert forall|k: int| 0 <= k < active.len() implies (#[trigger] active[k]).id != id by {
        if active[k].id == id {
            lemma_listed_row(t, Listing::Active, k, id);
        }
    }
    lemma_found(t, id, position(s, id));
    lemma_row_listed(t, Listing::Deleted, id);
}

/// Hard delete: afterwards no row carries the identifier and a fetch is
/// answered with 404. The delete itself is answered with 200 when the
/// article was there, and with 404, the table unchanged, when it was not.
pub proof fn law_delete_post(s: Seq<ArticleView>, id: u128)
    requires
        distinct(s),
    ensures
        distinct(deleted(s, id)),
        !present(deleted(s, id), id),
        get_reply(deleted(s, id), id) == bare(NOT_FOUND),
        present(s, id) ==> change_reply(s, id) == bare(OK) && deleted(s, id).len() == s.len() - 1,
        !present(s, id) ==> change_reply(s, id) == bare(NOT_FOUND) && deleted(s, id) == s,
{
    if present(s, id) {
        let p = position(s, id);
        let t = s.remove(p);
        assert forall|i: int| 0 <= i < t.len() implies (#[trigger] t[i]).id != id by {
            let k = if i < p {
                i
            } else {
                i + 1
            };
            assert(t[i] == s[k]);
            if s[k].id == id {
                lemma_found(s, id, k);
            }
        }
        assert forall|i: int, j: int| 0 <= i < j < t.len() implies (#[trigger] t[i]).id != (
        #[trigger] t[j]).id by {
            let a = if i < p {
                i
            } else {
                i + 1
            };
            let b = if j < p {
                j
            } else {
                j + 1
            };
            assert(t[i] == s[a]);
            assert(t[j] == s[b]);
        }
    }
}

/// Update of an article that is there: the answer is 200 and the row found
/// under the identifier afterwards has the patch's value in each field that
/// the patch names and its old value in every other field. The deleted flag
/// and the time of deletion are never touched.
pub proof fn law_update_post(s: Seq<ArticleView>, id: u128, p: UpdateArticleView)
    requires
        distinct(s),
        present(s, id),
    ensures
        change_reply(s, id) == bare(OK),
        distinct(updated(s, id, p)),
        updated(s, id, p).len() == s.len(),
        lookup(updated(s, id, p), id) == Some(patched(s[position(s, id)], p)),
        p.title is None ==> patched(s[position(s, id)], p).title == s[position(s, id)].title,
        p.content is None ==> patched(s[position(s, id)], p).content == s[position(s, id)].content,
        p.is_published is None ==> patched(s[position(s, id)], p).is_published == s[position(
            s,
            id,
        )].is_published,
        p.published_at is None ==> patched(s[position(s, id)], p).published_at == s[position(
            s,
            id,
        )].published_at,
        patched(s[position(s, id)], p).is_deleted == s[position(s, id)].is_deleted,
        patched(s[position(s, id)], p).deleted_at == s[position(s, id)].deleted_at,
{
    lemma_replace(s, id, patched(s[position(s, id)], p));
}

/// An update that names the title only writes the title: content and publish
/// flag of the row are what they were.
pub proof fn law_update_title_only(s: Seq<ArticleView>, id: u128, title: Seq<char>)
    requires
        distinct(s),
        present(s, id),
    ensures
        ({
            let patch = UpdateArticleView {
                title: Some(title),
                content: None,
                is_published: None,
                published_at: None,
            };
            let before = s[position(s, id)];
            &&& lookup(updated(s, id, patch), id) matches Some(after)
            &&& after.title == title
            &&& after.content == before.content
            &&& after.is_published == before.is_published
        }),
{
    let patch = UpdateArticleView {
        title: Some(title),
        content: None,
        is_published: None,
        published_at: None,
    };
    law_update_post(s, id, patch);
}

/// A request that addresses one article leaves every other article as it
/// was: what is found under another identifier is the same before and after
/// a create, an update, a soft delete and a hard delete.
pub proof fn law_other_rows_stay(
    s: Seq<ArticleView>,
    id: u128,
    other: u128,
    item: CreateArticleView,
    p: UpdateArticleView,
    now: i64,
)
    requires
        distinct(s),
        other != id,
    ensures
        lookup(after_create(s, item, id, now), other) == lookup(s, other),
        lookup(updated(s, id, p), other) == lookup(s, other),
        lookup(soft_deleted(s, id, now), other) == lookup(s, other),
        lookup(deleted(s, id), other) == lookup(s, other),
{
    law_delete_post(s, id);
    if present(s, id) {
        lemma_replace(s, id, patched(s[position(s, id)], p));
        lemma_replace(s, id, retired(s[position(s, id)], now));
    } else {
        law_create_then_get(s, item, id, now);
    }
    let a = after_create(s, item, id, now);
    let b = updated(s, id, p);
    let c = soft_deleted(s, id, now);
    let d = deleted(s, id);
    if present(s, other) {
        let q = position(s, other);
        assert(a[q] == s[q]);
        lemma_found(a, other, q);
        assert(b[q] == s[q]);
        lemma_found(b, other, q);
        assert(c[q] == s[q]);
        lemma_found(c, other, q);
        if present(s, id) {
            let at = position(s, id);
            let k = if q < at {
                q
            } else {
                q - 1
            };
            assert(d[k] == s[q]);
            lemma_found(d, other, k);
        }
    } else {
        assert forall|i: int| 0 <= i < a.len() implies (#[trigger] a[i]).id != other by {
            if i < s.len() {
                assert(a[i] == s[i]);
            }
        }
        assert forall|i: int| 0 <= i < b.len() implies (#[trigger] b[i]).id != other by {
            assert(b[i].id == s[i].id);
        }
        assert forall|i: int| 0 <= i < c.len() implies (#[trigger] c[i]).id != other by {
            assert(c[i].id == s[i].id);
        }
        assert forall|i: int| 0 <= i < d.len() implies (#[trigger] d[i]).id != other by {
            if present(s, id) {
                let at = position(s, id);
                let k = if i < at {
                    i
                } else {
                    i + 1
                };
                assert(d[i] == s[k]);
            }
        }
    }
}

/// No handler breaks the soft-delete invariant: if every row that is deleted
/// carries the time of its deletion, that still holds after a create, an
/// update, a soft delete and a hard delete.
pub proof fn law_rows_stay_consistent(
    s: Seq<ArticleView>,
    id: u128,
    item: CreateArticleView,
    p: UpdateArticleView,
    now: i64,
)
    requires
        all_consistent(s),
    ensures
        all_consistent(after_create(s, item, id, now)),
        all_consistent(updated(s, id, p)),
        all_consistent(soft_deleted(s, id, now)),
        all_consistent(deleted(s, id)),
{
    let a = after_create(s, item, id, now);
    let b = updated(s, id, p);
    let c = soft_deleted(s, id, now);
    let d = deleted(s, id);
    assert forall|i: int| 0 <= i < a.len() implies consistent(#[trigger] a[i]) by {
        if i < s.len() {
            assert(a[i] == s[i]);
        }
    }
    assert forall|i: int| 0 <= i < b.len() implies consistent(#[trigger] b[i]) by {
        assert(consistent(s[i]));
    }
    assert forall|i: int| 0 <= i < c.len() implies consistent(#[trigger] c[i]) by {
        assert(consistent(s[i]));
    }
    assert forall|i: int| 0 <= i < d.len() implies consistent(#[trigger] d[i]) by {
        if present(s, id) {
            let at = position(s, id);
            let k = if i < at {
                i
            } else {
                i + 1
            };
            assert(d[i] == s[k]);
            assert(consistent(s[k]));
        }
    }
}

} // verus!
