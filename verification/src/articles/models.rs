//! Article records and the payloads that create and change them.
//!
//! Identifiers are the 128 bits of a UUID. Timestamps are microseconds since
//! the Unix epoch, in UTC.

use vstd::prelude::*;

verus! {

/// An article as plain values.
pub struct ArticleView {
    pub id: u128,
    pub title: Seq<char>,
    pub content: Seq<char>,
    pub published_at: i64,
    pub is_published: bool,
    pub is_deleted: bool,
    pub deleted_at: Option<i64>,
}

/// The payload of a create request as plain values.
pub struct CreateArticleView {
    pub title: Seq<char>,
    pub content: Seq<char>,
    pub is_published: bool,
}

/// A patch as plain values. `None` leaves the field as it is.
pub struct UpdateArticleView {
    pub title: Option<Seq<char>>,
    pub content: Option<Seq<char>>,
    pub is_published: Option<bool>,
    pub published_at: Option<i64>,
}

/// One row of the article table.
#[derive(Debug, PartialEq, Eq)]
pub struct Article {
    pub id: u128,
    pub title: String,
    pub content: String,
    pub published_at: i64,
    pub is_published: bool,
    pub is_deleted: bool,
    pub deleted_at: Option<i64>,
}

/// What a client sends to create an article.
#[derive(Debug, PartialEq, Eq)]
pub struct CreateArticle {
    pub title: String,
    pub content: String,
    pub is_published: bool,
}

/// A partial update: only the fields that are `Some` are written.
#[derive(Debug, PartialEq, Eq)]
pub struct UpdateArticle {
    pub title: Option<String>,
    pub content: Option<String>,
    pub is_published: Option<bool>,
    pub published_at: Option<i64>,
}

/// Which rows a listing shows.
#[derive(Clone, Copy, Debug, PartialEq, Eq)]
pub enum Listing {
    /// Published and not deleted.
    Published,
    /// Not deleted, published or not.
    Active,
    /// Soft-deleted.
    Deleted,
}

impl View for Article {
    type V = ArticleView;

    open spec fn view(&self) -> ArticleView {
        ArticleView {
            id: self.id,
            title: self.title@,
            content: self.content@,
            published_at: self.published_at,
            is_published: self.is_published,
            is_deleted: self.is_deleted,
            deleted_at: self.deleted_at,
        }
    }
}

impl View for CreateArticle {
    type V = CreateArticleView;

    open spec fn view(&self) -> CreateArticleView {
        CreateArticleView {
            title: self.title@,
            content: self.content@,
            is_published: self.is_published,
        }
    }
}

/// The characters of an optional string.
pub open spec fn text_of(s: Option<String>) -> Option<Seq<char>> {
    match s {
        Some(t) => Some(t@),
        None => None,
    }
}

impl View for UpdateArticle {
    type V = UpdateArticleView;

    open spec fn view(&self) -> UpdateArticleView {
        UpdateArticleView {
            title: text_of(self.title),
            content: text_of(self.content),
            is_published: self.is_published,
            published_at: self.published_at,
        }
    }
}

/// The row that a create request with payload `item` stores under `id` at
/// time `now`: published at `now`, not deleted.
pub open spec fn created(item: CreateArticleView, id: u128, now: i64) -> ArticleView {
    ArticleView {
        id,
        title: item.title,
        content: item.content,
        published_at: now,
        is_published: item.is_published,
        is_deleted: false,
        deleted_at: None,
    }
}

/// Row `a` after patch `p`: each field that the patch names takes the
/// patch's value, every other field stays.
pub open spec fn patched(a: ArticleView, p: UpdateArticleView) -> ArticleView {
    ArticleView {
        id: a.id,
        title: if let Some(t) = p.title { t } else { a.title },
        content: if let Some(c) = p.content { c } else { a.content },
        published_at: if let Some(at) = p.published_at { at } else { a.published_at },
        is_published: if let Some(b) = p.is_published { b } else { a.is_published },
        is_deleted: a.is_deleted,
        deleted_at: a.deleted_at,
    }
}

/// Row `a` after a soft delete at time `now`.
pub open spec fn retired(a: ArticleView, now: i64) -> ArticleView {
    ArticleView {
        id: a.id,
        title: a.title,
        content: a.content,
        published_at: a.published_at,
        is_published: a.is_published,
        is_deleted: true,
        deleted_at: Some(now),
    }
}

/// A deleted row carries the time of its deletion.
pub open spec fn consistent(a: ArticleView) -> bool {
    a.is_deleted ==> a.deleted_at.is_some()
}

/// Whether listing `l` shows row `a`.
pub open spec fn shows(l: Listing, a: ArticleView) -> bool {
    match l {
        Listing::Published => !a.is_deleted && a.is_published,
        Listing::Active => !a.is_deleted,
        Listing::Deleted => a.is_deleted,
    }
}

impl Clone for Article {
    fn clone(&self) -> (r: Self)
        ensures
            r@ == self@,
    {
        Article {
            id: self.id,
            title: self.title.clone(),
            content: self.content.clone(),
            published_at: self.published_at,
            is_published: self.is_published,
            is_deleted: self.is_deleted,
            deleted_at: self.deleted_at,
        }
    }
}

impl Article {
    /// Builds the row for a create request.
    pub fn new(item: &CreateArticle, id: u128, now: i64) -> (r: Article)
        ensures
            r@ == created(item@, id, now),
    {
        Article {
            id,
            title: item.title.clone(),
            content: item.content.clone(),
            published_at: now,
            is_published: item.is_published,
            is_deleted: false,
            deleted_at: None,
        }
    }

    /// This row with the patch applied.
    pub fn with_patch(&self, patch: &UpdateArticle) -> (r: Article)
        ensures
            r@ == patched(self@, patch@),
    {
        Article {
            id: self.id,
            title: match &patch.title {
                Some(t) => t.clone(),
                None => self.title.clone(),
            },
            content: match &patch.content {
                Some(c) => c.clone(),
                None => self.content.clone(),
            },
            published_at: match patch.published_at {
                Some(at) => at,
                None => self.published_at,
            },
            is_published: match patch.is_published {
                Some(b) => b,
                None => self.is_published,
            },
            is_deleted: self.is_deleted,
            deleted_at: self.deleted_at,
        }
    }

    /// This row marked as deleted at `now`.
    pub fn retire(&self, now: i64) -> (r: Article)
        ensures
            r@ == retired(self@, now),
    {
        Article {
            id: self.id,
            title: self.title.clone(),
            content: self.content.clone(),
            published_at: self.published_at,
            is_published: self.is_published,
            is_deleted: true,
            deleted_at: Some(now),
        }
    }
}

impl UpdateArticle {
    /// Whether the patch names no field at all.
    pub fn is_empty(&self) -> (r: bool)
        ensures
            r == (self@.title is None && self@.content is None && self@.is_published is None
                && self@.published_at is None),
            r ==> forall|a: ArticleView| patched(a, self@) == a,
    {
        self.title.is_none() && self.content.is_none() && self.is_published.is_none()
            && self.published_at.is_none()
    }
}

impl Listing {
    /// Whether this listing shows `a`.
    pub fn admits(&self, a: &Article) -> (r: bool)
        ensures
            r == shows(*self, a@),
    {
        match self {
            Listing::Published => !a.is_deleted && a.is_published,
            Listing::Active => !a.is_deleted,
            Listing::Deleted => a.is_deleted,
        }
    }
}

} // verus!
