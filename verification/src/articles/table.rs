//! The article table: rows in insertion order, no two with the same
//! identifier.

use vstd::prelude::*;
use crate::articles::models::{
    patched, retired, shows, Article, ArticleView, Listing, UpdateArticle, UpdateArticleView,
};
use crate::error::StoreError;

verus! {

/// The rows as plain values, in order.
pub open spec fn views(rows: Seq<Article>) -> Seq<ArticleView> {
    rows.map_values(|a: Article| a@)
}

/// The row that an optional article stands for.
pub open spec fn view_of(a: Option<Article>) -> Option<ArticleView> {
    match a {
        Some(row) => Some(row@),
        None => None,
    }
}

/// Some row of `s` has identifier `id`.
pub open spec fn present(s: Seq<ArticleView>, id: u128) -> bool {
    exists|i: int| 0 <= i < s.len() && (#[trigger] s[i]).id == id
}

/// Where the row with identifier `id` stands in `s`. Meaningful when
/// `present(s, id)`.
pub open spec fn position(s: Seq<ArticleView>, id: u128) -> int {
    choose|i: int| 0 <= i < s.len() && (#[trigger] s[i]).id == id
}

/// The row with identifier `id`, if there is one.
pub open spec fn lookup(s: Seq<ArticleView>, id: u128) -> Option<ArticleView> {
    if present(s, id) {
        Some(s[position(s, id)])
    } else {
        None
    }
}

/// No two rows share an identifier.
pub open spec fn distinct(s: Seq<ArticleView>) -> bool {
    forall|i: int, j: int|
        0 <= i < j < s.len() ==> (#[trigger] s[i]).id != (#[trigger] s[j]).id
}

/// The test that listing `l` applies to a row.
pub open spec fn shown_by(l: Listing) -> spec_fn(ArticleView) -> bool {
    |a: ArticleView| shows(l, a)
}

/// The rows that listing `l` shows, in table order.
pub open spec fn listed(s: Seq<ArticleView>, l: Listing) -> Seq<ArticleView> {
    s.filter(shown_by(l))
}

/// The table after an update of `id` with patch `p`: the row, if it is
/// there, is patched where it stands.
pub open spec fn updated(s: Seq<ArticleView>, id: u128, p: UpdateArticleView) -> Seq<ArticleView> {
    if present(s, id) {
        s.update(position(s, id), patched(s[position(s, id)], p))
    } else {
        s
    }
}

/// The table after a soft delete of `id` at time `now`: the row, if it is
/// there, is marked where it stands.
pub open spec fn soft_deleted(s: Seq<ArticleView>, id: u128, now: i64) -> Seq<ArticleView> {
    if present(s, id) {
        s.update(position(s, id), retired(s[position(s, id)], now))
    } else {
        s
    }
}

/// The table after a hard delete of `id`: the row, if it is there, is taken
/// out and the others close up.
pub open spec fn deleted(s: Seq<ArticleView>, id: u128) -> Seq<ArticleView> {
    if present(s, id) {
        s.remove(position(s, id))
    } else {
        s
    }
}

/// How many rows a statement that addresses `id` touches: one if the row is
/// there, none otherwise.
pub open spec fn affected(s: Seq<ArticleView>, id: u128) -> nat {
    if present(s, id) {
        1
    } else {
        0
    }
}

/// In a table without duplicates, a row found at `i` is the row that
/// `position` and `lookup` speak of.
pub proof fn lemma_found(s: Seq<ArticleView>, id: u128, i: int)
    requires
        distinct(s),
        0 <= i < s.len(),
        s[i].id == id,
    ensures
        present(s, id),
        position(s, id) == i,
        lookup(s, id) == Some(s[i]),
{
    let p = position(s, id);
    assert(0 <= p < s.len() && s[p].id == id);
    if p < i {
        assert(s[p].id != s[i].id);
    } else if i < p {
        assert(s[i].id != s[p].id);
    }
}

/// The in-memory article table.
pub struct ArticleTable {
    rows: Vec<Article>,
}

impl View for ArticleTable {
    type V = Seq<ArticleView>;

    closed spec fn view(&self) -> Seq<ArticleView> {
        views(self.rows@)
    }
}

impl ArticleTable {
    /// No two rows share an identifier. Every table that this module hands
    /// out is well formed, and every method keeps it so.
    pub open spec fn wf(&self) -> bool {
        distinct(self@)
    }

    /// An empty table.
    pub fn new() -> (t: ArticleTable)
        ensures
            t.wf(),
            t@ == Seq::<ArticleView>::empty(),
    {
        let t = ArticleTable { rows: Vec::new() };
        assert(t@ =~= Seq::<ArticleView>::empty());
        t
    }

    /// The number of rows.
    pub fn len(&self) -> (n: usize)
        ensures
            n == self@.len(),
    {
        self.rows.len()
    }

    /// The index of the row with identifier `id`.
    fn find(&self, id: u128) -> (r: Option<usize>)
        requires
            self.wf(),
        ensures
            match r {
                Some(i) => i < self@.len() && self@[i as int].id == id && position(self@, id) == i
                    && present(self@, id),
                None => !present(self@, id),
            },
    {
        let mut i: usize = 0;
        while i < self.rows.len()
            invariant
                self.wf(),
                i <= self.rows.len(),
                forall|j: int| 0 <= j < i ==> (#[trigger] self@[j]).id != id,
            decreases self.rows.len() - i,
        {
            if self.rows[i].id == id {
                proof {
                    lemma_found(self@, id, i as int);
                }
                return Some(i);
            }
            i += 1;
        }
        None
    }

    /// The row with identifier `id`, if the table has one.
    pub fn get(&self, id: u128) -> (r: Option<Article>)
        requires
            self.wf(),
        ensures
            view_of(r) == lookup(self@, id),
    {
        match self.find(id) {
            Some(i) => Some(self.rows[i].clone()),
            None => None,
        }
    }

    /// The rows that listing `l` shows, in table order.
    pub fn select(&self, l: Listing) -> (out: Vec<Article>)
        ensures
            views(out@) == listed(self@, l),
    {
        let mut out: Vec<Article> = Vec::new();
        let mut i: usize = 0;
        proof {
            reveal(Seq::filter);
            assert(self@.take(0).len() == 0);
            assert(views(out@) =~= listed(self@.take(0), l));
        }
        while i < self.rows.len()
            invariant
                i <= self.rows.len(),
                views(out@) == listed(self@.take(i as int), l),
            decreases self.rows.len() - i,
        {
            let row = &self.rows[i];
            let ghost before = out@;
            proof {
                let prefix = self@.take(i + 1);
                assert(prefix.drop_last() =~= self@.take(i as int));
                assert(prefix.last() == row@);
                reveal(Seq::filter);
            }
            if l.admits(row) {
                out.push(row.clone());
                proof {
                    assert(views(out@) =~= views(before).push(row@));
                }
            }
            i += 1;
        }
        proof {
            assert(self@.take(self.rows.len() as int) =~= self@);
        }
        out
    }

    /// Puts `row` in place of the row at index `i`.
    fn put(&mut self, i: usize, row: Article)
        requires
            i < old(self)@.len(),
        ensures
            final(self)@ == old(self)@.update(i as int, row@),
    {
        let ghost before = views(self.rows@);
        let ghost r = row@;
        self.rows[i] = row;
        proof {
            assert(views(self.rows@) =~= before.update(i as int, r));
        }
    }

    /// Adds `row` behind the others. A row whose identifier is taken is
    /// refused, and the table stays as it was.
    pub fn insert(&mut self, row: Article) -> (r: Result<usize, StoreError>)
        requires
            old(self).wf(),
        ensures
            final(self).wf(),
            present(old(self)@, row.id) ==> r == Err::<usize, StoreError>(StoreError::DuplicateKey)
                && final(self)@ == old(self)@,
            !present(old(self)@, row.id) ==> r == Ok::<usize, StoreError>(1) && final(self)@
                == old(self)@.push(row@),
    {
        match self.find(row.id) {
            Some(_) => Err(StoreError::DuplicateKey),
            None => {
                let ghost before = views(self.rows@);
                let ghost r = row@;
                self.rows.push(row);
                proof {
                    assert(views(self.rows@) =~= before.push(r));
                }
                Ok(1)
            },
        }
    }

    /// Applies `patch` to the row with identifier `id` and returns how many
    /// rows that touched.
    pub fn update(&mut self, id: u128, patch: &UpdateArticle) -> (n: usize)
        requires
            old(self).wf(),
        ensures
            final(self).wf(),
            n == affected(old(self)@, id),
            final(self)@ == updated(old(self)@, id, patch@),
    {
        match self.find(id) {
            Some(i) => {
                let row = self.rows[i].with_patch(patch);
                self.put(i, row);
                1
            },
            None => 0,
        }
    }

    /// Marks the row with identifier `id` as deleted at `now` and returns how
    /// many rows that touched.
    pub fn retire(&mut self, id: u128, now: i64) -> (n: usize)
        requires
            old(self).wf(),
        ensures
            final(self).wf(),
            n == affected(old(self)@, id),
            final(self)@ == soft_deleted(old(self)@, id, now),
    {
        match self.find(id) {
            Some(i) => {
                let row = self.rows[i].retire(now);
                self.put(i, row);
                1
            },
            None => 0,
        }
    }

    /// Removes the row with identifier `id` for good and returns how many
    /// rows that took away.
    pub fn delete(&mut self, id: u128) -> (n: usize)
        requires
            old(self).wf(),
        ensures
            final(self).wf(),
            n == affected(old(self)@, id),
            final(self)@ == deleted(old(self)@, id),
    {
        match self.find(id) {
            Some(i) => {
                let ghost before = views(self.rows@);
                self.rows.remove(i);
                proof {
                    assert(views(self.rows@) =~= before.remove(i as int));
                }
                1
            },
            None => 0,
        }
    }
}

} // verus!
