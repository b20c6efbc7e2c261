//! The posts table held in memory. It answers the three statements of the
//! repository the way the relational store does, so that the rules above it
//! can be exercised without a database.

use crate::domain::models::post::PostView;
use crate::domain::models::post_id::PostId;
use crate::infra::db::errors::QueryFailure;
use crate::infra::db::like::ilike_text;
use crate::infra::repositories::post_repository::{selected, NewPostDb, PostDb, PostsQuery};
use vstd::prelude::*;

verus! {

/// Whether some row has the identifier.
pub open spec fn holds(rows: Seq<PostView>, id: PostId) -> bool {
    exists|i: int| 0 <= i < rows.len() && (#[trigger] rows[i]).id == id
}

/// The row with the identifier, if there is one.
pub open spec fn find(rows: Seq<PostView>, id: PostId) -> Option<PostView> {
    if holds(rows, id) {
        Some(rows[choose|i: int| 0 <= i < rows.len() && (#[trigger] rows[i]).id == id])
    } else {
        None
    }
}

/// Whether no two rows share an identifier.
pub open spec fn distinct_ids(rows: Seq<PostView>) -> bool {
    forall|i: int, j: int|
        0 <= i < j < rows.len() ==> (#[trigger] rows[i]).id != (#[trigger] rows[j]).id
}

/// In a table without duplicates, the row at a position is the row found
/// under its identifier.
pub proof fn lemma_find_at(rows: Seq<PostView>, at: int)
    requires
        distinct_ids(rows),
        0 <= at < rows.len(),
    ensures
        find(rows, rows[at].id) == Some(rows[at]),
{
    assert(holds(rows, rows[at].id));
}

/// The rows of the posts table, in the order in which they were inserted. No
/// two rows share an identifier.
pub struct PostTable {
    rows: Vec<PostDb>,
}

impl View for PostTable {
    type V = Seq<PostView>;

    closed spec fn view(&self) -> Seq<PostView> {
        self.rows.deep_view()
    }
}

/// A copy of a row.
fn copy_row(row: &PostDb) -> (copy: PostDb)
    ensures
        copy@ == row@,
{
    PostDb {
        id: row.id,
        title: row.title.clone(),
        body: row.body.clone(),
        published: row.published,
    }
}

impl PostTable {
    #[verifier::type_invariant]
    spec fn well_formed(&self) -> bool {
        distinct_ids(self.rows.deep_view())
    }

    /// A table without rows.
    pub fn new() -> (table: PostTable)
        ensures
            table@ == Seq::<PostView>::empty(),
            distinct_ids(table@),
    {
        let table = PostTable { rows: Vec::new() };
        table
    }

    /// A table that holds the given rows, in their order: a store that is
    /// found with contents. There is no such table where two rows share an
    /// identifier.
    pub fn from_rows(rows: Vec<PostDb>) -> (table: Option<PostTable>)
        ensures
            match table {
                Some(table) => distinct_ids(rows.deep_view()) && table@ == rows.deep_view(),
                None => !distinct_ids(rows.deep_view()),
            },
    {
        let mut j: usize = 0;
        while j < rows.len()
            invariant
                j <= rows.len(),
                forall|a: int, b: int|
                    0 <= a < b < j ==> (#[trigger] rows[a]).id != (#[trigger] rows[b]).id,
            decreases rows.len() - j,
        {
            let mut i: usize = 0;
            while i < j
                invariant
                    i <= j < rows.len(),
                    forall|a: int| 0 <= a < i ==> (#[trigger] rows[a]).id != rows[j as int].id,
                decreases j - i,
            {
                if rows[i].id == rows[j].id {
                    assert(rows.deep_view()[i as int].id == rows.deep_view()[j as int].id);
                    return None;
                }
                i += 1;
            }
            j += 1;
        }
        assert(distinct_ids(rows.deep_view())) by {
            let views = rows.deep_view();
            assert forall|a: int, b: int| 0 <= a < b < views.len() implies (#[trigger] views[a]).id
                != (#[trigger] views[b]).id by {
                assert(views[a].id == rows[a].id);
                assert(views[b].id == rows[b].id);
            }
        }
        Some(PostTable { rows })
    }

    /// The number of rows. No two of them share an identifier.
    pub fn len(&self) -> (count: usize)
        ensures
            count == self@.len(),
            distinct_ids(self@),
    {
        proof {
            use_type_invariant(self);
        }
        self.rows.len()
    }

    /// `INSERT .. RETURNING`: adds a row under the identifier and returns it
    /// as stored. The row is stored unpublished, whatever its flag says. An
    /// identifier that is already taken fails the statement and leaves the
    /// table as it was.
    pub fn insert_returning(&mut self, id: PostId, new_post: NewPostDb) -> (result: Result<
        PostDb,
        QueryFailure,
    >)
        ensures
            match result {
                Ok(row) => {
                    &&& !holds(old(self)@, id)
                    &&& row@ == new_post@.unpublished().stored_as(id)
                    &&& !row.published
                    &&& final(self)@ == old(self)@.push(row@)
                },
                Err(failure) => {
                    &&& holds(old(self)@, id)
                    &&& failure == QueryFailure::Other
                    &&& final(self)@ == old(self)@
                },
            },
            distinct_ids(final(self)@),
    {
        proof {
            use_type_invariant(&*self);
        }
        let mut i: usize = 0;
        while i < self.rows.len()
            invariant
                i <= self.rows.len(),
                self.rows == old(self).rows,
                distinct_ids(self@),
                forall|k: int| 0 <= k < i ==> (#[trigger] self.rows[k]).id != id,
            decreases self.rows.len() - i,
        {
            if self.rows[i].id == id {
                assert(self@[i as int].id == id);
                return Err(QueryFailure::Other);
            }
            i += 1;
        }
        let row = PostDb { id, title: new_post.title, body: new_post.body, published: false };
        let stored = copy_row(&row);
        let ghost before = self.rows.deep_view();
        let mut rows: Vec<PostDb> = Vec::new();
        std::mem::swap(&mut self.rows, &mut rows);
        rows.push(row);
        assert(rows.deep_view() =~= before.push(stored@));
        self.rows = rows;
        Ok(stored)
    }

    /// `SELECT .. WHERE id = ..`: the row with the identifier, or the failure
    /// that says there is none.
    pub fn select_by_id(&self, id: PostId) -> (result: Result<PostDb, QueryFailure>)
        ensures
            match result {
                Ok(row) => find(self@, id) == Some(row@),
                Err(failure) => failure == QueryFailure::NoRow && !holds(self@, id),
            },
            distinct_ids(self@),
    {
        proof {
            use_type_invariant(self);
        }
        let mut i: usize = 0;
        while i < self.rows.len()
            invariant
                i <= self.rows.len(),
                distinct_ids(self@),
                forall|k: int| 0 <= k < i ==> (#[trigger] self.rows[k]).id != id,
            decreases self.rows.len() - i,
        {
            if self.rows[i].id == id {
                let row = copy_row(&self.rows[i]);
                proof {
                    lemma_find_at(self@, i as int);
                }
                return Ok(row);
            }
            i += 1;
        }
        Err(QueryFailure::NoRow)
    }

    /// `SELECT .. WHERE ..`: the rows that meet the conditions of the query,
    /// in the order of the table.
    pub fn select(&self, query: &PostsQuery) -> (result: Result<Vec<PostDb>, QueryFailure>)
        ensures
            result matches Ok(rows) && rows.deep_view() == selected(self@, query@),
            distinct_ids(self@),
    {
        proof {
            use_type_invariant(self);
        }
        let mut rows: Vec<PostDb> = Vec::new();
        let mut i: usize = 0;
        proof {
            reveal(Seq::filter);
        }
        while i < self.rows.len()
            invariant
                i <= self.rows.len(),
                rows.deep_view() == selected(self@.take(i as int), query@),
            decreases self.rows.len() - i,
        {
            let row = &self.rows[i];
            let flag_ok = match query.published {
                Some(flag) => row.published == flag,
                None => true,
            };
            let title_ok = match &query.title_like {
                Some(pattern) => ilike_text(pattern.as_str(), row.title.as_str()),
                None => true,
            };
            proof {
                reveal(Seq::filter);
                assert(self@.take(i + 1).drop_last() =~= self@.take(i as int));
            }
            if flag_ok && title_ok {
                rows.push(copy_row(row));
            }
            i += 1;
        }
        assert(self@.take(self@.len() as int) =~= self@);
        Ok(rows)
    }
}

} // verus!
