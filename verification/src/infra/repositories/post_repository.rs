//! The posts table: its rows, the statements run against it, and the mapping
//! between what the store answers and what the domain is told.

use crate::domain::models::post::{PostModel, PostView};
use crate::domain::models::post_id::PostId;
use crate::infra::db::errors::{classify, db_internal_error, diesel_error, DbError, QueryFailure};
use crate::infra::db::like::{contains_pattern, ilike, like_pattern, lemma_contains_pattern_ignoring_case};
use crate::infra::db::table::{distinct_ids, find, holds, PostTable};
use crate::utils::text::{contains_ignoring_case, contains_text};
use vstd::prelude::*;

verus! {

/// A row of the posts table.
#[derive(Debug, Clone, PartialEq, Eq)]
pub struct PostDb {
    pub id: PostId,
    pub title: String,
    pub body: String,
    pub published: bool,
}

impl View for PostDb {
    type V = PostView;

    open spec fn view(&self) -> PostView {
        PostView { id: self.id, title: self.title@, body: self.body@, published: self.published }
    }
}

impl DeepView for PostDb {
    type V = PostView;

    open spec fn deep_view(&self) -> PostView {
        self@
    }
}

impl DeepView for PostModel {
    type V = PostView;

    open spec fn deep_view(&self) -> PostView {
        self@
    }
}

/// A row about to be inserted; the store assigns the identifier.
#[derive(Debug, Clone, PartialEq, Eq)]
pub struct NewPostDb {
    pub title: String,
    pub body: String,
    pub published: bool,
}

/// The mathematical content of a row about to be inserted.
pub struct NewPostView {
    pub title: Seq<char>,
    pub body: Seq<char>,
    pub published: bool,
}

impl NewPostView {
    /// The row this becomes once the store has given it an identifier.
    pub open spec fn stored_as(self, id: PostId) -> PostView {
        PostView { id, title: self.title, body: self.body, published: self.published }
    }

    /// The same title and body, not published.
    pub open spec fn unpublished(self) -> NewPostView {
        NewPostView { title: self.title, body: self.body, published: false }
    }
}

impl View for NewPostDb {
    type V = NewPostView;

    open spec fn view(&self) -> NewPostView {
        NewPostView { title: self.title@, body: self.body@, published: self.published }
    }
}

impl NewPostDb {
    /// The row as an insert stores it: the same title and body, not
    /// published, whatever the flag of the row says.
    pub fn unpublished(self) -> (row: NewPostDb)
        ensures
            row@ == self@.unpublished(),
            !row.published,
    {
        NewPostDb { title: self.title, body: self.body, published: false }
    }
}

/// What a caller may ask of a listing. With both parts absent every post is
/// listed.
#[derive(Debug, Clone, PartialEq, Eq)]
pub struct PostsFilter {
    /// Keep only posts whose flag has this value.
    pub published: Option<bool>,
    /// Keep only posts whose title contains this text, every character of it
    /// taken literally, with the case of letters disregarded on both sides.
    pub title_contains: Option<String>,
}

/// The mathematical content of a filter.
pub struct PostsFilterView {
    pub published: Option<bool>,
    pub title_contains: Option<Seq<char>>,
}

impl View for PostsFilter {
    type V = PostsFilterView;

    open spec fn view(&self) -> PostsFilterView {
        PostsFilterView {
            published: self.published,
            title_contains: match self.title_contains {
                Some(needle) => Some(needle@),
                None => None,
            },
        }
    }
}

impl PostsFilterView {
    /// Whether a post passes the filter: both parts must hold where present.
    pub open spec fn accepts(self, post: PostView) -> bool {
        &&& self.published matches Some(flag) ==> post.published == flag
        &&& self.title_contains matches Some(needle) ==> contains_ignoring_case(post.title, needle)
    }
}

impl PostsFilter {
    /// Whether a post passes the filter.
    pub fn accepts(&self, post: &PostModel) -> (passes: bool)
        ensures
            passes == self@.accepts(post@),
    {
        let flag_ok = match self.published {
            Some(flag) => post.published == flag,
            None => true,
        };
        let title_ok = match &self.title_contains {
            Some(needle) => contains_text(post.title.as_str(), needle.as_str()),
            None => true,
        };
        flag_ok && title_ok
    }
}

/// The posts among `rows` that pass `filter`, in the order of `rows`.
pub open spec fn matching(rows: Seq<PostView>, filter: PostsFilterView) -> Seq<PostView> {
    rows.filter(|post: PostView| filter.accepts(post))
}

/// The conditions of a `SELECT` on the posts table: `published = ..` and
/// `title ILIKE ..`, each present or not, joined by `AND`.
#[derive(Debug, Clone, PartialEq, Eq)]
pub struct PostsQuery {
    pub published: Option<bool>,
    pub title_like: Option<String>,
}

/// The mathematical content of a query.
pub struct PostsQueryView {
    pub published: Option<bool>,
    pub title_like: Option<Seq<char>>,
}

impl View for PostsQuery {
    type V = PostsQueryView;

    open spec fn view(&self) -> PostsQueryView {
        PostsQueryView {
            published: self.published,
            title_like: match self.title_like {
                Some(pattern) => Some(pattern@),
                None => None,
            },
        }
    }
}

impl PostsQueryView {
    /// Whether a row meets the conditions.
    pub open spec fn accepts(self, row: PostView) -> bool {
        &&& self.published matches Some(flag) ==> row.published == flag
        &&& self.title_like matches Some(pattern) ==> ilike(pattern, row.title)
    }
}

/// The rows among `rows` that meet the conditions of `query`, in the order of
/// `rows`.
pub open spec fn selected(rows: Seq<PostView>, query: PostsQueryView) -> Seq<PostView> {
    rows.filter(|row: PostView| query.accepts(row))
}

/// The query that a filter is turned into.
pub open spec fn query_for(filter: PostsFilterView) -> PostsQueryView {
    PostsQueryView {
        published: filter.published,
        title_like: match filter.title_contains {
            Some(needle) => Some(contains_pattern(needle)),
            None => None,
        },
    }
}

/// Turns a filter into the conditions of the statement: the flag is compared
/// as it is, the text becomes a pattern that matches the titles containing it.
pub fn posts_query(filter: PostsFilter) -> (query: PostsQuery)
    ensures
        query@ == query_for(filter@),
{
    let title_like = match filter.title_contains {
        Some(title_contains) => Some(like_pattern(title_contains.as_str())),
        None => None,
    };
    PostsQuery { published: filter.published, title_like }
}

/// The query built from a filter accepts exactly the posts that pass the
/// filter.
pub proof fn lemma_query_accepts_what_filter_accepts(filter: PostsFilterView, post: PostView)
    ensures
        query_for(filter).accepts(post) == filter.accepts(post),
{
    if let Some(needle) = filter.title_contains {
        lemma_contains_pattern_ignoring_case(needle, post.title);
    }
}

/// Filtering by two conditions that agree on every element gives the same
/// result.
pub proof fn lemma_filter_agrees(
    rows: Seq<PostView>,
    p: spec_fn(PostView) -> bool,
    q: spec_fn(PostView) -> bool,
)
    requires
        forall|row: PostView| #[trigger] p(row) == q(row),
    ensures
        rows.filter(p) == rows.filter(q),
    decreases rows.len(),
{
    reveal(Seq::filter);
    if rows.len() > 0 {
        lemma_filter_agrees(rows.drop_last(), p, q);
    }
}

/// Running the query built from a filter selects exactly the posts that pass
/// the filter, each once and in the order of the table.
pub proof fn lemma_query_selects_matching(rows: Seq<PostView>, filter: PostsFilterView)
    ensures
        selected(rows, query_for(filter)) == matching(rows, filter),
{
    let query = query_for(filter);
    assert forall|row: PostView| query.accepts(row) == filter.accepts(row) by {
        lemma_query_accepts_what_filter_accepts(filter, row);
    }
    lemma_filter_agrees(
        rows,
        |row: PostView| query.accepts(row),
        |post: PostView| filter.accepts(post),
    );
}

/// What came of handing one statement to the store.
#[derive(Debug, PartialEq, Eq)]
pub enum StoreReply<T> {
    /// The pool had no connection to give.
    NoConnection,
    /// The connection was lost while the statement ran.
    Interrupted,
    /// The statement ran to its end, well or badly.
    Answered(Result<T, QueryFailure>),
}

impl<T> StoreReply<T> {
    /// Whether the statement returned what it was run for.
    pub open spec fn succeeded(self) -> bool {
        self matches StoreReply::Answered(Ok(_))
    }

    /// The error that the reply to a point lookup stands for, if it stands
    /// for one: a lookup that found no row is `NotFound`, every other failure
    /// of the statement and everything before the statement is an internal
    /// error.
    pub open spec fn lookup_error(self) -> Option<DbError> {
        match self {
            StoreReply::NoConnection => Some(DbError::InternalServerError),
            StoreReply::Interrupted => Some(DbError::InternalServerError),
            StoreReply::Answered(Err(failure)) => Some(classify(failure)),
            StoreReply::Answered(Ok(_)) => None,
        }
    }

    /// Sorts the reply to a point lookup into what the statement returned and
    /// the error it stands for.
    pub fn settle_lookup(self) -> (result: Result<T, DbError>)
        ensures
            match result {
                Ok(value) => self == StoreReply::Answered(Ok(value)),
                Err(error) => self.lookup_error() == Some(error),
            },
    {
        match self {
            StoreReply::NoConnection => Err(db_internal_error(())),
            StoreReply::Interrupted => Err(db_internal_error(())),
            StoreReply::Answered(Err(failure)) => Err(diesel_error(failure)),
            StoreReply::Answered(Ok(value)) => Ok(value),
        }
    }

    /// Sorts the reply to a write or a listing into what the statement
    /// returned and an internal error: such a statement has no row to miss,
    /// so whatever failed, it is a failure of the store.
    pub fn settle(self) -> (result: Result<T, DbError>)
        ensures
            match result {
                Ok(value) => self == StoreReply::Answered(Ok(value)),
                Err(error) => !self.succeeded() && error == DbError::InternalServerError,
            },
    {
        match self {
            StoreReply::NoConnection => Err(db_internal_error(())),
            StoreReply::Interrupted => Err(db_internal_error(())),
            StoreReply::Answered(Err(failure)) => Err(db_internal_error(failure)),
            StoreReply::Answered(Ok(value)) => Ok(value),
        }
    }
}

/// A row as the domain sees it: the same post, field for field.
pub fn adapt_post_db_to_post(post_db: PostDb) -> (post: PostModel)
    ensures
        post@ == post_db@,
{
    PostModel {
        id: post_db.id,
        title: post_db.title,
        body: post_db.body,
        published: post_db.published,
    }
}

/// Rows as the domain sees them: the same posts in the same order.
pub fn adapt_rows(rows: Vec<PostDb>) -> (posts: Vec<PostModel>)
    ensures
        posts.deep_view() == rows.deep_view(),
{
    let mut posts: Vec<PostModel> = Vec::new();
    let ghost all = rows.deep_view();
    for row in it: rows
        invariant
            it.seq().len() == all.len(),
            forall|i: int| 0 <= i < all.len() ==> (#[trigger] it.seq()[i])@ == all[i],
            posts.len() == it.index(),
            forall|i: int| 0 <= i < posts.len() ==> (#[trigger] posts[i])@ == all[i],
    {
        posts.push(adapt_post_db_to_post(row));
    }
    posts
}

/// What the domain is told when the store has answered a point lookup: the
/// post, `NotFound` where the lookup found no row, an internal error for
/// every other failure.
pub fn one_post(reply: StoreReply<PostDb>) -> (result: Result<PostModel, DbError>)
    ensures
        match result {
            Ok(post) => reply matches StoreReply::Answered(Ok(row)) && post@ == row@,
            Err(error) => reply.lookup_error() == Some(error),
        },
{
    match reply.settle_lookup() {
        Ok(row) => Ok(adapt_post_db_to_post(row)),
        Err(error) => Err(error),
    }
}

/// What the domain is told when the store has answered an insert: the post
/// as stored, or an internal error whatever failed.
pub fn inserted_post(reply: StoreReply<PostDb>) -> (result: Result<PostModel, DbError>)
    ensures
        match result {
            Ok(post) => reply matches StoreReply::Answered(Ok(row)) && post@ == row@,
            Err(error) => !reply.succeeded() && error == DbError::InternalServerError,
        },
{
    match reply.settle() {
        Ok(row) => Ok(adapt_post_db_to_post(row)),
        Err(error) => Err(error),
    }
}

/// What the domain is told when the store has answered a listing: the posts
/// in the order of the rows, or an internal error whatever failed.
pub fn many_posts(reply: StoreReply<Vec<PostDb>>) -> (result: Result<Vec<PostModel>, DbError>)
    ensures
        match result {
            Ok(posts) => reply matches StoreReply::Answered(Ok(rows)) && posts.deep_view()
                == rows.deep_view(),
            Err(error) => !reply.succeeded() && error == DbError::InternalServerError,
        },
{
    match reply.settle() {
        Ok(rows) => Ok(adapt_rows(rows)),
        Err(error) => Err(error),
    }
}

/// Inserts a post under the identifier that the store assigns to it and
/// returns the post as stored. The post is stored unpublished, whatever the
/// flag of the row says. An identifier that is already taken fails the write
/// with `InternalServerError` and leaves the table as it was.
pub fn insert(table: &mut PostTable, id: PostId, new_post: NewPostDb) -> (result: Result<
    PostModel,
    DbError,
>)
    ensures
        match result {
            Ok(post) => {
                &&& !holds(old(table)@, id)
                &&& post@ == new_post@.unpublished().stored_as(id)
                &&& !post.published
                &&& final(table)@ == old(table)@.push(post@)
            },
            Err(error) => {
                &&& holds(old(table)@, id)
                &&& error == DbError::InternalServerError
                &&& final(table)@ == old(table)@
            },
        },
        distinct_ids(final(table)@),
{
    let reply = StoreReply::Answered(table.insert_returning(id, new_post.unpublished()));
    inserted_post(reply)
}

/// Fetches the post with the identifier. It fails with `NotFound` exactly
/// when no post has the identifier, and in no other way.
pub fn get(table: &PostTable, id: PostId) -> (result: Result<PostModel, DbError>)
    ensures
        match result {
            Ok(post) => find(table@, id) == Some(post@),
            Err(error) => error == DbError::NotFound && !holds(table@, id),
        },
        distinct_ids(table@),
{
    let reply = StoreReply::Answered(table.select_by_id(id));
    one_post(reply)
}

/// Lists the posts that pass the filter, each once, in the order of the
/// table. Nothing matching is an empty list, not an error.
pub fn get_all(table: &PostTable, filter: PostsFilter) -> (result: Result<Vec<PostModel>, DbError>)
    ensures
        result matches Ok(posts) && posts.deep_view() == matching(table@, filter@),
        distinct_ids(table@),
{
    let query = posts_query(filter);
    let reply = StoreReply::Answered(table.select(&query));
    proof {
        lemma_query_selects_matching(table@, filter@);
    }
    many_posts(reply)
}

} // verus!
