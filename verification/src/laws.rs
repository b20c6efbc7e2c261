//! What holds of the service as a whole, whatever the requests and the state
//! of the table. Each law is stated over the same functions as the contracts
//! of the operations it speaks of.

use crate::domain::models::post::{PostError, PostView};
use crate::domain::models::post_id::PostId;
use crate::handlers::posts::create_post::requested;
use crate::handlers::posts::get_post::lookup_error;
use crate::handlers::posts::CreatePostView;
use crate::http::NOT_FOUND;
use crate::infra::db::errors::{classify, QueryFailure};
use crate::infra::db::table::{distinct_ids, find, holds, lemma_find_at};
use crate::infra::repositories::post_repository::{
    lemma_filter_agrees, matching, NewPostView, PostsFilterView,
};
use crate::utils::text::{contains_ignoring_case, folded};
use vstd::prelude::*;

verus! {

/// Whether no post of the table is published.
pub open spec fn none_published(rows: Seq<PostView>) -> bool {
    forall|i: int| 0 <= i < rows.len() ==> !(#[trigger] rows[i]).published
}

/// The filter that asks for nothing.
pub open spec fn no_filter() -> PostsFilterView {
    PostsFilterView { published: None, title_contains: None }
}

/// The filter that asks for a text in the title and nothing else.
pub open spec fn title_filter(needle: Seq<char>) -> PostsFilterView {
    PostsFilterView { published: None, title_contains: Some(needle) }
}

/// The filter that asks for a value of the flag and nothing else.
pub open spec fn published_filter(flag: bool) -> PostsFilterView {
    PostsFilterView { published: Some(flag), title_contains: None }
}

/// A post is created unpublished, whatever the request holds, and creating
/// it publishes no other post.
pub proof fn lemma_created_post_is_unpublished(
    rows: Seq<PostView>,
    id: PostId,
    new_post: CreatePostView,
)
    ensures
        !requested(new_post).stored_as(id).published,
        none_published(rows) ==> none_published(rows.push(requested(new_post).stored_as(id))),
{
}

/// An insert stores its post unpublished, whatever the flag of the row that
/// it is handed says, and publishes no other post.
pub proof fn lemma_inserted_post_is_unpublished(
    rows: Seq<PostView>,
    id: PostId,
    new_post: NewPostView,
)
    ensures
        !new_post.unpublished().stored_as(id).published,
        none_published(rows) ==> none_published(rows.push(new_post.unpublished().stored_as(id))),
{
}

/// A post that has just been created under a fresh identifier is found
/// under that identifier, equal in all fields to what the creation returned,
/// and no two posts share an identifier afterwards.
pub proof fn lemma_created_post_is_found(rows: Seq<PostView>, id: PostId, new_post: NewPostView)
    requires
        distinct_ids(rows),
        !holds(rows, id),
    ensures
        distinct_ids(rows.push(new_post.stored_as(id))),
        find(rows.push(new_post.stored_as(id)), id) == Some(new_post.stored_as(id)),
{
    let created = new_post.stored_as(id);
    let after = rows.push(created);
    lemma_find_at(after, rows.len() as int);
}

/// Creating a post leaves every post that was there before to be found as
/// it was.
pub proof fn lemma_earlier_posts_stay(rows: Seq<PostView>, created: PostView, id: PostId)
    requires
        distinct_ids(rows),
        !holds(rows, created.id),
        holds(rows, id),
    ensures
        find(rows.push(created), id) == find(rows, id),
{
    let after = rows.push(created);
    let at = choose|i: int| 0 <= i < rows.len() && (#[trigger] rows[i]).id == id;
    lemma_find_at(rows, at);
    lemma_find_at(after, at);
}

/// An identifier under which no post was ever stored is not found, and the
/// lookup is reported as 404 naming that identifier, never as a failure of
/// the server.
pub proof fn lemma_unknown_id_is_not_found(rows: Seq<PostView>, id: PostId)
    requires
        !holds(rows, id),
    ensures
        find(rows, id) is None,
        lookup_error(id, classify(QueryFailure::NoRow)) == PostError::NotFound(id),
        PostError::NotFound(id).status_code() == NOT_FOUND,
{
}

/// Keeping the rows that meet a condition which all rows meet keeps them all.
proof fn lemma_filter_keeps_all(rows: Seq<PostView>, keep: spec_fn(PostView) -> bool)
    requires
        forall|i: int| 0 <= i < rows.len() ==> keep(#[trigger] rows[i]),
    ensures
        rows.filter(keep) == rows,
    decreases rows.len(),
{
    reveal(Seq::filter);
    if rows.len() > 0 {
        let head = rows.drop_last();
        lemma_filter_keeps_all(head, keep);
    }
}

/// Keeping the rows that meet a condition which no row meets keeps none.
proof fn lemma_filter_keeps_none(rows: Seq<PostView>, keep: spec_fn(PostView) -> bool)
    requires
        forall|i: int| 0 <= i < rows.len() ==> !keep(#[trigger] rows[i]),
    ensures
        rows.filter(keep) == Seq::<PostView>::empty(),
    decreases rows.len(),
{
    reveal(Seq::filter);
    if rows.len() > 0 {
        let head = rows.drop_last();
        lemma_filter_keeps_none(head, keep);
    }
}

/// Listing without a filter returns every stored post exactly once: the
/// listing is the table itself.
pub proof fn lemma_no_filter_lists_all(rows: Seq<PostView>)
    ensures
        matching(rows, no_filter()) == rows,
{
    lemma_filter_keeps_all(rows, |post: PostView| no_filter().accepts(post));
}

/// Listing by title returns exactly the stored posts whose title contains the
/// text when the case of letters is disregarded, every character of the text
/// taken literally: the listing is the table with all other posts left out,
/// so every listed post is such a post of the table, and every such post of
/// the table is listed.
pub proof fn lemma_title_filter_lists_containing(rows: Seq<PostView>, needle: Seq<char>)
    ensures
        matching(rows, title_filter(needle)) == rows.filter(
            |post: PostView| contains_ignoring_case(post.title, needle),
        ),
        forall|post: PostView| #[trigger]
            matching(rows, title_filter(needle)).contains(post) <==> rows.contains(post)
                && contains_ignoring_case(post.title, needle),
        matching(rows, title_filter(needle)).len() <= rows.len(),
{
    let keep = |post: PostView| title_filter(needle).accepts(post);
    let listed = matching(rows, title_filter(needle));
    lemma_filter_agrees(rows, keep, |post: PostView| contains_ignoring_case(post.title, needle));
    rows.lemma_filter_len(keep);
    assert forall|post: PostView| #[trigger]
        listed.contains(post) <==> rows.contains(post) && contains_ignoring_case(
            post.title,
            needle,
        ) by {
        if listed.contains(post) {
            let at = choose|i: int| 0 <= i < listed.len() && listed[i] == post;
            rows.lemma_filter_pred(keep, at);
            rows.lemma_filter_contains_rev(keep, post);
        }
        if rows.contains(post) && contains_ignoring_case(post.title, needle) {
            let at = choose|i: int| 0 <= i < rows.len() && rows[i] == post;
            rows.lemma_filter_contains(keep, at);
        }
    }
}

/// Whether two texts are equal but for the case of their letters.
pub open spec fn equal_up_to_case(a: Seq<char>, b: Seq<char>) -> bool {
    folded(a) == folded(b)
}

/// Whether a title matches a search text does not change when the case of
/// letters changes in the title, in the search text, or in both.
pub proof fn lemma_case_is_disregarded(
    title: Seq<char>,
    other_title: Seq<char>,
    needle: Seq<char>,
    other_needle: Seq<char>,
)
    requires
        equal_up_to_case(title, other_title),
        equal_up_to_case(needle, other_needle),
    ensures
        contains_ignoring_case(title, needle) == contains_ignoring_case(other_title, other_needle),
{
}

/// Two search texts that are equal but for the case of their letters list
/// the same posts.
pub proof fn lemma_case_of_search_text_is_disregarded(
    rows: Seq<PostView>,
    needle: Seq<char>,
    other_needle: Seq<char>,
)
    requires
        equal_up_to_case(needle, other_needle),
    ensures
        matching(rows, title_filter(needle)) == matching(rows, title_filter(other_needle)),
{
    lemma_filter_agrees(
        rows,
        |post: PostView| title_filter(needle).accepts(post),
        |post: PostView| title_filter(other_needle).accepts(post),
    );
}

/// Listing by the flag returns only posts whose flag has the value asked for.
pub proof fn lemma_published_filter_lists_only_flagged(rows: Seq<PostView>, flag: bool)
    ensures
        forall|i: int|
            0 <= i < matching(rows, published_filter(flag)).len() ==> (#[trigger] matching(
                rows,
                published_filter(flag),
            )[i]).published == flag,
{
    let keep = |post: PostView| published_filter(flag).accepts(post);
    assert forall|i: int| 0 <= i < rows.filter(keep).len() implies (#[trigger] rows.filter(
        keep,
    )[i]).published == flag by {
        rows.lemma_filter_pred(keep, i);
    }
}

/// Where no post is published, listing the published posts returns nothing,
/// whatever else the filter asks for.
pub proof fn lemma_nothing_published_lists_nothing(rows: Seq<PostView>, filter: PostsFilterView)
    requires
        none_published(rows),
        filter.published == Some(true),
    ensures
        matching(rows, filter) == Seq::<PostView>::empty(),
{
    lemma_filter_keeps_none(rows, |post: PostView| filter.accepts(post));
}

/// One creation: the identifier that the store assigns and what the
/// request holds.
pub struct Creation {
    pub id: PostId,
    pub request: CreatePostView,
}

impl Creation {
    /// The post that the creation stores.
    pub open spec fn post(self) -> PostView {
        requested(self.request).stored_as(self.id)
    }
}

/// The table after a run of creations on a table that was empty: a creation
/// whose identifier is fresh adds its post, any other fails and changes
/// nothing.
pub open spec fn after_creations(creations: Seq<Creation>) -> Seq<PostView>
    decreases creations.len(),
{
    if creations.len() == 0 {
        Seq::empty()
    } else {
        let before = after_creations(creations.drop_last());
        if holds(before, creations.last().id) {
            before
        } else {
            before.push(creations.last().post())
        }
    }
}

/// Whatever is created and in whatever order, no two posts share an
/// identifier and no post is published; so listing the published posts
/// returns nothing as long as posts are only created.
pub proof fn lemma_creations_publish_nothing(creations: Seq<Creation>, filter: PostsFilterView)
    requires
        filter.published == Some(true),
    ensures
        distinct_ids(after_creations(creations)),
        none_published(after_creations(creations)),
        matching(after_creations(creations), filter) == Seq::<PostView>::empty(),
    decreases creations.len(),
{
    if creations.len() > 0 {
        let before = after_creations(creations.drop_last());
        let last = creations.last();
        lemma_creations_publish_nothing(creations.drop_last(), filter);
        if !holds(before, last.id) {
            lemma_created_post_is_found(before, last.id, requested(last.request));
            lemma_created_post_is_unpublished(before, last.id, last.request);
        }
    }
    lemma_nothing_published_lists_nothing(after_creations(creations), filter);
}

/// A post that was created is found under its identifier ever after, equal
/// in all fields to what its creation returned, whatever is created later.
pub proof fn lemma_created_posts_stay_found(creations: Seq<Creation>, k: int)
    requires
        0 <= k < creations.len(),
        !holds(after_creations(creations.take(k)), creations[k].id),
    ensures
        find(after_creations(creations), creations[k].id) == Some(creations[k].post()),
    decreases creations.len(),
{
    let head = creations.drop_last();
    let before = after_creations(head);
    let last = creations.last();
    lemma_creations_publish_nothing(head, published_filter(true));
    if k == creations.len() - 1 {
        lemma_created_post_is_found(before, last.id, requested(last.request));
    } else {
        assert(head.take(k) =~= creations.take(k));
        lemma_created_posts_stay_found(head, k);
        if !holds(before, last.id) {
            lemma_earlier_posts_stay(before, last.post(), creations[k].id);
        }
    }
}

} // verus!
