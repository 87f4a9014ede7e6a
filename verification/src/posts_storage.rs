//! The snapshot store: an append-only record of observed posts and of the
//! posts that each crawl cycle found on the front page, with the queries that
//! are answered from it.

use crate::hackernews_core::{post_views, DateTime, Post, PostId, PostView, UserPostRequest};
use crate::sequence::reverse;
use vstd::prelude::*;

verus! {

/// One entry of the front-page log: `post_id` was on the first page in the
/// cycle that ran at `snapshot_moment`.
#[derive(Clone, Copy, Debug, PartialEq, Eq, Structural)]
pub struct FirstPageEntry {
    pub post_id: PostId,
    pub snapshot_moment: DateTime,
}

/// Which rows a query returns.
pub ghost enum Selection {
    /// The posts on the front page of the latest cycle that recorded one.
    CurrentTop,
    /// Every post of a user.
    UserAll { user: Seq<char> },
    /// The posts of a user that were on the front page at some moment.
    UserWasAtFirstPage { user: Seq<char> },
}

/// The selection that a request for a user's posts asks for.
pub open spec fn selection_of(request: UserPostRequest) -> Selection {
    match request {
        UserPostRequest::All { user } => Selection::UserAll { user: user@ },
        UserPostRequest::WasAtFirstPage { user } => Selection::UserWasAtFirstPage { user: user@ },
    }
}

/// What the store holds: the observations in the order in which they were
/// made, and the front-page log in the order in which it was written.
pub ghost struct Snapshot {
    pub posts: Seq<PostView>,
    pub first_page: Seq<FirstPageEntry>,
}

impl Snapshot {
    /// The store before anything was observed.
    pub open spec fn empty() -> Snapshot {
        Snapshot { posts: Seq::empty(), first_page: Seq::empty() }
    }

    /// The store after one more observation: one more row, and one more log
    /// entry at the row's snapshot moment if the post was on the first page.
    pub open spec fn observe(self, post: PostView, is_first_page: bool) -> Snapshot {
        Snapshot {
            posts: self.posts.push(post),
            first_page: if is_first_page {
                self.first_page.push(
                    FirstPageEntry {
                        post_id: post.post_id,
                        snapshot_moment: post.last_snapshot_moment,
                    },
                )
            } else {
                self.first_page
            },
        }
    }

    /// `moment` is the latest snapshot moment in the front-page log.
    pub open spec fn is_latest(self, moment: DateTime) -> bool {
        &&& exists|i: int|
            0 <= i < self.first_page.len() && (#[trigger] self.first_page[i]).snapshot_moment
                == moment
        &&& forall|j: int|
            0 <= j < self.first_page.len() ==> (#[trigger] self.first_page[j]).snapshot_moment.not_after(
                moment,
            )
    }

    /// `post_id` was on the first page at `moment`.
    pub open spec fn was_first_page_at(self, post_id: PostId, moment: DateTime) -> bool {
        exists|i: int|
            0 <= i < self.first_page.len() && #[trigger] self.first_page[i] == (FirstPageEntry {
                post_id,
                snapshot_moment: moment,
            })
    }

    /// `post_id` is on the front page of the latest cycle that recorded one.
    pub open spec fn is_current(self, post_id: PostId) -> bool {
        exists|moment: DateTime| #[trigger]
            self.is_latest(moment) && self.was_first_page_at(post_id, moment)
    }

    /// `post_id` was on the first page in some cycle.
    pub open spec fn was_ever_first_page(self, post_id: PostId) -> bool {
        exists|i: int|
            0 <= i < self.first_page.len() && (#[trigger] self.first_page[i]).post_id == post_id
    }

    /// `row` belongs to `selection`.
    pub open spec fn keeps(self, selection: Selection, row: PostView) -> bool {
        match selection {
            Selection::CurrentTop => self.is_current(row.post_id),
            Selection::UserAll { user } => row.author == user,
            Selection::UserWasAtFirstPage { user } => row.author == user
                && self.was_ever_first_page(row.post_id),
        }
    }

    /// The rows among the first `posts` that belong to `selection`, ordered by
    /// publication moment, rows of one moment in the order of observation.
    pub open spec fn select_from(self, selection: Selection, posts: Seq<PostView>) -> Seq<
        PostView,
    >
        decreases posts.len(),
    {
        if posts.len() == 0 {
            Seq::empty()
        } else {
            let earlier = self.select_from(selection, posts.drop_last());
            if self.keeps(selection, posts.last()) {
                insert_by_publication(earlier, posts.last())
            } else {
                earlier
            }
        }
    }

    /// What a query for `selection` returns.
    pub open spec fn rows(self, selection: Selection) -> Seq<PostView> {
        self.select_from(selection, self.posts)
    }
}

/// `rows` with `row` put behind the last row that was not published after it.
pub open spec fn insert_by_publication(rows: Seq<PostView>, row: PostView) -> Seq<PostView>
    decreases rows.len(),
{
    if rows.len() == 0 {
        seq![row]
    } else if row.publication_moment.precedes(rows.last().publication_moment) {
        insert_by_publication(rows.drop_last(), row).push(rows.last())
    } else {
        rows.push(row)
    }
}

/// The rows are in the order of their publication moments.
pub open spec fn ordered_by_publication(rows: Seq<PostView>) -> bool {
    forall|i: int, j: int|
        0 <= i < j < rows.len() ==> (#[trigger] rows[i]).publication_moment.not_after(
            (#[trigger] rows[j]).publication_moment,
        )
}

/// Inserting by publication moment puts the row at `at`, where every row
/// from `at` on was published after it and the row before `at` was not.
proof fn lemma_insert_position(rows: Seq<PostView>, row: PostView, at: int)
    requires
        0 <= at <= rows.len(),
        forall|k: int|
            at <= k < rows.len() ==> row.publication_moment.precedes(
                (#[trigger] rows[k]).publication_moment,
            ),
        at > 0 ==> !row.publication_moment.precedes(rows[at - 1].publication_moment),
    ensures
        insert_by_publication(rows, row) == rows.insert(at, row),
    decreases rows.len(),
{
    if rows.len() == 0 {
        assert(rows.insert(at, row) =~= seq![row]);
    } else if at == rows.len() {
        assert(rows.insert(at, row) =~= rows.push(row));
    } else {
        lemma_insert_position(rows.drop_last(), row, at);
        assert(rows.insert(at, row) =~= rows.drop_last().insert(at, row).push(rows.last()));
    }
}


/// Two moments that are both the latest in one log are the same moment.
proof fn lemma_latest_is_unique(snapshot: Snapshot, first: DateTime, second: DateTime)
    requires
        snapshot.is_latest(first),
        snapshot.is_latest(second),
    ensures
        first == second,
{
    let i = choose|i: int|
        0 <= i < snapshot.first_page.len() && (#[trigger] snapshot.first_page[i]).snapshot_moment
            == first;
    let j = choose|j: int|
        0 <= j < snapshot.first_page.len() && (#[trigger] snapshot.first_page[j]).snapshot_moment
            == second;
    assert(snapshot.first_page[i].snapshot_moment.not_after(second));
    assert(snapshot.first_page[j].snapshot_moment.not_after(first));
}

/// The selection that `collect` serves for a request: the current front page
/// where there is none.
spec fn selection_for(request: Option<&UserPostRequest>) -> Selection {
    match request {
        Some(request) => selection_of(*request),
        None => Selection::CurrentTop,
    }
}

/// A snapshot store that lives in memory.
pub struct SnapshotStore {
    posts: Vec<Post>,
    first_page_posts: Vec<FirstPageEntry>,
}

impl View for SnapshotStore {
    type V = Snapshot;

    closed spec fn view(&self) -> Snapshot {
        Snapshot { posts: post_views(self.posts@), first_page: self.first_page_posts@ }
    }
}

impl SnapshotStore {
    /// A store in which nothing was observed yet.
    pub fn new() -> (store: SnapshotStore)
        ensures
            store@ == Snapshot::empty(),
    {
        let store = SnapshotStore { posts: Vec::new(), first_page_posts: Vec::new() };
        assert(store@.posts =~= Seq::empty());
        store
    }

    /// The number of observations in the store.
    pub fn post_count(&self) -> (count: usize)
        ensures
            count == self@.posts.len(),
    {
        self.posts.len()
    }

    /// The latest snapshot moment in the front-page log, if the log has an
    /// entry.
    pub fn latest_snapshot_moment(&self) -> (latest: Option<DateTime>)
        ensures
            match latest {
                Some(moment) => self@.is_latest(moment),
                None => self@.first_page.len() == 0,
            },
    {
        if self.first_page_posts.len() == 0 {
            return None;
        }
        let mut latest: DateTime = self.first_page_posts[0].snapshot_moment;
        let ghost mut witness: int = 0;
        let mut i: usize = 1;
        while i < self.first_page_posts.len()
            invariant
                1 <= i <= self.first_page_posts.len(),
                0 <= witness < i,
                self.first_page_posts[witness].snapshot_moment == latest,
                forall|j: int|
                    0 <= j < i ==> (#[trigger] self.first_page_posts[j]).snapshot_moment.not_after(
                        latest,
                    ),
            decreases self.first_page_posts.len() - i,
        {
            let moment = self.first_page_posts[i].snapshot_moment;
            if latest.is_before(&moment) {
                latest = moment;
                proof {
                    witness = i as int;
                }
            }
            i += 1;
        }
        assert(self@.first_page[witness].snapshot_moment == latest);
        Some(latest)
    }

    /// Tells whether the log records `post_id` on the first page at `moment`.
    fn logged_at(&self, post_id: PostId, moment: DateTime) -> (found: bool)
        ensures
            found == self@.was_first_page_at(post_id, moment),
    {
        let mut i: usize = 0;
        while i < self.first_page_posts.len()
            invariant
                i <= self.first_page_posts.len(),
                forall|j: int|
                    0 <= j < i ==> #[trigger] self.first_page_posts[j] != (FirstPageEntry {
                        post_id,
                        snapshot_moment: moment,
                    }),
            decreases self.first_page_posts.len() - i,
        {
            let entry = self.first_page_posts[i];
            if entry.post_id == post_id && entry.snapshot_moment.seconds == moment.seconds
                && entry.snapshot_moment.nanos == moment.nanos {
                assert(self@.first_page[i as int] == (FirstPageEntry {
                    post_id,
                    snapshot_moment: moment,
                }));
                return true;
            }
            i += 1;
        }
        false
    }

    /// Tells whether the log records `post_id` on the first page at any
    /// moment.
    fn logged(&self, post_id: PostId) -> (found: bool)
        ensures
            found == self@.was_ever_first_page(post_id),
    {
        let mut i: usize = 0;
        while i < self.first_page_posts.len()
            invariant
                i <= self.first_page_posts.len(),
                forall|j: int|
                    0 <= j < i ==> (#[trigger] self.first_page_posts[j]).post_id != post_id,
            decreases self.first_page_posts.len() - i,
        {
            if self.first_page_posts[i].post_id == post_id {
                assert(self@.first_page[i as int].post_id == post_id);
                return true;
            }
            i += 1;
        }
        false
    }

    /// Tells whether `row` belongs to the selection of `request`, given the
    /// latest snapshot moment of the log.
    fn keeps_row(&self, request: Option<&UserPostRequest>, latest: Option<DateTime>, row: &Post) -> (kept:
        bool)
        requires
            match latest {
                Some(moment) => self@.is_latest(moment),
                None => self@.first_page.len() == 0,
            },
        ensures
            kept == self@.keeps(selection_for(request), row@),
    {
        match request {
            None => match latest {
                Some(moment) => {
                    let found = self.logged_at(row.post_id, moment);
                    proof {
                        if self@.is_current(row.post_id) {
                            let other = choose|other: DateTime| #[trigger]
                                self@.is_latest(other) && self@.was_first_page_at(
                                    row.post_id,
                                    other,
                                );
                            lemma_latest_is_unique(self@, moment, other);
                        }
                    }
                    found
                },
                None => false,
            },
            Some(UserPostRequest::All { user }) => row.author == *user,
            Some(UserPostRequest::WasAtFirstPage { user }) => row.author == *user && self.logged(
                row.post_id,
            ),
        }
    }

    /// The rows of the selection of `request`, in the order of the query.
    fn collect(&self, request: Option<&UserPostRequest>) -> (rows: Vec<Post>)
        ensures
            post_views(rows@) == self@.rows(selection_for(request)),
    {
        let latest = self.latest_snapshot_moment();
        let mut rows: Vec<Post> = Vec::new();
        let mut i: usize = 0;
        assert(post_views(rows@) =~= Seq::empty());
        while i < self.posts.len()
            invariant
                i <= self.posts.len(),
                match latest {
                    Some(moment) => self@.is_latest(moment),
                    None => self@.first_page.len() == 0,
                },
                post_views(rows@) == self@.select_from(
                    selection_for(request),
                    self@.posts.take(i as int),
                ),
            decreases self.posts.len() - i,
        {
            proof {
                let upto = self@.posts.take(i + 1);
                assert(upto.drop_last() =~= self@.posts.take(i as int));
                assert(upto.last() == self.posts[i as int]@);
            }
            if self.keeps_row(request, latest, &self.posts[i]) {
                place(&mut rows, self.posts[i].duplicate());
            }
            i += 1;
        }
        assert(self@.posts.take(i as int) =~= self@.posts);
        rows
    }
}

/// Puts `row` into `rows` behind the last row that was not published after
/// it.
fn place(rows: &mut Vec<Post>, row: Post)
    ensures
        post_views(final(rows)@) == insert_by_publication(post_views(old(rows)@), row@),
{
    let mut at: usize = rows.len();
    while at > 0 && row.publication_moment.is_before(&rows[at - 1].publication_moment)
        invariant
            at <= rows.len(),
            *rows == *old(rows),
            forall|k: int|
                at <= k < rows.len() ==> row.publication_moment.precedes(
                    (#[trigger] rows[k]).publication_moment,
                ),
        decreases at,
    {
        at -= 1;
    }
    proof {
        let views = post_views(rows@);
        assert forall|k: int| at <= k < views.len() implies row@.publication_moment.precedes(
            (#[trigger] views[k]).publication_moment,
        ) by {
            assert(views[k] == rows[k]@);
        }
        lemma_insert_position(views, row@, at as int);
    }
    rows.insert(at, row);
    assert(post_views(rows@) =~= post_views(old(rows)@).insert(at as int, row@));
}


/// Why a store could not serve a call.
#[derive(Clone, Copy, Debug, PartialEq, Eq, Structural)]
pub enum StorageError {
    /// The store could not be reached.
    ConnectionLost,
    /// The store refused the row.
    ConstraintViolation,
}

/// The items of a result stream agree with the rows of a query: each post
/// that was delivered is the row at its place, only the last item can be a
/// failure, and a stream without a failure delivers every row.
pub open spec fn delivers<E>(items: Seq<Result<Post, E>>, rows: Seq<PostView>) -> bool {
    &&& forall|i: int|
        0 <= i < items.len() && (#[trigger] items[i]) is Ok ==> i < rows.len() && items[i]->Ok_0@
            == rows[i]
    &&& forall|i: int| 0 <= i < items.len() && (#[trigger] items[i]) is Err ==> i == items.len() - 1
    &&& (forall|i: int| 0 <= i < items.len() ==> (#[trigger] items[i]) is Ok) ==> items.len()
        == rows.len()
}

/// A store whose content is a `Snapshot`.
pub trait SnapshotStorage {
    /// What the store holds.
    spec fn snapshot(&self) -> Snapshot;
}

/// The query for the posts that are on the front page now.
pub trait GetCurrentTopPosts: SnapshotStorage {
    type Error;

    /// The result stream of the query, or the reason why it could not be
    /// opened.
    fn get_current_top_posts(&self) -> (outcome: Result<
        Vec<Result<Post, Self::Error>>,
        Self::Error,
    >)
        ensures
            outcome matches Ok(items) ==> delivers(
                items@,
                self.snapshot().rows(Selection::CurrentTop),
            ),
    ;
}

/// The query for the posts of one user.
pub trait GetUserPosts: SnapshotStorage {
    type Error;

    /// The result stream of the query, or the reason why it could not be
    /// opened.
    fn get_user_posts(&self, filter: UserPostRequest) -> (outcome: Result<
        Vec<Result<Post, Self::Error>>,
        Self::Error,
    >)
        ensures
            outcome matches Ok(items) ==> delivers(
                items@,
                self.snapshot().rows(selection_of(filter)),
            ),
    ;
}

/// The write path of the store.
pub trait InsertPost: SnapshotStorage {
    type Error;

    /// Records one observation, all of it or nothing.
    fn insert_post(&mut self, post: Post, is_first_page: bool) -> (outcome: Result<
        (),
        Self::Error,
    >)
        ensures
            outcome is Ok ==> final(self).snapshot() == old(self).snapshot().observe(
                post@,
                is_first_page,
            ),
            outcome is Err ==> final(self).snapshot() == old(self).snapshot(),
    ;
}

/// The rows as a result stream in which nothing failed.
fn into_stream(rows: Vec<Post>) -> (items: Vec<Result<Post, StorageError>>)
    ensures
        items@.len() == rows@.len(),
        forall|i: int| 0 <= i < items@.len() ==> (#[trigger] items@[i]) == Ok::<Post, StorageError>(rows@[i]),
{
    let mut rows = rows;
    let ghost all = rows@;
    let mut items: Vec<Result<Post, StorageError>> = Vec::new();
    while rows.len() > 0
        invariant
            rows@.len() <= all.len(),
            rows@ == all.take(rows@.len() as int),
            items@.len() + rows@.len() == all.len(),
            forall|i: int|
                0 <= i < items@.len() ==> (#[trigger] items@[i]) == Ok::<Post, StorageError>(
                    all[all.len() - 1 - i],
                ),
        decreases rows.len(),
    {
        let row = rows.pop().unwrap();
        items.push(Ok(row));
    }
    reverse(&mut items);
    items
}

impl SnapshotStorage for SnapshotStore {
    open spec fn snapshot(&self) -> Snapshot {
        self@
    }
}

impl GetCurrentTopPosts for SnapshotStore {
    type Error = StorageError;

    /// Every post whose identifier the log records at its latest snapshot
    /// moment, ordered by publication moment. An in-memory store does not
    /// fail.
    fn get_current_top_posts(&self) -> (outcome: Result<
        Vec<Result<Post, StorageError>>,
        StorageError,
    >)
        ensures
            outcome is Ok,
            all_delivered(outcome->Ok_0@),
            delivered_rows(outcome->Ok_0@) == self@.rows(Selection::CurrentTop),
    {
        let rows = self.collect(None);
        let items = into_stream(rows);
        proof {
            assert(delivered_rows(items@) =~= post_views(rows@));
        }
        Ok(items)
    }
}

impl GetUserPosts for SnapshotStore {
    type Error = StorageError;

    /// Every post of the user that the request names, or those of them that
    /// the log records at some moment, ordered by publication moment. An
    /// in-memory store does not fail.
    fn get_user_posts(&self, filter: UserPostRequest) -> (outcome: Result<
        Vec<Result<Post, StorageError>>,
        StorageError,
    >)
        ensures
            outcome is Ok,
            all_delivered(outcome->Ok_0@),
            delivered_rows(outcome->Ok_0@) == self@.rows(selection_of(filter)),
    {
        let rows = self.collect(Some(&filter));
        let items = into_stream(rows);
        proof {
            assert(delivered_rows(items@) =~= post_views(rows@));
        }
        Ok(items)
    }
}

impl InsertPost for SnapshotStore {
    type Error = StorageError;

    /// Appends the observation, and a log entry at its snapshot moment if the
    /// post was on the first page. An in-memory store does not fail.
    fn insert_post(&mut self, post: Post, is_first_page: bool) -> (outcome: Result<
        (),
        StorageError,
    >)
        ensures
            outcome is Ok,
            final(self)@ == old(self)@.observe(post@, is_first_page),
    {
        if is_first_page {
            self.first_page_posts.push(
                FirstPageEntry {
                    post_id: post.post_id,
                    snapshot_moment: post.last_snapshot_moment,
                },
            );
        }
        self.posts.push(post);
        assert(self@.posts =~= old(self)@.posts.push(post@));
        Ok(())
    }
}

/// Every item of the stream is a post.
pub open spec fn all_delivered<E>(items: Seq<Result<Post, E>>) -> bool {
    forall|i: int| 0 <= i < items.len() ==> (#[trigger] items[i]) is Ok
}

/// The posts of a stream in which nothing failed, as rows.
pub open spec fn delivered_rows<E>(items: Seq<Result<Post, E>>) -> Seq<PostView> {
    Seq::new(items.len(), |i: int| items[i]->Ok_0@)
}

} // verus!
