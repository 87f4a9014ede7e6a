//! What holds of every snapshot store: the order and the content of query
//! results, that observations are only ever added, and that the current
//! front page follows the latest cycle.

use crate::hackernews_core::{DateTime, PostId, PostView};
use crate::posts_storage::{
    insert_by_publication, ordered_by_publication, FirstPageEntry, Selection, Snapshot,
};
use vstd::prelude::*;
use vstd::seq_lib::{to_multiset_build, to_multiset_contains, to_multiset_insert, to_multiset_len};

verus! {

/// One observation handed to the store: the post and whether the cycle saw
/// it on the first page.
pub ghost struct Observation {
    pub post: PostView,
    pub is_first_page: bool,
}

/// The log entry that an observation on the first page writes.
pub open spec fn entry_of(observation: Observation) -> FirstPageEntry {
    FirstPageEntry {
        post_id: observation.post.post_id,
        snapshot_moment: observation.post.last_snapshot_moment,
    }
}

/// The rows that the observations add, in their order.
pub open spec fn posts_of(observations: Seq<Observation>) -> Seq<PostView> {
    Seq::new(observations.len(), |i: int| observations[i].post)
}

/// The log entries that the observations add, in their order.
pub open spec fn entries_of(observations: Seq<Observation>) -> Seq<FirstPageEntry>
    decreases observations.len(),
{
    if observations.len() == 0 {
        Seq::empty()
    } else if observations.last().is_first_page {
        entries_of(observations.drop_last()).push(entry_of(observations.last()))
    } else {
        entries_of(observations.drop_last())
    }
}

/// The store after the observations, made one after the other.
pub open spec fn observe_all(snapshot: Snapshot, observations: Seq<Observation>) -> Snapshot
    decreases observations.len(),
{
    if observations.len() == 0 {
        snapshot
    } else {
        observe_all(snapshot, observations.drop_last()).observe(
            observations.last().post,
            observations.last().is_first_page,
        )
    }
}

/// The identifiers of the rows.
pub open spec fn post_ids(rows: Seq<PostView>) -> Set<PostId> {
    Set::new(|id: PostId| exists|i: int| 0 <= i < rows.len() && (#[trigger] rows[i]).post_id == id)
}

/// The identifiers that the observations saw on the first page.
pub open spec fn first_page_ids(observations: Seq<Observation>) -> Set<PostId> {
    Set::new(
        |id: PostId|
            exists|k: int|
                0 <= k < observations.len() && (#[trigger] observations[k]).is_first_page
                    && observations[k].post.post_id == id,
    )
}

/// The test that `selection` makes of a row of `snapshot`.
pub open spec fn keeper(snapshot: Snapshot, selection: Selection) -> spec_fn(PostView) -> bool {
    |row: PostView| snapshot.keeps(selection, row)
}

/// The place at which `insert_by_publication` puts the row.
proof fn lemma_insertion_point(rows: Seq<PostView>, row: PostView) -> (at: int)
    ensures
        0 <= at <= rows.len(),
        insert_by_publication(rows, row) == rows.insert(at, row),
        forall|k: int|
            at <= k < rows.len() ==> row.publication_moment.precedes(
                (#[trigger] rows[k]).publication_moment,
            ),
        at > 0 ==> !row.publication_moment.precedes(rows[at - 1].publication_moment),
    decreases rows.len(),
{
    if rows.len() == 0 {
        assert(rows.insert(0, row) =~= seq![row]);
        0
    } else if row.publication_moment.precedes(rows.last().publication_moment) {
        let at = lemma_insertion_point(rows.drop_last(), row);
        assert(rows.insert(at, row) =~= rows.drop_last().insert(at, row).push(rows.last()));
        assert forall|k: int| at <= k < rows.len() implies row.publication_moment.precedes(
            (#[trigger] rows[k]).publication_moment,
        ) by {
            if k < rows.len() - 1 {
                assert(rows.drop_last()[k] == rows[k]);
            }
        }
        at
    } else {
        assert(rows.insert(rows.len() as int, row) =~= rows.push(row));
        rows.len() as int
    }
}

/// Inserting a row by its publication moment adds the row and nothing else.
pub proof fn lemma_insert_adds_row(rows: Seq<PostView>, row: PostView)
    ensures
        insert_by_publication(rows, row).to_multiset() == rows.to_multiset().insert(row),
        insert_by_publication(rows, row).len() == rows.len() + 1,
{
    let at = lemma_insertion_point(rows, row);
    to_multiset_insert(rows, at, row);
}

/// Inserting a row by its publication moment keeps ordered rows ordered.
pub proof fn lemma_insert_keeps_order(rows: Seq<PostView>, row: PostView)
    requires
        ordered_by_publication(rows),
    ensures
        ordered_by_publication(insert_by_publication(rows, row)),
{
    let at = lemma_insertion_point(rows, row);
    let longer = rows.insert(at, row);
    assert forall|i: int, j: int| 0 <= i < j < longer.len() implies (#[trigger] longer[i]).publication_moment.not_after(
        (#[trigger] longer[j]).publication_moment,
    ) by {
        if j < at {
            assert(longer[i] == rows[i] && longer[j] == rows[j]);
        } else if j == at {
            assert(longer[i] == rows[i] && longer[j] == row);
            if i < at - 1 {
                assert(rows[i].publication_moment.not_after(rows[at - 1].publication_moment));
            }
        } else if i < at {
            assert(longer[i] == rows[i] && longer[j] == rows[j - 1]);
        } else if i == at {
            assert(longer[i] == row && longer[j] == rows[j - 1]);
        } else {
            assert(longer[i] == rows[i - 1] && longer[j] == rows[j - 1]);
        }
    }
}

/// The rows selected from `posts` are the posts that the selection keeps,
/// each as often as it was observed, ordered by publication moment.
pub proof fn lemma_select_from(snapshot: Snapshot, selection: Selection, posts: Seq<PostView>)
    ensures
        ordered_by_publication(snapshot.select_from(selection, posts)),
        snapshot.select_from(selection, posts).to_multiset() == posts.filter(
            keeper(snapshot, selection),
        ).to_multiset(),
        snapshot.select_from(selection, posts).len() == posts.filter(
            keeper(snapshot, selection),
        ).len(),
        forall|row: PostView|
            #[trigger] snapshot.select_from(selection, posts).contains(row) <==> posts.contains(
                row,
            ) && snapshot.keeps(selection, row),
    decreases posts.len(),
{
    reveal(Seq::filter);
    let keep = keeper(snapshot, selection);
    let selected = snapshot.select_from(selection, posts);
    if posts.len() == 0 {
        assert(posts.filter(keep) =~= Seq::empty());
        assert forall|row: PostView| #[trigger] selected.contains(row) <==> posts.contains(row)
            && snapshot.keeps(selection, row) by {}
    } else {
        let earlier = snapshot.select_from(selection, posts.drop_last());
        lemma_select_from(snapshot, selection, posts.drop_last());
        let last = posts.last();
        if snapshot.keeps(selection, last) {
            lemma_insert_adds_row(earlier, last);
            lemma_insert_keeps_order(earlier, last);
            to_multiset_build(posts.drop_last().filter(keep), last);
        }
        to_multiset_len(selected);
        to_multiset_len(posts.filter(keep));
        assert forall|row: PostView| #[trigger] selected.contains(row) <==> posts.contains(row)
            && snapshot.keeps(selection, row) by {
            to_multiset_contains(selected, row);
            to_multiset_contains(earlier, row);
            assert(posts.drop_last().contains(row) || row == last <==> posts.contains(row)) by {
                if posts.drop_last().contains(row) {
                    let i = choose|i: int|
                        0 <= i < posts.drop_last().len() && posts.drop_last()[i] == row;
                    assert(posts[i] == row);
                }
                if row == last {
                    assert(posts[posts.len() - 1] == row);
                }
                if posts.contains(row) {
                    let i = choose|i: int| 0 <= i < posts.len() && posts[i] == row;
                    if i < posts.len() - 1 {
                        assert(posts.drop_last()[i] == row);
                    }
                }
            }
        }
    }
}

/// Every query returns its rows ordered by publication moment, and returns
/// the rows of the store that its selection keeps, each as often as it was
/// observed.
pub proof fn lemma_rows(snapshot: Snapshot, selection: Selection)
    ensures
        ordered_by_publication(snapshot.rows(selection)),
        snapshot.rows(selection).to_multiset() == snapshot.posts.filter(
            keeper(snapshot, selection),
        ).to_multiset(),
        snapshot.rows(selection).len() == snapshot.posts.filter(
            keeper(snapshot, selection),
        ).len(),
        forall|row: PostView|
            #[trigger] snapshot.rows(selection).contains(row) <==> snapshot.posts.contains(row)
                && snapshot.keeps(selection, row),
{
    lemma_select_from(snapshot, selection, snapshot.posts);
}


/// A test that every element passes filters nothing out.
proof fn lemma_filter_keeps_all(rows: Seq<PostView>, keep: spec_fn(PostView) -> bool)
    requires
        forall|i: int| 0 <= i < rows.len() ==> keep(#[trigger] rows[i]),
    ensures
        rows.filter(keep) == rows,
    decreases rows.len(),
{
    reveal(Seq::filter);
    if rows.len() > 0 {
        lemma_filter_keeps_all(rows.drop_last(), keep);
        assert(rows.drop_last().push(rows.last()) =~= rows);
    }
}

/// A narrower test keeps no more than a wider one.
proof fn lemma_filter_narrower(
    rows: Seq<PostView>,
    narrow: spec_fn(PostView) -> bool,
    wide: spec_fn(PostView) -> bool,
)
    requires
        forall|row: PostView| #[trigger] narrow(row) ==> wide(row),
    ensures
        rows.filter(narrow).to_multiset().subset_of(rows.filter(wide).to_multiset()),
        rows.filter(narrow).len() <= rows.filter(wide).len(),
    decreases rows.len(),
{
    reveal(Seq::filter);
    if rows.len() > 0 {
        lemma_filter_narrower(rows.drop_last(), narrow, wide);
        to_multiset_build(rows.drop_last().filter(narrow), rows.last());
        to_multiset_build(rows.drop_last().filter(wide), rows.last());
    }
}

/// The posts of a user that were on the front page at some moment are among
/// all the posts of that user: every row of the narrower query is a row of
/// the wider one, and is there at least as often.
pub proof fn lemma_first_page_scope_within_all(snapshot: Snapshot, user: Seq<char>)
    ensures
        forall|row: PostView|
            snapshot.rows(Selection::UserWasAtFirstPage { user }).contains(row)
                ==> #[trigger] snapshot.rows(Selection::UserAll { user }).contains(row),
        snapshot.rows(Selection::UserWasAtFirstPage { user }).to_multiset().subset_of(
            snapshot.rows(Selection::UserAll { user }).to_multiset(),
        ),
        snapshot.rows(Selection::UserWasAtFirstPage { user }).len() <= snapshot.rows(
            Selection::UserAll { user },
        ).len(),
{
    let narrow = Selection::UserWasAtFirstPage { user };
    let wide = Selection::UserAll { user };
    lemma_rows(snapshot, narrow);
    lemma_rows(snapshot, wide);
    lemma_filter_narrower(snapshot.posts, keeper(snapshot, narrow), keeper(snapshot, wide));
}

/// Observations are only ever added: after any number of them the store
/// holds the rows and the log entries it held before, unchanged and in their
/// places, followed by one row for each observation and one log entry for
/// each observation on the first page. Two observations of one post give
/// two rows.
pub proof fn lemma_append_only(before: Snapshot, observations: Seq<Observation>)
    ensures
        observe_all(before, observations).posts == before.posts + posts_of(observations),
        observe_all(before, observations).posts.len() == before.posts.len() + observations.len(),
        observe_all(before, observations).first_page == before.first_page + entries_of(
            observations,
        ),
    decreases observations.len(),
{
    if observations.len() == 0 {
        assert(before.posts + posts_of(observations) =~= before.posts);
        assert(before.first_page + entries_of(observations) =~= before.first_page);
    } else {
        let earlier = observations.drop_last();
        lemma_append_only(before, earlier);
        assert(posts_of(observations) =~= posts_of(earlier).push(observations.last().post));
        assert(before.posts + posts_of(observations) =~= (before.posts + posts_of(earlier)).push(
            observations.last().post,
        ));
        if observations.last().is_first_page {
            assert(before.first_page + entries_of(observations) =~= (before.first_page
                + entries_of(earlier)).push(entry_of(observations.last())));
        }
    }
}

/// Every observation can be had back: a query for all posts of a user
/// returns one row more for each observation of a post of that user.
pub proof fn lemma_observations_are_retrievable(
    before: Snapshot,
    observations: Seq<Observation>,
    user: Seq<char>,
)
    requires
        forall|k: int|
            0 <= k < observations.len() ==> (#[trigger] observations[k]).post.author == user,
    ensures
        observe_all(before, observations).rows(Selection::UserAll { user }).len() == before.rows(
            Selection::UserAll { user },
        ).len() + observations.len(),
{
    let all = Selection::UserAll { user };
    let after = observe_all(before, observations);
    let keep = keeper(before, all);
    lemma_append_only(before, observations);
    lemma_rows(before, all);
    lemma_rows(after, all);
    assert(keeper(after, all) =~= keep);
    Seq::filter_distributes_over_add(before.posts, posts_of(observations), keep);
    lemma_filter_keeps_all(posts_of(observations), keep);
}

/// An entry is among the log entries of the observations exactly if one of
/// the observations on the first page writes it.
proof fn lemma_entries_of(observations: Seq<Observation>, entry: FirstPageEntry)
    ensures
        entries_of(observations).contains(entry) <==> exists|k: int|
            0 <= k < observations.len() && (#[trigger] observations[k]).is_first_page && entry_of(
                observations[k],
            ) == entry,
    decreases observations.len(),
{
    if observations.len() > 0 {
        let earlier = observations.drop_last();
        lemma_entries_of(earlier, entry);
        if entries_of(observations).contains(entry) {
            let i = choose|i: int|
                0 <= i < entries_of(observations).len() && entries_of(observations)[i] == entry;
            if observations.last().is_first_page && i == entries_of(earlier).len() {
                assert(observations[observations.len() - 1].is_first_page);
            } else {
                assert(entries_of(earlier)[i] == entry);
                let k = choose|k: int|
                    0 <= k < earlier.len() && (#[trigger] earlier[k]).is_first_page && entry_of(
                        earlier[k],
                    ) == entry;
                assert(observations[k] == earlier[k]);
            }
        }
        if exists|k: int|
            0 <= k < observations.len() && (#[trigger] observations[k]).is_first_page && entry_of(
                observations[k],
            ) == entry {
            let k = choose|k: int|
                0 <= k < observations.len() && (#[trigger] observations[k]).is_first_page
                    && entry_of(observations[k]) == entry;
            if k == observations.len() - 1 {
                assert(entries_of(observations)[entries_of(earlier).len() as int] == entry);
            } else {
                assert(earlier[k] == observations[k]);
                let i = choose|i: int|
                    0 <= i < entries_of(earlier).len() && entries_of(earlier)[i] == entry;
                assert(entries_of(observations)[i] == entry);
            }
        }
    }
}

/// After a cycle whose snapshot moment lies after every moment in the log,
/// and which saw at least one post on the first page, the current front page
/// holds the posts that this cycle saw there and no others, whatever earlier
/// cycles saw.
pub proof fn lemma_current_top_follows_latest_cycle(
    before: Snapshot,
    cycle: Seq<Observation>,
    moment: DateTime,
)
    requires
        forall|i: int|
            0 <= i < before.first_page.len() ==> (#[trigger] before.first_page[i]).snapshot_moment.precedes(
                moment,
            ),
        forall|k: int|
            0 <= k < cycle.len() ==> (#[trigger] cycle[k]).post.last_snapshot_moment == moment,
        exists|k: int| 0 <= k < cycle.len() && (#[trigger] cycle[k]).is_first_page,
    ensures
        observe_all(before, cycle).is_latest(moment),
        forall|id: PostId| #[trigger]
            observe_all(before, cycle).is_current(id) <==> first_page_ids(cycle).contains(id),
        post_ids(observe_all(before, cycle).rows(Selection::CurrentTop)) == first_page_ids(cycle),
{
    let after = observe_all(before, cycle);
    let log = after.first_page;
    let added = entries_of(cycle);
    lemma_append_only(before, cycle);
    lemma_rows(after, Selection::CurrentTop);
    assert forall|j: int| 0 <= j < log.len() implies (#[trigger] log[j]).snapshot_moment.not_after(
        moment,
    ) && (log[j].snapshot_moment == moment ==> first_page_ids(cycle).contains(log[j].post_id)) by {
        if j < before.first_page.len() {
            assert(log[j] == before.first_page[j]);
        } else {
            assert(log[j] == added[j - before.first_page.len()]);
            lemma_entries_of(cycle, log[j]);
        }
    }
    let marked = choose|k: int| 0 <= k < cycle.len() && (#[trigger] cycle[k]).is_first_page;
    assert(after.is_latest(moment)) by {
        lemma_entries_of(cycle, entry_of(cycle[marked]));
        let i = choose|i: int| 0 <= i < added.len() && added[i] == entry_of(cycle[marked]);
        assert(log[before.first_page.len() + i] == added[i]);
    }
    assert forall|id: PostId| #[trigger] after.is_current(id) <==> first_page_ids(cycle).contains(
        id,
    ) by {
        if after.is_current(id) {
            let other = choose|other: DateTime| #[trigger]
                after.is_latest(other) && after.was_first_page_at(id, other);
            let i = choose|i: int| 0 <= i < log.len() && (#[trigger] log[i]).snapshot_moment == other;
            let j = choose|j: int| 0 <= j < log.len() && (#[trigger] log[j]).snapshot_moment == moment;
            assert(log[i].snapshot_moment.not_after(moment));
            assert(log[j].snapshot_moment.not_after(other));
            let at = choose|at: int|
                0 <= at < log.len() && #[trigger] log[at] == (FirstPageEntry {
                    post_id: id,
                    snapshot_moment: other,
                });
            assert(log[at].snapshot_moment == moment);
        }
        if first_page_ids(cycle).contains(id) {
            let k = choose|k: int|
                0 <= k < cycle.len() && (#[trigger] cycle[k]).is_first_page && cycle[k].post.post_id
                    == id;
            lemma_entries_of(cycle, entry_of(cycle[k]));
            let i = choose|i: int| 0 <= i < added.len() && added[i] == entry_of(cycle[k]);
            assert(log[before.first_page.len() + i] == (FirstPageEntry {
                post_id: id,
                snapshot_moment: moment,
            }));
            assert(after.was_first_page_at(id, moment));
        }
    }
    let rows = after.rows(Selection::CurrentTop);
    assert forall|id: PostId| post_ids(rows).contains(id) <==> first_page_ids(cycle).contains(
        id,
    ) by {
        if post_ids(rows).contains(id) {
            let i = choose|i: int| 0 <= i < rows.len() && (#[trigger] rows[i]).post_id == id;
            assert(rows.contains(rows[i]));
            assert(after.is_current(id));
        }
        if first_page_ids(cycle).contains(id) {
            let k = choose|k: int|
                0 <= k < cycle.len() && (#[trigger] cycle[k]).is_first_page && cycle[k].post.post_id
                    == id;
            assert(after.is_current(id));
            assert(after.posts[before.posts.len() + k] == cycle[k].post);
            assert(after.posts.contains(cycle[k].post));
            assert(rows.contains(cycle[k].post));
            let i = choose|i: int| 0 <= i < rows.len() && rows[i] == cycle[k].post;
            assert(rows[i].post_id == id);
        }
    }
    assert(post_ids(rows) =~= first_page_ids(cycle));
}


/// Every observation of the cycle carries the snapshot moment `moment`.
pub open spec fn taken_at(cycle: Seq<Observation>, moment: DateTime) -> bool {
    forall|k: int| 0 <= k < cycle.len() ==> (#[trigger] cycle[k]).post.last_snapshot_moment == moment
}

/// The store after the cycles, one after the other.
pub open spec fn observe_cycles(snapshot: Snapshot, cycles: Seq<Seq<Observation>>) -> Snapshot
    decreases cycles.len(),
{
    if cycles.len() == 0 {
        snapshot
    } else {
        observe_all(observe_cycles(snapshot, cycles.drop_last()), cycles.last())
    }
}

/// Every entry that cycles write into the log of an empty store carries the
/// snapshot moment of one of them.
proof fn lemma_log_moments(cycles: Seq<Seq<Observation>>, moments: Seq<DateTime>, i: int)
    requires
        cycles.len() == moments.len(),
        forall|k: int| 0 <= k < cycles.len() ==> taken_at(#[trigger] cycles[k], moments[k]),
        0 <= i < observe_cycles(Snapshot::empty(), cycles).first_page.len(),
    ensures
        exists|k: int|
            0 <= k < moments.len() && #[trigger] moments[k] == observe_cycles(
                Snapshot::empty(),
                cycles,
            ).first_page[i].snapshot_moment,
    decreases cycles.len(),
{
    if cycles.len() > 0 {
        let before = observe_cycles(Snapshot::empty(), cycles.drop_last());
        let after = observe_cycles(Snapshot::empty(), cycles);
        let last = cycles.len() - 1;
        lemma_append_only(before, cycles.last());
        if i < before.first_page.len() {
            assert forall|k: int| 0 <= k < cycles.drop_last().len() implies taken_at(
                #[trigger] cycles.drop_last()[k],
                moments.drop_last()[k],
            ) by {
                assert(taken_at(cycles[k], moments[k]));
            }
            lemma_log_moments(cycles.drop_last(), moments.drop_last(), i);
            let k = choose|k: int|
                0 <= k < moments.drop_last().len() && #[trigger] moments.drop_last()[k]
                    == before.first_page[i].snapshot_moment;
            assert(moments[k] == after.first_page[i].snapshot_moment);
        } else {
            let entry = after.first_page[i];
            assert(entry == entries_of(cycles.last())[i - before.first_page.len()]);
            lemma_entries_of(cycles.last(), entry);
            assert(taken_at(cycles[last], moments[last]));
            assert(moments[last] == entry.snapshot_moment);
        }
    }
}

/// After any number of cycles, each with a later snapshot moment than the
/// one before, the current front page holds the posts that the last cycle
/// saw on the first page and no others, if it saw at least one there.
pub proof fn lemma_current_top_after_cycles(cycles: Seq<Seq<Observation>>, moments: Seq<DateTime>)
    requires
        cycles.len() == moments.len(),
        cycles.len() > 0,
        forall|k: int| 0 <= k < cycles.len() ==> taken_at(#[trigger] cycles[k], moments[k]),
        forall|i: int, j: int|
            0 <= i < j < moments.len() ==> (#[trigger] moments[i]).precedes(#[trigger] moments[j]),
        exists|k: int| 0 <= k < cycles.last().len() && (#[trigger] cycles.last()[k]).is_first_page,
    ensures
        post_ids(observe_cycles(Snapshot::empty(), cycles).rows(Selection::CurrentTop))
            == first_page_ids(cycles.last()),
{
    let earlier = cycles.drop_last();
    let before = observe_cycles(Snapshot::empty(), earlier);
    let last = cycles.len() - 1;
    assert forall|i: int| 0 <= i < before.first_page.len() implies (#[trigger] before.first_page[i]).snapshot_moment.precedes(
        moments.last(),
    ) by {
        assert forall|k: int| 0 <= k < earlier.len() implies taken_at(
            #[trigger] earlier[k],
            moments.drop_last()[k],
        ) by {
            assert(taken_at(cycles[k], moments[k]));
        }
        lemma_log_moments(earlier, moments.drop_last(), i);
        let k = choose|k: int|
            0 <= k < moments.drop_last().len() && #[trigger] moments.drop_last()[k]
                == before.first_page[i].snapshot_moment;
        assert(moments[k].precedes(moments[last]));
    }
    assert(taken_at(cycles[last], moments[last]));
    lemma_current_top_follows_latest_cycle(before, cycles.last(), moments.last());
}

} // verus!
