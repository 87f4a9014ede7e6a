//! One crawl cycle: what each fetched page adds to the store, and how far
//! the traversal reaches.

use crate::extract::{matched_attributes, ExtractedNode};
use crate::hackernews_core::{DateTime, Post, PostId, PostView};
use crate::hackernews_scrapper::{
    assembled, output_view, page_visits, publication_of, HackernewsCrawler, HackernewsScraper,
    HackernewsState, Response, ScrapeError,
};
use crate::posts_storage::{InsertPost, Snapshot};
use vstd::prelude::*;

verus! {

/// A post listed on page `page` of the index is on the front page.
pub open spec fn on_first_page(page: usize) -> bool {
    page == 1
}

/// Tells whether a post listed on page `page` of the index is on the front
/// page.
pub fn is_first_page(page: usize) -> (first: bool)
    ensures
        first == on_first_page(page),
{
    page == 1
}

/// The store after a page was read: one more observation where the page
/// yielded a post, on the first page if the post was listed on page 1, and
/// the same store where it yielded none.
pub open spec fn recorded(snapshot: Snapshot, output: Option<(usize, PostView)>) -> Snapshot {
    match output {
        Some((page, post)) => snapshot.observe(post, on_first_page(page)),
        None => snapshot,
    }
}

/// The post that the output of a read page hands to the store, if it hands
/// one.
pub open spec fn handed_over<E>(output: Result<(usize, Post), E>) -> Option<(usize, PostView)> {
    match output {
        Ok((page, post)) => Some((page, post@)),
        Err(_) => None,
    }
}

/// The post that reading a page yielded, if it yielded one.
pub open spec fn yielded(outcome: Result<Option<(usize, PostView)>, ScrapeError>) -> Option<
    (usize, PostView),
> {
    match outcome {
        Ok(Some(output)) => Some(output),
        _ => None,
    }
}

/// Records the output of a read page: a post is stored, as one of the first
/// page if it was listed on page 1, and a failure to read the page stores
/// nothing. Hands back what the store answered.
pub fn record_output<S: InsertPost, E>(storage: &mut S, output: Result<(usize, Post), E>) -> (stored:
    Result<(), S::Error>)
    ensures
        stored is Ok ==> final(storage).snapshot() == recorded(
            old(storage).snapshot(),
            handed_over(output),
        ),
        stored is Err ==> final(storage).snapshot() == old(storage).snapshot(),
        output is Err ==> stored is Ok,
{
    match output {
        Ok((page, post)) => storage.insert_post(post, is_first_page(page)),
        Err(_) => Ok(()),
    }
}

/// How one step of a cycle ended.
#[derive(Debug, Clone, Copy, PartialEq, Eq)]
pub enum Step<E> {
    /// The page yielded a post and the store took it.
    Stored { is_first_page: bool },
    /// The page yielded no post.
    Nothing,
    /// The page could not be read; its post, if it was one, is dropped.
    Dropped(ScrapeError),
    /// The page yielded a post and the store refused it.
    StorageFailed(E),
}

/// How a step ended agrees with what reading the page yielded and with the
/// store before and after: a post that was yielded is stored, as one of the
/// front page if it was listed on page 1, and else the store is the same.
pub open spec fn stepped<E>(
    outcome: Result<Option<(usize, PostView)>, ScrapeError>,
    step: Step<E>,
    before: Snapshot,
    after: Snapshot,
) -> bool {
    match step {
        Step::Stored { is_first_page } => outcome matches Ok(Some((page, post)))
            && is_first_page == on_first_page(page) && after == before.observe(
            post,
            is_first_page,
        ),
        Step::Nothing => outcome == Ok::<Option<(usize, PostView)>, ScrapeError>(None) && after
            == before,
        Step::Dropped(error) => outcome == Err::<Option<(usize, PostView)>, ScrapeError>(error)
            && after == before,
        Step::StorageFailed(_) => yielded(outcome) is Some && after == before,
    }
}

/// One step of a cycle: reads a fetched page, asks the crawler for the
/// visits that follow from it, and stores the post that it yields.
pub fn crawl_step<C: HackernewsCrawler, S: InsertPost>(
    scraper: &HackernewsScraper,
    response: Response,
    crawler: &mut C,
    storage: &mut S,
) -> (step: Step<S::Error>)
    ensures
        exists|outcome: Result<Option<(usize, PostView)>, ScrapeError>| #[trigger]
            scraper.scraped(response, old(crawler).visits(), outcome, final(crawler).visits())
                && stepped(outcome, step, old(storage).snapshot(), final(storage).snapshot()),
        response.state is Some && response.state->Some_0 is Post && (matched_attributes(
            response.text@,
            scraper@.publication_moment_selector,
            Some("title"@),
        ) matches Some(moments) && publication_of(moments) is None) ==> !(step is Stored)
            && final(storage).snapshot() == old(storage).snapshot(),
{
    let outcome = scraper.scrape_internal(response, crawler);
    let ghost seen = output_view(outcome);
    proof {
        lemma_unreadable_moment_yields_nothing(
            scraper,
            response,
            old(crawler).visits(),
            seen,
            crawler.visits(),
        );
    }
    match outcome {
        Ok(Some((page, post))) => match storage.insert_post(post, is_first_page(page)) {
            Ok(()) => Step::Stored { is_first_page: is_first_page(page) },
            Err(error) => Step::StorageFailed(error),
        },
        Ok(None) => Step::Nothing,
        Err(error) => Step::Dropped(error),
    }
}

/// A detail page without a publication moment yields no post, whatever else
/// it holds.
pub proof fn lemma_missing_moment_drops_post(
    post_id: PostId,
    page: usize,
    snapshot_time: DateTime,
    url: Seq<char>,
    titles: Seq<ExtractedNode>,
    authors: Seq<ExtractedNode>,
    snapshot: Snapshot,
)
    ensures
        yielded(assembled(post_id, page, snapshot_time, url, titles, authors, None)) is None,
        recorded(
            snapshot,
            yielded(assembled(post_id, page, snapshot_time, url, titles, authors, None)),
        ) == snapshot,
{
}

/// Reading a detail page whose publication moment cannot be read yields no
/// post.
pub proof fn lemma_unreadable_moment_yields_nothing(
    scraper: &HackernewsScraper,
    response: Response,
    before: Seq<HackernewsState>,
    outcome: Result<Option<(usize, PostView)>, ScrapeError>,
    after: Seq<HackernewsState>,
)
    requires
        scraper.scraped(response, before, outcome, after),
    ensures
        response.state is Some && response.state->Some_0 is Post && (matched_attributes(
            response.text@,
            scraper@.publication_moment_selector,
            Some("title"@),
        ) matches Some(moments) && publication_of(moments) is None) ==> yielded(outcome) is None
            && after == before,
{
}

/// `child` is a visit that reading a page fetched for `parent` can ask for.
pub open spec fn asked_by(max_page: usize, parent: HackernewsState, child: HackernewsState) -> bool {
    match parent {
        HackernewsState::Page { snapshot_time, page } => exists|ids: Seq<PostId>| #[trigger]
            page_visits(ids, page, snapshot_time, max_page).contains(child),
        HackernewsState::Post { .. } => false,
    }
}

/// `state` is a visit that a cycle can come to in `steps` steps from its
/// first visit `root`.
pub open spec fn reached(
    max_page: usize,
    root: HackernewsState,
    state: HackernewsState,
    steps: nat,
) -> bool
    decreases steps,
{
    if steps == 0 {
        state == root
    } else {
        exists|parent: HackernewsState|
            reached(max_page, root, parent, (steps - 1) as nat) && #[trigger] asked_by(
                max_page,
                parent,
                state,
            )
    }
}

/// The page of the index that a visit belongs to.
pub open spec fn page_of(state: HackernewsState) -> usize {
    match state {
        HackernewsState::Page { page, .. } => page,
        HackernewsState::Post { page, .. } => page,
    }
}

/// The snapshot moment that a visit carries.
pub open spec fn snapshot_time_of(state: HackernewsState) -> DateTime {
    match state {
        HackernewsState::Page { snapshot_time, .. } => snapshot_time,
        HackernewsState::Post { snapshot_time, .. } => snapshot_time,
    }
}

/// What an index page asks for: a visit of each post that it lists, as one
/// of this page, and after them a visit of the next page exactly if this
/// page lies before the bound.
pub proof fn lemma_page_visits(
    ids: Seq<PostId>,
    page: usize,
    snapshot_time: DateTime,
    max_page: usize,
)
    ensures
        page_visits(ids, page, snapshot_time, max_page).len() == ids.len() + if page < max_page {
            1int
        } else {
            0int
        },
        forall|i: int|
            0 <= i < ids.len() ==> #[trigger] page_visits(ids, page, snapshot_time, max_page)[i]
                == (HackernewsState::Post { snapshot_time, post_id: ids[i], page }),
        page < max_page ==> page_visits(ids, page, snapshot_time, max_page).last() == (
        HackernewsState::Page { snapshot_time, page: (page + 1) as usize }),
{
}

/// Every visit of a cycle carries the snapshot moment of the first, and none
/// goes to a page of the index beyond the bound.
pub proof fn lemma_traversal_bound(
    max_page: usize,
    root: HackernewsState,
    state: HackernewsState,
    steps: nat,
)
    requires
        page_of(root) <= max_page,
        reached(max_page, root, state, steps),
    ensures
        page_of(state) <= max_page,
        snapshot_time_of(state) == snapshot_time_of(root),
    decreases steps,
{
    if steps > 0 {
        let parent = choose|parent: HackernewsState|
            reached(max_page, root, parent, (steps - 1) as nat) && #[trigger] asked_by(
                max_page,
                parent,
                state,
            );
        lemma_traversal_bound(max_page, root, parent, (steps - 1) as nat);
        match parent {
            HackernewsState::Page { snapshot_time, page } => {
                let ids = choose|ids: Seq<PostId>| #[trigger]
                    page_visits(ids, page, snapshot_time, max_page).contains(state);
                lemma_page_visits(ids, page, snapshot_time, max_page);
            },
            HackernewsState::Post { .. } => {},
        }
    }
}

/// With the bound at the first page, a cycle visits one page of the index,
/// the first, and the posts that this page lists, and nothing else: no
/// second page of the index is ever asked for.
pub proof fn lemma_single_page_traversal(
    snapshot_time: DateTime,
    state: HackernewsState,
    steps: nat,
)
    requires
        reached(1, HackernewsState::Page { snapshot_time, page: 1 }, state, steps),
    ensures
        steps <= 1,
        steps == 0 ==> state == (HackernewsState::Page { snapshot_time, page: 1 }),
        steps == 1 ==> state is Post && page_of(state) == 1 && snapshot_time_of(state)
            == snapshot_time,
    decreases steps,
{
    let root = HackernewsState::Page { snapshot_time, page: 1 };
    if steps > 0 {
        let parent = choose|parent: HackernewsState|
            reached(1, root, parent, (steps - 1) as nat) && #[trigger] asked_by(1, parent, state);
        lemma_single_page_traversal(snapshot_time, parent, (steps - 1) as nat);
        match parent {
            HackernewsState::Page { snapshot_time, page } => {
                let ids = choose|ids: Seq<PostId>| #[trigger]
                    page_visits(ids, page, snapshot_time, 1).contains(state);
                lemma_page_visits(ids, page, snapshot_time, 1);
            },
            HackernewsState::Post { .. } => {},
        }
    }
}

} // verus!
