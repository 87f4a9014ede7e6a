//! The query service: what it answers to a request, and how the results of
//! a storage query cross its boundary.

use crate::hackernews_core;
use crate::hackernews_core::PostView;
use crate::hackernews_proxy_proto::{
    lemma_message_carries_post, message_request, post_message, wire_of, Post, TopPostRequest,
    UserPostRequest,
};
use crate::posts_storage::{delivers, selection_of, GetCurrentTopPosts, GetUserPosts, Selection};
use crate::sequence::reverse;
use std::sync::Arc;
use vstd::prelude::*;
use vstd::string::StringExecFns;

verus! {

/// Whose fault a refused request is.
#[derive(Clone, Copy, Debug, PartialEq, Eq, Structural)]
pub enum ErrorClass {
    /// The request was wrong.
    CallerError,
    /// The service failed.
    InternalFailure,
}

/// What the service tells a caller of a failure: never the words of the
/// store.
#[derive(Clone, Copy, Debug, PartialEq, Eq, Structural)]
pub enum BoundaryError {
    /// The request names no filter.
    MissingRequestDetail,
    /// The store failed to answer a query.
    StorageFailure,
}

impl BoundaryError {
    /// Whose fault the failure is.
    pub open spec fn class_of(self) -> ErrorClass {
        match self {
            BoundaryError::MissingRequestDetail => ErrorClass::CallerError,
            BoundaryError::StorageFailure => ErrorClass::InternalFailure,
        }
    }

    /// What the caller reads of the failure.
    pub open spec fn summary_of(self) -> Seq<char> {
        match self {
            BoundaryError::MissingRequestDetail => "Please provide request detail"@,
            BoundaryError::StorageFailure => "error while reading posts from storage"@,
        }
    }

    /// Whose fault the failure is.
    pub fn class(&self) -> (class: ErrorClass)
        ensures
            class == self.class_of(),
    {
        match self {
            BoundaryError::MissingRequestDetail => ErrorClass::CallerError,
            BoundaryError::StorageFailure => ErrorClass::InternalFailure,
        }
    }

    /// What the caller reads of the failure.
    pub fn summary(&self) -> (summary: String)
        ensures
            summary@ == self.summary_of(),
    {
        match self {
            BoundaryError::MissingRequestDetail => String::from_str("Please provide request detail"),
            BoundaryError::StorageFailure => String::from_str(
                "error while reading posts from storage",
            ),
        }
    }
}

/// What crosses the boundary for one item of a storage query: the post as a
/// message, or a failure of the service in place of the error of the store.
pub open spec fn bridged_item<E>(item: Result<hackernews_core::Post, E>) -> Result<
    Post,
    BoundaryError,
> {
    match item {
        Ok(post) => Ok(post_message(post)),
        Err(_) => Err(BoundaryError::StorageFailure),
    }
}

/// What crosses the boundary for the items of a storage query: one item for
/// each, in the same order.
pub open spec fn bridged_stream<E>(items: Seq<Result<hackernews_core::Post, E>>) -> Seq<
    Result<Post, BoundaryError>,
> {
    Seq::new(items.len(), |i: int| bridged_item(items[i]))
}

/// What crosses the boundary for a storage query: its items, or one failure
/// where the query could not be opened.
pub open spec fn bridged<E>(outcome: Result<Vec<Result<hackernews_core::Post, E>>, E>) -> Seq<
    Result<Post, BoundaryError>,
> {
    match outcome {
        Ok(items) => bridged_stream(items@),
        Err(_) => seq![Err(BoundaryError::StorageFailure)],
    }
}

/// Carries one item of a storage query across the boundary.
pub fn bridge_item<E>(item: Result<hackernews_core::Post, E>) -> (sent: Result<
    Post,
    BoundaryError,
>)
    ensures
        sent == bridged_item(item),
{
    match item {
        Ok(post) => Ok(Post::from(post)),
        Err(_) => Err(BoundaryError::StorageFailure),
    }
}

/// Carries the items of a storage query across the boundary, in their order.
pub fn handle_posts_stream<E>(stream: Vec<Result<hackernews_core::Post, E>>) -> (sent: Vec<
    Result<Post, BoundaryError>,
>)
    ensures
        sent@ == bridged_stream(stream@),
{
    let ghost all = stream@;
    let mut stream = stream;
    let mut sent: Vec<Result<Post, BoundaryError>> = Vec::new();
    while stream.len() > 0
        invariant
            stream@.len() <= all.len(),
            stream@ == all.take(stream@.len() as int),
            sent@.len() + stream@.len() == all.len(),
            forall|i: int|
                0 <= i < sent@.len() ==> (#[trigger] sent@[i]) == bridged_item(
                    all[all.len() - 1 - i],
                ),
        decreases stream.len(),
    {
        let item = stream.pop().unwrap();
        sent.push(bridge_item(item));
    }
    reverse(&mut sent);
    assert(sent@ =~= bridged_stream(all));
    sent
}

/// Carries the outcome of a storage query across the boundary: its items
/// in their order, or one failure where the query could not be opened.
pub fn bridge<E>(outcome: Result<Vec<Result<hackernews_core::Post, E>>, E>) -> (sent: Vec<
    Result<Post, BoundaryError>,
>)
    ensures
        sent@ == bridged(outcome),
{
    match outcome {
        Ok(stream) => handle_posts_stream(stream),
        Err(_) => {
            let mut sent: Vec<Result<Post, BoundaryError>> = Vec::new();
            sent.push(Err(BoundaryError::StorageFailure));
            assert(sent@ =~= seq![Err(BoundaryError::StorageFailure)]);
            sent
        },
    }
}

/// What the service sends agrees with the rows of a query: each post that
/// was sent carries the row at its place, only the last item can be a
/// failure, which is then a failure of the store, and where nothing failed
/// every row was sent.
pub open spec fn answers(sent: Seq<Result<Post, BoundaryError>>, rows: Seq<PostView>) -> bool {
    &&& forall|i: int|
        0 <= i < sent.len() && (#[trigger] sent[i]) is Ok ==> i < rows.len() && sent[i]->Ok_0@
            == wire_of(rows[i])
    &&& forall|i: int|
        0 <= i < sent.len() && (#[trigger] sent[i]) is Err ==> i == sent.len() - 1 && sent[i]
            == Err::<Post, BoundaryError>(BoundaryError::StorageFailure)
    &&& (forall|i: int| 0 <= i < sent.len() ==> (#[trigger] sent[i]) is Ok) ==> sent.len()
        == rows.len()
}

/// What is sent for a storage query that keeps to the rows of its selection
/// answers for those rows.
pub proof fn lemma_bridge_answers<E>(
    outcome: Result<Vec<Result<hackernews_core::Post, E>>, E>,
    rows: Seq<PostView>,
)
    requires
        outcome matches Ok(items) ==> delivers(items@, rows),
    ensures
        answers(bridged(outcome), rows),
{
    let sent = bridged(outcome);
    match outcome {
        Ok(items) => {
            assert(sent.len() == items@.len());
            assert forall|i: int| 0 <= i < sent.len() implies #[trigger] sent[i] == bridged_item(
                items@[i],
            ) by {}
            assert forall|i: int| 0 <= i < sent.len() && (#[trigger] sent[i]) is Ok implies i
                < rows.len() && sent[i]->Ok_0@ == wire_of(rows[i]) by {
                assert(items@[i] is Ok);
                lemma_message_carries_post(items@[i]->Ok_0);
            }
            assert forall|i: int| 0 <= i < sent.len() && (#[trigger] sent[i]) is Err implies i
                == sent.len() - 1 && sent[i] == Err::<Post, BoundaryError>(
                BoundaryError::StorageFailure,
            ) by {
                assert(items@[i] is Err);
            }
            if forall|i: int| 0 <= i < sent.len() ==> (#[trigger] sent[i]) is Ok {
                assert forall|i: int| 0 <= i < items@.len() implies (#[trigger] items@[i]) is Ok by {
                    assert(sent[i] is Ok);
                }
            }
        },
        Err(_) => {
            assert(sent[0] is Err);
        },
    }
}

/// The query service over a store.
pub struct Server<S: GetCurrentTopPosts + GetUserPosts> {
    pub posts_storage: Arc<S>,
}

impl<S: GetCurrentTopPosts + GetUserPosts> Server<S> {
    /// Answers a request for the posts that are on the front page now.
    pub fn get_top_posts(&self, _request: TopPostRequest) -> (sent: Vec<
        Result<Post, BoundaryError>,
    >)
        ensures
            answers(sent@, self.posts_storage.snapshot().rows(Selection::CurrentTop)),
    {
        let outcome = self.posts_storage.get_current_top_posts();
        proof {
            lemma_bridge_answers(outcome, self.posts_storage.snapshot().rows(Selection::CurrentTop));
        }
        bridge(outcome)
    }

    /// Answers a request for the posts of a user. A request without a
    /// filter is refused as the caller's error, and the store is not asked.
    pub fn get_user_posts(&self, request: UserPostRequest) -> (sent: Result<
        Vec<Result<Post, BoundaryError>>,
        BoundaryError,
    >)
        ensures
            match message_request(request) {
                Some(filter) => sent matches Ok(items) && answers(
                    items@,
                    self.posts_storage.snapshot().rows(selection_of(filter)),
                ),
                None => sent == Err::<Vec<Result<Post, BoundaryError>>, BoundaryError>(
                    BoundaryError::MissingRequestDetail,
                ),
            },
    {
        let filter = match Option::<hackernews_core::UserPostRequest>::from(request) {
            Some(filter) => filter,
            None => {
                return Err(BoundaryError::MissingRequestDetail);
            },
        };
        let ghost rows = self.posts_storage.snapshot().rows(selection_of(filter));
        let outcome = self.posts_storage.get_user_posts(filter);
        proof {
            lemma_bridge_answers(outcome, rows);
        }
        Ok(bridge(outcome))
    }
}

} // verus!
