//! The messages of the query service as they cross its boundary, and the
//! conversions between them and the core types.

use crate::hackernews_core;
use crate::hackernews_core::{DateTime, PostView};
use vstd::prelude::*;
use vstd::std_specs::convert::FromSpecImpl;

verus! {

/// A moment in whole seconds since the start of 1970.
#[derive(Clone, Copy, Debug, PartialEq, Eq, Structural)]
pub struct Timestamp {
    pub timestmap: i64,
}

/// A text that may be absent from a message.
#[derive(Clone, Debug, PartialEq, Eq)]
pub struct StringWrapper {
    pub str: String,
}

/// A message without content.
#[derive(Clone, Copy, Debug, PartialEq, Eq, Structural)]
pub struct Empty {}

/// The request for the posts that are on the front page now.
#[derive(Clone, Copy, Debug, PartialEq, Eq, Structural)]
pub struct TopPostRequest {}

/// Which of a user's posts a request asks for.
#[derive(Clone, Copy, Debug, PartialEq, Eq, Structural)]
pub enum Filter {
    All(Empty),
    WasAtFirstPage(Empty),
}

/// The request for the posts of a user. A request without a filter is
/// incomplete.
#[derive(Clone, Debug, PartialEq, Eq)]
pub struct UserPostRequest {
    pub user: String,
    pub filter: Option<Filter>,
}

/// A post as the service hands it out.
#[derive(Clone, Debug, PartialEq, Eq)]
pub struct Post {
    pub post_id: i64,
    pub title: String,
    pub author: String,
    pub link: Option<StringWrapper>,
    pub url: String,
    pub publication_moment: Option<Timestamp>,
    pub last_snapshot_moment: Option<Timestamp>,
}

/// What a message post holds, with its texts as sequences of characters and
/// its moments in seconds.
pub ghost struct WirePostView {
    pub post_id: i64,
    pub title: Seq<char>,
    pub author: Seq<char>,
    pub link: Option<Seq<char>>,
    pub url: Seq<char>,
    pub publication_moment: Option<i64>,
    pub last_snapshot_moment: Option<i64>,
}

/// The seconds of an optional timestamp.
pub open spec fn seconds_view(moment: Option<Timestamp>) -> Option<i64> {
    match moment {
        Some(moment) => Some(moment.timestmap),
        None => None,
    }
}

/// The characters of an optional wrapped text.
pub open spec fn wrapper_view(text: Option<StringWrapper>) -> Option<Seq<char>> {
    match text {
        Some(text) => Some(text.str@),
        None => None,
    }
}

impl View for Post {
    type V = WirePostView;

    open spec fn view(&self) -> WirePostView {
        WirePostView {
            post_id: self.post_id,
            title: self.title@,
            author: self.author@,
            link: wrapper_view(self.link),
            url: self.url@,
            publication_moment: seconds_view(self.publication_moment),
            last_snapshot_moment: seconds_view(self.last_snapshot_moment),
        }
    }
}

/// The message that carries a row of the store: the same post, its moments
/// cut to whole seconds.
pub open spec fn wire_of(row: PostView) -> WirePostView {
    WirePostView {
        post_id: row.post_id,
        title: row.title,
        author: row.author,
        link: row.link,
        url: row.url,
        publication_moment: Some(row.publication_moment.seconds),
        last_snapshot_moment: Some(row.last_snapshot_moment.seconds),
    }
}

/// Why a message is no post.
#[derive(Debug)]
pub enum Error {
    LostLink,
    WrongUrl(url::ParseError),
    LostSnapshotTime,
    LostPublicationTime,
}

/// The error of `url` for an address that cannot be read. Nothing is known
/// of what a value of it holds.
#[verifier::external_type_specification]
#[verifier::external_body]
pub struct ExParseError(url::ParseError);

impl From<Timestamp> for DateTime {
    /// The moment at the start of the second that the timestamp counts.
    fn from(value: Timestamp) -> (moment: DateTime) {
        DateTime { seconds: value.timestmap, nanos: 0 }
    }
}

impl FromSpecImpl<Timestamp> for DateTime {
    open spec fn obeys_from_spec() -> bool {
        true
    }

    open spec fn from_spec(value: Timestamp) -> DateTime {
        DateTime { seconds: value.timestmap, nanos: 0 }
    }
}

impl From<DateTime> for Timestamp {
    /// The whole seconds of the moment.
    fn from(value: DateTime) -> (timestamp: Timestamp) {
        Timestamp { timestmap: value.seconds }
    }
}

impl FromSpecImpl<DateTime> for Timestamp {
    open spec fn obeys_from_spec() -> bool {
        true
    }

    open spec fn from_spec(value: DateTime) -> Timestamp {
        Timestamp { timestmap: value.seconds }
    }
}

impl From<StringWrapper> for String {
    fn from(value: StringWrapper) -> (text: String) {
        value.str
    }
}

impl FromSpecImpl<StringWrapper> for String {
    open spec fn obeys_from_spec() -> bool {
        true
    }

    open spec fn from_spec(value: StringWrapper) -> String {
        value.str
    }
}

impl From<String> for StringWrapper {
    fn from(value: String) -> (wrapper: StringWrapper) {
        StringWrapper { str: value }
    }
}

impl FromSpecImpl<String> for StringWrapper {
    open spec fn obeys_from_spec() -> bool {
        true
    }

    open spec fn from_spec(value: String) -> StringWrapper {
        StringWrapper { str: value }
    }
}

/// The text inside an optional wrapper.
pub open spec fn unwrapped(text: Option<StringWrapper>) -> Option<String> {
    match text {
        Some(text) => Some(text.str),
        None => None,
    }
}

/// An optional text in a wrapper.
pub open spec fn wrapped(text: Option<String>) -> Option<StringWrapper> {
    match text {
        Some(text) => Some(StringWrapper { str: text }),
        None => None,
    }
}

/// The message that carries a post, with both of its moments.
pub open spec fn post_message(value: hackernews_core::Post) -> Post {
    Post {
        post_id: value.post_id,
        title: value.title,
        author: value.author,
        link: wrapped(value.link),
        url: value.url,
        publication_moment: Some(Timestamp { timestmap: value.publication_moment.seconds }),
        last_snapshot_moment: Some(Timestamp { timestmap: value.last_snapshot_moment.seconds }),
    }
}

/// The post that a message carries. A message without a publication moment
/// is refused, and then one without a snapshot moment.
pub open spec fn message_post(value: Post) -> Result<hackernews_core::Post, Error> {
    match (value.publication_moment, value.last_snapshot_moment) {
        (None, _) => Err(Error::LostPublicationTime),
        (Some(_), None) => Err(Error::LostSnapshotTime),
        (Some(publication), Some(snapshot)) => Ok(
            hackernews_core::Post {
                post_id: value.post_id,
                title: value.title,
                author: value.author,
                url: value.url,
                link: unwrapped(value.link),
                publication_moment: DateTime { seconds: publication.timestmap, nanos: 0 },
                last_snapshot_moment: DateTime { seconds: snapshot.timestmap, nanos: 0 },
            },
        ),
    }
}

/// The request as a message, with its filter set.
pub open spec fn request_message(value: hackernews_core::UserPostRequest) -> UserPostRequest {
    match value {
        hackernews_core::UserPostRequest::All { user } => UserPostRequest {
            user,
            filter: Some(Filter::All(Empty {  })),
        },
        hackernews_core::UserPostRequest::WasAtFirstPage { user } => UserPostRequest {
            user,
            filter: Some(Filter::WasAtFirstPage(Empty {  })),
        },
    }
}

/// The request that a message carries; none if the message has no filter.
pub open spec fn message_request(value: UserPostRequest) -> Option<
    hackernews_core::UserPostRequest,
> {
    match value.filter {
        None => None,
        Some(Filter::All(_)) => Some(hackernews_core::UserPostRequest::All { user: value.user }),
        Some(Filter::WasAtFirstPage(_)) => Some(
            hackernews_core::UserPostRequest::WasAtFirstPage { user: value.user },
        ),
    }
}

impl From<hackernews_core::Post> for Post {
    /// The message that carries the post, with both of its moments.
    fn from(value: hackernews_core::Post) -> (post: Post)
        ensures
            post == post_message(value),
    {
        let link = match value.link {
            Some(link) => Some(StringWrapper { str: link }),
            None => None,
        };
        Post {
            post_id: value.post_id,
            title: value.title,
            author: value.author,
            link,
            url: value.url,
            publication_moment: Some(Timestamp { timestmap: value.publication_moment.seconds }),
            last_snapshot_moment: Some(
                Timestamp { timestmap: value.last_snapshot_moment.seconds },
            ),
        }
    }
}

impl FromSpecImpl<hackernews_core::Post> for Post {
    open spec fn obeys_from_spec() -> bool {
        true
    }

    open spec fn from_spec(value: hackernews_core::Post) -> Post {
        post_message(value)
    }
}

impl From<Post> for Result<hackernews_core::Post, Error> {
    /// The post that the message carries. A message without a publication
    /// moment is refused, and then one without a snapshot moment.
    fn from(value: Post) -> (post: Result<hackernews_core::Post, Error>)
        ensures
            post == message_post(value),
    {
        let publication_moment = match value.publication_moment {
            Some(moment) => DateTime { seconds: moment.timestmap, nanos: 0 },
            None => {
                return Err(Error::LostPublicationTime);
            },
        };
        let last_snapshot_moment = match value.last_snapshot_moment {
            Some(moment) => DateTime { seconds: moment.timestmap, nanos: 0 },
            None => {
                return Err(Error::LostSnapshotTime);
            },
        };
        let link = match value.link {
            Some(link) => Some(link.str),
            None => None,
        };
        Ok(
            hackernews_core::Post {
                post_id: value.post_id,
                title: value.title,
                author: value.author,
                url: value.url,
                link,
                publication_moment,
                last_snapshot_moment,
            },
        )
    }
}

impl FromSpecImpl<Post> for Result<hackernews_core::Post, Error> {
    open spec fn obeys_from_spec() -> bool {
        true
    }

    open spec fn from_spec(value: Post) -> Result<hackernews_core::Post, Error> {
        message_post(value)
    }
}

impl From<hackernews_core::UserPostRequest> for UserPostRequest {
    /// The request as a message, with its filter set.
    fn from(value: hackernews_core::UserPostRequest) -> (request: UserPostRequest)
        ensures
            request == request_message(value),
    {
        match value {
            hackernews_core::UserPostRequest::All { user } => UserPostRequest {
                user,
                filter: Some(Filter::All(Empty {  })),
            },
            hackernews_core::UserPostRequest::WasAtFirstPage { user } => UserPostRequest {
                user,
                filter: Some(Filter::WasAtFirstPage(Empty {  })),
            },
        }
    }
}

impl FromSpecImpl<hackernews_core::UserPostRequest> for UserPostRequest {
    open spec fn obeys_from_spec() -> bool {
        true
    }

    open spec fn from_spec(value: hackernews_core::UserPostRequest) -> UserPostRequest {
        request_message(value)
    }
}

impl From<UserPostRequest> for Option<hackernews_core::UserPostRequest> {
    /// The request that the message carries; none if it has no filter.
    fn from(value: UserPostRequest) -> (request: Option<hackernews_core::UserPostRequest>)
        ensures
            request == message_request(value),
    {
        match value.filter {
            None => None,
            Some(Filter::All(_)) => Some(hackernews_core::UserPostRequest::All { user: value.user }),
            Some(Filter::WasAtFirstPage(_)) => Some(
                hackernews_core::UserPostRequest::WasAtFirstPage { user: value.user },
            ),
        }
    }
}

impl FromSpecImpl<UserPostRequest> for Option<hackernews_core::UserPostRequest> {
    open spec fn obeys_from_spec() -> bool {
        true
    }

    open spec fn from_spec(value: UserPostRequest) -> Option<hackernews_core::UserPostRequest> {
        message_request(value)
    }
}

/// A post and the message that carries it hold the same, the moments cut to
/// whole seconds.
pub proof fn lemma_message_carries_post(post: hackernews_core::Post)
    ensures
        post_message(post)@ == wire_of(post@),
{
}

/// A post that went out as a message comes back the same, but for the
/// fractions of its seconds.
pub proof fn lemma_message_round_trip(post: hackernews_core::Post)
    ensures
        message_post(post_message(post)) matches Ok(back)
            && back == (hackernews_core::Post {
            publication_moment: DateTime { seconds: post.publication_moment.seconds, nanos: 0 },
            last_snapshot_moment: DateTime {
                seconds: post.last_snapshot_moment.seconds,
                nanos: 0,
            },
            ..post
        }),
{
}

/// A request that went out as a message comes back the same.
pub proof fn lemma_request_round_trip(request: hackernews_core::UserPostRequest)
    ensures
        message_request(request_message(request)) == Some(request),
{
}

} // verus!
