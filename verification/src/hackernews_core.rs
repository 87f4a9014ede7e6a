//! Core data types shared by the crawler, the store and the query service.

use vstd::prelude::*;

verus! {

/// Stable external identifier of a post.
pub type PostId = i64;

/// A moment on the time line, without a time zone: whole seconds since the
/// start of 1970 and the nanoseconds into that second. During a leap second
/// `nanos` runs past 999,999,999.
#[derive(Clone, Copy, Debug, PartialEq, Eq, Structural)]
pub struct DateTime {
    pub seconds: i64,
    pub nanos: u32,
}

impl DateTime {
    /// `self` lies strictly before `other`.
    pub open spec fn precedes(self, other: DateTime) -> bool {
        self.seconds < other.seconds || (self.seconds == other.seconds && self.nanos < other.nanos)
    }

    /// `self` lies before `other` or is the same moment.
    pub open spec fn not_after(self, other: DateTime) -> bool {
        !other.precedes(self)
    }

    /// Tells whether `self` lies strictly before `other`.
    pub fn is_before(&self, other: &DateTime) -> (before: bool)
        ensures
            before == self.precedes(*other),
    {
        self.seconds < other.seconds || (self.seconds == other.seconds && self.nanos
            < other.nanos)
    }
}

/// One observation of a post by one crawl cycle.
#[derive(Debug, Clone, PartialEq, Eq)]
pub struct Post {
    pub post_id: PostId,
    pub title: String,
    pub author: String,
    pub url: String,
    pub link: Option<String>,
    pub publication_moment: DateTime,
    pub last_snapshot_moment: DateTime,
}

/// What a `Post` holds, with its texts as sequences of characters.
pub ghost struct PostView {
    pub post_id: PostId,
    pub title: Seq<char>,
    pub author: Seq<char>,
    pub url: Seq<char>,
    pub link: Option<Seq<char>>,
    pub publication_moment: DateTime,
    pub last_snapshot_moment: DateTime,
}

/// The characters of an optional text.
pub open spec fn text_view(text: Option<String>) -> Option<Seq<char>> {
    match text {
        Some(s) => Some(s@),
        None => None,
    }
}

impl View for Post {
    type V = PostView;

    open spec fn view(&self) -> PostView {
        PostView {
            post_id: self.post_id,
            title: self.title@,
            author: self.author@,
            url: self.url@,
            link: text_view(self.link),
            publication_moment: self.publication_moment,
            last_snapshot_moment: self.last_snapshot_moment,
        }
    }
}

impl Post {
    /// A copy of the observation, field by field.
    pub fn duplicate(&self) -> (copy: Post)
        ensures
            copy == *self,
    {
        let link = match &self.link {
            Some(link) => Some(link.clone()),
            None => None,
        };
        Post {
            post_id: self.post_id,
            title: self.title.clone(),
            author: self.author.clone(),
            url: self.url.clone(),
            link,
            publication_moment: self.publication_moment,
            last_snapshot_moment: self.last_snapshot_moment,
        }
    }
}

/// The views of a sequence of posts, in the same order.
pub open spec fn post_views(posts: Seq<Post>) -> Seq<PostView> {
    Seq::new(posts.len(), |i: int| posts[i]@)
}

/// Which of a user's posts a query asks for.
pub enum UserPostRequest {
    /// Every post of the user.
    All { user: String },
    /// Only the posts that were on the front page at some moment.
    WasAtFirstPage { user: String },
}

impl UserPostRequest {
    /// The user named by the request, as a sequence of characters.
    pub open spec fn user_view(&self) -> Seq<char> {
        match self {
            UserPostRequest::All { user } => user@,
            UserPostRequest::WasAtFirstPage { user } => user@,
        }
    }

    /// The user whose posts are asked for.
    pub fn get_user(&self) -> (user: &str)
        ensures
            user@ == self.user_view(),
    {
        match self {
            UserPostRequest::All { user } => user.as_str(),
            UserPostRequest::WasAtFirstPage { user } => user.as_str(),
        }
    }
}

} // verus!
