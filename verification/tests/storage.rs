use hackernews_crawler::hackernews_core::{DateTime, Post, UserPostRequest};
use hackernews_crawler::posts_storage::{
    GetCurrentTopPosts, GetUserPosts, InsertPost, SnapshotStore, StorageError,
};

fn moment(seconds: i64, nanos: u32) -> DateTime {
    DateTime { seconds, nanos }
}

fn sample_post(post_id: i64, published: DateTime, snapshot: DateTime) -> Post {
    Post {
        post_id,
        title: "test".to_owned(),
        author: "test".to_owned(),
        url: "test".to_owned(),
        link: None,
        publication_moment: published,
        last_snapshot_moment: snapshot,
    }
}

fn delivered(outcome: Result<Vec<Result<Post, StorageError>>, StorageError>) -> Vec<Post> {
    outcome.unwrap().into_iter().map(Result::unwrap).collect()
}

fn ids(posts: &[Post]) -> Vec<i64> {
    posts.iter().map(|post| post.post_id).collect()
}

#[test]
fn test_consistency() {
    let mut storage = SnapshotStore::new();

    let post = Post {
        author: "test_consistency".to_owned(),
        publication_moment: moment(1_673_778_600, 100),
        ..sample_post(11, moment(0, 0), moment(1_673_778_700, 5))
    };

    let fp_post = Post {
        author: "test_consistency".to_owned(),
        publication_moment: moment(1_673_778_600, 200),
        ..sample_post(12, moment(0, 0), moment(1_673_778_700, 9))
    };

    storage.insert_post(post.clone(), false).unwrap();
    storage.insert_post(fp_post.clone(), true).unwrap();

    let posts = delivered(storage.get_user_posts(UserPostRequest::All {
        user: post.author.clone(),
    }));
    assert_eq!(posts, vec![post, fp_post.clone()]);

    let posts = delivered(storage.get_user_posts(UserPostRequest::WasAtFirstPage {
        user: fp_post.author.clone(),
    }));
    assert_eq!(posts, vec![fp_post]);
}

#[test]
fn test_first_page() {
    let mut storage = SnapshotStore::new();

    let last_snapshot_moment = moment(1_673_778_600, 0);
    for post_id in 0..100 {
        let post = sample_post(post_id, moment(1_600_000_000 + post_id, 0), last_snapshot_moment);
        storage.insert_post(post.clone(), post.post_id < 50).unwrap();
    }

    {
        let top_posts_ids = ids(&delivered(storage.get_current_top_posts()));
        assert_eq!(
            top_posts_ids,
            (0..50).collect::<Vec<_>>(),
            "failed to validate top page after first snapshot"
        );
    }

    let last_snapshot_moment = moment(1_673_778_660, 0);
    for post_id in 100..200 {
        let post = sample_post(post_id, moment(1_600_000_000 + post_id, 0), last_snapshot_moment);
        storage.insert_post(post.clone(), post.post_id >= 150).unwrap();
    }

    {
        let top_posts_ids = ids(&delivered(storage.get_current_top_posts()));
        assert_eq!(
            top_posts_ids,
            (150..200).collect::<Vec<_>>(),
            "failed to validate top page after second snapshot"
        );
    }
}

#[test]
fn current_top_follows_the_latest_snapshot() {
    let mut storage = SnapshotStore::new();
    let first = moment(1_000, 0);
    for post_id in 0..100 {
        let mut post = sample_post(post_id, moment(10 + post_id, 0), first);
        if post_id == 7 {
            post.author = "early".to_owned();
        }
        storage.insert_post(post, post_id < 50).unwrap();
    }
    assert_eq!(ids(&delivered(storage.get_current_top_posts())), (0..50).collect::<Vec<_>>());

    let second = moment(2_000, 0);
    for post_id in 100..200 {
        storage.insert_post(sample_post(post_id, moment(10 + post_id, 0), second), post_id < 150).unwrap();
    }
    assert_eq!(ids(&delivered(storage.get_current_top_posts())), (100..150).collect::<Vec<_>>());

    let all = delivered(storage.get_user_posts(UserPostRequest::All { user: "early".to_owned() }));
    assert_eq!(ids(&all), vec![7]);
    let ever = delivered(storage.get_user_posts(UserPostRequest::WasAtFirstPage {
        user: "early".to_owned(),
    }));
    assert_eq!(ids(&ever), vec![7]);
}

#[test]
fn user_outside_front_page_has_posts_only_under_all() {
    let mut storage = SnapshotStore::new();
    let snapshot = moment(500, 0);
    let mut hidden = sample_post(1, moment(5, 0), snapshot);
    hidden.author = "quiet".to_owned();
    let mut shown = sample_post(2, moment(6, 0), snapshot);
    shown.author = "loud".to_owned();
    storage.insert_post(hidden.clone(), false).unwrap();
    storage.insert_post(shown, true).unwrap();

    let ever = delivered(storage.get_user_posts(UserPostRequest::WasAtFirstPage {
        user: "quiet".to_owned(),
    }));
    assert!(ever.is_empty());
    let all = delivered(storage.get_user_posts(UserPostRequest::All { user: "quiet".to_owned() }));
    assert_eq!(all, vec![hidden]);
}

#[test]
fn empty_store_answers_with_empty_streams() {
    let storage = SnapshotStore::new();
    assert_eq!(storage.post_count(), 0);
    assert_eq!(storage.latest_snapshot_moment(), None);
    assert!(delivered(storage.get_current_top_posts()).is_empty());
    assert!(delivered(storage.get_user_posts(UserPostRequest::All { user: "nobody".to_owned() }))
        .is_empty());
    assert!(delivered(storage.get_user_posts(UserPostRequest::WasAtFirstPage {
        user: "nobody".to_owned()
    }))
    .is_empty());
}

#[test]
fn observations_are_appended_not_merged() {
    let mut storage = SnapshotStore::new();
    let first = sample_post(42, moment(100, 0), moment(1_000, 0));
    let second = sample_post(42, moment(100, 0), moment(2_000, 0));
    let third = sample_post(42, moment(100, 0), moment(3_000, 0));
    storage.insert_post(first.clone(), true).unwrap();
    storage.insert_post(second.clone(), false).unwrap();
    storage.insert_post(third.clone(), true).unwrap();
    assert_eq!(storage.post_count(), 3);
    assert_eq!(storage.latest_snapshot_moment(), Some(moment(3_000, 0)));

    let all = delivered(storage.get_user_posts(UserPostRequest::All { user: "test".to_owned() }));
    assert_eq!(all, vec![first.clone(), second.clone(), third.clone()]);
    let top = delivered(storage.get_current_top_posts());
    assert_eq!(top, vec![first, second, third]);
}

#[test]
fn a_cycle_without_front_page_posts_leaves_the_current_top() {
    let mut storage = SnapshotStore::new();
    storage.insert_post(sample_post(1, moment(10, 0), moment(1_000, 0)), true).unwrap();
    storage.insert_post(sample_post(2, moment(20, 0), moment(2_000, 0)), false).unwrap();
    assert_eq!(storage.latest_snapshot_moment(), Some(moment(1_000, 0)));
    assert_eq!(ids(&delivered(storage.get_current_top_posts())), vec![1]);
}

#[test]
fn rows_are_ordered_by_publication_moment() {
    let mut storage = SnapshotStore::new();
    let snapshot = moment(9_000, 0);
    let published = [
        (1, moment(300, 0)),
        (2, moment(100, 5)),
        (3, moment(100, 4)),
        (4, moment(-7, 0)),
        (5, moment(100, 5)),
        (6, moment(300, 0)),
    ];
    for (post_id, at) in published {
        storage.insert_post(sample_post(post_id, at, snapshot), post_id % 2 == 0).unwrap();
    }
    let all = delivered(storage.get_user_posts(UserPostRequest::All { user: "test".to_owned() }));
    assert_eq!(ids(&all), vec![4, 3, 2, 5, 1, 6]);
    let ever = delivered(storage.get_user_posts(UserPostRequest::WasAtFirstPage {
        user: "test".to_owned(),
    }));
    assert_eq!(ids(&ever), vec![4, 2, 6]);
    assert_eq!(ids(&delivered(storage.get_current_top_posts())), vec![4, 2, 6]);
}

#[test]
fn front_page_scope_is_within_all() {
    let mut storage = SnapshotStore::new();
    for post_id in 0..30 {
        let mut post = sample_post(post_id % 10, moment(post_id * 3 % 7, 0), moment(post_id, 0));
        post.author = if post_id % 2 == 0 { "even".to_owned() } else { "odd".to_owned() };
        storage.insert_post(post, post_id % 5 == 0).unwrap();
    }
    for user in ["even", "odd", "none"] {
        let all = delivered(storage.get_user_posts(UserPostRequest::All { user: user.to_owned() }));
        let ever = delivered(storage.get_user_posts(UserPostRequest::WasAtFirstPage {
            user: user.to_owned(),
        }));
        assert!(ever.len() <= all.len());
        for post in &ever {
            assert!(all.contains(post));
        }
    }
}

#[test]
fn moments_are_compared_by_seconds_then_nanos() {
    assert!(moment(1, 999).is_before(&moment(2, 0)));
    assert!(moment(1, 1).is_before(&moment(1, 2)));
    assert!(!moment(1, 2).is_before(&moment(1, 2)));
    assert!(!moment(2, 0).is_before(&moment(1, 999)));
    assert!(moment(-1, 0).is_before(&moment(0, 0)));
}

#[test]
fn request_names_its_user() {
    assert_eq!(UserPostRequest::All { user: "pg".to_owned() }.get_user(), "pg");
    assert_eq!(UserPostRequest::WasAtFirstPage { user: "dang".to_owned() }.get_user(), "dang");
    assert_eq!(UserPostRequest::All { user: String::new() }.get_user(), "");
}

#[test]
fn duplicate_is_equal() {
    let mut post = sample_post(3, moment(1, 2), moment(3, 4));
    post.link = Some("https://example.com/a".to_owned());
    assert_eq!(post.duplicate(), post);
    let bare = sample_post(4, moment(1, 2), moment(3, 4));
    assert_eq!(bare.duplicate(), bare);
}
