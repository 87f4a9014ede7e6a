use hackernews_crawler::crawl_cycle::{crawl_step, record_output, Step};
use hackernews_crawler::decimal::{append_decimal, append_signed_decimal, parse_post_id};
use hackernews_crawler::extract::ExtractedNode;
use hackernews_crawler::hackernews_core::{DateTime, Post, UserPostRequest};
use hackernews_crawler::hackernews_scrapper::{
    assemble_post, page_url, post_url, read_post_ids, HackernewsCrawler, HackernewsScraper,
    HackernewsState, Response, ScrapeError, Visit, VisitQueue,
};
use hackernews_crawler::posts_storage::{
    GetCurrentTopPosts, GetUserPosts, InsertPost, SnapshotStore,
};

const FIRST_PAGE_IDS: [i64; 30] = [
    34388962, 34388369, 34387409, 34388866, 34388826, 34389037, 34388095, 34388670, 34388773,
    34388985, 34382212, 34387407, 34384825, 34386309, 34386570, 34386052, 34384941, 34385766,
    34384719, 34384767, 34386929, 34386443, 34387081, 34386876, 34385223, 34387834, 34384681,
    34383529, 34376781, 34386017,
];

fn index_page(ids: &[i64]) -> String {
    let mut text = String::from(
        "<html><head><title>Hacker News</title></head><body><center>\
         <table id=\"hnmain\"><tr><td><table><tr><td>Hacker News</td></tr></table></td></tr>\
         <tr id=\"pagespace\" title=\"\" style=\"height:10px\"></tr><tr><td><table>",
    );
    for (rank, id) in ids.iter().enumerate() {
        text.push_str(&format!(
            "<tr class='athing' id='{id}'><td class=\"title\"><span class=\"rank\">{}.</span></td>\
             <td class=\"title\"><span class=\"titleline\"><a href=\"https://example.com/{id}\">Story {id}</a>\
             </span></td></tr><tr><td class=\"subtext\"><span class=\"score\" id=\"score_{id}\">1 point</span>\
             </td></tr><tr class=\"spacer\" style=\"height:5px\"></tr>",
            rank + 1
        ));
    }
    text.push_str("</table></td></tr></table></center></body></html>");
    text
}

fn detail_page(title: &str, author: Option<&str>, age: Option<&str>) -> String {
    let author = match author {
        Some(author) => format!("<a href=\"user?id={author}\" class=\"hnuser\">{author}</a>"),
        None => String::new(),
    };
    let age = match age {
        Some(age) => format!("<span class=\"age\" title=\"{age}\"><a href=\"item?id=1\">1 hour ago</a></span>"),
        None => String::new(),
    };
    format!(
        "<html><body><table id=\"hnmain\"><tr class=\"athing\" id=\"1\">{title}</tr>\
         <tr><td class=\"subtext\">{author} {age}</td></tr></table></body></html>"
    )
}

fn snapshot() -> DateTime {
    DateTime { seconds: 1_673_800_000, nanos: 123_456_789 }
}

fn response(text: String, state: Option<HackernewsState>) -> Response {
    Response { response_url: "https://news.ycombinator.com/".to_owned(), text, state }
}

fn detail_state(page: usize) -> Option<HackernewsState> {
    Some(HackernewsState::Post { snapshot_time: snapshot(), post_id: 34388962, page })
}

#[test]
fn test_visit_news_page() {
    let snapshot_time = snapshot();
    let expected_visits: Vec<HackernewsState> = FIRST_PAGE_IDS
        .into_iter()
        .map(|post_id| HackernewsState::Post { snapshot_time, post_id, page: 1 })
        .collect();
    let mut crawler = VisitQueue::new();

    HackernewsScraper::default()
        .with_max_page(1)
        .scrape_internal(
            Response {
                response_url: "https://news.ycombinator.com/".to_owned(),
                text: index_page(&FIRST_PAGE_IDS),
                state: Some(HackernewsState::Page { page: 1, snapshot_time }),
            },
            &mut crawler,
        )
        .unwrap();
    let visits: Vec<HackernewsState> = crawler.visits.iter().map(|visit| visit.state).collect();
    assert_eq!(visits, expected_visits);
}

#[test]
fn index_page_before_the_bound_asks_for_the_next_page() {
    let mut queue = VisitQueue::new();
    let outcome = HackernewsScraper::default().scrape_internal(
        response(index_page(&[7, 8]), Some(HackernewsState::Page { page: 3, snapshot_time: snapshot() })),
        &mut queue,
    );
    assert_eq!(outcome, Ok(None));
    assert_eq!(
        queue.visits,
        vec![
            Visit {
                url: "https://news.ycombinator.com/item?id=7".to_owned(),
                state: HackernewsState::Post { snapshot_time: snapshot(), post_id: 7, page: 3 },
            },
            Visit {
                url: "https://news.ycombinator.com/item?id=8".to_owned(),
                state: HackernewsState::Post { snapshot_time: snapshot(), post_id: 8, page: 3 },
            },
            Visit {
                url: "https://news.ycombinator.com/news?p=4".to_owned(),
                state: HackernewsState::Page { snapshot_time: snapshot(), page: 4 },
            },
        ]
    );
}

#[test]
fn index_page_at_the_bound_asks_for_posts_only() {
    let mut queue = VisitQueue::new();
    let scraper = HackernewsScraper::default();
    assert_eq!(scraper.max_page(), 10);
    let outcome = scraper.scrape_internal(
        response(index_page(&[5]), Some(HackernewsState::Page { page: 10, snapshot_time: snapshot() })),
        &mut queue,
    );
    assert_eq!(outcome, Ok(None));
    assert_eq!(queue.visits.len(), 1);
    assert_eq!(
        queue.visits[0].state,
        HackernewsState::Post { snapshot_time: snapshot(), post_id: 5, page: 10 }
    );
}

#[test]
fn single_page_cycle_never_leaves_the_first_page() {
    let scraper = HackernewsScraper::default().with_max_page(1);
    let mut storage = SnapshotStore::new();
    let mut queue = VisitQueue::new();
    let first = HackernewsScraper::first_visit(snapshot());
    assert_eq!(first.url, "https://news.ycombinator.com/news");
    assert_eq!(first.state, HackernewsState::Page { snapshot_time: snapshot(), page: 1 });

    let step = crawl_step(
        &scraper,
        response(index_page(&FIRST_PAGE_IDS), Some(first.state)),
        &mut queue,
        &mut storage,
    );
    assert_eq!(step, Step::Nothing);
    assert_eq!(queue.visits.len(), 30);
    let mut followed = 0;
    while let Some(visit) = queue.visits.pop() {
        assert!(matches!(visit.state, HackernewsState::Post { page: 1, .. }));
        let page = detail_page(
            "<td class=\"title\"><a href=\"https://example.com\">Title</a></td>",
            Some("pg"),
            Some("2023-01-15T10:30:00"),
        );
        let step = crawl_step(&scraper, response(page, Some(visit.state)), &mut queue, &mut storage);
        assert_eq!(step, Step::Stored { is_first_page: true });
        assert!(queue.visits.len() < 30);
        followed += 1;
    }
    assert_eq!(followed, 30);
    assert_eq!(storage.post_count(), 30);
}

#[test]
fn index_page_with_a_bad_identifier_asks_for_nothing() {
    let text = "<table id=\"hnmain\"><tr class=\"athing\" id=\"12\"></tr>\
                <tr class=\"athing\" id=\"up_13\"></tr><tr class=\"athing\" id=\"14\"></tr></table>";
    let mut queue = VisitQueue::new();
    let outcome = HackernewsScraper::default().scrape_internal(
        response(text.to_owned(), Some(HackernewsState::Page { page: 1, snapshot_time: snapshot() })),
        &mut queue,
    );
    assert_eq!(outcome, Err(ScrapeError::InvalidPostId));
    assert!(queue.visits.is_empty());
}

#[test]
fn rows_without_an_identifier_are_passed_over() {
    let text = "<table id=\"hnmain\"><tr class=\"athing\"></tr>\
                <tr class=\"athing\" id=\"-14\"></tr><tr class=\"other\" id=\"15\"></tr></table>\
                <table><tr class=\"athing\" id=\"16\"></tr></table>";
    let mut queue = VisitQueue::new();
    let outcome = HackernewsScraper::default().with_max_page(1).scrape_internal(
        response(text.to_owned(), Some(HackernewsState::Page { page: 1, snapshot_time: snapshot() })),
        &mut queue,
    );
    assert_eq!(outcome, Ok(None));
    assert_eq!(
        queue.visits,
        vec![Visit {
            url: "https://news.ycombinator.com/item?id=-14".to_owned(),
            state: HackernewsState::Post { snapshot_time: snapshot(), post_id: -14, page: 1 },
        }]
    );
}

#[test]
fn response_without_state_yields_nothing() {
    let mut queue = VisitQueue::new();
    let outcome =
        HackernewsScraper::default().scrape_internal(response(index_page(&[1, 2]), None), &mut queue);
    assert_eq!(outcome, Ok(None));
    assert!(queue.visits.is_empty());
}

#[test]
fn detail_page_yields_its_post() {
    let text = detail_page(
        "<td class=\"title\"><a href=\"https://example.com/story\">A <b>bold</b> story</a></td>",
        Some("pg"),
        Some("2023-01-15T10:30:00"),
    );
    let mut queue = VisitQueue::new();
    let outcome = HackernewsScraper::default().scrape_internal(response(text, detail_state(1)), &mut queue);
    assert_eq!(
        outcome,
        Ok(Some((
            1,
            Post {
                post_id: 34388962,
                title: "A <b>bold</b> story".to_owned(),
                author: "pg".to_owned(),
                url: "https://news.ycombinator.com/".to_owned(),
                link: Some("https://example.com/story".to_owned()),
                publication_moment: DateTime { seconds: 1_673_778_600, nanos: 0 },
                last_snapshot_moment: snapshot(),
            }
        )))
    );
    assert!(queue.visits.is_empty());
}

#[test]
fn detail_page_without_author_names_unknown() {
    let text = detail_page(
        "<td class=\"title\"><a>Ask: no link</a></td>",
        None,
        Some("2023-01-14T09:57:17"),
    );
    let mut queue = VisitQueue::new();
    let outcome = HackernewsScraper::default().scrape_internal(response(text, detail_state(4)), &mut queue);
    let (page, post) = outcome.unwrap().unwrap();
    assert_eq!(page, 4);
    assert_eq!(post.author, "unknown");
    assert_eq!(post.link, None);
    assert_eq!(post.title, "Ask: no link");
    assert_eq!(post.publication_moment, DateTime { seconds: 1_673_690_237, nanos: 0 });
}

#[test]
fn detail_page_with_unreadable_moment_is_dropped() {
    for age in [
        Some("yesterday"),
        Some(""),
        Some("2023-01-15 10:30:00"),
        Some("2023-13-15T10:30:00"),
        Some("2023-01-15T10:30:00Z"),
        Some("\u{200B}2023-01-15T10:30:00"),
        None,
    ] {
        let text = detail_page(
            "<td class=\"title\"><a href=\"https://example.com\">Title</a></td>",
            Some("pg"),
            age,
        );
        let mut queue = VisitQueue::new();
        let mut storage = SnapshotStore::new();
        let scraper = HackernewsScraper::default();
        assert_eq!(scraper.scrape_internal(response(text.clone(), detail_state(1)), &mut queue), Ok(None));
        let step = crawl_step(&scraper, response(text, detail_state(1)), &mut queue, &mut storage);
        assert_eq!(step, Step::Nothing);
        assert_eq!(storage.post_count(), 0);
        assert_eq!(storage.latest_snapshot_moment(), None);
        assert!(queue.visits.is_empty());
    }
}

#[test]
fn white_space_around_the_moment_is_left_out() {
    for age in [
        " 2023-01-15T10:30:00 ",
        "\t\n2023-01-15T10:30:00\r\n",
        "\u{00A0}2023-01-15T10:30:00\u{3000}",
        "\u{2003}\u{0085}2023-01-15T10:30:00\u{2028}\u{205F}",
    ] {
        let text = detail_page(
            "<td class=\"title\"><a href=\"https://example.com\">Title</a></td>",
            Some("pg"),
            Some(age),
        );
        let mut queue = VisitQueue::new();
        let outcome = HackernewsScraper::default().scrape_internal(response(text, detail_state(2)), &mut queue);
        let (_, post) = outcome.unwrap().unwrap();
        assert_eq!(post.publication_moment, DateTime { seconds: 1_673_778_600, nanos: 0 });
    }
}

#[test]
fn every_white_space_character_is_left_out() {
    let white_space = [
        '\u{0009}', '\u{000A}', '\u{000B}', '\u{000C}', '\u{000D}', '\u{0020}', '\u{0085}',
        '\u{00A0}', '\u{1680}', '\u{2000}', '\u{2001}', '\u{2002}', '\u{2003}', '\u{2004}',
        '\u{2005}', '\u{2006}', '\u{2007}', '\u{2008}', '\u{2009}', '\u{200A}', '\u{2028}',
        '\u{2029}', '\u{202F}', '\u{205F}', '\u{3000}',
    ];
    for c in white_space {
        assert!(c.is_whitespace());
        let text = detail_page(
            "<td class=\"title\"><a href=\"https://example.com\">Title</a></td>",
            Some("pg"),
            Some(&format!("{c}{c}2023-01-15T10:30:00{c}")),
        );
        let mut queue = VisitQueue::new();
        let outcome = HackernewsScraper::default().scrape_internal(response(text, detail_state(2)), &mut queue);
        let (_, post) = outcome.unwrap().unwrap();
        assert_eq!(post.publication_moment, DateTime { seconds: 1_673_778_600, nanos: 0 });
    }
    for c in ['\u{0008}', '\u{001F}', '\u{180E}', '\u{200B}', '\u{2060}', '\u{FEFF}', '_'] {
        assert!(!c.is_whitespace());
        for age in [format!("{c}2023-01-15T10:30:00"), format!("2023-01-15T10:30:00{c}")] {
            let text = detail_page(
                "<td class=\"title\"><a href=\"https://example.com\">Title</a></td>",
                Some("pg"),
                Some(&age),
            );
            let mut queue = VisitQueue::new();
            let outcome =
                HackernewsScraper::default().scrape_internal(response(text, detail_state(2)), &mut queue);
            assert_eq!(outcome, Ok(None));
        }
    }
}

#[test]
fn moments_before_1970_and_leap_seconds_are_read() {
    for (age, expected) in [
        ("1969-12-31T23:59:59", DateTime { seconds: -1, nanos: 0 }),
        ("2016-12-31T23:59:60", DateTime { seconds: 1_483_228_799, nanos: 1_000_000_000 }),
    ] {
        let text = detail_page(
            "<td class=\"title\"><a href=\"https://example.com\">Title</a></td>",
            Some("pg"),
            Some(age),
        );
        let mut queue = VisitQueue::new();
        let outcome = HackernewsScraper::default().scrape_internal(response(text, detail_state(2)), &mut queue);
        let (_, post) = outcome.unwrap().unwrap();
        assert_eq!(post.publication_moment, expected);
    }
}

#[test]
fn detail_page_without_title_is_an_error() {
    let text = detail_page("<td class=\"other\"><a href=\"x\">Title</a></td>", Some("pg"), Some("2023-01-15T10:30:00"));
    let mut queue = VisitQueue::new();
    let mut storage = SnapshotStore::new();
    let scraper = HackernewsScraper::default();
    assert_eq!(
        scraper.scrape_internal(response(text.clone(), detail_state(1)), &mut queue),
        Err(ScrapeError::MissingTitle)
    );
    let step = crawl_step(&scraper, response(text, detail_state(1)), &mut queue, &mut storage);
    assert_eq!(step, Step::Dropped(ScrapeError::MissingTitle));
    assert_eq!(storage.post_count(), 0);
}

#[test]
fn first_of_several_elements_is_taken() {
    let text = "<table><tr><td class=\"title\"><a href=\"first\">One</a></td>\
                <td class=\"title\"><a href=\"second\">Two</a></td></tr></table>\
                <a class=\"hnuser\">alice</a><a class=\"hnuser\">bob</a>\
                <span class=\"age\" title=\"2023-01-15T10:30:00\"></span>\
                <span class=\"age\" title=\"2023-01-14T09:57:17\"></span>";
    let mut queue = VisitQueue::new();
    let outcome =
        HackernewsScraper::default().scrape_internal(response(text.to_owned(), detail_state(1)), &mut queue);
    let (_, post) = outcome.unwrap().unwrap();
    assert_eq!(post.title, "One");
    assert_eq!(post.link, Some("first".to_owned()));
    assert_eq!(post.author, "alice");
    assert_eq!(post.publication_moment, DateTime { seconds: 1_673_778_600, nanos: 0 });
}

#[test]
fn first_timestamp_element_without_title_drops_the_post() {
    let text = "<table><tr><td class=\"title\"><a href=\"first\">One</a></td></tr></table>\
                <span class=\"age\"></span>\
                <span class=\"age\" title=\"2023-01-14T09:57:17\"></span>";
    let mut queue = VisitQueue::new();
    let outcome =
        HackernewsScraper::default().scrape_internal(response(text.to_owned(), detail_state(1)), &mut queue);
    assert_eq!(outcome, Ok(None));
}

fn node(attribute: Option<&str>, inner_html: &str) -> ExtractedNode {
    ExtractedNode { attribute: attribute.map(str::to_owned), inner_html: inner_html.to_owned() }
}

#[test]
fn assemble_post_follows_what_was_read() {
    let published = DateTime { seconds: 77, nanos: 5 };
    let titles = vec![node(Some("https://a.example"), "Title"), node(None, "Other")];
    let authors = vec![node(None, "carol")];
    assert_eq!(
        assemble_post(9, 2, snapshot(), "u".to_owned(), &titles, &authors, Some(published)),
        Ok(Some((
            2,
            Post {
                post_id: 9,
                title: "Title".to_owned(),
                author: "carol".to_owned(),
                url: "u".to_owned(),
                link: Some("https://a.example".to_owned()),
                publication_moment: published,
                last_snapshot_moment: snapshot(),
            }
        )))
    );
    assert_eq!(
        assemble_post(9, 2, snapshot(), "u".to_owned(), &titles, &authors, None),
        Ok(None)
    );
    assert_eq!(
        assemble_post(9, 2, snapshot(), "u".to_owned(), &Vec::new(), &authors, Some(published)),
        Err(ScrapeError::MissingTitle)
    );
    assert_eq!(
        assemble_post(9, 2, snapshot(), "u".to_owned(), &Vec::new(), &authors, None),
        Err(ScrapeError::MissingTitle)
    );
    let (_, post) =
        assemble_post(9, 2, snapshot(), "u".to_owned(), &titles[1..].to_vec(), &Vec::new(), Some(published))
            .unwrap()
            .unwrap();
    assert_eq!(post.author, "unknown");
    assert_eq!(post.link, None);
    assert_eq!(post.title, "Other");
}

#[test]
fn read_post_ids_reads_every_identifier() {
    let nodes = vec![node(Some("1"), ""), node(None, "x"), node(Some("+22"), ""), node(Some("-3"), "")];
    assert_eq!(read_post_ids(&nodes), Some(vec![1, 22, -3]));
    assert_eq!(read_post_ids(&Vec::new()), Some(Vec::new()));
    let bad = vec![node(Some("1"), ""), node(Some("two"), ""), node(Some("3"), "")];
    assert_eq!(read_post_ids(&bad), None);
}

#[test]
fn schedule_page_asks_in_order() {
    let scraper = HackernewsScraper::default().with_max_page(2);
    let mut queue = VisitQueue::new();
    queue.visit_page(9, snapshot());
    let nodes = vec![node(Some("5"), ""), node(Some("6"), "")];
    assert_eq!(scraper.schedule_page(&nodes, 1, snapshot(), &mut queue), Ok(()));
    let states: Vec<HackernewsState> = queue.visits.iter().map(|visit| visit.state).collect();
    assert_eq!(
        states,
        vec![
            HackernewsState::Page { snapshot_time: snapshot(), page: 9 },
            HackernewsState::Post { snapshot_time: snapshot(), post_id: 5, page: 1 },
            HackernewsState::Post { snapshot_time: snapshot(), post_id: 6, page: 1 },
            HackernewsState::Page { snapshot_time: snapshot(), page: 2 },
        ]
    );
    let before = queue.visits.clone();
    let bad = vec![node(Some("5"), ""), node(Some("x"), "")];
    assert_eq!(scraper.schedule_page(&bad, 1, snapshot(), &mut queue), Err(ScrapeError::InvalidPostId));
    assert_eq!(queue.visits, before);
    assert_eq!(scraper.schedule_page(&nodes, 2, snapshot(), &mut queue), Ok(()));
    assert_eq!(queue.visits.len(), before.len() + 2);
}

#[test]
fn post_identifiers_are_parsed_as_whole_numbers() {
    assert_eq!(parse_post_id("34388962"), Some(34388962));
    assert_eq!(parse_post_id("0"), Some(0));
    assert_eq!(parse_post_id("-0"), Some(0));
    assert_eq!(parse_post_id("+17"), Some(17));
    assert_eq!(parse_post_id("-17"), Some(-17));
    assert_eq!(parse_post_id("000000000000000000000000123"), Some(123));
    assert_eq!(parse_post_id("9223372036854775807"), Some(i64::MAX));
    assert_eq!(parse_post_id("-9223372036854775808"), Some(i64::MIN));
    assert_eq!(parse_post_id("9223372036854775808"), None);
    assert_eq!(parse_post_id("-9223372036854775809"), None);
    assert_eq!(parse_post_id("99999999999999999999999"), None);
    assert_eq!(parse_post_id(""), None);
    assert_eq!(parse_post_id("+"), None);
    assert_eq!(parse_post_id("-"), None);
    assert_eq!(parse_post_id("+-1"), None);
    assert_eq!(parse_post_id(" 1"), None);
    assert_eq!(parse_post_id("1 "), None);
    assert_eq!(parse_post_id("12a"), None);
    assert_eq!(parse_post_id("1_000"), None);
    assert_eq!(parse_post_id("\u{0661}\u{0662}"), None);
    for text in ["34388962", "+5", "-", "", "9223372036854775808", "007", "1e3", "0x10"] {
        assert_eq!(parse_post_id(text), text.parse::<i64>().ok());
    }
}

#[test]
fn numbers_are_written_in_decimal() {
    for n in [0u64, 7, 10, 99, 100, 12345, u64::MAX] {
        let mut out = "p=".to_owned();
        append_decimal(&mut out, n);
        assert_eq!(out, format!("p={n}"));
    }
    for n in [0i64, -1, 1, -10, 34388962, i64::MAX, i64::MIN] {
        let mut out = String::new();
        append_signed_decimal(&mut out, n);
        assert_eq!(out, format!("{n}"));
    }
}

#[test]
fn addresses_of_visits() {
    assert_eq!(page_url(1), "https://news.ycombinator.com/news?p=1");
    assert_eq!(page_url(10), "https://news.ycombinator.com/news?p=10");
    assert_eq!(page_url(0), "https://news.ycombinator.com/news?p=0");
    assert_eq!(post_url(34388962), "https://news.ycombinator.com/item?id=34388962");
    assert_eq!(post_url(-5), "https://news.ycombinator.com/item?id=-5");
}

#[test]
fn output_is_recorded_by_its_page() {
    let mut storage = SnapshotStore::new();
    let post = |post_id: i64| Post {
        post_id,
        title: "t".to_owned(),
        author: "a".to_owned(),
        url: "u".to_owned(),
        link: None,
        publication_moment: DateTime { seconds: post_id, nanos: 0 },
        last_snapshot_moment: snapshot(),
    };
    assert_eq!(record_output::<_, ScrapeError>(&mut storage, Ok((1, post(1)))), Ok(()));
    assert_eq!(record_output::<_, ScrapeError>(&mut storage, Ok((2, post(2)))), Ok(()));
    assert_eq!(record_output(&mut storage, Err(ScrapeError::MissingTitle)), Ok(()));
    assert_eq!(record_output::<_, ScrapeError>(&mut storage, Ok((0, post(3)))), Ok(()));
    assert_eq!(storage.post_count(), 3);
    let top: Vec<i64> = storage
        .get_current_top_posts()
        .unwrap()
        .into_iter()
        .map(|post| post.unwrap().post_id)
        .collect();
    assert_eq!(top, vec![1]);
    let all = storage.get_user_posts(UserPostRequest::All { user: "a".to_owned() }).unwrap();
    assert_eq!(all.len(), 3);
    storage.insert_post(post(4), true).unwrap();
    assert_eq!(storage.post_count(), 4);
}
