//! The traversal of the news index: what a fetched page makes the crawler
//! visit next, and the post that a detail page yields.

use crate::decimal::{
    append_decimal, append_signed_decimal, decimal_digits, decimal_text, parse_post_id,
    parsed_post_id,
};
use crate::extract::{
    matched_attributes, node_attributes, parse_moment, parsed_moment, select, trim, trimmed,
    ExtractedNode,
};
use crate::hackernews_core::{text_view, DateTime, Post, PostId, PostView};
use vstd::prelude::*;
use vstd::string::StringExecFns;

verus! {

/// What the crawler set out to fetch.
#[derive(Debug, Clone, Copy, PartialEq, Eq, Structural)]
pub enum HackernewsState {
    /// A page of the index.
    Page { snapshot_time: DateTime, page: usize },
    /// The detail page of a post that was listed on page `page`.
    Post { snapshot_time: DateTime, post_id: PostId, page: usize },
}

/// A fetched page: where it came from, its markup, and what the crawler set
/// out to fetch when it asked for it.
#[derive(Debug, Clone, PartialEq, Eq)]
pub struct Response {
    pub response_url: String,
    pub text: String,
    pub state: Option<HackernewsState>,
}

/// Why a page could not be read.
#[derive(Debug, Clone, Copy, PartialEq, Eq, Structural)]
pub enum ScrapeError {
    /// A selector of the scraper is no selector.
    InvalidSelector,
    /// A post listed on an index page has an identifier that is no number.
    InvalidPostId,
    /// A detail page has no title.
    MissingTitle,
}

/// The one that is asked to visit further pages.
pub trait HackernewsCrawler {
    /// The visits asked for so far, in their order.
    spec fn visits(&self) -> Seq<HackernewsState>;

    /// Asks for a visit of page `page` of the index.
    fn visit_page(&mut self, page: usize, snapshot_time: DateTime)
        ensures
            final(self).visits() == old(self).visits().push(
                HackernewsState::Page { snapshot_time, page },
            ),
    ;

    /// Asks for a visit of the detail page of `post_id`, listed on page
    /// `page`.
    fn visit_post(&mut self, post_id: PostId, page: usize, snapshot_time: DateTime)
        ensures
            final(self).visits() == old(self).visits().push(
                HackernewsState::Post { snapshot_time, post_id, page },
            ),
    ;
}

/// The address of page `page` of the index.
pub open spec fn page_address(page: usize) -> Seq<char> {
    "https://news.ycombinator.com/news?p="@ + decimal_digits(page as nat)
}

/// The address of the detail page of `post_id`.
pub open spec fn post_address(post_id: PostId) -> Seq<char> {
    "https://news.ycombinator.com/item?id="@ + decimal_text(post_id as int)
}

/// The address at which a visit fetches.
pub open spec fn visit_address(state: HackernewsState) -> Seq<char> {
    match state {
        HackernewsState::Page { page, .. } => page_address(page),
        HackernewsState::Post { post_id, .. } => post_address(post_id),
    }
}

/// The address of page `page` of the index.
pub fn page_url(page: usize) -> (url: String)
    ensures
        url@ == page_address(page),
{
    let mut url = String::from_str("https://news.ycombinator.com/news?p=");
    append_decimal(&mut url, page as u64);
    url
}

/// The address of the detail page of `post_id`.
pub fn post_url(post_id: PostId) -> (url: String)
    ensures
        url@ == post_address(post_id),
{
    let mut url = String::from_str("https://news.ycombinator.com/item?id=");
    append_signed_decimal(&mut url, post_id);
    url
}

/// A visit that was asked for: the address to fetch and what is fetched
/// there.
#[derive(Debug, Clone, PartialEq, Eq)]
pub struct Visit {
    pub url: String,
    pub state: HackernewsState,
}

/// A crawler that keeps the visits it is asked for, each with its address,
/// for someone else to make.
pub struct VisitQueue {
    pub visits: Vec<Visit>,
}

impl VisitQueue {
    /// A queue without visits.
    pub fn new() -> (queue: VisitQueue)
        ensures
            queue.visits@.len() == 0,
            queue.well_formed(),
    {
        VisitQueue { visits: Vec::new() }
    }

    /// Every visit in the queue has the address of what it fetches.
    pub open spec fn well_formed(&self) -> bool {
        forall|i: int|
            0 <= i < self.visits@.len() ==> (#[trigger] self.visits@[i]).url@ == visit_address(
                self.visits@[i].state,
            )
    }
}

impl HackernewsCrawler for VisitQueue {
    open spec fn visits(&self) -> Seq<HackernewsState> {
        Seq::new(self.visits@.len(), |i: int| self.visits@[i].state)
    }

    fn visit_page(&mut self, page: usize, snapshot_time: DateTime)
        ensures
            final(self).visits@.len() == old(self).visits@.len() + 1,
            final(self).visits@.drop_last() == old(self).visits@,
            final(self).visits@.last().url@ == page_address(page),
            old(self).well_formed() ==> final(self).well_formed(),
    {
        let state = HackernewsState::Page { snapshot_time, page };
        self.visits.push(Visit { url: page_url(page), state });
        assert(self.visits() =~= old(self).visits().push(state));
        assert(self.visits@.drop_last() =~= old(self).visits@);
    }

    fn visit_post(&mut self, post_id: PostId, page: usize, snapshot_time: DateTime)
        ensures
            final(self).visits@.len() == old(self).visits@.len() + 1,
            final(self).visits@.drop_last() == old(self).visits@,
            final(self).visits@.last().url@ == post_address(post_id),
            old(self).well_formed() ==> final(self).well_formed(),
    {
        let state = HackernewsState::Post { snapshot_time, post_id, page };
        self.visits.push(Visit { url: post_url(post_id), state });
        assert(self.visits() =~= old(self).visits().push(state));
        assert(self.visits@.drop_last() =~= old(self).visits@);
    }
}


/// The notation of the publication timestamp on a detail page.
pub open spec fn moment_format() -> Seq<char> {
    "%Y-%m-%dT%H:%M:%S"@
}

/// The author of a post whose detail page names none.
pub open spec fn unknown_author() -> Seq<char> {
    "unknown"@
}

/// What a scraper is made of: the selectors of the elements it reads and the
/// last page of the index that it visits.
pub ghost struct ScraperView {
    pub post_selector: Seq<char>,
    pub author_selector: Seq<char>,
    pub publication_moment_selector: Seq<char>,
    pub title_selector: Seq<char>,
    pub max_page: usize,
}

/// Reads the pages of the news index.
#[derive(Debug, Clone)]
pub struct HackernewsScraper {
    post_selector: String,
    author_selector: String,
    publication_moment_selector: String,
    title_selector: String,
    max_page: usize,
}

impl View for HackernewsScraper {
    type V = ScraperView;

    closed spec fn view(&self) -> ScraperView {
        ScraperView {
            post_selector: self.post_selector@,
            author_selector: self.author_selector@,
            publication_moment_selector: self.publication_moment_selector@,
            title_selector: self.title_selector@,
            max_page: self.max_page,
        }
    }
}

impl Default for HackernewsScraper {
    /// The scraper of the news index as it is laid out, for its first ten
    /// pages.
    fn default() -> (scraper: HackernewsScraper)
        ensures
            scraper@ == (ScraperView {
                post_selector: "#hnmain tr.athing"@,
                author_selector: "a.hnuser"@,
                publication_moment_selector: "span.age"@,
                title_selector: "td.title a"@,
                max_page: 10,
            }),
    {
        HackernewsScraper {
            post_selector: String::from_str("#hnmain tr.athing"),
            author_selector: String::from_str("a.hnuser"),
            publication_moment_selector: String::from_str("span.age"),
            title_selector: String::from_str("td.title a"),
            max_page: 10,
        }
    }
}

/// The output of reading a page, with the post as its view.
pub open spec fn output_view(outcome: Result<Option<(usize, Post)>, ScrapeError>) -> Result<
    Option<(usize, PostView)>,
    ScrapeError,
> {
    match outcome {
        Ok(Some((page, post))) => Ok(Some((page, post@))),
        Ok(None) => Ok(None),
        Err(error) => Err(error),
    }
}

/// The identifiers that the attribute values denote, those of elements
/// without the attribute left out; nothing if one of the values is no
/// identifier.
pub open spec fn listed_ids(attributes: Seq<Option<Seq<char>>>) -> Option<Seq<PostId>>
    decreases attributes.len(),
{
    if attributes.len() == 0 {
        Some(Seq::empty())
    } else {
        match (listed_ids(attributes.drop_last()), attributes.last()) {
            (Some(earlier), None) => Some(earlier),
            (Some(earlier), Some(text)) => match parsed_post_id(text) {
                Some(id) => Some(earlier.push(id)),
                None => None,
            },
            (None, _) => None,
        }
    }
}

/// The visits that an index page asks for: the detail page of each post that
/// it lists, in the order of the list, and then the next page of the index
/// if there is one before the bound.
pub open spec fn page_visits(
    ids: Seq<PostId>,
    page: usize,
    snapshot_time: DateTime,
    max_page: usize,
) -> Seq<HackernewsState> {
    let posts = Seq::new(
        ids.len(),
        |i: int| HackernewsState::Post { snapshot_time, post_id: ids[i], page },
    );
    if page < max_page {
        posts.push(HackernewsState::Page { snapshot_time, page: (page + 1) as usize })
    } else {
        posts
    }
}

/// The attribute value of the first element, if there is an element and it
/// has the attribute.
pub open spec fn first_attribute(attributes: Seq<Option<Seq<char>>>) -> Option<Seq<char>> {
    if attributes.len() > 0 {
        attributes[0]
    } else {
        None
    }
}

/// The publication moment that the timestamp elements of a detail page
/// give: the one that the attribute of the first of them denotes, white
/// space around it left out.
pub open spec fn publication_of(attributes: Seq<Option<Seq<char>>>) -> Option<DateTime> {
    match first_attribute(attributes) {
        Some(raw) => parsed_moment(trimmed(raw), moment_format()),
        None => None,
    }
}

/// What a detail page yields. A page without a title is an error. A page
/// without a publication moment yields nothing. Any other page yields the
/// post, with the markup of its first title element as its title, the link
/// of that element if it has one, and the markup of its first author element
/// as its author, or `unknown` where there is none.
pub open spec fn assembled(
    post_id: PostId,
    page: usize,
    snapshot_time: DateTime,
    url: Seq<char>,
    titles: Seq<ExtractedNode>,
    authors: Seq<ExtractedNode>,
    publication_moment: Option<DateTime>,
) -> Result<Option<(usize, PostView)>, ScrapeError> {
    if titles.len() == 0 {
        Err(ScrapeError::MissingTitle)
    } else {
        match publication_moment {
            None => Ok(None),
            Some(moment) => Ok(
                Some(
                    (
                        page,
                        PostView {
                            post_id,
                            title: titles[0].inner_html@,
                            author: if authors.len() > 0 {
                                authors[0].inner_html@
                            } else {
                                unknown_author()
                            },
                            url,
                            link: text_view(titles[0].attribute),
                            publication_moment: moment,
                            last_snapshot_moment: snapshot_time,
                        },
                    ),
                ),
            ),
        }
    }
}

/// Reads the identifiers of the posts that an index page lists.
pub fn read_post_ids(nodes: &Vec<ExtractedNode>) -> (ids: Option<Vec<PostId>>)
    ensures
        match ids {
            Some(ids) => listed_ids(node_attributes(nodes@)) == Some(ids@),
            None => listed_ids(node_attributes(nodes@)) is None,
        },
{
    let ghost attributes = node_attributes(nodes@);
    let mut ids: Vec<PostId> = Vec::new();
    let mut i: usize = 0;
    assert(attributes.take(0) =~= Seq::empty());
    while i < nodes.len()
        invariant
            i <= nodes.len(),
            attributes == node_attributes(nodes@),
            listed_ids(attributes.take(i as int)) == Some(ids@),
        decreases nodes.len() - i,
    {
        proof {
            assert(attributes.take(i + 1).drop_last() =~= attributes.take(i as int));
            assert(attributes.take(i + 1).last() == text_view(nodes[i as int].attribute));
        }
        match &nodes[i].attribute {
            Some(text) => match parse_post_id(text.as_str()) {
                Some(id) => {
                    ids.push(id);
                },
                None => {
                    proof {
                        lemma_listed_ids_fail(attributes, i + 1);
                    }
                    return None;
                },
            },
            None => {},
        }
        i += 1;
    }
    assert(attributes.take(i as int) =~= attributes);
    Some(ids)
}

/// Where the identifiers of a part of the list cannot be read, those of the
/// whole list cannot be read.
proof fn lemma_listed_ids_fail(attributes: Seq<Option<Seq<char>>>, upto: int)
    requires
        0 <= upto <= attributes.len(),
        listed_ids(attributes.take(upto)) is None,
    ensures
        listed_ids(attributes) is None,
    decreases attributes.len() - upto,
{
    if upto < attributes.len() {
        assert(attributes.take(upto + 1).drop_last() =~= attributes.take(upto));
        lemma_listed_ids_fail(attributes, upto + 1);
    } else {
        assert(attributes.take(upto) =~= attributes);
    }
}

/// Reads the publication moment of a detail page from its timestamp
/// elements.
fn read_publication_moment(nodes: &Vec<ExtractedNode>) -> (moment: Option<DateTime>)
    ensures
        moment == publication_of(node_attributes(nodes@)),
{
    if nodes.len() == 0 {
        return None;
    }
    match &nodes[0].attribute {
        Some(raw) => parse_moment(trim(raw.as_str()), "%Y-%m-%dT%H:%M:%S"),
        None => None,
    }
}

/// Makes the post of a detail page from what was read there.
pub fn assemble_post(
    post_id: PostId,
    page: usize,
    snapshot_time: DateTime,
    url: String,
    titles: &Vec<ExtractedNode>,
    authors: &Vec<ExtractedNode>,
    publication_moment: Option<DateTime>,
) -> (outcome: Result<Option<(usize, Post)>, ScrapeError>)
    ensures
        output_view(outcome) == assembled(
            post_id,
            page,
            snapshot_time,
            url@,
            titles@,
            authors@,
            publication_moment,
        ),
{
    if titles.len() == 0 {
        return Err(ScrapeError::MissingTitle);
    }
    let author = if authors.len() > 0 {
        authors[0].inner_html.clone()
    } else {
        String::from_str("unknown")
    };
    let moment = match publication_moment {
        Some(moment) => moment,
        None => {
            return Ok(None);
        },
    };
    let link = match &titles[0].attribute {
        Some(link) => Some(link.clone()),
        None => None,
    };
    Ok(
        Some(
            (
                page,
                Post {
                    post_id,
                    author,
                    url,
                    link,
                    title: titles[0].inner_html.clone(),
                    publication_moment: moment,
                    last_snapshot_moment: snapshot_time,
                },
            ),
        ),
    )
}

impl HackernewsScraper {
    /// The same scraper with another last page of the index.
    pub fn with_max_page(self, max_page: usize) -> (scraper: HackernewsScraper)
        requires
            max_page >= 1,
        ensures
            scraper@ == (ScraperView { max_page, ..self@ }),
    {
        HackernewsScraper { max_page, ..self }
    }

    /// The last page of the index that the scraper visits.
    pub fn max_page(&self) -> (max_page: usize)
        ensures
            max_page == self@.max_page,
    {
        self.max_page
    }

    /// The visit with which a cycle begins: the first page of the index.
    pub fn first_visit(snapshot_time: DateTime) -> (visit: Visit)
        ensures
            visit.url@ == "https://news.ycombinator.com/news"@,
            visit.state == (HackernewsState::Page { snapshot_time, page: 1 }),
    {
        Visit {
            url: String::from_str("https://news.ycombinator.com/news"),
            state: HackernewsState::Page { snapshot_time, page: 1 },
        }
    }

    /// Asks the crawler for the visits that follow from an index page: the
    /// detail page of each listed post, then the next page of the index if
    /// `page` is not the last. Asks for nothing if an identifier cannot be
    /// read.
    pub fn schedule_page<C: HackernewsCrawler>(
        &self,
        nodes: &Vec<ExtractedNode>,
        page: usize,
        snapshot_time: DateTime,
        crawler: &mut C,
    ) -> (outcome: Result<(), ScrapeError>)
        ensures
            match listed_ids(node_attributes(nodes@)) {
                Some(ids) => outcome is Ok && final(crawler).visits() == old(crawler).visits()
                    + page_visits(ids, page, snapshot_time, self@.max_page),
                None => outcome == Err::<(), ScrapeError>(ScrapeError::InvalidPostId)
                    && final(crawler).visits() == old(crawler).visits(),
            },
    {
        let ids = match read_post_ids(nodes) {
            Some(ids) => ids,
            None => {
                return Err(ScrapeError::InvalidPostId);
            },
        };
        let ghost before = crawler.visits();
        let ghost planned = page_visits(ids@, page, snapshot_time, self@.max_page);
        let mut i: usize = 0;
        assert(before + planned.take(0) =~= before);
        while i < ids.len()
            invariant
                i <= ids.len(),
                planned == page_visits(ids@, page, snapshot_time, self@.max_page),
                crawler.visits() == before + planned.take(i as int),
            decreases ids.len() - i,
        {
            crawler.visit_post(ids[i], page, snapshot_time);
            assert(before + planned.take(i + 1) =~= (before + planned.take(i as int)).push(
                planned[i as int],
            ));
            i += 1;
        }
        if page < self.max_page {
            crawler.visit_page(page + 1, snapshot_time);
            assert(before + planned =~= (before + planned.take(i as int)).push(
                planned[i as int],
            ));
        } else {
            assert(planned.take(i as int) =~= planned);
        }
        Ok(())
    }

    /// What reading `response` comes to, given the visits asked of the
    /// crawler before and after: `outcome` and `after` are the ones that
    /// follow from the page.
    ///
    /// A response without a state yields nothing. An index page asks for its
    /// visits and yields nothing. A detail page asks for no visit and yields
    /// what `assembled` says, of the titles and authors that the page holds.
    pub open spec fn scraped(
        &self,
        response: Response,
        before: Seq<HackernewsState>,
        outcome: Result<Option<(usize, PostView)>, ScrapeError>,
        after: Seq<HackernewsState>,
    ) -> bool {
        match response.state {
            None => outcome == Ok::<Option<(usize, PostView)>, ScrapeError>(None) && after
                == before,
            Some(HackernewsState::Page { page, snapshot_time }) => match matched_attributes(
                response.text@,
                self@.post_selector,
                Some("id"@),
            ) {
                None => outcome == Err::<Option<(usize, PostView)>, ScrapeError>(
                    ScrapeError::InvalidSelector,
                ) && after == before,
                Some(attributes) => match listed_ids(attributes) {
                    None => outcome == Err::<Option<(usize, PostView)>, ScrapeError>(
                        ScrapeError::InvalidPostId,
                    ) && after == before,
                    Some(ids) => outcome == Ok::<Option<(usize, PostView)>, ScrapeError>(None)
                        && after == before + page_visits(
                        ids,
                        page,
                        snapshot_time,
                        self@.max_page,
                    ),
                },
            },
            Some(HackernewsState::Post { post_id, page, snapshot_time }) => after == before && match (
                matched_attributes(response.text@, self@.title_selector, Some("href"@)),
                matched_attributes(response.text@, self@.author_selector, None),
                matched_attributes(
                    response.text@,
                    self@.publication_moment_selector,
                    Some("title"@),
                ),
            ) {
                (Some(links), Some(names), Some(moments)) => exists|
                    titles: Seq<ExtractedNode>,
                    authors: Seq<ExtractedNode>,
                |
                    node_attributes(titles) == links && node_attributes(authors) == names
                        && outcome == #[trigger] assembled(
                        post_id,
                        page,
                        snapshot_time,
                        response.response_url@,
                        titles,
                        authors,
                        publication_of(moments),
                    ),
                _ => outcome == Err::<Option<(usize, PostView)>, ScrapeError>(
                    ScrapeError::InvalidSelector,
                ),
            },
        }
    }

    /// Reads a fetched page. An index page makes the crawler visit the
    /// detail page of each post it lists and, before the last page, the next
    /// page of the index. A detail page yields its post, with the page on
    /// which the post was listed, or nothing if its publication moment
    /// cannot be read.
    pub fn scrape_internal<C: HackernewsCrawler>(&self, response: Response, crawler: &mut C) -> (outcome:
        Result<Option<(usize, Post)>, ScrapeError>)
        ensures
            self.scraped(
                response,
                old(crawler).visits(),
                output_view(outcome),
                final(crawler).visits(),
            ),
    {
        match response.state {
            Some(HackernewsState::Page { page, snapshot_time }) => {
                let nodes = match select(
                    response.text.as_str(),
                    self.post_selector.as_str(),
                    Some("id"),
                ) {
                    Some(nodes) => nodes,
                    None => {
                        return Err(ScrapeError::InvalidSelector);
                    },
                };
                match self.schedule_page(&nodes, page, snapshot_time, crawler) {
                    Ok(()) => Ok(None),
                    Err(error) => Err(error),
                }
            },
            Some(HackernewsState::Post { post_id, page, snapshot_time }) => {
                let titles = select(
                    response.text.as_str(),
                    self.title_selector.as_str(),
                    Some("href"),
                );
                let authors = select(response.text.as_str(), self.author_selector.as_str(), None);
                let moments = select(
                    response.text.as_str(),
                    self.publication_moment_selector.as_str(),
                    Some("title"),
                );
                match (titles, authors, moments) {
                    (Some(titles), Some(authors), Some(moments)) => {
                        let publication_moment = read_publication_moment(&moments);
                        let outcome = assemble_post(
                            post_id,
                            page,
                            snapshot_time,
                            response.response_url,
                            &titles,
                            &authors,
                            publication_moment,
                        );
                        proof {
                            assert(output_view(outcome) == assembled(
                                post_id,
                                page,
                                snapshot_time,
                                response.response_url@,
                                titles@,
                                authors@,
                                publication_of(node_attributes(moments@)),
                            ));
                        }
                        outcome
                    },
                    _ => Err(ScrapeError::InvalidSelector),
                }
            },
            None => Ok(None),
        }
    }
}

} // verus!
