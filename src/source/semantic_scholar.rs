//! The paper-search (Semantic Scholar) adapter: request URLs, the retry
//! policy, search paging, and the mapping of papers into content.

use vstd::prelude::*;
use vstd::arithmetic::power::pow;

use crate::config::{SemanticScholarConfig, SemanticScholarMode};
use crate::error::FetchError;
use crate::source::{Content, Source, SourceFilters};
use crate::text::{count_text, decimal, parse_u64, unsigned_value, url_encode, url_encoded};

verus! {

/// How many times a rate-limited or failing request is retried.
pub const MAX_RETRIES: u32 = 3;

/// Largest page the search endpoint is asked for.
pub const API_PAGE_SIZE: usize = 100;

/// Search offset at which paging stops, whatever the endpoint says.
pub const MAX_OFFSET: usize = 10000;

/// Seconds from one year to the next in the timestamp approximation.
pub const SECONDS_PER_YEAR: i64 = 31536000;

/// An author of a paper.
#[derive(Debug, Clone)]
pub struct Author {
    pub author_id: Option<String>,
    pub name: Option<String>,
}

/// A paper as the provider describes it; every field but the identifier
/// may be missing.
#[derive(Debug, Clone)]
pub struct Paper {
    pub paper_id: String,
    pub title: Option<String>,
    pub abstract_text: Option<String>,
    pub year: Option<i32>,
    pub citation_count: Option<i32>,
    pub url: Option<String>,
    pub authors: Vec<Author>,
}

/// One page of search results.
#[derive(Debug, Clone)]
pub struct SearchPage {
    pub total: Option<i64>,
    pub offset: Option<i64>,
    /// Offset of the next page, absent on the last one.
    pub next: Option<i64>,
    pub data: Vec<Paper>,
}

/// Citation count of a paper, zero when missing.
pub open spec fn citations(p: Paper) -> i32 {
    match p.citation_count {
        Some(n) => n,
        None => 0,
    }
}

/// A paper is kept when it has a title or an abstract and enough citations.
pub open spec fn keeps_paper(c: SemanticScholarConfig, p: Paper) -> bool {
    !(p.title is None && p.abstract_text is None) && citations(p) >= c.min_citations
}

/// The paper filter as a predicate.
pub open spec fn paper_keeps(c: SemanticScholarConfig) -> spec_fn(Paper) -> bool {
    |p: Paper| keeps_paper(c, p)
}

/// Approximate Unix time of the start of a year: 365-day years from 1970.
pub open spec fn year_timestamp(year: Option<i32>) -> int {
    match year {
        Some(y) => (y - 1970) * SECONDS_PER_YEAR,
        None => 0,
    }
}

/// Identifier of a configured paper-search source.
pub open spec fn s2_source_id(c: SemanticScholarConfig) -> Seq<char> {
    match c.mode {
        SemanticScholarMode::Search { query, .. } => "semantic_scholar:search:"@ + url_encoded(query@),
        SemanticScholarMode::Recommendations { paper_id } => "semantic_scholar:recs:"@ + url_encoded(
            paper_id@,
        ),
    }
}

/// `item` is `p` mapped into content for the source configured by `c`.
pub open spec fn is_paper_content(c: SemanticScholarConfig, p: Paper, item: Content) -> bool {
    &&& item.id == p.paper_id
    &&& match p.title {
        Some(t) => item.title == t,
        None => item.title@ == "Untitled"@,
    }
    &&& match p.abstract_text {
        Some(a) => item.body == a,
        None => item.body@.len() == 0,
    }
    &&& item.url == p.url
    &&& if p.authors@.len() > 0 && p.authors@[0].name is Some {
        item.author == p.authors@[0].name->0
    } else {
        item.author@ == "Unknown"@
    }
    &&& item.created_utc == year_timestamp(p.year)
    &&& item.score == citations(p)
    &&& item.num_comments == 0
    &&& item.source_type@ == "semantic_scholar"@
    &&& item.source_id@ == s2_source_id(c)
}

/// `r` holds, in order, the contents of the papers that the filter keeps.
pub open spec fn converted(c: SemanticScholarConfig, papers: Seq<Paper>, r: Seq<Content>) -> bool {
    let kept = papers.filter(paper_keeps(c));
    &&& r.len() == kept.len()
    &&& forall|i: int| 0 <= i < r.len() ==> is_paper_content(c, kept[i], #[trigger] r[i])
}

/// Fields asked of every paper.
pub open spec fn paper_fields() -> Seq<char> {
    "fields=paperId,title,abstract,authors,year,citationCount,url"@
}

/// URL of one search page.
pub open spec fn search_url_spec(query: Seq<char>, offset: nat, limit: nat, year: Option<Seq<char>>) -> Seq<
    char,
> {
    "https://api.semanticscholar.org/graph/v1/paper/search?query="@ + url_encoded(query)
        + "&offset="@ + decimal(offset) + "&limit="@ + decimal(limit) + "&"@ + paper_fields()
        + match year {
        Some(y) => "&year="@ + url_encoded(y),
        None => Seq::empty(),
    }
}

/// URL of the recommendations for a seed paper.
pub open spec fn recommendations_url_spec(paper_id: Seq<char>) -> Seq<char> {
    "https://api.semanticscholar.org/recommendations/v1/papers/forpaper/"@ + url_encoded(paper_id)
        + "?"@ + paper_fields()
}

/// Exponential backoff before retry number `attempt + 1`, in milliseconds.
pub open spec fn backoff_ms(attempt: nat) -> int {
    pow(2, attempt) * 1000
}

/// What the retry policy does with an answer.
#[derive(Debug, Clone)]
pub enum RetryAction {
    /// Success: read the answer.
    Proceed,
    /// Wait this many milliseconds, then send the request again.
    Wait(u64),
    /// Give up with this error.
    Fail(FetchError),
}

/// Delay asked by a `Retry-After` header, in milliseconds, if it is a
/// number of seconds.
pub open spec fn retry_after_ms(header: Option<Seq<char>>) -> Option<int> {
    match header {
        Some(h) => match unsigned_value(h) {
            Some(v) => if v <= u64::MAX {
                Some(if v * 1000 <= u64::MAX { v * 1000 } else { u64::MAX as int })
            } else {
                None
            },
            None => None,
        },
        None => None,
    }
}

/// The retry policy: the next attempt count and the action, given the
/// attempts so far, the status, and the `Retry-After` header.
pub open spec fn retry_step(attempt: u32, status: u16, header: Option<Seq<char>>) -> (u32, RetryAction) {
    if 200 <= status < 300 {
        (attempt, RetryAction::Proceed)
    } else if status == 429 {
        if attempt >= MAX_RETRIES {
            (attempt, RetryAction::Fail(FetchError::RateLimited { retries: MAX_RETRIES }))
        } else {
            let d = match retry_after_ms(header) {
                Some(ms) => ms,
                None => backoff_ms(attempt as nat),
            };
            ((attempt + 1) as u32, RetryAction::Wait(d as u64))
        }
    } else if 500 <= status < 600 {
        if attempt >= MAX_RETRIES {
            (
                attempt,
                RetryAction::Fail(
                    FetchError::ServerError { status, retries: MAX_RETRIES, body: None },
                ),
            )
        } else {
            ((attempt + 1) as u32, RetryAction::Wait(backoff_ms(attempt as nat) as u64))
        }
    } else if 400 <= status < 500 {
        (attempt, RetryAction::Fail(FetchError::ClientError { status, body: None }))
    } else {
        (attempt, RetryAction::Fail(FetchError::UnexpectedStatus(status)))
    }
}

/// Retry bookkeeping of one request.
#[derive(Debug, Clone, Copy)]
pub struct RetryState {
    /// Retries made so far.
    pub attempt: u32,
}

impl RetryState {
    /// No retry made yet.
    pub fn new() -> (r: Self)
        ensures
            r.attempt == 0,
    {
        RetryState { attempt: 0 }
    }

    /// Decides what to do with an answer of status `status`; `retry_after`
    /// is the `Retry-After` header, when present and readable.
    pub fn on_status(&mut self, status: u16, retry_after: Option<&str>) -> (r: RetryAction)
        ensures
            (final(self).attempt, r) == retry_step(
                old(self).attempt,
                status,
                match retry_after {
                    Some(h) => Some(h@),
                    None => None,
                },
            ),
            old(self).attempt <= MAX_RETRIES ==> final(self).attempt <= MAX_RETRIES,
    {
        let attempt = self.attempt;
        if 200 <= status && status < 300 {
            RetryAction::Proceed
        } else if status == 429 {
            if attempt >= MAX_RETRIES {
                RetryAction::Fail(FetchError::RateLimited { retries: MAX_RETRIES })
            } else {
                let asked = match retry_after {
                    Some(h) => match parse_u64(h) {
                        Some(secs) => Some(if secs <= u64::MAX / 1000 { secs * 1000 } else { u64::MAX }),
                        None => None,
                    },
                    None => None,
                };
                let delay = match asked {
                    Some(ms) => ms,
                    None => backoff(attempt),
                };
                self.attempt = attempt + 1;
                RetryAction::Wait(delay)
            }
        } else if 500 <= status && status < 600 {
            if attempt >= MAX_RETRIES {
                RetryAction::Fail(FetchError::ServerError { status, retries: MAX_RETRIES, body: None })
            } else {
                self.attempt = attempt + 1;
                RetryAction::Wait(backoff(attempt))
            }
        } else if 400 <= status && status < 500 {
            RetryAction::Fail(FetchError::ClientError { status, body: None })
        } else {
            RetryAction::Fail(FetchError::UnexpectedStatus(status))
        }
    }
}

/// Exponential backoff before retry number `attempt + 1`.
fn backoff(attempt: u32) -> (r: u64)
    requires
        attempt < MAX_RETRIES,
    ensures
        r == backoff_ms(attempt as nat),
{
    proof {
        reveal_with_fuel(pow, 3);
    }
    if attempt == 0 {
        1000
    } else if attempt == 1 {
        2000
    } else {
        4000
    }
}


/// Client of one configured paper-search source.
#[derive(Debug, Clone)]
pub struct SemanticScholarClient {
    config: SemanticScholarConfig,
}

impl SemanticScholarClient {
    /// The configuration the client was built with.
    pub closed spec fn spec_config(&self) -> SemanticScholarConfig {
        self.config
    }

    /// Builds a client; the search query, or the seed paper id, must not be
    /// empty.
    pub fn new(config: SemanticScholarConfig) -> (r: Result<Self, FetchError>)
        ensures
            match config.mode {
                SemanticScholarMode::Search { query, .. } => if query@.len() == 0 {
                    r matches Err(FetchError::EmptyQuery)
                } else {
                    r matches Ok(c) && c.spec_config() == config
                },
                SemanticScholarMode::Recommendations { paper_id } => if paper_id@.len() == 0 {
                    r matches Err(FetchError::EmptyPaperId)
                } else {
                    r matches Ok(c) && c.spec_config() == config
                },
            },
    {
        match &config.mode {
            SemanticScholarMode::Search { query, .. } => {
                if query.unicode_len() == 0 {
                    return Err(FetchError::EmptyQuery);
                }
            },
            SemanticScholarMode::Recommendations { paper_id } => {
                if paper_id.unicode_len() == 0 {
                    return Err(FetchError::EmptyPaperId);
                }
            },
        }
        Ok(SemanticScholarClient { config })
    }

    /// The configuration the client was built with.
    pub fn config(&self) -> (r: &SemanticScholarConfig)
        ensures
            *r == self.spec_config(),
    {
        &self.config
    }

    /// URL of the search page at `offset` holding at most `limit` papers.
    pub fn search_url(&self, query: &str, offset: usize, limit: usize, year: Option<&str>) -> (r: String)
        ensures
            r@ == search_url_spec(
                query@,
                offset as nat,
                limit as nat,
                match year {
                    Some(y) => Some(y@),
                    None => None,
                },
            ),
    {
        let q = url_encode(query);
        let url = String::from_str("https://api.semanticscholar.org/graph/v1/paper/search?query=")
            .concat(q.as_str()).concat("&offset=").concat(count_text(offset).as_str()).concat(
            "&limit=",
        ).concat(count_text(limit).as_str()).concat("&").concat(
            "fields=paperId,title,abstract,authors,year,citationCount,url",
        );
        match year {
            Some(y) => url.concat("&year=").concat(url_encode(y).as_str()),
            None => url,
        }
    }

    /// URL of the recommendations for a seed paper.
    pub fn recommendations_url(&self, paper_id: &str) -> (r: String)
        ensures
            r@ == recommendations_url_spec(paper_id@),
    {
        String::from_str("https://api.semanticscholar.org/recommendations/v1/papers/forpaper/")
            .concat(url_encode(paper_id).as_str()).concat("?").concat(
            "fields=paperId,title,abstract,authors,year,citationCount,url",
        )
    }

    /// Maps a paper into content of this source.
    pub fn paper_to_content(&self, paper: Paper) -> (r: Content)
        ensures
            is_paper_content(self.spec_config(), paper, r),
    {
        let author = if paper.authors.len() > 0 {
            match &paper.authors[0].name {
                Some(n) => n.clone(),
                None => String::from_str("Unknown"),
            }
        } else {
            String::from_str("Unknown")
        };
        let score = match paper.citation_count {
            Some(n) => n,
            None => 0,
        };
        let created_utc: i64 = match paper.year {
            Some(y) => (y as i64 - 1970) * SECONDS_PER_YEAR,
            None => 0,
        };
        let title = match paper.title {
            Some(t) => t,
            None => String::from_str("Untitled"),
        };
        let body = match paper.abstract_text {
            Some(a) => a,
            None => String::new(),
        };
        Content {
            id: paper.paper_id,
            title,
            body,
            url: paper.url,
            author,
            created_utc,
            score,
            num_comments: 0,
            source_type: String::from_str("semantic_scholar"),
            source_id: self.source_id(),
        }
    }

    /// Drops the papers with neither title nor abstract and those under the
    /// citation floor, and maps the rest into content, in order.
    pub fn convert_and_filter(&self, papers: Vec<Paper>) -> (r: Vec<Content>)
        ensures
            converted(self.spec_config(), papers@, r@),
    {
        let ghost all = papers@;
        let ghost pred = paper_keeps(self.spec_config());
        let mut out: Vec<Content> = Vec::new();
        for p in it: papers.into_iter()
            invariant
                it.seq() == all,
                pred == paper_keeps(self.spec_config()),
                converted(self.spec_config(), all.subrange(0, it.index() as int), out@),
        {
            let ghost i = it.index() as int;
            proof {
                assert(all.subrange(0, i + 1).drop_last() =~= all.subrange(0, i));
                assert(p == all[i]);
                reveal(Seq::filter);
            }
            let keep = !(p.title.is_none() && p.abstract_text.is_none()) && match p.citation_count {
                Some(n) => n,
                None => 0,
            } >= self.config.min_citations;
            assert(keep == pred(p));
            if keep {
                let item = self.paper_to_content(p);
                out.push(item);
            }
            proof {
                let kept = all.subrange(0, i + 1).filter(pred);
                let before = all.subrange(0, i).filter(pred);
                assert forall|j: int| 0 <= j < out@.len() implies is_paper_content(
                    self.spec_config(),
                    kept[j],
                    #[trigger] out@[j],
                ) by {
                    if j < before.len() {
                        assert(kept[j] == before[j]);
                    }
                }
            }
        }
        assert(all.subrange(0, all.len() as int) =~= all);
        out
    }

    /// The content of recommended papers: at most the configured number of
    /// them, then filtered and mapped.
    pub fn recommended(&self, papers: Vec<Paper>) -> (r: Vec<Content>)
        ensures
            converted(
                self.spec_config(),
                if papers@.len() > self.spec_config().max_results {
                    papers@.take(self.spec_config().max_results as int)
                } else {
                    papers@
                },
                r@,
            ),
    {
        let ghost given = papers@;
        let mut papers = papers;
        papers.truncate(self.config.max_results);
        assert(papers@ =~= (if given.len() > self.spec_config().max_results {
            given.take(self.spec_config().max_results as int)
        } else {
            given
        }));
        self.convert_and_filter(papers)
    }

    /// Applies the shared keyword filter to the converted papers.
    pub fn finish(&self, contents: Vec<Content>, filters: &SourceFilters) -> (r: Vec<Content>)
        ensures
            r@ == contents@.filter(filters.spec_keeps()),
    {
        filters.retain_matching(contents)
    }
}

impl Source for SemanticScholarClient {
    open spec fn spec_source_type(&self) -> Seq<char> {
        "semantic_scholar"@
    }

    open spec fn spec_source_id(&self) -> Seq<char> {
        s2_source_id(self.spec_config())
    }

    /// The provider kind.
    fn source_type(&self) -> (r: &'static str) {
        "semantic_scholar"
    }

    /// Identifier of this source: provider, mode, and the URL-encoded query
    /// or seed paper.
    fn source_id(&self) -> (r: String) {
        match &self.config.mode {
            SemanticScholarMode::Search { query, .. } => String::from_str("semantic_scholar:search:")
                .concat(url_encode(query.as_str()).as_str()),
            SemanticScholarMode::Recommendations { paper_id } => String::from_str(
                "semantic_scholar:recs:",
            ).concat(url_encode(paper_id.as_str()).as_str()),
        }
    }
}

/// Paging state of a search.
#[derive(Debug, Clone)]
pub struct SearchPager {
    /// Papers gathered so far, in the order the pages gave them.
    pub papers: Vec<Paper>,
    /// Offset of the next page.
    pub offset: usize,
    /// The endpoint has no more pages.
    pub exhausted: bool,
}

impl SearchPager {
    /// Nothing gathered; the first page is at offset 0.
    pub fn new() -> (r: Self)
        ensures
            r.papers@.len() == 0,
            r.offset == 0,
            !r.exhausted,
    {
        SearchPager { papers: Vec::new(), offset: 0, exhausted: false }
    }

    /// The next page to ask for, as offset and size: none once the endpoint
    /// is exhausted, the configured number is gathered, or the offset has
    /// reached the ceiling.
    pub fn next_request(&self, max_results: usize) -> (r: Option<(usize, usize)>)
        ensures
            r is Some <==> (!self.exhausted && self.papers@.len() < max_results && self.offset
                < MAX_OFFSET),
            r matches Some((o, l)) ==> o == self.offset && l == (if API_PAGE_SIZE < max_results
                - self.papers@.len() {
                API_PAGE_SIZE as int
            } else {
                max_results - self.papers@.len()
            }),
    {
        if self.exhausted || self.papers.len() >= max_results || self.offset >= MAX_OFFSET {
            return None;
        }
        let room = max_results - self.papers.len();
        let limit = if API_PAGE_SIZE < room {
            API_PAGE_SIZE
        } else {
            room
        };
        Some((self.offset, limit))
    }

    /// Takes in one search page. An empty page, or one without a next
    /// offset (or with a negative one), ends the paging. Returns whether to
    /// pause before the next request, which is when another one will follow.
    pub fn absorb(&mut self, page: SearchPage, max_results: usize) -> (r: bool)
        ensures
            page.data@.len() == 0 ==> final(self).papers@ == old(self).papers@ && final(self).exhausted
                && final(self).offset == old(self).offset,
            page.data@.len() > 0 ==> final(self).papers@ == old(self).papers@ + page.data@,
            page.data@.len() > 0 ==> match page.next {
                Some(n) => if 0 <= n && n <= usize::MAX {
                    final(self).offset == n && final(self).exhausted == old(self).exhausted
                } else {
                    final(self).exhausted && final(self).offset == old(self).offset
                },
                None => final(self).exhausted && final(self).offset == old(self).offset,
            },
            r == (!final(self).exhausted && final(self).papers@.len() < max_results
                && final(self).offset < MAX_OFFSET),
    {
        if page.data.len() == 0 {
            self.exhausted = true;
            return false;
        }
        let mut data = page.data;
        self.papers.append(&mut data);
        match page.next {
            Some(n) => {
                if 0 <= n && n as u64 <= usize::MAX as u64 {
                    self.offset = n as usize;
                } else {
                    self.exhausted = true;
                }
            },
            None => {
                self.exhausted = true;
            },
        }
        !self.exhausted && self.papers.len() < max_results && self.offset < MAX_OFFSET
    }

    /// The gathered papers, at most `max_results` of them, filtered and
    /// mapped into content.
    pub fn finish(self, client: &SemanticScholarClient) -> (r: Vec<Content>)
        ensures
            converted(
                client.spec_config(),
                if self.papers@.len() > client.spec_config().max_results {
                    self.papers@.take(client.spec_config().max_results as int)
                } else {
                    self.papers@
                },
                r@,
            ),
    {
        client.recommended(self.papers)
    }
}


/// Against an endpoint that answers `status` every time, without a
/// `Retry-After` header, starting from `attempt` retries: the number of
/// waits (retries) made, and the final action.
pub open spec fn settle(attempt: u32, status: u16) -> (nat, RetryAction)
    decreases MAX_RETRIES - attempt,
{
    let step = retry_step(attempt, status, None);
    if step.1 is Wait && attempt < MAX_RETRIES {
        let rest = settle((attempt + 1) as u32, status);
        (rest.0 + 1, rest.1)
    } else {
        (0, step.1)
    }
}

/// Each wait of the retry policy counts one retry.
proof fn lemma_settle(attempt: u32, status: u16)
    requires
        attempt <= MAX_RETRIES,
        status == 429 || (500 <= status < 600),
    ensures
        settle(attempt, status).0 == MAX_RETRIES - attempt,
        settle(attempt, status).1 == (if status == 429 {
            RetryAction::Fail(FetchError::RateLimited { retries: MAX_RETRIES })
        } else {
            RetryAction::Fail(FetchError::ServerError { status, retries: MAX_RETRIES, body: None })
        }),
    decreases MAX_RETRIES - attempt,
{
    if attempt < MAX_RETRIES {
        lemma_settle((attempt + 1) as u32, status);
    }
}

/// An endpoint that always answers 429 is retried exactly `MAX_RETRIES`
/// times before the request fails with a rate-limit error; one that always
/// answers a server error (5xx) likewise, before it fails with that server
/// error.
pub proof fn lemma_retry_ceiling(status: u16)
    requires
        status == 429 || (500 <= status < 600),
    ensures
        settle(0, status).0 == MAX_RETRIES,
        status == 429 ==> settle(0, status).1 == RetryAction::Fail(
            FetchError::RateLimited { retries: MAX_RETRIES },
        ),
        status != 429 ==> settle(0, status).1 == RetryAction::Fail(
            FetchError::ServerError { status, retries: MAX_RETRIES, body: None },
        ),
{
    lemma_settle(0, status);
}


/// Size of the next search page, given the target and what is gathered, as
/// `next_request` computes it.
pub open spec fn page_limit(max_results: int, have: int) -> int {
    if API_PAGE_SIZE < max_results - have {
        API_PAGE_SIZE as int
    } else {
        max_results - have
    }
}

/// Search paging, as `next_request` and `absorb` decide it, against a
/// provider holding `items`: a page at `offset` of at most `limit` papers
/// is the next papers in order, with a next offset while papers remain.
/// The gathered papers and the number of requests made.
pub open spec fn search_run(items: Seq<Paper>, max_results: int, papers: Seq<Paper>, offset: int) -> (
    Seq<Paper>,
    nat,
)
    decreases max_results - papers.len(),
{
    if papers.len() >= max_results || offset >= MAX_OFFSET || offset < 0 || offset > items.len() {
        (papers, 0)
    } else {
        let want = offset + page_limit(max_results, papers.len() as int);
        let end = if want < items.len() {
            want
        } else {
            items.len() as int
        };
        let data = items.subrange(offset, end);
        if data.len() == 0 {
            (papers, 1)
        } else if end < items.len() {
            let rest = search_run(items, max_results, papers + data, end);
            (rest.0, rest.1 + 1)
        } else {
            (papers + data, 1)
        }
    }
}

/// From `offset` papers gathered, paging ends with the first
/// min(max, available) papers after ceil((min(max, available) - offset) / 100)
/// more requests.
proof fn lemma_search_run(items: Seq<Paper>, max_results: int, offset: int)
    requires
        0 <= offset,
        offset < max_results,
        offset < items.len(),
        max_results <= MAX_OFFSET || items.len() <= MAX_OFFSET,
    ensures
        ({
            let total = if max_results < items.len() {
                max_results
            } else {
                items.len() as int
            };
            search_run(items, max_results, items.take(offset), offset) == (
                items.take(total),
                ((total - offset + 99) / 100) as nat,
            )
        }),
    decreases max_results - offset,
{
    let total = if max_results < items.len() {
        max_results
    } else {
        items.len() as int
    };
    let papers = items.take(offset);
    let want = offset + page_limit(max_results, offset);
    let end = if want < items.len() {
        want
    } else {
        items.len() as int
    };
    let data = items.subrange(offset, end);
    assert(papers + data =~= items.take(end));
    if end < items.len() {
        if end >= total {
            assert(end == total);
            assert(search_run(items, max_results, items.take(end), end).0 == items.take(end));
        } else {
            lemma_search_run(items, max_results, end);
            assert((total - offset + 99) / 100 == (total - end + 99) / 100 + 1);
        }
    } else {
        assert(end == total);
    }
}

/// Against a provider holding `items` (at least one), a search gathers
/// exactly the first min(max_results, available) papers, in provider
/// order, and makes exactly ceil(min(max_results, available) / 100)
/// requests, provided that number of papers fits under the offset ceiling.
pub proof fn lemma_search_paging(items: Seq<Paper>, max_results: int)
    requires
        items.len() >= 1,
        max_results >= 1,
        max_results <= MAX_OFFSET || items.len() <= MAX_OFFSET,
    ensures
        ({
            let total = if max_results < items.len() {
                max_results
            } else {
                items.len() as int
            };
            search_run(items, max_results, Seq::empty(), 0) == (
                items.take(total),
                ((total + 99) / 100) as nat,
            )
        }),
{
    lemma_search_run(items, max_results, 0);
    assert(items.take(0) =~= Seq::<Paper>::empty());
}

} // verus!
