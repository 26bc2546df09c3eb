//! The link-aggregator (Reddit) adapter: listing URLs, the mapping of posts
//! into content, the numeric floors, and the paging decisions.

use vstd::prelude::*;

use crate::config::RedditConfig;
use crate::error::FetchError;
use crate::source::{Content, Source, SourceFilters};
use crate::text::{contains_seq, contains_text, same_text};

verus! {

/// One post of a listing, as the provider describes it.
#[derive(Debug, Clone)]
pub struct RedditPost {
    pub id: String,
    pub title: String,
    /// Text of a self post; empty for a link post.
    pub selftext: String,
    pub url: Option<String>,
    pub author: String,
    /// Creation time, Unix seconds.
    pub created_utc: i64,
    pub score: i32,
    pub num_comments: i32,
}

/// Identifier of a configured link-aggregator source.
pub open spec fn reddit_source_id(c: RedditConfig) -> Seq<char> {
    "reddit:"@ + c.subreddit@ + ":"@ + c.sort_by@
}

/// The listing endpoint of the configured order, before paging parameters.
pub open spec fn listing_base(c: RedditConfig) -> Seq<char> {
    let head = "https://www.reddit.com/r/"@ + c.subreddit@;
    if c.sort_by@ == "new"@ {
        head + "/new.json"@
    } else if c.sort_by@ == "rising"@ {
        head + "/rising.json"@
    } else if c.sort_by@ == "top"@ {
        head + "/top.json?t="@ + match c.time_filter {
            Some(t) => t@,
            None => "day"@,
        }
    } else {
        head + "/hot.json"@
    }
}

/// The URL of one listing page; `after` is the cursor of the page to read.
pub open spec fn listing_url(c: RedditConfig, after: Option<Seq<char>>) -> Seq<char> {
    let base = listing_base(c);
    let sep = if contains_seq(base, "?"@) {
        "&"@
    } else {
        "?"@
    };
    base + sep + "limit=100&raw_json=1"@ + match after {
        Some(a) => "&after="@ + a,
        None => Seq::empty(),
    }
}

/// An item clears the configured score and comment floors.
pub open spec fn clears_floors(c: RedditConfig, item: Content) -> bool {
    item.score >= c.min_score && item.num_comments >= c.min_comments
}

/// The floors as a predicate on items.
pub open spec fn floor_keeps(c: RedditConfig) -> spec_fn(Content) -> bool {
    |item: Content| clears_floors(c, item)
}

/// `item` is `post` mapped into content for the source configured by `c`.
pub open spec fn is_post_content(c: RedditConfig, post: RedditPost, item: Content) -> bool {
    &&& item.id == post.id
    &&& item.title == post.title
    &&& item.body == post.selftext
    &&& item.url == post.url
    &&& item.author == post.author
    &&& item.created_utc == post.created_utc
    &&& item.score == post.score
    &&& item.num_comments == post.num_comments
    &&& item.source_type@ == "reddit"@
    &&& item.source_id@ == reddit_source_id(c)
}

/// What one page does to the collected items: the page's items that clear
/// the floors are appended, and the whole is cut to the limit once it
/// reaches it.
pub open spec fn absorbed(c: RedditConfig, collected: Seq<Content>, page: Seq<Content>) -> Seq<
    Content,
> {
    let all = collected + page.filter(floor_keeps(c));
    if all.len() >= c.limit {
        all.take(c.limit as int)
    } else {
        all
    }
}

/// Whether the limit is still unreached after a page; paging then goes on
/// if the page carried a cursor.
pub open spec fn goes_on(c: RedditConfig, collected: Seq<Content>, page: Seq<Content>) -> bool {
    collected.len() + page.filter(floor_keeps(c)).len() < c.limit
}

/// Client of one configured link-aggregator source.
#[derive(Debug, Clone)]
pub struct RedditClient {
    config: RedditConfig,
}

impl RedditClient {
    /// The configuration the client was built with.
    pub closed spec fn spec_config(&self) -> RedditConfig {
        self.config
    }

    /// Builds a client; the subreddit and the user agent must not be empty.
    pub fn new(config: RedditConfig) -> (r: Result<Self, FetchError>)
        ensures
            config.subreddit@.len() == 0 ==> r matches Err(FetchError::EmptySubreddit),
            config.subreddit@.len() > 0 && config.user_agent@.len() == 0 ==> r matches Err(
                FetchError::EmptyUserAgent,
            ),
            config.subreddit@.len() > 0 && config.user_agent@.len() > 0 ==> (r matches Ok(c)
                && c.spec_config() == config),
    {
        if config.subreddit.unicode_len() == 0 {
            return Err(FetchError::EmptySubreddit);
        }
        if config.user_agent.unicode_len() == 0 {
            return Err(FetchError::EmptyUserAgent);
        }
        Ok(RedditClient { config })
    }

    /// The configuration the client was built with.
    pub fn config(&self) -> (r: &RedditConfig)
        ensures
            *r == self.spec_config(),
    {
        &self.config
    }

    /// The URL of the listing page that starts after cursor `after` (the
    /// first page when there is none).
    pub fn build_url(&self, after: Option<&str>) -> (r: String)
        ensures
            r@ == listing_url(
                self.spec_config(),
                match after {
                    Some(a) => Some(a@),
                    None => None,
                },
            ),
    {
        let sub = self.config.subreddit.as_str();
        let sort = self.config.sort_by.as_str();
        let head = String::from_str("https://www.reddit.com/r/").concat(sub);
        let base = if same_text(sort, "new") {
            head.concat("/new.json")
        } else if same_text(sort, "rising") {
            head.concat("/rising.json")
        } else if same_text(sort, "top") {
            let window = match &self.config.time_filter {
                Some(t) => t.as_str(),
                None => "day",
            };
            head.concat("/top.json?t=").concat(window)
        } else {
            head.concat("/hot.json")
        };
        let sep = if contains_text(base.as_str(), "?") {
            "&"
        } else {
            "?"
        };
        let url = base.concat(sep).concat("limit=100&raw_json=1");
        match after {
            Some(token) => url.concat("&after=").concat(token),
            None => url,
        }
    }

    /// Maps one post into content of this source.
    pub fn post_to_content(&self, post: RedditPost) -> (r: Content)
        ensures
            is_post_content(self.spec_config(), post, r),
    {
        Content {
            id: post.id,
            title: post.title,
            body: post.selftext,
            url: post.url,
            author: post.author,
            created_utc: post.created_utc,
            score: post.score,
            num_comments: post.num_comments,
            source_type: String::from_str("reddit"),
            source_id: self.source_id(),
        }
    }

    /// Maps the posts of a page into content, keeping their order.
    pub fn posts_to_contents(&self, posts: Vec<RedditPost>) -> (r: Vec<Content>)
        ensures
            r@.len() == posts@.len(),
            forall|i: int|
                0 <= i < posts@.len() ==> is_post_content(self.spec_config(), posts@[i], #[trigger] r@[i]),
    {
        let ghost all = posts@;
        let mut out: Vec<Content> = Vec::new();
        for p in it: posts.into_iter()
            invariant
                it.seq() == all,
                out@.len() == it.index(),
                forall|i: int|
                    0 <= i < it.index() ==> is_post_content(self.spec_config(), all[i], #[trigger] out@[i]),
        {
            proof {
                assert(p == all[it.index() as int]);
            }
            out.push(self.post_to_content(p));
        }
        out
    }

    /// Keeps, in order, the items that clear the score and comment floors.
    pub fn apply_config_filters(&self, contents: Vec<Content>) -> (r: Vec<Content>)
        ensures
            r@ == contents@.filter(floor_keeps(self.spec_config())),
    {
        let ghost all = contents@;
        let ghost pred = floor_keeps(self.spec_config());
        let mut out: Vec<Content> = Vec::new();
        for c in it: contents.into_iter()
            invariant
                it.seq() == all,
                pred == floor_keeps(self.spec_config()),
                out@ == all.subrange(0, it.index() as int).filter(pred),
        {
            proof {
                assert(all.subrange(0, it.index() + 1).drop_last() =~= all.subrange(0, it.index() as int));
                assert(c == all[it.index() as int]);
                reveal(Seq::filter);
            }
            if c.score >= self.config.min_score && c.num_comments >= self.config.min_comments {
                out.push(c);
            }
        }
        assert(all.subrange(0, all.len() as int) =~= all);
        out
    }

    /// Checks the status of a listing answer: 429 fails at once with a
    /// rate-limit error (no retry), any other non-2xx status with a status
    /// error.
    pub fn check_status(status: u16) -> (r: Result<(), FetchError>)
        ensures
            status == 429 ==> r matches Err(FetchError::RateLimited { retries: 0 }),
            status != 429 && !(200 <= status < 300) ==> (r matches Err(
                FetchError::Status(s)) && s == status),
            200 <= status < 300 ==> r is Ok,
    {
        if status == 429 {
            Err(FetchError::RateLimited { retries: 0 })
        } else if status < 200 || status >= 300 {
            Err(FetchError::Status(status))
        } else {
            Ok(())
        }
    }

    /// Takes in one listing page: its items that clear the floors are
    /// appended to `collected`, which is cut to the limit once it reaches
    /// it. Returns the cursor of the next page to request, or `None` when
    /// paging is over (limit reached, or the page was the last one).
    pub fn absorb_page(&self, collected: &mut Vec<Content>, page: Vec<Content>, after: Option<String>) -> (r:
        Option<String>)
        ensures
            final(collected)@ == absorbed(self.spec_config(), old(collected)@, page@),
            r == (if goes_on(self.spec_config(), old(collected)@, page@) {
                after
            } else {
                None
            }),
    {
        let mut kept = self.apply_config_filters(page);
        let ghost before = collected@;
        let ghost added = kept@;
        collected.append(&mut kept);
        assert(collected@ == before + added);
        if collected.len() >= self.config.limit {
            collected.truncate(self.config.limit);
            None
        } else {
            after
        }
    }

    /// Applies the shared keyword filter to what paging collected.
    pub fn finish(&self, collected: Vec<Content>, filters: &SourceFilters) -> (r: Vec<Content>)
        ensures
            r@ == collected@.filter(filters.spec_keeps()),
    {
        filters.retain_matching(collected)
    }
}

impl Source for RedditClient {
    open spec fn spec_source_type(&self) -> Seq<char> {
        "reddit"@
    }

    open spec fn spec_source_id(&self) -> Seq<char> {
        reddit_source_id(self.spec_config())
    }

    /// The provider kind.
    fn source_type(&self) -> (r: &'static str) {
        "reddit"
    }

    /// Identifier of this source: provider, subreddit and order.
    fn source_id(&self) -> (r: String) {
        String::from_str("reddit:").concat(self.config.subreddit.as_str()).concat(":").concat(
            self.config.sort_by.as_str(),
        )
    }
}


/// The collected items after a listing is read page by page, starting from
/// `collected`, and the number of page requests made. Every page but the
/// last carries a cursor; paging stops once the limit is reached or after
/// the last page, exactly as `absorb_page` decides.
pub open spec fn paged_run(c: RedditConfig, pages: Seq<Seq<Content>>, collected: Seq<Content>) -> (
    Seq<Content>,
    nat,
)
    decreases pages.len(),
{
    if pages.len() == 0 {
        (collected, 0)
    } else {
        let next = absorbed(c, collected, pages[0]);
        if !goes_on(c, collected, pages[0]) || pages.len() == 1 {
            (next, 1)
        } else {
            let rest = paged_run(c, pages.drop_first(), next);
            (rest.0, rest.1 + 1)
        }
    }
}

/// `s`, cut to `limit` items when it is longer.
pub open spec fn cut(s: Seq<Content>, limit: usize) -> Seq<Content> {
    if s.len() >= limit {
        s.take(limit as int)
    } else {
        s
    }
}

/// Paging collects the floor-clearing items of all pages, in order, cut to
/// the limit, with at most one request per page.
proof fn lemma_paged_run(c: RedditConfig, pages: Seq<Seq<Content>>, collected: Seq<Content>)
    requires
        collected.len() < c.limit,
    ensures
        paged_run(c, pages, collected).0 == cut(
            collected + pages.flatten().filter(floor_keeps(c)),
            c.limit,
        ),
        paged_run(c, pages, collected).1 <= pages.len(),
    decreases pages.len(),
{
    let f = floor_keeps(c);
    if pages.len() == 0 {
        assert(collected + pages.flatten().filter(f) =~= collected);
    } else {
        let head = pages[0];
        let rest = pages.drop_first();
        assert(pages.flatten() == head + rest.flatten());
        Seq::filter_distributes_over_add(head, rest.flatten(), f);
        let all = collected + head.filter(f);
        assert(collected + pages.flatten().filter(f) =~= all + rest.flatten().filter(f));
        if !goes_on(c, collected, head) {
            assert(all.take(c.limit as int) =~= (all + rest.flatten().filter(f)).take(c.limit as int));
        } else if pages.len() == 1 {
            assert(rest.flatten() =~= Seq::<Content>::empty());
            reveal(Seq::filter);
            assert(all + rest.flatten().filter(f) =~= all);
        } else {
            lemma_paged_run(c, rest, all);
        }
    }
}

/// What a link-aggregator fetch returns when the provider serves `pages`:
/// the paged items, then the keyword filter.
pub open spec fn fetched(c: RedditConfig, pages: Seq<Seq<Content>>, filters: SourceFilters) -> Seq<
    Content,
> {
    paged_run(c, pages, Seq::empty()).0.filter(filters.spec_keeps())
}

/// Whatever the provider serves and whatever the floors, every item that a
/// link-aggregator fetch returns has a score of at least the minimum score
/// and a comment count of at least the minimum comment count.
pub proof fn lemma_fetch_clears_floors(c: RedditConfig, pages: Seq<Seq<Content>>, filters: SourceFilters)
    ensures
        forall|i: int|
            0 <= i < fetched(c, pages, filters).len() ==> #[trigger] fetched(c, pages, filters)[i].score
                >= c.min_score && fetched(c, pages, filters)[i].num_comments >= c.min_comments,
{
    let f = floor_keeps(c);
    let run = paged_run(c, pages, Seq::empty()).0;
    if c.limit == 0 {
        if pages.len() > 0 {
            assert(absorbed(c, Seq::empty(), pages[0]) =~= Seq::<Content>::empty());
        }
        assert(run =~= Seq::<Content>::empty());
    } else {
        lemma_paged_run(c, pages, Seq::empty());
    }
    let avail = Seq::<Content>::empty() + pages.flatten().filter(f);
    assert forall|i: int| 0 <= i < avail.len() implies clears_floors(c, #[trigger] avail[i]) by {
        pages.flatten().lemma_filter_pred(f, i);
    }
    assert forall|i: int| 0 <= i < run.len() implies f(#[trigger] run[i]) by {
        if c.limit > 0 {
            assert(run[i] == avail[i]);
        }
    }
    lemma_filter_preserves(run, filters.spec_keeps(), f);
}

/// What holds of every item of a sequence holds of every item that a filter
/// keeps.
proof fn lemma_filter_preserves(s: Seq<Content>, pred: spec_fn(Content) -> bool, q: spec_fn(Content) -> bool)
    requires
        forall|i: int| 0 <= i < s.len() ==> q(#[trigger] s[i]),
    ensures
        forall|i: int| 0 <= i < s.filter(pred).len() ==> q(#[trigger] s.filter(pred)[i]),
    decreases s.len(),
{
    reveal(Seq::filter);
    if s.len() > 0 {
        let init = s.drop_last();
        assert forall|i: int| 0 <= i < init.len() implies q(#[trigger] init[i]) by {
            assert(init[i] == s[i]);
        }
        lemma_filter_preserves(init, pred, q);
        let fi = init.filter(pred);
        assert(q(s.last()));
        if pred(s.last()) {
            assert(s.filter(pred) == fi.push(s.last()));
            assert forall|i: int| 0 <= i < s.filter(pred).len() implies q(
                #[trigger] s.filter(pred)[i],
            ) by {
                if i < fi.len() {
                    assert(s.filter(pred)[i] == fi[i]);
                }
            }
        } else {
            assert(s.filter(pred) == fi);
        }
    }
}

/// Total length of pages of which all but the last hold `page_size` items.
proof fn lemma_pages_len(pages: Seq<Seq<Content>>, page_size: nat)
    requires
        pages.len() > 0,
        forall|k: int| 0 <= k < pages.len() - 1 ==> #[trigger] pages[k].len() == page_size,
    ensures
        pages.flatten().len() == (pages.len() - 1) * page_size + pages.last().len(),
    decreases pages.len(),
{
    let rest = pages.drop_first();
    assert(pages.flatten() == pages[0] + rest.flatten());
    if pages.len() == 1 {
        assert(rest.flatten() =~= Seq::<Content>::empty());
    } else {
        assert forall|k: int| 0 <= k < rest.len() - 1 implies #[trigger] rest[k].len() == page_size by {
            assert(rest[k] == pages[k + 1]);
        }
        lemma_pages_len(rest, page_size);
        assert(rest.last() == pages.last());
        assert((pages.len() - 1) * page_size == page_size + (rest.len() - 1) * page_size)
            by (nonlinear_arith)
            requires
                rest.len() == pages.len() - 1,
        ;
    }
}

/// Against a provider that serves its listing in full pages of `page_size`
/// items and a last, shorter or full, non-empty page, paging returns the
/// first min(limit, available) items that clear the floors, in provider
/// order, and makes at most ceil(total / page_size) requests.
pub proof fn lemma_paging_terminates(c: RedditConfig, pages: Seq<Seq<Content>>, page_size: nat)
    requires
        page_size > 0,
        pages.len() > 0,
        forall|k: int| 0 <= k < pages.len() - 1 ==> #[trigger] pages[k].len() == page_size,
        0 < pages.last().len() <= page_size,
    ensures
        ({
            let run = paged_run(c, pages, Seq::empty());
            let avail = pages.flatten().filter(floor_keeps(c));
            &&& run.0.len() == if c.limit < avail.len() {
                c.limit as int
            } else {
                avail.len() as int
            }
            &&& run.0 == avail.take(run.0.len() as int)
            &&& run.1 <= (pages.flatten().len() + page_size - 1) / (page_size as int)
        }),
{
    let f = floor_keeps(c);
    let avail = pages.flatten().filter(f);
    let run = paged_run(c, pages, Seq::empty());
    if c.limit == 0 {
        assert(absorbed(c, Seq::empty(), pages[0]) =~= Seq::<Content>::empty());
        assert(run.0 =~= avail.take(0));
    } else {
        lemma_paged_run(c, pages, Seq::empty());
        assert(Seq::<Content>::empty() + avail =~= avail);
        assert(run.0 =~= avail.take(run.0.len() as int));
    }
    lemma_pages_len(pages, page_size);
    let m = pages.len() as int;
    let t = pages.flatten().len() as int;
    let last = pages.last().len() as int;
    let ps = page_size as int;
    assert(t + ps - 1 == m * ps + (last - 1)) by (nonlinear_arith)
        requires
            t == (m - 1) * ps + last,
    ;
    vstd::arithmetic::div_mod::lemma_fundamental_div_mod_converse(t + ps - 1, ps, m, last - 1);
}


/// A filter keeps every item of a sequence whose items all pass it.
proof fn lemma_filter_keeps_all(s: Seq<Content>, pred: spec_fn(Content) -> bool)
    requires
        forall|i: int| 0 <= i < s.len() ==> pred(#[trigger] s[i]),
    ensures
        s.filter(pred) == s,
    decreases s.len(),
{
    reveal(Seq::filter);
    if s.len() > 0 {
        let init = s.drop_last();
        assert forall|i: int| 0 <= i < init.len() implies pred(#[trigger] init[i]) by {
            assert(init[i] == s[i]);
        }
        lemma_filter_keeps_all(init, pred);
        assert(pred(s[s.len() - 1]));
        assert(init.push(s.last()) =~= s);
    }
}

/// Request count of paging from `collected` items, when every item clears
/// the floors and the pages are full but the last.
proof fn lemma_paged_requests(
    c: RedditConfig,
    pages: Seq<Seq<Content>>,
    collected: Seq<Content>,
    page_size: nat,
)
    requires
        page_size > 0,
        pages.len() > 0,
        collected.len() < c.limit,
        forall|k: int| 0 <= k < pages.len() - 1 ==> #[trigger] pages[k].len() == page_size,
        0 < pages.last().len() <= page_size,
        forall|k: int, i: int|
            0 <= k < pages.len() && 0 <= i < pages[k].len() ==> clears_floors(c, #[trigger] pages[k][i]),
    ensures
        ({
            let x = collected.len() as int;
            let reach = x + pages.flatten().len();
            let target = if (c.limit as int) < reach {
                c.limit as int
            } else {
                reach
            };
            paged_run(c, pages, collected).1 == (target - x + page_size - 1) / (page_size as int)
        }),
    decreases pages.len(),
{
    let f = floor_keeps(c);
    let ps = page_size as int;
    let head = pages[0];
    let rest = pages.drop_first();
    assert forall|i: int| 0 <= i < head.len() implies f(#[trigger] head[i]) by {
        assert(clears_floors(c, pages[0][i]));
    }
    lemma_filter_keeps_all(head, f);
    lemma_pages_len(pages, page_size);
    let x = collected.len() as int;
    let flat = pages.flatten().len() as int;
    let reach = x + flat;
    let target = if (c.limit as int) < reach {
        c.limit as int
    } else {
        reach
    };
    assert(head.len() <= ps);
    assert(flat >= head.len()) by {
        assert(pages.flatten() == head + rest.flatten());
    }
    if !goes_on(c, collected, head) || pages.len() == 1 {
        assert(1 <= target - x <= ps);
        vstd::arithmetic::div_mod::lemma_fundamental_div_mod_converse(target - x + ps - 1, ps, 1, target - x - 1);
    } else {
        assert(head.len() == ps);
        assert(pages.flatten() == head + rest.flatten());
        assert forall|k: int| 0 <= k < rest.len() - 1 implies #[trigger] rest[k].len() == page_size by {
            assert(rest[k] == pages[k + 1]);
        }
        assert forall|k: int, i: int|
            0 <= k < rest.len() && 0 <= i < rest[k].len() implies clears_floors(c, #[trigger] rest[k][i]) by {
            assert(rest[k] == pages[k + 1]);
        }
        assert(rest.last() == pages.last());
        let next = collected + head;
        lemma_paged_requests(c, rest, next, page_size);
        vstd::arithmetic::div_mod::lemma_div_plus_one(target - x - ps + ps - 1, ps);
    }
}

/// When every item clears the floors, paging a listing served in full pages
/// of `page_size` items and a last non-empty one makes exactly
/// ceil(min(limit, total) / page_size) requests.
pub proof fn lemma_paging_request_count(c: RedditConfig, pages: Seq<Seq<Content>>, page_size: nat)
    requires
        c.limit >= 1,
        page_size > 0,
        pages.len() > 0,
        forall|k: int| 0 <= k < pages.len() - 1 ==> #[trigger] pages[k].len() == page_size,
        0 < pages.last().len() <= page_size,
        forall|k: int, i: int|
            0 <= k < pages.len() && 0 <= i < pages[k].len() ==> clears_floors(c, #[trigger] pages[k][i]),
    ensures
        ({
            let total = pages.flatten().len() as int;
            let target = if (c.limit as int) < total {
                c.limit as int
            } else {
                total
            };
            paged_run(c, pages, Seq::empty()).1 == (target + page_size - 1) / (page_size as int)
        }),
{
    lemma_paged_requests(c, pages, Seq::empty(), page_size);
}

} // verus!
