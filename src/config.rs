//! Crawler configuration: the typed settings, their defaults, reading them
//! from TOML text, and the checks that every loaded configuration passes.

use vstd::prelude::*;

use crate::document::{
    bool_at, bool_field, classify, describe, field, i32_at, int_field, item_view, opt_text,
    optional_text_at, optional_text_field, parse_document, table_view, text_at, text_field,
    toml_parse, u64_at, usize_at, value_view, Item, TomlView,
};
use crate::error::{same_outcome, ConfigError, ConfigErrorView, SourceProblem};
use crate::text::{
    is_i32_text, parse_i32, same_text, starts_with_seq, starts_with_text,
};

verus! {

/// The whole configuration: crawler-level settings and the ordered sources.
#[derive(Debug, Clone)]
pub struct Config {
    pub crawler: CrawlerConfig,
    pub sources: Vec<SourceEntry>,
}

/// Crawler-level settings.
#[derive(Debug, Clone)]
pub struct CrawlerConfig {
    pub output_format: String,
    pub output_destination: String,
    pub log_level: String,
    pub max_concurrency: usize,
    pub user_agent: String,
}

/// One configured source and whether it takes part in the run.
#[derive(Debug, Clone)]
pub struct SourceEntry {
    pub enabled: bool,
    pub config: SourceConfig,
}

/// The provider-specific settings of a source.
#[derive(Debug, Clone)]
pub enum SourceConfig {
    Reddit(RedditConfig),
    SemanticScholar(SemanticScholarConfig),
}

/// Settings of a link-aggregator (Reddit) source.
#[derive(Debug, Clone)]
pub struct RedditConfig {
    pub subreddit: String,
    /// How many items to gather in all, across pages.
    pub limit: usize,
    /// One of `hot`, `new`, `top`, `rising`.
    pub sort_by: String,
    /// Time window of `top`: `hour`, `day`, `week`, `month`, `year` or `all`.
    pub time_filter: Option<String>,
    pub min_score: i32,
    pub min_comments: i32,
    pub user_agent: String,
    /// Pause between two page requests.
    pub rate_limit_delay_ms: u64,
}

/// Which paper-search endpoint a source uses.
#[derive(Debug, Clone)]
pub enum SemanticScholarMode {
    /// Free-text search, optionally restricted to a year or a year range.
    Search { query: String, year: Option<String> },
    /// Papers recommended for a seed paper.
    Recommendations { paper_id: String },
}

/// Settings of a paper-search (Semantic Scholar) source.
#[derive(Debug, Clone)]
pub struct SemanticScholarConfig {
    pub mode: SemanticScholarMode,
    pub max_results: usize,
    pub min_citations: i32,
    pub api_key: Option<String>,
    pub rate_limit_delay_ms: u64,
}

/// A crawler-settings value as plain data.
pub struct CrawlerView {
    pub output_format: Seq<char>,
    pub output_destination: Seq<char>,
    pub log_level: Seq<char>,
    pub max_concurrency: usize,
    pub user_agent: Seq<char>,
}

/// Link-aggregator settings as plain data.
pub struct RedditView {
    pub subreddit: Seq<char>,
    pub limit: usize,
    pub sort_by: Seq<char>,
    pub time_filter: Option<Seq<char>>,
    pub min_score: i32,
    pub min_comments: i32,
    pub user_agent: Seq<char>,
    pub rate_limit_delay_ms: u64,
}

/// A paper-search mode as plain data.
pub enum ModeView {
    Search { query: Seq<char>, year: Option<Seq<char>> },
    Recommendations { paper_id: Seq<char> },
}

/// Paper-search settings as plain data.
pub struct ScholarView {
    pub mode: ModeView,
    pub max_results: usize,
    pub min_citations: i32,
    pub api_key: Option<Seq<char>>,
    pub rate_limit_delay_ms: u64,
}

/// Provider settings as plain data.
pub enum SourceConfigView {
    Reddit(RedditView),
    SemanticScholar(ScholarView),
}

/// A source entry as plain data.
pub struct EntryView {
    pub enabled: bool,
    pub config: SourceConfigView,
}

/// A whole configuration as plain data.
pub struct ConfigView {
    pub crawler: CrawlerView,
    pub sources: Seq<EntryView>,
}

impl View for CrawlerConfig {
    type V = CrawlerView;

    open spec fn view(&self) -> CrawlerView {
        CrawlerView {
            output_format: self.output_format@,
            output_destination: self.output_destination@,
            log_level: self.log_level@,
            max_concurrency: self.max_concurrency,
            user_agent: self.user_agent@,
        }
    }
}

impl View for RedditConfig {
    type V = RedditView;

    open spec fn view(&self) -> RedditView {
        RedditView {
            subreddit: self.subreddit@,
            limit: self.limit,
            sort_by: self.sort_by@,
            time_filter: opt_text(self.time_filter),
            min_score: self.min_score,
            min_comments: self.min_comments,
            user_agent: self.user_agent@,
            rate_limit_delay_ms: self.rate_limit_delay_ms,
        }
    }
}

impl View for SemanticScholarMode {
    type V = ModeView;

    open spec fn view(&self) -> ModeView {
        match self {
            SemanticScholarMode::Search { query, year } => ModeView::Search {
                query: query@,
                year: opt_text(*year),
            },
            SemanticScholarMode::Recommendations { paper_id } => ModeView::Recommendations {
                paper_id: paper_id@,
            },
        }
    }
}

impl View for SemanticScholarConfig {
    type V = ScholarView;

    open spec fn view(&self) -> ScholarView {
        ScholarView {
            mode: self.mode@,
            max_results: self.max_results,
            min_citations: self.min_citations,
            api_key: opt_text(self.api_key),
            rate_limit_delay_ms: self.rate_limit_delay_ms,
        }
    }
}

impl View for SourceConfig {
    type V = SourceConfigView;

    open spec fn view(&self) -> SourceConfigView {
        match self {
            SourceConfig::Reddit(r) => SourceConfigView::Reddit(r@),
            SourceConfig::SemanticScholar(s) => SourceConfigView::SemanticScholar(s@),
        }
    }
}

impl View for SourceEntry {
    type V = EntryView;

    open spec fn view(&self) -> EntryView {
        EntryView { enabled: self.enabled, config: self.config@ }
    }
}

/// The views of a list of entries.
pub open spec fn entries_view(s: Seq<SourceEntry>) -> Seq<EntryView> {
    s.map_values(|e: SourceEntry| e@)
}

impl View for Config {
    type V = ConfigView;

    open spec fn view(&self) -> ConfigView {
        ConfigView { crawler: self.crawler@, sources: entries_view(self.sources@) }
    }
}

/// Default output format.
pub fn default_output_format() -> (r: String)
    ensures
        r@ == "json"@,
{
    String::from_str("json")
}

/// Default output destination.
pub fn default_output_destination() -> (r: String)
    ensures
        r@ == "stdout"@,
{
    String::from_str("stdout")
}

/// Default log level.
pub fn default_log_level() -> (r: String)
    ensures
        r@ == "info"@,
{
    String::from_str("info")
}

/// Default number of sources fetched at the same time.
pub fn default_max_concurrency() -> (r: usize)
    ensures
        r == 5,
{
    5
}

/// Sources take part unless disabled.
pub fn default_enabled() -> (r: bool)
    ensures
        r,
{
    true
}

/// Default number of items gathered from a link-aggregator source.
pub fn default_limit() -> (r: usize)
    ensures
        r == 100,
{
    100
}

/// Default listing order of a link-aggregator source.
pub fn default_sort_by() -> (r: String)
    ensures
        r@ == "hot"@,
{
    String::from_str("hot")
}

/// Default user agent of a link-aggregator source.
pub fn default_user_agent() -> (r: String)
    ensures
        r@ == "crawler/0.1.0"@,
{
    String::from_str("crawler/0.1.0")
}

/// Default pause between two requests to one provider.
pub fn default_rate_limit_delay_ms() -> (r: u64)
    ensures
        r == 1000,
{
    1000
}

/// Default number of papers gathered from a paper-search source.
pub fn default_max_results() -> (r: usize)
    ensures
        r == 100,
{
    100
}

/// Accepted log levels.
pub open spec fn is_log_level(s: Seq<char>) -> bool {
    s == "error"@ || s == "warn"@ || s == "info"@ || s == "debug"@ || s == "trace"@
}

/// Accepted listing orders.
pub open spec fn is_sort_mode(s: Seq<char>) -> bool {
    s == "hot"@ || s == "new"@ || s == "top"@ || s == "rising"@
}

/// Accepted time windows of the `top` order.
pub open spec fn is_time_window(s: Seq<char>) -> bool {
    s == "hour"@ || s == "day"@ || s == "week"@ || s == "month"@ || s == "year"@ || s == "all"@
}

/// Number of `-` characters in `s`.
pub open spec fn dash_count(s: Seq<char>) -> nat
    decreases s.len(),
{
    if s.len() == 0 {
        0
    } else {
        dash_count(s.drop_last()) + if s.last() == '-' {
            1nat
        } else {
            0nat
        }
    }
}

/// Position of the first `-` in `s`, or its length when there is none.
pub open spec fn first_dash(s: Seq<char>) -> int
    decreases s.len(),
{
    if s.len() == 0 {
        0
    } else if s[0] == '-' {
        0
    } else {
        1 + first_dash(s.drop_first())
    }
}

/// What is wrong with a year filter (`YYYY`, `YYYY-YYYY`, `YYYY-` or
/// `-YYYY`), if anything.
pub open spec fn year_problem(y: Seq<char>) -> Option<SourceProblem> {
    if y.len() == 0 {
        Some(SourceProblem::EmptyYear)
    } else if dash_count(y) > 0 {
        let k = first_dash(y);
        let start = y.subrange(0, k);
        let end = y.subrange(k + 1, y.len() as int);
        if dash_count(y) != 1 {
            Some(SourceProblem::BadYearRange)
        } else if start.len() > 0 && !is_i32_text(start) {
            Some(SourceProblem::BadStartYear)
        } else if end.len() > 0 && !is_i32_text(end) {
            Some(SourceProblem::BadEndYear)
        } else {
            None
        }
    } else if !is_i32_text(y) {
        Some(SourceProblem::BadYear)
    } else {
        None
    }
}

/// What is wrong with a link-aggregator source, if anything; the first
/// failing check wins.
pub open spec fn reddit_problem(c: RedditView) -> Option<SourceProblem> {
    if c.subreddit.len() == 0 {
        Some(SourceProblem::EmptySubreddit)
    } else if starts_with_seq(c.subreddit, "/r/"@) || starts_with_seq(c.subreddit, "r/"@) {
        Some(SourceProblem::SubredditPrefix)
    } else if c.limit == 0 {
        Some(SourceProblem::ZeroLimit)
    } else if !is_sort_mode(c.sort_by) {
        Some(SourceProblem::BadSortBy)
    } else if c.sort_by == "top"@ && c.time_filter is None {
        Some(SourceProblem::MissingTimeFilter)
    } else if c.time_filter matches Some(t) && !is_time_window(t) {
        Some(SourceProblem::BadTimeFilter)
    } else if c.user_agent.len() == 0 {
        Some(SourceProblem::EmptyUserAgent)
    } else {
        None
    }
}

/// What is wrong with a paper-search source, if anything; the first failing
/// check wins.
pub open spec fn semantic_scholar_problem(c: ScholarView) -> Option<SourceProblem> {
    if c.max_results == 0 {
        Some(SourceProblem::ZeroMaxResults)
    } else if c.min_citations < 0 {
        Some(SourceProblem::NegativeMinCitations)
    } else {
        match c.mode {
            ModeView::Search { query, year } => {
                if query.len() == 0 {
                    Some(SourceProblem::EmptyQuery)
                } else {
                    match year {
                        Some(y) => year_problem(y),
                        None => None,
                    }
                }
            },
            ModeView::Recommendations { paper_id } => {
                if paper_id.len() == 0 {
                    Some(SourceProblem::EmptyPaperId)
                } else {
                    None
                }
            },
        }
    }
}

/// What is wrong with one source, if anything.
pub open spec fn source_problem(c: SourceConfigView) -> Option<SourceProblem> {
    match c {
        SourceConfigView::Reddit(r) => reddit_problem(r),
        SourceConfigView::SemanticScholar(s) => semantic_scholar_problem(s),
    }
}

/// Whether at least one of the entries is enabled.
pub open spec fn any_enabled(sources: Seq<EntryView>) -> bool {
    exists|i: int| 0 <= i < sources.len() && #[trigger] sources[i].enabled
}

/// Index of the first entry with a problem, or the length when there is
/// none.
pub open spec fn first_bad_source(sources: Seq<EntryView>) -> int
    decreases sources.len(),
{
    if sources.len() == 0 {
        0
    } else if source_problem(sources[0].config) is Some {
        0
    } else {
        1 + first_bad_source(sources.drop_first())
    }
}

/// The error that validation reports for a configuration, if any: the
/// crawler-level checks first, then the sources in order.
pub open spec fn config_problem(c: ConfigView) -> Option<ConfigErrorView> {
    if c.crawler.user_agent.len() == 0 {
        Some(ConfigErrorView::EmptyUserAgent)
    } else if c.crawler.max_concurrency == 0 {
        Some(ConfigErrorView::ZeroConcurrency)
    } else if !is_log_level(c.crawler.log_level) {
        Some(ConfigErrorView::BadLogLevel(c.crawler.log_level))
    } else if c.sources.len() == 0 {
        Some(ConfigErrorView::NoSources)
    } else if !any_enabled(c.sources) {
        Some(ConfigErrorView::NoEnabledSources)
    } else {
        let k = first_bad_source(c.sources);
        if k < c.sources.len() {
            Some(ConfigErrorView::Source(k as usize, source_problem(c.sources[k].config)->0))
        } else {
            None
        }
    }
}

/// Whether `level` names an accepted log level.
pub fn is_valid_log_level(level: &str) -> (r: bool)
    ensures
        r == is_log_level(level@),
{
    same_text(level, "error") || same_text(level, "warn") || same_text(level, "info")
        || same_text(level, "debug") || same_text(level, "trace")
}

/// Position of the first `-` and the number of them.
fn scan_dashes(s: &str) -> (r: (usize, usize))
    ensures
        r.0 == first_dash(s@),
        r.1 == dash_count(s@),
{
    let n = s.unicode_len();
    proof {
        lemma_first_dash(s@);
    }
    let mut i: usize = 0;
    let mut first: usize = n;
    let mut count: usize = 0;
    while i < n
        invariant
            n == s@.len(),
            i <= n,
            count == dash_count(s@.subrange(0, i as int)),
            count <= i,
            first_dash(s@) < i ==> first == first_dash(s@),
            first_dash(s@) >= i ==> first == n,
            first_dash(s@) <= n,
            first_dash(s@) < n ==> s@[first_dash(s@)] == '-',
            forall|j: int| 0 <= j < first_dash(s@) ==> s@[j] != '-',
        decreases n - i,
    {
        proof {
            assert(s@.subrange(0, i + 1).drop_last() =~= s@.subrange(0, i as int));
        }
        let c = s.get_char(i);
        if c == '-' {
            if first == n {
                first = i;
            }
            count = count + 1;
        }
        i = i + 1;
    }
    proof {
        assert(s@.subrange(0, n as int) =~= s@);
    }
    (first, count)
}

/// `first_dash` is the position of the first `-`, if there is one.
proof fn lemma_first_dash(s: Seq<char>)
    ensures
        0 <= first_dash(s) <= s.len(),
        first_dash(s) < s.len() ==> s[first_dash(s)] == '-',
        forall|j: int| 0 <= j < first_dash(s) ==> s[j] != '-',
    decreases s.len(),
{
    if s.len() > 0 && s[0] != '-' {
        lemma_first_dash(s.drop_first());
        assert forall|j: int| 0 <= j < first_dash(s) implies s[j] != '-' by {
            if j > 0 {
                assert(s[j] == s.drop_first()[j - 1]);
            }
        }
    }
}

/// There is a `-` exactly when the count of them is positive.
proof fn lemma_dash_count(s: Seq<char>)
    ensures
        dash_count(s) > 0 <==> exists|j: int| 0 <= j < s.len() && s[j] == '-',
    decreases s.len(),
{
    if s.len() > 0 {
        lemma_dash_count(s.drop_last());
        if exists|j: int| 0 <= j < s.len() && s[j] == '-' {
            let j = choose|j: int| 0 <= j < s.len() && s[j] == '-';
            if j < s.len() - 1 {
                assert(s.drop_last()[j] == '-');
            }
        }
        if exists|j: int| 0 <= j < s.len() - 1 && s.drop_last()[j] == '-' {
            let j = choose|j: int| 0 <= j < s.len() - 1 && s.drop_last()[j] == '-';
            assert(s[j] == '-');
        }
    }
}


/// The table under `key`, as plain data.
pub open spec fn table_field(t: Map<Seq<char>, TomlView>, key: Seq<char>) -> Result<
    Map<Seq<char>, TomlView>,
    ConfigErrorView,
> {
    if t.contains_key(key) {
        match t[key] {
            TomlView::Table(m) => Ok(m),
            _ => Err(ConfigErrorView::WrongType(key)),
        }
    } else {
        Err(ConfigErrorView::MissingField(key))
    }
}

/// The `[crawler]` settings that a table describes, with defaults for
/// missing keys; the first unreadable key in order is the error.
pub open spec fn read_crawler(t: Map<Seq<char>, TomlView>) -> Result<CrawlerView, ConfigErrorView> {
    let a = text_field(t, "output_format"@, Some("json"@));
    let b = text_field(t, "output_destination"@, Some("stdout"@));
    let c = text_field(t, "log_level"@, Some("info"@));
    let d = int_field(t, "max_concurrency"@, 5, 0, usize::MAX as int);
    let e = text_field(t, "user_agent"@, None);
    if a is Err {
        Err(a->Err_0)
    } else if b is Err {
        Err(b->Err_0)
    } else if c is Err {
        Err(c->Err_0)
    } else if d is Err {
        Err(d->Err_0)
    } else if e is Err {
        Err(e->Err_0)
    } else {
        Ok(
            CrawlerView {
                output_format: a->Ok_0,
                output_destination: b->Ok_0,
                log_level: c->Ok_0,
                max_concurrency: d->Ok_0 as usize,
                user_agent: e->Ok_0,
            },
        )
    }
}

/// The link-aggregator settings that a table describes.
pub open spec fn read_reddit(t: Map<Seq<char>, TomlView>) -> Result<RedditView, ConfigErrorView> {
    let a = text_field(t, "subreddit"@, None);
    let b = int_field(t, "limit"@, 100, 0, usize::MAX as int);
    let c = text_field(t, "sort_by"@, Some("hot"@));
    let d = optional_text_field(t, "time_filter"@);
    let e = int_field(t, "min_score"@, 0, i32::MIN as int, i32::MAX as int);
    let f = int_field(t, "min_comments"@, 0, i32::MIN as int, i32::MAX as int);
    let g = text_field(t, "user_agent"@, Some("crawler/0.1.0"@));
    let h = int_field(t, "rate_limit_delay_ms"@, 1000, 0, u64::MAX as int);
    if a is Err {
        Err(a->Err_0)
    } else if b is Err {
        Err(b->Err_0)
    } else if c is Err {
        Err(c->Err_0)
    } else if d is Err {
        Err(d->Err_0)
    } else if e is Err {
        Err(e->Err_0)
    } else if f is Err {
        Err(f->Err_0)
    } else if g is Err {
        Err(g->Err_0)
    } else if h is Err {
        Err(h->Err_0)
    } else {
        Ok(
            RedditView {
                subreddit: a->Ok_0,
                limit: b->Ok_0 as usize,
                sort_by: c->Ok_0,
                time_filter: d->Ok_0,
                min_score: e->Ok_0 as i32,
                min_comments: f->Ok_0 as i32,
                user_agent: g->Ok_0,
                rate_limit_delay_ms: h->Ok_0 as u64,
            },
        )
    }
}

/// The paper-search mode that a table describes.
pub open spec fn read_mode(t: Map<Seq<char>, TomlView>) -> Result<ModeView, ConfigErrorView> {
    let m = text_field(t, "mode"@, None);
    if m is Err {
        Err(m->Err_0)
    } else if m->Ok_0 == "search"@ {
        let q = text_field(t, "query"@, None);
        let y = optional_text_field(t, "year"@);
        if q is Err {
            Err(q->Err_0)
        } else if y is Err {
            Err(y->Err_0)
        } else {
            Ok(ModeView::Search { query: q->Ok_0, year: y->Ok_0 })
        }
    } else if m->Ok_0 == "recommendations"@ {
        let p = text_field(t, "paper_id"@, None);
        if p is Err {
            Err(p->Err_0)
        } else {
            Ok(ModeView::Recommendations { paper_id: p->Ok_0 })
        }
    } else {
        Err(ConfigErrorView::UnknownVariant(m->Ok_0))
    }
}

/// The paper-search settings that a table describes.
pub open spec fn read_scholar(t: Map<Seq<char>, TomlView>) -> Result<ScholarView, ConfigErrorView> {
    let m = read_mode(t);
    let a = int_field(t, "max_results"@, 100, 0, usize::MAX as int);
    let b = int_field(t, "min_citations"@, 0, i32::MIN as int, i32::MAX as int);
    let c = optional_text_field(t, "api_key"@);
    let d = int_field(t, "rate_limit_delay_ms"@, 1000, 0, u64::MAX as int);
    if m is Err {
        Err(m->Err_0)
    } else if a is Err {
        Err(a->Err_0)
    } else if b is Err {
        Err(b->Err_0)
    } else if c is Err {
        Err(c->Err_0)
    } else if d is Err {
        Err(d->Err_0)
    } else {
        Ok(
            ScholarView {
                mode: m->Ok_0,
                max_results: a->Ok_0 as usize,
                min_citations: b->Ok_0 as i32,
                api_key: c->Ok_0,
                rate_limit_delay_ms: d->Ok_0 as u64,
            },
        )
    }
}

/// The source entry that a table describes; `type` selects the provider.
pub open spec fn read_entry(t: Map<Seq<char>, TomlView>) -> Result<EntryView, ConfigErrorView> {
    let en = bool_field(t, "enabled"@, true);
    let ty = text_field(t, "type"@, None);
    if en is Err {
        Err(en->Err_0)
    } else if ty is Err {
        Err(ty->Err_0)
    } else if ty->Ok_0 == "reddit"@ {
        match read_reddit(t) {
            Ok(r) => Ok(EntryView { enabled: en->Ok_0, config: SourceConfigView::Reddit(r) }),
            Err(e) => Err(e),
        }
    } else if ty->Ok_0 == "semanticscholar"@ {
        match read_scholar(t) {
            Ok(r) => Ok(EntryView { enabled: en->Ok_0, config: SourceConfigView::SemanticScholar(r) }),
            Err(e) => Err(e),
        }
    } else {
        Err(ConfigErrorView::UnknownVariant(ty->Ok_0))
    }
}

/// The entries that an array of tables describes, in order; the first
/// unreadable element is the error.
pub open spec fn read_sources(items: Seq<TomlView>) -> Result<Seq<EntryView>, ConfigErrorView>
    decreases items.len(),
{
    if items.len() == 0 {
        Ok(Seq::empty())
    } else {
        match read_sources(items.drop_last()) {
            Err(e) => Err(e),
            Ok(prev) => match items.last() {
                TomlView::Table(m) => match read_entry(m) {
                    Ok(e) => Ok(prev.push(e)),
                    Err(e) => Err(e),
                },
                _ => Err(ConfigErrorView::WrongType("sources"@)),
            },
        }
    }
}

/// The configuration that a document describes, before validation.
pub open spec fn read_config(doc: Map<Seq<char>, TomlView>) -> Result<ConfigView, ConfigErrorView> {
    let cr = match table_field(doc, "crawler"@) {
        Ok(m) => read_crawler(m),
        Err(e) => Err(e),
    };
    let so = if doc.contains_key("sources"@) {
        match doc["sources"@] {
            TomlView::Array(items) => read_sources(items),
            _ => Err(ConfigErrorView::WrongType("sources"@)),
        }
    } else {
        Err(ConfigErrorView::MissingField("sources"@))
    };
    if cr is Err {
        Err(cr->Err_0)
    } else if so is Err {
        Err(so->Err_0)
    } else {
        Ok(ConfigView { crawler: cr->Ok_0, sources: so->Ok_0 })
    }
}

/// What loading a configuration text gives: a syntax error, the first read
/// error, the first validation problem, or the configuration.
pub open spec fn loaded(doc: Map<Seq<char>, TomlView>) -> Result<ConfigView, ConfigErrorView> {
    match read_config(doc) {
        Err(e) => Err(e),
        Ok(v) => match config_problem(v) {
            None => Ok(v),
            Some(e) => Err(e),
        },
    }
}

/// Reads the table under `key`.
fn table_at(t: &toml::Table, key: &str) -> (r: Result<toml::Table, ConfigError>)
    ensures
        match table_field(table_view(*t), key@) {
            Ok(m) => r matches Ok(x) && table_view(x) == m,
            Err(e) => r matches Err(x) && x@ == e,
        },
{
    match field(t, key) {
        Some(Item::Table(inner)) => Ok(inner),
        Some(_) => Err(ConfigError::WrongType(String::from_str(key))),
        None => Err(ConfigError::MissingField(String::from_str(key))),
    }
}

/// Reads the `[crawler]` table.
fn crawler_from(t: &toml::Table) -> (r: Result<CrawlerConfig, ConfigError>)
    ensures
        same_outcome(r, read_crawler(table_view(*t))),
{
    let output_format = match text_at(t, "output_format", Some(default_output_format())) {
        Ok(v) => v,
        Err(e) => return Err(e),
    };
    let output_destination = match text_at(t, "output_destination", Some(default_output_destination())) {
        Ok(v) => v,
        Err(e) => return Err(e),
    };
    let log_level = match text_at(t, "log_level", Some(default_log_level())) {
        Ok(v) => v,
        Err(e) => return Err(e),
    };
    let max_concurrency = match usize_at(t, "max_concurrency", default_max_concurrency()) {
        Ok(v) => v,
        Err(e) => return Err(e),
    };
    let user_agent = match text_at(t, "user_agent", None) {
        Ok(v) => v,
        Err(e) => return Err(e),
    };
    Ok(CrawlerConfig { output_format, output_destination, log_level, max_concurrency, user_agent })
}

/// Reads the settings of a link-aggregator source.
fn reddit_from(t: &toml::Table) -> (r: Result<RedditConfig, ConfigError>)
    ensures
        same_outcome(r, read_reddit(table_view(*t))),
{
    let subreddit = match text_at(t, "subreddit", None) {
        Ok(v) => v,
        Err(e) => return Err(e),
    };
    let limit = match usize_at(t, "limit", default_limit()) {
        Ok(v) => v,
        Err(e) => return Err(e),
    };
    let sort_by = match text_at(t, "sort_by", Some(default_sort_by())) {
        Ok(v) => v,
        Err(e) => return Err(e),
    };
    let time_filter = match optional_text_at(t, "time_filter") {
        Ok(v) => v,
        Err(e) => return Err(e),
    };
    let min_score = match i32_at(t, "min_score", 0) {
        Ok(v) => v,
        Err(e) => return Err(e),
    };
    let min_comments = match i32_at(t, "min_comments", 0) {
        Ok(v) => v,
        Err(e) => return Err(e),
    };
    let user_agent = match text_at(t, "user_agent", Some(default_user_agent())) {
        Ok(v) => v,
        Err(e) => return Err(e),
    };
    let rate_limit_delay_ms = match u64_at(t, "rate_limit_delay_ms", default_rate_limit_delay_ms()) {
        Ok(v) => v,
        Err(e) => return Err(e),
    };
    Ok(
        RedditConfig {
            subreddit,
            limit,
            sort_by,
            time_filter,
            min_score,
            min_comments,
            user_agent,
            rate_limit_delay_ms,
        },
    )
}

/// Reads the mode of a paper-search source.
fn mode_from(t: &toml::Table) -> (r: Result<SemanticScholarMode, ConfigError>)
    ensures
        same_outcome(r, read_mode(table_view(*t))),
{
    let mode_name = match text_at(t, "mode", None) {
        Ok(v) => v,
        Err(e) => return Err(e),
    };
    if same_text(mode_name.as_str(), "search") {
        let query = match text_at(t, "query", None) {
            Ok(v) => v,
            Err(e) => return Err(e),
        };
        let year = match optional_text_at(t, "year") {
            Ok(v) => v,
            Err(e) => return Err(e),
        };
        Ok(SemanticScholarMode::Search { query, year })
    } else if same_text(mode_name.as_str(), "recommendations") {
        let paper_id = match text_at(t, "paper_id", None) {
            Ok(v) => v,
            Err(e) => return Err(e),
        };
        Ok(SemanticScholarMode::Recommendations { paper_id })
    } else {
        Err(ConfigError::UnknownVariant(mode_name))
    }
}

/// Reads the settings of a paper-search source; `mode` selects the endpoint.
fn semantic_scholar_from(t: &toml::Table) -> (r: Result<SemanticScholarConfig, ConfigError>)
    ensures
        same_outcome(r, read_scholar(table_view(*t))),
{
    let mode = match mode_from(t) {
        Ok(v) => v,
        Err(e) => return Err(e),
    };
    let max_results = match usize_at(t, "max_results", default_max_results()) {
        Ok(v) => v,
        Err(e) => return Err(e),
    };
    let min_citations = match i32_at(t, "min_citations", 0) {
        Ok(v) => v,
        Err(e) => return Err(e),
    };
    let api_key = match optional_text_at(t, "api_key") {
        Ok(v) => v,
        Err(e) => return Err(e),
    };
    let rate_limit_delay_ms = match u64_at(t, "rate_limit_delay_ms", default_rate_limit_delay_ms()) {
        Ok(v) => v,
        Err(e) => return Err(e),
    };
    Ok(SemanticScholarConfig { mode, max_results, min_citations, api_key, rate_limit_delay_ms })
}

/// Reads one `[[sources]]` entry; `type` selects the provider.
fn entry_from(t: &toml::Table) -> (r: Result<SourceEntry, ConfigError>)
    ensures
        same_outcome(r, read_entry(table_view(*t))),
{
    let enabled = match bool_at(t, "enabled", default_enabled()) {
        Ok(v) => v,
        Err(e) => return Err(e),
    };
    let kind = match text_at(t, "type", None) {
        Ok(v) => v,
        Err(e) => return Err(e),
    };
    if same_text(kind.as_str(), "reddit") {
        match reddit_from(t) {
            Ok(c) => Ok(SourceEntry { enabled, config: SourceConfig::Reddit(c) }),
            Err(e) => Err(e),
        }
    } else if same_text(kind.as_str(), "semanticscholar") {
        match semantic_scholar_from(t) {
            Ok(c) => Ok(SourceEntry { enabled, config: SourceConfig::SemanticScholar(c) }),
            Err(e) => Err(e),
        }
    } else {
        Err(ConfigError::UnknownVariant(kind))
    }
}

/// A failure while reading a prefix of the entries is the failure of the
/// whole.
proof fn lemma_read_sources_prefix(items: Seq<TomlView>, i: int)
    requires
        0 <= i <= items.len(),
        read_sources(items.take(i)) is Err,
    ensures
        read_sources(items) == read_sources(items.take(i)),
    decreases items.len(),
{
    if i == items.len() {
        assert(items.take(i) =~= items);
    } else {
        assert(items.drop_last().take(i) =~= items.take(i));
        lemma_read_sources_prefix(items.drop_last(), i);
    }
}

/// Reads the `[[sources]]` array, keeping the declaration order.
fn sources_from(items: Vec<toml::Value>) -> (r: Result<Vec<SourceEntry>, ConfigError>)
    ensures
        match read_sources(items@.map_values(|v: toml::Value| value_view(v))) {
            Ok(v) => r matches Ok(x) && entries_view(x@) == v,
            Err(e) => r matches Err(x) && x@ == e,
        },
{
    let ghost views = items@.map_values(|v: toml::Value| value_view(v));
    let ghost all = items@;
    let mut out: Vec<SourceEntry> = Vec::new();
    proof {
        assert(views.take(0) =~= Seq::<TomlView>::empty());
        assert(entries_view(out@) =~= Seq::<EntryView>::empty());
    }
    for v in it: items.into_iter()
        invariant
            it.seq() == all,
            views == all.map_values(|v: toml::Value| value_view(v)),
            read_sources(views.take(it.index() as int)) == Ok::<Seq<EntryView>, ConfigErrorView>(
                entries_view(out@),
            ),
    {
        let ghost i = it.index() as int;
        proof {
            assert(v == all[i]);
            assert(views.take(i + 1).drop_last() =~= views.take(i));
            assert(views.take(i + 1).last() == value_view(v));
        }
        let it_v = classify(v);
        let ghost prev = out@;
        match it_v {
            Item::Table(t) => {
                match entry_from(&t) {
                    Ok(e) => {
                        out.push(e);
                        proof {
                            assert(entries_view(out@) =~= entries_view(prev).push(e@));
                            assert(views.take(i + 1).last() == TomlView::Table(table_view(t)));
                        }
                    },
                    Err(e) => {
                        proof {
                            lemma_read_sources_prefix(views, i + 1);
                        }
                        return Err(e);
                    },
                }
            },
            _ => {
                proof {
                    lemma_read_sources_prefix(views, i + 1);
                }
                return Err(ConfigError::WrongType(String::from_str("sources")));
            },
        }
    }
    proof {
        assert(views.take(views.len() as int) =~= views);
    }
    Ok(out)
}

impl Config {
    /// Reads a configuration from TOML text and validates it.
    pub fn from_str(contents: &str) -> (r: Result<Config, ConfigError>)
        ensures
            match toml_parse(contents@) {
                None => r matches Err(ConfigError::Syntax(_)),
                Some(doc) => match loaded(doc) {
                    Ok(v) => r matches Ok(c) && c@ == v,
                    Err(e) => r matches Err(x) && x@ == e,
                },
            },
    {
        let root = match parse_document(contents) {
            Ok(t) => t,
            Err(e) => {
                return Err(ConfigError::Syntax(describe(&e)));
            },
        };
        let crawler_table = match table_at(&root, "crawler") {
            Ok(t) => t,
            Err(e) => return Err(e),
        };
        let crawler = match crawler_from(&crawler_table) {
            Ok(c) => c,
            Err(e) => return Err(e),
        };
        let sources = match field(&root, "sources") {
            Some(Item::Array(items)) => match sources_from(items) {
                Ok(s) => s,
                Err(e) => return Err(e),
            },
            Some(_) => {
                return Err(ConfigError::WrongType(String::from_str("sources")));
            },
            None => {
                return Err(ConfigError::MissingField(String::from_str("sources")));
            },
        };
        let config = Config { crawler, sources };
        match config.validate() {
            Ok(()) => Ok(config),
            Err(e) => Err(e),
        }
    }
    /// Checks the crawler settings and then every source in order, and
    /// reports the first problem found.
    pub fn validate(&self) -> (r: Result<(), ConfigError>)
        ensures
            r is Ok <==> config_problem(self@) is None,
            r matches Err(e) ==> config_problem(self@) == Some(e@),
    {
        if self.crawler.user_agent.unicode_len() == 0 {
            return Err(ConfigError::EmptyUserAgent);
        }
        if self.crawler.max_concurrency == 0 {
            return Err(ConfigError::ZeroConcurrency);
        }
        if !is_valid_log_level(self.crawler.log_level.as_str()) {
            return Err(ConfigError::BadLogLevel(self.crawler.log_level.clone()));
        }
        if self.sources.len() == 0 {
            return Err(ConfigError::NoSources);
        }
        let mut enabled_count: usize = 0;
        let mut i: usize = 0;
        while i < self.sources.len()
            invariant
                i <= self.sources.len(),
                enabled_count <= i,
                (enabled_count > 0) == (exists|j: int| 0 <= j < i && #[trigger] self@.sources[j].enabled),
            decreases self.sources.len() - i,
        {
            assert(self@.sources[i as int].enabled == self.sources@[i as int].enabled);
            if self.sources[i].enabled {
                enabled_count = enabled_count + 1;
            }
            i = i + 1;
        }
        if enabled_count == 0 {
            return Err(ConfigError::NoEnabledSources);
        }
        let mut idx: usize = 0;
        while idx < self.sources.len()
            invariant
                idx <= self.sources.len(),
                self.crawler.user_agent@.len() > 0,
                self.crawler.max_concurrency > 0,
                is_log_level(self.crawler.log_level@),
                self.sources.len() > 0,
                any_enabled(self@.sources),
                forall|j: int| 0 <= j < idx ==> source_problem(#[trigger] self@.sources[j].config) is None,
            decreases self.sources.len() - idx,
        {
            let checked = match &self.sources[idx].config {
                SourceConfig::Reddit(reddit_config) => self.validate_reddit_config(reddit_config, idx),
                SourceConfig::SemanticScholar(s2) => self.validate_semantic_scholar_config(s2, idx),
            };
            if let Err(e) = checked {
                proof {
                    lemma_first_bad_source(self@.sources, idx as int);
                }
                return Err(e);
            }
            idx = idx + 1;
        }
        proof {
            lemma_first_bad_source(self@.sources, self.sources.len() as int);
        }
        Ok(())
    }

    /// Checks one link-aggregator source, `idx` being its position.
    pub fn validate_reddit_config(&self, config: &RedditConfig, idx: usize) -> (r: Result<(), ConfigError>)
        ensures
            r is Ok <==> reddit_problem(config@) is None,
            r matches Err(e) ==> e == ConfigError::Source(idx, reddit_problem(config@)->0),
    {
        let sub = config.subreddit.as_str();
        if sub.unicode_len() == 0 {
            return Err(ConfigError::Source(idx, SourceProblem::EmptySubreddit));
        }
        if starts_with_text(sub, "/r/") || starts_with_text(sub, "r/") {
            return Err(ConfigError::Source(idx, SourceProblem::SubredditPrefix));
        }
        if config.limit == 0 {
            return Err(ConfigError::Source(idx, SourceProblem::ZeroLimit));
        }
        let sort = config.sort_by.as_str();
        if !(same_text(sort, "hot") || same_text(sort, "new") || same_text(sort, "top")
            || same_text(sort, "rising")) {
            return Err(ConfigError::Source(idx, SourceProblem::BadSortBy));
        }
        if same_text(sort, "top") && config.time_filter.is_none() {
            return Err(ConfigError::Source(idx, SourceProblem::MissingTimeFilter));
        }
        if let Some(t) = &config.time_filter {
            let t = t.as_str();
            if !(same_text(t, "hour") || same_text(t, "day") || same_text(t, "week")
                || same_text(t, "month") || same_text(t, "year") || same_text(t, "all")) {
                return Err(ConfigError::Source(idx, SourceProblem::BadTimeFilter));
            }
        }
        if config.user_agent.unicode_len() == 0 {
            return Err(ConfigError::Source(idx, SourceProblem::EmptyUserAgent));
        }
        Ok(())
    }

    /// Checks one paper-search source, `idx` being its position.
    pub fn validate_semantic_scholar_config(&self, config: &SemanticScholarConfig, idx: usize) -> (r:
        Result<(), ConfigError>)
        ensures
            r is Ok <==> semantic_scholar_problem(config@) is None,
            r matches Err(e) ==> e == ConfigError::Source(idx, semantic_scholar_problem(config@)->0),
    {
        if config.max_results == 0 {
            return Err(ConfigError::Source(idx, SourceProblem::ZeroMaxResults));
        }
        if config.min_citations < 0 {
            return Err(ConfigError::Source(idx, SourceProblem::NegativeMinCitations));
        }
        match &config.mode {
            SemanticScholarMode::Search { query, year } => {
                if query.unicode_len() == 0 {
                    return Err(ConfigError::Source(idx, SourceProblem::EmptyQuery));
                }
                if let Some(year_str) = year {
                    match self.validate_year_format(year_str.as_str(), idx) {
                        Ok(()) => {},
                        Err(e) => return Err(e),
                    }
                }
            },
            SemanticScholarMode::Recommendations { paper_id } => {
                if paper_id.unicode_len() == 0 {
                    return Err(ConfigError::Source(idx, SourceProblem::EmptyPaperId));
                }
            },
        }
        Ok(())
    }

    /// Checks a year filter: `YYYY`, `YYYY-YYYY`, `YYYY-` or `-YYYY`.
    pub fn validate_year_format(&self, year: &str, idx: usize) -> (r: Result<(), ConfigError>)
        ensures
            r is Ok <==> year_problem(year@) is None,
            r matches Err(e) ==> e == ConfigError::Source(idx, year_problem(year@)->0),
    {
        let n = year.unicode_len();
        if n == 0 {
            return Err(ConfigError::Source(idx, SourceProblem::EmptyYear));
        }
        let (k, dashes) = scan_dashes(year);
        if dashes > 0 {
            if dashes != 1 {
                return Err(ConfigError::Source(idx, SourceProblem::BadYearRange));
            }
            proof {
                lemma_first_dash(year@);
                lemma_dash_count(year@);
            }
            let start = year.substring_char(0, k);
            let end = year.substring_char(k + 1, n);
            if start.unicode_len() > 0 && parse_i32(start).is_none() {
                return Err(ConfigError::Source(idx, SourceProblem::BadStartYear));
            }
            if end.unicode_len() > 0 && parse_i32(end).is_none() {
                return Err(ConfigError::Source(idx, SourceProblem::BadEndYear));
            }
        } else {
            if parse_i32(year).is_none() {
                return Err(ConfigError::Source(idx, SourceProblem::BadYear));
            }
        }
        Ok(())
    }
}

/// `first_bad_source` finds the first entry with a problem.
proof fn lemma_first_bad_source(s: Seq<EntryView>, k: int)
    requires
        0 <= k <= s.len(),
        forall|j: int| 0 <= j < k ==> source_problem(#[trigger] s[j].config) is None,
        k < s.len() ==> source_problem(s[k].config) is Some,
    ensures
        first_bad_source(s) == k,
    decreases s.len(),
{
    if s.len() > 0 && k > 0 {
        assert(source_problem(s[0].config) is None);
        assert forall|j: int| 0 <= j < k - 1 implies source_problem(
            #[trigger] s.drop_first()[j].config,
        ) is None by {
            assert(s.drop_first()[j] == s[j + 1]);
        }
        if k < s.len() {
            assert(s.drop_first()[k - 1] == s[k]);
        }
        lemma_first_bad_source(s.drop_first(), k - 1);
    }
}

} // verus!
