//! Errors of configuration loading and of fetching.

use vstd::prelude::*;

use crate::text::{count_text, decimal, int_text, signed_decimal};

verus! {

/// What is wrong with one configured source.
#[derive(Debug, Clone, Copy, PartialEq, Eq, Structural)]
pub enum SourceProblem {
    EmptySubreddit,
    SubredditPrefix,
    ZeroLimit,
    BadSortBy,
    MissingTimeFilter,
    BadTimeFilter,
    EmptyUserAgent,
    ZeroMaxResults,
    NegativeMinCitations,
    EmptyQuery,
    EmptyPaperId,
    EmptyYear,
    BadYearRange,
    BadStartYear,
    BadEndYear,
    BadYear,
}

/// Why a configuration was refused.
#[derive(Debug, Clone)]
pub enum ConfigError {
    /// The text is not TOML; the parser's description.
    Syntax(String),
    /// A required key is absent.
    MissingField(String),
    /// A key holds a value of the wrong type or out of range.
    WrongType(String),
    /// A `type` or `mode` that names no known variant.
    UnknownVariant(String),
    EmptyUserAgent,
    ZeroConcurrency,
    BadLogLevel(String),
    NoSources,
    NoEnabledSources,
    /// The source at this position is invalid.
    Source(usize, SourceProblem),
}

/// A configuration error as plain data.
pub enum ConfigErrorView {
    Syntax(Seq<char>),
    MissingField(Seq<char>),
    WrongType(Seq<char>),
    UnknownVariant(Seq<char>),
    EmptyUserAgent,
    ZeroConcurrency,
    BadLogLevel(Seq<char>),
    NoSources,
    NoEnabledSources,
    Source(usize, SourceProblem),
}

impl View for ConfigError {
    type V = ConfigErrorView;

    open spec fn view(&self) -> ConfigErrorView {
        match self {
            ConfigError::Syntax(d) => ConfigErrorView::Syntax(d@),
            ConfigError::MissingField(k) => ConfigErrorView::MissingField(k@),
            ConfigError::WrongType(k) => ConfigErrorView::WrongType(k@),
            ConfigError::UnknownVariant(v) => ConfigErrorView::UnknownVariant(v@),
            ConfigError::EmptyUserAgent => ConfigErrorView::EmptyUserAgent,
            ConfigError::ZeroConcurrency => ConfigErrorView::ZeroConcurrency,
            ConfigError::BadLogLevel(l) => ConfigErrorView::BadLogLevel(l@),
            ConfigError::NoSources => ConfigErrorView::NoSources,
            ConfigError::NoEnabledSources => ConfigErrorView::NoEnabledSources,
            ConfigError::Source(i, p) => ConfigErrorView::Source(*i, *p),
        }
    }
}

/// An outcome agrees with its plain-data description: the same success
/// value, or the same error, as views.
pub open spec fn same_outcome<T: View>(r: Result<T, ConfigError>, s: Result<T::V, ConfigErrorView>) -> bool {
    match s {
        Ok(v) => r matches Ok(x) && x@ == v,
        Err(e) => r matches Err(x) && x@ == e,
    }
}

/// Why a source could not be built or fetched.
#[derive(Debug, Clone)]
pub enum FetchError {
    /// A source was built with an empty subreddit.
    EmptySubreddit,
    /// A source was built with an empty user agent.
    EmptyUserAgent,
    /// A paper search was built with an empty query.
    EmptyQuery,
    /// A recommendations source was built with an empty seed paper id.
    EmptyPaperId,
    /// The provider answered 429 and no retry is left (`retries` were made).
    RateLimited { retries: u32 },
    /// The link-aggregator answered with a status other than success or 429.
    Status(u16),
    /// A server error (5xx) persisted through every retry.
    ServerError { status: u16, retries: u32, body: Option<String> },
    /// A client error (4xx other than 429), never retried.
    ClientError { status: u16, body: Option<String> },
    /// A status that is neither success nor an error class handled above.
    UnexpectedStatus(u16),
    /// The request could not be sent or its answer not read.
    Transport(String),
    /// The answer could not be decoded.
    Decode(String),
}


/// Description of a source problem.
pub open spec fn problem_text(p: SourceProblem) -> Seq<char> {
    match p {
        SourceProblem::EmptySubreddit => "subreddit cannot be empty"@,
        SourceProblem::SubredditPrefix => "subreddit should not include '/r/' prefix"@,
        SourceProblem::ZeroLimit => "limit must be greater than 0"@,
        SourceProblem::BadSortBy => "sort_by must be one of: hot, new, top, rising"@,
        SourceProblem::MissingTimeFilter => "time_filter is required when sort_by is 'top'"@,
        SourceProblem::BadTimeFilter => "time_filter must be one of: hour, day, week, month, year, all"@,
        SourceProblem::EmptyUserAgent => "user_agent cannot be empty (required by Reddit API)"@,
        SourceProblem::ZeroMaxResults => "max_results must be greater than 0"@,
        SourceProblem::NegativeMinCitations => "min_citations must be non-negative"@,
        SourceProblem::EmptyQuery => "query cannot be empty in search mode"@,
        SourceProblem::EmptyPaperId => "paper_id cannot be empty in recommendations mode"@,
        SourceProblem::EmptyYear => "year cannot be empty"@,
        SourceProblem::BadYearRange => "invalid year range format, expected 'YYYY-YYYY', 'YYYY-', or '-YYYY'"@,
        SourceProblem::BadStartYear => "invalid start year in range"@,
        SourceProblem::BadEndYear => "invalid end year in range"@,
        SourceProblem::BadYear => "invalid year, must be a valid integer"@,
    }
}

impl SourceProblem {
    /// Description of the problem.
    pub fn text(&self) -> (r: &'static str)
        ensures
            r@ == problem_text(*self),
    {
        match self {
            SourceProblem::EmptySubreddit => "subreddit cannot be empty",
            SourceProblem::SubredditPrefix => "subreddit should not include '/r/' prefix",
            SourceProblem::ZeroLimit => "limit must be greater than 0",
            SourceProblem::BadSortBy => "sort_by must be one of: hot, new, top, rising",
            SourceProblem::MissingTimeFilter => "time_filter is required when sort_by is 'top'",
            SourceProblem::BadTimeFilter => "time_filter must be one of: hour, day, week, month, year, all",
            SourceProblem::EmptyUserAgent => "user_agent cannot be empty (required by Reddit API)",
            SourceProblem::ZeroMaxResults => "max_results must be greater than 0",
            SourceProblem::NegativeMinCitations => "min_citations must be non-negative",
            SourceProblem::EmptyQuery => "query cannot be empty in search mode",
            SourceProblem::EmptyPaperId => "paper_id cannot be empty in recommendations mode",
            SourceProblem::EmptyYear => "year cannot be empty",
            SourceProblem::BadYearRange => "invalid year range format, expected 'YYYY-YYYY', 'YYYY-', or '-YYYY'",
            SourceProblem::BadStartYear => "invalid start year in range",
            SourceProblem::BadEndYear => "invalid end year in range",
            SourceProblem::BadYear => "invalid year, must be a valid integer",
        }
    }
}

/// Description of a configuration error.
pub open spec fn config_error_text(e: ConfigError) -> Seq<char> {
    match e {
        ConfigError::Syntax(d) => "Failed to parse TOML configuration: "@ + d@,
        ConfigError::MissingField(k) => "missing field `"@ + k@ + "`"@,
        ConfigError::WrongType(k) => "invalid type or value for `"@ + k@ + "`"@,
        ConfigError::UnknownVariant(v) => "unknown variant `"@ + v@ + "`"@,
        ConfigError::EmptyUserAgent => "crawler.user_agent cannot be empty (required by Reddit API)"@,
        ConfigError::ZeroConcurrency => "crawler.max_concurrency must be greater than 0"@,
        ConfigError::BadLogLevel(l) => "crawler.log_level must be one of: error, warn, info, debug, trace, got: "@
            + l@,
        ConfigError::NoSources => "At least one source must be configured"@,
        ConfigError::NoEnabledSources => "At least one source must be enabled"@,
        ConfigError::Source(i, p) => "sources["@ + decimal(i as nat) + "]: "@ + problem_text(p),
    }
}

impl ConfigError {
    /// Human-readable description of the error.
    pub fn message(&self) -> (r: String)
        ensures
            r@ == config_error_text(*self),
    {
        match self {
            ConfigError::Syntax(d) => String::from_str("Failed to parse TOML configuration: ").concat(
                d.as_str(),
            ),
            ConfigError::MissingField(k) => String::from_str("missing field `").concat(k.as_str()).concat("`"),
            ConfigError::WrongType(k) => String::from_str("invalid type or value for `").concat(
                k.as_str(),
            ).concat("`"),
            ConfigError::UnknownVariant(v) => String::from_str("unknown variant `").concat(v.as_str()).concat(
                "`",
            ),
            ConfigError::EmptyUserAgent => String::from_str(
                "crawler.user_agent cannot be empty (required by Reddit API)",
            ),
            ConfigError::ZeroConcurrency => String::from_str("crawler.max_concurrency must be greater than 0"),
            ConfigError::BadLogLevel(l) => String::from_str(
                "crawler.log_level must be one of: error, warn, info, debug, trace, got: ",
            ).concat(l.as_str()),
            ConfigError::NoSources => String::from_str("At least one source must be configured"),
            ConfigError::NoEnabledSources => String::from_str("At least one source must be enabled"),
            ConfigError::Source(i, p) => String::from_str("sources[").concat(count_text(*i).as_str()).concat(
                "]: ",
            ).concat(p.text()),
        }
    }
}

/// The body text of an error answer, empty when it was not read.
pub open spec fn body_text(body: Option<String>) -> Seq<char> {
    match body {
        Some(b) => b@,
        None => Seq::empty(),
    }
}

/// Description of a fetch error.
pub open spec fn fetch_error_text(e: FetchError) -> Seq<char> {
    match e {
        FetchError::EmptySubreddit => "subreddit cannot be empty"@,
        FetchError::EmptyUserAgent => "user_agent cannot be empty"@,
        FetchError::EmptyQuery => "query cannot be empty"@,
        FetchError::EmptyPaperId => "paper_id cannot be empty"@,
        FetchError::RateLimited { retries } => "Rate limited: 429 Too Many Requests after "@
            + signed_decimal(retries as int) + " retries"@,
        FetchError::Status(s) => "Provider returned error status "@ + signed_decimal(s as int),
        FetchError::ServerError { status, retries, body } => "Server error "@ + signed_decimal(
            status as int,
        ) + " after "@ + signed_decimal(retries as int) + " retries: "@ + body_text(body),
        FetchError::ClientError { status, body } => "Client error "@ + signed_decimal(status as int)
            + ": "@ + body_text(body),
        FetchError::UnexpectedStatus(s) => "Unexpected HTTP status: "@ + signed_decimal(s as int),
        FetchError::Transport(m) => "Request failed: "@ + m@,
        FetchError::Decode(m) => "Failed to parse response: "@ + m@,
    }
}

impl FetchError {
    /// Whether the error reports the body of the answer, which the caller
    /// then reads and attaches with `with_body`.
    pub fn wants_body(&self) -> (r: bool)
        ensures
            r == (self is ServerError || self is ClientError),
    {
        match self {
            FetchError::ServerError { .. } => true,
            FetchError::ClientError { .. } => true,
            _ => false,
        }
    }

    /// Attaches the body of the answer to a server or client error; other
    /// errors are returned as they are.
    pub fn with_body(self, text: String) -> (r: FetchError)
        ensures
            match self {
                FetchError::ServerError { status, retries, .. } => r == FetchError::ServerError {
                    status,
                    retries,
                    body: Some(text),
                },
                FetchError::ClientError { status, .. } => r == FetchError::ClientError {
                    status,
                    body: Some(text),
                },
                _ => r == self,
            },
    {
        match self {
            FetchError::ServerError { status, retries, .. } => FetchError::ServerError {
                status,
                retries,
                body: Some(text),
            },
            FetchError::ClientError { status, .. } => FetchError::ClientError { status, body: Some(text) },
            other => other,
        }
    }

    /// Human-readable description of the error.
    pub fn message(&self) -> (r: String)
        ensures
            r@ == fetch_error_text(*self),
    {
        match self {
            FetchError::EmptySubreddit => String::from_str("subreddit cannot be empty"),
            FetchError::EmptyUserAgent => String::from_str("user_agent cannot be empty"),
            FetchError::EmptyQuery => String::from_str("query cannot be empty"),
            FetchError::EmptyPaperId => String::from_str("paper_id cannot be empty"),
            FetchError::RateLimited { retries } => String::from_str(
                "Rate limited: 429 Too Many Requests after ",
            ).concat(int_text(*retries as i64).as_str()).concat(" retries"),
            FetchError::Status(s) => String::from_str("Provider returned error status ").concat(
                int_text(*s as i64).as_str(),
            ),
            FetchError::ServerError { status, retries, body } => {
                let head = String::from_str("Server error ").concat(int_text(*status as i64).as_str())
                    .concat(" after ").concat(int_text(*retries as i64).as_str()).concat(" retries: ");
                match body {
                    Some(b) => head.concat(b.as_str()),
                    None => head,
                }
            },
            FetchError::ClientError { status, body } => {
                let head = String::from_str("Client error ").concat(int_text(*status as i64).as_str())
                    .concat(": ");
                match body {
                    Some(b) => head.concat(b.as_str()),
                    None => head,
                }
            },
            FetchError::UnexpectedStatus(s) => String::from_str("Unexpected HTTP status: ").concat(
                int_text(*s as i64).as_str(),
            ),
            FetchError::Transport(m) => String::from_str("Request failed: ").concat(m.as_str()),
            FetchError::Decode(m) => String::from_str("Failed to parse response: ").concat(m.as_str()),
        }
    }
}

} // verus!
