use crawler::config::{
    RedditConfig, SemanticScholarConfig, SemanticScholarMode, SourceConfig, SourceEntry,
};
use crawler::error::FetchError;
use crawler::orchestrator::{build_source, build_sources, collect_results, SourceAdapter};
use crawler::source::reddit::{RedditClient, RedditPost};
use crawler::source::semantic_scholar::{
    Author, Paper, RetryAction, RetryState, SearchPage, SearchPager, SemanticScholarClient,
    MAX_RETRIES,
};
use crawler::source::{Content, MatchMode, Source, SourceFilters};

fn item(id: &str, title: &str, body: &str, score: i32, num_comments: i32) -> Content {
    Content {
        id: id.to_string(),
        title: title.to_string(),
        body: body.to_string(),
        url: None,
        author: "user".to_string(),
        created_utc: 0,
        score,
        num_comments,
        source_type: "reddit".to_string(),
        source_id: "reddit:rust:hot".to_string(),
    }
}

fn reddit_config(subreddit: &str, limit: usize, sort_by: &str, time_filter: Option<&str>) -> RedditConfig {
    RedditConfig {
        subreddit: subreddit.to_string(),
        limit,
        sort_by: sort_by.to_string(),
        time_filter: time_filter.map(|t| t.to_string()),
        min_score: 0,
        min_comments: 0,
        user_agent: "test/1.0".to_string(),
        rate_limit_delay_ms: 1000,
    }
}

fn s2_config(query: &str, max_results: usize, min_citations: i32) -> SemanticScholarConfig {
    SemanticScholarConfig {
        mode: SemanticScholarMode::Search { query: query.to_string(), year: None },
        max_results,
        min_citations,
        api_key: None,
        rate_limit_delay_ms: 1000,
    }
}

fn paper(id: &str, title: Option<&str>, abstract_text: Option<&str>, citations: Option<i32>) -> Paper {
    Paper {
        paper_id: id.to_string(),
        title: title.map(|t| t.to_string()),
        abstract_text: abstract_text.map(|a| a.to_string()),
        year: Some(2020),
        citation_count: citations,
        url: None,
        authors: vec![],
    }
}

#[test]
fn test_keyword_filter_integration() {
    let filters = SourceFilters::new(vec!["rust".to_string(), "async".to_string()], MatchMode::Any);

    let content1 = Content {
        id: "1".to_string(),
        title: "Learning Rust".to_string(),
        body: "Great language".to_string(),
        url: None,
        author: "user1".to_string(),
        created_utc: 0,
        score: 100,
        num_comments: 10,
        source_type: "reddit".to_string(),
        source_id: "reddit:rust:hot".to_string(),
    };

    let content2 = Content {
        id: "2".to_string(),
        title: "Python tutorial".to_string(),
        body: "No match here".to_string(),
        url: None,
        author: "user2".to_string(),
        created_utc: 0,
        score: 100,
        num_comments: 10,
        source_type: "reddit".to_string(),
        source_id: "reddit:python:hot".to_string(),
    };

    assert!(filters.matches(&content1));
    assert!(!filters.matches(&content2));
}

#[test]
fn test_config_filters() {
    let mut config = reddit_config("rust", 100, "hot", None);
    config.min_score = 50;
    config.min_comments = 5;
    let reddit_client = RedditClient::new(config).unwrap();

    let contents = vec![
        item("1", "High score", "", 100, 10),
        item("2", "Low score", "", 10, 10),
        item("3", "Low comments", "", 100, 2),
    ];

    let filtered = reddit_client.apply_config_filters(contents);
    assert_eq!(filtered.len(), 1);
    assert_eq!(filtered[0].id, "1");
}

#[test]
fn test_url_building() {
    let reddit_hot = RedditClient::new(reddit_config("rust", 100, "hot", None)).unwrap();
    let url = reddit_hot.build_url(None);
    assert!(url.contains("/r/rust/hot.json"));
    assert!(url.contains("limit=100"));

    let reddit_top = RedditClient::new(reddit_config("programming", 50, "top", Some("week"))).unwrap();
    let url = reddit_top.build_url(None);
    assert!(url.contains("/r/programming/top.json"));
    assert!(url.contains("t=week"));

    let url_with_after = reddit_hot.build_url(Some("t3_abc123"));
    assert!(url_with_after.contains("after=t3_abc123"));
}

#[test]
fn reddit_urls_exactly() {
    let hot = RedditClient::new(reddit_config("rust", 10, "hot", None)).unwrap();
    assert_eq!(hot.build_url(None), "https://www.reddit.com/r/rust/hot.json?limit=100&raw_json=1");
    assert_eq!(
        hot.build_url(Some("t3_x")),
        "https://www.reddit.com/r/rust/hot.json?limit=100&raw_json=1&after=t3_x"
    );
    let top = RedditClient::new(reddit_config("rust", 10, "top", None)).unwrap();
    assert_eq!(top.build_url(None), "https://www.reddit.com/r/rust/top.json?t=day&limit=100&raw_json=1");
    let rising = RedditClient::new(reddit_config("rust", 10, "rising", None)).unwrap();
    assert_eq!(rising.build_url(None), "https://www.reddit.com/r/rust/rising.json?limit=100&raw_json=1");
    assert_eq!(hot.source_id(), "reddit:rust:hot");
    assert_eq!(hot.source_type(), "reddit");
}

#[test]
fn reddit_construction_errors() {
    assert!(matches!(RedditClient::new(reddit_config("", 1, "hot", None)), Err(FetchError::EmptySubreddit)));
    let mut c = reddit_config("rust", 1, "hot", None);
    c.user_agent = String::new();
    assert!(matches!(RedditClient::new(c), Err(FetchError::EmptyUserAgent)));
}

#[test]
fn reddit_status_handling() {
    assert!(RedditClient::check_status(200).is_ok());
    // A 429 is fatal at once: no retry is made.
    assert!(matches!(RedditClient::check_status(429), Err(FetchError::RateLimited { retries: 0 })));
    assert!(matches!(RedditClient::check_status(503), Err(FetchError::Status(503))));
    assert!(matches!(RedditClient::check_status(404), Err(FetchError::Status(404))));
}

#[test]
fn reddit_post_mapping() {
    let client = RedditClient::new(reddit_config("rust", 10, "new", None)).unwrap();
    let post = RedditPost {
        id: "abc123".to_string(),
        title: "Test Post".to_string(),
        selftext: "This is a test".to_string(),
        url: Some("https://example.com".to_string()),
        author: "testuser".to_string(),
        created_utc: 1234567890,
        score: 100,
        num_comments: 10,
    };
    let c = client.post_to_content(post);
    assert_eq!(c.id, "abc123");
    assert_eq!(c.body, "This is a test");
    assert_eq!(c.created_utc, 1234567890);
    assert_eq!(c.source_type, "reddit");
    assert_eq!(c.source_id, "reddit:rust:new");
}

#[test]
fn reddit_two_pages_truncated_to_limit() {
    // Limit 3, two pages of two items, no floors and no keywords: 3 items.
    let client = RedditClient::new(reddit_config("x", 3, "hot", None)).unwrap();
    let filters = SourceFilters::new(vec![], MatchMode::Any);
    let mut collected = Vec::new();
    let next = client.absorb_page(
        &mut collected,
        vec![item("1", "a", "", 1, 1), item("2", "b", "", 1, 1)],
        Some("t3_2".to_string()),
    );
    assert_eq!(next, Some("t3_2".to_string()));
    let next = client.absorb_page(
        &mut collected,
        vec![item("3", "c", "", 1, 1), item("4", "d", "", 1, 1)],
        None,
    );
    assert_eq!(next, None);
    let out = client.finish(collected, &filters);
    let ids: Vec<&str> = out.iter().map(|c| c.id.as_str()).collect();
    assert_eq!(ids, vec!["1", "2", "3"]);
}

#[test]
fn reddit_paging_stops_at_last_page() {
    // Fewer items than the limit: the page without a cursor ends paging.
    let client = RedditClient::new(reddit_config("x", 10, "hot", None)).unwrap();
    let mut collected = Vec::new();
    let mut requests = 0;
    let pages = vec![
        (vec![item("1", "a", "", 1, 1), item("2", "b", "", 1, 1)], Some("c1".to_string())),
        (vec![item("3", "c", "", 1, 1), item("4", "d", "", 1, 1)], Some("c2".to_string())),
        (vec![item("5", "e", "", 1, 1)], None),
    ];
    for (page, after) in pages {
        requests += 1;
        if client.absorb_page(&mut collected, page, after).is_none() {
            break;
        }
    }
    assert_eq!(collected.len(), 5);
    assert_eq!(requests, 3);
}

#[test]
fn reddit_floors_apply_per_page() {
    let mut config = reddit_config("x", 2, "hot", None);
    config.min_score = 10;
    config.min_comments = 3;
    let client = RedditClient::new(config).unwrap();
    let mut collected = Vec::new();
    let next = client.absorb_page(
        &mut collected,
        vec![item("1", "a", "", 5, 5), item("2", "b", "", 50, 1), item("3", "c", "", 10, 3)],
        Some("n".to_string()),
    );
    assert_eq!(next, Some("n".to_string()));
    assert_eq!(collected.len(), 1);
    let next = client.absorb_page(&mut collected, vec![item("4", "d", "", 99, 99)], Some("m".to_string()));
    assert_eq!(next, None);
    assert!(collected.iter().all(|c| c.score >= 10 && c.num_comments >= 3));
    assert_eq!(collected.len(), 2);
}

#[test]
fn source_filters_all_mode_and_empty_keywords() {
    let all = SourceFilters::new(vec!["RUST".to_string(), "Async".to_string()], MatchMode::All);
    assert!(all.matches(&item("1", "rust tips", "about ASYNC", 0, 0)));
    assert!(!all.matches(&item("2", "rust tips", "sync only", 0, 0)));
    // Title and body are joined by a space before matching.
    let joined = SourceFilters::new(vec!["tips about".to_string()], MatchMode::Any);
    assert!(joined.matches(&item("3", "rust tips", "about async", 0, 0)));
    let none = SourceFilters::new(vec![], MatchMode::All);
    assert!(none.matches(&item("4", "anything", "", 0, 0)));
}

#[test]
fn source_filters_retain_is_idempotent_and_shrinks() {
    let filters = SourceFilters::new(vec!["rust".to_string()], MatchMode::Any);
    let items = vec![
        item("1", "Rust", "", 0, 0),
        item("2", "Go", "", 0, 0),
        item("3", "go", "and rust", 0, 0),
    ];
    let once = filters.retain_matching(items.clone());
    assert!(once.len() <= items.len());
    let twice = filters.retain_matching(once.clone());
    let ids = |v: &Vec<Content>| v.iter().map(|c| c.id.clone()).collect::<Vec<_>>();
    assert_eq!(ids(&once), vec!["1", "3"]);
    assert_eq!(ids(&once), ids(&twice));
    let again = filters.retain_matching(items);
    assert_eq!(ids(&once), ids(&again));
}

#[test]
fn match_mode_parsing() {
    assert_eq!(MatchMode::from_str("any").unwrap(), MatchMode::Any);
    assert_eq!(MatchMode::from_str("ALL").unwrap(), MatchMode::All);
    let err = MatchMode::from_str("some").unwrap_err();
    assert_eq!(err.message(), "Invalid match mode: some. Must be 'any' or 'all'");
}

#[test]
fn test_paper_to_content_mapping() {
    let s2_client = SemanticScholarClient::new(s2_config("test", 100, 0)).unwrap();

    let paper = Paper {
        paper_id: "abc123".to_string(),
        title: Some("Test Paper".to_string()),
        abstract_text: Some("This is a test abstract".to_string()),
        year: Some(2023),
        citation_count: Some(42),
        url: Some("https://example.com/paper".to_string()),
        authors: vec![Author {
            author_id: Some("author1".to_string()),
            name: Some("Jane Doe".to_string()),
        }],
    };

    let content = s2_client.paper_to_content(paper);

    assert_eq!(content.id, "abc123");
    assert_eq!(content.title, "Test Paper");
    assert_eq!(content.body, "This is a test abstract");
    assert_eq!(content.url, Some("https://example.com/paper".to_string()));
    assert_eq!(content.author, "Jane Doe");
    assert_eq!(content.score, 42);
    assert!(content.created_utc > 1600000000 && content.created_utc < 1700000000);
    assert_eq!(content.source_type, "semantic_scholar");
    assert_eq!(content.source_id, "semantic_scholar:search:test");
}

#[test]
fn test_min_citations_filtering() {
    let s2_client = SemanticScholarClient::new(s2_config("test", 100, 10)).unwrap();
    let papers = vec![
        paper("1", Some("High Citation"), Some("Abstract"), Some(50)),
        paper("2", Some("Low Citation"), Some("Abstract"), Some(5)),
    ];
    let filtered = s2_client.convert_and_filter(papers);
    assert_eq!(filtered.len(), 1);
    assert_eq!(filtered[0].id, "1");
}

#[test]
fn test_skip_papers_without_title_and_abstract() {
    let s2_client = SemanticScholarClient::new(s2_config("test", 100, 0)).unwrap();
    let papers = vec![
        paper("1", Some("Valid Paper"), None, Some(10)),
        paper("2", None, None, Some(20)),
    ];
    let filtered = s2_client.convert_and_filter(papers);
    assert_eq!(filtered.len(), 1);
    assert_eq!(filtered[0].id, "1");
}

#[test]
fn paper_defaults_for_missing_fields() {
    let client = SemanticScholarClient::new(s2_config("q", 10, 0)).unwrap();
    let mut p = paper("p", None, Some("only abstract"), None);
    p.year = None;
    p.authors = vec![Author { author_id: None, name: None }];
    let c = client.paper_to_content(p);
    assert_eq!(c.title, "Untitled");
    assert_eq!(c.author, "Unknown");
    assert_eq!(c.score, 0);
    assert_eq!(c.created_utc, 0);
    assert_eq!(c.num_comments, 0);
    let mut p = paper("p", Some("t"), None, Some(3));
    p.year = Some(1971);
    let c = client.paper_to_content(p);
    assert_eq!(c.body, "");
    assert_eq!(c.created_utc, 31536000);
    let mut p = paper("p", Some("t"), None, Some(3));
    p.year = Some(2023);
    assert_eq!(client.paper_to_content(p).created_utc, 53 * 31536000);
}

#[test]
fn search_scenario_citation_floor() {
    // Query "ml", max 5, min citations 10; citations 20, 5, 15 in one page.
    let client = SemanticScholarClient::new(s2_config("ml", 5, 10)).unwrap();
    let mut pager = SearchPager::new();
    assert_eq!(pager.next_request(5), Some((0, 5)));
    let page = SearchPage {
        total: Some(3),
        offset: Some(0),
        next: None,
        data: vec![
            paper("a", Some("A"), None, Some(20)),
            paper("b", Some("B"), None, Some(5)),
            paper("c", Some("C"), None, Some(15)),
        ],
    };
    assert!(!pager.absorb(page, 5));
    assert_eq!(pager.next_request(5), None);
    let out = pager.finish(&client);
    let ids: Vec<&str> = out.iter().map(|c| c.id.as_str()).collect();
    assert_eq!(ids, vec!["a", "c"]);
}

#[test]
fn search_paging_follows_next_and_stops() {
    let mut pager = SearchPager::new();
    assert_eq!(pager.next_request(250), Some((0, 100)));
    let page = |n: usize, next: Option<i64>| SearchPage {
        total: None,
        offset: None,
        next,
        data: (0..n).map(|i| paper(&i.to_string(), Some("t"), None, Some(1))).collect(),
    };
    assert!(pager.absorb(page(100, Some(100)), 250));
    assert_eq!(pager.next_request(250), Some((100, 100)));
    assert!(pager.absorb(page(100, Some(200)), 250));
    assert_eq!(pager.next_request(250), Some((200, 50)));
    assert!(!pager.absorb(page(0, Some(300)), 250));
    assert_eq!(pager.next_request(250), None);
    assert_eq!(pager.papers.len(), 200);

    let mut capped = SearchPager::new();
    assert!(!capped.absorb(page(1, Some(10000)), 50));
    assert_eq!(capped.next_request(50), None);
}

#[test]
fn search_and_recommendation_urls() {
    let client = SemanticScholarClient::new(s2_config("machine learning", 10, 0)).unwrap();
    assert_eq!(
        client.search_url("machine learning", 0, 10, Some("2020-2024")),
        "https://api.semanticscholar.org/graph/v1/paper/search?query=machine%20learning&offset=0&limit=10&fields=paperId,title,abstract,authors,year,citationCount,url&year=2020-2024"
    );
    assert_eq!(
        client.recommendations_url("10.1/x"),
        "https://api.semanticscholar.org/recommendations/v1/papers/forpaper/10.1%2Fx?fields=paperId,title,abstract,authors,year,citationCount,url"
    );
    assert_eq!(client.source_id(), "semantic_scholar:search:machine%20learning");
    let recs = SemanticScholarClient::new(SemanticScholarConfig {
        mode: SemanticScholarMode::Recommendations { paper_id: "a b".to_string() },
        max_results: 2,
        min_citations: 0,
        api_key: None,
        rate_limit_delay_ms: 0,
    })
    .unwrap();
    assert_eq!(recs.source_id(), "semantic_scholar:recs:a%20b");
    assert_eq!(recs.source_type(), "semantic_scholar");
    let out = recs.recommended(vec![
        paper("1", Some("t"), None, None),
        paper("2", Some("t"), None, None),
        paper("3", Some("t"), None, None),
    ]);
    assert_eq!(out.len(), 2);
}

#[test]
fn retry_on_rate_limit_until_ceiling() {
    let mut state = RetryState::new();
    let mut waits = Vec::new();
    let failure = loop {
        match state.on_status(429, None) {
            RetryAction::Wait(ms) => waits.push(ms),
            RetryAction::Fail(e) => break e,
            RetryAction::Proceed => panic!("429 must not proceed"),
        }
    };
    assert_eq!(waits, vec![1000, 2000, 4000]);
    assert_eq!(waits.len() as u32, MAX_RETRIES);
    assert!(matches!(failure, FetchError::RateLimited { retries: 3 }));
}

#[test]
fn retry_after_header_and_other_statuses() {
    let mut state = RetryState::new();
    assert!(matches!(state.on_status(429, Some("7")), RetryAction::Wait(7000)));
    assert!(matches!(state.on_status(429, Some("soon")), RetryAction::Wait(2000)));
    assert_eq!(state.attempt, 2);
    let mut state = RetryState::new();
    assert!(matches!(state.on_status(200, None), RetryAction::Proceed));
    assert!(matches!(state.on_status(404, None), RetryAction::Fail(FetchError::ClientError { status: 404, body: None })));
    assert!(matches!(state.on_status(301, None), RetryAction::Fail(FetchError::UnexpectedStatus(301))));
    let mut waits = 0;
    let failure = loop {
        match state.on_status(503, None) {
            RetryAction::Wait(_) => waits += 1,
            RetryAction::Fail(e) => break e,
            RetryAction::Proceed => panic!("503 must not proceed"),
        }
    };
    assert_eq!(waits, 3);
    assert!(failure.wants_body());
    let failure = failure.with_body("down".to_string());
    assert_eq!(failure.message(), "Server error 503 after 3 retries: down");
}

#[test]
fn fetch_error_messages() {
    assert_eq!(
        FetchError::RateLimited { retries: 0 }.message(),
        "Rate limited: 429 Too Many Requests after 0 retries"
    );
    assert_eq!(FetchError::Status(502).message(), "Provider returned error status 502");
    assert_eq!(
        FetchError::ClientError { status: 401, body: None }.with_body("no key".to_string()).message(),
        "Client error 401: no key"
    );
    assert!(!FetchError::UnexpectedStatus(1).wants_body());
    assert_eq!(FetchError::UnexpectedStatus(302).message(), "Unexpected HTTP status: 302");
}

#[test]
fn orchestrator_builds_enabled_sources_in_order() {
    let entries = vec![
        SourceEntry { enabled: true, config: SourceConfig::Reddit(reddit_config("a", 1, "hot", None)) },
        SourceEntry { enabled: false, config: SourceConfig::Reddit(reddit_config("", 1, "hot", None)) },
        SourceEntry { enabled: true, config: SourceConfig::SemanticScholar(s2_config("q", 1, 0)) },
    ];
    let built = build_sources(entries).unwrap();
    assert_eq!(built.len(), 2);
    assert!(matches!(built[0], SourceAdapter::Reddit(_)));
    assert_eq!(built[0].source_id(), "reddit:a:hot");
    assert_eq!(built[1].source_id(), "semantic_scholar:search:q");

    let bad = vec![
        SourceEntry { enabled: true, config: SourceConfig::SemanticScholar(s2_config("q", 1, 0)) },
        SourceEntry { enabled: true, config: SourceConfig::Reddit(reddit_config("", 1, "hot", None)) },
    ];
    assert!(matches!(build_sources(bad), Err(FetchError::EmptySubreddit)));
    assert!(build_source(SourceConfig::Reddit(reddit_config("b", 1, "hot", None))).is_ok());
}

#[test]
fn orchestrator_collects_in_declaration_order() {
    let ok = collect_results(vec![
        Ok(vec![item("1", "", "", 0, 0), item("2", "", "", 0, 0)]),
        Ok(vec![]),
        Ok(vec![item("3", "", "", 0, 0)]),
    ])
    .unwrap();
    let ids: Vec<&str> = ok.iter().map(|c| c.id.as_str()).collect();
    assert_eq!(ids, vec!["1", "2", "3"]);
    let failed = collect_results(vec![
        Ok(vec![item("1", "", "", 0, 0)]),
        Err(FetchError::Status(500)),
        Err(FetchError::RateLimited { retries: 0 }),
    ]);
    assert!(matches!(failed, Err(FetchError::Status(500))));
}

#[test]
fn semantic_scholar_construction_refuses_empty_identifiers() {
    assert!(matches!(SemanticScholarClient::new(s2_config("", 10, 0)), Err(FetchError::EmptyQuery)));
    let recs = SemanticScholarConfig {
        mode: SemanticScholarMode::Recommendations { paper_id: String::new() },
        max_results: 2,
        min_citations: 0,
        api_key: None,
        rate_limit_delay_ms: 0,
    };
    assert!(matches!(SemanticScholarClient::new(recs), Err(FetchError::EmptyPaperId)));
    let entries = vec![SourceEntry {
        enabled: true,
        config: SourceConfig::SemanticScholar(s2_config("", 1, 0)),
    }];
    assert!(matches!(build_sources(entries), Err(FetchError::EmptyQuery)));
    assert_eq!(FetchError::EmptyQuery.message(), "query cannot be empty");
}
