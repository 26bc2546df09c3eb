use crawler::config::{Config, SemanticScholarMode, SourceConfig};
use crawler::error::{ConfigError, SourceProblem};

#[test]
fn test_valid_config() {
    let toml = r#"
        [crawler]
        output_format = "json"
        output_destination = "stdout"
        log_level = "info"
        max_concurrency = 5
        user_agent = "test-crawler/1.0"

        [[sources]]
        type = "reddit"
        enabled = true
        subreddit = "rust"
        limit = 100
        sort_by = "hot"
        min_score = 0
        min_comments = 0
        user_agent = "test-crawler/1.0"
        rate_limit_delay_ms = 1000
    "#;

    let config = Config::from_str(toml).unwrap();
    assert_eq!(config.crawler.user_agent, "test-crawler/1.0");
    assert_eq!(config.sources.len(), 1);
    assert!(config.sources[0].enabled);
}

#[test]
fn test_multiple_sources() {
    let toml = r#"
        [crawler]
        user_agent = "test-crawler/1.0"

        [[sources]]
        type = "reddit"
        enabled = true
        subreddit = "rust"
        user_agent = "test-crawler/1.0"

        [[sources]]
        type = "reddit"
        enabled = false
        subreddit = "programming"
        user_agent = "test-crawler/1.0"
    "#;

    let config = Config::from_str(toml).unwrap();
    assert_eq!(config.sources.len(), 2);
    assert!(config.sources[0].enabled);
    assert!(!config.sources[1].enabled);
}

#[test]
fn test_top_requires_time_filter() {
    let toml = r#"
        [crawler]
        user_agent = "test-crawler/1.0"

        [[sources]]
        type = "reddit"
        subreddit = "rust"
        sort_by = "top"
        user_agent = "test-crawler/1.0"
    "#;

    let result = Config::from_str(toml);
    assert!(result.is_err());
    assert!(result
        .unwrap_err()
        .message()
        .contains("time_filter is required"));
}

#[test]
fn test_top_with_time_filter() {
    let toml = r#"
        [crawler]
        user_agent = "test-crawler/1.0"

        [[sources]]
        type = "reddit"
        subreddit = "rust"
        sort_by = "top"
        time_filter = "day"
        user_agent = "test-crawler/1.0"
    "#;

    let config = Config::from_str(toml).unwrap();
    if let SourceConfig::Reddit(ref reddit) = config.sources[0].config {
        assert_eq!(reddit.sort_by, "top");
        assert_eq!(reddit.time_filter, Some("day".to_string()));
    }
}

#[test]
fn test_invalid_sort_by() {
    let toml = r#"
        [crawler]
        user_agent = "test-crawler/1.0"

        [[sources]]
        type = "reddit"
        subreddit = "rust"
        sort_by = "invalid"
        user_agent = "test-crawler/1.0"
    "#;

    let result = Config::from_str(toml);
    assert!(result.is_err());
}

#[test]
fn test_empty_user_agent() {
    let toml = r#"
        [crawler]
        user_agent = ""

        [[sources]]
        type = "reddit"
        subreddit = "rust"
        user_agent = "test-crawler/1.0"
    "#;

    let result = Config::from_str(toml);
    assert!(result.is_err());
    assert!(result
        .unwrap_err()
        .message()
        .contains("user_agent cannot be empty"));
}

#[test]
fn test_semantic_scholar_search_config() {
    let toml = r#"
        [crawler]
        user_agent = "test-crawler/1.0"

        [[sources]]
        type = "semanticscholar"
        enabled = true
        mode = "search"
        query = "machine learning"
        year = "2020-2024"
        max_results = 50
        min_citations = 10
        rate_limit_delay_ms = 1000
    "#;

    let config = Config::from_str(toml).unwrap();
    assert_eq!(config.sources.len(), 1);

    match &config.sources[0].config {
        SourceConfig::SemanticScholar(s2) => {
            assert_eq!(s2.max_results, 50);
            assert_eq!(s2.min_citations, 10);
            match &s2.mode {
                SemanticScholarMode::Search { query, year } => {
                    assert_eq!(query, "machine learning");
                    assert_eq!(year.as_deref(), Some("2020-2024"));
                }
                _ => panic!("Expected Search mode"),
            }
        }
        _ => panic!("Expected SemanticScholar config"),
    }
}

#[test]
fn test_semantic_scholar_recommendations_config() {
    let toml = r#"
        [crawler]
        user_agent = "test-crawler/1.0"

        [[sources]]
        type = "semanticscholar"
        enabled = true
        mode = "recommendations"
        paper_id = "abc123"
        max_results = 20
        min_citations = 5
    "#;

    let config = Config::from_str(toml).unwrap();
    match &config.sources[0].config {
        SourceConfig::SemanticScholar(s2) => match &s2.mode {
            SemanticScholarMode::Recommendations { paper_id } => {
                assert_eq!(paper_id, "abc123");
            }
            _ => panic!("Expected Recommendations mode"),
        },
        _ => panic!("Expected SemanticScholar config"),
    }
}

#[test]
fn test_no_enabled_sources() {
    let toml = r#"
        [crawler]
        user_agent = "test-crawler/1.0"

        [[sources]]
        type = "reddit"
        enabled = false
        subreddit = "rust"
        user_agent = "test-crawler/1.0"
    "#;

    let result = Config::from_str(toml);
    assert!(result.is_err());
    assert!(result
        .unwrap_err()
        .message()
        .contains("At least one source must be enabled"));
}

fn reddit_doc(source_lines: &str) -> String {
    format!(
        "[crawler]\nuser_agent = \"t/1\"\n\n[[sources]]\ntype = \"reddit\"\n{}\n",
        source_lines
    )
}

fn s2_doc(source_lines: &str) -> String {
    format!(
        "[crawler]\nuser_agent = \"t/1\"\n\n[[sources]]\ntype = \"semanticscholar\"\n{}\n",
        source_lines
    )
}

fn problem_of(doc: &str) -> (usize, SourceProblem) {
    match Config::from_str(doc) {
        Err(ConfigError::Source(i, p)) => (i, p),
        other => panic!("expected a source problem, got {:?}", other.map(|_| ())),
    }
}

#[test]
fn defaults_fill_missing_keys() {
    let config = Config::from_str(&reddit_doc("subreddit = \"rust\"")).unwrap();
    assert_eq!(config.crawler.output_format, "json");
    assert_eq!(config.crawler.output_destination, "stdout");
    assert_eq!(config.crawler.log_level, "info");
    assert_eq!(config.crawler.max_concurrency, 5);
    assert!(config.sources[0].enabled);
    match &config.sources[0].config {
        SourceConfig::Reddit(r) => {
            assert_eq!(r.limit, 100);
            assert_eq!(r.sort_by, "hot");
            assert_eq!(r.time_filter, None);
            assert_eq!(r.min_score, 0);
            assert_eq!(r.min_comments, 0);
            assert_eq!(r.user_agent, "crawler/0.1.0");
            assert_eq!(r.rate_limit_delay_ms, 1000);
        }
        _ => panic!("Expected Reddit config"),
    }
    let config = Config::from_str(&s2_doc("mode = \"search\"\nquery = \"q\"")).unwrap();
    match &config.sources[0].config {
        SourceConfig::SemanticScholar(s) => {
            assert_eq!(s.max_results, 100);
            assert_eq!(s.min_citations, 0);
            assert_eq!(s.api_key, None);
            assert_eq!(s.rate_limit_delay_ms, 1000);
        }
        _ => panic!("Expected SemanticScholar config"),
    }
}

#[test]
fn crawler_level_errors() {
    let zero = "[crawler]\nuser_agent = \"a\"\nmax_concurrency = 0\n[[sources]]\ntype = \"reddit\"\nsubreddit = \"x\"\n";
    assert!(matches!(Config::from_str(zero), Err(ConfigError::ZeroConcurrency)));
    let level = "[crawler]\nuser_agent = \"a\"\nlog_level = \"loud\"\n[[sources]]\ntype = \"reddit\"\nsubreddit = \"x\"\n";
    match Config::from_str(level) {
        Err(e) => {
            assert!(matches!(e, ConfigError::BadLogLevel(ref l) if l == "loud"));
            assert!(e.message().ends_with("got: loud"));
        }
        Ok(_) => panic!("expected an error"),
    }
    let none = "sources = []\n[crawler]\nuser_agent = \"a\"\n";
    assert!(matches!(Config::from_str(none), Err(ConfigError::NoSources)));
    let missing = "[[sources]]\ntype = \"reddit\"\nsubreddit = \"x\"\n";
    assert!(matches!(Config::from_str(missing), Err(ConfigError::MissingField(ref k)) if k == "crawler"));
}

#[test]
fn document_shape_errors() {
    assert!(matches!(Config::from_str("this is = = not toml"), Err(ConfigError::Syntax(_))));
    assert!(matches!(
        Config::from_str(&reddit_doc("subreddit = 7")),
        Err(ConfigError::WrongType(ref k)) if k == "subreddit"
    ));
    assert!(matches!(
        Config::from_str(&reddit_doc("subreddit = \"x\"\nlimit = -1")),
        Err(ConfigError::WrongType(ref k)) if k == "limit"
    ));
    assert!(matches!(
        Config::from_str(&reddit_doc("limit = 3")),
        Err(ConfigError::MissingField(ref k)) if k == "subreddit"
    ));
    let unknown = "[crawler]\nuser_agent = \"a\"\n[[sources]]\ntype = \"forum\"\n";
    assert!(matches!(Config::from_str(unknown), Err(ConfigError::UnknownVariant(ref v)) if v == "forum"));
    assert!(matches!(
        Config::from_str(&s2_doc("mode = \"browse\"")),
        Err(ConfigError::UnknownVariant(ref v)) if v == "browse"
    ));
}

#[test]
fn reddit_source_problems() {
    assert_eq!(problem_of(&reddit_doc("subreddit = \"\"")), (0, SourceProblem::EmptySubreddit));
    assert_eq!(problem_of(&reddit_doc("subreddit = \"/r/rust\"")), (0, SourceProblem::SubredditPrefix));
    assert_eq!(problem_of(&reddit_doc("subreddit = \"r/rust\"")), (0, SourceProblem::SubredditPrefix));
    assert_eq!(problem_of(&reddit_doc("subreddit = \"x\"\nlimit = 0")), (0, SourceProblem::ZeroLimit));
    assert_eq!(problem_of(&reddit_doc("subreddit = \"x\"\nsort_by = \"best\"")), (0, SourceProblem::BadSortBy));
    assert_eq!(
        problem_of(&reddit_doc("subreddit = \"x\"\ntime_filter = \"decade\"")),
        (0, SourceProblem::BadTimeFilter)
    );
    assert_eq!(
        problem_of(&reddit_doc("subreddit = \"x\"\nuser_agent = \"\"")),
        (0, SourceProblem::EmptyUserAgent)
    );
}

#[test]
fn semantic_scholar_source_problems() {
    assert_eq!(
        problem_of(&s2_doc("mode = \"search\"\nquery = \"q\"\nmax_results = 0")),
        (0, SourceProblem::ZeroMaxResults)
    );
    assert_eq!(
        problem_of(&s2_doc("mode = \"search\"\nquery = \"q\"\nmin_citations = -1")),
        (0, SourceProblem::NegativeMinCitations)
    );
    assert_eq!(problem_of(&s2_doc("mode = \"search\"\nquery = \"\"")), (0, SourceProblem::EmptyQuery));
    assert_eq!(
        problem_of(&s2_doc("mode = \"recommendations\"\npaper_id = \"\"")),
        (0, SourceProblem::EmptyPaperId)
    );
}

#[test]
fn year_formats() {
    let year = |y: &str| s2_doc(&format!("mode = \"search\"\nquery = \"q\"\nyear = \"{}\"", y));
    for ok in ["2020", "2020-2024", "2020-", "-2024", "+2020"] {
        assert!(Config::from_str(&year(ok)).is_ok(), "{} should be accepted", ok);
    }
    assert_eq!(problem_of(&year("")), (0, SourceProblem::EmptyYear));
    assert_eq!(problem_of(&year("2020-2021-2022")), (0, SourceProblem::BadYearRange));
    assert_eq!(problem_of(&year("twenty-2024")), (0, SourceProblem::BadStartYear));
    assert_eq!(problem_of(&year("2020-soon")), (0, SourceProblem::BadEndYear));
    assert_eq!(problem_of(&year("20x0")), (0, SourceProblem::BadYear));
    assert_eq!(problem_of(&year("99999999999")), (0, SourceProblem::BadYear));
}

#[test]
fn first_bad_source_is_reported_with_its_index() {
    let doc = "[crawler]\nuser_agent = \"a\"\n\
        [[sources]]\ntype = \"reddit\"\nsubreddit = \"ok\"\n\
        [[sources]]\ntype = \"reddit\"\nsubreddit = \"x\"\nlimit = 0\n\
        [[sources]]\ntype = \"reddit\"\nsubreddit = \"\"\n";
    let err = Config::from_str(doc).unwrap_err();
    assert!(matches!(err, ConfigError::Source(1, SourceProblem::ZeroLimit)));
    assert_eq!(err.message(), "sources[1]: limit must be greater than 0");
}
