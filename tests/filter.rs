use crawler::filter::{filter_by_keywords, matches_keywords, MatchMode};
use crawler::source::Content;

fn create_test_content(title: &str, body: &str) -> Content {
    Content {
        id: "test123".to_string(),
        title: title.to_string(),
        body: body.to_string(),
        url: None,
        author: "testuser".to_string(),
        created_utc: 1234567890,
        score: 100,
        num_comments: 10,
        source_type: "test".to_string(),
        source_id: "test".to_string(),
    }
}

fn lowercase_keywords(keywords: &[String]) -> Vec<String> {
    keywords.iter().map(|k| k.to_lowercase()).collect()
}

#[test]
fn test_match_any_mode() {
    let content = create_test_content("Learning Rust programming", "Async is cool");
    let keywords = vec!["rust".to_string(), "python".to_string()];
    let lowercase = lowercase_keywords(&keywords);

    assert!(matches_keywords(&content, &lowercase, &MatchMode::Any));
}

#[test]
fn test_match_all_mode() {
    let content = create_test_content("Learning Rust programming", "Async is cool");
    let keywords = vec!["rust".to_string(), "async".to_string()];
    let lowercase = lowercase_keywords(&keywords);

    assert!(matches_keywords(&content, &lowercase, &MatchMode::All));
}

#[test]
fn test_match_all_mode_fails() {
    let content = create_test_content("Learning Rust programming", "Functions are cool");
    let keywords = vec!["rust".to_string(), "async".to_string()];
    let lowercase = lowercase_keywords(&keywords);

    assert!(!matches_keywords(&content, &lowercase, &MatchMode::All));
}

#[test]
fn test_case_insensitive() {
    let content = create_test_content("RUST Programming", "async AWAIT");
    let keywords = vec!["rust".to_string(), "Async".to_string()];
    let lowercase = lowercase_keywords(&keywords);

    assert!(matches_keywords(&content, &lowercase, &MatchMode::All));
}

#[test]
fn test_filter_by_keywords() {
    let contents = vec![
        create_test_content("Rust async await", "body1"),
        create_test_content("Python tutorial", "body2"),
        create_test_content("Rust basics", "body3"),
    ];

    let keywords = vec!["rust".to_string()];
    let filtered = filter_by_keywords(contents, &keywords, MatchMode::Any);

    assert_eq!(filtered.len(), 2);
    assert!(filtered.iter().all(|c| c.title.contains("Rust")));
}

#[test]
fn filter_mode_names() {
    assert_eq!(MatchMode::from_str("all"), MatchMode::All);
    assert_eq!(MatchMode::from_str("ALL"), MatchMode::All);
    assert_eq!(MatchMode::from_str("any"), MatchMode::Any);
    assert_eq!(MatchMode::from_str("whatever"), MatchMode::Any);
}

#[test]
fn filter_keyword_must_sit_in_one_field() {
    // Title and body are searched separately: a keyword spanning both is not found.
    let content = create_test_content("learning rust", "async");
    let lowercase = vec!["rust async".to_string()];
    assert!(!matches_keywords(&content, &lowercase, &MatchMode::Any));
}

#[test]
fn filter_without_keywords() {
    let contents = vec![create_test_content("a", "b")];
    assert_eq!(filter_by_keywords(contents.clone(), &[], MatchMode::Any).len(), 0);
    assert_eq!(filter_by_keywords(contents, &[], MatchMode::All).len(), 1);
}

#[test]
fn filter_keeps_order_and_folds_keywords() {
    let contents = vec![
        create_test_content("one RUST", ""),
        create_test_content("two", "nothing"),
        create_test_content("three", "rust here"),
    ];
    let filtered = filter_by_keywords(contents, &["Rust".to_string()], MatchMode::Any);
    let titles: Vec<&str> = filtered.iter().map(|c| c.title.as_str()).collect();
    assert_eq!(titles, vec!["one RUST", "three"]);
}
