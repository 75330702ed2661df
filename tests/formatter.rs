use xplorer::article::Article;
use xplorer::format::{
    format_articles_response, MAX_ARTICLES_DISPLAYED, MAX_SUMMARY_LENGTH, MESSAGE_LIMIT,
};

const TRUNCATION_SUFFIX: &str = "...";

fn create_test_article(id: usize) -> Article {
    Article {
        title: format!("Test Article {}", id),
        authors: vec!["Author A".to_string(), "Author B".to_string()],
        url: format!("http://example.com/{}", id),
        published_date: "2024-01-01".to_string(),
        summary: "This is a test summary.".to_string(),
        source: "Test".to_string(),
    }
}

#[test]
fn test_format_articles_response_max_articles() {
    let mut articles = Vec::new();
    for i in 0..MAX_ARTICLES_DISPLAYED + 2 {
        articles.push(create_test_article(i));
    }

    let response = format_articles_response(&articles, "Test");

    let expected_count_str = format!("Found {} article(s)", articles.len());
    assert!(response.contains(&expected_count_str));

    let expected_more_str =
        format!("_...and {} more articles_", articles.len() - MAX_ARTICLES_DISPLAYED);
    assert!(response.contains(&expected_more_str));
}

#[test]
fn test_format_articles_response_truncation() {
    let mut articles = Vec::new();
    for i in 0..MAX_ARTICLES_DISPLAYED {
        let mut article = create_test_article(i);
        article.title = "A".repeat(300);
        article.summary = "S".repeat(MAX_SUMMARY_LENGTH + 50);
        articles.push(article);
    }

    let response = format_articles_response(&articles, "Test");

    assert!(response.chars().count() <= MESSAGE_LIMIT);
    assert!(response.ends_with(TRUNCATION_SUFFIX));
}

#[test]
fn test_format_articles_response_summary_truncation() {
    let mut article = create_test_article(1);
    let long_summary = "A".repeat(MAX_SUMMARY_LENGTH + 10);
    article.summary = long_summary.clone();

    let articles = vec![article];
    let response = format_articles_response(&articles, "Test");

    let expected_summary = format!("{}{}", &long_summary[..MAX_SUMMARY_LENGTH], TRUNCATION_SUFFIX);
    assert!(response.contains(&expected_summary));
}

#[test]
fn empty_list_gives_the_fixed_sentence() {
    let articles: Vec<Article> = Vec::new();
    assert_eq!(format_articles_response(&articles, "Test"), "No articles found from Test.");
}

#[test]
fn seven_articles_show_five_blocks_and_the_omitted_count() {
    let articles: Vec<Article> = (0..7).map(create_test_article).collect();
    let response = format_articles_response(&articles, "Test");
    assert!(response.contains("Found 7 article(s) from Test:"));
    assert!(response.ends_with("_...and 2 more articles_\n"));
    assert_eq!(response.matches("📝 Summary: ").count(), 5);
    assert!(response.contains("**5. Test Article 4**"));
    assert!(!response.contains("**6. "));
}

#[test]
fn one_article_renders_exactly() {
    let articles = vec![create_test_article(3)];
    let response = format_articles_response(&articles, "Arxiv");
    assert_eq!(
        response,
        "📰 **Found 1 article(s) from Arxiv:**\n\n\
         **1. Test Article 3**\n\
         👤 Authors: Author A, Author B\n\
         📅 Published: 2024-01-01\n\
         🔗 URL: http://example.com/3\n\
         📝 Summary: This is a test summary.\n\n"
    );
}

#[test]
fn no_authors_render_as_an_empty_list() {
    let mut article = create_test_article(0);
    article.authors = Vec::new();
    let response = format_articles_response(&vec![article], "Test");
    assert!(response.contains("👤 Authors: \n"));
}

#[test]
fn five_articles_have_no_omitted_line() {
    let articles: Vec<Article> = (0..5).map(create_test_article).collect();
    let response = format_articles_response(&articles, "Test");
    assert!(!response.contains("more articles_"));
    assert_eq!(response.matches("📝 Summary: ").count(), 5);
}

#[test]
fn twelve_articles_report_seven_omitted() {
    let articles: Vec<Article> = (0..12).map(create_test_article).collect();
    let response = format_articles_response(&articles, "Test");
    assert!(response.contains("Found 12 article(s) from Test:"));
    assert!(response.contains("_...and 7 more articles_\n"));
}

#[test]
fn long_multibyte_summary_is_cut_by_characters() {
    let mut article = create_test_article(0);
    article.summary = "é".repeat(250);
    let response = format_articles_response(&vec![article], "Test");
    let expected = format!("📝 Summary: {}...\n\n", "é".repeat(200));
    assert!(response.ends_with(&expected));
}

#[test]
fn summary_of_exactly_the_limit_is_kept() {
    let mut article = create_test_article(0);
    article.summary = "ü".repeat(200);
    let response = format_articles_response(&vec![article], "Test");
    let expected = format!("📝 Summary: {}\n\n", "ü".repeat(200));
    assert!(response.ends_with(&expected));
}

#[test]
fn huge_multibyte_fields_stay_within_the_limit() {
    let mut articles = Vec::new();
    for i in 0..9 {
        let mut article = create_test_article(i);
        article.title = "日本".repeat(700);
        article.authors = vec!["名前".repeat(300); 3];
        articles.push(article);
    }
    let response = format_articles_response(&articles, "Test");
    assert_eq!(response.chars().count(), MESSAGE_LIMIT);
    assert!(response.ends_with("..."));
    assert!(response.starts_with("📰 **Found 9 article(s) from Test:**"));
}
