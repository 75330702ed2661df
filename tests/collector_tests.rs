use xplorer::article::Article;
use xplorer::collectors::{
    encode, ArxivCollector, CollectionError, Collector, ExampleArticleCollector, FeedEntry,
};

#[test]
fn test_arxiv_collector_creation() {
    let collector = ArxivCollector::new();
    assert_eq!(collector.name(), "Arxiv");
    assert!(!collector.description().is_empty());
}

#[test]
fn test_article_serialization() {
    let article = Article {
        title: "Test Paper".to_string(),
        authors: vec!["Author 1".to_string(), "Author 2".to_string()],
        url: "https://arxiv.org/abs/1234.5678".to_string(),
        published_date: "2024-01-01".to_string(),
        summary: "This is a test summary".to_string(),
        source: "Arxiv".to_string(),
    };

    let json = article.to_wire();
    assert!(json.contains("Test Paper"));

    let deserialized: Article = Article::from_wire(&json).unwrap();
    assert_eq!(deserialized.title, article.title);
}

#[test]
fn test_url_encoding() {
    let collector = ArxivCollector::new();
    assert_eq!(collector.name(), "Arxiv");
}

#[test]
fn test_example_collector_creation() {
    let collector = ExampleArticleCollector::new();
    assert_eq!(collector.name(), "Example Articles");
    assert!(!collector.description().is_empty());

    let result = collector.collect("test query", 10);
    assert!(result.is_ok());
    let articles = result.unwrap();
    assert!(articles.is_empty());
}

#[test]
fn encode_keeps_unreserved_and_escapes_the_rest() {
    assert_eq!(encode("AZaz09-_.~"), "AZaz09-_.~");
    assert_eq!(encode("cat:cs.AI"), "cat%3Acs.AI");
    assert_eq!(encode("a b/c+d"), "a%20b%2Fc%2Bd");
    assert_eq!(encode("é"), "%C3%A9");
    assert_eq!(encode(""), "");
}

#[test]
fn request_url_carries_query_and_count() {
    let collector = ArxivCollector::new();
    assert_eq!(
        collector.request_url("all:deep learning", 20),
        "http://export.arxiv.org/api/query?search_query=all%3Adeep%20learning&start=0&max_results=20"
    );
}

#[test]
fn feed_entries_become_normalized_articles() {
    let collector = ArxivCollector::new();
    let entries = vec![
        FeedEntry {
            title: "  A Title\nOver Lines \n".to_string(),
            authors: vec!["Ada".to_string(), "Bob".to_string()],
            id: "http://arxiv.org/abs/1".to_string(),
            published: "2024-02-03T00:00:00Z".to_string(),
            summary: "\n  First line\nsecond line\n ".to_string(),
        },
        FeedEntry {
            title: "Second".to_string(),
            authors: Vec::new(),
            id: "http://arxiv.org/abs/2".to_string(),
            published: "2024-02-04".to_string(),
            summary: String::new(),
        },
    ];
    let articles = collector.articles_from_entries(entries);
    assert_eq!(articles.len(), 2);
    assert_eq!(articles[0].title, "A Title Over Lines");
    assert_eq!(articles[0].authors, vec!["Ada".to_string(), "Bob".to_string()]);
    assert_eq!(articles[0].url, "http://arxiv.org/abs/1");
    assert_eq!(articles[0].published_date, "2024-02-03T00:00:00Z");
    assert_eq!(articles[0].summary, "First line second line");
    assert_eq!(articles[0].source, "Arxiv");
    assert_eq!(articles[1].title, "Second");
    assert!(articles[1].authors.is_empty());
    assert_eq!(articles[1].summary, "");
}

#[test]
fn no_entries_give_no_articles() {
    let collector = ArxivCollector::new();
    assert!(collector.articles_from_entries(Vec::new()).is_empty());
}

#[test]
fn collection_error_cause() {
    assert_eq!(CollectionError::Transport("down".to_string()).cause(), "down");
    assert_eq!(CollectionError::Decode("bad xml".to_string()).cause(), "bad xml");
}

#[test]
fn wire_round_trip_keeps_every_field() {
    let article = Article {
        title: "Semi;colons \\ and \\; escapes".to_string(),
        authors: vec!["Zoë".to_string(), "".to_string(), "+.;".to_string()],
        url: "https://arxiv.org/abs/1".to_string(),
        published_date: "".to_string(),
        summary: "line\nbreak 日本".to_string(),
        source: "Arxiv".to_string(),
    };
    let text = article.to_wire();
    let back = Article::from_wire(&text).unwrap();
    assert_eq!(back.title, article.title);
    assert_eq!(back.authors, article.authors);
    assert_eq!(back.url, article.url);
    assert_eq!(back.published_date, article.published_date);
    assert_eq!(back.summary, article.summary);
    assert_eq!(back.source, article.source);
}

#[test]
fn wire_form_is_exact() {
    let article = Article {
        title: "T;".to_string(),
        authors: vec!["A".to_string()],
        url: "u".to_string(),
        published_date: "d".to_string(),
        summary: "s\\".to_string(),
        source: "x".to_string(),
    };
    assert_eq!(article.to_wire(), "T\\;;+A;.u;d;s\\\\;x;");
}

#[test]
fn malformed_wire_is_refused() {
    assert!(Article::from_wire("").is_none());
    assert!(Article::from_wire("title;").is_none());
    assert!(Article::from_wire("t;.u;d;s;x;extra").is_none());
    assert!(Article::from_wire("t;?u;d;s;x;").is_none());
    assert!(Article::from_wire("t;.u;d;s;x;").is_some());
}
