use xplorer::aggregate::{AggregateError, Aggregation, Selection};
use xplorer::article::Article;
use xplorer::bot::{command_kind, periodic_message, reply, Bot, CommandKind};
use xplorer::collectors::CollectionError;
use xplorer::config::{default_max_results, default_query, default_schedule, Config, DiscordConfig};

fn config() -> Config {
    Config {
        discord: DiscordConfig {
            token: "t".to_string(),
            guild_id: Some(42),
            channel_id: None,
        },
        arxiv_search_query: default_query(),
        arxiv_max_results: default_max_results(),
        collection_schedule: default_schedule(),
    }
}

fn article(title: &str) -> Article {
    Article {
        title: title.to_string(),
        authors: Vec::new(),
        url: "u".to_string(),
        published_date: "d".to_string(),
        summary: "s".to_string(),
        source: "Arxiv".to_string(),
    }
}

#[test]
fn defaults() {
    assert_eq!(default_query(), "cat:cs.AI");
    assert_eq!(default_max_results(), 10);
    assert_eq!(default_schedule(), "0 0 9 * * *");
}

#[test]
fn bot_registers_both_collectors() {
    let bot = Bot::new(&config());
    assert_eq!(bot.source_names(), vec!["Arxiv".to_string(), "Example Articles".to_string()]);
    assert_eq!(bot.guild_id, Some(42));
    assert_eq!(bot.default_query, "cat:cs.AI");
    assert_eq!(bot.default_max_results, 10);
}

#[test]
fn request_defaults_and_clamping() {
    let bot = Bot::new(&config());
    let r = bot.collect_request(None, None, None);
    assert_eq!(r.source, "arxiv");
    assert_eq!(r.query, "cat:cs.AI");
    assert_eq!(r.max_results, 10);
    let r = bot.collect_request(Some("all".to_string()), Some("q".to_string()), Some(50));
    assert_eq!(r.source, "all");
    assert_eq!(r.query, "q");
    assert_eq!(r.max_results, 20);
    assert_eq!(bot.collect_request(None, None, Some(-3)).max_results, 1);
    assert_eq!(bot.collect_request(None, None, Some(7)).max_results, 7);
}

#[test]
fn bot_selection() {
    let bot = Bot::new(&config());
    assert_eq!(bot.selection("all"), Ok(Selection::All));
    assert_eq!(bot.selection("Arxiv"), Ok(Selection::One(0)));
    assert_eq!(
        bot.selection("nope"),
        Err(AggregateError::UnknownSource("nope".to_string()))
    );
}

#[test]
fn replies_to_failures() {
    let unknown: Result<Aggregation, AggregateError> =
        Err(AggregateError::UnknownSource("nope".to_string()));
    assert_eq!(reply(&unknown, "nope"), "❌ Unknown source: nope");
    let failed: Result<Aggregation, AggregateError> = Err(AggregateError::Collection(
        CollectionError::Transport("timed out".to_string()),
    ));
    assert_eq!(reply(&failed, "arxiv"), "❌ Error: timed out");
    let empty: Result<Aggregation, AggregateError> = Ok(Aggregation {
        articles: Vec::new(),
        errors: Vec::new(),
    });
    assert_eq!(reply(&empty, "all"), "No articles found from all.");
}

#[test]
fn sources_listing_names_every_collector() {
    let bot = Bot::new(&config());
    assert_eq!(
        bot.sources_listing(),
        "📚 **Available Sources:**\n\n\
         • **Arxiv**: Collects academic papers from arXiv.org\n\
         • **Example Articles**: Example collector for article sites (placeholder implementation)\n"
    );
}

#[test]
fn schedule_message_shows_the_cron_line() {
    let bot = Bot::new(&config());
    assert_eq!(
        bot.schedule_message(),
        "📅 **Collection Schedule:**\n\nCron: `0 0 9 * * *`\n\nThe bot will automatically collect articles based on this schedule."
    );
}

#[test]
fn periodic_message_only_when_something_was_found() {
    let none = Aggregation { articles: Vec::new(), errors: Vec::new() };
    assert!(periodic_message(&none).is_none());
    let some = Aggregation { articles: vec![article("p")], errors: Vec::new() };
    let m = periodic_message(&some).unwrap();
    assert!(m.starts_with("📰 **Found 1 article(s) from scheduled collection:**"));
}

#[test]
fn command_names_dispatch() {
    assert_eq!(command_kind("collect"), Some(CommandKind::Collect));
    assert_eq!(command_kind("sources"), Some(CommandKind::Sources));
    assert_eq!(command_kind("schedule"), Some(CommandKind::Schedule));
    assert_eq!(command_kind("Collect"), None);
    assert_eq!(command_kind("ping"), None);
}
