//! The bot's decisions around its commands: request parameters, which
//! collectors run, and the text of each reply.

use vstd::prelude::*;
use vstd::string::*;

use crate::aggregate::{Aggregation, AggregateError, Selection, all_scope, names_match, select};
use crate::article::articles_view;
use crate::collectors::{ArxivCollector, Collector, ExampleArticleCollector};
use crate::config::Config;
use crate::format::{format_articles_response, response_text};

verus! {

/// A registered collector.
#[derive(Debug, Clone, Copy)]
pub enum Source {
    Arxiv(ArxivCollector),
    Example(ExampleArticleCollector),
}

impl Source {
    pub open spec fn name_spec(&self) -> Seq<char> {
        match self {
            Source::Arxiv(c) => c.name_spec(),
            Source::Example(c) => c.name_spec(),
        }
    }

    pub fn name(&self) -> (r: String)
        ensures
            r@ == self.name_spec(),
    {
        match self {
            Source::Arxiv(c) => c.name(),
            Source::Example(c) => c.name(),
        }
    }

    pub open spec fn description_spec(&self) -> Seq<char> {
        match self {
            Source::Arxiv(c) => c.description_spec(),
            Source::Example(c) => c.description_spec(),
        }
    }

    pub fn description(&self) -> (r: String)
        ensures
            r@ == self.description_spec(),
    {
        match self {
            Source::Arxiv(c) => c.description(),
            Source::Example(c) => c.description(),
        }
    }
}

/// The smallest number of results a request may ask for.
pub const MIN_RESULTS: i64 = 1;

/// The largest number of results a request may ask for.
pub const MAX_RESULTS: i64 = 20;

/// The label of the periodic collection's reply.
pub open spec fn scheduled_label() -> Seq<char> {
    "scheduled collection"@
}

/// One collection request, its options resolved.
#[derive(Debug, Clone)]
pub struct CollectRequest {
    pub source: String,
    pub query: String,
    pub max_results: usize,
}

/// The bot's registry of collectors and its defaults.
#[derive(Debug, Clone)]
pub struct Bot {
    pub collectors: Vec<Source>,
    pub default_query: String,
    pub default_max_results: usize,
    pub schedule: String,
    pub guild_id: Option<u64>,
}

/// A number of results brought into the range a request may ask for.
pub open spec fn clamped_results(n: i64) -> usize {
    if n < MIN_RESULTS {
        MIN_RESULTS as usize
    } else if n > MAX_RESULTS {
        MAX_RESULTS as usize
    } else {
        n as usize
    }
}

/// The sources listing's line for one collector.
pub open spec fn source_line(name: Seq<char>, description: Seq<char>) -> Seq<char> {
    "• **"@ + name + "**: "@ + description + "\n"@
}

/// The sources listing: a heading, then one line per collector in registry order.
pub open spec fn listing(collectors: Seq<Source>) -> Seq<char>
    decreases collectors.len(),
{
    if collectors.len() == 0 {
        "📚 **Available Sources:**\n\n"@
    } else {
        listing(collectors.drop_last()) + source_line(
            collectors.last().name_spec(),
            collectors.last().description_spec(),
        )
    }
}

/// The reply to a collection request, given what the request came to.
pub open spec fn reply_text(r: Result<crate::aggregate::AggregationView, AggregateError>, label: Seq<char>) -> Seq<char> {
    match r {
        Ok(a) => response_text(a.articles, label),
        Err(AggregateError::UnknownSource(s)) => "❌ Unknown source: "@ + s@,
        Err(AggregateError::Collection(e)) => "❌ Error: "@ + e.cause_spec(),
    }
}

impl Bot {
    /// A bot with the arXiv collector and the placeholder collector, in that
    /// order, and the defaults of `config`.
    pub fn new(config: &Config) -> (r: Bot)
        ensures
            r.collectors.len() == 2,
            r.collectors@[0].name_spec() == "Arxiv"@,
            r.collectors@[1].name_spec() == "Example Articles"@,
            r.default_query@ == config.arxiv_search_query@,
            r.default_max_results == config.arxiv_max_results,
            r.schedule@ == config.collection_schedule@,
            r.guild_id == config.discord.guild_id,
    {
        let mut collectors: Vec<Source> = Vec::new();
        collectors.push(Source::Arxiv(ArxivCollector::new()));
        collectors.push(Source::Example(ExampleArticleCollector::new()));
        Bot {
            collectors,
            default_query: config.arxiv_search_query.clone(),
            default_max_results: config.arxiv_max_results,
            schedule: config.collection_schedule.clone(),
            guild_id: config.discord.guild_id,
        }
    }

    /// The registered names, in registry order.
    pub fn source_names(&self) -> (r: Vec<String>)
        ensures
            r.len() == self.collectors.len(),
            forall|i: int| 0 <= i < r.len() ==> #[trigger] r@[i]@ == self.collectors@[i].name_spec(),
    {
        let mut r: Vec<String> = Vec::new();
        let mut i: usize = 0;
        while i < self.collectors.len()
            invariant
                i <= self.collectors.len(),
                r.len() == i,
                forall|k: int| 0 <= k < i ==> #[trigger] r@[k]@ == self.collectors@[k].name_spec(),
            decreases self.collectors.len() - i,
        {
            r.push(self.collectors[i].name());
            i = i + 1;
        }
        r
    }

    /// Resolves a collection request's options: the source defaults to the
    /// arXiv collector, the query and the number of results to the bot's
    /// defaults; a given number is brought into the allowed range.
    pub fn collect_request(
        &self,
        source: Option<String>,
        query: Option<String>,
        max_results: Option<i64>,
    ) -> (r: CollectRequest)
        ensures
            r.source@ == match source {
                Some(s) => s@,
                None => "arxiv"@,
            },
            r.query@ == match query {
                Some(q) => q@,
                None => self.default_query@,
            },
            r.max_results == match max_results {
                Some(n) => clamped_results(n),
                None => self.default_max_results,
            },
    {
        let source = match source {
            Some(s) => s,
            None => String::from_str("arxiv"),
        };
        let query = match query {
            Some(q) => q,
            None => self.default_query.clone(),
        };
        let max_results: usize = match max_results {
            Some(n) => if n < MIN_RESULTS {
                MIN_RESULTS as usize
            } else if n > MAX_RESULTS {
                MAX_RESULTS as usize
            } else {
                n as usize
            },
            None => self.default_max_results,
        };
        CollectRequest { source, query, max_results }
    }

    /// Which collectors a request for `source` runs (see [`select`]).
    pub fn selection(&self, source: &str) -> (r: Result<Selection, AggregateError>)
        ensures
            source@ == all_scope() ==> r == Ok::<Selection, AggregateError>(Selection::All),
            source@ != all_scope() ==> match r {
                Ok(Selection::One(i)) => i < self.collectors.len() && names_match(
                    self.collectors@[i as int].name_spec(),
                    source@,
                ) && forall|j: int|
                    0 <= j < i ==> !names_match(#[trigger] self.collectors@[j].name_spec(), source@),
                Ok(Selection::All) => false,
                Err(AggregateError::UnknownSource(s)) => s@ == source@ && forall|j: int|
                    0 <= j < self.collectors.len() ==> !names_match(
                        #[trigger] self.collectors@[j].name_spec(),
                        source@,
                    ),
                Err(AggregateError::Collection(_)) => false,
            },
    {
        let names = self.source_names();
        let r = select(&names, source);
        proof {
            if source@ != all_scope() {
                match r {
                    Ok(Selection::One(i)) => {
                        assert(names@[i as int]@ == self.collectors@[i as int].name_spec());
                        assert forall|j: int| 0 <= j < i implies !names_match(
                            #[trigger] self.collectors@[j].name_spec(),
                            source@,
                        ) by {
                            assert(names@[j]@ == self.collectors@[j].name_spec());
                        }
                    },
                    Err(AggregateError::UnknownSource(_)) => {
                        assert forall|j: int| 0 <= j < self.collectors.len() implies !names_match(
                            #[trigger] self.collectors@[j].name_spec(),
                            source@,
                        ) by {
                            assert(names@[j]@ == self.collectors@[j].name_spec());
                        }
                    },
                    _ => {},
                }
            }
        }
        r
    }

    /// The reply to the sources command: every collector's name and description.
    pub fn sources_listing(&self) -> (r: String)
        ensures
            r@ == listing(self.collectors@),
    {
        let mut r = String::from_str("📚 **Available Sources:**\n\n");
        let mut i: usize = 0;
        assert(self.collectors@.take(0) =~= Seq::<Source>::empty());
        while i < self.collectors.len()
            invariant
                i <= self.collectors.len(),
                r@ == listing(self.collectors@.take(i as int)),
            decreases self.collectors.len() - i,
        {
            let ghost before = r@;
            let name = self.collectors[i].name();
            let description = self.collectors[i].description();
            r.append("• **");
            r.append(name.as_str());
            r.append("**: ");
            r.append(description.as_str());
            r.append("\n");
            proof {
                let t = self.collectors@.take(i + 1);
                assert(t.drop_last() =~= self.collectors@.take(i as int));
                assert(t.last() == self.collectors@[i as int]);
                assert(r@ =~= before + source_line(t.last().name_spec(), t.last().description_spec()));
            }
            i = i + 1;
        }
        assert(self.collectors@.take(self.collectors.len() as int) =~= self.collectors@);
        r
    }

    /// The reply to the schedule command.
    pub fn schedule_message(&self) -> (r: String)
        ensures
            r@ == "📅 **Collection Schedule:**\n\nCron: `"@ + self.schedule@
                + "`\n\nThe bot will automatically collect articles based on this schedule."@,
    {
        let mut r = String::from_str("📅 **Collection Schedule:**\n\nCron: `");
        r.append(self.schedule.as_str());
        r.append("`\n\nThe bot will automatically collect articles based on this schedule.");
        r
    }
}

/// The commands the bot answers.
#[derive(Debug, Clone, Copy, PartialEq, Eq)]
pub enum CommandKind {
    Collect,
    Sources,
    Schedule,
}

/// The command an invocation's name stands for, if the bot answers it.
pub fn command_kind(name: &str) -> (r: Option<CommandKind>)
    ensures
        r == (if name@ == "collect"@ {
            Some(CommandKind::Collect)
        } else if name@ == "sources"@ {
            Some(CommandKind::Sources)
        } else if name@ == "schedule"@ {
            Some(CommandKind::Schedule)
        } else {
            None::<CommandKind>
        }),
{
    let name = String::from_str(name);
    if name == String::from_str("collect") {
        Some(CommandKind::Collect)
    } else if name == String::from_str("sources") {
        Some(CommandKind::Sources)
    } else if name == String::from_str("schedule") {
        Some(CommandKind::Schedule)
    } else {
        None
    }
}

/// The reply to a collection request under `label`: the formatted articles, or
/// the request's failure.
pub fn reply(result: &Result<Aggregation, AggregateError>, label: &str) -> (r: String)
    ensures
        r@ == reply_text(crate::aggregate::aggregation_result_view(*result), label@),
{
    match result {
        Ok(a) => format_articles_response(&a.articles, label),
        Err(AggregateError::UnknownSource(s)) => {
            let mut r = String::from_str("❌ Unknown source: ");
            r.append(s.as_str());
            r
        },
        Err(AggregateError::Collection(e)) => {
            let mut r = String::from_str("❌ Error: ");
            let cause = e.cause();
            r.append(cause.as_str());
            r
        },
    }
}

/// The periodic collection's message: none when nothing was collected.
pub fn periodic_message(result: &Aggregation) -> (r: Option<String>)
    ensures
        match r {
            None => result.articles.len() == 0,
            Some(m) => result.articles.len() > 0 && m@ == response_text(
                articles_view(result.articles@),
                scheduled_label(),
            ),
        },
{
    if result.articles.len() == 0 {
        None
    } else {
        Some(format_articles_response(&result.articles, "scheduled collection"))
    }
}

} // verus!
