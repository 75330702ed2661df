//! The reply formatter: a heading, at most a few article blocks with clipped
//! summaries, a notice of what was left out, and a hard overall length cap.

use vstd::prelude::*;
use vstd::string::*;

use crate::article::{Article, ArticleView, articles_view, strings_view};
use crate::text::{decimal, push_decimal};

verus! {

/// How many articles a reply shows in full.
pub const MAX_ARTICLES_DISPLAYED: usize = 5;

/// The longest reply the chat platform takes, in characters.
pub const MESSAGE_LIMIT: usize = 2000;

/// The longest summary shown unclipped, in characters.
pub const MAX_SUMMARY_LENGTH: usize = 200;

/// The marker appended to clipped text.
pub open spec fn ellipsis() -> Seq<char> {
    "..."@
}

/// Author names joined by a comma and a space.
pub open spec fn joined(v: Seq<Seq<char>>) -> Seq<char>
    decreases v.len(),
{
    if v.len() == 0 {
        Seq::empty()
    } else if v.len() == 1 {
        v[0]
    } else {
        joined(v.drop_last()) + ", "@ + v.last()
    }
}

/// A summary as rendered: its first characters and the marker when it is too long.
pub open spec fn summary_clause(s: Seq<char>) -> Seq<char> {
    if s.len() > MAX_SUMMARY_LENGTH {
        s.take(MAX_SUMMARY_LENGTH as int) + ellipsis()
    } else {
        s
    }
}

/// The block that shows the article at zero-based position `i`.
pub open spec fn item_block(i: nat, a: ArticleView) -> Seq<char> {
    "**"@ + decimal(i + 1) + ". "@ + a.title + "**\n"@
        + "👤 Authors: "@ + joined(a.authors) + "\n"@
        + "📅 Published: "@ + a.published_date + "\n"@
        + "🔗 URL: "@ + a.url + "\n"@
        + "📝 Summary: "@ + summary_clause(a.summary) + "\n\n"@
}

/// The blocks of the first `n` articles, in order.
pub open spec fn blocks(articles: Seq<ArticleView>, n: nat) -> Seq<char>
    decreases n,
{
    if n == 0 {
        Seq::empty()
    } else {
        blocks(articles, (n - 1) as nat) + item_block((n - 1) as nat, articles[n - 1])
    }
}

/// The heading with the total count and the label.
pub open spec fn heading(count: nat, label: Seq<char>) -> Seq<char> {
    "📰 **Found "@ + decimal(count) + " article(s) from "@ + label + ":**\n\n"@
}

/// The line that reports how many articles were left out.
pub open spec fn omitted_line(n: nat) -> Seq<char> {
    "_...and "@ + decimal(n) + " more articles_\n"@
}

/// How many articles are shown in full.
pub open spec fn shown(count: nat) -> nat {
    if count < MAX_ARTICLES_DISPLAYED { count } else { MAX_ARTICLES_DISPLAYED as nat }
}

/// The reply before the length cap.
pub open spec fn body(articles: Seq<ArticleView>, label: Seq<char>) -> Seq<char> {
    heading(articles.len(), label) + blocks(articles, shown(articles.len())) + if articles.len()
        > MAX_ARTICLES_DISPLAYED {
        omitted_line((articles.len() - MAX_ARTICLES_DISPLAYED) as nat)
    } else {
        Seq::empty()
    }
}

/// Text cut to the message limit, the marker closing it when it was cut.
pub open spec fn capped(t: Seq<char>) -> Seq<char> {
    if t.len() > MESSAGE_LIMIT {
        t.take(MESSAGE_LIMIT - ellipsis().len()) + ellipsis()
    } else {
        t
    }
}

/// The sentence for an empty result.
pub open spec fn no_articles(label: Seq<char>) -> Seq<char> {
    "No articles found from "@ + label + "."@
}

/// The whole reply for `articles` collected under `label`.
pub open spec fn response_text(articles: Seq<ArticleView>, label: Seq<char>) -> Seq<char> {
    if articles.len() == 0 {
        no_articles(label)
    } else {
        capped(body(articles, label))
    }
}

fn append_joined(r: &mut String, authors: &Vec<String>)
    ensures
        final(r)@ == old(r)@ + joined(strings_view(authors@)),
{
    let ghost start = r@;
    let ghost v = strings_view(authors@);
    let mut i: usize = 0;
    while i < authors.len()
        invariant
            i <= authors.len(),
            v == strings_view(authors@),
            r@ == start + joined(v.take(i as int)),
        decreases authors.len() - i,
    {
        if i > 0 {
            r.append(", ");
        }
        r.append(authors[i].as_str());
        proof {
            assert(v.take(i + 1).drop_last() =~= v.take(i as int));
            assert(v.take(i + 1).last() == authors@[i as int]@);
            if i == 0 {
                assert(joined(v.take(1)) == v.take(1)[0]);
            }
        }
        i = i + 1;
    }
    assert(v.take(authors.len() as int) =~= v);
}

fn append_summary(r: &mut String, summary: &String)
    ensures
        final(r)@ == old(r)@ + summary_clause(summary@),
{
    let n = summary.as_str().unicode_len();
    if n > MAX_SUMMARY_LENGTH {
        r.append(summary.as_str().substring_char(0, MAX_SUMMARY_LENGTH));
        r.append("...");
    } else {
        r.append(summary.as_str());
    }
}

fn append_block(r: &mut String, i: usize, a: &Article)
    requires
        i < MAX_ARTICLES_DISPLAYED,
    ensures
        final(r)@ == old(r)@ + item_block(i as nat, a@),
{
    let ghost start = r@;
    r.append("**");
    push_decimal(r, i + 1);
    r.append(". ");
    r.append(a.title.as_str());
    r.append("**\n");
    r.append("👤 Authors: ");
    append_joined(r, &a.authors);
    r.append("\n");
    r.append("📅 Published: ");
    r.append(a.published_date.as_str());
    r.append("\n");
    r.append("🔗 URL: ");
    r.append(a.url.as_str());
    r.append("\n");
    r.append("📝 Summary: ");
    append_summary(r, &a.summary);
    r.append("\n\n");
    assert(r@ =~= start + item_block(i as nat, a@));
}

fn cap(t: String) -> (r: String)
    ensures
        r@ == capped(t@),
{
    proof {
        reveal_strlit("...");
    }
    let n = t.as_str().unicode_len();
    if n > MESSAGE_LIMIT {
        let mut r = String::from_str(t.as_str().substring_char(0, MESSAGE_LIMIT - 3));
        r.append("...");
        r
    } else {
        t
    }
}

/// Renders `articles`, collected under `source`, as one reply of at most
/// [`MESSAGE_LIMIT`] characters.
pub fn format_articles_response(articles: &Vec<Article>, source: &str) -> (r: String)
    ensures
        r@ == response_text(articles_view(articles@), source@),
{
    let ghost av = articles_view(articles@);
    if articles.len() == 0 {
        let mut r = String::from_str("No articles found from ");
        r.append(source);
        r.append(".");
        return r;
    }
    let mut response = String::from_str("📰 **Found ");
    push_decimal(&mut response, articles.len());
    response.append(" article(s) from ");
    response.append(source);
    response.append(":**\n\n");
    let ghost head = response@;
    assert(head =~= heading(av.len(), source@));
    let count = if articles.len() < MAX_ARTICLES_DISPLAYED {
        articles.len()
    } else {
        MAX_ARTICLES_DISPLAYED
    };
    let mut i: usize = 0;
    while i < count
        invariant
            i <= count,
            count == shown(av.len()),
            count <= articles.len(),
            av == articles_view(articles@),
            response@ == head + blocks(av, i as nat),
        decreases count - i,
    {
        append_block(&mut response, i, &articles[i]);
        proof {
            assert(av[i as int] == articles@[i as int]@);
            assert(response@ =~= head + blocks(av, (i + 1) as nat));
        }
        i = i + 1;
    }
    if articles.len() > MAX_ARTICLES_DISPLAYED {
        let ghost before = response@;
        response.append("_...and ");
        push_decimal(&mut response, articles.len() - MAX_ARTICLES_DISPLAYED);
        response.append(" more articles_\n");
        assert(response@ =~= before + omitted_line((av.len() - MAX_ARTICLES_DISPLAYED) as nat));
    }
    assert(response@ =~= body(av, source@));
    cap(response)
}

/// A reply to a non-empty list never exceeds the message limit, whatever the
/// sizes of the titles, summaries and other fields.
pub proof fn lemma_reply_within_limit(articles: Seq<ArticleView>, label: Seq<char>)
    requires
        articles.len() > 0,
    ensures
        response_text(articles, label).len() <= MESSAGE_LIMIT,
{
    reveal_strlit("...");
}

/// A summary longer than the summary limit is rendered as exactly its first
/// [`MAX_SUMMARY_LENGTH`] characters followed by the three-character marker.
pub proof fn lemma_long_summary_clipped(s: Seq<char>)
    requires
        s.len() > MAX_SUMMARY_LENGTH,
    ensures
        summary_clause(s) == s.take(MAX_SUMMARY_LENGTH as int) + ellipsis(),
        summary_clause(s).len() == MAX_SUMMARY_LENGTH + 3,
{
    reveal_strlit("...");
}

/// With more articles than are shown, a reply that the cap leaves whole ends
/// with the line reporting how many were left out.
pub proof fn lemma_omitted_line_reported(articles: Seq<ArticleView>, label: Seq<char>)
    requires
        articles.len() > MAX_ARTICLES_DISPLAYED,
        body(articles, label).len() <= MESSAGE_LIMIT,
    ensures
        response_text(articles, label) == heading(articles.len(), label) + blocks(
            articles,
            MAX_ARTICLES_DISPLAYED as nat,
        ) + omitted_line((articles.len() - MAX_ARTICLES_DISPLAYED) as nat),
{
}

/// With no more articles than are shown, the reply is the heading and the
/// blocks alone, under the cap: no line about left-out articles is emitted.
pub proof fn lemma_no_omitted_line(articles: Seq<ArticleView>, label: Seq<char>)
    requires
        0 < articles.len() <= MAX_ARTICLES_DISPLAYED,
    ensures
        response_text(articles, label) == capped(
            heading(articles.len(), label) + blocks(articles, articles.len()),
        ),
{
    assert(body(articles, label) =~= heading(articles.len(), label) + blocks(
        articles,
        articles.len(),
    ));
}

} // verus!
