//! Source collectors: the shared interface, the arXiv feed collector's pure
//! parts and a placeholder collector.

use vstd::prelude::*;
use vstd::string::*;

use crate::article::{Article, ArticleView, strings_view};
use crate::text::{decimal, push_decimal};

verus! {

/// Why a collector could not deliver its articles.
#[derive(Debug, Clone, PartialEq, Eq)]
pub enum CollectionError {
    /// The source could not be reached or answered with a failure status.
    Transport(String),
    /// The source's answer could not be decoded.
    Decode(String),
}

impl CollectionError {
    /// The human-readable cause.
    pub open spec fn cause_spec(&self) -> Seq<char> {
        match self {
            CollectionError::Transport(c) => c@,
            CollectionError::Decode(c) => c@,
        }
    }

    pub fn cause(&self) -> (r: String)
        ensures
            r@ == self.cause_spec(),
    {
        match self {
            CollectionError::Transport(c) => c.clone(),
            CollectionError::Decode(c) => c.clone(),
        }
    }
}

/// A content source that yields articles for a query.
///
/// Fetching is I/O and lives with the caller; what a collector states here is
/// its stable identity.
pub trait Collector {
    /// The collector's name, matched without regard to case.
    spec fn name_spec(&self) -> Seq<char>;

    fn name(&self) -> (r: String)
        ensures
            r@ == self.name_spec(),
    ;

    /// What the collector gathers, for listings.
    spec fn description_spec(&self) -> Seq<char>;

    fn description(&self) -> (r: String)
        ensures
            r@ == self.description_spec(),
    ;
}

/// Bytes that a query keeps as they are in a request URL.
pub open spec fn unreserved(b: u8) -> bool {
    (65 <= b <= 90) || (97 <= b <= 122) || (48 <= b <= 57) || b == 45 || b == 95 || b == 46
        || b == 126
}

/// The upper-case hexadecimal digit of `d`, below sixteen.
pub open spec fn hex_digit(d: u8) -> char {
    if d < 10 {
        (48 + d) as u8 as char
    } else {
        (55 + d) as u8 as char
    }
}

/// One byte as it stands in a request URL: itself when unreserved, else `%XX`.
pub open spec fn encode_byte(b: u8) -> Seq<char> {
    if unreserved(b) {
        seq![b as char]
    } else {
        seq!['%', hex_digit(b / 16), hex_digit(b % 16)]
    }
}

/// The percent-encoded form of a byte string.
pub open spec fn percent_encoded(bs: Seq<u8>) -> Seq<char>
    decreases bs.len(),
{
    if bs.len() == 0 {
        Seq::empty()
    } else {
        percent_encoded(bs.drop_last()) + encode_byte(bs.last())
    }
}

fn hex_char(d: u8) -> (c: char)
    requires
        d < 16,
    ensures
        c == hex_digit(d),
{
    if d < 10 {
        (48 + d) as char
    } else {
        (55 + d) as char
    }
}

/// Percent-encodes `s` byte by byte: ASCII letters, digits and `-_.~` stay,
/// every other byte of its UTF-8 form becomes `%XX` in upper-case hex.
pub fn encode(s: &str) -> (r: String)
    ensures
        r@ == percent_encoded(s.spec_bytes()),
{
    let bytes = s.as_bytes();
    let mut r = String::new();
    let mut i: usize = 0;
    while i < bytes.len()
        invariant
            i <= bytes@.len(),
            bytes@ == s.spec_bytes(),
            r@ == percent_encoded(bytes@.take(i as int)),
        decreases bytes.len() - i,
    {
        let b = bytes[i];
        if (65 <= b && b <= 90) || (97 <= b && b <= 122) || (48 <= b && b <= 57) || b == 45 || b
            == 95 || b == 46 || b == 126 {
            r.push(b as char);
        } else {
            r.push('%');
            r.push(hex_char(b / 16));
            r.push(hex_char(b % 16));
        }
        proof {
            assert(bytes@.take(i + 1).drop_last() =~= bytes@.take(i as int));
            assert(r@ =~= percent_encoded(bytes@.take(i + 1)));
        }
        i = i + 1;
    }
    assert(bytes@.take(bytes@.len() as int) =~= bytes@);
    r
}

/// The arXiv query API address for a search.
pub open spec fn arxiv_query_url(query: Seq<u8>, max_results: nat) -> Seq<char> {
    "http://export.arxiv.org/api/query?search_query="@ + percent_encoded(query)
        + "&start=0&max_results="@ + decimal(max_results)
}

/// What `str::trim` makes of a text.
pub uninterp spec fn trim_of(s: Seq<char>) -> Seq<char>;

/// Relies on `str::trim`: leading and trailing white space removed, a function of
/// the characters alone.
#[verifier::external_body]
fn trim(s: &str) -> (r: String)
    ensures
        r@ == trim_of(s@),
{
    s.trim().to_string()
}

/// A text with each line feed turned into a space.
pub open spec fn newlines_to_spaces(s: Seq<char>) -> Seq<char> {
    s.map_values(|c: char| if c == '\n' { ' ' } else { c })
}

/// Relies on `str::replace`: every line feed replaced by one space.
#[verifier::external_body]
fn replace_newlines(s: &str) -> (r: String)
    ensures
        r@ == newlines_to_spaces(s@),
{
    s.replace('\n', " ")
}

/// A feed text as an article shows it: trimmed, line feeds made spaces.
pub open spec fn normalized(s: Seq<char>) -> Seq<char> {
    newlines_to_spaces(trim_of(s))
}

/// Normalizes a feed title or summary.
pub fn normalize(s: &str) -> (r: String)
    ensures
        r@ == normalized(s@),
{
    let t = trim(s);
    replace_newlines(t.as_str())
}

/// One `entry` element of an arXiv Atom feed, as decoded.
#[derive(Debug, Clone)]
pub struct FeedEntry {
    pub title: String,
    /// The `name` of each `author`, in feed order.
    pub authors: Vec<String>,
    pub id: String,
    pub published: String,
    pub summary: String,
}

/// The article that a feed entry becomes under a collector's name.
pub open spec fn entry_article(e: FeedEntry, source: Seq<char>) -> ArticleView {
    ArticleView {
        title: normalized(e.title@),
        authors: strings_view(e.authors@),
        url: e.id@,
        published_date: e.published@,
        summary: normalized(e.summary@),
        source,
    }
}

/// Collects papers from the arXiv query API.
#[derive(Debug, Clone, Copy)]
pub struct ArxivCollector {}

impl ArxivCollector {
    pub fn new() -> (r: ArxivCollector) {
        ArxivCollector {  }
    }

    /// The request that fetches up to `max_results` papers matching `query`.
    pub fn request_url(&self, query: &str, max_results: usize) -> (r: String)
        ensures
            r@ == arxiv_query_url(query.spec_bytes(), max_results as nat),
    {
        let mut r = String::from_str("http://export.arxiv.org/api/query?search_query=");
        let q = encode(query);
        r.append(q.as_str());
        r.append("&start=0&max_results=");
        push_decimal(&mut r, max_results);
        r
    }

    /// The articles of the decoded feed entries, in feed order.
    pub fn articles_from_entries(&self, entries: Vec<FeedEntry>) -> (r: Vec<Article>)
        ensures
            r.len() == entries.len(),
            forall|i: int|
                0 <= i < r.len() ==> #[trigger] r@[i]@ == entry_article(entries@[i], "Arxiv"@),
    {
        let ghost given = entries@;
        let mut rest = entries;
        let mut r: Vec<Article> = Vec::new();
        let n = rest.len();
        while rest.len() > 0
            invariant
                r.len() + rest.len() == n,
                n == given.len(),
                forall|k: int| 0 <= k < rest.len() ==> #[trigger] rest@[k] == given[r.len() + k],
                forall|i: int|
                    0 <= i < r.len() ==> #[trigger] r@[i]@ == entry_article(given[i], "Arxiv"@),
            decreases rest.len(),
        {
            let ghost before = rest@;
            let e = rest.remove(0);
            assert(e == given[r.len() as int]);
            assert forall|k: int| 0 <= k < rest.len() implies #[trigger] rest@[k] == given[r.len()
                + 1 + k] by {
                assert(rest@[k] == before[k + 1]);
            }
            let a = Article {
                title: normalize(e.title.as_str()),
                authors: e.authors,
                url: e.id,
                published_date: e.published,
                summary: normalize(e.summary.as_str()),
                source: String::from_str("Arxiv"),
            };
            r.push(a);
        }
        r
    }
}

impl Collector for ArxivCollector {
    open spec fn name_spec(&self) -> Seq<char> {
        "Arxiv"@
    }

    fn name(&self) -> (r: String) {
        String::from_str("Arxiv")
    }

    open spec fn description_spec(&self) -> Seq<char> {
        "Collects academic papers from arXiv.org"@
    }

    fn description(&self) -> (r: String) {
        String::from_str("Collects academic papers from arXiv.org")
    }
}

/// A placeholder source with no endpoint: it shows how a collector is added.
#[derive(Debug, Clone, Copy)]
pub struct ExampleArticleCollector {}

impl ExampleArticleCollector {
    pub fn new() -> (r: ExampleArticleCollector) {
        ExampleArticleCollector {  }
    }

    /// Always succeeds with no articles.
    pub fn collect(&self, query: &str, max_results: usize) -> (r: Result<Vec<Article>, CollectionError>)
        ensures
            r matches Ok(v) && v.len() == 0,
    {
        Ok(Vec::new())
    }
}

impl Collector for ExampleArticleCollector {
    open spec fn name_spec(&self) -> Seq<char> {
        "Example Articles"@
    }

    fn name(&self) -> (r: String) {
        String::from_str("Example Articles")
    }

    open spec fn description_spec(&self) -> Seq<char> {
        "Example collector for article sites (placeholder implementation)"@
    }

    fn description(&self) -> (r: String) {
        String::from_str("Example collector for article sites (placeholder implementation)")
    }
}

} // verus!
