//! A plain-text wire form of an article and its decoder.
//!
//! Each text field is written with `\` and `;` escaped by a `\` and closed by
//! `;`. The author list writes `+` before each name and closes with `.`.
//! The fields follow in record order: title, authors, url, published date,
//! summary, source.

use vstd::prelude::*;
use vstd::string::*;

use crate::article::{Article, ArticleView, strings_view};

verus! {

/// One character as written inside a text field.
pub open spec fn escape_char(c: char) -> Seq<char> {
    if c == '\\' || c == ';' {
        seq!['\\', c]
    } else {
        seq![c]
    }
}

/// A text with its special characters escaped.
pub open spec fn escaped(s: Seq<char>) -> Seq<char>
    decreases s.len(),
{
    if s.len() == 0 {
        Seq::empty()
    } else {
        escape_char(s[0]) + escaped(s.drop_first())
    }
}

/// A text field: the escaped text and the closing `;`.
pub open spec fn wire_text(s: Seq<char>) -> Seq<char> {
    escaped(s) + seq![';']
}

/// The author entries, each a `+` and a text field.
pub open spec fn wire_items(v: Seq<Seq<char>>) -> Seq<char>
    decreases v.len(),
{
    if v.len() == 0 {
        Seq::empty()
    } else {
        seq!['+'] + wire_text(v[0]) + wire_items(v.drop_first())
    }
}

/// The author list: its entries and the closing `.`.
pub open spec fn wire_list(v: Seq<Seq<char>>) -> Seq<char> {
    wire_items(v) + seq!['.']
}

/// The wire form of an article.
pub open spec fn wire(a: ArticleView) -> Seq<char> {
    wire_text(a.title) + wire_list(a.authors) + wire_text(a.url) + wire_text(a.published_date)
        + wire_text(a.summary) + wire_text(a.source)
}

/// A text read back from the front of `t`, with what follows it.
pub open spec fn scan_text(t: Seq<char>) -> Option<(Seq<char>, Seq<char>)>
    decreases t.len(),
{
    if t.len() == 0 {
        None
    } else if t[0] == ';' {
        Some((Seq::empty(), t.drop_first()))
    } else if t[0] == '\\' {
        if t.len() < 2 {
            None
        } else {
            prepend(seq![t[1]], scan_text(t.subrange(2, t.len() as int)))
        }
    } else {
        prepend(seq![t[0]], scan_text(t.drop_first()))
    }
}

/// A scan's text with `a` in front of it.
pub open spec fn prepend(a: Seq<char>, o: Option<(Seq<char>, Seq<char>)>) -> Option<
    (Seq<char>, Seq<char>),
> {
    match o {
        Some((x, r)) => Some((a + x, r)),
        None => None,
    }
}

/// An author list read back from the front of `t`, with what follows it.
pub open spec fn scan_list(t: Seq<char>) -> Option<(Seq<Seq<char>>, Seq<char>)>
    decreases t.len(),
{
    if t.len() == 0 {
        None
    } else if t[0] == '.' {
        Some((Seq::empty(), t.drop_first()))
    } else if t[0] == '+' {
        match scan_text(t.drop_first()) {
            Some((x, r)) => if r.len() < t.len() {
                prepend_list(seq![x], scan_list(r))
            } else {
                None
            },
            None => None,
        }
    } else {
        None
    }
}

/// A list scan's names with `a` in front of them.
pub open spec fn prepend_list(a: Seq<Seq<char>>, o: Option<(Seq<Seq<char>>, Seq<char>)>) -> Option<
    (Seq<Seq<char>>, Seq<char>),
> {
    match o {
        Some((x, r)) => Some((a + x, r)),
        None => None,
    }
}

/// The article that `t` holds in wire form, if it holds exactly one.
pub open spec fn decoded(t: Seq<char>) -> Option<ArticleView> {
    match scan_text(t) {
        None => None,
        Some((title, t1)) => match scan_list(t1) {
            None => None,
            Some((authors, t2)) => match scan_text(t2) {
                None => None,
                Some((url, t3)) => match scan_text(t3) {
                    None => None,
                    Some((published_date, t4)) => match scan_text(t4) {
                        None => None,
                        Some((summary, t5)) => match scan_text(t5) {
                            None => None,
                            Some((source, t6)) => if t6.len() == 0 {
                                Some(
                                    ArticleView {
                                        title,
                                        authors,
                                        url,
                                        published_date,
                                        summary,
                                        source,
                                    },
                                )
                            } else {
                                None
                            },
                        },
                    },
                },
            },
        },
    }
}

proof fn lemma_escaped_push(s: Seq<char>, c: char)
    ensures
        escaped(s.push(c)) == escaped(s) + escape_char(c),
    decreases s.len(),
{
    if s.len() == 0 {
        assert(s.push(c).drop_first() =~= Seq::<char>::empty());
        assert(s.push(c)[0] == c);
        assert(escaped(s.push(c).drop_first()) == Seq::<char>::empty());
        assert(escaped(s) == Seq::<char>::empty());
        assert(escaped(s.push(c)) =~= escaped(s) + escape_char(c));
    } else {
        assert(s.push(c).drop_first() =~= s.drop_first().push(c));
        lemma_escaped_push(s.drop_first(), c);
        assert(escaped(s.push(c)) =~= escaped(s) + escape_char(c));
    }
}

proof fn lemma_items_push(v: Seq<Seq<char>>, x: Seq<char>)
    ensures
        wire_items(v.push(x)) == wire_items(v) + seq!['+'] + wire_text(x),
    decreases v.len(),
{
    if v.len() == 0 {
        assert(v.push(x).drop_first() =~= Seq::<Seq<char>>::empty());
        assert(v.push(x)[0] == x);
        assert(wire_items(v.push(x).drop_first()) == Seq::<char>::empty());
        assert(wire_items(v) == Seq::<char>::empty());
        assert(wire_items(v.push(x)) =~= wire_items(v) + seq!['+'] + wire_text(x));
    } else {
        assert(v.push(x).drop_first() =~= v.drop_first().push(x));
        lemma_items_push(v.drop_first(), x);
        assert(wire_items(v.push(x)) =~= wire_items(v) + seq!['+'] + wire_text(x));
    }
}

/// A text field is read back whole, and the scan stops right after it.
pub proof fn lemma_scan_text(s: Seq<char>, rest: Seq<char>)
    ensures
        scan_text(wire_text(s) + rest) == Some((s, rest)),
    decreases s.len(),
{
    let t = wire_text(s) + rest;
    if s.len() == 0 {
        assert(t =~= seq![';'] + rest);
        assert(t.drop_first() =~= rest);
    } else {
        let c = s[0];
        lemma_scan_text(s.drop_first(), rest);
        let tail = wire_text(s.drop_first()) + rest;
        assert(t =~= escape_char(c) + tail);
        if c == '\\' || c == ';' {
            assert(t.subrange(2, t.len() as int) =~= tail);
        } else {
            assert(t.drop_first() =~= tail);
        }
        assert(seq![c] + s.drop_first() =~= s);
    }
}

/// An author list is read back whole, and the scan stops right after it.
pub proof fn lemma_scan_list(v: Seq<Seq<char>>, rest: Seq<char>)
    ensures
        scan_list(wire_list(v) + rest) == Some((v, rest)),
    decreases v.len(),
{
    let t = wire_list(v) + rest;
    if v.len() == 0 {
        assert(t =~= seq!['.'] + rest);
        assert(t.drop_first() =~= rest);
    } else {
        let tail = wire_list(v.drop_first()) + rest;
        lemma_scan_list(v.drop_first(), rest);
        assert(t =~= seq!['+'] + (wire_text(v[0]) + tail));
        assert(t.drop_first() =~= wire_text(v[0]) + tail);
        lemma_scan_text(v[0], tail);
        assert(seq![v[0]] + v.drop_first() =~= v);
    }
}

/// Decoding the wire form of an article gives back the same record: every
/// text, the authors in order, and nothing left over.
pub proof fn lemma_wire_round_trip(a: ArticleView)
    ensures
        decoded(wire(a)) == Some(a),
{
    let t6 = Seq::<char>::empty();
    let t5 = wire_text(a.source);
    let t4 = wire_text(a.summary) + t5;
    let t3 = wire_text(a.published_date) + t4;
    let t2 = wire_text(a.url) + t3;
    let t1 = wire_list(a.authors) + t2;
    assert(wire(a) =~= wire_text(a.title) + t1);
    assert(t5 =~= wire_text(a.source) + t6);
    lemma_scan_text(a.title, t1);
    lemma_scan_list(a.authors, t2);
    lemma_scan_text(a.url, t3);
    lemma_scan_text(a.published_date, t4);
    lemma_scan_text(a.summary, t5);
    lemma_scan_text(a.source, t6);
}

proof fn lemma_prepend_assoc(a: Seq<char>, b: Seq<char>, o: Option<(Seq<char>, Seq<char>)>)
    ensures
        prepend(a, prepend(b, o)) == prepend(a + b, o),
{
    if let Some((x, r)) = o {
        assert(a + (b + x) =~= (a + b) + x);
    }
}

proof fn lemma_prepend_list_assoc(
    a: Seq<Seq<char>>,
    b: Seq<Seq<char>>,
    o: Option<(Seq<Seq<char>>, Seq<char>)>,
)
    ensures
        prepend_list(a, prepend_list(b, o)) == prepend_list(a + b, o),
{
    if let Some((x, r)) = o {
        assert(a + (b + x) =~= (a + b) + x);
    }
}

fn push_wire_text(r: &mut String, s: &String)
    ensures
        final(r)@ == old(r)@ + wire_text(s@),
{
    let ghost start = r@;
    let text = s.as_str();
    let n = text.unicode_len();
    let mut i: usize = 0;
    assert(s@.take(0) =~= Seq::<char>::empty());
    while i < n
        invariant
            i <= n,
            n == s@.len(),
            text@ == s@,
            r@ == start + escaped(s@.take(i as int)),
        decreases n - i,
    {
        let c = text.get_char(i);
        if c == '\\' || c == ';' {
            r.push('\\');
        }
        r.push(c);
        proof {
            lemma_escaped_push(s@.take(i as int), c);
            assert(s@.take(i + 1) =~= s@.take(i as int).push(c));
            assert(r@ =~= start + escaped(s@.take(i + 1)));
        }
        i = i + 1;
    }
    r.push(';');
    assert(s@.take(n as int) =~= s@);
    assert(r@ =~= start + wire_text(s@));
}

fn read_text(s: &str, n: usize, pos: usize) -> (r: Option<(String, usize)>)
    requires
        n == s@.len(),
        pos <= n,
    ensures
        match r {
            Some((x, p)) => pos < p <= n && scan_text(s@.subrange(pos as int, n as int)) == Some(
                (x@, s@.subrange(p as int, n as int)),
            ),
            None => scan_text(s@.subrange(pos as int, n as int)) is None,
        },
{
    let mut acc = String::new();
    let mut p: usize = pos;
    assert(acc@ + Seq::<char>::empty() =~= acc@);
    assert forall|o: Option<(Seq<char>, Seq<char>)>| prepend(Seq::<char>::empty(), o) == o by {
        if let Some((x, r)) = o {
            assert(Seq::<char>::empty() + x =~= x);
        }
    }
    while p < n
        invariant
            pos <= p <= n,
            n == s@.len(),
            scan_text(s@.subrange(pos as int, n as int)) == prepend(
                acc@,
                scan_text(s@.subrange(p as int, n as int)),
            ),
        decreases n - p,
    {
        let ghost t = s@.subrange(p as int, n as int);
        let ghost before = acc@;
        let c = s.get_char(p);
        assert(t[0] == c);
        if c == ';' {
            assert(t.drop_first() =~= s@.subrange(p + 1, n as int));
            assert(acc@ + Seq::<char>::empty() =~= acc@);
            return Some((acc, p + 1));
        }
        if c == '\\' {
            if p + 1 >= n {
                return None;
            }
            let d = s.get_char(p + 1);
            assert(t[1] == d);
            acc.push(d);
            assert(t.subrange(2, t.len() as int) =~= s@.subrange(p + 2, n as int));
            proof {
                lemma_prepend_assoc(before, seq![d], scan_text(s@.subrange(p + 2, n as int)));
                assert(before + seq![d] =~= acc@);
            }
            p = p + 2;
        } else {
            acc.push(c);
            assert(t.drop_first() =~= s@.subrange(p + 1, n as int));
            proof {
                lemma_prepend_assoc(before, seq![c], scan_text(s@.subrange(p + 1, n as int)));
                assert(before + seq![c] =~= acc@);
            }
            p = p + 1;
        }
    }
    assert(s@.subrange(p as int, n as int).len() == 0);
    None
}

fn read_list(s: &str, n: usize, pos: usize) -> (r: Option<(Vec<String>, usize)>)
    requires
        n == s@.len(),
        pos <= n,
    ensures
        match r {
            Some((v, p)) => pos < p <= n && scan_list(s@.subrange(pos as int, n as int)) == Some(
                (strings_view(v@), s@.subrange(p as int, n as int)),
            ),
            None => scan_list(s@.subrange(pos as int, n as int)) is None,
        },
{
    let mut acc: Vec<String> = Vec::new();
    let mut p: usize = pos;
    assert(strings_view(acc@) =~= Seq::<Seq<char>>::empty());
    assert forall|o: Option<(Seq<Seq<char>>, Seq<char>)>|
        prepend_list(Seq::<Seq<char>>::empty(), o) == o by {
        if let Some((x, r)) = o {
            assert(Seq::<Seq<char>>::empty() + x =~= x);
        }
    }
    while p < n
        invariant
            pos <= p <= n,
            n == s@.len(),
            scan_list(s@.subrange(pos as int, n as int)) == prepend_list(
                strings_view(acc@),
                scan_list(s@.subrange(p as int, n as int)),
            ),
        decreases n - p,
    {
        let ghost t = s@.subrange(p as int, n as int);
        let ghost before = strings_view(acc@);
        let c = s.get_char(p);
        assert(t[0] == c);
        if c == '.' {
            assert(t.drop_first() =~= s@.subrange(p + 1, n as int));
            assert(before + Seq::<Seq<char>>::empty() =~= before);
            return Some((acc, p + 1));
        } else if c == '+' {
            assert(t.drop_first() =~= s@.subrange(p + 1, n as int));
            match read_text(s, n, p + 1) {
                Some((x, q)) => {
                    let ghost xv = x@;
                    acc.push(x);
                    proof {
                        lemma_prepend_list_assoc(
                            before,
                            seq![xv],
                            scan_list(s@.subrange(q as int, n as int)),
                        );
                        assert(strings_view(acc@) =~= before + seq![xv]);
                    }
                    p = q;
                },
                None => {
                    return None;
                },
            }
        } else {
            return None;
        }
    }
    assert(s@.subrange(p as int, n as int).len() == 0);
    None
}

impl Article {
    /// The article's wire form.
    pub fn to_wire(&self) -> (r: String)
        ensures
            r@ == wire(self@),
    {
        let mut r = String::new();
        push_wire_text(&mut r, &self.title);
        let mut i: usize = 0;
        let ghost authors = strings_view(self.authors@);
        assert(authors.take(0) =~= Seq::<Seq<char>>::empty());
        let ghost mid = r@;
        while i < self.authors.len()
            invariant
                i <= self.authors.len(),
                authors == strings_view(self.authors@),
                r@ == mid + wire_items(authors.take(i as int)),
            decreases self.authors.len() - i,
        {
            r.push('+');
            push_wire_text(&mut r, &self.authors[i]);
            proof {
                lemma_items_push(authors.take(i as int), authors[i as int]);
                assert(authors.take(i + 1) =~= authors.take(i as int).push(authors[i as int]));
                assert(r@ =~= mid + wire_items(authors.take(i + 1)));
            }
            i = i + 1;
        }
        r.push('.');
        assert(authors.take(self.authors.len() as int) =~= authors);
        push_wire_text(&mut r, &self.url);
        push_wire_text(&mut r, &self.published_date);
        push_wire_text(&mut r, &self.summary);
        push_wire_text(&mut r, &self.source);
        assert(r@ =~= wire(self@));
        r
    }

    /// The article whose wire form `s` is, if it is one.
    pub fn from_wire(s: &str) -> (r: Option<Article>)
        ensures
            match r {
                Some(a) => decoded(s@) == Some(a@),
                None => decoded(s@) is None,
            },
    {
        let n = s.unicode_len();
        assert(s@.subrange(0, n as int) =~= s@);
        let (title, at_authors) = match read_text(s, n, 0) {
            Some(x) => x,
            None => return None,
        };
        let (authors, at_url) = match read_list(s, n, at_authors) {
            Some(x) => x,
            None => return None,
        };
        let (url, at_date) = match read_text(s, n, at_url) {
            Some(x) => x,
            None => return None,
        };
        let (published_date, at_summary) = match read_text(s, n, at_date) {
            Some(x) => x,
            None => return None,
        };
        let (summary, at_source) = match read_text(s, n, at_summary) {
            Some(x) => x,
            None => return None,
        };
        let (source, end) = match read_text(s, n, at_source) {
            Some(x) => x,
            None => return None,
        };
        if end != n {
            return None;
        }
        Some(Article { title, authors, url, published_date, summary, source })
    }
}

} // verus!
