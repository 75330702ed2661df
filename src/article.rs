//! The normalized article record that every collector produces.

use vstd::prelude::*;

verus! {

/// One collected article or paper.
#[derive(Debug, Clone)]
pub struct Article {
    pub title: String,
    pub authors: Vec<String>,
    pub url: String,
    pub published_date: String,
    pub summary: String,
    pub source: String,
}

/// The mathematical value of an [`Article`]: its fields as character sequences.
pub ghost struct ArticleView {
    pub title: Seq<char>,
    pub authors: Seq<Seq<char>>,
    pub url: Seq<char>,
    pub published_date: Seq<char>,
    pub summary: Seq<char>,
    pub source: Seq<char>,
}

/// The character sequences held by a list of strings.
pub open spec fn strings_view(v: Seq<String>) -> Seq<Seq<char>> {
    v.map_values(|s: String| s@)
}

/// The views of a list of articles.
pub open spec fn articles_view(v: Seq<Article>) -> Seq<ArticleView> {
    v.map_values(|a: Article| a@)
}

impl View for Article {
    type V = ArticleView;

    open spec fn view(&self) -> ArticleView {
        ArticleView {
            title: self.title@,
            authors: strings_view(self.authors@),
            url: self.url@,
            published_date: self.published_date@,
            summary: self.summary@,
            source: self.source@,
        }
    }
}

} // verus!
