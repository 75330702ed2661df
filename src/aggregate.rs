//! Running one or all registered collectors for a request and merging what
//! they return, tolerating the failure of some of them.

use vstd::prelude::*;
use vstd::string::*;

use crate::article::{Article, ArticleView, articles_view, strings_view};
use crate::collectors::CollectionError;

verus! {

/// What `str::to_lowercase` makes of a text.
pub uninterp spec fn lower_of(s: Seq<char>) -> Seq<char>;

/// Relies on `str::to_lowercase`: the lowercase form, a function of the
/// characters alone.
#[verifier::external_body]
fn lowercase(s: &str) -> (r: String)
    ensures
        r@ == lower_of(s@),
{
    s.to_lowercase()
}

/// Whether a registered name answers to a requested one, ignoring case.
pub open spec fn names_match(name: Seq<char>, requested: Seq<char>) -> bool {
    lower_of(name) == lower_of(requested)
}

/// The scope word that selects every registered collector.
pub open spec fn all_scope() -> Seq<char> {
    "all"@
}

/// Which collectors a request runs.
#[derive(Debug, Clone, Copy, PartialEq, Eq)]
pub enum Selection {
    /// Every registered collector, in registry order.
    All,
    /// The one at this position of the registry.
    One(usize),
}

/// Why a request produced no articles at all.
#[derive(Debug, Clone, PartialEq, Eq)]
pub enum AggregateError {
    /// No registered collector answers to this name.
    UnknownSource(String),
    /// The one collector asked for failed.
    Collection(CollectionError),
}

/// A failure recorded while collecting from every source.
#[derive(Debug, Clone)]
pub struct SourceError {
    /// The failing collector's name.
    pub source: String,
    pub error: CollectionError,
}

impl View for SourceError {
    type V = (Seq<char>, CollectionError);

    open spec fn view(&self) -> (Seq<char>, CollectionError) {
        (self.source@, self.error)
    }
}

/// The articles of a request, with the failures it tolerated.
#[derive(Debug, Clone)]
pub struct Aggregation {
    pub articles: Vec<Article>,
    pub errors: Vec<SourceError>,
}

pub ghost struct AggregationView {
    pub articles: Seq<ArticleView>,
    pub errors: Seq<(Seq<char>, CollectionError)>,
}

impl View for Aggregation {
    type V = AggregationView;

    open spec fn view(&self) -> AggregationView {
        AggregationView {
            articles: articles_view(self.articles@),
            errors: self.errors@.map_values(|e: SourceError| e@),
        }
    }
}

/// What one collector's run came to.
pub open spec fn outcome_view(o: Result<Vec<Article>, CollectionError>) -> Result<
    Seq<ArticleView>,
    CollectionError,
> {
    match o {
        Ok(v) => Ok(articles_view(v@)),
        Err(e) => Err(e),
    }
}

pub open spec fn outcomes_view(v: Seq<Result<Vec<Article>, CollectionError>>) -> Seq<
    Result<Seq<ArticleView>, CollectionError>,
> {
    v.map_values(|o: Result<Vec<Article>, CollectionError>| outcome_view(o))
}

/// The articles of the successful runs, in run order, each run's own order kept.
pub open spec fn merged(outs: Seq<Result<Seq<ArticleView>, CollectionError>>) -> Seq<ArticleView>
    decreases outs.len(),
{
    if outs.len() == 0 {
        Seq::empty()
    } else {
        merged(outs.drop_last()) + match outs.last() {
            Ok(v) => v,
            Err(_) => Seq::empty(),
        }
    }
}

/// One record per failed run, naming its collector, in run order.
pub open spec fn failures(
    names: Seq<Seq<char>>,
    outs: Seq<Result<Seq<ArticleView>, CollectionError>>,
) -> Seq<(Seq<char>, CollectionError)>
    decreases outs.len(),
{
    if outs.len() == 0 {
        Seq::empty()
    } else {
        failures(names, outs.drop_last()) + match outs.last() {
            Ok(_) => Seq::empty(),
            Err(e) => seq![(names[outs.len() - 1], e)],
        }
    }
}

/// The position of the first registered name that answers to `requested`.
pub fn find_collector(names: &Vec<String>, requested: &str) -> (r: Option<usize>)
    ensures
        match r {
            Some(i) => i < names.len() && names_match(names@[i as int]@, requested@) && forall|
                j: int,
            |
                0 <= j < i ==> !names_match(#[trigger] names@[j]@, requested@),
            None => forall|j: int|
                0 <= j < names.len() ==> !names_match(#[trigger] names@[j]@, requested@),
        },
{
    let wanted = lowercase(requested);
    let mut i: usize = 0;
    while i < names.len()
        invariant
            i <= names.len(),
            wanted@ == lower_of(requested@),
            forall|j: int| 0 <= j < i ==> !names_match(#[trigger] names@[j]@, requested@),
        decreases names.len() - i,
    {
        let candidate = lowercase(names[i].as_str());
        if candidate == wanted {
            return Some(i);
        }
        i = i + 1;
    }
    None
}

/// Chooses the collectors for a request: every one for the scope word `all`,
/// else the first whose name answers to `source`, ignoring case.
pub fn select(names: &Vec<String>, source: &str) -> (r: Result<Selection, AggregateError>)
    ensures
        source@ == all_scope() ==> r == Ok::<Selection, AggregateError>(Selection::All),
        source@ != all_scope() ==> match r {
            Ok(Selection::One(i)) => i < names.len() && names_match(names@[i as int]@, source@)
                && forall|j: int|
                0 <= j < i ==> !names_match(#[trigger] names@[j]@, source@),
            Ok(Selection::All) => false,
            Err(AggregateError::UnknownSource(s)) => s@ == source@ && forall|j: int|
                0 <= j < names.len() ==> !names_match(#[trigger] names@[j]@, source@),
            Err(AggregateError::Collection(_)) => false,
        },
{
    let scope = String::from_str(source);
    if scope == String::from_str("all") {
        return Ok(Selection::All);
    }
    match find_collector(names, source) {
        Some(i) => Ok(Selection::One(i)),
        None => Err(AggregateError::UnknownSource(scope)),
    }
}

/// Merges the outcomes of running every registered collector, in registry
/// order: the successes' articles are concatenated and each failure is recorded
/// under its collector's name without stopping the rest.
pub fn merge_outcomes(names: &Vec<String>, outcomes: Vec<Result<Vec<Article>, CollectionError>>) -> (r:
    Aggregation)
    requires
        outcomes.len() == names.len(),
    ensures
        r@.articles == merged(outcomes_view(outcomes@)),
        r@.errors == failures(strings_view(names@), outcomes_view(outcomes@)),
{
    let ghost outs = outcomes_view(outcomes@);
    let ghost nv = strings_view(names@);
    let mut rest = outcomes;
    let mut articles: Vec<Article> = Vec::new();
    let mut errors: Vec<SourceError> = Vec::new();
    let mut i: usize = 0;
    while i < names.len()
        invariant
            i <= names.len(),
            rest.len() == names.len() - i,
            outs.len() == names.len(),
            nv == strings_view(names@),
            forall|k: int| 0 <= k < rest.len() ==> outs[i + k] == outcome_view(#[trigger] rest@[k]),
            articles_view(articles@) == merged(outs.take(i as int)),
            errors@.map_values(|e: SourceError| e@) == failures(nv, outs.take(i as int)),
        decreases names.len() - i,
    {
        let ghost before_a = articles_view(articles@);
        let ghost before_e = errors@.map_values(|e: SourceError| e@);
        let ghost rest_before = rest@;
        let outcome = rest.remove(0);
        proof {
            assert(outs[i as int] == outcome_view(outcome)) by {
                assert(outcome == rest_before[0]);
            }
            assert forall|k: int| 0 <= k < rest.len() implies outs[i + 1 + k] == outcome_view(
                #[trigger] rest@[k],
            ) by {
                assert(rest@[k] == rest_before[k + 1]);
            }
            assert(outs.take(i + 1).drop_last() =~= outs.take(i as int));
            assert(outs.take(i + 1).last() == outs[i as int]);
        }
        match outcome {
            Ok(v) => {
                let mut v = v;
                let ghost added = articles_view(v@);
                articles.append(&mut v);
                assert(articles_view(articles@) =~= before_a + added);
                assert(errors@.map_values(|e: SourceError| e@) =~= before_e);
            },
            Err(e) => {
                let ghost err = e;
                errors.push(SourceError { source: names[i].clone(), error: e });
                assert(errors@.map_values(|e: SourceError| e@) =~= before_e + seq![(nv[i as int], err)]);
            },
        }
        i = i + 1;
    }
    assert(outs.take(names.len() as int) =~= outs);
    Aggregation { articles, errors }
}

/// What a request comes to, given the selection and the outcomes of the runs it made.
pub open spec fn aggregate_result(
    names: Seq<Seq<char>>,
    selection: Selection,
    outs: Seq<Result<Seq<ArticleView>, CollectionError>>,
) -> Result<AggregationView, AggregateError> {
    match selection {
        Selection::All => Ok(AggregationView { articles: merged(outs), errors: failures(names, outs) }),
        Selection::One(_) => match outs[0] {
            Ok(v) => Ok(AggregationView { articles: v, errors: Seq::empty() }),
            Err(e) => Err(AggregateError::Collection(e)),
        },
    }
}

pub open spec fn aggregation_result_view(r: Result<Aggregation, AggregateError>) -> Result<
    AggregationView,
    AggregateError,
> {
    match r {
        Ok(a) => Ok(a@),
        Err(e) => Err(e),
    }
}

/// How many runs a selection asks for.
pub open spec fn runs_for(selection: Selection, registered: nat) -> nat {
    match selection {
        Selection::All => registered,
        Selection::One(_) => 1,
    }
}

/// Finishes a request from the outcomes of the runs that `selection` asked for,
/// in registry order: under `All` failures are recorded and the rest merged;
/// for one source its failure is the request's failure.
pub fn aggregate(
    names: &Vec<String>,
    selection: Selection,
    outcomes: Vec<Result<Vec<Article>, CollectionError>>,
) -> (r: Result<Aggregation, AggregateError>)
    requires
        outcomes.len() == runs_for(selection, names.len() as nat),
        selection matches Selection::One(i) ==> i < names.len(),
    ensures
        aggregation_result_view(r) == aggregate_result(
            strings_view(names@),
            selection,
            outcomes_view(outcomes@),
        ),
{
    match selection {
        Selection::All => Ok(merge_outcomes(names, outcomes)),
        Selection::One(_) => {
            let mut outcomes = outcomes;
            let ghost first = outcomes@[0];
            let outcome = outcomes.remove(0);
            assert(outcome == first);
            match outcome {
                Ok(articles) => {
                    let r = Aggregation { articles, errors: Vec::new() };
                    assert(r@.errors =~= Seq::<(Seq<char>, CollectionError)>::empty());
                    Ok(r)
                },
                Err(e) => Err(AggregateError::Collection(e)),
            }
        },
    }
}

/// Collecting from a registry of two sources where one fails and the other
/// succeeds yields exactly the successful source's articles and exactly one
/// recorded failure, under the failing source's name: the failure never empties
/// the result by itself.
pub proof fn lemma_partial_failure(
    names: Seq<Seq<char>>,
    outs: Seq<Result<Seq<ArticleView>, CollectionError>>,
)
    requires
        names.len() == 2,
        outs.len() == 2,
        (outs[0] is Ok && outs[1] is Err) || (outs[0] is Err && outs[1] is Ok),
    ensures
        ({
            let good: int = if outs[0] is Ok { 0 } else { 1 };
            let bad: int = 1 - good;
            aggregate_result(names, Selection::All, outs) == Ok::<
                AggregationView,
                AggregateError,
            >(
                AggregationView {
                    articles: outs[good]->Ok_0,
                    errors: seq![(names[bad], outs[bad]->Err_0)],
                },
            )
        }),
{
    reveal_with_fuel(merged, 3);
    reveal_with_fuel(failures, 3);
    let o1 = outs.drop_last();
    assert(o1.drop_last() =~= Seq::<Result<Seq<ArticleView>, CollectionError>>::empty());
    assert(o1.last() == outs[0]);
    if outs[0] is Ok {
        assert(merged(outs) =~= outs[0]->Ok_0);
        assert(failures(names, outs) =~= seq![(names[1], outs[1]->Err_0)]);
    } else {
        assert(merged(outs) =~= outs[1]->Ok_0);
        assert(failures(names, outs) =~= seq![(names[0], outs[0]->Err_0)]);
    }
}

} // verus!
