//! Queries as the search engine runs them. The engine's query is a boolean
//! query throughout: a query that is none is held as the boolean query of
//! one clause that must match.

use crate::query::{Clause, Field, Occur, Query, QueryView, ScoreKey, Timestamp};
use crate::terms::Bound;
use vstd::prelude::*;

verus! {

/// The engine's boolean query.
#[verifier::external_type_specification]
#[verifier::external_body]
pub struct ExBooleanQuery(tantivy::query::BooleanQuery);

/// An endpoint of a range of the standard library.
#[verifier::external_type_specification]
#[verifier::external_body]
#[verifier::reject_recursive_types(T)]
pub struct ExStdBound<T>(std::ops::Bound<T>);

/// The clauses that an engine query holds, in order.
pub uninterp spec fn engine_clauses(query: tantivy::query::BooleanQuery) -> Seq<(Occur, QueryView)>;

/// Whether, in the index with the given key, the engine finds the document
/// by the boolean query of the given clauses.
pub uninterp spec fn engine_finds(
    key: int,
    clauses: Seq<(Occur, QueryView)>,
    doc: Seq<crate::document::Entry>,
) -> bool;

/// Whether the engine takes a text as a regular expression.
pub uninterp spec fn regex_compiles(pattern: Seq<char>) -> bool;

/// The endpoint as the standard library writes it.
#[verifier::external_body]
fn std_bound<T: Copy>(bound: &Bound<T>) -> std::ops::Bound<T> {
    match bound {
        Bound::Included(v) => std::ops::Bound::Included(*v),
        Bound::Excluded(v) => std::ops::Bound::Excluded(*v),
        Bound::Unbounded => std::ops::Bound::Unbounded,
    }
}

/// `AllQuery`, as the one clause of a `BooleanQuery::new`: a query that
/// matches every document of every index.
#[verifier::external_body]
fn engine_all() -> (query: tantivy::query::BooleanQuery)
    ensures
        engine_clauses(query) == seq![(Occur::Must, QueryView::All)],
        forall|key: int, doc: Seq<crate::document::Entry>|
            engine_finds(key, #[trigger] engine_clauses(query), doc),
{
    let all = Box::new(tantivy::query::AllQuery);
    tantivy::query::BooleanQuery::new(vec![(tantivy::query::Occur::Must, all)])
}

/// `TermQuery::new` on the term that `Term::from_field_text` makes, with the
/// basic record option, as the one clause of a `BooleanQuery::new`.
#[verifier::external_body]
fn engine_term(field: Field, text: &str) -> (query: tantivy::query::BooleanQuery)
    ensures
        engine_clauses(query) == seq![(Occur::Must, QueryView::Term { field, text: text@ })],
{
    let term = tantivy::Term::from_field_text(tantivy::schema::Field::from_field_id(field.0), text);
    let leaf = tantivy::query::TermQuery::new(term, tantivy::schema::IndexRecordOption::Basic);
    tantivy::query::BooleanQuery::new(vec![(tantivy::query::Occur::Must, Box::new(leaf))])
}

/// `RegexQuery::from_pattern`, as the one clause of a `BooleanQuery::new`.
/// It fails where the engine does not take the pattern as a regular
/// expression, which depends on the pattern alone.
#[verifier::external_body]
pub(crate) fn engine_regex(field: Field, pattern: &str) -> (query: Option<
    tantivy::query::BooleanQuery,
>)
    ensures
        match query {
            Some(q) => regex_compiles(pattern@) && engine_clauses(q) == seq![
                (Occur::Must, QueryView::Regex { field, pattern: pattern@ }),
            ],
            None => !regex_compiles(pattern@),
        },
{
    let field = tantivy::schema::Field::from_field_id(field.0);
    match tantivy::query::RegexQuery::from_pattern(pattern, field) {
        Ok(leaf) => Some(
            tantivy::query::BooleanQuery::new(vec![(tantivy::query::Occur::Must, Box::new(leaf))]),
        ),
        Err(_) => None,
    }
}

/// `RangeQuery::new_term_bounds` over dates, between the terms that
/// `Term::from_field_date` makes of the endpoints, as the one clause of a
/// `BooleanQuery::new`. The contract names the clause by the endpoints that
/// were handed in. `Term::from_field_date` cuts a date down to its whole
/// second, so the engine evaluates the range between the cut endpoints;
/// what it finds is given by `engine_finds`, not by comparing microseconds.
#[verifier::external_body]
fn engine_date_range(field: Field, lower: &Bound<Timestamp>, upper: &Bound<Timestamp>) -> (query:
    tantivy::query::BooleanQuery)
    ensures
        engine_clauses(query) == seq![
            (Occur::Must, QueryView::DateRange { field, lower: *lower, upper: *upper }),
        ],
{
    let f = tantivy::schema::Field::from_field_id(field.0);
    let term = |t| tantivy::Term::from_field_date(f, tantivy::DateTime::from_timestamp_micros(t));
    let (lower, upper) = (std_bound(lower).map(term), std_bound(upper).map(term));
    let kind = tantivy::schema::Type::Date;
    let leaf = tantivy::query::RangeQuery::new_term_bounds(f, kind, &lower, &upper);
    tantivy::query::BooleanQuery::new(vec![(tantivy::query::Occur::Must, Box::new(leaf))])
}

/// `RangeQuery::new_f64_bounds`, between the numbers whose keys the
/// endpoints are by `tantivy::u64_to_f64`, as the one clause of a
/// `BooleanQuery::new`. The engine compares the numbers by their keys.
#[verifier::external_body]
fn engine_score_range(field: Field, least: &Bound<ScoreKey>, most: &Bound<ScoreKey>) -> (query:
    tantivy::query::BooleanQuery)
    ensures
        engine_clauses(query) == seq![
            (Occur::Must, QueryView::ScoreRange { field, least: *least, most: *most }),
        ],
{
    let f = tantivy::schema::Field::from_field_id(field.0);
    let least = std_bound(least).map(tantivy::u64_to_f64);
    let most = std_bound(most).map(tantivy::u64_to_f64);
    let leaf = tantivy::query::RangeQuery::new_f64_bounds(f, least, most);
    tantivy::query::BooleanQuery::new(vec![(tantivy::query::Occur::Must, Box::new(leaf))])
}

/// `BooleanQuery::new`: the clauses are the given queries, each with its
/// way of taking part, in order.
#[verifier::external_body]
fn engine_boolean(occurs: &Vec<Occur>, queries: Vec<tantivy::query::BooleanQuery>) -> (query:
    tantivy::query::BooleanQuery)
    requires
        occurs.len() == queries.len(),
    ensures
        engine_clauses(query) == Seq::new(
            queries.len() as nat,
            |i: int| (occurs[i], QueryView::Boolean { clauses: engine_clauses(queries[i]) }),
        ),
{
    let clause = |(occur, query): (&Occur, tantivy::query::BooleanQuery)| {
        let occur = match occur {
            Occur::Should => tantivy::query::Occur::Should,
            Occur::Must => tantivy::query::Occur::Must,
            Occur::MustNot => tantivy::query::Occur::MustNot,
        };
        (occur, Box::new(query) as Box<dyn tantivy::query::Query>)
    };
    tantivy::query::BooleanQuery::new(occurs.iter().zip(queries).map(clause).collect())
}

/// The clauses of the engine query that stands for a query: a boolean query
/// keeps its clauses, each standing for its own query; a pattern that the
/// engine does not take stands for no clause at all, and matches nothing;
/// any other query is the one clause, which must match.
pub open spec fn embedded(query: QueryView) -> Seq<(Occur, QueryView)>
    decreases query,
{
    match query {
        QueryView::Boolean { clauses } => Seq::new(
            clauses.len(),
            |i: int|
                if 0 <= i < clauses.len() {
                    (clauses[i].0, QueryView::Boolean { clauses: embedded(clauses[i].1) })
                } else {
                    (Occur::Should, QueryView::All)
                },
        ),
        QueryView::Regex { field, pattern } => if regex_compiles(pattern) {
            seq![(Occur::Must, query)]
        } else {
            Seq::empty()
        },
        _ => seq![(Occur::Must, query)],
    }
}

/// Hands a query to the engine.
pub fn to_engine_query(query: &Query) -> (engine: tantivy::query::BooleanQuery)
    ensures
        engine_clauses(engine) == embedded(query@),
        query@ is All ==> forall|key: int, doc: Seq<crate::document::Entry>|
            engine_finds(key, #[trigger] engine_clauses(engine), doc),
    decreases query,
{
    match query {
        Query::All => engine_all(),
        Query::Term { field, text } => engine_term(*field, text.as_str()),
        Query::Regex { field, pattern } => match engine_regex(*field, pattern.as_str()) {
            Some(engine) => engine,
            None => {
                let engine = engine_boolean(&Vec::new(), Vec::new());
                assert(engine_clauses(engine) =~= Seq::empty());
                engine
            },
        },
        Query::DateRange { field, lower, upper } => engine_date_range(*field, lower, upper),
        Query::ScoreRange { field, least, most } => engine_score_range(*field, least, most),
        Query::Boolean { clauses } => {
            let mut occurs: Vec<Occur> = Vec::new();
            let mut queries: Vec<tantivy::query::BooleanQuery> = Vec::new();
            let mut i: usize = 0;
            while i < clauses.len()
                invariant
                    *query == (Query::Boolean { clauses: *clauses }),
                    i <= clauses.len(),
                    occurs.len() == i,
                    queries.len() == i,
                    forall|j: int| 0 <= j < i ==> occurs[j] == clauses[j].occur,
                    forall|j: int|
                        0 <= j < i ==> engine_clauses(#[trigger] queries[j]) == embedded(
                            clauses[j].query@,
                        ),
                decreases clauses.len() - i,
            {
                let clause: &Clause = &clauses[i];
                assert(decreases_to!(query => clause.query)) by {
                    assert(*query is Boolean && query->Boolean_clauses == *clauses);
                    assert(decreases_to!(*query => query->Boolean_clauses));
                    assert(decreases_to!(*clauses => clauses[i as int]));
                    assert(decreases_to!(clauses[i as int] => clauses[i as int].query));
                }
                occurs.push(clause.occur);
                queries.push(to_engine_query(&clause.query));
                i += 1;
            }
            let engine = engine_boolean(&occurs, queries);
            assert(engine_clauses(engine) =~= embedded(query@));
            engine
        },
    }
}

} // verus!
