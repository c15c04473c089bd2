//! The primitive queries that the index understands, and the functions that
//! lower the values of the structured query language into them.

use crate::engine::queries::{engine_regex, regex_compiles};
use crate::terms::{Bound, Ordered, Primary, SearchTerm, TermTree};
use vstd::prelude::*;

verus! {

/// A column of the index, by its position in the schema.
#[derive(Clone, Copy, Debug, PartialEq, Eq, Structural)]
pub struct Field(pub u32);

/// A point in time: microseconds since the Unix epoch, in UTC.
pub type Timestamp = i64;

/// A numeric score, held as the index's own order-preserving integer key:
/// a score is less than another exactly when its key is.
pub type ScoreKey = u64;

/// How a clause of a boolean query takes part in the match.
#[derive(Clone, Copy, Debug, PartialEq, Eq, Structural)]
pub enum Occur {
    /// A document that matches the clause scores higher.
    Should,
    /// Only a document that matches the clause is a hit.
    Must,
    /// No document that matches the clause is a hit.
    MustNot,
}

/// A primitive query.
#[derive(Debug, PartialEq, Eq)]
pub enum Query {
    /// Every document.
    All,
    /// The field holds the term.
    Term { field: Field, text: String },
    /// The field holds a term that the pattern matches as a whole.
    Regex { field: Field, pattern: String },
    /// The field holds a date between the bounds. The bounds are kept in
    /// microseconds as they were given; the engine compares dates in whole
    /// seconds, so it cuts each endpoint, and each indexed date, down to its
    /// second before comparing.
    DateRange { field: Field, lower: Bound<Timestamp>, upper: Bound<Timestamp> },
    /// The field holds a score between the bounds.
    ScoreRange { field: Field, least: Bound<ScoreKey>, most: Bound<ScoreKey> },
    /// A combination of queries.
    Boolean { clauses: Vec<Clause> },
}

/// One clause of a boolean query.
#[derive(Debug, PartialEq, Eq)]
pub struct Clause {
    pub occur: Occur,
    pub query: Query,
}

/// The mathematical form of a [`Query`].
pub enum QueryView {
    All,
    Term { field: Field, text: Seq<char> },
    Regex { field: Field, pattern: Seq<char> },
    /// The endpoints as given, in microseconds. The engine cuts them to
    /// whole seconds when it evaluates the range.
    DateRange { field: Field, lower: Bound<Timestamp>, upper: Bound<Timestamp> },
    ScoreRange { field: Field, least: Bound<ScoreKey>, most: Bound<ScoreKey> },
    Boolean { clauses: Seq<(Occur, QueryView)> },
}

impl Query {
    /// The query as a mathematical value.
    pub open spec fn shape(self) -> QueryView
        decreases self,
    {
        match self {
            Query::All => QueryView::All,
            Query::Term { field, text } => QueryView::Term { field, text: text@ },
            Query::Regex { field, pattern } => QueryView::Regex { field, pattern: pattern@ },
            Query::DateRange { field, lower, upper } => QueryView::DateRange { field, lower, upper },
            Query::ScoreRange { field, least, most } => QueryView::ScoreRange { field, least, most },
            Query::Boolean { clauses } => QueryView::Boolean {
                clauses: Seq::new(
                    clauses.len() as nat,
                    |i: int|
                        if 0 <= i < clauses.len() {
                            (clauses[i].occur, clauses[i].query.shape())
                        } else {
                            (Occur::Should, QueryView::All)
                        },
                ),
            },
        }
    }
}

impl View for Query {
    type V = QueryView;

    open spec fn view(&self) -> QueryView {
        self.shape()
    }
}

/// Whether every field that a query names is among the first `n` fields.
pub open spec fn fields_below(query: QueryView, n: nat) -> bool
    decreases query,
{
    match query {
        QueryView::All => true,
        QueryView::Term { field, .. } => field.0 < n,
        QueryView::Regex { field, .. } => field.0 < n,
        QueryView::DateRange { field, .. } => field.0 < n,
        QueryView::ScoreRange { field, .. } => field.0 < n,
        QueryView::Boolean { clauses } => forall|i: int|
            0 <= i < clauses.len() ==> fields_below((#[trigger] clauses[i]).1, n),
    }
}

impl Query {
    /// Tests whether every field that the query names is among the first
    /// `n` fields.
    pub fn names_fields_below(&self, n: usize) -> (below: bool)
        ensures
            below == fields_below(self@, n as nat),
        decreases self,
    {
        match self {
            Query::All => true,
            Query::Term { field, .. } => (field.0 as usize) < n,
            Query::Regex { field, .. } => (field.0 as usize) < n,
            Query::DateRange { field, .. } => (field.0 as usize) < n,
            Query::ScoreRange { field, .. } => (field.0 as usize) < n,
            Query::Boolean { clauses } => {
                let mut i: usize = 0;
                while i < clauses.len()
                    invariant
                        *self == (Query::Boolean { clauses: *clauses }),
                        i <= clauses.len(),
                        forall|j: int| 0 <= j < i ==> fields_below(clauses[j].query@, n as nat),
                    decreases clauses.len() - i,
                {
                    assert(decreases_to!(*self => clauses[i as int].query)) by {
                        assert(*self is Boolean && self->Boolean_clauses == *clauses);
                        assert(decreases_to!(*self => self->Boolean_clauses));
                        assert(decreases_to!(*clauses => clauses[i as int]));
                        assert(decreases_to!(clauses[i as int] => clauses[i as int].query));
                    }
                    if !clauses[i].query.names_fields_below(n) {
                        assert(self@->Boolean_clauses[i as int].1 == clauses[i as int].query@);
                        return false;
                    }
                    i += 1;
                }
                assert forall|j: int| 0 <= j < clauses.len() implies fields_below(
                    (#[trigger] self@->Boolean_clauses[j]).1,
                    n as nat,
                ) by {
                    assert(self@->Boolean_clauses[j].1 == clauses[j].query@);
                }
                true
            },
        }
    }
}

/// A boolean query whose clauses all occur in the same way.
pub open spec fn uniform(occur: Occur, queries: Seq<QueryView>) -> QueryView {
    QueryView::Boolean { clauses: Seq::new(queries.len(), |i: int| (occur, queries[i])) }
}

/// The union of some queries: a document matches if it matches one of them.
pub open spec fn union_of(queries: Seq<QueryView>) -> QueryView {
    uniform(Occur::Should, queries)
}

/// Builds the union of two queries.
pub fn union_two(first: Query, second: Query) -> (q: Query)
    ensures
        q@ == union_of(seq![first@, second@]),
{
    let mut clauses: Vec<Clause> = Vec::new();
    clauses.push(Clause { occur: Occur::Should, query: first });
    clauses.push(Clause { occur: Occur::Should, query: second });
    let q = Query::Boolean { clauses };
    assert(q@->Boolean_clauses =~= union_of(seq![first@, second@])->Boolean_clauses);
    q
}

/// The unanchored pattern that finds `value` anywhere inside a term.
pub open spec fn partial_pattern(value: Seq<char>) -> Seq<char> {
    seq!['.', '*'] + value + seq!['.', '*']
}

/// The query for a primary value on a field of atomic strings, given
/// whether the index accepts the pattern of a partial match.
///
/// An exact value is one term. A partial value is the union of the pattern
/// that finds it inside a term, if the pattern is accepted, and of the
/// term itself.
pub open spec fn string_query(field: Field, primary: Primary, pattern_accepted: bool) -> QueryView {
    match primary {
        Primary::Equal(value) => QueryView::Term { field, text: value@ },
        Primary::Partial(value) => {
            let term = QueryView::Term { field, text: value@ };
            if pattern_accepted {
                union_of(seq![QueryView::Regex { field, pattern: partial_pattern(value@) }, term])
            } else {
                union_of(seq![term])
            }
        },
    }
}

/// The pattern for a partial match of `value`.
pub fn make_partial_pattern(value: &str) -> (pattern: String)
    ensures
        pattern@ == partial_pattern(value@),
{
    proof {
        reveal_strlit(".*");
    }
    let mut pattern = String::from_str(".*");
    pattern.append(value);
    pattern.append(".*");
    assert(pattern@ =~= partial_pattern(value@));
    pattern
}

/// Builds the query for a primary value on a field of atomic strings, when
/// it is known whether the index accepts the pattern of a partial match.
pub fn string_query_from(field: Field, primary: &Primary, pattern_accepted: bool) -> (q: Query)
    ensures
        q@ == string_query(field, *primary, pattern_accepted),
{
    match primary {
        Primary::Equal(value) => Query::Term { field, text: value.clone() },
        Primary::Partial(value) => {
            let term = Query::Term { field, text: value.clone() };
            if pattern_accepted {
                let pattern = make_partial_pattern(value.as_str());
                union_two(Query::Regex { field, pattern }, term)
            } else {
                let mut clauses: Vec<Clause> = Vec::new();
                clauses.push(Clause { occur: Occur::Should, query: term });
                let q = Query::Boolean { clauses };
                assert(q@->Boolean_clauses =~= string_query(
                    field,
                    *primary,
                    pattern_accepted,
                )->Boolean_clauses) by {
                    assert(clauses[0].query.shape() == QueryView::Term { field, text: value@ });
                }
                q
            }
        },
    }
}

/// Lowers a primary value to a query on a field of atomic strings. For a
/// partial value the engine is asked whether it takes the pattern.
pub fn create_string_query(field: Field, primary: &Primary) -> (q: Query)
    ensures
        q@ == string_query(field, *primary, regex_compiles(partial_pattern(primary.text()))),
{
    match primary {
        Primary::Equal(_) => string_query_from(field, primary, false),
        Primary::Partial(value) => {
            let pattern = make_partial_pattern(value.as_str());
            let accepted = engine_regex(field, pattern.as_str()).is_some();
            string_query_from(field, primary, accepted)
        },
    }
}

/// The query for a primary value on a tokenized text field: the term,
/// whatever the kind of match, since the field's text is split into terms
/// when it is indexed.
pub open spec fn text_query(field: Field, primary: Primary) -> QueryView {
    QueryView::Term { field, text: primary.text() }
}

/// Lowers a primary value to a query on a tokenized text field.
pub fn create_text_query(field: Field, primary: &Primary) -> (q: Query)
    ensures
        q@ == text_query(field, *primary),
{
    match primary {
        Primary::Equal(value) => Query::Term { field, text: value.clone() },
        Primary::Partial(value) => Query::Term { field, text: value.clone() },
    }
}

/// A term of the index: a text that a field may hold.
#[derive(Clone, Debug, PartialEq, Eq)]
pub struct IndexTerm {
    pub field: Field,
    pub text: String,
}

/// The boolean query of one clause, in which the term occurs as `occur`.
pub open spec fn boolean_query(occur: Occur, term: IndexTerm) -> QueryView {
    QueryView::Boolean {
        clauses: seq![(occur, QueryView::Term { field: term.field, text: term.text@ })],
    }
}

/// Wraps a term into a boolean query of a single clause.
pub fn create_boolean_query(occur: Occur, term: IndexTerm) -> (q: Query)
    ensures
        q@ == boolean_query(occur, term),
{
    let mut clauses: Vec<Clause> = Vec::new();
    clauses.push(Clause { occur, query: Query::Term { field: term.field, text: term.text } });
    let q = Query::Boolean { clauses };
    assert(q@->Boolean_clauses =~= boolean_query(occur, term)->Boolean_clauses) by {
        assert(clauses[0].query.shape() == QueryView::Term { field: term.field, text: term.text@ });
    }
    q
}

/// Applies a function to the endpoint of a bound, if it has one.
pub fn bound_map<F: FnOnce(T) -> R, T, R>(bound: Bound<T>, func: F) -> (mapped: Bound<R>)
    requires
        bound matches Bound::Included(v) ==> call_requires(func, (v,)),
        bound matches Bound::Excluded(v) ==> call_requires(func, (v,)),
    ensures
        match bound {
            Bound::Included(v) => mapped matches Bound::Included(r) && call_ensures(func, (v,), r),
            Bound::Excluded(v) => mapped matches Bound::Excluded(r) && call_ensures(func, (v,), r),
            Bound::Unbounded => mapped is Unbounded,
        },
{
    match bound {
        Bound::Included(v) => Bound::Included(func(v)),
        Bound::Excluded(v) => Bound::Excluded(func(v)),
        Bound::Unbounded => Bound::Unbounded,
    }
}

/// The number of microseconds in a day.
pub const MICROS_PER_DAY: i64 = 86_400_000_000;

/// The first microsecond of the UTC day that `t` lies in.
pub open spec fn day_start(t: int) -> int {
    t - t % (MICROS_PER_DAY as int)
}

/// The first microsecond of the UTC day after the one that `t` lies in.
pub open spec fn next_day_start(t: int) -> int {
    day_start(t) + MICROS_PER_DAY
}

/// The lower bound of the day of `t`, as far as a timestamp can hold it.
pub open spec fn day_lower(t: Timestamp) -> Bound<Timestamp> {
    if day_start(t as int) < i64::MIN {
        Bound::Included(i64::MIN)
    } else {
        Bound::Included(day_start(t as int) as i64)
    }
}

/// The upper bound of the day of `t`, as far as a timestamp can hold it.
pub open spec fn day_upper(t: Timestamp) -> Bound<Timestamp> {
    if next_day_start(t as int) > i64::MAX {
        Bound::Included(i64::MAX)
    } else {
        Bound::Excluded(next_day_start(t as int) as i64)
    }
}

/// The range query for a comparison against a date.
///
/// Equality with a date means the UTC day of that date, from its midnight
/// up to, and without, the next midnight.
pub open spec fn date_query(field: Field, value: Ordered<Timestamp>) -> QueryView {
    match value {
        Ordered::Less(e) => QueryView::DateRange {
            field,
            lower: Bound::Unbounded,
            upper: Bound::Excluded(e),
        },
        Ordered::LessEqual(e) => QueryView::DateRange {
            field,
            lower: Bound::Unbounded,
            upper: Bound::Included(e),
        },
        Ordered::Greater(e) => QueryView::DateRange {
            field,
            lower: Bound::Excluded(e),
            upper: Bound::Unbounded,
        },
        Ordered::GreaterEqual(e) => QueryView::DateRange {
            field,
            lower: Bound::Included(e),
            upper: Bound::Unbounded,
        },
        Ordered::Equal(e) => QueryView::DateRange { field, lower: day_lower(e), upper: day_upper(e) },
        Ordered::Range(from, to) => QueryView::DateRange { field, lower: from, upper: to },
    }
}

/// The number of microseconds between the midnight before `t` and `t`.
pub fn micros_into_day(t: Timestamp) -> (since: i64)
    ensures
        since == (t as int) % (MICROS_PER_DAY as int),
        0 <= since < MICROS_PER_DAY,
        day_start(t as int) == t - since,
{
    let since: i64 = if t >= 0 {
        t % MICROS_PER_DAY
    } else {
        let below: i64 = -(t + 1);
        MICROS_PER_DAY - 1 - below % MICROS_PER_DAY
    };
    assert(since == (t as int) % (MICROS_PER_DAY as int)) by {
        if t < 0 {
            let d = MICROS_PER_DAY as int;
            let k = -(t as int + 1);
            vstd::arithmetic::div_mod::lemma_fundamental_div_mod(k, d);
            let r = d - 1 - k % d;
            assert(t as int == d * (-(k / d) - 1) + r) by (nonlinear_arith)
                requires
                    k == d * (k / d) + k % d,
                    r == d - 1 - k % d,
                    t as int == -k - 1,
            ;
            vstd::arithmetic::div_mod::lemma_fundamental_div_mod_converse(
                t as int,
                d,
                -(k / d) - 1,
                r,
            );
        }
    }
    since
}

/// Lowers a comparison against a date to a range query on a date field.
pub fn create_date_query(field: Field, value: &Ordered<Timestamp>) -> (q: Query)
    ensures
        q@ == date_query(field, *value),
{
    match value {
        Ordered::Less(e) => Query::DateRange {
            field,
            lower: Bound::Unbounded,
            upper: Bound::Excluded(*e),
        },
        Ordered::LessEqual(e) => Query::DateRange {
            field,
            lower: Bound::Unbounded,
            upper: Bound::Included(*e),
        },
        Ordered::Greater(e) => Query::DateRange {
            field,
            lower: Bound::Excluded(*e),
            upper: Bound::Unbounded,
        },
        Ordered::GreaterEqual(e) => Query::DateRange {
            field,
            lower: Bound::Included(*e),
            upper: Bound::Unbounded,
        },
        Ordered::Equal(e) => {
            let since = micros_into_day(*e);
            let until: i64 = MICROS_PER_DAY - since;
            let lower = if *e < i64::MIN + since {
                Bound::Included(i64::MIN)
            } else {
                Bound::Included(*e - since)
            };
            let upper = if *e > i64::MAX - until {
                Bound::Included(i64::MAX)
            } else {
                Bound::Excluded(*e + until)
            };
            Query::DateRange { field, lower, upper }
        },
        Ordered::Range(from, to) => Query::DateRange {
            field,
            lower: copy_bound(from),
            upper: copy_bound(to),
        },
    }
}

fn copy_bound(bound: &Bound<Timestamp>) -> (copy: Bound<Timestamp>)
    ensures
        copy == *bound,
{
    match bound {
        Bound::Included(v) => Bound::Included(*v),
        Bound::Excluded(v) => Bound::Excluded(*v),
        Bound::Unbounded => Bound::Unbounded,
    }
}

/// Whether a timestamp lies on the right side of a lower bound.
pub open spec fn above(lower: Bound<Timestamp>, t: Timestamp) -> bool {
    match lower {
        Bound::Included(l) => l <= t,
        Bound::Excluded(l) => l < t,
        Bound::Unbounded => true,
    }
}

/// Whether a timestamp lies on the right side of an upper bound.
pub open spec fn below(upper: Bound<Timestamp>, t: Timestamp) -> bool {
    match upper {
        Bound::Included(u) => t <= u,
        Bound::Excluded(u) => t < u,
        Bound::Unbounded => true,
    }
}

/// Whether a timestamp lies between the endpoints of a date range query,
/// both taken exactly, in microseconds. This speaks of the query as a
/// value. The engine evaluates such a query in whole seconds: it cuts the
/// endpoints and the indexed dates down to their seconds first, so for
/// endpoints or dates that are not whole seconds what it finds may differ
/// from this within one second.
pub open spec fn admits(q: QueryView, t: Timestamp) -> bool {
    q matches QueryView::DateRange { lower, upper, .. } && above(lower, t) && below(upper, t)
}

/// Equality with a date is the half-open range from the midnight of its UTC
/// day to the next midnight: the query admits exactly the timestamps of
/// that day, and where both midnights are timestamps it is the range query
/// between them. Midnights are whole seconds, so the engine's cut to
/// seconds leaves these endpoints as they are; an indexed date is still
/// compared by its second.
pub proof fn lemma_date_equal_is_day_range(field: Field, d: Timestamp)
    ensures
        forall|t: Timestamp|
            admits(date_query(field, Ordered::Equal(d)), t) <==> day_start(d as int) <= t
                < next_day_start(d as int),
        i64::MIN <= day_start(d as int) && next_day_start(d as int) <= i64::MAX ==> date_query(
            field,
            Ordered::Equal(d),
        ) == date_query(
            field,
            Ordered::Range(
                Bound::Included(day_start(d as int) as i64),
                Bound::Excluded(next_day_start(d as int) as i64),
            ),
        ),
{
    assert(day_start(d as int) <= d < next_day_start(d as int));
}

/// Whether `f` may be called on every resource of the tree.
pub open spec fn accepts<R, F: Fn(&R) -> Query>(f: F, term: TermTree<R>) -> bool
    decreases term,
{
    match term {
        TermTree::Match(r) => call_requires(f, (&r,)),
        TermTree::Not(t) => accepts(f, *t),
        TermTree::And(ts) => forall|i: int| 0 <= i < ts.len() ==> accepts(f, #[trigger] ts[i]),
        TermTree::Or(ts) => forall|i: int| 0 <= i < ts.len() ==> accepts(f, #[trigger] ts[i]),
    }
}

/// Whether `q` is a lowering of the tree, where `f` lowers the resources:
/// a match is what `f` gives for its resource, a negation is the boolean
/// query of one must-not clause, a conjunction is the intersection and a
/// disjunction the union of the lowered terms, in their order.
pub open spec fn lowers_to<R, F: Fn(&R) -> Query>(f: F, term: TermTree<R>, q: QueryView) -> bool
    decreases term,
{
    match term {
        TermTree::Match(r) => exists|out: Query| call_ensures(f, (&r,), out) && out@ == q,
        TermTree::Not(t) => {
            &&& q is Boolean
            &&& q->Boolean_clauses.len() == 1
            &&& q->Boolean_clauses[0].0 == Occur::MustNot
            &&& lowers_to(f, *t, q->Boolean_clauses[0].1)
        },
        TermTree::And(ts) => {
            &&& q is Boolean
            &&& q->Boolean_clauses.len() == ts.len()
            &&& forall|i: int|
                0 <= i < ts.len() ==> (#[trigger] q->Boolean_clauses[i]).0 == Occur::Must
                    && lowers_to(f, ts[i], q->Boolean_clauses[i].1)
        },
        TermTree::Or(ts) => {
            &&& q is Boolean
            &&& q->Boolean_clauses.len() == ts.len()
            &&& forall|i: int|
                0 <= i < ts.len() ==> (#[trigger] q->Boolean_clauses[i]).0 == Occur::Should
                    && lowers_to(f, ts[i], q->Boolean_clauses[i].1)
        },
    }
}

/// Lowers a tree of search terms to a query. `f` lowers the resource of a
/// single match.
pub fn term2query<R, F: Fn(&R) -> Query>(term: &SearchTerm<R>, f: &F) -> (q: Query)
    requires
        accepts(*f, term@),
    ensures
        lowers_to(*f, term@, q@),
    decreases term,
{
    match term {
        SearchTerm::Match(resource) => f(resource),
        SearchTerm::Not(inner) => {
            let lowered = term2query(inner, f);
            let mut clauses: Vec<Clause> = Vec::new();
            clauses.push(Clause { occur: Occur::MustNot, query: lowered });
            Query::Boolean { clauses }
        },
        SearchTerm::And(terms) => {
            assert forall|i: int| 0 <= i < terms.len() implies accepts(
                *f,
                (#[trigger] terms[i])@,
            ) by {
                assert(term@->And_0[i] == terms[i]@);
            }
            let clauses = lower_all(terms, f, Occur::Must);
            let q = Query::Boolean { clauses };
            assert forall|i: int| 0 <= i < terms.len() implies (#[trigger] q@->Boolean_clauses[i]).0
                == Occur::Must && lowers_to(*f, term@->And_0[i], q@->Boolean_clauses[i].1) by {
                assert(term@->And_0[i] == terms[i]@);
                assert(clauses[i].occur == Occur::Must);
            }
            q
        },
        SearchTerm::Or(terms) => {
            assert forall|i: int| 0 <= i < terms.len() implies accepts(
                *f,
                (#[trigger] terms[i])@,
            ) by {
                assert(term@->Or_0[i] == terms[i]@);
            }
            let clauses = lower_all(terms, f, Occur::Should);
            let q = Query::Boolean { clauses };
            assert forall|i: int| 0 <= i < terms.len() implies (#[trigger] q@->Boolean_clauses[i]).0
                == Occur::Should && lowers_to(*f, term@->Or_0[i], q@->Boolean_clauses[i].1) by {
                assert(term@->Or_0[i] == terms[i]@);
                assert(clauses[i].occur == Occur::Should);
            }
            q
        },
    }
}

/// Lowers each term of a list to a clause that occurs as `occur`.
fn lower_all<R, F: Fn(&R) -> Query>(terms: &Vec<SearchTerm<R>>, f: &F, occur: Occur) -> (clauses: Vec<
    Clause,
>)
    requires
        forall|i: int| 0 <= i < terms.len() ==> accepts(*f, (#[trigger] terms[i])@),
    ensures
        clauses.len() == terms.len(),
        forall|i: int|
            0 <= i < terms.len() ==> (#[trigger] clauses[i]).occur == occur && lowers_to(
                *f,
                terms[i]@,
                clauses[i].query@,
            ),
    decreases terms,
{
    let mut clauses: Vec<Clause> = Vec::new();
    let mut i: usize = 0;
    while i < terms.len()
        invariant
            i <= terms.len(),
            clauses.len() == i,
            forall|j: int| 0 <= j < terms.len() ==> accepts(*f, (#[trigger] terms[j])@),
            forall|j: int|
                0 <= j < i ==> (#[trigger] clauses[j]).occur == occur && lowers_to(
                    *f,
                    terms[j]@,
                    clauses[j].query@,
                ),
        decreases terms.len() - i,
    {
        let lowered = term2query(&terms[i], f);
        clauses.push(Clause { occur, query: lowered });
        i += 1;
    }
    clauses
}

/// The lowering of a tree where the lowering of a resource is a function
/// of the resource.
pub open spec fn lowered<R>(each: spec_fn(R) -> QueryView, term: TermTree<R>) -> QueryView
    decreases term,
{
    match term {
        TermTree::Match(r) => each(r),
        TermTree::Not(t) => QueryView::Boolean { clauses: seq![(Occur::MustNot, lowered(each, *t))] },
        TermTree::And(ts) => QueryView::Boolean {
            clauses: Seq::new(
                ts.len(),
                |i: int|
                    (
                        Occur::Must,
                        if 0 <= i < ts.len() {
                            lowered(each, ts[i])
                        } else {
                            QueryView::All
                        },
                    ),
            ),
        },
        TermTree::Or(ts) => QueryView::Boolean {
            clauses: Seq::new(
                ts.len(),
                |i: int|
                    (
                        Occur::Should,
                        if 0 <= i < ts.len() {
                            lowered(each, ts[i])
                        } else {
                            QueryView::All
                        },
                    ),
            ),
        },
    }
}

/// Where what `f` gives is a function of the resource, a tree has one
/// lowering.
pub proof fn lemma_lowering_is_determined<R, F: Fn(&R) -> Query>(
    f: F,
    each: spec_fn(R) -> QueryView,
    term: TermTree<R>,
    q: QueryView,
)
    requires
        forall|r: R, out: Query| call_ensures(f, (&r,), out) ==> out@ == each(r),
        lowers_to(f, term, q),
    ensures
        q == lowered(each, term),
    decreases term,
{
    match term {
        TermTree::Match(r) => {},
        TermTree::Not(t) => {
            lemma_lowering_is_determined(f, each, *t, q->Boolean_clauses[0].1);
            assert(q->Boolean_clauses =~= lowered(each, term)->Boolean_clauses);
        },
        TermTree::And(ts) => {
            assert forall|i: int| 0 <= i < ts.len() implies q->Boolean_clauses[i] == lowered(
                each,
                term,
            )->Boolean_clauses[i] by {
                lemma_lowering_is_determined(f, each, ts[i], q->Boolean_clauses[i].1);
            }
            assert(q->Boolean_clauses =~= lowered(each, term)->Boolean_clauses);
        },
        TermTree::Or(ts) => {
            assert forall|i: int| 0 <= i < ts.len() implies q->Boolean_clauses[i] == lowered(
                each,
                term,
            )->Boolean_clauses[i] by {
                lemma_lowering_is_determined(f, each, ts[i], q->Boolean_clauses[i].1);
            }
            assert(q->Boolean_clauses =~= lowered(each, term)->Boolean_clauses);
        },
    }
}

/// A function that may be called on every resource may be called on every
/// resource of a tree.
pub proof fn lemma_accepts_all<R, F: Fn(&R) -> Query>(f: F, term: TermTree<R>)
    requires
        forall|r: R| call_requires(f, (&r,)),
    ensures
        accepts(f, term),
    decreases term,
{
    match term {
        TermTree::Match(r) => {},
        TermTree::Not(t) => {
            lemma_accepts_all(f, *t);
        },
        TermTree::And(ts) => {
            assert forall|i: int| 0 <= i < ts.len() implies accepts(f, #[trigger] ts[i]) by {
                lemma_accepts_all(f, ts[i]);
            }
        },
        TermTree::Or(ts) => {
            assert forall|i: int| 0 <= i < ts.len() implies accepts(f, #[trigger] ts[i]) by {
                lemma_accepts_all(f, ts[i]);
            }
        },
    }
}

} // verus!
