//! The query language of the advisory index: reading a query text into a
//! tree of search terms over the resources of an advisory.

use crate::query::{ScoreKey, Timestamp};
use crate::terms::{Bound, Ordered, PartialOrdered, Primary, SearchTerm, TermTree};
use sikula::lir::{FromExpression, Ordered as Compared, PartialOrdered as PartlyCompared, QualifierContext};
use sikula::chumsky::Parser;
use sikula::mir;
use vstd::prelude::*;

verus! {

/// A term of the query parser.
#[verifier::external_type_specification]
#[verifier::external_body]
pub struct ExParsedTerm<'a>(sikula::mir::Term<'a>);

/// An expression of the query parser.
#[verifier::external_type_specification]
#[verifier::external_body]
pub struct ExParsedExpression<'a>(sikula::mir::Expression<'a>);

/// A qualifier of the query parser.
#[verifier::external_type_specification]
#[verifier::external_body]
pub struct ExParsedQualifier<'a>(sikula::mir::Qualifier<'a>);

/// A request for a sorting of the query parser.
#[verifier::external_type_specification]
#[verifier::external_body]
pub struct ExParsedSort<'a>(sikula::mir::Sort<'a>);

/// What a term of a query text asks of its qualifier.
#[derive(Debug, PartialEq, Eq)]
pub enum RawExpression {
    /// Nothing: the term is a predicate, as in `is:final`.
    Predicate,
    /// A value.
    Simple(String),
}

/// A term of a query text as the parser structures it, before its
/// qualifier is given a meaning.
#[derive(Debug, PartialEq, Eq)]
pub struct RawTerm {
    pub qualifier: Vec<String>,
    /// The term is negated.
    pub invert: bool,
    pub expression: RawExpression,
}

/// A request to sort the hits.
#[derive(Debug, PartialEq, Eq)]
pub struct RawSort {
    pub qualifier: Vec<String>,
    pub descending: bool,
}

/// A query text as the parser structures it: its terms, the scopes that it
/// names with `in:`, and the sortings that it asks for.
#[derive(Debug, PartialEq, Eq)]
pub struct RawQuery {
    pub terms: Vec<RawTerm>,
    pub scope: Vec<Vec<String>>,
    pub sorting: Vec<RawSort>,
}

/// What the query parser makes of a text: its structure, or the message of
/// the parser's error.
pub uninterp spec fn parsed_query(q: Seq<char>) -> Result<RawQuery, String>;

/// What the query parser makes of a comparison against a date: the
/// comparison, with the date in microseconds, or the message of the
/// parser's error.
pub uninterp spec fn date_expression(text: Seq<char>) -> Result<Ordered<Timestamp>, String>;

/// What the query parser makes of a comparison against a number: the
/// comparison, with the number as its key, or the message of the parser's
/// error.
pub uninterp spec fn score_expression(text: Seq<char>) -> Result<PartialOrdered<ScoreKey>, String>;

/// The parts of a qualifier of the query parser.
#[verifier::external_body]
fn qualifier_names(qualifier: &sikula::mir::Qualifier<'_>) -> Vec<String> {
    qualifier.0.iter().map(|name| name.to_string()).collect()
}

/// An expression of the query parser, variant for variant.
#[verifier::external_body]
fn raw_expression(expression: sikula::mir::Expression<'_>) -> RawExpression {
    match expression {
        mir::Expression::Predicate => RawExpression::Predicate,
        mir::Expression::Simple(value) => RawExpression::Simple(value.to_string()),
    }
}

/// A term of the query parser, field for field.
#[verifier::external_body]
fn raw_term(term: sikula::mir::Term<'_>) -> RawTerm {
    let qualifier = qualifier_names(&term.qualifier);
    RawTerm { qualifier, invert: term.invert, expression: raw_expression(term.expression) }
}

/// A request for a sorting of the query parser, field for field.
#[verifier::external_body]
fn raw_sort(sort: sikula::mir::Sort<'_>) -> RawSort {
    let descending = sort.direction == mir::Direction::Descending;
    RawSort { qualifier: qualifier_names(&sort.qualifier), descending }
}

/// `sikula::parser::parser`, run on the text, and `sikula::mir::Query::parse`
/// of what it gives: the structure of a query text. The errors of the
/// parser are joined into the message of `sikula::lir::Error::Parser`. The
/// outcome is a function of the text alone.
#[verifier::external_body]
fn parse_raw(q: &str) -> (parsed: Result<RawQuery, String>)
    ensures
        parsed == parsed_query(q@),
{
    let failed = |errors: Vec<_>| {
        let lines: Vec<String> = errors.into_iter().map(|e| format!("{e}")).collect();
        sikula::lir::Error::Parser(lines.join("\n")).to_string()
    };
    let tokens = Parser::parse(&sikula::parser::parser(), q).into_result().map_err(failed)?;
    let query = mir::Query::parse(tokens).map_err(|e| e.to_string())?;
    Ok(RawQuery {
        terms: query.terms.into_iter().map(raw_term).collect(),
        scope: query.scope.iter().map(qualifier_names).collect(),
        sorting: query.sorting.into_iter().map(raw_sort).collect(),
    })
}

/// An endpoint of a range, from the way the standard library writes it.
#[verifier::external_body]
fn own_bound<T>(bound: std::ops::Bound<T>) -> Bound<T> {
    match bound {
        std::ops::Bound::Included(v) => Bound::Included(v),
        std::ops::Bound::Excluded(v) => Bound::Excluded(v),
        std::ops::Bound::Unbounded => Bound::Unbounded,
    }
}

/// `FromExpression::from_expression` of `sikula::lir::Ordered` over dates,
/// for a value behind a qualifier; the dates are turned into microseconds
/// by `tantivy::DateTime::from_utc`. The outcome is a function of the text
/// alone.
#[verifier::external_body]
fn parse_date_expression(text: &str) -> (parsed: Result<Ordered<Timestamp>, String>)
    ensures
        parsed == date_expression(text@),
{
    let at = |t: time::OffsetDateTime| tantivy::DateTime::from_utc(t).into_timestamp_micros();
    let parsed = FromExpression::from_expression(QualifierContext::Qualifier, mir::Qualifier::empty(), text);
    Ok(match parsed.map_err(|e| e.to_string())? {
        Compared::Equal(t) => Ordered::Equal(at(t)),
        Compared::Greater(t) => Ordered::Greater(at(t)),
        Compared::GreaterEqual(t) => Ordered::GreaterEqual(at(t)),
        Compared::Less(t) => Ordered::Less(at(t)),
        Compared::LessEqual(t) => Ordered::LessEqual(at(t)),
        Compared::Range(a, b) => Ordered::Range(own_bound(a.map(at)), own_bound(b.map(at))),
    })
}

/// `FromExpression::from_expression` of `sikula::lir::PartialOrdered` over
/// numbers, for a value behind a qualifier; the numbers are turned into
/// their keys by `tantivy::f64_to_u64`. The outcome is a function of the
/// text alone.
#[verifier::external_body]
fn parse_score_expression(text: &str) -> (parsed: Result<PartialOrdered<ScoreKey>, String>)
    ensures
        parsed == score_expression(text@),
{
    let key = tantivy::f64_to_u64;
    let parsed = FromExpression::from_expression(QualifierContext::Qualifier, mir::Qualifier::empty(), text);
    Ok(match parsed.map_err(|e| e.to_string())? {
        PartlyCompared::Greater(v) => PartialOrdered::Greater(key(v)),
        PartlyCompared::GreaterEqual(v) => PartialOrdered::GreaterEqual(key(v)),
        PartlyCompared::Less(v) => PartialOrdered::Less(key(v)),
        PartlyCompared::LessEqual(v) => PartialOrdered::LessEqual(key(v)),
        PartlyCompared::Range(a, b) => PartialOrdered::Range(own_bound(a.map(key)), own_bound(b.map(key))),
    })
}

/// What a search term of the advisory index matches against.
#[derive(Debug, PartialEq, Eq)]
pub enum Vulnerabilities {
    Id(Primary),
    Cve(Primary),
    Title(Primary),
    Description(Primary),
    Status(Primary),
    Severity(Primary),
    Cvss(PartialOrdered<ScoreKey>),
    Package(Primary),
    Fixed(Primary),
    Affected(Primary),
    Initial(Ordered<Timestamp>),
    Release(Ordered<Timestamp>),
    Discovery(Ordered<Timestamp>),
    Final,
    Critical,
    High,
    Medium,
    Low,
}

/// Where a value without a qualifier is searched for.
#[derive(Clone, Copy, Debug, PartialEq, Eq, Structural)]
pub enum Scope {
    Id,
    Cve,
    Title,
    Description,
}

/// The scopes of a query that names none.
pub open spec fn default_scopes() -> Seq<Scope> {
    seq![Scope::Id, Scope::Cve, Scope::Title, Scope::Description]
}

/// The parts of a qualifier, as texts.
pub open spec fn names_of(qualifier: Vec<String>) -> Seq<Seq<char>> {
    Seq::new(qualifier.len() as nat, |i: int| qualifier[i]@)
}

/// The parts of a qualifier, joined by colons.
pub open spec fn joined(names: Seq<Seq<char>>) -> Seq<char>
    decreases names.len(),
{
    if names.len() == 0 {
        Seq::empty()
    } else if names.len() == 1 {
        names[0]
    } else {
        joined(names.drop_last()) + seq![':'] + names.last()
    }
}

/// The scope that a qualifier names.
pub open spec fn scope_named(names: Seq<Seq<char>>) -> Option<Scope> {
    if names.len() != 1 {
        None
    } else if names[0] == "id"@ {
        Some(Scope::Id)
    } else if names[0] == "cve"@ {
        Some(Scope::Cve)
    } else if names[0] == "title"@ {
        Some(Scope::Title)
    } else if names[0] == "description"@ {
        Some(Scope::Description)
    } else {
        None
    }
}

/// The predicate that a qualifier names.
pub open spec fn predicate_named(names: Seq<Seq<char>>) -> Option<Vulnerabilities> {
    if names.len() != 1 {
        None
    } else if names[0] == "final"@ {
        Some(Vulnerabilities::Final)
    } else if names[0] == "critical"@ {
        Some(Vulnerabilities::Critical)
    } else if names[0] == "high"@ {
        Some(Vulnerabilities::High)
    } else if names[0] == "medium"@ {
        Some(Vulnerabilities::Medium)
    } else if names[0] == "low"@ {
        Some(Vulnerabilities::Low)
    } else {
        None
    }
}

/// The resource that a value without a qualifier is searched in, for one
/// scope: the value is to be found inside the resource.
pub open spec fn scoped(scope: Scope, value: String) -> Vulnerabilities {
    match scope {
        Scope::Id => Vulnerabilities::Id(Primary::Partial(value)),
        Scope::Cve => Vulnerabilities::Cve(Primary::Partial(value)),
        Scope::Title => Vulnerabilities::Title(Primary::Partial(value)),
        Scope::Description => Vulnerabilities::Description(Primary::Partial(value)),
    }
}

/// The term for a value without a qualifier: the disjunction of its
/// matches in the scopes.
pub open spec fn primaries(context: Seq<Scope>, value: String) -> TermTree<Vulnerabilities> {
    TermTree::Or(Seq::new(context.len(), |i: int| TermTree::Match(scoped(context[i], value))))
}

/// The message for a qualifier that has no meaning.
pub open spec fn unknown_qualifier(names: Seq<Seq<char>>) -> Seq<char> {
    "Unknown qualifier: "@ + joined(names)
}

/// The resource for a value behind a qualifier. The first part of the
/// qualifier names the resource, and there may be no further part. A
/// primary resource is to equal the value; a date or a score is compared as
/// the parser reads the comparison.
pub open spec fn qualified(names: Seq<Seq<char>>, value: String) -> Result<
    Vulnerabilities,
    Seq<char>,
>
    recommends
        names.len() > 0,
{
    let name = names[0];
    let rest = names.subrange(1, names.len() as int);
    let exact = Primary::Equal(value);
    let known = name == "id"@ || name == "cve"@ || name == "title"@ || name == "description"@
        || name == "status"@ || name == "severity"@ || name == "cvss"@ || name == "package"@
        || name == "fixed"@ || name == "affected"@ || name == "initial"@ || name == "release"@
        || name == "discovery"@;
    if !known {
        Err(unknown_qualifier(names))
    } else if rest.len() > 0 {
        Err(unknown_qualifier(rest))
    } else if name == "id"@ {
        Ok(Vulnerabilities::Id(exact))
    } else if name == "cve"@ {
        Ok(Vulnerabilities::Cve(exact))
    } else if name == "title"@ {
        Ok(Vulnerabilities::Title(exact))
    } else if name == "description"@ {
        Ok(Vulnerabilities::Description(exact))
    } else if name == "status"@ {
        Ok(Vulnerabilities::Status(exact))
    } else if name == "severity"@ {
        Ok(Vulnerabilities::Severity(exact))
    } else if name == "package"@ {
        Ok(Vulnerabilities::Package(exact))
    } else if name == "fixed"@ {
        Ok(Vulnerabilities::Fixed(exact))
    } else if name == "affected"@ {
        Ok(Vulnerabilities::Affected(exact))
    } else if name == "cvss"@ {
        match score_expression(value@) {
            Ok(compared) => Ok(Vulnerabilities::Cvss(compared)),
            Err(message) => Err(message@),
        }
    } else {
        match date_expression(value@) {
            Ok(compared) => Ok(
                if name == "initial"@ {
                    Vulnerabilities::Initial(compared)
                } else if name == "release"@ {
                    Vulnerabilities::Release(compared)
                } else {
                    Vulnerabilities::Discovery(compared)
                },
            ),
            Err(message) => Err(message@),
        }
    }
}

/// The term for one match of a query text.
pub open spec fn translated_match(
    context: Seq<Scope>,
    qualifier: Vec<String>,
    expression: RawExpression,
) -> Result<TermTree<Vulnerabilities>, Seq<char>> {
    let names = names_of(qualifier);
    match expression {
        RawExpression::Predicate => match predicate_named(names) {
            Some(predicate) => Ok(TermTree::Match(predicate)),
            None => Err("Unknown predicate: "@ + joined(names)),
        },
        RawExpression::Simple(value) => if names.len() == 0 {
            Ok(primaries(context, value))
        } else {
            match qualified(names, value) {
                Ok(resource) => Ok(TermTree::Match(resource)),
                Err(message) => Err(message),
            }
        },
    }
}

/// The scopes that some qualifiers name, up to the first `n` of them, or
/// the message for the first that names none.
pub open spec fn scopes_named(scopes: Vec<Vec<String>>, n: int) -> Result<Seq<Scope>, Seq<char>>
    decreases n,
{
    if n <= 0 || n > scopes.len() {
        Ok(Seq::empty())
    } else {
        match scopes_named(scopes, n - 1) {
            Err(message) => Err(message),
            Ok(before) => match scope_named(names_of(scopes[n - 1])) {
                Some(scope) => Ok(before.push(scope)),
                None => Err("Unknown scope qualifier: "@ + joined(names_of(scopes[n - 1]))),
            },
        }
    }
}

/// The search term for one term of a query text, read in the given
/// scopes, or the message for what has no meaning in it.
pub open spec fn translated(context: Seq<Scope>, term: RawTerm) -> Result<
    TermTree<Vulnerabilities>,
    Seq<char>,
> {
    match translated_match(context, term.qualifier, term.expression) {
        Ok(tree) => Ok(
            if term.invert {
                TermTree::Not(Box::new(tree))
            } else {
                tree
            },
        ),
        Err(message) => Err(message),
    }
}

/// The search terms for the first `n` terms of a query text, or the
/// message for the first of them that has no meaning.
pub open spec fn translated_all(context: Seq<Scope>, terms: Vec<RawTerm>, n: int) -> Result<
    Seq<TermTree<Vulnerabilities>>,
    Seq<char>,
>
    decreases n,
{
    if n <= 0 || n > terms.len() {
        Ok(Seq::empty())
    } else {
        match translated_all(context, terms, n - 1) {
            Err(message) => Err(message),
            Ok(before) => match translated(context, terms[n - 1]) {
                Ok(tree) => Ok(before.push(tree)),
                Err(message) => Err(message),
            },
        }
    }
}

/// The scopes in which a query is read: those that it names, and the
/// default scopes where it names none.
pub open spec fn scopes_of(raw: RawQuery) -> Result<Seq<Scope>, Seq<char>> {
    if raw.scope.len() == 0 {
        Ok(default_scopes())
    } else {
        scopes_named(raw.scope, raw.scope.len() as int)
    }
}

/// The search term for a structured query, or the message of its error:
/// the conjunction of its terms, read in its scopes, and the single term
/// where there is one. What is wrong with the scopes is told before what
/// is wrong with a term. A query that asks for a sorting has no search
/// term: the advisory index sorts by nothing.
pub open spec fn translated_query(raw: RawQuery) -> Result<TermTree<Vulnerabilities>, Seq<char>> {
    match scopes_of(raw) {
        Err(message) => Err(message),
        Ok(context) => match translated_all(context, raw.terms, raw.terms.len() as int) {
            Err(message) => Err(message),
            Ok(trees) => if raw.sorting.len() > 0 {
                Err("Unknown sort qualifier: "@ + joined(names_of(raw.sorting[0].qualifier)))
            } else {
                Ok(TermTree::And(trees).compacted())
            },
        },
    }
}

/// The search term of a query text, or the message of its error.
pub open spec fn query_terms(q: Seq<char>) -> Result<TermTree<Vulnerabilities>, Seq<char>> {
    match parsed_query(q) {
        Err(message) => Err(message@),
        Ok(raw) => translated_query(raw),
    }
}

/// Whether an outcome is the wanted one: the same success or the same
/// failure, as mathematical values.
pub open spec fn agrees<T: View, E: View>(got: Result<T, E>, want: Result<T::V, E::V>) -> bool {
    match got {
        Ok(value) => want == Ok::<T::V, E::V>(value@),
        Err(error) => want == Err::<T::V, E::V>(error@),
    }
}

/// Joins the parts of a qualifier from position `from` on by colons, behind
/// a prefix.
fn message(prefix: &str, names: &Vec<String>, from: usize) -> (text: String)
    requires
        from <= names.len(),
    ensures
        text@ == prefix@ + joined(names_of(*names).subrange(from as int, names.len() as int)),
{
    let ghost all = names_of(*names);
    let mut text = String::from_str(prefix);
    let mut i: usize = from;
    assert(all.subrange(from as int, from as int) =~= Seq::<Seq<char>>::empty());
    while i < names.len()
        invariant
            from <= i <= names.len(),
            all == names_of(*names),
            text@ == prefix@ + joined(all.subrange(from as int, i as int)),
        decreases names.len() - i,
    {
        if i > from {
            text.append(":");
            proof {
                reveal_strlit(":");
                assert(":"@ =~= seq![':']);
            }
        }
        text.append(names[i].as_str());
        proof {
            let next = all.subrange(from as int, i + 1);
            assert(next.drop_last() =~= all.subrange(from as int, i as int));
            assert(next.last() == names[i as int]@);
            assert(text@ =~= prefix@ + joined(next));
        }
        i += 1;
    }
    text
}

/// Tests whether a part of a qualifier is the given name.
fn part_is(names: &Vec<String>, i: usize, name: &str) -> (same: bool)
    requires
        i < names.len(),
    ensures
        same == (names_of(*names)[i as int] == name@),
{
    crate::schema::str_equal(names[i].as_str(), name)
}

/// The scope that a qualifier names.
fn scope_of(names: &Vec<String>) -> (scope: Option<Scope>)
    ensures
        scope == scope_named(names_of(*names)),
{
    if names.len() != 1 {
        None
    } else if part_is(names, 0, "id") {
        Some(Scope::Id)
    } else if part_is(names, 0, "cve") {
        Some(Scope::Cve)
    } else if part_is(names, 0, "title") {
        Some(Scope::Title)
    } else if part_is(names, 0, "description") {
        Some(Scope::Description)
    } else {
        None
    }
}

/// The predicate that a qualifier names.
fn predicate_of(names: &Vec<String>) -> (predicate: Option<Vulnerabilities>)
    ensures
        predicate == predicate_named(names_of(*names)),
{
    if names.len() != 1 {
        None
    } else if part_is(names, 0, "final") {
        Some(Vulnerabilities::Final)
    } else if part_is(names, 0, "critical") {
        Some(Vulnerabilities::Critical)
    } else if part_is(names, 0, "high") {
        Some(Vulnerabilities::High)
    } else if part_is(names, 0, "medium") {
        Some(Vulnerabilities::Medium)
    } else if part_is(names, 0, "low") {
        Some(Vulnerabilities::Low)
    } else {
        None
    }
}

/// The resource that a value without a qualifier is searched in, for one
/// scope.
fn scoped_resource(scope: Scope, value: &String) -> (resource: Vulnerabilities)
    ensures
        resource == scoped(scope, *value),
{
    match scope {
        Scope::Id => Vulnerabilities::Id(Primary::Partial(value.clone())),
        Scope::Cve => Vulnerabilities::Cve(Primary::Partial(value.clone())),
        Scope::Title => Vulnerabilities::Title(Primary::Partial(value.clone())),
        Scope::Description => Vulnerabilities::Description(Primary::Partial(value.clone())),
    }
}

/// The term for a value without a qualifier.
fn primary_terms(context: &Vec<Scope>, value: &String) -> (term: SearchTerm<Vulnerabilities>)
    ensures
        term@ == primaries(context@, *value),
{
    let mut terms: Vec<SearchTerm<Vulnerabilities>> = Vec::new();
    let mut i: usize = 0;
    while i < context.len()
        invariant
            i <= context.len(),
            terms.len() == i,
            forall|j: int|
                0 <= j < i ==> (#[trigger] terms[j])@ == TermTree::Match(scoped(context[j], *value)),
        decreases context.len() - i,
    {
        terms.push(SearchTerm::Match(scoped_resource(context[i], value)));
        i += 1;
    }
    let term = SearchTerm::Or(terms);
    assert(term@->Or_0 =~= primaries(context@, *value)->Or_0);
    term
}

/// The resource for a value behind a qualifier.
fn qualify(names: &Vec<String>, value: &String) -> (resource: Result<Vulnerabilities, String>)
    requires
        names.len() > 0,
    ensures
        match resource {
            Ok(found) => qualified(names_of(*names), *value) == Ok::<Vulnerabilities, Seq<char>>(
                found,
            ),
            Err(message) => qualified(names_of(*names), *value) == Err::<
                Vulnerabilities,
                Seq<char>,
            >(message@),
        },
{
    let id = part_is(names, 0, "id");
    let cve = part_is(names, 0, "cve");
    let title = part_is(names, 0, "title");
    let description = part_is(names, 0, "description");
    let status = part_is(names, 0, "status");
    let severity = part_is(names, 0, "severity");
    let cvss = part_is(names, 0, "cvss");
    let package = part_is(names, 0, "package");
    let fixed = part_is(names, 0, "fixed");
    let affected = part_is(names, 0, "affected");
    let initial = part_is(names, 0, "initial");
    let release = part_is(names, 0, "release");
    let discovery = part_is(names, 0, "discovery");
    let known = id || cve || title || description || status || severity || cvss || package || fixed
        || affected || initial || release || discovery;
    if !known {
        let text = message("Unknown qualifier: ", names, 0);
        assert(names_of(*names).subrange(0, names.len() as int) =~= names_of(*names));
        Err(text)
    } else if names.len() > 1 {
        Err(message("Unknown qualifier: ", names, 1))
    } else if id {
        Ok(Vulnerabilities::Id(Primary::Equal(value.clone())))
    } else if cve {
        Ok(Vulnerabilities::Cve(Primary::Equal(value.clone())))
    } else if title {
        Ok(Vulnerabilities::Title(Primary::Equal(value.clone())))
    } else if description {
        Ok(Vulnerabilities::Description(Primary::Equal(value.clone())))
    } else if status {
        Ok(Vulnerabilities::Status(Primary::Equal(value.clone())))
    } else if severity {
        Ok(Vulnerabilities::Severity(Primary::Equal(value.clone())))
    } else if package {
        Ok(Vulnerabilities::Package(Primary::Equal(value.clone())))
    } else if fixed {
        Ok(Vulnerabilities::Fixed(Primary::Equal(value.clone())))
    } else if affected {
        Ok(Vulnerabilities::Affected(Primary::Equal(value.clone())))
    } else if cvss {
        match parse_score_expression(value.as_str()) {
            Ok(compared) => Ok(Vulnerabilities::Cvss(compared)),
            Err(message) => Err(message),
        }
    } else {
        match parse_date_expression(value.as_str()) {
            Ok(compared) => Ok(
                if initial {
                    Vulnerabilities::Initial(compared)
                } else if release {
                    Vulnerabilities::Release(compared)
                } else {
                    Vulnerabilities::Discovery(compared)
                },
            ),
            Err(message) => Err(message),
        }
    }
}

/// Gives one match of a query text its meaning in the given scopes.
pub fn translate_match(context: &Vec<Scope>, qualifier: &Vec<String>, expression: &RawExpression) -> (result:
    Result<SearchTerm<Vulnerabilities>, String>)
    ensures
        agrees(result, translated_match(context@, *qualifier, *expression)),
{
    match expression {
        RawExpression::Predicate => match predicate_of(qualifier) {
            Some(predicate) => Ok(SearchTerm::Match(predicate)),
            None => {
                let text = message("Unknown predicate: ", qualifier, 0);
                assert(names_of(*qualifier).subrange(0, qualifier.len() as int) =~= names_of(
                    *qualifier,
                ));
                Err(text)
            },
        },
        RawExpression::Simple(value) => {
            if qualifier.len() == 0 {
                Ok(primary_terms(context, value))
            } else {
                match qualify(qualifier, value) {
                    Ok(resource) => Ok(SearchTerm::Match(resource)),
                    Err(message) => Err(message),
                }
            }
        },
    }
}

/// Once the reading of some scopes has failed, it fails the same way with
/// more of them.
proof fn lemma_scopes_fail_on(scopes: Vec<Vec<String>>, k: int, n: int)
    requires
        0 <= k <= n <= scopes.len(),
        scopes_named(scopes, k) is Err,
    ensures
        scopes_named(scopes, n) == scopes_named(scopes, k),
    decreases n - k,
{
    if k < n {
        lemma_scopes_fail_on(scopes, k, n - 1);
    }
}

/// Once the reading of some terms has failed, it fails the same way with
/// more of them.
proof fn lemma_terms_fail_on(context: Seq<Scope>, terms: Vec<RawTerm>, k: int, n: int)
    requires
        0 <= k <= n <= terms.len(),
        translated_all(context, terms, k) is Err,
    ensures
        translated_all(context, terms, n) == translated_all(context, terms, k),
    decreases n - k,
{
    if k < n {
        lemma_terms_fail_on(context, terms, k, n - 1);
    }
}

/// The scopes that some qualifiers name.
fn translate_scopes(scopes: &Vec<Vec<String>>) -> (result: Result<Vec<Scope>, String>)
    ensures
        match result {
            Ok(named) => scopes_named(*scopes, scopes.len() as int) == Ok::<Seq<Scope>, Seq<char>>(
                named@,
            ),
            Err(message) => scopes_named(*scopes, scopes.len() as int) == Err::<
                Seq<Scope>,
                Seq<char>,
            >(message@),
        },
{
    let mut named: Vec<Scope> = Vec::new();
    let mut i: usize = 0;
    while i < scopes.len()
        invariant
            i <= scopes.len(),
            scopes_named(*scopes, i as int) == Ok::<Seq<Scope>, Seq<char>>(named@),
        decreases scopes.len() - i,
    {
        match scope_of(&scopes[i]) {
            Some(scope) => named.push(scope),
            None => {
                let text = message("Unknown scope qualifier: ", &scopes[i], 0);
                proof {
                    let names = names_of(scopes[i as int]);
                    assert(names.subrange(0, names.len() as int) =~= names);
                    lemma_scopes_fail_on(*scopes, i + 1, scopes.len() as int);
                }
                return Err(text);
            },
        }
        i += 1;
    }
    Ok(named)
}

/// Gives one term of a query text its meaning in the given scopes.
pub fn translate(context: &Vec<Scope>, term: &RawTerm) -> (result: Result<
    SearchTerm<Vulnerabilities>,
    String,
>)
    ensures
        agrees(result, translated(context@, *term)),
{
    match translate_match(context, &term.qualifier, &term.expression) {
        Ok(tree) => Ok(
            if term.invert {
                SearchTerm::Not(Box::new(tree))
            } else {
                tree
            },
        ),
        Err(message) => Err(message),
    }
}

/// Gives the terms of a query text their meaning, in their order.
fn translate_all(context: &Vec<Scope>, terms: &Vec<RawTerm>) -> (result: Result<
    Vec<SearchTerm<Vulnerabilities>>,
    String,
>)
    ensures
        match result {
            Ok(trees) => translated_all(context@, *terms, terms.len() as int) matches Ok(want)
                && want.len() == trees.len() && forall|i: int|
                0 <= i < trees.len() ==> (#[trigger] trees[i])@ == want[i],
            Err(message) => translated_all(context@, *terms, terms.len() as int) == Err::<
                Seq<TermTree<Vulnerabilities>>,
                Seq<char>,
            >(message@),
        },
{
    let mut trees: Vec<SearchTerm<Vulnerabilities>> = Vec::new();
    let mut i: usize = 0;
    while i < terms.len()
        invariant
            i <= terms.len(),
            translated_all(context@, *terms, i as int) matches Ok(want) && want.len()
                == trees.len() && forall|j: int|
                0 <= j < trees.len() ==> (#[trigger] trees[j])@ == want[j],
        decreases terms.len() - i,
    {
        match translate(context, &terms[i]) {
            Ok(tree) => trees.push(tree),
            Err(message) => {
                proof {
                    lemma_terms_fail_on(context@, *terms, i + 1, terms.len() as int);
                }
                return Err(message);
            },
        }
        i += 1;
    }
    Ok(trees)
}

/// The scopes in which a query is read.
fn query_scopes(raw: &RawQuery) -> (result: Result<Vec<Scope>, String>)
    ensures
        match result {
            Ok(named) => scopes_of(*raw) == Ok::<Seq<Scope>, Seq<char>>(named@),
            Err(message) => scopes_of(*raw) == Err::<Seq<Scope>, Seq<char>>(message@),
        },
{
    if raw.scope.len() == 0 {
        let mut context: Vec<Scope> = Vec::new();
        context.push(Scope::Id);
        context.push(Scope::Cve);
        context.push(Scope::Title);
        context.push(Scope::Description);
        assert(context@ =~= default_scopes());
        Ok(context)
    } else {
        translate_scopes(&raw.scope)
    }
}

impl Vulnerabilities {
    /// Gives a structured query its meaning.
    pub fn translate_query(raw: &RawQuery) -> (result: Result<
        SearchTerm<Vulnerabilities>,
        String,
    >)
        ensures
            agrees(result, translated_query(*raw)),
    {
        let context = match query_scopes(raw) {
            Ok(context) => context,
            Err(message) => {
                return Err(message);
            },
        };
        match translate_all(&context, &raw.terms) {
            Err(message) => Err(message),
            Ok(trees) => {
                if raw.sorting.len() > 0 {
                    let text = message("Unknown sort qualifier: ", &raw.sorting[0].qualifier, 0);
                    proof {
                        let names = names_of(raw.sorting[0].qualifier);
                        assert(names.subrange(0, names.len() as int) =~= names);
                    }
                    Err(text)
                } else {
                    let all = SearchTerm::And(trees);
                    assert(all@->And_0 =~= translated_all(
                        context@,
                        raw.terms,
                        raw.terms.len() as int,
                    )->Ok_0);
                    Ok(all.compact())
                }
            },
        }
    }

    /// Reads a query text into a tree of search terms, or into the message
    /// of what is wrong with it.
    pub fn parse(q: &str) -> (result: Result<SearchTerm<Vulnerabilities>, String>)
        ensures
            agrees(result, query_terms(q@)),
    {
        match parse_raw(q) {
            Err(message) => Err(message),
            Ok(raw) => Vulnerabilities::translate_query(&raw),
        }
    }
}

} // verus!
