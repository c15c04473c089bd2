use trustification_index::query::{
    bound_map, create_boolean_query, create_date_query, create_string_query, create_text_query,
    make_partial_pattern, micros_into_day, string_query_from, term2query, union_two, Clause,
    Field, IndexTerm, Occur, Query, MICROS_PER_DAY,
};
use trustification_index::terms::{Bound, Ordered, Primary, SearchTerm};

fn term(field: u32, text: &str) -> Query {
    Query::Term { field: Field(field), text: text.to_string() }
}

fn clause(occur: Occur, query: Query) -> Clause {
    Clause { occur, query }
}

fn range(field: u32, lower: Bound<i64>, upper: Bound<i64>) -> Query {
    Query::DateRange { field: Field(field), lower, upper }
}

#[test]
fn string_query_of_an_exact_value_is_one_term() {
    let q = create_string_query(Field(0), &Primary::Equal("RHSA-2023:1441".to_string()));
    assert_eq!(q, term(0, "RHSA-2023:1441"));
}

#[test]
fn string_query_of_a_partial_value_is_the_union_of_pattern_and_term() {
    let q = create_string_query(Field(8), &Primary::Partial("2023".to_string()));
    let expected = Query::Boolean {
        clauses: vec![
            clause(
                Occur::Should,
                Query::Regex { field: Field(8), pattern: ".*2023.*".to_string() },
            ),
            clause(Occur::Should, term(8, "2023")),
        ],
    };
    assert_eq!(q, expected);
}

#[test]
fn string_query_leaves_out_a_pattern_that_the_engine_does_not_take() {
    let q = create_string_query(Field(8), &Primary::Partial("a(".to_string()));
    let expected = Query::Boolean { clauses: vec![clause(Occur::Should, term(8, "a("))] };
    assert_eq!(q, expected);
}

#[test]
fn string_query_from_follows_what_it_is_told_of_the_pattern() {
    let partial = Primary::Partial("x".to_string());
    let with = string_query_from(Field(1), &partial, true);
    let without = string_query_from(Field(1), &partial, false);
    assert_eq!(
        with,
        Query::Boolean {
            clauses: vec![
                clause(Occur::Should, Query::Regex { field: Field(1), pattern: ".*x.*".to_string() }),
                clause(Occur::Should, term(1, "x")),
            ],
        }
    );
    assert_eq!(without, Query::Boolean { clauses: vec![clause(Occur::Should, term(1, "x"))] });
    let exact = Primary::Equal("x".to_string());
    assert_eq!(string_query_from(Field(1), &exact, true), term(1, "x"));
}

#[test]
fn partial_pattern_wraps_the_value() {
    assert_eq!(make_partial_pattern("openssl"), ".*openssl.*");
    assert_eq!(make_partial_pattern(""), ".*.*");
}

#[test]
fn text_query_is_a_term_for_both_kinds_of_match() {
    let exact = create_text_query(Field(3), &Primary::Equal("openssl".to_string()));
    let partial = create_text_query(Field(3), &Primary::Partial("openssl".to_string()));
    assert_eq!(exact, term(3, "openssl"));
    assert_eq!(partial, term(3, "openssl"));
}

#[test]
fn date_query_keeps_the_kind_of_each_comparison() {
    let t = 1_679_570_040_000_000;
    assert_eq!(
        create_date_query(Field(6), &Ordered::Less(t)),
        range(6, Bound::Unbounded, Bound::Excluded(t))
    );
    assert_eq!(
        create_date_query(Field(6), &Ordered::LessEqual(t)),
        range(6, Bound::Unbounded, Bound::Included(t))
    );
    assert_eq!(
        create_date_query(Field(6), &Ordered::Greater(t)),
        range(6, Bound::Excluded(t), Bound::Unbounded)
    );
    assert_eq!(
        create_date_query(Field(6), &Ordered::GreaterEqual(t)),
        range(6, Bound::Included(t), Bound::Unbounded)
    );
    assert_eq!(
        create_date_query(Field(6), &Ordered::Range(Bound::Excluded(1), Bound::Included(t))),
        range(6, Bound::Excluded(1), Bound::Included(t))
    );
    assert_eq!(
        create_date_query(Field(6), &Ordered::Range(Bound::Unbounded, Bound::Unbounded)),
        range(6, Bound::Unbounded, Bound::Unbounded)
    );
}

#[test]
fn date_equal_is_the_half_open_day() {
    // 2023-03-23T11:14:00Z lies in [2023-03-23T00:00:00Z, 2023-03-24T00:00:00Z)
    let q = create_date_query(Field(7), &Ordered::Equal(1_679_570_040_000_000));
    let day = range(
        7,
        Bound::Included(1_679_529_600_000_000),
        Bound::Excluded(1_679_616_000_000_000),
    );
    assert_eq!(q, day);
    let as_range = create_date_query(
        Field(7),
        &Ordered::Range(
            Bound::Included(1_679_529_600_000_000),
            Bound::Excluded(1_679_616_000_000_000),
        ),
    );
    assert_eq!(q, as_range);
}

#[test]
fn date_equal_at_midnight_and_before_the_epoch() {
    assert_eq!(
        create_date_query(Field(7), &Ordered::Equal(0)),
        range(7, Bound::Included(0), Bound::Excluded(MICROS_PER_DAY))
    );
    assert_eq!(
        create_date_query(Field(7), &Ordered::Equal(-1)),
        range(7, Bound::Included(-MICROS_PER_DAY), Bound::Excluded(0))
    );
    assert_eq!(
        create_date_query(Field(7), &Ordered::Equal(-MICROS_PER_DAY)),
        range(7, Bound::Included(-MICROS_PER_DAY), Bound::Excluded(0))
    );
}

#[test]
fn date_equal_at_the_ends_of_time() {
    assert_eq!(
        create_date_query(Field(7), &Ordered::Equal(i64::MIN)),
        range(7, Bound::Included(i64::MIN), Bound::Excluded(-9_223_372_022_400_000_000))
    );
    assert_eq!(
        create_date_query(Field(7), &Ordered::Equal(i64::MAX)),
        range(7, Bound::Included(9_223_372_022_400_000_000), Bound::Included(i64::MAX))
    );
}

#[test]
fn micros_into_day_counts_from_the_midnight_before() {
    assert_eq!(micros_into_day(0), 0);
    assert_eq!(micros_into_day(1), 1);
    assert_eq!(micros_into_day(MICROS_PER_DAY), 0);
    assert_eq!(micros_into_day(-1), MICROS_PER_DAY - 1);
    assert_eq!(micros_into_day(1_679_570_040_000_000), 40_440_000_000);
    assert_eq!(micros_into_day(i64::MIN), 71_945_224_192);
    assert_eq!(micros_into_day(i64::MAX), 14_454_775_807);
}

#[test]
fn boolean_query_wraps_one_term() {
    for occur in [Occur::Must, Occur::MustNot, Occur::Should] {
        let q = create_boolean_query(
            occur,
            IndexTerm { field: Field(0), text: "foo".to_string() },
        );
        assert_eq!(q, Query::Boolean { clauses: vec![clause(occur, term(0, "foo"))] });
    }
}

#[test]
fn bound_map_keeps_the_kind_of_the_bound() {
    assert_eq!(bound_map(Bound::Included(2), |v: i32| v * 10), Bound::Included(20));
    assert_eq!(bound_map(Bound::Excluded(3), |v: i32| v + 1), Bound::Excluded(4));
    assert_eq!(bound_map(Bound::<i32>::Unbounded, |v: i32| v + 1), Bound::Unbounded);
}

#[test]
fn a_union_keeps_the_order_of_its_queries() {
    let q = union_two(term(0, "a"), term(1, "b"));
    assert_eq!(
        q,
        Query::Boolean {
            clauses: vec![clause(Occur::Should, term(0, "a")), clause(Occur::Should, term(1, "b"))],
        }
    );
}

#[test]
fn term2query_lowers_a_tree() {
    let tree = SearchTerm::And(vec![
        SearchTerm::Match("a"),
        SearchTerm::Not(Box::new(SearchTerm::Match("b"))),
        SearchTerm::Or(vec![SearchTerm::Match("c"), SearchTerm::Match("d")]),
        SearchTerm::Or(vec![]),
    ]);
    let q = term2query(&tree, &|resource: &&str| term(0, resource));
    let expected = Query::Boolean {
        clauses: vec![
            clause(Occur::Must, term(0, "a")),
            clause(
                Occur::Must,
                Query::Boolean { clauses: vec![clause(Occur::MustNot, term(0, "b"))] },
            ),
            clause(
                Occur::Must,
                Query::Boolean {
                    clauses: vec![
                        clause(Occur::Should, term(0, "c")),
                        clause(Occur::Should, term(0, "d")),
                    ],
                },
            ),
            clause(Occur::Must, Query::Boolean { clauses: vec![] }),
        ],
    };
    assert_eq!(q, expected);
}

#[test]
fn compact_takes_a_single_term_out_of_its_group() {
    let single = SearchTerm::And(vec![SearchTerm::Or(vec![SearchTerm::Match(1)])]);
    assert_eq!(single.compact(), SearchTerm::Or(vec![SearchTerm::Match(1)]));
    assert_eq!(SearchTerm::Or(vec![SearchTerm::Match(1)]).compact(), SearchTerm::Match(1));
    let two = SearchTerm::Or(vec![SearchTerm::Match(1), SearchTerm::Match(2)]);
    assert_eq!(two.compact(), SearchTerm::Or(vec![SearchTerm::Match(1), SearchTerm::Match(2)]));
    assert_eq!(SearchTerm::<i32>::And(vec![]).compact(), SearchTerm::And(vec![]));
    let negated = SearchTerm::Not(Box::new(SearchTerm::And(vec![SearchTerm::Match(1)])));
    assert_eq!(
        negated.compact(),
        SearchTerm::Not(Box::new(SearchTerm::And(vec![SearchTerm::Match(1)])))
    );
}

#[test]
fn names_fields_below_looks_into_every_clause() {
    let q = Query::Boolean {
        clauses: vec![
            clause(Occur::Should, term(0, "a")),
            clause(Occur::Must, Query::Boolean { clauses: vec![clause(Occur::Should, term(5, "b"))] }),
        ],
    };
    assert!(q.names_fields_below(6));
    assert!(!q.names_fields_below(5));
    assert!(Query::All.names_fields_below(0));
    assert!(!range(3, Bound::Unbounded, Bound::Unbounded).names_fields_below(3));
}
