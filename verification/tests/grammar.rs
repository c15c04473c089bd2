use trustification_index::grammar::{
    translate, translate_match, RawExpression, RawQuery, RawSort, RawTerm, Scope, Vulnerabilities,
};
use trustification_index::terms::{Bound, Ordered, PartialOrdered, Primary, SearchTerm};

fn partial(text: &str) -> Primary {
    Primary::Partial(text.to_string())
}

fn exact(text: &str) -> Primary {
    Primary::Equal(text.to_string())
}

fn everywhere(text: &str) -> SearchTerm<Vulnerabilities> {
    SearchTerm::Or(vec![
        SearchTerm::Match(Vulnerabilities::Id(partial(text))),
        SearchTerm::Match(Vulnerabilities::Cve(partial(text))),
        SearchTerm::Match(Vulnerabilities::Title(partial(text))),
        SearchTerm::Match(Vulnerabilities::Description(partial(text))),
    ])
}

#[test]
fn a_word_is_searched_in_the_default_scopes() {
    assert_eq!(Vulnerabilities::parse("openssl"), Ok(everywhere("openssl")));
}

#[test]
fn two_words_must_both_match() {
    assert_eq!(
        Vulnerabilities::parse("openssl update"),
        Ok(SearchTerm::And(vec![everywhere("openssl"), everywhere("update")]))
    );
}

#[test]
fn a_scope_narrows_where_a_word_is_searched() {
    assert_eq!(
        Vulnerabilities::parse("RHSA-2023:1441 in:id"),
        Ok(SearchTerm::Or(vec![SearchTerm::Match(Vulnerabilities::Id(partial(
            "RHSA-2023:1441"
        )))]))
    );
    assert_eq!(
        Vulnerabilities::parse("foo in:title in:cve"),
        Ok(SearchTerm::Or(vec![
            SearchTerm::Match(Vulnerabilities::Title(partial("foo"))),
            SearchTerm::Match(Vulnerabilities::Cve(partial("foo"))),
        ]))
    );
}

#[test]
fn a_qualified_value_is_exact() {
    assert_eq!(
        Vulnerabilities::parse("severity:high"),
        Ok(SearchTerm::Match(Vulnerabilities::Severity(exact("high"))))
    );
    assert_eq!(
        Vulnerabilities::parse("fixed:\"cpe:/o:redhat:rhel_eus:8.6::baseos\""),
        Ok(SearchTerm::Match(Vulnerabilities::Fixed(exact("cpe:/o:redhat:rhel_eus:8.6::baseos"))))
    );
}

#[test]
fn predicates_are_read() {
    assert_eq!(Vulnerabilities::parse("is:final"), Ok(SearchTerm::Match(Vulnerabilities::Final)));
    assert_eq!(
        Vulnerabilities::parse("is:critical is:low"),
        Ok(SearchTerm::And(vec![
            SearchTerm::Match(Vulnerabilities::Critical),
            SearchTerm::Match(Vulnerabilities::Low),
        ]))
    );
    assert_eq!(
        Vulnerabilities::parse("-is:medium"),
        Ok(SearchTerm::Not(Box::new(SearchTerm::Match(Vulnerabilities::Medium))))
    );
}

#[test]
fn dates_are_read_in_microseconds() {
    assert_eq!(
        Vulnerabilities::parse("release:>2023-02-08"),
        Ok(SearchTerm::Match(Vulnerabilities::Release(Ordered::Greater(1_675_814_400_000_000))))
    );
    assert_eq!(
        Vulnerabilities::parse("initial:2023-03-23T11:14:00Z"),
        Ok(SearchTerm::Match(Vulnerabilities::Initial(Ordered::Equal(1_679_570_040_000_000))))
    );
    assert_eq!(
        Vulnerabilities::parse("discovery:2022-01-01..2023-01-01"),
        Ok(SearchTerm::Match(Vulnerabilities::Discovery(Ordered::Range(
            Bound::Included(1_640_995_200_000_000),
            Bound::Excluded(1_672_531_200_000_000)
        ))))
    );
    assert_eq!(
        Vulnerabilities::parse("release:<=2022-01-01"),
        Ok(SearchTerm::Match(Vulnerabilities::Release(Ordered::LessEqual(
            1_640_995_200_000_000
        ))))
    );
}

#[test]
fn scores_are_read_as_keys() {
    assert_eq!(
        Vulnerabilities::parse("cvss:>5"),
        Ok(SearchTerm::Match(Vulnerabilities::Cvss(PartialOrdered::Greater(
            tantivy::f64_to_u64(5.0)
        ))))
    );
    assert_eq!(
        Vulnerabilities::parse("cvss:2.1..9.8"),
        Ok(SearchTerm::Match(Vulnerabilities::Cvss(PartialOrdered::Range(
            Bound::Included(13_835_283_235_263_532_237),
            Bound::Excluded(13_845_078_564_453_063_066)
        ))))
    );
}

#[test]
fn what_has_no_meaning_is_told() {
    assert_eq!(Vulnerabilities::parse("foo:bar"), Err("Unknown qualifier: foo".to_string()));
    assert_eq!(Vulnerabilities::parse("id:a:b"), Err("Unknown qualifier: a".to_string()));
    assert_eq!(Vulnerabilities::parse("is:nothing"), Err("Unknown predicate: nothing".to_string()));
    assert_eq!(
        Vulnerabilities::parse("foo in:severity"),
        Err("Unknown scope qualifier: severity".to_string())
    );
    assert_eq!(Vulnerabilities::parse("sort:id"), Err("Unknown sort qualifier: id".to_string()));
    assert_eq!(
        Vulnerabilities::parse("release:yesterday"),
        Err("Parser error: Error parsing date".to_string())
    );
    assert!(Vulnerabilities::parse("cvss:>high").unwrap_err().starts_with("Invalid expression: "));
}

#[test]
fn scopes_are_judged_before_terms() {
    assert_eq!(
        Vulnerabilities::parse("foo:bar in:nowhere"),
        Err("Unknown scope qualifier: nowhere".to_string())
    );
    assert_eq!(Vulnerabilities::parse("foo:bar sort:id"), Err("Unknown qualifier: foo".to_string()));
}

#[test]
fn translate_gives_a_structured_term_its_meaning() {
    let context = vec![Scope::Title];
    let term = RawTerm {
        qualifier: vec![],
        invert: true,
        expression: RawExpression::Simple("ssl".to_string()),
    };
    assert_eq!(
        translate(&context, &term),
        Ok(SearchTerm::Not(Box::new(SearchTerm::Or(vec![SearchTerm::Match(
            Vulnerabilities::Title(partial("ssl"))
        )]))))
    );
    assert_eq!(
        translate_match(&vec![], &vec![], &RawExpression::Simple("ssl".to_string())),
        Ok(SearchTerm::Or(vec![]))
    );
    assert_eq!(
        translate_match(
            &context,
            &vec!["final".to_string(), "draft".to_string()],
            &RawExpression::Predicate
        ),
        Err("Unknown predicate: final:draft".to_string())
    );
    assert_eq!(
        translate_match(&context, &vec![], &RawExpression::Predicate),
        Err("Unknown predicate: ".to_string())
    );
}

#[test]
fn translate_query_joins_the_terms() {
    let raw = RawQuery {
        terms: vec![
            RawTerm {
                qualifier: vec!["status".to_string()],
                invert: false,
                expression: RawExpression::Simple("final".to_string()),
            },
            RawTerm {
                qualifier: vec!["high".to_string()],
                invert: false,
                expression: RawExpression::Predicate,
            },
        ],
        scope: vec![],
        sorting: vec![],
    };
    assert_eq!(
        Vulnerabilities::translate_query(&raw),
        Ok(SearchTerm::And(vec![
            SearchTerm::Match(Vulnerabilities::Status(exact("final"))),
            SearchTerm::Match(Vulnerabilities::High),
        ]))
    );
    let none = RawQuery { terms: vec![], scope: vec![], sorting: vec![] };
    assert_eq!(Vulnerabilities::translate_query(&none), Ok(SearchTerm::And(vec![])));
    let sorted = RawQuery {
        terms: vec![],
        scope: vec![],
        sorting: vec![RawSort { qualifier: vec!["a".to_string(), "b".to_string()], descending: true }],
    };
    assert_eq!(
        Vulnerabilities::translate_query(&sorted),
        Err("Unknown sort qualifier: a:b".to_string())
    );
}
