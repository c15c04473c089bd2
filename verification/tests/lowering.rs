use trustification_index::advisory::{
    find_product_identifier, find_product_package, find_product_ref, Advisory, Branch, Cvss, Note,
    NoteCategory, Product, ProductHelper, ProductPackage, ProductStatus, ProductTree,
    Relationship, Score, Severity, Status, Vulnerability,
};
use trustification_index::document::{Document, FieldValue, Value};
use trustification_index::error::Error;
use trustification_index::query::{Field, Occur, Query};
use trustification_index::query::Clause;
use trustification_index::schema::{FieldKind, FieldOptions};
use trustification_index::store::{Compressor, Index as Plugin, IndexSortByField, Order, Settings};
use trustification_index::terms::{Bound, Ordered, PartialOrdered, Primary, SearchTerm};
use trustification_index::grammar::Vulnerabilities;
use trustification_index::vexination::{
    create_rewrite_string_query, create_score_query, lower_advisory, lower_terms, project_hit,
    resource2query, Index, SearchDocument,
};

fn text(field: u32, text: &str) -> FieldValue {
    FieldValue { field: Field(field), value: Value::Text(text.to_string()) }
}

fn date(field: u32, date: i64) -> FieldValue {
    FieldValue { field: Field(field), value: Value::Date(date) }
}

fn score(field: u32, key: u64) -> FieldValue {
    FieldValue { field: Field(field), value: Value::Score(key) }
}

fn helper(cpe: Option<&str>, purl: Option<&str>) -> ProductHelper {
    ProductHelper { cpe: cpe.map(str::to_string), purl: purl.map(str::to_string) }
}

fn product(id: &str, helper: Option<ProductHelper>) -> Option<Product> {
    Some(Product { product_id: id.to_string(), helper })
}

fn leaf(id: &str, helper: Option<ProductHelper>) -> Branch {
    Branch { product: product(id, helper), branches: None }
}

fn bare() -> Advisory {
    Advisory {
        title: "A title".to_string(),
        status: Status::Draft,
        notes: None,
        aggregate_severity: None,
        revision_history: vec![],
        initial_release_date: 1,
        current_release_date: 2,
        product_tree: None,
        vulnerabilities: None,
    }
}

fn tree() -> ProductTree {
    ProductTree {
        branches: Some(vec![
            Branch {
                product: product("os", None),
                branches: Some(vec![
                    leaf("pkg", Some(helper(None, Some("pkg:rpm/nested")))),
                    leaf("os", Some(helper(Some("cpe:/o:nested"), None))),
                ]),
            },
            leaf("os", Some(helper(Some("cpe:/o:later"), Some("pkg:rpm/later")))),
            leaf("pkg", Some(helper(None, Some("pkg:rpm/last")))),
        ]),
        relationships: Some(vec![
            Relationship {
                product_id: "os:pkg".to_string(),
                product_reference: "pkg".to_string(),
                relates_to_product_reference: "os".to_string(),
            },
            Relationship {
                product_id: "os:pkg".to_string(),
                product_reference: "other".to_string(),
                relates_to_product_reference: "other".to_string(),
            },
            Relationship {
                product_id: "os:gone".to_string(),
                product_reference: "gone".to_string(),
                relates_to_product_reference: "os".to_string(),
            },
        ]),
    }
}

#[test]
fn the_first_helper_in_the_order_of_the_tree_is_found() {
    let tree = tree();
    let branches = tree.branches.as_ref().unwrap();
    // the branch itself has no helper, so what lies below it comes first
    assert_eq!(
        find_product_identifier(branches, "os"),
        Some(&helper(Some("cpe:/o:nested"), None))
    );
    assert_eq!(
        find_product_identifier(branches, "pkg"),
        Some(&helper(None, Some("pkg:rpm/nested")))
    );
    assert_eq!(find_product_identifier(branches, "gone"), None);
    assert_eq!(find_product_identifier(&vec![], "os"), None);
}

#[test]
fn the_first_relationship_of_a_product_is_found() {
    let tree = tree();
    assert_eq!(find_product_ref(&tree, "os:pkg"), Some(("pkg", "os")));
    assert_eq!(find_product_ref(&tree, "os:gone"), Some(("gone", "os")));
    assert_eq!(find_product_ref(&tree, "pkg"), None);
    let without = ProductTree { branches: None, relationships: None };
    assert_eq!(find_product_ref(&without, "os:pkg"), None);
}

#[test]
fn a_combined_product_resolves_to_its_two_parts() {
    let mut advisory = bare();
    assert_eq!(find_product_package(&advisory, "os:pkg"), (None, None));
    advisory.product_tree = Some(tree());
    assert_eq!(
        find_product_package(&advisory, "os:pkg"),
        (
            Some(ProductPackage { cpe: None, purl: Some("pkg:rpm/nested".to_string()) }),
            Some(ProductPackage { cpe: Some("cpe:/o:nested".to_string()), purl: None }),
        )
    );
    assert_eq!(
        find_product_package(&advisory, "os:gone"),
        (None, Some(ProductPackage { cpe: Some("cpe:/o:nested".to_string()), purl: None }))
    );
    assert_eq!(find_product_package(&advisory, "unknown"), (None, None));
    advisory.product_tree.as_mut().unwrap().branches = None;
    assert_eq!(find_product_package(&advisory, "os:pkg"), (None, None));
}

#[test]
fn a_bare_advisory_is_lowered_to_its_head_and_dates() {
    let index = Index::new();
    let docs = index.index_doc("ID-1", &bare()).unwrap();
    assert_eq!(
        docs,
        vec![Document {
            values: vec![
                text(0, "ID-1"),
                text(1, "draft"),
                text(2, "A title"),
                date(6, 1),
                date(7, 2),
            ],
        }]
    );
}

#[test]
fn an_advisory_is_lowered_field_by_field() {
    let mut advisory = bare();
    advisory.status = Status::Interim;
    advisory.notes = Some(vec![
        Note { category: NoteCategory::General, text: "general".to_string() },
        Note { category: NoteCategory::Summary, text: "summary".to_string() },
        Note { category: NoteCategory::Description, text: "description".to_string() },
        Note { category: NoteCategory::Details, text: "details".to_string() },
    ]);
    advisory.aggregate_severity = Some("Important".to_string());
    advisory.revision_history = vec!["first".to_string(), "second".to_string()];
    advisory.product_tree = Some(tree());
    advisory.vulnerabilities = Some(vec![
        Vulnerability {
            title: Some("vuln".to_string()),
            cve: Some("CVE-1".to_string()),
            scores: Some(vec![
                Score { cvss_v3: None },
                Score { cvss_v3: Some(Cvss { score: 77, severity: Severity::Critical }) },
                Score { cvss_v3: Some(Cvss { score: 11, severity: Severity::Zero }) },
            ]),
            cwe: Some("CWE-1".to_string()),
            notes: Some(vec![
                Note { category: NoteCategory::Summary, text: "vuln summary".to_string() },
                Note { category: NoteCategory::Description, text: "vuln description".to_string() },
            ]),
            product_status: Some(ProductStatus {
                known_affected: Some(vec!["os:pkg".to_string(), "unknown".to_string()]),
                fixed: Some(vec!["os:gone".to_string()]),
            }),
            discovery_date: Some(3),
            release_date: Some(4),
        },
        Vulnerability {
            title: None,
            cve: Some("CVE-2".to_string()),
            scores: None,
            cwe: None,
            notes: None,
            product_status: Some(ProductStatus { known_affected: None, fixed: None }),
            discovery_date: None,
            release_date: Some(5),
        },
    ]);
    let fields = trustification_index::vexination::Fields {
        advisory_id: Field(0),
        advisory_status: Field(1),
        advisory_title: Field(2),
        advisory_description: Field(3),
        advisory_revision: Field(4),
        advisory_severity: Field(5),
        advisory_initial: Field(6),
        advisory_current: Field(7),
        cve_id: Field(8),
        cve_title: Field(9),
        cve_description: Field(10),
        cve_discovery: Field(11),
        cve_release: Field(12),
        cve_severity: Field(13),
        cve_affected: Field(14),
        cve_fixed: Field(15),
        cve_cvss: Field(16),
        cve_cwe: Field(17),
    };
    let doc = lower_advisory(&fields, "ID-2", &advisory);
    assert_eq!(
        doc.values,
        vec![
            text(0, "ID-2"),
            text(1, "interim"),
            text(2, "A title"),
            text(3, "summary"),
            text(3, "description"),
            text(5, "Important"),
            text(4, "first"),
            text(4, "second"),
            date(6, 1),
            date(7, 2),
            text(9, "vuln"),
            text(8, "CVE-1"),
            score(16, 77),
            text(13, "critical"),
            score(16, 11),
            text(13, "none"),
            text(17, "CWE-1"),
            text(10, "vuln description"),
            text(14, "pkg:rpm/nested"),
            text(14, "cpe:/o:nested:*:*:*:*:*"),
            text(15, "cpe:/o:nested:*:*:*:*:*"),
            date(11, 3),
            date(12, 4),
            text(8, "CVE-2"),
            date(12, 5),
        ]
    );
    assert_eq!(Index::new().index_doc("ID-2", &advisory).unwrap(), vec![doc]);
}

#[test]
fn the_term_of_an_identifier_is_in_the_identity_field() {
    let term = Index::default().doc_id_to_term("RHSA-2023:1441");
    assert_eq!(term.field, Field(0));
    assert_eq!(term.text, "RHSA-2023:1441");
}

#[test]
fn the_schema_of_advisories_is_declared_in_order() {
    let schema = Index::new().schema();
    assert_eq!(schema.len(), 18);
    let names = [
        "advisory_id",
        "advisory_status",
        "advisory_title",
        "advisory_description",
        "advisory_revision",
        "advisory_severity",
        "advisory_initial_date",
        "advisory_current_date",
        "cve_id",
        "cve_title",
        "cve_description",
        "cve_discovery_date",
        "cve_release_date",
        "cve_severity",
        "cve_affected",
        "cve_fixed",
        "cve_cvss",
        "cve_cwe",
    ];
    for (i, name) in names.iter().enumerate() {
        assert_eq!(schema.get_field(name), Some(Field(i as u32)));
        assert_eq!(schema.get_field_name(Field(i as u32)), *name);
    }
    assert_eq!(
        schema.get_field_options(Field(0)),
        FieldOptions { kind: FieldKind::String, stored: true, indexed: true, fast: true }
    );
    assert_eq!(
        schema.get_field_options(Field(1)),
        FieldOptions { kind: FieldKind::String, stored: false, indexed: true, fast: false }
    );
    assert_eq!(
        schema.get_field_options(Field(3)),
        FieldOptions { kind: FieldKind::Text, stored: true, indexed: true, fast: false }
    );
    assert_eq!(
        schema.get_field_options(Field(6)),
        FieldOptions { kind: FieldKind::Date, stored: false, indexed: true, fast: false }
    );
    assert_eq!(
        schema.get_field_options(Field(7)),
        FieldOptions { kind: FieldKind::Date, stored: true, indexed: true, fast: true }
    );
    assert_eq!(
        schema.get_field_options(Field(13)),
        FieldOptions { kind: FieldKind::String, stored: false, indexed: true, fast: true }
    );
    assert_eq!(
        schema.get_field_options(Field(16)),
        FieldOptions { kind: FieldKind::Score, stored: true, indexed: true, fast: true }
    );
}

#[test]
fn the_settings_sort_by_the_current_release() {
    assert_eq!(
        Index::new().settings(),
        Settings {
            sort_by_field: Some(IndexSortByField {
                field: "advisory_current_date".to_string(),
                order: Order::Desc,
            }),
            docstore_compression: Compressor::Zstd,
        }
    );
}

fn term(field: u32, text: &str) -> Query {
    Query::Term { field: Field(field), text: text.to_string() }
}

fn union(queries: Vec<Query>) -> Query {
    Query::Boolean {
        clauses: queries.into_iter().map(|query| Clause { occur: Occur::Should, query }).collect(),
    }
}

#[test]
fn resources_are_lowered_to_their_fields() {
    let index = Index::new();
    let exact = |text: &str| Primary::Equal(text.to_string());
    assert_eq!(index.resource2query(&Vulnerabilities::Id(exact("x"))), term(0, "x"));
    assert_eq!(index.resource2query(&Vulnerabilities::Cve(exact("x"))), term(8, "x"));
    assert_eq!(index.resource2query(&Vulnerabilities::Status(exact("x"))), term(1, "x"));
    assert_eq!(index.resource2query(&Vulnerabilities::Severity(exact("x"))), term(13, "x"));
    assert_eq!(
        index.resource2query(&Vulnerabilities::Title(exact("x"))),
        union(vec![term(2, "x"), term(9, "x")])
    );
    assert_eq!(
        index.resource2query(&Vulnerabilities::Description(exact("x"))),
        union(vec![term(3, "x"), term(10, "x")])
    );
    assert_eq!(
        index.resource2query(&Vulnerabilities::Package(exact("x"))),
        union(vec![term(14, "x"), term(15, "x")])
    );
    assert_eq!(index.resource2query(&Vulnerabilities::Fixed(exact("x"))), term(15, "x"));
    assert_eq!(index.resource2query(&Vulnerabilities::Affected(exact("x"))), term(14, "x"));
    assert_eq!(index.resource2query(&Vulnerabilities::Final), term(1, "final"));
    assert_eq!(index.resource2query(&Vulnerabilities::Critical), term(13, "critical"));
    assert_eq!(index.resource2query(&Vulnerabilities::High), term(13, "high"));
    assert_eq!(index.resource2query(&Vulnerabilities::Medium), term(13, "medium"));
    assert_eq!(index.resource2query(&Vulnerabilities::Low), term(13, "low"));
    assert_eq!(
        index.resource2query(&Vulnerabilities::Initial(Ordered::Less(9))),
        Query::DateRange { field: Field(6), lower: Bound::Unbounded, upper: Bound::Excluded(9) }
    );
    assert_eq!(
        index.resource2query(&Vulnerabilities::Discovery(Ordered::GreaterEqual(9))),
        Query::DateRange { field: Field(11), lower: Bound::Included(9), upper: Bound::Unbounded }
    );
    assert_eq!(
        index.resource2query(&Vulnerabilities::Release(Ordered::Greater(9))),
        union(vec![
            Query::DateRange { field: Field(7), lower: Bound::Excluded(9), upper: Bound::Unbounded },
            Query::DateRange { field: Field(12), lower: Bound::Excluded(9), upper: Bound::Unbounded },
        ])
    );
    assert_eq!(
        index.resource2query(&Vulnerabilities::Cvss(PartialOrdered::LessEqual(9))),
        Query::ScoreRange { field: Field(16), least: Bound::Unbounded, most: Bound::Included(9) }
    );
    let fields = trustification_index::vexination::Fields {
        advisory_id: Field(20),
        advisory_status: Field(21),
        advisory_title: Field(22),
        advisory_description: Field(23),
        advisory_revision: Field(24),
        advisory_severity: Field(25),
        advisory_initial: Field(26),
        advisory_current: Field(27),
        cve_id: Field(28),
        cve_title: Field(29),
        cve_description: Field(30),
        cve_discovery: Field(31),
        cve_release: Field(32),
        cve_severity: Field(33),
        cve_affected: Field(34),
        cve_fixed: Field(35),
        cve_cvss: Field(36),
        cve_cwe: Field(37),
    };
    assert_eq!(resource2query(&fields, &Vulnerabilities::Final), term(21, "final"));
}

#[test]
fn score_queries_keep_the_kind_of_each_comparison() {
    let range = |least, most| Query::ScoreRange { field: Field(16), least, most };
    assert_eq!(
        create_score_query(Field(16), &PartialOrdered::Less(5)),
        range(Bound::Unbounded, Bound::Excluded(5))
    );
    assert_eq!(
        create_score_query(Field(16), &PartialOrdered::Greater(5)),
        range(Bound::Excluded(5), Bound::Unbounded)
    );
    assert_eq!(
        create_score_query(Field(16), &PartialOrdered::GreaterEqual(5)),
        range(Bound::Included(5), Bound::Unbounded)
    );
    assert_eq!(
        create_score_query(
            Field(16),
            &PartialOrdered::Range(Bound::Included(1), Bound::Excluded(5))
        ),
        range(Bound::Included(1), Bound::Excluded(5))
    );
}

#[test]
fn two_spellings_of_a_cpe_are_searched_as_one_term() {
    let dotted = create_rewrite_string_query(
        Field(15),
        &Primary::Equal("cpe:/a:redhat:openssl:1.0.1".to_string()),
    );
    let encoded = create_rewrite_string_query(
        Field(15),
        &Primary::Equal("cpe:/a:redhat:openssl:1.0%2e1".to_string()),
    );
    assert_eq!(dotted, term(15, "cpe:/a:redhat:openssl:1.0.1:*:*:*"));
    assert_eq!(encoded, dotted);
    let partial = create_rewrite_string_query(
        Field(15),
        &Primary::Partial("cpe:/a:redhat:openssl:1.0%2e1".to_string()),
    );
    assert_eq!(
        partial,
        union(vec![
            Query::Regex {
                field: Field(15),
                pattern: ".*cpe:/a:redhat:openssl:1.0.1:*:*:*.*".to_string()
            },
            term(15, "cpe:/a:redhat:openssl:1.0.1:*:*:*"),
        ])
    );
    let purl = create_rewrite_string_query(Field(14), &Primary::Equal("pkg:rpm/x".to_string()));
    assert_eq!(purl, term(14, "pkg:rpm/x"));
}

#[test]
fn terms_are_lowered_through_their_resources() {
    let index = Index::new();
    let tree = SearchTerm::And(vec![
        SearchTerm::Match(Vulnerabilities::Final),
        SearchTerm::Not(Box::new(SearchTerm::Match(Vulnerabilities::Low))),
    ]);
    let fields = trustification_index::vexination::Fields {
        advisory_id: Field(0),
        advisory_status: Field(1),
        advisory_title: Field(2),
        advisory_description: Field(3),
        advisory_revision: Field(4),
        advisory_severity: Field(5),
        advisory_initial: Field(6),
        advisory_current: Field(7),
        cve_id: Field(8),
        cve_title: Field(9),
        cve_description: Field(10),
        cve_discovery: Field(11),
        cve_release: Field(12),
        cve_severity: Field(13),
        cve_affected: Field(14),
        cve_fixed: Field(15),
        cve_cvss: Field(16),
        cve_cwe: Field(17),
    };
    let expected = Query::Boolean {
        clauses: vec![
            Clause { occur: Occur::Must, query: term(1, "final") },
            Clause {
                occur: Occur::Must,
                query: Query::Boolean {
                    clauses: vec![Clause { occur: Occur::MustNot, query: term(13, "low") }],
                },
            },
        ],
    };
    assert_eq!(lower_terms(&fields, &tree), expected);
    assert_eq!(index.prepare_query("is:final -is:low").unwrap(), expected);
    assert_eq!(index.prepare_query("").unwrap(), Query::All);
    assert_eq!(index.prepare_query("is:final").unwrap(), term(1, "final"));
    match index.prepare_query("foo:bar") {
        Err(Error::Parser(message)) => assert_eq!(message, "Unknown qualifier: foo"),
        other => panic!("{other:?}"),
    }
}

fn stored() -> Document {
    Document {
        values: vec![
            text(8, "CVE-1"),
            score(16, 70),
            text(0, "ID-1"),
            text(2, "title"),
            date(7, 42),
            text(3, "first description"),
            text(3, "second description"),
            score(16, 30),
            date(8, 1),
            text(8, "CVE-2"),
            score(16, 50),
            text(0, "ID-other"),
        ],
    }
}

#[test]
fn a_hit_is_projected_from_its_stored_document() {
    let index_fields = trustification_index::vexination::Fields {
        advisory_id: Field(0),
        advisory_status: Field(1),
        advisory_title: Field(2),
        advisory_description: Field(3),
        advisory_revision: Field(4),
        advisory_severity: Field(5),
        advisory_initial: Field(6),
        advisory_current: Field(7),
        cve_id: Field(8),
        cve_title: Field(9),
        cve_description: Field(10),
        cve_discovery: Field(11),
        cve_release: Field(12),
        cve_severity: Field(13),
        cve_affected: Field(14),
        cve_fixed: Field(15),
        cve_cvss: Field(16),
        cve_cwe: Field(17),
    };
    let hit = project_hit(&index_fields, &stored(), "<b>first</b>".to_string()).unwrap();
    assert_eq!(
        hit,
        SearchDocument {
            advisory_id: "ID-1".to_string(),
            advisory_title: "title".to_string(),
            advisory_date: 42,
            advisory_snippet: "<b>first</b>".to_string(),
            advisory_desc: "first description".to_string(),
            cves: vec!["CVE-1".to_string(), String::new(), "CVE-2".to_string()],
            cvss_max: Some(30),
            cvss_highest: Some(70),
        }
    );

    let mut unscored = stored();
    unscored.values.retain(|entry| entry.field != Field(16));
    let hit = project_hit(&index_fields, &unscored, String::new()).unwrap();
    assert_eq!((hit.cvss_max, hit.cvss_highest), (None, None));

    for needed in [0, 2, 7, 3] {
        let mut lacking = stored();
        lacking.values.retain(|entry| entry.field != Field(needed));
        assert!(matches!(
            project_hit(&index_fields, &lacking, String::new()),
            Err(Error::NotFound)
        ));
    }
    let mut mistyped = stored();
    mistyped.values.insert(0, date(0, 1));
    assert!(matches!(project_hit(&index_fields, &mistyped, String::new()), Err(Error::NotFound)));
}
