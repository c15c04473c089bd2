use trustification_index::advisory::{
    Advisory, Branch, Cvss, Note, NoteCategory, Product, ProductHelper, ProductStatus,
    ProductTree, Relationship, Score, Severity, Status, Vulnerability,
};
use trustification_index::error::Error;
use tantivy::schema::{FAST, INDEXED, STORED, STRING, TEXT};
use trustification_index::store::{fresh_name, IndexStore};
use trustification_index::vexination::{Index, SearchHit};

const RELEASED: i64 = 1_679_570_040_000_000; // 2023-03-23T11:14:00Z
const DISCOVERED: i64 = 1_674_604_800_000_000; // 2023-01-25T00:00:00Z
const PUBLISHED: i64 = 1_675_728_000_000_000; // 2023-02-07T00:00:00Z

fn note(category: NoteCategory, text: &str) -> Note {
    Note { category, text: text.to_string() }
}

fn package(product_id: &str, purl: &str) -> Branch {
    Branch {
        product: Some(Product {
            product_id: product_id.to_string(),
            helper: Some(ProductHelper { cpe: None, purl: Some(purl.to_string()) }),
        }),
        branches: None,
    }
}

fn combined(release: &str, package: &str) -> Relationship {
    Relationship {
        product_id: format!("{release}:{package}"),
        product_reference: package.to_string(),
        relates_to_product_reference: release.to_string(),
    }
}

/// The advisory RHSA-2023:1441, as far as the index reads it.
fn rhsa_2023_1441() -> Advisory {
    let release = "BaseOS-8.6.0.Z.EUS";
    let fixed_package = "openssl-1:1.1.1k-9.el8_6.x86_64";
    let affected_package = "openssl-1:1.1.1k-7.el8_6.x86_64";
    let product_tree = ProductTree {
        branches: Some(vec![Branch {
            product: None,
            branches: Some(vec![
                Branch {
                    product: None,
                    branches: Some(vec![Branch {
                        product: Some(Product {
                            product_id: release.to_string(),
                            helper: Some(ProductHelper {
                                cpe: Some("cpe:/o:redhat:rhel_eus:8.6::baseos".to_string()),
                                purl: None,
                            }),
                        }),
                        branches: None,
                    }]),
                },
                Branch {
                    product: None,
                    branches: Some(vec![
                        package(
                            fixed_package,
                            "pkg:rpm/redhat/openssl@1.1.1k-9.el8_6?arch=x86_64&epoch=1",
                        ),
                        package(
                            affected_package,
                            "pkg:rpm/redhat/openssl@1.1.1k-7.el8_6?arch=x86_64&epoch=1",
                        ),
                    ]),
                },
            ]),
        }]),
        relationships: Some(vec![
            combined(release, fixed_package),
            combined(release, affected_package),
        ]),
    };
    let vulnerability = Vulnerability {
        title: Some("openssl: X.400 address type confusion in X.509 GeneralName".to_string()),
        cve: Some("CVE-2023-0286".to_string()),
        scores: Some(vec![Score {
            cvss_v3: Some(Cvss { score: tantivy::f64_to_u64(7.4), severity: Severity::High }),
        }]),
        cwe: Some("CWE-704".to_string()),
        notes: Some(vec![
            note(
                NoteCategory::Description,
                "A type confusion vulnerability was found in OpenSSL when OpenSSL X.400 addresses \
                 processing inside an X.509 GeneralName.",
            ),
            note(NoteCategory::Summary, "openssl: X.400 address type confusion in X.509 GeneralName"),
        ]),
        product_status: Some(ProductStatus {
            known_affected: Some(vec![format!("{release}:{affected_package}")]),
            fixed: Some(vec![format!("{release}:{fixed_package}")]),
        }),
        discovery_date: Some(DISCOVERED),
        release_date: Some(PUBLISHED),
    };
    Advisory {
        title: "Red Hat Security Advisory: openssl security update".to_string(),
        status: Status::Final,
        notes: Some(vec![
            note(
                NoteCategory::Summary,
                "An update for openssl is now available for Red Hat Enterprise Linux 8.6 Extended \
                 Update Support.",
            ),
            note(
                NoteCategory::General,
                "OpenSSL is a toolkit that implements the Secure Sockets Layer (SSL) and Transport \
                 Layer Security (TLS) protocols.",
            ),
            note(NoteCategory::LegalDisclaimer, "This content is licensed under CC BY 4.0."),
        ]),
        aggregate_severity: Some("Important".to_string()),
        revision_history: vec![
            "Initial version".to_string(),
            "Last updated version".to_string(),
            "Last generated version".to_string(),
        ],
        initial_release_date: RELEASED,
        current_release_date: RELEASED,
        product_tree: Some(product_tree),
        vulnerabilities: Some(vec![vulnerability]),
    }
}

fn assert_free_form<F>(f: F)
where
    F: FnOnce(IndexStore<Index>),
{
    let csaf = rhsa_2023_1441();
    let index = Index::new();
    let mut store = IndexStore::new_in_memory(index).unwrap();
    let mut writer = store.writer().unwrap();
    writer.add_document(store.index_as_mut(), "RHSA-2023:1441", &csaf).unwrap();
    writer.commit(&mut store).unwrap();
    f(store);
}

fn search(index: &IndexStore<Index>, query: &str) -> (Vec<SearchHit>, usize) {
    index.search(query, 0, 10000, false).unwrap()
}

#[test]
fn test_free_form_simple_primary() {
    assert_free_form(|index| {
        let result = search(&index, "openssl");
        assert_eq!(result.0.len(), 1);
    });
}

#[test]
fn test_free_form_simple_primary_2() {
    assert_free_form(|index| {
        let result = search(&index, "CVE-2023-0286");
        assert_eq!(result.0.len(), 1);
    });
}

#[test]
fn test_free_form_simple_primary_3() {
    assert_free_form(|index| {
        let result = search(&index, "RHSA-2023:1441");
        assert_eq!(result.0.len(), 1);
    });
}

#[test]
fn test_free_form_primary_scoped() {
    assert_free_form(|index| {
        let result = search(&index, "RHSA-2023:1441 in:id");
        assert_eq!(result.0.len(), 1);
    });
}

#[test]
fn test_free_form_predicate_final() {
    assert_free_form(|index| {
        let result = search(&index, "is:final");
        assert_eq!(result.0.len(), 1);
    });
}

#[test]
fn test_free_form_predicate_high() {
    assert_free_form(|index| {
        let result = search(&index, "is:high");
        assert_eq!(result.0.len(), 1);
    });
}

#[test]
fn test_free_form_predicate_critical() {
    assert_free_form(|index| {
        let result = search(&index, "is:critical");
        assert_eq!(result.0.len(), 0);
    });
}

#[test]
fn test_free_form_ranges() {
    assert_free_form(|index| {
        let result = search(&index, "cvss:>5");
        assert_eq!(result.0.len(), 1);

        let result = search(&index, "cvss:<5");
        assert_eq!(result.0.len(), 0);
    });
}

#[test]
fn test_free_form_dates() {
    assert_free_form(|index| {
        let result = search(&index, "initial:>2022-01-01");
        assert_eq!(result.0.len(), 1);

        let result = search(&index, "discovery:>2022-01-01");
        assert_eq!(result.0.len(), 1);

        let result = search(&index, "release:>2022-01-01");
        assert_eq!(result.0.len(), 1);

        let result = search(&index, "release:>2023-02-08");
        assert_eq!(result.0.len(), 1);

        let result = search(&index, "release:2022-01-01..2023-01-01");
        assert_eq!(result.0.len(), 0);

        let result = search(&index, "release:2022-01-01..2024-01-01");
        assert_eq!(result.0.len(), 1);

        let result = search(&index, "release:2023-03-23");
        assert_eq!(result.0.len(), 1);

        let result = search(&index, "release:2023-03-24");
        assert_eq!(result.0.len(), 0);

        let result = search(&index, "release:2023-03-22");
        assert_eq!(result.0.len(), 0);
    });
}

#[test]
fn test_packages() {
    assert_free_form(|index| {
        let result = search(
            &index,
            "affected:\"pkg:rpm/redhat/openssl@1.1.1k-7.el8_6?arch=x86_64&epoch=1\"",
        );
        assert_eq!(result.0.len(), 1);
    });
}

#[test]
fn test_products() {
    assert_free_form(|index| {
        let result = search(&index, "fixed:\"cpe:/o:redhat:rhel_eus:8.6::baseos\"");
        assert_eq!(result.0.len(), 1);
    });
}

#[test]
fn test_delete_document() {
    assert_free_form(|mut index| {
        // our data is there
        let result = search(&index, "RHSA-2023:1441 in:id");
        assert_eq!(result.0.len(), 1);

        // Now we remove the entry from the index
        let mut writer = index.writer().unwrap();
        writer.delete_document(index.index(), "RHSA-2023:1441");
        writer.commit(&mut index).unwrap();

        // Ta-da ! No more data
        let result = search(&index, "RHSA-2023:1441 in:id");
        assert_eq!(result.0.len(), 0);
    });
}

#[test]
fn test_all() {
    assert_free_form(|index| {
        let result = search(&index, "");
        // Should get all documents (1)
        assert_eq!(result.0.len(), 1);
    });
}

#[test]
fn a_text_that_is_no_query_fails_with_the_message_of_the_parser() {
    assert_free_form(|index| match index.search("foo:bar", 0, 10, false) {
        Err(Error::Parser(message)) => assert_eq!(message, "Unknown qualifier: foo"),
        _ => panic!("the query has no meaning"),
    });
}

#[test]
fn the_empty_query_returns_every_advisory() {
    let mut store = IndexStore::new_in_memory(Index::new()).unwrap();
    let mut writer = store.writer().unwrap();
    let mut later = rhsa_2023_1441();
    later.current_release_date = RELEASED + 1;
    writer.add_document(store.index_as_mut(), "RHSA-2023:1441", &rhsa_2023_1441()).unwrap();
    writer.add_document(store.index_as_mut(), "RHSA-2023:1442", &later).unwrap();
    writer.commit(&mut store).unwrap();
    let (hits, count) = search(&store, "");
    assert_eq!(count, 2);
    let mut ids: Vec<&str> = hits.iter().map(|hit| hit.document.advisory_id.as_str()).collect();
    ids.sort();
    assert_eq!(ids, vec!["RHSA-2023:1441", "RHSA-2023:1442"]);
}

#[test]
fn a_hit_carries_what_is_stored_of_the_advisory() {
    assert_free_form(|index| {
        let (hits, count) = index.search("description:toolkit", 0, 10, true).unwrap();
        assert_eq!(count, 0);
        assert!(hits.is_empty());
        let (hits, count) = index.search("title:openssl", 0, 10, true).unwrap();
        assert_eq!(count, 1);
        let hit = &hits[0];
        assert_eq!(hit.document.advisory_id, "RHSA-2023:1441");
        assert_eq!(hit.document.advisory_title, "Red Hat Security Advisory: openssl security update");
        assert_eq!(hit.document.advisory_date, RELEASED);
        assert!(hit.document.advisory_desc.starts_with("An update for openssl is now available"));
        assert_eq!(hit.document.cves, vec!["CVE-2023-0286".to_string()]);
        assert_eq!(hit.document.cvss_max, Some(tantivy::f64_to_u64(7.4)));
        assert_eq!(hit.document.cvss_highest, Some(tantivy::f64_to_u64(7.4)));
        assert!(f32::from_bits(hit.score) > 0.0);
        let explanation = hit.explanation.as_ref().unwrap();
        assert!(serde_json::from_str::<serde_json::Value>(explanation).is_ok());
        // the same search is accounted for in the same words
        let (again, _) = index.search("title:openssl", 0, 10, true).unwrap();
        assert_eq!(again[0].explanation.as_ref(), Some(explanation));

        let (hits, _) = index.search("description:update", 0, 10, false).unwrap();
        assert_eq!(hits.len(), 1);
        assert!(hits[0].document.advisory_snippet.contains("<b>update</b>"));
        assert_eq!(hits[0].explanation, None);
    });
}

#[test]
fn two_spellings_of_a_cpe_find_the_same_advisory() {
    let mut advisory = rhsa_2023_1441();
    let tree = advisory.product_tree.as_mut().unwrap();
    let product = tree.branches.as_mut().unwrap()[0].branches.as_mut().unwrap()[0]
        .branches
        .as_mut()
        .unwrap()[0]
        .product
        .as_mut()
        .unwrap();
    product.helper.as_mut().unwrap().cpe = Some("cpe:/o:redhat:rhel_eus:8%2e6::baseos".to_string());
    let mut store = IndexStore::new_in_memory(Index::new()).unwrap();
    let mut writer = store.writer().unwrap();
    writer.add_document(store.index_as_mut(), "RHSA-2023:1441", &advisory).unwrap();
    writer.commit(&mut store).unwrap();
    for spelling in [
        "cpe:/o:redhat:rhel_eus:8.6::baseos",
        "cpe:/o:redhat:rhel_eus:8%2e6::baseos",
        "cpe:/o:redhat:rhel_eus:8.6:*:baseos:*",
    ] {
        let (hits, count) = search(&store, &format!("fixed:\"{spelling}\""));
        assert_eq!((hits.len(), count), (1, 1), "{spelling}");
        let (hits, _) = search(&store, &format!("package:\"{spelling}\""));
        assert_eq!(hits.len(), 1, "{spelling}");
    }
    let (hits, _) = search(&store, "fixed:\"cpe:/o:redhat:rhel_eus:8.7::baseos\"");
    assert_eq!(hits.len(), 0);
}

#[test]
fn an_index_that_was_declared_with_the_flags_of_the_engine_is_opened() {
    let mut schema = tantivy::schema::Schema::builder();
    schema.add_text_field("advisory_id", STRING | FAST | STORED);
    schema.add_text_field("advisory_status", STRING);
    schema.add_text_field("advisory_title", TEXT | STORED);
    schema.add_text_field("advisory_description", TEXT | STORED);
    schema.add_text_field("advisory_revision", STRING | STORED);
    schema.add_text_field("advisory_severity", STRING | STORED);
    schema.add_date_field("advisory_initial_date", INDEXED);
    schema.add_date_field("advisory_current_date", INDEXED | FAST | STORED);
    schema.add_text_field("cve_id", STRING | FAST | STORED);
    schema.add_text_field("cve_title", TEXT | STORED);
    schema.add_text_field("cve_description", TEXT | STORED);
    schema.add_date_field("cve_discovery_date", INDEXED);
    schema.add_date_field("cve_release_date", INDEXED | STORED);
    schema.add_text_field("cve_severity", STRING | FAST);
    schema.add_text_field("cve_affected", STORED | STRING);
    schema.add_text_field("cve_fixed", STORED | STRING);
    schema.add_f64_field("cve_cvss", FAST | INDEXED | STORED);
    schema.add_text_field("cve_cwe", STRING | STORED);
    let settings = tantivy::IndexSettings {
        sort_by_field: Some(tantivy::IndexSortByField {
            field: "advisory_current_date".to_string(),
            order: tantivy::Order::Desc,
        }),
        docstore_compression: tantivy::store::Compressor::Zstd(Default::default()),
        ..Default::default()
    };

    let path = format!("/tmp/{}", fresh_name());
    tar::Archive::new(tar::Builder::new(Vec::new()).into_inner().unwrap().as_slice())
        .unpack(&path)
        .unwrap();
    let made = tantivy::Index::builder().schema(schema.build()).settings(settings);
    drop(made.create_in_dir(&path).unwrap());

    let mut store = IndexStore::new(path, Index::new()).unwrap();
    let mut writer = store.writer().unwrap();
    writer.add_document(store.index_as_mut(), "RHSA-2023:1441", &rhsa_2023_1441()).unwrap();
    writer.commit(&mut store).unwrap();
    let (hits, count) = store.search("openssl", 0, 10, false).unwrap();
    assert_eq!(count, 1);
    assert_eq!(hits[0].document.advisory_id, "RHSA-2023:1441");
}
