use trustification_index::document::{Document, Value};
use trustification_index::engine::documents::from_engine;
use trustification_index::engine::index::DocAddress;
use trustification_index::error::Error;
use trustification_index::query::{Clause, Field, IndexTerm, Occur, Query};
use trustification_index::schema::{FieldKind, FieldOptions, Schema};
use trustification_index::store::{
    fresh_name, load_hit, Compressor, Index, IndexConfig, IndexSortByField, IndexStore, Order,
    Settings,
};

struct TestIndex {
    schema: Schema,
    id: Field,
    text: Field,
    /// No document is lowered while this is set.
    refuse: bool,
    /// The name of the field by which the documents are kept sorted.
    sort: Option<String>,
}

impl TestIndex {
    pub fn new() -> Self {
        let mut schema = Schema::new();
        let id = schema
            .add_field(
                "id",
                FieldOptions { kind: FieldKind::String, stored: true, indexed: true, fast: true },
            )
            .unwrap();
        let text = schema
            .add_field(
                "text",
                FieldOptions { kind: FieldKind::Text, stored: false, indexed: true, fast: false },
            )
            .unwrap();
        Self { schema, id, text, refuse: false, sort: None }
    }

    /// An index with two dates and a score beside the identifier and the
    /// text, that keeps its documents sorted by the field of the name.
    pub fn sorted_by(name: &str) -> Self {
        let mut index = Self::new();
        let date = |fast| FieldOptions { kind: FieldKind::Date, stored: true, indexed: true, fast };
        index.schema.add_field("when", date(true)).unwrap();
        index.schema.add_field("seen", date(false)).unwrap();
        index
            .schema
            .add_field(
                "rank",
                FieldOptions { kind: FieldKind::Score, stored: false, indexed: false, fast: true },
            )
            .unwrap();
        index.sort = Some(name.to_string());
        index
    }
}

impl Index for TestIndex {
    type MatchedDocument = String;
    type Document = String;

    fn identity(&self) -> Field {
        self.id
    }

    fn settings(&self) -> Settings {
        let sort_by_field =
            self.sort.clone().map(|field| IndexSortByField { field, order: Order::Desc });
        Settings { sort_by_field, docstore_compression: Compressor::Lz4 }
    }

    fn schema(&self) -> Schema {
        self.schema.copy()
    }

    fn prepare_query(&self, q: &str) -> Result<Query, Error> {
        let clauses = vec![
            Clause {
                occur: Occur::Should,
                query: Query::Term { field: self.id, text: q.to_string() },
            },
            Clause {
                occur: Occur::Should,
                query: Query::Term { field: self.text, text: q.to_string() },
            },
        ];
        Ok(Query::Boolean { clauses })
    }

    fn process_hit(
        &self,
        doc: DocAddress,
        _score: u32,
        searcher: &tantivy::Searcher,
        _query: &tantivy::query::BooleanQuery,
        _explain: bool,
    ) -> Result<Self::MatchedDocument, Error> {
        let d = from_engine(&load_hit(searcher, doc)?);
        match d.get_first(self.id) {
            Some(Value::Text(id)) if id == "hidden" => Err(Error::NotFound),
            Some(Value::Text(id)) => Ok(id.clone()),
            Some(_) => Ok(String::new()),
            None => Err(Error::NotFound),
        }
    }

    fn index_doc(&self, id: &str, document: &Self::Document) -> Result<Vec<Document>, Error> {
        if self.refuse {
            return Err(Error::NotFound);
        }
        let mut doc = Document::new();
        doc.add_text(self.id, id);
        doc.add_text(self.text, document);
        Ok(vec![doc])
    }

    fn doc_id_to_term(&self, id: &str) -> IndexTerm {
        IndexTerm { field: self.id, text: id.to_string() }
    }
}

#[test]
fn test_basic_index() {
    let mut store = IndexStore::new_in_memory(TestIndex::new()).unwrap();
    let mut writer = store.writer().unwrap();

    writer
        .add_document(store.index_as_mut(), "foo", &"Foo is great".to_string())
        .unwrap();

    writer.commit(&mut store).unwrap();

    assert_eq!(store.search("is", 0, 10, false).unwrap().1, 1);
}

#[test]
fn test_index_removal() {
    let mut store = IndexStore::new_in_memory(TestIndex::new()).unwrap();
    let mut writer = store.writer().unwrap();

    writer
        .add_document(store.index_as_mut(), "foo", &"Foo is great".to_string())
        .unwrap();

    writer.commit(&mut store).unwrap();

    assert_eq!(store.search("is", 0, 10, false).unwrap().1, 1);

    let mut writer = store.writer().unwrap();
    writer.delete_document(store.index_as_mut(), "foo");
    writer.commit(&mut store).unwrap();

    assert_eq!(store.search("is", 0, 10, false).unwrap().1, 0);
}

#[test]
fn test_duplicates() {
    let mut store = IndexStore::new_in_memory(TestIndex::new()).unwrap();
    let mut writer = store.writer().unwrap();

    writer
        .add_document(store.index_as_mut(), "foo", &"Foo is great".to_string())
        .unwrap();

    writer
        .add_document(store.index_as_mut(), "foo", &"Foo is great".to_string())
        .unwrap();

    writer.commit(&mut store).unwrap();

    assert_eq!(store.search("is", 0, 10, false).unwrap().1, 1);

    // Duplicates also removed if separate commits.
    let mut writer = store.writer().unwrap();
    writer
        .add_document(store.index_as_mut(), "foo", &"Foo is great".to_string())
        .unwrap();

    writer.commit(&mut store).unwrap();

    assert_eq!(store.search("is", 0, 10, false).unwrap().1, 1);
}

fn filled(docs: &[(&str, &str)]) -> IndexStore<TestIndex> {
    let mut store = IndexStore::new_in_memory(TestIndex::new()).unwrap();
    let mut writer = store.writer().unwrap();
    for (id, text) in docs {
        writer.add_document(store.index_as_mut(), id, &text.to_string()).unwrap();
    }
    writer.commit(&mut store).unwrap();
    store
}

fn ids(store: &IndexStore<TestIndex>, q: &str) -> Vec<String> {
    let (mut hits, count) = store.search(q, 0, 10, false).unwrap();
    assert_eq!(hits.len(), count);
    hits.sort();
    hits
}

#[test]
fn a_document_that_is_added_again_replaces_the_one_before() {
    let store = filled(&[("foo", "first words"), ("bar", "other words"), ("foo", "second words")]);
    assert_eq!(ids(&store, "first"), Vec::<String>::new());
    assert_eq!(ids(&store, "second"), vec!["foo"]);
    assert_eq!(ids(&store, "words"), vec!["bar", "foo"]);
    assert_eq!(ids(&store, "foo"), vec!["foo"]);
}

#[test]
fn an_identifier_replaces_as_long_as_the_engine_takes_it_for_a_term() {
    for id in ["a".repeat(16_382), "\u{10348}".repeat(16_382), "a".repeat(65_530)] {
        let store = filled(&[(id.as_str(), "first"), ("other", "one"), (id.as_str(), "second")]);
        assert_eq!(store.run(&Query::All, 0, 10, false).unwrap().1, 2);
        assert_eq!(store.search("second", 0, 10, false).unwrap(), (vec![id.clone()], 1));
        assert_eq!(store.search("first", 0, 10, false).unwrap().1, 0);

        let mut store = store;
        let mut writer = store.writer().unwrap();
        writer.delete_document(store.index_as_mut(), id.as_str());
        writer.commit(&mut store).unwrap();
        assert_eq!(store.run(&Query::All, 0, 10, false).unwrap(), (vec!["other".to_string()], 1));
    }
    let long = "a".repeat(65_531);
    let store = filled(&[(long.as_str(), "first"), (long.as_str(), "second")]);
    assert_eq!(store.run(&Query::All, 0, 10, false).unwrap().1, 2);
}

#[test]
fn a_deleted_document_is_not_found_by_any_query() {
    let mut store = filled(&[("foo", "some words"), ("bar", "some words")]);
    assert_eq!(ids(&store, "some"), vec!["bar", "foo"]);
    let mut writer = store.writer().unwrap();
    writer.delete_document(store.index(), "foo");
    // nothing changes before the commit
    assert_eq!(ids(&store, "some"), vec!["bar", "foo"]);
    writer.commit(&mut store).unwrap();
    assert_eq!(ids(&store, "some"), vec!["bar"]);
    assert_eq!(ids(&store, "words"), vec!["bar"]);
    assert_eq!(ids(&store, "foo"), Vec::<String>::new());
    // deleting what is not there changes nothing
    let mut writer = store.writer().unwrap();
    writer.delete_document(store.index(), "foo");
    writer.delete_term(&IndexTerm { field: Field(99), text: "bar".to_string() });
    writer.commit(&mut store).unwrap();
    assert_eq!(ids(&store, "some"), vec!["bar"]);
}

#[test]
fn a_document_that_is_not_lowered_still_deletes_the_one_before() {
    let mut store = filled(&[("foo", "some words"), ("bar", "some words")]);
    store.index_as_mut().refuse = true;
    let mut writer = store.writer().unwrap();
    let added = writer.add_document(store.index_as_mut(), "foo", &"new words".to_string());
    assert!(matches!(added, Err(Error::NotFound)));
    writer.commit(&mut store).unwrap();
    assert_eq!(ids(&store, "some"), vec!["bar"]);
    assert_eq!(ids(&store, "new"), Vec::<String>::new());
    assert_eq!(ids(&store, "foo"), Vec::<String>::new());
}

#[test]
fn a_writer_that_is_dropped_leaves_nothing() {
    let mut store = filled(&[("foo", "some words")]);
    {
        let mut writer = store.writer().unwrap();
        writer.add_document(store.index_as_mut(), "bar", &"more words".to_string()).unwrap();
        writer.delete_document(store.index(), "foo");
    }
    assert_eq!(ids(&store, "words"), vec!["foo"]);
}

#[test]
fn a_store_has_one_writer_at_a_time() {
    let mut store = filled(&[]);
    let first = store.writer().unwrap();
    assert!(matches!(store.writer(), Err(Error::Search(_))));
    first.commit(&mut store).unwrap();
    assert!(store.writer().is_ok());
}

#[test]
fn a_search_returns_a_window_of_the_hits_and_counts_them_all() {
    let store = filled(&[("a", "word"), ("b", "word"), ("c", "word"), ("d", "other")]);
    let (hits, count) = store.search("word", 0, 2, false).unwrap();
    assert_eq!((hits.len(), count), (2, 3));
    let (hits, count) = store.search("word", 2, 2, false).unwrap();
    assert_eq!((hits.len(), count), (1, 3));
    let (hits, count) = store.search("word", 3, 5, false).unwrap();
    assert_eq!((hits.len(), count), (0, 3));
    let (hits, count) = store.search("nothing", 0, 1, false).unwrap();
    assert_eq!((hits.len(), count), (0, 0));
    let (hits, count) = store.run(&Query::All, 0, 10, false).unwrap();
    assert_eq!((hits.len(), count), (4, 4));
}

#[test]
fn a_window_is_as_wide_as_the_caller_asks() {
    let store = filled(&[("a", "word"), ("b", "word"), ("c", "word"), ("d", "other")]);
    let (hits, count) = store.search("word", 0, 2_000_000, false).unwrap();
    assert_eq!((hits.len(), count), (3, 3));
    let (hits, count) = store.search("word", 1_500_000, 1_500_000, false).unwrap();
    assert_eq!((hits.len(), count), (0, 3));
}

#[test]
fn the_hits_come_best_first() {
    let store = filled(&[
        ("long", "word among a good many others that say nothing much"),
        ("short", "word word word"),
        ("none", "nothing"),
    ]);
    let (hits, count) = store.search("word", 0, 10, false).unwrap();
    assert_eq!(count, 2);
    assert_eq!(hits, vec!["short".to_string(), "long".to_string()]);
    let (hits, count) = store.search("word", 1, 10, false).unwrap();
    assert_eq!(count, 2);
    assert_eq!(hits, vec!["long".to_string()]);
}

#[test]
fn a_hit_that_is_not_projected_is_left_out_and_still_counted() {
    let store = filled(&[("a", "word"), ("hidden", "word"), ("c", "word")]);
    let (mut hits, count) = store.search("word", 0, 10, false).unwrap();
    hits.sort();
    assert_eq!(count, 3);
    assert_eq!(hits, vec!["a".to_string(), "c".to_string()]);
    let (hits, count) = store.run(&Query::All, 0, 10, true).unwrap();
    assert_eq!((hits.len(), count), (2, 3));
}

#[test]
fn the_empty_query_returns_every_document() {
    let store = filled(&[("a", "one"), ("b", "two"), ("c", "three")]);
    let (mut hits, count) = store.run(&Query::All, 0, 3, false).unwrap();
    hits.sort();
    assert_eq!(count, 3);
    assert_eq!(hits, vec!["a".to_string(), "b".to_string(), "c".to_string()]);
}

#[test]
fn a_store_is_sorted_by_a_fast_date_or_score_only() {
    assert!(IndexStore::new_in_memory(TestIndex::sorted_by("when")).is_ok());
    assert!(IndexStore::new_in_memory(TestIndex::sorted_by("rank")).is_ok());
    for name in ["seen", "id", "text", "nothing"] {
        let store = IndexStore::new_in_memory(TestIndex::sorted_by(name));
        assert!(matches!(store, Err(Error::Search(_))), "sorted by {name}");
    }
}

#[test]
fn a_query_on_a_field_that_the_index_lacks_fails() {
    let store = filled(&[("a", "word")]);
    let query = Query::Term { field: Field(2), text: "word".to_string() };
    assert!(matches!(store.run(&query, 0, 10, false), Err(Error::Search(_))));
}

#[test]
fn a_pattern_that_the_engine_does_not_take_matches_nothing() {
    let store = filled(&[("a(", "word")]);
    let bad = Query::Regex { field: Field(0), pattern: "a(".to_string() };
    assert_eq!(store.run(&bad, 0, 10, false).unwrap().1, 0);
    let good = Query::Regex { field: Field(0), pattern: "a.".to_string() };
    assert_eq!(store.run(&good, 0, 10, false).unwrap().1, 1);
}

#[test]
fn a_store_in_memory_has_no_snapshot() {
    let mut store = filled(&[]);
    let writer = store.writer().unwrap();
    assert!(matches!(store.snapshot(writer), Err(Error::NotPersisted)));
    assert_eq!(store.reload_target(), None);
    assert!(store.reload(Ok(())).is_ok());
    let failed = std::io::Error::new(std::io::ErrorKind::Other, "no archive");
    assert!(store.reload(Err(failed)).is_ok());
}

#[test]
fn a_store_is_not_opened_where_there_is_no_directory() {
    let missing = format!("/nowhere/{}", fresh_name());
    assert!(matches!(IndexStore::new(missing, TestIndex::new()), Err(Error::Open)));
}

#[test]
fn a_store_is_not_restored_without_a_directory_or_an_archive() {
    let interval = std::time::Duration::from_secs(30);
    let nowhere = IndexConfig { index: None, sync_interval: interval };
    assert!(matches!(IndexStore::restore(&nowhere, Ok(()), TestIndex::new()), Err(Error::Open)));
    let somewhere =
        IndexConfig { index: Some(format!("/nowhere/{}", fresh_name())), sync_interval: interval };
    let failed = std::io::Error::new(std::io::ErrorKind::UnexpectedEof, "cut short");
    match IndexStore::restore(&somewhere, Err(failed), TestIndex::new()) {
        Err(Error::Io(e)) => assert_eq!(e.kind(), std::io::ErrorKind::UnexpectedEof),
        _ => panic!("the failure of the unpacking is passed on"),
    }
    assert!(matches!(IndexStore::restore(&somewhere, Ok(()), TestIndex::new()), Err(Error::Open)));
}

fn empty_archive() -> Vec<u8> {
    tar::Builder::new(Vec::new()).into_inner().unwrap()
}

fn archive_of(path: &str) -> Vec<u8> {
    let encoder = zstd::stream::Encoder::new(Vec::new(), 3).unwrap();
    let mut archive = tar::Builder::new(encoder);
    archive.append_dir_all("", path).unwrap();
    archive.into_inner().unwrap().finish().unwrap()
}

fn unpack(data: &[u8], path: &str) -> std::io::Result<()> {
    tar::Archive::new(zstd::stream::Decoder::new(data)?).unpack(path)
}

#[test]
fn a_snapshot_restores_what_the_store_held() {
    let interval = std::time::Duration::from_secs(30);
    let source = format!("/tmp/{}", fresh_name());
    tar::Archive::new(empty_archive().as_slice()).unpack(&source).unwrap();
    let mut store = IndexStore::new(source.clone(), TestIndex::new()).unwrap();
    assert_eq!(store.reload_target(), Some(source.as_str()));
    let mut writer = store.writer().unwrap();
    writer.add_document(store.index_as_mut(), "foo", &"Foo is great".to_string()).unwrap();
    writer.add_document(store.index_as_mut(), "bar", &"Bar is great too".to_string()).unwrap();
    let lease = store.snapshot(writer).unwrap();
    assert_eq!(lease.path, source);
    // no writer while the directory is archived
    assert!(matches!(store.writer(), Err(Error::Search(_))));
    let archive = archive_of(&lease.path);
    drop(lease);
    assert!(store.writer().is_ok());

    let target = format!("/tmp/{}", fresh_name());
    let config = IndexConfig { index: Some(target.clone()), sync_interval: interval };
    let restored =
        IndexStore::restore(&config, unpack(&archive, &target), TestIndex::new()).unwrap();
    for q in ["is", "great", "too", "foo", "nothing"] {
        assert_eq!(ids(&restored, q), ids(&store, q));
    }
    assert_eq!(ids(&restored, "is"), vec!["bar", "foo"]);

    // the source moves on, and the restored store is reloaded from it
    let mut writer = store.writer().unwrap();
    writer.delete_document(store.index(), "foo");
    let archive = archive_of(&store.snapshot(writer).unwrap().path);
    let mut restored = restored;
    let unpacked = unpack(&archive, restored.reload_target().unwrap());
    restored.reload(unpacked).unwrap();
    assert_eq!(ids(&restored, "is"), vec!["bar"]);
    assert_eq!(ids(&restored, "is"), ids(&store, "is"));
}
