//! The index store: it owns the index, hands out its writer, and runs the
//! searches. What a document is, how it is lowered and how a query is read
//! is the business of the schema plug-in, the [`Index`].

use crate::document::{Document, Entry, ValueView};
use crate::engine::documents::{engine_entries, to_engine, EngineDocument};
use crate::engine::fields::{declare_all, kept_fields, sortable_fields, whole_fields};
use crate::engine::index::{
    account_json, applied, create_in_ram, documents_at, engine_account, engine_excerpt,
    engine_explain, engine_ranking, engine_search, engine_snippet, explanation_json, field_count,
    field_not_found, found, index_docs, index_key, indexed_whole, is_hit, lock_writers,
    open_directory, open_or_create, open_searcher, open_writer, ranks, searcher_at, searcher_doc,
    searcher_docs, searcher_field_count, searcher_key, searcher_stored, settings_compression,
    settings_default, settings_sort, settings_sorted_down, settings_sorted_up, settings_stored_lz4,
    settings_stored_plain, settings_stored_zstd, short_term, sort_taken, stored_as_indexed, stored_fields, sync_directory, term_finds,
    whole_terms, window_fits, windowed, writer_add, writer_commit, writer_delete,
    writer_field_count, writer_key, writer_ops, writer_wait, DocAddress, EngineIndex, EngineWriter,
    Found, WriteOp,
};
use crate::engine::queries::{embedded, engine_clauses, engine_finds, to_engine_query};
use crate::error::Error;
use crate::query::{fields_below, Field, IndexTerm, Occur, Query, QueryView};
use crate::schema::Schema;
use std::time::Duration;
use vstd::multiset::Multiset;
use vstd::prelude::*;

verus! {

/// The bytes that a writer may use for the documents it has not written
/// out yet.
pub const WRITER_MEMORY: usize = 100_000_000;

/// `Duration::clone`: a copy of the duration.
pub assume_specification[ <Duration as Clone>::clone ](duration: &Duration) -> (copy: Duration)
    ensures
        copy == *duration,
;

/// Where the index lives and how often it is synchronized.
#[derive(Clone, Debug)]
pub struct IndexConfig {
    /// The directory of the index. Without one, the index lives in a new
    /// directory under the directory for temporary files.
    pub index: Option<String>,
    /// The time between two synchronizations of the index.
    pub sync_interval: Duration,
}

/// The direction of a sort.
#[derive(Clone, Copy, Debug, PartialEq, Eq, Structural)]
pub enum Order {
    Asc,
    Desc,
}

/// The field by which the documents of an index are kept sorted.
#[derive(Debug, PartialEq, Eq)]
pub struct IndexSortByField {
    pub field: String,
    pub order: Order,
}

/// How the stored documents are compressed.
#[derive(Clone, Copy, Debug, PartialEq, Eq, Structural)]
pub enum Compressor {
    Plain,
    Lz4,
    Zstd,
}

/// The settings of an index.
#[derive(Debug, PartialEq, Eq)]
pub struct Settings {
    pub sort_by_field: Option<IndexSortByField>,
    pub docstore_compression: Compressor,
}

/// What a domain supplies to have its documents indexed and searched.
pub trait Index {
    /// What a search returns for a hit.
    type MatchedDocument;

    /// What is indexed.
    type Document;

    /// The field in which a document carries its identifier.
    spec fn identity(&self) -> Field;

    /// The settings of the index.
    fn settings(&self) -> Settings;

    /// The declaration of the fields.
    fn schema(&self) -> (schema: Schema)
        ensures
            schema.wf(),
    ;

    /// Parses a query. The empty text is the query for all documents; a text
    /// that is no query fails with `Parser`.
    fn prepare_query(&self, q: &str) -> (query: Result<Query, Error>)
        ensures
            q@.len() == 0 ==> query is Ok,
            match query {
                Ok(parsed) => q@.len() == 0 ==> parsed@ is All,
                Err(e) => e is Parser,
            },
    ;

    /// Projects a hit of a search into what the search returns for it. The
    /// searcher knows the address, and the query names fields of the index
    /// only.
    fn process_hit(
        &self,
        doc: DocAddress,
        score: u32,
        searcher: &tantivy::Searcher,
        query: &tantivy::query::BooleanQuery,
        explain: bool,
    ) -> (hit: Result<Self::MatchedDocument, Error>)
        requires
            searcher_at(*searcher, doc) is Some,
            fields_below(
                QueryView::Boolean { clauses: engine_clauses(*query) },
                field_count(searcher_key(*searcher)),
            ),
    ;

    /// Lowers a document into the primitive documents that are indexed for
    /// it. Each of them carries the identifier in the identity field.
    fn index_doc(&self, id: &str, document: &Self::Document) -> (docs: Result<Vec<Document>, Error>)
        ensures
            docs matches Ok(lowered) ==> forall|i: int|
                0 <= i < lowered.len() ==> (#[trigger] lowered[i])@.contains(
                    (self.identity(), ValueView::Text(id@)),
                ),
    ;

    /// The term by which the documents of an identifier are deleted: the
    /// identifier, in the identity field.
    fn doc_id_to_term(&self, id: &str) -> (term: IndexTerm)
        ensures
            term.field == self.identity(),
            term.text@ == id@,
    ;
}

/// The field by which some settings keep the documents sorted, with the
/// direction of the sort, if they name one.
pub open spec fn sort_of(settings: Settings) -> Option<(Seq<char>, Order)> {
    match settings.sort_by_field {
        Some(sort) => Some((sort.field@, sort.order)),
        None => None,
    }
}

/// Whether the engine makes an index for a schema with some settings: the
/// settings name no field to sort by, or they name a field of the schema
/// that is a fast field of dates or of scores.
pub open spec fn sort_accepted(schema: Schema, settings: Settings) -> bool {
    sort_taken(schema.names(), sortable_fields(schema), sort_of(settings))
}

/// The engine's settings for the settings of a plug-in: they sort by the
/// same field in the same direction, or by none, and compress the stored
/// documents in the same way.
fn engine_settings(settings: &Settings) -> (engine: tantivy::IndexSettings)
    ensures
        settings_sort(engine) == sort_of(*settings),
        settings_compression(engine) == Some(settings.docstore_compression),
{
    let mut engine = settings_default();
    if let Some(sort) = &settings.sort_by_field {
        engine = match sort.order {
            Order::Asc => settings_sorted_up(engine, sort.field.as_str()),
            Order::Desc => settings_sorted_down(engine, sort.field.as_str()),
        };
    }
    match settings.docstore_compression {
        Compressor::Plain => settings_stored_plain(engine),
        Compressor::Lz4 => settings_stored_lz4(engine),
        Compressor::Zstd => settings_stored_zstd(engine),
    }
}

/// A store of documents that can be searched.
pub struct IndexStore<INDEX: Index> {
    inner: EngineIndex,
    path: Option<String>,
    index: INDEX,
}

/// The capability to change an index. An index has at most one writer at a
/// time; what a writer has taken becomes part of the index when the writer
/// is committed.
pub struct IndexWriter {
    writer: EngineWriter,
}

/// The changes that add some documents, in their order.
pub open spec fn additions(docs: Seq<Seq<Entry>>) -> Seq<WriteOp> {
    Seq::new(docs.len(), |i: int| WriteOp::Add(docs[i]))
}

/// The change that deletes the documents of a term, if the index has the
/// term's field; no change otherwise.
pub open spec fn deletion(key: int, field: Field, text: Seq<char>) -> Seq<WriteOp> {
    if (field.0 as nat) < field_count(key) {
        seq![WriteOp::Delete(field, text)]
    } else {
        Seq::empty()
    }
}

/// The changes that replace the documents of a term by some documents.
pub open spec fn replacement(key: int, field: Field, text: Seq<char>, docs: Seq<Seq<Entry>>) -> Seq<
    WriteOp,
> {
    deletion(key, field, text) + additions(docs)
}

/// The documents of a list as mathematical values.
pub open spec fn entries_of(docs: Seq<Document>) -> Seq<Seq<Entry>> {
    Seq::new(docs.len(), |i: int| docs[i]@)
}

impl IndexWriter {
    /// The changes that the writer holds.
    pub closed spec fn ops(self) -> Seq<WriteOp> {
        writer_ops(self.writer)
    }

    /// The key of the index that the writer writes to.
    pub closed spec fn key(self) -> int {
        writer_key(self.writer)
    }

    /// Takes the deletion of the documents of a term. A term of a field that
    /// the index lacks deletes nothing. Where the field's values are indexed
    /// whole and the text is short enough to be a term, the deletion takes
    /// every document that holds the text as a value of the field.
    pub fn delete_term(&mut self, term: &IndexTerm)
        ensures
            final(self).key() == old(self).key(),
            final(self).ops() == old(self).ops() + deletion(
                old(self).key(),
                term.field,
                term.text@,
            ),
            indexed_whole(old(self).key(), term.field) && short_term(term.text@) ==> term_finds(
                old(self).key(),
                term.field,
                term.text@,
            ),
    {
        if (term.field.0 as usize) < writer_field_count(&self.writer) {
            writer_delete(&mut self.writer, term);
        }
    }

    /// Takes the deletion of the documents of an identifier. It takes effect
    /// when the writer is committed. Where the identifiers are indexed
    /// whole and this one is short enough to be a term, the deletion takes
    /// every document that holds the identifier in the identity field.
    pub fn delete_document<INDEX: Index>(&mut self, index: &INDEX, key: &str)
        ensures
            final(self).key() == old(self).key(),
            final(self).ops() == old(self).ops() + deletion(
                old(self).key(),
                index.identity(),
                key@,
            ),
            indexed_whole(old(self).key(), index.identity()) && short_term(key@) ==> term_finds(
                old(self).key(),
                index.identity(),
                key@,
            ),
    {
        let term = index.doc_id_to_term(key);
        self.delete_term(&term);
    }

    /// Takes the addition of some documents, in their order. It stops at the
    /// first document that the engine refuses.
    pub fn add_documents(&mut self, docs: &Vec<Document>) -> (added: Result<(), Error>)
        ensures
            final(self).key() == old(self).key(),
            match added {
                Ok(()) => final(self).ops() == old(self).ops() + additions(entries_of(docs@)),
                Err(e) => e is Search && exists|k: int|
                    0 <= k < docs.len() && final(self).ops() == old(self).ops() + #[trigger] additions(
                        entries_of(docs@.take(k)),
                    ),
            },
    {
        let mut i: usize = 0;
        while i < docs.len()
            invariant
                i <= docs.len(),
                self.key() == old(self).key(),
                self.ops() == old(self).ops() + additions(entries_of(docs@.take(i as int))),
            decreases docs.len() - i,
        {
            let engine = to_engine(&docs[i]);
            match writer_add(&mut self.writer, engine) {
                Ok(()) => {},
                Err(e) => {
                    return Err(Error::Search(e));
                },
            }
            assert(additions(entries_of(docs@.take(i + 1))) =~= additions(
                entries_of(docs@.take(i as int)),
            ).push(WriteOp::Add(docs[i as int]@)));
            i += 1;
        }
        assert(docs@.take(i as int) =~= docs@);
        Ok(())
    }

    /// Replaces the documents of an identifier: takes the deletion of the
    /// documents that the index holds for it, then the addition of the
    /// primitive documents that the plug-in lowers the document to. The
    /// deletion is taken whatever follows. Where the plug-in does not lower
    /// the document, its error is passed on and nothing is added; where the
    /// engine refuses one of the lowered documents, those before it have
    /// been added.
    pub fn add_document<INDEX: Index>(&mut self, index: &mut INDEX, id: &str, raw: &INDEX::Document) -> (added:
        Result<(), Error>)
        ensures
            final(self).key() == old(self).key(),
            *final(index) == *old(index),
            indexed_whole(old(self).key(), old(index).identity()) && short_term(id@) ==> term_finds(
                old(self).key(),
                old(index).identity(),
                id@,
            ),
            match added {
                Ok(()) => exists|docs: Vec<Document>|
                    {
                        &&& call_ensures(INDEX::index_doc, (&*old(index), id, raw), Ok(docs))
                        &&& final(self).ops() == old(self).ops() + #[trigger] replacement(
                            old(self).key(),
                            old(index).identity(),
                            id@,
                            entries_of(docs@),
                        )
                    },
                Err(e) => {
                    ||| {
                        &&& call_ensures(INDEX::index_doc, (&*old(index), id, raw), Err(e))
                        &&& final(self).ops() == old(self).ops() + deletion(
                            old(self).key(),
                            old(index).identity(),
                            id@,
                        )
                    }
                    ||| {
                        &&& e is Search
                        &&& exists|docs: Vec<Document>, k: int|
                            {
                                &&& call_ensures(
                                    INDEX::index_doc,
                                    (&*old(index), id, raw),
                                    Ok(docs),
                                )
                                &&& 0 <= k < docs.len()
                                &&& final(self).ops() == old(self).ops() + #[trigger] replacement(
                                    old(self).key(),
                                    old(index).identity(),
                                    id@,
                                    entries_of(docs@.take(k)),
                                )
                            }
                    }
                },
            },
    {
        self.delete_document(&*index, id);
        let docs = match index.index_doc(id, raw) {
            Ok(docs) => docs,
            Err(e) => {
                return Err(e);
            },
        };
        let ghost deleted = self.ops();
        match self.add_documents(&docs) {
            Ok(()) => {
                assert(self.ops() =~= old(self).ops() + replacement(
                    old(self).key(),
                    old(index).identity(),
                    id@,
                    entries_of(docs@),
                ));
                Ok(())
            },
            Err(e) => {
                proof {
                    let k = choose|k: int|
                        0 <= k < docs.len() && self.ops() == deleted + #[trigger] additions(
                            entries_of(docs@.take(k)),
                        );
                    assert(self.ops() =~= old(self).ops() + replacement(
                        old(self).key(),
                        old(index).identity(),
                        id@,
                        entries_of(docs@.take(k)),
                    ));
                }
                Err(e)
            },
        }
    }

    /// Commits the writer to its store, which is the store that opened it:
    /// the changes that it holds become part of the index, in their order,
    /// and the call returns when the engine has merged what it wants to
    /// merge.
    pub fn commit<INDEX: Index>(self, store: &mut IndexStore<INDEX>) -> (committed: Result<
        (),
        Error,
    >)
        requires
            self.key() == old(store).key(),
        ensures
            final(store).key() == old(store).key(),
            final(store).path() == old(store).path(),
            final(store).plugin() == old(store).plugin(),
            match committed {
                Ok(()) => final(store).docs() == applied(
                    old(store).key(),
                    old(store).docs(),
                    self.ops(),
                ),
                Err(e) => e is Search,
            },
    {
        let mut writer = self.writer;
        match writer_commit(&mut writer, &mut store.inner) {
            Ok(()) => {},
            Err(e) => {
                return Err(Error::Search(e));
            },
        }
        match writer_wait(writer) {
            Ok(()) => Ok(()),
            Err(e) => Err(Error::Search(e)),
        }
    }
}

/// What a snapshot needs from the store while the directory is archived:
/// the directory, and the lock that keeps writers away. The lock is given
/// up when the lease is dropped.
pub struct SnapshotLease {
    pub path: String,
    pub lock: Option<tantivy::directory::DirectoryLock>,
}

impl<INDEX: Index> IndexStore<INDEX> {
    /// The documents that the store holds.
    pub closed spec fn docs(self) -> Multiset<Seq<Entry>> {
        index_docs(self.inner)
    }

    /// Which index the store owns.
    pub closed spec fn key(self) -> int {
        index_key(self.inner)
    }

    /// The directory of the store, if it has one.
    pub closed spec fn path(self) -> Option<Seq<char>> {
        match self.path {
            Some(path) => Some(path@),
            None => None,
        }
    }

    /// The plug-in of the store.
    pub closed spec fn plugin(self) -> INDEX {
        self.index
    }

    /// Makes a store in memory, for the schema and the settings of the
    /// plug-in. It holds no document. It is made exactly where the engine
    /// takes the sorting of the settings; otherwise it fails with `Search`.
    pub fn new_in_memory(index: INDEX) -> (store: Result<Self, Error>)
        ensures
            exists|schema: Schema, settings: Settings|
                #![trigger call_ensures(INDEX::schema, (&index,), schema), call_ensures(INDEX::settings, (&index,), settings)]
                {
                    &&& call_ensures(INDEX::schema, (&index,), schema)
                    &&& call_ensures(INDEX::settings, (&index,), settings)
                    &&& store is Ok <==> sort_accepted(schema, settings)
                    &&& store matches Ok(s) ==> field_count(s.key()) == schema.names().len()
                        && whole_terms(s.key()) == whole_fields(schema) && stored_fields(s.key())
                        == kept_fields(schema)
                },
            match store {
                Ok(s) => s.docs() == Multiset::<Seq<Entry>>::empty() && s.path() is None
                    && s.plugin() == index,
                Err(e) => e is Search,
            },
    {
        let schema = index.schema();
        let settings = index.settings();
        match create_in_ram(declare_all(&schema), engine_settings(&settings)) {
            Ok(inner) => Ok(IndexStore { inner, index, path: None }),
            Err(e) => Err(Error::Search(e)),
        }
    }

    /// Opens the store of a directory, which must exist. An index is made in
    /// the directory if it holds none; an index that it holds is used again.
    /// It fails with `Open` where the directory cannot be opened, and with
    /// `Search` where the engine does not make or take the index.
    pub fn new(path: String, index: INDEX) -> (store: Result<Self, Error>)
        ensures
            match store {
                Ok(s) => {
                    &&& s.path() == Some(path@)
                    &&& s.plugin() == index
                    &&& exists|schema: Schema| #[trigger]
                        call_ensures(INDEX::schema, (&index,), schema) && field_count(s.key())
                            == schema.names().len() && whole_terms(s.key()) == whole_fields(schema)
                            && stored_fields(s.key()) == kept_fields(schema)
                },
                Err(e) => e is Open || e is Search,
            },
    {
        let schema = index.schema();
        let settings = index.settings();
        match open_directory(path.as_str()) {
            None => Err(Error::Open),
            Some(directory) => match open_or_create(
                declare_all(&schema),
                engine_settings(&settings),
                directory,
            ) {
                Ok(inner) => Ok(IndexStore { inner, index, path: Some(path) }),
                Err(e) => Err(Error::Search(e)),
            },
        }
    }

    /// The plug-in.
    pub fn index(&self) -> (index: &INDEX)
        ensures
            *index == self.plugin(),
    {
        &self.index
    }

    /// The plug-in, to change it. The index stays as it is.
    pub fn index_as_mut(&mut self) -> (index: &mut INDEX)
        ensures
            *index == old(self).plugin(),
            final(self).plugin() == *final(index),
            final(self).docs() == old(self).docs(),
            final(self).key() == old(self).key(),
            final(self).path() == old(self).path(),
    {
        &mut self.index
    }

    /// Opens the writer of the store. It fails with `Search` while another
    /// writer of the store lives.
    pub fn writer(&mut self) -> (writer: Result<IndexWriter, Error>)
        ensures
            *final(self) == *old(self),
            match writer {
                Ok(w) => w.ops() == Seq::<WriteOp>::empty() && w.key() == old(self).key(),
                Err(e) => e is Search,
            },
    {
        match open_writer(&self.inner, WRITER_MEMORY) {
            Ok(writer) => Ok(IndexWriter { writer }),
            Err(e) => Err(Error::Search(e)),
        }
    }

    /// Whether a searcher sees what the store holds.
    pub open spec fn seen_by(self, searcher: tantivy::Searcher) -> bool {
        searcher_docs(searcher) == self.docs() && searcher_key(searcher) == self.key()
    }

    /// Whether `hits` and `count` are the store's answer to a query: on
    /// what a searcher of the store sees, and with the engine's form of the
    /// query, `count` is the number of documents that the engine finds, and
    /// `hits` are the projections of the `len` best of them after the
    /// `offset` best, in their order, without those whose projection fails.
    pub open spec fn answered(
        self,
        query: QueryView,
        offset: usize,
        len: usize,
        explain: bool,
        hits: Seq<INDEX::MatchedDocument>,
        count: usize,
    ) -> bool {
        exists|searcher: tantivy::Searcher, engine: tantivy::query::BooleanQuery|
            {
                &&& self.seen_by(searcher)
                &&& engine_clauses(engine) == embedded(query)
                &&& #[trigger] answer_on(
                    self.plugin(),
                    searcher,
                    engine,
                    offset,
                    len,
                    explain,
                    hits,
                    count,
                )
            }
    }

    /// Projects the documents that a search has found, in their order. A
    /// document whose projection fails is left out.
    pub fn project_all(
        &self,
        searcher: &tantivy::Searcher,
        engine: &tantivy::query::BooleanQuery,
        found: &Vec<Found>,
        explain: bool,
    ) -> (hits: Vec<INDEX::MatchedDocument>)
        requires
            forall|i: int|
                0 <= i < found.len() ==> (#[trigger] searcher_at(*searcher, found[i].address))
                    is Some,
            fields_below(
                QueryView::Boolean { clauses: engine_clauses(*engine) },
                field_count(searcher_key(*searcher)),
            ),
        ensures
            projects_to(self.plugin(), *searcher, *engine, explain, found@, hits@),
    {
        let mut hits: Vec<INDEX::MatchedDocument> = Vec::new();
        let mut i: usize = 0;
        assert(found@.take(0) =~= Seq::<Found>::empty());
        while i < found.len()
            invariant
                i <= found.len(),
                forall|j: int|
                    0 <= j < found.len() ==> (#[trigger] searcher_at(*searcher, found[j].address))
                        is Some,
                fields_below(
                    QueryView::Boolean { clauses: engine_clauses(*engine) },
                    field_count(searcher_key(*searcher)),
                ),
                projects_to(
                    self.plugin(),
                    *searcher,
                    *engine,
                    explain,
                    found@.take(i as int),
                    hits@,
                ),
            decreases found.len() - i,
        {
            let hit: Found = found[i];
            assert(searcher_at(*searcher, found[i as int].address) is Some);
            let ghost before = hits@;
            proof {
                assert(found@.take(i + 1).drop_last() =~= found@.take(i as int));
                assert(found@.take(i + 1).last() == hit);
            }
            match self.index.process_hit(hit.address, hit.score, searcher, engine, explain) {
                Ok(value) => {
                    hits.push(value);
                    assert(hits@.drop_last() =~= before);
                },
                Err(_) => {},
            }
            i += 1;
        }
        assert(found@.take(i as int) =~= found@);
        hits
    }

    /// Runs a query on the store as it is now. Returns the projections of
    /// the `len` best hits after the `offset` best, and the number of all
    /// documents that the query matches. A hit whose projection fails is
    /// left out, and still counted. A query that names a field that the
    /// index lacks fails with `Search`, as does the engine's failure.
    pub fn run(&self, query: &Query, offset: usize, len: usize, explain: bool) -> (result: Result<
        (Vec<INDEX::MatchedDocument>, usize),
        Error,
    >)
        requires
            len >= 1,
            window_fits(offset, len),
        ensures
            !fields_below(query@, field_count(self.key())) ==> result is Err,
            match result {
                Ok((hits, count)) => {
                    &&& self.answered(query@, offset, len, explain, hits@, count)
                    &&& count == found(self.key(), embedded(query@), self.docs()).len()
                    &&& hits.len() <= window(count as int, offset as int, len as int)
                    &&& query@ is All ==> count == self.docs().len() && found(
                        self.key(),
                        embedded(query@),
                        self.docs(),
                    ) == self.docs()
                },
                Err(e) => e is Search,
            },
    {
        let searcher = match open_searcher(&self.inner) {
            Ok(searcher) => searcher,
            Err(e) => {
                return Err(Error::Search(e));
            },
        };
        self.run_on(&searcher, query, offset, len, explain)
    }

    /// Runs a query on what a searcher of the store sees.
    fn run_on(
        &self,
        searcher: &tantivy::Searcher,
        query: &Query,
        offset: usize,
        len: usize,
        explain: bool,
    ) -> (result: Result<(Vec<INDEX::MatchedDocument>, usize), Error>)
        requires
            len >= 1,
            window_fits(offset, len),
            self.seen_by(*searcher),
        ensures
            !fields_below(query@, field_count(self.key())) ==> result is Err,
            match result {
                Ok((hits, count)) => {
                    &&& self.answered(query@, offset, len, explain, hits@, count)
                    &&& count == found(self.key(), embedded(query@), self.docs()).len()
                    &&& hits.len() <= window(count as int, offset as int, len as int)
                    &&& query@ is All ==> count == self.docs().len() && found(
                        self.key(),
                        embedded(query@),
                        self.docs(),
                    ) == self.docs()
                },
                Err(e) => e is Search,
            },
    {
        let fields = searcher_field_count(searcher);
        if !query.names_fields_below(fields) {
            return Err(Error::Search(field_not_found("a field of the query")));
        }
        let engine = to_engine_query(query);
        proof {
            lemma_embedded_fields(query@, fields as nat);
        }
        let (top_docs, count) = match engine_search(searcher, &engine, offset, len) {
            Ok(found) => found,
            Err(e) => {
                return Err(Error::Search(e));
            },
        };
        let ghost ranking = engine_ranking(*searcher, engine_clauses(engine));
        assert forall|i: int| 0 <= i < top_docs.len() implies (#[trigger] searcher_at(
            *searcher,
            top_docs[i].address,
        )) is Some by {
            let at = if ranking.len() <= offset {
                0
            } else {
                offset + i
            };
            assert(top_docs[i] == ranking[at]);
            assert(is_hit(*searcher, engine_clauses(engine), searcher_at(*searcher, ranking[at].address)));
        }
        let hits = self.project_all(searcher, &engine, &top_docs, explain);
        proof {
            documents_at(*searcher, ranking).to_multiset_ensures();
            lemma_projection_length(self.plugin(), *searcher, engine, explain, top_docs@, hits@);
            if query@ is All {
                lemma_all_found(
                    searcher_key(*searcher),
                    engine_clauses(engine),
                    searcher_docs(*searcher),
                );
            }
            assert(answer_on(self.plugin(), *searcher, engine, offset, len, explain, hits@, count));
        }
        Ok((hits, count))
    }

    /// Searches the store: parses the query with the plug-in and runs what
    /// the plug-in made of it. The empty query counts every document of the
    /// store. A text that the plug-in does not take fails with the plug-in's
    /// error.
    pub fn search(&self, q: &str, offset: usize, len: usize, explain: bool) -> (result: Result<
        (Vec<INDEX::MatchedDocument>, usize),
        Error,
    >)
        requires
            len >= 1,
            window_fits(offset, len),
        ensures
            match result {
                Ok((hits, count)) => {
                    &&& exists|query: Query|
                        {
                            &&& #[trigger] call_ensures(
                                INDEX::prepare_query,
                                (&self.plugin(), q),
                                Ok(query),
                            )
                            &&& fields_below(query@, field_count(self.key()))
                            &&& self.answered(query@, offset, len, explain, hits@, count)
                            &&& count == found(self.key(), embedded(query@), self.docs()).len()
                            &&& q@.len() == 0 ==> found(
                                self.key(),
                                embedded(query@),
                                self.docs(),
                            ) == self.docs()
                        }
                    &&& hits.len() <= window(count as int, offset as int, len as int)
                    &&& q@.len() == 0 ==> count == self.docs().len()
                },
                Err(e) => e is Search || call_ensures(
                    INDEX::prepare_query,
                    (&self.plugin(), q),
                    Err(e),
                ),
            },
    {
        let searcher = match open_searcher(&self.inner) {
            Ok(searcher) => searcher,
            Err(e) => {
                return Err(Error::Search(e));
            },
        };
        let query = match self.index.prepare_query(q) {
            Ok(query) => query,
            Err(e) => {
                return Err(e);
            },
        };
        self.run_on(&searcher, &query, offset, len, explain)
    }

    /// The directory that an archive is unpacked into to reload the store,
    /// if the store has a directory.
    pub fn reload_target(&self) -> (target: Option<&str>)
        ensures
            match target {
                Some(path) => self.path() == Some(path@),
                None => self.path() is None,
            },
    {
        match &self.path {
            Some(path) => Some(path.as_str()),
            None => None,
        }
    }

    /// Reloads the store after an archive was unpacked into its directory,
    /// given how the unpacking went. A store without a directory stays as
    /// it is. A failure of the unpacking is passed on; after a success the
    /// store is opened again on what the directory holds now, which fails
    /// with `Open` or `Search`. Of a store with a directory nothing is
    /// said of what it holds afterwards, whatever the outcome: the
    /// unpacking has written to its directory.
    pub fn reload(&mut self, unpacked: Result<(), std::io::Error>) -> (reloaded: Result<(), Error>)
        ensures
            final(self).path() == old(self).path(),
            final(self).plugin() == old(self).plugin(),
            old(self).path() is None ==> reloaded is Ok && *final(self) == *old(self),
            old(self).path() is Some ==> match (unpacked, reloaded) {
                (Err(failed), Err(e)) => e == Error::Io(failed),
                (Err(_), Ok(_)) => false,
                (Ok(_), Err(e)) => e is Open || e is Search,
                (Ok(_), Ok(_)) => true,
            },
    {
        let directory = match &self.path {
            None => {
                return Ok(());
            },
            Some(path) => {
                if let Err(e) = unpacked {
                    return Err(Error::Io(e));
                }
                open_directory(path.as_str())
            },
        };
        let schema = self.index.schema();
        let settings = self.index.settings();
        match directory {
            None => Err(Error::Open),
            Some(directory) => match open_or_create(
                declare_all(&schema),
                engine_settings(&settings),
                directory,
            ) {
                Ok(inner) => {
                    self.inner = inner;
                    Ok(())
                },
                Err(e) => Err(Error::Search(e)),
            },
        }
    }

    /// Opens the store of the directory that an archive was unpacked into,
    /// given how the unpacking went. It fails with `Open` where the
    /// configuration names no directory, and with the failure of the
    /// unpacking where there was one.
    pub fn restore(config: &IndexConfig, unpacked: Result<(), std::io::Error>, index: INDEX) -> (store:
        Result<Self, Error>)
        ensures
            match store {
                Ok(s) => config.index matches Some(path) && unpacked is Ok && s.path() == Some(
                    path@,
                ) && s.plugin() == index,
                Err(e) => match (config.index, unpacked) {
                    (None, _) => e is Open,
                    (Some(_), Err(failed)) => e == Error::Io(failed),
                    (Some(_), Ok(_)) => e is Open || e is Search,
                },
            },
    {
        match &config.index {
            None => Err(Error::Open),
            Some(path) => match unpacked {
                Err(e) => Err(Error::Io(e)),
                Ok(()) => Self::new(path.clone(), index),
            },
        }
    }

    /// Prepares a snapshot: commits the writer, which is the writer of this
    /// store, makes the directory durable and locks it against writers. The
    /// lease tells which directory to archive; the lock lasts as long as
    /// the lease. A store in memory has nothing to archive: it fails with
    /// `NotPersisted` and the writer is dropped with what it held.
    pub fn snapshot(&mut self, writer: IndexWriter) -> (lease: Result<SnapshotLease, Error>)
        requires
            old(self).path() is Some ==> writer.key() == old(self).key(),
        ensures
            final(self).key() == old(self).key(),
            final(self).path() == old(self).path(),
            final(self).plugin() == old(self).plugin(),
            match lease {
                Ok(granted) => {
                    &&& old(self).path() == Some(granted.path@)
                    &&& final(self).docs() == applied(
                        old(self).key(),
                        old(self).docs(),
                        writer.ops(),
                    )
                },
                Err(e) => if old(self).path() is None {
                    e is NotPersisted && *final(self) == *old(self)
                } else {
                    e is Search || e is Io
                },
            },
    {
        let path = match &self.path {
            Some(path) => path.clone(),
            None => {
                return Err(Error::NotPersisted);
            },
        };
        writer.commit(self)?;
        match sync_directory(&mut self.inner) {
            Ok(()) => {},
            Err(e) => {
                return Err(Error::Io(e));
            },
        }
        let lock = lock_writers(&mut self.inner);
        Ok(SnapshotLease { path, lock })
    }
}

/// Whether `hits` are the projections of some found documents by a
/// plug-in, in their order: each found document is projected with its
/// address and score, the searcher, the query and the wish for an account
/// of the score; what the projection gives is the next hit, and where the
/// projection fails there is no hit for the document.
pub open spec fn projects_to<INDEX: Index>(
    plugin: INDEX,
    searcher: tantivy::Searcher,
    engine: tantivy::query::BooleanQuery,
    explain: bool,
    found: Seq<Found>,
    hits: Seq<INDEX::MatchedDocument>,
) -> bool
    decreases found.len(),
{
    if found.len() == 0 {
        hits.len() == 0
    } else {
        let last = found.last();
        ||| {
            &&& hits.len() > 0
            &&& call_ensures(
                INDEX::process_hit,
                (&plugin, last.address, last.score, &searcher, &engine, explain),
                Ok(hits.last()),
            )
            &&& projects_to(plugin, searcher, engine, explain, found.drop_last(), hits.drop_last())
        }
        ||| {
            &&& exists|e: Error|
                call_ensures(
                    INDEX::process_hit,
                    (&plugin, last.address, last.score, &searcher, &engine, explain),
                    Err(e),
                )
            &&& projects_to(plugin, searcher, engine, explain, found.drop_last(), hits)
        }
    }
}

/// Whether `hits` and `count` answer the engine's form of a query on what a
/// searcher sees: `count` is the length of the engine's ranking of the
/// documents that it finds, the ranking lists exactly those documents, and
/// `hits` are the projections of its window.
pub open spec fn answer_on<INDEX: Index>(
    plugin: INDEX,
    searcher: tantivy::Searcher,
    engine: tantivy::query::BooleanQuery,
    offset: usize,
    len: usize,
    explain: bool,
    hits: Seq<INDEX::MatchedDocument>,
    count: usize,
) -> bool {
    let ranking = engine_ranking(searcher, engine_clauses(engine));
    &&& count == ranking.len()
    &&& ranks(searcher, engine_clauses(engine), ranking)
    &&& projects_to(plugin, searcher, engine, explain, windowed(ranking, offset, len), hits)
}

/// There are no more hits than found documents.
pub proof fn lemma_projection_length<INDEX: Index>(
    plugin: INDEX,
    searcher: tantivy::Searcher,
    engine: tantivy::query::BooleanQuery,
    explain: bool,
    found: Seq<Found>,
    hits: Seq<INDEX::MatchedDocument>,
)
    requires
        projects_to(plugin, searcher, engine, explain, found, hits),
    ensures
        hits.len() <= found.len(),
    decreases found.len(),
{
    if found.len() > 0 {
        let last = found.last();
        if hits.len() > 0 && call_ensures(
            INDEX::process_hit,
            (&plugin, last.address, last.score, &searcher, &engine, explain),
            Ok(hits.last()),
        ) && projects_to(plugin, searcher, engine, explain, found.drop_last(), hits.drop_last()) {
            lemma_projection_length(
                plugin,
                searcher,
                engine,
                explain,
                found.drop_last(),
                hits.drop_last(),
            );
        } else {
            lemma_projection_length(plugin, searcher, engine, explain, found.drop_last(), hits);
        }
    }
}

/// The number of hits that a search returns at most: what is left of
/// `count` matches after the first `offset`, up to `len`.
pub open spec fn window(count: int, offset: int, len: int) -> int {
    if count <= offset {
        0
    } else if count - offset <= len {
        count - offset
    } else {
        len
    }
}

/// The engine query that stands for a query names no field that the query
/// does not name.
pub proof fn lemma_embedded_fields(query: QueryView, n: nat)
    requires
        fields_below(query, n),
    ensures
        fields_below(QueryView::Boolean { clauses: embedded(query) }, n),
    decreases query,
{
    match query {
        QueryView::Boolean { clauses } => {
            assert forall|i: int| 0 <= i < embedded(query).len() implies fields_below(
                (#[trigger] embedded(query)[i]).1,
                n,
            ) by {
                lemma_embedded_fields(clauses[i].1, n);
            }
        },
        _ => {},
    }
}

/// Where no projection can fail, there is a hit for each found document:
/// the hits are, one for one and in the order of the found documents, what
/// the plug-in made of them.
pub proof fn lemma_projection_complete<INDEX: Index>(
    plugin: INDEX,
    searcher: tantivy::Searcher,
    engine: tantivy::query::BooleanQuery,
    explain: bool,
    found: Seq<Found>,
    hits: Seq<INDEX::MatchedDocument>,
)
    requires
        projects_to(plugin, searcher, engine, explain, found, hits),
        forall|i: int, e: Error|
            0 <= i < found.len() ==> !#[trigger] call_ensures(
                INDEX::process_hit,
                (&plugin, found[i].address, found[i].score, &searcher, &engine, explain),
                Err(e),
            ),
    ensures
        hits.len() == found.len(),
        forall|i: int|
            0 <= i < found.len() ==> call_ensures(
                INDEX::process_hit,
                (&plugin, found[i].address, found[i].score, &searcher, &engine, explain),
                Ok(#[trigger] hits[i]),
            ),
    decreases found.len(),
{
    if found.len() > 0 {
        let last = found.last();
        let rest = found.drop_last();
        assert forall|e: Error|
            !call_ensures(
                INDEX::process_hit,
                (&plugin, last.address, last.score, &searcher, &engine, explain),
                Err(e),
            ) by {
            assert(last == found[found.len() - 1]);
        }
        assert forall|i: int, e: Error| 0 <= i < rest.len() implies !#[trigger] call_ensures(
            INDEX::process_hit,
            (&plugin, rest[i].address, rest[i].score, &searcher, &engine, explain),
            Err(e),
        ) by {
            assert(rest[i] == found[i]);
        }
        lemma_projection_complete(plugin, searcher, engine, explain, rest, hits.drop_last());
        assert forall|i: int| 0 <= i < found.len() implies call_ensures(
            INDEX::process_hit,
            (&plugin, found[i].address, found[i].score, &searcher, &engine, explain),
            Ok(#[trigger] hits[i]),
        ) by {
            if i < rest.len() {
                assert(rest[i] == found[i]);
                assert(hits.drop_last()[i] == hits[i]);
            }
        }
    }
}

/// Where there are as many hits as found documents, no projection failed:
/// the hits are, one for one and in the order of the found documents, what
/// the plug-in made of them.
pub proof fn lemma_projection_in_step<INDEX: Index>(
    plugin: INDEX,
    searcher: tantivy::Searcher,
    engine: tantivy::query::BooleanQuery,
    explain: bool,
    found: Seq<Found>,
    hits: Seq<INDEX::MatchedDocument>,
)
    requires
        projects_to(plugin, searcher, engine, explain, found, hits),
        hits.len() == found.len(),
    ensures
        forall|i: int|
            0 <= i < found.len() ==> call_ensures(
                INDEX::process_hit,
                (&plugin, found[i].address, found[i].score, &searcher, &engine, explain),
                Ok(#[trigger] hits[i]),
            ),
    decreases found.len(),
{
    if found.len() > 0 {
        let last = found.last();
        let rest = found.drop_last();
        if projects_to(plugin, searcher, engine, explain, rest, hits) {
            lemma_projection_length(plugin, searcher, engine, explain, rest, hits);
        }
        lemma_projection_in_step(plugin, searcher, engine, explain, rest, hits.drop_last());
        assert forall|i: int| 0 <= i < found.len() implies call_ensures(
            INDEX::process_hit,
            (&plugin, found[i].address, found[i].score, &searcher, &engine, explain),
            Ok(#[trigger] hits[i]),
        ) by {
            if i < rest.len() {
                assert(rest[i] == found[i]);
                assert(hits.drop_last()[i] == hits[i]);
            }
        }
    }
}

/// Each hit is what the plug-in made of one of the found documents.
pub proof fn lemma_hit_is_projection<INDEX: Index>(
    plugin: INDEX,
    searcher: tantivy::Searcher,
    engine: tantivy::query::BooleanQuery,
    explain: bool,
    found: Seq<Found>,
    hits: Seq<INDEX::MatchedDocument>,
    j: int,
)
    requires
        projects_to(plugin, searcher, engine, explain, found, hits),
        0 <= j < hits.len(),
    ensures
        exists|i: int|
            0 <= i < found.len() && call_ensures(
                INDEX::process_hit,
                (&plugin, (#[trigger] found[i]).address, found[i].score, &searcher, &engine, explain),
                Ok(hits[j]),
            ),
    decreases found.len(),
{
    if found.len() > 0 {
        let last = found.last();
        let rest = found.drop_last();
        if hits.len() > 0 && call_ensures(
            INDEX::process_hit,
            (&plugin, last.address, last.score, &searcher, &engine, explain),
            Ok(hits.last()),
        ) && projects_to(plugin, searcher, engine, explain, rest, hits.drop_last()) {
            if j == hits.len() - 1 {
                assert(found[found.len() - 1] == last);
            } else {
                lemma_hit_is_projection(plugin, searcher, engine, explain, rest, hits.drop_last(), j);
                let i = choose|i: int|
                    0 <= i < rest.len() && call_ensures(
                        INDEX::process_hit,
                        (&plugin, (#[trigger] rest[i]).address, rest[i].score, &searcher, &engine, explain),
                        Ok(hits.drop_last()[j]),
                    );
                assert(found[i] == rest[i]);
            }
        } else {
            lemma_hit_is_projection(plugin, searcher, engine, explain, rest, hits, j);
            let i = choose|i: int|
                0 <= i < rest.len() && call_ensures(
                    INDEX::process_hit,
                    (&plugin, (#[trigger] rest[i]).address, rest[i].score, &searcher, &engine, explain),
                    Ok(hits[j]),
                );
            assert(found[i] == rest[i]);
        }
    }
}

/// The hits keep the order of the found documents: of two hits, the
/// earlier is what the plug-in made of an earlier found document.
pub proof fn lemma_hits_keep_order<INDEX: Index>(
    plugin: INDEX,
    searcher: tantivy::Searcher,
    engine: tantivy::query::BooleanQuery,
    explain: bool,
    found: Seq<Found>,
    hits: Seq<INDEX::MatchedDocument>,
    first: int,
    second: int,
)
    requires
        projects_to(plugin, searcher, engine, explain, found, hits),
        0 <= first < second < hits.len(),
    ensures
        exists|i: int, k: int|
            {
                &&& 0 <= i < k < found.len()
                &&& call_ensures(
                    INDEX::process_hit,
                    (&plugin, (#[trigger] found[i]).address, found[i].score, &searcher, &engine, explain),
                    Ok(hits[first]),
                )
                &&& call_ensures(
                    INDEX::process_hit,
                    (&plugin, (#[trigger] found[k]).address, found[k].score, &searcher, &engine, explain),
                    Ok(hits[second]),
                )
            },
    decreases found.len(),
{
    if found.len() > 0 {
        let last = found.last();
        let rest = found.drop_last();
        let taken = hits.len() > 0 && call_ensures(
            INDEX::process_hit,
            (&plugin, last.address, last.score, &searcher, &engine, explain),
            Ok(hits.last()),
        ) && projects_to(plugin, searcher, engine, explain, rest, hits.drop_last());
        if taken && second == hits.len() - 1 {
            lemma_hit_is_projection(plugin, searcher, engine, explain, rest, hits.drop_last(), first);
            let i = choose|i: int|
                0 <= i < rest.len() && call_ensures(
                    INDEX::process_hit,
                    (&plugin, (#[trigger] rest[i]).address, rest[i].score, &searcher, &engine, explain),
                    Ok(hits.drop_last()[first]),
                );
            let k = found.len() - 1;
            assert(found[i] == rest[i]);
            assert(found[k] == last);
        } else {
            let before = if taken {
                hits.drop_last()
            } else {
                hits
            };
            lemma_hits_keep_order(plugin, searcher, engine, explain, rest, before, first, second);
            let (i, k) = choose|i: int, k: int|
                {
                    &&& 0 <= i < k < rest.len()
                    &&& call_ensures(
                        INDEX::process_hit,
                        (&plugin, (#[trigger] rest[i]).address, rest[i].score, &searcher, &engine, explain),
                        Ok(before[first]),
                    )
                    &&& call_ensures(
                        INDEX::process_hit,
                        (&plugin, (#[trigger] rest[k]).address, rest[k].score, &searcher, &engine, explain),
                        Ok(before[second]),
                    )
                };
            assert(found[i] == rest[i]);
            assert(found[k] == rest[k]);
        }
    }
}

/// A query that the engine finds every document by finds all the documents
/// there are.
pub proof fn lemma_all_found(key: int, clauses: Seq<(Occur, QueryView)>, docs: Multiset<Seq<Entry>>)
    requires
        forall|doc: Seq<Entry>| engine_finds(key, clauses, doc),
    ensures
        found(key, clauses, docs) == docs,
{
    broadcast use vstd::multiset::group_multiset_axioms;

    assert(found(key, clauses, docs) =~= docs);
}

/// Reads the stored values of a hit, as the engine holds them.
pub fn load_hit(searcher: &tantivy::Searcher, address: DocAddress) -> (stored: Result<
    EngineDocument,
    Error,
>)
    requires
        searcher_at(*searcher, address) is Some,
    ensures
        match stored {
            Ok(read) => engine_entries(read) == searcher_stored(*searcher, address)
                && stored_as_indexed(*searcher, address),
            Err(e) => e is Search,
        },
{
    match searcher_doc(searcher, address) {
        Ok(stored) => Ok(stored),
        Err(e) => Err(Error::Search(e)),
    }
}

/// The excerpt that the engine makes of one field of the stored values of
/// a hit, with the terms of the query marked. There is none for a field
/// that the index lacks, nor where the engine makes none.
pub open spec fn excerpt_of(
    searcher: tantivy::Searcher,
    clauses: Seq<(Occur, QueryView)>,
    field: Field,
    stored: Seq<Entry>,
) -> Option<Seq<char>> {
    if (field.0 as nat) < field_count(searcher_key(searcher)) {
        engine_excerpt(searcher, clauses, field, stored)
    } else {
        None
    }
}

/// Makes the excerpt of one field of a hit, with the terms of the query
/// marked: the excerpt that the engine makes of the stored values. It
/// fails with `Search` exactly where there is no excerpt: for a field that
/// the index lacks, and where the engine makes none.
pub fn snippet_of(
    searcher: &tantivy::Searcher,
    query: &tantivy::query::BooleanQuery,
    field: Field,
    stored: &EngineDocument,
) -> (snippet: Result<String, Error>)
    ensures
        match snippet {
            Ok(text) => excerpt_of(
                *searcher,
                engine_clauses(*query),
                field,
                engine_entries(*stored),
            ) == Some(text@),
            Err(e) => e is Search && excerpt_of(
                *searcher,
                engine_clauses(*query),
                field,
                engine_entries(*stored),
            ) is None,
        },
{
    if (field.0 as usize) >= searcher_field_count(searcher) {
        return Err(Error::Search(field_not_found("the field of the snippet")));
    }
    match engine_snippet(searcher, query, field, stored) {
        Ok(text) => Ok(text),
        Err(e) => Err(Error::Search(e)),
    }
}

/// The JSON text of the engine's account of the score that the document at
/// an address has, in what a searcher sees, for the boolean query of the
/// given clauses. There is none where the engine gives no account, or gives
/// one that cannot be written as JSON.
pub open spec fn accounted(
    searcher: tantivy::Searcher,
    clauses: Seq<(Occur, QueryView)>,
    address: DocAddress,
) -> Option<Seq<char>> {
    match engine_account(searcher, clauses, address) {
        Some(account) => account_json(account),
        None => None,
    }
}

/// Asks the engine to account for the score of a hit. The account is JSON;
/// there is none where the engine cannot give one.
pub fn explanation_of(
    searcher: &tantivy::Searcher,
    query: &tantivy::query::BooleanQuery,
    address: DocAddress,
) -> (explanation: Option<String>)
    requires
        searcher_at(*searcher, address) is Some,
        fields_below(
            QueryView::Boolean { clauses: engine_clauses(*query) },
            field_count(searcher_key(*searcher)),
        ),
    ensures
        match explanation {
            Some(text) => accounted(*searcher, engine_clauses(*query), address) == Some(text@),
            None => accounted(*searcher, engine_clauses(*query), address) is None,
        },
{
    match engine_explain(query, searcher, address) {
        Ok(explanation) => explanation_json(explanation),
        Err(_) => None,
    }
}

/// `RngCore::next_u32` of `rand::thread_rng`: a random number.
#[verifier::external_body]
fn random_number() -> u32 {
    rand::RngCore::next_u32(&mut rand::thread_rng())
}

/// The character of a decimal digit.
pub open spec fn digit(d: int) -> char {
    if d == 0 {
        '0'
    } else if d == 1 {
        '1'
    } else if d == 2 {
        '2'
    } else if d == 3 {
        '3'
    } else if d == 4 {
        '4'
    } else if d == 5 {
        '5'
    } else if d == 6 {
        '6'
    } else if d == 7 {
        '7'
    } else if d == 8 {
        '8'
    } else {
        '9'
    }
}

/// The decimal digits of a number, without leading zeros.
pub open spec fn decimal(n: nat) -> Seq<char>
    decreases n,
{
    if n < 10 {
        seq![digit(n as int)]
    } else {
        decimal(n / 10).push(digit((n % 10) as int))
    }
}

/// The name of the directory of a store that was given none, for a number.
pub open spec fn index_name(number: u32) -> Seq<char> {
    "index."@ + decimal(number as nat)
}

/// The text of a decimal digit.
fn digit_text(d: u32) -> (text: &'static str)
    requires
        d < 10,
    ensures
        text@ == seq![digit(d as int)],
{
    proof {
        reveal_strlit("0");
        reveal_strlit("1");
        reveal_strlit("2");
        reveal_strlit("3");
        reveal_strlit("4");
        reveal_strlit("5");
        reveal_strlit("6");
        reveal_strlit("7");
        reveal_strlit("8");
        reveal_strlit("9");
    }
    let text = if d == 0 {
        "0"
    } else if d == 1 {
        "1"
    } else if d == 2 {
        "2"
    } else if d == 3 {
        "3"
    } else if d == 4 {
        "4"
    } else if d == 5 {
        "5"
    } else if d == 6 {
        "6"
    } else if d == 7 {
        "7"
    } else if d == 8 {
        "8"
    } else {
        "9"
    };
    assert(text@ =~= seq![digit(d as int)]);
    text
}

/// Appends the decimal digits of a number to a text.
fn append_decimal(text: &mut String, n: u32)
    ensures
        final(text)@ == old(text)@ + decimal(n as nat),
    decreases n,
{
    if n >= 10 {
        append_decimal(text, n / 10);
    }
    text.append(digit_text(n % 10));
    assert(text@ =~= old(text)@ + decimal(n as nat));
}

/// The name of the directory of a store that was given none, for a number:
/// `index.` and the number.
pub fn temporary_name(number: u32) -> (name: String)
    ensures
        name@ == index_name(number),
{
    let mut name = String::from_str("index.");
    append_decimal(&mut name, number);
    name
}

/// A name for the directory of a store that was given none: the name for a
/// random number.
pub fn fresh_name() -> (name: String)
    ensures
        exists|number: u32| name@ == index_name(number),
{
    temporary_name(random_number())
}

} // verus!
