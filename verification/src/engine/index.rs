//! The engine's index, its writer and its searcher. An index is a bag of
//! documents; a writer gathers additions and deletions, which a commit
//! applies to the index in their order; a searcher sees the index as it was
//! when the searcher was opened.

use crate::document::{Entry, ValueView};
use crate::engine::documents::EngineDocument;
use crate::engine::fields::{builder_names, builder_sortable, builder_stored, builder_whole};
use crate::engine::queries::{engine_clauses, engine_finds};
use crate::query::{Field, IndexTerm, Occur, QueryView};
use crate::store::{Compressor, Order};
use vstd::multiset::Multiset;
use vstd::prelude::*;

verus! {

/// The engine's index.
#[verifier::external_body]
pub struct EngineIndex {
    pub(crate) inner: tantivy::Index,
}

/// The engine's writer.
#[verifier::external_body]
pub struct EngineWriter {
    pub(crate) inner: tantivy::IndexWriter,
}

/// The engine's settings of an index.
#[verifier::external_type_specification]
#[verifier::external_body]
pub struct ExEngineSettings(tantivy::IndexSettings);

/// The engine's searcher.
#[verifier::external_type_specification]
#[verifier::external_body]
pub struct ExSearcher(tantivy::Searcher);

/// The engine's account of a score.
#[verifier::external_type_specification]
#[verifier::external_body]
pub struct ExExplanation(tantivy::query::Explanation);

/// The engine's directory of memory-mapped files.
#[verifier::external_type_specification]
#[verifier::external_body]
pub struct ExMmapDirectory(tantivy::directory::MmapDirectory);

/// The engine's lock on a directory.
#[verifier::external_type_specification]
#[verifier::external_body]
pub struct ExDirectoryLock(tantivy::directory::DirectoryLock);

/// Where a searcher finds a document.
#[derive(Clone, Copy, Debug, PartialEq, Eq, Structural)]
pub struct DocAddress {
    pub segment_ord: u32,
    pub doc_id: u32,
}

/// A document that a search has found, with the bits of its score.
#[derive(Clone, Copy, Debug, PartialEq, Eq, Structural)]
pub struct Found {
    pub score: u32,
    pub address: DocAddress,
}

/// A change that a writer holds until it is committed.
pub enum WriteOp {
    /// The document is added.
    Add(Seq<Entry>),
    /// Every document that holds the term is deleted.
    Delete(Field, Seq<char>),
}

/// The documents that an index holds: what a searcher that is opened now
/// sees.
pub uninterp spec fn index_docs(index: EngineIndex) -> Multiset<Seq<Entry>>;

/// Which index this is. An index keeps its key for as long as it lives.
pub uninterp spec fn index_key(index: EngineIndex) -> int;

/// The changes that a writer holds, in the order in which it took them.
pub uninterp spec fn writer_ops(writer: EngineWriter) -> Seq<WriteOp>;

/// The key of the index that a writer writes to.
pub uninterp spec fn writer_key(writer: EngineWriter) -> int;

/// The documents that a searcher sees.
pub uninterp spec fn searcher_docs(searcher: tantivy::Searcher) -> Multiset<Seq<Entry>>;

/// The key of the index that a searcher reads.
pub uninterp spec fn searcher_key(searcher: tantivy::Searcher) -> int;

/// The document that a searcher finds at an address, if there is one.
pub uninterp spec fn searcher_at(searcher: tantivy::Searcher, address: DocAddress) -> Option<
    Seq<Entry>,
>;

/// The stored values of the document that a searcher finds at an address,
/// in their order.
pub uninterp spec fn searcher_stored(searcher: tantivy::Searcher, address: DocAddress) -> Seq<Entry>;

/// The number of fields in the schema of the index with the given key.
pub uninterp spec fn field_count(key: int) -> nat;

/// For each field in the schema of the index with the given key, in order,
/// whether it is a text field whose values are indexed whole, each as one
/// term.
pub uninterp spec fn whole_terms(key: int) -> Seq<bool>;

/// For each field in the schema of the index with the given key, in order,
/// whether its values are stored.
pub uninterp spec fn stored_fields(key: int) -> Seq<bool>;

/// Whether every value of a document is a text, a date or a score.
pub open spec fn plain(doc: Seq<Entry>) -> bool {
    forall|i: int| 0 <= i < doc.len() ==> !((#[trigger] doc[i]).1 is Other)
}

/// The values of a document that are stored, in their order: those of the
/// fields that are marked in `stored`.
pub open spec fn kept(doc: Seq<Entry>, stored: Seq<bool>) -> Seq<Entry>
    decreases doc.len(),
{
    if doc.len() == 0 {
        Seq::empty()
    } else if marked(stored, doc.last().0) {
        kept(doc.drop_last(), stored).push(doc.last())
    } else {
        kept(doc.drop_last(), stored)
    }
}

/// Whether a field is marked in a list that has a mark for each field of a
/// schema.
pub open spec fn marked(marks: Seq<bool>, field: Field) -> bool {
    (field.0 as int) < marks.len() && marks[field.0 as int]
}

/// Whether the stored values of the document that a searcher finds at an
/// address are the values that the document has in the stored fields, in
/// their order. This is said of a document whose values are texts, dates
/// and scores.
pub open spec fn stored_as_indexed(searcher: tantivy::Searcher, address: DocAddress) -> bool {
    let doc = searcher_at(searcher, address)->0;
    plain(doc) ==> searcher_stored(searcher, address) == kept(
        doc,
        stored_fields(searcher_key(searcher)),
    )
}

/// Whether a text is short enough for the engine to index it as one term,
/// however its characters are encoded: the engine drops a term of more
/// than 65,530 bytes, and a character takes four bytes at most.
pub open spec fn short_term(text: Seq<char>) -> bool {
    4 * text.len() <= 65_530
}

/// Whether the field is one of the index with the given key whose text
/// values are indexed whole.
pub open spec fn indexed_whole(key: int, field: Field) -> bool {
    &&& (field.0 as nat) < field_count(key)
    &&& (field.0 as int) < whole_terms(key).len()
    &&& whole_terms(key)[field.0 as int]
}

/// Whether the engine finds by the term every document that holds the text
/// as a value of the field.
pub open spec fn term_finds(key: int, field: Field, text: Seq<char>) -> bool {
    forall|doc: Seq<Entry>|
        doc.contains((field, ValueView::Text(text))) ==> #[trigger] engine_finds(
            key,
            holding(field, text),
            doc,
        )
}

/// The documents that the engine finds by the boolean query of the given
/// clauses in what a searcher sees, each once and the best first, as a
/// search ranks them: by score, the higher first, and by address among
/// equal scores. Each comes with the bits of its score.
pub uninterp spec fn engine_ranking(
    searcher: tantivy::Searcher,
    clauses: Seq<(Occur, QueryView)>,
) -> Seq<Found>;

/// The field by which the engine's settings keep the documents sorted, with
/// the direction of the sort, if they name one.
pub uninterp spec fn settings_sort(settings: tantivy::IndexSettings) -> Option<(Seq<char>, Order)>;

/// How the engine's settings have the stored documents compressed, or
/// `None` for a compressor that [`Compressor`] does not name.
pub uninterp spec fn settings_compression(settings: tantivy::IndexSettings) -> Option<Compressor>;

/// The excerpt that the engine makes of the text that some stored values
/// hold in a field, with the terms marked that the boolean query of the
/// given clauses names for the field and that what the searcher sees
/// holds; or `None` where the engine makes none.
pub uninterp spec fn engine_excerpt(
    searcher: tantivy::Searcher,
    clauses: Seq<(Occur, QueryView)>,
    field: Field,
    stored: Seq<Entry>,
) -> Option<Seq<char>>;

/// The engine's account of the score that the document at an address has,
/// in what a searcher sees, for the boolean query of the given clauses, or
/// `None` where the engine gives none.
pub uninterp spec fn engine_account(
    searcher: tantivy::Searcher,
    clauses: Seq<(Occur, QueryView)>,
    address: DocAddress,
) -> Option<tantivy::query::Explanation>;

/// The JSON text of an account of a score, or `None` where the account
/// cannot be written as JSON.
pub uninterp spec fn account_json(account: tantivy::query::Explanation) -> Option<Seq<char>>;

/// The documents among `docs` that the engine finds by the boolean query
/// of the given clauses.
pub open spec fn found(key: int, clauses: Seq<(Occur, QueryView)>, docs: Multiset<Seq<Entry>>) -> Multiset<
    Seq<Entry>,
> {
    docs.filter(|doc: Seq<Entry>| engine_finds(key, clauses, doc))
}

/// Whether what a searcher finds at an address is a document that it sees
/// and that the engine finds by the boolean query of the given clauses.
pub open spec fn is_hit(
    searcher: tantivy::Searcher,
    clauses: Seq<(Occur, QueryView)>,
    at: Option<Seq<Entry>>,
) -> bool {
    match at {
        Some(doc) => searcher_docs(searcher).contains(doc) && engine_finds(
            searcher_key(searcher),
            clauses,
            doc,
        ),
        None => false,
    }
}

/// The documents that a searcher finds at the addresses of a ranking, in
/// the order of the ranking.
pub open spec fn documents_at(searcher: tantivy::Searcher, ranking: Seq<Found>) -> Seq<Seq<Entry>> {
    Seq::new(ranking.len(), |i: int| searcher_at(searcher, ranking[i].address)->0)
}

/// The part of a ranking that a search returns: the `limit` best after the
/// `offset` best, as far as there are any.
pub open spec fn windowed(ranking: Seq<Found>, offset: usize, limit: usize) -> Seq<Found> {
    if ranking.len() <= offset {
        Seq::empty()
    } else if ranking.len() - offset <= limit {
        ranking.subrange(offset as int, ranking.len() as int)
    } else {
        ranking.subrange(offset as int, offset + limit)
    }
}

/// Whether a ranking lists the documents that the engine finds by the
/// boolean query of the given clauses in what a searcher sees: each entry
/// is the address of such a document, and together they are those
/// documents, each as often as the searcher sees it.
pub open spec fn ranks(
    searcher: tantivy::Searcher,
    clauses: Seq<(Occur, QueryView)>,
    ranking: Seq<Found>,
) -> bool {
    &&& forall|i: int|
        0 <= i < ranking.len() ==> is_hit(
            searcher,
            clauses,
            #[trigger] searcher_at(searcher, ranking[i].address),
        )
    &&& documents_at(searcher, ranking).to_multiset() == found(
        searcher_key(searcher),
        clauses,
        searcher_docs(searcher),
    )
}

/// The clauses of the query for the documents that hold a term.
pub open spec fn holding(field: Field, text: Seq<char>) -> Seq<(Occur, QueryView)> {
    seq![(Occur::Must, QueryView::Term { field, text })]
}

/// The documents after one change.
pub open spec fn applied_one(key: int, docs: Multiset<Seq<Entry>>, op: WriteOp) -> Multiset<
    Seq<Entry>,
> {
    match op {
        WriteOp::Add(doc) => docs.insert(doc),
        WriteOp::Delete(field, text) => docs.filter(
            |doc: Seq<Entry>| !engine_finds(key, holding(field, text), doc),
        ),
    }
}

/// The documents after some changes, applied in their order.
pub open spec fn applied(key: int, docs: Multiset<Seq<Entry>>, ops: Seq<WriteOp>) -> Multiset<
    Seq<Entry>,
>
    decreases ops.len(),
{
    if ops.len() == 0 {
        docs
    } else {
        applied_one(key, applied(key, docs, ops.drop_last()), ops.last())
    }
}

/// `IndexSettings::default`: settings that name no field to sort by.
#[verifier::external_body]
pub(crate) fn settings_default() -> (settings: tantivy::IndexSettings)
    ensures
        settings_sort(settings) is None,
{
    tantivy::IndexSettings::default()
}

/// The settings with `sort_by_field` set to the field, in ascending order.
/// Nothing else of the settings changes.
#[verifier::external_body]
pub(crate) fn settings_sorted_up(settings: tantivy::IndexSettings, field: &str) -> (sorted:
    tantivy::IndexSettings)
    ensures
        settings_sort(sorted) == Some((field@, Order::Asc)),
        settings_compression(sorted) == settings_compression(settings),
{
    let order = tantivy::Order::Asc;
    let sort = tantivy::IndexSortByField { field: field.to_string(), order };
    tantivy::IndexSettings { sort_by_field: Some(sort), ..settings }
}

/// The settings with `sort_by_field` set to the field, in descending order.
/// Nothing else of the settings changes.
#[verifier::external_body]
pub(crate) fn settings_sorted_down(settings: tantivy::IndexSettings, field: &str) -> (sorted:
    tantivy::IndexSettings)
    ensures
        settings_sort(sorted) == Some((field@, Order::Desc)),
        settings_compression(sorted) == settings_compression(settings),
{
    let order = tantivy::Order::Desc;
    let sort = tantivy::IndexSortByField { field: field.to_string(), order };
    tantivy::IndexSettings { sort_by_field: Some(sort), ..settings }
}

/// The settings with `docstore_compression` set to `Compressor::None`.
/// Nothing else of the settings changes.
#[verifier::external_body]
pub(crate) fn settings_stored_plain(settings: tantivy::IndexSettings) -> (stored:
    tantivy::IndexSettings)
    ensures
        settings_compression(stored) == Some(Compressor::Plain),
        settings_sort(stored) == settings_sort(settings),
{
    tantivy::IndexSettings { docstore_compression: tantivy::store::Compressor::None, ..settings }
}

/// The settings with `docstore_compression` set to `Compressor::Lz4`.
/// Nothing else of the settings changes.
#[verifier::external_body]
pub(crate) fn settings_stored_lz4(settings: tantivy::IndexSettings) -> (stored:
    tantivy::IndexSettings)
    ensures
        settings_compression(stored) == Some(Compressor::Lz4),
        settings_sort(stored) == settings_sort(settings),
{
    tantivy::IndexSettings { docstore_compression: tantivy::store::Compressor::Lz4, ..settings }
}

/// The settings with `docstore_compression` set to `Compressor::Zstd`, at
/// the default level. Nothing else of the settings changes.
#[verifier::external_body]
pub(crate) fn settings_stored_zstd(settings: tantivy::IndexSettings) -> (stored:
    tantivy::IndexSettings)
    ensures
        settings_compression(stored) == Some(Compressor::Zstd),
        settings_sort(stored) == settings_sort(settings),
{
    let zstd = tantivy::store::Compressor::Zstd(tantivy::store::ZstdCompressor::default());
    tantivy::IndexSettings { docstore_compression: zstd, ..settings }
}

/// Whether the engine takes the sorting of some settings for the fields of a
/// builder: the settings name no field to sort by, or they name a field of
/// the builder that is a fast field with one value in a document.
pub open spec fn sort_taken(
    names: Seq<Seq<char>>,
    sortable: Seq<bool>,
    sort: Option<(Seq<char>, Order)>,
) -> bool {
    match sort {
        Some((field, _)) => exists|i: int|
            0 <= i < names.len() && 0 <= i < sortable.len() && #[trigger] names[i] == field
                && sortable[i],
        None => true,
    }
}

/// `IndexBuilder::create_in_ram`, on the schema that the builder builds and
/// with the settings: a new index in memory, which holds no document and
/// has the builder's fields. The engine makes it exactly where it takes the
/// sorting of the settings; nothing else can fail in memory.
#[verifier::external_body]
pub(crate) fn create_in_ram(
    builder: tantivy::schema::SchemaBuilder,
    settings: tantivy::IndexSettings,
) -> (index: Result<EngineIndex, tantivy::TantivyError>)
    ensures
        index is Ok <==> sort_taken(
            builder_names(builder),
            builder_sortable(builder),
            settings_sort(settings),
        ),
        index matches Ok(i) ==> index_docs(i) == Multiset::<Seq<Entry>>::empty() && field_count(
            index_key(i),
        ) == builder_names(builder).len(),
        index matches Ok(i) ==> whole_terms(index_key(i)) == builder_whole(builder)
            && stored_fields(index_key(i)) == builder_stored(builder),
{
    let index = tantivy::Index::builder().schema(builder.build()).settings(settings);
    Ok(EngineIndex { inner: index.create_in_ram()? })
}

/// `MmapDirectory::open` on the path. What comes back depends on the file
/// system; the error is dropped.
#[verifier::external_body]
pub(crate) fn open_directory(path: &str) -> Option<tantivy::directory::MmapDirectory> {
    tantivy::directory::MmapDirectory::open(path).ok()
}

/// `IndexBuilder::open_or_create`, on the schema that the builder builds and
/// with the settings: the index of the directory, which is made if the
/// directory holds none. The index has the builder's fields, for the
/// engine opens an index that is there only where its schema is the
/// builder's; what it holds depends on the directory.
#[verifier::external_body]
pub(crate) fn open_or_create(
    builder: tantivy::schema::SchemaBuilder,
    settings: tantivy::IndexSettings,
    directory: tantivy::directory::MmapDirectory,
) -> (index: Result<EngineIndex, tantivy::TantivyError>)
    ensures
        index matches Ok(i) ==> field_count(index_key(i)) == builder_names(builder).len(),
        index matches Ok(i) ==> whole_terms(index_key(i)) == builder_whole(builder)
            && stored_fields(index_key(i)) == builder_stored(builder),
{
    let index = tantivy::Index::builder().schema(builder.build()).settings(settings);
    Ok(EngineIndex { inner: index.open_or_create(directory)? })
}

/// `Index::writer`: a writer on the index, which holds no change yet. It
/// fails while another writer on the index lives.
#[verifier::external_body]
pub(crate) fn open_writer(index: &EngineIndex, memory: usize) -> (writer: Result<
    EngineWriter,
    tantivy::TantivyError,
>)
    ensures
        writer matches Ok(w) ==> writer_ops(w) == Seq::<WriteOp>::empty() && writer_key(w)
            == index_key(*index),
{
    Ok(EngineWriter { inner: index.inner.writer(memory)? })
}

/// `IndexWriter::add_document`: the writer holds one change more, the
/// addition of the document. Where it fails, the document was not handed
/// to the threads that index: the writer holds what it held.
#[verifier::external_body]
pub(crate) fn writer_add(writer: &mut EngineWriter, doc: EngineDocument) -> (added: Result<
    (),
    tantivy::TantivyError,
>)
    ensures
        writer_key(*final(writer)) == writer_key(*old(writer)),
        writer_ops(*final(writer)) == if added is Ok {
            writer_ops(*old(writer)).push(
                WriteOp::Add(crate::engine::documents::engine_entries(doc)),
            )
        } else {
            writer_ops(*old(writer))
        },
{
    writer.inner.add_document(doc.inner)?;
    Ok(())
}

/// `Index::schema` of the writer's index, and `Schema::num_fields` of it.
#[verifier::external_body]
pub(crate) fn writer_field_count(writer: &EngineWriter) -> (n: usize)
    ensures
        n == field_count(writer_key(*writer)),
{
    writer.inner.index().schema().num_fields()
}

/// `IndexWriter::delete_term`, on the term that `Term::from_field_text`
/// makes: the writer holds one change more, the deletion of the documents
/// that hold the term. The engine panics on a field that the schema lacks.
/// Where the field's values are indexed whole and the text is short enough
/// to be a term, the documents that the engine finds by the term include
/// every document that holds the text as a value of the field: the engine
/// indexes each such value under the term that is made here.
#[verifier::external_body]
pub(crate) fn writer_delete(writer: &mut EngineWriter, term: &IndexTerm)
    requires
        (term.field.0 as nat) < field_count(writer_key(*old(writer))),
    ensures
        writer_key(*final(writer)) == writer_key(*old(writer)),
        writer_ops(*final(writer)) == writer_ops(*old(writer)).push(
            WriteOp::Delete(term.field, term.text@),
        ),
        indexed_whole(writer_key(*final(writer)), term.field) && short_term(term.text@)
            ==> forall|doc: Seq<Entry>|
            doc.contains((term.field, ValueView::Text(term.text@))) ==> #[trigger] engine_finds(
                writer_key(*final(writer)),
                holding(term.field, term.text@),
                doc,
            ),
{
    let field = tantivy::schema::Field::from_field_id(term.field.0);
    writer.inner.delete_term(tantivy::Term::from_field_text(field, term.text.as_str()));
}

/// `IndexWriter::commit`: where it succeeds, the changes that the writer
/// held are applied to its index, in their order, and the writer holds
/// none. The writer commits to the index that it was opened on, whatever
/// is at hand: `index` has to be that index.
#[verifier::external_body]
pub(crate) fn writer_commit(writer: &mut EngineWriter, index: &mut EngineIndex) -> (committed: Result<
    (),
    tantivy::TantivyError,
>)
    requires
        writer_key(*old(writer)) == index_key(*old(index)),
    ensures
        writer_key(*final(writer)) == writer_key(*old(writer)),
        index_key(*final(index)) == index_key(*old(index)),
        committed is Ok ==> writer_ops(*final(writer)) == Seq::<WriteOp>::empty(),
        committed is Ok ==> index_docs(*final(index)) == applied(
            index_key(*old(index)),
            index_docs(*old(index)),
            writer_ops(*old(writer)),
        ),
{
    writer.inner.commit()?;
    Ok(())
}

/// `IndexWriter::wait_merging_threads`: waits until the threads that merge
/// segments are done. The documents of the index stay as they are.
#[verifier::external_body]
pub(crate) fn writer_wait(writer: EngineWriter) -> (waited: Result<(), tantivy::TantivyError>) {
    writer.inner.wait_merging_threads()
}

/// `Index::reader`, and `IndexReader::searcher` of it: a searcher that sees
/// what the index holds now.
#[verifier::external_body]
pub(crate) fn open_searcher(index: &EngineIndex) -> (searcher: Result<
    tantivy::Searcher,
    tantivy::TantivyError,
>)
    ensures
        searcher matches Ok(s) ==> searcher_docs(s) == index_docs(*index) && searcher_key(s)
            == index_key(*index),
{
    Ok(index.inner.reader()?.searcher())
}

/// `Searcher::schema`, and `Schema::num_fields` of it.
#[verifier::external_body]
pub(crate) fn searcher_field_count(searcher: &tantivy::Searcher) -> (n: usize)
    ensures
        n == field_count(searcher_key(*searcher)),
{
    searcher.schema().num_fields()
}

/// Whether the engine can make room for the hits that a search skips and
/// returns together: it keeps eight bytes for each, and no more bytes than
/// the greatest signed size can be asked for at once.
pub open spec fn window_fits(offset: usize, limit: usize) -> bool {
    8 * (offset + limit) <= isize::MAX
}

/// `Searcher::search`, collecting with `TopDocs::with_limit(limit)
/// .and_offset(offset)` and `Count`: the number of documents that the query
/// matches, and of the ranking of those documents the `limit` best after
/// the `offset` best. The engine panics on a limit of zero, on a window
/// that it cannot make room for, and on a query that names a field that
/// the schema lacks.
#[verifier::external_body]
pub(crate) fn engine_search(
    searcher: &tantivy::Searcher,
    query: &tantivy::query::BooleanQuery,
    offset: usize,
    limit: usize,
) -> (result: Result<(Vec<Found>, usize), tantivy::TantivyError>)
    requires
        limit >= 1,
        window_fits(offset, limit),
        crate::query::fields_below(
            QueryView::Boolean { clauses: engine_clauses(*query) },
            field_count(searcher_key(*searcher)),
        ),
    ensures
        result matches Ok((hits, count)) ==> {
            let ranking = engine_ranking(*searcher, engine_clauses(*query));
            &&& count == ranking.len()
            &&& hits@ == windowed(ranking, offset, limit)
            &&& forall|i: int|
                0 <= i < ranking.len() ==> is_hit(
                    *searcher,
                    engine_clauses(*query),
                    #[trigger] searcher_at(*searcher, ranking[i].address),
                )
            &&& documents_at(*searcher, ranking).to_multiset() == found(
                searcher_key(*searcher),
                engine_clauses(*query),
                searcher_docs(*searcher),
            )
        },
{
    let top = tantivy::collector::TopDocs::with_limit(limit).and_offset(offset);
    let (hits, count) = searcher.search(query, &(top, tantivy::collector::Count))?;
    let found = |(score, a): (tantivy::Score, tantivy::DocAddress)| Found {
        score: score.to_bits(),
        address: DocAddress { segment_ord: a.segment_ord, doc_id: a.doc_id },
    };
    Ok((hits.into_iter().map(found).collect(), count))
}

/// `Searcher::doc`: the stored values of the document at the address,
/// which are the same whenever the searcher is asked. The engine stores of
/// a document the values of the stored fields, in the order of the
/// document, and hands a text, a date and a score back as it took them;
/// that is said of a document that holds no value of another type. The
/// engine panics on an address that the searcher does not know.
#[verifier::external_body]
pub(crate) fn searcher_doc(searcher: &tantivy::Searcher, address: DocAddress) -> (doc: Result<
    EngineDocument,
    tantivy::TantivyError,
>)
    requires
        searcher_at(*searcher, address) is Some,
    ensures
        doc matches Ok(stored) ==> crate::engine::documents::engine_entries(stored)
            == searcher_stored(*searcher, address),
        doc matches Ok(stored) ==> (plain(searcher_at(*searcher, address)->0)
            ==> crate::engine::documents::engine_entries(stored) == kept(
            searcher_at(*searcher, address)->0,
            stored_fields(searcher_key(*searcher)),
        )),
{
    let DocAddress { segment_ord, doc_id } = address;
    Ok(EngineDocument { inner: searcher.doc(tantivy::DocAddress { segment_ord, doc_id })? })
}

/// `SnippetGenerator::create` for the field and the query, then
/// `SnippetGenerator::snippet_from_doc` on the stored values and
/// `Snippet::to_html` of what it gives: the excerpt of the text that the
/// stored values hold in the field, with the terms of the query marked. It
/// is a function of what the searcher sees, of the query, of the field and
/// of the stored values; there is none where the engine makes no generator,
/// as for a field that holds no indexed text. The engine panics on a field
/// that the schema lacks. It cuts the text at the offsets that the field's
/// tokenizer reports; the two tokenizers that a field of this library can
/// have report the byte offsets of whole characters, so every cut falls
/// between characters.
#[verifier::external_body]
pub(crate) fn engine_snippet(
    searcher: &tantivy::Searcher,
    query: &tantivy::query::BooleanQuery,
    field: Field,
    doc: &EngineDocument,
) -> (excerpt: Result<String, tantivy::TantivyError>)
    requires
        (field.0 as nat) < field_count(searcher_key(*searcher)),
    ensures
        match excerpt {
            Ok(text) => engine_excerpt(
                *searcher,
                engine_clauses(*query),
                field,
                crate::engine::documents::engine_entries(*doc),
            ) == Some(text@),
            Err(_) => engine_excerpt(
                *searcher,
                engine_clauses(*query),
                field,
                crate::engine::documents::engine_entries(*doc),
            ) is None,
        },
{
    let field = tantivy::schema::Field::from_field_id(field.0);
    let generator = tantivy::SnippetGenerator::create(searcher, query, field)?;
    Ok(generator.snippet_from_doc(&doc.inner).to_html())
}

/// `Query::explain`: the engine's account of the score that the document at
/// the address has for the query, which is a function of what the searcher
/// sees, of the query and of the address. The engine panics on an address
/// that the searcher does not know and on a query that names a field that
/// the schema lacks.
#[verifier::external_body]
pub(crate) fn engine_explain(
    query: &tantivy::query::BooleanQuery,
    searcher: &tantivy::Searcher,
    address: DocAddress,
) -> (explanation: Result<tantivy::query::Explanation, tantivy::TantivyError>)
    requires
        searcher_at(*searcher, address) is Some,
        crate::query::fields_below(
            QueryView::Boolean { clauses: engine_clauses(*query) },
            field_count(searcher_key(*searcher)),
        ),
    ensures
        match explanation {
            Ok(account) => engine_account(*searcher, engine_clauses(*query), address) == Some(
                account,
            ),
            Err(_) => engine_account(*searcher, engine_clauses(*query), address) is None,
        },
{
    let DocAddress { segment_ord, doc_id } = address;
    tantivy::query::Query::explain(query, searcher, tantivy::DocAddress { segment_ord, doc_id })
}

/// `serde_json::to_string` of an account of a score, or `None` where it
/// fails. The text is a function of the account.
#[verifier::external_body]
pub(crate) fn explanation_json(explanation: tantivy::query::Explanation) -> (json: Option<String>)
    ensures
        match json {
            Some(text) => account_json(explanation) == Some(text@),
            None => account_json(explanation) is None,
        },
{
    serde_json::to_string(&explanation).ok()
}

/// `TantivyError::FieldNotFound`, with the text as the field's name.
#[verifier::external_body]
pub(crate) fn field_not_found(name: &str) -> tantivy::TantivyError {
    tantivy::TantivyError::FieldNotFound(name.to_string())
}

/// `Directory::sync_directory` of the index's directory: what was written
/// is made durable.
#[verifier::external_body]
pub(crate) fn sync_directory(index: &mut EngineIndex) -> (synced: Result<(), std::io::Error>)
    ensures
        index_key(*final(index)) == index_key(*old(index)),
        index_docs(*final(index)) == index_docs(*old(index)),
{
    tantivy::Directory::sync_directory(index.inner.directory_mut())
}

/// `Directory::acquire_lock` of the index's directory, for the lock of the
/// writer: while the lock lives no writer can be opened. `None` where the
/// lock is taken.
#[verifier::external_body]
pub(crate) fn lock_writers(index: &mut EngineIndex) -> (lock: Option<
    tantivy::directory::DirectoryLock,
>)
    ensures
        index_key(*final(index)) == index_key(*old(index)),
        index_docs(*final(index)) == index_docs(*old(index)),
{
    let directory = index.inner.directory_mut();
    tantivy::Directory::acquire_lock(directory, &tantivy::directory::INDEX_WRITER_LOCK).ok()
}

} // verus!
