//! What holds of the store whatever it holds: laws over the changes of a
//! writer, the documents of an index and the answers of a search.

use crate::advisory::Advisory;
use crate::document::{first_of, lemma_values_of_prefix, values_of, Document, Entry, ValueView};
use crate::engine::documents::readable;
use crate::engine::index::{
    applied, applied_one, documents_at, engine_ranking, field_count, found, holding, kept,
    marked, plain, searcher_at, searcher_key, searcher_stored, stored_fields, term_finds,
    windowed, DocAddress, WriteOp,
};
use crate::engine::queries::{embedded, engine_clauses, engine_finds};
use crate::query::{Field, Occur, QueryView};
use crate::store::{
    additions, answer_on, deletion, lemma_hit_is_projection, lemma_hits_keep_order,
    lemma_projection_in_step, lemma_projection_length, projects_to, replacement, Index,
    IndexStore,
};
use crate::vexination::{advisory_entries, SearchHit};
use vstd::multiset::Multiset;
use vstd::prelude::*;
use vstd::seq_lib::lemma_multiset_commutative;

verus! {

/// Changes that are applied one after the other are applied as one list
/// of changes.
pub proof fn lemma_applied_in_turn(
    key: int,
    docs: Multiset<Seq<Entry>>,
    first: Seq<WriteOp>,
    second: Seq<WriteOp>,
)
    ensures
        applied(key, docs, first + second) == applied(key, applied(key, docs, first), second),
    decreases second.len(),
{
    if second.len() == 0 {
        assert(first + second =~= first);
    } else {
        lemma_applied_in_turn(key, docs, first, second.drop_last());
        assert((first + second).drop_last() =~= first + second.drop_last());
        assert((first + second).last() == second.last());
    }
}

/// Adding some documents to an index adds each of them once.
pub proof fn lemma_applied_additions(key: int, docs: Multiset<Seq<Entry>>, added: Seq<Seq<Entry>>)
    ensures
        applied(key, docs, additions(added)) == docs.add(added.to_multiset()),
    decreases added.len(),
{
    broadcast use vstd::multiset::group_multiset_axioms;

    if added.len() == 0 {
        added.to_multiset_ensures();
        assert(added.to_multiset() =~= Multiset::<Seq<Entry>>::empty());
        assert(applied(key, docs, additions(added)) =~= docs.add(added.to_multiset()));
    } else {
        let before = added.drop_last();
        lemma_applied_additions(key, docs, before);
        assert(additions(added).drop_last() =~= additions(before));
        assert(additions(added).last() == WriteOp::Add(added.last()));
        before.to_multiset_ensures();
        assert(before.push(added.last()) =~= added);
        assert(applied(key, docs, additions(added)) =~= docs.add(added.to_multiset()));
    }
}

/// After the documents of an identifier were replaced, the index holds for
/// the identifier exactly the documents that replaced them, whatever it
/// held before.
pub proof fn lemma_replaced(
    key: int,
    before: Multiset<Seq<Entry>>,
    field: Field,
    id: Seq<char>,
    docs: Seq<Seq<Entry>>,
)
    requires
        (field.0 as nat) < field_count(key),
        forall|i: int| 0 <= i < docs.len() ==> engine_finds(key, holding(field, id), #[trigger] docs[i]),
    ensures
        found(key, holding(field, id), applied(key, before, replacement(key, field, id, docs)))
            == docs.to_multiset(),
{
    broadcast use vstd::multiset::group_multiset_axioms;

    let delete = seq![WriteOp::Delete(field, id)];
    lemma_applied_in_turn(key, before, delete, additions(docs));
    assert(delete.drop_last() =~= Seq::<WriteOp>::empty());
    assert(delete =~= deletion(key, field, id));
    let cleared = applied_one(key, before, WriteOp::Delete(field, id));
    assert(applied(key, before, delete) == cleared) by {
        reveal_with_fuel(applied, 2);
    }
    lemma_applied_additions(key, cleared, docs);
    let after = cleared.add(docs.to_multiset());
    docs.to_multiset_ensures();
    assert forall|doc: Seq<Entry>| #[trigger]
        found(key, holding(field, id), after).count(doc) == docs.to_multiset().count(doc) by {
        if !engine_finds(key, holding(field, id), doc) {
            if docs.to_multiset().count(doc) > 0 {
                assert(docs.contains(doc));
            }
        }
    }
    assert(found(key, holding(field, id), after) =~= docs.to_multiset());
}

/// Replace on add: where a document is added twice under one identifier
/// before a commit, the index holds for the identifier what the document
/// was lowered to, once. This holds of the documents that the engine finds
/// by the term of their identifier.
pub proof fn lemma_replace_on_add(
    key: int,
    before: Multiset<Seq<Entry>>,
    field: Field,
    id: Seq<char>,
    docs: Seq<Seq<Entry>>,
)
    requires
        (field.0 as nat) < field_count(key),
        forall|i: int| 0 <= i < docs.len() ==> engine_finds(key, holding(field, id), #[trigger] docs[i]),
    ensures
        found(
            key,
            holding(field, id),
            applied(
                key,
                before,
                replacement(key, field, id, docs) + replacement(key, field, id, docs),
            ),
        ) == docs.to_multiset(),
        found(
            key,
            holding(field, id),
            applied(
                key,
                before,
                replacement(key, field, id, docs) + replacement(key, field, id, docs),
            ),
        ).len() == docs.len(),
{
    let once = replacement(key, field, id, docs);
    lemma_applied_in_turn(key, before, once, once);
    lemma_replaced(key, applied(key, before, once), field, id, docs);
    docs.to_multiset_ensures();
}

/// Delete then search: after the documents of an identifier were deleted,
/// the index holds no document that the engine finds by the term of the
/// identifier, whatever the writer had taken before. A search for the term
/// counts nothing, and no hit of any search is such a document.
pub proof fn lemma_deleted_is_gone(
    key: int,
    before: Multiset<Seq<Entry>>,
    ops: Seq<WriteOp>,
    field: Field,
    id: Seq<char>,
)
    requires
        (field.0 as nat) < field_count(key),
    ensures
        found(key, holding(field, id), applied(key, before, ops + deletion(key, field, id))).len()
            == 0,
        forall|doc: Seq<Entry>|
            applied(key, before, ops + deletion(key, field, id)).contains(doc) ==> !engine_finds(
                key,
                holding(field, id),
                doc,
            ),
{
    broadcast use vstd::multiset::group_multiset_axioms;

    let delete = deletion(key, field, id);
    lemma_applied_in_turn(key, before, ops, delete);
    assert(delete.drop_last() =~= Seq::<WriteOp>::empty());
    let after = applied(key, before, ops + delete);
    assert(after == applied_one(key, applied(key, before, ops), WriteOp::Delete(field, id))) by {
        reveal_with_fuel(applied, 2);
    }
    assert(found(key, holding(field, id), after) =~= Multiset::<Seq<Entry>>::empty());
}

/// A document of the library holds texts, dates and scores only.
pub proof fn lemma_document_is_plain(doc: Document)
    ensures
        plain(doc@),
{
}

/// Whether every document that some changes add holds texts, dates and
/// scores only.
pub open spec fn plain_additions(ops: Seq<WriteOp>) -> bool {
    forall|i: int| 0 <= i < ops.len() ==> ((#[trigger] ops[i]) matches WriteOp::Add(doc) ==> plain(doc))
}

/// Where the documents of an index hold texts, dates and scores only, and
/// so do the documents that some changes add, so do the documents of the
/// index after the changes.
pub proof fn lemma_applied_plain(key: int, before: Multiset<Seq<Entry>>, ops: Seq<WriteOp>)
    requires
        forall|doc: Seq<Entry>| before.contains(doc) ==> plain(doc),
        plain_additions(ops),
    ensures
        forall|doc: Seq<Entry>| #[trigger] applied(key, before, ops).contains(doc) ==> plain(doc),
    decreases ops.len(),
{
    broadcast use vstd::multiset::group_multiset_axioms;

    if ops.len() > 0 {
        let rest = ops.drop_last();
        assert forall|i: int| 0 <= i < rest.len() implies ((#[trigger] rest[i]) matches WriteOp::Add(
            doc,
        ) ==> plain(doc)) by {
            assert(rest[i] == ops[i]);
        }
        lemma_applied_plain(key, before, rest);
        let held = applied(key, before, rest);
        assert forall|doc: Seq<Entry>| #[trigger]
            applied(key, before, ops).contains(doc) implies plain(doc) by {
            match ops.last() {
                WriteOp::Add(added) => {
                    assert(ops[ops.len() - 1] == ops.last());
                    if doc != added {
                        assert(held.contains(doc));
                    }
                },
                WriteOp::Delete(field, text) => {
                    assert(held.contains(doc));
                },
            }
        }
    }
}

/// Of a document that holds texts, dates and scores only, the stored
/// values are all readable, and those of a stored field are the values
/// that the document has in the field, in their order.
pub proof fn lemma_kept_values(doc: Seq<Entry>, stored: Seq<bool>, field: Field)
    requires
        plain(doc),
        marked(stored, field),
    ensures
        readable(kept(doc, stored)) == kept(doc, stored),
        values_of(kept(doc, stored), field) == values_of(doc, field),
        first_of(kept(doc, stored), field) == first_of(doc, field),
    decreases doc.len(),
{
    if doc.len() > 0 {
        let rest = doc.drop_last();
        let last = doc.last();
        assert forall|i: int| 0 <= i < rest.len() implies !((#[trigger] rest[i]).1 is Other) by {
            assert(rest[i] == doc[i]);
        }
        assert(!(doc[doc.len() - 1].1 is Other));
        lemma_kept_values(rest, stored, field);
        if marked(stored, last.0) {
            let held = kept(rest, stored).push(last);
            assert(held.drop_last() =~= kept(rest, stored));
            assert(held.last() == last);
        }
    }
}

/// A value of a field of a document is held by the document in that field.
pub proof fn lemma_values_are_held(doc: Seq<Entry>, field: Field, k: int)
    requires
        0 <= k < values_of(doc, field).len(),
    ensures
        doc.contains((field, values_of(doc, field)[k])),
    decreases doc.len(),
{
    if doc.len() > 0 {
        let rest = doc.drop_last();
        if doc.last().0 == field && k == values_of(rest, field).len() {
            assert(doc[doc.len() - 1] == (field, values_of(doc, field)[k]));
        } else {
            lemma_values_are_held(rest, field, k);
            let at = choose|at: int| 0 <= at < rest.len() && rest[at] == (field, values_of(rest, field)[k]);
            assert(doc[at] == rest[at]);
        }
    }
}

/// The query for a term is handed to the engine as the query for the
/// documents that hold the term.
pub proof fn lemma_term_query_is_holding(field: Field, text: Seq<char>)
    ensures
        embedded(QueryView::Term { field, text }) == holding(field, text),
{
    assert(embedded(QueryView::Term { field, text }) =~= holding(field, text));
}

/// Delete then search, of a store: where the last change that a store has
/// taken deleted the documents of an identifier, a search for the term of
/// the identifier counts nothing and has no hit, and no document that any
/// search ranks is one that the engine finds by that term. Where the
/// engine finds by the term every document that holds the identifier, as
/// the writer says of an identity field that is indexed whole, no document
/// that any search ranks holds the identifier.
pub proof fn lemma_search_after_delete<INDEX: Index>(
    store: IndexStore<INDEX>,
    before: Multiset<Seq<Entry>>,
    ops: Seq<WriteOp>,
    id: Seq<char>,
    query: QueryView,
    offset: usize,
    len: usize,
    explain: bool,
    hits: Seq<INDEX::MatchedDocument>,
    count: usize,
)
    requires
        (store.plugin().identity().0 as nat) < field_count(store.key()),
        store.docs() == applied(
            store.key(),
            before,
            ops + deletion(store.key(), store.plugin().identity(), id),
        ),
        store.answered(query, offset, len, explain, hits, count),
    ensures
        query == (QueryView::Term { field: store.plugin().identity(), text: id }) ==> count == 0
            && hits.len() == 0,
        exists|searcher: tantivy::Searcher, engine: tantivy::query::BooleanQuery|
            {
                &&& store.seen_by(searcher)
                &&& engine_clauses(engine) == embedded(query)
                &&& #[trigger] answer_on(
                    store.plugin(),
                    searcher,
                    engine,
                    offset,
                    len,
                    explain,
                    hits,
                    count,
                )
                &&& forall|i: int|
                    0 <= i < count ==> !engine_finds(
                        store.key(),
                        holding(store.plugin().identity(), id),
                        #[trigger] documents_at(
                            searcher,
                            engine_ranking(searcher, engine_clauses(engine)),
                        )[i],
                    )
                &&& term_finds(store.key(), store.plugin().identity(), id) ==> forall|i: int|
                    0 <= i < count ==> !(#[trigger] documents_at(
                        searcher,
                        engine_ranking(searcher, engine_clauses(engine)),
                    )[i]).contains((store.plugin().identity(), ValueView::Text(id)))
            },
{
    let key = store.key();
    let field = store.plugin().identity();
    lemma_deleted_is_gone(key, before, ops, field, id);
    let (searcher, engine) = choose|searcher: tantivy::Searcher, engine: tantivy::query::BooleanQuery|
        {
            &&& store.seen_by(searcher)
            &&& engine_clauses(engine) == embedded(query)
            &&& #[trigger] answer_on(
                store.plugin(),
                searcher,
                engine,
                offset,
                len,
                explain,
                hits,
                count,
            )
        };
    let ranking = engine_ranking(searcher, engine_clauses(engine));
    let ranked = documents_at(searcher, ranking);
    assert forall|i: int| 0 <= i < count implies !engine_finds(
        key,
        holding(field, id),
        #[trigger] ranked[i],
    ) by {
        let at = searcher_at(searcher, ranking[i].address);
        assert(at is Some && store.docs().contains(at->0));
    }
    if query == (QueryView::Term { field, text: id }) {
        lemma_term_query_is_holding(field, id);
        ranked.to_multiset_ensures();
        assert(ranking.len() == 0);
        lemma_projection_length(
            store.plugin(),
            searcher,
            engine,
            explain,
            windowed(ranking, offset, len),
            hits,
        );
    }
}

/// Replace on add, of a store: where the last changes that a store has
/// taken replaced the documents of an identifier, whatever came before
/// (the same identifier added once already, too), the store holds each
/// document that the engine finds by the term of the identifier as often as
/// the replacement added it, and every query that finds a document with
/// the identifier finds it so often; and a search for the term of the
/// identifier ranks exactly the documents of the replacement and counts
/// them. This holds where each document of the
/// replacement holds the identifier and the engine finds by the term every
/// document that holds it, as the writer says of an identity field that is
/// indexed whole.
pub proof fn lemma_search_after_replace<INDEX: Index>(
    store: IndexStore<INDEX>,
    before: Multiset<Seq<Entry>>,
    ops: Seq<WriteOp>,
    id: Seq<char>,
    docs: Seq<Seq<Entry>>,
    offset: usize,
    len: usize,
    explain: bool,
    hits: Seq<INDEX::MatchedDocument>,
    count: usize,
)
    requires
        (store.plugin().identity().0 as nat) < field_count(store.key()),
        term_finds(store.key(), store.plugin().identity(), id),
        forall|i: int|
            0 <= i < docs.len() ==> (#[trigger] docs[i]).contains(
                (store.plugin().identity(), ValueView::Text(id)),
            ),
        store.docs() == applied(
            store.key(),
            before,
            ops + replacement(store.key(), store.plugin().identity(), id, docs),
        ),
        store.answered(
            QueryView::Term { field: store.plugin().identity(), text: id },
            offset,
            len,
            explain,
            hits,
            count,
        ),
    ensures
        forall|doc: Seq<Entry>|
            engine_finds(store.key(), holding(store.plugin().identity(), id), doc)
                ==> #[trigger] store.docs().count(doc) == docs.to_multiset().count(doc),
        forall|clauses: Seq<(Occur, QueryView)>, doc: Seq<Entry>|
            doc.contains((store.plugin().identity(), ValueView::Text(id))) && engine_finds(
                store.key(),
                clauses,
                doc,
            ) ==> #[trigger] found(store.key(), clauses, store.docs()).count(doc)
                == docs.to_multiset().count(doc),
        count == docs.len(),
        hits.len() <= docs.len(),
        exists|searcher: tantivy::Searcher, engine: tantivy::query::BooleanQuery|
            {
                &&& store.seen_by(searcher)
                &&& #[trigger] answer_on(
                    store.plugin(),
                    searcher,
                    engine,
                    offset,
                    len,
                    explain,
                    hits,
                    count,
                )
                &&& documents_at(
                    searcher,
                    engine_ranking(searcher, engine_clauses(engine)),
                ).to_multiset() == docs.to_multiset()
            },
{
    broadcast use vstd::multiset::group_multiset_axioms;

    let key = store.key();
    let field = store.plugin().identity();
    let term = QueryView::Term { field, text: id };
    lemma_applied_in_turn(key, before, ops, replacement(key, field, id, docs));
    lemma_replaced(key, applied(key, before, ops), field, id, docs);
    lemma_term_query_is_holding(field, id);
    let held = found(key, holding(field, id), store.docs());
    assert(held == docs.to_multiset());
    assert forall|doc: Seq<Entry>| engine_finds(key, holding(field, id), doc) implies #[trigger]
        store.docs().count(doc) == docs.to_multiset().count(doc) by {
        assert(held.count(doc) == store.docs().count(doc));
    }
    assert forall|clauses: Seq<(Occur, QueryView)>, doc: Seq<Entry>|
        doc.contains((field, ValueView::Text(id))) && engine_finds(
            key,
            clauses,
            doc,
        ) implies #[trigger] found(key, clauses, store.docs()).count(doc)
        == docs.to_multiset().count(doc) by {
        assert(engine_finds(key, holding(field, id), doc));
        assert(store.docs().count(doc) == docs.to_multiset().count(doc));
    }
    let (searcher, engine) = choose|searcher: tantivy::Searcher, engine: tantivy::query::BooleanQuery|
        {
            &&& store.seen_by(searcher)
            &&& engine_clauses(engine) == embedded(term)
            &&& #[trigger] answer_on(
                store.plugin(),
                searcher,
                engine,
                offset,
                len,
                explain,
                hits,
                count,
            )
        };
    let ranking = engine_ranking(searcher, engine_clauses(engine));
    let ranked = documents_at(searcher, ranking);
    ranked.to_multiset_ensures();
    docs.to_multiset_ensures();
    assert(ranked.to_multiset() == docs.to_multiset());
    assert(count == docs.len());
    lemma_projection_length(
        store.plugin(),
        searcher,
        engine,
        explain,
        windowed(ranking, offset, len),
        hits,
    );
}

/// Every document answers a query that finds them all, as the empty query
/// does: the count is the number of documents of the store, the ranking
/// lists exactly the documents of the store, and a window that starts at
/// the best and is wide enough for all of them has their projections for
/// its hits.
pub proof fn lemma_all_are_ranked<INDEX: Index>(
    store: IndexStore<INDEX>,
    query: QueryView,
    offset: usize,
    len: usize,
    explain: bool,
    hits: Seq<INDEX::MatchedDocument>,
    count: usize,
)
    requires
        store.answered(query, offset, len, explain, hits, count),
        found(store.key(), embedded(query), store.docs()) == store.docs(),
    ensures
        count == store.docs().len(),
        exists|searcher: tantivy::Searcher, engine: tantivy::query::BooleanQuery|
            {
                &&& store.seen_by(searcher)
                &&& engine_clauses(engine) == embedded(query)
                &&& #[trigger] answer_on(
                    store.plugin(),
                    searcher,
                    engine,
                    offset,
                    len,
                    explain,
                    hits,
                    count,
                )
                &&& documents_at(
                    searcher,
                    engine_ranking(searcher, engine_clauses(engine)),
                ).to_multiset() == store.docs()
                &&& offset == 0 && count <= len ==> projects_to(
                    store.plugin(),
                    searcher,
                    engine,
                    explain,
                    engine_ranking(searcher, engine_clauses(engine)),
                    hits,
                )
            },
{
    let (searcher, engine) = choose|searcher: tantivy::Searcher, engine: tantivy::query::BooleanQuery|
        {
            &&& store.seen_by(searcher)
            &&& engine_clauses(engine) == embedded(query)
            &&& #[trigger] answer_on(
                store.plugin(),
                searcher,
                engine,
                offset,
                len,
                explain,
                hits,
                count,
            )
        };
    let ranking = engine_ranking(searcher, engine_clauses(engine));
    documents_at(searcher, ranking).to_multiset_ensures();
    if offset == 0 && count <= len {
        assert(windowed(ranking, offset, len) =~= ranking);
    }
}

/// What the advisory index makes of a hit carries the identifier of the
/// document that the searcher finds at the address of the hit: the first
/// value that the document has in the field of the identifier. This holds
/// where the identifiers are stored, of a document that holds texts, dates
/// and scores only.
pub proof fn lemma_hit_carries_identifier(
    index: crate::vexination::Index,
    address: DocAddress,
    score: u32,
    searcher: tantivy::Searcher,
    engine: tantivy::query::BooleanQuery,
    explain: bool,
    hit: SearchHit,
)
    requires
        call_ensures(
            crate::vexination::Index::process_hit,
            (&index, address, score, &searcher, &engine, explain),
            Ok(hit),
        ),
        plain(searcher_at(searcher, address)->0),
        marked(stored_fields(searcher_key(searcher)), index.identity()),
    ensures
        first_of(searcher_at(searcher, address)->0, index.identity()) == Some(
            ValueView::Text(hit.document.advisory_id@),
        ),
        (searcher_at(searcher, address)->0).contains(
            (index.identity(), ValueView::Text(hit.document.advisory_id@)),
        ),
{
    crate::vexination::lemma_identity_is_advisory_id(index);
    let doc = searcher_at(searcher, address)->0;
    let field = index.identity();
    lemma_kept_values(doc, stored_fields(searcher_key(searcher)), field);
    assert(searcher_stored(searcher, address) == kept(doc, stored_fields(searcher_key(searcher))));
    lemma_values_are_held(doc, field, 0);
}

/// Delete then search, of the advisory index: after the advisory of an
/// identifier was deleted, no hit of any search carries the identifier.
/// This holds of a store whose documents hold texts, dates and scores
/// only, as every document does that a writer of this library has added,
/// and where the identifiers are stored and the engine finds by the term
/// of the identifier every document that holds it.
pub proof fn lemma_deleted_advisory_is_no_hit(
    store: IndexStore<crate::vexination::Index>,
    before: Multiset<Seq<Entry>>,
    ops: Seq<WriteOp>,
    id: Seq<char>,
    query: QueryView,
    offset: usize,
    len: usize,
    explain: bool,
    hits: Seq<SearchHit>,
    count: usize,
)
    requires
        (store.plugin().identity().0 as nat) < field_count(store.key()),
        marked(stored_fields(store.key()), store.plugin().identity()),
        term_finds(store.key(), store.plugin().identity(), id),
        forall|doc: Seq<Entry>| store.docs().contains(doc) ==> plain(doc),
        store.docs() == applied(
            store.key(),
            before,
            ops + deletion(store.key(), store.plugin().identity(), id),
        ),
        store.answered(query, offset, len, explain, hits, count),
    ensures
        forall|j: int| 0 <= j < hits.len() ==> (#[trigger] hits[j]).document.advisory_id@ != id,
{
    let field = store.plugin().identity();
    lemma_search_after_delete(store, before, ops, id, query, offset, len, explain, hits, count);
    let (searcher, engine) = choose|searcher: tantivy::Searcher, engine: tantivy::query::BooleanQuery|
        {
            &&& store.seen_by(searcher)
            &&& engine_clauses(engine) == embedded(query)
            &&& #[trigger] answer_on(
                store.plugin(),
                searcher,
                engine,
                offset,
                len,
                explain,
                hits,
                count,
            )
            &&& forall|i: int|
                0 <= i < count ==> !engine_finds(
                    store.key(),
                    holding(store.plugin().identity(), id),
                    #[trigger] documents_at(
                        searcher,
                        engine_ranking(searcher, engine_clauses(engine)),
                    )[i],
                )
            &&& term_finds(store.key(), store.plugin().identity(), id) ==> forall|i: int|
                0 <= i < count ==> !(#[trigger] documents_at(
                    searcher,
                    engine_ranking(searcher, engine_clauses(engine)),
                )[i]).contains((store.plugin().identity(), ValueView::Text(id)))
        };
    let ranking = engine_ranking(searcher, engine_clauses(engine));
    let window = windowed(ranking, offset, len);
    assert forall|j: int| 0 <= j < hits.len() implies (#[trigger] hits[j]).document.advisory_id@
        != id by {
        lemma_hit_is_projection(store.plugin(), searcher, engine, explain, window, hits, j);
        let i = choose|i: int|
            0 <= i < window.len() && call_ensures(
                crate::vexination::Index::process_hit,
                (&store.plugin(), (#[trigger] window[i]).address, window[i].score, &searcher, &engine, explain),
                Ok(hits[j]),
            );
        let at = offset + i;
        assert(window[i] == ranking[at]);
        let doc = documents_at(searcher, ranking)[at];
        assert(searcher_at(searcher, ranking[at].address) == Some(doc));
        assert(store.docs().contains(doc));
        lemma_hit_carries_identifier(
            store.plugin(),
            window[i].address,
            window[i].score,
            searcher,
            engine,
            explain,
            hits[j],
        );
    }
}

/// Replace on add, of the advisory index: after an advisory was added under
/// an identifier, whatever was added under it before, a search for the
/// term of the identifier counts one document and has at most one hit, and
/// that hit carries the identifier. This holds of a store whose documents
/// hold texts, dates and scores only, and where the identifiers are stored
/// and the engine finds by the term of the identifier every document that
/// holds it.
pub proof fn lemma_replaced_advisory_is_one_hit(
    store: IndexStore<crate::vexination::Index>,
    before: Multiset<Seq<Entry>>,
    ops: Seq<WriteOp>,
    id: Seq<char>,
    advisory: Advisory,
    offset: usize,
    len: usize,
    explain: bool,
    hits: Seq<SearchHit>,
    count: usize,
)
    requires
        (store.plugin().identity().0 as nat) < field_count(store.key()),
        marked(stored_fields(store.key()), store.plugin().identity()),
        term_finds(store.key(), store.plugin().identity(), id),
        forall|doc: Seq<Entry>| store.docs().contains(doc) ==> plain(doc),
        store.docs() == applied(
            store.key(),
            before,
            ops + replacement(
                store.key(),
                store.plugin().identity(),
                id,
                seq![advisory_entries(store.plugin().handles(), id, advisory)],
            ),
        ),
        store.answered(
            QueryView::Term { field: store.plugin().identity(), text: id },
            offset,
            len,
            explain,
            hits,
            count,
        ),
    ensures
        count == 1,
        hits.len() <= 1,
        forall|j: int| 0 <= j < hits.len() ==> (#[trigger] hits[j]).document.advisory_id@ == id,
{
    broadcast use vstd::multiset::group_multiset_axioms;

    let field = store.plugin().identity();
    let fields = store.plugin().handles();
    let entries = advisory_entries(fields, id, advisory);
    let docs = seq![entries];
    crate::vexination::lemma_identity_is_advisory_id(store.plugin());
    crate::vexination::lemma_advisory_holds_its_identifier(fields, id, advisory);
    lemma_search_after_replace(store, before, ops, id, docs, offset, len, explain, hits, count);
    let (searcher, engine) = choose|searcher: tantivy::Searcher, engine: tantivy::query::BooleanQuery|
        {
            &&& store.seen_by(searcher)
            &&& #[trigger] answer_on(
                store.plugin(),
                searcher,
                engine,
                offset,
                len,
                explain,
                hits,
                count,
            )
            &&& documents_at(
                searcher,
                engine_ranking(searcher, engine_clauses(engine)),
            ).to_multiset() == docs.to_multiset()
        };
    let ranking = engine_ranking(searcher, engine_clauses(engine));
    let ranked = documents_at(searcher, ranking);
    let window = windowed(ranking, offset, len);
    ranked.to_multiset_ensures();
    docs.to_multiset_ensures();
    assert(ranked.len() == 1);
    assert(ranked.to_multiset().count(ranked[0]) > 0);
    assert(docs.contains(ranked[0]));
    assert(ranked[0] == entries);
    assert(entries.take(1) =~= seq![(field, ValueView::Text(id))]);
    assert(values_of(entries.take(1), field) =~= seq![ValueView::Text(id)]) by {
        reveal_with_fuel(values_of, 2);
        assert(entries.take(1).drop_last() =~= Seq::<Entry>::empty());
    }
    lemma_values_of_prefix(entries, 1, field);
    let first = values_of(entries.take(1), field);
    assert(first[0] == values_of(entries, field).subrange(0, first.len() as int)[0]);
    assert(first_of(entries, field) == Some(ValueView::Text(id)));
    assert forall|j: int| 0 <= j < hits.len() implies (#[trigger] hits[j]).document.advisory_id@
        == id by {
        lemma_hit_is_projection(store.plugin(), searcher, engine, explain, window, hits, j);
        let i = choose|i: int|
            0 <= i < window.len() && call_ensures(
                crate::vexination::Index::process_hit,
                (&store.plugin(), (#[trigger] window[i]).address, window[i].score, &searcher, &engine, explain),
                Ok(hits[j]),
            );
        assert(window[i] == ranking[0]);
        assert(searcher_at(searcher, ranking[0].address) == Some(ranked[0]));
        assert(store.docs().contains(entries));
        lemma_hit_carries_identifier(
            store.plugin(),
            window[i].address,
            window[i].score,
            searcher,
            engine,
            explain,
            hits[j],
        );
    }
}

/// A value that a sequence holds in two places is counted twice at least
/// among its values.
pub proof fn lemma_twice_in_listing<A>(listing: Seq<A>, first: int, second: int)
    requires
        0 <= first < second < listing.len(),
        listing[first] == listing[second],
    ensures
        listing.to_multiset().count(listing[first]) >= 2,
{
    broadcast use vstd::multiset::group_multiset_axioms;

    let before = listing.subrange(0, second);
    let after = listing.subrange(second, listing.len() as int);
    assert(listing =~= before + after);
    lemma_multiset_commutative(before, after);
    before.to_multiset_ensures();
    after.to_multiset_ensures();
    assert(before[first] == listing[first]);
    assert(after[0] == listing[second]);
    assert(before.contains(listing[first]));
    assert(after.contains(listing[first]));
}

/// Replace on add, of the advisory index and of every query: after an
/// advisory was added under an identifier, whatever was added under it
/// before, no search has two hits that carry the identifier. This holds of
/// a store whose documents hold texts, dates and scores only, and where
/// the identifiers are stored and the engine finds by the term of the
/// identifier every document that holds it.
pub proof fn lemma_replaced_advisory_is_hit_once(
    store: IndexStore<crate::vexination::Index>,
    before: Multiset<Seq<Entry>>,
    ops: Seq<WriteOp>,
    id: Seq<char>,
    advisory: Advisory,
    query: QueryView,
    offset: usize,
    len: usize,
    explain: bool,
    hits: Seq<SearchHit>,
    count: usize,
)
    requires
        (store.plugin().identity().0 as nat) < field_count(store.key()),
        marked(stored_fields(store.key()), store.plugin().identity()),
        term_finds(store.key(), store.plugin().identity(), id),
        forall|doc: Seq<Entry>| store.docs().contains(doc) ==> plain(doc),
        store.docs() == applied(
            store.key(),
            before,
            ops + replacement(
                store.key(),
                store.plugin().identity(),
                id,
                seq![advisory_entries(store.plugin().handles(), id, advisory)],
            ),
        ),
        store.answered(query, offset, len, explain, hits, count),
    ensures
        forall|first: int, second: int|
            0 <= first < second < hits.len() ==> !((#[trigger] hits[first]).document.advisory_id@
                == id && (#[trigger] hits[second]).document.advisory_id@ == id),
{
    broadcast use vstd::multiset::group_multiset_axioms;

    let key = store.key();
    let field = store.plugin().identity();
    let fields = store.plugin().handles();
    let entries = advisory_entries(fields, id, advisory);
    let docs = seq![entries];
    crate::vexination::lemma_identity_is_advisory_id(store.plugin());
    crate::vexination::lemma_advisory_holds_its_identifier(fields, id, advisory);
    lemma_applied_in_turn(key, before, ops, replacement(key, field, id, docs));
    lemma_replaced(key, applied(key, before, ops), field, id, docs);
    docs.to_multiset_ensures();
    let held = found(key, holding(field, id), store.docs());
    assert(held == docs.to_multiset());
    let (searcher, engine) = choose|searcher: tantivy::Searcher, engine: tantivy::query::BooleanQuery|
        {
            &&& store.seen_by(searcher)
            &&& engine_clauses(engine) == embedded(query)
            &&& #[trigger] answer_on(
                store.plugin(),
                searcher,
                engine,
                offset,
                len,
                explain,
                hits,
                count,
            )
        };
    let ranking = engine_ranking(searcher, engine_clauses(engine));
    let ranked = documents_at(searcher, ranking);
    let window = windowed(ranking, offset, len);
    assert forall|first: int, second: int| 0 <= first < second < hits.len() implies !((
    #[trigger] hits[first]).document.advisory_id@ == id && (
    #[trigger] hits[second]).document.advisory_id@ == id) by {
        if hits[first].document.advisory_id@ == id && hits[second].document.advisory_id@ == id {
            lemma_hits_keep_order(
                store.plugin(),
                searcher,
                engine,
                explain,
                window,
                hits,
                first,
                second,
            );
            let (i, k) = choose|i: int, k: int|
                {
                    &&& 0 <= i < k < window.len()
                    &&& call_ensures(
                        crate::vexination::Index::process_hit,
                        (&store.plugin(), (#[trigger] window[i]).address, window[i].score, &searcher, &engine, explain),
                        Ok(hits[first]),
                    )
                    &&& call_ensures(
                        crate::vexination::Index::process_hit,
                        (&store.plugin(), (#[trigger] window[k]).address, window[k].score, &searcher, &engine, explain),
                        Ok(hits[second]),
                    )
                };
            let a = offset + i;
            let b = offset + k;
            assert(window[i] == ranking[a]);
            assert(window[k] == ranking[b]);
            assert(searcher_at(searcher, ranking[a].address) == Some(ranked[a]));
            assert(searcher_at(searcher, ranking[b].address) == Some(ranked[b]));
            assert(store.docs().contains(ranked[a]));
            assert(store.docs().contains(ranked[b]));
            lemma_hit_carries_identifier(
                store.plugin(),
                window[i].address,
                window[i].score,
                searcher,
                engine,
                explain,
                hits[first],
            );
            lemma_hit_carries_identifier(
                store.plugin(),
                window[k].address,
                window[k].score,
                searcher,
                engine,
                explain,
                hits[second],
            );
            assert(held.count(ranked[a]) == store.docs().count(ranked[a]));
            assert(held.count(ranked[b]) == store.docs().count(ranked[b]));
            assert(docs.contains(ranked[a]));
            assert(docs.contains(ranked[b]));
            assert(ranked[a] == entries && ranked[b] == entries);
            lemma_twice_in_listing(ranked, a, b);
            assert(held.count(entries) == store.docs().count(entries));
            assert(docs.to_multiset().count(entries) == 1) by {
                assert(docs =~= Seq::<Seq<Entry>>::empty().push(entries));
                Seq::<Seq<Entry>>::empty().to_multiset_ensures();
            }
            assert(ranked.to_multiset().count(entries) <= store.docs().count(entries));
        }
    }
}

/// The empty query, of the advisory index: where a query finds every
/// document, as the empty query does, and as many hits came back from the
/// start of the ranking as documents were counted, there is a hit for each
/// document of the store and for nothing else: the ranking lists exactly
/// the documents of the store, and each hit carries the identifier of the
/// document in its place. This holds of a store whose documents hold
/// texts, dates and scores only, and where the identifiers are stored.
pub proof fn lemma_all_advisories_are_hits(
    store: IndexStore<crate::vexination::Index>,
    query: QueryView,
    len: usize,
    explain: bool,
    hits: Seq<SearchHit>,
    count: usize,
)
    requires
        marked(stored_fields(store.key()), store.plugin().identity()),
        forall|doc: Seq<Entry>| store.docs().contains(doc) ==> plain(doc),
        store.answered(query, 0, len, explain, hits, count),
        found(store.key(), embedded(query), store.docs()) == store.docs(),
        hits.len() == count,
    ensures
        count == store.docs().len(),
        exists|listing: Seq<Seq<Entry>>|
            {
                &&& #[trigger] listing.to_multiset() == store.docs()
                &&& listing.len() == hits.len()
                &&& forall|i: int|
                    0 <= i < hits.len() ==> first_of(listing[i], store.plugin().identity()) == Some(
                        ValueView::Text((#[trigger] hits[i]).document.advisory_id@),
                    )
            },
{
    lemma_all_are_ranked(store, query, 0, len, explain, hits, count);
    let (searcher, engine) = choose|searcher: tantivy::Searcher, engine: tantivy::query::BooleanQuery|
        {
            &&& store.seen_by(searcher)
            &&& engine_clauses(engine) == embedded(query)
            &&& #[trigger] answer_on(
                store.plugin(),
                searcher,
                engine,
                0,
                len,
                explain,
                hits,
                count,
            )
            &&& documents_at(
                searcher,
                engine_ranking(searcher, engine_clauses(engine)),
            ).to_multiset() == store.docs()
            &&& 0 == 0 && count <= len ==> projects_to(
                store.plugin(),
                searcher,
                engine,
                explain,
                engine_ranking(searcher, engine_clauses(engine)),
                hits,
            )
        };
    let ranking = engine_ranking(searcher, engine_clauses(engine));
    let listing = documents_at(searcher, ranking);
    let window = windowed(ranking, 0, len);
    lemma_projection_length(store.plugin(), searcher, engine, explain, window, hits);
    assert(window =~= ranking);
    lemma_projection_in_step(store.plugin(), searcher, engine, explain, ranking, hits);
    listing.to_multiset_ensures();
    assert forall|i: int| 0 <= i < hits.len() implies first_of(
        listing[i],
        store.plugin().identity(),
    ) == Some(ValueView::Text((#[trigger] hits[i]).document.advisory_id@)) by {
        assert(searcher_at(searcher, ranking[i].address) == Some(listing[i]));
        assert(store.docs().contains(listing[i]));
        lemma_hit_carries_identifier(
            store.plugin(),
            ranking[i].address,
            ranking[i].score,
            searcher,
            engine,
            explain,
            hits[i],
        );
    }
}

} // verus!
