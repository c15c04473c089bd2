//! Documents as the search engine holds them.

use crate::document::{Document, Entry, FieldValue, Value, ValueView};
use crate::query::{Field, ScoreKey, Timestamp};
use vstd::prelude::*;

verus! {

/// A document of the search engine: a list of values in fields.
#[verifier::external_body]
pub struct EngineDocument {
    pub(crate) inner: tantivy::schema::Document,
}

/// The values that an engine document holds, in the order in which they were
/// added.
pub uninterp spec fn engine_entries(doc: EngineDocument) -> Seq<Entry>;

/// `Document::new`: a document without values.
#[verifier::external_body]
fn doc_new() -> (doc: EngineDocument)
    ensures
        engine_entries(doc) == Seq::<Entry>::empty(),
{
    EngineDocument { inner: tantivy::schema::Document::new() }
}

/// `Document::add_text`: the text is added behind the other values.
#[verifier::external_body]
fn doc_add_text(doc: &mut EngineDocument, field: Field, text: &str)
    ensures
        engine_entries(*final(doc)) == engine_entries(*old(doc)).push(
            (field, ValueView::Text(text@)),
        ),
{
    doc.inner.add_text(tantivy::schema::Field::from_field_id(field.0), text);
}

/// `Document::add_date`, with the date that `DateTime::from_timestamp_micros`
/// makes of the microseconds: the date is added behind the other values.
#[verifier::external_body]
fn doc_add_date(doc: &mut EngineDocument, field: Field, date: Timestamp)
    ensures
        engine_entries(*final(doc)) == engine_entries(*old(doc)).push(
            (field, ValueView::Date(date)),
        ),
{
    let date = tantivy::DateTime::from_timestamp_micros(date);
    doc.inner.add_date(tantivy::schema::Field::from_field_id(field.0), date);
}

/// `Document::add_f64`, with the number whose key is `score` by
/// `tantivy::u64_to_f64`: the number is added behind the other values.
#[verifier::external_body]
fn doc_add_score(doc: &mut EngineDocument, field: Field, score: ScoreKey)
    ensures
        engine_entries(*final(doc)) == engine_entries(*old(doc)).push(
            (field, ValueView::Score(score)),
        ),
{
    let number = tantivy::u64_to_f64(score);
    doc.inner.add_f64(tantivy::schema::Field::from_field_id(field.0), number);
}

/// `Document::len`: the number of values.
#[verifier::external_body]
fn doc_len(doc: &EngineDocument) -> (n: usize)
    ensures
        n == engine_entries(*doc).len(),
{
    doc.inner.len()
}

/// `Document::field_values`, at one position: the value there with its
/// field, or `None` where the value is neither text nor date nor number.
#[verifier::external_body]
fn doc_entry(doc: &EngineDocument, i: usize) -> (entry: Option<FieldValue>)
    requires
        i < engine_entries(*doc).len(),
    ensures
        match entry {
            Some(found) => engine_entries(*doc)[i as int] == (found.field, found.value@),
            None => engine_entries(*doc)[i as int].1 is Other,
        },
{
    let entry = &doc.inner.field_values()[i];
    let value = match entry.value() {
        tantivy::schema::Value::Str(text) => Value::Text(text.clone()),
        tantivy::schema::Value::Date(date) => Value::Date(date.into_timestamp_micros()),
        tantivy::schema::Value::F64(number) => Value::Score(tantivy::f64_to_u64(*number)),
        _ => return None,
    };
    Some(FieldValue { field: Field(entry.field().field_id()), value })
}

/// Hands a document to the engine, value by value.
pub fn to_engine(doc: &Document) -> (engine: EngineDocument)
    ensures
        engine_entries(engine) == doc@,
{
    let mut engine = doc_new();
    let mut i: usize = 0;
    while i < doc.values.len()
        invariant
            i <= doc.values.len(),
            engine_entries(engine) == doc@.take(i as int),
        decreases doc.values.len() - i,
    {
        let entry = &doc.values[i];
        match &entry.value {
            Value::Text(text) => doc_add_text(&mut engine, entry.field, text.as_str()),
            Value::Date(date) => doc_add_date(&mut engine, entry.field, *date),
            Value::Score(score) => doc_add_score(&mut engine, entry.field, *score),
        }
        assert(doc@.take(i + 1) =~= doc@.take(i as int).push(doc@[i as int]));
        i += 1;
    }
    assert(doc@.take(i as int) =~= doc@);
    engine
}

/// The entries that a [`Document`] can hold, in order.
pub open spec fn readable(entries: Seq<Entry>) -> Seq<Entry>
    decreases entries.len(),
{
    if entries.len() == 0 {
        Seq::empty()
    } else if entries.last().1 is Other {
        readable(entries.drop_last())
    } else {
        readable(entries.drop_last()).push(entries.last())
    }
}

/// Takes a document over from the engine, value by value. A value of a type
/// that a [`Document`] cannot hold is left out.
pub fn from_engine(engine: &EngineDocument) -> (doc: Document)
    ensures
        doc@ == readable(engine_entries(*engine)),
{
    let mut doc = Document::new();
    let n = doc_len(engine);
    let mut i: usize = 0;
    assert(engine_entries(*engine).take(0) =~= Seq::<Entry>::empty());
    while i < n
        invariant
            n == engine_entries(*engine).len(),
            i <= n,
            doc@ == readable(engine_entries(*engine).take(i as int)),
        decreases n - i,
    {
        proof {
            let entries = engine_entries(*engine);
            assert(entries.take(i + 1).drop_last() =~= entries.take(i as int));
        }
        match doc_entry(engine, i) {
            Some(entry) => {
                doc.add(entry.field, entry.value);
            },
            None => {},
        }
        i += 1;
    }
    assert(engine_entries(*engine).take(i as int) =~= engine_entries(*engine));
    doc
}

} // verus!
