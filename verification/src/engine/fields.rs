//! Declaring the fields of a schema to the search engine.

use crate::query::Field;
use crate::schema::{valid_field_name, FieldKind, FieldOptions};
use vstd::prelude::*;

verus! {

/// The engine's attributes of a text field.
#[verifier::external_type_specification]
#[verifier::external_body]
pub struct ExTextOptions(tantivy::schema::TextOptions);

/// The engine's attributes of a date field.
#[verifier::external_type_specification]
#[verifier::external_body]
pub struct ExDateOptions(tantivy::schema::DateOptions);

/// The engine's attributes of a numeric field.
#[verifier::external_type_specification]
#[verifier::external_body]
pub struct ExNumericOptions(tantivy::schema::NumericOptions);

/// The engine's builder of schemas.
#[verifier::external_type_specification]
#[verifier::external_body]
pub struct ExSchemaBuilder(tantivy::schema::SchemaBuilder);

/// The names of the fields that a builder holds, in the order in which they
/// were added.
pub uninterp spec fn builder_names(builder: tantivy::schema::SchemaBuilder) -> Seq<Seq<char>>;

/// For each field that a builder holds, in order, whether the engine takes
/// it as the field by which an index is kept sorted: a fast field with one
/// value in a document.
pub uninterp spec fn builder_sortable(builder: tantivy::schema::SchemaBuilder) -> Seq<bool>;

/// For each field that a builder holds, in order, whether it is a text
/// field whose values are indexed whole, each as one term.
pub uninterp spec fn builder_whole(builder: tantivy::schema::SchemaBuilder) -> Seq<bool>;

/// For each field that a builder holds, in order, whether its values are
/// stored.
pub uninterp spec fn builder_stored(builder: tantivy::schema::SchemaBuilder) -> Seq<bool>;

/// Whether the values of a text field with these attributes are stored.
pub uninterp spec fn text_kept(options: tantivy::schema::TextOptions) -> bool;

/// Whether the values of a date field with these attributes are stored.
pub uninterp spec fn date_kept(options: tantivy::schema::DateOptions) -> bool;

/// Whether the values of a numeric field with these attributes are stored.
pub uninterp spec fn score_kept(options: tantivy::schema::NumericOptions) -> bool;

/// How a text field with these attributes is indexed: not at all (`None`),
/// each value as one term (`Some(true)`), or in another way
/// (`Some(false)`).
pub uninterp spec fn text_indexing(options: tantivy::schema::TextOptions) -> Option<bool>;

/// Whether a date field with these attributes is a fast field with one
/// value in a document.
pub uninterp spec fn date_sortable(options: tantivy::schema::DateOptions) -> bool;

/// Whether a numeric field with these attributes is a fast field with one
/// value in a document.
pub uninterp spec fn score_sortable(options: tantivy::schema::NumericOptions) -> bool;

/// Whether the engine takes a field with these attributes as the field by
/// which an index is kept sorted: a fast field of dates or of scores. A
/// fast field of text is none, for it may hold many values in a document.
pub open spec fn sortable(options: FieldOptions) -> bool {
    options.fast && (options.kind == FieldKind::Date || options.kind == FieldKind::Score)
}

/// Whether the engine indexes the values of a field with these attributes
/// whole, each as one term: an indexed field of strings.
pub open spec fn whole(options: FieldOptions) -> bool {
    options.indexed && options.kind == FieldKind::String
}

/// `TextOptions::default`: a text field that is neither indexed nor stored.
#[verifier::external_body]
fn text_plain() -> (plain: tantivy::schema::TextOptions)
    ensures
        text_indexing(plain) is None,
        !text_kept(plain),
{
    tantivy::schema::TextOptions::default()
}

/// The attributes joined by `|` with `tantivy::schema::STRING`: a field
/// that was not indexed is indexed with the tokenizer that makes one term
/// of the whole value. One that was indexed already keeps its way. Whether
/// the values are stored stays.
#[verifier::external_body]
fn text_index_whole(options: tantivy::schema::TextOptions) -> (whole: tantivy::schema::TextOptions)
    ensures
        text_indexing(whole) == match text_indexing(options) {
            Some(way) => Some(way),
            None => Some(true),
        },
        text_kept(whole) == text_kept(options),
{
    options | tantivy::schema::STRING
}

/// The attributes joined by `|` with `tantivy::schema::TEXT`: a field that
/// was not indexed is indexed with the tokenizer that splits the value into
/// words. One that was indexed already keeps its way. Whether the values
/// are stored stays.
#[verifier::external_body]
fn text_index_words(options: tantivy::schema::TextOptions) -> (words: tantivy::schema::TextOptions)
    ensures
        text_indexing(words) == match text_indexing(options) {
            Some(way) => Some(way),
            None => Some(false),
        },
        text_kept(words) == text_kept(options),
{
    options | tantivy::schema::TEXT
}

/// `TextOptions::set_stored`: the values are stored. How the field is
/// indexed stays.
#[verifier::external_body]
fn text_stored(options: tantivy::schema::TextOptions) -> (stored: tantivy::schema::TextOptions)
    ensures
        text_indexing(stored) == text_indexing(options),
        text_kept(stored),
{
    options.set_stored()
}

/// `TextOptions::set_fast`. How the field is indexed stays, and whether
/// its values are stored.
#[verifier::external_body]
fn text_fast(options: tantivy::schema::TextOptions) -> (fast: tantivy::schema::TextOptions)
    ensures
        text_indexing(fast) == text_indexing(options),
        text_kept(fast) == text_kept(options),
{
    options.set_fast()
}

/// `DateOptions::default`: a date field without attributes.
#[verifier::external_body]
fn date_plain() -> (plain: tantivy::schema::DateOptions)
    ensures
        !date_sortable(plain),
        !date_kept(plain),
{
    tantivy::schema::DateOptions::default()
}

/// The attributes joined by `|` with `tantivy::schema::INDEXED`: the dates
/// are indexed, and the lengths of the field are recorded as for every
/// field that is declared with the flag. Whether the field is fast stays,
/// and whether its values are stored.
#[verifier::external_body]
fn date_indexed(options: tantivy::schema::DateOptions) -> (indexed: tantivy::schema::DateOptions)
    ensures
        date_sortable(indexed) == date_sortable(options),
        date_kept(indexed) == date_kept(options),
{
    options | tantivy::schema::INDEXED
}

/// `DateOptions::set_stored`: the values are stored. Whether the field is
/// fast stays.
#[verifier::external_body]
fn date_stored(options: tantivy::schema::DateOptions) -> (stored: tantivy::schema::DateOptions)
    ensures
        date_sortable(stored) == date_sortable(options),
        date_kept(stored),
{
    options.set_stored()
}

/// `DateOptions::set_fast`, for a field with one value in a document, which
/// is what the flag `tantivy::schema::FAST` stands for. Whether the values
/// are stored stays.
#[verifier::external_body]
fn date_fast(options: tantivy::schema::DateOptions) -> (fast: tantivy::schema::DateOptions)
    ensures
        date_sortable(fast),
        date_kept(fast) == date_kept(options),
{
    options.set_fast(tantivy::schema::Cardinality::SingleValue)
}

/// `NumericOptions::default`: a numeric field without attributes.
#[verifier::external_body]
fn score_plain() -> (plain: tantivy::schema::NumericOptions)
    ensures
        !score_sortable(plain),
        !score_kept(plain),
{
    tantivy::schema::NumericOptions::default()
}

/// The attributes joined by `|` with `tantivy::schema::INDEXED`: the
/// numbers are indexed, and the lengths of the field are recorded as for
/// every field that is declared with the flag. Whether the field is fast
/// stays, and whether its values are stored.
#[verifier::external_body]
fn score_indexed(options: tantivy::schema::NumericOptions) -> (indexed:
    tantivy::schema::NumericOptions)
    ensures
        score_sortable(indexed) == score_sortable(options),
        score_kept(indexed) == score_kept(options),
{
    options | tantivy::schema::INDEXED
}

/// `NumericOptions::set_stored`: the values are stored. Whether the field
/// is fast stays.
#[verifier::external_body]
fn score_stored(options: tantivy::schema::NumericOptions) -> (stored:
    tantivy::schema::NumericOptions)
    ensures
        score_sortable(stored) == score_sortable(options),
        score_kept(stored),
{
    options.set_stored()
}

/// `NumericOptions::set_fast`, for a field with one value in a document,
/// which is what the flag `tantivy::schema::FAST` stands for. Whether the
/// values are stored stays.
#[verifier::external_body]
fn score_fast(options: tantivy::schema::NumericOptions) -> (fast: tantivy::schema::NumericOptions)
    ensures
        score_sortable(fast),
        score_kept(fast) == score_kept(options),
{
    options.set_fast(tantivy::schema::Cardinality::SingleValue)
}

/// `Schema::builder`: a builder that holds no field.
#[verifier::external_body]
fn builder_new() -> (builder: tantivy::schema::SchemaBuilder)
    ensures
        builder_names(builder) == Seq::<Seq<char>>::empty(),
        builder_sortable(builder) == Seq::<bool>::empty(),
        builder_whole(builder) == Seq::<bool>::empty(),
        builder_stored(builder) == Seq::<bool>::empty(),
{
    tantivy::schema::Schema::builder()
}

/// `SchemaBuilder::add_text_field`: the field is added behind the others,
/// with the attributes, and its handle is its position. An index is not
/// sorted by a text field. The engine panics on a name that is not valid or
/// that the builder already holds.
#[verifier::external_body]
fn builder_add_text(
    builder: &mut tantivy::schema::SchemaBuilder,
    name: &str,
    options: tantivy::schema::TextOptions,
) -> (field: Field)
    requires
        valid_field_name(name@),
        !builder_names(*old(builder)).contains(name@),
        builder_names(*old(builder)).len() < u32::MAX,
    ensures
        builder_names(*final(builder)) == builder_names(*old(builder)).push(name@),
        field.0 == builder_names(*old(builder)).len(),
        builder_sortable(*final(builder)) == builder_sortable(*old(builder)).push(false),
        builder_whole(*final(builder)) == builder_whole(*old(builder)).push(
            text_indexing(options) == Some(true),
        ),
        builder_stored(*final(builder)) == builder_stored(*old(builder)).push(text_kept(options)),
{
    Field(builder.add_text_field(name, options).field_id())
}

/// `SchemaBuilder::add_date_field`: as for a text field; a date field is
/// no text field.
#[verifier::external_body]
fn builder_add_date(
    builder: &mut tantivy::schema::SchemaBuilder,
    name: &str,
    options: tantivy::schema::DateOptions,
) -> (field: Field)
    requires
        valid_field_name(name@),
        !builder_names(*old(builder)).contains(name@),
        builder_names(*old(builder)).len() < u32::MAX,
    ensures
        builder_names(*final(builder)) == builder_names(*old(builder)).push(name@),
        field.0 == builder_names(*old(builder)).len(),
        builder_sortable(*final(builder)) == builder_sortable(*old(builder)).push(
            date_sortable(options),
        ),
        builder_whole(*final(builder)) == builder_whole(*old(builder)).push(false),
        builder_stored(*final(builder)) == builder_stored(*old(builder)).push(date_kept(options)),
{
    Field(builder.add_date_field(name, options).field_id())
}

/// `SchemaBuilder::add_f64_field`: as for a text field; a numeric field is
/// no text field.
#[verifier::external_body]
fn builder_add_score(
    builder: &mut tantivy::schema::SchemaBuilder,
    name: &str,
    options: tantivy::schema::NumericOptions,
) -> (field: Field)
    requires
        valid_field_name(name@),
        !builder_names(*old(builder)).contains(name@),
        builder_names(*old(builder)).len() < u32::MAX,
    ensures
        builder_names(*final(builder)) == builder_names(*old(builder)).push(name@),
        field.0 == builder_names(*old(builder)).len(),
        builder_sortable(*final(builder)) == builder_sortable(*old(builder)).push(
            score_sortable(options),
        ),
        builder_whole(*final(builder)) == builder_whole(*old(builder)).push(false),
        builder_stored(*final(builder)) == builder_stored(*old(builder)).push(score_kept(options)),
{
    Field(builder.add_f64_field(name, options).field_id())
}

/// Declares one field to a builder, with the attributes that the schema
/// gives it.
fn declare(builder: &mut tantivy::schema::SchemaBuilder, name: &str, options: FieldOptions) -> (field:
    Field)
    requires
        valid_field_name(name@),
        !builder_names(*old(builder)).contains(name@),
        builder_names(*old(builder)).len() < u32::MAX,
    ensures
        builder_names(*final(builder)) == builder_names(*old(builder)).push(name@),
        field.0 == builder_names(*old(builder)).len(),
        builder_sortable(*final(builder)) == builder_sortable(*old(builder)).push(
            sortable(options),
        ),
        builder_whole(*final(builder)) == builder_whole(*old(builder)).push(whole(options)),
        builder_stored(*final(builder)) == builder_stored(*old(builder)).push(options.stored),
{
    match options.kind {
        FieldKind::Text | FieldKind::String => {
            let mut engine = text_plain();
            if options.indexed {
                engine = match options.kind {
                    FieldKind::Text => text_index_words(engine),
                    _ => text_index_whole(engine),
                };
            }
            if options.stored {
                engine = text_stored(engine);
            }
            if options.fast {
                engine = text_fast(engine);
            }
            builder_add_text(builder, name, engine)
        },
        FieldKind::Date => {
            let mut engine = date_plain();
            if options.indexed {
                engine = date_indexed(engine);
            }
            if options.stored {
                engine = date_stored(engine);
            }
            if options.fast {
                engine = date_fast(engine);
            }
            builder_add_date(builder, name, engine)
        },
        FieldKind::Score => {
            let mut engine = score_plain();
            if options.indexed {
                engine = score_indexed(engine);
            }
            if options.stored {
                engine = score_stored(engine);
            }
            if options.fast {
                engine = score_fast(engine);
            }
            builder_add_score(builder, name, engine)
        },
    }
}

/// For each field of a schema, in order, whether the engine takes it as the
/// field by which an index is kept sorted.
pub open spec fn sortable_fields(schema: crate::schema::Schema) -> Seq<bool> {
    Seq::new(schema.options().len(), |i: int| sortable(schema.options()[i]))
}

/// For each field of a schema, in order, whether the engine indexes its
/// values whole.
pub open spec fn whole_fields(schema: crate::schema::Schema) -> Seq<bool> {
    Seq::new(schema.options().len(), |i: int| whole(schema.options()[i]))
}

/// For each field of a schema, in order, whether its values are stored.
pub open spec fn kept_fields(schema: crate::schema::Schema) -> Seq<bool> {
    Seq::new(schema.options().len(), |i: int| schema.options()[i].stored)
}

/// Declares a schema to the engine, field by field.
pub fn declare_all(schema: &crate::schema::Schema) -> (builder: tantivy::schema::SchemaBuilder)
    requires
        schema.wf(),
    ensures
        builder_names(builder) == schema.names(),
        builder_sortable(builder) == sortable_fields(*schema),
        builder_whole(builder) == whole_fields(*schema),
        builder_stored(builder) == kept_fields(*schema),
{
    let mut builder = builder_new();
    let mut i: usize = 0;
    while i < schema.len()
        invariant
            schema.wf(),
            i <= schema.names().len(),
            builder_names(builder) == schema.names().take(i as int),
            builder_sortable(builder) == sortable_fields(*schema).take(i as int),
            builder_whole(builder) == whole_fields(*schema).take(i as int),
            builder_stored(builder) == kept_fields(*schema).take(i as int),
        decreases schema.names().len() - i,
    {
        let field = Field(i as u32);
        let name = schema.get_field_name(field);
        assert(!builder_names(builder).contains(name@)) by {
            if builder_names(builder).contains(name@) {
                let j = choose|j: int|
                    0 <= j < builder_names(builder).len() && builder_names(builder)[j] == name@;
                assert(schema.names()[j] == schema.names()[i as int]);
            }
        }
        declare(&mut builder, name, schema.get_field_options(field));
        assert(schema.names().take(i + 1) =~= schema.names().take(i as int).push(name@));
        assert(sortable_fields(*schema).take(i + 1) =~= sortable_fields(*schema).take(
            i as int,
        ).push(sortable(schema.options()[i as int])));
        assert(whole_fields(*schema).take(i + 1) =~= whole_fields(*schema).take(i as int).push(
            whole(schema.options()[i as int]),
        ));
        assert(kept_fields(*schema).take(i + 1) =~= kept_fields(*schema).take(i as int).push(
            schema.options()[i as int].stored,
        ));
        i += 1;
    }
    assert(kept_fields(*schema).take(i as int) =~= kept_fields(*schema));
    assert(schema.names().take(i as int) =~= schema.names());
    assert(sortable_fields(*schema).take(i as int) =~= sortable_fields(*schema));
    assert(whole_fields(*schema).take(i as int) =~= whole_fields(*schema));
    builder
}

} // verus!
