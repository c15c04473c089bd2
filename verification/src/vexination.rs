//! The advisory index: the schema of security advisories, the lowering of
//! an advisory into the document that is indexed for it, the lowering of
//! the query language into queries on that schema, and the projection of a
//! hit into what a search returns.

use crate::advisory::{
    find_product_package, packages_of, Advisory, Note, NoteCategory, ProductPackage, Score,
    Vulnerability,
};
use crate::document::{
    field2date, field2f64vec, field2str, field2strvec, first_of, score_or_zero, text_or_empty,
    values_of, Document, Entry, ValueView,
};
use crate::engine::documents::{from_engine, readable};
use crate::engine::index::{searcher_stored, stored_as_indexed, DocAddress};
use crate::engine::queries::{engine_clauses, regex_compiles};
use crate::error::Error;
use crate::grammar::{query_terms, Vulnerabilities};
use crate::query::{
    create_date_query, create_string_query, create_text_query, date_query, partial_pattern,
    string_query, term2query, text_query, union_of, union_two, Field, IndexTerm, Occur, Query,
    QueryView, ScoreKey, Timestamp,
};
use crate::rewrite::{rewrite_cpe, rewritten};
use crate::schema::{FieldKind, FieldOptions, Schema};
use crate::store::{
    accounted, excerpt_of, explanation_of, load_hit, snippet_of, Compressor, IndexSortByField,
    Order, Settings,
};
use crate::terms::{Bound, PartialOrdered, Primary, SearchTerm};
use vstd::prelude::*;

verus! {

/// The handles of the fields of the advisory index.
#[derive(Clone, Copy, Debug, PartialEq, Eq, Structural)]
pub struct Fields {
    pub advisory_id: Field,
    pub advisory_status: Field,
    pub advisory_title: Field,
    pub advisory_description: Field,
    pub advisory_severity: Field,
    pub advisory_revision: Field,
    pub advisory_initial: Field,
    pub advisory_current: Field,
    pub cve_id: Field,
    pub cve_title: Field,
    pub cve_description: Field,
    pub cve_release: Field,
    pub cve_discovery: Field,
    pub cve_severity: Field,
    pub cve_cvss: Field,
    pub cve_fixed: Field,
    pub cve_affected: Field,
    pub cve_cwe: Field,
}

/// The attributes of a field of text that is split into words.
pub open spec fn text(stored: bool) -> FieldOptions {
    FieldOptions { kind: FieldKind::Text, stored, indexed: true, fast: false }
}

/// The attributes of a field of atomic strings.
pub open spec fn string(stored: bool, fast: bool) -> FieldOptions {
    FieldOptions { kind: FieldKind::String, stored, indexed: true, fast }
}

/// The attributes of a field of dates, which is always indexed.
pub open spec fn date(stored: bool, fast: bool) -> FieldOptions {
    FieldOptions { kind: FieldKind::Date, stored, indexed: true, fast }
}

/// The names of the fields of the advisory index, in the order of the
/// schema.
pub open spec fn advisory_names() -> Seq<Seq<char>> {
    seq![
        "advisory_id"@,
        "advisory_status"@,
        "advisory_title"@,
        "advisory_description"@,
        "advisory_revision"@,
        "advisory_severity"@,
        "advisory_initial_date"@,
        "advisory_current_date"@,
        "cve_id"@,
        "cve_title"@,
        "cve_description"@,
        "cve_discovery_date"@,
        "cve_release_date"@,
        "cve_severity"@,
        "cve_affected"@,
        "cve_fixed"@,
        "cve_cvss"@,
        "cve_cwe"@,
    ]
}

/// The attributes of the fields of the advisory index, in the order of the
/// schema.
pub open spec fn advisory_options() -> Seq<FieldOptions> {
    seq![
        string(true, true),
        string(false, false),
        text(true),
        text(true),
        string(true, false),
        string(true, false),
        date(false, false),
        date(true, true),
        string(true, true),
        text(true),
        text(true),
        date(false, false),
        date(true, false),
        string(false, true),
        string(true, false),
        string(true, false),
        FieldOptions { kind: FieldKind::Score, stored: true, indexed: true, fast: true },
        string(true, false),
    ]
}

/// The handles of the fields of the advisory index: each is the position
/// of its field in the schema.
pub open spec fn advisory_fields() -> Fields {
    Fields {
        advisory_id: Field(0),
        advisory_status: Field(1),
        advisory_title: Field(2),
        advisory_description: Field(3),
        advisory_revision: Field(4),
        advisory_severity: Field(5),
        advisory_initial: Field(6),
        advisory_current: Field(7),
        cve_id: Field(8),
        cve_title: Field(9),
        cve_description: Field(10),
        cve_discovery: Field(11),
        cve_release: Field(12),
        cve_severity: Field(13),
        cve_affected: Field(14),
        cve_fixed: Field(15),
        cve_cvss: Field(16),
        cve_cwe: Field(17),
    }
}

/// The advisory index.
#[derive(Debug)]
pub struct Index {
    schema: Schema,
    fields: Fields,
}

/// Declares one field of the advisory index.
fn declare(schema: &mut Schema, name: &str, options: FieldOptions) -> (field: Field)
    requires
        old(schema).wf(),
        old(schema).names().len() < 18,
        old(schema).names() == advisory_names().take(old(schema).names().len() as int),
        name@ == advisory_names()[old(schema).names().len() as int],
    ensures
        final(schema).wf(),
        field.0 == old(schema).names().len(),
        final(schema).names() == advisory_names().take(old(schema).names().len() as int + 1),
        final(schema).options() == old(schema).options().push(options),
{
    proof {
        lemma_advisory_names();
        let n = old(schema).names().len() as int;
        if old(schema).names().contains(name@) {
            let j = choose|j: int| 0 <= j < n && old(schema).names()[j] == name@;
            assert(advisory_names()[j] == advisory_names()[n]);
        }
    }
    let added = schema.add_field(name, options);
    assert(advisory_names().take(old(schema).names().len() as int + 1) =~= old(schema).names().push(
        name@,
    ));
    added.unwrap()
}

/// The names of the fields of the advisory index are valid, and no two are
/// the same.
pub proof fn lemma_advisory_names()
    ensures
        advisory_names().len() == 18,
        forall|i: int| 0 <= i < 18 ==> crate::schema::valid_field_name(#[trigger] advisory_names()[i]),
        forall|i: int, j: int| 0 <= i < j < 18 ==> advisory_names()[i] != advisory_names()[j],
{
    reveal_strlit("advisory_id");
    reveal_strlit("advisory_status");
    reveal_strlit("advisory_title");
    reveal_strlit("advisory_description");
    reveal_strlit("advisory_revision");
    reveal_strlit("advisory_severity");
    reveal_strlit("advisory_initial_date");
    reveal_strlit("advisory_current_date");
    reveal_strlit("cve_id");
    reveal_strlit("cve_title");
    reveal_strlit("cve_description");
    reveal_strlit("cve_discovery_date");
    reveal_strlit("cve_release_date");
    reveal_strlit("cve_severity");
    reveal_strlit("cve_affected");
    reveal_strlit("cve_fixed");
    reveal_strlit("cve_cvss");
    reveal_strlit("cve_cwe");
    let names = advisory_names();
    assert(names[0].len() == 11 && names[1].len() == 15 && names[2].len() == 14 && names[3].len()
        == 20 && names[4].len() == 17 && names[5].len() == 17 && names[6].len() == 21
        && names[7].len() == 21 && names[8].len() == 6 && names[9].len() == 9 && names[10].len()
        == 15 && names[11].len() == 18 && names[12].len() == 16 && names[13].len() == 12
        && names[14].len() == 12 && names[15].len() == 9 && names[16].len() == 8
        && names[17].len() == 7);
    assert(names[4][9] == 'r' && names[5][9] == 's');
    assert(names[6][9] == 'i' && names[7][9] == 'c');
    assert(names[13][4] == 's' && names[14][4] == 'a');
    assert(names[9][4] == 't' && names[15][4] == 'f');
    assert(names[2][9] == 't');
    assert(names[1][9] == 's' && names[10][4] == 'd');
    assert forall|i: int| 0 <= i < 18 implies crate::schema::valid_field_name(
        #[trigger] names[i],
    ) by {
        assert(names[0][0] == 'a' && names[1][0] == 'a' && names[2][0] == 'a' && names[3][0] == 'a'
            && names[4][0] == 'a' && names[5][0] == 'a' && names[6][0] == 'a' && names[7][0]
            == 'a' && names[8][0] == 'c' && names[9][0] == 'c' && names[10][0] == 'c'
            && names[11][0] == 'c' && names[12][0] == 'c' && names[13][0] == 'c' && names[14][0]
            == 'c' && names[15][0] == 'c' && names[16][0] == 'c' && names[17][0] == 'c');
    }
}

impl Index {
    /// The invariant of the advisory index: its schema is the schema of
    /// advisories, and its handles are the positions of the fields.
    #[verifier::type_invariant]
    pub closed spec fn wf(self) -> bool {
        &&& self.schema.wf()
        &&& self.schema.names() == advisory_names()
        &&& self.schema.options() == advisory_options()
        &&& self.fields == advisory_fields()
    }

    /// The handles of the fields.
    pub closed spec fn handles(self) -> Fields {
        self.fields
    }

    /// The names of the fields of the schema.
    pub closed spec fn field_names(self) -> Seq<Seq<char>> {
        self.schema.names()
    }

    /// The attributes of the fields of the schema.
    pub closed spec fn field_options(self) -> Seq<FieldOptions> {
        self.schema.options()
    }

    /// Declares the schema of advisories.
    pub fn new() -> (index: Index)
        ensures
            index.handles() == advisory_fields(),
            index.field_names() == advisory_names(),
            index.field_options() == advisory_options(),
    {
        let mut schema = Schema::new();
        let stored = true;
        let fast = true;
        let indexed = true;
        assert(advisory_names().take(0) =~= Seq::<Seq<char>>::empty());
        let advisory_id = declare(
            &mut schema,
            "advisory_id",
            FieldOptions { kind: FieldKind::String, stored, indexed, fast },
        );
        let advisory_status = declare(
            &mut schema,
            "advisory_status",
            FieldOptions { kind: FieldKind::String, stored: false, indexed, fast: false },
        );
        let advisory_title = declare(
            &mut schema,
            "advisory_title",
            FieldOptions { kind: FieldKind::Text, stored, indexed, fast: false },
        );
        let advisory_description = declare(
            &mut schema,
            "advisory_description",
            FieldOptions { kind: FieldKind::Text, stored, indexed, fast: false },
        );
        let advisory_revision = declare(
            &mut schema,
            "advisory_revision",
            FieldOptions { kind: FieldKind::String, stored, indexed, fast: false },
        );
        let advisory_severity = declare(
            &mut schema,
            "advisory_severity",
            FieldOptions { kind: FieldKind::String, stored, indexed, fast: false },
        );
        let advisory_initial = declare(
            &mut schema,
            "advisory_initial_date",
            FieldOptions { kind: FieldKind::Date, stored: false, indexed, fast: false },
        );
        let advisory_current = declare(
            &mut schema,
            "advisory_current_date",
            FieldOptions { kind: FieldKind::Date, stored, indexed, fast },
        );
        let cve_id = declare(
            &mut schema,
            "cve_id",
            FieldOptions { kind: FieldKind::String, stored, indexed, fast },
        );
        let cve_title = declare(
            &mut schema,
            "cve_title",
            FieldOptions { kind: FieldKind::Text, stored, indexed, fast: false },
        );
        let cve_description = declare(
            &mut schema,
            "cve_description",
            FieldOptions { kind: FieldKind::Text, stored, indexed, fast: false },
        );
        let cve_discovery = declare(
            &mut schema,
            "cve_discovery_date",
            FieldOptions { kind: FieldKind::Date, stored: false, indexed, fast: false },
        );
        let cve_release = declare(
            &mut schema,
            "cve_release_date",
            FieldOptions { kind: FieldKind::Date, stored, indexed, fast: false },
        );
        let cve_severity = declare(
            &mut schema,
            "cve_severity",
            FieldOptions { kind: FieldKind::String, stored: false, indexed, fast },
        );
        let cve_affected = declare(
            &mut schema,
            "cve_affected",
            FieldOptions { kind: FieldKind::String, stored, indexed, fast: false },
        );
        let cve_fixed = declare(
            &mut schema,
            "cve_fixed",
            FieldOptions { kind: FieldKind::String, stored, indexed, fast: false },
        );
        let cve_cvss = declare(
            &mut schema,
            "cve_cvss",
            FieldOptions { kind: FieldKind::Score, stored, indexed, fast },
        );
        let cve_cwe = declare(
            &mut schema,
            "cve_cwe",
            FieldOptions { kind: FieldKind::String, stored, indexed, fast: false },
        );
        proof {
            lemma_advisory_names();
            assert(advisory_names().take(18) =~= advisory_names());
            assert(schema.options() =~= advisory_options());
        }
        Index {
            schema,
            fields: Fields {
                advisory_id,
                advisory_status,
                advisory_title,
                advisory_description,
                advisory_revision,
                advisory_severity,
                advisory_initial,
                advisory_current,
                cve_id,
                cve_title,
                cve_description,
                cve_discovery,
                cve_release,
                cve_severity,
                cve_affected,
                cve_fixed,
                cve_cvss,
                cve_cwe,
            },
        }
    }
}

/// The entries that some items give, one after the other, up to the first
/// `n` items.
pub open spec fn gathered<T>(items: Seq<T>, each: spec_fn(T) -> Seq<Entry>, n: int) -> Seq<Entry>
    decreases n,
{
    if n <= 0 || n > items.len() {
        Seq::empty()
    } else {
        gathered(items, each, n - 1) + each(items[n - 1])
    }
}

/// The entries that all of some items give.
pub open spec fn gathered_all<T>(items: Seq<T>, each: spec_fn(T) -> Seq<Entry>) -> Seq<Entry> {
    gathered(items, each, items.len() as int)
}

/// The entry of a text that may be missing.
pub open spec fn optional_text(field: Field, text: Option<String>) -> Seq<Entry> {
    match text {
        Some(text) => seq![(field, ValueView::Text(text@))],
        None => Seq::empty(),
    }
}

/// The entry of a date that may be missing.
pub open spec fn optional_date(field: Field, date: Option<Timestamp>) -> Seq<Entry> {
    match date {
        Some(date) => seq![(field, ValueView::Date(date))],
        None => Seq::empty(),
    }
}

/// The entry of a note of the advisory: its text, if it describes or sums
/// up the advisory.
pub open spec fn advisory_note(field: Field, note: Note) -> Seq<Entry> {
    if note.category == NoteCategory::Description || note.category == NoteCategory::Summary {
        seq![(field, ValueView::Text(note.text@))]
    } else {
        Seq::empty()
    }
}

/// The entry of a note of a vulnerability: its text, if it describes the
/// vulnerability.
pub open spec fn vulnerability_note(field: Field, note: Note) -> Seq<Entry> {
    if note.category == NoteCategory::Description {
        seq![(field, ValueView::Text(note.text@))]
    } else {
        Seq::empty()
    }
}

/// The entries of a score: the number and the label of its rating, if the
/// score has a version 3 score.
pub open spec fn score_entries(fields: Fields, score: Score) -> Seq<Entry> {
    match score.cvss_v3 {
        Some(cvss) => seq![
            (fields.cve_cvss, ValueView::Score(cvss.score)),
            (fields.cve_severity, ValueView::Text(cvss.severity.label())),
        ],
        None => Seq::empty(),
    }
}

/// The entries of the identifiers of a product: its CPE, rewritten to its
/// canonical spelling, then its package URL.
pub open spec fn package_entries(
    field: Field,
    package: Option<(Option<Seq<char>>, Option<Seq<char>>)>,
) -> Seq<Entry> {
    match package {
        Some((cpe, purl)) => (match cpe {
            Some(cpe) => seq![(field, ValueView::Text(rewritten(cpe)))],
            None => Seq::empty(),
        }) + (match purl {
            Some(purl) => seq![(field, ValueView::Text(purl))],
            None => Seq::empty(),
        }),
        None => Seq::empty(),
    }
}

/// The entries of a product of a vulnerability: the identifiers of the two
/// products that it is made of.
pub open spec fn product_entries(field: Field, advisory: Advisory, product: String) -> Seq<Entry> {
    package_entries(field, packages_of(advisory, product@).0) + package_entries(
        field,
        packages_of(advisory, product@).1,
    )
}

/// The entries of some products of a vulnerability, if there are any.
pub open spec fn products_entries(field: Field, advisory: Advisory, products: Option<Vec<String>>) -> Seq<
    Entry,
> {
    match products {
        Some(products) => gathered_all(
            products@,
            |product: String| product_entries(field, advisory, product),
        ),
        None => Seq::empty(),
    }
}

/// The entries of the scores of a vulnerability.
pub open spec fn scores_part(fields: Fields, vuln: Vulnerability) -> Seq<Entry> {
    match vuln.scores {
        Some(scores) => gathered_all(scores@, |score: Score| score_entries(fields, score)),
        None => Seq::empty(),
    }
}

/// The entries of the notes of a vulnerability.
pub open spec fn notes_part(fields: Fields, vuln: Vulnerability) -> Seq<Entry> {
    match vuln.notes {
        Some(notes) => gathered_all(
            notes@,
            |note: Note| vulnerability_note(fields.cve_description, note),
        ),
        None => Seq::empty(),
    }
}

/// The entries of the products that a vulnerability touches: those that
/// are known to be affected, then those in which it is fixed.
pub open spec fn products_part(fields: Fields, advisory: Advisory, vuln: Vulnerability) -> Seq<
    Entry,
> {
    match vuln.product_status {
        Some(status) => products_entries(fields.cve_affected, advisory, status.known_affected)
            + products_entries(fields.cve_fixed, advisory, status.fixed),
        None => Seq::empty(),
    }
}

/// The entries of a vulnerability: its title and identifier, its scores,
/// its weakness, the notes that describe it, the products it touches, and
/// the dates of its discovery and release.
pub open spec fn vulnerability_entries(fields: Fields, advisory: Advisory, vuln: Vulnerability) -> Seq<
    Entry,
> {
    optional_text(fields.cve_title, vuln.title) + optional_text(fields.cve_id, vuln.cve)
        + scores_part(fields, vuln) + optional_text(fields.cve_cwe, vuln.cwe) + notes_part(
        fields,
        vuln,
    ) + products_part(fields, advisory, vuln) + optional_date(
        fields.cve_discovery,
        vuln.discovery_date,
    ) + optional_date(fields.cve_release, vuln.release_date)
}

/// The entries of the notes of an advisory.
pub open spec fn advisory_notes_part(fields: Fields, advisory: Advisory) -> Seq<Entry> {
    match advisory.notes {
        Some(notes) => gathered_all(
            notes@,
            |note: Note| advisory_note(fields.advisory_description, note),
        ),
        None => Seq::empty(),
    }
}

/// The entries of the vulnerabilities of an advisory.
pub open spec fn vulnerabilities_part(fields: Fields, advisory: Advisory) -> Seq<Entry> {
    match advisory.vulnerabilities {
        Some(vulns) => gathered_all(
            vulns@,
            |vuln: Vulnerability| vulnerability_entries(fields, advisory, vuln),
        ),
        None => Seq::empty(),
    }
}

/// The document that is indexed for an advisory: its identifier, status
/// and title; the notes that describe or sum it up; its severity; the
/// summaries of its revisions; the dates of its first and of its current
/// release; and then what each of its vulnerabilities gives.
pub open spec fn advisory_entries(fields: Fields, id: Seq<char>, advisory: Advisory) -> Seq<Entry> {
    seq![
        (fields.advisory_id, ValueView::Text(id)),
        (fields.advisory_status, ValueView::Text(advisory.status.label())),
        (fields.advisory_title, ValueView::Text(advisory.title@)),
    ] + advisory_notes_part(fields, advisory) + optional_text(
        fields.advisory_severity,
        advisory.aggregate_severity,
    ) + gathered_all(
        advisory.revision_history@,
        |summary: String| seq![(fields.advisory_revision, ValueView::Text(summary@))],
    ) + seq![
        (fields.advisory_initial, ValueView::Date(advisory.initial_release_date)),
        (fields.advisory_current, ValueView::Date(advisory.current_release_date)),
    ] + vulnerabilities_part(fields, advisory)
}

/// Adds a text to a document, if there is one.
fn add_optional_text(doc: &mut Document, field: Field, text: &Option<String>)
    ensures
        final(doc)@ == old(doc)@ + optional_text(field, *text),
{
    if let Some(text) = text {
        doc.add_text(field, text.as_str());
        assert(doc@ =~= old(doc)@ + optional_text(field, Some(*text)));
    } else {
        assert(doc@ =~= old(doc)@ + Seq::<Entry>::empty());
    }
}

/// Adds a date to a document, if there is one.
fn add_optional_date(doc: &mut Document, field: Field, date: &Option<Timestamp>)
    ensures
        final(doc)@ == old(doc)@ + optional_date(field, *date),
{
    if let Some(date) = date {
        doc.add_date(field, *date);
        assert(doc@ =~= old(doc)@ + optional_date(field, Some(*date)));
    } else {
        assert(doc@ =~= old(doc)@ + Seq::<Entry>::empty());
    }
}

/// Adds the notes of an advisory that describe or sum it up.
fn add_advisory_notes(doc: &mut Document, field: Field, notes: &Vec<Note>)
    ensures
        final(doc)@ == old(doc)@ + gathered_all(notes@, |note: Note| advisory_note(field, note)),
{
    let ghost each = |note: Note| advisory_note(field, note);
    let mut i: usize = 0;
    assert(doc@ =~= old(doc)@ + gathered(notes@, each, 0));
    while i < notes.len()
        invariant
            i <= notes.len(),
            each == (|note: Note| advisory_note(field, note)),
            doc@ == old(doc)@ + gathered(notes@, each, i as int),
        decreases notes.len() - i,
    {
        let note = &notes[i];
        match note.category {
            NoteCategory::Description | NoteCategory::Summary => {
                doc.add_text(field, note.text.as_str());
            },
            _ => {},
        }
        assert(doc@ =~= old(doc)@ + gathered(notes@, each, i + 1));
        i += 1;
    }
}

/// Adds the notes of a vulnerability that describe it.
fn add_vulnerability_notes(doc: &mut Document, field: Field, notes: &Vec<Note>)
    ensures
        final(doc)@ == old(doc)@ + gathered_all(
            notes@,
            |note: Note| vulnerability_note(field, note),
        ),
{
    let ghost each = |note: Note| vulnerability_note(field, note);
    let mut i: usize = 0;
    assert(doc@ =~= old(doc)@ + gathered(notes@, each, 0));
    while i < notes.len()
        invariant
            i <= notes.len(),
            each == (|note: Note| vulnerability_note(field, note)),
            doc@ == old(doc)@ + gathered(notes@, each, i as int),
        decreases notes.len() - i,
    {
        let note = &notes[i];
        if let NoteCategory::Description = note.category {
            doc.add_text(field, note.text.as_str());
        }
        assert(doc@ =~= old(doc)@ + gathered(notes@, each, i + 1));
        i += 1;
    }
}

/// Adds the summaries of the revisions.
fn add_revisions(doc: &mut Document, field: Field, revisions: &Vec<String>)
    ensures
        final(doc)@ == old(doc)@ + gathered_all(
            revisions@,
            |summary: String| seq![(field, ValueView::Text(summary@))],
        ),
{
    let ghost each = |summary: String| seq![(field, ValueView::Text(summary@))];
    let mut i: usize = 0;
    assert(doc@ =~= old(doc)@ + gathered(revisions@, each, 0));
    while i < revisions.len()
        invariant
            i <= revisions.len(),
            each == (|summary: String| seq![(field, ValueView::Text(summary@))]),
            doc@ == old(doc)@ + gathered(revisions@, each, i as int),
        decreases revisions.len() - i,
    {
        doc.add_text(field, revisions[i].as_str());
        assert(doc@ =~= old(doc)@ + gathered(revisions@, each, i + 1));
        i += 1;
    }
}

/// Adds the scores of a vulnerability and the labels of their ratings.
fn add_scores(doc: &mut Document, fields: &Fields, scores: &Vec<Score>)
    ensures
        final(doc)@ == old(doc)@ + gathered_all(
            scores@,
            |score: Score| score_entries(*fields, score),
        ),
{
    let ghost each = |score: Score| score_entries(*fields, score);
    let mut i: usize = 0;
    assert(doc@ =~= old(doc)@ + gathered(scores@, each, 0));
    while i < scores.len()
        invariant
            i <= scores.len(),
            each == (|score: Score| score_entries(*fields, score)),
            doc@ == old(doc)@ + gathered(scores@, each, i as int),
        decreases scores.len() - i,
    {
        if let Some(cvss) = &scores[i].cvss_v3 {
            doc.add_score(fields.cve_cvss, cvss.score);
            doc.add_text(fields.cve_severity, cvss.severity.as_str());
        }
        assert(doc@ =~= old(doc)@ + gathered(scores@, each, i + 1));
        i += 1;
    }
}

/// Adds the identifiers of a product.
fn add_package(doc: &mut Document, field: Field, package: &Option<ProductPackage>)
    ensures
        final(doc)@ == old(doc)@ + package_entries(field, crate::advisory::package_pair(*package)),
{
    if let Some(p) = package {
        if let Some(cpe) = &p.cpe {
            let canonical = rewrite_cpe(cpe.as_str());
            doc.add_text(field, canonical.as_str());
        }
        if let Some(purl) = &p.purl {
            doc.add_text(field, purl.as_str());
        }
    }
    assert(doc@ =~= old(doc)@ + package_entries(field, crate::advisory::package_pair(*package)));
}

/// Adds the identifiers of some products of a vulnerability.
fn add_products(doc: &mut Document, field: Field, advisory: &Advisory, products: &Option<
    Vec<String>,
>)
    ensures
        final(doc)@ == old(doc)@ + products_entries(field, *advisory, *products),
{
    if let Some(products) = products {
        let ghost each = |product: String| product_entries(field, *advisory, product);
        let mut i: usize = 0;
        assert(doc@ =~= old(doc)@ + gathered(products@, each, 0));
        while i < products.len()
            invariant
                i <= products.len(),
                each == (|product: String| product_entries(field, *advisory, product)),
                doc@ == old(doc)@ + gathered(products@, each, i as int),
            decreases products.len() - i,
        {
            let ghost before = doc@;
            let (pp, related_pp) = find_product_package(advisory, products[i].as_str());
            add_package(doc, field, &pp);
            add_package(doc, field, &related_pp);
            assert(doc@ =~= before + product_entries(field, *advisory, products[i as int]));
            assert(doc@ =~= old(doc)@ + gathered(products@, each, i + 1));
            i += 1;
        }
    } else {
        assert(doc@ =~= old(doc)@ + Seq::<Entry>::empty());
    }
}

/// Adds the scores of a vulnerability, if it has any.
fn add_scores_part(doc: &mut Document, fields: &Fields, vuln: &Vulnerability)
    ensures
        final(doc)@ == old(doc)@ + scores_part(*fields, *vuln),
{
    if let Some(scores) = &vuln.scores {
        add_scores(doc, fields, scores);
    } else {
        assert(doc@ =~= old(doc)@ + Seq::<Entry>::empty());
    }
}

/// Adds the notes of a vulnerability, if it has any.
fn add_notes_part(doc: &mut Document, fields: &Fields, vuln: &Vulnerability)
    ensures
        final(doc)@ == old(doc)@ + notes_part(*fields, *vuln),
{
    if let Some(notes) = &vuln.notes {
        add_vulnerability_notes(doc, fields.cve_description, notes);
    } else {
        assert(doc@ =~= old(doc)@ + Seq::<Entry>::empty());
    }
}

/// Adds the products that a vulnerability touches, if it names any.
fn add_products_part(doc: &mut Document, fields: &Fields, advisory: &Advisory, vuln: &Vulnerability)
    ensures
        final(doc)@ == old(doc)@ + products_part(*fields, *advisory, *vuln),
{
    if let Some(status) = &vuln.product_status {
        add_products(doc, fields.cve_affected, advisory, &status.known_affected);
        add_products(doc, fields.cve_fixed, advisory, &status.fixed);
        assert(doc@ =~= old(doc)@ + products_part(*fields, *advisory, *vuln));
    } else {
        assert(doc@ =~= old(doc)@ + Seq::<Entry>::empty());
    }
}

/// Appending to a document what comes behind what it already holds.
proof fn lemma_appended(start: Seq<Entry>, held: Seq<Entry>, more: Seq<Entry>)
    ensures
        start + held + more == start + (held + more),
{
    assert(start + held + more =~= start + (held + more));
}

/// Adds what a vulnerability gives to the document of its advisory.
fn add_vulnerability(doc: &mut Document, fields: &Fields, advisory: &Advisory, vuln: &Vulnerability)
    ensures
        final(doc)@ == old(doc)@ + vulnerability_entries(*fields, *advisory, *vuln),
{
    let ghost start = doc@;
    let ghost title = optional_text(fields.cve_title, vuln.title);
    let ghost cve = optional_text(fields.cve_id, vuln.cve);
    let ghost scores = scores_part(*fields, *vuln);
    let ghost cwe = optional_text(fields.cve_cwe, vuln.cwe);
    let ghost notes = notes_part(*fields, *vuln);
    let ghost products = products_part(*fields, *advisory, *vuln);
    let ghost discovery = optional_date(fields.cve_discovery, vuln.discovery_date);
    let ghost release = optional_date(fields.cve_release, vuln.release_date);
    add_optional_text(doc, fields.cve_title, &vuln.title);
    add_optional_text(doc, fields.cve_id, &vuln.cve);
    proof {
        lemma_appended(start, title, cve);
    }
    add_scores_part(doc, fields, vuln);
    proof {
        lemma_appended(start, title + cve, scores);
    }
    add_optional_text(doc, fields.cve_cwe, &vuln.cwe);
    proof {
        lemma_appended(start, title + cve + scores, cwe);
    }
    add_notes_part(doc, fields, vuln);
    proof {
        lemma_appended(start, title + cve + scores + cwe, notes);
    }
    add_products_part(doc, fields, advisory, vuln);
    proof {
        lemma_appended(start, title + cve + scores + cwe + notes, products);
    }
    add_optional_date(doc, fields.cve_discovery, &vuln.discovery_date);
    proof {
        lemma_appended(start, title + cve + scores + cwe + notes + products, discovery);
    }
    add_optional_date(doc, fields.cve_release, &vuln.release_date);
    proof {
        lemma_appended(start, title + cve + scores + cwe + notes + products + discovery, release);
    }
}

/// Lowers an advisory into the document that is indexed for it.
pub fn lower_advisory(fields: &Fields, id: &str, advisory: &Advisory) -> (doc: Document)
    ensures
        doc@ == advisory_entries(*fields, id@, *advisory),
{
    let mut doc = Document::new();
    doc.add_text(fields.advisory_id, id);
    doc.add_text(fields.advisory_status, advisory.status.as_str());
    doc.add_text(fields.advisory_title, advisory.title.as_str());
    let ghost head = doc@;
    if let Some(notes) = &advisory.notes {
        add_advisory_notes(&mut doc, fields.advisory_description, notes);
    }
    assert(doc@ =~= head + advisory_notes_part(*fields, *advisory));
    add_optional_text(&mut doc, fields.advisory_severity, &advisory.aggregate_severity);
    add_revisions(&mut doc, fields.advisory_revision, &advisory.revision_history);
    doc.add_date(fields.advisory_initial, advisory.initial_release_date);
    doc.add_date(fields.advisory_current, advisory.current_release_date);
    let ghost body = doc@;
    let ghost each = |vuln: Vulnerability| vulnerability_entries(*fields, *advisory, vuln);
    if let Some(vulns) = &advisory.vulnerabilities {
        let mut i: usize = 0;
        assert(doc@ =~= body + gathered(vulns@, each, 0));
        while i < vulns.len()
            invariant
                i <= vulns.len(),
                each == (|vuln: Vulnerability| vulnerability_entries(*fields, *advisory, vuln)),
                doc@ == body + gathered(vulns@, each, i as int),
            decreases vulns.len() - i,
        {
            add_vulnerability(&mut doc, fields, advisory, &vulns[i]);
            assert(doc@ =~= body + gathered(vulns@, each, i + 1));
            i += 1;
        }
    }
    assert(doc@ =~= body + vulnerabilities_part(*fields, *advisory));
    assert(doc@ =~= advisory_entries(*fields, id@, *advisory));
    doc
}

/// The query for a primary value on a field of atomic strings, where the
/// engine decides on the pattern of a partial match.
pub open spec fn string_on(field: Field, primary: Primary) -> QueryView {
    string_query(field, primary, regex_compiles(partial_pattern(primary.text())))
}

/// The query for a primary value on a field of identifiers of products:
/// the query for the value as it is rewritten.
pub open spec fn rewrite_string_query(field: Field, primary: Primary) -> QueryView {
    let text = rewritten(primary.text());
    let term = QueryView::Term { field, text };
    match primary {
        Primary::Equal(_) => term,
        Primary::Partial(_) => if regex_compiles(partial_pattern(text)) {
            union_of(seq![QueryView::Regex { field, pattern: partial_pattern(text) }, term])
        } else {
            union_of(seq![term])
        },
    }
}

/// The range query for a comparison against a score.
pub open spec fn score_query(field: Field, value: PartialOrdered<ScoreKey>) -> QueryView {
    match value {
        PartialOrdered::Less(e) => QueryView::ScoreRange {
            field,
            least: Bound::Unbounded,
            most: Bound::Excluded(e),
        },
        PartialOrdered::LessEqual(e) => QueryView::ScoreRange {
            field,
            least: Bound::Unbounded,
            most: Bound::Included(e),
        },
        PartialOrdered::Greater(e) => QueryView::ScoreRange {
            field,
            least: Bound::Excluded(e),
            most: Bound::Unbounded,
        },
        PartialOrdered::GreaterEqual(e) => QueryView::ScoreRange {
            field,
            least: Bound::Included(e),
            most: Bound::Unbounded,
        },
        PartialOrdered::Range(from, to) => QueryView::ScoreRange { field, least: from, most: to },
    }
}

/// The query for a resource of the query language.
pub open spec fn resource_query(fields: Fields, resource: Vulnerabilities) -> QueryView {
    match resource {
        Vulnerabilities::Id(primary) => string_on(fields.advisory_id, primary),
        Vulnerabilities::Cve(primary) => string_on(fields.cve_id, primary),
        Vulnerabilities::Description(primary) => union_of(
            seq![
                text_query(fields.advisory_description, primary),
                text_query(fields.cve_description, primary),
            ],
        ),
        Vulnerabilities::Title(primary) => union_of(
            seq![
                text_query(fields.advisory_title, primary),
                text_query(fields.cve_title, primary),
            ],
        ),
        Vulnerabilities::Package(primary) => union_of(
            seq![
                rewrite_string_query(fields.cve_affected, primary),
                rewrite_string_query(fields.cve_fixed, primary),
            ],
        ),
        Vulnerabilities::Fixed(primary) => rewrite_string_query(fields.cve_fixed, primary),
        Vulnerabilities::Affected(primary) => rewrite_string_query(fields.cve_affected, primary),
        Vulnerabilities::Severity(primary) => string_on(fields.cve_severity, primary),
        Vulnerabilities::Status(primary) => string_on(fields.advisory_status, primary),
        Vulnerabilities::Final => QueryView::Term { field: fields.advisory_status, text: "final"@ },
        Vulnerabilities::Critical => QueryView::Term {
            field: fields.cve_severity,
            text: "critical"@,
        },
        Vulnerabilities::High => QueryView::Term { field: fields.cve_severity, text: "high"@ },
        Vulnerabilities::Medium => QueryView::Term { field: fields.cve_severity, text: "medium"@ },
        Vulnerabilities::Low => QueryView::Term { field: fields.cve_severity, text: "low"@ },
        Vulnerabilities::Cvss(ordered) => score_query(fields.cve_cvss, ordered),
        Vulnerabilities::Initial(ordered) => date_query(fields.advisory_initial, ordered),
        Vulnerabilities::Release(ordered) => union_of(
            seq![
                date_query(fields.advisory_current, ordered),
                date_query(fields.cve_release, ordered),
            ],
        ),
        Vulnerabilities::Discovery(ordered) => date_query(fields.cve_discovery, ordered),
    }
}

/// Lowers a primary value to a query on a field of identifiers of products.
/// The value is rewritten first, so that the spellings of one CPE are
/// searched as one term.
pub fn create_rewrite_string_query(field: Field, primary: &Primary) -> (q: Query)
    ensures
        q@ == rewrite_string_query(field, *primary),
{
    match primary {
        Primary::Equal(value) => {
            let rewrite = rewrite_cpe(value.as_str());
            create_string_query(field, &Primary::Equal(rewrite))
        },
        Primary::Partial(value) => {
            let rewrite = rewrite_cpe(value.as_str());
            create_string_query(field, &Primary::Partial(rewrite))
        },
    }
}

/// Copies an endpoint of a range of scores.
fn copy_score_bound(bound: &Bound<ScoreKey>) -> (copy: Bound<ScoreKey>)
    ensures
        copy == *bound,
{
    match bound {
        Bound::Included(v) => Bound::Included(*v),
        Bound::Excluded(v) => Bound::Excluded(*v),
        Bound::Unbounded => Bound::Unbounded,
    }
}

/// Lowers a comparison against a score to a range query on a score field.
pub fn create_score_query(field: Field, value: &PartialOrdered<ScoreKey>) -> (q: Query)
    ensures
        q@ == score_query(field, *value),
{
    match value {
        PartialOrdered::Less(e) => Query::ScoreRange {
            field,
            least: Bound::Unbounded,
            most: Bound::Excluded(*e),
        },
        PartialOrdered::LessEqual(e) => Query::ScoreRange {
            field,
            least: Bound::Unbounded,
            most: Bound::Included(*e),
        },
        PartialOrdered::Greater(e) => Query::ScoreRange {
            field,
            least: Bound::Excluded(*e),
            most: Bound::Unbounded,
        },
        PartialOrdered::GreaterEqual(e) => Query::ScoreRange {
            field,
            least: Bound::Included(*e),
            most: Bound::Unbounded,
        },
        PartialOrdered::Range(from, to) => Query::ScoreRange {
            field,
            least: copy_score_bound(from),
            most: copy_score_bound(to),
        },
    }
}

/// The query for a label in a field of atomic strings.
fn label_query(field: Field, label: &str) -> (q: Query)
    ensures
        q@ == (QueryView::Term { field, text: label@ }),
{
    Query::Term { field, text: String::from_str(label) }
}

/// Lowers a resource of the query language to a query on the fields of the
/// advisory index.
pub fn resource2query(fields: &Fields, resource: &Vulnerabilities) -> (q: Query)
    ensures
        q@ == resource_query(*fields, *resource),
{
    match resource {
        Vulnerabilities::Id(primary) => create_string_query(fields.advisory_id, primary),
        Vulnerabilities::Cve(primary) => create_string_query(fields.cve_id, primary),
        Vulnerabilities::Description(primary) => {
            let q1 = create_text_query(fields.advisory_description, primary);
            let q2 = create_text_query(fields.cve_description, primary);
            union_two(q1, q2)
        },
        Vulnerabilities::Title(primary) => {
            let q1 = create_text_query(fields.advisory_title, primary);
            let q2 = create_text_query(fields.cve_title, primary);
            union_two(q1, q2)
        },
        Vulnerabilities::Package(primary) => {
            let q1 = create_rewrite_string_query(fields.cve_affected, primary);
            let q2 = create_rewrite_string_query(fields.cve_fixed, primary);
            union_two(q1, q2)
        },
        Vulnerabilities::Fixed(primary) => create_rewrite_string_query(fields.cve_fixed, primary),
        Vulnerabilities::Affected(primary) => create_rewrite_string_query(
            fields.cve_affected,
            primary,
        ),
        Vulnerabilities::Severity(primary) => create_string_query(fields.cve_severity, primary),
        Vulnerabilities::Status(primary) => create_string_query(fields.advisory_status, primary),
        Vulnerabilities::Final => label_query(fields.advisory_status, "final"),
        Vulnerabilities::Critical => label_query(fields.cve_severity, "critical"),
        Vulnerabilities::High => label_query(fields.cve_severity, "high"),
        Vulnerabilities::Medium => label_query(fields.cve_severity, "medium"),
        Vulnerabilities::Low => label_query(fields.cve_severity, "low"),
        Vulnerabilities::Cvss(ordered) => create_score_query(fields.cve_cvss, ordered),
        Vulnerabilities::Initial(ordered) => create_date_query(fields.advisory_initial, ordered),
        Vulnerabilities::Release(ordered) => {
            let q1 = create_date_query(fields.advisory_current, ordered);
            let q2 = create_date_query(fields.cve_release, ordered);
            union_two(q1, q2)
        },
        Vulnerabilities::Discovery(ordered) => create_date_query(fields.cve_discovery, ordered),
    }
}

/// The query of a query text that is not empty: the lowering of its
/// compacted search term, or the message of what is wrong with the text.
pub open spec fn prepared(fields: Fields, q: Seq<char>) -> Result<QueryView, Seq<char>> {
    match query_terms(q) {
        Ok(tree) => Ok(
            crate::query::lowered(
                |resource: Vulnerabilities| resource_query(fields, resource),
                tree.compacted(),
            ),
        ),
        Err(message) => Err(message),
    }
}

/// Lowers a tree of search terms over the resources of an advisory.
pub fn lower_terms(fields: &Fields, term: &SearchTerm<Vulnerabilities>) -> (q: Query)
    ensures
        q@ == crate::query::lowered(
            |resource: Vulnerabilities| resource_query(*fields, resource),
            term@,
        ),
{
    let each = |resource: &Vulnerabilities| -> (q: Query)
        ensures
            q@ == resource_query(*fields, *resource),
        { resource2query(fields, resource) };
    proof {
        crate::query::lemma_accepts_all(each, term@);
    }
    let q = term2query(term, &each);
    proof {
        crate::query::lemma_lowering_is_determined(
            each,
            |resource: Vulnerabilities| resource_query(*fields, resource),
            term@,
            q@,
        );
    }
    q
}

/// What a search returns of an advisory.
#[derive(Debug, PartialEq, Eq)]
pub struct SearchDocument {
    /// The identifier of the advisory.
    pub advisory_id: String,
    /// The title of the advisory.
    pub advisory_title: String,
    /// The date of the current release.
    pub advisory_date: Timestamp,
    /// An excerpt of the description, with the terms of the query marked.
    pub advisory_snippet: String,
    /// The first note that describes the advisory.
    pub advisory_desc: String,
    /// The identifiers of the vulnerabilities.
    pub cves: Vec<String>,
    /// The lowest of the scores of the vulnerabilities, whatever the name
    /// suggests: it is the score that the least severe of them has.
    pub cvss_max: Option<ScoreKey>,
    /// The highest of the scores of the vulnerabilities.
    pub cvss_highest: Option<ScoreKey>,
}

/// A hit of a search in the advisory index.
#[derive(Debug, PartialEq, Eq)]
pub struct SearchHit {
    pub document: SearchDocument,
    /// The bits of the score that the engine gave the hit.
    pub score: u32,
    /// The engine's account of the score, as JSON, where it was asked for
    /// and could be had.
    pub explanation: Option<String>,
}

/// The account of its score that a hit carries, as a text.
pub open spec fn account_of(hit: SearchHit) -> Option<Seq<char>> {
    match hit.explanation {
        Some(text) => Some(text@),
        None => None,
    }
}

/// The lowest of the first `n` scores, if there is one.
pub open spec fn lowest(scores: Seq<ScoreKey>, n: int) -> Option<ScoreKey>
    decreases n,
{
    if n <= 0 || n > scores.len() {
        None
    } else {
        match lowest(scores, n - 1) {
            Some(least) => Some(
                if scores[n - 1] <= least {
                    scores[n - 1]
                } else {
                    least
                },
            ),
            None => Some(scores[n - 1]),
        }
    }
}

/// The highest of the first `n` scores, if there is one.
pub open spec fn highest(scores: Seq<ScoreKey>, n: int) -> Option<ScoreKey>
    decreases n,
{
    if n <= 0 || n > scores.len() {
        None
    } else {
        match highest(scores, n - 1) {
            Some(most) => Some(
                if scores[n - 1] >= most {
                    scores[n - 1]
                } else {
                    most
                },
            ),
            None => Some(scores[n - 1]),
        }
    }
}

/// Whether a stored document has what the projection of a hit needs: an
/// identifier, a title and a description that are texts, and a date of the
/// current release.
pub open spec fn projectable(fields: Fields, doc: Seq<Entry>) -> bool {
    &&& first_of(doc, fields.advisory_id) matches Some(ValueView::Text(_))
    &&& first_of(doc, fields.advisory_title) matches Some(ValueView::Text(_))
    &&& first_of(doc, fields.advisory_current) matches Some(ValueView::Date(_))
    &&& first_of(doc, fields.advisory_description) matches Some(ValueView::Text(_))
}

/// Whether a search document is the projection of a stored document and a
/// snippet.
pub open spec fn projects(fields: Fields, doc: Seq<Entry>, snippet: Seq<char>, hit: SearchDocument) -> bool {
    let cves = values_of(doc, fields.cve_id);
    let scores = values_of(doc, fields.cve_cvss);
    &&& first_of(doc, fields.advisory_id) == Some(ValueView::Text(hit.advisory_id@))
    &&& first_of(doc, fields.advisory_title) == Some(ValueView::Text(hit.advisory_title@))
    &&& first_of(doc, fields.advisory_current) == Some(ValueView::Date(hit.advisory_date))
    &&& first_of(doc, fields.advisory_description) == Some(ValueView::Text(hit.advisory_desc@))
    &&& hit.advisory_snippet@ == snippet
    &&& hit.cves.len() == cves.len()
    &&& forall|i: int| 0 <= i < cves.len() ==> (#[trigger] hit.cves[i])@ == text_or_empty(cves[i])
    &&& hit.cvss_max == lowest(
        Seq::new(scores.len(), |i: int| score_or_zero(scores[i])),
        scores.len() as int,
    )
    &&& hit.cvss_highest == highest(
        Seq::new(scores.len(), |i: int| score_or_zero(scores[i])),
        scores.len() as int,
    )
}

/// Projects a stored document and its snippet into what a search returns.
/// It fails with `NotFound` where the document lacks what the projection
/// needs.
pub fn project_hit(fields: &Fields, doc: &Document, snippet: String) -> (hit: Result<
    SearchDocument,
    Error,
>)
    ensures
        match hit {
            Ok(found) => projects(*fields, doc@, snippet@, found),
            Err(e) => e is NotFound && !projectable(*fields, doc@),
        },
{
    let advisory_id = field2str(doc, fields.advisory_id)?;
    let advisory_title = field2str(doc, fields.advisory_title)?;
    let advisory_date = field2date(doc, fields.advisory_current)?;
    let advisory_desc = field2str(doc, fields.advisory_description)?;
    let texts = match field2strvec(doc, fields.cve_id) {
        Ok(texts) => texts,
        Err(e) => {
            return Err(e);
        },
    };
    let mut cves: Vec<String> = Vec::new();
    let mut i: usize = 0;
    while i < texts.len()
        invariant
            i <= texts.len(),
            cves.len() == i,
            forall|j: int| 0 <= j < i ==> (#[trigger] cves[j])@ == texts[j]@,
        decreases texts.len() - i,
    {
        cves.push(String::from_str(texts[i]));
        i += 1;
    }
    let scores = match field2f64vec(doc, fields.cve_cvss) {
        Ok(scores) => scores,
        Err(e) => {
            return Err(e);
        },
    };
    let mut cvss_max: Option<ScoreKey> = None;
    let mut cvss_highest: Option<ScoreKey> = None;
    let mut k: usize = 0;
    while k < scores.len()
        invariant
            k <= scores.len(),
            cvss_max == lowest(scores@, k as int),
            cvss_highest == highest(scores@, k as int),
        decreases scores.len() - k,
    {
        let score = scores[k];
        cvss_max = match cvss_max {
            Some(least) => Some(if score <= least { score } else { least }),
            None => Some(score),
        };
        cvss_highest = match cvss_highest {
            Some(most) => Some(if score >= most { score } else { most }),
            None => Some(score),
        };
        k += 1;
    }
    proof {
        let stored = values_of(doc@, fields.cve_cvss);
        assert(scores@ =~= Seq::new(stored.len(), |i: int| score_or_zero(stored[i])));
    }
    Ok(
        SearchDocument {
            advisory_id: String::from_str(advisory_id),
            advisory_title: String::from_str(advisory_title),
            advisory_date,
            advisory_snippet: snippet,
            advisory_desc: String::from_str(advisory_desc),
            cves,
            cvss_max,
            cvss_highest,
        },
    )
}

impl Index {
    /// Lowers a resource of the query language to a query on the fields of
    /// the index.
    pub fn resource2query(&self, resource: &Vulnerabilities) -> (q: Query)
        ensures
            q@ == resource_query(self.handles(), *resource),
    {
        resource2query(&self.fields, resource)
    }
}

impl Default for Index {
    fn default() -> (index: Index)
        ensures
            index.handles() == advisory_fields(),
            index.field_names() == advisory_names(),
            index.field_options() == advisory_options(),
    {
        Index::new()
    }
}

impl crate::store::Index for Index {
    type MatchedDocument = SearchHit;

    type Document = Advisory;

    closed spec fn identity(&self) -> Field {
        self.fields.advisory_id
    }

    /// The documents are kept sorted by the date of the current release,
    /// the latest first, and are stored compressed with Zstandard.
    fn settings(&self) -> (settings: Settings)
        ensures
            settings.docstore_compression == Compressor::Zstd,
            settings.sort_by_field matches Some(sort) && sort.order == Order::Desc && sort.field@
                == "advisory_current_date"@,
    {
        proof {
            use_type_invariant(self);
        }
        let name = self.schema.get_field_name(self.fields.advisory_current);
        Settings {
            sort_by_field: Some(IndexSortByField { field: String::from_str(name), order: Order::Desc }),
            docstore_compression: Compressor::Zstd,
        }
    }

    fn schema(&self) -> (schema: Schema)
        ensures
            schema.names() == advisory_names(),
            schema.options() == advisory_options(),
    {
        proof {
            use_type_invariant(self);
        }
        self.schema.copy()
    }

    /// The empty text is the query for all advisories. Any other text is
    /// read as a query of the query language, and its search term is
    /// compacted and lowered.
    fn prepare_query(&self, q: &str) -> (query: Result<Query, Error>)
        ensures
            q@.len() > 0 ==> match query {
                Ok(parsed) => prepared(self.handles(), q@) == Ok::<QueryView, Seq<char>>(parsed@),
                Err(e) => e matches Error::Parser(message) && prepared(self.handles(), q@) == Err::<
                    QueryView,
                    Seq<char>,
                >(message@),
            },
    {
        if q.is_empty() {
            return Ok(Query::All);
        }
        match Vulnerabilities::parse(q) {
            Err(message) => Err(Error::Parser(message)),
            Ok(term) => {
                let term = term.compact();
                Ok(lower_terms(&self.fields, &term))
            },
        }
    }

    /// Reads the stored document of the hit and projects it. The hit
    /// carries the excerpt that the engine makes of the description of the
    /// advisory and, where it is asked for, the engine's account of its
    /// score. It fails with `NotFound` where the stored document lacks what
    /// the projection needs, and with `Search` where the engine fails or
    /// makes no excerpt.
    fn process_hit(
        &self,
        doc_address: DocAddress,
        score: u32,
        searcher: &tantivy::Searcher,
        query: &tantivy::query::BooleanQuery,
        explain: bool,
    ) -> (hit: Result<SearchHit, Error>)
        ensures
            match hit {
                Ok(found) => {
                    &&& found.score == score
                    &&& excerpt_of(
                        *searcher,
                        engine_clauses(*query),
                        self.handles().advisory_description,
                        searcher_stored(*searcher, doc_address),
                    ) == Some(found.document.advisory_snippet@)
                    &&& projects(
                        self.handles(),
                        readable(searcher_stored(*searcher, doc_address)),
                        found.document.advisory_snippet@,
                        found.document,
                    )
                    &&& stored_as_indexed(*searcher, doc_address)
                    &&& account_of(found) == if explain {
                        accounted(*searcher, engine_clauses(*query), doc_address)
                    } else {
                        None
                    }
                },
                Err(e) => e is Search || (e is NotFound && !projectable(
                    self.handles(),
                    readable(searcher_stored(*searcher, doc_address)),
                ) && excerpt_of(
                    *searcher,
                    engine_clauses(*query),
                    self.handles().advisory_description,
                    searcher_stored(*searcher, doc_address),
                ) is Some),
            },
    {
        let stored = load_hit(searcher, doc_address)?;
        let snippet = snippet_of(searcher, query, self.fields.advisory_description, &stored)?;
        let ghost excerpt = snippet@;
        let document = project_hit(&self.fields, &from_engine(&stored), snippet)?;
        let explanation = if explain {
            explanation_of(searcher, query, doc_address)
        } else {
            None
        };
        let found = SearchHit { document, score, explanation };
        assert(projects(
            self.handles(),
            readable(searcher_stored(*searcher, doc_address)),
            excerpt,
            found.document,
        ));
        Ok(found)
    }

    /// An advisory is lowered into one document.
    fn index_doc(&self, id: &str, advisory: &Advisory) -> (docs: Result<Vec<Document>, Error>)
        ensures
            docs matches Ok(lowered) && lowered.len() == 1 && lowered[0]@ == advisory_entries(
                self.handles(),
                id@,
                *advisory,
            ),
    {
        let doc = lower_advisory(&self.fields, id, advisory);
        assert(doc@[0] == (self.fields.advisory_id, ValueView::Text(id@)));
        let mut docs: Vec<Document> = Vec::new();
        docs.push(doc);
        Ok(docs)
    }

    fn doc_id_to_term(&self, id: &str) -> (term: IndexTerm) {
        IndexTerm { field: self.fields.advisory_id, text: String::from_str(id) }
    }
}

/// Two spellings of one CPE are indexed as the same term and searched as
/// the same term, and the term that is indexed for the one is the term that
/// is searched for the other: where both have the CPE prefix and the parser
/// gives them one canonical spelling, a product that carries the one is
/// found by a query for the other.
pub proof fn lemma_cpe_spellings_agree(
    field: Field,
    indexed: Seq<char>,
    purl: Option<Seq<char>>,
    searched: Primary,
)
    requires
        crate::rewrite::cpe_prefix().is_prefix_of(indexed),
        crate::rewrite::cpe_prefix().is_prefix_of(searched.text()),
        crate::rewrite::cpe_canonical(indexed) is Some,
        crate::rewrite::cpe_canonical(indexed) == crate::rewrite::cpe_canonical(searched.text()),
    ensures
        package_entries(field, Some((Some(indexed), purl))) == package_entries(
            field,
            Some((Some(searched.text()), purl)),
        ),
        package_entries(field, Some((Some(indexed), purl)))[0] == (
            field,
            ValueView::Text(rewritten(searched.text())),
        ),
        searched is Equal ==> rewrite_string_query(field, searched) == (QueryView::Term {
            field,
            text: rewritten(indexed),
        }),
{
    crate::rewrite::lemma_equivalent_cpes_rewrite_alike(indexed, searched.text());
}

/// The document that is indexed for an advisory holds the identifier of
/// the advisory in the field of the identifier.
pub proof fn lemma_advisory_holds_its_identifier(fields: Fields, id: Seq<char>, advisory: Advisory)
    ensures
        advisory_entries(fields, id, advisory).contains((fields.advisory_id, ValueView::Text(id))),
{
    let entries = advisory_entries(fields, id, advisory);
    assert(entries[0] == (fields.advisory_id, ValueView::Text(id)));
}

/// The identity field of the advisory index is the field of the advisory's
/// identifier.
pub proof fn lemma_identity_is_advisory_id(index: Index)
    ensures
        crate::store::Index::identity(&index) == index.handles().advisory_id,
{
}

} // verus!
