//! Primitive documents: what is written to the index and read back from a
//! hit, a list of field values in which a field may occur many times.

use crate::error::Error;
use crate::query::{Field, ScoreKey, Timestamp};
use vstd::prelude::*;

verus! {

/// The key of the score zero.
pub const ZERO_SCORE: ScoreKey = 0x8000_0000_0000_0000;

/// A typed value of a field.
#[derive(Debug, PartialEq, Eq)]
pub enum Value {
    Text(String),
    Date(Timestamp),
    Score(ScoreKey),
}

/// The mathematical form of a [`Value`].
pub enum ValueView {
    Text(Seq<char>),
    Date(Timestamp),
    Score(ScoreKey),
    /// A value of a type that a [`Value`] cannot hold.
    Other,
}

impl View for Value {
    type V = ValueView;

    open spec fn view(&self) -> ValueView {
        match self {
            Value::Text(text) => ValueView::Text(text@),
            Value::Date(date) => ValueView::Date(*date),
            Value::Score(score) => ValueView::Score(*score),
        }
    }
}

/// A value in a field.
#[derive(Debug, PartialEq, Eq)]
pub struct FieldValue {
    pub field: Field,
    pub value: Value,
}

/// One entry of a document as a mathematical value.
pub type Entry = (Field, ValueView);

/// A primitive document.
#[derive(Debug, PartialEq, Eq)]
pub struct Document {
    pub values: Vec<FieldValue>,
}

impl View for Document {
    type V = Seq<Entry>;

    open spec fn view(&self) -> Seq<Entry> {
        Seq::new(self.values.len() as nat, |i: int| (self.values[i].field, self.values[i].value@))
    }
}

/// The values of one field, in the order of the document.
pub open spec fn values_of(entries: Seq<Entry>, field: Field) -> Seq<ValueView>
    decreases entries.len(),
{
    if entries.len() == 0 {
        Seq::empty()
    } else {
        let rest = values_of(entries.drop_last(), field);
        if entries.last().0 == field {
            rest.push(entries.last().1)
        } else {
            rest
        }
    }
}

/// The text of a value, or the empty text where it is of another type.
pub open spec fn text_or_empty(value: ValueView) -> Seq<char> {
    match value {
        ValueView::Text(text) => text,
        _ => Seq::empty(),
    }
}

/// The score of a value, or zero where it is of another type.
pub open spec fn score_or_zero(value: ValueView) -> ScoreKey {
    match value {
        ValueView::Score(score) => score,
        _ => ZERO_SCORE,
    }
}

impl Document {
    /// The document without values.
    pub fn new() -> (doc: Document)
        ensures
            doc@ == Seq::<Entry>::empty(),
    {
        let doc = Document { values: Vec::new() };
        assert(doc@ =~= Seq::<Entry>::empty());
        doc
    }

    /// The number of values.
    pub fn len(&self) -> (n: usize)
        ensures
            n == self@.len(),
    {
        self.values.len()
    }

    /// Appends a value to the document.
    pub fn add(&mut self, field: Field, value: Value)
        ensures
            final(self)@ == old(self)@.push((field, value@)),
    {
        self.values.push(FieldValue { field, value });
        assert(self@ =~= old(self)@.push((field, value@)));
    }

    /// Appends a text to the document.
    pub fn add_text(&mut self, field: Field, text: &str)
        ensures
            final(self)@ == old(self)@.push((field, ValueView::Text(text@))),
    {
        self.add(field, Value::Text(String::from_str(text)));
    }

    /// Appends a date to the document.
    pub fn add_date(&mut self, field: Field, date: Timestamp)
        ensures
            final(self)@ == old(self)@.push((field, ValueView::Date(date))),
    {
        self.add(field, Value::Date(date));
    }

    /// Appends a score to the document.
    pub fn add_score(&mut self, field: Field, score: ScoreKey)
        ensures
            final(self)@ == old(self)@.push((field, ValueView::Score(score))),
    {
        self.add(field, Value::Score(score));
    }

    /// The values of a field, in the order of the document.
    pub fn get_all(&self, field: Field) -> (found: Vec<&Value>)
        ensures
            found.len() == values_of(self@, field).len(),
            forall|i: int| 0 <= i < found.len() ==> (#[trigger] found[i])@ == values_of(self@, field)[i],
    {
        let mut found: Vec<&Value> = Vec::new();
        let mut i: usize = 0;
        assert(self@.take(0) =~= Seq::<Entry>::empty());
        while i < self.values.len()
            invariant
                i <= self.values.len(),
                found.len() == values_of(self@.take(i as int), field).len(),
                forall|j: int|
                    0 <= j < found.len() ==> (#[trigger] found[j])@ == values_of(
                        self@.take(i as int),
                        field,
                    )[j],
            decreases self.values.len() - i,
        {
            assert(self@.take(i + 1).drop_last() =~= self@.take(i as int));
            if self.values[i].field == field {
                found.push(&self.values[i].value);
            }
            i += 1;
        }
        assert(self@.take(i as int) =~= self@);
        found
    }

    /// The first value of a field.
    pub fn get_first(&self, field: Field) -> (found: Option<&Value>)
        ensures
            match found {
                Some(value) => values_of(self@, field).len() > 0 && value@ == values_of(
                    self@,
                    field,
                )[0],
                None => values_of(self@, field).len() == 0,
            },
    {
        let mut i: usize = 0;
        assert(self@.take(0) =~= Seq::<Entry>::empty());
        while i < self.values.len()
            invariant
                i <= self.values.len(),
                values_of(self@.take(i as int), field).len() == 0,
            decreases self.values.len() - i,
        {
            assert(self@.take(i + 1).drop_last() =~= self@.take(i as int));
            if self.values[i].field == field {
                proof {
                    let head = values_of(self@.take(i + 1), field);
                    assert(head =~= seq![self.values[i as int].value@]);
                    lemma_values_of_prefix(self@, i + 1, field);
                    assert(values_of(self@, field)[0] == head[0]);
                }
                return Some(&self.values[i].value);
            }
            i += 1;
        }
        assert(self@.take(i as int) =~= self@);
        None
    }
}

/// The values of a field in a prefix of a document begin its values in the
/// whole document.
pub proof fn lemma_values_of_prefix(entries: Seq<Entry>, n: int, field: Field)
    requires
        0 <= n <= entries.len(),
    ensures
        values_of(entries.take(n), field).is_prefix_of(values_of(entries, field)),
    decreases entries.len() - n,
{
    if n == entries.len() {
        assert(entries.take(n) =~= entries);
    } else {
        lemma_values_of_prefix(entries, n + 1, field);
        assert(entries.take(n + 1).drop_last() =~= entries.take(n));
    }
}

/// The texts of a field, in order; the empty text stands for a value that
/// is no text.
pub fn field2strvec(doc: &Document, field: Field) -> (texts: Result<Vec<&str>, Error>)
    ensures
        texts matches Ok(found) && found.len() == values_of(doc@, field).len() && forall|i: int|
            0 <= i < found.len() ==> (#[trigger] found[i])@ == text_or_empty(
                values_of(doc@, field)[i],
            ),
{
    let values = doc.get_all(field);
    let mut found: Vec<&str> = Vec::new();
    let mut i: usize = 0;
    while i < values.len()
        invariant
            i <= values.len(),
            found.len() == i,
            values.len() == values_of(doc@, field).len(),
            forall|j: int|
                0 <= j < values.len() ==> (#[trigger] values[j])@ == values_of(doc@, field)[j],
            forall|j: int|
                0 <= j < i ==> (#[trigger] found[j])@ == text_or_empty(values_of(doc@, field)[j]),
        decreases values.len() - i,
    {
        match values[i] {
            Value::Text(text) => found.push(text.as_str()),
            _ => {
                proof {
                    reveal_strlit("");
                }
                found.push("");
                assert(""@ =~= Seq::<char>::empty());
            },
        }
        i += 1;
    }
    Ok(found)
}

/// The scores of a field, in order; zero stands for a value that is no
/// score.
pub fn field2f64vec(doc: &Document, field: Field) -> (scores: Result<Vec<ScoreKey>, Error>)
    ensures
        scores matches Ok(found) && found.len() == values_of(doc@, field).len() && forall|i: int|
            0 <= i < found.len() ==> #[trigger] found[i] == score_or_zero(
                values_of(doc@, field)[i],
            ),
{
    let values = doc.get_all(field);
    let mut found: Vec<ScoreKey> = Vec::new();
    let mut i: usize = 0;
    while i < values.len()
        invariant
            i <= values.len(),
            found.len() == i,
            values.len() == values_of(doc@, field).len(),
            forall|j: int|
                0 <= j < values.len() ==> (#[trigger] values[j])@ == values_of(doc@, field)[j],
            forall|j: int|
                0 <= j < i ==> #[trigger] found[j] == score_or_zero(values_of(doc@, field)[j]),
        decreases values.len() - i,
    {
        match values[i] {
            Value::Score(score) => found.push(*score),
            _ => found.push(ZERO_SCORE),
        }
        i += 1;
    }
    Ok(found)
}

/// The first value of a field, where the document has one.
pub open spec fn first_of(entries: Seq<Entry>, field: Field) -> Option<ValueView> {
    if values_of(entries, field).len() > 0 {
        Some(values_of(entries, field)[0])
    } else {
        None
    }
}

/// The text that is the first value of a field. It is not found where the
/// field has no value or its first value is no text.
pub fn field2str(doc: &Document, field: Field) -> (text: Result<&str, Error>)
    ensures
        match text {
            Ok(found) => first_of(doc@, field) == Some(ValueView::Text(found@)),
            Err(e) => e is NotFound && !(first_of(doc@, field) matches Some(ValueView::Text(_))),
        },
{
    match doc.get_first(field) {
        Some(Value::Text(text)) => Ok(text.as_str()),
        _ => Err(Error::NotFound),
    }
}

/// The date that is the first value of a field. It is not found where the
/// field has no value or its first value is no date.
pub fn field2date(doc: &Document, field: Field) -> (date: Result<Timestamp, Error>)
    ensures
        match date {
            Ok(found) => first_of(doc@, field) == Some(ValueView::Date(found)),
            Err(e) => e is NotFound && !(first_of(doc@, field) matches Some(ValueView::Date(_))),
        },
{
    match doc.get_first(field) {
        Some(Value::Date(date)) => Ok(*date),
        _ => Err(Error::NotFound),
    }
}

/// The score that is the first value of a field. It is not found where the
/// field has no value or its first value is no score.
pub fn field2float(doc: &Document, field: Field) -> (score: Result<ScoreKey, Error>)
    ensures
        match score {
            Ok(found) => first_of(doc@, field) == Some(ValueView::Score(found)),
            Err(e) => e is NotFound && !(first_of(doc@, field) matches Some(ValueView::Score(_))),
        },
{
    match doc.get_first(field) {
        Some(Value::Score(score)) => Ok(*score),
        _ => Err(Error::NotFound),
    }
}

} // verus!
