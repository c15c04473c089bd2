//! The declaration of an index's fields: an ordered list that is fixed once
//! the index is made.

use crate::query::Field;
use vstd::prelude::*;

verus! {

/// What kind of value a field holds, and how it is searched.
#[derive(Clone, Copy, Debug, PartialEq, Eq, Structural)]
pub enum FieldKind {
    /// Text that is split into words when indexed.
    Text,
    /// A string that is indexed as a single term.
    String,
    /// A date.
    Date,
    /// A numeric score.
    Score,
}

/// The attributes of a field.
#[derive(Clone, Copy, Debug, PartialEq, Eq, Structural)]
pub struct FieldOptions {
    pub kind: FieldKind,
    /// The value can be read back from a hit.
    pub stored: bool,
    /// The value can be searched for.
    pub indexed: bool,
    /// The value can be sorted and aggregated by.
    pub fast: bool,
}

/// A field's name and attributes.
#[derive(Debug, PartialEq, Eq)]
pub struct FieldEntry {
    pub name: String,
    pub options: FieldOptions,
}

/// Whether the index takes `name` as the name of a field: it is not empty
/// and does not begin with a hyphen.
pub open spec fn valid_field_name(name: Seq<char>) -> bool {
    name.len() > 0 && name[0] != '-'
}

/// An ordered declaration of fields. Each has a valid name that no other
/// field has, and a field's handle is its position.
#[derive(Debug, PartialEq, Eq)]
pub struct Schema {
    fields: Vec<FieldEntry>,
}

impl Schema {
    /// The names of the fields, in order.
    pub closed spec fn names(self) -> Seq<Seq<char>> {
        Seq::new(self.fields.len() as nat, |i: int| self.fields[i].name@)
    }

    /// The attributes of the fields, in order.
    pub closed spec fn options(self) -> Seq<FieldOptions> {
        Seq::new(self.fields.len() as nat, |i: int| self.fields[i].options)
    }

    /// The invariant of a schema.
    pub open spec fn wf(self) -> bool {
        &&& self.names().len() == self.options().len()
        &&& self.names().len() <= u32::MAX
        &&& forall|i: int| 0 <= i < self.names().len() ==> valid_field_name(#[trigger] self.names()[i])
        &&& forall|i: int, j: int|
            0 <= i < j < self.names().len() ==> self.names()[i] != self.names()[j]
    }

    /// Whether `field` is a field of this schema.
    pub open spec fn has(self, field: Field) -> bool {
        (field.0 as int) < self.names().len()
    }

    /// The schema without fields.
    pub fn new() -> (schema: Schema)
        ensures
            schema.wf(),
            schema.names() == Seq::<Seq<char>>::empty(),
            schema.options() == Seq::<FieldOptions>::empty(),
    {
        let schema = Schema { fields: Vec::new() };
        assert(schema.names() =~= Seq::<Seq<char>>::empty());
        assert(schema.options() =~= Seq::<FieldOptions>::empty());
        schema
    }

    /// The number of fields.
    pub fn len(&self) -> (n: usize)
        ensures
            n == self.names().len(),
    {
        self.fields.len()
    }

    /// The field of the given name, if the schema has one.
    pub fn get_field(&self, name: &str) -> (found: Option<Field>)
        requires
            self.wf(),
        ensures
            match found {
                Some(field) => self.has(field) && self.names()[field.0 as int] == name@,
                None => !self.names().contains(name@),
            },
    {
        let mut i: usize = 0;
        while i < self.fields.len()
            invariant
                i <= self.fields.len(),
                self.fields.len() <= u32::MAX,
                forall|j: int| 0 <= j < i ==> self.names()[j] != name@,
            decreases self.fields.len() - i,
        {
            if str_equal(self.fields[i].name.as_str(), name) {
                assert(self.names()[i as int] == name@);
                return Some(Field(i as u32));
            }
            assert(self.names()[i as int] == self.fields[i as int].name@);
            i += 1;
        }
        None
    }

    /// The name of a field of the schema.
    pub fn get_field_name(&self, field: Field) -> (name: &str)
        requires
            self.has(field),
        ensures
            name@ == self.names()[field.0 as int],
    {
        self.fields[field.0 as usize].name.as_str()
    }

    /// The attributes of a field of the schema.
    pub fn get_field_options(&self, field: Field) -> (options: FieldOptions)
        requires
            self.has(field),
        ensures
            options == self.options()[field.0 as int],
    {
        self.fields[field.0 as usize].options
    }

    /// A copy of the schema.
    pub fn copy(&self) -> (schema: Schema)
        ensures
            schema.names() == self.names(),
            schema.options() == self.options(),
            self.wf() ==> schema.wf(),
    {
        let mut fields: Vec<FieldEntry> = Vec::new();
        let mut i: usize = 0;
        while i < self.fields.len()
            invariant
                i <= self.fields.len(),
                fields.len() == i,
                forall|j: int|
                    0 <= j < i ==> (#[trigger] fields[j]).name@ == self.fields[j].name@
                        && fields[j].options == self.fields[j].options,
            decreases self.fields.len() - i,
        {
            let entry = &self.fields[i];
            fields.push(FieldEntry { name: entry.name.clone(), options: entry.options });
            i += 1;
        }
        let schema = Schema { fields };
        assert(schema.names() =~= self.names());
        assert(schema.options() =~= self.options());
        schema
    }

    /// Declares one more field and returns its handle. Nothing is declared,
    /// and `None` returned, where the name is not valid, another field has
    /// it, or the schema is full.
    pub fn add_field(&mut self, name: &str, options: FieldOptions) -> (added: Option<Field>)
        requires
            old(self).wf(),
        ensures
            final(self).wf(),
            added is Some <==> valid_field_name(name@) && !old(self).names().contains(name@) && old(
                self,
            ).names().len() < u32::MAX,
            match added {
                Some(field) => {
                    &&& field.0 == old(self).names().len()
                    &&& final(self).names() == old(self).names().push(name@)
                    &&& final(self).options() == old(self).options().push(options)
                },
                None => *final(self) == *old(self),
            },
    {
        if !is_valid_field_name(name) || self.fields.len() >= u32::MAX as usize {
            return None;
        }
        if self.get_field(name).is_some() {
            return None;
        }
        let field = Field(self.fields.len() as u32);
        self.fields.push(FieldEntry { name: String::from_str(name), options });
        assert(self.names() =~= old(self).names().push(name@));
        assert(self.options() =~= old(self).options().push(options));
        assert forall|i: int, j: int| 0 <= i < j < self.names().len() implies self.names()[i]
            != self.names()[j] by {
            if j == self.names().len() - 1 {
                assert(old(self).names()[i] == self.names()[i]);
            } else {
                assert(old(self).names()[i] == self.names()[i]);
                assert(old(self).names()[j] == self.names()[j]);
            }
        }
        Some(field)
    }
}

/// Whether two strings hold the same characters.
pub fn str_equal(a: &str, b: &str) -> (same: bool)
    ensures
        same == (a@ == b@),
{
    let n = a.unicode_len();
    if n != b.unicode_len() {
        return false;
    }
    let mut i: usize = 0;
    while i < n
        invariant
            n == a@.len(),
            n == b@.len(),
            i <= n,
            forall|j: int| 0 <= j < i ==> a@[j] == b@[j],
        decreases n - i,
    {
        if a.get_char(i) != b.get_char(i) {
            return false;
        }
        i += 1;
    }
    assert(a@ =~= b@);
    true
}

/// Tests whether the index takes `name` as the name of a field.
pub fn is_valid_field_name(name: &str) -> (valid: bool)
    ensures
        valid == valid_field_name(name@),
{
    name.unicode_len() > 0 && name.get_char(0) != '-'
}

} // verus!
