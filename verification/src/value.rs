//! Structured values as they cross the call boundary.

use vstd::prelude::*;

verus! {

/// A structured value: what a caller hands in and gets back.
///
/// A number is held as its decimal text, since nothing here computes with it.
#[derive(Debug, PartialEq, Eq)]
pub enum Value {
    Null,
    Bool(bool),
    Number(String),
    Text(String),
    Record(Vec<Field>),
}

/// One named entry of a record.
#[derive(Debug, PartialEq, Eq)]
pub struct Field {
    pub name: String,
    pub value: Value,
}

/// What sort of value a [`Value`] is, without its contents.
#[derive(Clone, Copy, Debug, PartialEq, Eq, Structural)]
pub enum Kind {
    Null,
    Bool,
    Number,
    Text,
    Record,
}

/// The mathematical content of a [`Value`].
pub enum ValueModel {
    Null,
    Bool(bool),
    Number(Seq<char>),
    Text(Seq<char>),
    Record(Seq<(Seq<char>, ValueModel)>),
}

/// The content of a value: text by its characters, a record by its entries.
pub open spec fn model_of(v: Value) -> ValueModel
    decreases v,
{
    match v {
        Value::Null => ValueModel::Null,
        Value::Bool(b) => ValueModel::Bool(b),
        Value::Number(digits) => ValueModel::Number(digits@),
        Value::Text(text) => ValueModel::Text(text@),
        Value::Record(fields) => ValueModel::Record(
            Seq::new(
                fields@.len(),
                |i: int|
                    if 0 <= i < fields@.len() {
                        (fields@[i].name@, model_of(fields@[i].value))
                    } else {
                        (Seq::empty(), ValueModel::Null)
                    },
            ),
        ),
    }
}

impl View for Value {
    type V = ValueModel;

    open spec fn view(&self) -> ValueModel {
        model_of(*self)
    }
}

impl View for Field {
    type V = (Seq<char>, ValueModel);

    open spec fn view(&self) -> (Seq<char>, ValueModel) {
        (self.name@, self.value@)
    }
}

impl ValueModel {
    /// The content of the first entry called `name`, where this is a record
    /// that has one.
    pub open spec fn entry(self, name: Seq<char>) -> Option<ValueModel> {
        match self {
            ValueModel::Record(entries) => lookup(entries, name),
            _ => None,
        }
    }

    /// The sort of this value.
    pub open spec fn kind(self) -> Kind {
        match self {
            ValueModel::Null => Kind::Null,
            ValueModel::Bool(_) => Kind::Bool,
            ValueModel::Number(_) => Kind::Number,
            ValueModel::Text(_) => Kind::Text,
            ValueModel::Record(_) => Kind::Record,
        }
    }
}

/// The entries of a record, each as its name and content.
pub open spec fn entries_of(fields: Seq<Field>) -> Seq<(Seq<char>, ValueModel)> {
    Seq::new(fields.len(), |i: int| fields[i]@)
}

/// The content of the first entry called `name`, if there is one.
pub open spec fn lookup(entries: Seq<(Seq<char>, ValueModel)>, name: Seq<char>) -> Option<
    ValueModel,
>
    decreases entries.len(),
{
    if entries.len() == 0 {
        None
    } else if entries[0].0 == name {
        Some(entries[0].1)
    } else {
        lookup(entries.drop_first(), name)
    }
}

/// A record's content is the content of its fields, in their order.
pub proof fn lemma_record_view(fields: Vec<Field>)
    ensures
        Value::Record(fields)@ == ValueModel::Record(entries_of(fields@)),
{
    assert(Value::Record(fields)@->Record_0 =~= entries_of(fields@));
}

impl Value {
    /// The sort of this value.
    pub fn kind(&self) -> (k: Kind)
        ensures
            k == self@.kind(),
    {
        match self {
            Value::Null => Kind::Null,
            Value::Bool(_) => Kind::Bool,
            Value::Number(_) => Kind::Number,
            Value::Text(_) => Kind::Text,
            Value::Record(_) => Kind::Record,
        }
    }

    /// The first field called `name`, where this value is a record that has
    /// one.
    pub fn field(&self, name: &str) -> (found: Option<&Value>)
        ensures
            match self@.entry(name@) {
                Some(content) => found is Some && found->Some_0@ == content,
                None => found is None,
            },
    {
        match self {
            Value::Record(fields) => {
                proof {
                    lemma_record_view(*fields);
                }
                let wanted = String::from_str(name);
                let ghost entries = entries_of(fields@);
                let mut i: usize = 0;
                assert(entries.skip(0) =~= entries);
                while i < fields.len()
                    invariant
                        i <= fields.len(),
                        wanted@ == name@,
                        entries == entries_of(fields@),
                        self@ == ValueModel::Record(entries),
                        lookup(entries, name@) == lookup(entries.skip(i as int), name@),
                    decreases fields.len() - i,
                {
                    let ghost rest = entries.skip(i as int);
                    assert(rest[0] == entries[i as int]);
                    assert(rest.drop_first() =~= entries.skip(i + 1));
                    if fields[i].name == wanted {
                        assert(entries[i as int] == (fields@[i as int].name@, fields@[i as int].value@));
                        return Some(&fields[i].value);
                    }
                    i += 1;
                }
                None
            },
            _ => None,
        }
    }
}

impl Clone for Value {
    /// A copy with the same content.
    fn clone(&self) -> (copy: Value)
        ensures
            copy@ == self@,
        decreases self,
    {
        match self {
            Value::Null => Value::Null,
            Value::Bool(b) => Value::Bool(*b),
            Value::Number(digits) => Value::Number(digits.clone()),
            Value::Text(text) => Value::Text(text.clone()),
            Value::Record(fields) => {
                let mut copied: Vec<Field> = Vec::new();
                let mut i: usize = 0;
                while i < fields.len()
                    invariant
                        i <= fields.len(),
                        copied.len() == i,
                        *self == Value::Record(*fields),
                        forall|j: int| 0 <= j < i ==> (#[trigger] copied@[j])@ == fields@[j]@,
                    decreases fields.len() - i,
                {
                    let field = &fields[i];
                    assert(decreases_to!(*self => self->Record_0));
                    assert(decreases_to!(*fields => fields[i as int]));
                    copied.push(Field { name: field.name.clone(), value: field.value.clone() });
                    i += 1;
                }
                proof {
                    lemma_record_view(copied);
                    lemma_record_view(*fields);
                    assert(entries_of(copied@) =~= entries_of(fields@));
                }
                Value::Record(copied)
            },
        }
    }
}

impl Clone for Field {
    /// A copy with the same name and content.
    fn clone(&self) -> (copy: Field)
        ensures
            copy@ == self@,
    {
        Field { name: self.name.clone(), value: self.value.clone() }
    }
}

impl Kind {
    /// The word for this kind in a diagnostic.
    pub open spec fn name_spec(self) -> Seq<char> {
        match self {
            Kind::Null => "null"@,
            Kind::Bool => "boolean"@,
            Kind::Number => "number"@,
            Kind::Text => "text"@,
            Kind::Record => "record"@,
        }
    }

    /// The word for this kind in a diagnostic.
    pub fn name(self) -> (name: &'static str)
        ensures
            name@ == self.name_spec(),
    {
        match self {
            Kind::Null => "null",
            Kind::Bool => "boolean",
            Kind::Number => "number",
            Kind::Text => "text",
            Kind::Record => "record",
        }
    }
}

} // verus!
