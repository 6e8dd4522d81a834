//! The option document: the structured value that the renderer consumes.

use vstd::prelude::*;

verus! {

/// A double-precision number, carried by its IEEE 754 bit pattern. Two
/// numbers are equal when their bit patterns are.
#[derive(Clone, Copy, Debug, PartialEq, Eq, Structural)]
pub struct Number {
    pub bits: u64,
}

impl Number {
    /// The number with this bit pattern.
    pub fn from_bits(bits: u64) -> (number: Number)
        ensures
            number == (Number { bits }),
    {
        Number { bits }
    }

    /// The bit pattern of this number.
    pub fn to_bits(&self) -> (bits: u64)
        ensures
            bits == self.bits,
    {
        self.bits
    }
}

/// What a document is, as a mathematical value. An object keeps its members
/// in the order in which they are written; an absent member is simply not
/// among them.
pub enum Doc {
    Null,
    Bool(bool),
    Text(Seq<char>),
    Number(Number),
    List(Seq<Doc>),
    Object(Seq<(Seq<char>, Doc)>),
}

/// One node of an option document.
#[derive(Debug, PartialEq)]
pub enum Value {
    Null,
    Bool(bool),
    Text(String),
    Number(Number),
    List(Vec<Value>),
    Object(Vec<Entry>),
}

/// One keyed member of an object node.
#[derive(Debug, PartialEq)]
pub struct Entry {
    pub key: String,
    pub value: Value,
}

impl View for Value {
    type V = Doc;

    open spec fn view(&self) -> Doc
        decreases self,
    {
        match self {
            Value::Null => Doc::Null,
            Value::Bool(truth) => Doc::Bool(*truth),
            Value::Text(text) => Doc::Text(text@),
            Value::Number(number) => Doc::Number(*number),
            Value::List(items) => Doc::List(
                Seq::new(
                    items.len() as nat,
                    |i: int|
                        if 0 <= i < items.len() {
                            items[i]@
                        } else {
                            Doc::Null
                        },
                ),
            ),
            Value::Object(entries) => Doc::Object(
                Seq::new(
                    entries.len() as nat,
                    |i: int|
                        if 0 <= i < entries.len() {
                            (entries[i].key@, entries[i].value@)
                        } else {
                            (Seq::empty(), Doc::Null)
                        },
                ),
            ),
        }
    }
}

/// The members that a sequence of entries stands for.
pub open spec fn members(entries: Seq<Entry>) -> Seq<(Seq<char>, Doc)> {
    Seq::new(entries.len(), |i: int| (entries[i].key@, entries[i].value@))
}

/// The documents that a sequence of values stands for.
pub open spec fn documents(items: Seq<Value>) -> Seq<Doc> {
    Seq::new(items.len(), |i: int| items[i]@)
}

/// An object node stands for the members of its entries, in their order.
pub proof fn lemma_object_view(entries: Vec<Entry>)
    ensures
        Value::Object(entries)@ == Doc::Object(members(entries@)),
{
    reveal_with_fuel(<Value as View>::view, 2);
    assert(Value::Object(entries)@->Object_0 =~= members(entries@));
}

/// A list node stands for the documents of its items, in their order.
pub proof fn lemma_list_view(items: Vec<Value>)
    ensures
        Value::List(items)@ == Doc::List(documents(items@)),
{
    reveal_with_fuel(<Value as View>::view, 2);
    assert(Value::List(items)@->List_0 =~= documents(items@));
}

/// The document found under a key: that of the first member with this key,
/// if there is one.
pub open spec fn lookup(members: Seq<(Seq<char>, Doc)>, key: Seq<char>) -> Option<Doc>
    decreases members.len(),
{
    if members.len() == 0 {
        None
    } else if members[0].0 == key {
        Some(members[0].1)
    } else {
        lookup(members.drop_first(), key)
    }
}

/// Looking a key up in two runs of members written one after the other finds
/// what the first run holds under it, and else what the second holds.
pub proof fn lemma_lookup_concat(
    first: Seq<(Seq<char>, Doc)>,
    second: Seq<(Seq<char>, Doc)>,
    key: Seq<char>,
)
    ensures
        lookup(first + second, key) == match lookup(first, key) {
            Some(document) => Some(document),
            None => lookup(second, key),
        },
    decreases first.len(),
{
    if first.len() == 0 {
        assert(first + second =~= second);
    } else {
        assert((first + second).drop_first() =~= first.drop_first() + second);
        lemma_lookup_concat(first.drop_first(), second, key);
    }
}

/// The member written for an optional field: one member under `key` when
/// the field is present, none when it is absent.
pub open spec fn optional_member(key: Seq<char>, field: Option<Doc>) -> Seq<(Seq<char>, Doc)> {
    match field {
        Some(document) => seq![(key, document)],
        None => Seq::empty(),
    }
}

/// An optional field is found under its own key exactly when it is present,
/// and under no other key.
pub proof fn lemma_lookup_optional(key: Seq<char>, field: Option<Doc>, wanted: Seq<char>)
    ensures
        lookup(optional_member(key, field), wanted) == if key == wanted {
            field
        } else {
            None
        },
{
    reveal_with_fuel(lookup, 2);
    if field is Some {
        assert(optional_member(key, field).drop_first() =~= Seq::empty());
    }
}

/// Appends one member to the entries of an object under construction.
pub fn push_member(entries: &mut Vec<Entry>, key: &str, value: Value)
    ensures
        members(final(entries)@) == members(old(entries)@).push((key@, value@)),
{
    entries.push(Entry { key: key.to_owned(), value });
    assert(members(entries@) =~= members(old(entries)@).push((key@, value@)));
}

impl Clone for Value {
    /// A deep copy: it stands for the same document.
    fn clone(&self) -> (copy: Value)
        ensures
            copy@ == self@,
        decreases self,
    {
        match self {
            Value::Null => Value::Null,
            Value::Bool(truth) => Value::Bool(*truth),
            Value::Text(text) => Value::Text(text.clone()),
            Value::Number(number) => Value::Number(*number),
            Value::List(items) => {
                let mut copies: Vec<Value> = Vec::new();
                let mut i: usize = 0;
                while i < items.len()
                    invariant
                        *self == Value::List(*items),
                        i <= items.len(),
                        copies.len() == i,
                        forall|j: int| 0 <= j < i ==> copies[j]@ == items[j]@,
                    decreases items.len() - i,
                {
                    proof {
                        vstd::std_specs::vec::axiom_vec_index_decreases(*items, i as int);
                        assert(decreases_to!(*self => self->List_0));
                    }
                    copies.push(items[i].clone());
                    i += 1;
                }
                proof {
                    lemma_list_view(copies);
                    lemma_list_view(*items);
                    assert(documents(copies@) =~= documents(items@));
                }
                Value::List(copies)
            },
            Value::Object(entries) => {
                let mut copies: Vec<Entry> = Vec::new();
                let mut i: usize = 0;
                while i < entries.len()
                    invariant
                        *self == Value::Object(*entries),
                        i <= entries.len(),
                        copies.len() == i,
                        forall|j: int|
                            0 <= j < i ==> copies[j].key@ == entries[j].key@ && copies[j].value@
                                == entries[j].value@,
                    decreases entries.len() - i,
                {
                    proof {
                        vstd::std_specs::vec::axiom_vec_index_decreases(*entries, i as int);
                        assert(decreases_to!(*self => self->Object_0));
                    }
                    let key = entries[i].key.clone();
                    let value = entries[i].value.clone();
                    copies.push(Entry { key, value });
                    i += 1;
                }
                proof {
                    lemma_object_view(copies);
                    lemma_object_view(*entries);
                    assert(members(copies@) =~= members(entries@));
                }
                Value::Object(copies)
            },
        }
    }
}

impl Clone for Entry {
    fn clone(&self) -> (copy: Entry)
        ensures
            copy.key@ == self.key@,
            copy.value@ == self.value@,
    {
        Entry { key: self.key.clone(), value: self.value.clone() }
    }
}

} // verus!
