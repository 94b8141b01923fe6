use vstd::prelude::*;

use crate::text::same_text;

verus! {

/// A stored value, as loosely typed as the store keeps it.
pub enum Value {
    Null,
    Str(String),
    Int32(i32),
    Int64(i64),
    /// A floating value, held as the 32-bit integer it converts to: truncated
    /// toward zero, saturated at the bounds, NaN as zero.
    Double(i32),
    Bool(bool),
    Array(Vec<Value>),
    Document(Document),
    /// A kind the content never reads (object ids, dates, binary data, ...).
    Other,
}

/// A stored document: its fields in stored order.
pub struct Document {
    pub entries: Vec<(String, Value)>,
}

/// The first index at or after `i` whose field is named `key` (the length if none).
pub open spec fn key_index(es: Seq<(String, Value)>, key: Seq<char>, i: int) -> int
    decreases es.len() - i,
{
    if i < 0 || i >= es.len() {
        es.len() as int
    } else if es[i].0@ == key {
        i
    } else {
        key_index(es, key, i + 1)
    }
}

/// The value of the field `key`: the first one of that name.
pub open spec fn lookup(d: Document, key: Seq<char>) -> Option<Value> {
    let i = key_index(d.entries@, key, 0);
    if i < d.entries@.len() {
        Some(d.entries@[i].1)
    } else {
        None
    }
}

/// A string field; a missing field, null, or a value of another kind reads as absent.
pub open spec fn string_field(d: Document, key: Seq<char>) -> Option<Seq<char>> {
    match lookup(d, key) {
        Some(Value::Str(s)) => Some(s@),
        _ => None,
    }
}

/// A string field, the empty string where it is absent.
pub open spec fn text_field(d: Document, key: Seq<char>) -> Seq<char> {
    match string_field(d, key) {
        Some(s) => s,
        None => Seq::empty(),
    }
}

/// A sub-document field.
pub open spec fn sub_document(d: Document, key: Seq<char>) -> Option<Document> {
    match lookup(d, key) {
        Some(Value::Document(s)) => Some(s),
        _ => None,
    }
}

/// The sub-documents among `items`, in order; other items are dropped.
pub open spec fn documents_in(items: Seq<Value>) -> Seq<Document>
    decreases items.len(),
{
    if items.len() == 0 {
        Seq::empty()
    } else {
        let prev = documents_in(items.drop_last());
        match items.last() {
            Value::Document(d) => prev.push(d),
            _ => prev,
        }
    }
}

/// The sub-documents of an array field; absent where the field is no array.
pub open spec fn array_documents(d: Document, key: Seq<char>) -> Option<Seq<Document>> {
    match lookup(d, key) {
        Some(Value::Array(items)) => Some(documents_in(items@)),
        _ => None,
    }
}

/// A number as a 32-bit integer: 64-bit ones are truncated to their low 32 bits,
/// and any other kind is 0.
pub open spec fn number_of(v: Value) -> i32 {
    match v {
        Value::Int32(x) => x,
        Value::Int64(x) => x as i32,
        Value::Double(x) => x,
        _ => 0,
    }
}

/// A numeric field; 0 where it is missing or holds no number.
pub open spec fn number_field(d: Document, key: Seq<char>) -> i32 {
    match lookup(d, key) {
        Some(v) => number_of(v),
        None => 0,
    }
}

pub open spec fn opt_ref_view<'a, T>(o: Option<&'a T>) -> Option<T> {
    match o {
        Some(v) => Some(*v),
        None => None,
    }
}

impl Document {
    pub fn new() -> (r: Document)
        ensures
            r.entries@.len() == 0,
    {
        Document { entries: Vec::new() }
    }

    /// Appends the field `key`.
    pub fn insert(&mut self, key: String, value: Value)
        ensures
            final(self).entries@ == old(self).entries@.push((key, value)),
    {
        self.entries.push((key, value));
    }

    /// The value of the field `key`, the first one of that name.
    pub fn get(&self, key: &str) -> (r: Option<&Value>)
        ensures
            opt_ref_view(r) == lookup(*self, key@),
    {
        let mut i: usize = 0;
        while i < self.entries.len()
            invariant
                i <= self.entries@.len(),
                key_index(self.entries@, key@, 0) == key_index(self.entries@, key@, i as int),
            decreases self.entries@.len() - i,
        {
            if same_text(self.entries[i].0.as_str(), key) {
                return Some(&self.entries[i].1);
            }
            i = i + 1;
        }
        None
    }
}

/// A string field, the empty string where it is missing, null or of another kind.
pub fn get_string(d: &Document, key: &str) -> (r: String)
    ensures
        r@ == text_field(*d, key@),
{
    match d.get(key) {
        Some(Value::Str(s)) => s.clone(),
        _ => String::new(),
    }
}

/// A string field, absent where it is missing, null or of another kind.
pub fn get_string_opt(d: &Document, key: &str) -> (r: Option<String>)
    ensures
        r matches Some(s) ==> string_field(*d, key@) == Some(s@),
        r is None <==> string_field(*d, key@) is None,
{
    match d.get(key) {
        Some(Value::Str(s)) => Some(s.clone()),
        _ => None,
    }
}

/// An optional string field of the era itself.
pub fn get_optional_string(d: &Document, key: &str) -> (r: Option<String>)
    ensures
        r matches Some(s) ==> string_field(*d, key@) == Some(s@),
        r is None <==> string_field(*d, key@) is None,
{
    get_string_opt(d, key)
}

/// The block that a document holds under a language's key, if it is a sub-document.
pub fn get_document_for_lang<'a>(d: &'a Document, lang: &str) -> (r: Option<&'a Document>)
    ensures
        opt_ref_view(r) == sub_document(*d, lang@),
{
    match d.get(lang) {
        Some(Value::Document(s)) => Some(s),
        _ => None,
    }
}

/// The sub-documents among `items`, in order.
pub fn documents_of(items: &Vec<Value>) -> (r: Vec<&Document>)
    ensures
        r@.len() == documents_in(items@).len(),
        forall|j: int| 0 <= j < r@.len() ==> *r@[j] == documents_in(items@)[j],
{
    let mut r: Vec<&Document> = Vec::new();
    let mut i: usize = 0;
    while i < items.len()
        invariant
            i <= items@.len(),
            r@.len() == documents_in(items@.subrange(0, i as int)).len(),
            forall|j: int|
                0 <= j < r@.len() ==> *r@[j] == documents_in(items@.subrange(0, i as int))[j],
        decreases items@.len() - i,
    {
        assert(items@.subrange(0, i + 1).drop_last() =~= items@.subrange(0, i as int));
        if let Value::Document(d) = &items[i] {
            r.push(d);
        }
        i = i + 1;
    }
    assert(items@.subrange(0, items@.len() as int) =~= items@);
    r
}

/// The sub-documents of an array field; absent where the field is no array.
pub fn get_array<'a>(d: &'a Document, key: &str) -> (r: Option<Vec<&'a Document>>)
    ensures
        r is Some <==> array_documents(*d, key@) is Some,
        r matches Some(v) ==> v@.len() == array_documents(*d, key@)->0.len() && forall|j: int|
            0 <= j < v@.len() ==> *v@[j] == array_documents(*d, key@)->0[j],
{
    match d.get(key) {
        Some(Value::Array(items)) => Some(documents_of(items)),
        _ => None,
    }
}

/// A value as a 32-bit integer, 0 where it is no number.
pub fn to_number(v: &Value) -> (r: i32)
    ensures
        r == number_of(*v),
{
    match v {
        Value::Int32(x) => *x,
        Value::Int64(x) => {
            #[verifier::truncate]
            let n = *x as i32;
            n
        },
        Value::Double(x) => *x,
        _ => 0,
    }
}

/// A numeric field, 0 where it is missing or holds no number.
pub fn get_number(d: &Document, key: &str) -> (r: i32)
    ensures
        r == number_field(*d, key@),
{
    match d.get(key) {
        Some(v) => to_number(v),
        None => 0,
    }
}

} // verus!
