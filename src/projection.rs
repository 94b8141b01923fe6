use vstd::prelude::*;

use crate::value::{Document, Value};

verus! {

/// `a` followed by `b`.
pub fn joined(a: &str, b: &str) -> (r: String)
    ensures
        r@ == a@ + b@,
{
    let mut s = a.to_owned();
    s.append(b);
    s
}

/// A projection that includes exactly `fields`, in that order.
pub open spec fn projects(d: Document, fields: Seq<Seq<char>>) -> bool {
    &&& d.entries@.len() == fields.len()
    &&& forall|i: int|
        0 <= i < fields.len() ==> d.entries@[i].0@ == fields[i] && d.entries@[i].1
            == Value::Int32(1)
}

/// The fields an era listing reads in `lang`: from the language's block, and the
/// same fields at the top level for a flat document.
pub open spec fn list_fields(lang: Seq<char>) -> Seq<Seq<char>> {
    seq![
        "_id"@,
        "type"@,
        lang + ".name"@,
        lang + ".label"@,
        lang + ".order"@,
        lang + ".episodes"@,
        "name"@,
        "label"@,
        "order"@,
        "episodes"@,
    ]
}

/// The fields a single era reads in `lang`: the whole block, or the flat fields.
pub open spec fn era_fields(lang: Seq<char>) -> Seq<Seq<char>> {
    seq!["_id"@, "type"@, lang, "name"@, "label"@, "order"@, "books"@, "episodes"@]
}

/// The fields an episode lookup reads in `lang`: the episodes only.
pub open spec fn episode_fields(lang: Seq<char>) -> Seq<Seq<char>> {
    seq![lang + ".episodes"@, "episodes"@]
}

fn select(d: &mut Document, key: String)
    ensures
        final(d).entries@ == old(d).entries@.push((key, Value::Int32(1))),
{
    d.insert(key, Value::Int32(1));
}

/// The projection for listing all eras in `lang`.
pub fn list_eras_projection(lang: &str) -> (r: Document)
    ensures
        projects(r, list_fields(lang@)),
{
    let mut d = Document::new();
    select(&mut d, "_id".to_owned());
    select(&mut d, "type".to_owned());
    select(&mut d, joined(lang, ".name"));
    select(&mut d, joined(lang, ".label"));
    select(&mut d, joined(lang, ".order"));
    select(&mut d, joined(lang, ".episodes"));
    select(&mut d, "name".to_owned());
    select(&mut d, "label".to_owned());
    select(&mut d, "order".to_owned());
    select(&mut d, "episodes".to_owned());
    assert(d.entries@.len() == 10);
    d
}

/// The projection for one era in `lang`.
pub fn era_projection(lang: &str) -> (r: Document)
    ensures
        projects(r, era_fields(lang@)),
{
    let mut d = Document::new();
    select(&mut d, "_id".to_owned());
    select(&mut d, "type".to_owned());
    select(&mut d, lang.to_owned());
    select(&mut d, "name".to_owned());
    select(&mut d, "label".to_owned());
    select(&mut d, "order".to_owned());
    select(&mut d, "books".to_owned());
    select(&mut d, "episodes".to_owned());
    d
}

/// The projection for an era's episodes in `lang`, listed or looked up.
pub fn episodes_projection(lang: &str) -> (r: Document)
    ensures
        projects(r, episode_fields(lang@)),
{
    let mut d = Document::new();
    select(&mut d, joined(lang, ".episodes"));
    select(&mut d, "episodes".to_owned());
    d
}

} // verus!
