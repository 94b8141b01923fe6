use vstd::prelude::*;

use crate::model::EpisodeSearchItemView;
use crate::projection::joined;
use crate::value::{Document, Value};

verus! {

/// The path of a language's episodes inside an era document.
pub open spec fn episodes_path(lang: Seq<char>) -> Seq<char> {
    lang + ".episodes"@
}

/// The path of the references inside those episodes.
pub open spec fn references_path(lang: Seq<char>) -> Seq<char> {
    episodes_path(lang) + ".references"@
}

/// The value of a document's only field, when it has one field, named `k`.
pub open spec fn only_field(d: Document, k: Seq<char>) -> Option<Value> {
    if d.entries@.len() == 1 && d.entries@[0].0@ == k {
        Some(d.entries@[0].1)
    } else {
        None
    }
}

pub open spec fn is_text(v: Option<Value>, s: Seq<char>) -> bool {
    v matches Some(Value::Str(x)) && x@ == s
}

pub open spec fn text_entry(e: (String, Value), k: Seq<char>, s: Seq<char>) -> bool {
    e.0@ == k && is_text(Some(e.1), s)
}

pub open spec fn number_entry(e: (String, Value), k: Seq<char>, n: i32) -> bool {
    e.0@ == k && e.1 == Value::Int32(n)
}

/// `{"$unwind": "$<path>"}`
pub open spec fn unwind_stage(d: Document, path: Seq<char>) -> bool {
    is_text(only_field(d, "$unwind"@), "$"@ + path)
}

/// `{<field>: <book>}`
pub open spec fn equals_filter(v: Value, field: Seq<char>, book: Seq<char>) -> bool {
    v matches Value::Document(f) && is_text(only_field(f, field), book)
}

/// `{"$match": {"$or": [{<refs>.book_id: book}, {<refs>.book: book}]}}`
pub open spec fn match_stage(d: Document, refs: Seq<char>, book: Seq<char>) -> bool {
    match only_field(d, "$match"@) {
        Some(Value::Document(m)) => match only_field(m, "$or"@) {
            Some(Value::Array(alts)) => alts@.len() == 2 && equals_filter(
                alts@[0],
                refs + ".book_id"@,
                book,
            ) && equals_filter(alts@[1], refs + ".book"@, book),
            _ => false,
        },
        _ => false,
    }
}

/// `<k>: {"$first": "$<path>"}`
pub open spec fn first_entry(e: (String, Value), k: Seq<char>, path: Seq<char>) -> bool {
    e.0@ == k && (e.1 matches Value::Document(f) && is_text(only_field(f, "$first"@), "$"@ + path))
}

/// Groups by (era id, episode id), keeping the first era label and episode label seen.
pub open spec fn group_stage(d: Document, lang: Seq<char>) -> bool {
    match only_field(d, "$group"@) {
        Some(Value::Document(g)) => g.entries@.len() == 3 && g.entries@[0].0@ == "_id"@ && match g.entries@[0].1 {
            Value::Document(key) => key.entries@.len() == 2 && text_entry(
                key.entries@[0],
                "era_id"@,
                "$_id"@,
            ) && text_entry(key.entries@[1], "episode_id"@, "$"@ + episodes_path(lang) + ".id"@),
            _ => false,
        } && first_entry(g.entries@[1], "era_label"@, lang + ".label"@) && first_entry(
            g.entries@[2],
            "episode_label"@,
            episodes_path(lang) + ".label"@,
        ),
        _ => false,
    }
}

/// Flattens the group key into `era_id`, `id`, `era_label` and `label`.
pub open spec fn project_stage(d: Document) -> bool {
    only_field(d, "$project"@) matches Some(Value::Document(p)) && p.entries@.len() == 5
        && number_entry(p.entries@[0], "_id"@, 0) && text_entry(
        p.entries@[1],
        "era_id"@,
        "$_id.era_id"@,
    ) && number_entry(p.entries@[2], "era_label"@, 1) && text_entry(
        p.entries@[3],
        "id"@,
        "$_id.episode_id"@,
    ) && text_entry(p.entries@[4], "label"@, "$episode_label"@)
}

/// Orders by `era_id` ascending, then `id` ascending.
pub open spec fn sort_stage(d: Document) -> bool {
    only_field(d, "$sort"@) matches Some(Value::Document(s)) && s.entries@.len() == 2
        && number_entry(s.entries@[0], "era_id"@, 1) && number_entry(s.entries@[1], "id"@, 1)
}

/// The pipeline that finds, in `lang`, the episodes referring to `book` by id or by name.
pub open spec fn is_book_search(p: Seq<Document>, book: Seq<char>, lang: Seq<char>) -> bool {
    &&& p.len() == 6
    &&& unwind_stage(p[0], episodes_path(lang))
    &&& unwind_stage(p[1], references_path(lang))
    &&& match_stage(p[2], references_path(lang), book)
    &&& group_stage(p[3], lang)
    &&& project_stage(p[4])
    &&& sort_stage(p[5])
}

fn one_field(k: &str, v: Value) -> (r: Document)
    ensures
        r.entries@.len() == 1,
        r.entries@[0].0@ == k@,
        r.entries@[0].1 == v,
{
    let mut d = Document::new();
    d.insert(k.to_owned(), v);
    d
}

fn text(s: String) -> (r: Value)
    ensures
        r matches Value::Str(x) && x@ == s@,
{
    Value::Str(s)
}

fn unwind(path: &str) -> (r: Document)
    ensures
        unwind_stage(r, path@),
{
    one_field("$unwind", text(joined("$", path)))
}

fn equals(field: String, book: &str) -> (r: Value)
    ensures
        equals_filter(r, field@, book@),
{
    let mut f = Document::new();
    f.insert(field, text(book.to_owned()));
    Value::Document(f)
}

fn first_of(path: &str) -> (r: Value)
    ensures
        r matches Value::Document(f) && is_text(only_field(f, "$first"@), "$"@ + path@),
{
    Value::Document(one_field("$first", text(joined("$", path))))
}

fn group(lang: &str, episodes: &str) -> (r: Document)
    requires
        episodes@ == episodes_path(lang@),
    ensures
        group_stage(r, lang@),
{
    let mut key = Document::new();
    key.insert("era_id".to_owned(), text("$_id".to_owned()));
    key.insert("episode_id".to_owned(), text(joined(joined("$", episodes).as_str(), ".id")));
    let mut g = Document::new();
    g.insert("_id".to_owned(), Value::Document(key));
    g.insert("era_label".to_owned(), first_of(joined(lang, ".label").as_str()));
    g.insert("episode_label".to_owned(), first_of(joined(episodes, ".label").as_str()));
    assert(("$"@ + episodes@) + ".id"@ =~= "$"@ + episodes_path(lang@) + ".id"@);
    one_field("$group", Value::Document(g))
}

fn project() -> (r: Document)
    ensures
        project_stage(r),
{
    let mut p = Document::new();
    p.insert("_id".to_owned(), Value::Int32(0));
    p.insert("era_id".to_owned(), text("$_id.era_id".to_owned()));
    p.insert("era_label".to_owned(), Value::Int32(1));
    p.insert("id".to_owned(), text("$_id.episode_id".to_owned()));
    p.insert("label".to_owned(), text("$episode_label".to_owned()));
    one_field("$project", Value::Document(p))
}

fn sort() -> (r: Document)
    ensures
        sort_stage(r),
{
    let mut s = Document::new();
    s.insert("era_id".to_owned(), Value::Int32(1));
    s.insert("id".to_owned(), Value::Int32(1));
    one_field("$sort", Value::Document(s))
}

/// The six-stage aggregation that searches the eras for episodes referring to `book`
/// in `lang`: unwind the episodes, unwind their references, keep those whose book id
/// or book name is `book` exactly, group by (era, episode), flatten the key, and
/// order by era id, then episode id.
pub fn book_search_pipeline(book: &str, lang: &str) -> (r: Vec<Document>)
    ensures
        is_book_search(r@, book@, lang@),
{
    let episodes = joined(lang, ".episodes");
    let references = joined(episodes.as_str(), ".references");
    let alts: Vec<Value> = vec![
        equals(joined(references.as_str(), ".book_id"), book),
        equals(joined(references.as_str(), ".book"), book),
    ];
    let matcher = one_field(
        "$match",
        Value::Document(one_field("$or", Value::Array(alts))),
    );
    let r = vec![
        unwind(episodes.as_str()),
        unwind(references.as_str()),
        matcher,
        group(lang, episodes.as_str()),
        project(),
        sort(),
    ];
    r
}

/// The order the store sorts strings in: by code point, a prefix first.
pub open spec fn text_lt(a: Seq<char>, b: Seq<char>) -> bool
    decreases a.len(),
{
    if a.len() == 0 {
        b.len() > 0
    } else if b.len() == 0 {
        false
    } else if a[0] != b[0] {
        (a[0] as u32) < (b[0] as u32)
    } else {
        text_lt(a.drop_first(), b.drop_first())
    }
}

/// The order of the last stage: by era id, then by episode id.
pub open spec fn key_lt(x: EpisodeSearchItemView, y: EpisodeSearchItemView) -> bool {
    text_lt(x.era_id, y.era_id) || (x.era_id == y.era_id && text_lt(x.id, y.id))
}

/// Strictly ascending by (era id, episode id): each key once, as grouping leaves it.
pub open spec fn sorted_by_key(s: Seq<EpisodeSearchItemView>) -> bool {
    forall|i: int, j: int| 0 <= i < j < s.len() ==> key_lt(s[i], s[j])
}

proof fn lemma_text_lt_asymmetric(a: Seq<char>, b: Seq<char>)
    ensures
        !(text_lt(a, b) && text_lt(b, a)),
        !text_lt(a, a),
    decreases a.len(),
{
    if a.len() > 0 && b.len() > 0 && a[0] == b[0] {
        lemma_text_lt_asymmetric(a.drop_first(), b.drop_first());
    }
    if a.len() > 0 {
        lemma_text_lt_asymmetric(a.drop_first(), a.drop_first());
    }
}

proof fn lemma_key_lt_asymmetric(x: EpisodeSearchItemView, y: EpisodeSearchItemView)
    ensures
        !(key_lt(x, y) && key_lt(y, x)),
        !key_lt(x, x),
{
    lemma_text_lt_asymmetric(x.era_id, y.era_id);
    lemma_text_lt_asymmetric(x.id, y.id);
}

/// The book search returns the same list each time the stored data is the same: the
/// last stage sorts by the group key, which no two results share, so two result
/// lists in that order that hold the same items are one list, order included.
pub proof fn lemma_sorted_results_determined(
    a: Seq<EpisodeSearchItemView>,
    b: Seq<EpisodeSearchItemView>,
)
    requires
        sorted_by_key(a),
        sorted_by_key(b),
        forall|x: EpisodeSearchItemView| a.contains(x) <==> b.contains(x),
    ensures
        a == b,
    decreases a.len(),
{
    if a.len() == 0 {
        if b.len() > 0 {
            assert(b.contains(b[0]));
        }
        assert(a =~= b);
    } else {
        assert(a.contains(a[0]));
        let j = choose|j: int| 0 <= j < b.len() && b[j] == a[0];
        assert(b.contains(b[0]));
        let i = choose|i: int| 0 <= i < a.len() && a[i] == b[0];
        if j > 0 {
            assert(key_lt(b[0], b[j]));
            lemma_key_lt_asymmetric(a[0], a[i]);
            if i > 0 {
                assert(key_lt(a[0], a[i]));
            }
        }
        assert(a[0] == b[0]);
        let (a1, b1) = (a.drop_first(), b.drop_first());
        assert forall|x: EpisodeSearchItemView| a1.contains(x) implies b1.contains(x) by {
            let p = choose|p: int| 0 <= p < a1.len() && a1[p] == x;
            assert(a.contains(x) && a[p + 1] == x);
            lemma_key_lt_asymmetric(x, x);
            assert(key_lt(a[0], a[p + 1]));
            let q = choose|q: int| 0 <= q < b.len() && b[q] == x;
            assert(q != 0);
            assert(b1[q - 1] == x);
        }
        assert forall|x: EpisodeSearchItemView| b1.contains(x) implies a1.contains(x) by {
            let p = choose|p: int| 0 <= p < b1.len() && b1[p] == x;
            assert(b.contains(x) && b[p + 1] == x);
            lemma_key_lt_asymmetric(x, x);
            assert(key_lt(b[0], b[p + 1]));
            let q = choose|q: int| 0 <= q < a.len() && a[q] == x;
            assert(q != 0);
            assert(a1[q - 1] == x);
        }
        lemma_sorted_results_determined(a1, b1);
        assert(a =~= seq![a[0]] + a1);
        assert(b =~= seq![b[0]] + b1);
    }
}

} // verus!
