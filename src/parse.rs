use vstd::prelude::*;

use crate::model::{
    episodes_view, references_view, strings_view, EpisodeDto, EpisodeDtoView, EpisodeListItem,
    EpisodeListItemView, EpisodeSearchItem, EpisodeSearchItemView, EraDto, EraDtoView,
    EraListItem, EraListItemView, Reference, ReferenceView,
};
use crate::value::{
    array_documents, get_array, get_document_for_lang, get_number, get_optional_string,
    get_string, lookup, number_field, number_of, opt_ref_view, string_field, sub_document,
    text_field, to_number, Document, Value,
};

verus! {

/// A document is locale-nested when a supported language's key holds a block.
pub open spec fn is_locale_nested(doc: Document) -> bool {
    sub_document(doc, "en"@) is Some || sub_document(doc, "es"@) is Some || sub_document(
        doc,
        "pt"@,
    ) is Some || sub_document(doc, "sv"@) is Some
}

/// Where a document keeps what it says in `lang`: the block under that key; in a
/// flat document, the document itself; in a nested one without that block, nothing.
pub open spec fn locale_payload(doc: Document, lang: Seq<char>) -> Option<Document> {
    if sub_document(doc, lang) is Some {
        sub_document(doc, lang)
    } else if is_locale_nested(doc) {
        None
    } else {
        Some(doc)
    }
}

pub open spec fn payload_text(doc: Document, lang: Seq<char>, key: Seq<char>) -> Seq<char> {
    match locale_payload(doc, lang) {
        Some(p) => text_field(p, key),
        None => Seq::empty(),
    }
}

pub open spec fn payload_number(doc: Document, lang: Seq<char>, key: Seq<char>) -> i32 {
    match locale_payload(doc, lang) {
        Some(p) => number_field(p, key),
        None => 0,
    }
}

/// The sub-documents of an array field of the payload; none where it is missing.
pub open spec fn payload_documents(doc: Document, lang: Seq<char>, key: Seq<char>) -> Seq<
    Document,
> {
    match locale_payload(doc, lang) {
        Some(p) => match array_documents(p, key) {
            Some(ds) => ds,
            None => Seq::empty(),
        },
        None => Seq::empty(),
    }
}

/// The strings among `items`, in order; other items are dropped.
pub open spec fn strings_in(items: Seq<Value>) -> Seq<Seq<char>>
    decreases items.len(),
{
    if items.len() == 0 {
        Seq::empty()
    } else {
        let prev = strings_in(items.drop_last());
        match items.last() {
            Value::Str(s) => prev.push(s@),
            _ => prev,
        }
    }
}

pub open spec fn payload_strings(doc: Document, lang: Seq<char>, key: Seq<char>) -> Seq<
    Seq<char>,
> {
    match locale_payload(doc, lang) {
        Some(p) => match lookup(p, key) {
            Some(Value::Array(items)) => strings_in(items@),
            _ => Seq::empty(),
        },
        None => Seq::empty(),
    }
}

/// The chapter numbers of a reference; an item that is no number reads as 0.
pub open spec fn chapters_of(d: Document) -> Seq<i32> {
    match lookup(d, "chapters"@) {
        Some(Value::Array(items)) => items@.map_values(|v: Value| number_of(v)),
        _ => Seq::empty(),
    }
}

pub open spec fn reference_of(d: Document) -> ReferenceView {
    ReferenceView {
        book_id: text_field(d, "book_id"@),
        book: text_field(d, "book"@),
        chapters: chapters_of(d),
    }
}

pub open spec fn reference_documents(d: Document) -> Seq<Document> {
    match array_documents(d, "references"@) {
        Some(ds) => ds,
        None => Seq::empty(),
    }
}

pub open spec fn references_of(d: Document) -> Seq<ReferenceView> {
    reference_documents(d).map_values(|r: Document| reference_of(r))
}

pub open spec fn episode_of(d: Document) -> EpisodeDtoView {
    EpisodeDtoView {
        id: text_field(d, "id"@),
        name: text_field(d, "name"@),
        label: text_field(d, "label"@),
        order: number_field(d, "order"@),
        references: references_of(d),
    }
}

/// The stored episodes of a document in `lang`.
pub open spec fn locale_episodes(doc: Document, lang: Seq<char>) -> Seq<Document> {
    payload_documents(doc, lang, "episodes"@)
}

pub open spec fn episodes_of(doc: Document, lang: Seq<char>) -> Seq<EpisodeDtoView> {
    locale_episodes(doc, lang).map_values(|d: Document| episode_of(d))
}

pub open spec fn era_of(doc: Document, lang: Seq<char>) -> EraDtoView {
    EraDtoView {
        id: text_field(doc, "_id"@),
        name: payload_text(doc, lang, "name"@),
        label: payload_text(doc, lang, "label"@),
        order: payload_number(doc, lang, "order"@),
        era_type: string_field(doc, "type"@),
        books: payload_strings(doc, lang, "books"@),
        episodes: episodes_of(doc, lang),
    }
}

pub open spec fn era_list_item_of(doc: Document, lang: Seq<char>) -> EraListItemView {
    EraListItemView {
        id: text_field(doc, "_id"@),
        name: payload_text(doc, lang, "name"@),
        label: payload_text(doc, lang, "label"@),
        order: payload_number(doc, lang, "order"@),
        era_type: string_field(doc, "type"@),
        episode_count: locale_episodes(doc, lang).len(),
    }
}

pub open spec fn episode_list_item_of(d: Document) -> EpisodeListItemView {
    EpisodeListItemView {
        id: text_field(d, "id"@),
        name: text_field(d, "name"@),
        label: text_field(d, "label"@),
        order: number_field(d, "order"@),
        reference_count: reference_documents(d).len(),
    }
}

pub open spec fn episode_list_of(doc: Document, lang: Seq<char>) -> Seq<EpisodeListItemView> {
    locale_episodes(doc, lang).map_values(|d: Document| episode_list_item_of(d))
}

pub open spec fn search_item_of(d: Document) -> EpisodeSearchItemView {
    EpisodeSearchItemView {
        era_id: text_field(d, "era_id"@),
        era_label: text_field(d, "era_label"@),
        id: text_field(d, "id"@),
        label: text_field(d, "label"@),
    }
}

fn locale_nested(doc: &Document) -> (r: bool)
    ensures
        r == is_locale_nested(*doc),
{
    get_document_for_lang(doc, "en").is_some() || get_document_for_lang(doc, "es").is_some()
        || get_document_for_lang(doc, "pt").is_some() || get_document_for_lang(
        doc,
        "sv",
    ).is_some()
}

/// Where a document keeps what it says in `lang` (see `locale_payload`).
pub fn payload_for_lang<'a>(doc: &'a Document, lang: &str) -> (r: Option<&'a Document>)
    ensures
        opt_ref_view(r) == locale_payload(*doc, lang@),
{
    match get_document_for_lang(doc, lang) {
        Some(block) => Some(block),
        None => {
            if locale_nested(doc) {
                None
            } else {
                Some(doc)
            }
        },
    }
}

fn payload_string(payload: Option<&Document>, key: &str) -> (r: String)
    ensures
        r@ == match opt_ref_view(payload) {
            Some(p) => text_field(p, key@),
            None => Seq::empty(),
        },
{
    match payload {
        Some(p) => get_string(p, key),
        None => String::new(),
    }
}

fn payload_episodes<'a>(payload: Option<&'a Document>) -> (r: Vec<&'a Document>)
    ensures
        r@.len() == (match opt_ref_view(payload) {
            Some(p) => match array_documents(p, "episodes"@) {
                Some(ds) => ds,
                None => Seq::empty(),
            },
            None => Seq::empty(),
        }).len(),
        forall|j: int|
            0 <= j < r@.len() ==> *r@[j] == (match opt_ref_view(payload) {
                Some(p) => match array_documents(p, "episodes"@) {
                    Some(ds) => ds,
                    None => Seq::empty(),
                },
                None => Seq::empty(),
            })[j],
{
    match payload {
        Some(p) => match get_array(p, "episodes") {
            Some(ds) => ds,
            None => Vec::new(),
        },
        None => Vec::new(),
    }
}

fn parse_chapters(d: &Document) -> (r: Vec<i32>)
    ensures
        r@ == chapters_of(*d),
{
    let mut r: Vec<i32> = Vec::new();
    if let Some(Value::Array(items)) = d.get("chapters") {
        let mut i: usize = 0;
        while i < items.len()
            invariant
                i <= items@.len(),
                r@ == items@.subrange(0, i as int).map_values(|v: Value| number_of(v)),
            decreases items@.len() - i,
        {
            r.push(to_number(&items[i]));
            assert(r@ =~= items@.subrange(0, i + 1).map_values(|v: Value| number_of(v)));
            i = i + 1;
        }
        assert(items@.subrange(0, items@.len() as int) =~= items@);
    }
    r
}

fn parse_reference(d: &Document) -> (r: Reference)
    ensures
        r@ == reference_of(*d),
{
    Reference {
        book_id: get_string(d, "book_id"),
        book: get_string(d, "book"),
        chapters: parse_chapters(d),
    }
}

/// The references of a stored episode; items that are no documents are dropped.
pub fn parse_references(episode: &Document) -> (r: Vec<Reference>)
    ensures
        references_view(r@) == references_of(*episode),
{
    let ds = match get_array(episode, "references") {
        Some(ds) => ds,
        None => Vec::new(),
    };
    let ghost src = reference_documents(*episode);
    let mut r: Vec<Reference> = Vec::new();
    let mut i: usize = 0;
    while i < ds.len()
        invariant
            i <= ds@.len() == src.len(),
            forall|j: int| 0 <= j < ds@.len() ==> *ds@[j] == src[j],
            references_view(r@) == src.subrange(0, i as int).map_values(
                |x: Document| reference_of(x),
            ),
        decreases ds@.len() - i,
    {
        let x = parse_reference(ds[i]);
        let ghost prev = r@;
        r.push(x);
        assert(references_view(r@) =~= references_view(prev).push(x@));
        assert(src.subrange(0, i + 1).map_values(|x: Document| reference_of(x)) =~= src.subrange(
            0,
            i as int,
        ).map_values(|x: Document| reference_of(x)).push(reference_of(src[i as int])));
        i = i + 1;
    }
    assert(src.subrange(0, src.len() as int) =~= src);
    r
}

/// An episode record from a stored episode.
pub fn parse_episode(d: &Document) -> (r: EpisodeDto)
    ensures
        r@ == episode_of(*d),
{
    EpisodeDto {
        id: get_string(d, "id"),
        name: get_string(d, "name"),
        label: get_string(d, "label"),
        order: get_number(d, "order"),
        references: parse_references(d),
    }
}

/// The episode records a document holds in `lang`, in stored order.
pub fn episodes_for_lang(doc: &Document, lang: &str) -> (r: Vec<EpisodeDto>)
    ensures
        episodes_view(r@) == episodes_of(*doc, lang@),
{
    let ds = payload_episodes(payload_for_lang(doc, lang));
    let ghost src = locale_episodes(*doc, lang@);
    let mut r: Vec<EpisodeDto> = Vec::new();
    let mut i: usize = 0;
    while i < ds.len()
        invariant
            i <= ds@.len() == src.len(),
            forall|j: int| 0 <= j < ds@.len() ==> *ds@[j] == src[j],
            episodes_view(r@) == src.subrange(0, i as int).map_values(|x: Document| episode_of(x)),
        decreases ds@.len() - i,
    {
        let x = parse_episode(ds[i]);
        let ghost prev = r@;
        r.push(x);
        assert(episodes_view(r@) =~= episodes_view(prev).push(x@));
        assert(src.subrange(0, i + 1).map_values(|x: Document| episode_of(x)) =~= src.subrange(
            0,
            i as int,
        ).map_values(|x: Document| episode_of(x)).push(episode_of(src[i as int])));
        i = i + 1;
    }
    assert(src.subrange(0, src.len() as int) =~= src);
    r
}

fn parse_books(payload: Option<&Document>) -> (r: Vec<String>)
    ensures
        strings_view(r@) == match opt_ref_view(payload) {
            Some(p) => match lookup(p, "books"@) {
                Some(Value::Array(items)) => strings_in(items@),
                _ => Seq::empty(),
            },
            None => Seq::empty(),
        },
{
    let mut r: Vec<String> = Vec::new();
    if let Some(p) = payload {
        if let Some(Value::Array(items)) = p.get("books") {
            let mut i: usize = 0;
            while i < items.len()
                invariant
                    i <= items@.len(),
                    strings_view(r@) == strings_in(items@.subrange(0, i as int)),
                decreases items@.len() - i,
            {
                assert(items@.subrange(0, i + 1).drop_last() =~= items@.subrange(0, i as int));
                if let Value::Str(s) = &items[i] {
                    r.push(s.clone());
                }
                assert(strings_view(r@) =~= strings_in(items@.subrange(0, i + 1)));
                i = i + 1;
            }
            assert(items@.subrange(0, items@.len() as int) =~= items@);
        }
    }
    r
}

/// The full record of a stored era in `lang`.
pub fn parse_era(doc: &Document, lang: &str) -> (r: EraDto)
    ensures
        r@ == era_of(*doc, lang@),
{
    let payload = payload_for_lang(doc, lang);
    let order = match payload {
        Some(p) => get_number(p, "order"),
        None => 0,
    };
    let books = parse_books(payload);
    EraDto {
        id: get_string(doc, "_id"),
        name: payload_string(payload, "name"),
        label: payload_string(payload, "label"),
        order,
        era_type: get_optional_string(doc, "type"),
        books,
        episodes: episodes_for_lang(doc, lang),
    }
}

/// The listing record of a stored era in `lang`: its episodes only counted.
pub fn parse_era_list_item(doc: &Document, lang: &str) -> (r: EraListItem)
    ensures
        r@ == era_list_item_of(*doc, lang@),
{
    let payload = payload_for_lang(doc, lang);
    let episodes = payload_episodes(payload);
    EraListItem {
        id: get_string(doc, "_id"),
        name: payload_string(payload, "name"),
        label: payload_string(payload, "label"),
        order: match payload {
            Some(p) => get_number(p, "order"),
            None => 0,
        },
        era_type: get_optional_string(doc, "type"),
        episode_count: episodes.len(),
    }
}

fn parse_episode_list_item(d: &Document) -> (r: EpisodeListItem)
    ensures
        r@ == episode_list_item_of(*d),
{
    let count = match get_array(d, "references") {
        Some(ds) => ds.len(),
        None => 0,
    };
    EpisodeListItem {
        id: get_string(d, "id"),
        name: get_string(d, "name"),
        label: get_string(d, "label"),
        order: get_number(d, "order"),
        reference_count: count,
    }
}

/// The listing records of the episodes a document holds in `lang`.
pub fn parse_episode_list(doc: &Document, lang: &str) -> (r: Vec<EpisodeListItem>)
    ensures
        r@.len() == episode_list_of(*doc, lang@).len(),
        forall|j: int| 0 <= j < r@.len() ==> r@[j]@ == episode_list_of(*doc, lang@)[j],
{
    let ds = payload_episodes(payload_for_lang(doc, lang));
    let ghost src = locale_episodes(*doc, lang@);
    let mut r: Vec<EpisodeListItem> = Vec::new();
    let mut i: usize = 0;
    while i < ds.len()
        invariant
            i <= ds@.len() == src.len(),
            forall|j: int| 0 <= j < ds@.len() ==> *ds@[j] == src[j],
            r@.len() == i,
            forall|j: int| 0 <= j < i ==> r@[j]@ == episode_list_item_of(src[j]),
        decreases ds@.len() - i,
    {
        r.push(parse_episode_list_item(ds[i]));
        i = i + 1;
    }
    r
}

/// A search record from one document of the book-search result.
pub fn parse_episode_search_item(d: &Document) -> (r: EpisodeSearchItem)
    ensures
        r@ == search_item_of(*d),
{
    EpisodeSearchItem {
        era_id: get_string(d, "era_id"),
        era_label: get_string(d, "era_label"),
        id: get_string(d, "id"),
        label: get_string(d, "label"),
    }
}

/// The episodes stored in the block a document holds for `lang`.
pub open spec fn block_episodes(doc: Document, lang: Seq<char>) -> Seq<Document> {
    match sub_document(doc, lang) {
        Some(b) => match array_documents(b, "episodes"@) {
            Some(ds) => ds,
            None => Seq::empty(),
        },
        None => Seq::empty(),
    }
}

/// A locale-nested era without a block for the language reads with an empty name and
/// label and no episodes: a record, not an error.
pub proof fn lemma_missing_block_reads_empty(doc: Document, lang: Seq<char>)
    requires
        is_locale_nested(doc),
        sub_document(doc, lang) is None,
    ensures
        era_of(doc, lang).name.len() == 0,
        era_of(doc, lang).label.len() == 0,
        era_of(doc, lang).episodes.len() == 0,
        era_list_item_of(doc, lang).name.len() == 0,
        era_list_item_of(doc, lang).label.len() == 0,
{
}

} // verus!
