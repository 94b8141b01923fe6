use vstd::prelude::*;

use crate::model::{
    episodes_view, EpisodeDto, EpisodeDtoView, EpisodeListItem, EpisodeSearchItem, EraDto,
    EraListItem,
};
use crate::lang::is_supported;
use crate::parse::{
    block_episodes, episode_list_of, episodes_for_lang, episodes_of, era_list_item_of, era_of,
    locale_episodes, parse_episode_list, parse_episode_search_item, parse_era,
    parse_era_list_item, reference_documents, reference_of, search_item_of,
};
use crate::text::same_text;
use crate::value::{sub_document, text_field, Document};

verus! {

/// What looking up an episode under an era comes to.
pub enum EpisodeLookup {
    EraNotFound,
    EpisodeNotFound,
    Found(EpisodeDto),
}

pub enum LookupOutcome {
    EraNotFound,
    EpisodeNotFound,
    Found(EpisodeDtoView),
}

impl View for EpisodeLookup {
    type V = LookupOutcome;

    open spec fn view(&self) -> LookupOutcome {
        match self {
            EpisodeLookup::EraNotFound => LookupOutcome::EraNotFound,
            EpisodeLookup::EpisodeNotFound => LookupOutcome::EpisodeNotFound,
            EpisodeLookup::Found(e) => LookupOutcome::Found(e@),
        }
    }
}

/// The first index at or after `i` of an episode with the id `id` (the length if none).
pub open spec fn episode_index(eps: Seq<EpisodeDtoView>, id: Seq<char>, i: int) -> int
    decreases eps.len() - i,
{
    if i < 0 || i >= eps.len() {
        eps.len() as int
    } else if eps[i].id == id {
        i
    } else {
        episode_index(eps, id, i + 1)
    }
}

/// The outcome of looking up episode `id` in `lang` under the era found, if any:
/// the first episode of that id in the era's list for the language.
pub open spec fn episode_lookup(era: Option<Document>, id: Seq<char>, lang: Seq<char>) -> LookupOutcome {
    match era {
        None => LookupOutcome::EraNotFound,
        Some(doc) => {
            let eps = episodes_of(doc, lang);
            let k = episode_index(eps, id, 0);
            if k < eps.len() {
                LookupOutcome::Found(eps[k])
            } else {
                LookupOutcome::EpisodeNotFound
            }
        },
    }
}

pub open spec fn opt_doc_view(o: Option<&Document>) -> Option<Document> {
    match o {
        Some(d) => Some(*d),
        None => None,
    }
}

/// Looks up an episode under the era that the store found (`None`: no era of that id).
pub fn find_episode_for_era(era: Option<&Document>, episode_id: &str, lang: &str) -> (r:
    EpisodeLookup)
    ensures
        r@ == episode_lookup(opt_doc_view(era), episode_id@, lang@),
{
    let doc = match era {
        Some(d) => d,
        None => {
            return EpisodeLookup::EraNotFound;
        },
    };
    let mut eps = episodes_for_lang(doc, lang);
    let ghost all = episodes_view(eps@);
    let mut i: usize = 0;
    while i < eps.len()
        invariant
            all == episodes_view(eps@),
            all == episodes_of(*doc, lang@),
            era == Some(doc),
            i <= eps@.len(),
            episode_index(all, episode_id@, 0) == episode_index(all, episode_id@, i as int),
        decreases eps@.len() - i,
    {
        assert(all[i as int] == eps@[i as int]@);
        if same_text(eps[i].id.as_str(), episode_id) {
            assert(episode_index(all, episode_id@, i as int) == i);
            let e = eps.remove(i);
            assert(e@ == all[i as int]);
            return EpisodeLookup::Found(e);
        }
        i = i + 1;
    }
    assert(all.len() == eps@.len());
    EpisodeLookup::EpisodeNotFound
}

/// The listing records of the eras found, in the order the store gave them.
pub fn list_eras(eras: &Vec<Document>, lang: &str) -> (r: Vec<EraListItem>)
    ensures
        r@.len() == eras@.len(),
        forall|j: int| 0 <= j < r@.len() ==> r@[j]@ == era_list_item_of(eras@[j], lang@),
{
    let mut r: Vec<EraListItem> = Vec::new();
    let mut i: usize = 0;
    while i < eras.len()
        invariant
            i <= eras@.len(),
            r@.len() == i,
            forall|j: int| 0 <= j < i ==> r@[j]@ == era_list_item_of(eras@[j], lang@),
        decreases eras@.len() - i,
    {
        r.push(parse_era_list_item(&eras[i], lang));
        i = i + 1;
    }
    r
}

/// The full record of the era found, if any.
pub fn find_era_by_id(era: Option<&Document>, lang: &str) -> (r: Option<EraDto>)
    ensures
        r is Some <==> era is Some,
        r matches Some(e) ==> e@ == era_of(*era->0, lang@),
{
    match era {
        Some(d) => Some(parse_era(d, lang)),
        None => None,
    }
}

/// The episode listing of the era found, if any.
pub fn list_episodes_for_era(era: Option<&Document>, lang: &str) -> (r: Option<
    Vec<EpisodeListItem>,
>)
    ensures
        r is Some <==> era is Some,
        r matches Some(v) ==> v@.len() == episode_list_of(*era->0, lang@).len() && forall|j: int|
            0 <= j < v@.len() ==> v@[j]@ == episode_list_of(*era->0, lang@)[j],
{
    match era {
        Some(d) => Some(parse_episode_list(d, lang)),
        None => None,
    }
}

/// The search records of the book-search result, in the order the store gave them.
pub fn episode_search_results(results: &Vec<Document>) -> (r: Vec<EpisodeSearchItem>)
    ensures
        r@.len() == results@.len(),
        forall|j: int| 0 <= j < r@.len() ==> r@[j]@ == search_item_of(results@[j]),
{
    let mut r: Vec<EpisodeSearchItem> = Vec::new();
    let mut i: usize = 0;
    while i < results.len()
        invariant
            i <= results@.len(),
            r@.len() == i,
            forall|j: int| 0 <= j < i ==> r@[j]@ == search_item_of(results@[j]),
        decreases results@.len() - i,
    {
        r.push(parse_episode_search_item(&results[i]));
        i = i + 1;
    }
    r
}

proof fn lemma_episode_index_bounds(eps: Seq<EpisodeDtoView>, id: Seq<char>, i: int)
    requires
        0 <= i <= eps.len(),
    ensures
        i <= episode_index(eps, id, i) <= eps.len(),
        episode_index(eps, id, i) < eps.len() ==> eps[episode_index(eps, id, i)].id == id,
    decreases eps.len() - i,
{
    if i < eps.len() && eps[i].id != id {
        lemma_episode_index_bounds(eps, id, i + 1);
    }
}

/// Whether `book` is the book name of a reference stored under one of the episodes of
/// the block a document holds for `lang`.
pub open spec fn book_in_block(doc: Document, lang: Seq<char>, book: Seq<char>) -> bool {
    exists|j: int, n: int|
        0 <= j < block_episodes(doc, lang).len() && 0 <= n < reference_documents(
            block_episodes(doc, lang)[j],
        ).len() && book == text_field(
            #[trigger] reference_documents(block_episodes(doc, lang)[j])[n],
            "book"@,
        )
}

/// Fetched in a supported language whose block the era holds, an episode shows only
/// book names stored in that block: each of its references names the book of a
/// reference kept under one of the block's episodes.
pub proof fn lemma_found_references_come_from_locale(
    doc: Document,
    episode_id: Seq<char>,
    lang: Seq<char>,
)
    requires
        is_supported(lang),
        sub_document(doc, lang) is Some,
    ensures
        episode_lookup(Some(doc), episode_id, lang) matches LookupOutcome::Found(e) ==> forall|
            m: int,
        | 0 <= m < e.references.len() ==> book_in_block(doc, lang, #[trigger] e.references[m].book),
{
    let eps = episodes_of(doc, lang);
    lemma_episode_index_bounds(eps, episode_id, 0);
    let k = episode_index(eps, episode_id, 0);
    if k < eps.len() {
        let ed = locale_episodes(doc, lang)[k];
        assert(locale_episodes(doc, lang) == block_episodes(doc, lang));
        assert forall|m: int| 0 <= m < eps[k].references.len() implies book_in_block(
            doc,
            lang,
            #[trigger] eps[k].references[m].book,
        ) by {
            assert(eps[k].references[m] == reference_of(reference_documents(ed)[m]));
            assert(reference_documents(block_episodes(doc, lang)[k])[m] == reference_documents(
                ed,
            )[m]);
        }
        assert(episode_lookup(Some(doc), episode_id, lang) == LookupOutcome::Found(eps[k]));
    }
}

/// An era absent from the store and an episode absent from a stored era are told
/// apart: the one is `EraNotFound`, the other `EpisodeNotFound`.
pub proof fn lemma_absent_era_and_absent_episode_differ(
    doc: Document,
    episode_id: Seq<char>,
    lang: Seq<char>,
)
    requires
        forall|j: int|
            0 <= j < episodes_of(doc, lang).len() ==> #[trigger] episodes_of(doc, lang)[j].id
                != episode_id,
    ensures
        episode_lookup(None, episode_id, lang) == LookupOutcome::EraNotFound,
        episode_lookup(Some(doc), episode_id, lang) == LookupOutcome::EpisodeNotFound,
        episode_lookup(None, episode_id, lang) != episode_lookup(Some(doc), episode_id, lang),
{
    lemma_episode_index_bounds(episodes_of(doc, lang), episode_id, 0);
}

} // verus!
