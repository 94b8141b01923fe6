use vstd::prelude::*;

use crate::text::same_text;

verus! {

/// A passage of scripture an episode draws on.
pub struct Reference {
    pub book_id: String,
    pub book: String,
    pub chapters: Vec<i32>,
}

pub struct ReferenceView {
    pub book_id: Seq<char>,
    pub book: Seq<char>,
    pub chapters: Seq<i32>,
}

impl View for Reference {
    type V = ReferenceView;

    open spec fn view(&self) -> ReferenceView {
        ReferenceView { book_id: self.book_id@, book: self.book@, chapters: self.chapters@ }
    }
}

pub open spec fn references_view(rs: Seq<Reference>) -> Seq<ReferenceView> {
    rs.map_values(|r: Reference| r@)
}

/// An episode of one era, in one language, as the ingestion process writes it.
pub struct Episode {
    pub id: String,
    pub name: String,
    pub label: String,
    pub order: i32,
    pub references: Vec<Reference>,
}

/// An era in one language, as the ingestion process writes it.
pub struct Era {
    pub id: String,
    pub name: String,
    pub label: String,
    pub order: i32,
    pub era_type: Option<String>,
    pub books: Vec<String>,
    pub episodes: Vec<Episode>,
}

/// An era in a listing: its episodes only counted.
pub struct EraListItem {
    pub id: String,
    pub name: String,
    pub label: String,
    pub order: i32,
    pub era_type: Option<String>,
    pub episode_count: usize,
}

/// An era with its books and episodes, in one language.
pub struct EraDto {
    pub id: String,
    pub name: String,
    pub label: String,
    pub order: i32,
    pub era_type: Option<String>,
    pub books: Vec<String>,
    pub episodes: Vec<EpisodeDto>,
}

/// An episode in a listing: its references only counted.
pub struct EpisodeListItem {
    pub id: String,
    pub name: String,
    pub label: String,
    pub order: i32,
    pub reference_count: usize,
}

/// An episode with its references, in one language.
pub struct EpisodeDto {
    pub id: String,
    pub name: String,
    pub label: String,
    pub order: i32,
    pub references: Vec<Reference>,
}

/// An episode found by a search on a book.
pub struct EpisodeSearchItem {
    pub era_id: String,
    pub era_label: String,
    pub id: String,
    pub label: String,
}

pub struct EraListItemView {
    pub id: Seq<char>,
    pub name: Seq<char>,
    pub label: Seq<char>,
    pub order: i32,
    pub era_type: Option<Seq<char>>,
    pub episode_count: nat,
}

pub struct EraDtoView {
    pub id: Seq<char>,
    pub name: Seq<char>,
    pub label: Seq<char>,
    pub order: i32,
    pub era_type: Option<Seq<char>>,
    pub books: Seq<Seq<char>>,
    pub episodes: Seq<EpisodeDtoView>,
}

pub struct EpisodeListItemView {
    pub id: Seq<char>,
    pub name: Seq<char>,
    pub label: Seq<char>,
    pub order: i32,
    pub reference_count: nat,
}

pub struct EpisodeDtoView {
    pub id: Seq<char>,
    pub name: Seq<char>,
    pub label: Seq<char>,
    pub order: i32,
    pub references: Seq<ReferenceView>,
}

pub struct EpisodeSearchItemView {
    pub era_id: Seq<char>,
    pub era_label: Seq<char>,
    pub id: Seq<char>,
    pub label: Seq<char>,
}

pub open spec fn opt_string_view(o: Option<String>) -> Option<Seq<char>> {
    match o {
        Some(s) => Some(s@),
        None => None,
    }
}

pub open spec fn strings_view(v: Seq<String>) -> Seq<Seq<char>> {
    v.map_values(|s: String| s@)
}

pub open spec fn episodes_view(v: Seq<EpisodeDto>) -> Seq<EpisodeDtoView> {
    v.map_values(|e: EpisodeDto| e@)
}

impl View for EraListItem {
    type V = EraListItemView;

    open spec fn view(&self) -> EraListItemView {
        EraListItemView {
            id: self.id@,
            name: self.name@,
            label: self.label@,
            order: self.order,
            era_type: opt_string_view(self.era_type),
            episode_count: self.episode_count as nat,
        }
    }
}

impl View for EraDto {
    type V = EraDtoView;

    open spec fn view(&self) -> EraDtoView {
        EraDtoView {
            id: self.id@,
            name: self.name@,
            label: self.label@,
            order: self.order,
            era_type: opt_string_view(self.era_type),
            books: strings_view(self.books@),
            episodes: episodes_view(self.episodes@),
        }
    }
}

impl View for EpisodeListItem {
    type V = EpisodeListItemView;

    open spec fn view(&self) -> EpisodeListItemView {
        EpisodeListItemView {
            id: self.id@,
            name: self.name@,
            label: self.label@,
            order: self.order,
            reference_count: self.reference_count as nat,
        }
    }
}

impl View for EpisodeDto {
    type V = EpisodeDtoView;

    open spec fn view(&self) -> EpisodeDtoView {
        EpisodeDtoView {
            id: self.id@,
            name: self.name@,
            label: self.label@,
            order: self.order,
            references: references_view(self.references@),
        }
    }
}

impl View for EpisodeSearchItem {
    type V = EpisodeSearchItemView;

    open spec fn view(&self) -> EpisodeSearchItemView {
        EpisodeSearchItemView {
            era_id: self.era_id@,
            era_label: self.era_label@,
            id: self.id@,
            label: self.label@,
        }
    }
}

impl From<Episode> for EpisodeDto {
    fn from(value: Episode) -> (r: EpisodeDto) {
        EpisodeDto {
            id: value.id,
            name: value.name,
            label: value.label,
            order: value.order,
            references: value.references,
        }
    }
}

impl vstd::std_specs::convert::FromSpecImpl<Episode> for EpisodeDto {
    open spec fn obeys_from_spec() -> bool {
        true
    }

    open spec fn from_spec(value: Episode) -> EpisodeDto {
        EpisodeDto {
            id: value.id,
            name: value.name,
            label: value.label,
            order: value.order,
            references: value.references,
        }
    }
}

impl From<Episode> for EpisodeListItem {
    fn from(value: Episode) -> (r: EpisodeListItem) {
        EpisodeListItem {
            id: value.id,
            name: value.name,
            label: value.label,
            order: value.order,
            reference_count: value.references.len(),
        }
    }
}

impl vstd::std_specs::convert::FromSpecImpl<Episode> for EpisodeListItem {
    open spec fn obeys_from_spec() -> bool {
        true
    }

    open spec fn from_spec(value: Episode) -> EpisodeListItem {
        EpisodeListItem {
            id: value.id,
            name: value.name,
            label: value.label,
            order: value.order,
            reference_count: value.references@.len() as usize,
        }
    }
}

impl From<Era> for EraListItem {
    fn from(value: Era) -> (r: EraListItem) {
        EraListItem {
            id: value.id,
            name: value.name,
            label: value.label,
            order: value.order,
            era_type: value.era_type,
            episode_count: value.episodes.len(),
        }
    }
}

impl vstd::std_specs::convert::FromSpecImpl<Era> for EraListItem {
    open spec fn obeys_from_spec() -> bool {
        true
    }

    open spec fn from_spec(value: Era) -> EraListItem {
        EraListItem {
            id: value.id,
            name: value.name,
            label: value.label,
            order: value.order,
            era_type: value.era_type,
            episode_count: value.episodes@.len() as usize,
        }
    }
}

/// The record of an episode: its fields as they are.
pub open spec fn episode_dto_view(e: Episode) -> EpisodeDtoView {
    EpisodeDtoView {
        id: e.id@,
        name: e.name@,
        label: e.label@,
        order: e.order,
        references: references_view(e.references@),
    }
}

/// The episode records of an era's episodes, in order.
pub open spec fn episode_dtos_of(es: Seq<Episode>) -> Seq<EpisodeDtoView> {
    es.map_values(|e: Episode| episode_dto_view(e))
}

impl EraDto {
    /// The full record of an era: each episode becomes an episode record.
    pub fn from_era(value: Era) -> (r: EraDto)
        ensures
            r.id == value.id,
            r.name == value.name,
            r.label == value.label,
            r.order == value.order,
            r.era_type == value.era_type,
            r.books == value.books,
            episodes_view(r.episodes@) == episode_dtos_of(value.episodes@),
    {
        let Era { id, name, label, order, era_type, books, episodes } = value;
        let mut out: Vec<EpisodeDto> = Vec::new();
        let mut rest = episodes;
        let ghost all = rest@;
        let n: usize = rest.len();
        let mut i: usize = 0;
        while rest.len() > 0
            invariant
                all.len() == n,
                i + rest@.len() == all.len(),
                rest@ == all.subrange(i as int, all.len() as int),
                episodes_view(out@) == episode_dtos_of(all.subrange(0, i as int)),
            decreases rest@.len(),
        {
            let e = rest.remove(0);
            out.push(EpisodeDto::from(e));
            assert(episode_dtos_of(all.subrange(0, i + 1)) =~= episode_dtos_of(
                all.subrange(0, i as int),
            ).push(episode_dto_view(e)));
            assert(episodes_view(out@) =~= episode_dtos_of(all.subrange(0, i + 1)));
            i = i + 1;
            assert(rest@ =~= all.subrange(i as int, all.len() as int));
        }
        assert(all.subrange(0, i as int) =~= all);
        EraDto { id, name, label, order, era_type, books, episodes: out }
    }
}

impl From<Era> for EraDto {
    fn from(value: Era) -> (r: EraDto) {
        EraDto::from_era(value)
    }
}

impl vstd::std_specs::convert::FromSpecImpl<Era> for EraDto {
    /// Two vectors with the same elements are not known to be one value, so the
    /// exact contract stands on `EraDto::from_era`.
    open spec fn obeys_from_spec() -> bool {
        false
    }

    open spec fn from_spec(value: Era) -> EraDto {
        arbitrary()
    }
}

/// The references allowed to name a book outside their era's own book list, as
/// (era id, episode id, book).
pub open spec fn bridge_rules() -> Seq<(Seq<char>, Seq<char>, Seq<char>)> {
    seq![("gospel"@, "resurrection"@, "Acts"@)]
}

pub open spec fn is_cross_era_bridge(era_id: Seq<char>, episode_id: Seq<char>, book: Seq<char>) -> bool {
    exists|i: int|
        0 <= i < bridge_rules().len() && #[trigger] bridge_rules()[i] == (era_id, episode_id, book)
}

pub open spec fn rules_view(v: Seq<(&str, &str, &str)>) -> Seq<(Seq<char>, Seq<char>, Seq<char>)> {
    v.map_values(|r: (&str, &str, &str)| (r.0@, r.1@, r.2@))
}

/// The allow-list of cross-era bridges.
pub fn cross_era_bridges() -> (r: Vec<(&'static str, &'static str, &'static str)>)
    ensures
        rules_view(r@) == bridge_rules(),
{
    let r = vec![("gospel", "resurrection", "Acts")];
    assert(rules_view(r@) =~= bridge_rules());
    r
}

pub open spec fn book_listed(era: Era, book: Seq<char>) -> bool {
    exists|k: int| 0 <= k < era.books@.len() && #[trigger] era.books@[k]@ == book
}

pub open spec fn reference_allowed(era: Era, episode: Episode, reference: Reference) -> bool {
    book_listed(era, reference.book@) || is_cross_era_bridge(era.id@, episode.id@, reference.book@)
}

/// No two episodes of the era share an id.
pub open spec fn episode_ids_unique(era: Era) -> bool {
    forall|i: int, j: int|
        0 <= i < j < era.episodes@.len() ==> era.episodes@[i].id@ != era.episodes@[j].id@
}

/// Every reference names a book of the era, or is an allowed bridge.
pub open spec fn references_in_era(era: Era) -> bool {
    forall|i: int, k: int|
        0 <= i < era.episodes@.len() && 0 <= k < era.episodes@[i].references@.len()
            ==> reference_allowed(era, era.episodes@[i], era.episodes@[i].references@[k])
}

pub open spec fn era_valid(era: Era) -> bool {
    episode_ids_unique(era) && references_in_era(era)
}

pub open spec fn eras_valid(eras: Seq<Era>) -> bool {
    forall|i: int| 0 <= i < eras.len() ==> era_valid(#[trigger] eras[i])
}

/// Whether a reference from the episode to the book is an allowed cross-era bridge.
pub fn is_allowed_cross_era_bridge(era_id: &str, episode_id: &str, book: &str) -> (r: bool)
    ensures
        r == is_cross_era_bridge(era_id@, episode_id@, book@),
{
    let rules = cross_era_bridges();
    let mut i: usize = 0;
    while i < rules.len()
        invariant
            i <= rules@.len(),
            rules_view(rules@) == bridge_rules(),
            forall|j: int| 0 <= j < i ==> bridge_rules()[j] != (era_id@, episode_id@, book@),
        decreases rules@.len() - i,
    {
        let (e, p, b) = rules[i];
        assert(bridge_rules()[i as int] == (e@, p@, b@));
        if same_text(era_id, e) && same_text(episode_id, p) && same_text(book, b) {
            return true;
        }
        i = i + 1;
    }
    false
}

fn message(a: &str, x: &str, b: &str, y: &str, c: &str) -> (r: String)
    ensures
        r@ == a@ + x@ + b@ + y@ + c@,
{
    let mut m = a.to_owned();
    m.append(x);
    m.append(b);
    m.append(y);
    m.append(c);
    m
}

fn book_in(books: &Vec<String>, book: &String) -> (r: bool)
    ensures
        r == exists|k: int| 0 <= k < books@.len() && #[trigger] books@[k]@ == book@,
{
    let mut k: usize = 0;
    while k < books.len()
        invariant
            k <= books@.len(),
            forall|m: int| 0 <= m < k ==> #[trigger] books@[m]@ != book@,
        decreases books@.len() - k,
    {
        if books[k] == *book {
            return true;
        }
        k = k + 1;
    }
    false
}

fn duplicate_before(episodes: &Vec<Episode>, j: usize) -> (r: bool)
    requires
        j < episodes@.len(),
    ensures
        r == exists|i: int| 0 <= i < j && #[trigger] episodes@[i].id@ == episodes@[j as int].id@,
{
    let mut i: usize = 0;
    while i < j
        invariant
            i <= j < episodes@.len(),
            forall|m: int| 0 <= m < i ==> #[trigger] episodes@[m].id@ != episodes@[j as int].id@,
        decreases j - i,
    {
        if episodes[i].id == episodes[j].id {
            return true;
        }
        i = i + 1;
    }
    false
}

fn check_era(era: &Era) -> (r: Result<(), String>)
    ensures
        r is Ok <==> era_valid(*era),
{
    let mut j: usize = 0;
    while j < era.episodes.len()
        invariant
            j <= era.episodes@.len(),
            forall|a: int, b: int|
                0 <= a < b < j ==> era.episodes@[a].id@ != era.episodes@[b].id@,
            forall|a: int, k: int|
                0 <= a < j && 0 <= k < era.episodes@[a].references@.len() ==> reference_allowed(
                    *era,
                    era.episodes@[a],
                    era.episodes@[a].references@[k],
                ),
        decreases era.episodes@.len() - j,
    {
        let episode = &era.episodes[j];
        if duplicate_before(&era.episodes, j) {
            return Err(
                message(
                    "duplicate episode id '",
                    episode.id.as_str(),
                    "' in era '",
                    era.id.as_str(),
                    "'",
                ),
            );
        }
        let mut k: usize = 0;
        while k < episode.references.len()
            invariant
                j < era.episodes@.len(),
                *episode == era.episodes@[j as int],
                k <= episode.references@.len(),
                forall|m: int|
                    0 <= m < k ==> reference_allowed(*era, *episode, episode.references@[m]),
            decreases episode.references@.len() - k,
        {
            let reference = &episode.references[k];
            if !book_in(&era.books, &reference.book) && !is_allowed_cross_era_bridge(
                era.id.as_str(),
                episode.id.as_str(),
                reference.book.as_str(),
            ) {
                return Err(
                    message(
                        "reference book '",
                        reference.book.as_str(),
                        "' is not in era '",
                        era.id.as_str(),
                        "' books",
                    ),
                );
            }
            k = k + 1;
        }
        j = j + 1;
    }
    Ok(())
}

/// Checks what the ingestion process must keep true of each era: episode ids are
/// unique, and each reference names a book of its era unless it is an allowed
/// cross-era bridge. The message names the first offence found.
pub fn validate_era_collection(eras: &[Era]) -> (r: Result<(), String>)
    ensures
        r is Ok <==> eras_valid(eras@),
{
    let mut i: usize = 0;
    while i < eras.len()
        invariant
            i <= eras@.len(),
            forall|m: int| 0 <= m < i ==> era_valid(#[trigger] eras@[m]),
        decreases eras@.len() - i,
    {
        let checked = check_era(&eras[i]);
        if checked.is_err() {
            return checked;
        }
        i = i + 1;
    }
    Ok(())
}

} // verus!
