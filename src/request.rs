use vstd::prelude::*;

use crate::model::{EpisodeDto, EraDto};
use crate::queries::EpisodeLookup;
use crate::text::{chars_of, string_of, trim, trim_chars};

verus! {

/// Query values that select a language.
pub struct LangQuery {
    pub lang: Option<String>,
}

/// Query values of a search on a book.
pub struct EpisodesSearchQuery {
    pub book: Option<String>,
    pub lang: Option<String>,
}

/// The kind of a failed request, as the error envelope names it.
#[derive(PartialEq, Eq, Structural, Clone, Copy, Debug)]
pub enum ErrorKind {
    NotFound,
    BadRequest,
    InternalError,
}

impl ErrorKind {
    pub fn name(&self) -> (r: &'static str)
        ensures
            r@ == (match self {
                ErrorKind::NotFound => "NotFound"@,
                ErrorKind::BadRequest => "BadRequest"@,
                ErrorKind::InternalError => "InternalError"@,
            }),
    {
        match self {
            ErrorKind::NotFound => "NotFound",
            ErrorKind::BadRequest => "BadRequest",
            ErrorKind::InternalError => "InternalError",
        }
    }
}

/// A failed request: its kind and the message the caller sees.
pub struct ApiError {
    pub kind: ErrorKind,
    pub message: &'static str,
}

pub open spec fn is_blank(s: Seq<char>) -> bool {
    trim(s).len() == 0
}

/// Whether `s` holds nothing but white space.
pub fn blank(s: &str) -> (r: bool)
    ensures
        r == is_blank(s@),
{
    trim_chars(&chars_of(s)).len() == 0
}

/// An era id in a path must not be blank.
pub fn check_era_id(era_id: &str) -> (r: Result<(), ApiError>)
    ensures
        r is Ok <==> !is_blank(era_id@),
        r matches Err(e) ==> e.kind == ErrorKind::BadRequest && e.message@
            == "eraId must not be empty"@,
{
    if blank(era_id) {
        Err(ApiError { kind: ErrorKind::BadRequest, message: "eraId must not be empty" })
    } else {
        Ok(())
    }
}

/// The era id and the episode id in a path must not be blank; the era id is checked first.
pub fn check_episode_path(era_id: &str, episode_id: &str) -> (r: Result<(), ApiError>)
    ensures
        r is Ok <==> !is_blank(era_id@) && !is_blank(episode_id@),
        r matches Err(e) ==> e.kind == ErrorKind::BadRequest && e.message@ == (if is_blank(
            era_id@,
        ) {
            "eraId must not be empty"@
        } else {
            "episodeId must not be empty"@
        }),
{
    check_era_id(era_id)?;
    if blank(episode_id) {
        Err(ApiError { kind: ErrorKind::BadRequest, message: "episodeId must not be empty" })
    } else {
        Ok(())
    }
}

/// The book a search asks for, trimmed; it is required and must not be blank.
pub fn search_book(book: Option<&str>) -> (r: Result<String, ApiError>)
    ensures
        book is None ==> (r matches Err(e) && e.kind == ErrorKind::BadRequest && e.message@
            == "book query parameter is required"@),
        book matches Some(b) ==> if is_blank(b@) {
            r matches Err(e) && e.kind == ErrorKind::BadRequest && e.message@
                == "book query parameter must not be empty"@
        } else {
            r matches Ok(t) && t@ == trim(b@)
        },
{
    match book {
        None => Err(
            ApiError { kind: ErrorKind::BadRequest, message: "book query parameter is required" },
        ),
        Some(b) => {
            let t = trim_chars(&chars_of(b));
            if t.len() == 0 {
                Err(
                    ApiError {
                        kind: ErrorKind::BadRequest,
                        message: "book query parameter must not be empty",
                    },
                )
            } else {
                Ok(string_of(&t))
            }
        },
    }
}

/// The era asked for, or the error that it was not found.
pub fn era_found(era: Option<EraDto>) -> (r: Result<EraDto, ApiError>)
    ensures
        era is Some <==> r is Ok,
        r matches Ok(e) ==> era == Some(e),
        r matches Err(e) ==> e.kind == ErrorKind::NotFound && e.message@ == "Era not found"@,
{
    match era {
        Some(e) => Ok(e),
        None => Err(ApiError { kind: ErrorKind::NotFound, message: "Era not found" }),
    }
}

/// The episode asked for, or which of the era and the episode was not found.
pub fn episode_found(lookup: EpisodeLookup) -> (r: Result<EpisodeDto, ApiError>)
    ensures
        lookup matches EpisodeLookup::Found(ep) ==> r == Ok::<EpisodeDto, ApiError>(ep),
        lookup is EraNotFound ==> (r matches Err(e) && e.kind == ErrorKind::NotFound
            && e.message@ == "Era not found"@),
        lookup is EpisodeNotFound ==> (r matches Err(e) && e.kind == ErrorKind::NotFound
            && e.message@ == "Episode not found under era"@),
{
    match lookup {
        EpisodeLookup::Found(ep) => Ok(ep),
        EpisodeLookup::EraNotFound => Err(
            ApiError { kind: ErrorKind::NotFound, message: "Era not found" },
        ),
        EpisodeLookup::EpisodeNotFound => Err(
            ApiError { kind: ErrorKind::NotFound, message: "Episode not found under era" },
        ),
    }
}

/// What the caller sees of a store failure: a generic message, no detail of the cause.
pub fn store_failure(message: &'static str) -> (r: ApiError)
    ensures
        r.kind == ErrorKind::InternalError,
        r.message == message,
{
    ApiError { kind: ErrorKind::InternalError, message }
}

} // verus!
