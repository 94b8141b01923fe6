use vstd::prelude::*;

use crate::text::{
    before, before_char, chars_of, lower, lower_chars, slice_of, split, split_from, trim,
    trim_chars,
};

verus! {

/// The display languages the content is kept in.
pub open spec fn is_supported(t: Seq<char>) -> bool {
    t == seq!['e', 'n'] || t == seq!['e', 's'] || t == seq!['p', 't'] || t == seq!['s', 'v']
}

/// The language that no signal selects.
pub open spec fn default_lang() -> Seq<char> {
    seq!['e', 'n']
}

/// A language tag reduced to its primary subtag, lower-cased, where that is supported.
pub open spec fn normalize_tag(s: Seq<char>) -> Option<Seq<char>> {
    let t = lower(before(trim(s), '-'));
    if is_supported(t) {
        Some(t)
    } else {
        None
    }
}

/// The language of one `Accept-Language` entry: its parameters after `;` are ignored.
pub open spec fn entry_tag(part: Seq<char>) -> Option<Seq<char>> {
    normalize_tag(before(trim(part), ';'))
}

/// The language of the first entry, in listed order, that names a supported one.
pub open spec fn first_supported(parts: Seq<Seq<char>>) -> Option<Seq<char>>
    decreases parts.len(),
{
    if parts.len() == 0 {
        None
    } else {
        match entry_tag(parts[0]) {
            Some(t) => Some(t),
            None => first_supported(parts.drop_first()),
        }
    }
}

proof fn lemma_first_supported_is_supported(parts: Seq<Seq<char>>)
    ensures
        first_supported(parts) matches Some(t) ==> is_supported(t),
    decreases parts.len(),
{
    if parts.len() > 0 && entry_tag(parts[0]) is None {
        lemma_first_supported_is_supported(parts.drop_first());
    }
}

/// What an `Accept-Language` value selects; quality weights play no part.
pub open spec fn accept_language_tag(h: Seq<char>) -> Option<Seq<char>> {
    first_supported(split(h, ','))
}

pub open spec fn str_opt_view(o: Option<&str>) -> Option<Seq<char>> {
    match o {
        Some(s) => Some(s@),
        None => None,
    }
}

/// The effective language: the query's when it names a supported one, else the
/// header's, else the default.
pub open spec fn resolved(q: Option<Seq<char>>, h: Option<Seq<char>>) -> Seq<char> {
    let from_query = match q {
        Some(s) => normalize_tag(s),
        None => None,
    };
    let from_header = match h {
        Some(s) => accept_language_tag(s),
        None => None,
    };
    if from_query is Some {
        from_query->0
    } else if from_header is Some {
        from_header->0
    } else {
        default_lang()
    }
}

/// The supported code that `t` is exactly, if any.
fn code_of(t: &Vec<char>) -> (r: Option<&'static str>)
    ensures
        r is Some <==> is_supported(t@),
        r is Some ==> r->0@ == t@,
{
    proof {
        reveal_strlit("en");
        reveal_strlit("es");
        reveal_strlit("pt");
        reveal_strlit("sv");
    }
    if t.len() != 2 {
        return None;
    }
    let (a, b) = (t[0], t[1]);
    assert(t@ =~= seq![a, b]);
    if a == 'e' && b == 'n' {
        Some("en")
    } else if a == 'e' && b == 's' {
        Some("es")
    } else if a == 'p' && b == 't' {
        Some("pt")
    } else if a == 's' && b == 'v' {
        Some("sv")
    } else {
        None
    }
}

fn normalize_chars(v: &Vec<char>) -> (r: Option<&'static str>)
    ensures
        str_opt_view(r) == normalize_tag(v@),
{
    let t = lower_chars(&before_char(&trim_chars(v), '-'));
    code_of(&t)
}

/// Reduces a language tag to its supported primary language (`"sv-SE"` gives `"sv"`).
pub fn normalize_lang(value: &str) -> (r: Option<&'static str>)
    ensures
        str_opt_view(r) == normalize_tag(value@),
{
    normalize_chars(&chars_of(value))
}

pub fn is_supported_lang(value: &str) -> (r: bool)
    ensures
        r == is_supported(value@),
{
    code_of(&chars_of(value)).is_some()
}

/// Picks the first entry of an `Accept-Language` value that names a supported language.
pub fn resolve_from_accept_language(value: &str) -> (r: Option<&'static str>)
    ensures
        str_opt_view(r) == accept_language_tag(value@),
{
    let h = chars_of(value);
    let mut start: usize = 0;
    let mut i: usize = 0;
    loop
        invariant
            start <= i <= h@.len(),
            accept_language_tag(value@) == first_supported(split_from(h@, ',', start as int, i as int)),
            h@ == value@,
        decreases h@.len() - i,
    {
        if i == h.len() || h[i] == ',' {
            let part = slice_of(&h, start, i);
            let tag = normalize_chars(&before_char(&trim_chars(&part), ';'));
            let ghost rest = if i == h.len() {
                Seq::<Seq<char>>::empty()
            } else {
                split_from(h@, ',', i + 1, i + 1)
            };
            assert(split_from(h@, ',', start as int, i as int) =~= seq![part@] + rest);
            assert((seq![part@] + rest).drop_first() =~= rest);
            if tag.is_some() {
                return tag;
            }
            if i == h.len() {
                assert(first_supported(rest) is None);
                return None;
            }
            start = i + 1;
        }
        i = i + 1;
    }
}

/// The language a request is served in, from its `lang` query value and its
/// `Accept-Language` header.
pub fn resolve_lang(query_lang: Option<&str>, accept_language: Option<&str>) -> (r: String)
    ensures
        r@ == resolved(str_opt_view(query_lang), str_opt_view(accept_language)),
        is_supported(r@),
{
    proof {
        reveal_strlit("en");
    }
    if let Some(q) = query_lang {
        if let Some(lang) = normalize_lang(q) {
            return lang.to_owned();
        }
    }
    if let Some(h) = accept_language {
        proof {
            lemma_first_supported_is_supported(split(h@, ','));
        }
        if let Some(lang) = resolve_from_accept_language(h) {
            return lang.to_owned();
        }
    }
    assert("en"@ =~= default_lang());
    "en".to_owned()
}

/// A `lang` query value that names a supported language decides, whatever the
/// `Accept-Language` header says.
pub proof fn lemma_query_outranks_header(q: Seq<char>, h: Option<Seq<char>>)
    requires
        normalize_tag(q) is Some,
    ensures
        resolved(Some(q), h) == normalize_tag(q)->0,
{
}

} // verus!
