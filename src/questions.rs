use vstd::prelude::*;

use crate::request::{blank, is_blank};
use crate::text::same_text;

verus! {

/// A text in several languages, keyed by language code.
pub struct LocalizedText {
    entries: Vec<(String, String)>,
}

/// The first index at or after `i` whose language is `key` (the length if none).
pub open spec fn text_index(es: Seq<(String, String)>, key: Seq<char>, i: int) -> int
    decreases es.len() - i,
{
    if i < 0 || i >= es.len() {
        es.len() as int
    } else if es[i].0@ == key {
        i
    } else {
        text_index(es, key, i + 1)
    }
}

proof fn lemma_text_index_bounds(es: Seq<(String, String)>, key: Seq<char>, i: int)
    requires
        0 <= i <= es.len(),
    ensures
        i <= text_index(es, key, i) <= es.len(),
        text_index(es, key, i) < es.len() ==> es[text_index(es, key, i)].0@ == key,
    decreases es.len() - i,
{
    if i < es.len() && es[i].0@ != key {
        lemma_text_index_bounds(es, key, i + 1);
    }
}

/// Keys are unchanged where only values change: every lookup stays where it was.
proof fn lemma_text_index_same_keys(
    es: Seq<(String, String)>,
    fs: Seq<(String, String)>,
    key: Seq<char>,
    i: int,
)
    requires
        es.len() == fs.len(),
        forall|j: int| 0 <= j < es.len() ==> (#[trigger] es[j]).0@ == fs[j].0@,
    ensures
        text_index(es, key, i) == text_index(fs, key, i),
    decreases es.len() - i,
{
    if 0 <= i < es.len() && es[i].0@ != key {
        lemma_text_index_same_keys(es, fs, key, i + 1);
    }
}

/// Appending an entry for a key not yet present leaves every other lookup where it was.
proof fn lemma_text_index_push(
    es: Seq<(String, String)>,
    e: (String, String),
    key: Seq<char>,
    i: int,
)
    requires
        0 <= i <= es.len(),
    ensures
        text_index(es, key, i) < es.len() ==> text_index(es.push(e), key, i) == text_index(
            es,
            key,
            i,
        ),
        text_index(es, key, i) == es.len() ==> text_index(es.push(e), key, i) == (if e.0@
            == key {
            es.len() as int
        } else {
            (es.len() + 1) as int
        }),
    decreases es.len() - i,
{
    assert(es.push(e)[i] == if i < es.len() {
        es[i]
    } else {
        e
    });
    if i < es.len() && es[i].0@ != key {
        lemma_text_index_push(es, e, key, i + 1);
    } else if i == es.len() && e.0@ != key {
        assert(text_index(es.push(e), key, i + 1) == es.len() + 1);
    }
}

impl LocalizedText {
    /// The text in the language `key`, if there is one.
    pub closed spec fn text_of(&self, key: Seq<char>) -> Option<Seq<char>> {
        let i = text_index(self.entries@, key, 0);
        if i < self.entries@.len() {
            Some(self.entries@[i].1@)
        } else {
            None
        }
    }

    pub fn new() -> (r: LocalizedText)
        ensures
            forall|k: Seq<char>| r.text_of(k) is None,
    {
        LocalizedText { entries: Vec::new() }
    }

    /// Sets the text in the language `key`, replacing any earlier one.
    pub fn insert(&mut self, key: String, value: String)
        ensures
            final(self).text_of(key@) == Some(value@),
            forall|k: Seq<char>| k != key@ ==> final(self).text_of(k) == old(self).text_of(k),
    {
        let ghost before = self.entries@;
        let mut i: usize = 0;
        while i < self.entries.len()
            invariant
                self.entries@ == before,
                old(self).entries@ == before,
                i <= before.len(),
                text_index(before, key@, 0) == text_index(before, key@, i as int),
            decreases before.len() - i,
        {
            if self.entries[i].0 == key {
                let ghost kv = (key, value);
                self.entries.set(i, (key, value));
                proof {
                    assert(self.entries@ == before.update(i as int, kv));
                    assert forall|j: int| 0 <= j < before.len() implies (
                    #[trigger] self.entries@[j]).0@ == before[j].0@ by {}
                    assert forall|k: Seq<char>| k != key@ implies #[trigger] self.text_of(k)
                        == old(self).text_of(k) by {
                        lemma_text_index_same_keys(self.entries@, before, k, 0);
                        lemma_text_index_bounds(before, k, 0);
                    }
                    lemma_text_index_same_keys(self.entries@, before, key@, 0);
                }
                return;
            }
            i = i + 1;
        }
        let ghost pushed = (key, value);
        self.entries.push((key, value));
        proof {
            lemma_text_index_push(before, pushed, key@, 0);
            assert forall|k: Seq<char>| k != key@ implies #[trigger] self.text_of(k)
                == old(self).text_of(k) by {
                lemma_text_index_push(before, pushed, k, 0);
                lemma_text_index_bounds(before, k, 0);
            }
        }
    }

    /// The text in the language `key`, if there is one.
    pub fn get(&self, key: &str) -> (r: Option<&String>)
        ensures
            r matches Some(s) ==> self.text_of(key@) == Some(s@),
            r is None <==> self.text_of(key@) is None,
    {
        let mut i: usize = 0;
        while i < self.entries.len()
            invariant
                i <= self.entries@.len(),
                text_index(self.entries@, key@, 0) == text_index(self.entries@, key@, i as int),
            decreases self.entries@.len() - i,
        {
            if same_text(self.entries[i].0.as_str(), key) {
                return Some(&self.entries[i].1);
            }
            i = i + 1;
        }
        None
    }

    /// The languages and their texts, in the order they were first set.
    pub fn entries(&self) -> (r: &Vec<(String, String)>) {
        &self.entries
    }
}

/// One answer of a question.
pub struct OptionItem {
    pub text: LocalizedText,
    pub correct: bool,
    pub explanation: Option<LocalizedText>,
}

/// A question as a client submits it.
pub struct CreateQuestion {
    pub stage: i32,
    pub stage_label: Option<LocalizedText>,
    pub prompt: LocalizedText,
    pub options: Vec<OptionItem>,
    pub tags: Vec<String>,
    pub image_url: Option<String>,
}

/// One answer of a question, as it is returned.
pub struct OptionDto {
    pub text: LocalizedText,
    pub correct: bool,
    pub explanation: Option<LocalizedText>,
}

/// A stored question, as it is returned.
pub struct QuestionDto {
    pub id: String,
    pub stage: i32,
    pub stage_label: Option<LocalizedText>,
    pub prompt: LocalizedText,
    pub options: Vec<OptionDto>,
    pub tags: Vec<String>,
    pub image_url: Option<String>,
    pub created_at: String,
    pub updated_at: String,
}

/// A page of questions.
pub struct QuestionsList {
    pub items: Vec<QuestionDto>,
}

/// Query values of a question listing.
pub struct ListQuery {
    pub stage: Option<i32>,
    pub limit: Option<u64>,
    pub offset: Option<u64>,
}

impl ListQuery {
    /// The page asked for: at most 100 items, 50 unless a limit is given, from
    /// `offset` (0 unless given).
    pub fn page(&self) -> (r: (i64, u64))
        ensures
            r.0 == (match self.limit {
                Some(l) => if l < 100 {
                    l
                } else {
                    100
                },
                None => 50,
            }),
            r.1 == (match self.offset {
                Some(o) => o,
                None => 0,
            }),
    {
        let limit: u64 = match self.limit {
            Some(l) => if l < 100 {
                l
            } else {
                100
            },
            None => 50,
        };
        let offset: u64 = match self.offset {
            Some(o) => o,
            None => 0,
        };
        (limit as i64, offset)
    }
}

impl From<OptionItem> for OptionDto {
    fn from(o: OptionItem) -> (r: OptionDto) {
        OptionDto { text: o.text, correct: o.correct, explanation: o.explanation }
    }
}

impl vstd::std_specs::convert::FromSpecImpl<OptionItem> for OptionDto {
    open spec fn obeys_from_spec() -> bool {
        true
    }

    open spec fn from_spec(o: OptionItem) -> OptionDto {
        OptionDto { text: o.text, correct: o.correct, explanation: o.explanation }
    }
}

/// A language that every localized text must hold, with some text that is not blank.
pub open spec fn has_text(t: LocalizedText, code: Seq<char>) -> bool {
    t.text_of(code) matches Some(v) && !is_blank(v)
}

pub open spec fn localized_complete(t: LocalizedText) -> bool {
    has_text(t, "en"@) && has_text(t, "es"@) && has_text(t, "pt"@)
}

/// The message for a localized text that lacks a required language, by field.
pub open spec fn missing_locale_message(field: Seq<char>) -> Seq<char> {
    if field == "prompt"@ {
        "prompt requires en, es, and pt"@
    } else if field == "stage_label"@ {
        "stage_label requires en, es, and pt"@
    } else if field == "option text"@ {
        "option text requires en, es, and pt"@
    } else if field == "option explanation"@ {
        "option explanation requires en, es, and pt"@
    } else {
        "all locales must be provided"@
    }
}

fn missing_locale(field: &str) -> (r: &'static str)
    ensures
        r@ == missing_locale_message(field@),
{
    if same_text(field, "prompt") {
        "prompt requires en, es, and pt"
    } else if same_text(field, "stage_label") {
        "stage_label requires en, es, and pt"
    } else if same_text(field, "option text") {
        "option text requires en, es, and pt"
    } else if same_text(field, "option explanation") {
        "option explanation requires en, es, and pt"
    } else {
        "all locales must be provided"
    }
}

fn text_present(text: &LocalizedText, code: &str) -> (r: bool)
    ensures
        r == has_text(*text, code@),
{
    match text.get(code) {
        Some(v) => !blank(v.as_str()),
        None => false,
    }
}

/// A localized text must hold a non-blank text in English, Spanish and Portuguese.
pub fn validate_localized(text: &LocalizedText, field: &str) -> (r: Result<(), &'static str>)
    ensures
        r is Ok <==> localized_complete(*text),
        r matches Err(m) ==> m@ == missing_locale_message(field@),
{
    if text_present(text, "en") && text_present(text, "es") && text_present(text, "pt") {
        Ok(())
    } else {
        Err(missing_locale(field))
    }
}

/// How many of the options are marked correct.
pub open spec fn correct_count(os: Seq<OptionItem>) -> nat
    decreases os.len(),
{
    if os.len() == 0 {
        0
    } else {
        correct_count(os.drop_last()) + if os.last().correct {
            1nat
        } else {
            0nat
        }
    }
}

/// What is wrong with one option, if anything: its text first, then its explanation.
pub open spec fn option_error(o: OptionItem) -> Option<Seq<char>> {
    if !localized_complete(o.text) {
        Some(missing_locale_message("option text"@))
    } else if o.explanation matches Some(e) && !localized_complete(e) {
        Some(missing_locale_message("option explanation"@))
    } else {
        None
    }
}

/// What is wrong with the first faulty option at or after `i`, if any.
pub open spec fn options_error(os: Seq<OptionItem>, i: int) -> Option<Seq<char>>
    decreases os.len() - i,
{
    if i < 0 || i >= os.len() {
        None
    } else if option_error(os[i]) is Some {
        option_error(os[i])
    } else {
        options_error(os, i + 1)
    }
}

/// What is wrong with a submitted question, checked in order: the prompt, the stage
/// label, the number of options, the number of correct ones, then each option.
pub open spec fn question_error(q: CreateQuestion) -> Option<Seq<char>> {
    if !localized_complete(q.prompt) {
        Some(missing_locale_message("prompt"@))
    } else if q.stage_label matches Some(l) && !localized_complete(l) {
        Some(missing_locale_message("stage_label"@))
    } else if q.options@.len() != 4 {
        Some("exactly four options are required"@)
    } else if correct_count(q.options@) != 1 {
        Some("exactly one option must be marked correct"@)
    } else {
        options_error(q.options@, 0)
    }
}

/// Checks a submitted question: every text in all required languages, exactly four
/// options, exactly one of them correct.
pub fn validate_create_question(payload: &CreateQuestion) -> (r: Result<(), &'static str>)
    ensures
        r is Ok <==> question_error(*payload) is None,
        r matches Err(m) ==> question_error(*payload) == Some(m@),
{
    validate_localized(&payload.prompt, "prompt")?;
    if let Some(label) = &payload.stage_label {
        validate_localized(label, "stage_label")?;
    }
    if payload.options.len() != 4 {
        return Err("exactly four options are required");
    }
    let mut count: usize = 0;
    let mut i: usize = 0;
    while i < payload.options.len()
        invariant
            i <= payload.options@.len() == 4,
            count == correct_count(payload.options@.subrange(0, i as int)),
            count <= i,
        decreases payload.options@.len() - i,
    {
        assert(payload.options@.subrange(0, i + 1).drop_last() =~= payload.options@.subrange(
            0,
            i as int,
        ));
        if payload.options[i].correct {
            count = count + 1;
        }
        i = i + 1;
    }
    assert(payload.options@.subrange(0, 4) =~= payload.options@);
    if count != 1 {
        return Err("exactly one option must be marked correct");
    }
    let mut j: usize = 0;
    while j < payload.options.len()
        invariant
            j <= payload.options@.len() == 4,
            question_error(*payload) == options_error(payload.options@, j as int),
        decreases payload.options@.len() - j,
    {
        let opt = &payload.options[j];
        validate_localized(&opt.text, "option text")?;
        if let Some(expl) = &opt.explanation {
            validate_localized(expl, "option explanation")?;
        }
        j = j + 1;
    }
    Ok(())
}

} // verus!
