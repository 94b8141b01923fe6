use verbumdei_api::questions::{
    validate_create_question, validate_localized, CreateQuestion, ListQuery, LocalizedText,
    OptionDto, OptionItem,
};

fn localized(en: &str, es: &str, pt: &str) -> LocalizedText {
    let mut t = LocalizedText::new();
    t.insert("en".into(), en.into());
    t.insert("es".into(), es.into());
    t.insert("pt".into(), pt.into());
    t
}

fn valid_question() -> CreateQuestion {
    CreateQuestion {
        stage: 1,
        stage_label: Some(localized("Stage", "Etapa", "Etapa")),
        prompt: localized("Prompt", "Pregunta", "Pergunta"),
        options: vec![
            OptionItem { text: localized("A", "A", "A"), correct: true, explanation: None },
            OptionItem {
                text: localized("B", "B", "B"),
                correct: false,
                explanation: Some(localized("because", "porque", "porque")),
            },
            OptionItem { text: localized("C", "C", "C"), correct: false, explanation: None },
            OptionItem { text: localized("D", "D", "D"), correct: false, explanation: None },
        ],
        tags: vec!["tag".to_string()],
        image_url: None,
    }
}

#[test]
fn accepts_valid_question() {
    let q = valid_question();
    assert!(validate_create_question(&q).is_ok());
}

#[test]
fn rejects_wrong_option_count() {
    let mut q = valid_question();
    q.options.pop();
    assert!(validate_create_question(&q).is_err());
}

#[test]
fn rejects_empty_prompt() {
    let mut q = valid_question();
    q.prompt.insert("en".into(), "   ".into());
    assert!(validate_create_question(&q).is_err());
}

#[test]
fn rejects_multiple_correct() {
    let mut q = valid_question();
    q.options[1].correct = true;
    assert!(validate_create_question(&q).is_err());
}

#[test]
fn rejects_no_correct() {
    let mut q = valid_question();
    q.options.iter_mut().for_each(|o| o.correct = false);
    assert!(validate_create_question(&q).is_err());
}

#[test]
fn rejects_empty_option_text() {
    let mut q = valid_question();
    q.options[0].text.insert("en".into(), "   ".into());
    assert!(validate_create_question(&q).is_err());
}

#[test]
fn validate_localized_requires_all_locales() {
    let mut lt = LocalizedText::new();
    lt.insert("en".into(), "a".into());
    lt.insert("es".into(), "b".into());
    lt.insert("pt".into(), "c".into());
    assert!(validate_localized(&lt, "prompt").is_ok());
    lt.insert("es".into(), "".into());
    assert!(validate_localized(&lt, "prompt").is_err());
}

#[test]
fn question_errors_come_in_order_with_their_messages() {
    let mut q = valid_question();
    q.options.pop();
    assert_eq!(validate_create_question(&q), Err("exactly four options are required"));
    let mut q = valid_question();
    q.options[2].correct = true;
    assert_eq!(validate_create_question(&q), Err("exactly one option must be marked correct"));
    let mut q = valid_question();
    q.prompt = localized("Prompt", "", "Pergunta");
    q.options.pop();
    assert_eq!(validate_create_question(&q), Err("prompt requires en, es, and pt"));
    let mut q = valid_question();
    q.stage_label = Some(LocalizedText::new());
    assert_eq!(validate_create_question(&q), Err("stage_label requires en, es, and pt"));
    let mut q = valid_question();
    q.options[3].explanation = Some(localized("x", "y", " \t"));
    assert_eq!(validate_create_question(&q), Err("option explanation requires en, es, and pt"));
    let mut q = valid_question();
    q.options[0].text = localized("", "A", "A");
    assert_eq!(validate_create_question(&q), Err("option text requires en, es, and pt"));
}

#[test]
fn unknown_field_gets_the_generic_message() {
    assert_eq!(validate_localized(&LocalizedText::new(), "title"), Err("all locales must be provided"));
}

#[test]
fn localized_text_insert_replaces() {
    let mut t = LocalizedText::new();
    assert!(t.get("en").is_none());
    t.insert("en".into(), "one".into());
    t.insert("es".into(), "uno".into());
    t.insert("en".into(), "two".into());
    assert_eq!(t.get("en").map(|s| s.as_str()), Some("two"));
    assert_eq!(t.get("es").map(|s| s.as_str()), Some("uno"));
    assert!(t.get("pt").is_none());
    assert_eq!(t.entries().len(), 2);
}

#[test]
fn list_query_pages_are_capped() {
    let q = ListQuery { stage: None, limit: None, offset: None };
    assert_eq!(q.page(), (50, 0));
    let q = ListQuery { stage: Some(2), limit: Some(500), offset: Some(20) };
    assert_eq!(q.page(), (100, 20));
    let q = ListQuery { stage: None, limit: Some(7), offset: None };
    assert_eq!(q.page(), (7, 0));
}

#[test]
fn option_record_keeps_fields() {
    let dto = OptionDto::from(OptionItem {
        text: localized("A", "B", "C"),
        correct: true,
        explanation: None,
    });
    assert!(dto.correct);
    assert_eq!(dto.text.get("es").map(|s| s.as_str()), Some("B"));
}
