use verbumdei_api::book_search::book_search_pipeline;
use verbumdei_api::lang::resolve_lang;
use verbumdei_api::parse::{episodes_for_lang, parse_era, parse_references};
use verbumdei_api::projection::{episodes_projection, era_projection, list_eras_projection};
use verbumdei_api::queries::{
    episode_search_results, find_episode_for_era, find_era_by_id, list_episodes_for_era,
    list_eras, EpisodeLookup,
};
use verbumdei_api::request::{
    check_episode_path, check_era_id, episode_found, era_found, search_book, store_failure,
    ErrorKind,
};
use verbumdei_api::value::{get_number, get_string, Document, Value};

fn s(x: &str) -> Value {
    Value::Str(x.to_string())
}

fn d(fields: Vec<(&str, Value)>) -> Document {
    let mut doc = Document::new();
    for (k, v) in fields {
        doc.insert(k.to_string(), v);
    }
    doc
}

fn reference(book_id: &str, book: &str, chapters: Vec<i32>) -> Value {
    Value::Document(d(vec![
        ("book_id", s(book_id)),
        ("book", s(book)),
        ("chapters", Value::Array(chapters.into_iter().map(Value::Int32).collect())),
    ]))
}

fn episode(id: &str, name: &str, order: i32, refs: Vec<Value>) -> Value {
    Value::Document(d(vec![
        ("id", s(id)),
        ("name", s(name)),
        ("label", s(name)),
        ("order", Value::Int32(order)),
        ("references", Value::Array(refs)),
    ]))
}

fn block(name: &str, order: i32, books: &[&str], episodes: Vec<Value>) -> Value {
    Value::Document(d(vec![
        ("name", s(name)),
        ("label", s(name)),
        ("order", Value::Int32(order)),
        ("books", Value::Array(books.iter().map(|b| s(b)).collect())),
        ("episodes", Value::Array(episodes)),
    ]))
}

fn creation() -> Document {
    d(vec![
        ("_id", s("creation")),
        (
            "en",
            block("Creation", 10, &["Genesis"], vec![episode(
                "world",
                "World",
                10,
                vec![reference("Genesis", "Genesis", vec![1])],
            )]),
        ),
        (
            "es",
            block("Creación", 10, &["Génesis"], vec![episode(
                "world",
                "Mundo",
                10,
                vec![reference("Genesis", "Génesis", vec![1])],
            )]),
        ),
        (
            "sv",
            block("Skapelsen", 10, &["Första Mosebok"], vec![episode(
                "world",
                "Världen",
                10,
                vec![reference("Genesis", "Första Mosebok", vec![1])],
            )]),
        ),
    ])
}

fn exodus() -> Document {
    d(vec![
        ("_id", s("exodus")),
        (
            "en",
            block("Exodus", 20, &["Exodus"], vec![
                episode("moses", "Moses", 10, vec![reference("Exodus", "Exodus", vec![3])]),
                episode("sinai", "Sinai", 20, vec![reference("Exodus", "Exodus", vec![19, 20])]),
            ]),
        ),
        (
            "sv",
            block("Exodus", 20, &["Andra Mosebok"], vec![
                episode("moses", "Mose", 10, vec![reference("Exodus", "Andra Mosebok", vec![3])]),
                episode(
                    "sinai",
                    "Sinai",
                    20,
                    vec![reference("Exodus", "Andra Mosebok", vec![19, 20])],
                ),
            ]),
        ),
    ])
}

fn search_row(era_id: &str, era_label: &str, id: &str, label: &str) -> Document {
    d(vec![
        ("era_id", s(era_id)),
        ("era_label", s(era_label)),
        ("id", s(id)),
        ("label", s(label)),
    ])
}

fn keys(doc: &Document) -> Vec<String> {
    doc.entries.iter().map(|(k, _)| k.clone()).collect()
}

#[test]
fn eras_endpoints_return_seeded_data() {
    let eras = list_eras(&vec![creation(), exodus()], "en");
    assert_eq!(eras.len(), 2);
    assert_eq!(eras[0].name, "Creation");
    assert_eq!(eras[0].order, 10);
    let era = find_era_by_id(Some(&creation()), "en").unwrap();
    assert_eq!(era.id, "creation");
    assert_eq!(era.name, "Creation");
    let episodes = list_episodes_for_era(Some(&creation()), "en").unwrap();
    assert_eq!(episodes.len(), 1);
    assert_eq!(episodes[0].id, "world");
    assert_eq!(episodes[0].name, "World");
    assert_eq!(episodes[0].order, 10);
}

#[test]
fn eras_endpoints_resolve_lang_from_query_and_header() {
    let es = resolve_lang(Some("es"), None);
    let eras = list_eras(&vec![creation(), exodus()], &es);
    assert_eq!(eras[0].name, "Creación");
    let sv = resolve_lang(None, Some("fr-FR, sv-SE;q=0.9, en;q=0.8"));
    match find_episode_for_era(Some(&exodus()), "sinai", &sv) {
        EpisodeLookup::Found(ep) => {
            assert_eq!(ep.name, "Sinai");
            assert_eq!(ep.references[0].book, "Andra Mosebok");
        },
        _ => panic!("episode expected"),
    }
    let fallback = resolve_lang(Some("de"), None);
    assert_eq!(find_era_by_id(Some(&exodus()), &fallback).unwrap().name, "Exodus");
}

#[test]
fn episodes_search_requires_book_and_filters_by_book() {
    let missing = search_book(None).err().unwrap();
    assert_eq!(missing.kind, ErrorKind::BadRequest);
    let book = search_book(Some("Genesis")).ok().unwrap();
    let pipeline = book_search_pipeline(&book, "en");
    assert_eq!(pipeline.len(), 6);
    let found = episode_search_results(&vec![search_row("creation", "Creation", "world", "World")]);
    assert_eq!(found.len(), 1);
    assert_eq!(found[0].id, "world");
}

#[test]
fn seeded_eras_scenario() {
    let eras = list_eras(&vec![creation(), exodus()], "en");
    let ids: Vec<&str> = eras.iter().map(|e| e.id.as_str()).collect();
    assert_eq!(ids, vec!["creation", "exodus"]);
    assert_eq!(find_era_by_id(Some(&creation()), "en").unwrap().id, "creation");
    assert_eq!(search_book(None).err().unwrap().message, "book query parameter is required");
    assert_eq!(
        search_book(Some("   ")).err().unwrap().message,
        "book query parameter must not be empty"
    );
    let results = episode_search_results(&vec![search_row("creation", "Creation", "world", "World")]);
    assert_eq!(results.len(), 1);
    assert_eq!(results[0].id, "world");
    assert_eq!(results[0].era_id, "creation");
    assert_eq!(results[0].era_label, "Creation");
}

#[test]
fn each_locale_shows_its_own_book_names() {
    for (lang, book) in [("en", "Genesis"), ("es", "Génesis"), ("sv", "Första Mosebok")] {
        match find_episode_for_era(Some(&creation()), "world", lang) {
            EpisodeLookup::Found(ep) => assert_eq!(ep.references[0].book, book),
            _ => panic!("episode expected"),
        }
    }
}

#[test]
fn missing_locale_block_reads_empty() {
    let era = find_era_by_id(Some(&exodus()), "es").unwrap();
    assert_eq!(era.id, "exodus");
    assert_eq!(era.name, "");
    assert_eq!(era.label, "");
    assert!(era.episodes.is_empty());
    assert!(era.books.is_empty());
    assert_eq!(list_eras(&vec![exodus()], "pt")[0].episode_count, 0);
}

#[test]
fn lookup_keeps_era_and_episode_absence_apart() {
    assert!(matches!(find_episode_for_era(None, "sinai", "en"), EpisodeLookup::EraNotFound));
    assert!(matches!(
        find_episode_for_era(Some(&exodus()), "golgotha", "en"),
        EpisodeLookup::EpisodeNotFound
    ));
    let era_err = episode_found(find_episode_for_era(None, "sinai", "en")).err().unwrap();
    let ep_err =
        episode_found(find_episode_for_era(Some(&exodus()), "golgotha", "en")).err().unwrap();
    assert_eq!(era_err.kind, ErrorKind::NotFound);
    assert_eq!(ep_err.kind, ErrorKind::NotFound);
    assert_eq!(era_err.message, "Era not found");
    assert_eq!(ep_err.message, "Episode not found under era");
    assert!(list_episodes_for_era(None, "en").is_none());
    assert!(find_era_by_id(None, "en").is_none());
    assert_eq!(era_found(None).err().unwrap().message, "Era not found");
}

#[test]
fn repeated_search_parses_identically() {
    let rows = vec![
        search_row("creation", "Creation", "world", "World"),
        search_row("exodus", "Exodus", "moses", "Moses"),
    ];
    let first = episode_search_results(&rows);
    let second = episode_search_results(&rows);
    assert_eq!(first.len(), second.len());
    for (a, b) in first.iter().zip(second.iter()) {
        assert_eq!((&a.era_id, &a.id, &a.label), (&b.era_id, &b.id, &b.label));
    }
    assert_eq!(first[1].id, "moses");
}

#[test]
fn flat_documents_read_from_the_top_level() {
    let flat = d(vec![
        ("_id", s("kings")),
        ("type", s("history")),
        ("name", s("Kings")),
        ("label", s("The Kings")),
        ("order", Value::Int64(30)),
        ("books", Value::Array(vec![s("1 Kings"), Value::Int32(2), s("2 Kings")])),
        ("episodes", Value::Array(vec![episode("david", "David", 1, vec![])])),
    ]);
    let era = parse_era(&flat, "sv");
    assert_eq!(era.name, "Kings");
    assert_eq!(era.label, "The Kings");
    assert_eq!(era.order, 30);
    assert_eq!(era.era_type, Some("history".to_string()));
    assert_eq!(era.books, vec!["1 Kings".to_string(), "2 Kings".to_string()]);
    assert_eq!(era.episodes.len(), 1);
    assert_eq!(era.episodes[0].id, "david");
}

#[test]
fn tolerant_field_reads() {
    let rough = d(vec![
        ("id", Value::Null),
        ("name", Value::Int32(5)),
        ("order", Value::Double(7)),
        (
            "references",
            Value::Array(vec![
                s("not a document"),
                Value::Document(d(vec![
                    ("book", s("Psalms")),
                    (
                        "chapters",
                        Value::Array(vec![
                            Value::Int32(23),
                            Value::Int64(4_294_967_297),
                            Value::Double(-3),
                            s("x"),
                            Value::Bool(true),
                        ]),
                    ),
                ])),
                Value::Int32(1),
            ]),
        ),
    ]);
    assert_eq!(get_string(&rough, "id"), "");
    assert_eq!(get_string(&rough, "name"), "");
    assert_eq!(get_string(&rough, "missing"), "");
    assert_eq!(get_number(&rough, "order"), 7);
    assert_eq!(get_number(&rough, "name"), 5);
    assert_eq!(get_number(&rough, "id"), 0);
    assert_eq!(get_number(&rough, "references"), 0);
    let refs = parse_references(&rough);
    assert_eq!(refs.len(), 1);
    assert_eq!(refs[0].book, "Psalms");
    assert_eq!(refs[0].book_id, "");
    assert_eq!(refs[0].chapters, vec![23, 1, -3, 0, 0]);
}

#[test]
fn first_field_of_a_name_wins() {
    let doc = d(vec![("_id", s("a")), ("_id", s("b"))]);
    assert_eq!(get_string(&doc, "_id"), "a");
    assert!(episodes_for_lang(&doc, "en").is_empty());
}

#[test]
fn projections_name_their_fields() {
    assert_eq!(
        keys(&list_eras_projection("es")),
        vec!["_id", "type", "es.name", "es.label", "es.order", "es.episodes", "name", "label", "order", "episodes"]
    );
    assert_eq!(
        keys(&era_projection("pt")),
        vec!["_id", "type", "pt", "name", "label", "order", "books", "episodes"]
    );
    assert_eq!(keys(&episodes_projection("sv")), vec!["sv.episodes", "episodes"]);
    assert!(list_eras_projection("en").entries.iter().all(|(_, v)| matches!(v, Value::Int32(1))));
}

#[test]
fn book_search_pipeline_stages() {
    let p = book_search_pipeline("Exodus", "sv");
    let stage_names: Vec<String> = p.iter().map(|st| st.entries[0].0.clone()).collect();
    assert_eq!(stage_names, vec!["$unwind", "$unwind", "$match", "$group", "$project", "$sort"]);
    assert!(matches!(&p[0].entries[0].1, Value::Str(x) if x == "$sv.episodes"));
    assert!(matches!(&p[1].entries[0].1, Value::Str(x) if x == "$sv.episodes.references"));
    let Value::Document(m) = &p[2].entries[0].1 else { panic!("match stage") };
    let Value::Array(alts) = &m.entries[0].1 else { panic!("or list") };
    let Value::Document(by_id) = &alts[0] else { panic!("filter") };
    assert_eq!(by_id.entries[0].0, "sv.episodes.references.book_id");
    assert!(matches!(&by_id.entries[0].1, Value::Str(x) if x == "Exodus"));
    let Value::Document(by_name) = &alts[1] else { panic!("filter") };
    assert_eq!(by_name.entries[0].0, "sv.episodes.references.book");
    let Value::Document(g) = &p[3].entries[0].1 else { panic!("group stage") };
    assert_eq!(keys(g), vec!["_id", "era_label", "episode_label"]);
    let Value::Document(sort) = &p[5].entries[0].1 else { panic!("sort stage") };
    assert_eq!(keys(sort), vec!["era_id", "id"]);
}

#[test]
fn path_and_book_checks() {
    assert!(check_era_id("creation").is_ok());
    assert_eq!(check_era_id(" \t").err().unwrap().message, "eraId must not be empty");
    assert_eq!(check_episode_path("", "").err().unwrap().message, "eraId must not be empty");
    assert_eq!(check_episode_path("exodus", " ").err().unwrap().message, "episodeId must not be empty");
    assert!(check_episode_path("exodus", "sinai").is_ok());
    assert_eq!(search_book(Some("  Genesis ")).ok().unwrap(), "Genesis");
    assert_eq!(ErrorKind::BadRequest.name(), "BadRequest");
    assert_eq!(ErrorKind::NotFound.name(), "NotFound");
    let failure = store_failure("failed to list eras");
    assert_eq!(failure.kind.name(), "InternalError");
    assert_eq!(failure.message, "failed to list eras");
}
