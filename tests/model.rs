use verbumdei_api::model::{
    cross_era_bridges, is_allowed_cross_era_bridge, validate_era_collection, Episode, EpisodeDto, EpisodeListItem,
    Era, EraDto, EraListItem, Reference,
};

fn reference(book: &str, chapters: Vec<i32>) -> Reference {
    Reference { book_id: book.to_string(), book: book.to_string(), chapters }
}

fn episode(id: &str, label: &str, references: Vec<Reference>) -> Episode {
    Episode {
        id: id.to_string(),
        name: label.to_string(),
        label: label.to_string(),
        order: 0,
        references,
    }
}

fn era(id: &str, label: &str, books: &[&str], episodes: Vec<Episode>) -> Era {
    Era {
        id: id.to_string(),
        name: label.to_string(),
        label: label.to_string(),
        order: 0,
        era_type: None,
        books: books.iter().map(|b| b.to_string()).collect(),
        episodes,
    }
}

#[test]
fn validates_well_formed_fixture() {
    let eras = vec![era(
        "creation",
        "Creation",
        &["Genesis"],
        vec![episode("world", "World", vec![reference("Genesis", vec![1])])],
    )];
    assert!(validate_era_collection(&eras).is_ok());
}

#[test]
fn rejects_duplicate_episode_ids() {
    let eras = vec![era(
        "e1",
        "Era",
        &["Genesis"],
        vec![
            episode("dup", "A", vec![reference("Genesis", vec![1])]),
            episode("dup", "B", vec![reference("Genesis", vec![2])]),
        ],
    )];
    assert!(validate_era_collection(&eras).is_err());
}

#[test]
fn rejects_unknown_books_without_bridge_rule() {
    let eras = vec![era(
        "e1",
        "Era",
        &["Genesis"],
        vec![episode("ep", "A", vec![reference("Exodus", vec![2])])],
    )];
    assert!(validate_era_collection(&eras).is_err());
}

#[test]
fn allows_configured_cross_era_bridge_reference() {
    let eras = vec![era(
        "gospel",
        "Gospel",
        &["Matthew"],
        vec![episode("resurrection", "Resurrection", vec![reference("Acts", vec![1])])],
    )];
    assert!(validate_era_collection(&eras).is_ok());
}

#[test]
fn era_list_item_counts_episodes() {
    let era = era(
        "creation",
        "Creation",
        &["Genesis"],
        vec![episode("world", "World", vec![]), episode("humanity", "Humanity", vec![])],
    );
    let list_item = EraListItem::from(era);
    assert_eq!(list_item.episode_count, 2);
}

#[test]
fn validation_messages_name_the_offence() {
    let dup = vec![era(
        "e1",
        "Era",
        &["Genesis"],
        vec![episode("dup", "A", vec![]), episode("dup", "B", vec![])],
    )];
    assert_eq!(validate_era_collection(&dup), Err("duplicate episode id 'dup' in era 'e1'".to_string()));
    let unknown = vec![era(
        "e1",
        "Era",
        &["Genesis"],
        vec![episode("ep", "A", vec![reference("Exodus", vec![2])])],
    )];
    assert_eq!(
        validate_era_collection(&unknown),
        Err("reference book 'Exodus' is not in era 'e1' books".to_string())
    );
    assert!(validate_era_collection(&[]).is_ok());
}

#[test]
fn bridge_rule_is_exact() {
    assert_eq!(cross_era_bridges(), vec![("gospel", "resurrection", "Acts")]);
    assert!(is_allowed_cross_era_bridge("gospel", "resurrection", "Acts"));
    assert!(!is_allowed_cross_era_bridge("gospel", "resurrection", "acts"));
    assert!(!is_allowed_cross_era_bridge("exodus", "resurrection", "Acts"));
    let eras = vec![era(
        "gospel",
        "Gospel",
        &["Matthew"],
        vec![episode("passion", "Passion", vec![reference("Acts", vec![1])])],
    )];
    assert!(validate_era_collection(&eras).is_err());
}

#[test]
fn records_keep_fields_and_count() {
    let ep = episode("world", "World", vec![reference("Genesis", vec![1, 2])]);
    let item = EpisodeListItem::from(ep);
    assert_eq!(item.id, "world");
    assert_eq!(item.reference_count, 1);
    let dto = EpisodeDto::from(episode("sinai", "Sinai", vec![reference("Exodus", vec![19, 20])]));
    assert_eq!(dto.references[0].chapters, vec![19, 20]);
    let full = EraDto::from(era(
        "exodus",
        "Exodus",
        &["Exodus"],
        vec![episode("moses", "Moses", vec![]), episode("sinai", "Sinai", vec![])],
    ));
    assert_eq!(full.episodes.len(), 2);
    assert_eq!(full.episodes[1].id, "sinai");
    assert_eq!(full.books, vec!["Exodus".to_string()]);
}
