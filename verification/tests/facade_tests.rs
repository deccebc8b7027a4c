use vocab_flashcards::facade::delete_word_card;
use vocab_flashcards::facade::familiarity_level_is_valid;
use vocab_flashcards::facade::id_is_valid;
use vocab_flashcards::facade::get_all_word_cards;
use vocab_flashcards::facade::get_all_word_cards_simple;
use vocab_flashcards::facade::get_word_card_by_word;
use vocab_flashcards::facade::increment_word_card_seen_count;
use vocab_flashcards::facade::save_word_card;
use vocab_flashcards::facade::test_database_connection;
use vocab_flashcards::facade::update_word_card_familiarity;
use vocab_flashcards::Logger;
use vocab_flashcards::NewWordCard;
use vocab_flashcards::Store;
use vocab_flashcards::StoreError;

fn simple_card(word: &str) -> NewWordCard {
    NewWordCard {
        word: word.to_string(),
        pos: None,
        definition: None,
        pronunciation: None,
        verbs: None,
        familiarity: None,
        seen_count: None,
    }
}

fn full_card() -> NewWordCard {
    NewWordCard {
        word: "apple".to_string(),
        pos: Some("n".to_string()),
        definition: Some("a fruit".to_string()),
        pronunciation: Some("AE-pl".to_string()),
        verbs: Some("apples, appled".to_string()),
        familiarity: Some(2),
        seen_count: Some(3),
    }
}

#[test]
fn empty_store_scans_empty() {
    let mut store = Store::new();
    let mut logger = Logger::new();
    let all = get_all_word_cards(&mut store, &mut logger).unwrap();
    assert!(all.is_empty());
}

#[test]
fn scenario_save_then_fetch_then_save_again() {
    let mut store = Store::new();
    let mut logger = Logger::new();

    let all = get_all_word_cards(&mut store, &mut logger).unwrap();
    assert_eq!(all.len(), 0);

    let card = NewWordCard {
        word: "run".to_string(),
        pos: Some("v".to_string()),
        definition: None,
        pronunciation: None,
        verbs: None,
        familiarity: Some(0),
        seen_count: Some(1),
    };
    save_word_card(&mut store, &mut logger, &card, "t0".to_string()).unwrap();

    let fetched = get_word_card_by_word(&mut store, &mut logger, &"run".to_string())
        .unwrap()
        .unwrap();
    assert_eq!(fetched.word, "run");
    assert_eq!(fetched.pos, Some("v".to_string()));
    assert_eq!(fetched.familiarity, Some(0));
    assert_eq!(fetched.seen_count, Some(1));

    let card2 = NewWordCard {
        word: "run".to_string(),
        pos: Some("n".to_string()),
        definition: Some("ignored on the update path".to_string()),
        pronunciation: None,
        verbs: None,
        familiarity: Some(3),
        seen_count: Some(9),
    };
    save_word_card(&mut store, &mut logger, &card2, "t1".to_string()).unwrap();

    let fetched2 = get_word_card_by_word(&mut store, &mut logger, &"run".to_string())
        .unwrap()
        .unwrap();
    assert_eq!(fetched2.seen_count, Some(2));
    // everything else is unchanged from the first insert
    assert_eq!(fetched2.word, fetched.word);
    assert_eq!(fetched2.id, fetched.id);
    assert_eq!(fetched2.pos, fetched.pos);
    assert_eq!(fetched2.definition, fetched.definition);
    assert_eq!(fetched2.pronunciation, fetched.pronunciation);
    assert_eq!(fetched2.verbs, fetched.verbs);
    assert_eq!(fetched2.familiarity, fetched.familiarity);
    assert_eq!(fetched2.created_at, fetched.created_at);
}

#[test]
fn saving_twice_keeps_one_row_and_bumps_once() {
    let mut store = Store::new();
    let mut logger = Logger::new();
    save_word_card(&mut store, &mut logger, &simple_card("apple"), "t0".to_string()).unwrap();
    save_word_card(&mut store, &mut logger, &simple_card("apple"), "t1".to_string()).unwrap();

    let all = get_all_word_cards(&mut store, &mut logger).unwrap();
    let apples: Vec<_> = all.iter().filter(|c| c.word == "apple").collect();
    assert_eq!(apples.len(), 1);
    assert_eq!(apples[0].seen_count, Some(2));
}

#[test]
fn round_trip_keeps_all_fields_and_populates_id_and_created_at() {
    let mut store = Store::new();
    let mut logger = Logger::new();
    let card = full_card();
    save_word_card(&mut store, &mut logger, &card, "2024-01-01 00:00:00".to_string()).unwrap();

    let fetched = get_word_card_by_word(&mut store, &mut logger, &"apple".to_string())
        .unwrap()
        .unwrap();
    assert_eq!(fetched.word, card.word);
    assert_eq!(fetched.pos, card.pos);
    assert_eq!(fetched.definition, card.definition);
    assert_eq!(fetched.pronunciation, card.pronunciation);
    assert_eq!(fetched.verbs, card.verbs);
    assert_eq!(fetched.familiarity, card.familiarity);
    assert_eq!(fetched.seen_count, card.seen_count);
    assert_eq!(fetched.id, Some(1));
    assert_eq!(fetched.created_at, Some("2024-01-01 00:00:00".to_string()));
}

#[test]
fn counters_left_out_take_schema_defaults() {
    let mut store = Store::new();
    let mut logger = Logger::new();
    save_word_card(&mut store, &mut logger, &simple_card("walk"), "t0".to_string()).unwrap();
    let fetched = get_word_card_by_word(&mut store, &mut logger, &"walk".to_string())
        .unwrap()
        .unwrap();
    assert_eq!(fetched.familiarity, Some(0));
    assert_eq!(fetched.seen_count, Some(1));
    assert_eq!(fetched.pos, None);
}

#[test]
fn update_familiarity_on_missing_id_is_not_found() {
    let mut store = Store::new();
    let mut logger = Logger::new();
    let r = update_word_card_familiarity(&mut store, &mut logger, 999999, 2);
    assert_eq!(r, Err(StoreError::NotFound));
}

#[test]
fn delete_on_missing_id_is_not_found() {
    let mut store = Store::new();
    let mut logger = Logger::new();
    let r = delete_word_card(&mut store, &mut logger, 12345);
    assert_eq!(r, Err(StoreError::NotFound));
}

#[test]
fn increment_on_missing_id_is_not_found() {
    let mut store = Store::new();
    let mut logger = Logger::new();
    let r = increment_word_card_seen_count(&mut store, &mut logger, 7);
    assert_eq!(r, Err(StoreError::NotFound));
}

#[test]
fn out_of_range_familiarity_is_rejected_and_store_untouched() {
    let mut store = Store::new();
    let mut logger = Logger::new();
    save_word_card(&mut store, &mut logger, &simple_card("fern"), "t0".to_string()).unwrap();
    let id = get_word_card_by_word(&mut store, &mut logger, &"fern".to_string())
        .unwrap()
        .unwrap()
        .id
        .unwrap();

    let r = update_word_card_familiarity(&mut store, &mut logger, id, 5);
    assert_eq!(r, Err(StoreError::ValidationError));
    let r = update_word_card_familiarity(&mut store, &mut logger, id, -1);
    assert_eq!(r, Err(StoreError::ValidationError));

    let fetched = get_word_card_by_word(&mut store, &mut logger, &"fern".to_string())
        .unwrap()
        .unwrap();
    assert_eq!(fetched.familiarity, Some(0));
}

#[test]
fn familiarity_update_in_range_sticks() {
    let mut store = Store::new();
    let mut logger = Logger::new();
    save_word_card(&mut store, &mut logger, &simple_card("fern"), "t0".to_string()).unwrap();
    let id = get_word_card_by_word(&mut store, &mut logger, &"fern".to_string())
        .unwrap()
        .unwrap()
        .id
        .unwrap();

    update_word_card_familiarity(&mut store, &mut logger, id, 3).unwrap();
    let fetched = get_word_card_by_word(&mut store, &mut logger, &"fern".to_string())
        .unwrap()
        .unwrap();
    assert_eq!(fetched.familiarity, Some(3));
    // the rest of the row is untouched
    assert_eq!(fetched.seen_count, Some(1));
    assert_eq!(fetched.word, "fern");
}

#[test]
fn nonpositive_ids_are_rejected() {
    let mut store = Store::new();
    let mut logger = Logger::new();
    assert_eq!(
        update_word_card_familiarity(&mut store, &mut logger, 0, 2),
        Err(StoreError::ValidationError)
    );
    assert_eq!(
        delete_word_card(&mut store, &mut logger, -3),
        Err(StoreError::ValidationError)
    );
    assert_eq!(
        increment_word_card_seen_count(&mut store, &mut logger, 0),
        Err(StoreError::ValidationError)
    );
}

#[test]
fn blank_lookup_is_rejected_before_the_store() {
    let mut store = Store::new();
    let mut logger = Logger::new();
    assert!(matches!(
        get_word_card_by_word(&mut store, &mut logger, &"".to_string()),
        Err(StoreError::ValidationError)
    ));
    assert!(matches!(
        get_word_card_by_word(&mut store, &mut logger, &"   \t\n".to_string()),
        Err(StoreError::ValidationError)
    ));
    // the whole Unicode White_Space set counts: no-break space, line
    // separator, ideographic space
    assert!(matches!(
        get_word_card_by_word(&mut store, &mut logger, &"\u{a0}\u{2028}\u{3000}".to_string()),
        Err(StoreError::ValidationError)
    ));
}

#[test]
fn lookup_is_exact_and_never_trimmed() {
    let mut store = Store::new();
    let mut logger = Logger::new();
    save_word_card(&mut store, &mut logger, &simple_card("run"), "t0".to_string()).unwrap();
    // a padded query is not blank, so it reaches the store, but the store
    // matches exactly and finds nothing
    let r = get_word_card_by_word(&mut store, &mut logger, &" run ".to_string()).unwrap();
    assert!(r.is_none());
}

#[test]
fn missing_word_is_none_not_an_error() {
    let mut store = Store::new();
    let mut logger = Logger::new();
    let r = get_word_card_by_word(&mut store, &mut logger, &"missing".to_string()).unwrap();
    assert!(r.is_none());
}

#[test]
fn delete_removes_the_row() {
    let mut store = Store::new();
    let mut logger = Logger::new();
    save_word_card(&mut store, &mut logger, &simple_card("ant"), "t0".to_string()).unwrap();
    save_word_card(&mut store, &mut logger, &simple_card("bee"), "t0".to_string()).unwrap();
    let id = get_word_card_by_word(&mut store, &mut logger, &"ant".to_string())
        .unwrap()
        .unwrap()
        .id
        .unwrap();

    delete_word_card(&mut store, &mut logger, id).unwrap();
    assert!(get_word_card_by_word(&mut store, &mut logger, &"ant".to_string())
        .unwrap()
        .is_none());
    let all = get_all_word_cards(&mut store, &mut logger).unwrap();
    assert_eq!(all.len(), 1);
    assert_eq!(all[0].word, "bee");
    // deleting again reports the absence
    assert_eq!(
        delete_word_card(&mut store, &mut logger, id),
        Err(StoreError::NotFound)
    );
}

#[test]
fn increment_adds_exactly_one() {
    let mut store = Store::new();
    let mut logger = Logger::new();
    save_word_card(&mut store, &mut logger, &simple_card("oak"), "t0".to_string()).unwrap();
    let id = get_word_card_by_word(&mut store, &mut logger, &"oak".to_string())
        .unwrap()
        .unwrap()
        .id
        .unwrap();

    increment_word_card_seen_count(&mut store, &mut logger, id).unwrap();
    increment_word_card_seen_count(&mut store, &mut logger, id).unwrap();
    let fetched = get_word_card_by_word(&mut store, &mut logger, &"oak".to_string())
        .unwrap()
        .unwrap();
    assert_eq!(fetched.seen_count, Some(3));
}

#[test]
fn seen_count_saturates_at_the_column_maximum() {
    let mut store = Store::new();
    let mut logger = Logger::new();
    let mut card = simple_card("max");
    card.seen_count = Some(i32::MAX);
    save_word_card(&mut store, &mut logger, &card, "t0".to_string()).unwrap();
    let id = get_word_card_by_word(&mut store, &mut logger, &"max".to_string())
        .unwrap()
        .unwrap()
        .id
        .unwrap();
    increment_word_card_seen_count(&mut store, &mut logger, id).unwrap();
    let fetched = get_word_card_by_word(&mut store, &mut logger, &"max".to_string())
        .unwrap()
        .unwrap();
    assert_eq!(fetched.seen_count, Some(i32::MAX));
}

#[test]
fn ids_are_assigned_once_and_never_reused() {
    let mut store = Store::new();
    let mut logger = Logger::new();
    save_word_card(&mut store, &mut logger, &simple_card("a"), "t0".to_string()).unwrap();
    save_word_card(&mut store, &mut logger, &simple_card("b"), "t0".to_string()).unwrap();
    delete_word_card(&mut store, &mut logger, 1).unwrap();
    save_word_card(&mut store, &mut logger, &simple_card("c"), "t0".to_string()).unwrap();
    let c = get_word_card_by_word(&mut store, &mut logger, &"c".to_string())
        .unwrap()
        .unwrap();
    assert_eq!(c.id, Some(3));
}

#[test]
fn simple_scan_matches_the_full_scan() {
    let mut store = Store::new();
    let mut logger = Logger::new();
    save_word_card(&mut store, &mut logger, &simple_card("a"), "t0".to_string()).unwrap();
    save_word_card(&mut store, &mut logger, &simple_card("b"), "t0".to_string()).unwrap();
    let all = get_all_word_cards(&mut store, &mut logger).unwrap();
    let simple = get_all_word_cards_simple(&mut store, &mut logger).unwrap();
    assert_eq!(all.len(), simple.len());
    for (x, y) in all.iter().zip(simple.iter()) {
        assert_eq!(x.word, y.word);
        assert_eq!(x.id, y.id);
        assert_eq!(x.seen_count, y.seen_count);
    }
}

#[test]
fn connection_diagnostic_reports_the_row_count() {
    let mut store = Store::new();
    let mut logger = Logger::new();
    let msg = test_database_connection(&mut store, &mut logger).unwrap();
    assert_eq!(msg, "database connection ok, 0 word card records");
    save_word_card(&mut store, &mut logger, &simple_card("a"), "t0".to_string()).unwrap();
    save_word_card(&mut store, &mut logger, &simple_card("b"), "t0".to_string()).unwrap();
    let msg = test_database_connection(&mut store, &mut logger).unwrap();
    assert_eq!(msg, "database connection ok, 2 word card records");
}

#[test]
fn contextual_messages_carry_operation_and_key() {
    assert_eq!(
        StoreError::NotFound.contextual_message("delete_word_card", "42"),
        "delete_word_card: no word card matched the given id (key 42)"
    );
    assert_eq!(
        StoreError::ValidationError.contextual_message("get_word_card_by_word", " "),
        "get_word_card_by_word: invalid input, the store was not touched (key  )"
    );
}

#[test]
fn validators_accept_exactly_the_allowed_inputs() {
    assert!(id_is_valid(1));
    assert!(id_is_valid(i32::MAX));
    assert!(!id_is_valid(0));
    assert!(!id_is_valid(-5));
    assert!(familiarity_level_is_valid(0));
    assert!(familiarity_level_is_valid(3));
    assert!(!familiarity_level_is_valid(-1));
    assert!(!familiarity_level_is_valid(4));
}

#[test]
fn error_messages_name_the_failure() {
    assert_eq!(
        StoreError::ValidationError.message(),
        "invalid input, the store was not touched"
    );
    assert_eq!(StoreError::NotFound.message(), "no word card matched the given id");
    assert_eq!(
        StoreError::DuplicateWord.message(),
        "a word card with this word already exists"
    );
    assert_eq!(StoreError::StoreUnavailable.message(), "the store could not be opened");
    assert_eq!(StoreError::QueryError.message(), "the store reported a fault");
}
