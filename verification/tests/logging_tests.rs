use vocab_flashcards::facade::get_word_card_by_word;
use vocab_flashcards::facade::save_word_card;
use vocab_flashcards::facade::update_word_card_familiarity;
use vocab_flashcards::logging::get_current_log_file;
use vocab_flashcards::logging::get_log_directory;
use vocab_flashcards::logging::init_logging;
use vocab_flashcards::logging::init_logging_with_config;
use vocab_flashcards::logging::log_retention_cutoff;
use vocab_flashcards::LogConfig;
use vocab_flashcards::LogLevel;
use vocab_flashcards::LogRotation;
use vocab_flashcards::Logger;
use vocab_flashcards::NewWordCard;
use vocab_flashcards::Store;

fn simple_card(word: &str) -> NewWordCard {
    NewWordCard {
        word: word.to_string(),
        pos: None,
        definition: None,
        pronunciation: None,
        verbs: None,
        familiarity: None,
        seen_count: None,
    }
}

#[test]
fn test_log_config_default() {
    let config = LogConfig::default();
    assert_eq!(config.file_name_prefix, "vocab-flashcards");
    assert_eq!(config.max_level, "info");
    assert!(config.enable_console);
    assert!(config.enable_file);
}

#[test]
fn default_rotation_is_daily() {
    let config = LogConfig::default();
    assert_eq!(config.rotation, LogRotation::Daily);
    assert_eq!(config.log_dir, "logs");
}

#[test]
fn plain_events_keep_level_and_text() {
    let mut logger = Logger::new();
    logger.info("starting");
    logger.warn("low disk");
    logger.error("gone wrong");
    logger.debug("detail");

    let events = logger.take_events();
    assert_eq!(events.len(), 4);
    assert_eq!(events[0].level, LogLevel::Info);
    assert_eq!(events[0].text, "starting");
    assert_eq!(events[1].level, LogLevel::Warn);
    assert_eq!(events[1].text, "low disk");
    assert_eq!(events[2].level, LogLevel::Error);
    assert_eq!(events[2].text, "gone wrong");
    assert_eq!(events[3].level, LogLevel::Debug);
    assert_eq!(events[3].text, "detail");
}

#[test]
fn context_events_are_bracketed() {
    let mut logger = Logger::new();
    logger.info_with_context("startup", "ready");
    logger.error_with_context("save", "store fault");

    let events = logger.take_events();
    assert_eq!(events[0].text, "[startup] ready");
    assert_eq!(events[0].level, LogLevel::Info);
    assert_eq!(events[1].text, "[save] store fault");
    assert_eq!(events[1].level, LogLevel::Error);
}

#[test]
fn structured_events_render_their_parts() {
    let mut logger = Logger::new();
    logger.log_api_call("/cards", "GET");
    logger.log_db_operation("insert", "word_cards");
    logger.log_command_execution("save_word_card", "word=run");

    let events = logger.take_events();
    assert_eq!(events[0].text, "API Call: GET /cards");
    assert_eq!(events[0].level, LogLevel::Info);
    assert_eq!(events[1].text, "DB Operation: insert on table 'word_cards'");
    assert_eq!(events[1].level, LogLevel::Debug);
    assert_eq!(events[2].text, "Tauri Command: save_word_card with params: word=run");
    assert_eq!(events[2].level, LogLevel::Info);
}

#[test]
fn taking_events_drains_the_handle() {
    let mut logger = Logger::new();
    logger.info("one");
    assert_eq!(logger.take_events().len(), 1);
    assert_eq!(logger.take_events().len(), 0);
}

#[test]
fn commands_record_their_outcome() {
    let mut store = Store::new();
    let mut logger = Logger::new();

    save_word_card(&mut store, &mut logger, &simple_card("run"), "t0".to_string()).unwrap();
    let _ = get_word_card_by_word(&mut store, &mut logger, &"  ".to_string());
    let _ = update_word_card_familiarity(&mut store, &mut logger, 99, 2);

    let events = logger.take_events();
    assert_eq!(events.len(), 3);
    assert_eq!(events[0].level, LogLevel::Info);
    assert_eq!(events[0].text, "save_word_card");
    assert_eq!(events[1].level, LogLevel::Warn);
    assert_eq!(events[1].text, "get_word_card_by_word");
    assert_eq!(events[2].level, LogLevel::Error);
    assert_eq!(events[2].text, "update_word_card_familiarity");
}

#[test]
fn init_logging_starts_with_the_default_config_and_no_events() {
    let (config, mut logger) = init_logging();
    assert_eq!(config.file_name_prefix, "vocab-flashcards");
    assert_eq!(logger.take_events().len(), 0);
}

#[test]
fn init_logging_with_config_keeps_the_config() {
    let mut config = LogConfig::default();
    config.max_level = "debug".to_string();
    config.enable_console = false;
    let (config, _logger) = init_logging_with_config(config);
    assert_eq!(config.max_level, "debug");
    assert!(!config.enable_console);
}

#[test]
fn log_paths_follow_the_default_config() {
    assert_eq!(get_log_directory(), "logs");
    assert_eq!(
        get_current_log_file("2024-01-01"),
        "logs/vocab-flashcards.2024-01-01.log"
    );
}

#[test]
fn retention_cutoff_counts_back_whole_days() {
    assert_eq!(log_retention_cutoff(1_000_000, 7), 1_000_000 - 7 * 86_400);
    assert_eq!(log_retention_cutoff(100, 7), 0);
    assert_eq!(log_retention_cutoff(5, u64::MAX), 0);
    assert_eq!(log_retention_cutoff(86_400, 1), 0);
}
