use vocab_flashcards::connection::resolve_database_url;
use vocab_flashcards::text::usize_to_decimal;

#[test]
fn explicit_override_wins() {
    let url = resolve_database_url(
        Some("/tmp/override.db".to_string()),
        true,
        Some("/proj".to_string()),
        Some("/home/u/.local/share/vocab-flashcards".to_string()),
    );
    assert_eq!(url, "/tmp/override.db");
}

#[test]
fn development_builds_use_a_project_local_path() {
    let url = resolve_database_url(None, true, Some("/proj".to_string()), None);
    assert_eq!(url, "/proj/db/word_cards.db");
    let url = resolve_database_url(None, true, None, None);
    assert_eq!(url, "./db/word_cards.db");
}

#[test]
fn production_builds_use_the_user_data_directory() {
    let url = resolve_database_url(
        None,
        false,
        Some("/proj".to_string()),
        Some("/home/u/.local/share/vocab-flashcards".to_string()),
    );
    assert_eq!(url, "/home/u/.local/share/vocab-flashcards/word_cards.db");
    let url = resolve_database_url(None, false, Some("/proj".to_string()), None);
    assert_eq!(url, "./word_cards.db");
}

#[test]
fn decimal_rendering_is_exact() {
    assert_eq!(usize_to_decimal(0), "0");
    assert_eq!(usize_to_decimal(7), "7");
    assert_eq!(usize_to_decimal(10), "10");
    assert_eq!(usize_to_decimal(12345), "12345");
    assert_eq!(usize_to_decimal(usize::MAX), usize::MAX.to_string());
}
