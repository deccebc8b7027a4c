use vstd::prelude::*;
use vstd::string::StrSliceExecFns;
use vstd::string::StringExecFns;

use crate::cards::NewWordCard;
use crate::cards::WordCard;
use crate::errors::StoreError;
use crate::logger::LogEventModel;
use crate::logger::LogLevel;
use crate::logger::Logger;
use crate::model::spec_delete;
use crate::model::spec_ensure_schema;
use crate::model::spec_get_by_word;
use crate::model::spec_increment_seen_count;
use crate::model::spec_update_familiarity;
use crate::model::spec_upsert;
use crate::store::Store;
use crate::store::opt_card_view;
use crate::store::rows_view;
use crate::text::dec_digits;
use crate::text::usize_to_decimal;

verus! {

/// The characters that count as whitespace when the façade decides
/// whether a query word is blank: the Unicode White_Space set.
pub open spec fn is_space_char(c: char) -> bool {
    let u = c as u32;
    (0x09 <= u && u <= 0x0D) || u == 0x20 || u == 0x85 || u == 0xA0 || u == 0x1680 || (0x2000 <= u
        && u <= 0x200A) || u == 0x2028 || u == 0x2029 || u == 0x202F || u == 0x205F || u == 0x3000
}

/// A word is blank when it is empty or holds nothing but whitespace; such
/// a word is rejected on lookups before the store is touched.
pub open spec fn is_blank(s: Seq<char>) -> bool {
    forall|i: int| 0 <= i < s.len() ==> is_space_char(#[trigger] s[i])
}

/// Decides whether one character is whitespace.
fn char_is_space(c: char) -> (r: bool)
    ensures
        r == is_space_char(c),
{
    let u = c as u32;
    (0x09 <= u && u <= 0x0D) || u == 0x20 || u == 0x85 || u == 0xA0 || u == 0x1680 || (0x2000 <= u
        && u <= 0x200A) || u == 0x2028 || u == 0x2029 || u == 0x202F || u == 0x205F || u == 0x3000
}

/// Decides blankness of a query word.
pub fn word_is_blank(w: &str) -> (r: bool)
    ensures
        r == is_blank(w@),
{
    let n = w.unicode_len();
    let mut i: usize = 0;
    while i < n
        invariant
            n == w@.len(),
            i <= n,
            forall|j: int| 0 <= j < i ==> is_space_char(#[trigger] w@[j]),
        decreases n - i,
    {
        let c = w.get_char(i);
        if !char_is_space(c) {
            return false;
        }
        i += 1;
    }
    true
}

/// Decides whether an id can name a stored row: ids are positive.
pub fn id_is_valid(card_id: i32) -> (r: bool)
    ensures
        r == (card_id > 0),
{
    card_id > 0
}

/// Decides whether a familiarity level lies in the accepted range, 0 to
/// 3 inclusive.
pub fn familiarity_level_is_valid(level: i32) -> (r: bool)
    ensures
        r == (0 <= level <= 3),
{
    0 <= level && level <= 3
}

/// The severity a command records for its outcome: information on
/// success, a warning for rejected input, an error for a store fault.
pub open spec fn outcome_level<T>(r: Result<T, StoreError>) -> LogLevel {
    match r {
        Ok(_) => LogLevel::Info,
        Err(StoreError::ValidationError) => LogLevel::Warn,
        Err(_) => LogLevel::Error,
    }
}

/// The one event a command records: its name at the outcome's severity.
pub open spec fn command_event<T>(name: Seq<char>, r: Result<T, StoreError>) -> LogEventModel {
    LogEventModel { level: outcome_level(r), text: name }
}

/// Records a command's outcome on the observability handle.
fn log_command<T>(logger: &mut Logger, name: &str, r: &Result<T, StoreError>)
    ensures
        final(logger)@ == old(logger)@.push(command_event(name@, *r)),
{
    match r {
        Ok(_) => logger.info(name),
        Err(e) => {
            if *e == StoreError::ValidationError {
                logger.warn(name);
            } else {
                logger.error(name);
            }
        },
    }
}

/// Saves a card: the upsert-by-word command. A fresh word is inserted
/// with the supplied fields; an existing word only has its stored seen
/// count bumped by one, and everything else — including the incoming
/// card's other fields — is discarded. The store's schema is ensured
/// first, as on every connection.
pub fn save_word_card(
    store: &mut Store,
    logger: &mut Logger,
    card: &NewWordCard,
    now: String,
) -> (r: Result<(), StoreError>)
    requires
        old(store)@.wf(),
    ensures
        final(store)@.wf(),
        final(store)@.initialized,
        final(store)@ == spec_upsert(spec_ensure_schema(old(store)@), card@, now@).0,
        r == spec_upsert(spec_ensure_schema(old(store)@), card@, now@).1,
        final(logger)@ == old(logger)@.push(command_event("save_word_card"@, r)),
{
    store.ensure_schema();
    let r = store.upsert_by_word(card, now);
    log_command(logger, "save_word_card", &r);
    r
}

/// Looks a card up by exact word match. A blank query is rejected before
/// the store is touched; absence of the word is `Ok(None)`, not a
/// failure.
pub fn get_word_card_by_word(store: &mut Store, logger: &mut Logger, word_query: &String) -> (r:
    Result<Option<WordCard>, StoreError>)
    requires
        old(store)@.wf(),
    ensures
        final(store)@.wf(),
        is_blank(word_query@) ==> final(store)@ == old(store)@ && r matches Err(
            StoreError::ValidationError,
        ),
        !is_blank(word_query@) ==> final(store)@ == spec_ensure_schema(old(store)@) && (
        r matches Ok(o) && opt_card_view(o) == spec_get_by_word(
            spec_ensure_schema(old(store)@),
            word_query@,
        )),
        final(logger)@ == old(logger)@.push(command_event("get_word_card_by_word"@, r)),
{
    if word_is_blank(word_query.as_str()) {
        let r: Result<Option<WordCard>, StoreError> = Err(StoreError::ValidationError);
        log_command(logger, "get_word_card_by_word", &r);
        return r;
    }
    store.ensure_schema();
    let r = store.get_by_word(word_query);
    log_command(logger, "get_word_card_by_word", &r);
    r
}

/// Returns a copy of every stored card, in storage order; an empty store
/// yields an empty list, never a failure.
pub fn get_all_word_cards(store: &mut Store, logger: &mut Logger) -> (r: Result<
    Vec<WordCard>,
    StoreError,
>)
    requires
        old(store)@.wf(),
    ensures
        final(store)@.wf(),
        final(store)@ == spec_ensure_schema(old(store)@),
        r matches Ok(v) && rows_view(v@) == spec_ensure_schema(old(store)@).rows,
        final(logger)@ == old(logger)@.push(command_event("get_all_word_cards"@, r)),
{
    store.ensure_schema();
    let r = store.get_all();
    log_command(logger, "get_all_word_cards", &r);
    r
}

/// The stripped-down variant of the full scan, kept as a diagnostic
/// entry point; it behaves exactly like `get_all_word_cards`.
pub fn get_all_word_cards_simple(store: &mut Store, logger: &mut Logger) -> (r: Result<
    Vec<WordCard>,
    StoreError,
>)
    requires
        old(store)@.wf(),
    ensures
        final(store)@.wf(),
        final(store)@ == spec_ensure_schema(old(store)@),
        r matches Ok(v) && rows_view(v@) == spec_ensure_schema(old(store)@).rows,
        final(logger)@ == old(logger)@.push(command_event("get_all_word_cards_simple"@, r)),
{
    store.ensure_schema();
    let r = store.get_all();
    log_command(logger, "get_all_word_cards_simple", &r);
    r
}

/// Sets a card's familiarity to an absolute level. The id must be
/// positive and the level within 0 to 3, or the input is rejected with
/// the store untouched; an id no row carries fails with `NotFound`.
pub fn update_word_card_familiarity(
    store: &mut Store,
    logger: &mut Logger,
    card_id: i32,
    familiarity_level: i32,
) -> (r: Result<(), StoreError>)
    requires
        old(store)@.wf(),
    ensures
        final(store)@.wf(),
        (card_id <= 0 || familiarity_level < 0 || familiarity_level > 3) ==> final(store)@ == old(
            store,
        )@ && r matches Err(StoreError::ValidationError),
        !(card_id <= 0 || familiarity_level < 0 || familiarity_level > 3) ==> final(store)@
            == spec_update_familiarity(
            spec_ensure_schema(old(store)@),
            card_id as int,
            familiarity_level as int,
        ).0 && r == spec_update_familiarity(
            spec_ensure_schema(old(store)@),
            card_id as int,
            familiarity_level as int,
        ).1,
        final(logger)@ == old(logger)@.push(command_event("update_word_card_familiarity"@, r)),
{
    if !id_is_valid(card_id) || !familiarity_level_is_valid(familiarity_level) {
        let r: Result<(), StoreError> = Err(StoreError::ValidationError);
        log_command(logger, "update_word_card_familiarity", &r);
        return r;
    }
    store.ensure_schema();
    let r = store.update_familiarity(card_id, familiarity_level);
    log_command(logger, "update_word_card_familiarity", &r);
    r
}

/// Deletes a card by id. The id must be positive, or the input is
/// rejected with the store untouched; an id no row carries fails with
/// `NotFound`.
pub fn delete_word_card(store: &mut Store, logger: &mut Logger, card_id: i32) -> (r: Result<
    (),
    StoreError,
>)
    requires
        old(store)@.wf(),
    ensures
        final(store)@.wf(),
        card_id <= 0 ==> final(store)@ == old(store)@ && r matches Err(
            StoreError::ValidationError,
        ),
        card_id > 0 ==> final(store)@ == spec_delete(
            spec_ensure_schema(old(store)@),
            card_id as int,
        ).0 && r == spec_delete(spec_ensure_schema(old(store)@), card_id as int).1,
        final(logger)@ == old(logger)@.push(command_event("delete_word_card"@, r)),
{
    if !id_is_valid(card_id) {
        let r: Result<(), StoreError> = Err(StoreError::ValidationError);
        log_command(logger, "delete_word_card", &r);
        return r;
    }
    store.ensure_schema();
    let r = store.delete(card_id);
    log_command(logger, "delete_word_card", &r);
    r
}

/// Adds exactly one to a card's seen count. The id must be positive, or
/// the input is rejected with the store untouched; an id no row carries
/// fails with `NotFound`.
pub fn increment_word_card_seen_count(store: &mut Store, logger: &mut Logger, card_id: i32) -> (r:
    Result<(), StoreError>)
    requires
        old(store)@.wf(),
    ensures
        final(store)@.wf(),
        card_id <= 0 ==> final(store)@ == old(store)@ && r matches Err(
            StoreError::ValidationError,
        ),
        card_id > 0 ==> final(store)@ == spec_increment_seen_count(
            spec_ensure_schema(old(store)@),
            card_id as int,
        ).0 && r == spec_increment_seen_count(spec_ensure_schema(old(store)@), card_id as int).1,
        final(logger)@ == old(logger)@.push(command_event("increment_word_card_seen_count"@, r)),
{
    if !id_is_valid(card_id) {
        let r: Result<(), StoreError> = Err(StoreError::ValidationError);
        log_command(logger, "increment_word_card_seen_count", &r);
        return r;
    }
    store.ensure_schema();
    let r = store.increment_seen_count(card_id);
    log_command(logger, "increment_word_card_seen_count", &r);
    r
}

/// The diagnostic message reporting a healthy store and its row count.
pub open spec fn health_message(n: nat) -> Seq<char> {
    "database connection ok, "@ + dec_digits(n) + " word card records"@
}

/// Checks that the store answers and reports its row count in a
/// diagnostic message.
pub fn test_database_connection(store: &mut Store, logger: &mut Logger) -> (r: Result<
    String,
    StoreError,
>)
    requires
        old(store)@.wf(),
    ensures
        final(store)@.wf(),
        final(store)@ == spec_ensure_schema(old(store)@),
        r matches Ok(m) && m@ == health_message(spec_ensure_schema(old(store)@).rows.len()),
        final(logger)@ == old(logger)@.push(command_event("test_database_connection"@, r)),
{
    store.ensure_schema();
    let counted = store.count();
    let n = match counted {
        Ok(n) => n,
        Err(e) => {
            proof {
                assert(false);
            }
            let r: Result<String, StoreError> = Err(e);
            log_command(logger, "test_database_connection", &r);
            return r;
        },
    };
    let digits = usize_to_decimal(n);
    let m = String::from_str("database connection ok, ").concat(digits.as_str()).concat(
        " word card records",
    );
    let r: Result<String, StoreError> = Ok(m);
    log_command(logger, "test_database_connection", &r);
    r
}

} // verus!
