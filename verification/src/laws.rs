use vstd::prelude::*;

use crate::cards::CardModel;
use crate::cards::NewCardModel;
use crate::errors::StoreError;
use crate::model::StoreModel;
use crate::model::bumped_row;
use crate::model::find_id;
use crate::model::find_word;
use crate::model::lemma_find_id_spec;
use crate::model::lemma_find_word_spec;
use crate::model::lemma_upsert_wf;
use crate::model::spec_delete;
use crate::model::spec_ensure_schema;
use crate::model::spec_get_by_word;
use crate::model::spec_increment_seen_count;
use crate::model::spec_insert;
use crate::model::spec_update_familiarity;
use crate::model::spec_upsert;
use crate::model::stored_row;

verus! {

/// How many rows hold the given word.
pub open spec fn count_word(rows: Seq<CardModel>, w: Seq<char>) -> nat
    decreases rows.len(),
{
    if rows.len() == 0 {
        0
    } else {
        (if rows[0].word == w {
            1nat
        } else {
            0nat
        }) + count_word(rows.drop_first(), w)
    }
}

/// A word no row holds counts zero.
pub proof fn lemma_count_word_none(rows: Seq<CardModel>, w: Seq<char>)
    requires
        forall|i: int| 0 <= i < rows.len() ==> (#[trigger] rows[i]).word != w,
    ensures
        count_word(rows, w) == 0,
    decreases rows.len(),
{
    if rows.len() > 0 {
        let rest = rows.drop_first();
        assert forall|i: int| 0 <= i < rest.len() implies (#[trigger] rest[i]).word != w by {
            assert(rest[i] == rows[i + 1]);
        }
        lemma_count_word_none(rest, w);
    }
}

/// Under pairwise-distinct words, a word some row holds counts exactly
/// one.
pub proof fn lemma_count_word_unique(rows: Seq<CardModel>, w: Seq<char>)
    requires
        forall|i: int, j: int|
            0 <= i < j < rows.len() ==> (#[trigger] rows[i]).word != (#[trigger] rows[j]).word,
        exists|i: int| 0 <= i < rows.len() && (#[trigger] rows[i]).word == w,
    ensures
        count_word(rows, w) == 1,
    decreases rows.len(),
{
    let k = choose|i: int| 0 <= i < rows.len() && (#[trigger] rows[i]).word == w;
    let rest = rows.drop_first();
    assert(forall|i: int| 0 <= i < rest.len() ==> #[trigger] rest[i] == rows[i + 1]);
    if rows[0].word == w {
        assert forall|i: int| 0 <= i < rest.len() implies (#[trigger] rest[i]).word != w by {
            assert(rest[i] == rows[i + 1]);
            assert(rows[0].word != rows[i + 1].word);
        }
        lemma_count_word_none(rest, w);
    } else {
        assert(rest[k - 1] == rows[k]);
        lemma_count_word_unique(rest, w);
    }
}

/// Idempotent schema creation: applying the initialization statement
/// never errors and never alters existing rows, and applying it twice is
/// the same as applying it once.
pub proof fn lemma_schema_creation_idempotent(s: StoreModel)
    ensures
        spec_ensure_schema(s).rows == s.rows,
        spec_ensure_schema(s).next_id == s.next_id,
        spec_ensure_schema(spec_ensure_schema(s)) == spec_ensure_schema(s),
        s.initialized ==> spec_ensure_schema(s) == s,
{
    assert(spec_ensure_schema(spec_ensure_schema(s)) =~= spec_ensure_schema(s));
    if s.initialized {
        assert(spec_ensure_schema(s) =~= s);
    }
}

/// Round trip: inserting a card with a fresh word and then fetching by
/// that word returns every supplied field unchanged, while `id` and
/// `created_at` come out populated by the store and counters left out
/// take the schema defaults.
pub proof fn lemma_round_trip(s: StoreModel, c: NewCardModel, now: Seq<char>)
    requires
        s.wf(),
        s.initialized,
        find_word(s.rows, c.word) == -1,
        s.next_id < i32::MAX as int,
    ensures
        spec_upsert(s, c, now).1 is Ok,
        spec_get_by_word(spec_upsert(s, c, now).0, c.word) == Some(
            stored_row(c, s.next_id, now),
        ),
        (stored_row(c, s.next_id, now)).word == c.word,
        (stored_row(c, s.next_id, now)).pos == c.pos,
        (stored_row(c, s.next_id, now)).definition == c.definition,
        (stored_row(c, s.next_id, now)).pronunciation == c.pronunciation,
        (stored_row(c, s.next_id, now)).verbs == c.verbs,
        c.familiarity is Some ==> (stored_row(c, s.next_id, now)).familiarity == c.familiarity,
        c.seen_count is Some ==> (stored_row(c, s.next_id, now)).seen_count == c.seen_count,
        c.familiarity is None ==> (stored_row(c, s.next_id, now)).familiarity == Some(0int),
        c.seen_count is None ==> (stored_row(c, s.next_id, now)).seen_count == Some(1int),
        (stored_row(c, s.next_id, now)).id == Some(s.next_id),
        (stored_row(c, s.next_id, now)).created_at == Some(now),
{
    lemma_find_word_spec(s.rows, c.word);
    let row = stored_row(c, s.next_id, now);
    let rows1 = s.rows.push(row);
    lemma_find_word_spec(rows1, c.word);
    let r = find_word(rows1, c.word);
    assert(rows1[s.rows.len() as int] == row);
    if r == -1 {
        assert(rows1[s.rows.len() as int].word != c.word);
    } else {
        if r < s.rows.len() {
            assert(rows1[r] == s.rows[r]);
            assert(s.rows[r].word != c.word);
        }
    }
    assert(r == s.rows.len());
}

/// Upsert idempotence of identity: after a save for a word succeeds, a
/// second save for the same word succeeds too, leaves exactly one row
/// holding that word, bumps its stored seen count by exactly one, and
/// touches no other field of the row and no other row.
pub proof fn lemma_upsert_idempotent_identity(
    s: StoreModel,
    c: NewCardModel,
    now1: Seq<char>,
    now2: Seq<char>,
)
    requires
        s.wf(),
        s.initialized,
        spec_upsert(s, c, now1).1 is Ok,
    ensures
        spec_upsert(spec_upsert(s, c, now1).0, c, now2).1 is Ok,
        ({
            let s1 = spec_upsert(s, c, now1).0;
            let s2 = spec_upsert(s1, c, now2).0;
            let i = find_word(s1.rows, c.word);
            &&& count_word(s2.rows, c.word) == 1
            &&& s2.rows.len() == s1.rows.len()
            &&& 0 <= i < s1.rows.len()
            &&& s1.rows[i].word == c.word
            &&& s2.rows == s1.rows.update(i, bumped_row(s1.rows[i]))
            &&& s2.rows[i].seen_count == crate::model::bumped_count(s1.rows[i].seen_count)
            &&& s2.rows[i].word == s1.rows[i].word
            &&& s2.rows[i].id == s1.rows[i].id
            &&& s2.rows[i].pos == s1.rows[i].pos
            &&& s2.rows[i].definition == s1.rows[i].definition
            &&& s2.rows[i].pronunciation == s1.rows[i].pronunciation
            &&& s2.rows[i].verbs == s1.rows[i].verbs
            &&& s2.rows[i].familiarity == s1.rows[i].familiarity
            &&& s2.rows[i].created_at == s1.rows[i].created_at
        }),
{
    lemma_upsert_wf(s, c, now1);
    let s1 = spec_upsert(s, c, now1).0;
    lemma_find_word_spec(s.rows, c.word);
    let i0 = find_word(s.rows, c.word);
    if i0 == -1 {
        // first save inserted: the pushed row holds the word
        let row = stored_row(c, s.next_id, now1);
        assert(s1.rows == s.rows.push(row));
        assert(s1.rows[s.rows.len() as int] == row);
    } else {
        // first save updated in place: the word is still there
        assert(s1.rows[i0] == bumped_row(s.rows[i0]));
        assert(s1.rows[i0].word == c.word);
    }
    lemma_find_word_spec(s1.rows, c.word);
    let i = find_word(s1.rows, c.word);
    if i == -1 {
        assert(exists|k: int| 0 <= k < s1.rows.len() && (#[trigger] s1.rows[k]).word == c.word);
        let k = choose|k: int| 0 <= k < s1.rows.len() && (#[trigger] s1.rows[k]).word == c.word;
        assert(s1.rows[k].word != c.word);
    }
    let s2 = spec_upsert(s1, c, now2).0;
    assert(s2.rows == s1.rows.update(i, bumped_row(s1.rows[i])));
    lemma_upsert_wf(s1, c, now2);
    assert forall|a: int, b: int| 0 <= a < b < s2.rows.len() implies (#[trigger] s2.rows[a]).word
        != (#[trigger] s2.rows[b]).word by {}
    assert((#[trigger] s2.rows[i]).word == c.word);
    lemma_count_word_unique(s2.rows, c.word);
}

/// The store-level uniqueness constraint: inserting a word some row
/// already holds is rejected with `DuplicateWord` and leaves the store
/// unchanged — a racing duplicate insert can never create a second row.
pub proof fn lemma_uniqueness_constraint(s: StoreModel, c: NewCardModel, now: Seq<char>)
    requires
        exists|i: int| 0 <= i < s.rows.len() && (#[trigger] s.rows[i]).word == c.word,
    ensures
        spec_insert(s, c, now).0 == s,
        spec_insert(s, c, now).1 == Err::<(), StoreError>(StoreError::DuplicateWord),
{
    lemma_find_word_spec(s.rows, c.word);
    if find_word(s.rows, c.word) == -1 {
        let k = choose|i: int| 0 <= i < s.rows.len() && (#[trigger] s.rows[i]).word == c.word;
        assert(s.rows[k].word != c.word);
    }
}

/// However a save resolves — fresh insert, or the update path that a
/// lost insert race falls back to — a successful save leaves exactly one
/// row holding the saved word.
pub proof fn lemma_save_single_row(s: StoreModel, c: NewCardModel, now: Seq<char>)
    requires
        s.wf(),
        s.initialized,
        spec_upsert(s, c, now).1 is Ok,
    ensures
        count_word(spec_upsert(s, c, now).0.rows, c.word) == 1,
{
    lemma_upsert_wf(s, c, now);
    let s1 = spec_upsert(s, c, now).0;
    lemma_find_word_spec(s.rows, c.word);
    let i0 = find_word(s.rows, c.word);
    if i0 == -1 {
        let row = stored_row(c, s.next_id, now);
        assert(s1.rows[s.rows.len() as int] == row);
    } else {
        assert(s1.rows[i0] == bumped_row(s.rows[i0]));
    }
    lemma_count_word_unique(s1.rows, c.word);
}

/// A counter after a mutation, compared with before: it never went down,
/// and an absent counter stayed as it was.
pub open spec fn counter_not_decreased(after: Option<int>, before: Option<int>) -> bool {
    match (after, before) {
        (Some(a), Some(b)) => a >= b,
        (a, b) => a == b,
    }
}

/// Row lifecycle across the mutations that keep rows: a stored row's
/// `id`, `word` and `created_at` are never rewritten, and its seen count
/// never decreases; a delete removes its row and leaves every other row
/// untouched.
pub proof fn lemma_row_lifecycle(s: StoreModel, c: NewCardModel, now: Seq<char>, id: int, level: int)
    ensures
        forall|j: int|
            0 <= j < s.rows.len() ==> {
                let row = (#[trigger] spec_upsert(s, c, now).0.rows[j]);
                &&& row.id == s.rows[j].id
                &&& row.word == s.rows[j].word
                &&& row.created_at == s.rows[j].created_at
                &&& counter_not_decreased(row.seen_count, s.rows[j].seen_count)
            },
        forall|j: int|
            0 <= j < s.rows.len() ==> {
                let row = (#[trigger] spec_update_familiarity(s, id, level).0.rows[j]);
                &&& row.id == s.rows[j].id
                &&& row.word == s.rows[j].word
                &&& row.created_at == s.rows[j].created_at
                &&& row.seen_count == s.rows[j].seen_count
            },
        forall|j: int|
            0 <= j < s.rows.len() ==> {
                let row = (#[trigger] spec_increment_seen_count(s, id).0.rows[j]);
                &&& row.id == s.rows[j].id
                &&& row.word == s.rows[j].word
                &&& row.created_at == s.rows[j].created_at
                &&& counter_not_decreased(row.seen_count, s.rows[j].seen_count)
            },
        forall|j: int|
            0 <= j < spec_delete(s, id).0.rows.len() ==> exists|k: int|
                0 <= k < s.rows.len() && (#[trigger] spec_delete(s, id).0.rows[j]) == s.rows[k],
{
    let ups = spec_upsert(s, c, now).0.rows;
    lemma_find_word_spec(s.rows, c.word);
    assert forall|j: int| 0 <= j < s.rows.len() implies {
        let row = (#[trigger] ups[j]);
        &&& row.id == s.rows[j].id
        &&& row.word == s.rows[j].word
        &&& row.created_at == s.rows[j].created_at
        &&& counter_not_decreased(row.seen_count, s.rows[j].seen_count)
    } by {
        let i = find_word(s.rows, c.word);
        if i == -1 {
            assert(ups[j] == s.rows[j]);
        } else if j == i {
            assert(ups[j] == bumped_row(s.rows[j]));
        } else {
            assert(ups[j] == s.rows[j]);
        }
    }
    let fam = spec_update_familiarity(s, id, level).0.rows;
    lemma_find_id_spec(s.rows, id);
    assert forall|j: int| 0 <= j < s.rows.len() implies {
        let row = (#[trigger] fam[j]);
        &&& row.id == s.rows[j].id
        &&& row.word == s.rows[j].word
        &&& row.created_at == s.rows[j].created_at
        &&& row.seen_count == s.rows[j].seen_count
    } by {
        let i = find_id(s.rows, id);
        if i != -1 && j != i {
            assert(fam[j] == s.rows[j]);
        }
    }
    let inc = spec_increment_seen_count(s, id).0.rows;
    assert forall|j: int| 0 <= j < s.rows.len() implies {
        let row = (#[trigger] inc[j]);
        &&& row.id == s.rows[j].id
        &&& row.word == s.rows[j].word
        &&& row.created_at == s.rows[j].created_at
        &&& counter_not_decreased(row.seen_count, s.rows[j].seen_count)
    } by {
        let i = find_id(s.rows, id);
        if i != -1 && j == i {
            assert(inc[j] == bumped_row(s.rows[j]));
        } else {
            assert(inc[j] == s.rows[j]);
        }
    }
    let del = spec_delete(s, id).0.rows;
    assert forall|j: int| 0 <= j < del.len() implies exists|k: int|
        0 <= k < s.rows.len() && (#[trigger] del[j]) == s.rows[k] by {
        let i = find_id(s.rows, id);
        if i == -1 {
            assert(del[j] == s.rows[j]);
        } else {
            let k = if j < i {
                j
            } else {
                j + 1
            };
            assert(del[j] == s.rows[k]);
        }
    }
}

/// The natural key: a well-formed store never holds two rows for one
/// word, whatever the word.
pub proof fn lemma_word_is_a_natural_key(s: StoreModel, w: Seq<char>)
    requires
        s.wf(),
    ensures
        count_word(s.rows, w) <= 1,
{
    if exists|i: int| 0 <= i < s.rows.len() && (#[trigger] s.rows[i]).word == w {
        lemma_count_word_unique(s.rows, w);
    } else {
        lemma_count_word_none(s.rows, w);
    }
}

/// Not-found semantics: an id no row carries makes every id-keyed
/// mutation fail with `NotFound` and leaves the store unchanged.
pub proof fn lemma_id_not_found(s: StoreModel, id: int, level: int)
    requires
        forall|i: int| 0 <= i < s.rows.len() ==> (#[trigger] s.rows[i]).id != Some(id),
    ensures
        spec_update_familiarity(s, id, level) == (s, Err::<(), StoreError>(StoreError::NotFound)),
        spec_delete(s, id) == (s, Err::<(), StoreError>(StoreError::NotFound)),
        spec_increment_seen_count(s, id) == (s, Err::<(), StoreError>(StoreError::NotFound)),
{
    lemma_find_id_spec(s.rows, id);
    let r = find_id(s.rows, id);
    if r != -1 {
        assert(s.rows[r].id != Some(id));
    }
}

} // verus!
