use vstd::prelude::*;

use crate::cards::CardModel;
use crate::cards::NewCardModel;
use crate::errors::StoreError;

verus! {

/// Spec-level image of the whole store: the rows of the table, the next
/// id the store will assign, and whether the schema has been applied.
#[verifier::ext_equal]
pub ghost struct StoreModel {
    pub rows: Seq<CardModel>,
    pub next_id: int,
    pub initialized: bool,
}

/// Index of the first row whose `word` equals `w`, or -1 when none does.
pub open spec fn find_word(rows: Seq<CardModel>, w: Seq<char>) -> int
    decreases rows.len(),
{
    if rows.len() == 0 {
        -1
    } else if rows[0].word == w {
        0
    } else {
        let r = find_word(rows.drop_first(), w);
        if r == -1 {
            -1
        } else {
            r + 1
        }
    }
}

/// Index of the first row whose `id` equals `id`, or -1 when none does.
pub open spec fn find_id(rows: Seq<CardModel>, id: int) -> int
    decreases rows.len(),
{
    if rows.len() == 0 {
        -1
    } else if rows[0].id == Some(id) {
        0
    } else {
        let r = find_id(rows.drop_first(), id);
        if r == -1 {
            -1
        } else {
            r + 1
        }
    }
}

/// `find_word` returns -1 exactly when no row matches, and otherwise the
/// first matching index.
pub proof fn lemma_find_word_spec(rows: Seq<CardModel>, w: Seq<char>)
    ensures
        find_word(rows, w) == -1 ==> forall|i: int|
            0 <= i < rows.len() ==> (#[trigger] rows[i]).word != w,
        find_word(rows, w) != -1 ==> {
            let r = find_word(rows, w);
            &&& 0 <= r < rows.len()
            &&& rows[r].word == w
            &&& forall|i: int| 0 <= i < r ==> (#[trigger] rows[i]).word != w
        },
    decreases rows.len(),
{
    if rows.len() == 0 {
    } else if rows[0].word == w {
    } else {
        let rest = rows.drop_first();
        lemma_find_word_spec(rest, w);
        let r = find_word(rows, w);
        if find_word(rest, w) == -1 {
            assert forall|i: int| 0 <= i < rows.len() implies (#[trigger] rows[i]).word != w by {
                if i > 0 {
                    assert(rest[i - 1] == rows[i]);
                }
            }
        } else {
            assert(rest[r - 1] == rows[r]);
            assert forall|i: int| 0 <= i < r implies (#[trigger] rows[i]).word != w by {
                if i > 0 {
                    assert(rest[i - 1] == rows[i]);
                }
            }
        }
    }
}

/// `find_id` returns -1 exactly when no row matches, and otherwise the
/// first matching index.
pub proof fn lemma_find_id_spec(rows: Seq<CardModel>, id: int)
    ensures
        find_id(rows, id) == -1 ==> forall|i: int|
            0 <= i < rows.len() ==> (#[trigger] rows[i]).id != Some(id),
        find_id(rows, id) != -1 ==> {
            let r = find_id(rows, id);
            &&& 0 <= r < rows.len()
            &&& rows[r].id == Some(id)
            &&& forall|i: int| 0 <= i < r ==> (#[trigger] rows[i]).id != Some(id)
        },
    decreases rows.len(),
{
    if rows.len() == 0 {
    } else if rows[0].id == Some(id) {
    } else {
        let rest = rows.drop_first();
        lemma_find_id_spec(rest, id);
        let r = find_id(rows, id);
        if find_id(rest, id) == -1 {
            assert forall|i: int| 0 <= i < rows.len() implies (#[trigger] rows[i]).id != Some(id)
            by {
                if i > 0 {
                    assert(rest[i - 1] == rows[i]);
                }
            }
        } else {
            assert(rest[r - 1] == rows[r]);
            assert forall|i: int| 0 <= i < r implies (#[trigger] rows[i]).id != Some(id) by {
                if i > 0 {
                    assert(rest[i - 1] == rows[i]);
                }
            }
        }
    }
}

/// The row the store builds on insertion: fresh id, the supplied fields,
/// schema defaults for counters a caller left out, and the insertion
/// timestamp.
pub open spec fn stored_row(c: NewCardModel, id: int, now: Seq<char>) -> CardModel {
    CardModel {
        id: Some(id),
        word: c.word,
        pos: c.pos,
        definition: c.definition,
        pronunciation: c.pronunciation,
        verbs: c.verbs,
        familiarity: Some(
            match c.familiarity {
                Some(f) => f,
                None => 0,
            },
        ),
        seen_count: Some(
            match c.seen_count {
                Some(n) => n,
                None => 1,
            },
        ),
        created_at: Some(now),
    }
}

/// A counter after one seen-count bump. The stored counter grows by
/// exactly one; it saturates at the widest value the column holds, and an
/// absent counter stays absent (a sum with an absent value is absent).
pub open spec fn bumped_count(n: Option<int>) -> Option<int> {
    match n {
        Some(v) => Some(
            if v < i32::MAX as int {
                v + 1
            } else {
                v
            },
        ),
        None => None,
    }
}

/// A row after one seen-count bump; every other field is untouched.
pub open spec fn bumped_row(c: CardModel) -> CardModel {
    CardModel { seen_count: bumped_count(c.seen_count), ..c }
}

/// Applying the idempotent schema-creation statement: rows are never
/// touched, the schema exists afterwards.
pub open spec fn spec_ensure_schema(s: StoreModel) -> StoreModel {
    StoreModel { initialized: true, ..s }
}

/// Inserting a brand-new word. The uniqueness constraint on `word`
/// rejects a duplicate; an exhausted id space is a store fault.
pub open spec fn spec_insert(s: StoreModel, c: NewCardModel, now: Seq<char>) -> (StoreModel,
    Result<(), StoreError>) {
    if find_word(s.rows, c.word) != -1 {
        (s, Err(StoreError::DuplicateWord))
    } else if s.next_id >= i32::MAX as int {
        (s, Err(StoreError::QueryError))
    } else {
        (
            StoreModel {
                rows: s.rows.push(stored_row(c, s.next_id, now)),
                next_id: s.next_id + 1,
                ..s
            },
            Ok(()),
        )
    }
}

/// Upsert by word: a fresh word is inserted with all supplied fields; an
/// existing word only has its seen count bumped, every other stored field
/// (and the incoming card's other fields) are left alone.
pub open spec fn spec_upsert(s: StoreModel, c: NewCardModel, now: Seq<char>) -> (StoreModel,
    Result<(), StoreError>) {
    let i = find_word(s.rows, c.word);
    if i == -1 {
        spec_insert(s, c, now)
    } else {
        (StoreModel { rows: s.rows.update(i, bumped_row(s.rows[i])), ..s }, Ok(()))
    }
}

/// Exact-match point lookup; absence is `None`, not a failure.
pub open spec fn spec_get_by_word(s: StoreModel, w: Seq<char>) -> Option<CardModel> {
    let i = find_word(s.rows, w);
    if i == -1 {
        None
    } else {
        Some(s.rows[i])
    }
}

/// Setting familiarity to an absolute value on the row with the given id;
/// a zero affected-row count is `NotFound`.
pub open spec fn spec_update_familiarity(s: StoreModel, id: int, level: int) -> (StoreModel,
    Result<(), StoreError>) {
    let i = find_id(s.rows, id);
    if i == -1 {
        (s, Err(StoreError::NotFound))
    } else {
        (
            StoreModel {
                rows: s.rows.update(i, CardModel { familiarity: Some(level), ..s.rows[i] }),
                ..s
            },
            Ok(()),
        )
    }
}

/// Removing the row with the given id; a zero affected-row count is
/// `NotFound`.
pub open spec fn spec_delete(s: StoreModel, id: int) -> (StoreModel, Result<(), StoreError>) {
    let i = find_id(s.rows, id);
    if i == -1 {
        (s, Err(StoreError::NotFound))
    } else {
        (StoreModel { rows: s.rows.remove(i), ..s }, Ok(()))
    }
}

/// Bumping the seen count of the row with the given id by exactly one; a
/// zero affected-row count is `NotFound`.
pub open spec fn spec_increment_seen_count(s: StoreModel, id: int) -> (StoreModel,
    Result<(), StoreError>) {
    let i = find_id(s.rows, id);
    if i == -1 {
        (s, Err(StoreError::NotFound))
    } else {
        (StoreModel { rows: s.rows.update(i, bumped_row(s.rows[i])), ..s }, Ok(()))
    }
}

impl StoreModel {
    /// The store invariant: ids are assigned once from a monotone counter
    /// and never reused, words are unique, and every stored row carries
    /// the store-assigned fields.
    pub open spec fn wf(self) -> bool {
        &&& 1 <= self.next_id <= i32::MAX as int
        &&& forall|i: int| 0 <= i < self.rows.len() ==> (#[trigger] self.rows[i]).id is Some
        &&& forall|i: int|
            0 <= i < self.rows.len() ==> 1 <= (#[trigger] self.rows[i]).id->0 < self.next_id
        &&& forall|i: int| 0 <= i < self.rows.len() ==> (#[trigger] self.rows[i]).familiarity is Some
        &&& forall|i: int| 0 <= i < self.rows.len() ==> (#[trigger] self.rows[i]).seen_count is Some
        &&& forall|i: int| 0 <= i < self.rows.len() ==> (#[trigger] self.rows[i]).created_at is Some
        &&& forall|i: int, j: int|
            0 <= i < j < self.rows.len() ==> (#[trigger] self.rows[i]).word != (
            #[trigger] self.rows[j]).word
        &&& forall|i: int, j: int|
            0 <= i < j < self.rows.len() ==> (#[trigger] self.rows[i]).id != (
            #[trigger] self.rows[j]).id
        &&& (!self.initialized ==> self.rows.len() == 0)
    }
}

/// Inserting through `spec_insert` keeps the store invariant.
pub proof fn lemma_insert_wf(s: StoreModel, c: NewCardModel, now: Seq<char>)
    requires
        s.wf(),
        s.initialized,
    ensures
        spec_insert(s, c, now).0.wf(),
        spec_insert(s, c, now).0.initialized,
{
    lemma_find_word_spec(s.rows, c.word);
    if find_word(s.rows, c.word) == -1 && s.next_id < i32::MAX as int {
        let row = stored_row(c, s.next_id, now);
        let rows2 = s.rows.push(row);
        assert forall|i: int, j: int| 0 <= i < j < rows2.len() implies (#[trigger] rows2[i]).word
            != (#[trigger] rows2[j]).word by {
            if j < s.rows.len() {
            } else {
                assert(rows2[i] == s.rows[i]);
                assert(rows2[j] == row);
            }
        }
        assert forall|i: int, j: int| 0 <= i < j < rows2.len() implies (#[trigger] rows2[i]).id != (
        #[trigger] rows2[j]).id by {
            if j < s.rows.len() {
            } else {
                assert(rows2[i] == s.rows[i]);
                assert(rows2[j] == row);
            }
        }
    }
}

/// Upserting through `spec_upsert` keeps the store invariant.
pub proof fn lemma_upsert_wf(s: StoreModel, c: NewCardModel, now: Seq<char>)
    requires
        s.wf(),
        s.initialized,
    ensures
        spec_upsert(s, c, now).0.wf(),
        spec_upsert(s, c, now).0.initialized,
{
    lemma_find_word_spec(s.rows, c.word);
    let i = find_word(s.rows, c.word);
    if i == -1 {
        lemma_insert_wf(s, c, now);
    }
}

/// Setting familiarity through `spec_update_familiarity` keeps the store
/// invariant.
pub proof fn lemma_update_familiarity_wf(s: StoreModel, id: int, level: int)
    requires
        s.wf(),
        s.initialized,
    ensures
        spec_update_familiarity(s, id, level).0.wf(),
        spec_update_familiarity(s, id, level).0.initialized,
{
    lemma_find_id_spec(s.rows, id);
}

/// Deleting through `spec_delete` keeps the store invariant.
pub proof fn lemma_delete_wf(s: StoreModel, id: int)
    requires
        s.wf(),
        s.initialized,
    ensures
        spec_delete(s, id).0.wf(),
        spec_delete(s, id).0.initialized,
{
    lemma_find_id_spec(s.rows, id);
    let i = find_id(s.rows, id);
    if i != -1 {
        let rows2 = s.rows.remove(i);
        assert(forall|j: int| 0 <= j < i ==> rows2[j] == s.rows[j]);
        assert(forall|j: int| i <= j < rows2.len() ==> rows2[j] == s.rows[j + 1]);
        assert forall|j: int, k: int| 0 <= j < k < rows2.len() implies (#[trigger] rows2[j]).word
            != (#[trigger] rows2[k]).word && (#[trigger] rows2[j]).id != (#[trigger] rows2[k]).id
        by {
            let j0 = if j < i { j } else { j + 1 };
            let k0 = if k < i { k } else { k + 1 };
            assert(rows2[j] == s.rows[j0]);
            assert(rows2[k] == s.rows[k0]);
        }
    }
}

/// Bumping a counter through `spec_increment_seen_count` keeps the store
/// invariant.
pub proof fn lemma_increment_wf(s: StoreModel, id: int)
    requires
        s.wf(),
        s.initialized,
    ensures
        spec_increment_seen_count(s, id).0.wf(),
        spec_increment_seen_count(s, id).0.initialized,
{
    lemma_find_id_spec(s.rows, id);
}

/// The store a fresh, never-opened database file stands for.
pub open spec fn empty_store() -> StoreModel {
    StoreModel { rows: Seq::empty(), next_id: 1, initialized: false }
}

} // verus!
