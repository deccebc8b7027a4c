use vstd::prelude::*;
use vstd::pervasive::VecAdditionalExecFns;

use crate::cards::CardModel;
use crate::cards::NewWordCard;
use crate::cards::WordCard;
use crate::cards::clone_opt_text;
use crate::errors::StoreError;
use crate::model::StoreModel;
use crate::model::empty_store;
use crate::model::find_id;
use crate::model::find_word;
use crate::model::lemma_delete_wf;
use crate::model::lemma_find_id_spec;
use crate::model::lemma_find_word_spec;
use crate::model::lemma_increment_wf;
use crate::model::lemma_insert_wf;
use crate::model::lemma_update_familiarity_wf;
use crate::model::lemma_upsert_wf;
use crate::model::spec_delete;
use crate::model::spec_ensure_schema;
use crate::model::spec_get_by_word;
use crate::model::spec_increment_seen_count;
use crate::model::spec_insert;
use crate::model::spec_update_familiarity;
use crate::model::spec_upsert;
use crate::model::stored_row;

verus! {

/// The rows of a sequence of stored cards, as their spec-level images.
pub open spec fn rows_view(v: Seq<WordCard>) -> Seq<CardModel> {
    v.map_values(|c: WordCard| c@)
}

/// The card a query operation hands out, as its spec-level image.
pub open spec fn opt_card_view(o: Option<WordCard>) -> Option<CardModel> {
    match o {
        Some(c) => Some(c@),
        None => None,
    }
}

/// The authoritative word-card store: a single table keyed by a unique
/// `word`, with ids assigned once from a monotone counter. Each operation
/// is a self-contained, single-statement interaction; the only state is
/// the table itself.
pub struct Store {
    rows: Vec<WordCard>,
    next_id: i32,
    initialized: bool,
}

impl View for Store {
    type V = StoreModel;

    closed spec fn view(&self) -> StoreModel {
        StoreModel {
            rows: rows_view(self.rows@),
            next_id: self.next_id as int,
            initialized: self.initialized,
        }
    }
}

/// Index of the first row whose `word` equals `w`, or `None` when no row
/// matches.
fn find_word_index(rows: &Vec<WordCard>, w: &String) -> (r: Option<usize>)
    ensures
        match r {
            Some(i) => i < rows@.len() && find_word(rows_view(rows@), w@) == i as int,
            None => find_word(rows_view(rows@), w@) == -1,
        },
{
    let ghost rs = rows_view(rows@);
    let n = rows.len();
    let mut i: usize = 0;
    while i < n
        invariant
            n == rows@.len(),
            i <= n,
            rs == rows_view(rows@),
            forall|j: int| 0 <= j < i ==> (#[trigger] rs[j]).word != w@,
        decreases n - i,
    {
        if rows[i].word == *w {
            proof {
                lemma_find_word_spec(rs, w@);
                let r = find_word(rs, w@);
                assert(rs[i as int].word == w@);
                if r == -1 {
                    assert(rs[i as int].word != w@);
                } else if r < i as int {
                    assert(rs[r].word != w@);
                } else if r > i as int {
                    assert(rs[i as int].word != w@);
                }
            }
            return Some(i);
        }
        assert(rs[i as int].word != w@);
        i += 1;
    }
    proof {
        lemma_find_word_spec(rs, w@);
        let r = find_word(rs, w@);
        if r != -1 {
            assert(rs[r].word != w@);
        }
    }
    None
}

/// Index of the first row whose `id` equals `id`, or `None` when no row
/// matches.
fn find_id_index(rows: &Vec<WordCard>, id: i32) -> (r: Option<usize>)
    ensures
        match r {
            Some(i) => i < rows@.len() && find_id(rows_view(rows@), id as int) == i as int,
            None => find_id(rows_view(rows@), id as int) == -1,
        },
{
    let ghost rs = rows_view(rows@);
    let n = rows.len();
    let mut i: usize = 0;
    while i < n
        invariant
            n == rows@.len(),
            i <= n,
            rs == rows_view(rows@),
            forall|j: int| 0 <= j < i ==> (#[trigger] rs[j]).id != Some(id as int),
        decreases n - i,
    {
        let hit = match rows[i].id {
            Some(v) => v == id,
            None => false,
        };
        if hit {
            proof {
                lemma_find_id_spec(rs, id as int);
                let r = find_id(rs, id as int);
                assert(rs[i as int].id == Some(id as int));
                if r == -1 {
                    assert(rs[i as int].id != Some(id as int));
                } else if r < i as int {
                    assert(rs[r].id != Some(id as int));
                } else if r > i as int {
                    assert(rs[i as int].id != Some(id as int));
                }
            }
            return Some(i);
        }
        assert(rs[i as int].id != Some(id as int));
        i += 1;
    }
    proof {
        lemma_find_id_spec(rs, id as int);
        let r = find_id(rs, id as int);
        if r != -1 {
            assert(rs[r].id != Some(id as int));
        }
    }
    None
}

impl Store {
    /// A fresh store: no rows, no schema applied yet, ids start at 1.
    pub fn new() -> (s: Store)
        ensures
            s@ == empty_store(),
            s@.wf(),
    {
        let s = Store { rows: Vec::new(), next_id: 1, initialized: false };
        proof {
            assert(s@.rows =~= empty_store().rows);
            assert(s@ =~= empty_store());
        }
        s
    }

    /// Applies the idempotent schema-creation statement. Existing rows are
    /// never altered, and applying it to an already-initialized store
    /// changes nothing at all.
    pub fn ensure_schema(&mut self)
        requires
            old(self)@.wf(),
        ensures
            final(self)@.wf(),
            final(self)@ == spec_ensure_schema(old(self)@),
    {
        self.initialized = true;
        proof {
            assert(self@ =~= spec_ensure_schema(old(self)@));
        }
    }

    /// Inserts a brand-new word with all supplied fields; counters a
    /// caller left out take the schema defaults (`familiarity` 0,
    /// `seen_count` 1), `id` and `created_at` are assigned by the store.
    /// The uniqueness constraint on `word` rejects a duplicate with
    /// `DuplicateWord`; an exhausted id space is a `QueryError`.
    pub fn insert_new(&mut self, card: &NewWordCard, now: String) -> (r: Result<(), StoreError>)
        requires
            old(self)@.wf(),
            old(self)@.initialized,
        ensures
            final(self)@.wf(),
            final(self)@.initialized,
            final(self)@ == spec_insert(old(self)@, card@, now@).0,
            r == spec_insert(old(self)@, card@, now@).1,
    {
        proof {
            lemma_insert_wf(self@, card@, now@);
        }
        let found = find_word_index(&self.rows, &card.word);
        match found {
            Some(_) => Err(StoreError::DuplicateWord),
            None => {
                if self.next_id == i32::MAX {
                    Err(StoreError::QueryError)
                } else {
                    let id = self.next_id;
                    let row = WordCard {
                        id: Some(id),
                        word: card.word.clone(),
                        pos: clone_opt_text(&card.pos),
                        definition: clone_opt_text(&card.definition),
                        pronunciation: clone_opt_text(&card.pronunciation),
                        verbs: clone_opt_text(&card.verbs),
                        familiarity: Some(
                            match card.familiarity {
                                Some(f) => f,
                                None => 0,
                            },
                        ),
                        seen_count: Some(
                            match card.seen_count {
                                Some(n) => n,
                                None => 1,
                            },
                        ),
                        created_at: Some(now),
                    };
                    proof {
                        assert(row@ =~= stored_row(card@, old(self)@.next_id, now@));
                    }
                    self.rows.push(row);
                    self.next_id = id + 1;
                    proof {
                        assert(self@.rows =~= old(self)@.rows.push(row@));
                        assert(self@ =~= spec_insert(old(self)@, card@, now@).0);
                    }
                    Ok(())
                }
            }
        }
    }

    /// Upsert by word. A fresh word is inserted; an existing word has its
    /// stored `seen_count` bumped by exactly one, and every other stored
    /// field — and every other field of the incoming card — is left
    /// untouched. The existing-word path is also what a racing duplicate
    /// insert falls back to, so the uniqueness constraint can never be
    /// surfaced by this operation.
    pub fn upsert_by_word(&mut self, card: &NewWordCard, now: String) -> (r: Result<
        (),
        StoreError,
    >)
        requires
            old(self)@.wf(),
            old(self)@.initialized,
        ensures
            final(self)@.wf(),
            final(self)@.initialized,
            final(self)@ == spec_upsert(old(self)@, card@, now@).0,
            r == spec_upsert(old(self)@, card@, now@).1,
    {
        proof {
            lemma_upsert_wf(self@, card@, now@);
        }
        let attempted = self.insert_new(card, now);
        match attempted {
            Ok(()) => Ok(()),
            Err(StoreError::DuplicateWord) => {
                // The word is already stored (perhaps a concurrent save won
                // the insert): treat the conflict as the update path.
                let found = find_word_index(&self.rows, &card.word);
                match found {
                    Some(i) => {
                        self.bump_row_at(i);
                        proof {
                            assert(self@ =~= spec_upsert(old(self)@, card@, now@).0);
                        }
                        Ok(())
                    },
                    None => {
                        // The duplicate answer guarantees the word is present.
                        assert(false);
                        Err(StoreError::QueryError)
                    },
                }
            },
            Err(e) => Err(e),
        }
    }

    /// Replaces the row at `i` with its seen-count-bumped image.
    fn bump_row_at(&mut self, i: usize)
        requires
            i < old(self)@.rows.len(),
        ensures
            final(self)@.rows == old(self)@.rows.update(
                i as int,
                crate::model::bumped_row(old(self)@.rows[i as int]),
            ),
            final(self)@.next_id == old(self)@.next_id,
            final(self)@.initialized == old(self)@.initialized,
    {
        let new_count: Option<i32> = match self.rows[i].seen_count {
            Some(v) => Some(
                if v < i32::MAX {
                    v + 1
                } else {
                    v
                },
            ),
            None => None,
        };
        let updated = WordCard { seen_count: new_count, ..self.rows[i].clone() };
        self.rows.set(i, updated);
        proof {
            assert(self@.rows =~= old(self)@.rows.update(
                i as int,
                crate::model::bumped_row(old(self)@.rows[i as int]),
            ));
        }
    }

    /// Exact-match point lookup by word; absence is `Ok(None)`, never a
    /// failure, and the returned card is a copy of the stored row.
    pub fn get_by_word(&self, word: &String) -> (r: Result<Option<WordCard>, StoreError>)
        requires
            self@.wf(),
            self@.initialized,
        ensures
            r matches Ok(o) && opt_card_view(o) == spec_get_by_word(self@, word@),
    {
        let found = find_word_index(&self.rows, word);
        match found {
            Some(i) => Ok(Some(self.rows[i].clone())),
            None => Ok(None),
        }
    }

    /// Unordered full scan: a copy of every stored row, in storage order.
    /// An empty store yields an empty sequence, never a failure.
    pub fn get_all(&self) -> (r: Result<Vec<WordCard>, StoreError>)
        requires
            self@.wf(),
            self@.initialized,
        ensures
            r matches Ok(v) && rows_view(v@) == self@.rows,
    {
        let n = self.rows.len();
        let mut out: Vec<WordCard> = Vec::new();
        let mut i: usize = 0;
        while i < n
            invariant
                n == self.rows@.len(),
                i <= n,
                out@.len() == i,
                forall|j: int| 0 <= j < i ==> (#[trigger] out@[j])@ == self@.rows[j],
            decreases n - i,
        {
            out.push(self.rows[i].clone());
            i += 1;
        }
        proof {
            assert(rows_view(out@) =~= self@.rows);
        }
        Ok(out)
    }

    /// Sets familiarity to an absolute value on the row with the given
    /// id. Fails with `NotFound` exactly when no row has that id, leaving
    /// the store unchanged; no other field of the row is touched.
    pub fn update_familiarity(&mut self, id: i32, level: i32) -> (r: Result<(), StoreError>)
        requires
            old(self)@.wf(),
            old(self)@.initialized,
        ensures
            final(self)@.wf(),
            final(self)@.initialized,
            final(self)@ == spec_update_familiarity(old(self)@, id as int, level as int).0,
            r == spec_update_familiarity(old(self)@, id as int, level as int).1,
    {
        proof {
            lemma_update_familiarity_wf(self@, id as int, level as int);
        }
        let found = find_id_index(&self.rows, id);
        match found {
            None => Err(StoreError::NotFound),
            Some(i) => {
                let updated = WordCard { familiarity: Some(level), ..self.rows[i].clone() };
                self.rows.set(i, updated);
                proof {
                    assert(self@ =~= spec_update_familiarity(
                        old(self)@,
                        id as int,
                        level as int,
                    ).0);
                }
                Ok(())
            },
        }
    }

    /// Removes the row with the given id. Fails with `NotFound` exactly
    /// when no row has that id, leaving the store unchanged.
    pub fn delete(&mut self, id: i32) -> (r: Result<(), StoreError>)
        requires
            old(self)@.wf(),
            old(self)@.initialized,
        ensures
            final(self)@.wf(),
            final(self)@.initialized,
            final(self)@ == spec_delete(old(self)@, id as int).0,
            r == spec_delete(old(self)@, id as int).1,
    {
        proof {
            lemma_delete_wf(self@, id as int);
        }
        let found = find_id_index(&self.rows, id);
        match found {
            None => Err(StoreError::NotFound),
            Some(i) => {
                let _ = self.rows.remove(i);
                proof {
                    assert(self@.rows =~= spec_delete(old(self)@, id as int).0.rows);
                    assert(self@ =~= spec_delete(old(self)@, id as int).0);
                }
                Ok(())
            },
        }
    }

    /// Adds exactly one to the stored counter of the row with the given
    /// id, in a single store-level step. Fails with `NotFound` exactly
    /// when no row has that id, leaving the store unchanged.
    pub fn increment_seen_count(&mut self, id: i32) -> (r: Result<(), StoreError>)
        requires
            old(self)@.wf(),
            old(self)@.initialized,
        ensures
            final(self)@.wf(),
            final(self)@.initialized,
            final(self)@ == spec_increment_seen_count(old(self)@, id as int).0,
            r == spec_increment_seen_count(old(self)@, id as int).1,
    {
        proof {
            lemma_increment_wf(self@, id as int);
        }
        let found = find_id_index(&self.rows, id);
        match found {
            None => Err(StoreError::NotFound),
            Some(i) => {
                self.bump_row_at(i);
                proof {
                    assert(self@ =~= spec_increment_seen_count(old(self)@, id as int).0);
                }
                Ok(())
            },
        }
    }

    /// Total row count; used only for diagnostics.
    pub fn count(&self) -> (r: Result<usize, StoreError>)
        requires
            self@.wf(),
            self@.initialized,
        ensures
            r matches Ok(n) && n == self@.rows.len(),
    {
        Ok(self.rows.len())
    }
}

} // verus!
