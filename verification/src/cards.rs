use vstd::prelude::*;

verus! {

/// Spec-level image of a word card: text fields as character sequences,
/// counters as mathematical integers.
#[verifier::ext_equal]
pub ghost struct CardModel {
    pub id: Option<int>,
    pub word: Seq<char>,
    pub pos: Option<Seq<char>>,
    pub definition: Option<Seq<char>>,
    pub pronunciation: Option<Seq<char>>,
    pub verbs: Option<Seq<char>>,
    pub familiarity: Option<int>,
    pub seen_count: Option<int>,
    pub created_at: Option<Seq<char>>,
}

/// Spec-level image of a card as a caller supplies it for saving.
#[verifier::ext_equal]
pub ghost struct NewCardModel {
    pub word: Seq<char>,
    pub pos: Option<Seq<char>>,
    pub definition: Option<Seq<char>>,
    pub pronunciation: Option<Seq<char>>,
    pub verbs: Option<Seq<char>>,
    pub familiarity: Option<int>,
    pub seen_count: Option<int>,
}

pub open spec fn opt_text_view(o: Option<String>) -> Option<Seq<char>> {
    match o {
        Some(s) => Some(s@),
        None => None,
    }
}

pub open spec fn opt_int_view(o: Option<i32>) -> Option<int> {
    match o {
        Some(n) => Some(n as int),
        None => None,
    }
}

/// A card as a caller supplies it for saving. Optional counters left as
/// `None` take the store's defaults on insertion (`familiarity` 0,
/// `seen_count` 1); optional text fields left as `None` stay absent.
pub struct NewWordCard {
    pub word: String,
    pub pos: Option<String>,
    pub definition: Option<String>,
    pub pronunciation: Option<String>,
    pub verbs: Option<String>,
    pub familiarity: Option<i32>,
    pub seen_count: Option<i32>,
}

/// A stored word card as query operations return it. `id` and
/// `created_at` are assigned by the store on insertion.
pub struct WordCard {
    pub id: Option<i32>,
    pub word: String,
    pub pos: Option<String>,
    pub definition: Option<String>,
    pub pronunciation: Option<String>,
    pub verbs: Option<String>,
    pub familiarity: Option<i32>,
    pub seen_count: Option<i32>,
    pub created_at: Option<String>,
}

impl View for NewWordCard {
    type V = NewCardModel;

    open spec fn view(&self) -> NewCardModel {
        NewCardModel {
            word: self.word@,
            pos: opt_text_view(self.pos),
            definition: opt_text_view(self.definition),
            pronunciation: opt_text_view(self.pronunciation),
            verbs: opt_text_view(self.verbs),
            familiarity: opt_int_view(self.familiarity),
            seen_count: opt_int_view(self.seen_count),
        }
    }
}

impl View for WordCard {
    type V = CardModel;

    open spec fn view(&self) -> CardModel {
        CardModel {
            id: opt_int_view(self.id),
            word: self.word@,
            pos: opt_text_view(self.pos),
            definition: opt_text_view(self.definition),
            pronunciation: opt_text_view(self.pronunciation),
            verbs: opt_text_view(self.verbs),
            familiarity: opt_int_view(self.familiarity),
            seen_count: opt_int_view(self.seen_count),
            created_at: opt_text_view(self.created_at),
        }
    }
}

pub(crate) fn clone_opt_text(o: &Option<String>) -> (r: Option<String>)
    ensures
        r == *o,
{
    match o {
        Some(s) => Some(s.clone()),
        None => None,
    }
}

impl Clone for WordCard {
    fn clone(&self) -> (r: Self)
        ensures
            r == *self,
    {
        WordCard {
            id: self.id,
            word: self.word.clone(),
            pos: clone_opt_text(&self.pos),
            definition: clone_opt_text(&self.definition),
            pronunciation: clone_opt_text(&self.pronunciation),
            verbs: clone_opt_text(&self.verbs),
            familiarity: self.familiarity,
            seen_count: self.seen_count,
            created_at: clone_opt_text(&self.created_at),
        }
    }
}

} // verus!
