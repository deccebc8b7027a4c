use vstd::prelude::*;
use vstd::string::StringExecFns;

verus! {

/// The closed set of failure kinds that the store and the command façade
/// report. Validation failures never touch the store; store-level failures
/// carry the kind of fault so that callers can branch on it.
#[derive(Clone, Copy, Debug, PartialEq, Eq, Structural)]
pub enum StoreError {
    /// Bad input caught at the command façade; the store was not touched.
    ValidationError,
    /// An id-keyed operation matched no row.
    NotFound,
    /// An insert hit the uniqueness constraint on `word`.
    DuplicateWord,
    /// The store could not be opened or initialized.
    StoreUnavailable,
    /// Any other store-level fault.
    QueryError,
}

/// The human-readable text that belongs to each failure kind.
pub open spec fn message_of(e: StoreError) -> Seq<char> {
    match e {
        StoreError::ValidationError => "invalid input, the store was not touched"@,
        StoreError::NotFound => "no word card matched the given id"@,
        StoreError::DuplicateWord => "a word card with this word already exists"@,
        StoreError::StoreUnavailable => "the store could not be opened"@,
        StoreError::QueryError => "the store reported a fault"@,
    }
}

/// A failure message wrapped with its operation context: the operation
/// that failed and the key it concerned.
pub open spec fn contextual_message_of(e: StoreError, operation: Seq<char>, key: Seq<char>) -> Seq<
    char,
> {
    operation + ": "@ + message_of(e) + " (key "@ + key + ")"@
}

impl StoreError {
    /// The user-facing message for this failure kind.
    pub fn message(&self) -> (r: &'static str)
        ensures
            r@ == message_of(*self),
    {
        match self {
            StoreError::ValidationError => "invalid input, the store was not touched",
            StoreError::NotFound => "no word card matched the given id",
            StoreError::DuplicateWord => "a word card with this word already exists",
            StoreError::StoreUnavailable => "the store could not be opened",
            StoreError::QueryError => "the store reported a fault",
        }
    }

    /// The user-facing message wrapped with the operation that failed and
    /// the key (an id or a word) it concerned.
    pub fn contextual_message(&self, operation: &str, key: &str) -> (r: String)
        ensures
            r@ == contextual_message_of(*self, operation@, key@),
    {
        String::from_str(operation).concat(": ").concat(self.message()).concat(" (key ").concat(
            key,
        ).concat(")")
    }
}

} // verus!
