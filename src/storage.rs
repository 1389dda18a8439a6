use vstd::prelude::*;

use crate::clock::is_uuid_v4_text;

pub mod cacache_storage;
pub mod memory_storage;

pub use cacache_storage::{
    answer_from_read, expired_keys, removal_step, stored_token, CacacheStorage, ReadOutcome,
    StorageError,
};
pub use memory_storage::MemoryStorage;

verus! {

/// The view of an answer that a lookup returned.
pub open spec fn answer_view(o: Option<String>) -> Option<Seq<char>> {
    match o {
        Some(s) => Some(s@),
        None => None,
    }
}

/// A store of captcha answers keyed by token, with expiry and deletion.
///
/// Each store says through its own predicates (`stored`, `looked_up`,
/// `removed`, `swept`) what its operations leave and return. Where
/// `is_modelled()` holds, `answers()` is exactly what the store holds and no
/// operation fails. A store whose records live outside the value itself (on
/// disk) is not modelled: its predicates state what holds whatever the disk
/// gave.
pub trait CaptchaStorage: Sized {
    /// The error of the store's operations.
    type Error;

    /// The live answers, keyed by token.
    spec fn answers(&self) -> Map<Seq<char>, Seq<char>>;

    /// Whether `answers()` describes the records of the store.
    spec fn is_modelled() -> bool;

    /// The store's internal invariant.
    spec fn well_formed(&self) -> bool;

    /// What storing `answer` may leave (`after`) and return (`r`).
    spec fn stored(before: &Self, after: &Self, answer: Seq<char>, r: Result<String, Self::Error>) -> bool;

    /// What a lookup of `token` may return.
    spec fn looked_up(&self, token: Seq<char>, r: Result<Option<String>, Self::Error>) -> bool;

    /// What removing `token` may leave (`after`) and return (`r`).
    spec fn removed(before: &Self, after: &Self, token: Seq<char>, r: Result<(), Self::Error>) -> bool;

    /// What a sweep of `before` with the given expiry age (in milliseconds) may
    /// leave, whatever time the clock gave.
    spec fn swept(before: &Self, after: &Self, expired_after: u64) -> bool;

    /// Stores an answer under a fresh token, the text of a random version-4
    /// UUID, and returns the token.
    fn store_answer(&mut self, answer: String) -> (r: Result<String, Self::Error>)
        requires
            old(self).well_formed(),
        ensures
            final(self).well_formed(),
            Self::stored(old(self), final(self), answer@, r),
            r matches Ok(t) ==> is_uuid_v4_text(t@),
            Self::is_modelled() ==> (r matches Ok(t) && final(self).answers() == old(
                self,
            ).answers().insert(t@, answer@)),
    ;

    /// Returns the answer stored for the token, or `None` where there is none.
    fn get_answer(&self, token: &str) -> (r: Result<Option<String>, Self::Error>)
        requires
            self.well_formed(),
        ensures
            self.looked_up(token@, r),
            Self::is_modelled() ==> (r matches Ok(o) && answer_view(o) == self.answers().get(
                token@,
            )),
    ;

    /// Removes every record whose age is at least `expired_after` milliseconds.
    /// A sweep does not fail: a record that cannot be removed is left for the
    /// next one.
    fn clear_expired(&mut self, expired_after: u64) -> (r: Result<(), Self::Error>)
        requires
            old(self).well_formed(),
        ensures
            final(self).well_formed(),
            r is Ok,
            Self::swept(old(self), final(self), expired_after),
            Self::is_modelled() ==> final(self).answers().submap_of(old(self).answers()),
    ;

    /// Removes the record of the token; a token without a record is no error.
    fn clear_by_token(&mut self, token: &str) -> (r: Result<(), Self::Error>)
        requires
            old(self).well_formed(),
        ensures
            final(self).well_formed(),
            Self::removed(old(self), final(self), token@, r),
            Self::is_modelled() ==> r is Ok && final(self).answers() == old(self).answers().remove(
                token@,
            ),
    ;
}

} // verus!
