use vstd::prelude::*;
use vstd::utf8::{decode_utf8, valid_utf8};

use crate::clock::{new_token, now_millis};
use crate::storage::CaptchaStorage;

verus! {

#[verifier::external_type_specification]
#[verifier::external_body]
pub struct ExCacacheError(cacache::Error);

/// The error of the persistent store.
#[derive(Debug)]
pub enum StorageError {
    /// The cache failed to read, write, list or remove an entry.
    Cache(cacache::Error),
    /// A stored answer is not valid UTF-8.
    InvalidUtf8,
}

/// What reading an entry of the cache found.
#[derive(Debug)]
pub enum ReadOutcome {
    /// The bytes stored under the key.
    Found(Vec<u8>),
    /// The cache holds no entry for the key.
    Missing,
    /// The read failed.
    Failed(cacache::Error),
}

/// Relies on `cacache::write_sync`: writes the bytes of `data` to the cache in
/// `dir`, indexed under `key`.
#[verifier::external_body]
fn cache_write(dir: &str, key: &str, data: &str) -> Result<(), cacache::Error> {
    cacache::write_sync(dir, key, data.as_bytes()).map(|_| ())
}

/// Relies on `cacache::read_sync`: the bytes stored under `key`, or its
/// `Error::EntryNotFound` when the index has no entry for the key.
#[verifier::external_body]
fn cache_read(dir: &str, key: &str) -> ReadOutcome {
    match cacache::read_sync(dir, key) {
        Ok(bytes) => ReadOutcome::Found(bytes),
        Err(cacache::Error::EntryNotFound(_, _)) => ReadOutcome::Missing,
        Err(e) => ReadOutcome::Failed(e),
    }
}

/// Relies on `cacache::metadata_sync`: whether the index holds an entry for
/// `key`.
#[verifier::external_body]
fn cache_has_entry(dir: &str, key: &str) -> Result<bool, cacache::Error> {
    cacache::metadata_sync(dir, key).map(|m| m.is_some())
}

/// Relies on `cacache::RemoveOpts::remove_sync` with `remove_fully(true)`:
/// removes the index entry of `key` and its content from the disk.
#[verifier::external_body]
fn cache_remove(dir: &str, key: &str) -> Result<(), cacache::Error> {
    cacache::RemoveOpts::new().remove_fully(true).remove_sync(dir, key)
}

/// Relies on `cacache::index::ls`: the key and the write time (Unix
/// milliseconds) of each index entry, `None` for an entry that could not be read.
#[verifier::external_body]
fn cache_index(dir: &str) -> Vec<Option<(String, u128)>> {
    cacache::index::ls(std::path::Path::new(dir)).map(|m| m.ok().map(|m| (m.key, m.time))).collect()
}

/// Relies on `String::from_utf8`: the text of the bytes where they are valid
/// UTF-8, and an error otherwise.
#[verifier::external_body]
fn utf8_text(bytes: Vec<u8>) -> (r: Option<String>)
    ensures
        r is Some <==> valid_utf8(bytes@),
        r matches Some(s) ==> s@ == decode_utf8(bytes@),
{
    String::from_utf8(bytes).ok()
}

/// The answer that a read of the cache gives: the stored text, no answer
/// where the entry is missing, an error where the read failed or the bytes
/// are not UTF-8.
pub fn answer_from_read(read: ReadOutcome) -> (r: Result<Option<String>, StorageError>)
    ensures
        match read {
            ReadOutcome::Found(b) => if valid_utf8(b@) {
                r matches Ok(Some(s)) && s@ == decode_utf8(b@)
            } else {
                r matches Err(StorageError::InvalidUtf8)
            },
            ReadOutcome::Missing => r matches Ok(None),
            ReadOutcome::Failed(e) => r matches Err(StorageError::Cache(e2)) && e2 == e,
        },
{
    match read {
        ReadOutcome::Found(bytes) => match utf8_text(bytes) {
            Some(s) => Ok(Some(s)),
            None => Err(StorageError::InvalidUtf8),
        },
        ReadOutcome::Missing => Ok(None),
        ReadOutcome::Failed(e) => Err(StorageError::Cache(e)),
    }
}

/// The result of storing under `token`, given what the write to the cache
/// gave: the token, or the cache's error.
pub fn stored_token(token: String, write: Result<(), cacache::Error>) -> (r: Result<String, StorageError>)
    ensures
        match write {
            Ok(_) => r == Ok::<String, StorageError>(token),
            Err(e) => r matches Err(StorageError::Cache(e2)) && e2 == e,
        },
{
    match write {
        Ok(()) => Ok(token),
        Err(e) => Err(StorageError::Cache(e)),
    }
}

/// What a removal does, given whether the index holds an entry for the key:
/// with no entry it is done and succeeds (removing a missing token is no
/// error); with one the entry is to be removed (`None`); a failed check is
/// the cache's error.
pub fn removal_step(has_entry: Result<bool, cacache::Error>) -> (r: Option<Result<(), StorageError>>)
    ensures
        match has_entry {
            Ok(false) => r matches Some(Ok(())),
            Ok(true) => r is None,
            Err(e) => r matches Some(Err(StorageError::Cache(e2))) && e2 == e,
        },
{
    match has_entry {
        Ok(false) => Some(Ok(())),
        Ok(true) => None,
        Err(e) => Some(Err(StorageError::Cache(e))),
    }
}

/// Whether an entry written at `time` has expired at `now` (both in Unix
/// milliseconds): its age is at least `expired_after` milliseconds.
pub open spec fn entry_expired(time: u128, now: u128, expired_after: u128) -> bool {
    time + expired_after <= now
}

/// The keys of the expired entries, in the order of the listing; entries
/// that could not be read are passed over.
pub open spec fn expired_keys_of(entries: Seq<Option<(String, u128)>>, now: u128, expired_after: u128) -> Seq<
    Seq<char>,
>
    decreases entries.len(),
{
    if entries.len() == 0 {
        Seq::empty()
    } else {
        let rest = expired_keys_of(entries.drop_last(), now, expired_after);
        match entries.last() {
            Some((k, t)) => if entry_expired(t, now, expired_after) {
                rest.push(k@)
            } else {
                rest
            },
            None => rest,
        }
    }
}

/// The keys of the entries of a listing that have expired at `now`.
pub fn expired_keys(entries: &Vec<Option<(String, u128)>>, now: u128, expired_after: u128) -> (r: Vec<
    String,
>)
    ensures
        r@.map_values(|s: String| s@) == expired_keys_of(entries@, now, expired_after),
{
    let mut keys: Vec<String> = Vec::new();
    let n = entries.len();
    let mut i: usize = 0;
    while i < n
        invariant
            n == entries@.len(),
            i <= n,
            keys@.map_values(|s: String| s@) == expired_keys_of(entries@.take(i as int), now, expired_after),
        decreases n - i,
    {
        proof {
            assert(entries@.take(i as int + 1).drop_last() =~= entries@.take(i as int));
            assert(entries@.take(i as int + 1).last() == entries@[i as int]);
        }
        match &entries[i] {
            Some((k, t)) => {
                if *t <= now && now - *t >= expired_after {
                    keys.push(k.clone());
                    proof {
                        assert(keys@.map_values(|s: String| s@) =~= expired_keys_of(
                            entries@.take(i as int + 1),
                            now,
                            expired_after,
                        ));
                    }
                }
            },
            None => {},
        }
        i = i + 1;
    }
    proof {
        assert(entries@.take(n as int) =~= entries@);
    }
    keys
}

/// A store that keeps each answer as an entry of a content-addressed cache
/// on disk, keyed by its token.
#[derive(Debug, Clone)]
pub struct CacacheStorage {
    cache_dir: String,
}

impl CacacheStorage {
    /// The directory of the cache.
    pub closed spec fn dir(&self) -> Seq<char> {
        self.cache_dir@
    }

    /// Creates a store on the cache in the given directory.
    pub fn new(cache_dir: String) -> (r: Self)
        ensures
            r.dir() == cache_dir@,
    {
        CacacheStorage { cache_dir }
    }

    /// The directory of the cache.
    pub fn cache_dir(&self) -> (r: &str)
        ensures
            r@ == self.dir(),
    {
        self.cache_dir.as_str()
    }
}

impl CaptchaStorage for CacacheStorage {
    type Error = StorageError;

    /// The records live on disk, where the library does not observe them.
    open spec fn answers(&self) -> Map<Seq<char>, Seq<char>> {
        Map::empty()
    }

    open spec fn is_modelled() -> bool {
        false
    }

    open spec fn well_formed(&self) -> bool {
        true
    }

    /// The store stays on its directory; a failure is the cache's error.
    open spec fn stored(before: &Self, after: &Self, answer: Seq<char>, r: Result<String, Self::Error>) -> bool {
        after.dir() == before.dir() && (r matches Err(e) ==> e is Cache)
    }

    /// Any result of a read of the disk is possible; `answer_from_read`
    /// states how the result is made from what the read found.
    open spec fn looked_up(&self, token: Seq<char>, r: Result<Option<String>, Self::Error>) -> bool {
        true
    }

    /// The store stays on its directory; a failure is the cache's error.
    open spec fn removed(before: &Self, after: &Self, token: Seq<char>, r: Result<(), Self::Error>) -> bool {
        after.dir() == before.dir() && (r matches Err(e) ==> e is Cache)
    }

    /// The store stays on its directory.
    open spec fn swept(before: &Self, after: &Self, expired_after: u64) -> bool {
        after.dir() == before.dir()
    }

    /// Writes the answer under a fresh random token.
    fn store_answer(&mut self, answer: String) -> (r: Result<String, Self::Error>) {
        let token = new_token();
        let write = cache_write(self.cache_dir.as_str(), token.as_str(), answer.as_str());
        stored_token(token, write)
    }

    fn get_answer(&self, token: &str) -> (r: Result<Option<String>, Self::Error>) {
        answer_from_read(cache_read(self.cache_dir.as_str(), token))
    }

    /// Lists the index and removes each expired entry; a failure to remove
    /// one entry does not stop the sweep.
    fn clear_expired(&mut self, expired_after: u64) -> (r: Result<(), Self::Error>) {
        let now = now_millis();
        let entries = cache_index(self.cache_dir.as_str());
        let keys = expired_keys(&entries, now, expired_after as u128);
        let n = keys.len();
        let mut i: usize = 0;
        while i < n
            invariant
                n == keys@.len(),
                i <= n,
            decreases n - i,
        {
            let _ = cache_remove(self.cache_dir.as_str(), keys[i].as_str());
            i = i + 1;
        }
        Ok(())
    }

    fn clear_by_token(&mut self, token: &str) -> (r: Result<(), Self::Error>) {
        match removal_step(cache_has_entry(self.cache_dir.as_str(), token)) {
            Some(done) => done,
            None => match cache_remove(self.cache_dir.as_str(), token) {
                Ok(()) => Ok(()),
                Err(e) => Err(StorageError::Cache(e)),
            },
        }
    }
}

} // verus!
