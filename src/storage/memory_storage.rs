use vstd::prelude::*;
use vstd::string::StringExecFns;

use crate::clock::{new_token, now_millis};
use crate::storage::{answer_view, CaptchaStorage};

verus! {

/// One stored answer.
struct Record {
    token: String,
    created_at: u128,
    answer: String,
}

/// The records as a map from token to (creation time, answer); a later
/// record of a token hides an earlier one.
spec fn record_map(s: Seq<Record>) -> Map<Seq<char>, (u128, Seq<char>)>
    decreases s.len(),
{
    if s.len() == 0 {
        Map::empty()
    } else {
        let r = s.last();
        record_map(s.drop_last()).insert(r.token@, (r.created_at, r.answer@))
    }
}

spec fn unique_tokens(s: Seq<Record>) -> bool {
    forall|i: int, j: int| 0 <= i < j < s.len() ==> (#[trigger] s[i]).token@ != (#[trigger] s[j]).token@
}

/// Whether a record created at `created_at` has expired at `now` (both in
/// milliseconds since the Unix epoch): its age is at least `expired_after`
/// milliseconds.
pub open spec fn is_expired(created_at: u128, now: u128, expired_after: u64) -> bool {
    created_at + expired_after <= now
}

/// The records that are left after an expiry sweep at `now`.
pub open spec fn live_records(
    records: Map<Seq<char>, (u128, Seq<char>)>,
    now: u128,
    expired_after: u64,
) -> Map<Seq<char>, (u128, Seq<char>)> {
    Map::new(
        |k: Seq<char>| records.contains_key(k) && !is_expired(records[k].0, now, expired_after),
        |k: Seq<char>| records[k],
    )
}

/// Which records a filter keeps.
enum KeepRule {
    /// Those of every token but this one.
    OtherThan(String),
    /// Those not expired at the time with the age (both in milliseconds).
    LiveAt(u128, u64),
}

spec fn keeps(rule: KeepRule, token: Seq<char>, created_at: u128) -> bool {
    match rule {
        KeepRule::OtherThan(t) => token != t@,
        KeepRule::LiveAt(now, age) => !is_expired(created_at, now, age),
    }
}

/// The records of a map that the rule keeps.
spec fn retained(records: Map<Seq<char>, (u128, Seq<char>)>, rule: KeepRule) -> Map<
    Seq<char>,
    (u128, Seq<char>),
> {
    Map::new(|k: Seq<char>| records.contains_key(k) && keeps(rule, k, records[k].0), |k: Seq<char>| records[k])
}

/// The answers of a map of records.
pub open spec fn answers_of(records: Map<Seq<char>, (u128, Seq<char>)>) -> Map<Seq<char>, Seq<char>> {
    records.map_values(|v: (u128, Seq<char>)| v.1)
}

proof fn lemma_record_map(s: Seq<Record>)
    requires
        unique_tokens(s),
    ensures
        forall|k: Seq<char>|
            #![trigger record_map(s).contains_key(k)]
            record_map(s).contains_key(k) <==> exists|i: int| 0 <= i < s.len() && (#[trigger] s[i]).token@ == k,
        forall|i: int|
            0 <= i < s.len() ==> record_map(s)[(#[trigger] s[i]).token@] == (s[i].created_at, s[i].answer@),
    decreases s.len(),
{
    if s.len() > 0 {
        let t = s.drop_last();
        assert forall|i: int, j: int| 0 <= i < j < t.len() implies (#[trigger] t[i]).token@ != (
        #[trigger] t[j]).token@ by {
            assert(t[i] == s[i] && t[j] == s[j]);
        }
        lemma_record_map(t);
        assert forall|k: Seq<char>| #[trigger]
            record_map(s).contains_key(k) implies exists|i: int|
            0 <= i < s.len() && (#[trigger] s[i]).token@ == k by {
            if k != s.last().token@ {
                assert(record_map(t).contains_key(k));
                let i = choose|i: int| 0 <= i < t.len() && (#[trigger] t[i]).token@ == k;
                assert(s[i] == t[i]);
            } else {
                assert(s[s.len() - 1].token@ == k);
            }
        }
        assert forall|k: Seq<char>|
            (exists|i: int| 0 <= i < s.len() && (#[trigger] s[i]).token@ == k) implies #[trigger]
            record_map(s).contains_key(k) by {
            let i = choose|i: int| 0 <= i < s.len() && (#[trigger] s[i]).token@ == k;
            if i < s.len() - 1 {
                assert(t[i] == s[i]);
            }
        }
        assert forall|i: int| 0 <= i < s.len() implies record_map(s)[(#[trigger] s[i]).token@] == (
        s[i].created_at, s[i].answer@) by {
            if i < s.len() - 1 {
                assert(t[i] == s[i]);
            }
        }
    }
}

/// Whether two strings hold the same characters.
fn same_text(a: &str, b: &str) -> (r: bool)
    ensures
        r == (a@ == b@),
{
    let n = a.unicode_len();
    if n != b.unicode_len() {
        return false;
    }
    let mut i: usize = 0;
    while i < n
        invariant
            n == a@.len(),
            n == b@.len(),
            i <= n,
            forall|j: int| 0 <= j < i ==> a@[j] == b@[j],
        decreases n - i,
    {
        if a.get_char(i) != b.get_char(i) {
            return false;
        }
        i = i + 1;
    }
    assert(a@ =~= b@);
    true
}

/// Whether the rule keeps the record.
fn rule_keeps(rule: &KeepRule, r: &Record) -> (b: bool)
    ensures
        b == keeps(*rule, r.token@, r.created_at),
{
    match rule {
        KeepRule::OtherThan(t) => !same_text(r.token.as_str(), t.as_str()),
        KeepRule::LiveAt(now, age) => {
            let age = *age as u128;
            age > *now || r.created_at > *now - age
        },
    }
}

/// A store that keeps the records in the process's memory.
///
/// The records are held in a `Vec` in which no two share a token; the store
/// is seen as the map from each token to its record.
pub struct MemoryStorage {
    records: Vec<Record>,
}

impl MemoryStorage {
    /// The records held, as a map from token to (creation time in
    /// milliseconds since the Unix epoch, answer).
    pub closed spec fn records(&self) -> Map<Seq<char>, (u128, Seq<char>)> {
        record_map(self.records@)
    }

    /// The tokens of the records are distinct.
    pub closed spec fn is_well_formed(&self) -> bool {
        unique_tokens(self.records@)
    }

    /// Creates an empty store.
    pub fn new() -> (r: Self)
        ensures
            r.is_well_formed(),
            r.records() == Map::<Seq<char>, (u128, Seq<char>)>::empty(),
    {
        MemoryStorage { records: Vec::new() }
    }

    /// The answer stored under the token, if any.
    pub fn lookup(&self, token: &str) -> (r: Option<String>)
        requires
            self.is_well_formed(),
        ensures
            answer_view(r) == answers_of(self.records()).get(token@),
    {
        proof {
            lemma_record_map(self.records@);
        }
        let n = self.records.len();
        let mut i: usize = 0;
        while i < n
            invariant
                n == self.records@.len(),
                unique_tokens(self.records@),
                i <= n,
                forall|j: int| 0 <= j < i ==> (#[trigger] self.records@[j]).token@ != token@,
            decreases n - i,
        {
            if same_text(self.records[i].token.as_str(), token) {
                proof {
                    lemma_record_map(self.records@);
                    let r = self.records@[i as int];
                    assert(record_map(self.records@)[token@] == (r.created_at, r.answer@));
                    assert(answers_of(self.records()).contains_key(token@));
                }
                return Some(self.records[i].answer.clone());
            }
            i = i + 1;
        }
        proof {
            lemma_record_map(self.records@);
            assert(!answers_of(self.records()).contains_key(token@));
        }
        None
    }

    /// Keeps the records that the rule keeps and drops the others.
    fn retain(&mut self, rule: &KeepRule)
        requires
            old(self).is_well_formed(),
        ensures
            final(self).is_well_formed(),
            final(self).records() == retained(old(self).records(), *rule),
    {
        let ghost s = self.records@;
        let n = self.records.len();
        let mut kept: Vec<Record> = Vec::new();
        let mut i: usize = 0;
        while i < n
            invariant
                s == self.records@,
                unique_tokens(s),
                n == s.len(),
                i <= n,
                unique_tokens(kept@),
                forall|m: int|
                    0 <= m < kept@.len() ==> record_map(s.take(i as int)).contains_key(
                        (#[trigger] kept@[m]).token@,
                    ),
                record_map(kept@) == retained(record_map(s.take(i as int)), *rule),
            decreases n - i,
        {
            proof {
                lemma_record_map(s.take(i as int));
                assert(s.take(i as int + 1).drop_last() =~= s.take(i as int));
                assert(s.take(i as int + 1).last() == s[i as int]);
                assert(!record_map(s.take(i as int)).contains_key(s[i as int].token@)) by {
                    if record_map(s.take(i as int)).contains_key(s[i as int].token@) {
                        let j = choose|j: int|
                            0 <= j < i && (#[trigger] s.take(i as int)[j]).token@ == s[i as int].token@;
                        assert(s.take(i as int)[j] == s[j]);
                    }
                }
            }
            let r = &self.records[i];
            if rule_keeps(rule, r) {
                let ghost old_kept = kept@;
                kept.push(Record { token: r.token.clone(), created_at: r.created_at, answer: r.answer.clone() });
                proof {
                    assert(kept@.drop_last() =~= old_kept);
                    assert(record_map(kept@) =~= retained(record_map(s.take(i as int + 1)), *rule));
                    assert forall|m: int|
                        0 <= m < kept@.len() implies record_map(s.take(i as int + 1)).contains_key(
                        (#[trigger] kept@[m]).token@) by {
                        if m < old_kept.len() {
                            assert(kept@[m] == old_kept[m]);
                        }
                    }
                    assert forall|a: int, b: int| 0 <= a < b < kept@.len() implies (
                    #[trigger] kept@[a]).token@ != (#[trigger] kept@[b]).token@ by {
                        if b == kept@.len() - 1 {
                            assert(kept@[a] == old_kept[a]);
                        } else {
                            assert(kept@[a] == old_kept[a] && kept@[b] == old_kept[b]);
                        }
                    }
                }
            } else {
                proof {
                    assert(record_map(kept@) =~= retained(record_map(s.take(i as int + 1)), *rule));
                }
            }
            i = i + 1;
        }
        proof {
            assert(s.take(n as int) =~= s);
        }
        self.records = kept;
    }

    /// Removes the record of the token, if any.
    pub fn remove_token(&mut self, token: &str)
        requires
            old(self).is_well_formed(),
        ensures
            final(self).is_well_formed(),
            final(self).records() == old(self).records().remove(token@),
    {
        self.retain(&KeepRule::OtherThan(String::from_str(token)));
        assert(self.records() =~= old(self).records().remove(token@));
    }

    /// Stores an answer under the given token, created at `now`
    /// (milliseconds since the Unix epoch); a record already held under the
    /// token is replaced.
    pub fn store_answer_at(&mut self, token: String, now: u128, answer: String)
        requires
            old(self).is_well_formed(),
        ensures
            final(self).is_well_formed(),
            final(self).records() == old(self).records().insert(token@, (now, answer@)),
    {
        self.remove_token(token.as_str());
        proof {
            lemma_record_map(self.records@);
        }
        let ghost before = self.records@;
        self.records.push(Record { token, created_at: now, answer });
        proof {
            assert(self.records@.drop_last() =~= before);
            assert forall|a: int, b: int| 0 <= a < b < self.records@.len() implies (
            #[trigger] self.records@[a]).token@ != (#[trigger] self.records@[b]).token@ by {
                assert(self.records@[a] == before[a]);
                if b < before.len() {
                    assert(self.records@[b] == before[b]);
                } else {
                    assert(record_map(before).contains_key(before[a].token@));
                }
            }
        }
    }

    /// Removes every record that has expired at `now`: those whose age is at
    /// least `expired_after` (both in milliseconds).
    pub fn expire_at(&mut self, now: u128, expired_after: u64)
        requires
            old(self).is_well_formed(),
        ensures
            final(self).is_well_formed(),
            final(self).records() == live_records(old(self).records(), now, expired_after),
    {
        self.retain(&KeepRule::LiveAt(now, expired_after));
        assert(self.records() =~= live_records(old(self).records(), now, expired_after));
    }
}

impl CaptchaStorage for MemoryStorage {
    type Error = std::convert::Infallible;

    open spec fn answers(&self) -> Map<Seq<char>, Seq<char>> {
        answers_of(self.records())
    }

    open spec fn is_modelled() -> bool {
        true
    }

    open spec fn well_formed(&self) -> bool {
        self.is_well_formed()
    }

    /// The answer is stored under the returned token, created at some
    /// reading of the clock.
    open spec fn stored(before: &Self, after: &Self, answer: Seq<char>, r: Result<String, Self::Error>) -> bool {
        r matches Ok(t) && exists|now: u128| after.records() == before.records().insert(t@, (now, answer))
    }

    /// The lookup gives the answer held under the token, if any.
    open spec fn looked_up(&self, token: Seq<char>, r: Result<Option<String>, Self::Error>) -> bool {
        r matches Ok(o) && answer_view(o) == answers_of(self.records()).get(token)
    }

    /// The record of the token is gone; nothing else changes.
    open spec fn removed(before: &Self, after: &Self, token: Seq<char>, r: Result<(), Self::Error>) -> bool {
        r is Ok && after.records() == before.records().remove(token)
    }

    /// The records that are live at some reading of the clock.
    open spec fn swept(before: &Self, after: &Self, expired_after: u64) -> bool {
        exists|now: u128| after.records() == live_records(before.records(), now, expired_after)
    }

    /// Stores the answer under a fresh random token, created now.
    fn store_answer(&mut self, answer: String) -> (r: Result<String, Self::Error>) {
        let token = new_token();
        let t = now_millis();
        self.store_answer_at(token.clone(), t, answer);
        proof {
            assert(self.records() == old(self).records().insert(token@, (t, answer@)));
            assert(answers_of(self.records()) =~= answers_of(old(self).records()).insert(
                token@,
                answer@,
            ));
        }
        let r: Result<String, Self::Error> = Ok(token);
        proof {
            assert(self.records() == old(self).records().insert(r->Ok_0@, (t, answer@)));
        }
        r
    }

    fn get_answer(&self, token: &str) -> (r: Result<Option<String>, Self::Error>) {
        Ok(self.lookup(token))
    }

    fn clear_expired(&mut self, expired_after: u64) -> (r: Result<(), Self::Error>) {
        let t = now_millis();
        self.expire_at(t, expired_after);
        assert(self.records() == live_records(old(self).records(), t, expired_after));
        Ok(())
    }

    fn clear_by_token(&mut self, token: &str) -> (r: Result<(), Self::Error>) {
        self.remove_token(token);
        proof {
            assert(answers_of(self.records()) =~= answers_of(old(self).records()).remove(token@));
        }
        Ok(())
    }
}

} // verus!
