//! The script store: every script, kept most recently updated first.

use vstd::prelude::*;
use crate::script::{practiced, retitled, views, Script, ScriptView};
use crate::text::str_eq;

verus! {

/// Why a store operation did not take place.
#[derive(Debug, Clone, Copy, PartialEq, Eq, Structural)]
pub enum StoreError {
    /// No script has the given identifier.
    NotFound,
    /// A script with the new identifier is already stored.
    DuplicateId,
}

/// Whether `s` is ordered by `updated_at`, newest first.
pub open spec fn sorted_by_recency(s: Seq<ScriptView>) -> bool {
    forall|i: int, j: int| 0 <= i < j < s.len() ==> s[i].updated_at >= s[j].updated_at
}

/// Whether no two records of `s` share an identifier.
pub open spec fn ids_unique(s: Seq<ScriptView>) -> bool {
    forall|i: int, j: int| 0 <= i < j < s.len() ==> s[i].id != s[j].id
}

/// Whether some record of `s` has identifier `id`.
pub open spec fn has_id(s: Seq<ScriptView>, id: Seq<char>) -> bool {
    exists|i: int| 0 <= i < s.len() && s[i].id == id
}

/// The record of `s` with identifier `id`, where there is one.
pub open spec fn record_of(s: Seq<ScriptView>, id: Seq<char>) -> ScriptView {
    s[choose|i: int| 0 <= i < s.len() && s[i].id == id]
}

/// `s` with every record of identifier `id` left out, the rest in order.
pub open spec fn without(s: Seq<ScriptView>, id: Seq<char>) -> Seq<ScriptView>
    decreases s.len(),
{
    if s.len() == 0 {
        s
    } else {
        let rest = without(s.drop_last(), id);
        if s.last().id == id {
            rest
        } else {
            rest.push(s.last())
        }
    }
}

/// A sequence holding no record of `id` is its own `without`.
pub proof fn lemma_without_absent(s: Seq<ScriptView>, id: Seq<char>)
    requires
        !has_id(s, id),
    ensures
        without(s, id) == s,
    decreases s.len(),
{
    if s.len() > 0 {
        assert(!has_id(s.drop_last(), id)) by {
            if has_id(s.drop_last(), id) {
                let i = choose|i: int| 0 <= i < s.drop_last().len() && s.drop_last()[i].id == id;
                assert(s[i].id == id);
            }
        }
        lemma_without_absent(s.drop_last(), id);
        assert(s.last().id != id);
        assert(s.drop_last().push(s.last()) =~= s);
    }
}

/// With unique identifiers, leaving out `id` removes the one record at `i`.
pub proof fn lemma_without_at(s: Seq<ScriptView>, id: Seq<char>, i: int)
    requires
        ids_unique(s),
        0 <= i < s.len(),
        s[i].id == id,
    ensures
        without(s, id) == s.remove(i),
    decreases s.len(),
{
    let d = s.drop_last();
    if i == s.len() - 1 {
        assert(!has_id(d, id)) by {
            if has_id(d, id) {
                let j = choose|j: int| 0 <= j < d.len() && d[j].id == id;
                assert(s[j].id == s[i].id);
            }
        }
        lemma_without_absent(d, id);
        assert(d =~= s.remove(i));
    } else {
        assert(ids_unique(d));
        lemma_without_at(d, id, i);
        assert(s.last().id != id);
        assert(d.remove(i).push(s.last()) =~= s.remove(i));
    }
}

/// Leaving out `id` leaves no record of `id`.
pub proof fn lemma_without_has_none(s: Seq<ScriptView>, id: Seq<char>)
    ensures
        !has_id(without(s, id), id),
    decreases s.len(),
{
    if s.len() > 0 {
        lemma_without_has_none(s.drop_last(), id);
        let rest = without(s.drop_last(), id);
        if s.last().id != id {
            assert(!has_id(rest.push(s.last()), id)) by {
                if has_id(rest.push(s.last()), id) {
                    let j = choose|j: int|
                        0 <= j < rest.push(s.last()).len() && rest.push(s.last())[j].id == id;
                    assert(j < rest.len() ==> rest[j].id == id);
                }
            }
        }
    }
}

/// Deleting a script twice leaves the store as deleting it once does.
pub proof fn lemma_delete_idempotent(s: Seq<ScriptView>, id: Seq<char>)
    ensures
        without(without(s, id), id) == without(s, id),
{
    lemma_without_has_none(s, id);
    lemma_without_absent(without(s, id), id);
}

/// Removing one record keeps the order and the uniqueness of identifiers.
proof fn lemma_remove_keeps_order(s: Seq<ScriptView>, i: int)
    requires
        sorted_by_recency(s),
        ids_unique(s),
        0 <= i < s.len(),
    ensures
        sorted_by_recency(s.remove(i)),
        ids_unique(s.remove(i)),
{
    let r = s.remove(i);
    assert forall|a: int, b: int| 0 <= a < b < r.len() implies r[a].updated_at >= r[b].updated_at
        && r[a].id != r[b].id by {
        let a2 = if a < i { a } else { a + 1 };
        let b2 = if b < i { b } else { b + 1 };
        assert(r[a] == s[a2] && r[b] == s[b2]);
    }
}

/// Adding a record of a new identifier keeps identifiers unique.
proof fn lemma_insert_keeps_unique(s: Seq<ScriptView>, k: int, r: ScriptView)
    requires
        ids_unique(s),
        !has_id(s, r.id),
        0 <= k <= s.len(),
    ensures
        ids_unique(s.insert(k, r)),
{
    let t = s.insert(k, r);
    assert forall|a: int, b: int| 0 <= a < b < t.len() implies t[a].id != t[b].id by {
        if a == k {
            assert(t[b] == s[b - 1]);
        } else if b == k {
            assert(t[a] == s[a]);
        } else {
            let a2 = if a < k { a } else { a - 1 };
            let b2 = if b < k { b } else { b - 1 };
            assert(t[a] == s[a2] && t[b] == s[b2]);
        }
    }
}

/// The record at `i` is the one that `record_of` picks.
proof fn lemma_record_at(s: Seq<ScriptView>, i: int)
    requires
        ids_unique(s),
        0 <= i < s.len(),
    ensures
        record_of(s, s[i].id) == s[i],
        !has_id(s.remove(i), s[i].id),
{
    let id = s[i].id;
    let j = choose|j: int| 0 <= j < s.len() && s[j].id == id;
    assert(s[j].id == id);
    if has_id(s.remove(i), id) {
        let m = choose|m: int| 0 <= m < s.remove(i).len() && s.remove(i)[m].id == id;
        let m2 = if m < i { m } else { m + 1 };
        assert(s[m2].id == id);
    }
}

/// The script store. Its records are ordered newest first, and no two share
/// an identifier. It also remembers the identifiers of deleted scripts, so
/// that no identifier is ever given to a second script.
pub struct ScriptStore {
    scripts: Vec<Script>,
    retired: Vec<String>,
}

impl View for ScriptStore {
    type V = Seq<ScriptView>;

    closed spec fn view(&self) -> Seq<ScriptView> {
        views(self.scripts@)
    }
}

impl ScriptStore {
    /// The identifiers of the scripts deleted so far, in order of deletion.
    pub closed spec fn retired(&self) -> Seq<Seq<char>> {
        self.retired@.map_values(|s: String| s@)
    }

    /// Whether `id` belongs to a stored script or to a deleted one.
    pub open spec fn ever_used(&self, id: Seq<char>) -> bool {
        has_id(self@, id) || self.retired().contains(id)
    }

    /// The store's invariant.
    pub open spec fn wf(&self) -> bool {
        sorted_by_recency(self@) && ids_unique(self@)
    }

    /// An empty store.
    pub fn new() -> (r: ScriptStore)
        ensures
            r.wf(),
            r@ == Seq::<ScriptView>::empty(),
            r.retired() == Seq::<Seq<char>>::empty(),
    {
        let r = ScriptStore { scripts: Vec::new(), retired: Vec::new() };
        assert(r@ =~= Seq::<ScriptView>::empty());
        assert(r.retired() =~= Seq::<Seq<char>>::empty());
        r
    }

    /// The number of stored scripts.
    pub fn len(&self) -> (r: usize)
        ensures
            r == self@.len(),
    {
        self.scripts.len()
    }

    /// Where the record of `id` stands, if it is stored.
    fn find(&self, id: &str) -> (r: Option<usize>)
        ensures
            match r {
                None => !has_id(self@, id@),
                Some(i) => i < self@.len() && self@[i as int].id == id@,
            },
    {
        let n = self.scripts.len();
        let mut i: usize = 0;
        while i < n
            invariant
                n == self@.len(),
                i <= n,
                forall|j: int| 0 <= j < i ==> self@[j].id != id@,
            decreases n - i,
        {
            if str_eq(self.scripts[i].id.as_str(), id) {
                return Some(i);
            }
            i = i + 1;
        }
        None
    }

    /// Whether `id` belongs to a deleted script.
    fn is_retired(&self, id: &str) -> (r: bool)
        ensures
            r == self.retired().contains(id@),
    {
        let n = self.retired.len();
        let mut i: usize = 0;
        while i < n
            invariant
                n == self.retired().len(),
                i <= n,
                forall|j: int| 0 <= j < i ==> self.retired()[j] != id@,
            decreases n - i,
        {
            if str_eq(self.retired[i].as_str(), id) {
                assert(self.retired()[i as int] == id@);
                return true;
            }
            i = i + 1;
        }
        false
    }

    /// Puts `rec` after every record updated at the same time or later,
    /// and returns where it went.
    fn insert_by_recency(&mut self, rec: Script) -> (k: usize)
        requires
            sorted_by_recency(old(self)@),
        ensures
            k <= old(self)@.len(),
            final(self)@ == old(self)@.insert(k as int, rec@),
            sorted_by_recency(final(self)@),
            final(self).retired() == old(self).retired(),
    {
        let n = self.scripts.len();
        let t = rec.updated_at;
        let mut k: usize = 0;
        while k < n && self.scripts[k].updated_at >= t
            invariant
                n == self@.len(),
                k <= n,
                forall|j: int| 0 <= j < k ==> self@[j].updated_at >= t,
            decreases n - k,
        {
            k = k + 1;
        }
        let ghost before = self@;
        self.scripts.insert(k, rec);
        assert(self@ =~= before.insert(k as int, rec@));
        let ghost s = self@;
        assert forall|a: int, b: int| 0 <= a < b < s.len() implies s[a].updated_at
            >= s[b].updated_at by {
            if b < k {
            } else if b == k {
            } else if a < k {
                assert(s[b] == before[b - 1]);
            } else if a == k {
                assert(before[k as int].updated_at < t);
                assert(s[b] == before[b - 1]);
            } else {
                assert(s[a] == before[a - 1] && s[b] == before[b - 1]);
            }
        }
        k
    }
    /// Adds `rec` as it stands, unless its identifier is stored or was
    /// used by a deleted script.
    pub fn insert(&mut self, rec: Script) -> (r: Result<(), StoreError>)
        requires
            old(self).wf(),
        ensures
            final(self).wf(),
            final(self).retired() == old(self).retired(),
            old(self).ever_used(rec@.id) ==> r == Err::<(), StoreError>(StoreError::DuplicateId)
                && final(self)@ == old(self)@,
            !old(self).ever_used(rec@.id) ==> r is Ok && exists|k: int|
                0 <= k <= old(self)@.len() && final(self)@ == old(self)@.insert(k, rec@),
    {
        if let Some(_) = self.find(rec.id.as_str()) {
            return Err(StoreError::DuplicateId);
        }
        if self.is_retired(rec.id.as_str()) {
            return Err(StoreError::DuplicateId);
        }
        let ghost before = self@;
        let ghost v = rec@;
        let k = self.insert_by_recency(rec);
        proof {
            lemma_insert_keeps_unique(before, k as int, v);
        }
        Ok(())
    }

    /// Stores a new script with identifier `id`, one never used before, created and updated at
    /// `now`, without statistics, and returns it.
    pub fn create_with(&mut self, id: String, title: String, content: String, now: i64) -> (r:
        Result<Script, StoreError>)
        requires
            old(self).wf(),
        ensures
            final(self).wf(),
            final(self).retired() == old(self).retired(),
            old(self).ever_used(id@) ==> r == Err::<Script, StoreError>(StoreError::DuplicateId)
                && final(self)@ == old(self)@,
            !old(self).ever_used(id@) ==> r is Ok,
            r is Ok ==> r->Ok_0@ == (ScriptView {
                id: id@,
                title: title@,
                content: content@,
                created_at: now,
                updated_at: now,
                words_per_minute: None,
                last_practice_duration: None,
            }) && exists|k: int|
                0 <= k <= old(self)@.len() && final(self)@ == old(self)@.insert(k, r->Ok_0@),
    {
        let rec = Script::fresh(id, title, content, now);
        let out = rec.snapshot();
        match self.insert(rec) {
            Ok(()) => Ok(out),
            Err(e) => Err(e),
        }
    }

    /// Stores a new script under a freshly generated identifier, stamped
    /// with the current time, and returns it. Generated identifiers have 36
    /// characters, so it fails only where a stored or deleted script has an
    /// identifier of that length that the generator happened to repeat.
    pub fn create(&mut self, title: String, content: String) -> (r: Result<Script, StoreError>)
        requires
            old(self).wf(),
        ensures
            final(self).wf(),
            final(self).retired() == old(self).retired(),
            r is Err ==> r == Err::<Script, StoreError>(StoreError::DuplicateId)
                && final(self)@ == old(self)@,
            r is Err ==> (exists|i: int| 0 <= i < old(self)@.len() && old(self)@[i].id.len() == 36)
                || (exists|j: int|
                0 <= j < old(self).retired().len() && old(self).retired()[j].len() == 36),
            r is Ok ==> {
                let s = r->Ok_0@;
                &&& s.id.len() == 36
                &&& !old(self).ever_used(s.id)
                &&& s.title == title@
                &&& s.content == content@
                &&& s.created_at == s.updated_at
                &&& s.words_per_minute is None
                &&& s.last_practice_duration is None
                &&& exists|k: int|
                    0 <= k <= old(self)@.len() && final(self)@ == old(self)@.insert(k, s)
            },
    {
        let id = new_script_id();
        let now = now_millis();
        let ghost gid = id@;
        let r = self.create_with(id, title, content, now);
        proof {
            if r is Err {
                if has_id(old(self)@, gid) {
                    let i = choose|i: int| 0 <= i < old(self)@.len() && old(self)@[i].id == gid;
                    assert(old(self)@[i].id.len() == 36);
                } else {
                    let j = choose|j: int|
                        0 <= j < old(self).retired().len() && old(self).retired()[j] == gid;
                    assert(old(self).retired()[j].len() == 36);
                }
            }
        }
        r
    }

    /// Rewrites the title and content of script `id` and stamps it with
    /// `now`, leaving its statistics as they were.
    pub fn update_at(&mut self, id: &str, title: String, content: String, now: i64) -> (r: Result<
        (),
        StoreError,
    >)
        requires
            old(self).wf(),
        ensures
            final(self).wf(),
            final(self).retired() == old(self).retired(),
            !has_id(old(self)@, id@) ==> r == Err::<(), StoreError>(StoreError::NotFound)
                && final(self)@ == old(self)@,
            has_id(old(self)@, id@) ==> r is Ok && exists|k: int|
                0 <= k < old(self)@.len() && final(self)@ == without(old(self)@, id@).insert(
                    k,
                    retitled(record_of(old(self)@, id@), title@, content@, now),
                ),
    {
        let i = match self.find(id) {
            None => {
                return Err(StoreError::NotFound);
            },
            Some(i) => i,
        };
        let ghost before = self@;
        proof {
            lemma_record_at(before, i as int);
            lemma_without_at(before, id@, i as int);
            lemma_remove_keeps_order(before, i as int);
        }
        let old_rec = self.scripts.remove(i);
        assert(self@ =~= before.remove(i as int));
        let rec = Script {
            id: old_rec.id,
            title,
            content,
            created_at: old_rec.created_at,
            updated_at: now,
            words_per_minute: old_rec.words_per_minute,
            last_practice_duration: old_rec.last_practice_duration,
        };
        let ghost v = rec@;
        let ghost mid = self@;
        let k = self.insert_by_recency(rec);
        proof {
            lemma_insert_keeps_unique(mid, k as int, v);
        }
        Ok(())
    }

    /// Rewrites the title and content of script `id`, stamped with the
    /// current time.
    pub fn update(&mut self, id: &str, title: String, content: String) -> (r: Result<(), StoreError>)
        requires
            old(self).wf(),
        ensures
            final(self).wf(),
            final(self).retired() == old(self).retired(),
            !has_id(old(self)@, id@) ==> r == Err::<(), StoreError>(StoreError::NotFound)
                && final(self)@ == old(self)@,
            has_id(old(self)@, id@) ==> r is Ok && exists|k: int, now: i64|
                0 <= k < old(self)@.len() && final(self)@ == without(old(self)@, id@).insert(
                    k,
                    retitled(record_of(old(self)@, id@), title@, content@, now),
                ),
    {
        let now = now_millis();
        self.update_at(id, title, content, now)
    }

    /// Overwrites the practice statistics of script `id` and stamps it with
    /// `now`, leaving its title and content as they were.
    pub fn update_practice_stats_at(
        &mut self,
        id: &str,
        wpm: Option<u64>,
        duration: Option<u64>,
        now: i64,
    ) -> (r: Result<(), StoreError>)
        requires
            old(self).wf(),
        ensures
            final(self).wf(),
            final(self).retired() == old(self).retired(),
            !has_id(old(self)@, id@) ==> r == Err::<(), StoreError>(StoreError::NotFound)
                && final(self)@ == old(self)@,
            has_id(old(self)@, id@) ==> r is Ok && exists|k: int|
                0 <= k < old(self)@.len() && final(self)@ == without(old(self)@, id@).insert(
                    k,
                    practiced(record_of(old(self)@, id@), wpm, duration, now),
                ),
    {
        let i = match self.find(id) {
            None => {
                return Err(StoreError::NotFound);
            },
            Some(i) => i,
        };
        let ghost before = self@;
        proof {
            lemma_record_at(before, i as int);
            lemma_without_at(before, id@, i as int);
            lemma_remove_keeps_order(before, i as int);
        }
        let old_rec = self.scripts.remove(i);
        assert(self@ =~= before.remove(i as int));
        let rec = Script {
            id: old_rec.id,
            title: old_rec.title,
            content: old_rec.content,
            created_at: old_rec.created_at,
            updated_at: now,
            words_per_minute: wpm,
            last_practice_duration: duration,
        };
        let ghost v = rec@;
        let ghost mid = self@;
        let k = self.insert_by_recency(rec);
        proof {
            lemma_insert_keeps_unique(mid, k as int, v);
        }
        Ok(())
    }

    /// Overwrites the practice statistics of script `id`, stamped with the
    /// current time.
    pub fn update_practice_stats(&mut self, id: &str, wpm: Option<u64>, duration: Option<u64>) -> (r:
        Result<(), StoreError>)
        requires
            old(self).wf(),
        ensures
            final(self).wf(),
            final(self).retired() == old(self).retired(),
            !has_id(old(self)@, id@) ==> r == Err::<(), StoreError>(StoreError::NotFound)
                && final(self)@ == old(self)@,
            has_id(old(self)@, id@) ==> r is Ok && exists|k: int, now: i64|
                0 <= k < old(self)@.len() && final(self)@ == without(old(self)@, id@).insert(
                    k,
                    practiced(record_of(old(self)@, id@), wpm, duration, now),
                ),
    {
        let now = now_millis();
        self.update_practice_stats_at(id, wpm, duration, now)
    }

    /// Removes script `id`, remembering its identifier; a missing one is no
    /// error.
    pub fn delete(&mut self, id: &str)
        requires
            old(self).wf(),
        ensures
            final(self).wf(),
            final(self)@ == without(old(self)@, id@),
            final(self).retired() == (if has_id(old(self)@, id@) {
                old(self).retired().push(id@)
            } else {
                old(self).retired()
            }),
    {
        match self.find(id) {
            None => {
                proof {
                    lemma_without_absent(self@, id@);
                }
            },
            Some(i) => {
                let ghost before = self@;
                proof {
                    lemma_without_at(before, id@, i as int);
                    lemma_remove_keeps_order(before, i as int);
                }
                let gone = self.scripts.remove(i);
                assert(self@ =~= before.remove(i as int));
                let ghost prev = self.retired();
                self.retired.push(gone.id);
                assert(self.retired() =~= prev.push(id@));
            },
        }
    }

    /// Copies of the first `limit` records, newest first; all of them when
    /// fewer are stored.
    pub fn list_recent(&self, limit: usize) -> (r: Vec<Script>)
        requires
            self.wf(),
        ensures
            r@.len() == if limit < self@.len() { limit as int } else { self@.len() as int },
            views(r@) == self@.take(r@.len() as int),
            sorted_by_recency(views(r@)),
    {
        let n = self.scripts.len();
        let m = if limit < n { limit } else { n };
        let mut out: Vec<Script> = Vec::new();
        let mut i: usize = 0;
        while i < m
            invariant
                m <= n,
                n == self@.len(),
                i <= m,
                views(out@) == self@.take(i as int),
            decreases m - i,
        {
            let ghost prev = out@;
            out.push(self.scripts[i].snapshot());
            assert(views(out@) =~= views(prev).push(self@[i as int]));
            assert(self@.take(i as int + 1) =~= self@.take(i as int).push(self@[i as int]));
            i = i + 1;
        }
        out
    }

    /// Copies of every record, newest first.
    pub fn list_all(&self) -> (r: Vec<Script>)
        requires
            self.wf(),
        ensures
            views(r@) == self@,
    {
        let r = self.list_recent(self.scripts.len());
        assert(self@.take(self@.len() as int) =~= self@);
        r
    }

    /// A copy of script `id`.
    pub fn get(&self, id: &str) -> (r: Result<Script, StoreError>)
        requires
            self.wf(),
        ensures
            !has_id(self@, id@) ==> r == Err::<Script, StoreError>(StoreError::NotFound),
            has_id(self@, id@) ==> r is Ok && r->Ok_0@ == record_of(self@, id@),
    {
        match self.find(id) {
            None => Err(StoreError::NotFound),
            Some(i) => {
                proof {
                    lemma_record_at(self@, i as int);
                }
                Ok(self.scripts[i].snapshot())
            },
        }
    }

    /// The content of script `id`.
    pub fn get_content(&self, id: &str) -> (r: Result<String, StoreError>)
        requires
            self.wf(),
        ensures
            !has_id(self@, id@) ==> r == Err::<String, StoreError>(StoreError::NotFound),
            has_id(self@, id@) ==> r is Ok && r->Ok_0@ == record_of(self@, id@).content,
    {
        match self.find(id) {
            None => Err(StoreError::NotFound),
            Some(i) => {
                proof {
                    lemma_record_at(self@, i as int);
                }
                Ok(self.scripts[i].content.clone())
            },
        }
    }
}

/// Relies on uuid::Uuid::new_v4 and the display of a `Uuid`, which is its
/// hyphenated lowercase form of 36 characters.
#[verifier::external_body]
fn new_script_id() -> (r: String)
    ensures
        r@.len() == 36,
{
    uuid::Uuid::new_v4().to_string()
}

/// Relies on chrono::Utc::now and DateTime::timestamp_millis: the current
/// time, in milliseconds since the Unix epoch.
#[verifier::external_body]
fn now_millis() -> (r: i64) {
    chrono::Utc::now().timestamp_millis()
}

} // verus!
