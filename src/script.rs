//! A stored script and its mathematical view.

use vstd::prelude::*;

verus! {

/// A block of text kept for prompting, with its timestamps and practice
/// statistics.
///
/// Timestamps are milliseconds since the Unix epoch. The two statistics are
/// carried as the IEEE-754 bit patterns of the rates the user interface
/// reports; the library stores and returns them without reading them.
#[derive(Debug, PartialEq, Eq)]
pub struct Script {
    pub id: String,
    pub title: String,
    pub content: String,
    pub created_at: i64,
    pub updated_at: i64,
    pub words_per_minute: Option<u64>,
    pub last_practice_duration: Option<u64>,
}

/// What a script holds, as plain mathematical values.
pub struct ScriptView {
    pub id: Seq<char>,
    pub title: Seq<char>,
    pub content: Seq<char>,
    pub created_at: i64,
    pub updated_at: i64,
    pub words_per_minute: Option<u64>,
    pub last_practice_duration: Option<u64>,
}

impl View for Script {
    type V = ScriptView;

    open spec fn view(&self) -> ScriptView {
        ScriptView {
            id: self.id@,
            title: self.title@,
            content: self.content@,
            created_at: self.created_at,
            updated_at: self.updated_at,
            words_per_minute: self.words_per_minute,
            last_practice_duration: self.last_practice_duration,
        }
    }
}

/// The record after its title and content were rewritten at time `now`.
pub open spec fn retitled(r: ScriptView, title: Seq<char>, content: Seq<char>, now: i64) -> ScriptView {
    ScriptView { title: title, content: content, updated_at: now, ..r }
}

/// The record after new practice statistics were written at time `now`.
pub open spec fn practiced(r: ScriptView, wpm: Option<u64>, duration: Option<u64>, now: i64) -> ScriptView {
    ScriptView { words_per_minute: wpm, last_practice_duration: duration, updated_at: now, ..r }
}

impl Script {
    /// A fresh record with no statistics, created and updated at `now`.
    pub fn fresh(id: String, title: String, content: String, now: i64) -> (r: Script)
        ensures
            r@ == (ScriptView {
                id: id@,
                title: title@,
                content: content@,
                created_at: now,
                updated_at: now,
                words_per_minute: None,
                last_practice_duration: None,
            }),
    {
        Script {
            id,
            title,
            content,
            created_at: now,
            updated_at: now,
            words_per_minute: None,
            last_practice_duration: None,
        }
    }

    /// An independent copy of the record.
    pub fn snapshot(&self) -> (r: Script)
        ensures
            r@ == self@,
    {
        Script {
            id: self.id.clone(),
            title: self.title.clone(),
            content: self.content.clone(),
            created_at: self.created_at,
            updated_at: self.updated_at,
            words_per_minute: self.words_per_minute,
            last_practice_duration: self.last_practice_duration,
        }
    }
}

/// The views of a sequence of records.
pub open spec fn views(v: Seq<Script>) -> Seq<ScriptView> {
    v.map_values(|s: Script| s@)
}

} // verus!
