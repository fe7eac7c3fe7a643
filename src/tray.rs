//! The tray menu: rebuilt from the store's most recent scripts on demand,
//! and the routing of what the user picks in it.

use vstd::prelude::*;
use vstd::string::*;
use crate::script::{views, Script, ScriptView};
use crate::store::{sorted_by_recency, ScriptStore};
use crate::text::{has_prefix, str_eq, strip_prefix};

verus! {

/// How many recent scripts the menu offers.
pub const RECENT_LIMIT: usize = 3;

/// Titles longer than this many characters are shortened in the menu.
pub const TITLE_LIMIT: usize = 30;

/// How many characters of a shortened title are kept before the ellipsis.
pub const TITLE_KEPT: usize = 27;

/// The menu label of a script titled `title`.
pub open spec fn truncated_label(title: Seq<char>) -> Seq<char> {
    if title.len() > TITLE_LIMIT {
        title.take(TITLE_KEPT as int) + "..."@
    } else {
        title
    }
}

/// The tag of the menu entry that opens script `id`.
pub open spec fn recent_tag(id: Seq<char>) -> Seq<char> {
    "recent_"@ + id
}

/// One item of the tray menu.
pub enum MenuItem {
    Entry { tag: String, label: String },
    Separator,
}

/// Whether `item` is the entry tagged `tag` and labelled `label`.
pub open spec fn is_entry(item: MenuItem, tag: Seq<char>, label: Seq<char>) -> bool {
    match item {
        MenuItem::Entry { tag: t, label: l } => t@ == tag && l@ == label,
        MenuItem::Separator => false,
    }
}

/// What selecting a tray item, or clicking the tray icon, asks for.
#[derive(Debug, PartialEq, Eq)]
pub enum TrayAction {
    /// Bring the main window to the front and start a new script there.
    NewScript,
    /// Focus the settings window, creating it if needed.
    OpenSettings,
    /// Leave the application.
    Quit,
    /// Bring the main window to the front and open the script of this id.
    OpenScript(String),
    /// Bring the main window to the front.
    ShowMain,
    /// Nothing.
    Ignore,
}

/// The label shown for a script titled `title`: titles over the limit keep
/// their first characters and end with an ellipsis.
pub fn menu_label(title: &str) -> (r: String)
    ensures
        r@ == truncated_label(title@),
{
    let n = title.unicode_len();
    if n > TITLE_LIMIT {
        let head = title.substring_char(0, TITLE_KEPT);
        String::from_str(head).concat("...")
    } else {
        String::from_str(title)
    }
}

/// The tag of the entry that opens script `id`.
pub fn menu_tag(id: &str) -> (r: String)
    ensures
        r@ == recent_tag(id@),
{
    String::from_str("recent_").concat(id)
}

fn action(tag: &str, label: &str) -> (r: MenuItem)
    ensures
        is_entry(r, tag@, label@),
{
    MenuItem::Entry { tag: String::from_str(tag), label: String::from_str(label) }
}

/// The tray menu for `recent`, the newest scripts first: one entry for each
/// of the first few, a separator after them when there are any, then
/// "New Script", "Settings..." and "Quit Whispr" between separators.
pub fn build_menu(recent: &Vec<Script>) -> (r: Vec<MenuItem>)
    ensures
        ({
            let m = if recent@.len() < RECENT_LIMIT { recent@.len() as int } else { RECENT_LIMIT as int };
            let k = if m > 0 { m + 1 } else { 0 };
            &&& r@.len() == k + 5
            &&& forall|i: int| 0 <= i < m ==> is_entry(r@[i], recent_tag(recent@[i].id@), truncated_label(recent@[i].title@))
            &&& m > 0 ==> r@[m] is Separator
            &&& is_entry(r@[k], "new_script"@, "New Script"@)
            &&& r@[k + 1] is Separator
            &&& is_entry(r@[k + 2], "settings"@, "Settings..."@)
            &&& r@[k + 3] is Separator
            &&& is_entry(r@[k + 4], "quit"@, "Quit Whispr"@)
        }),
{
    let n = recent.len();
    let m = if n < RECENT_LIMIT { n } else { RECENT_LIMIT };
    let mut r: Vec<MenuItem> = Vec::new();
    let mut i: usize = 0;
    while i < m
        invariant
            m <= n,
            n == recent@.len(),
            m <= RECENT_LIMIT,
            i <= m,
            r@.len() == i,
            forall|j: int| 0 <= j < i ==> is_entry(r@[j], recent_tag(recent@[j].id@), truncated_label(recent@[j].title@)),
        decreases m - i,
    {
        let s = &recent[i];
        let item = MenuItem::Entry { tag: menu_tag(s.id.as_str()), label: menu_label(s.title.as_str()) };
        r.push(item);
        i = i + 1;
    }
    if m > 0 {
        r.push(MenuItem::Separator);
    }
    r.push(action("new_script", "New Script"));
    r.push(MenuItem::Separator);
    r.push(action("settings", "Settings..."));
    r.push(MenuItem::Separator);
    r.push(action("quit", "Quit Whispr"));
    r
}

/// The tray menu as the store stands: its newest scripts, then the fixed
/// actions.
pub fn tray_menu(store: &ScriptStore) -> (r: Vec<MenuItem>)
    requires
        store.wf(),
    ensures
        ({
            let m = if store@.len() < RECENT_LIMIT { store@.len() as int } else { RECENT_LIMIT as int };
            let k = if m > 0 { m + 1 } else { 0 };
            &&& r@.len() == k + 5
            &&& forall|i: int| 0 <= i < m ==> is_entry(r@[i], recent_tag(store@[i].id), truncated_label(store@[i].title))
            &&& m > 0 ==> r@[m] is Separator
            &&& is_entry(r@[k], "new_script"@, "New Script"@)
            &&& r@[k + 1] is Separator
            &&& is_entry(r@[k + 2], "settings"@, "Settings..."@)
            &&& r@[k + 3] is Separator
            &&& is_entry(r@[k + 4], "quit"@, "Quit Whispr"@)
        }),
{
    let recent = store.list_recent(RECENT_LIMIT);
    let r = build_menu(&recent);
    proof {
        assert forall|i: int| 0 <= i < recent@.len() implies recent@[i]@ == store@[i] by {
            assert(views(recent@)[i] == recent@[i]@);
        }
    }
    r
}

/// The action for the menu item tagged `tag`: the fixed actions by their
/// exact tags, a recent entry by its prefix, anything else ignored.
pub fn on_select(tag: &str) -> (r: TrayAction)
    ensures
        tag@ == "new_script"@ ==> r == TrayAction::NewScript,
        tag@ == "settings"@ ==> r == TrayAction::OpenSettings,
        tag@ == "quit"@ ==> r == TrayAction::Quit,
        tag@ != "new_script"@ && tag@ != "settings"@ && tag@ != "quit"@ ==> {
            if has_prefix(tag@, "recent_"@) {
                r is OpenScript && r->OpenScript_0@ == tag@.subrange(
                    "recent_"@.len() as int,
                    tag@.len() as int,
                )
            } else {
                r == TrayAction::Ignore
            }
        },
{
    proof {
        reveal_strlit("new_script");
        reveal_strlit("settings");
        reveal_strlit("quit");
        assert("new_script"@.len() == 10 && "settings"@.len() == 8 && "quit"@.len() == 4);
    }
    if str_eq(tag, "new_script") {
        TrayAction::NewScript
    } else if str_eq(tag, "settings") {
        TrayAction::OpenSettings
    } else if str_eq(tag, "quit") {
        TrayAction::Quit
    } else {
        match strip_prefix(tag, "recent_") {
            Some(id) => TrayAction::OpenScript(String::from_str(id)),
            None => TrayAction::Ignore,
        }
    }
}

/// The action for a primary click on the tray icon.
pub fn on_primary_click() -> (r: TrayAction)
    ensures
        r == TrayAction::ShowMain,
{
    TrayAction::ShowMain
}

/// A recent entry's tag leads back to the script it was made for.
pub proof fn lemma_tag_round_trip(id: Seq<char>)
    ensures
        has_prefix(recent_tag(id), "recent_"@),
        recent_tag(id).subrange("recent_"@.len() as int, recent_tag(id).len() as int) == id,
{
    let t = recent_tag(id);
    assert(t.subrange(0, "recent_"@.len() as int) =~= "recent_"@);
    assert(t.subrange("recent_"@.len() as int, t.len() as int) =~= id);
}

} // verus!
