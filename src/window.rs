//! The auxiliary windows: their per-name policy, the registry of live
//! windows, and the deferred delivery of script content to a new window.

use vstd::prelude::*;
use crate::store::{has_id, record_of, ScriptStore, StoreError};

verus! {

/// Milliseconds between creating a prompter window and delivering its content.
pub const DELIVERY_DELAY_MS: u64 = 500;

/// The fixed logical names of the auxiliary windows.
#[derive(Debug, Clone, Copy, PartialEq, Eq, Structural)]
pub enum WindowName {
    TopBar,
    Floating,
    Settings,
}

/// Whether a live window's rendering surface has been given its content.
#[derive(Debug, Clone, Copy, PartialEq, Eq, Structural)]
pub enum Readiness {
    Initializing,
    Ready,
}

/// A live window: which opening made it, and whether it is ready.
#[derive(Debug, Clone, Copy, PartialEq, Eq, Structural)]
pub struct Slot {
    pub generation: u64,
    pub readiness: Readiness,
}

/// Where and how large a window is placed.
#[derive(Debug, Clone, Copy, PartialEq, Eq, Structural)]
pub enum WindowLayout {
    /// Against the top edge of the primary display. Width and left offset are
    /// thousandths of the display's logical width; height is in logical pixels.
    TopAnchored { width_permille: u32, x_permille: u32, height: u32 },
    /// Centred on the screen, in logical pixels.
    Centered { width: u32, height: u32 },
}

/// How the host creates the window of a given name.
pub struct WindowPolicy {
    pub label: &'static str,
    pub title: &'static str,
    pub page: &'static str,
    pub layout: WindowLayout,
    pub decorated: bool,
    pub always_on_top: bool,
    pub resizable: bool,
    pub skip_taskbar: bool,
}

/// The host's label for the window of `name`.
pub open spec fn label_of(name: WindowName) -> Seq<char> {
    match name {
        WindowName::TopBar => "topbar-prompter"@,
        WindowName::Floating => "floating-prompter"@,
        WindowName::Settings => "settings"@,
    }
}

/// The placement of the window of `name`.
pub open spec fn layout_of(name: WindowName) -> WindowLayout {
    match name {
        WindowName::TopBar => WindowLayout::TopAnchored { width_permille: 550, x_permille: 225, height: 100 },
        WindowName::Floating => WindowLayout::Centered { width: 480, height: 320 },
        WindowName::Settings => WindowLayout::Centered { width: 640, height: 520 },
    }
}

/// Whether `p` is how the host creates the window of `name`: prompters are
/// undecorated, stay on top and are kept off the taskbar, and only the
/// floating one can be resized.
pub open spec fn is_policy_of(p: WindowPolicy, name: WindowName) -> bool {
    &&& p.label@ == label_of(name)
    &&& p.title@ == (if is_prompter(name) { "Whispr Prompter"@ } else { "Whispr Settings"@ })
    &&& p.page@ == (match name {
        WindowName::TopBar => "prompter-topbar.html"@,
        WindowName::Floating => "prompter-floating.html"@,
        WindowName::Settings => "settings.html"@,
    })
    &&& p.layout == layout_of(name)
    &&& p.decorated == !is_prompter(name)
    &&& p.always_on_top == is_prompter(name)
    &&& p.skip_taskbar == is_prompter(name)
    &&& p.resizable == (name == WindowName::Floating)
}

/// Whether `name` is one of the two prompter windows.
pub open spec fn is_prompter(name: WindowName) -> bool {
    name == WindowName::TopBar || name == WindowName::Floating
}

impl WindowName {
    /// The host's label for this window.
    pub fn label(self) -> (r: &'static str)
        ensures
            r@ == label_of(self),
    {
        match self {
            WindowName::TopBar => "topbar-prompter",
            WindowName::Floating => "floating-prompter",
            WindowName::Settings => "settings",
        }
    }

    /// How the host creates this window.
    pub fn policy(self) -> (r: WindowPolicy)
        ensures
            is_policy_of(r, self),
    {
        match self {
            WindowName::TopBar => WindowPolicy {
                label: "topbar-prompter",
                title: "Whispr Prompter",
                page: "prompter-topbar.html",
                layout: WindowLayout::TopAnchored { width_permille: 550, x_permille: 225, height: 100 },
                decorated: false,
                always_on_top: true,
                resizable: false,
                skip_taskbar: true,
            },
            WindowName::Floating => WindowPolicy {
                label: "floating-prompter",
                title: "Whispr Prompter",
                page: "prompter-floating.html",
                layout: WindowLayout::Centered { width: 480, height: 320 },
                decorated: false,
                always_on_top: true,
                resizable: true,
                skip_taskbar: true,
            },
            WindowName::Settings => WindowPolicy {
                label: "settings",
                title: "Whispr Settings",
                page: "settings.html",
                layout: WindowLayout::Centered { width: 640, height: 520 },
                decorated: true,
                always_on_top: false,
                resizable: false,
                skip_taskbar: false,
            },
        }
    }
}

/// The live windows after `name` was opened anew as opening `g`.
pub open spec fn opened(live: Map<WindowName, Slot>, name: WindowName, g: u64) -> Map<
    WindowName,
    Slot,
> {
    live.insert(name, Slot { generation: g, readiness: Readiness::Initializing })
}

/// Whether a delivery for opening `g` of `name` finds its window still live.
pub open spec fn delivery_lands(live: Map<WindowName, Slot>, name: WindowName, g: u64) -> bool {
    live.contains_key(name) && live[name].generation == g
}

/// The registry of live auxiliary windows: at most one per logical name, each
/// stamped with the opening that made it.
pub struct WindowRegistry {
    top_bar: Option<Slot>,
    floating: Option<Slot>,
    settings: Option<Slot>,
    next_generation: u64,
}

impl View for WindowRegistry {
    type V = Map<WindowName, Slot>;

    closed spec fn view(&self) -> Map<WindowName, Slot> {
        Map::new(|n: WindowName| self.spec_slot(n) is Some, |n: WindowName| self.spec_slot(n)->Some_0)
    }
}

impl WindowRegistry {
    /// The slot of `name`.
    pub closed spec fn spec_slot(&self, name: WindowName) -> Option<Slot> {
        match name {
            WindowName::TopBar => self.top_bar,
            WindowName::Floating => self.floating,
            WindowName::Settings => self.settings,
        }
    }

    /// The generation that the next opening receives.
    pub closed spec fn next_generation(&self) -> u64 {
        self.next_generation
    }

    /// Every live window was opened before the next generation.
    pub open spec fn wf(&self) -> bool {
        forall|n: WindowName| #[trigger]
            self@.contains_key(n) ==> self@[n].generation < self.next_generation()
    }

    /// A registry with no live window.
    pub fn new() -> (r: WindowRegistry)
        ensures
            r.wf(),
            r@ == Map::<WindowName, Slot>::empty(),
            r.next_generation() == 0,
    {
        let r = WindowRegistry { top_bar: None, floating: None, settings: None, next_generation: 0 };
        assert(r@ =~= Map::<WindowName, Slot>::empty());
        r
    }

    /// The live window of `name`, if any.
    pub fn slot(&self, name: WindowName) -> (r: Option<Slot>)
        ensures
            r == (if self@.contains_key(name) { Some(self@[name]) } else { None::<Slot> }),
    {
        match name {
            WindowName::TopBar => self.top_bar,
            WindowName::Floating => self.floating,
            WindowName::Settings => self.settings,
        }
    }

    /// Whether a window of `name` is live.
    pub fn is_live(&self, name: WindowName) -> (r: bool)
        ensures
            r == self@.contains_key(name),
    {
        self.slot(name).is_some()
    }

    fn set_slot(&mut self, name: WindowName, v: Option<Slot>)
        ensures
            final(self).next_generation() == old(self).next_generation(),
            final(self)@ == (match v {
                Some(s) => old(self)@.insert(name, s),
                None => old(self)@.remove(name),
            }),
    {
        match name {
            WindowName::TopBar => self.top_bar = v,
            WindowName::Floating => self.floating = v,
            WindowName::Settings => self.settings = v,
        }
        proof {
            match v {
                Some(s) => assert(self@ =~= old(self)@.insert(name, s)),
                None => assert(self@ =~= old(self)@.remove(name)),
            }
        }
    }

    /// Records that a window of `name` was created, replacing any live one
    /// of that name, and returns the new window's generation. Returns `None`,
    /// changing nothing, once every generation has been handed out.
    pub fn record_open(&mut self, name: WindowName) -> (r: Option<u64>)
        requires
            old(self).wf(),
        ensures
            final(self).wf(),
            old(self).next_generation() == u64::MAX ==> r is None && final(self)@ == old(self)@
                && final(self).next_generation() == old(self).next_generation(),
            old(self).next_generation() < u64::MAX ==> r == Some(old(self).next_generation())
                && final(self)@ == opened(old(self)@, name, old(self).next_generation())
                && final(self).next_generation() == old(self).next_generation() + 1,
    {
        if self.next_generation == u64::MAX {
            return None;
        }
        let g = self.next_generation;
        self.set_slot(name, Some(Slot { generation: g, readiness: Readiness::Initializing }));
        self.next_generation = g + 1;
        assert(self@ =~= opened(old(self)@, name, g));
        Some(g)
    }

    /// Records that the window of `name` was closed; closing an absent window
    /// changes nothing. Returns whether one was live.
    pub fn record_close(&mut self, name: WindowName) -> (r: bool)
        requires
            old(self).wf(),
        ensures
            final(self).wf(),
            r == old(self)@.contains_key(name),
            final(self)@ == old(self)@.remove(name),
            final(self).next_generation() == old(self).next_generation(),
    {
        let was = self.is_live(name);
        self.set_slot(name, None);
        was
    }

    /// Closes both prompter windows, whatever their state, and returns the
    /// names of those that were live, top bar first.
    pub fn close_all_prompters(&mut self) -> (r: Vec<WindowName>)
        requires
            old(self).wf(),
        ensures
            final(self).wf(),
            final(self)@ == old(self)@.remove(WindowName::TopBar).remove(WindowName::Floating),
            final(self).next_generation() == old(self).next_generation(),
            forall|n: WindowName| r@.contains(n) <==> is_prompter(n) && old(self)@.contains_key(n),
            r@.no_duplicates(),
    {
        let mut r: Vec<WindowName> = Vec::new();
        if self.record_close(WindowName::TopBar) {
            r.push(WindowName::TopBar);
        }
        if self.record_close(WindowName::Floating) {
            r.push(WindowName::Floating);
        }
        proof {
            assert forall|n: WindowName| r@.contains(n) <==> is_prompter(n) && old(self)@.contains_key(
                n,
            ) by {
                if r@.contains(n) {
                    let i = choose|i: int| 0 <= i < r@.len() && r@[i] == n;
                }
                if n == WindowName::TopBar && old(self)@.contains_key(n) {
                    assert(r@[0] == n);
                }
                if n == WindowName::Floating && old(self)@.contains_key(n) {
                    assert(r@[r@.len() - 1] == n);
                }
            }
        }
        r
    }

    /// How to open a window of `name` now, with `payload` to deliver.
    pub fn plan_open(&self, name: WindowName, payload: Option<ScriptPayload>) -> (r: OpenPlan)
        ensures
            r.close_first == self@.contains_key(name),
            is_policy_of(r.policy, name),
            r.payload == payload,
    {
        OpenPlan { close_first: self.is_live(name), policy: name.policy(), payload }
    }

    /// How to open the prompter `name` on script `id` of the store; fails
    /// when the store has no such script.
    pub fn plan_open_script(&self, store: &ScriptStore, name: WindowName, id: &str) -> (r: Result<
        OpenPlan,
        StoreError,
    >)
        requires
            store.wf(),
        ensures
            !has_id(store@, id@) ==> r is Err && r->Err_0 == StoreError::NotFound,
            has_id(store@, id@) ==> r is Ok && {
                let p = r->Ok_0;
                &&& p.close_first == self@.contains_key(name)
                &&& is_policy_of(p.policy, name)
                &&& p.payload is Some
                &&& p.payload->Some_0.id@ == id@
                &&& p.payload->Some_0.content@ == record_of(store@, id@).content
            },
    {
        match load_payload(store, id) {
            Ok(p) => Ok(self.plan_open(name, Some(p))),
            Err(e) => Err(e),
        }
    }

    /// The prompter windows that are live, floating first.
    pub fn live_prompters(&self) -> (r: Vec<WindowName>)
        ensures
            forall|n: WindowName| r@.contains(n) <==> is_prompter(n) && self@.contains_key(n),
            r@.no_duplicates(),
    {
        let mut r: Vec<WindowName> = Vec::new();
        if self.is_live(WindowName::Floating) {
            r.push(WindowName::Floating);
        }
        if self.is_live(WindowName::TopBar) {
            r.push(WindowName::TopBar);
        }
        proof {
            assert forall|n: WindowName| r@.contains(n) <==> is_prompter(n) && self@.contains_key(n) by {
                if r@.contains(n) {
                    let i = choose|i: int| 0 <= i < r@.len() && r@[i] == n;
                }
                if n == WindowName::Floating && self@.contains_key(n) {
                    assert(r@[0] == n);
                }
                if n == WindowName::TopBar && self@.contains_key(n) {
                    assert(r@[r@.len() - 1] == n);
                }
            }
        }
        r
    }

    /// Brings the window of `name` to the front when it is live; otherwise
    /// creates it.
    pub fn focus_or_create(&self, name: WindowName) -> (r: FocusPlan)
        ensures
            self@.contains_key(name) ==> r is Focus,
            !self@.contains_key(name) ==> r is Create && is_policy_of(r->Create_0, name),
    {
        if self.is_live(name) {
            FocusPlan::Focus
        } else {
            FocusPlan::Create(name.policy())
        }
    }

    /// The deferred delivery for opening `g` of `name` has come due. When that
    /// window is still live it becomes ready and the result is `true`: the
    /// content is to be sent. Otherwise nothing changes and it is dropped.
    pub fn deliver(&mut self, name: WindowName, g: u64) -> (r: bool)
        requires
            old(self).wf(),
        ensures
            final(self).wf(),
            r == delivery_lands(old(self)@, name, g),
            final(self).next_generation() == old(self).next_generation(),
            r ==> final(self)@ == old(self)@.insert(name, Slot { generation: g, readiness: Readiness::Ready }),
            !r ==> final(self)@ == old(self)@,
    {
        match self.slot(name) {
            Some(s) => {
                if s.generation == g {
                    self.set_slot(name, Some(Slot { generation: g, readiness: Readiness::Ready }));
                    true
                } else {
                    false
                }
            },
            None => false,
        }
    }
}

/// What a prompter window is sent once it is ready: the script's
/// identifier and content.
pub struct ScriptPayload {
    pub id: String,
    pub content: String,
}

/// What the host does to open a window: close the live one of that name
/// first or not, create the new one by `policy`, and deliver `payload` to it
/// after the settling delay, if there is one.
pub struct OpenPlan {
    pub close_first: bool,
    pub policy: WindowPolicy,
    pub payload: Option<ScriptPayload>,
}

/// What the host does for a singleton window: bring the live one to the
/// front, or create it by the policy.
pub enum FocusPlan {
    Focus,
    Create(WindowPolicy),
}

/// The content to show for script `id`, read from the store.
pub fn load_payload(store: &ScriptStore, id: &str) -> (r: Result<ScriptPayload, StoreError>)
    requires
        store.wf(),
    ensures
        !has_id(store@, id@) ==> r is Err && r->Err_0 == StoreError::NotFound,
        has_id(store@, id@) ==> r is Ok && r->Ok_0.id@ == id@ && r->Ok_0.content@ == record_of(
            store@,
            id@,
        ).content,
{
    match store.get_content(id) {
        Ok(content) => Ok(ScriptPayload { id: id.to_owned(), content }),
        Err(e) => Err(e),
    }
}

/// Opening a window twice in a row leaves one live window of that name: the
/// second, still initializing. A delivery due for the first opening then
/// finds no window and is dropped.
pub proof fn lemma_open_twice_replaces(live: Map<WindowName, Slot>, name: WindowName, g1: u64, g2: u64)
    requires
        g1 != g2,
    ensures
        opened(opened(live, name, g1), name, g2) == opened(live, name, g2),
        opened(opened(live, name, g1), name, g2)[name] == (Slot {
            generation: g2,
            readiness: Readiness::Initializing,
        }),
        !delivery_lands(opened(opened(live, name, g1), name, g2), name, g1),
        delivery_lands(opened(opened(live, name, g1), name, g2), name, g2),
{
    assert(opened(opened(live, name, g1), name, g2) =~= opened(live, name, g2));
}

} // verus!
