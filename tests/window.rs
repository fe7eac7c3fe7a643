use whispr::store::{ScriptStore, StoreError};
use whispr::window::{FocusPlan, Readiness, WindowLayout, WindowName, WindowRegistry, DELIVERY_DELAY_MS};

#[test]
fn opening_top_bar_twice_leaves_one_window() {
    let mut reg = WindowRegistry::new();
    let g1 = reg.record_open(WindowName::TopBar).unwrap();
    assert!(reg.plan_open(WindowName::TopBar, None).close_first);
    let g2 = reg.record_open(WindowName::TopBar).unwrap();
    assert_ne!(g1, g2);
    let slot = reg.slot(WindowName::TopBar).unwrap();
    assert_eq!(slot.generation, g2);
    assert_eq!(slot.readiness, Readiness::Initializing);
    assert!(!reg.deliver(WindowName::TopBar, g1));
    assert_eq!(reg.slot(WindowName::TopBar).unwrap().readiness, Readiness::Initializing);
    assert!(reg.deliver(WindowName::TopBar, g2));
    assert_eq!(reg.slot(WindowName::TopBar).unwrap().readiness, Readiness::Ready);
}

#[test]
fn delivery_to_closed_window_is_dropped() {
    let mut reg = WindowRegistry::new();
    let g = reg.record_open(WindowName::Floating).unwrap();
    assert!(reg.record_close(WindowName::Floating));
    assert!(!reg.record_close(WindowName::Floating));
    assert!(!reg.deliver(WindowName::Floating, g));
    assert!(!reg.is_live(WindowName::Floating));
}

#[test]
fn close_all_prompters_spares_settings() {
    let mut reg = WindowRegistry::new();
    reg.record_open(WindowName::Floating).unwrap();
    reg.record_open(WindowName::Settings).unwrap();
    assert_eq!(reg.live_prompters(), vec![WindowName::Floating]);
    assert_eq!(reg.close_all_prompters(), vec![WindowName::Floating]);
    assert!(reg.is_live(WindowName::Settings));
    assert!(reg.close_all_prompters().is_empty());
}

#[test]
fn window_policies() {
    let top = WindowName::TopBar.policy();
    assert_eq!(top.label, "topbar-prompter");
    assert_eq!(
        top.layout,
        WindowLayout::TopAnchored { width_permille: 550, x_permille: 225, height: 100 }
    );
    assert!(!top.decorated && top.always_on_top && !top.resizable && top.skip_taskbar);
    let fl = WindowName::Floating.policy();
    assert_eq!(fl.label, "floating-prompter");
    assert_eq!(fl.layout, WindowLayout::Centered { width: 480, height: 320 });
    assert!(!fl.decorated && fl.always_on_top && fl.resizable && fl.skip_taskbar);
    let st = WindowName::Settings.policy();
    assert_eq!(st.label, "settings");
    assert!(st.decorated && !st.always_on_top && !st.resizable);
    assert_eq!(DELIVERY_DELAY_MS, 500);
}

#[test]
fn plan_open_script_carries_content() {
    let mut store = ScriptStore::new();
    store.create_with("k".to_string(), "T".to_string(), "line one".to_string(), 3).unwrap();
    let reg = WindowRegistry::new();
    let plan = reg.plan_open_script(&store, WindowName::TopBar, "k").ok().unwrap();
    assert!(!plan.close_first);
    let p = plan.payload.unwrap();
    assert_eq!(p.id, "k");
    assert_eq!(p.content, "line one");
    assert!(matches!(
        reg.plan_open_script(&store, WindowName::Floating, "missing"),
        Err(StoreError::NotFound)
    ));
}

#[test]
fn settings_window_is_focused_when_live() {
    let mut reg = WindowRegistry::new();
    match reg.focus_or_create(WindowName::Settings) {
        FocusPlan::Create(p) => assert_eq!(p.label, "settings"),
        FocusPlan::Focus => panic!("nothing is live yet"),
    }
    reg.record_open(WindowName::Settings).unwrap();
    assert!(matches!(reg.focus_or_create(WindowName::Settings), FocusPlan::Focus));
}
