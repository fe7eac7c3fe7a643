use whispr::store::ScriptStore;
use whispr::tray::{build_menu, menu_label, menu_tag, on_primary_click, on_select, tray_menu, MenuItem, TrayAction};

fn entry(item: &MenuItem) -> (String, String) {
    match item {
        MenuItem::Entry { tag, label } => (tag.clone(), label.clone()),
        MenuItem::Separator => panic!("separator"),
    }
}

#[test]
fn rebuild_truncates_only_long_titles() {
    let long = "abcdefghijklmnopqrstuvwxyz0123456789"[..35].to_string();
    let short = "0123456789".to_string();
    let mut st = ScriptStore::new();
    st.create_with("a".to_string(), long.clone(), String::new(), 2).unwrap();
    st.create_with("b".to_string(), short.clone(), String::new(), 1).unwrap();
    let menu = tray_menu(&st);
    assert_eq!(menu.len(), 8);
    let (tag0, label0) = entry(&menu[0]);
    assert_eq!(tag0, "recent_a");
    assert_eq!(label0, format!("{}...", &long[..27]));
    let (tag1, label1) = entry(&menu[1]);
    assert_eq!(tag1, "recent_b");
    assert_eq!(label1, short);
    assert!(matches!(menu[2], MenuItem::Separator));
    assert_eq!(entry(&menu[3]).0, "new_script");
    assert_eq!(entry(&menu[5]).1, "Settings...");
    assert_eq!(entry(&menu[7]).0, "quit");
}

#[test]
fn label_boundaries() {
    let thirty = "x".repeat(30);
    assert_eq!(menu_label(&thirty), thirty);
    let thirty_one = "y".repeat(31);
    assert_eq!(menu_label(&thirty_one), format!("{}...", "y".repeat(27)));
    assert_eq!(menu_label(""), "");
    let wide = "é".repeat(31);
    assert_eq!(menu_label(&wide), format!("{}...", "é".repeat(27)));
}

#[test]
fn menu_offers_at_most_three_recent_scripts() {
    let mut st = ScriptStore::new();
    for i in 0..5 {
        st.create_with(format!("s{}", i), format!("t{}", i), String::new(), i).unwrap();
    }
    let menu = tray_menu(&st);
    assert_eq!(menu.len(), 9);
    assert_eq!(entry(&menu[0]).0, "recent_s4");
    assert_eq!(entry(&menu[2]).0, "recent_s2");
    assert!(matches!(menu[3], MenuItem::Separator));
}

#[test]
fn empty_store_has_no_recent_section() {
    let menu = build_menu(&Vec::new());
    assert_eq!(menu.len(), 5);
    assert_eq!(entry(&menu[0]).0, "new_script");
    assert!(matches!(menu[1], MenuItem::Separator));
}

#[test]
fn selection_routing() {
    assert_eq!(on_select("new_script"), TrayAction::NewScript);
    assert_eq!(on_select("settings"), TrayAction::OpenSettings);
    assert_eq!(on_select("quit"), TrayAction::Quit);
    assert_eq!(on_select("recent_abc-1"), TrayAction::OpenScript("abc-1".to_string()));
    assert_eq!(on_select("recent_"), TrayAction::OpenScript(String::new()));
    assert_eq!(on_select("other"), TrayAction::Ignore);
    assert_eq!(on_select("quit2"), TrayAction::Ignore);
    assert_eq!(on_primary_click(), TrayAction::ShowMain);
}

#[test]
fn tag_leads_back_to_script() {
    let tag = menu_tag("xyz");
    assert_eq!(tag, "recent_xyz");
    assert_eq!(on_select(&tag), TrayAction::OpenScript("xyz".to_string()));
}
