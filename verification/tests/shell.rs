use puratodo_shell::dispatch::{handle_click, notification_name, parse_action, MenuAction};
use puratodo_shell::greeting::greet;
use puratodo_shell::menu::standard_menu_bar;
use puratodo_shell::shell::{initialize, ShellPhase};

#[test]
fn greet_substitutes_name_verbatim() {
    assert_eq!(greet("World"), "Hello, World! You've been greeted from Rust!");
}

#[test]
fn greet_accepts_empty_name() {
    assert_eq!(greet(""), "Hello, ! You've been greeted from Rust!");
}

#[test]
fn greet_accepts_arbitrary_unicode() {
    assert_eq!(
        greet("Žofía \u{1F30D}"),
        "Hello, Žofía \u{1F30D}! You've been greeted from Rust!"
    );
}

#[test]
fn menu_bar_has_three_groups_in_order() {
    let bar = standard_menu_bar();
    assert_eq!(bar.groups.len(), 3);
    assert_eq!(bar.groups[0].label, "File");
    assert_eq!(bar.groups[1].label, "Edit");
    assert_eq!(bar.groups[2].label, "Help");
}

#[test]
fn menu_groups_each_hold_one_enabled_item() {
    let bar = standard_menu_bar();
    for group in &bar.groups {
        assert_eq!(group.entries.len(), 1);
        assert!(group.entries[0].enabled);
    }
    assert_eq!(bar.groups[0].entries[0].id, "new_task");
    assert_eq!(bar.groups[0].entries[0].label, "New Task");
    assert_eq!(bar.groups[1].entries[0].id, "search");
    assert_eq!(bar.groups[1].entries[0].label, "Search");
    assert_eq!(bar.groups[2].entries[0].id, "about");
    assert_eq!(bar.groups[2].entries[0].label, "About PuraToDo");
}

#[test]
fn click_new_task_publishes_exactly_menu_new_task() {
    let out = handle_click("new_task");
    assert_eq!(out.len(), 1);
    assert_eq!(out[0], "menu-new-task");
}

#[test]
fn click_search_publishes_exactly_menu_search() {
    let out = handle_click("search");
    assert_eq!(out.len(), 1);
    assert_eq!(out[0], "menu-search");
}

#[test]
fn click_about_publishes_exactly_menu_about() {
    let out = handle_click("about");
    assert_eq!(out.len(), 1);
    assert_eq!(out[0], "menu-about");
}

#[test]
fn click_unknown_identifier_publishes_nothing() {
    assert!(handle_click("bogus").is_empty());
    assert!(handle_click("").is_empty());
    assert!(handle_click("NEW_TASK").is_empty());
    assert!(handle_click("new_task ").is_empty());
    assert!(handle_click("menu-new-task").is_empty());
}

#[test]
fn parse_action_matches_identifiers_exactly() {
    assert_eq!(parse_action("new_task"), Some(MenuAction::NewTask));
    assert_eq!(parse_action("search"), Some(MenuAction::Search));
    assert_eq!(parse_action("about"), Some(MenuAction::About));
    assert_eq!(parse_action("New_Task"), None);
    assert_eq!(parse_action("abou"), None);
    assert_eq!(parse_action("aboutx"), None);
}

#[test]
fn notification_names_are_fixed() {
    assert_eq!(notification_name(MenuAction::NewTask), "menu-new-task");
    assert_eq!(notification_name(MenuAction::Search), "menu-search");
    assert_eq!(notification_name(MenuAction::About), "menu-about");
}

#[test]
fn initialize_without_main_window_completes_and_skips_attachment() {
    let report = initialize(false);
    assert!(matches!(report.phase, ShellPhase::Running));
    assert!(!report.menu_attached);
    assert_eq!(report.bar.groups.len(), 3);
}

#[test]
fn initialize_with_main_window_attaches_and_routes_about_click() {
    let report = initialize(true);
    assert!(matches!(report.phase, ShellPhase::Running));
    assert!(report.menu_attached);
    assert_eq!(report.bar.groups.len(), 3);
    let mut item_count: usize = 0;
    for group in &report.bar.groups {
        item_count += group.entries.len();
    }
    assert_eq!(item_count, 3);
    let mut received: Vec<String> = Vec::new();
    for notification in handle_click(report.bar.groups[2].entries[0].id.as_str()) {
        received.push(notification);
    }
    assert_eq!(received, vec!["menu-about".to_string()]);
}
