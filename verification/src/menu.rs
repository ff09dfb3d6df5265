//! The fixed menu bar the shell attaches to the main window.
//!
//! The shell builds the menu hierarchy once, at setup time, and never mutates
//! it afterwards; the host runtime owns the native rendering.  These types
//! describe that hierarchy as plain values, so that what is built can be
//! stated exactly and handed to the host for rendering.

use vstd::prelude::*;

verus! {

/// One actionable menu item: a stable identifier, a display label and an
/// enabled flag.  The identifier is the sole key that routes a click.
pub struct MenuEntry {
    pub id: String,
    pub label: String,
    pub enabled: bool,
}

/// One top-level menu group: a group label over an ordered run of items.
pub struct MenuGroup {
    pub label: String,
    pub entries: Vec<MenuEntry>,
}

/// The menu bar: an ordered run of groups, attached to at most one window.
pub struct MenuBar {
    pub groups: Vec<MenuGroup>,
}

/// The shape the shell's menu bar always has: exactly three groups, in order
/// File, Edit and Help, each holding exactly one enabled item — New Task
/// (`new_task`), Search (`search`) and About PuraToDo (`about`).
pub open spec fn is_standard_bar(bar: MenuBar) -> bool {
    &&& bar.groups@.len() == 3
    &&& bar.groups@[0].label@ == "File"@
    &&& bar.groups@[0].entries@.len() == 1
    &&& bar.groups@[0].entries@[0].id@ == "new_task"@
    &&& bar.groups@[0].entries@[0].label@ == "New Task"@
    &&& bar.groups@[0].entries@[0].enabled
    &&& bar.groups@[1].label@ == "Edit"@
    &&& bar.groups@[1].entries@.len() == 1
    &&& bar.groups@[1].entries@[0].id@ == "search"@
    &&& bar.groups@[1].entries@[0].label@ == "Search"@
    &&& bar.groups@[1].entries@[0].enabled
    &&& bar.groups@[2].label@ == "Help"@
    &&& bar.groups@[2].entries@.len() == 1
    &&& bar.groups@[2].entries@[0].id@ == "about"@
    &&& bar.groups@[2].entries@[0].label@ == "About PuraToDo"@
    &&& bar.groups@[2].entries@[0].enabled
}

/// Builds one enabled menu item.
fn entry(id: &str, label: &str) -> (e: MenuEntry)
    ensures
        e.id@ == id@,
        e.label@ == label@,
        e.enabled,
{
    MenuEntry { id: String::from_str(id), label: String::from_str(label), enabled: true }
}

/// Builds one group holding a single item.
fn group_of_one(label: &str, item: MenuEntry) -> (g: MenuGroup)
    ensures
        g.label@ == label@,
        g.entries@.len() == 1,
        g.entries@[0] == item,
{
    let mut entries: Vec<MenuEntry> = Vec::new();
    entries.push(item);
    MenuGroup { label: String::from_str(label), entries }
}

/// Builds the shell's menu bar: File with New Task, Edit with Search, Help
/// with About PuraToDo, in that order, every item enabled.
pub fn standard_menu_bar() -> (bar: MenuBar)
    ensures
        is_standard_bar(bar),
{
    let file_menu = group_of_one("File", entry("new_task", "New Task"));
    let edit_menu = group_of_one("Edit", entry("search", "Search"));
    let help_menu = group_of_one("Help", entry("about", "About PuraToDo"));
    let mut groups: Vec<MenuGroup> = Vec::new();
    groups.push(file_menu);
    groups.push(edit_menu);
    groups.push(help_menu);
    MenuBar { groups }
}

} // verus!
