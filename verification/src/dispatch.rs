//! Routing of menu clicks to UI-layer notifications.
//!
//! Each actionable menu item carries a stable string identifier.  The mapping
//! from identifier to notification name is a fixed, total function over the
//! three known identifiers; an unmatched identifier is silently ignored.
//! A click publishes at most one notification, and publication is
//! fire-and-forget: the host performs the publish, the shell only decides
//! what to publish.

use vstd::prelude::*;

verus! {

/// The three actionable menu items the shell knows.
#[derive(Clone, Copy, PartialEq, Eq, Structural, Debug)]
pub enum MenuAction {
    NewTask,
    Search,
    About,
}

/// The stable identifier under which an action's menu item is registered.
pub open spec fn id_of_action(a: MenuAction) -> Seq<char> {
    match a {
        MenuAction::NewTask => "new_task"@,
        MenuAction::Search => "search"@,
        MenuAction::About => "about"@,
    }
}

/// The action a clicked identifier routes to, `None` for an unknown one.
pub open spec fn action_of_id(id: Seq<char>) -> Option<MenuAction> {
    if id == "new_task"@ {
        Some(MenuAction::NewTask)
    } else if id == "search"@ {
        Some(MenuAction::Search)
    } else if id == "about"@ {
        Some(MenuAction::About)
    } else {
        None
    }
}

/// The name of the notification published for an action.
pub open spec fn notification_of_action(a: MenuAction) -> Seq<char> {
    match a {
        MenuAction::NewTask => "menu-new-task"@,
        MenuAction::Search => "menu-search"@,
        MenuAction::About => "menu-about"@,
    }
}

/// The notifications one click on the item with identifier `id` publishes,
/// in order: one for a known identifier, none for an unknown one.
pub open spec fn notifications_of_click(id: Seq<char>) -> Seq<Seq<char>> {
    match action_of_id(id) {
        Some(a) => seq![notification_of_action(a)],
        None => Seq::empty(),
    }
}

/// Law: the identifier-to-action mapping is total over the three known
/// identifiers — each action is recovered exactly from its own identifier.
pub proof fn lemma_action_id_round_trip(a: MenuAction)
    ensures
        action_of_id(id_of_action(a)) == Some(a),
{
    reveal_strlit("new_task");
    reveal_strlit("search");
    reveal_strlit("about");
    assert("new_task"@.len() == 8);
    assert("search"@.len() == 6);
    assert("about"@.len() == 5);
    match a {
        MenuAction::NewTask => {
            assert(action_of_id("new_task"@) == Some(MenuAction::NewTask));
        },
        MenuAction::Search => {
            assert("search"@ != "new_task"@);
            assert(action_of_id("search"@) == Some(MenuAction::Search));
        },
        MenuAction::About => {
            assert("about"@ != "new_task"@);
            assert("about"@ != "search"@);
            assert(action_of_id("about"@) == Some(MenuAction::About));
        },
    }
}

/// Law: a click on an action's own item publishes exactly that action's
/// notification, once, and no other.
pub proof fn lemma_click_publishes_exactly_one(a: MenuAction)
    ensures
        notifications_of_click(id_of_action(a)) =~= seq![notification_of_action(a)],
{
    lemma_action_id_round_trip(a);
}

/// Law: delivery is at most once — no click ever publishes more than one
/// notification.
pub proof fn lemma_click_publishes_at_most_once(id: Seq<char>)
    ensures
        notifications_of_click(id).len() <= 1,
{
}

/// Law: a click on an identifier outside the three known ones publishes
/// nothing.
pub proof fn lemma_unknown_id_publishes_nothing(id: Seq<char>)
    requires
        id != "new_task"@,
        id != "search"@,
        id != "about"@,
    ensures
        notifications_of_click(id).len() == 0,
{
}

/// Parses a clicked item's identifier by exact string match.
pub fn parse_action(id: &str) -> (r: Option<MenuAction>)
    ensures
        r == action_of_id(id@),
{
    let id_owned: String = id.to_owned();
    if id_owned.eq(&String::from_str("new_task")) {
        Some(MenuAction::NewTask)
    } else if id_owned.eq(&String::from_str("search")) {
        Some(MenuAction::Search)
    } else if id_owned.eq(&String::from_str("about")) {
        Some(MenuAction::About)
    } else {
        None
    }
}

/// The name of the notification published for `a`.
pub fn notification_name(a: MenuAction) -> (r: String)
    ensures
        r@ == notification_of_action(a),
{
    match a {
        MenuAction::NewTask => String::from_str("menu-new-task"),
        MenuAction::Search => String::from_str("menu-search"),
        MenuAction::About => String::from_str("menu-about"),
    }
}

/// Decides what one click on the item with identifier `id` publishes: the
/// notification names, in publication order.  The host emits them one by one
/// and discards any publish failure.
pub fn handle_click(id: &str) -> (r: Vec<String>)
    ensures
        r.deep_view() == notifications_of_click(id@),
{
    let mut out: Vec<String> = Vec::new();
    match parse_action(id) {
        Some(a) => {
            out.push(notification_name(a));
            proof {
                assert(out.deep_view() =~= notifications_of_click(id@));
            }
        },
        None => {
            proof {
                assert(out.deep_view() =~= notifications_of_click(id@));
            }
        },
    }
    out
}

} // verus!
