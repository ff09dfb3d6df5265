//! Setup of the shell: what `initialize` decides and guarantees.
//!
//! The host runtime performs the outside work — starting the platform event
//! loop, creating the window, rendering the menu natively.  The shell's own
//! decisions are here: which menu bar to build, whether to attach it (only
//! when a window labeled `main` exists; its absence is silently skipped and
//! never an error), and which lifecycle phase is reached.  A host that fails
//! to start never reaches this point: that failure is fatal and handled by
//! the surrounding program.

use crate::dispatch::{action_of_id, notifications_of_click};
use crate::menu::{MenuBar, is_standard_bar, standard_menu_bar};
use vstd::prelude::*;

verus! {

/// The shell's lifecycle: `Uninitialized` until the host runtime has started,
/// `Running` afterwards.  There are no further states and no teardown.
#[derive(Clone, Copy, PartialEq, Eq, Structural, Debug)]
pub enum ShellPhase {
    Uninitialized,
    Running,
}

/// What a completed setup leaves behind: the reached phase, the menu bar that
/// was built, and whether it was attached to the main window.
pub struct SetupReport {
    pub phase: ShellPhase,
    pub bar: MenuBar,
    pub menu_attached: bool,
}

/// Performs the shell's part of setup, once the host runtime has started.
///
/// `main_window_present` says whether a window labeled `main` existed at
/// setup time.  Setup always completes: the standard menu bar is built, it is
/// attached exactly when that window exists (its absence is skipped silently,
/// not an error), and the shell is left `Running`.
pub fn initialize(main_window_present: bool) -> (r: SetupReport)
    ensures
        r.phase is Running,
        is_standard_bar(r.bar),
        r.menu_attached == main_window_present,
{
    let bar = standard_menu_bar();
    SetupReport { phase: ShellPhase::Running, bar, menu_attached: main_window_present }
}

/// Law: every item of the standard menu bar is wired.  Each identifier that
/// the bar carries routes to an action, and a click on it publishes exactly
/// one notification.
pub proof fn lemma_standard_bar_routed(bar: MenuBar)
    requires
        is_standard_bar(bar),
    ensures
        forall|g: int, i: int|
            0 <= g < bar.groups@.len() && 0 <= i < bar.groups@[g].entries@.len()
                ==> action_of_id(#[trigger] bar.groups@[g].entries@[i].id@) is Some
                    && notifications_of_click(bar.groups@[g].entries@[i].id@).len() == 1,
{
    reveal_strlit("new_task");
    reveal_strlit("search");
    reveal_strlit("about");
}

/// Law: the standard menu bar's identifiers are unique within the
/// application — distinct items never share an identifier.
pub proof fn lemma_standard_bar_ids_unique(bar: MenuBar)
    requires
        is_standard_bar(bar),
    ensures
        forall|g1: int, i1: int, g2: int, i2: int|
            0 <= g1 < bar.groups@.len() && 0 <= i1 < bar.groups@[g1].entries@.len()
                && 0 <= g2 < bar.groups@.len() && 0 <= i2 < bar.groups@[g2].entries@.len()
                && (g1, i1) != (g2, i2)
                ==> #[trigger] bar.groups@[g1].entries@[i1].id@
                    != #[trigger] bar.groups@[g2].entries@[i2].id@,
{
    reveal_strlit("new_task");
    reveal_strlit("search");
    reveal_strlit("about");
    assert forall|g1: int, i1: int, g2: int, i2: int|
        0 <= g1 < bar.groups@.len() && 0 <= i1 < bar.groups@[g1].entries@.len()
            && 0 <= g2 < bar.groups@.len() && 0 <= i2 < bar.groups@[g2].entries@.len()
            && (g1, i1) != (g2, i2)
            implies #[trigger] bar.groups@[g1].entries@[i1].id@
                != #[trigger] bar.groups@[g2].entries@[i2].id@ by {
        assert("new_task"@.len() == 8);
        assert("search"@.len() == 6);
        assert("about"@.len() == 5);
        assert(i1 == 0 && i2 == 0);
        assert(g1 != g2);
    }
}

} // verus!
