//! Shell logic for the PuraToDo desktop application.
//!
//! The desktop host runtime (window management, native menu rendering, event
//! delivery) lives outside this crate; here stands everything the shell itself
//! decides: the greeting command offered to the UI layer, the fixed menu bar
//! that is attached to the main window, and the mapping from a clicked menu
//! item's identifier to the notification published to the UI layer.

pub mod dispatch;
pub mod greeting;
pub mod menu;
pub mod shell;
