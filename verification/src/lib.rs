//! Decision core of a desktop application's system-tray presence: the
//! fixed tray-menu description, the routing of menu-click events to
//! window and process actions, and the tray status-text command.
//!
//! The GUI host owns the real window, tray icon and process; this crate
//! models what of them the tray wiring observes and changes, decides
//! every step, and proves the decisions against that model. The host
//! side performs each returned effect and keeps the model in step.

pub mod host;
pub mod menu;
pub mod router;
pub mod status;
