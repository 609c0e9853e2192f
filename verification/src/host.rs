//! The model of the host: the main window and the tray icon, as far as
//! the tray wiring observes and changes them.

use vstd::prelude::*;

verus! {

/// One recognized tray-menu action, parsed from a raw menu-item
/// identifier at the event boundary.
#[derive(Clone, Copy, PartialEq, Eq, Debug)]
pub enum TrayAction {
    /// Bring the main window up and give it input focus.
    ShowMain,
    /// Terminate the process.
    Quit,
    /// An identifier outside the recognized set; dropped without effect.
    Ignore,
}

/// The outside action the host must perform after a step of the model.
#[derive(Clone, Copy, PartialEq, Eq, Debug)]
pub enum HostEffect {
    /// Nothing to do.
    Stay,
    /// Make the real main window visible and give it input focus.
    ShowAndFocusMain,
    /// Terminate the process with the carried exit code.
    Exit(i32),
}

/// Observable state of the main window.
#[derive(Clone, Copy, PartialEq, Eq, Debug)]
pub struct WindowState {
    pub visible: bool,
    pub focused: bool,
}

/// Observable state of the tray icon: the identifier it was registered
/// under, its hover tooltip, its visible title text, and whether the
/// platform renders such a title at all.
#[derive(Debug)]
pub struct TrayState {
    pub id: String,
    pub tooltip: Option<String>,
    pub title: Option<String>,
    pub supports_title: bool,
}

/// The parts of the host the tray wiring touches: the main window, if
/// one exists, and the tray icon, if one is registered.
#[derive(Debug)]
pub struct HostState {
    pub main_window: Option<WindowState>,
    pub tray: Option<TrayState>,
}

/// The fixed identifier the single tray icon is registered under.
pub open spec fn spec_tray_id() -> Seq<char> {
    "main"@
}

/// Executable form of the fixed tray identifier.
pub fn tray_id() -> (s: &'static str)
    ensures
        s@ == spec_tray_id(),
{
    "main"
}

/// The name the main window is looked up by.
pub open spec fn spec_main_window_name() -> Seq<char> {
    "main"@
}

/// Executable form of the main window's name.
pub fn main_window_name() -> (s: &'static str)
    ensures
        s@ == spec_main_window_name(),
{
    "main"
}

/// The tooltip the tray carries right after setup.
pub open spec fn spec_initial_tooltip() -> Seq<char> {
    "EchoFlow"@
}

/// A tray is registered exactly when one exists under the fixed
/// identifier.
pub open spec fn spec_tray_registered(s: HostState) -> bool {
    match s.tray {
        Some(t) => t.id@ == spec_tray_id(),
        None => false,
    }
}

impl HostState {
    /// A host with no main window and no tray registered.
    pub fn empty() -> (s: HostState)
        ensures
            s.main_window is None,
            s.tray is None,
    {
        HostState { main_window: None, tray: None }
    }

    /// Record that the host created the main window, in the given
    /// visibility and focus state.
    pub fn install_main_window(&mut self, visible: bool, focused: bool)
        ensures
            final(self).main_window matches Some(w) && w.visible == visible && w.focused
                == focused,
            final(self).tray == old(self).tray,
    {
        self.main_window = Some(WindowState { visible, focused });
    }

    /// Register the single tray icon under the fixed identifier, with
    /// the initial tooltip and no title yet, as application setup does.
    pub fn setup_tray(&mut self, supports_title: bool)
        ensures
            final(self).main_window == old(self).main_window,
            spec_tray_registered(*final(self)),
            final(self).tray matches Some(t) && (t.tooltip matches Some(tt) && tt@
                == spec_initial_tooltip()) && t.title is None && t.supports_title
                == supports_title,
    {
        self.tray = Some(
            TrayState {
                id: tray_id().to_owned(),
                tooltip: Some("EchoFlow".to_owned()),
                title: None,
                supports_title,
            },
        );
    }
}

} // verus!
