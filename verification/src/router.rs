//! Routing of tray-menu click events: parse the raw menu-item
//! identifier into a closed set of actions, then step the host model
//! and name the effect the host must perform.

use vstd::prelude::*;

use crate::host::{HostEffect, HostState, TrayAction, WindowState};

verus! {

/// Which action a raw menu-item identifier stands for: `"show"` and
/// `"quit"` are the recognized set, everything else is dropped.
pub open spec fn spec_route(id: Seq<char>) -> TrayAction {
    if id == "show"@ {
        TrayAction::ShowMain
    } else if id == "quit"@ {
        TrayAction::Quit
    } else {
        TrayAction::Ignore
    }
}

/// Parse a menu-item identifier at the event boundary.
pub fn route_menu_event(id: &str) -> (a: TrayAction)
    ensures
        a == spec_route(id@),
{
    let id_owned: String = id.to_owned();
    let show: String = "show".to_owned();
    if id_owned == show {
        TrayAction::ShowMain
    } else {
        let quit: String = "quit".to_owned();
        if id_owned == quit {
            TrayAction::Quit
        } else {
            TrayAction::Ignore
        }
    }
}

/// The state the main window is in after it was shown and focused.
pub open spec fn spec_shown_window() -> WindowState {
    WindowState { visible: true, focused: true }
}

/// One step of the host model: the state after the action and the
/// effect the host must perform.
///
/// A `ShowMain` without a main window is a silent no-op; a `Quit`
/// changes nothing before the process leaves with exit code 0; an
/// `Ignore` changes nothing at all.
pub open spec fn spec_step(s: HostState, a: TrayAction) -> (HostState, HostEffect) {
    match a {
        TrayAction::ShowMain => match s.main_window {
            Some(_) => (
                HostState { main_window: Some(spec_shown_window()), tray: s.tray },
                HostEffect::ShowAndFocusMain,
            ),
            None => (s, HostEffect::Stay),
        },
        TrayAction::Quit => (s, HostEffect::Exit(0)),
        TrayAction::Ignore => (s, HostEffect::Stay),
    }
}

/// Apply one parsed action to the host model and return the effect the
/// host must perform.
pub fn apply_action(state: &mut HostState, action: TrayAction) -> (e: HostEffect)
    ensures
        *final(state) == spec_step(*old(state), action).0,
        e == spec_step(*old(state), action).1,
{
    match action {
        TrayAction::ShowMain => match &mut state.main_window {
            Some(w) => {
                w.visible = true;
                w.focused = true;
                HostEffect::ShowAndFocusMain
            },
            None => HostEffect::Stay,
        },
        TrayAction::Quit => HostEffect::Exit(0),
        TrayAction::Ignore => HostEffect::Stay,
    }
}

/// Handle one menu-click event: parse the identifier, step the model,
/// and return the effect the host must perform.
pub fn on_tray_menu_event(state: &mut HostState, id: &str) -> (e: HostEffect)
    ensures
        *final(state) == spec_step(*old(state), spec_route(id@)).0,
        e == spec_step(*old(state), spec_route(id@)).1,
{
    let action = route_menu_event(id);
    apply_action(state, action)
}

/// Showing the main window is idempotent: a second `ShowMain` step
/// leaves the host exactly where the first one put it, with the same
/// effect.
pub proof fn lemma_show_idempotent(s: HostState)
    ensures
        spec_step(spec_step(s, TrayAction::ShowMain).0, TrayAction::ShowMain) == spec_step(
            s,
            TrayAction::ShowMain,
        ),
{
}

/// The outcome of showing the main window does not depend on the
/// window's prior visibility or focus: any two hosts that agree on the
/// tray and both have a main window end a `ShowMain` step in the same
/// state.
pub proof fn lemma_show_outcome_independent_of_prior(s1: HostState, s2: HostState)
    requires
        s1.main_window is Some,
        s2.main_window is Some,
        s1.tray == s2.tray,
    ensures
        spec_step(s1, TrayAction::ShowMain).0 == spec_step(s2, TrayAction::ShowMain).0,
{
}

} // verus!
