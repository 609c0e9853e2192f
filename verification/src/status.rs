//! The status command: look the tray up under its fixed identifier and
//! set its tooltip, and its visible title where the platform renders
//! one, to the given text.

use vstd::prelude::*;

use crate::host::{spec_tray_registered, HostState, TrayState};
use crate::host::tray_id;

verus! {

/// The message the status command fails with when no tray is
/// registered under the fixed identifier.
pub open spec fn spec_tray_missing_error() -> Seq<char> {
    "Tray not found"@
}

/// How a tray changed after its status was set to `status`: the
/// tooltip holds the new text, the title holds it too exactly where
/// the platform renders titles, and everything else is untouched.
pub open spec fn spec_status_applied(before: TrayState, after: TrayState, status: Seq<char>) -> bool {
    &&& after.id == before.id
    &&& after.supports_title == before.supports_title
    &&& after.tooltip matches Some(tt) && tt@ == status
    &&& before.supports_title ==> (after.title matches Some(tl) && tl@ == status)
    &&& !before.supports_title ==> after.title == before.title
}

/// What the status command did to the host: with a registered tray it
/// succeeds and applies the status to that tray alone; without one it
/// fails with the fixed message and leaves the host untouched.
pub open spec fn spec_status_result(
    before: HostState,
    after: HostState,
    status: Seq<char>,
    r: Result<(), String>,
) -> bool {
    if spec_tray_registered(before) {
        &&& r is Ok
        &&& after.main_window == before.main_window
        &&& before.tray matches Some(bt) ==> (after.tray matches Some(at)
            && spec_status_applied(bt, at, status))
    } else {
        &&& r matches Err(m) && m@ == spec_tray_missing_error()
        &&& after == before
    }
}

/// Set the tray's status text: the tooltip always, the title where the
/// platform renders one. Fails, leaving the host untouched, when no
/// tray is registered under the fixed identifier.
pub fn set_tray_status(state: &mut HostState, status: String) -> (r: Result<(), String>)
    ensures
        spec_status_result(*old(state), *final(state), status@, r),
{
    match &mut state.tray {
        Some(t) => {
            let expected: String = tray_id().to_owned();
            if t.id == expected {
                t.tooltip = Some(status.clone());
                if t.supports_title {
                    t.title = Some(status);
                }
                Ok(())
            } else {
                Err("Tray not found".to_owned())
            }
        },
        None => Err("Tray not found".to_owned()),
    }
}

/// Setting the status twice keeps only the second text: whatever the
/// first call wrote, tooltip and title reflect the later call alone.
pub proof fn lemma_status_last_write_wins(
    t0: TrayState,
    t1: TrayState,
    t2: TrayState,
    first: Seq<char>,
    second: Seq<char>,
)
    requires
        spec_status_applied(t0, t1, first),
        spec_status_applied(t1, t2, second),
    ensures
        t2.tooltip matches Some(tt) && tt@ == second,
        t0.supports_title ==> (t2.title matches Some(tl) && tl@ == second),
        !t0.supports_title ==> t2.title == t0.title,
{
}

} // verus!
