//! The tray menu: a fixed description of the two entries the tray
//! offers, in the order they appear.

use vstd::prelude::*;

verus! {

/// One entry of the tray menu: the identifier the click event carries
/// and the label the user sees.
#[derive(Debug)]
pub struct MenuEntry {
    pub id: String,
    pub label: String,
}

/// Build the tray-menu description: exactly two entries, in fixed
/// order, a "Show" entry tagged `show` and a "Quit" entry tagged
/// `quit`.
pub fn build_tray_menu() -> (m: Vec<MenuEntry>)
    ensures
        m@.len() == 2,
        m@[0].id@ == "show"@,
        m@[0].label@ == "Show"@,
        m@[1].id@ == "quit"@,
        m@[1].label@ == "Quit"@,
{
    let mut m: Vec<MenuEntry> = Vec::new();
    m.push(MenuEntry { id: "show".to_owned(), label: "Show".to_owned() });
    m.push(MenuEntry { id: "quit".to_owned(), label: "Quit".to_owned() });
    m
}

} // verus!
