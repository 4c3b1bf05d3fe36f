//! Tray controller: the tray menu layout and the routing of tray events.
//! Menu identifiers are resolved once, at the boundary, into a tagged
//! variant; unrecognized identifiers and other event kinds are ignored
//! silently. The actions themselves (showing windows, emitting the settings
//! signal, exiting the process) are performed by the surrounding shell.

use vstd::prelude::*;

use crate::strutil::str_eq;

verus! {

/// A tray menu identifier, resolved from its raw string form exactly once.
#[derive(Debug, Clone)]
pub enum TrayMenuId {
    Show,
    Settings,
    Quit,
    Other(String),
}

/// An event arriving from the system tray.
#[derive(Debug, Clone)]
pub enum TrayEvent {
    LeftClick,
    MenuItemClick(TrayMenuId),
    Other,
}

/// What the shell must do in response to a tray event.
#[derive(Debug, Clone, Copy, PartialEq, Eq, Structural)]
pub enum TrayAction {
    ShowMainWindow,
    EmitShowSettings,
    ExitProcess,
    Ignore,
}

/// One entry of the tray menu.
#[derive(Debug, Clone)]
pub enum TrayMenuEntry {
    Item(TrayMenuId),
    Separator,
}

/// Resolve a raw menu identifier into its tagged form.
pub fn parse_menu_id(id: &str) -> (r: TrayMenuId)
    ensures
        (r matches TrayMenuId::Show) <==> id@ == "show"@,
        (r matches TrayMenuId::Settings) <==> id@ == "settings"@,
        (r matches TrayMenuId::Quit) <==> id@ == "quit"@,
        (r matches TrayMenuId::Other(s) ==> s@ == id@),
{
    proof {
        reveal_strlit("show");
        reveal_strlit("settings");
        reveal_strlit("quit");
        assert("show"@[0] == 's');
        assert("quit"@[0] == 'q');
        assert("show"@.len() == 4);
        assert("settings"@.len() == 8);
        assert("show"@ != "quit"@);
        assert("show"@ != "settings"@);
        assert("settings"@ != "quit"@);
    }
    if str_eq(id, "show") {
        TrayMenuId::Show
    } else if str_eq(id, "settings") {
        TrayMenuId::Settings
    } else if str_eq(id, "quit") {
        TrayMenuId::Quit
    } else {
        TrayMenuId::Other(id.to_owned())
    }
}

/// How each tray event is routed.
pub open spec fn route_spec(e: TrayEvent) -> TrayAction {
    match e {
        TrayEvent::LeftClick => TrayAction::ShowMainWindow,
        TrayEvent::MenuItemClick(TrayMenuId::Show) => TrayAction::ShowMainWindow,
        TrayEvent::MenuItemClick(TrayMenuId::Settings) => TrayAction::EmitShowSettings,
        TrayEvent::MenuItemClick(TrayMenuId::Quit) => TrayAction::ExitProcess,
        TrayEvent::MenuItemClick(TrayMenuId::Other(_)) => TrayAction::Ignore,
        TrayEvent::Other => TrayAction::Ignore,
    }
}

/// Route one tray event: left-click and `Show` raise the main window,
/// `Settings` emits the cross-component settings signal, `Quit` terminates
/// the process, and everything else is ignored.
pub fn route_tray_event(e: &TrayEvent) -> (a: TrayAction)
    ensures
        a == route_spec(*e),
{
    match e {
        TrayEvent::LeftClick => TrayAction::ShowMainWindow,
        TrayEvent::MenuItemClick(TrayMenuId::Show) => TrayAction::ShowMainWindow,
        TrayEvent::MenuItemClick(TrayMenuId::Settings) => TrayAction::EmitShowSettings,
        TrayEvent::MenuItemClick(TrayMenuId::Quit) => TrayAction::ExitProcess,
        TrayEvent::MenuItemClick(TrayMenuId::Other(_)) => TrayAction::Ignore,
        TrayEvent::Other => TrayAction::Ignore,
    }
}

/// The label shown for a known menu item.
pub fn menu_label(id: &TrayMenuId) -> (r: &'static str)
    ensures
        (id matches TrayMenuId::Show) ==> r@ == "Show"@,
        (id matches TrayMenuId::Settings) ==> r@ == "Settings"@,
        (id matches TrayMenuId::Quit) ==> r@ == "Quit"@,
        (id matches TrayMenuId::Other(_)) ==> r@.len() == 0,
{
    proof {
        reveal_strlit("");
    }
    match id {
        TrayMenuId::Show => "Show",
        TrayMenuId::Settings => "Settings",
        TrayMenuId::Quit => "Quit",
        TrayMenuId::Other(_) => "",
    }
}

/// The tray menu layout: `Show`, a separator, `Settings`, a separator,
/// `Quit`.
pub fn tray_menu() -> (entries: Vec<TrayMenuEntry>)
    ensures
        entries@.len() == 5,
        (entries@[0] matches TrayMenuEntry::Item(TrayMenuId::Show)),
        (entries@[1] matches TrayMenuEntry::Separator),
        (entries@[2] matches TrayMenuEntry::Item(TrayMenuId::Settings)),
        (entries@[3] matches TrayMenuEntry::Separator),
        (entries@[4] matches TrayMenuEntry::Item(TrayMenuId::Quit)),
{
    let mut entries: Vec<TrayMenuEntry> = Vec::new();
    entries.push(TrayMenuEntry::Item(TrayMenuId::Show));
    entries.push(TrayMenuEntry::Separator);
    entries.push(TrayMenuEntry::Item(TrayMenuId::Settings));
    entries.push(TrayMenuEntry::Separator);
    entries.push(TrayMenuEntry::Item(TrayMenuId::Quit));
    entries
}

} // verus!
