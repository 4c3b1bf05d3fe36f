//! Window registry: the live set of named windows (main, settings, reminder)
//! and their lifecycle. Operations update the registry model and yield the
//! ordered list of toolkit actions the shell must perform; the toolkit calls
//! themselves happen outside this library.
//!
//! The settings window is reused when it exists (preserving unsaved in-page
//! state); the reminder popup is always recreated so it never shows a stale
//! count, is positioned at the bottom-right of the monitor's logical area,
//! and is closed by a one-shot ten-second timer. Closing an already-closed
//! window is a no-op.

use vstd::prelude::*;

use crate::strutil::{dec_rep, u32_to_dec};

verus! {

/// Identity of a named window.
#[derive(Debug, Clone, Copy, PartialEq, Eq, Structural)]
pub enum WindowKey {
    Main,
    Settings,
    Reminder,
}

/// Width of the reminder popup in logical pixels.
pub const REMINDER_WIDTH: u32 = 320;

/// Height of the reminder popup in logical pixels.
pub const REMINDER_HEIGHT: u32 = 120;

/// Margin kept between the reminder popup and the screen edge.
pub const REMINDER_MARGIN: u32 = 20;

/// Seconds until a freshly shown reminder popup closes itself.
pub const REMINDER_AUTO_CLOSE_SECS: u32 = 10;

/// Declarative description of a window to create: route, title, geometry and
/// decoration flags.
#[derive(Debug, Clone)]
pub struct WindowBuildSpec {
    pub key: WindowKey,
    pub url: String,
    pub title: String,
    pub width: u32,
    pub height: u32,
    pub resizable: bool,
    pub decorations: bool,
    pub always_on_top: bool,
    pub skip_taskbar: bool,
    pub centered: bool,
}

/// One synchronous toolkit call the shell must perform, in order.
#[derive(Debug, Clone)]
pub enum ToolkitAction {
    Create(WindowBuildSpec),
    Show(WindowKey),
    Center(WindowKey),
    Focus(WindowKey),
    Close(WindowKey),
    Minimize(WindowKey),
    Maximize(WindowKey),
    Unmaximize(WindowKey),
    SetPosition(WindowKey, i64, i64),
    ScheduleClose(WindowKey, u32),
}

/// Abstract state of one live window.
pub struct WindowModel {
    pub visible: bool,
    pub maximized: bool,
    pub minimized: bool,
    pub url: Seq<char>,
}

/// Abstract state of the registry: which of the three named windows are live,
/// and in what state.
#[verifier::ext_equal]
pub struct RegistryModel {
    pub main: Option<WindowModel>,
    pub settings: Option<WindowModel>,
    pub reminder: Option<WindowModel>,
}

/// Live state of one window as the registry tracks it.
#[derive(Debug, Clone)]
pub struct WindowEntry {
    pub visible: bool,
    pub maximized: bool,
    pub minimized: bool,
    pub url: String,
}

impl View for WindowEntry {
    type V = WindowModel;

    open spec fn view(&self) -> WindowModel {
        WindowModel {
            visible: self.visible,
            maximized: self.maximized,
            minimized: self.minimized,
            url: self.url@,
        }
    }
}

/// The registry of named windows the shell owns.
#[derive(Debug)]
pub struct WindowRegistry {
    pub main: Option<WindowEntry>,
    pub settings: Option<WindowEntry>,
    pub reminder: Option<WindowEntry>,
}

impl View for WindowRegistry {
    type V = RegistryModel;

    open spec fn view(&self) -> RegistryModel {
        RegistryModel {
            main: match self.main {
                Some(w) => Some(w@),
                None => None,
            },
            settings: match self.settings {
                Some(w) => Some(w@),
                None => None,
            },
            reminder: match self.reminder {
                Some(w) => Some(w@),
                None => None,
            },
        }
    }
}

/// The window a model holds under a key.
pub open spec fn window_of(r: RegistryModel, key: WindowKey) -> Option<WindowModel> {
    match key {
        WindowKey::Main => r.main,
        WindowKey::Settings => r.settings,
        WindowKey::Reminder => r.reminder,
    }
}

/// The model with the slot under `key` replaced.
pub open spec fn with_window(r: RegistryModel, key: WindowKey, w: Option<WindowModel>) -> RegistryModel {
    match key {
        WindowKey::Main => RegistryModel { main: w, ..r },
        WindowKey::Settings => RegistryModel { settings: w, ..r },
        WindowKey::Reminder => RegistryModel { reminder: w, ..r },
    }
}

/// The route of the settings window.
pub open spec fn settings_url() -> Seq<char> {
    "/settings"@
}

/// The route of a reminder popup showing `count` unread emails.
pub open spec fn reminder_url(count: nat) -> Seq<char> {
    "/reminder?count="@ + dec_rep(count)
}

/// A freshly created, visible settings window.
pub open spec fn fresh_settings() -> WindowModel {
    WindowModel { visible: true, maximized: false, minimized: false, url: settings_url() }
}

/// A freshly created, visible reminder popup for `count` unread emails.
pub open spec fn fresh_reminder(count: nat) -> WindowModel {
    WindowModel { visible: true, maximized: false, minimized: false, url: reminder_url(count) }
}

/// Transition: show the settings window. An existing window is reused and
/// made visible (its in-page state survives); otherwise a fresh one is built.
pub open spec fn show_settings_transition(r: RegistryModel) -> RegistryModel {
    match r.settings {
        Some(w) => RegistryModel { settings: Some(WindowModel { visible: true, ..w }), ..r },
        None => RegistryModel { settings: Some(fresh_settings()), ..r },
    }
}

/// Transition: show the reminder popup for `count` unread emails. Any live
/// reminder is discarded; exactly one fresh reminder is live afterwards.
pub open spec fn show_reminder_transition(r: RegistryModel, count: nat) -> RegistryModel {
    RegistryModel { reminder: Some(fresh_reminder(count)), ..r }
}

/// Transition: a window was closed (explicitly or by its auto-close timer).
pub open spec fn close_transition(r: RegistryModel, key: WindowKey) -> RegistryModel {
    with_window(r, key, None)
}

/// The build spec describes the settings window: route `/settings`, fixed
/// 600 by 500, not resizable, decorated, centered.
pub open spec fn is_settings_build_spec(ws: WindowBuildSpec) -> bool {
    &&& ws.key == WindowKey::Settings
    &&& ws.url@ == settings_url()
    &&& ws.title@ == "SERINA Settings"@
    &&& ws.width == 600
    &&& ws.height == 500
    &&& !ws.resizable
    &&& ws.decorations
    &&& !ws.always_on_top
    &&& !ws.skip_taskbar
    &&& ws.centered
}

/// The build spec describes a reminder popup for `count` unread emails:
/// route `/reminder?count=N`, fixed 320 by 120, undecorated, always on top,
/// kept out of the taskbar.
pub open spec fn is_reminder_build_spec(ws: WindowBuildSpec, count: nat) -> bool {
    &&& ws.key == WindowKey::Reminder
    &&& ws.url@ == reminder_url(count)
    &&& ws.title@ == "SERINA Reminder"@
    &&& ws.width == REMINDER_WIDTH
    &&& ws.height == REMINDER_HEIGHT
    &&& !ws.resizable
    &&& !ws.decorations
    &&& ws.always_on_top
    &&& ws.skip_taskbar
    &&& !ws.centered
}

impl WindowRegistry {
    /// The registry at process start: the toolkit has created the main
    /// window; no settings window or reminder popup exists yet.
    pub fn new() -> (r: WindowRegistry)
        ensures
            r@.main == Some(
                WindowModel { visible: true, maximized: false, minimized: false, url: "/"@ },
            ),
            r@.settings is None,
            r@.reminder is None,
    {
        WindowRegistry {
            main: Some(
                WindowEntry {
                    visible: true,
                    maximized: false,
                    minimized: false,
                    url: String::from_str("/"),
                },
            ),
            settings: None,
            reminder: None,
        }
    }

    /// Show the settings window: reuse (show, center, focus) a live one, else
    /// build a fresh one.
    pub fn show_settings(&mut self) -> (actions: Vec<ToolkitAction>)
        ensures
            final(self)@ == show_settings_transition(old(self)@),
            old(self)@.settings is Some ==> actions@.len() == 3 && (actions@[0] matches
                ToolkitAction::Show(WindowKey::Settings)) && (actions@[1] matches
                ToolkitAction::Center(WindowKey::Settings)) && (actions@[2] matches
                ToolkitAction::Focus(WindowKey::Settings)),
            old(self)@.settings is None ==> actions@.len() == 1 && (actions@[0] matches
                ToolkitAction::Create(ws) && is_settings_build_spec(ws)),
    {
        let mut actions: Vec<ToolkitAction> = Vec::new();
        match &mut self.settings {
            Some(w) => {
                w.visible = true;
                actions.push(ToolkitAction::Show(WindowKey::Settings));
                actions.push(ToolkitAction::Center(WindowKey::Settings));
                actions.push(ToolkitAction::Focus(WindowKey::Settings));
            },
            None => {
                self.settings = Some(
                    WindowEntry {
                        visible: true,
                        maximized: false,
                        minimized: false,
                        url: String::from_str("/settings"),
                    },
                );
                actions.push(
                    ToolkitAction::Create(
                        WindowBuildSpec {
                            key: WindowKey::Settings,
                            url: String::from_str("/settings"),
                            title: String::from_str("SERINA Settings"),
                            width: 600,
                            height: 500,
                            resizable: false,
                            decorations: true,
                            always_on_top: false,
                            skip_taskbar: false,
                            centered: true,
                        },
                    ),
                );
            },
        }
        actions
    }

    /// Show the reminder popup for `count` unread emails. A live reminder is
    /// closed first, then a fresh popup is built; when the monitor's logical
    /// size (physical size over scale factor) is known, the popup is placed
    /// at the bottom-right, one margin away from the edges; and a one-shot
    /// ten-second auto-close is scheduled.
    pub fn show_reminder(&mut self, count: u32, monitor_logical_size: Option<(u32, u32)>) -> (actions:
        Vec<ToolkitAction>)
        ensures
            final(self)@ == show_reminder_transition(old(self)@, count as nat),
            ({
                let pre = if old(self)@.reminder is Some {
                    1int
                } else {
                    0int
                };
                let mid = if monitor_logical_size is Some {
                    1int
                } else {
                    0int
                };
                &&& actions@.len() == pre + 2 + mid
                &&& old(self)@.reminder is Some ==> (actions@[0] matches ToolkitAction::Close(
                    WindowKey::Reminder,
                ))
                &&& (actions@[pre] matches ToolkitAction::Create(ws) && is_reminder_build_spec(
                    ws,
                    count as nat,
                ))
                &&& monitor_logical_size matches Some(dims) ==> (actions@[pre + 1] matches
                    ToolkitAction::SetPosition(WindowKey::Reminder, x, y) && x == dims.0 as int
                    - (REMINDER_WIDTH + REMINDER_MARGIN) && y == dims.1 as int - (REMINDER_HEIGHT
                    + REMINDER_MARGIN))
                &&& (actions@[pre + 1 + mid] matches ToolkitAction::ScheduleClose(
                    WindowKey::Reminder,
                    secs,
                ) && secs == REMINDER_AUTO_CLOSE_SECS)
            }),
    {
        let mut actions: Vec<ToolkitAction> = Vec::new();
        if self.reminder.is_some() {
            actions.push(ToolkitAction::Close(WindowKey::Reminder));
        }
        let mut url = String::from_str("/reminder?count=");
        url.append(u32_to_dec(count).as_str());
        self.reminder = Some(
            WindowEntry {
                visible: true,
                maximized: false,
                minimized: false,
                url: url.clone(),
            },
        );
        actions.push(
            ToolkitAction::Create(
                WindowBuildSpec {
                    key: WindowKey::Reminder,
                    url,
                    title: String::from_str("SERINA Reminder"),
                    width: REMINDER_WIDTH,
                    height: REMINDER_HEIGHT,
                    resizable: false,
                    decorations: false,
                    always_on_top: true,
                    skip_taskbar: true,
                    centered: false,
                },
            ),
        );
        match monitor_logical_size {
            Some((w, h)) => {
                let x = w as i64 - (REMINDER_WIDTH + REMINDER_MARGIN) as i64;
                let y = h as i64 - (REMINDER_HEIGHT + REMINDER_MARGIN) as i64;
                actions.push(ToolkitAction::SetPosition(WindowKey::Reminder, x, y));
            },
            None => {},
        }
        actions.push(ToolkitAction::ScheduleClose(WindowKey::Reminder, REMINDER_AUTO_CLOSE_SECS));
        actions
    }

    /// Close a window, explicitly or when its auto-close timer fires. Closing
    /// an absent (already-closed) window is a no-op, not an error: no action
    /// is emitted and the registry is unchanged.
    pub fn close_window(&mut self, key: WindowKey) -> (actions: Vec<ToolkitAction>)
        ensures
            final(self)@ == close_transition(old(self)@, key),
            window_of(old(self)@, key) is Some ==> actions@.len() == 1 && (actions@[0] matches
                ToolkitAction::Close(k) && k == key),
            window_of(old(self)@, key) is None ==> actions@.len() == 0,
    {
        let mut actions: Vec<ToolkitAction> = Vec::new();
        let present = match key {
            WindowKey::Main => {
                let p = self.main.is_some();
                self.main = None;
                p
            },
            WindowKey::Settings => {
                let p = self.settings.is_some();
                self.settings = None;
                p
            },
            WindowKey::Reminder => {
                let p = self.reminder.is_some();
                self.reminder = None;
                p
            },
        };
        if present {
            actions.push(ToolkitAction::Close(key));
        }
        proof {
            assert(final(self)@ =~= close_transition(old(self)@, key));
        }
        actions
    }

    /// Show and focus the main window (tray left-click and the tray `Show`
    /// item). The main window exists for the whole life of the process.
    pub fn show_main(&mut self) -> (actions: Vec<ToolkitAction>)
        requires
            old(self)@.main is Some,
        ensures
            final(self)@ == (RegistryModel {
                main: Some(
                    WindowModel { visible: true, ..window_of(old(self)@, WindowKey::Main).unwrap() },
                ),
                ..old(self)@
            }),
            actions@.len() == 2,
            (actions@[0] matches ToolkitAction::Show(WindowKey::Main)),
            (actions@[1] matches ToolkitAction::Focus(WindowKey::Main)),
    {
        let mut actions: Vec<ToolkitAction> = Vec::new();
        match &mut self.main {
            Some(w) => {
                w.visible = true;
            },
            None => {},
        }
        actions.push(ToolkitAction::Show(WindowKey::Main));
        actions.push(ToolkitAction::Focus(WindowKey::Main));
        actions
    }

    /// Minimize a window. Acting on an absent window is a toolkit error,
    /// surfaced as text.
    pub fn minimize_window(&mut self, key: WindowKey) -> (r: Result<Vec<ToolkitAction>, String>)
        ensures
            r is Ok <==> window_of(old(self)@, key) is Some,
            r matches Ok(actions) ==> {
                &&& final(self)@ == with_window(
                    old(self)@,
                    key,
                    Some(
                        WindowModel {
                            minimized: true,
                            ..window_of(old(self)@, key).unwrap()
                        },
                    ),
                )
                &&& actions@.len() == 1
                &&& (actions@[0] matches ToolkitAction::Minimize(k) && k == key)
            },
            r matches Err(e) ==> e@ == "window not found"@ && final(self)@ == old(self)@,
    {
        let entry = match key {
            WindowKey::Main => &mut self.main,
            WindowKey::Settings => &mut self.settings,
            WindowKey::Reminder => &mut self.reminder,
        };
        match entry {
            Some(w) => {
                w.minimized = true;
                let mut actions: Vec<ToolkitAction> = Vec::new();
                actions.push(ToolkitAction::Minimize(key));
                proof {
                    assert(final(self)@ =~= with_window(
                        old(self)@,
                        key,
                        Some(
                            WindowModel {
                                minimized: true,
                                ..window_of(old(self)@, key).unwrap()
                            },
                        ),
                    ));
                }
                Ok(actions)
            },
            None => {
                proof {
                    assert(final(self)@ =~= old(self)@);
                }
                Err(String::from_str("window not found"))
            },
        }
    }

    /// Toggle a window between maximized and restored, inspecting its current
    /// maximized state to decide which transition to apply. Acting on an
    /// absent window is a toolkit error, surfaced as text.
    pub fn toggle_maximize_window(&mut self, key: WindowKey) -> (r: Result<
        Vec<ToolkitAction>,
        String,
    >)
        ensures
            r is Ok <==> window_of(old(self)@, key) is Some,
            r matches Ok(actions) ==> {
                let was = window_of(old(self)@, key).unwrap();
                &&& final(self)@ == with_window(
                    old(self)@,
                    key,
                    Some(WindowModel { maximized: !was.maximized, ..was }),
                )
                &&& actions@.len() == 1
                &&& was.maximized ==> (actions@[0] matches ToolkitAction::Unmaximize(k) && k
                    == key)
                &&& !was.maximized ==> (actions@[0] matches ToolkitAction::Maximize(k) && k
                    == key)
            },
            r matches Err(e) ==> e@ == "window not found"@ && final(self)@ == old(self)@,
    {
        let entry = match key {
            WindowKey::Main => &mut self.main,
            WindowKey::Settings => &mut self.settings,
            WindowKey::Reminder => &mut self.reminder,
        };
        match entry {
            Some(w) => {
                let was_maximized = w.maximized;
                w.maximized = !was_maximized;
                let mut actions: Vec<ToolkitAction> = Vec::new();
                if was_maximized {
                    actions.push(ToolkitAction::Unmaximize(key));
                } else {
                    actions.push(ToolkitAction::Maximize(key));
                }
                proof {
                    let was = window_of(old(self)@, key).unwrap();
                    assert(final(self)@ =~= with_window(
                        old(self)@,
                        key,
                        Some(WindowModel { maximized: !was.maximized, ..was }),
                    ));
                }
                Ok(actions)
            },
            None => {
                proof {
                    assert(final(self)@ =~= old(self)@);
                }
                Err(String::from_str("window not found"))
            },
        }
    }
}

/// Law: closing a window that is already closed changes nothing — the
/// auto-close timer may fire after an explicit close without effect.
pub proof fn lemma_close_closed_is_noop(r: RegistryModel, key: WindowKey)
    requires
        window_of(r, key) is None,
    ensures
        close_transition(r, key) == r,
{
    assert(close_transition(r, key) =~= r);
}

/// Law: closing a window twice is the same as closing it once.
pub proof fn lemma_close_idempotent(r: RegistryModel, key: WindowKey)
    ensures
        close_transition(close_transition(r, key), key) == close_transition(r, key),
{
    assert(close_transition(close_transition(r, key), key) =~= close_transition(r, key));
}

/// Law: showing the reminder popup twice in succession leaves exactly one
/// reminder live, the one reflecting the second count; and the second call
/// finds the first popup live, so its action list closes it before building
/// the new one.
pub proof fn lemma_reminder_reopen(r: RegistryModel, first_count: nat, second_count: nat)
    ensures
        show_reminder_transition(show_reminder_transition(r, first_count), second_count).reminder
            == Some(fresh_reminder(second_count)),
        show_reminder_transition(r, first_count).reminder is Some,
{
}

} // verus!
