//! The tray menu: its entries, what a selection asks for, and the tooltip.

use vstd::prelude::*;
use crate::text::{decimal_chars, decimal_string, has_prefix, parse_u32, parse_u32_spec, same_text};

verus! {

/// Name of the application, as the tooltip shows it.
pub const APP_NAME: &'static str = "Claudeminder";

/// Identifier prefix of the snooze entries; the rest is a number of minutes.
pub const SNOOZE_PREFIX: &'static str = "snooze_";

/// What a selection in the tray menu asks the host to do.
#[derive(Clone, Copy, Debug, PartialEq, Eq, Structural)]
pub enum MenuAction {
    /// End the process.
    Quit,
    /// Show the main window and give it focus.
    ShowMain,
    /// Show and focus the main window, then emit `open-settings`.
    OpenSettings,
    /// Emit `refresh-usage`.
    Refresh,
    /// Flip the overlay window's visibility.
    ToggleOverlay,
    /// Emit `snooze-activated` carrying this many minutes.
    Snooze(u32),
    /// Do nothing.
    Ignore,
}

/// The action for menu entry `id`.
pub open spec fn menu_action_spec(id: Seq<char>) -> MenuAction {
    if id == "quit"@ {
        MenuAction::Quit
    } else if id == "show"@ {
        MenuAction::ShowMain
    } else if id == "settings"@ {
        MenuAction::OpenSettings
    } else if id == "refresh"@ {
        MenuAction::Refresh
    } else if id == "overlay"@ {
        MenuAction::ToggleOverlay
    } else if id.len() >= 7 && id.subrange(0, 7) == "snooze_"@ {
        match parse_u32_spec(id.subrange(7, id.len() as int)) {
            Some(minutes) => MenuAction::Snooze(minutes),
            None => MenuAction::Ignore,
        }
    } else {
        MenuAction::Ignore
    }
}

/// What selecting the menu entry `id` asks for. A `snooze_<N>` entry whose
/// `<N>` is not a `u32` is ignored, as is any unknown entry.
pub fn menu_action(id: &str) -> (r: MenuAction)
    ensures
        r == menu_action_spec(id@),
{
    proof {
        reveal_strlit("snooze_");
    }
    if same_text(id, "quit") {
        MenuAction::Quit
    } else if same_text(id, "show") {
        MenuAction::ShowMain
    } else if same_text(id, "settings") {
        MenuAction::OpenSettings
    } else if same_text(id, "refresh") {
        MenuAction::Refresh
    } else if same_text(id, "overlay") {
        MenuAction::ToggleOverlay
    } else if has_prefix(id, SNOOZE_PREFIX) {
        let rest = id.substring_char(7, id.unicode_len());
        match parse_u32(rest) {
            Some(minutes) => MenuAction::Snooze(minutes),
            None => MenuAction::Ignore,
        }
    } else {
        MenuAction::Ignore
    }
}

/// A mouse button on the tray icon.
#[derive(Clone, Copy, Debug, PartialEq, Eq, Structural)]
pub enum MouseButton {
    Left,
    Right,
    Middle,
}

/// Whether a mouse button went down or came up.
#[derive(Clone, Copy, Debug, PartialEq, Eq, Structural)]
pub enum ButtonState {
    Down,
    Up,
}

/// Whether a click on the tray icon brings up the main window: only the
/// release of the left button does.
pub fn click_shows_main(button: MouseButton, state: ButtonState) -> (r: bool)
    ensures
        r == (button == MouseButton::Left && state == ButtonState::Up),
{
    match (button, state) {
        (MouseButton::Left, ButtonState::Up) => true,
        _ => false,
    }
}

/// The tooltip for a usage update: `"{app}: {percentage}% used\nReset: {reset}"`.
pub open spec fn tooltip_spec(percentage: u8, reset_time: Seq<char>) -> Seq<char> {
    APP_NAME@ + ": "@ + decimal_chars(percentage as nat) + "% used\nReset: "@ + reset_time
}

/// The tray tooltip after a usage update.
pub fn tray_tooltip(percentage: u8, reset_time: &str) -> (r: String)
    ensures
        r@ == tooltip_spec(percentage, reset_time@),
{
    let mut s = String::from_str(APP_NAME);
    s.append(": ");
    let digits = decimal_string(percentage);
    s.append(digits.as_str());
    s.append("% used\nReset: ");
    s.append(reset_time);
    s
}

/// One entry of the tray menu.
pub struct MenuEntry {
    pub id: String,
    pub label: String,
    pub enabled: bool,
}

impl MenuEntry {
    /// The entry as identifier, label and whether it can be selected.
    pub open spec fn spec_view(&self) -> (Seq<char>, Seq<char>, bool) {
        (self.id@, self.label@, self.enabled)
    }
}

/// An entry with these identifier, label and enabled flag.
fn entry(id: &str, label: &str, enabled: bool) -> (r: MenuEntry)
    ensures
        r.spec_view() == (id@, label@, enabled),
{
    MenuEntry { id: String::from_str(id), label: String::from_str(label), enabled }
}

/// The tray menu: two display-only lines, a snooze submenu, the actions,
/// and quit; separators stand between these groups.
pub struct TrayMenu {
    pub usage_info: MenuEntry,
    pub reset_info: MenuEntry,
    pub snooze_title: String,
    pub snooze: Vec<MenuEntry>,
    pub actions: Vec<MenuEntry>,
    pub quit: MenuEntry,
}

/// The snooze submenu's entries.
pub open spec fn snooze_entries_spec() -> Seq<(Seq<char>, Seq<char>, bool)> {
    seq![
        ("snooze_5"@, "5 minutes"@, true),
        ("snooze_15"@, "15 minutes"@, true),
        ("snooze_30"@, "30 minutes"@, true),
        ("snooze_60"@, "1 hour"@, true),
    ]
}

/// The action entries.
pub open spec fn action_entries_spec() -> Seq<(Seq<char>, Seq<char>, bool)> {
    seq![
        ("show"@, "Show Window"@, true),
        ("overlay"@, "Toggle Overlay"@, true),
        ("refresh"@, "Refresh Now"@, true),
        ("settings"@, "Settings..."@, true),
    ]
}

/// Whether `m` is the tray menu whose display-only lines read `usage_label`
/// and `reset_label`.
pub open spec fn menu_shape(m: TrayMenu, usage_label: Seq<char>, reset_label: Seq<char>) -> bool {
    &&& m.usage_info.spec_view() == ("usage_info"@, usage_label, false)
    &&& m.reset_info.spec_view() == ("reset_info"@, reset_label, false)
    &&& m.snooze_title@ == "Snooze Notifications"@
    &&& m.snooze@.map_values(|e: MenuEntry| e.spec_view()) == snooze_entries_spec()
    &&& m.actions@.map_values(|e: MenuEntry| e.spec_view()) == action_entries_spec()
    &&& m.quit.spec_view() == ("quit"@, "Quit"@, true)
}

/// The tray menu with these two display-only lines.
fn menu_with_labels(usage_label: &str, reset_label: &str) -> (r: TrayMenu)
    ensures
        menu_shape(r, usage_label@, reset_label@),
{
    let usage_info = entry("usage_info", usage_label, false);
    let reset_info = entry("reset_info", reset_label, false);
    let mut snooze: Vec<MenuEntry> = Vec::new();
    snooze.push(entry("snooze_5", "5 minutes", true));
    snooze.push(entry("snooze_15", "15 minutes", true));
    snooze.push(entry("snooze_30", "30 minutes", true));
    snooze.push(entry("snooze_60", "1 hour", true));
    let mut actions: Vec<MenuEntry> = Vec::new();
    actions.push(entry("show", "Show Window", true));
    actions.push(entry("overlay", "Toggle Overlay", true));
    actions.push(entry("refresh", "Refresh Now", true));
    actions.push(entry("settings", "Settings...", true));
    let quit = entry("quit", "Quit", true);
    let r = TrayMenu {
        usage_info,
        reset_info,
        snooze_title: String::from_str("Snooze Notifications"),
        snooze,
        actions,
        quit,
    };
    assert(r.snooze@.map_values(|e: MenuEntry| e.spec_view()) =~= snooze_entries_spec());
    assert(r.actions@.map_values(|e: MenuEntry| e.spec_view()) =~= action_entries_spec());
    r
}

/// The usage line of the menu: `"Usage: {percentage}%"`.
pub open spec fn usage_label_spec(percentage: u8) -> Seq<char> {
    "Usage: "@ + decimal_chars(percentage as nat) + "%"@
}

/// The reset line of the menu: `"Reset: {reset_time}"`.
pub open spec fn reset_label_spec(reset_time: Seq<char>) -> Seq<char> {
    "Reset: "@ + reset_time
}

/// The tray menu for a usage of `percentage` that resets at `reset_time`.
pub fn build_tray_menu(percentage: u8, reset_time: &str) -> (r: TrayMenu)
    ensures
        menu_shape(r, usage_label_spec(percentage), reset_label_spec(reset_time@)),
{
    let mut usage = String::from_str("Usage: ");
    let digits = decimal_string(percentage);
    usage.append(digits.as_str());
    usage.append("%");
    let mut reset = String::from_str("Reset: ");
    reset.append(reset_time);
    menu_with_labels(usage.as_str(), reset.as_str())
}

/// The tray menu shown before the first usage update.
pub fn initial_tray_menu() -> (r: TrayMenu)
    ensures
        menu_shape(r, "Usage: ---%"@, "Reset: --:--"@),
{
    menu_with_labels("Usage: ---%", "Reset: --:--")
}

} // verus!
