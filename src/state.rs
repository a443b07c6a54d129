//! The UI state record and the usage-update and menu-selection handlers.

use vstd::prelude::*;
use crate::badge::{badge_samples, generate_percentage_icon};
use crate::menu::{
    MenuAction, TrayMenu, build_tray_menu, menu_action, menu_action_spec, menu_shape,
    reset_label_spec, tooltip_spec, tray_tooltip, usage_label_spec,
};

verus! {

/// What the coordinator remembers between events.
pub struct UiState {
    /// The last usage percentage shown, if any update came yet.
    pub last_percentage: Option<u8>,
    /// The last reset time shown.
    pub last_reset_label: String,
    /// The minutes of the last snooze chosen from the menu, if any.
    pub snooze_minutes: Option<u32>,
}

impl UiState {
    /// The state at startup: nothing shown yet.
    pub fn new() -> (r: Self)
        ensures
            r.last_percentage is None,
            r.last_reset_label@ == "--:--"@,
            r.snooze_minutes is None,
    {
        UiState { last_percentage: None, last_reset_label: String::from_str("--:--"), snooze_minutes: None }
    }
}

/// What the host should set on the tray after a usage update, in this
/// order: the icon, the tooltip, the menu.
pub struct TrayUpdate {
    /// The badge's RGBA samples.
    pub icon: Vec<u8>,
    pub tooltip: String,
    pub menu: TrayMenu,
}

/// Handles a usage update: remembers it and returns the new icon, tooltip
/// and menu.
pub fn update_tray_with_usage(state: &mut UiState, percentage: u8, reset_time: &str) -> (r: TrayUpdate)
    ensures
        final(state).last_percentage == Some(percentage),
        final(state).last_reset_label@ == reset_time@,
        final(state).snooze_minutes == old(state).snooze_minutes,
        r.icon@ == badge_samples(percentage),
        r.tooltip@ == tooltip_spec(percentage, reset_time@),
        menu_shape(r.menu, usage_label_spec(percentage), reset_label_spec(reset_time@)),
{
    let icon = generate_percentage_icon(percentage);
    let tooltip = tray_tooltip(percentage, reset_time);
    let menu = build_tray_menu(percentage, reset_time);
    state.last_percentage = Some(percentage);
    state.last_reset_label = String::from_str(reset_time);
    TrayUpdate { icon, tooltip, menu }
}

/// Handles a tray menu selection: returns what it asks the host to do and
/// remembers a snooze.
pub fn on_menu_event(state: &mut UiState, id: &str) -> (r: MenuAction)
    ensures
        r == menu_action_spec(id@),
        final(state).snooze_minutes == (match r {
            MenuAction::Snooze(minutes) => Some(minutes),
            _ => old(state).snooze_minutes,
        }),
        final(state).last_percentage == old(state).last_percentage,
        final(state).last_reset_label == old(state).last_reset_label,
{
    let action = menu_action(id);
    if let MenuAction::Snooze(minutes) = action {
        state.snooze_minutes = Some(minutes);
    }
    action
}

} // verus!
