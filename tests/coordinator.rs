use claudeminder::menu::{
    build_tray_menu, click_shows_main, initial_tray_menu, menu_action, tray_tooltip, ButtonState,
    MenuAction, MenuEntry, MouseButton,
};
use claudeminder::sidecar::{call_backend, sidecar_result};
use claudeminder::state::{on_menu_event, update_tray_with_usage, UiState};
use claudeminder::windows::{
    apply_show_mode, get_overlay_position, set_overlay_position, set_overlay_visible, toggle_overlay,
    OverlayPosition, WindowVisibility,
};

fn view(e: &MenuEntry) -> (&str, &str, bool) {
    (e.id.as_str(), e.label.as_str(), e.enabled)
}

#[test]
fn menu_selections_map_to_actions() {
    assert_eq!(menu_action("quit"), MenuAction::Quit);
    assert_eq!(menu_action("show"), MenuAction::ShowMain);
    assert_eq!(menu_action("settings"), MenuAction::OpenSettings);
    assert_eq!(menu_action("refresh"), MenuAction::Refresh);
    assert_eq!(menu_action("overlay"), MenuAction::ToggleOverlay);
    assert_eq!(menu_action("usage_info"), MenuAction::Ignore);
    assert_eq!(menu_action("bogus"), MenuAction::Ignore);
    assert_eq!(menu_action(""), MenuAction::Ignore);
}

#[test]
fn snooze_selection_carries_its_minutes() {
    assert_eq!(menu_action("snooze_5"), MenuAction::Snooze(5));
    assert_eq!(menu_action("snooze_15"), MenuAction::Snooze(15));
    assert_eq!(menu_action("snooze_60"), MenuAction::Snooze(60));
    assert_eq!(menu_action("snooze_240"), MenuAction::Snooze(240));
}

#[test]
fn malformed_snooze_is_ignored() {
    assert_eq!(menu_action("snooze_999999999999"), MenuAction::Ignore);
    assert_eq!(menu_action("snooze_"), MenuAction::Ignore);
    assert_eq!(menu_action("snooze_abc"), MenuAction::Ignore);
    assert_eq!(menu_action("snooze_-5"), MenuAction::Ignore);
    assert_eq!(menu_action("snooze"), MenuAction::Ignore);
}

#[test]
fn only_left_release_shows_main() {
    assert!(click_shows_main(MouseButton::Left, ButtonState::Up));
    assert!(!click_shows_main(MouseButton::Left, ButtonState::Down));
    assert!(!click_shows_main(MouseButton::Right, ButtonState::Up));
    assert!(!click_shows_main(MouseButton::Middle, ButtonState::Up));
}

#[test]
fn tooltip_has_the_fixed_form() {
    assert_eq!(tray_tooltip(85, "14:00"), "Claudeminder: 85% used\nReset: 14:00");
    assert_eq!(tray_tooltip(120, ""), "Claudeminder: 120% used\nReset: ");
}

#[test]
fn menu_embeds_usage_and_reset() {
    let m = build_tray_menu(42, "09:30");
    assert_eq!(view(&m.usage_info), ("usage_info", "Usage: 42%", false));
    assert_eq!(view(&m.reset_info), ("reset_info", "Reset: 09:30", false));
    assert_eq!(m.snooze_title, "Snooze Notifications");
    let snooze: Vec<_> = m.snooze.iter().map(view).collect();
    assert_eq!(
        snooze,
        vec![
            ("snooze_5", "5 minutes", true),
            ("snooze_15", "15 minutes", true),
            ("snooze_30", "30 minutes", true),
            ("snooze_60", "1 hour", true),
        ]
    );
    let actions: Vec<_> = m.actions.iter().map(view).collect();
    assert_eq!(
        actions,
        vec![
            ("show", "Show Window", true),
            ("overlay", "Toggle Overlay", true),
            ("refresh", "Refresh Now", true),
            ("settings", "Settings...", true),
        ]
    );
    assert_eq!(view(&m.quit), ("quit", "Quit", true));
}

#[test]
fn initial_menu_has_placeholders() {
    let m = initial_tray_menu();
    assert_eq!(view(&m.usage_info), ("usage_info", "Usage: ---%", false));
    assert_eq!(view(&m.reset_info), ("reset_info", "Reset: --:--", false));
    assert_eq!(m.snooze.len(), 4);
    assert_eq!(m.actions.len(), 4);
}

#[test]
fn usage_update_for_85_at_14() {
    let mut state = UiState::new();
    let update = update_tray_with_usage(&mut state, 85, "14:00");
    assert_eq!(update.icon, claudeminder::badge::generate_percentage_icon(85));
    let i = (3 * 22 + 11) * 4;
    assert_eq!(&update.icon[i..i + 4], &[220, 53, 69, 255]);
    assert!(update.tooltip.ends_with("85% used\nReset: 14:00"));
    assert_eq!(update.menu.usage_info.label, "Usage: 85%");
    assert_eq!(update.menu.reset_info.label, "Reset: 14:00");
    assert_eq!(state.last_percentage, Some(85));
    assert_eq!(state.last_reset_label, "14:00");
}

#[test]
fn state_starts_blank_and_remembers_snooze() {
    let mut state = UiState::new();
    assert_eq!(state.last_percentage, None);
    assert_eq!(state.last_reset_label, "--:--");
    assert_eq!(state.snooze_minutes, None);
    assert_eq!(on_menu_event(&mut state, "snooze_30"), MenuAction::Snooze(30));
    assert_eq!(state.snooze_minutes, Some(30));
    assert_eq!(on_menu_event(&mut state, "snooze_99999999999"), MenuAction::Ignore);
    assert_eq!(state.snooze_minutes, Some(30));
    assert_eq!(on_menu_event(&mut state, "refresh"), MenuAction::Refresh);
    assert_eq!(state.snooze_minutes, Some(30));
}

#[test]
fn show_modes() {
    assert_eq!(apply_show_mode("main"), Ok(WindowVisibility { main: true, overlay: false }));
    assert_eq!(apply_show_mode("overlay"), Ok(WindowVisibility { main: false, overlay: true }));
    assert_eq!(apply_show_mode("both"), Ok(WindowVisibility { main: true, overlay: true }));
    assert_eq!(apply_show_mode("bogus"), Err("Invalid show mode: bogus".to_string()));
    assert_eq!(apply_show_mode(""), Err("Invalid show mode: ".to_string()));
}

#[test]
fn overlay_toggle() {
    assert_eq!(toggle_overlay(None), Err("Overlay window not found".to_string()));
    assert_eq!(toggle_overlay(Some(true)), Ok(false));
    assert_eq!(toggle_overlay(Some(false)), Ok(true));
}

#[test]
fn overlay_visibility_and_position() {
    assert_eq!(set_overlay_visible(true, false), Ok(false));
    assert_eq!(set_overlay_visible(false, true), Err("Overlay window not found".to_string()));
    assert_eq!(set_overlay_position(true, -5, 7), Some(OverlayPosition { x: -5, y: 7 }));
    assert_eq!(set_overlay_position(false, 1, 2), None);
    let p = OverlayPosition { x: 3, y: 4 };
    assert_eq!(get_overlay_position(Some(p)), Ok(p));
    assert_eq!(get_overlay_position(None), Err("Overlay window not found".to_string()));
}

#[test]
fn sidecar_outcomes() {
    assert_eq!(sidecar_result(true, "{}".to_string(), "warn".to_string()), Ok("{}".to_string()));
    assert_eq!(sidecar_result(false, "x".to_string(), String::new()), Err("Sidecar execution failed".to_string()));
    assert_eq!(sidecar_result(false, String::new(), "boom".to_string()), Err("boom".to_string()));
}

#[test]
fn sidecar_output_is_decoded() {
    assert_eq!(call_backend(true, b"{\"a\":1}", b""), Ok("{\"a\":1}".to_string()));
    assert_eq!(call_backend(false, b"", b""), Err("Sidecar execution failed".to_string()));
    assert_eq!(call_backend(false, b"", b"bad \xff"), Err("bad \u{FFFD}".to_string()));
    assert_eq!(call_backend(true, &[0xe2, 0x82, 0xac], b""), Ok("\u{20AC}".to_string()));
}
