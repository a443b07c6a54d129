//! Names and payloads of the events exchanged with the user interface.

use vstd::prelude::*;

verus! {

/// Event asking to update the tray tooltip.
pub const EVENT_TRAY_UPDATE: &'static str = "tray-update";

/// Event asking to animate the tray icon.
pub const EVENT_TRAY_ANIMATE: &'static str = "tray-animate";

/// Event announcing a snooze.
pub const EVENT_SNOOZE: &'static str = "snooze";

/// Event emitted when the settings entry is chosen.
pub const EVENT_OPEN_SETTINGS: &'static str = "open-settings";

/// Event emitted when the refresh entry is chosen.
pub const EVENT_REFRESH_USAGE: &'static str = "refresh-usage";

/// Event emitted when a snooze entry is chosen.
pub const EVENT_SNOOZE_ACTIVATED: &'static str = "snooze-activated";

/// Payload of the tray-animate event.
#[derive(Clone, Copy, Debug, PartialEq, Eq, Structural)]
pub struct TrayAnimatePayload {
    pub animate: bool,
}

/// Payload of the snooze event.
#[derive(Clone, Copy, Debug, PartialEq, Eq, Structural)]
pub struct SnoozePayload {
    pub duration_minutes: u32,
}

/// The notification state that the sidecar reports.
#[derive(Clone, Copy, Debug, PartialEq, Eq, Structural)]
pub struct FocusModeStatus {
    pub is_snoozed: bool,
    pub snooze_remaining: i64,
    pub is_quiet_hours: bool,
    pub is_dnd: bool,
    pub notifications_suppressed: bool,
}

} // verus!
