//! Visibility and position of the main and overlay windows.

use vstd::prelude::*;
use crate::text::same_text;

verus! {

/// Message returned when the overlay window does not exist.
pub const OVERLAY_NOT_FOUND: &'static str = "Overlay window not found";

/// Which of the two windows should be visible.
#[derive(Clone, Copy, Debug, PartialEq, Eq, Structural)]
pub struct WindowVisibility {
    pub main: bool,
    pub overlay: bool,
}

/// The visibility a show mode names: `main`, `overlay` or `both`.
pub open spec fn show_mode_spec(mode: Seq<char>) -> Option<WindowVisibility> {
    if mode == "main"@ {
        Some(WindowVisibility { main: true, overlay: false })
    } else if mode == "overlay"@ {
        Some(WindowVisibility { main: false, overlay: true })
    } else if mode == "both"@ {
        Some(WindowVisibility { main: true, overlay: true })
    } else {
        None
    }
}

/// The message for a show mode that names none of the three.
pub open spec fn invalid_mode_message(mode: Seq<char>) -> Seq<char> {
    "Invalid show mode: "@ + mode
}

/// The visibility that show mode `mode` asks for; a window that does not
/// exist is left alone by whoever applies it. Any other mode is an error
/// that names it, and changes nothing.
pub fn apply_show_mode(mode: &str) -> (r: Result<WindowVisibility, String>)
    ensures
        show_mode_spec(mode@) matches Some(v) ==> r == Ok::<WindowVisibility, String>(v),
        show_mode_spec(mode@) is None ==> (r matches Err(e) && e@ == invalid_mode_message(mode@)),
{
    if same_text(mode, "main") {
        Ok(WindowVisibility { main: true, overlay: false })
    } else if same_text(mode, "overlay") {
        Ok(WindowVisibility { main: false, overlay: true })
    } else if same_text(mode, "both") {
        Ok(WindowVisibility { main: true, overlay: true })
    } else {
        let mut message = String::from_str("Invalid show mode: ");
        message.append(mode);
        Err(message)
    }
}

/// The overlay's visibility after a toggle, given its visibility now
/// (`None` when the overlay window does not exist, which is an error).
pub fn toggle_overlay(overlay_visible: Option<bool>) -> (r: Result<bool, String>)
    ensures
        overlay_visible matches Some(v) ==> r == Ok::<bool, String>(!v),
        overlay_visible is None ==> (r matches Err(e) && e@ == OVERLAY_NOT_FOUND@),
{
    match overlay_visible {
        Some(v) => Ok(!v),
        None => Err(String::from_str(OVERLAY_NOT_FOUND)),
    }
}

/// The overlay's visibility after setting it to `visible`; an error when
/// the overlay window does not exist.
pub fn set_overlay_visible(overlay_exists: bool, visible: bool) -> (r: Result<bool, String>)
    ensures
        overlay_exists ==> r == Ok::<bool, String>(visible),
        !overlay_exists ==> (r matches Err(e) && e@ == OVERLAY_NOT_FOUND@),
{
    if overlay_exists {
        Ok(visible)
    } else {
        Err(String::from_str(OVERLAY_NOT_FOUND))
    }
}

/// A window position in physical pixels.
#[derive(Clone, Copy, Debug, PartialEq, Eq, Structural)]
pub struct OverlayPosition {
    pub x: i32,
    pub y: i32,
}

/// Where to move the overlay window: `None` when it does not exist, in
/// which case nothing is to be done.
pub fn set_overlay_position(overlay_exists: bool, x: i32, y: i32) -> (r: Option<OverlayPosition>)
    ensures
        overlay_exists ==> r == Some(OverlayPosition { x, y }),
        !overlay_exists ==> r is None,
{
    if overlay_exists {
        Some(OverlayPosition { x, y })
    } else {
        None
    }
}

/// The overlay's position, given its outer position (`None` when the overlay
/// window does not exist, which is an error).
pub fn get_overlay_position(outer: Option<OverlayPosition>) -> (r: Result<OverlayPosition, String>)
    ensures
        outer matches Some(p) ==> r == Ok::<OverlayPosition, String>(p),
        outer is None ==> (r matches Err(e) && e@ == OVERLAY_NOT_FOUND@),
{
    match outer {
        Some(p) => Ok(p),
        None => Err(String::from_str(OVERLAY_NOT_FOUND)),
    }
}

} // verus!
