//! The overlay window model and the three commands over it.

use vstd::prelude::*;
use vstd::string::StringExecFns;

verus! {

/// The controller's view of the host-owned overlay window: either no window
/// is registered under the overlay label, or one is, with a boolean
/// visibility state. The host runtime owns the real window; this is all of
/// it that the commands read or change.
#[derive(Clone, Copy, PartialEq, Eq, Structural, Debug)]
pub enum OverlayWindow {
    /// No window is registered under the overlay label.
    Absent,
    /// A window is registered; `visible` is its current visibility.
    Present { visible: bool },
}

/// Whether the window is present and currently visible.
pub open spec fn spec_visible(w: OverlayWindow) -> bool {
    w matches OverlayWindow::Present { visible } && visible
}

/// The window after the show command: a present window ends up visible
/// (and focused); an absent window is left alone.
pub open spec fn spec_show(w: OverlayWindow) -> OverlayWindow {
    match w {
        OverlayWindow::Absent => OverlayWindow::Absent,
        OverlayWindow::Present { .. } => OverlayWindow::Present { visible: true },
    }
}

/// The window after the hide command: a present window ends up hidden; an
/// absent window is left alone.
pub open spec fn spec_hide(w: OverlayWindow) -> OverlayWindow {
    match w {
        OverlayWindow::Absent => OverlayWindow::Absent,
        OverlayWindow::Present { .. } => OverlayWindow::Present { visible: false },
    }
}

/// The window after the toggle command: a present window has its visibility
/// flipped; an absent window is left alone (the command fails instead).
pub open spec fn spec_toggle(w: OverlayWindow) -> OverlayWindow {
    match w {
        OverlayWindow::Absent => OverlayWindow::Absent,
        OverlayWindow::Present { visible } => OverlayWindow::Present { visible: !visible },
    }
}

/// The label under which the host registers the overlay window.
pub open spec fn overlay_label_text() -> Seq<char> {
    "overlay"@
}

/// The label under which the host registers the overlay window; the code
/// that talks to the host looks the window up by this.
pub fn overlay_label() -> (r: &'static str)
    ensures
        r@ == overlay_label_text(),
{
    "overlay"
}

/// The text of the error the toggle command returns when no overlay window
/// exists.
pub open spec fn not_found_text() -> Seq<char> {
    "Overlay window not found"@
}

/// The fixed error message for a toggle of a missing window.
pub fn not_found_message() -> (r: String)
    ensures
        r@ == not_found_text(),
{
    String::from_str("Overlay window not found")
}

/// Show the overlay: a present window becomes visible (and focused); when no
/// window exists the command is a no-op and still succeeds.
pub fn show_overlay(win: &mut OverlayWindow) -> (r: Result<(), String>)
    ensures
        r is Ok,
        *final(win) == spec_show(*old(win)),
{
    match *win {
        OverlayWindow::Absent => {},
        OverlayWindow::Present { .. } => {
            *win = OverlayWindow::Present { visible: true };
        },
    }
    Ok(())
}

/// Hide the overlay: a present window becomes hidden; when no window exists
/// the command is a no-op and still succeeds.
pub fn hide_overlay(win: &mut OverlayWindow) -> (r: Result<(), String>)
    ensures
        r is Ok,
        *final(win) == spec_hide(*old(win)),
{
    match *win {
        OverlayWindow::Absent => {},
        OverlayWindow::Present { .. } => {
            *win = OverlayWindow::Present { visible: false };
        },
    }
    Ok(())
}

/// Toggle the overlay: flip a present window's visibility and return the new
/// visibility; fail with the fixed "not found" message, and change nothing,
/// when no window exists.
pub fn toggle_overlay(win: &mut OverlayWindow) -> (r: Result<bool, String>)
    ensures
        *final(win) == spec_toggle(*old(win)),
        *old(win) is Present ==> (r matches Ok(v) && v == !spec_visible(*old(win))),
        *old(win) is Absent ==> (r matches Err(m) && m@ == not_found_text()),
{
    match *win {
        OverlayWindow::Absent => Err(not_found_message()),
        OverlayWindow::Present { visible } => {
            *win = OverlayWindow::Present { visible: !visible };
            Ok(!visible)
        },
    }
}

/// Law: hiding and then showing a present window leaves it visible.
///
/// An absent window is untouched by both commands and stays absent, so it is
/// left out here.
pub proof fn lemma_hide_then_show_visible(w: OverlayWindow)
    requires
        w is Present,
    ensures
        spec_visible(spec_show(spec_hide(w))),
{
}

/// Law: toggling twice returns a present window to its original visibility,
/// and the first toggle leaves it with the complement of that visibility,
/// which is the value the command reports.
pub proof fn lemma_toggle_twice(w: OverlayWindow)
    requires
        w is Present,
    ensures
        spec_toggle(spec_toggle(w)) == w,
        spec_visible(spec_toggle(w)) == !spec_visible(w),
{
}

} // verus!
