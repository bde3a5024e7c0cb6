use overlay_toggle::overlay::hide_overlay;
use overlay_toggle::overlay::not_found_message;
use overlay_toggle::overlay::overlay_label;
use overlay_toggle::overlay::show_overlay;
use overlay_toggle::overlay::toggle_overlay;
use overlay_toggle::overlay::OverlayWindow;

#[test]
fn hide_then_show_leaves_visible() {
    let mut w = OverlayWindow::Present { visible: true };
    assert_eq!(hide_overlay(&mut w), Ok(()));
    assert_eq!(show_overlay(&mut w), Ok(()));
    assert_eq!(w, OverlayWindow::Present { visible: true });
}

#[test]
fn hide_then_show_from_hidden_leaves_visible() {
    let mut w = OverlayWindow::Present { visible: false };
    assert_eq!(hide_overlay(&mut w), Ok(()));
    assert_eq!(show_overlay(&mut w), Ok(()));
    assert_eq!(w, OverlayWindow::Present { visible: true });
}

#[test]
fn toggle_twice_from_visible() {
    let mut w = OverlayWindow::Present { visible: true };
    assert_eq!(toggle_overlay(&mut w), Ok(false));
    assert_eq!(w, OverlayWindow::Present { visible: false });
    assert_eq!(toggle_overlay(&mut w), Ok(true));
    assert_eq!(w, OverlayWindow::Present { visible: true });
}

#[test]
fn toggle_twice_from_hidden() {
    let mut w = OverlayWindow::Present { visible: false };
    assert_eq!(toggle_overlay(&mut w), Ok(true));
    assert_eq!(w, OverlayWindow::Present { visible: true });
    assert_eq!(toggle_overlay(&mut w), Ok(false));
    assert_eq!(w, OverlayWindow::Present { visible: false });
}

#[test]
fn toggle_missing_window_fails_with_fixed_message() {
    let mut w = OverlayWindow::Absent;
    let r = toggle_overlay(&mut w);
    assert_eq!(r, Err("Overlay window not found".to_string()));
    assert_eq!(w, OverlayWindow::Absent);
}

#[test]
fn show_missing_window_succeeds() {
    let mut w = OverlayWindow::Absent;
    assert_eq!(show_overlay(&mut w), Ok(()));
    assert_eq!(w, OverlayWindow::Absent);
}

#[test]
fn hide_missing_window_succeeds() {
    let mut w = OverlayWindow::Absent;
    assert_eq!(hide_overlay(&mut w), Ok(()));
    assert_eq!(w, OverlayWindow::Absent);
}

#[test]
fn show_makes_hidden_window_visible() {
    let mut w = OverlayWindow::Present { visible: false };
    assert_eq!(show_overlay(&mut w), Ok(()));
    assert_eq!(w, OverlayWindow::Present { visible: true });
}

#[test]
fn show_keeps_visible_window_visible() {
    let mut w = OverlayWindow::Present { visible: true };
    assert_eq!(show_overlay(&mut w), Ok(()));
    assert_eq!(w, OverlayWindow::Present { visible: true });
}

#[test]
fn hide_makes_visible_window_hidden() {
    let mut w = OverlayWindow::Present { visible: true };
    assert_eq!(hide_overlay(&mut w), Ok(()));
    assert_eq!(w, OverlayWindow::Present { visible: false });
}

#[test]
fn not_found_message_text() {
    assert_eq!(not_found_message(), "Overlay window not found");
}

#[test]
fn overlay_label_value() {
    assert_eq!(overlay_label(), "overlay");
}
