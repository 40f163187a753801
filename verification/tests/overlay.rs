use overlay_core::overlay::OverlayError;
use overlay_core::overlay::OverlayState;
use overlay_core::overlay::ToggleAction;
use overlay_core::overlay::WindowModel;
use overlay_core::overlay::click_through_style;
use overlay_core::overlay::hide_overlay;
use overlay_core::overlay::set_click_through;
use overlay_core::overlay::toggle_overlay;
use overlay_core::overlay::WS_EX_LAYERED;
use overlay_core::overlay::WS_EX_TRANSPARENT;

#[test]
fn new_overlay_starts_hidden() {
    let s = OverlayState::new();
    assert!(!s.visible);
}

#[test]
fn toggle_from_hidden_shows_focuses_and_clears_click_through() {
    let mut s = OverlayState::new();
    let mut w = WindowModel { visible: false, focused: false, ex_style: WS_EX_TRANSPARENT };
    let now_visible = toggle_overlay(&mut s, &mut w);
    assert!(now_visible);
    assert!(s.visible);
    assert!(w.visible);
    assert!(w.focused);
    assert_eq!(w.ex_style & WS_EX_TRANSPARENT, 0);
}

#[test]
fn toggle_from_visible_hides_and_leaves_style() {
    let mut s = OverlayState::new();
    s.visible = true;
    let style = WS_EX_LAYERED | WS_EX_TRANSPARENT;
    let mut w = WindowModel { visible: true, focused: true, ex_style: style };
    let now_visible = toggle_overlay(&mut s, &mut w);
    assert!(!now_visible);
    assert!(!s.visible);
    assert!(!w.visible);
    assert!(w.focused);
    assert_eq!(w.ex_style, style);
}

#[test]
fn two_toggles_return_to_start_with_click_through_off() {
    for start in [false, true] {
        let mut s = OverlayState::new();
        s.visible = start;
        let mut w = WindowModel {
            visible: start,
            focused: false,
            ex_style: WS_EX_LAYERED | WS_EX_TRANSPARENT,
        };
        toggle_overlay(&mut s, &mut w);
        toggle_overlay(&mut s, &mut w);
        assert_eq!(s.visible, start);
        assert_eq!(w.ex_style & WS_EX_TRANSPARENT, 0);
    }
}

#[test]
fn failed_toggle_leaves_flag_unchanged() {
    let mut s = OverlayState::new();
    assert!(matches!(s.toggle_action(), ToggleAction::ShowFocusInteractive));
    let r = s.commit_toggle(false);
    assert!(!r);
    assert!(!s.visible);
    let r = s.commit_toggle(true);
    assert!(r);
    assert!(s.visible);
    assert!(matches!(s.toggle_action(), ToggleAction::Hide));
}

#[test]
fn click_through_round_trip_restores_transparent_and_keeps_layered() {
    let original: u64 = 0x0010_0000;
    let enabled = click_through_style(original, true);
    assert_eq!(enabled & WS_EX_TRANSPARENT, WS_EX_TRANSPARENT);
    assert_eq!(enabled & WS_EX_LAYERED, WS_EX_LAYERED);
    let disabled = click_through_style(enabled, false);
    assert_eq!(disabled & WS_EX_TRANSPARENT, 0);
    assert_eq!(disabled & WS_EX_LAYERED, WS_EX_LAYERED);
    assert_eq!(disabled, original | WS_EX_LAYERED);
}

#[test]
fn disabling_click_through_leaves_layered_untouched() {
    let without_layered: u64 = WS_EX_TRANSPARENT;
    assert_eq!(click_through_style(without_layered, false), 0);
    let with_layered: u64 = WS_EX_LAYERED | WS_EX_TRANSPARENT;
    assert_eq!(click_through_style(with_layered, false), WS_EX_LAYERED);
}

#[test]
fn set_click_through_only_touches_style() {
    let mut w = WindowModel { visible: true, focused: true, ex_style: 0 };
    set_click_through(&mut w, true);
    assert!(w.visible);
    assert!(w.focused);
    assert_eq!(w.ex_style, WS_EX_LAYERED | WS_EX_TRANSPARENT);
    set_click_through(&mut w, true);
    assert_eq!(w.ex_style, WS_EX_LAYERED | WS_EX_TRANSPARENT);
}

#[test]
fn hide_overlay_forces_hidden_from_any_state() {
    let mut s = OverlayState::new();
    let mut w = WindowModel { visible: true, focused: true, ex_style: 7 };
    hide_overlay(&mut s, &mut w);
    assert!(!s.visible);
    assert!(!w.visible);
    assert_eq!(w.ex_style, 7);
    hide_overlay(&mut s, &mut w);
    assert!(!s.visible);
    assert!(!w.visible);
}

#[test]
fn overlay_error_messages() {
    assert_eq!(OverlayError::WindowUnavailable.message(), "Failed to get main window");
    let e = OverlayError::OsOperationFailed(String::from("boom"));
    assert_eq!(e.message(), "boom");
}
