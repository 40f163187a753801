//! Overlay visibility and input-transparency.
//!
//! The overlay window has two pieces of state the controller cares about:
//! a single visibility flag, and the extended window style bits, of which
//! two matter: LAYERED and TRANSPARENT (click-through). The controller
//! only decides; the host shell performs the actual OS calls and reports
//! whether they succeeded. The visibility flag reflects the last
//! successful show/hide operation: a failed OS call leaves it unchanged.

use vstd::prelude::*;
use vstd::string::StringExecFns;

verus! {

/// Extended window style bit marking a layered window.
pub const WS_EX_LAYERED: u64 = 0x0008_0000;

/// Extended window style bit making a window click-through
/// (input-transparent).
pub const WS_EX_TRANSPARENT: u64 = 0x0000_0020;

/// The new extended-style bit pattern when click-through is switched:
/// enabling sets LAYERED and TRANSPARENT together; disabling clears
/// TRANSPARENT and leaves LAYERED (and every other bit) untouched.
pub open spec fn spec_click_through_style(current: u64, enabled: bool) -> u64 {
    if enabled {
        current | (WS_EX_LAYERED | WS_EX_TRANSPARENT)
    } else {
        current & !WS_EX_TRANSPARENT
    }
}

proof fn lemma_click_through_bits(current: u64)
    ensures
        (current | 0x0008_0020u64) & 0x0000_0020u64 == 0x0000_0020u64,
        (current | 0x0008_0020u64) & 0x0008_0000u64 == 0x0008_0000u64,
        (current & !0x0000_0020u64) & 0x0000_0020u64 == 0u64,
        (current & !0x0000_0020u64) & 0x0008_0000u64 == current & 0x0008_0000u64,
        ((current | 0x0008_0020u64) & !0x0000_0020u64) & 0x0000_0020u64 == 0u64,
        ((current | 0x0008_0020u64) & !0x0000_0020u64) & 0x0008_0000u64 == 0x0008_0000u64,
{
    assert((current | 0x0008_0020u64) & 0x0000_0020u64 == 0x0000_0020u64) by (bit_vector);
    assert((current | 0x0008_0020u64) & 0x0008_0000u64 == 0x0008_0000u64) by (bit_vector);
    assert((current & !0x0000_0020u64) & 0x0000_0020u64 == 0u64) by (bit_vector);
    assert((current & !0x0000_0020u64) & 0x0008_0000u64 == current & 0x0008_0000u64)
        by (bit_vector);
    assert(((current | 0x0008_0020u64) & !0x0000_0020u64) & 0x0000_0020u64 == 0u64)
        by (bit_vector);
    assert(((current | 0x0008_0020u64) & !0x0000_0020u64) & 0x0008_0000u64 == 0x0008_0000u64)
        by (bit_vector);
}

/// Compute the extended-style bits for the requested click-through mode.
pub fn click_through_style(current: u64, enabled: bool) -> (r: u64)
    ensures
        r == spec_click_through_style(current, enabled),
        enabled ==> r & WS_EX_TRANSPARENT == WS_EX_TRANSPARENT,
        enabled ==> r & WS_EX_LAYERED == WS_EX_LAYERED,
        !enabled ==> r & WS_EX_TRANSPARENT == 0,
        !enabled ==> r & WS_EX_LAYERED == current & WS_EX_LAYERED,
{
    proof {
        lemma_click_through_bits(current);
        assert(WS_EX_LAYERED | WS_EX_TRANSPARENT == 0x0008_0020u64) by (bit_vector);
    }
    if enabled {
        current | (WS_EX_LAYERED | WS_EX_TRANSPARENT)
    } else {
        current & !WS_EX_TRANSPARENT
    }
}

/// Law: enabling click-through and then disabling it leaves TRANSPARENT
/// cleared and LAYERED set, whatever the style bits were before.
pub proof fn lemma_click_through_round_trip(style: u64)
    ensures
        spec_click_through_style(spec_click_through_style(style, true), false) & WS_EX_TRANSPARENT
            == 0,
        spec_click_through_style(spec_click_through_style(style, true), false) & WS_EX_LAYERED
            == WS_EX_LAYERED,
{
    lemma_click_through_bits(style);
    assert(WS_EX_LAYERED | WS_EX_TRANSPARENT == 0x0008_0020u64) by (bit_vector);
}

/// Errors an overlay operation can surface to the host.
pub enum OverlayError {
    /// The target window could not be resolved.
    WindowUnavailable,
    /// An underlying show/hide/focus/style call failed; the payload is the
    /// OS error rendered as text.
    OsOperationFailed(String),
}

/// The displayed text of each overlay error.
pub open spec fn spec_overlay_message(e: OverlayError) -> Seq<char> {
    match e {
        OverlayError::WindowUnavailable => "Failed to get main window"@,
        OverlayError::OsOperationFailed(msg) => msg@,
    }
}

impl OverlayError {
    /// Render the error for display: a fixed text for an unresolvable
    /// window, the OS's own message otherwise.
    pub fn message(&self) -> (m: String)
        ensures
            m@ == spec_overlay_message(*self),
    {
        match self {
            OverlayError::WindowUnavailable => String::from_str("Failed to get main window"),
            OverlayError::OsOperationFailed(msg) => msg.clone(),
        }
    }
}

/// The overlay's visibility flag. The invariant kept by every operation
/// here: the flag reflects the last successful show/hide operation, so a
/// failed OS call never flips it.
pub struct OverlayState {
    pub visible: bool,
}

/// What a toggle from a given state asks the host to do with the window.
pub enum ToggleAction {
    /// Show the window, focus it, and disable click-through.
    ShowFocusInteractive,
    /// Hide the window.
    Hide,
}

impl OverlayState {
    /// A fresh overlay starts hidden.
    pub fn new() -> (s: OverlayState)
        ensures
            !s.visible,
    {
        OverlayState { visible: false }
    }

    /// The visibility the overlay will have if the pending toggle's OS
    /// calls succeed.
    pub fn toggle_target(&self) -> (t: bool)
        ensures
            t == !self.visible,
    {
        !self.visible
    }

    /// The OS work a toggle from this state requires: showing makes the
    /// window interactive (click-through off) and focused; hiding only
    /// hides.
    pub fn toggle_action(&self) -> (a: ToggleAction)
        ensures
            !self.visible ==> a is ShowFocusInteractive,
            self.visible ==> a is Hide,
    {
        if !self.visible {
            ToggleAction::ShowFocusInteractive
        } else {
            ToggleAction::Hide
        }
    }

    /// Record the outcome of the toggle's OS calls: the flag flips exactly
    /// when they all succeeded, and the new visibility is returned; a
    /// failure leaves the flag as it was.
    pub fn commit_toggle(&mut self, os_ok: bool) -> (r: bool)
        ensures
            os_ok ==> final(self).visible == !old(self).visible,
            !os_ok ==> final(self).visible == old(self).visible,
            r == final(self).visible,
    {
        if os_ok {
            self.visible = !self.visible;
        }
        self.visible
    }

    /// Force the flag to hidden, regardless of the prior state. Used by
    /// the explicit close affordance, which hides unconditionally.
    pub fn force_hide(&mut self)
        ensures
            !final(self).visible,
    {
        self.visible = false;
    }
}

/// A model of the window state the controller manipulates: whether the
/// window is shown, whether it holds focus, and its extended style bits.
/// It stands in for the host's window capability when the state machine
/// is exercised end to end, every OS call succeeding.
pub struct WindowModel {
    pub visible: bool,
    pub focused: bool,
    pub ex_style: u64,
}

/// The window state after a successful toggle from `s`: showing focuses
/// the window and disables click-through; hiding leaves focus and style
/// alone.
pub open spec fn spec_toggle_window(s: OverlayState, w: WindowModel) -> WindowModel {
    if !s.visible {
        WindowModel {
            visible: true,
            focused: true,
            ex_style: spec_click_through_style(w.ex_style, false),
        }
    } else {
        WindowModel { visible: false, focused: w.focused, ex_style: w.ex_style }
    }
}

/// Toggle the overlay against the window model, every OS call succeeding:
/// flips the flag and returns the new visibility; a show also focuses the
/// window and switches click-through off.
pub fn toggle_overlay(s: &mut OverlayState, w: &mut WindowModel) -> (r: bool)
    ensures
        final(s).visible == !old(s).visible,
        r == final(s).visible,
        *final(w) == spec_toggle_window(*old(s), *old(w)),
{
    let target = s.toggle_target();
    if target {
        w.visible = true;
        w.focused = true;
        set_click_through(w, false);
    } else {
        w.visible = false;
    }
    s.commit_toggle(true)
}

/// Apply a click-through mode to the window model: only the extended
/// style bits change. Issuing the same mode twice is a no-op in effect.
pub fn set_click_through(w: &mut WindowModel, enabled: bool)
    ensures
        final(w).ex_style == spec_click_through_style(old(w).ex_style, enabled),
        final(w).visible == old(w).visible,
        final(w).focused == old(w).focused,
{
    let new_style = click_through_style(w.ex_style, enabled);
    w.ex_style = new_style;
}

/// Hide the overlay unconditionally: the flag is forced to hidden and the
/// window model is hidden, whatever the prior state.
pub fn hide_overlay(s: &mut OverlayState, w: &mut WindowModel)
    ensures
        !final(s).visible,
        !final(w).visible,
        final(w).focused == old(w).focused,
        final(w).ex_style == old(w).ex_style,
{
    s.force_hide();
    w.visible = false;
}

/// Law: toggling twice with every OS call succeeding returns the overlay
/// to its original visibility and leaves click-through disabled, since
/// every show path forces the window interactive.
pub proof fn lemma_toggle_involution(s0: OverlayState, w0: WindowModel)
    ensures
        ({
            let s1 = OverlayState { visible: !s0.visible };
            let w1 = spec_toggle_window(s0, w0);
            let s2 = OverlayState { visible: !s1.visible };
            let w2 = spec_toggle_window(s1, w1);
            s2.visible == s0.visible && w2.ex_style & WS_EX_TRANSPARENT == 0
        }),
{
    lemma_click_through_bits(w0.ex_style);
    lemma_click_through_bits(spec_click_through_style(w0.ex_style, false));
}

} // verus!
