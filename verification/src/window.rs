//! Window chrome toggle.
//!
//! The shell registers one global hotkey; on activation the main window is
//! flipped between its normal chrome and a fullscreen, borderless,
//! always-on-top, transparent presentation. The decision logic is a pure
//! two-state toggle over the chrome flags; the platform layer applies the
//! resulting flags to the real window and injects or removes the
//! transparency style marker in the rendered content.

use vstd::prelude::*;

verus! {

/// The window chrome flags the hotkey toggle manipulates.
#[derive(Clone, Copy, Debug, PartialEq, Eq, Structural)]
pub struct WindowState {
    pub fullscreen: bool,
    pub decorations: bool,
    pub always_on_top: bool,
    pub transparent: bool,
}

/// The fullscreen presentation: borderless, always on top, transparent.
pub open spec fn spec_fullscreen_state() -> WindowState {
    WindowState { fullscreen: true, decorations: false, always_on_top: true, transparent: true }
}

/// The normal presentation: decorated, not on top, opaque.
pub open spec fn spec_normal_state() -> WindowState {
    WindowState { fullscreen: false, decorations: true, always_on_top: false, transparent: false }
}

/// A state the toggle itself produces: one of the two presentations.
pub open spec fn wf_window_state(s: WindowState) -> bool {
    s == spec_fullscreen_state() || s == spec_normal_state()
}

/// What one hotkey activation does to the chrome flags. Only the
/// fullscreen flag is consulted: a fullscreen window is restored to the
/// normal presentation, any other window is sent to the fullscreen one.
pub open spec fn spec_toggle(s: WindowState) -> WindowState {
    if s.fullscreen {
        spec_normal_state()
    } else {
        spec_fullscreen_state()
    }
}

/// Computes the chrome flags to apply on a hotkey activation.
pub fn toggle_window(s: WindowState) -> (r: WindowState)
    ensures
        r == spec_toggle(s),
        wf_window_state(r),
{
    if s.fullscreen {
        WindowState { fullscreen: false, decorations: true, always_on_top: false, transparent: false }
    } else {
        WindowState { fullscreen: true, decorations: false, always_on_top: true, transparent: true }
    }
}

/// Law: two activations in a row return the window to its original
/// decorations, fullscreen and always-on-top state. This holds of every
/// state the toggle can itself produce; a window whose flags were set some
/// other way (say, fullscreen with decorations still on) is first
/// normalised by the toggle and only then round-trips.
pub proof fn lemma_toggle_round_trip(s: WindowState)
    requires
        wf_window_state(s),
    ensures
        spec_toggle(spec_toggle(s)) == s,
{
}

/// The fullscreen reading the toggle acts on. The platform's fullscreen
/// query can go unanswered; an unanswered query counts as not fullscreen,
/// so the toggle then sends the window to the fullscreen presentation.
pub fn fullscreen_from_query(query: Option<bool>) -> (r: bool)
    ensures
        r == match query {
            Some(b) => b,
            None => false,
        },
{
    match query {
        Some(b) => b,
        None => false,
    }
}

/// The single global key combination registered at startup; its
/// activation drives the window toggle.
pub fn hotkey_combination() -> (r: &'static str)
    ensures
        r@ == "Alt+Control+D"@,
{
    "Alt+Control+D"
}

/// The fixed identifier of the primary application window, the one the
/// hotkey toggle looks up; when no window carries it, the toggle is a
/// no-op.
pub fn main_window_label() -> (r: &'static str)
    ensures
        r@ == "main"@,
{
    "main"
}

/// The script applied to the rendered content on each toggle: entering the
/// fullscreen presentation adds the transparency style marker, leaving it
/// removes the marker.
pub fn transparency_script(entering_fullscreen: bool) -> (r: &'static str)
    ensures
        entering_fullscreen ==> r@ == "document.documentElement.classList.add('transparent-window');"@,
        !entering_fullscreen ==> r@ == "document.documentElement.classList.remove('transparent-window');"@,
{
    if entering_fullscreen {
        "document.documentElement.classList.add('transparent-window');"
    } else {
        "document.documentElement.classList.remove('transparent-window');"
    }
}

} // verus!
