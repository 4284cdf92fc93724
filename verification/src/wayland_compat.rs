//! The decisions of the workaround for Wayland compositors without
//! server-side decorations: on such a compositor the window would come up
//! without titlebar, resize handles or close button, so the process falls back
//! to X11/XWayland unless the user asked to stay on native Wayland.

use vstd::prelude::*;

use crate::text::{chars_equal, chars_of};

verus! {

/// The global that a compositor with server-side decorations advertises.
pub open spec fn decoration_manager() -> Seq<char> {
    "zxdg_decoration_manager_v1"@
}

/// Whether a global announced by the compositor's registry is the decoration
/// manager.
pub fn is_decoration_manager(interface: &str) -> (r: bool)
    ensures
        r == (interface@ == decoration_manager()),
{
    let a = chars_of(interface);
    let b = chars_of("zxdg_decoration_manager_v1");
    chars_equal(a.as_slice(), b.as_slice())
}

/// What to do at startup, before knowing anything of the compositor.
#[derive(Debug, Clone, Copy, PartialEq, Eq, Structural)]
pub enum DecorationStep {
    /// Keep the environment as it is.
    LeaveAlone,
    /// Ask the compositor whether it advertises the decoration manager.
    Probe,
}

/// Probe only in a Wayland session (`WAYLAND_DISPLAY` or `WAYLAND_SOCKET` set
/// and not empty) when the user did not ask to keep native Wayland.
pub fn decoration_step(display_set: bool, socket_set: bool, keep_native_wayland: bool) -> (r: DecorationStep)
    ensures
        r == (if (display_set || socket_set) && !keep_native_wayland {
            DecorationStep::Probe
        } else {
            DecorationStep::LeaveAlone
        }),
{
    if !display_set && !socket_set {
        return DecorationStep::LeaveAlone;
    }
    if keep_native_wayland {
        return DecorationStep::LeaveAlone;
    }
    DecorationStep::Probe
}

/// Whether to fall back to X11 after the probe: only when the compositor
/// answered and does not advertise the decoration manager. A compositor that
/// could not be reached (`None`) is left alone.
pub fn fall_back_to_x11(has_server_decorations: Option<bool>) -> (r: bool)
    ensures
        r == (has_server_decorations == Some(false)),
{
    match has_server_decorations {
        Some(false) => true,
        _ => false,
    }
}

} // verus!
