//! Platform description handed to the frontend.
use vstd::prelude::*;

use crate::text::str_eq;

verus! {

/// Name of the display server: Quartz on macOS, Win32 on Windows, else Wayland when a Wayland
/// display is set, else X11 when an X display is set, else none.
pub open spec fn spec_display_server_name(os: Seq<char>, wayland_display: bool, x11_display: bool) -> Seq<char> {
    if os == "macos"@ {
        "quartz"@
    } else if os == "windows"@ {
        "win32"@
    } else if wayland_display {
        "wayland"@
    } else if x11_display {
        "x11"@
    } else {
        "none"@
    }
}

/// Name of the display server for `PlatformInfo.display_server`.
pub fn display_server_name(os: &str, wayland_display: bool, x11_display: bool) -> (res: &'static str)
    ensures
        res@ == spec_display_server_name(os@, wayland_display, x11_display),
{
    if str_eq(os, "macos") {
        "quartz"
    } else if str_eq(os, "windows") {
        "win32"
    } else if wayland_display {
        "wayland"
    } else if x11_display {
        "x11"
    } else {
        "none"
    }
}

} // verus!
