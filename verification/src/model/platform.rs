use vstd::prelude::*;

verus! {

/// Whether the selected clipboard adapter can observe other apps' copies.
#[derive(Debug, Clone, Copy, PartialEq, Eq, Structural)]
pub enum CaptureCapability {
    Full,
    /// X11 adapter under a Wayland session: only what the compositor syncs to XWayland.
    LimitedXWayland,
    Unavailable,
    /// macOS pasteboard access denied in Privacy & Security.
    Denied,
}

/// Payload of the `capture-status` event: a capability, or a runtime read failure.
#[derive(Debug, Clone, Copy, PartialEq, Eq, Structural)]
pub enum CaptureStatus {
    Full,
    LimitedXWayland,
    Unavailable,
    Denied,
    ReadFailed,
}

/// The status that reports a capability: the variant of the same name.
pub open spec fn status_of(value: CaptureCapability) -> CaptureStatus {
    match value {
        CaptureCapability::Full => CaptureStatus::Full,
        CaptureCapability::LimitedXWayland => CaptureStatus::LimitedXWayland,
        CaptureCapability::Unavailable => CaptureStatus::Unavailable,
        CaptureCapability::Denied => CaptureStatus::Denied,
    }
}

impl From<CaptureCapability> for CaptureStatus {
    fn from(value: CaptureCapability) -> (res: Self) {
        match value {
            CaptureCapability::Full => CaptureStatus::Full,
            CaptureCapability::LimitedXWayland => CaptureStatus::LimitedXWayland,
            CaptureCapability::Unavailable => CaptureStatus::Unavailable,
            CaptureCapability::Denied => CaptureStatus::Denied,
        }
    }
}

impl vstd::std_specs::convert::FromSpecImpl<CaptureCapability> for CaptureStatus {
    open spec fn obeys_from_spec() -> bool {
        true
    }

    open spec fn from_spec(value: CaptureCapability) -> Self {
        status_of(value)
    }
}

/// A capability status is never the runtime read failure, and different capabilities give
/// different statuses.
pub proof fn lemma_status_of_capability(a: CaptureCapability, b: CaptureCapability)
    ensures
        status_of(a) != CaptureStatus::ReadFailed,
        status_of(a) == status_of(b) ==> a == b,
{
}

/// Result of `get_platform_info`.
#[derive(Debug, Clone, PartialEq, Eq)]
pub struct PlatformInfo {
    /// `"macos"`, `"windows"` or `"linux"`.
    pub os: String,
    /// `"quartz"`, `"win32"`, `"x11"`, `"wayland"` or `"none"`.
    pub display_server: String,
    pub capture: CaptureCapability,
}

} // verus!
