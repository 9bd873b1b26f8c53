use vstd::prelude::*;

verus! {

/// Error categories returned to the frontend. Deliberately carries no detail string so
/// that captured text or OS error messages never reach logs or the UI.
#[derive(Debug, Clone, Copy, PartialEq, Eq, Structural)]
pub enum ErrorKind {
    ItemNotFound,
    WriteFailed,
    ReadFailed,
    HotkeyUnavailable,
    InvalidSettings,
    CaptureUnavailable,
    SettingsIo,
}

/// Error envelope for every frontend command.
#[derive(Debug, Clone, Copy, PartialEq, Eq, Structural)]
pub struct AppError {
    pub kind: ErrorKind,
}

impl AppError {
    /// Human-readable form: the name of the kind.
    pub fn describe(&self) -> (res: String)
        ensures
            res@ == spec_kind_name(self.kind),
    {
        let name = match self.kind {
            ErrorKind::ItemNotFound => "ItemNotFound",
            ErrorKind::WriteFailed => "WriteFailed",
            ErrorKind::ReadFailed => "ReadFailed",
            ErrorKind::HotkeyUnavailable => "HotkeyUnavailable",
            ErrorKind::InvalidSettings => "InvalidSettings",
            ErrorKind::CaptureUnavailable => "CaptureUnavailable",
            ErrorKind::SettingsIo => "SettingsIo",
        };
        name.to_owned()
    }
}

/// The `Debug` spelling of an error kind.
pub open spec fn spec_kind_name(kind: ErrorKind) -> Seq<char> {
    match kind {
        ErrorKind::ItemNotFound => "ItemNotFound"@,
        ErrorKind::WriteFailed => "WriteFailed"@,
        ErrorKind::ReadFailed => "ReadFailed"@,
        ErrorKind::HotkeyUnavailable => "HotkeyUnavailable"@,
        ErrorKind::InvalidSettings => "InvalidSettings"@,
        ErrorKind::CaptureUnavailable => "CaptureUnavailable"@,
        ErrorKind::SettingsIo => "SettingsIo"@,
    }
}

impl From<ErrorKind> for AppError {
    fn from(kind: ErrorKind) -> (res: Self) {
        AppError { kind }
    }
}

impl vstd::std_specs::convert::FromSpecImpl<ErrorKind> for AppError {
    open spec fn obeys_from_spec() -> bool {
        true
    }

    open spec fn from_spec(kind: ErrorKind) -> Self {
        AppError { kind }
    }
}

} // verus!
