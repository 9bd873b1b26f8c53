//! Shared types used across all layers (items, warnings, options, settings, errors).

pub mod error;
pub mod item;
pub mod options;
pub mod platform;
pub mod settings;
pub mod warning;

pub use error::{AppError, ErrorKind};
pub use item::{ClipItem, ClipboardSnapshot, ItemDto, ItemId, TransferOutcome, TransferPreview};
pub use options::{NewlineMode, TransferMode, TransferOptions};
pub use platform::{CaptureCapability, CaptureStatus, PlatformInfo};
pub use settings::{
    CAPACITY_MAX, CAPACITY_MIN, Language, POLL_INTERVAL_MS_MAX, POLL_INTERVAL_MS_MIN,
    SETTINGS_VERSION, Settings, TAB_WIDTH_MAX, TAB_WIDTH_MIN,
};
pub use warning::Warning;
