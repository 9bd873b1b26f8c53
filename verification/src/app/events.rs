//! Names of events emitted to the frontend, and where events go.
use vstd::prelude::*;

use crate::model::item::ItemDto;
use crate::model::platform::CaptureStatus;
use crate::model::settings::Settings;

verus! {

/// A new item was captured and placed at the top of the list.
pub const ITEM_ADDED: &'static str = "clipbuf://item-added";
/// The whole list changed (removal, clear, capacity shrink).
pub const ITEMS_CHANGED: &'static str = "clipbuf://items-changed";
/// Settings were updated successfully.
pub const SETTINGS_CHANGED: &'static str = "clipbuf://settings-changed";
/// The main window was just shown by hotkey, tray or single-instance.
pub const WINDOW_SHOWN: &'static str = "clipbuf://window-shown";
/// Capture capability at startup or a runtime read failure.
pub const CAPTURE_STATUS: &'static str = "clipbuf://capture-status";

/// Where events for the frontend go. The runtime emits them; tests record them.
pub trait EventSink {
    fn item_added(&self, item: ItemDto);

    fn items_changed(&self, items: Vec<ItemDto>);

    fn settings_changed(&self, settings: Settings);

    fn window_shown(&self);

    fn capture_status(&self, status: CaptureStatus);
}

} // verus!
