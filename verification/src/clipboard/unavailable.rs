//! Fallback port used when no clipboard can be opened (no display server, init failure).
//! Every operation fails with `ClipError::Unavailable`; watching is a silent no-op.
use vstd::prelude::*;

use std::sync::mpsc::Sender;

use super::{ClipError, ClipboardEvent, ClipboardPort, WritePayload};
use crate::model::item::ClipboardSnapshot;
use crate::model::platform::CaptureCapability;

verus! {

pub struct UnavailableClipboard;

impl ClipboardPort for UnavailableClipboard {
    fn start_watch(&self, sender: Sender<ClipboardEvent>) -> (res: Result<(), ClipError>)
        ensures
            res == Ok::<(), ClipError>(()),
    {
        Ok(())
    }

    fn read(&self) -> (res: Result<ClipboardSnapshot, ClipError>)
        ensures
            res == Err::<ClipboardSnapshot, ClipError>(ClipError::Unavailable),
    {
        Err(ClipError::Unavailable)
    }

    fn write(&self, payload: WritePayload<'_>) -> (res: Result<(), ClipError>)
        ensures
            res == Err::<(), ClipError>(ClipError::Unavailable),
    {
        Err(ClipError::Unavailable)
    }

    fn capability(&self) -> (res: CaptureCapability)
        ensures
            res == CaptureCapability::Unavailable,
    {
        CaptureCapability::Unavailable
    }
}

} // verus!
