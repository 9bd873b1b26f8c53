//! Clipboard port and the rules around it: which formats mark content as concealed or as our
//! own write, how a snapshot is assembled from the available formats, and the fallback port
//! used when no clipboard exists. The adapters that talk to the OS live in the runtime.
use vstd::prelude::*;

use std::sync::mpsc::Sender;

pub mod clipboard_rs;
pub mod conceal;
pub mod marker;
pub mod unavailable;

use crate::model::item::ClipboardSnapshot;
use crate::model::platform::CaptureCapability;

verus! {

#[verifier::external_type_specification]
#[verifier::external_body]
#[verifier::reject_recursive_types(T)]
pub struct ExSender<T>(std::sync::mpsc::Sender<T>);

/// Notification from an adapter's watcher. Content is read separately via `read`.
#[derive(Debug, Clone, Copy, PartialEq, Eq, Structural)]
pub enum ClipboardEvent {
    Changed,
}

/// What to place on the clipboard. The adapter adds clipbuf's own marker format.
#[derive(Debug, Clone, Copy, PartialEq, Eq)]
pub struct WritePayload<'a> {
    pub text: &'a str,
    pub html: Option<&'a str>,
    pub rtf: Option<&'a str>,
}

#[derive(Debug, Clone, Copy, PartialEq, Eq, Structural)]
pub enum ClipError {
    /// No usable clipboard in this environment (e.g. no display server).
    Unavailable,
    Read,
    Write,
    WatchAlreadyStarted,
}

/// OS-independent clipboard access.
///
/// Implementations must be cheap to share across threads: watcher callbacks arrive on an
/// OS thread and only send `ClipboardEvent::Changed`; the capture service reads on its own.
pub trait ClipboardPort: Send + Sync {
    /// Start observing the clipboard, sending `Changed` on every change. A second call
    /// returns `ClipError::WatchAlreadyStarted`.
    fn start_watch(&self, sender: Sender<ClipboardEvent>) -> Result<(), ClipError>;

    /// Read the current contents. `text` is `None` when no text format is present.
    fn read(&self) -> Result<ClipboardSnapshot, ClipError>;

    /// Write text (plus html / rtf when given) together with clipbuf's marker format.
    fn write(&self, payload: WritePayload<'_>) -> Result<(), ClipError>;

    /// What this adapter can observe in the current environment.
    fn capability(&self) -> CaptureCapability;
}

/// A shared port is a port: every operation is the shared port's own, with its result.
impl<T: ClipboardPort> ClipboardPort for std::sync::Arc<T> {
    fn start_watch(&self, sender: Sender<ClipboardEvent>) -> (res: Result<(), ClipError>)
        ensures
            call_ensures(T::start_watch, (&**self, sender), res),
    {
        let inner: &T = &**self;
        inner.start_watch(sender)
    }

    fn read(&self) -> (res: Result<ClipboardSnapshot, ClipError>)
        ensures
            call_ensures(T::read, (&**self,), res),
    {
        let inner: &T = &**self;
        inner.read()
    }

    fn write(&self, payload: WritePayload<'_>) -> (res: Result<(), ClipError>)
        ensures
            call_ensures(T::write, (&**self, payload), res),
    {
        let inner: &T = &**self;
        inner.write(payload)
    }

    fn capability(&self) -> (res: CaptureCapability)
        ensures
            call_ensures(T::capability, (&**self,), res),
    {
        let inner: &T = &**self;
        inner.capability()
    }
}

} // verus!
