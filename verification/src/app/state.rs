//! Process-wide runtime state shared by the capture step and the frontend operations.
use vstd::prelude::*;

use crate::buffer::Buffer;
use crate::clipboard::ClipboardPort;
use crate::clipboard::marker::LastWrite;
use crate::settings::SettingsStore;

verus! {

pub struct AppState<P> {
    /// Captured items; this side is the source of truth, the frontend holds a copy.
    pub buffer: Buffer,
    pub settings: SettingsStore,
    pub clipboard: P,
    /// Hash of the last text we wrote, for self-write exclusion.
    pub last_write: LastWrite,
    /// Number of clipboard reads that failed in a row.
    pub read_failures: u32,
}

impl<P: ClipboardPort> AppState<P> {
    /// Number of clipboard reads that failed in a row.
    pub open spec fn failures(&self) -> u32 {
        self.read_failures
    }

    /// Fresh state: an empty buffer sized by the settings' capacity.
    pub fn new(settings: SettingsStore, clipboard: P) -> (res: Self)
        ensures
            res.buffer@.len() == 0,
            res.buffer.spec_capacity() == if settings@.capacity == 0 {
                1
            } else {
                settings@.capacity
            },
            res.buffer.next_id() == 1,
            res.settings == settings,
            res.clipboard == clipboard,
            res.last_write.recorded() is None,
            res.failures() == 0,
    {
        let capacity = settings.get().capacity;
        AppState {
            buffer: Buffer::new(capacity),
            settings,
            clipboard,
            last_write: LastWrite::default(),
            read_failures: 0,
        }
    }

    pub fn consecutive_read_failures(&self) -> (res: u32)
        ensures
            res == self.failures(),
    {
        self.read_failures
    }

    /// Count one more failed read; returns the new consecutive failure count (wrapping).
    pub fn note_read_failure(&mut self) -> (res: u32)
        ensures
            res == final(self).failures(),
            res == (if old(self).failures() == u32::MAX { 0 } else { old(self).failures() + 1 }),
            final(self).buffer == old(self).buffer,
            final(self).settings == old(self).settings,
            final(self).clipboard == old(self).clipboard,
            final(self).last_write == old(self).last_write,
    {
        self.read_failures = self.read_failures.wrapping_add(1);
        self.read_failures
    }

    /// A read succeeded: the failure streak is over.
    pub fn note_read_success(&mut self)
        ensures
            final(self).failures() == 0,
            final(self).buffer == old(self).buffer,
            final(self).settings == old(self).settings,
            final(self).clipboard == old(self).clipboard,
            final(self).last_write == old(self).last_write,
    {
        self.read_failures = 0;
    }
}

} // verus!
