use vstd::prelude::*;

verus! {

/// How newlines are handled at transfer time.
#[derive(Debug, Clone, Copy, PartialEq, Eq, Structural)]
pub enum NewlineMode {
    Keep,
    Remove,
    Space,
}

impl Default for NewlineMode {
    fn default() -> (res: Self)
        ensures
            res == NewlineMode::Keep,
    {
        NewlineMode::Keep
    }
}

/// Transfer toggles shown on the main window. App-wide, persisted with settings.
#[derive(Debug, Clone, Copy, PartialEq, Eq, Structural)]
pub struct TransferOptions {
    pub keep_style: bool,
    pub newline: NewlineMode,
    pub trim: bool,
    pub tabs_to_spaces: bool,
    pub fullwidth_to_space: bool,
}

/// The options with every toggle off and newlines kept.
pub open spec fn default_transfer_options() -> TransferOptions {
    TransferOptions {
        keep_style: false,
        newline: NewlineMode::Keep,
        trim: false,
        tabs_to_spaces: false,
        fullwidth_to_space: false,
    }
}

impl Default for TransferOptions {
    fn default() -> (res: Self)
        ensures
            res == default_transfer_options(),
    {
        TransferOptions {
            keep_style: false,
            newline: NewlineMode::Keep,
            trim: false,
            tabs_to_spaces: false,
            fullwidth_to_space: false,
        }
    }
}

impl TransferOptions {
    /// True when at least one text transformation (anything except `keep_style`) is enabled.
    pub open spec fn spec_has_text_transform(&self) -> bool {
        self.newline != NewlineMode::Keep || self.trim || self.tabs_to_spaces
            || self.fullwidth_to_space
    }

    /// True when at least one text transformation (anything except `keep_style`) is enabled.
    pub fn has_text_transform(&self) -> (res: bool)
        ensures
            res == self.spec_has_text_transform(),
    {
        let keeps = match self.newline {
            NewlineMode::Keep => true,
            _ => false,
        };
        !keeps || self.trim || self.tabs_to_spaces || self.fullwidth_to_space
    }
}

/// Which transfer action the user chose.
#[derive(Debug, Clone, Copy, PartialEq, Eq, Structural)]
pub enum TransferMode {
    /// Apply the current `TransferOptions`.
    Options,
    /// Plain text only, ignoring options.
    Plain,
    /// Text plus any style data exactly as captured, ignoring options.
    Raw,
}

} // verus!
