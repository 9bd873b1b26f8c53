//! Launch-at-login control, reached through `AutostartControl`.
use vstd::prelude::*;

verus! {

/// Opaque failure; details are logged.
#[derive(Debug, Clone, Copy, PartialEq, Eq, Structural)]
pub struct AutostartError;

pub trait AutostartControl {
    fn set_enabled(&self, enabled: bool) -> Result<(), AutostartError>;
}

} // verus!
