//! The tags the host's render callback is invoked with, and the default
//! title bar's response.

use vstd::prelude::*;

verus! {

/// Which region of a surface the render callback should fill.
#[derive(Clone, Copy, Debug, PartialEq, Eq, Structural)]
pub enum NavUiType {
    Title,
    Body,
}

/// What the default title bar reports back to the host.
#[derive(Clone, Copy, Debug, PartialEq, Eq, Structural)]
pub enum DefaultTitleResponse {
    /// The back chevron or label was clicked.
    Back,
}

} // verus!
