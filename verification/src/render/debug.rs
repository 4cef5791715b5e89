//! How a value is shown in a debug panel.

use vstd::prelude::*;

verus! {

/// Whether a value shows up in the debug panel, and whether it can be
/// edited there.
#[allow(non_camel_case_types)]
#[derive(Copy, Clone, Debug, PartialEq, Eq, Structural)]
pub enum UIRenderType {
    MUTABLE,
    IMMUTABLE,
    HIDDEN,
}

} // verus!
