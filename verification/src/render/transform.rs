//! Placement of things in the scene.

use vstd::prelude::*;

verus! {

/// The transform of a camera.
pub struct CameraTransform {}

} // verus!
