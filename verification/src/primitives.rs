//! Solids that are made of several surfaces.

use crate::scene::Scene;
use vstd::prelude::*;

verus! {

/// A solid that is bounded by several surfaces, such as a box by its six
/// faces.
pub trait Primitive {
    /// Adds the surfaces of the solid to the scene. The surfaces that are
    /// there stay as they are, each in its place.
    fn add_surfaces(&self, scene: &mut Scene)
        ensures
            old(scene).surfaces@.is_prefix_of(final(scene).surfaces@),
    ;
}

} // verus!
