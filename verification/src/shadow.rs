//! The rings of the drop shadow around the plugin face.
use vstd::prelude::*;

verus! {

/// Number of rings in the drop shadow.
pub const SHADOW_RINGS: u8 = 6;

/// One ring of the drop shadow, counted outward from the face.
#[derive(Clone, Copy, Debug, PartialEq, Eq, Structural)]
pub struct ShadowRing {
    /// Corner radius of the ring's rounded rectangle, in points.
    pub corner_radius: u8,
    /// Opacity of the ring's black outline.
    pub alpha: u8,
}

/// Ring `layer` (1 is the innermost): its corners round one point more per
/// layer, from 8, and its opacity is 30 divided by the layer.
pub open spec fn shadow_ring_spec(layer: int) -> ShadowRing {
    ShadowRing { corner_radius: (8 + layer) as u8, alpha: (30int / layer) as u8 }
}

/// Ring `layer` of the drop shadow, 1 being the innermost; the corner
/// radius must fit in a byte.
pub fn shadow_ring(layer: u8) -> (r: ShadowRing)
    requires
        1 <= layer <= 247,
    ensures
        r == shadow_ring_spec(layer as int),
        r.corner_radius == 8 + layer,
        r.alpha == 30u8 / layer,
{
    ShadowRing { corner_radius: 8 + layer, alpha: 30 / layer }
}

/// All rings of the drop shadow, from the innermost outward.
pub fn shadow_rings() -> (v: Vec<ShadowRing>)
    ensures
        v@.len() == SHADOW_RINGS,
        forall|k: int| 0 <= k < SHADOW_RINGS ==> v@[k] == shadow_ring_spec(k + 1),
{
    let mut v: Vec<ShadowRing> = Vec::new();
    let mut layer: u8 = 1;
    while layer <= SHADOW_RINGS
        invariant
            1 <= layer <= SHADOW_RINGS + 1,
            v@.len() == layer - 1,
            forall|k: int| 0 <= k < layer - 1 ==> v@[k] == shadow_ring_spec(k + 1),
        decreases SHADOW_RINGS + 1 - layer,
    {
        v.push(shadow_ring(layer));
        layer = layer + 1;
    }
    v
}

/// The shadow fades outward: an outer ring is never more opaque than an
/// inner one, and its corners are rounder.
pub proof fn shadow_fades_outward(i: int, j: int)
    requires
        1 <= i < j <= 247,
    ensures
        shadow_ring_spec(j).alpha <= shadow_ring_spec(i).alpha,
        shadow_ring_spec(j).corner_radius > shadow_ring_spec(i).corner_radius,
{
    assert(30int / j <= 30int / i) by (nonlinear_arith)
        requires
            1 <= i < j,
    ;
}

} // verus!
