//! Index buffers of procedural meshes.
use vstd::prelude::*;

verus! {

/// The six indices of the two triangles of the quad whose four vertices start
/// at `base`: `(base, base+1, base+2)` and `(base, base+2, base+3)`.
pub open spec fn quad_corner(k: int) -> int {
    if k == 0 || k == 3 {
        0
    } else if k == 1 {
        1
    } else if k == 2 || k == 4 {
        2
    } else {
        3
    }
}

/// Index list of a mesh made of `quads` quads whose vertices were pushed four
/// per quad, in order.
pub open spec fn quad_list(quads: nat) -> Seq<u32> {
    Seq::new(quads * 6, |i: int| (4 * (i / 6) + quad_corner(i % 6)) as u32)
}

/// Builds the triangle index list of `quads` consecutive quads (the layout of
/// the shotgun, of the spinner and of every box-built mesh).
pub fn quad_list_indices(quads: u32) -> (r: Vec<u32>)
    requires
        quads <= 0x3fff_ffff,
    ensures
        r@ == quad_list(quads as nat),
{
    let mut indices: Vec<u32> = Vec::new();
    let mut q: u32 = 0;
    while q < quads
        invariant
            q <= quads,
            quads <= 0x3fff_ffff,
            indices@.len() == q * 6,
            forall|i: int| 0 <= i < indices@.len() ==> indices@[i] == #[trigger] quad_list(quads as nat)[i],
        decreases quads - q,
    {
        let start = q * 4;
        let ghost base = indices@.len() as int;
        indices.push(start);
        indices.push(start + 1);
        indices.push(start + 2);
        indices.push(start);
        indices.push(start + 2);
        indices.push(start + 3);
        proof {
            assert forall|i: int| 0 <= i < indices@.len() implies indices@[i] == #[trigger] quad_list(
                quads as nat,
            )[i] by {
                if i >= base {
                    assert((base + (i - base)) / 6 == q as int);
                    assert((base + (i - base)) % 6 == i - base);
                }
            }
        }
        q = q + 1;
    }
    assert(indices@ =~= quad_list(quads as nat));
    indices
}

/// Every index of a quad list names one of its `4 * quads` vertices, and the
/// list is made of whole triangles.
pub proof fn lemma_quad_list_valid(quads: nat)
    requires
        quads <= 0x3fff_ffff,
    ensures
        quad_list(quads).len() % 3 == 0,
        forall|i: int| 0 <= i < quad_list(quads).len() ==> (#[trigger] quad_list(quads)[i]) < 4 * quads,
{
    assert forall|i: int| 0 <= i < quad_list(quads).len() implies (#[trigger] quad_list(quads)[i]) < 4
        * quads by {
        assert(i / 6 < quads as int) by (nonlinear_arith)
            requires
                0 <= i < quads * 6,
        ;
        assert(4 * (i / 6) + quad_corner(i % 6) < 4 * quads);
    }
}

} // verus!
