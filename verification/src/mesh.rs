//! Index layouts of the built-in meshes.

use vstd::prelude::*;

verus! {

/// The corner order of the two triangles of a quad: 0,1,2 and 0,2,3.
pub open spec fn quad_corner(j: int) -> int {
    if j == 0 || j == 3 {
        0
    } else if j == 1 {
        1
    } else if j == 2 || j == 4 {
        2
    } else {
        3
    }
}

/// Index `k` of the unit cube: face `k / 6` has its four vertices at
/// `4 * face ..`, split into two triangles.
pub open spec fn cube_index(k: int) -> int {
    4 * (k / 6) + quad_corner(k % 6)
}

/// The 36 indices of the unit cube (24 vertices, 4 per face, 6 faces).
pub fn cube_indices() -> (v: Vec<u32>)
    ensures
        v@.len() == 36,
        forall|k: int| 0 <= k < 36 ==> v@[k] == cube_index(k),
{
    let mut v: Vec<u32> = Vec::with_capacity(36);
    let mut i: u32 = 0;
    while i < 6
        invariant
            i <= 6,
            v@.len() == 6 * i,
            forall|k: int| 0 <= k < v@.len() ==> v@[k] == cube_index(k),
        decreases 6 - i,
    {
        let base = i * 4;
        v.push(base);
        v.push(base + 1);
        v.push(base + 2);
        v.push(base);
        v.push(base + 2);
        v.push(base + 3);
        assert forall|k: int| 6 * i <= k < 6 * i + 6 implies v@[k] == cube_index(k) by {
            assert(k / 6 == i as int);
            assert(k % 6 == k - 6 * i);
        }
        i += 1;
    }
    v
}

/// The 6 indices of the unit ground plane: one quad, two triangles.
pub fn plane_indices() -> (v: Vec<u32>)
    ensures
        v@.len() == 6,
        forall|k: int| 0 <= k < 6 ==> v@[k] == quad_corner(k),
{
    let mut v: Vec<u32> = Vec::with_capacity(6);
    v.push(0);
    v.push(1);
    v.push(2);
    v.push(0);
    v.push(2);
    v.push(3);
    v
}

/// Every cube index names one of its 24 vertices.
pub proof fn law_cube_indices_in_range(k: int)
    requires
        0 <= k < 36,
    ensures
        0 <= cube_index(k) < 24,
{
}

/// Each quad is two triangles over its four corners in order, (0, 1, 2)
/// and (0, 2, 3), sharing the diagonal from corner 0 to corner 2; face `f`
/// of the cube is that quad over vertices `4f .. 4f + 3`.
pub proof fn law_quads_split_on_diagonal(f: int)
    requires
        0 <= f < 6,
    ensures
        quad_corner(0) == 0 && quad_corner(1) == 1 && quad_corner(2) == 2,
        quad_corner(3) == 0 && quad_corner(4) == 2 && quad_corner(5) == 3,
        cube_index(6 * f) == 4 * f,
        cube_index(6 * f + 1) == 4 * f + 1,
        cube_index(6 * f + 2) == 4 * f + 2,
        cube_index(6 * f + 3) == 4 * f,
        cube_index(6 * f + 4) == 4 * f + 2,
        cube_index(6 * f + 5) == 4 * f + 3,
{
    assert((6 * f) / 6 == f && (6 * f) % 6 == 0);
    assert((6 * f + 1) / 6 == f && (6 * f + 1) % 6 == 1);
    assert((6 * f + 2) / 6 == f && (6 * f + 2) % 6 == 2);
    assert((6 * f + 3) / 6 == f && (6 * f + 3) % 6 == 3);
    assert((6 * f + 4) / 6 == f && (6 * f + 4) % 6 == 4);
    assert((6 * f + 5) / 6 == f && (6 * f + 5) % 6 == 5);
}

} // verus!
