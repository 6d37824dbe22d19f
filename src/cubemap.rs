//! Cubemap geometry: the orientation of each of the six faces and the
//! direction that a face pixel looks along.
//!
//! Directions are kept as integer vectors that are not normalised: pixel
//! `(x, y)` of a face of size `n` looks along
//! `forward * (n - 1) + right * (2x - (n - 1)) + up * ((n - 1) - 2y)`,
//! which is `n - 1` times `forward + right * u + up * v` for the face
//! coordinates `u, v` in `[-1, 1]`. Two pixels that look the same way get
//! exactly the same vector, which is what keeps the faces seamless.

use vstd::prelude::*;

verus! {

/// Number of cubemap faces.
pub const FACE_COUNT: u32 = 6;

/// An integer vector.
#[derive(Clone, Copy, Debug, PartialEq, Eq, Structural)]
pub struct IVec3 {
    pub x: i64,
    pub y: i64,
    pub z: i64,
}

impl View for IVec3 {
    type V = (int, int, int);

    open spec fn view(&self) -> (int, int, int) {
        (self.x as int, self.y as int, self.z as int)
    }
}

/// Orientation of one face: the direction through its centre, the direction
/// of its top edge and the direction of its right edge.
#[derive(Clone, Copy, Debug, PartialEq, Eq, Structural)]
pub struct FaceBasis {
    pub forward: IVec3,
    pub up: IVec3,
    pub right: IVec3,
}

pub open spec fn add3(a: (int, int, int), b: (int, int, int)) -> (int, int, int) {
    (a.0 + b.0, a.1 + b.1, a.2 + b.2)
}

pub open spec fn neg3(a: (int, int, int)) -> (int, int, int) {
    (-a.0, -a.1, -a.2)
}

/// `c * s` for a coefficient `c` of a signed axis, which is -1, 0 or 1.
pub open spec fn unit_times(c: int, s: int) -> int {
    if c == 1 {
        s
    } else if c == -1 {
        -s
    } else {
        0
    }
}

/// A signed axis scaled by `s`.
pub open spec fn scale_axis(a: (int, int, int), s: int) -> (int, int, int) {
    (unit_times(a.0, s), unit_times(a.1, s), unit_times(a.2, s))
}

pub open spec fn dot3(a: (int, int, int), b: (int, int, int)) -> int {
    a.0 * b.0 + a.1 * b.1 + a.2 * b.2
}

pub open spec fn cross3(a: (int, int, int), b: (int, int, int)) -> (int, int, int) {
    (a.1 * b.2 - a.2 * b.1, a.2 * b.0 - a.0 * b.2, a.0 * b.1 - a.1 * b.0)
}

/// One of the six signed coordinate axes.
pub open spec fn is_unit_axis(v: (int, int, int)) -> bool {
    ||| v == (1int, 0int, 0int)
    ||| v == (-1int, 0int, 0int)
    ||| v == (0int, 1int, 0int)
    ||| v == (0int, -1int, 0int)
    ||| v == (0int, 0int, 1int)
    ||| v == (0int, 0int, -1int)
}

/// The face looking along each axis, in the order +X, -X, +Y, -Y, +Z, -Z.
pub open spec fn face_forward(face: int) -> (int, int, int) {
    if face == 0 {
        (1, 0, 0)
    } else if face == 1 {
        (-1, 0, 0)
    } else if face == 2 {
        (0, 1, 0)
    } else if face == 3 {
        (0, -1, 0)
    } else if face == 4 {
        (0, 0, 1)
    } else {
        (0, 0, -1)
    }
}

pub open spec fn face_up(face: int) -> (int, int, int) {
    if face == 0 {
        (0, -1, 0)
    } else if face == 1 {
        (0, -1, 0)
    } else if face == 2 {
        (0, 0, 1)
    } else if face == 3 {
        (0, 0, -1)
    } else if face == 4 {
        (0, -1, 0)
    } else {
        (0, -1, 0)
    }
}

pub open spec fn face_right(face: int) -> (int, int, int) {
    if face == 0 {
        (0, 0, -1)
    } else if face == 1 {
        (0, 0, 1)
    } else if face == 2 {
        (1, 0, 0)
    } else if face == 3 {
        (1, 0, 0)
    } else if face == 4 {
        (1, 0, 0)
    } else {
        (-1, 0, 0)
    }
}

/// The half-extent of a face of size `n` in direction units: `n - 1`, and 1
/// for a single-pixel face, whose one pixel looks through the centre.
pub open spec fn half_extent(n: int) -> int {
    if n > 1 {
        n - 1
    } else {
        1
    }
}

/// The direction that pixel `(x, y)` of `face` looks along.
pub open spec fn face_direction_spec(face: int, x: int, y: int, n: int) -> (int, int, int) {
    add3(
        scale_axis(face_forward(face), half_extent(n)),
        add3(scale_axis(face_right(face), 2 * x - (n - 1)), scale_axis(face_up(face), (n - 1) - 2 * y)),
    )
}

fn axis(x: i64, y: i64, z: i64) -> (r: IVec3)
    ensures
        r@ == (x as int, y as int, z as int),
{
    IVec3 { x, y, z }
}

/// The orientation of `face`, numbered +X, -X, +Y, -Y, +Z, -Z.
pub fn face_basis(face: u32) -> (r: FaceBasis)
    requires
        face < FACE_COUNT,
    ensures
        r.forward@ == face_forward(face as int),
        r.up@ == face_up(face as int),
        r.right@ == face_right(face as int),
{
    if face == 0 {
        FaceBasis { forward: axis(1, 0, 0), up: axis(0, -1, 0), right: axis(0, 0, -1) }
    } else if face == 1 {
        FaceBasis { forward: axis(-1, 0, 0), up: axis(0, -1, 0), right: axis(0, 0, 1) }
    } else if face == 2 {
        FaceBasis { forward: axis(0, 1, 0), up: axis(0, 0, 1), right: axis(1, 0, 0) }
    } else if face == 3 {
        FaceBasis { forward: axis(0, -1, 0), up: axis(0, 0, -1), right: axis(1, 0, 0) }
    } else if face == 4 {
        FaceBasis { forward: axis(0, 0, 1), up: axis(0, -1, 0), right: axis(1, 0, 0) }
    } else {
        FaceBasis { forward: axis(0, 0, -1), up: axis(0, -1, 0), right: axis(-1, 0, 0) }
    }
}

/// `c * s` for a coefficient `c` in `{-1, 0, 1}`.
fn signed(c: i64, s: i64) -> (r: i64)
    requires
        -1 <= c <= 1,
        s > i64::MIN,
    ensures
        r == unit_times(c as int, s as int),
{
    if c > 0 {
        s
    } else if c < 0 {
        -s
    } else {
        0
    }
}

/// The direction that pixel `(x, y)` of `face` looks along, on faces of
/// `size` by `size` pixels.
pub fn face_direction(face: u32, x: u32, y: u32, size: u32) -> (r: IVec3)
    requires
        face < FACE_COUNT,
        x < size,
        y < size,
    ensures
        r@ == face_direction_spec(face as int, x as int, y as int, size as int),
{
    let basis = face_basis(face);
    proof {
        lemma_face_basis_orthonormal(face as int);
    }
    let last = size as i64 - 1;
    let d: i64 = if size > 1 { last } else { 1 };
    let a: i64 = 2 * x as i64 - last;
    let b: i64 = last - 2 * y as i64;
    let f = basis.forward;
    let rt = basis.right;
    let up = basis.up;
    let r = IVec3 {
        x: signed(f.x, d) + signed(rt.x, a) + signed(up.x, b),
        y: signed(f.y, d) + signed(rt.y, a) + signed(up.y, b),
        z: signed(f.z, d) + signed(rt.z, a) + signed(up.z, b),
    };
    r
}

/// Each face basis is made of three signed axes that are mutually
/// orthogonal, and right-handed in the sense that `forward = up × right`.
pub proof fn lemma_face_basis_orthonormal(face: int)
    requires
        0 <= face < 6,
    ensures
        is_unit_axis(face_forward(face)),
        is_unit_axis(face_up(face)),
        is_unit_axis(face_right(face)),
        dot3(face_forward(face), face_up(face)) == 0,
        dot3(face_forward(face), face_right(face)) == 0,
        dot3(face_up(face), face_right(face)) == 0,
        face_forward(face) == cross3(face_up(face), face_right(face)),
{
    let (f, u, r) = (face_forward(face), face_up(face), face_right(face));
    if face == 0 {
        assert(f == (1int, 0int, 0int) && u == (0int, -1int, 0int) && r == (0int, 0int, -1int));
        assert(dot3(f, u) == 0 && dot3(f, r) == 0 && f == cross3(u, r));
    } else if face == 1 {
        assert(f == (-1int, 0int, 0int) && u == (0int, -1int, 0int) && r == (0int, 0int, 1int));
        assert(dot3(f, u) == 0 && dot3(f, r) == 0 && f == cross3(u, r));
    } else if face == 2 {
        assert(f == (0int, 1int, 0int) && u == (0int, 0int, 1int) && r == (1int, 0int, 0int));
        assert(dot3(f, u) == 0 && dot3(f, r) == 0 && f == cross3(u, r));
    } else if face == 3 {
        assert(f == (0int, -1int, 0int) && u == (0int, 0int, -1int) && r == (1int, 0int, 0int));
        assert(dot3(f, u) == 0 && dot3(f, r) == 0 && f == cross3(u, r));
    } else if face == 4 {
        assert(f == (0int, 0int, 1int) && u == (0int, -1int, 0int) && r == (1int, 0int, 0int));
        assert(dot3(f, u) == 0 && dot3(f, r) == 0 && f == cross3(u, r));
    } else {
        assert(f == (0int, 0int, -1int) && u == (0int, -1int, 0int) && r == (-1int, 0int, 0int));
        assert(dot3(f, u) == 0 && dot3(f, r) == 0 && f == cross3(u, r));
    }
}

/// The six forward directions are the six signed axes, each exactly once.
pub proof fn lemma_forwards_cover_axes()
    ensures
        forall|v: (int, int, int)|
            is_unit_axis(v) ==> exists|f: int| 0 <= f < 6 && #[trigger] face_forward(f) == v,
        forall|f: int, g: int|
            0 <= f < 6 && 0 <= g < 6 && f != g ==> #[trigger] face_forward(f) != #[trigger] face_forward(g),
{
    assert forall|v: (int, int, int)| is_unit_axis(v) implies exists|f: int|
        0 <= f < 6 && #[trigger] face_forward(f) == v by {
        if v == face_forward(0) {
        } else if v == face_forward(1) {
        } else if v == face_forward(2) {
        } else if v == face_forward(3) {
        } else if v == face_forward(4) {
        } else {
            assert(v == face_forward(5));
        }
    }
}

/// The coordinate of `v` along a signed axis (its dot product with it).
pub open spec fn component_along(v: (int, int, int), axis: (int, int, int)) -> int {
    if axis == (1int, 0int, 0int) {
        v.0
    } else if axis == (-1int, 0int, 0int) {
        -v.0
    } else if axis == (0int, 1int, 0int) {
        v.1
    } else if axis == (0int, -1int, 0int) {
        -v.1
    } else if axis == (0int, 0int, 1int) {
        v.2
    } else {
        -v.2
    }
}

/// The face that looks along the signed axis `v`.
pub open spec fn face_facing(v: (int, int, int)) -> int {
    if v == (1int, 0int, 0int) {
        0
    } else if v == (-1int, 0int, 0int) {
        1
    } else if v == (0int, 1int, 0int) {
        2
    } else if v == (0int, -1int, 0int) {
        3
    } else if v == (0int, 0int, 1int) {
        4
    } else {
        5
    }
}

/// The pixel of face `b` (column, row) whose direction is `dir`, when `dir`
/// lies on the plane of that face.
pub open spec fn pixel_on_face(b: int, dir: (int, int, int), n: int) -> (int, int) {
    (
        (component_along(dir, face_right(b)) + (n - 1)) / 2,
        ((n - 1) - component_along(dir, face_up(b))) / 2,
    )
}

/// The direction of each pixel, written out face by face.
proof fn lemma_direction_explicit(face: int, x: int, y: int, n: int)
    requires
        0 <= face < 6,
        n >= 2,
    ensures
        face == 0 ==> face_direction_spec(face, x, y, n) == (n - 1, 2 * y - (n - 1), (n - 1) - 2 * x),
        face == 1 ==> face_direction_spec(face, x, y, n) == (-(n - 1), 2 * y - (n - 1), 2 * x - (n - 1)),
        face == 2 ==> face_direction_spec(face, x, y, n) == (2 * x - (n - 1), n - 1, (n - 1) - 2 * y),
        face == 3 ==> face_direction_spec(face, x, y, n) == (2 * x - (n - 1), -(n - 1), 2 * y - (n - 1)),
        face == 4 ==> face_direction_spec(face, x, y, n) == (2 * x - (n - 1), 2 * y - (n - 1), n - 1),
        face == 5 ==> face_direction_spec(face, x, y, n) == ((n - 1) - 2 * x, 2 * y - (n - 1), -(n - 1)),
{
}

/// A direction sampled on face `a` that lies on the plane of face `b` is
/// sampled by face `b` too, at `pixel_on_face(b, dir, n)`.
pub proof fn lemma_face_samples_its_plane(a: int, x: int, y: int, b: int, n: int)
    requires
        0 <= a < 6,
        0 <= b < 6,
        n >= 2,
        0 <= x < n,
        0 <= y < n,
        component_along(face_direction_spec(a, x, y, n), face_forward(b)) == n - 1,
    ensures
        ({
            let dir = face_direction_spec(a, x, y, n);
            let p = pixel_on_face(b, dir, n);
            &&& 0 <= p.0 < n
            &&& 0 <= p.1 < n
            &&& face_direction_spec(b, p.0, p.1, n) == dir
        }),
{
    let dir = face_direction_spec(a, x, y, n);
    let p = pixel_on_face(b, dir, n);
    lemma_direction_explicit(a, x, y, n);
    lemma_direction_explicit(b, p.0, p.1, n);
}

/// The face across the edge that pixel `(x, y)` of face `a` lies on: past
/// the right, left, top or bottom edge, in that order of preference.
pub open spec fn seam_neighbour(a: int, x: int, y: int, n: int) -> int {
    if x == n - 1 {
        face_facing(face_right(a))
    } else if x == 0 {
        face_facing(neg3(face_right(a)))
    } else if y == 0 {
        face_facing(face_up(a))
    } else {
        face_facing(neg3(face_up(a)))
    }
}

/// Seam continuity: every pixel on the edge of a face looks along exactly
/// the same direction as a pixel of the neighbouring face across that edge,
/// so a sky that is a function of direction shows no seam between faces.
pub proof fn lemma_seam_continuity(a: int, x: int, y: int, n: int)
    requires
        0 <= a < 6,
        n >= 2,
        0 <= x < n,
        0 <= y < n,
        x == 0 || x == n - 1 || y == 0 || y == n - 1,
    ensures
        ({
            let dir = face_direction_spec(a, x, y, n);
            let b = seam_neighbour(a, x, y, n);
            let p = pixel_on_face(b, dir, n);
            &&& 0 <= b < 6
            &&& b != a
            &&& 0 <= p.0 < n
            &&& 0 <= p.1 < n
            &&& face_direction_spec(b, p.0, p.1, n) == dir
        }),
{
    let dir = face_direction_spec(a, x, y, n);
    lemma_direction_explicit(a, x, y, n);
    let b = seam_neighbour(a, x, y, n);
    assert(component_along(dir, face_forward(b)) == n - 1);
    lemma_face_samples_its_plane(a, x, y, b, n);
}

} // verus!
