use std::ops::Range;
use vstd::prelude::*;

verus! {

/// One vertex of the mesh, as integer data.
///
/// `pos` is a position `(x, y, z, w)`; the fourth component is padding and is
/// always zero for generated geometry. `color` holds RGBA channels in the
/// 0..=255 range, where 255 is full intensity.
#[derive(Clone, Copy, Debug, PartialEq, Eq)]
pub struct Vertex {
    pub pos: [i16; 4],
    pub color: [u8; 4],
}

impl Vertex {
    pub fn new(pos: [i16; 4], color: [u8; 4]) -> (r: Vertex)
        ensures
            r.pos == pos,
            r.color == color,
    {
        Vertex { pos, color }
    }
}

/// Full channel intensity.
pub const FULL: u8 = 255;

/// A vertex at `(x, y, z)` with opaque color `(r, g, b)`.
pub open spec fn vertex_at(x: i16, y: i16, z: i16, r: u8, g: u8, b: u8) -> Vertex {
    Vertex { pos: [x, y, z, 0i16], color: [r, g, b, FULL] }
}

/// The eight corners of the box spanned by `mins` and `maxs`, in the order
/// they are appended: the back face (`z = mins[2]`) top-left, top-right,
/// bottom-left, bottom-right, then the front face (`z = maxs[2]`) in the
/// same order. Each corner has its own color.
pub open spec fn prism_corners(mins: [i16; 3], maxs: [i16; 3]) -> Seq<Vertex> {
    seq![
        vertex_at(mins[0], maxs[1], mins[2], FULL, 0, 0),
        vertex_at(maxs[0], maxs[1], mins[2], 0, FULL, 0),
        vertex_at(mins[0], mins[1], mins[2], 0, 0, FULL),
        vertex_at(maxs[0], mins[1], mins[2], FULL, FULL, 0),
        vertex_at(mins[0], maxs[1], maxs[2], FULL, 0, FULL),
        vertex_at(maxs[0], maxs[1], maxs[2], 0, FULL, FULL),
        vertex_at(mins[0], mins[1], maxs[2], FULL, FULL, FULL),
        vertex_at(maxs[0], mins[1], maxs[2], 0, 0, 0),
    ]
}

/// The two triangles of a quad: `(a, b, c)` and `(d, c, b)`.
pub open spec fn quad_indices(a: u32, b: u32, c: u32, d: u32) -> Seq<u32> {
    seq![a, b, c, d, c, b]
}

/// The index of corner `k` of a prism whose first corner is at `base`.
pub open spec fn corner(base: u32, k: u32) -> u32 {
    (base + k) as u32
}

/// The 36 indices of the six faces of a prism whose corners start at `base`:
/// back, front, top, bottom, left and right, two triangles each.
pub open spec fn prism_indices(base: u32) -> Seq<u32> {
    let c = |k: u32| corner(base, k);
    quad_indices(c(0), c(1), c(2), c(3))
        + quad_indices(c(4), c(6), c(5), c(7))
        + quad_indices(c(0), c(4), c(1), c(5))
        + quad_indices(c(2), c(3), c(6), c(7))
        + quad_indices(c(4), c(0), c(6), c(2))
        + quad_indices(c(5), c(7), c(1), c(3))
}

/// The near corner of the box that `create_cube` spans around `center`.
pub open spec fn cube_mins(center: [i16; 3], size: i16) -> [i16; 3] {
    [(center[0] - size) as i16, (center[1] - size) as i16, (center[2] - size) as i16]
}

/// The far corner of the box that `create_cube` spans around `center`.
pub open spec fn cube_maxs(center: [i16; 3], size: i16) -> [i16; 3] {
    [(center[0] + size) as i16, (center[1] + size) as i16, (center[2] + size) as i16]
}

/// Whether a cube of half-extent `size` around `center` has all its corner
/// coordinates representable.
pub open spec fn cube_fits(center: [i16; 3], size: i16) -> bool {
    forall|k: int|
        0 <= k < 3 ==> i16::MIN <= #[trigger] center[k] - size <= i16::MAX && i16::MIN
            <= center[k] + size <= i16::MAX
}

/// Appends `value` to `vec` and returns the index it was stored at.
pub fn add_and_get_index<T>(vec: &mut Vec<T>, value: T) -> (r: usize)
    ensures
        r == old(vec)@.len(),
        final(vec)@ == old(vec)@.push(value),
{
    let index = vec.len();
    vec.push(value);
    index
}

pub fn append_triangle(vertex_0: u32, vertex_1: u32, vertex_2: u32, indices: &mut Vec<u32>)
    ensures
        final(indices)@ == old(indices)@ + seq![vertex_0, vertex_1, vertex_2],
{
    indices.push(vertex_0);
    indices.push(vertex_1);
    indices.push(vertex_2);
    assert(indices@ =~= old(indices)@ + seq![vertex_0, vertex_1, vertex_2]);
}

pub fn append_quad(vertex_0: u32, vertex_1: u32, vertex_2: u32, vertex_3: u32, indices: &mut Vec<u32>)
    ensures
        final(indices)@ == old(indices)@ + quad_indices(vertex_0, vertex_1, vertex_2, vertex_3),
{
    append_triangle(vertex_0, vertex_1, vertex_2, indices);
    append_triangle(vertex_3, vertex_2, vertex_1, indices);
    assert(indices@ =~= old(indices)@ + quad_indices(vertex_0, vertex_1, vertex_2, vertex_3));
}

/// Appends the eight corners of the box spanned by `mins` and `maxs` to
/// `vertices`, and the twelve triangles of its faces, as indices into
/// `vertices`, to `indices`.
fn add_rect_prism(mins: &[i16; 3], maxs: &[i16; 3], indices: &mut Vec<u32>, vertices: &mut Vec<Vertex>)
    requires
        old(vertices)@.len() + 8 <= u32::MAX + 1,
    ensures
        final(vertices)@ == old(vertices)@ + prism_corners(*mins, *maxs),
        final(indices)@ == old(indices)@ + prism_indices(old(vertices)@.len() as u32),
{
    let ghost base = vertices@.len() as u32;
    let back_top_left = add_and_get_index(
        vertices,
        Vertex::new([mins[0], maxs[1], mins[2], 0], [FULL, 0, 0, FULL]),
    ) as u32;
    let back_top_right = add_and_get_index(
        vertices,
        Vertex::new([maxs[0], maxs[1], mins[2], 0], [0, FULL, 0, FULL]),
    ) as u32;
    let back_bottom_left = add_and_get_index(
        vertices,
        Vertex::new([mins[0], mins[1], mins[2], 0], [0, 0, FULL, FULL]),
    ) as u32;
    let back_bottom_right = add_and_get_index(
        vertices,
        Vertex::new([maxs[0], mins[1], mins[2], 0], [FULL, FULL, 0, FULL]),
    ) as u32;
    let front_top_left = add_and_get_index(
        vertices,
        Vertex::new([mins[0], maxs[1], maxs[2], 0], [FULL, 0, FULL, FULL]),
    ) as u32;
    let front_top_right = add_and_get_index(
        vertices,
        Vertex::new([maxs[0], maxs[1], maxs[2], 0], [0, FULL, FULL, FULL]),
    ) as u32;
    let front_bottom_left = add_and_get_index(
        vertices,
        Vertex::new([mins[0], mins[1], maxs[2], 0], [FULL, FULL, FULL, FULL]),
    ) as u32;
    let front_bottom_right = add_and_get_index(
        vertices,
        Vertex::new([maxs[0], mins[1], maxs[2], 0], [0, 0, 0, FULL]),
    ) as u32;
    assert(vertices@ =~= old(vertices)@ + prism_corners(*mins, *maxs));

    // Back
    append_quad(back_top_left, back_top_right, back_bottom_left, back_bottom_right, indices);
    // Front
    append_quad(front_top_left, front_bottom_left, front_top_right, front_bottom_right, indices);
    // Top
    append_quad(back_top_left, front_top_left, back_top_right, front_top_right, indices);
    // Bottom
    append_quad(back_bottom_left, back_bottom_right, front_bottom_left, front_bottom_right, indices);
    // Left
    append_quad(front_top_left, back_top_left, front_bottom_left, back_bottom_left, indices);
    // Right
    append_quad(front_top_right, front_bottom_right, back_top_right, back_bottom_right, indices);
    assert(indices@ =~= old(indices)@ + prism_indices(base));
}

/// Appends the box spanned by `mins` and `maxs` to the mesh and returns the
/// range of `indices` that holds its triangles.
fn create_primitive(mins: &[i16; 3], maxs: &[i16; 3], indices: &mut Vec<u32>, vertices: &mut Vec<Vertex>) -> (r: Range<usize>)
    requires
        old(vertices)@.len() + 8 <= u32::MAX + 1,
        old(indices)@.len() + 36 <= usize::MAX,
    ensures
        final(vertices)@ == old(vertices)@ + prism_corners(*mins, *maxs),
        final(indices)@ == old(indices)@ + prism_indices(old(vertices)@.len() as u32),
        r.start == old(indices)@.len(),
        r.end == final(indices)@.len(),
{
    let start = indices.len();
    add_rect_prism(mins, maxs, indices, vertices);
    let end = indices.len();
    start..end
}

/// Appends a cube of half-extent `size` centered at `center` to the mesh:
/// eight vertices and 36 indices (six faces of two triangles each), which
/// refer to the new vertices. Returns the range of `indices` that holds the
/// cube's triangles.
pub fn create_cube(center: [i16; 3], size: i16, indices: &mut Vec<u32>, vertices: &mut Vec<Vertex>) -> (r: Range<usize>)
    requires
        cube_fits(center, size),
        old(vertices)@.len() + 8 <= u32::MAX + 1,
        old(indices)@.len() + 36 <= usize::MAX,
    ensures
        final(vertices)@ == old(vertices)@ + prism_corners(cube_mins(center, size), cube_maxs(center, size)),
        final(indices)@ == old(indices)@ + prism_indices(old(vertices)@.len() as u32),
        r.start == old(indices)@.len(),
        r.end == final(indices)@.len(),
{
    assert(i16::MIN <= center[0] - size <= i16::MAX && i16::MIN <= center[0] + size <= i16::MAX);
    assert(i16::MIN <= center[1] - size <= i16::MAX && i16::MIN <= center[1] + size <= i16::MAX);
    assert(i16::MIN <= center[2] - size <= i16::MAX && i16::MIN <= center[2] + size <= i16::MAX);
    let mins = [center[0] - size, center[1] - size, center[2] - size];
    let maxs = [center[0] + size, center[1] + size, center[2] + size];
    assert(mins == cube_mins(center, size));
    assert(maxs == cube_maxs(center, size));
    create_primitive(&mins, &maxs, indices, vertices)
}

/// The cross product of two integer vectors.
pub open spec fn cross(u: (int, int, int), v: (int, int, int)) -> (int, int, int) {
    (u.1 * v.2 - u.2 * v.1, u.2 * v.0 - u.0 * v.2, u.0 * v.1 - u.1 * v.0)
}

/// The vector from the position of `a` to that of `b`.
pub open spec fn edge(a: Vertex, b: Vertex) -> (int, int, int) {
    (b.pos[0] - a.pos[0], b.pos[1] - a.pos[1], b.pos[2] - a.pos[2])
}

/// Whether the triangle `(a, b, c)` spans a nonzero area: the cross product
/// of its edges `b - a` and `c - a` is not the zero vector.
pub open spec fn nondegenerate(a: Vertex, b: Vertex, c: Vertex) -> bool {
    cross(edge(a, b), edge(a, c)) != (0int, 0int, 0int)
}

/// Triangle `t` of the indexed mesh `(vertices, indices)` is nondegenerate.
pub open spec fn triangle_nondegenerate(vertices: Seq<Vertex>, indices: Seq<u32>, t: int) -> bool {
    nondegenerate(
        vertices[indices[3 * t] as int],
        vertices[indices[3 * t + 1] as int],
        vertices[indices[3 * t + 2] as int],
    )
}

spec fn scale(u: (int, int, int), k: int) -> (int, int, int) {
    (u.0 * k, u.1 * k, u.2 * k)
}

spec fn diff(u: (int, int, int), v: (int, int, int)) -> (int, int, int) {
    (u.0 - v.0, u.1 - v.1, u.2 - v.2)
}

/// Which of the two extremes each coordinate of prism corner `k` takes
/// (0 for the minimum, 1 for the maximum).
spec fn corner_offset(k: int) -> (int, int, int) {
    if k == 0 { (0, 1, 0) }
    else if k == 1 { (1, 1, 0) }
    else if k == 2 { (0, 0, 0) }
    else if k == 3 { (1, 0, 0) }
    else if k == 4 { (0, 1, 1) }
    else if k == 5 { (1, 1, 1) }
    else if k == 6 { (0, 0, 1) }
    else { (1, 0, 1) }
}

proof fn lemma_cross_scale(u: (int, int, int), v: (int, int, int), k: int)
    ensures
        cross(scale(u, k), scale(v, k)) == scale(cross(u, v), k * k),
{
    assert((u.1 * k) * (v.2 * k) - (u.2 * k) * (v.1 * k) == (u.1 * v.2 - u.2 * v.1) * (k * k))
        by (nonlinear_arith);
    assert((u.2 * k) * (v.0 * k) - (u.0 * k) * (v.2 * k) == (u.2 * v.0 - u.0 * v.2) * (k * k))
        by (nonlinear_arith);
    assert((u.0 * k) * (v.1 * k) - (u.1 * k) * (v.0 * k) == (u.0 * v.1 - u.1 * v.0) * (k * k))
        by (nonlinear_arith);
}

proof fn lemma_unit_mul(e: int, d: int)
    requires
        -1 <= e <= 1,
    ensures
        e * d == if e == 0 { 0 } else if e == 1 { d } else { -d },
{
    assert(e * d == if e == 0 { 0 } else if e == 1 { d } else { -d }) by (nonlinear_arith)
        requires
            -1 <= e <= 1,
    ;
}

/// A cube of nonzero half-extent, built into an empty mesh, has eight
/// vertices and 36 indices, every index refers to one of its vertices, and
/// none of its twelve triangles is degenerate.
pub proof fn lemma_cube_triangles_nondegenerate(center: [i16; 3], size: i16)
    requires
        cube_fits(center, size),
        size != 0,
    ensures
        ({
            let vertices = prism_corners(cube_mins(center, size), cube_maxs(center, size));
            let indices = prism_indices(0);
            &&& vertices.len() == 8
            &&& indices.len() == 36
            &&& forall|i: int| 0 <= i < 36 ==> #[trigger] indices[i] < 8
            &&& forall|t: int| 0 <= t < 12 ==> triangle_nondegenerate(vertices, indices, t)
        }),
{
    let mins = cube_mins(center, size);
    let maxs = cube_maxs(center, size);
    let vertices = prism_corners(mins, maxs);
    let indices = prism_indices(0);
    assert(0 <= 0int < 3 && 0 <= 1int < 3 && 0 <= 2int < 3);
    assert(i16::MIN <= center[0] - size <= i16::MAX && i16::MIN <= center[0] + size <= i16::MAX);
    assert(i16::MIN <= center[1] - size <= i16::MAX && i16::MIN <= center[1] + size <= i16::MAX);
    assert(i16::MIN <= center[2] - size <= i16::MAX && i16::MIN <= center[2] + size <= i16::MAX);
    let d = 2 * size as int;
    let m = (mins[0] as int, mins[1] as int, mins[2] as int);
    assert(maxs[0] == m.0 + d && maxs[1] == m.1 + d && maxs[2] == m.2 + d);
    assert(d * d != 0) by (nonlinear_arith)
        requires
            d != 0,
    ;
    assert forall|k: int| 0 <= k < 8 implies {
        let v = #[trigger] vertices[k];
        &&& v.pos[0] == m.0 + if corner_offset(k).0 == 0 { 0 } else { d }
        &&& v.pos[1] == m.1 + if corner_offset(k).1 == 0 { 0 } else { d }
        &&& v.pos[2] == m.2 + if corner_offset(k).2 == 0 { 0 } else { d }
    } by {}
    assert(indices =~= seq![
        0u32, 1, 2, 3, 2, 1,
        4, 6, 5, 7, 5, 6,
        0, 4, 1, 5, 1, 4,
        2, 3, 6, 7, 6, 3,
        4, 0, 6, 2, 6, 0,
        5, 7, 1, 3, 1, 7,
    ]);
    assert forall|t: int| 0 <= t < 12 implies triangle_nondegenerate(vertices, indices, t) by {
        let ia = indices[3 * t] as int;
        let ib = indices[3 * t + 1] as int;
        let ic = indices[3 * t + 2] as int;
        let u = diff(corner_offset(ib), corner_offset(ia));
        let w = diff(corner_offset(ic), corner_offset(ia));
        lemma_unit_mul(u.0, d);
        lemma_unit_mul(u.1, d);
        lemma_unit_mul(u.2, d);
        lemma_unit_mul(w.0, d);
        lemma_unit_mul(w.1, d);
        lemma_unit_mul(w.2, d);
        assert(edge(vertices[ia], vertices[ib]) == scale(u, d));
        assert(edge(vertices[ia], vertices[ic]) == scale(w, d));
        lemma_cross_scale(u, w, d);
        assert(t == 0 || t == 1 || t == 2 || t == 3 || t == 4 || t == 5 || t == 6 || t == 7
            || t == 8 || t == 9 || t == 10 || t == 11);
        let c = cross(u, w);
        assert(c != (0int, 0int, 0int));
        let dd = d * d;
        assert(c.0 * dd != 0 || c.1 * dd != 0 || c.2 * dd != 0) by (nonlinear_arith)
            requires
                c.0 != 0 || c.1 != 0 || c.2 != 0,
                dd != 0,
        ;
    }
}

} // verus!
