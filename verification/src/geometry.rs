//! The full-screen quad: its corners, its two triangles, and how its vertices are
//! laid out for the vertex stage.

use vstd::prelude::*;
use vstd::slice::slice_to_vec;

verus! {

/// A corner of the quad in normalized device coordinates.
///
/// On the GPU a vertex is two 32-bit floats. The corners of the viewport lie at
/// whole coordinates, so whole numbers are kept here.
#[derive(Clone, Copy, Debug, PartialEq, Eq, Structural)]
pub struct Vertex {
    pub x: i32,
    pub y: i32,
}

/// How often the vertex stage steps to the next element of a vertex buffer.
#[derive(Clone, Copy, Debug, PartialEq, Eq, Structural)]
pub enum VertexStepMode {
    Vertex,
    Instance,
}

/// Format of one vertex attribute.
#[derive(Clone, Copy, Debug, PartialEq, Eq, Structural)]
pub enum VertexFormat {
    Uint8x2,
    Uint8x4,
    Sint8x2,
    Sint8x4,
    Unorm8x2,
    Unorm8x4,
    Snorm8x2,
    Snorm8x4,
    Uint16x2,
    Uint16x4,
    Sint16x2,
    Sint16x4,
    Unorm16x2,
    Unorm16x4,
    Snorm16x2,
    Snorm16x4,
    Float16x2,
    Float16x4,
    Float32,
    Float32x2,
    Float32x3,
    Float32x4,
    Uint32,
    Uint32x2,
    Uint32x3,
    Uint32x4,
    Sint32,
    Sint32x2,
    Sint32x3,
    Sint32x4,
    Float64,
    Float64x2,
    Float64x3,
    Float64x4,
}

impl VertexFormat {
    /// Number of components of the format.
    pub open spec fn components(self) -> nat {
        match self {
            VertexFormat::Float32 | VertexFormat::Uint32 | VertexFormat::Sint32
            | VertexFormat::Float64 => 1,
            VertexFormat::Uint8x2 | VertexFormat::Sint8x2 | VertexFormat::Unorm8x2
            | VertexFormat::Snorm8x2 | VertexFormat::Uint16x2 | VertexFormat::Sint16x2
            | VertexFormat::Unorm16x2 | VertexFormat::Snorm16x2 | VertexFormat::Float16x2
            | VertexFormat::Float32x2 | VertexFormat::Uint32x2 | VertexFormat::Sint32x2
            | VertexFormat::Float64x2 => 2,
            VertexFormat::Float32x3 | VertexFormat::Uint32x3 | VertexFormat::Sint32x3
            | VertexFormat::Float64x3 => 3,
            VertexFormat::Uint8x4 | VertexFormat::Sint8x4 | VertexFormat::Unorm8x4
            | VertexFormat::Snorm8x4 | VertexFormat::Uint16x4 | VertexFormat::Sint16x4
            | VertexFormat::Unorm16x4 | VertexFormat::Snorm16x4 | VertexFormat::Float16x4
            | VertexFormat::Float32x4 | VertexFormat::Uint32x4 | VertexFormat::Sint32x4
            | VertexFormat::Float64x4 => 4,
        }
    }

    /// Number of bytes of one component of the format.
    pub open spec fn component_size(self) -> nat {
        match self {
            VertexFormat::Uint8x2 | VertexFormat::Uint8x4 | VertexFormat::Sint8x2
            | VertexFormat::Sint8x4 | VertexFormat::Unorm8x2 | VertexFormat::Unorm8x4
            | VertexFormat::Snorm8x2 | VertexFormat::Snorm8x4 => 1,
            VertexFormat::Uint16x2 | VertexFormat::Uint16x4 | VertexFormat::Sint16x2
            | VertexFormat::Sint16x4 | VertexFormat::Unorm16x2 | VertexFormat::Unorm16x4
            | VertexFormat::Snorm16x2 | VertexFormat::Snorm16x4 | VertexFormat::Float16x2
            | VertexFormat::Float16x4 => 2,
            VertexFormat::Float32 | VertexFormat::Float32x2 | VertexFormat::Float32x3
            | VertexFormat::Float32x4 | VertexFormat::Uint32 | VertexFormat::Uint32x2
            | VertexFormat::Uint32x3 | VertexFormat::Uint32x4 | VertexFormat::Sint32
            | VertexFormat::Sint32x2 | VertexFormat::Sint32x3 | VertexFormat::Sint32x4 => 4,
            VertexFormat::Float64 | VertexFormat::Float64x2 | VertexFormat::Float64x3
            | VertexFormat::Float64x4 => 8,
        }
    }

    /// Number of bytes that an attribute of this format takes.
    pub open spec fn byte_size(self) -> nat {
        self.components() * self.component_size()
    }

    /// Number of bytes that an attribute of this format takes.
    pub fn size(&self) -> (size: u64)
        ensures
            size == self.byte_size(),
    {
        match self {
            VertexFormat::Uint8x2 | VertexFormat::Sint8x2 | VertexFormat::Unorm8x2
            | VertexFormat::Snorm8x2 => 2,
            VertexFormat::Uint8x4 | VertexFormat::Sint8x4 | VertexFormat::Unorm8x4
            | VertexFormat::Snorm8x4 | VertexFormat::Uint16x2 | VertexFormat::Sint16x2
            | VertexFormat::Unorm16x2 | VertexFormat::Snorm16x2 | VertexFormat::Float16x2
            | VertexFormat::Float32 | VertexFormat::Uint32 | VertexFormat::Sint32 => 4,
            VertexFormat::Uint16x4 | VertexFormat::Sint16x4 | VertexFormat::Unorm16x4
            | VertexFormat::Snorm16x4 | VertexFormat::Float16x4 | VertexFormat::Float32x2
            | VertexFormat::Uint32x2 | VertexFormat::Sint32x2 | VertexFormat::Float64 => 8,
            VertexFormat::Float32x3 | VertexFormat::Uint32x3 | VertexFormat::Sint32x3 => 12,
            VertexFormat::Float32x4 | VertexFormat::Uint32x4 | VertexFormat::Sint32x4
            | VertexFormat::Float64x2 => 16,
            VertexFormat::Float64x3 => 24,
            VertexFormat::Float64x4 => 32,
        }
    }
}

/// One input of the vertex stage, read from a vertex buffer.
#[derive(Clone, Copy, Debug, PartialEq, Eq, Structural)]
pub struct VertexAttribute {
    pub format: VertexFormat,
    /// Byte offset of the attribute from the start of its vertex.
    pub offset: u64,
    /// The `@location` that the vertex shader reads the attribute at.
    pub shader_location: u32,
}

/// How the vertices of one vertex buffer are laid out.
#[derive(Clone, Debug, PartialEq, Eq)]
pub struct VertexBufferLayout {
    /// Byte distance from one vertex to the next.
    pub array_stride: u64,
    pub step_mode: VertexStepMode,
    pub attributes: Vec<VertexAttribute>,
}

/// Number of bytes of one vertex on the GPU: two 32-bit floats.
pub const VERTEX_SIZE: u64 = 8;

/// Number of bytes that the first `n` of `attributes` take together.
pub open spec fn attributes_size(attributes: Seq<VertexAttribute>, n: int) -> nat
    decreases n,
{
    if n <= 0 {
        0
    } else {
        attributes_size(attributes, n - 1) + attributes[n - 1].format.byte_size()
    }
}

impl VertexBufferLayout {
    /// The attributes follow one another without gaps from offset 0, each at a
    /// shader location of its own, and together they fill the stride exactly.
    pub open spec fn packed(self) -> bool {
        &&& forall|i: int|
            0 <= i < self.attributes@.len() ==> (#[trigger] self.attributes@[i]).offset
                == attributes_size(self.attributes@, i)
        &&& forall|i: int, j: int|
            0 <= i < j < self.attributes@.len() ==> (#[trigger] self.attributes@[i]).shader_location
                != (#[trigger] self.attributes@[j]).shader_location
        &&& self.array_stride == attributes_size(self.attributes@, self.attributes@.len() as int)
    }
}

impl Vertex {
    /// The attributes of a quad vertex: its position.
    pub open spec fn attributes() -> Seq<VertexAttribute> {
        seq![VertexAttribute { format: VertexFormat::Float32x2, offset: 0, shader_location: 0 }]
    }

    /// The layout of the quad's vertex buffer: one vertex per step, the position
    /// as two 32-bit floats at shader location 0, nothing else.
    pub fn desc() -> (layout: VertexBufferLayout)
        ensures
            layout.array_stride == VERTEX_SIZE,
            layout.step_mode == VertexStepMode::Vertex,
            layout.attributes@ == Vertex::attributes(),
            layout.packed(),
    {
        let mut attributes: Vec<VertexAttribute> = Vec::new();
        attributes.push(
            VertexAttribute { format: VertexFormat::Float32x2, offset: 0, shader_location: 0 },
        );
        let layout = VertexBufferLayout {
            array_stride: VERTEX_SIZE,
            step_mode: VertexStepMode::Vertex,
            attributes,
        };
        proof {
            assert(layout.attributes@ =~= Vertex::attributes());
            reveal_with_fuel(attributes_size, 2);
        }
        layout
    }
}

/// The four corners of the viewport, starting at the lower right and going
/// clockwise as seen with the y axis pointing up.
pub open spec fn quad_vertices() -> Seq<Vertex> {
    seq![
        Vertex { x: 1, y: -1i32 },
        Vertex { x: -1i32, y: -1i32 },
        Vertex { x: -1i32, y: 1 },
        Vertex { x: 1, y: 1 },
    ]
}

/// The quad's two triangles as indices into its corners.
pub const RECT_INDICES: [u16; 6] = [0, 1, 2, 0, 2, 3];

/// The quad's corners.
pub fn rect_vertices() -> (vertices: [Vertex; 4])
    ensures
        vertices@ == quad_vertices(),
{
    let vertices = [
        Vertex { x: 1, y: -1 },
        Vertex { x: -1, y: -1 },
        Vertex { x: -1, y: 1 },
        Vertex { x: 1, y: 1 },
    ];
    assert(vertices@ =~= quad_vertices());
    vertices
}

/// The quad's indices as a sequence.
pub open spec fn quad_indices() -> Seq<u16> {
    seq![0u16, 1, 2, 0, 2, 3]
}

/// The quad's indices.
pub fn rect_indices() -> (indices: [u16; 6])
    ensures
        indices@ == quad_indices(),
        forall|i: int| 0 <= i < 6 ==> (#[trigger] indices@[i]) < quad_vertices().len(),
{
    let indices = RECT_INDICES;
    assert(indices@ =~= quad_indices());
    indices
}

/// The bytes of `words` with the low byte of each word first.
pub open spec fn le_bytes(words: Seq<u16>) -> Seq<u8> {
    Seq::new(
        2 * words.len(),
        |i: int|
            if i % 2 == 0 {
                (words[i / 2] % 256) as u8
            } else {
                (words[i / 2] / 256) as u8
            },
    )
}

/// The bytes of `words` with the high byte of each word first.
pub open spec fn be_bytes(words: Seq<u16>) -> Seq<u8> {
    Seq::new(
        2 * words.len(),
        |i: int|
            if i % 2 == 0 {
                (words[i / 2] / 256) as u8
            } else {
                (words[i / 2] % 256) as u8
            },
    )
}

/// Calls `bytemuck::cast_slice` from `u16` to `u8`, which views the same memory
/// as bytes. The cast cannot fail in this direction: bytes need no alignment and
/// every length in words is a whole number of bytes. The claim is that the bytes
/// are the words in the machine's byte order, which is one of the two there are.
#[verifier::external_body]
fn cast_words(words: &[u16]) -> (bytes: &[u8])
    ensures
        bytes@ == le_bytes(words@) || bytes@ == be_bytes(words@),
{
    bytemuck::cast_slice::<u16, u8>(words)
}

/// The contents of the quad's index buffer: its six indices, two bytes each, in
/// the machine's byte order.
pub fn index_data() -> (bytes: Vec<u8>)
    ensures
        bytes@ == le_bytes(quad_indices()) || bytes@ == be_bytes(quad_indices()),
        bytes@.len() == 12,
{
    let indices = rect_indices();
    let bytes = cast_words(indices.as_slice());
    slice_to_vec(bytes)
}

/// Corner `k` of triangle `t` of the quad; `t` is 0 or 1, `k` is 0, 1 or 2.
pub open spec fn corner(t: int, k: int) -> Vertex
    recommends
        0 <= t < 2,
        0 <= k < 3,
{
    quad_vertices()[quad_indices()[3 * t + k] as int]
}

/// On which side of the line from `a` to `b` the point `(px / scale, py / scale)`
/// lies: positive on the left, negative on the right, zero on the line. The
/// value is `scale` times the cross product of `b - a` with the point minus `a`.
pub open spec fn side(a: Vertex, b: Vertex, px: int, py: int, scale: int) -> int {
    (b.x - a.x) * (py - a.y * scale) - (b.y - a.y) * (px - a.x * scale)
}

/// Whether triangle `t` of the quad holds the point `(px / scale, py / scale)`,
/// its edges included: the point lies on the same side of all three edges,
/// whichever way the triangle winds.
pub open spec fn triangle_holds(t: int, px: int, py: int, scale: int) -> bool {
    let s0 = side(corner(t, 0), corner(t, 1), px, py, scale);
    let s1 = side(corner(t, 1), corner(t, 2), px, py, scale);
    let s2 = side(corner(t, 2), corner(t, 0), px, py, scale);
    (s0 >= 0 && s1 >= 0 && s2 >= 0) || (s0 <= 0 && s1 <= 0 && s2 <= 0)
}

/// Twice the signed area of triangle `t` of the quad: positive when its corners
/// go round counter-clockwise as seen with the y axis pointing up, negative when
/// they go round clockwise.
pub open spec fn doubled_area(t: int) -> int {
    side(corner(t, 0), corner(t, 1), corner(t, 2).x as int, corner(t, 2).y as int, 1)
}

/// Every index of the quad names one of its four corners.
pub proof fn lemma_indices_in_range(i: int)
    requires
        0 <= i < quad_indices().len(),
    ensures
        quad_indices().len() == 6,
        quad_vertices().len() == 4,
        quad_indices()[i] < quad_vertices().len(),
{
}

/// The value of `side` written out for given corners.
proof fn lemma_side(a: Vertex, b: Vertex, px: int, py: int, scale: int, dx: int, dy: int)
    requires
        dx == b.x - a.x,
        dy == b.y - a.y,
    ensures
        side(a, b, px, py, scale) == dx * py - dx * (a.y * scale) - dy * px + dy * (a.x * scale),
{
    assert(dx * (py - a.y * scale) == dx * py - dx * (a.y * scale)) by (nonlinear_arith);
    assert(dy * (px - a.x * scale) == dy * px - dy * (a.x * scale)) by (nonlinear_arith);
}

/// The three `side` values of each triangle of the quad, written out.
proof fn lemma_quad_sides(px: int, py: int, scale: int)
    ensures
        side(corner(0, 0), corner(0, 1), px, py, scale) == -2 * py - 2 * scale,
        side(corner(0, 1), corner(0, 2), px, py, scale) == -2 * px - 2 * scale,
        side(corner(0, 2), corner(0, 0), px, py, scale) == 2 * py + 2 * px,
        side(corner(1, 0), corner(1, 1), px, py, scale) == -2 * py - 2 * px,
        side(corner(1, 1), corner(1, 2), px, py, scale) == 2 * py - 2 * scale,
        side(corner(1, 2), corner(1, 0), px, py, scale) == 2 * px - 2 * scale,
{
    let lower_right = Vertex { x: 1, y: -1i32 };
    let lower_left = Vertex { x: -1i32, y: -1i32 };
    let upper_left = Vertex { x: -1i32, y: 1 };
    let upper_right = Vertex { x: 1, y: 1 };
    assert(corner(0, 0) == lower_right);
    assert(corner(0, 1) == lower_left);
    assert(corner(0, 2) == upper_left);
    assert(corner(1, 0) == lower_right);
    assert(corner(1, 1) == upper_left);
    assert(corner(1, 2) == upper_right);
    lemma_side(lower_right, lower_left, px, py, scale, -2, 0);
    lemma_side(lower_left, upper_left, px, py, scale, 0, 2);
    lemma_side(upper_left, lower_right, px, py, scale, 2, -2);
    lemma_side(lower_right, upper_left, px, py, scale, -2, 2);
    lemma_side(upper_left, upper_right, px, py, scale, 2, 0);
    lemma_side(upper_right, lower_right, px, py, scale, 0, -2);
}

/// Both triangles of the quad wind the same way, clockwise as seen with the y
/// axis pointing up, and each is half of the 2 by 2 viewport. The pipeline culls
/// no face, so both are drawn.
pub proof fn lemma_triangles_wind_alike()
    ensures
        doubled_area(0) == -4,
        doubled_area(1) == -4,
{
    assert(corner(0, 2) == Vertex { x: -1i32, y: 1 });
    assert(corner(1, 2) == Vertex { x: 1, y: 1 });
    lemma_quad_sides(-1, 1, 1);
    lemma_quad_sides(1, 1, 1);
}

/// The quad covers the viewport without gaps: every point with rational
/// coordinates between -1 and 1 lies in one of its two triangles.
pub proof fn lemma_quad_covers_viewport(px: int, py: int, scale: int)
    requires
        scale > 0,
        -scale <= px <= scale,
        -scale <= py <= scale,
    ensures
        triangle_holds(0, px, py, scale) || triangle_holds(1, px, py, scale),
{
    lemma_quad_sides(px, py, scale);
}

/// The quad covers nothing but the viewport: a point that one of its triangles
/// holds has both coordinates between -1 and 1.
pub proof fn lemma_quad_stays_in_viewport(t: int, px: int, py: int, scale: int)
    requires
        scale > 0,
        0 <= t < 2,
        triangle_holds(t, px, py, scale),
    ensures
        -scale <= px <= scale,
        -scale <= py <= scale,
{
    lemma_quad_sides(px, py, scale);
}

/// The two triangles share only their common edge: a point that both hold lies
/// on the diagonal from the lower right corner to the upper left.
pub proof fn lemma_triangles_meet_on_diagonal(px: int, py: int, scale: int)
    requires
        scale > 0,
        triangle_holds(0, px, py, scale),
        triangle_holds(1, px, py, scale),
    ensures
        px + py == 0,
{
    lemma_quad_sides(px, py, scale);
}

} // verus!
