use vstd::prelude::*;
use crate::instance::{Fraction, frac};

verus! {

/// A corner of a quad: its position in the plane `z = 0` and its texture
/// coordinates, each `0` or `1`.
#[derive(Clone, Copy, Debug, PartialEq, Eq, Structural)]
pub struct Vertex {
    pub x: Fraction,
    pub y: Fraction,
    pub tex_u: u32,
    pub tex_v: u32,
}

/// The corners of a quad `width` wide and `height` high whose top-left
/// corner is the origin, in counter-clockwise order.
pub open spec fn quad_spec(width: Fraction, height: Fraction) -> Seq<Vertex> {
    let zero = Fraction { num: 0, den: 1 };
    let down = Fraction { num: (-height.num) as i64, den: height.den };
    seq![
        Vertex { x: zero, y: down, tex_u: 1, tex_v: 0 },
        Vertex { x: width, y: down, tex_u: 0, tex_v: 0 },
        Vertex { x: width, y: zero, tex_u: 0, tex_v: 1 },
        Vertex { x: zero, y: zero, tex_u: 1, tex_v: 1 },
    ]
}

/// The four corners of a quad of the given size (see [`quad_spec`]).
pub fn quad_vertices(width: Fraction, height: Fraction) -> (r: Vec<Vertex>)
    requires
        height.num > i64::MIN,
    ensures
        r@ == quad_spec(width, height),
{
    let zero = Fraction { num: 0, den: 1 };
    let down = Fraction { num: -height.num, den: height.den };
    let r = vec![
        Vertex { x: zero, y: down, tex_u: 1, tex_v: 0 },
        Vertex { x: width, y: down, tex_u: 0, tex_v: 0 },
        Vertex { x: width, y: zero, tex_u: 0, tex_v: 1 },
        Vertex { x: zero, y: zero, tex_u: 1, tex_v: 1 },
    ];
    assert(r@ == quad_spec(width, height));
    r
}

/// The two triangles of a quad, as indices into its corners.
pub fn quad_indices() -> (r: Vec<u16>)
    ensures
        r@ == seq![0u16, 1, 2, 2, 3, 0],
{
    let r: Vec<u16> = vec![0, 1, 2, 2, 3, 0];
    assert(r@ == seq![0u16, 1, 2, 2, 3, 0]);
    r
}

/// The size of one cell of a grid of `cols` x `rows` cells that spans the
/// square `[-1, 1] x [-1, 1]`.
pub fn cell_size(cols: usize, rows: usize) -> (r: (Fraction, Fraction))
    requires
        0 < cols <= u32::MAX,
        0 < rows <= u32::MAX,
    ensures
        r == (frac(2, cols as int), frac(2, rows as int)),
{
    (Fraction { num: 2, den: cols as u32 }, Fraction { num: 2, den: rows as u32 })
}

/// The parameters of one indexed, instanced draw: indices `0..index_count`
/// of instances `0..instance_count`.
#[derive(Clone, Copy, Debug, PartialEq, Eq, Structural)]
pub struct DrawCall {
    pub index_count: u32,
    pub instance_count: u32,
}

/// A quad's buffers (of a handle type `B`, such as a GPU buffer) and the
/// counts that draw it. Only the instance buffer ever changes, and it changes
/// together with the instance count.
pub struct Mesh<B> {
    pub vertex_buffer: B,
    pub index_buffer: B,
    pub instance_buffer: B,
    pub num_indices: u32,
    pub num_instances: u32,
}

/// `m` after its instances were replaced by the `n` records in `buffer`.
pub open spec fn replaced<B>(m: Mesh<B>, buffer: B, n: u32) -> Mesh<B> {
    Mesh { instance_buffer: buffer, num_instances: n, ..m }
}

/// The draw call that covers all of `m`'s indices and instances.
pub open spec fn draw_spec<B>(m: Mesh<B>) -> DrawCall {
    DrawCall { index_count: m.num_indices, instance_count: m.num_instances }
}

impl<B> Mesh<B> {
    /// A quad mesh over uploaded corners and indices (those of
    /// [`quad_vertices`] and [`quad_indices`]), with no instances yet.
    pub fn new(vertex_buffer: B, index_buffer: B, instance_buffer: B) -> (m: Mesh<B>)
        ensures
            m == (Mesh { vertex_buffer, index_buffer, instance_buffer, num_indices: 6, num_instances: 0 }),
    {
        Mesh { vertex_buffer, index_buffer, instance_buffer, num_indices: 6, num_instances: 0 }
    }

    /// Swaps in a new instance buffer holding `num_instance` records; the old
    /// buffer is dropped.
    pub fn replace_instance(&mut self, buffer: B, num_instance: u32)
        ensures
            *final(self) == replaced(*old(self), buffer, num_instance),
    {
        self.instance_buffer = buffer;
        self.num_instances = num_instance;
    }

    /// The draw call that covers all indices and all instances.
    pub fn draw_call(&self) -> (d: DrawCall)
        ensures
            d == draw_spec(*self),
    {
        DrawCall { index_count: self.num_indices, instance_count: self.num_instances }
    }
}

/// Replacing a mesh's instances twice with the same records leaves it as one
/// replacement does: the same buffers, the same instance count and the same
/// draw call.
pub proof fn lemma_replace_idempotent<B>(m: Mesh<B>, first: B, second: B, n: u32)
    ensures
        replaced(replaced(m, first, n), second, n) == replaced(m, second, n),
        draw_spec(replaced(replaced(m, first, n), second, n)) == draw_spec(replaced(m, first, n)),
{
}

} // verus!
