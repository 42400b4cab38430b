//! The shared quad geometry.
//!
//! Every drawing pass stretches the same six-vertex quad (two triangles
//! covering the unit square) over each sprite or over the whole screen.
//! The quad is a process-wide constant; this module pins down its
//! vertices, its vertex-buffer byte image and its stream layout.

use vstd::prelude::*;
use crate::bytes::u32_le_bytes;
use crate::bytes::push_u32_le;
use crate::layout::VertexAttributeDesc;
use crate::layout::VertexBufferLayoutDesc;
use crate::layout::VertexFormat;
use crate::layout::VertexStepMode;
use crate::layout::packed_layout;

verus! {

/// Bit pattern of the 32-bit value zero as the shader reads it.
pub const COORD_ZERO_BITS: u32 = 0x0000_0000;

/// Bit pattern of the 32-bit value one as the shader reads it.
pub const COORD_ONE_BITS: u32 = 0x3F80_0000;

/// Vertices in the shared quad: two triangles.
pub const QUAD_VERTEX_COUNT: u32 = 6;

/// Bytes one vertex occupies in the vertex buffer: two 32-bit fields.
pub const VERTEX_BYTE_LEN: usize = 8;

/// One corner of the quad.  Each field holds the bit pattern of the
/// 32-bit coordinate the shader reads.
#[derive(Clone, Copy, Debug, PartialEq, Eq, Structural)]
pub struct Vertex {
    /// Corner x, in the unit square.
    pub x_bits: u32,
    /// Corner y, in the unit square.
    pub y_bits: u32,
}

/// The six quad vertices: triangles (0,0)-(1,0)-(1,1) and
/// (1,1)-(0,1)-(0,0) covering the unit square.
pub open spec fn quad_vertices_spec() -> Seq<Vertex> {
    seq![
        Vertex { x_bits: COORD_ZERO_BITS, y_bits: COORD_ZERO_BITS },
        Vertex { x_bits: COORD_ONE_BITS, y_bits: COORD_ZERO_BITS },
        Vertex { x_bits: COORD_ONE_BITS, y_bits: COORD_ONE_BITS },
        Vertex { x_bits: COORD_ONE_BITS, y_bits: COORD_ONE_BITS },
        Vertex { x_bits: COORD_ZERO_BITS, y_bits: COORD_ONE_BITS },
        Vertex { x_bits: COORD_ZERO_BITS, y_bits: COORD_ZERO_BITS },
    ]
}

/// Builds the shared quad vertex list.
pub fn quad_vertices() -> (r: Vec<Vertex>)
    ensures
        r@ == quad_vertices_spec(),
        r@.len() == QUAD_VERTEX_COUNT,
{
    let mut out: Vec<Vertex> = Vec::new();
    out.push(Vertex { x_bits: COORD_ZERO_BITS, y_bits: COORD_ZERO_BITS });
    out.push(Vertex { x_bits: COORD_ONE_BITS, y_bits: COORD_ZERO_BITS });
    out.push(Vertex { x_bits: COORD_ONE_BITS, y_bits: COORD_ONE_BITS });
    out.push(Vertex { x_bits: COORD_ONE_BITS, y_bits: COORD_ONE_BITS });
    out.push(Vertex { x_bits: COORD_ZERO_BITS, y_bits: COORD_ONE_BITS });
    out.push(Vertex { x_bits: COORD_ZERO_BITS, y_bits: COORD_ZERO_BITS });
    proof {
        assert(out@ =~= quad_vertices_spec());
    }
    out
}

/// The 8-byte vertex-buffer image of one vertex: x then y,
/// little-endian.
pub open spec fn vertex_bytes(v: Vertex) -> Seq<u8> {
    u32_le_bytes(v.x_bits) + u32_le_bytes(v.y_bits)
}

/// The vertex-buffer image of a vertex list: the vertices' images in
/// order.
pub open spec fn vertices_bytes(vs: Seq<Vertex>) -> Seq<u8>
    decreases vs.len(),
{
    if vs.len() == 0 {
        Seq::empty()
    } else {
        vertex_bytes(vs[0]) + vertices_bytes(vs.drop_first())
    }
}

/// A list of `n` vertices occupies exactly `n * VERTEX_BYTE_LEN` bytes.
pub proof fn lemma_vertices_bytes_len(vs: Seq<Vertex>)
    ensures
        vertices_bytes(vs).len() == vs.len() * VERTEX_BYTE_LEN,
    decreases vs.len(),
{
    if vs.len() > 0 {
        lemma_vertices_bytes_len(vs.drop_first());
    }
}

/// Appending a vertex to the list appends its image to the buffer.
pub proof fn lemma_vertices_bytes_push(vs: Seq<Vertex>, v: Vertex)
    ensures
        vertices_bytes(vs.push(v)) == vertices_bytes(vs) + vertex_bytes(v),
    decreases vs.len(),
{
    if vs.len() == 0 {
        assert(vs.push(v).len() == 1);
        assert(vs.push(v)[0] == v);
        assert(vs.push(v).drop_first() =~= Seq::<Vertex>::empty());
        assert(vertices_bytes(vs.push(v)) == vertex_bytes(v) + vertices_bytes(
            Seq::<Vertex>::empty(),
        ));
        assert(vertices_bytes(Seq::<Vertex>::empty()) == Seq::<u8>::empty());
        assert(vertices_bytes(vs) == Seq::<u8>::empty());
        assert(vertices_bytes(vs.push(v)) =~= vertices_bytes(vs) + vertex_bytes(v));
    } else {
        assert(vs.push(v)[0] == vs[0]);
        assert(vs.push(v).drop_first() =~= vs.drop_first().push(v));
        lemma_vertices_bytes_push(vs.drop_first(), v);
        assert(vertices_bytes(vs.push(v)) =~= vertices_bytes(vs) + vertex_bytes(v));
    }
}

/// Builds the vertex-buffer image of `vs`.
pub fn encode_vertices(vs: &Vec<Vertex>) -> (r: Vec<u8>)
    ensures
        r@ == vertices_bytes(vs@),
        r@.len() == vs@.len() * VERTEX_BYTE_LEN,
{
    let mut out: Vec<u8> = Vec::new();
    let mut i: usize = 0;
    while i < vs.len()
        invariant
            i <= vs@.len(),
            out@ == vertices_bytes(vs@.take(i as int)),
        decreases vs@.len() - i,
    {
        push_u32_le(&mut out, vs[i].x_bits);
        push_u32_le(&mut out, vs[i].y_bits);
        proof {
            assert(out@ =~= vertices_bytes(vs@.take(i as int)) + vertex_bytes(vs@[i as int]));
            assert(vs@.take(i as int).push(vs@[i as int]) =~= vs@.take(i + 1));
            lemma_vertices_bytes_push(vs@.take(i as int), vs@[i as int]);
        }
        i = i + 1;
    }
    proof {
        assert(vs@.take(vs@.len() as int) =~= vs@);
        lemma_vertices_bytes_len(vs@);
    }
    out
}

impl Vertex {
    /// The quad stream's layout: stride of one vertex, advancing per
    /// vertex, with the position bound at shader location 0.
    pub fn vertex_buffer_desc() -> (r: VertexBufferLayoutDesc)
        ensures
            r.array_stride == VERTEX_BYTE_LEN,
            r.step_mode == VertexStepMode::PerVertex,
            r.attributes@ == seq![
                VertexAttributeDesc { shader_location: 0, offset: 0, format: VertexFormat::Vec2x32 },
            ],
            packed_layout(r),
    {
        let mut attributes: Vec<VertexAttributeDesc> = Vec::new();
        attributes.push(VertexAttributeDesc { shader_location: 0, offset: 0, format: VertexFormat::Vec2x32 });
        let r = VertexBufferLayoutDesc {
            array_stride: 8,
            step_mode: VertexStepMode::PerVertex,
            attributes,
        };
        proof {
            assert(r.attributes@ =~= seq![
                VertexAttributeDesc { shader_location: 0, offset: 0, format: VertexFormat::Vec2x32 },
            ]);
        }
        r
    }
}

} // verus!
