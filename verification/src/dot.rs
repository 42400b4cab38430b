//! The dot sprite: per-instance attributes and their buffer image.
//!
//! A dot is a soft circular sprite described by a centre position, a
//! radius, an edge hardness and an RGBA colour.  The GPU reads these
//! eight 32-bit fields straight from the instance buffer, so each field
//! is kept here as the bit pattern of the 32-bit value the shader
//! receives, and the buffer image of a dot list is pinned down byte by
//! byte.

use vstd::prelude::*;
use crate::bytes::u32_le_bytes;
use crate::bytes::push_u32_le;
use crate::layout::VertexAttributeDesc;
use crate::layout::VertexBufferLayoutDesc;
use crate::layout::VertexFormat;
use crate::layout::VertexStepMode;
use crate::layout::packed_layout;

verus! {

/// Bytes one dot occupies in the instance buffer: eight 32-bit fields.
pub const DOT_BYTE_LEN: usize = 32;

/// One dot sprite.  Each field holds the bit pattern of the 32-bit
/// value the shader reads at the matching instance-buffer offset.
#[derive(Clone, Copy, Debug, PartialEq, Eq, Structural)]
pub struct Dot {
    /// Centre x, in normalized device coordinates.
    pub x_bits: u32,
    /// Centre y, in normalized device coordinates.
    pub y_bits: u32,
    /// Disc radius; non-negative by convention.
    pub radius_bits: u32,
    /// Edge hardness of the falloff band.
    pub hardness_bits: u32,
    /// Red channel.
    pub red_bits: u32,
    /// Green channel.
    pub green_bits: u32,
    /// Blue channel.
    pub blue_bits: u32,
    /// Alpha channel.
    pub alpha_bits: u32,
}

/// The 32-byte instance-buffer image of one dot: position, radius,
/// hardness, colour, each field little-endian.
pub open spec fn dot_bytes(d: Dot) -> Seq<u8> {
    u32_le_bytes(d.x_bits) + u32_le_bytes(d.y_bits) + u32_le_bytes(d.radius_bits)
        + u32_le_bytes(d.hardness_bits) + u32_le_bytes(d.red_bits) + u32_le_bytes(d.green_bits)
        + u32_le_bytes(d.blue_bits) + u32_le_bytes(d.alpha_bits)
}

/// One dot's image is exactly `DOT_BYTE_LEN` bytes.
pub proof fn lemma_dot_bytes_len(d: Dot)
    ensures
        dot_bytes(d).len() == DOT_BYTE_LEN,
{
}

/// The instance-buffer image of a dot list: the dots' images in order.
pub open spec fn dots_bytes(dots: Seq<Dot>) -> Seq<u8>
    decreases dots.len(),
{
    if dots.len() == 0 {
        Seq::empty()
    } else {
        dot_bytes(dots[0]) + dots_bytes(dots.drop_first())
    }
}

/// A list of `n` dots occupies exactly `n * DOT_BYTE_LEN` buffer bytes.
pub proof fn lemma_dots_bytes_len(dots: Seq<Dot>)
    ensures
        dots_bytes(dots).len() == dots.len() * DOT_BYTE_LEN,
    decreases dots.len(),
{
    if dots.len() > 0 {
        lemma_dots_bytes_len(dots.drop_first());
    }
}

/// Appending a dot to the list appends its image to the buffer.
pub proof fn lemma_dots_bytes_push(dots: Seq<Dot>, d: Dot)
    ensures
        dots_bytes(dots.push(d)) == dots_bytes(dots) + dot_bytes(d),
    decreases dots.len(),
{
    if dots.len() == 0 {
        assert(dots.push(d).len() == 1);
        assert(dots.push(d)[0] == d);
        assert(dots.push(d).drop_first() =~= Seq::<Dot>::empty());
        assert(dots_bytes(dots.push(d)) == dot_bytes(d) + dots_bytes(Seq::<Dot>::empty()));
        assert(dots_bytes(Seq::<Dot>::empty()) == Seq::<u8>::empty());
        assert(dots_bytes(dots) == Seq::<u8>::empty());
        assert(dots_bytes(dots.push(d)) =~= dots_bytes(dots) + dot_bytes(d));
    } else {
        assert(dots.push(d)[0] == dots[0]);
        assert(dots.push(d).drop_first() =~= dots.drop_first().push(d));
        lemma_dots_bytes_push(dots.drop_first(), d);
        assert(dots_bytes(dots.push(d)) =~= dots_bytes(dots) + dot_bytes(d));
    }
}

/// Appends the instance-buffer image of `d` to `out`.
pub fn append_dot_bytes(out: &mut Vec<u8>, d: Dot)
    ensures
        final(out)@ == old(out)@ + dot_bytes(d),
{
    push_u32_le(out, d.x_bits);
    push_u32_le(out, d.y_bits);
    push_u32_le(out, d.radius_bits);
    push_u32_le(out, d.hardness_bits);
    push_u32_le(out, d.red_bits);
    push_u32_le(out, d.green_bits);
    push_u32_le(out, d.blue_bits);
    push_u32_le(out, d.alpha_bits);
    proof {
        assert(out@ =~= old(out)@ + dot_bytes(d));
    }
}

/// Builds the instance-buffer image of `dots`: each dot's eight fields
/// little-endian, dot after dot.
pub fn encode_dots(dots: &Vec<Dot>) -> (r: Vec<u8>)
    ensures
        r@ == dots_bytes(dots@),
        r@.len() == dots@.len() * DOT_BYTE_LEN,
{
    let mut out: Vec<u8> = Vec::new();
    let mut i: usize = 0;
    while i < dots.len()
        invariant
            i <= dots@.len(),
            out@ == dots_bytes(dots@.take(i as int)),
        decreases dots@.len() - i,
    {
        append_dot_bytes(&mut out, dots[i]);
        proof {
            assert(dots@.take(i as int).push(dots@[i as int]) =~= dots@.take(i + 1));
            lemma_dots_bytes_push(dots@.take(i as int), dots@[i as int]);
        }
        i = i + 1;
    }
    proof {
        assert(dots@.take(dots@.len() as int) =~= dots@);
        lemma_dots_bytes_len(dots@);
    }
    out
}

impl Dot {
    /// The instance stream's layout: stride of one dot, advancing per
    /// instance, with position, radius, hardness and colour bound at
    /// shader locations 1 through 4.
    pub fn vertex_buffer_desc() -> (r: VertexBufferLayoutDesc)
        ensures
            r.array_stride == DOT_BYTE_LEN,
            r.step_mode == VertexStepMode::PerInstance,
            r.attributes@ == seq![
                VertexAttributeDesc { shader_location: 1, offset: 0, format: VertexFormat::Vec2x32 },
                VertexAttributeDesc { shader_location: 2, offset: 8, format: VertexFormat::Scalar32 },
                VertexAttributeDesc { shader_location: 3, offset: 12, format: VertexFormat::Scalar32 },
                VertexAttributeDesc { shader_location: 4, offset: 16, format: VertexFormat::Vec4x32 },
            ],
            packed_layout(r),
    {
        let mut attributes: Vec<VertexAttributeDesc> = Vec::new();
        attributes.push(VertexAttributeDesc { shader_location: 1, offset: 0, format: VertexFormat::Vec2x32 });
        attributes.push(VertexAttributeDesc { shader_location: 2, offset: 8, format: VertexFormat::Scalar32 });
        attributes.push(VertexAttributeDesc { shader_location: 3, offset: 12, format: VertexFormat::Scalar32 });
        attributes.push(VertexAttributeDesc { shader_location: 4, offset: 16, format: VertexFormat::Vec4x32 });
        let r = VertexBufferLayoutDesc {
            array_stride: 32,
            step_mode: VertexStepMode::PerInstance,
            attributes,
        };
        proof {
            assert(r.attributes@ =~= seq![
                VertexAttributeDesc { shader_location: 1, offset: 0, format: VertexFormat::Vec2x32 },
                VertexAttributeDesc { shader_location: 2, offset: 8, format: VertexFormat::Scalar32 },
                VertexAttributeDesc { shader_location: 3, offset: 12, format: VertexFormat::Scalar32 },
                VertexAttributeDesc { shader_location: 4, offset: 16, format: VertexFormat::Vec4x32 },
            ]);
        }
        r
    }
}

} // verus!
