//! Vertex-buffer layout descriptors.
//!
//! The compositor pipeline reads two vertex streams: the shared quad
//! (advancing once per vertex) and the dot list (advancing once per
//! instance).  A layout descriptor records the stride, the step mode and
//! each attribute's shader location, byte offset and format, exactly as
//! the host hands them to pipeline creation.

use vstd::prelude::*;

verus! {

/// How often the stream advances during instanced drawing.
#[derive(Clone, Copy, Debug, PartialEq, Eq, Structural)]
pub enum VertexStepMode {
    /// Advance once per vertex of the shared geometry.
    PerVertex,
    /// Advance once per drawn instance.
    PerInstance,
}

/// The scalar shape of one vertex attribute.
#[derive(Clone, Copy, Debug, PartialEq, Eq, Structural)]
pub enum VertexFormat {
    /// One 32-bit lane.
    Scalar32,
    /// Two 32-bit lanes.
    Vec2x32,
    /// Four 32-bit lanes.
    Vec4x32,
}

/// Bytes occupied by one attribute of format `f`.
pub open spec fn vertex_format_size(f: VertexFormat) -> u64 {
    match f {
        VertexFormat::Scalar32 => 4,
        VertexFormat::Vec2x32 => 8,
        VertexFormat::Vec4x32 => 16,
    }
}

/// Bytes occupied by one attribute of format `f`.
pub fn vertex_format_byte_size(f: VertexFormat) -> (r: u64)
    ensures
        r == vertex_format_size(f),
{
    match f {
        VertexFormat::Scalar32 => 4,
        VertexFormat::Vec2x32 => 8,
        VertexFormat::Vec4x32 => 16,
    }
}

/// One attribute of a vertex stream as the shader sees it.
#[derive(Clone, Copy, Debug, PartialEq, Eq, Structural)]
pub struct VertexAttributeDesc {
    /// Location the shader binds this attribute at.
    pub shader_location: u32,
    /// Byte offset of the attribute inside one stream element.
    pub offset: u64,
    /// Scalar shape of the attribute.
    pub format: VertexFormat,
}

/// One vertex stream: its stride, step mode and attributes.
#[derive(Debug)]
pub struct VertexBufferLayoutDesc {
    /// Bytes between consecutive elements of the stream.
    pub array_stride: u64,
    /// How often the stream advances.
    pub step_mode: VertexStepMode,
    /// The attributes of one element, in declaration order.
    pub attributes: Vec<VertexAttributeDesc>,
}

/// The attributes lie end to end with no gaps and together cover the
/// whole stride, so the stream's byte image is exactly the attribute
/// fields in order.
pub open spec fn packed_layout(l: VertexBufferLayoutDesc) -> bool {
    &&& l.attributes@.len() > 0
    &&& l.attributes@[0].offset == 0
    &&& forall|i: int|
        0 < i < l.attributes@.len() ==> (#[trigger] l.attributes@[i]).offset
            == l.attributes@[i - 1].offset + vertex_format_size(l.attributes@[i - 1].format)
    &&& l.array_stride == l.attributes@.last().offset
        + vertex_format_size(l.attributes@.last().format)
}

} // verus!
