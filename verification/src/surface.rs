//! The offscreen compositor: shared pipeline state and per-surface
//! render targets.
//!
//! `GlobalSurface` holds what every offscreen surface shares: the quad
//! vertex buffer's contents and the descriptors for the compositing
//! pipeline and the render-target texture.  `HpSurface` owns one render
//! target: its dot list, the instance buffer's byte image, and a ghost
//! record of what the target's pixels were last rendered from.  The
//! pixels themselves live on the GPU; the model captures the fact that
//! a render pass determines them from the clear colour and the dot list
//! alone, so two renders of the same list produce the same pixels.

use vstd::prelude::*;
use crate::dot::Dot;
use crate::dot::DOT_BYTE_LEN;
use crate::dot::dots_bytes;
use crate::dot::encode_dots;
use crate::dot::lemma_dots_bytes_len;
use crate::geometry::QUAD_VERTEX_COUNT;
use crate::geometry::Vertex;
use crate::geometry::VERTEX_BYTE_LEN;
use crate::geometry::quad_vertices;
use crate::geometry::quad_vertices_spec;
use crate::geometry::encode_vertices;
use crate::geometry::vertices_bytes;
use crate::format::TextureFormat;
use crate::layout::VertexAttributeDesc;
use crate::layout::VertexBufferLayoutDesc;
use crate::layout::VertexFormat;
use crate::layout::VertexStepMode;
use crate::layout::packed_layout;

verus! {

/// Bit pattern of the 64-bit value one used in clear colours.
pub const CHANNEL_ONE_F64_BITS: u64 = 0x3FF0_0000_0000_0000;

/// Width and height of every offscreen render target, in pixels.
pub const TEXTURE_SIZE: u32 = 1024;

/// A render-pass clear colour.  Each channel holds the bit pattern of
/// the 64-bit value handed to the pass.
#[derive(Clone, Copy, Debug, PartialEq, Eq, Structural)]
pub struct ClearColor {
    /// Red channel.
    pub red_bits: u64,
    /// Green channel.
    pub green_bits: u64,
    /// Blue channel.
    pub blue_bits: u64,
    /// Alpha channel.
    pub alpha_bits: u64,
}

/// The offscreen background: opaque green, kept distinct from whatever
/// clear colour the host uses for its own pass.
pub open spec fn background_color_spec() -> ClearColor {
    ClearColor {
        red_bits: 0,
        green_bits: CHANNEL_ONE_F64_BITS,
        blue_bits: 0,
        alpha_bits: CHANNEL_ONE_F64_BITS,
    }
}

/// The offscreen background colour.
pub fn background_color() -> (r: ClearColor)
    ensures
        r == background_color_spec(),
{
    ClearColor {
        red_bits: 0,
        green_bits: CHANNEL_ONE_F64_BITS,
        blue_bits: 0,
        alpha_bits: CHANNEL_ONE_F64_BITS,
    }
}

/// Descriptor of the offscreen render-target texture.
#[derive(Clone, Copy, Debug, PartialEq, Eq, Structural)]
pub struct TextureDesc {
    /// Width in pixels.
    pub width: u32,
    /// Height in pixels.
    pub height: u32,
    /// Mip levels; always one.
    pub mip_level_count: u32,
    /// Samples per pixel; always one.
    pub sample_count: u32,
    /// Pixel format.
    pub format: TextureFormat,
    /// Usable as the colour attachment of a render pass.
    pub usage_render_attachment: bool,
    /// Usable as a sampled texture binding.
    pub usage_texture_binding: bool,
    /// Usable as the source of a copy.
    pub usage_copy_src: bool,
}

/// The fixed descriptor every offscreen target is allocated from: a
/// square texture drawn into by the compositor and sampled by the
/// presentation pass.
pub open spec fn offscreen_texture_desc_spec() -> TextureDesc {
    TextureDesc {
        width: TEXTURE_SIZE,
        height: TEXTURE_SIZE,
        mip_level_count: 1,
        sample_count: 1,
        format: TextureFormat::Rgba8UnormSrgb,
        usage_render_attachment: true,
        usage_texture_binding: true,
        usage_copy_src: true,
    }
}

/// How texels are addressed outside the unit square.
#[derive(Clone, Copy, Debug, PartialEq, Eq, Structural)]
pub enum AddressMode {
    /// Coordinates clamp to the edge texel.
    ClampToEdge,
    /// Coordinates wrap around.
    Repeat,
}

/// How texels are filtered when sampled.
#[derive(Clone, Copy, Debug, PartialEq, Eq, Structural)]
pub enum FilterMode {
    /// Linear interpolation between texels.
    Linear,
    /// Nearest texel.
    Nearest,
}

/// Descriptor of the sampler the presentation pass reads the offscreen
/// texture through.
#[derive(Clone, Copy, Debug, PartialEq, Eq, Structural)]
pub struct SamplerDesc {
    /// Addressing along u.
    pub address_mode_u: AddressMode,
    /// Addressing along v.
    pub address_mode_v: AddressMode,
    /// Addressing along w.
    pub address_mode_w: AddressMode,
    /// Filtering when magnified.
    pub mag_filter: FilterMode,
    /// Filtering when minified.
    pub min_filter: FilterMode,
    /// Filtering between mip levels.
    pub mipmap_filter: FilterMode,
}

/// The sampler every offscreen surface is created with:
/// clamp-to-edge, magnified linearly, minified to the nearest texel.
pub open spec fn offscreen_sampler_desc_spec() -> SamplerDesc {
    SamplerDesc {
        address_mode_u: AddressMode::ClampToEdge,
        address_mode_v: AddressMode::ClampToEdge,
        address_mode_w: AddressMode::ClampToEdge,
        mag_filter: FilterMode::Linear,
        min_filter: FilterMode::Nearest,
        mipmap_filter: FilterMode::Nearest,
    }
}

/// One input of a blend equation.
#[derive(Clone, Copy, Debug, PartialEq, Eq, Structural)]
pub enum BlendFactor {
    /// Zero.
    Zero,
    /// One.
    One,
    /// The source fragment's alpha.
    SrcAlpha,
    /// One minus the source fragment's alpha.
    OneMinusSrcAlpha,
}

/// The operation combining the two weighted blend inputs.
#[derive(Clone, Copy, Debug, PartialEq, Eq, Structural)]
pub enum BlendOperation {
    /// Source plus destination.
    Add,
}

/// One component (colour or alpha) of the blend state.
#[derive(Clone, Copy, Debug, PartialEq, Eq, Structural)]
pub struct BlendComponentDesc {
    /// Weight of the source fragment.
    pub src_factor: BlendFactor,
    /// Weight of the destination pixel.
    pub dst_factor: BlendFactor,
    /// How the weighted inputs combine.
    pub operation: BlendOperation,
}

/// Source-over colour blending: srcAlpha, 1 - srcAlpha, add.
pub open spec fn source_over_color_blend_spec() -> BlendComponentDesc {
    BlendComponentDesc {
        src_factor: BlendFactor::SrcAlpha,
        dst_factor: BlendFactor::OneMinusSrcAlpha,
        operation: BlendOperation::Add,
    }
}

/// Source-over alpha blending: one, 1 - srcAlpha, add.
pub open spec fn source_over_alpha_blend_spec() -> BlendComponentDesc {
    BlendComponentDesc {
        src_factor: BlendFactor::One,
        dst_factor: BlendFactor::OneMinusSrcAlpha,
        operation: BlendOperation::Add,
    }
}

/// Descriptor of the compositing pipeline: two vertex streams, no bind
/// groups, alpha blending into the offscreen format.
#[derive(Debug)]
pub struct CompositorPipelineDesc {
    /// Layout of the per-vertex quad stream, slot 0.
    pub vertex_layout: VertexBufferLayoutDesc,
    /// Layout of the per-instance dot stream, slot 1.
    pub instance_layout: VertexBufferLayoutDesc,
    /// Colour component of the blend state.
    pub color_blend: BlendComponentDesc,
    /// Alpha component of the blend state.
    pub alpha_blend: BlendComponentDesc,
    /// Format of the colour attachment the pipeline draws into.
    pub target_format: TextureFormat,
    /// Bind groups the pipeline layout declares; the fragment shader
    /// reads from instance attributes alone, so none.
    pub bind_group_count: usize,
}

/// The shared compositor state: the quad buffer's contents and the
/// descriptors every offscreen surface builds its resources from.
#[derive(Debug)]
pub struct GlobalSurface {
    /// The shared quad vertices.
    pub quad_vertices: Vec<Vertex>,
    /// Byte image of the quad vertex buffer.
    pub quad_bytes: Vec<u8>,
    /// Descriptor of every offscreen render target.
    pub texture_desc: TextureDesc,
    /// Descriptor of the compositing pipeline.
    pub pipeline_desc: CompositorPipelineDesc,
}

impl GlobalSurface {
    /// The compositor's invariant: the quad buffer mirrors the quad
    /// vertices, the pipeline reads the two declared streams with
    /// source-over blending, and it targets the offscreen format.
    pub open spec fn wf(self) -> bool {
        &&& self.quad_vertices@ == quad_vertices_spec()
        &&& self.quad_bytes@ == vertices_bytes(quad_vertices_spec())
        &&& self.texture_desc == offscreen_texture_desc_spec()
        &&& packed_layout(self.pipeline_desc.vertex_layout)
        &&& packed_layout(self.pipeline_desc.instance_layout)
        &&& self.pipeline_desc.vertex_layout.array_stride == VERTEX_BYTE_LEN
        &&& self.pipeline_desc.instance_layout.array_stride == DOT_BYTE_LEN
        &&& self.pipeline_desc.color_blend == source_over_color_blend_spec()
        &&& self.pipeline_desc.alpha_blend == source_over_alpha_blend_spec()
        &&& self.pipeline_desc.target_format == offscreen_texture_desc_spec().format
        &&& self.pipeline_desc.bind_group_count == 0
    }

    /// Builds the shared compositor state.  Creating the GPU pipeline
    /// and buffer from these descriptors is the host's part; a failure
    /// there is a fatal configuration error, not a runtime state.
    pub fn new() -> (r: Self)
        ensures
            r.wf(),
            r.quad_bytes@.len() == QUAD_VERTEX_COUNT * VERTEX_BYTE_LEN,
            r.pipeline_desc.vertex_layout.step_mode == VertexStepMode::PerVertex,
            r.pipeline_desc.vertex_layout.attributes@ == seq![
                VertexAttributeDesc { shader_location: 0, offset: 0, format: VertexFormat::Vec2x32 },
            ],
            r.pipeline_desc.instance_layout.step_mode == VertexStepMode::PerInstance,
            r.pipeline_desc.instance_layout.attributes@ == seq![
                VertexAttributeDesc { shader_location: 1, offset: 0, format: VertexFormat::Vec2x32 },
                VertexAttributeDesc { shader_location: 2, offset: 8, format: VertexFormat::Scalar32 },
                VertexAttributeDesc { shader_location: 3, offset: 12, format: VertexFormat::Scalar32 },
                VertexAttributeDesc { shader_location: 4, offset: 16, format: VertexFormat::Vec4x32 },
            ],
    {
        let quad = quad_vertices();
        let quad_bytes = encode_vertices(&quad);
        let vertex_layout = Vertex::vertex_buffer_desc();
        let instance_layout = Dot::vertex_buffer_desc();
        GlobalSurface {
            quad_vertices: quad,
            quad_bytes,
            texture_desc: TextureDesc {
                width: TEXTURE_SIZE,
                height: TEXTURE_SIZE,
                mip_level_count: 1,
                sample_count: 1,
                format: TextureFormat::Rgba8UnormSrgb,
                usage_render_attachment: true,
                usage_texture_binding: true,
                usage_copy_src: true,
            },
            pipeline_desc: CompositorPipelineDesc {
                vertex_layout,
                instance_layout,
                color_blend: BlendComponentDesc {
                    src_factor: BlendFactor::SrcAlpha,
                    dst_factor: BlendFactor::OneMinusSrcAlpha,
                    operation: BlendOperation::Add,
                },
                alpha_blend: BlendComponentDesc {
                    src_factor: BlendFactor::One,
                    dst_factor: BlendFactor::OneMinusSrcAlpha,
                    operation: BlendOperation::Add,
                },
                target_format: TextureFormat::Rgba8UnormSrgb,
                bind_group_count: 0,
            },
        }
    }
}

/// What a render target's pixels were last rendered from: nothing yet,
/// or the background colour composited with a dot list.  Rendering is
/// deterministic in these inputs, so equal records mean bit-identical
/// pixels.
pub type TextureContent = Option<Seq<Dot>>;

/// A target whose pixels are pure background: it was rendered from an
/// empty dot list, so no sprite pixel is set.
pub open spec fn texture_is_background(t: TextureContent) -> bool {
    t == Some(Seq::<Dot>::empty())
}

/// The offscreen surface's ghost state: its dot list, the instance
/// buffer's bytes, and what its texture was last rendered from.
pub struct HpSurfaceModel {
    /// The current dot list.
    pub dots: Seq<Dot>,
    /// The instance buffer's byte image.
    pub buffer: Seq<u8>,
    /// What the render target holds.
    pub texture: TextureContent,
}

/// Replacing the dot list re-uploads the instance buffer and leaves the
/// texture as it was.
pub open spec fn set_instances_model(m: HpSurfaceModel, dots: Seq<Dot>) -> HpSurfaceModel {
    HpSurfaceModel { dots, buffer: dots_bytes(dots), texture: m.texture }
}

/// Rendering overwrites the texture with the background composited
/// with the current dot list and touches nothing else.
pub open spec fn render_model(m: HpSurfaceModel) -> HpSurfaceModel {
    HpSurfaceModel { dots: m.dots, buffer: m.buffer, texture: Some(m.dots) }
}

/// What the host must submit for one offscreen render pass: clear the
/// target, then draw the quad once per dot.
#[derive(Clone, Copy, Debug, PartialEq, Eq, Structural)]
pub struct CompositeCommand {
    /// Colour the pass clears the target to.
    pub clear_color: ClearColor,
    /// Vertex-buffer slot the shared quad is bound at.
    pub quad_slot: u32,
    /// Vertex-buffer slot the instance buffer is bound at.
    pub instance_slot: u32,
    /// Vertices of the shared quad to draw.
    pub vertex_count: u32,
    /// Instances to draw: one per dot.
    pub instance_count: u32,
}

/// One offscreen surface: its dot list, the instance buffer image the
/// GPU copy must mirror, its sampler, and the ghost texture record.
pub struct HpSurface {
    /// The current dot list.
    pub instances: Vec<Dot>,
    /// Byte image of the instance buffer; re-created on every list
    /// change, never patched in place.
    pub instance_bytes: Vec<u8>,
    /// Descriptor of the texture this surface's target is allocated
    /// from, taken from the shared compositor.
    pub texture_desc: TextureDesc,
    /// Descriptor of the sampler the target is read through.
    pub sampler_desc: SamplerDesc,
    /// What the render target holds; `None` until the first render.
    pub texture: Ghost<TextureContent>,
}

/// The dot every fresh surface starts with: a soft red disc of radius
/// one tenth at the centre of the unit square.
pub open spec fn initial_dot_spec() -> Dot {
    Dot {
        x_bits: 0x3F00_0000,
        y_bits: 0x3F00_0000,
        radius_bits: 0x3DCC_CCCD,
        hardness_bits: 0x3F00_0000,
        red_bits: 0x3F80_0000,
        green_bits: 0,
        blue_bits: 0,
        alpha_bits: 0x3F80_0000,
    }
}

impl HpSurface {
    /// The surface's invariant: the instance buffer mirrors the dot
    /// list exactly, the list fits the draw call's 32-bit instance
    /// range, and the sampler is the fixed offscreen sampler.
    pub open spec fn wf(self) -> bool {
        &&& self.instance_bytes@ == dots_bytes(self.instances@)
        &&& self.instances@.len() <= u32::MAX
        &&& self.sampler_desc == offscreen_sampler_desc_spec()
    }

    /// The surface's ghost state.
    pub open spec fn model(self) -> HpSurfaceModel {
        HpSurfaceModel {
            dots: self.instances@,
            buffer: self.instance_bytes@,
            texture: self.texture@,
        }
    }

    /// Builds a surface over the shared compositor: the initial
    /// one-dot list, its uploaded buffer image, the compositor's
    /// texture descriptor and the fixed sampler.  The target's pixels
    /// are undefined until the first render.
    pub fn new(global: &GlobalSurface) -> (r: Self)
        ensures
            r.wf(),
            r.instances@ == seq![initial_dot_spec()],
            r.instance_bytes@ == dots_bytes(seq![initial_dot_spec()]),
            r.texture_desc == global.texture_desc,
            r.sampler_desc == offscreen_sampler_desc_spec(),
            r.texture@ == None::<Seq<Dot>>,
    {
        let mut instances: Vec<Dot> = Vec::new();
        instances.push(Dot {
            x_bits: 0x3F00_0000,
            y_bits: 0x3F00_0000,
            radius_bits: 0x3DCC_CCCD,
            hardness_bits: 0x3F00_0000,
            red_bits: 0x3F80_0000,
            green_bits: 0,
            blue_bits: 0,
            alpha_bits: 0x3F80_0000,
        });
        proof {
            assert(instances@ =~= seq![initial_dot_spec()]);
        }
        let instance_bytes = encode_dots(&instances);
        HpSurface {
            instances,
            instance_bytes,
            texture_desc: global.texture_desc,
            sampler_desc: SamplerDesc {
                address_mode_u: AddressMode::ClampToEdge,
                address_mode_v: AddressMode::ClampToEdge,
                address_mode_w: AddressMode::ClampToEdge,
                mag_filter: FilterMode::Linear,
                min_filter: FilterMode::Nearest,
                mipmap_filter: FilterMode::Nearest,
            },
            texture: Ghost(None),
        }
    }

    /// Replaces the dot list and rebuilds the instance buffer image so
    /// the two match before the next render.  The buffer is fully
    /// replaced, never patched, since the count may grow or shrink.
    pub fn set_instances(&mut self, dots: Vec<Dot>)
        requires
            old(self).wf(),
            dots@.len() <= u32::MAX,
        ensures
            final(self).wf(),
            final(self).model() == set_instances_model(old(self).model(), dots@),
            final(self).instances@ == dots@,
            final(self).instance_bytes@ == dots_bytes(dots@),
            final(self).instance_bytes@.len() == dots@.len() * DOT_BYTE_LEN,
            final(self).texture@ == old(self).texture@,
            final(self).texture_desc == old(self).texture_desc,
            final(self).sampler_desc == old(self).sampler_desc,
    {
        self.instance_bytes = encode_dots(&dots);
        self.instances = dots;
    }

    /// Issues one offscreen render: clear the owned target to the
    /// background, draw the quad for every dot in the current list.
    /// Afterwards the texture holds exactly the background composited
    /// with the current list — an empty list leaves pure background.
    pub fn render(&mut self) -> (cmd: CompositeCommand)
        requires
            old(self).wf(),
        ensures
            final(self).wf(),
            final(self).model() == render_model(old(self).model()),
            final(self).instances@ == old(self).instances@,
            final(self).instance_bytes@ == old(self).instance_bytes@,
            final(self).texture_desc == old(self).texture_desc,
            final(self).sampler_desc == old(self).sampler_desc,
            final(self).texture@ == Some(old(self).instances@),
            cmd.clear_color == background_color_spec(),
            cmd.quad_slot == 0,
            cmd.instance_slot == 1,
            cmd.vertex_count == QUAD_VERTEX_COUNT,
            cmd.instance_count == old(self).instances@.len(),
            old(self).instances@.len() == 0 ==> texture_is_background(final(self).texture@),
    {
        let count: u32 = self.instances.len() as u32;
        self.texture = Ghost(Some(self.instances@));
        proof {
            if self.instances@.len() == 0 {
                assert(self.instances@ =~= Seq::<Dot>::empty());
            }
        }
        CompositeCommand {
            clear_color: background_color(),
            quad_slot: 0,
            instance_slot: 1,
            vertex_count: QUAD_VERTEX_COUNT,
            instance_count: count,
        }
    }
}

/// For any dot list of length `n` the uploaded instance buffer holds
/// exactly `n * DOT_BYTE_LEN` bytes.
pub proof fn lemma_instance_buffer_len(m: HpSurfaceModel, dots: Seq<Dot>)
    ensures
        set_instances_model(m, dots).buffer.len() == dots.len() * DOT_BYTE_LEN,
{
    lemma_dots_bytes_len(dots);
}

/// The instance buffer of a well-formed surface holds exactly one
/// stride-sized record per dot of the compositor's declared instance
/// layout, so instanced drawing steps through it without remainder.
pub proof fn lemma_buffer_matches_instance_stride(g: GlobalSurface, s: HpSurface)
    requires
        g.wf(),
        s.wf(),
    ensures
        s.instance_bytes@.len() == s.instances@.len()
            * g.pipeline_desc.instance_layout.array_stride,
{
    lemma_dots_bytes_len(s.instances@);
}

/// A render of an empty dot list leaves the target pure background:
/// no sprite pixel is set.
pub proof fn lemma_render_empty_is_background(m: HpSurfaceModel)
    requires
        m.dots.len() == 0,
    ensures
        texture_is_background(render_model(m).texture),
{
    assert(m.dots =~= Seq::<Dot>::empty());
}

/// Round trip: uploading list `a`, then list `b`, then `a` again, and
/// rendering after each upload, ends with the same texture contents as
/// the first render of `a` — no residual state from `b`.
pub proof fn lemma_render_round_trip(m: HpSurfaceModel, a: Seq<Dot>, b: Seq<Dot>)
    ensures
        ({
            let first = render_model(set_instances_model(m, a));
            let second = render_model(set_instances_model(first, b));
            let third = render_model(set_instances_model(second, a));
            third.texture == first.texture && third == first
        }),
{
}

} // verus!
