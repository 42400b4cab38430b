//! The presentation bridge and per-frame driver.
//!
//! `SurfaceRenderResources` wraps one offscreen surface and the second
//! pipeline that samples its texture inside a render pass the host
//! hands over each frame.  Construction fixes the pass format the
//! pipeline targets, so a mismatched host format is rejected up front
//! rather than failing at paint time.  Each frame runs `prepare` (the
//! offscreen render plus the uniform rewrite) strictly before `paint`
//! (the full-screen draw into the host's pass).

use vstd::prelude::*;
use crate::format::TextureFormat;
use crate::format::format_is_renderable;
use crate::format::is_renderable;
use crate::surface::CompositeCommand;
use crate::surface::HpSurface;
use crate::surface::HpSurfaceModel;
use crate::surface::render_model;
use crate::surface::background_color_spec;
use crate::geometry::QUAD_VERTEX_COUNT;
use crate::uniforms::UNIFORM_BYTE_LEN;
use crate::uniforms::Uniforms;
use crate::uniforms::encode_uniforms;
use crate::uniforms::frame_uniforms_spec;
use crate::uniforms::uniforms_bytes;

verus! {

/// Pipeline stage a binding is visible to.
#[derive(Clone, Copy, Debug, PartialEq, Eq, Structural)]
pub enum ShaderStage {
    /// The vertex stage.
    Vertex,
    /// The fragment stage.
    Fragment,
}

/// The uniform-buffer binding of the presentation pipeline.
#[derive(Clone, Copy, Debug, PartialEq, Eq, Structural)]
pub struct UniformBindingDesc {
    /// Binding index within its group.
    pub binding: u32,
    /// Stage the binding is visible to.
    pub visibility: ShaderStage,
    /// Least byte size the bound buffer must have.
    pub min_binding_size: u64,
}

/// The sampled-texture binding of the presentation pipeline.
#[derive(Clone, Copy, Debug, PartialEq, Eq, Structural)]
pub struct TextureBindingDesc {
    /// Binding index within its group.
    pub binding: u32,
    /// Stage the binding is visible to.
    pub visibility: ShaderStage,
    /// Whether the bound view is multisampled.
    pub multisampled: bool,
    /// Whether the texture may be read through a filtering sampler.
    pub filterable: bool,
}

/// The sampler binding of the presentation pipeline.
#[derive(Clone, Copy, Debug, PartialEq, Eq, Structural)]
pub struct SamplerBindingDesc {
    /// Binding index within its group.
    pub binding: u32,
    /// Stage the binding is visible to.
    pub visibility: ShaderStage,
    /// Whether the sampler filters; must match the texture binding.
    pub filtering: bool,
}

/// Descriptor of the presentation pipeline: no vertex buffers (the
/// shader synthesizes the full-screen geometry from the vertex index),
/// group 0 for the uniforms, group 1 for texture and sampler.
#[derive(Clone, Copy, Debug, PartialEq, Eq, Structural)]
pub struct PresentationPipelineDesc {
    /// Format of the host pass the pipeline draws into.
    pub target_format: TextureFormat,
    /// Group 0, binding 0: the uniform buffer, vertex-stage visible.
    pub uniform_binding: UniformBindingDesc,
    /// Group 1, binding 0: the offscreen texture, fragment-stage
    /// visible, filterable.
    pub texture_binding: TextureBindingDesc,
    /// Group 1, binding 1: the filtering sampler.
    pub sampler_binding: SamplerBindingDesc,
    /// Vertex buffers the pipeline reads; none.
    pub vertex_buffer_count: usize,
}

/// The presentation pipeline descriptor for a host pass of format
/// `format`.
pub open spec fn presentation_pipeline_desc_spec(format: TextureFormat) -> PresentationPipelineDesc {
    PresentationPipelineDesc {
        target_format: format,
        uniform_binding: UniformBindingDesc {
            binding: 0,
            visibility: ShaderStage::Vertex,
            min_binding_size: UNIFORM_BYTE_LEN as u64,
        },
        texture_binding: TextureBindingDesc {
            binding: 0,
            visibility: ShaderStage::Fragment,
            multisampled: false,
            filterable: true,
        },
        sampler_binding: SamplerBindingDesc {
            binding: 1,
            visibility: ShaderStage::Fragment,
            filtering: true,
        },
        vertex_buffer_count: 0,
    }
}

/// Why constructing a presentation bridge failed.  Both are fatal
/// configuration errors: the platform or the requested format is wrong,
/// and no later frame can mend that.
#[derive(Clone, Copy, Debug, PartialEq, Eq, Structural)]
pub enum PresentationError {
    /// The requested target format is not the host pass's format.
    FormatMismatch,
    /// The requested format cannot be a colour attachment.
    UnsupportedFormat,
}

/// What the host must issue inside its render pass for one
/// presentation draw: bind the pipeline and both groups, then draw the
/// full-screen geometry once.  Nothing here allocates GPU resources.
#[derive(Clone, Copy, Debug, PartialEq, Eq, Structural)]
pub struct PaintCommand {
    /// Index the uniform bind group is attached at.
    pub uniform_group_index: u32,
    /// Index the texture-and-sampler bind group is attached at.
    pub texture_group_index: u32,
    /// Vertices of the synthesized full-screen geometry.
    pub vertex_count: u32,
    /// Instances to draw: exactly one.
    pub instance_count: u32,
}

/// The one presentation draw: group 0, group 1, six vertices, one
/// instance.
pub open spec fn paint_command_spec() -> PaintCommand {
    PaintCommand {
        uniform_group_index: 0,
        texture_group_index: 1,
        vertex_count: QUAD_VERTEX_COUNT,
        instance_count: 1,
    }
}

/// The presentation bridge: the offscreen surface it owns, the
/// descriptor of its pipeline, and the uniform buffer's byte image.
pub struct SurfaceRenderResources {
    /// The offscreen surface whose texture the bridge samples.
    pub surface: HpSurface,
    /// Descriptor of the presentation pipeline.
    pub pipeline_desc: PresentationPipelineDesc,
    /// Byte image of the uniform buffer.
    pub uniform_bytes: Vec<u8>,
}

impl SurfaceRenderResources {
    /// The bridge's invariant: a well-formed surface, the fixed
    /// pipeline shape over a renderable target format, and a uniform
    /// image of the declared binding size.
    pub open spec fn wf(self) -> bool {
        &&& self.surface.wf()
        &&& self.pipeline_desc == presentation_pipeline_desc_spec(self.pipeline_desc.target_format)
        &&& format_is_renderable(self.pipeline_desc.target_format)
        &&& self.uniform_bytes@.len() == UNIFORM_BYTE_LEN
    }

    /// The bridge was constructed for host passes of format `format`.
    pub open spec fn constructed_for(self, format: TextureFormat) -> bool {
        self.pipeline_desc.target_format == format
    }

    /// Whether a paint into a pass of format `pass_format` is valid.
    pub open spec fn paint_allowed(self, pass_format: TextureFormat) -> bool {
        self.pipeline_desc.target_format == pass_format
    }

    /// Builds the bridge for host passes of format `host_format`,
    /// requesting `target_format` for its pipeline.  Succeeds exactly
    /// when the requested format is the host's and is usable as a
    /// colour attachment; a mismatch is rejected here, never at paint
    /// time.  The uniform buffer starts zeroed (frame zero).
    pub fn new(surface: HpSurface, target_format: TextureFormat, host_format: TextureFormat) -> (r:
        Result<Self, PresentationError>)
        requires
            surface.wf(),
        ensures
            ({
                match r {
                    Ok(b) => target_format == host_format && format_is_renderable(target_format)
                        && b.wf() && b.constructed_for(host_format) && b.surface == surface
                        && b.uniform_bytes@ == uniforms_bytes(frame_uniforms_spec(0)),
                    Err(PresentationError::FormatMismatch) => target_format != host_format,
                    Err(PresentationError::UnsupportedFormat) => target_format == host_format
                        && !format_is_renderable(target_format),
                }
            }),
    {
        if target_format != host_format {
            return Err(PresentationError::FormatMismatch);
        }
        if !is_renderable(target_format) {
            return Err(PresentationError::UnsupportedFormat);
        }
        let initial = Uniforms::for_frame(0);
        let uniform_bytes = encode_uniforms(&initial);
        Ok(SurfaceRenderResources {
            surface,
            pipeline_desc: PresentationPipelineDesc {
                target_format,
                uniform_binding: UniformBindingDesc {
                    binding: 0,
                    visibility: ShaderStage::Vertex,
                    min_binding_size: 16,
                },
                texture_binding: TextureBindingDesc {
                    binding: 0,
                    visibility: ShaderStage::Fragment,
                    multisampled: false,
                    filterable: true,
                },
                sampler_binding: SamplerBindingDesc {
                    binding: 1,
                    visibility: ShaderStage::Fragment,
                    filtering: true,
                },
                vertex_buffer_count: 0,
            },
            uniform_bytes,
        })
    }

    /// Refreshes the frame's inputs, strictly before `paint`: renders
    /// the offscreen surface so its texture reflects the current dot
    /// list, and rewrites the uniform record for `frame`.  The returned
    /// command is what the host submits for the offscreen pass.
    pub fn prepare(&mut self, frame: u32) -> (cmd: CompositeCommand)
        requires
            old(self).wf(),
        ensures
            final(self).wf(),
            final(self).pipeline_desc == old(self).pipeline_desc,
            final(self).surface.model() == render_model(old(self).surface.model()),
            final(self).surface.texture@ == Some(old(self).surface.instances@),
            final(self).surface.instances@ == old(self).surface.instances@,
            final(self).uniform_bytes@ == uniforms_bytes(frame_uniforms_spec(frame)),
            cmd.clear_color == background_color_spec(),
            cmd.quad_slot == 0,
            cmd.instance_slot == 1,
            cmd.vertex_count == QUAD_VERTEX_COUNT,
            cmd.instance_count == old(self).surface.instances@.len(),
    {
        let cmd = self.surface.render();
        let u = Uniforms::for_frame(frame);
        self.uniform_bytes = encode_uniforms(&u);
        cmd
    }

    /// The presentation draw into a host pass of format `pass_format`:
    /// valid only for the format the bridge was constructed for, which
    /// the caller must have checked when it built the bridge.
    pub fn paint(&self, pass_format: TextureFormat) -> (cmd: PaintCommand)
        requires
            self.wf(),
            self.paint_allowed(pass_format),
        ensures
            cmd == paint_command_spec(),
    {
        PaintCommand {
            uniform_group_index: 0,
            texture_group_index: 1,
            vertex_count: QUAD_VERTEX_COUNT,
            instance_count: 1,
        }
    }

    /// `paint`, with the format check made at run time: hands back the
    /// draw exactly when the pass format is the one the bridge was
    /// constructed for.
    pub fn try_paint(&self, pass_format: TextureFormat) -> (r: Option<PaintCommand>)
        requires
            self.wf(),
        ensures
            r is Some <==> self.paint_allowed(pass_format),
            r is Some ==> r->0 == paint_command_spec(),
    {
        let own: TextureFormat = self.pipeline_desc.target_format;
        if own == pass_format {
            Some(self.paint(pass_format))
        } else {
            None
        }
    }

    /// One whole frame in the required order: `prepare` (offscreen
    /// render, uniform rewrite), then `paint` into the host's pass.
    pub fn drive_frame(&mut self, frame: u32, pass_format: TextureFormat) -> (r: (
        CompositeCommand,
        PaintCommand,
    ))
        requires
            old(self).wf(),
            old(self).paint_allowed(pass_format),
        ensures
            final(self).wf(),
            final(self).pipeline_desc == old(self).pipeline_desc,
            final(self).surface.model() == render_model(old(self).surface.model()),
            final(self).uniform_bytes@ == uniforms_bytes(frame_uniforms_spec(frame)),
            r.0.clear_color == background_color_spec(),
            r.0.vertex_count == QUAD_VERTEX_COUNT,
            r.0.instance_count == old(self).surface.instances@.len(),
            r.1 == paint_command_spec(),
    {
        let composite = self.prepare(frame);
        let paint = self.paint(pass_format);
        (composite, paint)
    }
}

/// Preparing twice with no intervening dot-list change leaves the
/// texture exactly as the first prepare did: rendering is
/// deterministic in the dot list, so the contents are bit-identical.
pub proof fn lemma_prepare_idempotent(m: HpSurfaceModel)
    ensures
        render_model(render_model(m)) == render_model(m),
        render_model(render_model(m)).texture == render_model(m).texture,
{
}

/// A bridge constructed for host format `host` accepts a paint pass of
/// format `f` exactly when `f` is `host`: a draw into any other format
/// was already ruled out at construction.
pub proof fn lemma_paint_format_exclusive(b: SurfaceRenderResources, host: TextureFormat, f: TextureFormat)
    requires
        b.constructed_for(host),
    ensures
        b.paint_allowed(f) <==> f == host,
{
}

} // verus!
