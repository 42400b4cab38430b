use dot_compositor::dot::encode_dots;
use dot_compositor::dot::Dot;
use dot_compositor::dot::DOT_BYTE_LEN;
use dot_compositor::format::is_renderable;
use dot_compositor::format::TextureFormat;
use dot_compositor::geometry::QUAD_VERTEX_COUNT;
use dot_compositor::surface::background_color;
use dot_compositor::surface::AddressMode;
use dot_compositor::surface::BlendFactor;
use dot_compositor::surface::BlendOperation;
use dot_compositor::surface::FilterMode;
use dot_compositor::surface::GlobalSurface;
use dot_compositor::surface::HpSurface;
use dot_compositor::surface::TEXTURE_SIZE;
use dot_compositor::surface_view::PresentationError;
use dot_compositor::surface_view::ShaderStage;
use dot_compositor::surface_view::SurfaceRenderResources;

fn dot(pos: (f32, f32), radius: f32, hardness: f32, color: (f32, f32, f32, f32)) -> Dot {
    Dot {
        x_bits: pos.0.to_bits(),
        y_bits: pos.1.to_bits(),
        radius_bits: radius.to_bits(),
        hardness_bits: hardness.to_bits(),
        red_bits: color.0.to_bits(),
        green_bits: color.1.to_bits(),
        blue_bits: color.2.to_bits(),
        alpha_bits: color.3.to_bits(),
    }
}

fn some_dots() -> Vec<Dot> {
    vec![
        dot((0.1, 0.2), 0.05, 0.5, (1.0, 0.0, 0.0, 1.0)),
        dot((-0.3, 0.4), 0.08, 0.1, (0.0, 1.0, 0.0, 0.8)),
        dot((0.7, -0.6), 0.02, 0.9, (0.0, 0.0, 1.0, 0.3)),
    ]
}

#[test]
fn compositor_targets_fixed_square_texture() {
    let g = GlobalSurface::new();
    assert_eq!(g.texture_desc.width, TEXTURE_SIZE);
    assert_eq!(g.texture_desc.height, TEXTURE_SIZE);
    assert_eq!(g.texture_desc.mip_level_count, 1);
    assert_eq!(g.texture_desc.sample_count, 1);
    assert_eq!(g.texture_desc.format, TextureFormat::Rgba8UnormSrgb);
    assert!(g.texture_desc.usage_render_attachment);
    assert!(g.texture_desc.usage_texture_binding);
    assert!(g.texture_desc.usage_copy_src);
    assert_eq!(g.pipeline_desc.target_format, TextureFormat::Rgba8UnormSrgb);
    assert_eq!(g.pipeline_desc.bind_group_count, 0);
}

#[test]
fn compositor_blends_source_over() {
    let g = GlobalSurface::new();
    assert_eq!(g.pipeline_desc.color_blend.src_factor, BlendFactor::SrcAlpha);
    assert_eq!(g.pipeline_desc.color_blend.dst_factor, BlendFactor::OneMinusSrcAlpha);
    assert_eq!(g.pipeline_desc.color_blend.operation, BlendOperation::Add);
    assert_eq!(g.pipeline_desc.alpha_blend.src_factor, BlendFactor::One);
    assert_eq!(g.pipeline_desc.alpha_blend.dst_factor, BlendFactor::OneMinusSrcAlpha);
    assert_eq!(g.pipeline_desc.alpha_blend.operation, BlendOperation::Add);
}

#[test]
fn compositor_quad_buffer_holds_six_vertices() {
    let g = GlobalSurface::new();
    assert_eq!(g.quad_vertices.len(), 6);
    assert_eq!(g.quad_bytes.len(), 48);
}

#[test]
fn fresh_surface_starts_with_one_centred_dot() {
    let g = GlobalSurface::new();
    let s = HpSurface::new(&g);
    assert_eq!(s.instances.len(), 1);
    let d = s.instances[0];
    assert_eq!(d.x_bits, 0.5f32.to_bits());
    assert_eq!(d.y_bits, 0.5f32.to_bits());
    assert_eq!(d.radius_bits, 0.1f32.to_bits());
    assert_eq!(d.hardness_bits, 0.5f32.to_bits());
    assert_eq!(d.red_bits, 1.0f32.to_bits());
    assert_eq!(d.green_bits, 0);
    assert_eq!(d.blue_bits, 0);
    assert_eq!(d.alpha_bits, 1.0f32.to_bits());
    assert_eq!(s.instance_bytes.len(), DOT_BYTE_LEN);
    assert_eq!(s.texture_desc, g.texture_desc);
    assert_eq!(s.sampler_desc.address_mode_u, AddressMode::ClampToEdge);
    assert_eq!(s.sampler_desc.address_mode_v, AddressMode::ClampToEdge);
    assert_eq!(s.sampler_desc.address_mode_w, AddressMode::ClampToEdge);
    assert_eq!(s.sampler_desc.mag_filter, FilterMode::Linear);
    assert_eq!(s.sampler_desc.min_filter, FilterMode::Nearest);
    assert_eq!(s.sampler_desc.mipmap_filter, FilterMode::Nearest);
}

#[test]
fn instance_buffer_length_tracks_dot_count() {
    let g = GlobalSurface::new();
    let mut s = HpSurface::new(&g);
    for n in [0usize, 1, 3] {
        let dots: Vec<Dot> = some_dots().into_iter().cycle().take(n).collect();
        s.set_instances(dots);
        assert_eq!(s.instances.len(), n);
        assert_eq!(s.instance_bytes.len(), n * DOT_BYTE_LEN);
        let cmd = s.render();
        assert_eq!(cmd.instance_count, n as u32);
        assert_eq!(cmd.vertex_count, QUAD_VERTEX_COUNT);
        assert_eq!(cmd.quad_slot, 0);
        assert_eq!(cmd.instance_slot, 1);
    }
}

#[test]
fn render_clears_to_green_background() {
    let bg = background_color();
    assert_eq!(bg.red_bits, 0.0f64.to_bits());
    assert_eq!(bg.green_bits, 1.0f64.to_bits());
    assert_eq!(bg.blue_bits, 0.0f64.to_bits());
    assert_eq!(bg.alpha_bits, 1.0f64.to_bits());
    let g = GlobalSurface::new();
    let mut s = HpSurface::new(&g);
    let cmd = s.render();
    assert_eq!(cmd.clear_color, bg);
}

#[test]
fn empty_upload_clears_previously_populated_surface() {
    let g = GlobalSurface::new();
    let mut s = HpSurface::new(&g);
    s.set_instances(some_dots());
    s.render();
    s.set_instances(Vec::new());
    let cmd = s.render();
    assert_eq!(cmd.instance_count, 0);
    assert_eq!(cmd.vertex_count, QUAD_VERTEX_COUNT);
    assert!(s.instance_bytes.is_empty());
}

#[test]
fn single_red_dot_uploads_expected_instance_record() {
    let g = GlobalSurface::new();
    let mut s = HpSurface::new(&g);
    let d = dot((0.0, 0.0), 0.1, 0.5, (1.0, 0.0, 0.0, 1.0));
    s.set_instances(vec![d]);
    let cmd = s.render();
    assert_eq!(cmd.instance_count, 1);
    let mut expected: Vec<u8> = Vec::new();
    for v in [0.0f32, 0.0, 0.1, 0.5, 1.0, 0.0, 0.0, 1.0] {
        expected.extend_from_slice(&v.to_bits().to_le_bytes());
    }
    assert_eq!(s.instance_bytes, expected);
}

#[test]
fn reuploading_a_list_restores_its_exact_buffer() {
    let g = GlobalSurface::new();
    let mut s = HpSurface::new(&g);
    let list_a = some_dots();
    let list_b = vec![dot((0.9, 0.9), 0.5, 0.5, (1.0, 1.0, 1.0, 1.0))];
    s.set_instances(list_a.clone());
    s.render();
    let first = s.instance_bytes.clone();
    s.set_instances(list_b);
    s.render();
    assert_ne!(s.instance_bytes, first);
    s.set_instances(list_a.clone());
    s.render();
    assert_eq!(s.instance_bytes, first);
    assert_eq!(s.instance_bytes, encode_dots(&list_a));
}

#[test]
fn bridge_construction_accepts_matching_renderable_format() {
    let g = GlobalSurface::new();
    let s = HpSurface::new(&g);
    let b = SurfaceRenderResources::new(s, TextureFormat::Bgra8UnormSrgb, TextureFormat::Bgra8UnormSrgb);
    let b = b.expect("matching renderable format must be accepted");
    assert_eq!(b.pipeline_desc.target_format, TextureFormat::Bgra8UnormSrgb);
    assert_eq!(b.pipeline_desc.uniform_binding.binding, 0);
    assert_eq!(b.pipeline_desc.uniform_binding.visibility, ShaderStage::Vertex);
    assert_eq!(b.pipeline_desc.uniform_binding.min_binding_size, 16);
    assert_eq!(b.pipeline_desc.texture_binding.binding, 0);
    assert_eq!(b.pipeline_desc.texture_binding.visibility, ShaderStage::Fragment);
    assert!(b.pipeline_desc.texture_binding.filterable);
    assert!(!b.pipeline_desc.texture_binding.multisampled);
    assert_eq!(b.pipeline_desc.sampler_binding.binding, 1);
    assert_eq!(b.pipeline_desc.sampler_binding.visibility, ShaderStage::Fragment);
    assert!(b.pipeline_desc.sampler_binding.filtering);
    assert_eq!(b.pipeline_desc.vertex_buffer_count, 0);
    assert_eq!(b.uniform_bytes, vec![0u8; 16]);
}

#[test]
fn bridge_construction_rejects_mismatched_format() {
    let g = GlobalSurface::new();
    let s = HpSurface::new(&g);
    let b = SurfaceRenderResources::new(s, TextureFormat::Rgba8UnormSrgb, TextureFormat::Bgra8UnormSrgb);
    assert_eq!(b.err(), Some(PresentationError::FormatMismatch));
}

#[test]
fn bridge_construction_rejects_non_renderable_format() {
    assert!(!is_renderable(TextureFormat::Rgba8Snorm));
    let g = GlobalSurface::new();
    let s = HpSurface::new(&g);
    let b = SurfaceRenderResources::new(s, TextureFormat::Rgba8Snorm, TextureFormat::Rgba8Snorm);
    assert_eq!(b.err(), Some(PresentationError::UnsupportedFormat));
}

#[test]
fn prepare_rewrites_uniforms_and_renders_current_dots() {
    let g = GlobalSurface::new();
    let mut s = HpSurface::new(&g);
    s.set_instances(some_dots());
    let mut b = SurfaceRenderResources::new(s, TextureFormat::Rgba8Unorm, TextureFormat::Rgba8Unorm)
        .expect("construction");
    let cmd = b.prepare(7);
    assert_eq!(cmd.instance_count, 3);
    assert_eq!(cmd.vertex_count, QUAD_VERTEX_COUNT);
    assert_eq!(cmd.clear_color, background_color());
    assert_eq!(&b.uniform_bytes[0..4], &[7, 0, 0, 0]);
    assert_eq!(&b.uniform_bytes[4..16], &[0u8; 12]);
}

#[test]
fn paint_issues_one_full_screen_draw() {
    let g = GlobalSurface::new();
    let s = HpSurface::new(&g);
    let mut b = SurfaceRenderResources::new(s, TextureFormat::Rgba8Unorm, TextureFormat::Rgba8Unorm)
        .expect("construction");
    b.prepare(1);
    let paint = b.paint(TextureFormat::Rgba8Unorm);
    assert_eq!(paint.uniform_group_index, 0);
    assert_eq!(paint.texture_group_index, 1);
    assert_eq!(paint.vertex_count, 6);
    assert_eq!(paint.instance_count, 1);
}

#[test]
fn try_paint_refuses_foreign_pass_format() {
    let g = GlobalSurface::new();
    let s = HpSurface::new(&g);
    let b = SurfaceRenderResources::new(s, TextureFormat::Rgba8Unorm, TextureFormat::Rgba8Unorm)
        .expect("construction");
    assert!(b.try_paint(TextureFormat::Bgra8UnormSrgb).is_none());
    assert!(b.try_paint(TextureFormat::Rgba8Unorm).is_some());
}

#[test]
fn drive_frame_orders_prepare_before_paint() {
    let g = GlobalSurface::new();
    let mut s = HpSurface::new(&g);
    s.set_instances(some_dots());
    let mut b = SurfaceRenderResources::new(s, TextureFormat::Bgra8Unorm, TextureFormat::Bgra8Unorm)
        .expect("construction");
    let (composite, paint) = b.drive_frame(42, TextureFormat::Bgra8Unorm);
    assert_eq!(composite.instance_count, 3);
    assert_eq!(paint.vertex_count, 6);
    assert_eq!(&b.uniform_bytes[0..4], &[42, 0, 0, 0]);
}
