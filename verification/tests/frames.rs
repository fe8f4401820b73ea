use gpui_wgpu::device::{
    AdapterInfo, Backend, DeviceFeatures, DeviceLimits, DeviceType, Size, TexelFormat,
    TextureDimension,
};
use gpui_wgpu::draw::{
    DrawBinding, DrawCall, DrawTexture, FrameCommand, FrameError, FrameTargets, GlobalsKind,
    InstanceResource, InstanceSource, InstanceUpload, PassTarget, PipelineKind, PlaneView,
};
use gpui_wgpu::drawing::{
    AcquiredAction, CommandBuffer, CurrentSurfaceTexture, DrawAction, RecordError,
};
use gpui_wgpu::external::{
    ExternalFrameOutcome, ExternalNv12Frame, ExternalOwnership, GpuContextHandle, GpuHandles,
    PreparedExternalFrame, SharedTexture,
};
use gpui_wgpu::external_state::{ExternalFrame, ExternalFrameRequest, ExternalFrameSlot};
use gpui_wgpu::frame::FrameRecorder;
use gpui_wgpu::frame_steps::{FrameAction, FrameEvent, FrameStage};
use gpui_wgpu::instances::{InstanceError, InstanceMemory};
use gpui_wgpu::params::{Bounds, Nv12ColorTransform};
use gpui_wgpu::path_records::{
    path_rasterization_vertices, path_sprite_bytes, path_sprites, path_vertex_bytes,
    surface_instance,
};
use gpui_wgpu::renderer::{
    create_msaa_if_needed, create_path_intermediate, Platform, RendererDevice,
    RenderingParameters, WgpuRenderer,
};
use gpui_wgpu::scene::{
    PaintSurface, PathVertex, PrimitiveBatch, Scene, ScenePath, ScissorRect, SurfaceContent,
};
use gpui_wgpu::surface_config::{
    CompositeAlphaMode, PresentMode, SurfaceCapabilities, SurfaceFormat, SurfaceSetup,
    WgpuSurfaceConfig,
};
use gpui_wgpu::vulkan_sync::VulkanExternalSync;

struct Handles;

impl GpuHandles for Handles {
    type Texture = ();
    type SyncFile = i32;
    type Semaphore = u64;
    type Lease = ();
    type Atlas = &'static str;
    type PixelBuffer = ();
    type RgbaSource = ();
    type Nv12Source = ();
}

type Renderer = WgpuRenderer<Handles>;

fn limits() -> DeviceLimits {
    DeviceLimits {
        max_texture_dimension_2d: 2048,
        min_uniform_buffer_offset_alignment: 256,
        min_storage_buffer_offset_alignment: 256,
        max_buffer_size: 1 << 30,
        max_storage_buffer_binding_size: 1 << 27,
    }
}

fn capabilities() -> SurfaceCapabilities {
    SurfaceCapabilities {
        formats: vec![SurfaceFormat::Bgra8Unorm],
        alpha_modes: vec![CompositeAlphaMode::Opaque, CompositeAlphaMode::PreMultiplied],
        present_modes: vec![PresentMode::Fifo, PresentMode::Mailbox],
    }
}

fn config() -> WgpuSurfaceConfig {
    WgpuSurfaceConfig {
        size: Size { width: 800, height: 600 },
        transparent: false,
        preferred_present_mode: Some(PresentMode::Mailbox),
    }
}

fn renderer_on(platform: Platform, backend: Backend) -> Renderer {
    let setup = SurfaceSetup::select(&capabilities(), &config(), 2048).unwrap();
    let device = RendererDevice {
        platform,
        adapter_info: AdapterInfo {
            name: String::from("adapter"),
            driver: String::from("driver"),
            driver_info: String::from("info"),
            backend,
            device_type: DeviceType::Cpu,
        },
        limits: limits(),
        features: DeviceFeatures { native: 0x2000_0000, web: 0x4000 },
        uses_webgl_instance_data: false,
        supports_dual_source_blending: true,
    };
    let params = RenderingParameters::new(0x2 | 0x4, [1, 2, 3, 4], 5, 6);
    WgpuRenderer::new_internal(setup, device, params, "atlas")
}

fn renderer() -> Renderer {
    renderer_on(Platform::Linux, Backend::Vulkan)
}

fn empty_scene() -> Scene {
    Scene {
        quads: 0,
        shadows: 0,
        underlines: 0,
        monochrome_sprites: 0,
        subpixel_sprites: 0,
        polychrome_sprites: 0,
        paths: vec![],
        surfaces: vec![],
        batches: vec![],
    }
}

fn surface(x: u32, content: SurfaceContent) -> PaintSurface {
    PaintSurface {
        visible: true,
        bounds: Bounds { x, y: 0, width: 1, height: 1 },
        content_mask: Bounds { x: 0, y: x, width: 1, height: 1 },
        scissor_rect: ScissorRect { x, y: 0, width: 1, height: 1 },
        content,
    }
}

fn picture(texture: u64) -> SurfaceContent {
    SurfaceContent::WgpuTexture { texture }
}

fn all_targets() -> FrameTargets {
    FrameTargets { subpixel_sprites: true, path_intermediate: true, path_msaa: true }
}

fn recorder(uses_webgl: bool) -> FrameRecorder {
    FrameRecorder::new(InstanceMemory::new(&limits(), uses_webgl))
}

fn draws(recorder: &FrameRecorder) -> Vec<DrawCall> {
    recorder
        .commands
        .iter()
        .filter_map(|command| match command {
            FrameCommand::Draw(draw) => Some(*draw),
            _ => None,
        })
        .collect()
}

fn shape(recorder: &FrameRecorder) -> Vec<&'static str> {
    recorder
        .commands
        .iter()
        .map(|command| match command {
            FrameCommand::BeginPass(pass) => pass.label,
            FrameCommand::EndPass => "end",
            FrameCommand::Draw(_) => "draw",
        })
        .collect()
}

#[test]
fn scene_primitives_are_bound_in_order() {
    let mut frame = recorder(false);
    let scene = Scene { quads: 2, shadows: 1, ..empty_scene() };
    assert_eq!(frame.write_instances(&scene), Ok(()));
    let labels: Vec<&str> = frame.bindings.iter().map(|binding| binding.label).collect();
    assert_eq!(
        labels,
        vec![
            "quads_bind_group",
            "shadows_bind_group",
            "underlines_bind_group",
            "monochrome_sprites_bind_group",
            "subpixel_sprites_bind_group",
            "polychrome_sprites_bind_group",
        ]
    );
    let offsets: Vec<u64> =
        frame.bindings.iter().map(|binding| binding.allocation.offset).collect();
    assert_eq!(offsets, vec![0, 512, 768, 1024, 1280, 1536]);
    assert!(matches!(frame.bindings[0].upload(), InstanceUpload::Buffer { offset: 0 }));
    assert!(matches!(frame.bindings[2].upload(), InstanceUpload::Nothing));
    assert_eq!(
        frame.bindings[0].resource(),
        InstanceResource::Buffer { offset: 0, size: 320 }
    );
}

#[test]
fn oversized_scene_is_refused() {
    let mut frame = recorder(false);
    let scene = Scene { shadows: 1 << 24, ..empty_scene() };
    assert_eq!(
        frame.write_instances(&scene),
        Err(InstanceError::RequiredAboveMaximum {
            required: 112 << 24,
            maximum: 1 << 27,
        })
    );
    assert_eq!(frame.bindings.len(), 1);
}

#[test]
fn batches_are_drawn_in_order_with_their_own_pipelines() {
    let mut frame = recorder(false);
    let scene = Scene {
        quads: 5,
        shadows: 4,
        underlines: 3,
        monochrome_sprites: 2,
        subpixel_sprites: 2,
        polychrome_sprites: 1,
        batches: vec![
            PrimitiveBatch::Shadows(0..4),
            PrimitiveBatch::Quads(1..3),
            PrimitiveBatch::Quads(3..3),
            PrimitiveBatch::Underlines(0..3),
            PrimitiveBatch::MonochromeSprites { texture_id: 7, range: 0..1 },
            PrimitiveBatch::SubpixelSprites { texture_id: 8, range: 1..2 },
            PrimitiveBatch::PolychromeSprites { texture_id: 9, range: 0..1 },
        ],
        ..empty_scene()
    };
    frame.write_instances(&scene).unwrap();
    assert_eq!(frame.record_scene(&scene, &all_targets()), Ok(()));
    assert_eq!(
        shape(&frame),
        vec!["main_pass", "draw", "draw", "draw", "draw", "draw", "draw", "end"]
    );
    let drawn: Vec<(PipelineKind, DrawTexture, u32, u32)> = draws(&frame)
        .iter()
        .map(|draw| (draw.pipeline, draw.texture, draw.instances.start, draw.instances.end))
        .collect();
    assert_eq!(
        drawn,
        vec![
            (PipelineKind::Shadows, DrawTexture::Nothing, 0, 4),
            (PipelineKind::Quads, DrawTexture::Nothing, 1, 3),
            (PipelineKind::Underlines, DrawTexture::Nothing, 0, 3),
            (PipelineKind::MonoSprites, DrawTexture::Atlas(7), 0, 1),
            (PipelineKind::SubpixelSprites, DrawTexture::Atlas(8), 1, 2),
            (PipelineKind::PolySprites, DrawTexture::Atlas(9), 0, 1),
        ]
    );
}

#[test]
fn subpixel_sprites_fall_back_to_the_monochrome_pipeline() {
    let mut frame = recorder(false);
    let scene = Scene {
        subpixel_sprites: 1,
        batches: vec![PrimitiveBatch::SubpixelSprites { texture_id: 8, range: 0..1 }],
        ..empty_scene()
    };
    frame.write_instances(&scene).unwrap();
    let targets = FrameTargets { subpixel_sprites: false, ..all_targets() };
    frame.record_scene(&scene, &targets).unwrap();
    let draw = draws(&frame)[0];
    assert_eq!(draw.pipeline, PipelineKind::MonoSprites);
    assert_eq!(draw.binding, DrawBinding::Instances(4));
}

#[test]
fn webgl_draws_are_offset_by_their_first_record() {
    let mut frame = recorder(true);
    let scene = Scene {
        quads: 3,
        shadows: 2,
        batches: vec![PrimitiveBatch::Shadows(1..2)],
        ..empty_scene()
    };
    frame.write_instances(&scene).unwrap();
    frame.record_scene(&scene, &all_targets()).unwrap();
    assert_eq!(frame.bindings[1].allocation.offset, 560);
    assert_eq!(frame.bindings[1].allocation.first_instance, 5);
    let draw = draws(&frame)[0];
    assert_eq!((draw.instances.start, draw.instances.end), (6, 7));
    assert_eq!(frame.bindings[1].resource(), InstanceResource::Texture);
    match frame.bindings[1].upload() {
        InstanceUpload::Texels(upload) => {
            assert_eq!(upload.dropped, 0);
            assert_eq!(upload.writes.len(), 1);
            assert_eq!(upload.writes[0].x, 35);
            assert_eq!(upload.writes[0].texels, 14);
        }
        _ => panic!("records go into the texture"),
    }
}

fn path(order: u32, vertex_count: usize) -> ScenePath {
    let vertex = PathVertex { xy_position: [1, 2], st_position: [3, order] };
    ScenePath {
        order,
        color: [order + 10; 18],
        clipped_bounds: Bounds { x: order, y: 5, width: 6, height: 7 },
        vertices: vec![vertex; vertex_count],
    }
}

fn paths_scene(orders: &[u32]) -> Scene {
    let paths: Vec<ScenePath> = orders.iter().map(|order| path(*order, 3)).collect();
    let count = paths.len();
    Scene { paths, batches: vec![PrimitiveBatch::Paths(0..count)], ..empty_scene() }
}

#[test]
fn path_records_follow_path_after_path() {
    let scene = Scene { paths: vec![path(1, 1), path(2, 2), path(3, 1)], ..empty_scene() };
    let records = path_rasterization_vertices(&scene, 1..3);
    assert_eq!(records.len(), 3);
    assert_eq!(records[0], records[1]);
    assert_eq!(records[1].st_position, [3, 2]);
    assert_eq!(records[1].color, [12; 18]);
    assert_eq!(records[1].bounds.origin, [2, 5]);
    assert_eq!(records[2].color, [13; 18]);
    let bytes = path_vertex_bytes(&records);
    assert_eq!(bytes.len(), 3 * 104);
    let words: Vec<u32> = bytemuck::pod_collect_to_vec(&bytes);
    let mut expected = vec![1, 2, 3, 3];
    expected.extend([13; 18]);
    expected.extend([3, 5, 6, 7]);
    assert_eq!(words[52..], expected[..]);
    assert!(path_rasterization_vertices(&scene, 1..1).is_empty());
}

#[test]
fn paths_are_drawn_as_their_bounds_or_as_the_union() {
    let scene = Scene { paths: vec![path(1, 1), path(2, 2)], ..empty_scene() };
    let union = Bounds { x: 9, y: 9, width: 9, height: 9 };
    let sprites = path_sprites(&scene, 0..2, false, union);
    assert_eq!(sprites.len(), 2);
    assert_eq!((sprites[1].origin, sprites[1].size), ([2, 5], [6, 7]));
    let words: Vec<u32> = bytemuck::pod_collect_to_vec(&path_sprite_bytes(&sprites));
    assert_eq!(words, vec![1, 5, 6, 7, 2, 5, 6, 7]);
    let merged = path_sprites(&scene, 0..2, true, union);
    let words: Vec<u32> = bytemuck::pod_collect_to_vec(&path_sprite_bytes(&merged));
    assert_eq!(words, vec![9, 9, 9, 9]);

    let scene = scene_of(2);
    let instance = surface_instance(&scene, 0);
    assert_eq!(instance.bounds.origin, [scene.surfaces[0].bounds.x, scene.surfaces[0].bounds.y]);
}

#[test]
fn paths_interrupt_the_main_pass() {
    let mut frame = recorder(false);
    let scene = paths_scene(&[4, 4]);
    frame.write_instances(&scene).unwrap();
    frame.record_scene(&scene, &all_targets()).unwrap();
    assert_eq!(
        shape(&frame),
        vec![
            "main_pass",
            "end",
            "path_rasterization_pass",
            "draw",
            "end",
            "main_pass_continued",
            "draw",
            "end",
        ]
    );
    let passes: Vec<(PassTarget, Option<PassTarget>, bool)> = frame
        .commands
        .iter()
        .filter_map(|command| match command {
            FrameCommand::BeginPass(pass) => {
                Some((pass.target, pass.resolve_target, pass.clear))
            }
            _ => None,
        })
        .collect();
    assert_eq!(
        passes,
        vec![
            (PassTarget::Frame, None, true),
            (PassTarget::PathMsaa, Some(PassTarget::PathIntermediate), true),
            (PassTarget::Frame, None, false),
        ]
    );
    let draws = draws(&frame);
    assert_eq!(draws[0].pipeline, PipelineKind::PathRasterization);
    assert_eq!(draws[0].globals, GlobalsKind::Paths);
    assert_eq!((draws[0].vertices.start, draws[0].vertices.end), (0, 6));
    assert_eq!((draws[0].instances.start, draws[0].instances.end), (0, 1));
    assert_eq!(draws[1].pipeline, PipelineKind::Paths);
    assert_eq!(draws[1].texture, DrawTexture::PathIntermediate);
    assert_eq!((draws[1].instances.start, draws[1].instances.end), (0, 2));
    assert_eq!(
        frame.bindings[7].source,
        InstanceSource::PathSprites { start: 0, end: 2, merged: false }
    );
}

#[test]
fn paths_of_several_orders_are_drawn_as_their_union() {
    let mut frame = recorder(false);
    let scene = paths_scene(&[4, 4, 5]);
    frame.write_instances(&scene).unwrap();
    let targets = FrameTargets { path_msaa: false, ..all_targets() };
    frame.record_scene(&scene, &targets).unwrap();
    assert_eq!(
        frame.bindings[7].source,
        InstanceSource::PathSprites { start: 0, end: 3, merged: true }
    );
    assert_eq!(frame.bindings[7].count, 1);
    assert!(frame.commands.iter().any(|command| matches!(
        command,
        FrameCommand::BeginPass(pass)
            if pass.target == PassTarget::PathIntermediate && pass.resolve_target.is_none()
    )));
}

#[test]
fn paths_without_vertices_or_texture_are_not_drawn() {
    let mut frame = recorder(false);
    let scene = Scene {
        paths: vec![path(1, 0)],
        batches: vec![PrimitiveBatch::Paths(0..1), PrimitiveBatch::Paths(1..1)],
        ..empty_scene()
    };
    frame.write_instances(&scene).unwrap();
    frame.record_scene(&scene, &all_targets()).unwrap();
    assert_eq!(shape(&frame), vec!["main_pass", "end", "main_pass_continued", "end"]);

    let mut frame = recorder(false);
    let scene = paths_scene(&[1]);
    frame.write_instances(&scene).unwrap();
    let targets = FrameTargets { path_intermediate: false, ..all_targets() };
    frame.record_scene(&scene, &targets).unwrap();
    assert_eq!(shape(&frame), vec!["main_pass", "end", "main_pass_continued", "end"]);
    assert_eq!(frame.bindings.len(), 7);
}

#[test]
fn oversized_paths_end_the_recording() {
    let mut frame = recorder(false);
    let scene = Scene {
        paths: vec![path(1, 1 << 21)],
        batches: vec![PrimitiveBatch::Paths(0..1), PrimitiveBatch::Surfaces(0..0)],
        ..empty_scene()
    };
    frame.write_instances(&scene).unwrap();
    assert_eq!(
        frame.record_scene(&scene, &all_targets()),
        Err(FrameError::Paths(InstanceError::RequiredAboveMaximum {
            required: 104 << 21,
            maximum: 1 << 27,
        }))
    );
    assert_eq!(shape(&frame), vec!["main_pass", "end"]);
}

#[test]
fn pictures_are_drawn_before_video() {
    let mut frame = recorder(false);
    let transform = Nv12ColorTransform::default();
    let mut hidden = surface(9, picture(9));
    hidden.visible = false;
    let scene = Scene {
        surfaces: vec![
            surface(1, SurfaceContent::WgpuTextureNv12 { y_texture: 1, cb_cr_texture: 2 }),
            surface(2, picture(3)),
            hidden,
            surface(3, SurfaceContent::Platform),
            surface(
                4,
                SurfaceContent::WgpuTextureNv12Multiplanar {
                    texture: 5,
                    color_transform: transform,
                },
            ),
            surface(5, picture(6)),
        ],
        batches: vec![PrimitiveBatch::Surfaces(0..6)],
        ..empty_scene()
    };
    frame.write_instances(&scene).unwrap();
    frame.record_scene(&scene, &all_targets()).unwrap();
    let drawn: Vec<(PipelineKind, DrawBinding, u32)> = draws(&frame)
        .iter()
        .map(|draw| (draw.pipeline, draw.binding, draw.scissor_rect.unwrap().x))
        .collect();
    assert_eq!(
        drawn,
        vec![
            (PipelineKind::SurfaceRgba, DrawBinding::Instances(6), 2),
            (PipelineKind::SurfaceRgba, DrawBinding::Instances(7), 5),
            (PipelineKind::Surfaces, DrawBinding::Video(0), 1),
            (PipelineKind::Surfaces, DrawBinding::Video(1), 4),
        ]
    );
    assert_eq!(frame.bindings[6].texture, Some(3));
    assert_eq!(frame.bindings[7].source, InstanceSource::Surface { index: 5 });
    assert!(matches!(frame.videos[0].y_view, PlaneView::Whole { texture: 1 }));
    assert!(matches!(
        frame.videos[1].cb_cr_view,
        PlaneView::Plane { texture: 5, descriptor } if descriptor.format == TexelFormat::Rg8Unorm
    ));
    assert_eq!(frame.videos[0].params.yuv_to_rgb, transform.yuv_to_rgb);
    assert_eq!(frame.videos[0].params.bounds.origin, [1, 0]);
    assert_eq!(frame.videos[0].params.content_mask.origin, [0, 1]);
}

#[test]
fn surfaces_that_do_not_fit_end_the_recording() {
    let small = DeviceLimits { max_buffer_size: 1600, ..limits() };
    let mut frame = FrameRecorder::new(InstanceMemory::new(&small, false));
    let scene = Scene {
        surfaces: vec![surface(1, picture(1)), surface(2, picture(2))],
        batches: vec![PrimitiveBatch::Surfaces(0..2)],
        ..empty_scene()
    };
    frame.write_instances(&scene).unwrap();
    assert_eq!(
        frame.record_scene(&scene, &all_targets()),
        Err(FrameError::SurfacesExhausted)
    );
    assert_eq!(shape(&frame), vec!["main_pass"]);
    assert_eq!(frame.bindings.len(), 7);
}

#[test]
fn renderer_starts_configured() {
    let mut renderer = renderer();
    assert_eq!(renderer.viewport_size(), Size { width: 800, height: 600 });
    assert_eq!(renderer.rendering_params.path_sample_count, 4);
    assert_eq!(*renderer.sprite_atlas(), "atlas");
    assert!(renderer.supports_dual_source_blending());
    assert_eq!(renderer.max_texture_size(), 2048);
    assert!(!renderer.needs_redraw());
    assert_eq!(renderer.uniforms.gamma_offset, 512);
    let specs = renderer.gpu_specs();
    assert!(specs.is_software_emulated);
    assert_eq!(specs.device_name, "adapter");
    assert_eq!(specs.driver_name, "driver");
    assert_eq!(specs.driver_info, "info");
    assert_eq!(renderer.take_external_frame_outcome(), None);
}

#[test]
fn path_samples_are_the_most_that_the_format_allows() {
    let samples = |flags| RenderingParameters::new(flags, [0; 4], 0, 0).path_sample_count;
    let flags = wgpu::TextureFormatFeatureFlags::MULTISAMPLE_X4;
    assert_eq!(samples(flags.bits()), 4);
    let flags = wgpu::TextureFormatFeatureFlags::MULTISAMPLE_X2
        | wgpu::TextureFormatFeatureFlags::MULTISAMPLE_X8;
    assert_eq!(samples(flags.bits()), 2);
    assert_eq!(samples(wgpu::TextureFormatFeatureFlags::MULTISAMPLE_X16.bits()), 1);
}

#[test]
fn path_textures_are_as_large_as_the_surface() {
    let format = SurfaceFormat::Bgra8Unorm;
    let intermediate = create_path_intermediate(format, 0, 7);
    assert_eq!((intermediate.width, intermediate.height), (1, 7));
    assert_eq!(intermediate.format, TexelFormat::Surface(format));
    assert!(intermediate.usage.texture_binding);
    assert_eq!(intermediate.dimension, TextureDimension::D2);
    assert_eq!((intermediate.depth_or_array_layers, intermediate.mip_level_count), (1, 1));
    assert!(create_msaa_if_needed(format, 4, 4, 1).is_none());
    let msaa = create_msaa_if_needed(format, 4, 5, 4).unwrap();
    assert_eq!((msaa.label, msaa.height, msaa.sample_count), ("path_msaa", 5, 4));
    assert!(!msaa.usage.texture_binding);

    let mut renderer = renderer();
    let (intermediate, msaa) = renderer.ensure_intermediate_textures().unwrap();
    assert_eq!((intermediate.width, intermediate.height), (800, 600));
    assert_eq!(msaa.unwrap().sample_count, 4);
    assert!(renderer.ensure_intermediate_textures().is_none());
}

#[test]
fn resizing_reconfigures_once_and_drops_path_textures() {
    let mut renderer = renderer();
    renderer.ensure_intermediate_textures();
    assert!(renderer.update_drawable_size(Size { width: 800, height: 600 }).is_none());
    let resize = renderer.update_drawable_size(Size { width: 640, height: 480 }).unwrap();
    assert!(!resize.clamped);
    assert_eq!(resize.reconfigure.unwrap().width, 640);
    assert!(renderer.resources().path_intermediate.is_none());
    assert!(renderer.update_drawable_size(Size { width: 640, height: 480 }).is_none());
    let resize = renderer.update_drawable_size(Size { width: 9999, height: 0 }).unwrap();
    assert!(resize.clamped);
    assert_eq!(renderer.viewport_size(), Size { width: 2048, height: 1 });
    renderer.destroy();
    let resize = renderer.update_drawable_size(Size { width: 10, height: 10 }).unwrap();
    assert_eq!(resize.reconfigure, None);
    assert_eq!(renderer.viewport_size(), Size { width: 10, height: 10 });
}

#[test]
fn transparency_changes_mode_and_pipelines() {
    let mut renderer = renderer();
    assert!(renderer.update_transparency(false).is_none());
    let config = renderer.update_transparency(true).unwrap();
    assert_eq!(config.alpha_mode, CompositeAlphaMode::PreMultiplied);
    let (globals, path_globals, gamma) = renderer.uniform_params(1, 2);
    assert_eq!(globals.premultiplied_alpha, 1);
    assert_eq!(path_globals.premultiplied_alpha, 0);
    assert_eq!(gamma.is_bgr, 0);
    renderer.set_subpixel_layout(true);
    assert_eq!(renderer.uniform_params(1, 2).2.is_bgr, 1);
    assert!(renderer.update_transparency(true).is_none());
    renderer.resources_mut().path_msaa = None;
    renderer.destroy();
    assert!(renderer.update_transparency(false).is_none());
    assert_eq!(renderer.surface_config.alpha_mode, CompositeAlphaMode::Opaque);
}

#[test]
fn surface_can_be_taken_away_and_replaced() {
    let mut renderer = renderer();
    renderer.ensure_intermediate_textures();
    renderer.unconfigure_surface();
    let mut error = Some(String::from("kept"));
    let start = renderer.draw(false, &mut error);
    assert_eq!(start.action, DrawAction::Stop);
    assert_eq!(error.as_deref(), Some("kept"));
    let request = WgpuSurfaceConfig {
        size: Size { width: 0, height: 3000 },
        transparent: true,
        preferred_present_mode: None,
    };
    let config =
        renderer.replace_surface(&request, &vec![PresentMode::Fifo, PresentMode::Mailbox]);
    assert_eq!((config.width, config.height), (1, 3000));
    assert_eq!(config.alpha_mode, CompositeAlphaMode::PreMultiplied);
    assert_eq!(config.present_mode, PresentMode::Fifo);
    assert_eq!(renderer.surface_config, config);
    assert!(renderer.resources().path_intermediate.is_none());
    let start = renderer.draw(false, &mut error);
    assert_eq!(start.action, DrawAction::AcquireTexture);
    assert_eq!(start.failure, Some((1, String::from("kept"))));
    assert_eq!(error, None);
}

#[test]
fn replaced_surface_is_asked_for_the_preferred_mode() {
    let mut renderer = renderer();
    assert_eq!(renderer.surface_config.present_mode, PresentMode::Mailbox);
    let request = |preferred_present_mode| WgpuSurfaceConfig {
        size: Size { width: 8, height: 8 },
        transparent: false,
        preferred_present_mode,
    };
    let supported = vec![PresentMode::Fifo, PresentMode::Immediate];
    let config = renderer.replace_surface(&request(Some(PresentMode::Immediate)), &supported);
    assert_eq!(config.present_mode, PresentMode::Immediate);
    let config = renderer.replace_surface(&request(Some(PresentMode::Mailbox)), &supported);
    assert_eq!(config.present_mode, PresentMode::Fifo);
    renderer.replace_surface(&request(Some(PresentMode::Immediate)), &supported);
    let config = renderer.replace_surface(&request(None), &supported);
    assert_eq!(config.present_mode, PresentMode::Fifo);
}

#[test]
fn sixth_failure_in_a_row_clears_what_is_cached() {
    let mut renderer = renderer();
    for round in 0..2 {
        for count in 1..6 {
            let start = renderer.draw(false, &mut Some(String::from("error")));
            assert_eq!(start.action, DrawAction::AcquireTexture);
            assert_eq!(start.failure.unwrap().0, count);
        }
        let start = renderer.draw(false, &mut Some(String::from("error")));
        assert_eq!(start.action, DrawAction::ClearAtlas, "round {}", round);
        assert!(renderer.needs_redraw());
        assert!(!renderer.needs_redraw());
    }
    renderer.draw(false, &mut Some(String::from("error")));
    assert_eq!(renderer.failed_frame_count, 1);
    renderer.draw(false, &mut None);
    assert_eq!(renderer.failed_frame_count, 0);
}

#[test]
fn lost_browser_context_stops_drawing() {
    let mut renderer = renderer_on(Platform::Browser, Backend::Gl);
    assert_eq!(renderer.draw(true, &mut None).action, DrawAction::ReportLostContext);
    assert_eq!(renderer.draw(true, &mut None).action, DrawAction::Stop);
    assert_eq!(renderer.draw(false, &mut None).action, DrawAction::Stop);
    let mut renderer = renderer_on(Platform::Linux, Backend::Vulkan);
    assert_eq!(renderer.draw(true, &mut None).action, DrawAction::AcquireTexture);
}

#[test]
fn surface_answers_are_acted_on() {
    let renderer = renderer();
    let mut error = None;
    let reconfigure = AcquiredAction::Reconfigure(renderer.surface_config);
    for (answer, action) in [
        (CurrentSurfaceTexture::Success, AcquiredAction::Draw),
        (CurrentSurfaceTexture::Suboptimal, reconfigure),
        (CurrentSurfaceTexture::Lost, reconfigure),
        (CurrentSurfaceTexture::Outdated, reconfigure),
        (CurrentSurfaceTexture::Timeout, AcquiredAction::Stop),
        (CurrentSurfaceTexture::Occluded, AcquiredAction::Stop),
    ] {
        assert_eq!(renderer.texture_acquired(answer, &mut error), action);
        assert_eq!(error, None);
    }
    assert_eq!(
        renderer.texture_acquired(CurrentSurfaceTexture::Validation, &mut error),
        AcquiredAction::Stop
    );
    assert_eq!(error.as_deref(), Some("Surface texture validation error"));
}

#[test]
fn recovery_asks_for_the_same_surface() {
    let mut renderer = renderer();
    assert!(!renderer.recover(Some(false)));
    assert!(renderer.resources.is_some());
    assert!(renderer.recover(Some(true)));
    assert!(renderer.resources.is_none());
    assert!(renderer.recover(None));
    let asked = renderer.recovery_config();
    assert_eq!(asked.size, Size { width: 800, height: 600 });
    assert!(!asked.transparent);
    assert_eq!(asked.preferred_present_mode, Some(PresentMode::Mailbox));
    let setup = SurfaceSetup::select(&capabilities(), &asked, 700).unwrap();
    assert_eq!((setup.config.width, setup.config.height), (700, 600));
    assert_eq!(setup.config.present_mode, PresentMode::Mailbox);
}

fn texture(id: u64) -> SharedTexture<Handles> {
    SharedTexture { id, texture: () }
}

fn external(id: u64) -> PreparedExternalFrame<Handles> {
    PreparedExternalFrame {
        external_sync: Some(VulkanExternalSync::new(17)),
        initial_state: 0x10,
        ownership: Some(ExternalOwnership::External),
        texture: texture(id),
    }
}

fn scene_of(id: u64) -> Scene {
    Scene {
        surfaces: vec![surface(1, picture(id))],
        batches: vec![PrimitiveBatch::Surfaces(0..1)],
        ..empty_scene()
    }
}

#[test]
fn external_frame_is_shown_after_its_submission() {
    let mut renderer = renderer();
    renderer.ensure_intermediate_textures();
    let scene = scene_of(2);
    assert_eq!(
        renderer.submit_external_frame(ExternalFrame::Prepared(external(2))),
        ExternalFrameOutcome::Accepted
    );
    assert_eq!(
        renderer.take_external_frame_outcome(),
        Some(ExternalFrameOutcome::Accepted)
    );
    let (mut frame, barrier) = renderer.start_frame(&scene, None);
    let barrier = barrier.unwrap().unwrap();
    let slot = frame.selection.unwrap();
    assert!(frame.external);
    assert_eq!(renderer.acquire_recorded(slot, true), Ok(()));
    assert_eq!(renderer.record_scene(&mut frame, &scene), Ok(()));
    let release = renderer.release(slot).unwrap().unwrap();
    assert_eq!(release.queue_family, barrier.queue_family);
    assert_eq!(renderer.release_recorded(slot, true), Ok(()));
    assert_eq!(renderer.import_sync(slot, true), Ok(Some(17)));
    assert_eq!(renderer.import_sync_finished(5, Ok(())), Ok(1));
    assert_eq!(
        frame.submission(),
        vec![CommandBuffer::Acquire, CommandBuffer::Render, CommandBuffer::Release]
    );
    assert!(renderer.displayed_external_frame().is_none());
    let work = renderer.frame_submitted(frame.selection).unwrap();
    assert_eq!(work.texture, 2);
    assert_eq!(renderer.displayed_external_frame().unwrap().texture().id, 2);
    assert_eq!(renderer.take_external_frame_outcome(), None);

    assert_eq!(renderer.clear_external_frame(), ExternalFrameOutcome::Accepted);
    assert!(renderer.displayed_external_frame().is_none());
    let (frame, barrier) = renderer.start_frame(&scene, None);
    assert!(barrier.unwrap().is_none());
    assert_eq!(frame.selection, None);
    assert_eq!(frame.submission(), vec![CommandBuffer::Render]);
}

#[test]
fn frame_without_external_image_is_encoded_and_submitted() {
    let mut renderer = renderer();
    let scene = Scene {
        quads: 2,
        batches: vec![PrimitiveBatch::Quads(0..2)],
        ..empty_scene()
    };
    let (mut course, action) = renderer.record_frame(&scene, None);
    assert!(matches!(action, FrameAction::Encode));
    assert_eq!(course.stage, FrameStage::Encoding);
    assert_eq!(draws(&course.frame.recorder).len(), 1);
    let action = renderer.advance(&mut course, &scene, FrameEvent::Encoded);
    assert!(matches!(action, FrameAction::Submit { wait: None }));
    assert_eq!(course.frame.submission(), vec![CommandBuffer::Render]);
    let action = renderer.advance(&mut course, &scene, FrameEvent::Submitted);
    assert!(matches!(action, FrameAction::Retain(None)));
    assert_eq!(course.stage, FrameStage::Finished);
}

#[test]
fn external_image_is_taken_over_before_and_given_back_after_the_scene() {
    let mut renderer = renderer();
    let scene = scene_of(2);
    renderer.submit_external_frame(ExternalFrame::Prepared(external(2)));
    let (mut course, action) = renderer.record_frame(&scene, None);
    assert!(matches!(
        action,
        FrameAction::RecordAcquire { slot: ExternalFrameSlot::Latest, acquire }
            if acquire.queue_family == 0xFFFF_FFFE
    ));
    assert!(course.frame.recorder.commands.is_empty());
    let action = renderer.advance(&mut course, &scene, FrameEvent::AcquireRecorded(true));
    assert!(matches!(action, FrameAction::Encode));
    assert_eq!(draws(&course.frame.recorder).len(), 1);
    let action = renderer.advance(&mut course, &scene, FrameEvent::Encoded);
    assert!(matches!(
        action,
        FrameAction::RecordRelease { slot: ExternalFrameSlot::Latest, release }
            if release.queue_family == 0xFFFF_FFFE
    ));
    let event = FrameEvent::ReleaseRecorded { recorded: true, hal_queue: true };
    let action = renderer.advance(&mut course, &scene, event);
    assert!(matches!(action, FrameAction::ImportSync { file: 17 }));
    let event = FrameEvent::SyncAnswered { semaphore: 5, answer: Ok(()) };
    let action = renderer.advance(&mut course, &scene, event);
    assert!(matches!(action, FrameAction::Submit { wait: Some(1) }));
    assert!(renderer.displayed_external_frame().is_none());
    let action = renderer.advance(&mut course, &scene, FrameEvent::Submitted);
    let FrameAction::Retain(Some(work)) = action else {
        panic!("nothing to retain");
    };
    assert_eq!(work.texture, 2);
    assert_eq!(renderer.displayed_external_frame().unwrap().texture().id, 2);

    let (mut course, action) = renderer.record_frame(&scene, None);
    assert!(matches!(
        action,
        FrameAction::RecordAcquire { slot: ExternalFrameSlot::Displayed, .. }
    ));
    renderer.advance(&mut course, &scene, FrameEvent::AcquireRecorded(true));
    renderer.advance(&mut course, &scene, FrameEvent::Encoded);
    let event = FrameEvent::ReleaseRecorded { recorded: true, hal_queue: true };
    let action = renderer.advance(&mut course, &scene, event);
    assert!(matches!(action, FrameAction::Submit { wait: None }));
}

#[test]
fn failing_events_end_the_frame() {
    let shown = || {
        let mut renderer = renderer();
        renderer.submit_external_frame(ExternalFrame::Prepared(external(2)));
        let (course, _) = renderer.record_frame(&scene_of(2), None);
        (renderer, course)
    };
    let scene = scene_of(2);

    let (mut renderer, mut course) = shown();
    let action = renderer.advance(&mut course, &scene, FrameEvent::AcquireRecorded(false));
    assert!(matches!(action, FrameAction::Fail(RecordError::ExternalAcquire)));
    assert_eq!(course.stage, FrameStage::Finished);
    assert!(renderer.external_frames.latest().is_none());

    let importing = || {
        let (mut renderer, mut course) = shown();
        renderer.advance(&mut course, &scene, FrameEvent::AcquireRecorded(true));
        renderer.advance(&mut course, &scene, FrameEvent::Encoded);
        (renderer, course)
    };
    let (mut renderer, mut course) = importing();
    let event = FrameEvent::ReleaseRecorded { recorded: false, hal_queue: true };
    let action = renderer.advance(&mut course, &scene, event);
    assert!(matches!(action, FrameAction::Fail(RecordError::ExternalRelease)));

    let (mut renderer, mut course) = importing();
    let event = FrameEvent::ReleaseRecorded { recorded: true, hal_queue: false };
    let action = renderer.advance(&mut course, &scene, event);
    assert!(matches!(action, FrameAction::Fail(RecordError::ExternalSync)));
    assert_eq!(course.stage, FrameStage::Finished);

    let imported = || {
        let (mut renderer, mut course) = importing();
        let event = FrameEvent::ReleaseRecorded { recorded: true, hal_queue: true };
        renderer.advance(&mut course, &scene, event);
        renderer.take_external_frame_outcome();
        (renderer, course)
    };
    let (mut renderer, mut course) = imported();
    let action = renderer.advance(&mut course, &scene, FrameEvent::SemaphoreRefused(-13));
    assert!(matches!(action, FrameAction::Fail(RecordError::ExternalSync)));
    assert_eq!(
        renderer.take_external_frame_outcome(),
        Some(ExternalFrameOutcome::TransientFailure)
    );

    let (mut renderer, mut course) = imported();
    let event = FrameEvent::SyncAnswered { semaphore: 5, answer: Err(-4) };
    let action = renderer.advance(&mut course, &scene, event);
    assert!(matches!(
        action,
        FrameAction::Undo { semaphore: 5, error: RecordError::ExternalSync }
    ));
    assert_eq!(
        renderer.take_external_frame_outcome(),
        Some(ExternalFrameOutcome::FatalFailure)
    );
    assert!(renderer.external_frames.latest().is_none());
}

#[test]
fn every_failing_step_reports_and_keeps_the_displayed_frame() {
    let shown = || {
        let mut renderer = renderer();
        renderer.submit_external_frame(ExternalFrame::Prepared(PreparedExternalFrame::new(
            texture(1),
        )));
        let (frame, _) = renderer.start_frame(&scene_of(1), None);
        renderer.frame_submitted(frame.selection);
        renderer.submit_external_frame(ExternalFrame::Prepared(external(2)));
        renderer.take_external_frame_outcome();
        renderer
    };
    let slot = ExternalFrameSlot::Latest;
    let fatal = Some(ExternalFrameOutcome::FatalFailure);
    let transient = Some(ExternalFrameOutcome::TransientFailure);
    let displayed = |renderer: &Renderer| renderer.displayed_external_frame().unwrap().texture().id;

    let mut renderer = shown();
    assert_eq!(renderer.acquire_recorded(slot, false), Err(RecordError::ExternalAcquire));
    assert_eq!(renderer.take_external_frame_outcome(), fatal);
    assert_eq!(displayed(&renderer), 1);

    let mut renderer = shown();
    assert_eq!(renderer.release_recorded(slot, false), Err(RecordError::ExternalRelease));
    assert_eq!(renderer.take_external_frame_outcome(), fatal);
    assert_eq!(displayed(&renderer), 1);

    let mut renderer = shown();
    assert_eq!(renderer.import_sync(slot, false), Err(RecordError::ExternalSync));
    assert_eq!(renderer.take_external_frame_outcome(), fatal);
    assert_eq!(displayed(&renderer), 1);

    let mut renderer = shown();
    assert_eq!(renderer.import_sync_failed(slot, -13), RecordError::ExternalSync);
    assert_eq!(renderer.take_external_frame_outcome(), transient);
    assert_eq!(displayed(&renderer), 1);

    let mut renderer = shown();
    renderer.import_sync(slot, true).unwrap();
    assert_eq!(
        renderer.import_sync_finished(5, Err(-4)),
        Err((5, RecordError::ExternalSync))
    );
    assert_eq!(renderer.take_external_frame_outcome(), fatal);
    assert_eq!(displayed(&renderer), 1);

    let mut renderer = shown();
    assert_eq!(renderer.submit_external_frame(ExternalFrame::FatalFailure), fatal.unwrap());
    assert_eq!(
        renderer.submit_external_frame(ExternalFrame::TransientFailure),
        transient.unwrap()
    );
    assert_eq!(displayed(&renderer), 1);
}

#[test]
fn nv12_requests_are_prepared_when_the_frame_is_recorded() {
    let request = || {
        ExternalFrameRequest::Prepared(ExternalNv12Frame {
            texture: texture(4),
            sync_file: 9,
            ownership: ExternalOwnership::Foreign,
        })
    };
    let context = GpuContextHandle {
        backend: Backend::Vulkan,
        features: DeviceFeatures { native: 0x2000_0000, web: 0 },
        hal_device: true,
        external_semaphore_fd: true,
        queue_family_foreign: true,
    };
    let mut renderer = renderer();
    assert_eq!(
        renderer.submit_external_frame_request(request()),
        ExternalFrameOutcome::Accepted
    );
    let (frame, barrier) = renderer.start_frame(&scene_of(4), Some(&context));
    assert_eq!(frame.selection, Some(ExternalFrameSlot::Latest));
    assert_eq!(barrier.unwrap().unwrap().queue_family, 0xFFFF_FFFD);

    renderer.submit_external_frame_request(request());
    let (frame, barrier) = renderer.start_frame(&scene_of(4), None);
    assert_eq!(barrier, Err(RecordError::ExternalPreparation));
    assert!(!frame.external);
    assert_eq!(
        renderer.take_external_frame_outcome(),
        Some(ExternalFrameOutcome::Unsupported)
    );
    assert_eq!(
        renderer.submit_external_frame_request(ExternalFrameRequest::TransientFailure),
        ExternalFrameOutcome::TransientFailure
    );
    assert_eq!(
        renderer.submit_external_frame_request(ExternalFrameRequest::FatalFailure),
        ExternalFrameOutcome::FatalFailure
    );
}

#[test]
fn other_backends_refuse_external_frames() {
    let mut renderer = renderer_on(Platform::OtherNative, Backend::Metal);
    assert_eq!(
        renderer.submit_external_frame(ExternalFrame::Prepared(external(2))),
        ExternalFrameOutcome::Unsupported
    );
    assert!(renderer.external_frames.latest().is_none());
}

#[test]
fn without_selection_every_latest_frame_counts_as_drawn() {
    let mut renderer = renderer_on(Platform::OtherNative, Backend::Vulkan);
    renderer.submit_external_frame(ExternalFrame::Prepared(external(2)));
    let (frame, barrier) = renderer.start_frame(&scene_of(7), None);
    assert_eq!(barrier, Ok(None));
    assert!(renderer.frame_submitted(frame.selection).is_none());
    assert_eq!(renderer.displayed_external_frame().unwrap().texture().id, 2);
}

#[test]
fn oversized_scene_is_reported_and_its_memory_kept() {
    let mut renderer = renderer();
    let scene = Scene { quads: 100_000, shadows: 1 << 24, ..empty_scene() };
    let (frame, answer) = renderer.start_frame(&scene, None);
    let error = answer.unwrap_err();
    assert!(matches!(error, RecordError::Frame(FrameError::SceneTooLarge(_))));
    assert_eq!(error.message(), None);
    assert_eq!(frame.recorder.bindings.len(), 1);
    assert_eq!(renderer.memory.capacity, 16 << 20);
    assert_eq!(
        RecordError::Frame(FrameError::SurfacesExhausted).message(),
        Some("surface instance buffer exhausted")
    );
    assert_eq!(
        RecordError::ExternalPreparation.message(),
        Some("external frame preparation failed")
    );
    assert_eq!(
        RecordError::ExternalSync.message(),
        Some("external frame acquire preparation failed")
    );
}
