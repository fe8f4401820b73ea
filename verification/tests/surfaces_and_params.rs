use gpui_wgpu::device::{BufferUsage, DeviceFeatures, Size, TextureUsage};
use gpui_wgpu::external::{GpuHandles, SharedTexture};
use gpui_wgpu::mock_client::AudioStream;
use gpui_wgpu::params::{
    Bounds, GammaParams, GlobalParams, Nv12ColorTransform, PodBounds, SurfaceInstance,
    SurfaceParams, UniformLayout, VideoTransferFunction,
};
use gpui_wgpu::pipelines::{
    atlas_sampler, create_bind_group_layouts, create_pipelines, BindingType, BlendFactor,
    BlendState, ColorWrites, FilterMode, FrontFace, LayoutKind, PolygonMode, PrimitiveTopology,
    RasterState, ShaderModule, ShaderSource,
};
use gpui_wgpu::scene::{
    MONOCHROME_SPRITE_SIZE, PATH_RASTERIZATION_VERTEX_SIZE, PATH_SPRITE_SIZE,
    POLYCHROME_SPRITE_SIZE, QUAD_SIZE, SHADOW_SIZE, SUBPIXEL_SPRITE_SIZE, UNDERLINE_SIZE,
};
use gpui_wgpu::surface_config::{
    choose_format, pick_alpha_mode, pick_present_mode, CompositeAlphaMode, PresentMode,
    SurfaceCapabilities, SurfaceColorSpace, SurfaceError, SurfaceFormat, SurfaceSetup, WgpuSurfaceConfig,
};
use gpui_wgpu::surface_element::{
    surface, AspectRatio, Nv12TextureSource, ObjectFit, PixelBuffer, RgbaTextureSource,
    SurfacePaint, SurfaceSource,
};

struct Handles;

impl GpuHandles for Handles {
    type Texture = u8;
    type SyncFile = ();
    type Semaphore = ();
    type Lease = ();
    type Atlas = ();
    type PixelBuffer = &'static str;
    type RgbaSource = &'static str;
    type Nv12Source = &'static str;
}

fn texture(id: u64) -> SharedTexture<Handles> {
    SharedTexture { id, texture: 0 }
}

fn words(columns: [[f32; 4]; 4]) -> [[u32; 4]; 4] {
    columns.map(|column| column.map(f32::to_bits))
}

#[test]
fn webgl_record_sizes_match_shader_word_strides() {
    assert_eq!(QUAD_SIZE, 40 * 4);
    assert_eq!(SHADOW_SIZE, 28 * 4);
    assert_eq!(PATH_RASTERIZATION_VERTEX_SIZE, 26 * 4);
    assert_eq!(PATH_SPRITE_SIZE, 4 * 4);
    assert_eq!(UNDERLINE_SIZE, 16 * 4);
    assert_eq!(MONOCHROME_SPRITE_SIZE, 28 * 4);
    assert_eq!(SUBPIXEL_SPRITE_SIZE, 28 * 4);
    assert_eq!(POLYCHROME_SPRITE_SIZE, 24 * 4);
}

#[test]
fn nv12_tuple_apis_are_available_without_gpu_resources() {
    fn assert_into_surface_source<T: Into<SurfaceSource<Handles>>>() {}

    assert_into_surface_source::<(SharedTexture<Handles>, SharedTexture<Handles>, Size)>();
    assert_into_surface_source::<(
        SharedTexture<Handles>,
        SharedTexture<Handles>,
        Size,
        Nv12ColorTransform,
    )>();
}

#[test]
fn nv12_params_preserve_default_and_column_major_matrix_layout() {
    assert_eq!(
        Nv12ColorTransform::default().yuv_to_rgb,
        words([
            [1.0000, 1.0000, 1.0000, 0.0],
            [0.0000, -0.3441, 1.7720, 0.0],
            [1.4020, -0.7141, 0.0000, 0.0],
            [-0.7010, 0.5291, -0.8860, 1.0],
        ])
    );

    let transform = Nv12ColorTransform {
        yuv_to_rgb: words([
            [0.0, 1.0, 2.0, 3.0],
            [4.0, 5.0, 6.0, 7.0],
            [8.0, 9.0, 10.0, 11.0],
            [12.0, 13.0, 14.0, 15.0],
        ]),
        transfer: VideoTransferFunction::Srgb,
    };
    let params = SurfaceParams::new(
        PodBounds { origin: [0; 2], size: [0; 2] },
        PodBounds { origin: [0; 2], size: [0; 2] },
        transform,
    );

    assert_eq!(params.yuv_to_rgb, transform.yuv_to_rgb);
    assert_eq!(
        params.to_bytes().get(32..96),
        Some(bytemuck::bytes_of(&transform.yuv_to_rgb))
    );
}

#[test]
fn parameters_are_laid_out_word_by_word() {
    let globals = GlobalParams::new(
        800f32.to_bits(),
        600f32.to_bits(),
        CompositeAlphaMode::PreMultiplied,
    );
    let mut expected = Vec::new();
    for word in [800f32.to_bits(), 600f32.to_bits(), 1, 0] {
        expected.extend_from_slice(&word.to_ne_bytes());
    }
    assert_eq!(globals.to_bytes(), expected);
    assert_eq!(globals.for_paths().premultiplied_alpha, 0);
    assert_eq!(
        GlobalParams::new(1, 2, CompositeAlphaMode::Opaque).premultiplied_alpha,
        0
    );

    let gamma = GammaParams::new([1, 2, 3, 4], 5, 6, true);
    let mut expected = Vec::new();
    for word in [1u32, 2, 3, 4, 5, 6, 1, 0] {
        expected.extend_from_slice(&word.to_ne_bytes());
    }
    assert_eq!(gamma.to_bytes(), expected);

    let bounds = Bounds { x: 1, y: 2, width: 3, height: 4 };
    let mask = Bounds { x: 5, y: 6, width: 7, height: 8 };
    let instance =
        SurfaceInstance { bounds: PodBounds::from(bounds), content_mask: PodBounds::from(mask) };
    let mut expected = Vec::new();
    for word in 1u32..9 {
        expected.extend_from_slice(&word.to_ne_bytes());
    }
    assert_eq!(instance.to_bytes(), expected);
}

#[test]
fn uniform_parameters_do_not_overlap() {
    let layout = UniformLayout::new(256);
    assert_eq!((layout.path_globals_offset, layout.gamma_offset, layout.size), (256, 512, 544));
    let layout = UniformLayout::new(1);
    assert_eq!((layout.path_globals_offset, layout.gamma_offset, layout.size), (16, 32, 64));
    let (surface, paths) = UniformLayout::new(64).bind_groups();
    assert_eq!(surface.label, "globals_bind_group");
    assert_eq!((surface.globals.offset, surface.globals.size), (0, 16));
    assert_eq!((surface.gamma.binding, surface.gamma.offset, surface.gamma.size), (1, 128, 32));
    assert_eq!(paths.label, "path_globals_bind_group");
    assert_eq!(paths.globals.offset, 64);
    assert_eq!(paths.gamma, surface.gamma);
}

#[test]
fn linear_formats_are_preferred() {
    let bgra = SurfaceFormat::Bgra8Unorm;
    let rgba = SurfaceFormat::Rgba8Unorm;
    let srgb = SurfaceFormat::Bgra8UnormSrgb;
    let half = SurfaceFormat::Rgba16Float;
    assert_eq!(choose_format(&vec![srgb, rgba, bgra]), Some(bgra));
    assert_eq!(choose_format(&vec![srgb, half, rgba]), Some(rgba));
    assert_eq!(choose_format(&vec![srgb, half]), Some(half));
    assert_eq!(
        choose_format(&vec![SurfaceFormat::Rgba8UnormSrgb, srgb]),
        Some(SurfaceFormat::Rgba8UnormSrgb)
    );
    assert_eq!(choose_format(&vec![]), None);
}

#[test]
fn modes_fall_back_to_what_the_surface_has() {
    let modes = vec![CompositeAlphaMode::PostMultiplied, CompositeAlphaMode::Inherit];
    assert_eq!(
        pick_alpha_mode(CompositeAlphaMode::Opaque, CompositeAlphaMode::Inherit, &modes),
        Some(CompositeAlphaMode::Inherit)
    );
    let modes = vec![CompositeAlphaMode::PostMultiplied];
    assert_eq!(
        pick_alpha_mode(CompositeAlphaMode::Opaque, CompositeAlphaMode::Inherit, &modes),
        Some(CompositeAlphaMode::PostMultiplied)
    );
    assert_eq!(
        pick_alpha_mode(CompositeAlphaMode::Opaque, CompositeAlphaMode::Inherit, &vec![]),
        None
    );
    let modes = vec![PresentMode::Fifo, PresentMode::Mailbox];
    assert_eq!(pick_present_mode(Some(PresentMode::Mailbox), &modes), PresentMode::Mailbox);
    assert_eq!(pick_present_mode(Some(PresentMode::Immediate), &modes), PresentMode::Fifo);
    assert_eq!(pick_present_mode(None, &modes), PresentMode::Fifo);
}

#[test]
fn setups_are_clamped_and_never_empty() {
    let capabilities = SurfaceCapabilities {
        formats: vec![SurfaceFormat::Rgba8Unorm],
        alpha_modes: vec![CompositeAlphaMode::Opaque, CompositeAlphaMode::PreMultiplied],
        present_modes: vec![PresentMode::Fifo],
    };
    let config = WgpuSurfaceConfig {
        size: Size { width: 5000, height: 0 },
        transparent: true,
        preferred_present_mode: Some(PresentMode::Mailbox),
    };
    let setup = SurfaceSetup::select(&capabilities, &config, 4096).unwrap();
    assert_eq!((setup.config.width, setup.config.height), (4096, 1));
    assert!(setup.clamped);
    assert_eq!(setup.config.alpha_mode, CompositeAlphaMode::PreMultiplied);
    assert_eq!(setup.opaque_alpha_mode, CompositeAlphaMode::Opaque);
    assert_eq!(setup.config.present_mode, PresentMode::Fifo);
    assert_eq!(setup.config.desired_maximum_frame_latency, 2);
    assert_eq!(setup.config.color_space, SurfaceColorSpace::Auto);
    assert_eq!(
        setup.config.usage,
        TextureUsage { render_attachment: true, texture_binding: false, copy_dst: false }
    );
    let negative = WgpuSurfaceConfig { size: Size { width: -1, height: 9 }, ..config };
    let setup = SurfaceSetup::select(&capabilities, &negative, 4096).unwrap();
    assert_eq!((setup.config.width, setup.config.height), (4096, 9));

    let no_formats = SurfaceCapabilities { formats: vec![], ..capabilities };
    assert_eq!(
        SurfaceSetup::select(&no_formats, &config, 4096),
        Err(SurfaceError::NoTextureFormats)
    );
    let no_modes = SurfaceCapabilities {
        formats: vec![SurfaceFormat::Rgba8Unorm],
        alpha_modes: vec![],
        present_modes: vec![],
    };
    assert_eq!(
        SurfaceSetup::select(&no_modes, &config, 4096),
        Err(SurfaceError::NoAlphaModes)
    );
}

#[test]
fn instance_records_are_bound_as_the_backend_allows() {
    let layouts = create_bind_group_layouts(false);
    assert_eq!(layouts.instances.entries[0].ty, BindingType::ReadOnlyStorage);
    assert_eq!(layouts.globals.entries.len(), 2);
    assert_eq!(
        layouts.globals.entries[0].ty,
        BindingType::Uniform { min_binding_size: 16 }
    );
    assert_eq!(layouts.surfaces.entries.len(), 4);
    assert_eq!(
        layouts.surfaces.entries[0].ty,
        BindingType::Uniform { min_binding_size: 96 }
    );
    assert_eq!(layouts.instances_with_texture.entries[2].binding, 2);
    let layouts = create_bind_group_layouts(true);
    for layout in [
        &layouts.globals,
        &layouts.instances,
        &layouts.texture,
        &layouts.surfaces,
        &layouts.instances_with_texture,
    ] {
        assert!(layout.entries.iter().all(|entry| entry.ty != BindingType::ReadOnlyStorage));
    }
    assert_eq!(layouts.instances.entries[0].ty, BindingType::UintTexture);
}

#[test]
fn pipelines_follow_alpha_mode_and_features() {
    let dual = DeviceFeatures {
        native: 0,
        web: wgpu::Features::DUAL_SOURCE_BLENDING.features_webgpu.bits(),
    };
    let format = SurfaceFormat::Bgra8Unorm;
    let pipelines =
        create_pipelines(format, CompositeAlphaMode::PreMultiplied, 4, true, &dual, false);
    assert_eq!(pipelines.shader_source, ShaderSource::StorageBuffer);
    assert_eq!(pipelines.quads.blend, BlendState::PremultipliedAlphaBlending);
    assert_eq!(pipelines.quads.topology, PrimitiveTopology::TriangleStrip);
    assert_eq!(pipelines.path_rasterization.sample_count, 4);
    assert_eq!(pipelines.path_rasterization.topology, PrimitiveTopology::TriangleList);
    assert_eq!(pipelines.quads.sample_count, 1);
    assert_eq!(pipelines.surfaces.data_layout, LayoutKind::Surfaces);
    assert_eq!(pipelines.surface_rgba.data_layout, LayoutKind::InstancesWithTexture);
    let subpixel = pipelines.subpixel_sprites.unwrap();
    assert_eq!(subpixel.write_mask, ColorWrites::Color);
    assert_eq!(subpixel.module, ShaderModule::Subpixel);
    assert_eq!(
        subpixel.blend,
        BlendState::Add {
            color_src: BlendFactor::Src1,
            color_dst: BlendFactor::OneMinusSrc1,
            alpha_src: BlendFactor::One,
            alpha_dst: BlendFactor::OneMinusSrcAlpha,
        }
    );
    assert!(!pipelines.missing_dual_source_blending);
    for pipeline in [pipelines.quads, pipelines.path_rasterization, subpixel] {
        assert_eq!(
            pipeline.raster,
            RasterState {
                front_face: FrontFace::Ccw,
                cull_mode: None,
                polygon_mode: PolygonMode::Fill,
                unclipped_depth: false,
                conservative: false,
                sample_mask: !0,
                alpha_to_coverage: false,
            }
        );
    }

    let plain = DeviceFeatures { native: 0, web: 0 };
    let pipelines = create_pipelines(format, CompositeAlphaMode::Opaque, 1, true, &plain, false);
    assert!(pipelines.subpixel_sprites.is_none());
    assert!(pipelines.missing_dual_source_blending);
    assert_eq!(pipelines.quads.blend, BlendState::AlphaBlending);

    let pipelines = create_pipelines(format, CompositeAlphaMode::Opaque, 1, true, &dual, true);
    assert!(pipelines.subpixel_sprites.is_none());
    assert_eq!(pipelines.shader_source, ShaderSource::WebGl);
}

#[test]
fn parameters_have_uniform_buffers_and_textures_a_linear_sampler() {
    let uniforms = UniformLayout::new(256).buffer_descriptor();
    assert_eq!((uniforms.label, uniforms.size), ("globals_buffer", 544));
    let video = SurfaceParams::buffer_descriptor();
    assert_eq!((video.label, video.size), ("surface_nv12_uniform", 96));
    for buffer in [uniforms, video] {
        assert_eq!(
            buffer.usage,
            BufferUsage { uniform: true, storage: false, copy_dst: true }
        );
    }
    let sampler = atlas_sampler();
    assert_eq!(sampler.label, "atlas_sampler");
    assert_eq!((sampler.mag_filter, sampler.min_filter), (FilterMode::Linear, FilterMode::Linear));
}

#[test]
fn device_features_are_told_apart() {
    let nv12 = wgpu::Features::TEXTURE_FORMAT_NV12;
    let features = DeviceFeatures {
        native: nv12.features_wgpu.bits(),
        web: nv12.features_webgpu.bits(),
    };
    assert!(features.supports_nv12());
    assert!(!features.supports_dual_source_blending());
    let none = DeviceFeatures { native: !nv12.features_wgpu.bits(), web: 0 };
    assert!(!none.supports_nv12());
}

#[test]
fn surfaces_are_contained_unless_told_otherwise() {
    let size = Size { width: 320, height: 240 };
    let element = surface::<Handles, _>((texture(1), texture(2), size));
    assert_eq!(element.object_fit, ObjectFit::Contain);
    assert_eq!(element.request_layout(), Some(AspectRatio { width: 320, height: 240 }));
    assert!(element.fills_parent());
    let element = element.object_fit(ObjectFit::Fill);
    assert_eq!(element.object_fit, ObjectFit::Fill);
}

#[test]
fn content_without_height_has_no_aspect_ratio() {
    for height in [0, -3] {
        let source = RgbaTextureSource { source: "picture", native_size: Size { width: 9, height } };
        let element = surface::<Handles, _>(source);
        assert_eq!(element.request_layout(), None);
        assert!(!element.fills_parent());
        assert!(element.paint().is_some());
    }
    let buffer = PixelBuffer { buffer: "buffer", width: 9, height: 0 };
    assert_eq!(surface::<Handles, _>(buffer).request_layout(), None);
}

#[test]
fn sources_are_painted_by_their_own_calls() {
    let size = Size { width: 16, height: 8 };
    let transform = Nv12ColorTransform::default();
    let element = surface::<Handles, _>(PixelBuffer { buffer: "buffer", width: 16, height: 8 });
    assert!(matches!(
        element.paint(),
        Some((painted, SurfacePaint::PixelBuffer(buffer)))
            if painted == size && *buffer == "buffer"
    ));
    let element =
        surface::<Handles, _>(RgbaTextureSource { source: "picture", native_size: size });
    assert!(matches!(
        element.paint(),
        Some((painted, SurfacePaint::Rgba(source))) if painted == size && *source == "picture"
    ));
    let element = surface::<Handles, _>(Nv12TextureSource { source: "video", native_size: size });
    assert!(matches!(
        element.paint(),
        Some((painted, SurfacePaint::Nv12(source))) if painted == size && *source == "video"
    ));
    let element = surface::<Handles, _>((texture(6), texture(7), size));
    assert!(matches!(
        element.paint(),
        Some((painted, SurfacePaint::Nv12WithColorTransform {
            y_texture,
            cb_cr_texture,
            native_size,
            color_transform,
        }))
            if painted == size
                && y_texture.id == 6
                && cb_cr_texture.id == 7
                && native_size == size
                && color_transform == Nv12ColorTransform::default()
    ));
    let element = surface::<Handles, _>((texture(1), texture(2), size, transform));
    assert!(matches!(
        element.paint(),
        Some((_, SurfacePaint::Nv12WithColorTransform { y_texture, cb_cr_texture, .. }))
            if y_texture.id == 1 && cb_cr_texture.id == 2
    ));
    let element = surface::<Handles, _>((texture(3), size, transform));
    assert!(matches!(
        element.paint(),
        Some((_, SurfacePaint::Nv12Multiplanar { texture, color_transform, .. }))
            if texture.id == 3 && color_transform == transform
    ));
}

#[test]
fn audio_streams_can_be_made() {
    let _stream = AudioStream {};
}
