use ash::vk;
use gpui_wgpu::device::{
    Backend, DeviceFeatures, TexelFormat, TextureDimension, TextureUsage, TextureViewDimension,
};
use gpui_wgpu::draw::{nv12_plane_view_descriptor, TextureAspect};
use gpui_wgpu::external::{
    ensure_external_frame_initial_state, queue_family, Extent3d, ExternalFrameAcquisition,
    ExternalFrameError, ExternalFrameOutcome, ExternalNv12Frame, ExternalOwnership,
    GpuContextHandle, GpuHandles, PreparedExternalFrame, SharedTexture, VulkanExternalFrame,
};
use gpui_wgpu::external_state::{
    ExternalFrameSlot, ExternalFrameState, FrameSyncEnd, FrameSyncStep, PendingExternalFrame,
};
use gpui_wgpu::params::{Bounds, Nv12ColorTransform};
use gpui_wgpu::scene::{
    scene_contains_texture, PaintSurface, Scene, ScissorRect, SurfaceContent,
};
use gpui_wgpu::vulkan_sync::{
    classify_external_sync_error, SyncImportEnd, SyncImportStep, VulkanExternalSync,
};
use std::sync::atomic::{AtomicBool, Ordering};
use std::sync::Arc;

struct Lease(Arc<AtomicBool>);

impl Drop for Lease {
    fn drop(&mut self) {
        self.0.store(true, Ordering::Release);
    }
}

struct Handles;

impl GpuHandles for Handles {
    type Texture = &'static str;
    type SyncFile = i32;
    type Semaphore = u64;
    type Lease = Lease;
    type Atlas = ();
    type PixelBuffer = ();
    type RgbaSource = ();
    type Nv12Source = ();
}

type Frames = ExternalFrameState<PendingExternalFrame<Handles>>;

fn texture(id: u64) -> SharedTexture<Handles> {
    SharedTexture { id, texture: "texture" }
}

fn surface(content: SurfaceContent) -> PaintSurface {
    let bounds = Bounds { x: 0, y: 0, width: 0, height: 0 };
    PaintSurface {
        visible: true,
        bounds,
        content_mask: bounds,
        scissor_rect: ScissorRect { x: 0, y: 0, width: 1, height: 1 },
        content,
    }
}

fn scene(surfaces: Vec<PaintSurface>) -> Scene {
    Scene {
        quads: 0,
        shadows: 0,
        underlines: 0,
        monochrome_sprites: 0,
        subpixel_sprites: 0,
        polychrome_sprites: 0,
        paths: vec![],
        surfaces,
        batches: vec![],
    }
}

fn scene_of(id: u64) -> Scene {
    scene(vec![surface(SurfaceContent::WgpuTexture { texture: id })])
}

fn capable() -> GpuContextHandle {
    GpuContextHandle {
        backend: Backend::Vulkan,
        features: DeviceFeatures { native: 0x2000_0000, web: 0 },
        hal_device: true,
        external_semaphore_fd: true,
        queue_family_foreign: true,
    }
}

fn vulkan_frame(released: &Arc<AtomicBool>) -> VulkanExternalFrame<Handles> {
    VulkanExternalFrame::<Handles>::new(
        7,
        Extent3d { width: 4, height: 2, depth_or_array_layers: 1 },
        wgpu::TextureFormat::Rgba8Unorm,
        wgpu::TextureUses::RESOURCE.bits(),
        ExternalOwnership::Foreign,
        17,
        Lease(Arc::clone(released)),
    )
    .ok()
    .unwrap()
}

fn external(id: u64) -> PreparedExternalFrame<Handles> {
    PreparedExternalFrame {
        external_sync: Some(VulkanExternalSync::new(17)),
        initial_state: 0x10,
        ownership: Some(ExternalOwnership::External),
        texture: texture(id),
    }
}

fn nv12(id: u64, ownership: ExternalOwnership) -> ExternalNv12Frame<Handles> {
    ExternalNv12Frame { texture: texture(id), sync_file: 9, ownership }
}

#[test]
fn external_frame_outcomes_are_classified_strictly() {
    assert_eq!(
        ExternalFrameOutcome::classify(Backend::Vulkan, ExternalFrameAcquisition::Prepared),
        ExternalFrameOutcome::Accepted
    );
    assert_eq!(
        ExternalFrameOutcome::classify(
            Backend::Vulkan,
            ExternalFrameAcquisition::TransientFailure,
        ),
        ExternalFrameOutcome::TransientFailure
    );
    assert_eq!(
        ExternalFrameOutcome::classify(Backend::Vulkan, ExternalFrameAcquisition::FatalFailure),
        ExternalFrameOutcome::FatalFailure
    );
    assert_eq!(
        ExternalFrameOutcome::classify(Backend::Gl, ExternalFrameAcquisition::Prepared),
        ExternalFrameOutcome::Unsupported
    );
}

#[test]
fn nv12_plane_views_use_explicit_aspect_formats() {
    let plane0 = match nv12_plane_view_descriptor(TextureAspect::Plane0) {
        Some(descriptor) => descriptor,
        None => panic!("plane 0 descriptor must exist"),
    };
    assert_eq!(plane0.aspect, TextureAspect::Plane0);
    assert_eq!(plane0.format, TexelFormat::R8Unorm);

    let plane1 = match nv12_plane_view_descriptor(TextureAspect::Plane1) {
        Some(descriptor) => descriptor,
        None => panic!("plane 1 descriptor must exist"),
    };
    assert_eq!(plane1.aspect, TextureAspect::Plane1);
    assert_eq!(plane1.format, TexelFormat::Rg8Unorm);
    assert!(nv12_plane_view_descriptor(TextureAspect::All).is_none());
    for plane in [plane0, plane1] {
        assert_eq!(plane.dimension, TextureViewDimension::D2);
        assert_eq!(plane.usage, TextureUsage::sampled());
    }
}

#[test]
fn external_frame_state_keeps_only_the_latest_prepared_frame() {
    let mut state = ExternalFrameState::default();
    assert_eq!(
        state.stage(Backend::Vulkan, ExternalFrameAcquisition::Prepared, Some(1)),
        ExternalFrameOutcome::Accepted
    );
    assert_eq!(
        state.stage(Backend::Vulkan, ExternalFrameAcquisition::Prepared, Some(2)),
        ExternalFrameOutcome::Accepted
    );

    state.commit_after_submission();

    assert_eq!(state.displayed(), Some(&2));
    assert_eq!(state.latest(), None);
}

#[test]
fn external_frame_submission_and_failure_preserve_previous_texture() {
    let mut state = ExternalFrameState::default();
    state.stage(Backend::Vulkan, ExternalFrameAcquisition::Prepared, Some(1));
    state.commit_after_submission();
    state.stage(Backend::Vulkan, ExternalFrameAcquisition::Prepared, Some(2));

    assert_eq!(
        state.stage(Backend::Vulkan, ExternalFrameAcquisition::TransientFailure, None),
        ExternalFrameOutcome::TransientFailure
    );
    state.commit_after_submission();
    assert_eq!(state.displayed(), Some(&1));

    state.stage(Backend::Vulkan, ExternalFrameAcquisition::Prepared, Some(2));
    assert_eq!(
        state.stage(Backend::Vulkan, ExternalFrameAcquisition::FatalFailure, None),
        ExternalFrameOutcome::FatalFailure
    );
    state.commit_after_submission();

    assert_eq!(state.displayed(), Some(&1));
    assert_eq!(state.latest(), None);
}

#[test]
fn unsubmitted_external_frame_does_not_replace_previous_texture() {
    let mut state = ExternalFrameState::default();
    state.stage(Backend::Vulkan, ExternalFrameAcquisition::Prepared, Some(1));
    state.commit_after_submission();
    state.stage(Backend::Vulkan, ExternalFrameAcquisition::Prepared, Some(2));

    assert_eq!(state.displayed(), Some(&1));
}

#[test]
fn clear_removes_displayed_and_never_submitted_latest_frames() {
    let mut state = ExternalFrameState::default();
    state.latest = Some(2);
    state.displayed = Some(1);

    state.clear();

    assert_eq!(state.latest(), None);
    assert_eq!(state.displayed(), None);
}

#[test]
fn matching_selection_prefers_latest_and_leaves_unrelated_latest_pending() {
    let mut state = ExternalFrameState::default();
    state.latest = Some(2);
    state.displayed = Some(1);

    assert_eq!(
        state.select_matching(|frame| *frame == 1),
        Some(ExternalFrameSlot::Displayed)
    );
    assert_eq!(
        state.select_matching(|frame| *frame == 2),
        Some(ExternalFrameSlot::Latest)
    );
    assert_eq!(state.select_matching(|frame| *frame == 3), None);
    assert_eq!(state.latest(), Some(&2));
    assert_eq!(state.displayed(), Some(&1));
}

#[test]
fn unmatched_scene_texture_schedules_no_external_barriers() {
    let mut state = ExternalFrameState::default();
    state.latest = Some(2);
    state.displayed = Some(1);

    assert_eq!(state.select_matching(|_| false), None);
    assert_eq!(state.latest(), Some(&2));
    assert_eq!(state.displayed(), Some(&1));
}

#[test]
fn failed_latest_submission_preserves_matching_displayed_frame() {
    let mut state = ExternalFrameState::default();
    state.stage(Backend::Vulkan, ExternalFrameAcquisition::Prepared, Some(1));
    state.commit_after_submission();
    state.stage(Backend::Vulkan, ExternalFrameAcquisition::Prepared, Some(2));
    state.stage(Backend::Vulkan, ExternalFrameAcquisition::FatalFailure, None);

    assert_eq!(
        state.select_matching(|frame| *frame == 1),
        Some(ExternalFrameSlot::Displayed)
    );
    assert_eq!(state.latest(), None);
    assert_eq!(state.displayed(), Some(&1));
}

#[test]
fn unsupported_backend_does_not_change_external_frame_state() {
    let mut state = ExternalFrameState::default();
    state.stage(Backend::Vulkan, ExternalFrameAcquisition::Prepared, Some(1));

    for acquisition in [
        ExternalFrameAcquisition::Prepared,
        ExternalFrameAcquisition::TransientFailure,
        ExternalFrameAcquisition::FatalFailure,
    ] {
        assert_eq!(
            state.stage(Backend::Gl, acquisition, Some(2)),
            ExternalFrameOutcome::Unsupported
        );
        assert_eq!(state.latest(), Some(&1));
        assert_eq!(state.displayed(), None);
    }

    state.commit_after_submission();
    assert_eq!(state.displayed(), Some(&1));
}

#[test]
fn ownership_family_mapping_is_restricted_to_external_families() {
    assert_eq!(queue_family(ExternalOwnership::External), vk::QUEUE_FAMILY_EXTERNAL);
    assert_eq!(queue_family(ExternalOwnership::Foreign), vk::QUEUE_FAMILY_FOREIGN_EXT);
}

#[test]
fn sync_file_import_uses_temporary_sync_fd_payload() {
    let import_info = VulkanExternalSync::<Handles>::sync_file_import_info(0, 17);

    assert_eq!(import_info.semaphore, 0);
    assert_eq!(import_info.flags, vk::SemaphoreImportFlags::TEMPORARY.as_raw());
    assert_eq!(
        import_info.handle_type,
        vk::ExternalSemaphoreHandleTypeFlags::SYNC_FD.as_raw()
    );
    assert_eq!(import_info.fd, 17);
}

#[test]
fn sync_file_failures_preserve_recoverable_classification() {
    assert_eq!(
        classify_external_sync_error(vk::Result::ERROR_INVALID_EXTERNAL_HANDLE.as_raw()),
        ExternalFrameOutcome::TransientFailure
    );
    assert_eq!(
        classify_external_sync_error(vk::Result::ERROR_DEVICE_LOST.as_raw()),
        ExternalFrameOutcome::FatalFailure
    );
}

#[test]
fn uninitialized_external_state_is_rejected() {
    let released = Arc::new(AtomicBool::new(false));
    let result = VulkanExternalFrame::<Handles>::new(
        0,
        Extent3d { width: 1, height: 1, depth_or_array_layers: 1 },
        wgpu::TextureFormat::Rgba8Unorm,
        wgpu::TextureUses::UNINITIALIZED.bits(),
        ExternalOwnership::External,
        0,
        Lease(Arc::clone(&released)),
    );
    let error = match result {
        Ok(_) => panic!("UNINITIALIZED must be rejected"),
        Err(error) => error,
    };
    assert!(error.message().contains("initialized producer contents"));
    assert!(released.load(Ordering::Acquire));
}

#[test]
fn unprepared_vulkan_frame_releases_its_lease() {
    let released = Arc::new(AtomicBool::new(false));
    let frame = match VulkanExternalFrame::<Handles>::new(
        0,
        Extent3d { width: 1, height: 1, depth_or_array_layers: 1 },
        wgpu::TextureFormat::Rgba8Unorm,
        wgpu::TextureUses::RESOURCE.bits(),
        ExternalOwnership::Foreign,
        0,
        Lease(Arc::clone(&released)),
    ) {
        Ok(frame) => frame,
        Err(error) => panic!("valid initialized frame should construct: {}", error.message()),
    };

    drop(frame);
    assert!(released.load(Ordering::Acquire));
}

#[test]
fn fatal_and_passing_vulkan_errors_are_told_apart() {
    for error in [
        vk::Result::ERROR_OUT_OF_HOST_MEMORY,
        vk::Result::ERROR_OUT_OF_DEVICE_MEMORY,
        vk::Result::ERROR_INITIALIZATION_FAILED,
        vk::Result::ERROR_DEVICE_LOST,
    ] {
        assert_eq!(
            classify_external_sync_error(error.as_raw()),
            ExternalFrameOutcome::FatalFailure
        );
    }
    for error in [vk::Result::NOT_READY, vk::Result::ERROR_MEMORY_MAP_FAILED] {
        assert_eq!(
            classify_external_sync_error(error.as_raw()),
            ExternalFrameOutcome::TransientFailure
        );
    }
}

#[test]
fn only_concrete_initial_states_are_accepted() {
    assert_eq!(
        ensure_external_frame_initial_state(wgpu::TextureUses::empty().bits()),
        Err(ExternalFrameError::IndefiniteState)
    );
    for uses in [
        wgpu::TextureUses::COMPLEX,
        wgpu::TextureUses::UNKNOWN,
        wgpu::TextureUses::TRANSIENT,
        wgpu::TextureUses::RESOURCE | wgpu::TextureUses::UNKNOWN,
    ] {
        assert_eq!(
            ensure_external_frame_initial_state(uses.bits()),
            Err(ExternalFrameError::IndefiniteState)
        );
    }
    assert_eq!(
        ensure_external_frame_initial_state(
            (wgpu::TextureUses::UNINITIALIZED | wgpu::TextureUses::COMPLEX).bits()
        ),
        Err(ExternalFrameError::UninitializedState)
    );
    assert_eq!(
        ensure_external_frame_initial_state(wgpu::TextureUses::RESOURCE.bits()),
        Ok(())
    );
}

#[test]
fn vulkan_frames_are_refused_for_the_first_reason_that_holds() {
    let released = Arc::new(AtomicBool::new(false));
    let refusal = |context: &GpuContextHandle, frame: VulkanExternalFrame<Handles>| {
        match PreparedExternalFrame::from_vulkan(context, frame) {
            Ok(_) => None,
            Err(error) => Some(error),
        }
    };
    let mut frame = vulkan_frame(&released);
    frame.initial_state = 1;
    assert_eq!(refusal(&capable(), frame), Some(ExternalFrameError::UninitializedState));
    assert!(released.load(Ordering::Acquire));
    let mut frame = vulkan_frame(&released);
    frame.initial_state = 0;
    assert_eq!(refusal(&capable(), frame), Some(ExternalFrameError::IndefiniteState));
    let mut frame = vulkan_frame(&released);
    frame.image = 0;
    assert_eq!(refusal(&capable(), frame), Some(ExternalFrameError::NullImage));
    let mut frame = vulkan_frame(&released);
    frame.size.height = 0;
    assert_eq!(refusal(&capable(), frame), Some(ExternalFrameError::EmptyImage));
    let mut frame = vulkan_frame(&released);
    frame.size.depth_or_array_layers = 2;
    assert_eq!(refusal(&capable(), frame), Some(ExternalFrameError::EmptyImage));
    assert_eq!(
        refusal(&GpuContextHandle { backend: Backend::Gl, ..capable() }, vulkan_frame(&released)),
        Some(ExternalFrameError::NotVulkan)
    );
    assert_eq!(
        refusal(&GpuContextHandle { hal_device: false, ..capable() }, vulkan_frame(&released)),
        Some(ExternalFrameError::NoHalDevice)
    );
    assert_eq!(
        refusal(
            &GpuContextHandle { external_semaphore_fd: false, ..capable() },
            vulkan_frame(&released)
        ),
        Some(ExternalFrameError::NoExternalSemaphoreFd)
    );
    assert_eq!(
        refusal(
            &GpuContextHandle { queue_family_foreign: false, ..capable() },
            vulkan_frame(&released)
        ),
        Some(ExternalFrameError::NoForeignQueueFamily)
    );
    let mut frame = vulkan_frame(&released);
    frame.sync_file = None;
    assert_eq!(refusal(&capable(), frame), Some(ExternalFrameError::SyncFileConsumed));
}

#[test]
fn imported_vulkan_frame_keeps_its_lease_with_the_texture() {
    let released = Arc::new(AtomicBool::new(false));
    let (import, pending) =
        match PreparedExternalFrame::from_vulkan(&capable(), vulkan_frame(&released)) {
            Ok(parts) => parts,
            Err(error) => panic!("{}", error.message()),
        };
    assert_eq!(import.label, "external_frame");
    assert_eq!(import.image, 7);
    assert_eq!((import.size.width, import.size.height), (4, 2));
    assert_eq!(import.format, wgpu::TextureFormat::Rgba8Unorm);
    assert_eq!((import.mip_level_count, import.sample_count), (1, 1));
    assert_eq!(import.dimension, TextureDimension::D2);
    assert_eq!(
        import.texture_usage,
        TextureUsage { render_attachment: false, texture_binding: true, copy_dst: false }
    );
    assert_eq!(import.usage, wgpu::TextureUses::RESOURCE.bits());
    assert_eq!(import.initial_state, wgpu::TextureUses::RESOURCE.bits());
    let frame = pending.with_texture(texture(3));
    assert!(frame.is_external());
    assert_eq!(frame.texture().id, 3);
    drop(frame);
    assert!(!released.load(Ordering::Acquire));
    drop(import);
    assert!(released.load(Ordering::Acquire));
}

#[test]
fn own_frames_need_no_transfer_and_no_fence() {
    let mut frame = PreparedExternalFrame::<Handles>::new(texture(1));
    assert_eq!(frame.initial_state, wgpu::TextureUses::RESOURCE.bits());
    assert!(!frame.is_external());
    assert!(frame.encode_acquire_ownership().is_none());
    assert!(frame.encode_release_ownership().is_none());
    assert!(matches!(frame.import_sync(false), SyncImportStep::Finished(Ok(()))));
    assert!(frame.on_submitted().is_none());
}

#[test]
fn transfers_of_an_external_frame_name_its_family() {
    let frame = external(1);
    let acquire = frame.encode_acquire_ownership().unwrap();
    let release = frame.encode_release_ownership().unwrap();
    assert_eq!(acquire.queue_family, vk::QUEUE_FAMILY_EXTERNAL);
    assert_eq!(release.queue_family, vk::QUEUE_FAMILY_EXTERNAL);
    assert_eq!(acquire.state, 0x10);
    assert_eq!(acquire.range, release.range);
    assert_eq!(acquire.range.mip_level_count, 1);
    assert_eq!(acquire.range.array_layer_count, 1);
}

#[test]
fn fence_is_imported_once_and_waits_at_the_top_of_the_pipe() {
    let mut sync = VulkanExternalSync::<Handles>::new(5);
    assert!(matches!(sync.import(), SyncImportStep::CreateSemaphore(5)));
    assert!(matches!(
        sync.import(),
        SyncImportStep::Finished(Err(code))
            if code == vk::Result::ERROR_INVALID_EXTERNAL_HANDLE.as_raw()
    ));
    assert!(matches!(
        sync.import_finished(8, Ok(())),
        SyncImportEnd::Wait { stage } if stage == vk::PipelineStageFlags::TOP_OF_PIPE.as_raw()
    ));
    assert!(matches!(sync.import(), SyncImportStep::Finished(Ok(()))));
    assert_eq!(sync.destroy_semaphore(), Some(8));
    assert_eq!(sync.destroy_semaphore(), None);
}

#[test]
fn refused_import_hands_the_semaphore_back() {
    let mut sync = VulkanExternalSync::<Handles>::new(5);
    sync.import();
    assert!(matches!(
        sync.import_finished(8, Err(-13)),
        SyncImportEnd::Undo { semaphore: 8, error: -13 }
    ));
    assert_eq!(sync.semaphore, None);
}

#[test]
fn frame_without_queue_fails_to_initialize() {
    let mut frame = external(1);
    assert!(matches!(
        frame.import_sync(false),
        SyncImportStep::Finished(Err(code))
            if code == vk::Result::ERROR_INITIALIZATION_FAILED.as_raw()
    ));
    assert!(matches!(frame.import_sync(true), SyncImportStep::CreateSemaphore(17)));
}

#[test]
fn scene_draws_pictures_and_multiplanar_video_of_a_texture() {
    let transform = Nv12ColorTransform::default();
    let planes = SurfaceContent::WgpuTextureNv12 { y_texture: 3, cb_cr_texture: 4 };
    let multiplanar =
        SurfaceContent::WgpuTextureNv12Multiplanar { texture: 5, color_transform: transform };
    let scene = scene(vec![
        surface(SurfaceContent::WgpuTexture { texture: 2 }),
        surface(planes),
        surface(multiplanar),
        surface(SurfaceContent::Platform),
    ]);
    assert!(scene_contains_texture(&scene, 2));
    assert!(!scene_contains_texture(&scene, 3));
    assert!(!scene_contains_texture(&scene, 4));
    assert!(scene_contains_texture(&scene, 5));
}

#[test]
fn selected_external_frame_is_acquired_shown_and_released() {
    let mut state = Frames::default();
    state.stage(
        Backend::Vulkan,
        ExternalFrameAcquisition::Prepared,
        Some(PendingExternalFrame::Prepared(external(2))),
    );
    assert_eq!(state.prepare_frame(None), ExternalFrameOutcome::Accepted);
    assert_eq!(state.selection_for_scene(&scene_of(9)), None);
    let slot = state.selection_for_scene(&scene_of(2)).unwrap();
    assert_eq!(slot, ExternalFrameSlot::Latest);
    assert!(state.selected_is_external(slot));
    assert!(!state.selected_is_external(ExternalFrameSlot::Displayed));
    let acquire = state.encode_acquire(slot).unwrap();
    assert_eq!(state.transfer_encoded(slot, true), ExternalFrameOutcome::Accepted);
    let release = state.encode_release(slot).unwrap().unwrap();
    assert_eq!(acquire.queue_family, release.queue_family);
    assert!(matches!(state.import_sync(slot, true), FrameSyncStep::CreateSemaphore(17)));
    assert!(matches!(
        state.import_sync_finished(6, Ok(())),
        FrameSyncEnd::Wait { stage: 1 }
    ));
    let work = state.commit_after_submission_with_queue(Some(slot)).unwrap();
    assert_eq!(work.texture, 2);
    assert_eq!(work.external_sync.unwrap().semaphore, Some(6));
    assert!(state.latest().is_none());
    assert_eq!(
        state.selection_for_scene(&scene_of(2)),
        Some(ExternalFrameSlot::Displayed)
    );
    assert!(matches!(
        state.import_sync(ExternalFrameSlot::Displayed, true),
        FrameSyncStep::Finished(ExternalFrameOutcome::Accepted)
    ));
    let again = state
        .commit_after_submission_with_queue(Some(ExternalFrameSlot::Displayed))
        .unwrap();
    assert!(again.external_sync.is_none());
}

#[test]
fn failed_steps_drop_the_latest_frame_and_keep_the_displayed_one() {
    let fresh = || {
        let mut state = Frames::default();
        state.displayed = Some(PendingExternalFrame::Prepared(external(1)));
        state.latest = Some(PendingExternalFrame::Prepared(external(2)));
        state
    };
    let slot = ExternalFrameSlot::Latest;

    let mut state = fresh();
    assert_eq!(state.transfer_encoded(slot, false), ExternalFrameOutcome::FatalFailure);
    assert!(state.latest().is_none());
    assert_eq!(
        state.selection_for_scene(&scene_of(1)),
        Some(ExternalFrameSlot::Displayed)
    );

    let mut state = fresh();
    assert!(matches!(
        state.import_sync(slot, false),
        FrameSyncStep::Finished(ExternalFrameOutcome::FatalFailure)
    ));
    assert!(state.latest().is_none());
    assert!(state.displayed().is_some());

    let mut state = fresh();
    assert_eq!(state.import_sync_failed(slot, -2), ExternalFrameOutcome::FatalFailure);
    assert!(state.latest().is_none());
    assert!(state.displayed().is_some());

    let mut state = fresh();
    state.import_sync(slot, true);
    assert!(matches!(
        state.import_sync_finished(4, Err(-1_000_072_003)),
        FrameSyncEnd::Undo { semaphore: 4, outcome: ExternalFrameOutcome::TransientFailure }
    ));
    assert!(state.latest().is_none());
    assert!(state.displayed().is_some());

    let mut state = fresh();
    state.clear_selected_latest(ExternalFrameSlot::Displayed);
    assert!(state.latest().is_some());
    assert!(state.displayed().is_some());
}

#[test]
fn nv12_frame_is_prepared_on_a_capable_device_only() {
    let staged = |ownership| {
        let mut state = Frames::default();
        state.latest = Some(PendingExternalFrame::Nv12(nv12(4, ownership)));
        state
    };
    let mut state = staged(ExternalOwnership::Foreign);
    assert_eq!(state.prepare_frame(Some(&capable())), ExternalFrameOutcome::Accepted);
    assert_eq!(
        state.selection_for_scene(&scene_of(4)),
        Some(ExternalFrameSlot::Latest)
    );
    assert_eq!(
        state.encode_acquire(ExternalFrameSlot::Latest).unwrap().queue_family,
        vk::QUEUE_FAMILY_FOREIGN_EXT
    );

    let mut state = staged(ExternalOwnership::Foreign);
    assert_eq!(state.prepare_frame(None), ExternalFrameOutcome::Unsupported);
    assert!(state.latest().is_none());

    for context in [
        GpuContextHandle { backend: Backend::Metal, ..capable() },
        GpuContextHandle { features: DeviceFeatures { native: 0, web: 0 }, ..capable() },
        GpuContextHandle { hal_device: false, ..capable() },
        GpuContextHandle { external_semaphore_fd: false, ..capable() },
        GpuContextHandle { queue_family_foreign: false, ..capable() },
    ] {
        let mut state = staged(ExternalOwnership::Foreign);
        assert_eq!(state.prepare_frame(Some(&context)), ExternalFrameOutcome::Unsupported);
        assert!(state.latest().is_none());
    }
    let mut state = staged(ExternalOwnership::External);
    let context = GpuContextHandle { queue_family_foreign: false, ..capable() };
    assert_eq!(state.prepare_frame(Some(&context)), ExternalFrameOutcome::Accepted);
}

#[test]
fn unprepared_nv12_frame_is_neither_drawn_nor_given_back() {
    let mut state = Frames::default();
    state.latest = Some(PendingExternalFrame::Nv12(nv12(4, ExternalOwnership::External)));
    assert_eq!(state.selection_for_scene(&scene_of(4)), None);
    assert!(!state.selected_is_external(ExternalFrameSlot::Latest));
    assert!(state.encode_acquire(ExternalFrameSlot::Latest).is_none());
    assert_eq!(
        state.encode_release(ExternalFrameSlot::Latest),
        Err(ExternalFrameOutcome::FatalFailure)
    );
    assert!(matches!(
        state.import_sync(ExternalFrameSlot::Latest, true),
        FrameSyncStep::Finished(ExternalFrameOutcome::FatalFailure)
    ));
    assert!(state.latest().is_none());
}

#[test]
fn undrawn_latest_frame_waits_for_its_scene() {
    let mut state = Frames::default();
    state.displayed = Some(PendingExternalFrame::Prepared(PreparedExternalFrame::new(texture(1))));
    state.latest = Some(PendingExternalFrame::Prepared(PreparedExternalFrame::new(texture(2))));
    let slot = state.selection_for_scene(&scene_of(1));
    assert_eq!(slot, Some(ExternalFrameSlot::Displayed));
    assert!(state.commit_after_submission_with_queue(slot).is_none());
    assert!(state.latest().is_some());
    let slot = state.selection_for_scene(&scene_of(7));
    assert_eq!(slot, None);
    assert!(state.commit_after_submission_with_queue(slot).is_none());
    assert!(state.latest().is_some());
}

#[test]
fn selected_frame_can_be_changed_in_place() {
    let mut state = Frames::default();
    state.latest = Some(PendingExternalFrame::Prepared(external(1)));
    assert!(state.selected_mut(ExternalFrameSlot::Displayed).is_none());
    if let Some(frame) = state.selected_mut(ExternalFrameSlot::Latest) {
        *frame = PendingExternalFrame::Prepared(external(3));
    }
    assert_eq!(
        state.selection_for_scene(&scene_of(3)),
        Some(ExternalFrameSlot::Latest)
    );
}
