//! The single steps of drawing a frame: each takes what the GPU answered to the
//! last one and says what to do next.
use crate::draw::{FrameError, FrameTargets};
use crate::external::{
    AcquireBarrier, ExternalFrameOutcome, GpuContextHandle, GpuHandles, ReleaseBarrier,
    SubmittedWork,
};
use crate::external_state::{
    handle_of, ExternalFrameSlot, ExternalFrameState, FrameSyncEnd, FrameSyncStep,
    PendingExternalFrame,
};
use crate::frame::{FrameRecorder, RecordedFrame};
use crate::instances::InstanceMemory;
use crate::renderer::{invalidated, Platform, WgpuRenderer, WgpuResources};
use crate::scene::Scene;
use crate::surface_config::SurfaceConfiguration;
use crate::vulkan_sync::sync_error_outcome;
use vstd::prelude::*;

verus! {

/// What drawing starts with.
#[derive(Clone, Copy, Debug, PartialEq, Eq, Structural)]
pub enum DrawAction {
    /// Nothing: the surface waits to be configured.
    Stop,
    /// Report that the browser's graphics context is lost for good.
    ReportLostContext,
    /// Clear the atlas: too many frames in a row failed.
    ClearAtlas,
    /// Prepare the atlas for the frame and acquire a surface texture.
    AcquireTexture,
}

/// The start of a frame.
#[derive(Debug)]
pub struct DrawStart {
    /// An error of the last frame to report, with the number of failures in a
    /// row.
    pub failure: Option<(u32, String)>,
    pub action: DrawAction,
}

/// What a surface answers when it is asked for a texture.
#[derive(Clone, Copy, Debug, PartialEq, Eq, Structural)]
pub enum CurrentSurfaceTexture {
    Success,
    Suboptimal,
    Timeout,
    Occluded,
    Outdated,
    Lost,
    Validation,
}

/// What follows from that answer.
#[derive(Clone, Copy, Debug, PartialEq, Eq, Structural)]
pub enum AcquiredAction {
    /// Draw into the texture.
    Draw,
    /// Drop the texture, if there is one, and configure the surface again.
    Reconfigure(SurfaceConfiguration),
    /// Try again with the next frame.
    Stop,
}

/// Why a frame was not submitted.
#[derive(Clone, Copy, Debug, PartialEq, Eq, Structural)]
pub enum RecordError {
    Frame(FrameError),
    ExternalPreparation,
    ExternalAcquire,
    ExternalRelease,
    ExternalSync,
}

impl RecordError {
    /// The reason in words, where it holds no numbers.
    pub open spec fn text(self) -> Option<&'static str> {
        match self {
            RecordError::Frame(FrameError::SceneTooLarge(_)) => None,
            RecordError::Frame(FrameError::Paths(_)) => None,
            RecordError::Frame(FrameError::SurfacesExhausted) => Some(
                "surface instance buffer exhausted",
            ),
            RecordError::ExternalPreparation => Some("external frame preparation failed"),
            RecordError::ExternalAcquire => Some("external frame acquire encoding failed"),
            RecordError::ExternalRelease => Some("external frame release encoding failed"),
            RecordError::ExternalSync => Some("external frame acquire preparation failed"),
        }
    }

    /// The reason in words, where it holds no numbers.
    pub fn message(&self) -> (result: Option<&'static str>)
        ensures
            result == self.text(),
    {
        match *self {
            RecordError::Frame(FrameError::SceneTooLarge(_)) => None,
            RecordError::Frame(FrameError::Paths(_)) => None,
            RecordError::Frame(FrameError::SurfacesExhausted) => Some(
                "surface instance buffer exhausted",
            ),
            RecordError::ExternalPreparation => Some("external frame preparation failed"),
            RecordError::ExternalAcquire => Some("external frame acquire encoding failed"),
            RecordError::ExternalRelease => Some("external frame release encoding failed"),
            RecordError::ExternalSync => Some("external frame acquire preparation failed"),
        }
    }
}

impl<H: GpuHandles> WgpuRenderer<H> {
    /// What drawing starts with, and the renderer after that. An error of the
    /// last frame counts as a failure; the sixth in a row clears what could be
    /// the cause. A frame without one starts the count again.
    pub open spec fn draw_started(self, device_lost: bool, last_error: bool) -> (Self, DrawAction) {
        if self.platform == Platform::Browser && device_lost {
            (
                WgpuRenderer { surface_configured: false, ..self },
                if self.surface_configured {
                    DrawAction::ReportLostContext
                } else {
                    DrawAction::Stop
                },
            )
        } else if !self.surface_configured {
            (self, DrawAction::Stop)
        } else if !last_error {
            (WgpuRenderer { failed_frame_count: 0, ..self }, DrawAction::AcquireTexture)
        } else if self.failed_frame_count < 5 {
            (
                WgpuRenderer {
                    failed_frame_count: (self.failed_frame_count + 1) as u32,
                    ..self
                },
                DrawAction::AcquireTexture,
            )
        } else {
            (
                WgpuRenderer {
                    failed_frame_count: 0,
                    needs_redraw: true,
                    resources: invalidated(self.resources),
                    ..self
                },
                DrawAction::ClearAtlas,
            )
        }
    }

    /// The last frame's error is looked at.
    pub open spec fn looks_at_error(self, device_lost: bool) -> bool {
        self.surface_configured && !(self.platform == Platform::Browser && device_lost)
    }

    /// What is told of an error of the last frame, and what is left of it: an
    /// error that is looked at is told, with the number of failures in a row, and
    /// taken out; any other is kept for later.
    pub open spec fn error_told(self, device_lost: bool, last_error: Option<String>) -> (
        Option<(u32, String)>,
        Option<String>,
    ) {
        if self.looks_at_error(device_lost) {
            match last_error {
                Some(error) => (Some(((self.failed_frame_count + 1) as u32, error)), None),
                None => (None, None),
            }
        } else {
            (None, last_error)
        }
    }

    /// Starts drawing a frame. `last_error` holds what the GPU reported since
    /// the last one; it is taken out when it is acted on.
    pub fn draw(&mut self, device_lost: bool, last_error: &mut Option<String>) -> (result: DrawStart)
        requires
            old(self).wf(),
        ensures
            final(self).wf(),
            *final(self) == old(self).draw_started(device_lost, *old(last_error) is Some).0,
            result.action == old(self).draw_started(device_lost, *old(last_error) is Some).1,
            result.failure == old(self).error_told(device_lost, *old(last_error)).0,
            *final(last_error) == old(self).error_told(device_lost, *old(last_error)).1,
            if old(self).looks_at_error(device_lost) {
                &&& *final(last_error) is None
                &&& match *old(last_error) {
                    Some(error) => result.failure == Some(
                        ((old(self).failed_frame_count + 1) as u32, error),
                    ),
                    None => result.failure is None,
                }
            } else {
                &&& *final(last_error) == *old(last_error)
                &&& result.failure is None
            },
    {
        if self.platform == Platform::Browser && device_lost {
            let configured: bool = self.surface_configured;
            self.surface_configured = false;
            return DrawStart {
                failure: None,
                action: if configured {
                    DrawAction::ReportLostContext
                } else {
                    DrawAction::Stop
                },
            };
        }
        if !self.surface_configured {
            return DrawStart { failure: None, action: DrawAction::Stop };
        }
        match last_error.take() {
            Some(error) => {
                self.failed_frame_count = self.failed_frame_count + 1;
                let failure = Some((self.failed_frame_count, error));
                if self.failed_frame_count > 5 {
                    if self.resources.is_some() {
                        self.resources_mut().invalidate_intermediate_textures();
                    }
                    self.needs_redraw = true;
                    self.failed_frame_count = 0;
                    return DrawStart { failure, action: DrawAction::ClearAtlas };
                }
                DrawStart { failure, action: DrawAction::AcquireTexture }
            },
            None => {
                self.failed_frame_count = 0;
                DrawStart { failure: None, action: DrawAction::AcquireTexture }
            },
        }
    }

    /// What follows from the surface's answer.
    pub open spec fn answered(self, answer: CurrentSurfaceTexture) -> AcquiredAction {
        match answer {
            CurrentSurfaceTexture::Success => AcquiredAction::Draw,
            CurrentSurfaceTexture::Suboptimal
            | CurrentSurfaceTexture::Lost
            | CurrentSurfaceTexture::Outdated => AcquiredAction::Reconfigure(self.surface_config),
            CurrentSurfaceTexture::Timeout
            | CurrentSurfaceTexture::Occluded
            | CurrentSurfaceTexture::Validation => AcquiredAction::Stop,
        }
    }

    /// The surface answered. An invalid texture is remembered as an error.
    pub fn texture_acquired(
        &self,
        answer: CurrentSurfaceTexture,
        last_error: &mut Option<String>,
    ) -> (result: AcquiredAction)
        ensures
            result == self.answered(answer),
            result == match answer {
                CurrentSurfaceTexture::Success => AcquiredAction::Draw,
                CurrentSurfaceTexture::Suboptimal
                | CurrentSurfaceTexture::Lost
                | CurrentSurfaceTexture::Outdated => AcquiredAction::Reconfigure(
                    self.surface_config,
                ),
                CurrentSurfaceTexture::Timeout
                | CurrentSurfaceTexture::Occluded
                | CurrentSurfaceTexture::Validation => AcquiredAction::Stop,
            },
            if answer == CurrentSurfaceTexture::Validation {
                *final(last_error) matches Some(error) && error@
                    == "Surface texture validation error"@
            } else {
                *final(last_error) == *old(last_error)
            },
    {
        match answer {
            CurrentSurfaceTexture::Success => AcquiredAction::Draw,
            CurrentSurfaceTexture::Suboptimal
            | CurrentSurfaceTexture::Lost
            | CurrentSurfaceTexture::Outdated => AcquiredAction::Reconfigure(self.surface_config),
            CurrentSurfaceTexture::Timeout | CurrentSurfaceTexture::Occluded => {
                AcquiredAction::Stop
            },
            CurrentSurfaceTexture::Validation => {
                *last_error = Some("Surface texture validation error".to_string());
                AcquiredAction::Stop
            },
        }
    }
}

/// A frame that is being recorded.
#[derive(Debug)]
pub struct FrameInProgress {
    pub recorder: FrameRecorder,
    /// The external frame that the scene draws.
    pub selection: Option<ExternalFrameSlot>,
    /// Another producer owns that frame's image: it is taken over before the
    /// frame is rendered and given back after.
    pub external: bool,
}

/// The command buffers of a frame.
#[derive(Clone, Copy, Debug, PartialEq, Eq, Structural)]
pub enum CommandBuffer {
    Acquire,
    Render,
    Release,
}

impl FrameInProgress {
    /// The command buffers to submit, in order.
    pub open spec fn buffers(self) -> Seq<CommandBuffer> {
        if self.external {
            seq![CommandBuffer::Acquire, CommandBuffer::Render, CommandBuffer::Release]
        } else {
            seq![CommandBuffer::Render]
        }
    }

    /// The command buffers to submit, in order.
    pub fn submission(&self) -> (result: Vec<CommandBuffer>)
        ensures
            result@ == self.buffers(),
            result@ == if self.external {
                seq![CommandBuffer::Acquire, CommandBuffer::Render, CommandBuffer::Release]
            } else {
                seq![CommandBuffer::Render]
            },
    {
        if self.external {
            vec![CommandBuffer::Acquire, CommandBuffer::Render, CommandBuffer::Release]
        } else {
            vec![CommandBuffer::Render]
        }
    }
}

/// A frame of which nothing is recorded.
pub open spec fn empty_frame(memory: InstanceMemory) -> RecordedFrame {
    RecordedFrame {
        memory,
        offset: 0,
        bindings: Seq::empty(),
        videos: Seq::empty(),
        commands: Seq::empty(),
    }
}

impl<H: GpuHandles> WgpuRenderer<H> {
    /// The renderer with other external frames, and with the outcome of what
    /// was done to them where that failed.
    pub open spec fn with_external(
        self,
        external_frames: ExternalFrameState<PendingExternalFrame<H>>,
        failure: Option<ExternalFrameOutcome>,
    ) -> Self {
        WgpuRenderer {
            external_frames,
            last_external_frame_outcome: if failure is Some {
                failure
            } else {
                self.last_external_frame_outcome
            },
            ..self
        }
    }

    /// Starts recording: binds the scene's primitives and prepares and selects
    /// the external frame. Gives the frame as far as it is recorded, and the
    /// transfer to record first, if any.
    pub fn start_frame(&mut self, scene: &Scene, context: Option<&GpuContextHandle>) -> (result: (
        FrameInProgress,
        Result<Option<AcquireBarrier>, RecordError>,
    ))
        requires
            old(self).wf(),
            scene.wf(),
        ensures
            final(self).wf(),
            ({
                let (bound, error) = empty_frame(old(self).memory).primitives_bound(*scene, 6);
                let started = WgpuRenderer { memory: bound.memory, ..*old(self) };
                let frames = old(self).external_frames.prepared(handle_of(context));
                let (frame, answer) = result;
                &&& frame.recorder@ == bound
                &&& if let Some(error) = error {
                    &&& *final(self) == started
                    &&& frame.selection is None
                    &&& !frame.external
                    &&& answer == Err::<Option<AcquireBarrier>, RecordError>(
                        RecordError::Frame(FrameError::SceneTooLarge(error)),
                    )
                } else if old(self).platform != Platform::Linux {
                    &&& *final(self) == started
                    &&& frame.selection is None
                    &&& !frame.external
                    &&& answer == Ok::<Option<AcquireBarrier>, RecordError>(None)
                } else if old(self).external_frames.unpreparable(handle_of(context)) {
                    &&& *final(self) == started.with_external(
                        frames,
                        Some(ExternalFrameOutcome::Unsupported),
                    )
                    &&& frame.selection is None
                    &&& !frame.external
                    &&& answer == Err::<Option<AcquireBarrier>, RecordError>(
                        RecordError::ExternalPreparation,
                    )
                } else {
                    &&& *final(self) == started.with_external(frames, None)
                    &&& frame.selection == frames.drawn_slot(*scene)
                    &&& match frame.selection {
                        Some(slot) => {
                            &&& frame.external == frames.external_in(slot)
                            &&& answer == Ok::<Option<AcquireBarrier>, RecordError>(
                                frames.acquire_in(slot),
                            )
                        },
                        None => {
                            &&& !frame.external
                            &&& answer == Ok::<Option<AcquireBarrier>, RecordError>(None)
                        },
                    }
                }
            }),
            result.0.recorder@.wf(),
            result.0.recorder@.memory == final(self).memory,
            result.1 is Ok ==> result.0.recorder@.holds(*scene),
            final(self).external_frames.displayed == old(self).external_frames.displayed,
    {
        let mut recorder = FrameRecorder::new(self.memory);
        let bound = recorder.write_instances(scene);
        self.memory = recorder.memory;
        let mut frame = FrameInProgress { recorder, selection: None, external: false };
        if let Err(error) = bound {
            return (frame, Err(RecordError::Frame(FrameError::SceneTooLarge(error))));
        }
        if self.platform != Platform::Linux {
            return (frame, Ok(None));
        }
        let outcome = self.external_frames.prepare_frame(context);
        if outcome != ExternalFrameOutcome::Accepted {
            self.last_external_frame_outcome = Some(outcome);
            return (frame, Err(RecordError::ExternalPreparation));
        }
        frame.selection = self.external_frames.selection_for_scene(scene);
        match frame.selection {
            Some(slot) => {
                frame.external = self.external_frames.selected_is_external(slot);
                let barrier = self.external_frames.encode_acquire(slot);
                (frame, Ok(barrier))
            },
            None => (frame, Ok(None)),
        }
    }

    /// The transfer that takes the selected frame over was recorded, or could
    /// not be.
    pub fn acquire_recorded(&mut self, slot: ExternalFrameSlot, recorded: bool) -> (result: Result<
        (),
        RecordError,
    >)
        requires
            old(self).wf(),
        ensures
            final(self).wf(),
            recorded ==> result == Ok::<(), RecordError>(()) && *final(self) == *old(self),
            !recorded ==> {
                &&& result == Err::<(), RecordError>(RecordError::ExternalAcquire)
                &&& *final(self) == old(self).with_external(
                    old(self).external_frames.failed(slot),
                    Some(ExternalFrameOutcome::FatalFailure),
                )
            },
            final(self).external_frames.displayed == old(self).external_frames.displayed,
    {
        let outcome = self.external_frames.transfer_encoded(slot, recorded);
        if outcome != ExternalFrameOutcome::Accepted {
            self.last_external_frame_outcome = Some(outcome);
            return Err(RecordError::ExternalAcquire);
        }
        Ok(())
    }

    /// What the renderer has that recording depends on.
    pub open spec fn targets(self) -> FrameTargets {
        let resources = self.resources->0;
        FrameTargets {
            subpixel_sprites: resources.pipelines.subpixel_sprites is Some,
            path_intermediate: resources.path_intermediate is Some,
            path_msaa: resources.path_msaa is Some,
        }
    }

    /// Records the pass that draws the scene.
    pub fn record_scene(&mut self, frame: &mut FrameInProgress, scene: &Scene) -> (result: Result<
        (),
        RecordError,
    >)
        requires
            old(self).wf(),
            old(self).resources is Some,
            old(frame).recorder@.wf(),
            old(frame).recorder@.holds(*scene),
            old(frame).recorder@.memory == old(self).memory,
            scene.wf(),
        ensures
            final(self).wf(),
            final(frame).recorder@ == old(frame).recorder@.scene_recorded(
                *scene,
                old(self).targets(),
            ).0,
            final(frame).recorder@.wf(),
            final(frame).selection == old(frame).selection,
            final(frame).external == old(frame).external,
            *final(self) == (WgpuRenderer {
                memory: final(frame).recorder@.memory,
                ..*old(self)
            }),
            match old(frame).recorder@.scene_recorded(*scene, old(self).targets()).1 {
                Some(error) => result == Err::<(), RecordError>(RecordError::Frame(error)),
                None => result == Ok::<(), RecordError>(()),
            },
    {
        let resources: &WgpuResources = self.resources();
        let targets = FrameTargets {
            subpixel_sprites: resources.pipelines.subpixel_sprites.is_some(),
            path_intermediate: resources.path_intermediate.is_some(),
            path_msaa: resources.path_msaa.is_some(),
        };
        let recorded = frame.recorder.record_scene(scene, &targets);
        self.memory = frame.recorder.memory;
        match recorded {
            Ok(()) => Ok(()),
            Err(error) => Err(RecordError::Frame(error)),
        }
    }

    /// The transfer to record after the scene, which gives the selected frame
    /// back. A frame that is not prepared cannot be given back.
    pub fn release(&mut self, slot: ExternalFrameSlot) -> (result: Result<
        Option<ReleaseBarrier>,
        RecordError,
    >)
        requires
            old(self).wf(),
        ensures
            final(self).wf(),
            match old(self).external_frames.release_in(slot) {
                Ok(barrier) => {
                    &&& result == Ok::<Option<ReleaseBarrier>, RecordError>(barrier)
                    &&& *final(self) == *old(self)
                },
                Err(outcome) => {
                    &&& result == Err::<Option<ReleaseBarrier>, RecordError>(
                        RecordError::ExternalRelease,
                    )
                    &&& *final(self) == old(self).with_external(
                        old(self).external_frames,
                        Some(outcome),
                    )
                },
            },
    {
        match self.external_frames.encode_release(slot) {
            Ok(barrier) => Ok(barrier),
            Err(outcome) => {
                self.last_external_frame_outcome = Some(outcome);
                Err(RecordError::ExternalRelease)
            },
        }
    }

    /// The transfer that gives the selected frame back was recorded, or could
    /// not be.
    pub fn release_recorded(&mut self, slot: ExternalFrameSlot, recorded: bool) -> (result: Result<
        (),
        RecordError,
    >)
        requires
            old(self).wf(),
        ensures
            final(self).wf(),
            recorded ==> result == Ok::<(), RecordError>(()) && *final(self) == *old(self),
            !recorded ==> {
                &&& result == Err::<(), RecordError>(RecordError::ExternalRelease)
                &&& *final(self) == old(self).with_external(
                    old(self).external_frames.failed(slot),
                    Some(ExternalFrameOutcome::FatalFailure),
                )
            },
            final(self).external_frames.displayed == old(self).external_frames.displayed,
    {
        let outcome = self.external_frames.transfer_encoded(slot, recorded);
        if outcome != ExternalFrameOutcome::Accepted {
            self.last_external_frame_outcome = Some(outcome);
            return Err(RecordError::ExternalRelease);
        }
        Ok(())
    }

    /// Starts importing the selected frame's fence: gives the file to import
    /// into a new semaphore, if that is needed.
    pub fn import_sync(&mut self, slot: ExternalFrameSlot, hal_queue: bool) -> (result: Result<
        Option<H::SyncFile>,
        RecordError,
    >)
        requires
            old(self).wf(),
        ensures
            final(self).wf(),
            ({
                let frames = old(self).external_frames.after_sync_step(slot, hal_queue);
                match old(self).external_frames.sync_step(slot, hal_queue) {
                    FrameSyncStep::Finished(ExternalFrameOutcome::Accepted) => {
                        &&& result == Ok::<Option<H::SyncFile>, RecordError>(None)
                        &&& *final(self) == *old(self)
                    },
                    FrameSyncStep::Finished(outcome) => {
                        &&& result == Err::<Option<H::SyncFile>, RecordError>(
                            RecordError::ExternalSync,
                        )
                        &&& *final(self) == old(self).with_external(frames, Some(outcome))
                    },
                    FrameSyncStep::CreateSemaphore(file) => {
                        &&& result == Ok::<Option<H::SyncFile>, RecordError>(Some(file))
                        &&& *final(self) == old(self).with_external(frames, None)
                        &&& slot == ExternalFrameSlot::Latest
                        &&& final(self).external_frames.importing()
                    },
                }
            }),
            final(self).external_frames.displayed == old(self).external_frames.displayed,
    {
        match self.external_frames.import_sync(slot, hal_queue) {
            FrameSyncStep::Finished(outcome) => {
                if outcome != ExternalFrameOutcome::Accepted {
                    self.last_external_frame_outcome = Some(outcome);
                    return Err(RecordError::ExternalSync);
                }
                Ok(None)
            },
            FrameSyncStep::CreateSemaphore(file) => Ok(Some(file)),
        }
    }

    /// No semaphore could be created for the selected frame's fence.
    pub fn import_sync_failed(&mut self, slot: ExternalFrameSlot, error: i32) -> (result:
        RecordError)
        requires
            old(self).wf(),
        ensures
            final(self).wf(),
            result == RecordError::ExternalSync,
            *final(self) == old(self).with_external(
                old(self).external_frames.failed(slot),
                Some(sync_error_outcome(error)),
            ),
            final(self).external_frames.displayed == old(self).external_frames.displayed,
    {
        let outcome = self.external_frames.import_sync_failed(slot, error);
        self.last_external_frame_outcome = Some(outcome);
        RecordError::ExternalSync
    }

    /// Vulkan answered the import of the latest frame's fence. Gives the stage
    /// at which the next submission waits for the semaphore, or hands the
    /// semaphore back.
    pub fn import_sync_finished(
        &mut self,
        semaphore: H::Semaphore,
        answer: Result<(), i32>,
    ) -> (result: Result<u32, (H::Semaphore, RecordError)>)
        requires
            old(self).wf(),
            old(self).external_frames.importing(),
        ensures
            final(self).wf(),
            ({
                let frames = old(self).external_frames.after_sync_import(semaphore, answer);
                match answer {
                    Ok(()) => {
                        &&& result == Ok::<u32, (H::Semaphore, RecordError)>(0x1)
                        &&& *final(self) == old(self).with_external(frames, None)
                    },
                    Err(error) => {
                        &&& result == Err::<u32, (H::Semaphore, RecordError)>(
                            (semaphore, RecordError::ExternalSync),
                        )
                        &&& *final(self) == old(self).with_external(
                            frames,
                            Some(sync_error_outcome(error)),
                        )
                    },
                }
            }),
            final(self).external_frames.displayed == old(self).external_frames.displayed,
    {
        match self.external_frames.import_sync_finished(semaphore, answer) {
            FrameSyncEnd::Wait { stage } => Ok(stage),
            FrameSyncEnd::Undo { semaphore, outcome } => {
                self.last_external_frame_outcome = Some(outcome);
                Err((semaphore, RecordError::ExternalSync))
            },
        }
    }

    /// The external frames after a frame was submitted that drew the one in
    /// `selection`. Without selection, every latest frame counts as drawn.
    pub open spec fn frames_submitted(self, selection: Option<ExternalFrameSlot>) -> ExternalFrameState<
        PendingExternalFrame<H>,
    > {
        if self.platform == Platform::Linux {
            self.external_frames.committed(selection)
        } else {
            self.external_frames.submitted()
        }
    }

    /// The frame was submitted. Hands out what has to live until its work is
    /// done.
    pub fn frame_submitted(&mut self, selection: Option<ExternalFrameSlot>) -> (result: Option<
        SubmittedWork<H>,
    >)
        requires
            old(self).wf(),
        ensures
            final(self).wf(),
            *final(self) == old(self).with_external(old(self).frames_submitted(selection), None),
            result == if old(self).platform == Platform::Linux {
                old(self).external_frames.commit_work(selection)
            } else {
                None
            },
    {
        if self.platform == Platform::Linux {
            self.external_frames.commit_after_submission_with_queue(selection)
        } else {
            self.external_frames.commit_after_submission();
            None
        }
    }
}

impl<H: GpuHandles> WgpuRenderer<H> {
    /// The renderer after `count` frames in a row that started with an error of
    /// the one before.
    pub open spec fn after_failures(self, count: nat) -> Self
        decreases count,
    {
        if count == 0 {
            self
        } else {
            self.after_failures((count - 1) as nat).draw_started(false, true).0
        }
    }
}

/// Up to five failures in a row are retried. The sixth clears the atlas, asks
/// for a redraw and starts the count again, so that failures never pile up.
pub proof fn sixth_failure_in_a_row_clears_the_atlas<H: GpuHandles>(
    renderer: WgpuRenderer<H>,
    count: nat,
)
    requires
        renderer.surface_configured,
        renderer.failed_frame_count == 0,
        count <= 5,
    ensures
        renderer.after_failures(count).failed_frame_count == count,
        renderer.after_failures(count).draw_started(false, true).1 == if count < 5 {
            DrawAction::AcquireTexture
        } else {
            DrawAction::ClearAtlas
        },
        count == 5 ==> {
            &&& renderer.after_failures(6).failed_frame_count == 0
            &&& renderer.after_failures(6).needs_redraw
            &&& renderer.after_failures(6).resources == invalidated(renderer.resources)
        },
        renderer.after_failures(count) == (WgpuRenderer {
            failed_frame_count: count as u32,
            ..renderer
        }),
    decreases count,
{
    if count > 0 {
        sixth_failure_in_a_row_clears_the_atlas(renderer, (count - 1) as nat);
    }
}

/// Nothing is drawn while the surface is unconfigured, and an error that the
/// GPU reported meanwhile is kept for later.
pub proof fn unconfigured_surface_draws_nothing<H: GpuHandles>(
    renderer: WgpuRenderer<H>,
    device_lost: bool,
    last_error: bool,
)
    requires
        !renderer.surface_configured,
    ensures
        renderer.draw_started(device_lost, last_error) == (renderer, DrawAction::Stop),
        !renderer.looks_at_error(device_lost),
{
}

/// Once a browser's context is lost, that is reported once and nothing is drawn
/// any more.
pub proof fn lost_browser_context_is_reported_once<H: GpuHandles>(
    renderer: WgpuRenderer<H>,
    first_error: bool,
    later_lost: bool,
    later_error: bool,
)
    requires
        renderer.platform == Platform::Browser,
        renderer.surface_configured,
    ensures
        ({
            let (after, action) = renderer.draw_started(true, first_error);
            &&& action == DrawAction::ReportLostContext
            &&& after.draw_started(later_lost, later_error) == (after, DrawAction::Stop)
        }),
{
}

/// After external frames were cleared, no scene draws one, and no submission
/// brings one back.
pub proof fn cleared_external_frames_are_not_drawn<H: GpuHandles>(scene: Scene)
    ensures
        ({
            let cleared = ExternalFrameState::<PendingExternalFrame<H>> {
                latest: None,
                displayed: None,
            };
            &&& cleared.drawn_slot(scene) is None
            &&& cleared.committed(cleared.drawn_slot(scene)) == cleared
        }),
{
}

} // verus!
