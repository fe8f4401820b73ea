//! The course of a frame from its scene to its submission: one event after the
//! other, each answered by the next thing to do.
use crate::draw::FrameError;
use crate::drawing::{empty_frame, FrameInProgress, RecordError};
use crate::external::{
    AcquireBarrier, ExternalFrameOutcome, GpuContextHandle, GpuHandles, ReleaseBarrier,
    SubmittedWork,
};
use crate::external_state::{handle_of, ExternalFrameSlot, FrameSyncStep};
use crate::frame::RecordedFrame;
use crate::renderer::{Platform, WgpuRenderer};
use crate::scene::Scene;
use crate::vulkan_sync::sync_error_outcome;
use vstd::prelude::*;

verus! {

/// How far a frame has come: what the next event answers.
#[derive(Clone, Copy, Debug, PartialEq, Eq, Structural)]
pub enum FrameStage {
    /// The external image is being taken over.
    Acquiring,
    /// The scene's commands are being encoded.
    Encoding,
    /// The external image is being given back.
    Releasing,
    /// The external frame's fence is being imported.
    Importing,
    /// The command buffers are being submitted.
    Submitting,
    /// Nothing is left to do.
    Finished,
}

impl FrameStage {
    /// The place of a stage in the course of a frame.
    pub open spec fn rank(self) -> int {
        match self {
            FrameStage::Acquiring => 0,
            FrameStage::Encoding => 1,
            FrameStage::Releasing => 2,
            FrameStage::Importing => 3,
            FrameStage::Submitting => 4,
            FrameStage::Finished => 5,
        }
    }

    /// The event answers what the stage is about.
    pub open spec fn expects<H: GpuHandles>(self, event: FrameEvent<H>) -> bool {
        match event {
            FrameEvent::AcquireRecorded(_) => self == FrameStage::Acquiring,
            FrameEvent::Encoded => self == FrameStage::Encoding,
            FrameEvent::ReleaseRecorded { .. } => self == FrameStage::Releasing,
            FrameEvent::SemaphoreRefused(_) => self == FrameStage::Importing,
            FrameEvent::SyncAnswered { .. } => self == FrameStage::Importing,
            FrameEvent::Submitted => self == FrameStage::Submitting,
        }
    }
}

/// What came of the last thing to do.
pub enum FrameEvent<H: GpuHandles> {
    /// The transfer that takes the image over was recorded, or could not be.
    AcquireRecorded(bool),
    /// The scene's commands were encoded.
    Encoded,
    /// The transfer that gives the image back was recorded, or could not be.
    ReleaseRecorded {
        recorded: bool,
        /// The Vulkan queue can be reached.
        hal_queue: bool,
    },
    /// No semaphore could be created.
    SemaphoreRefused(i32),
    /// Vulkan answered the import into the semaphore.
    SyncAnswered { semaphore: H::Semaphore, answer: Result<(), i32> },
    /// The command buffers were submitted.
    Submitted,
}

/// What to do next.
pub enum FrameAction<H: GpuHandles> {
    /// Record the transfer that takes the image in the slot over.
    RecordAcquire { slot: ExternalFrameSlot, acquire: AcquireBarrier },
    /// Encode the recorded commands.
    Encode,
    /// Record the transfer that gives the image in the slot back.
    RecordRelease { slot: ExternalFrameSlot, release: ReleaseBarrier },
    /// Create a semaphore and import this file into it.
    ImportSync { file: H::SyncFile },
    /// Wait for the imported semaphore at that stage, if there is one, and
    /// submit the frame's command buffers.
    Submit { wait: Option<u32> },
    /// Keep this, if anything, until the submitted work is done.
    Retain(Option<SubmittedWork<H>>),
    /// Destroy the semaphore and give the frame up.
    Undo { semaphore: H::Semaphore, error: RecordError },
    /// Give the frame up.
    Fail(RecordError),
}

/// A frame on its way to the screen.
#[derive(Debug)]
pub struct FrameCourse {
    pub frame: FrameInProgress,
    pub stage: FrameStage,
}

impl FrameCourse {
    /// The frame belongs to the renderer: they agree on the instance memory, and
    /// the external frame that is selected is still there.
    pub open spec fn belongs_to<H: GpuHandles>(self, renderer: WgpuRenderer<H>) -> bool {
        &&& self.frame.recorder@.wf()
        &&& self.frame.recorder@.memory == renderer.memory
        &&& self.frame.external ==> self.frame.selection is Some
        &&& self.frame.external && self.stage != FrameStage::Finished
            ==> renderer.external_frames.external_in(self.frame.selection->0)
        &&& self.stage == FrameStage::Acquiring ==> self.frame.external
            && renderer.resources is Some
        &&& self.stage == FrameStage::Releasing ==> self.frame.external
        &&& self.stage == FrameStage::Importing ==> {
            &&& self.frame.external
            &&& self.frame.selection == Some(ExternalFrameSlot::Latest)
            &&& renderer.external_frames.importing()
        }
    }

    /// The frame belongs to the renderer and, until the scene is recorded, holds
    /// the scene's primitives.
    pub open spec fn in_step<H: GpuHandles>(self, renderer: WgpuRenderer<H>, scene: Scene) -> bool {
        &&& self.belongs_to(renderer)
        &&& self.stage == FrameStage::Acquiring ==> self.frame.recorder@.holds(scene)
    }

    /// The frame goes on to `stage`, with what it has recorded.
    pub open spec fn goes_to(self, stage: FrameStage, next: Self) -> bool {
        &&& next.stage == stage
        &&& next.frame.recorder@ == self.frame.recorder@
        &&& next.frame.selection == self.frame.selection
        &&& next.frame.external == self.frame.external
    }
}

impl<H: GpuHandles> WgpuRenderer<H> {
    /// The scene was recorded in a frame, or did not fit.
    pub open spec fn scene_step(
        self,
        recorded: (RecordedFrame, Option<FrameError>),
        after: Self,
        course: FrameCourse,
        action: FrameAction<H>,
    ) -> bool {
        &&& after == (WgpuRenderer { memory: recorded.0.memory, ..self })
        &&& course.frame.recorder@ == recorded.0
        &&& match recorded.1 {
            None => {
                &&& action == FrameAction::<H>::Encode
                &&& course.stage == FrameStage::Encoding
            },
            Some(error) => {
                &&& action == FrameAction::<H>::Fail(RecordError::Frame(error))
                &&& course.stage == FrameStage::Finished
            },
        }
    }

    fn step_scene(&mut self, course: &mut FrameCourse, scene: &Scene) -> (result: FrameAction<H>)
        requires
            old(self).wf(),
            old(self).resources is Some,
            old(course).frame.recorder@.wf(),
            old(course).frame.recorder@.holds(*scene),
            old(course).frame.recorder@.memory == old(self).memory,
            scene.wf(),
        ensures
            final(self).wf(),
            old(self).scene_step(
                old(course).frame.recorder@.scene_recorded(*scene, old(self).targets()),
                *final(self),
                *final(course),
                result,
            ),
            final(course).frame.recorder@.wf(),
            final(course).frame.selection == old(course).frame.selection,
            final(course).frame.external == old(course).frame.external,
    {
        match self.record_scene(&mut course.frame, scene) {
            Ok(()) => {
                course.stage = FrameStage::Encoding;
                FrameAction::Encode
            },
            Err(error) => {
                course.stage = FrameStage::Finished;
                FrameAction::Fail(error)
            },
        }
    }

    /// What starting a frame makes of the renderer and the frame, and what is
    /// done next.
    pub open spec fn started_step(
        self,
        scene: Scene,
        context: Option<GpuContextHandle>,
        after: Self,
        course: FrameCourse,
        action: FrameAction<H>,
    ) -> bool {
        let (bound, error) = empty_frame(self.memory).primitives_bound(scene, 6);
        let started = WgpuRenderer { memory: bound.memory, ..self };
        let frames = self.external_frames.prepared(context);
        let slot = frames.drawn_slot(scene);
        if let Some(error) = error {
            &&& after == started
            &&& course.frame.recorder@ == bound
            &&& course.frame.selection is None && !course.frame.external
            &&& course.stage == FrameStage::Finished
            &&& action == FrameAction::<H>::Fail(
                RecordError::Frame(FrameError::SceneTooLarge(error)),
            )
        } else if self.platform != Platform::Linux {
            &&& started.scene_step(
                bound.scene_recorded(scene, self.targets()),
                after,
                course,
                action,
            )
            &&& course.frame.selection is None && !course.frame.external
        } else if self.external_frames.unpreparable(context) {
            &&& after == started.with_external(frames, Some(ExternalFrameOutcome::Unsupported))
            &&& course.frame.recorder@ == bound
            &&& course.frame.selection is None && !course.frame.external
            &&& course.stage == FrameStage::Finished
            &&& action == FrameAction::<H>::Fail(RecordError::ExternalPreparation)
        } else if slot is Some && frames.external_in(slot->0) {
            &&& after == started.with_external(frames, None)
            &&& course.frame.recorder@ == bound
            &&& course.frame.selection == slot && course.frame.external
            &&& course.stage == FrameStage::Acquiring
            &&& action == (FrameAction::<H>::RecordAcquire {
                slot: slot->0,
                acquire: frames.acquire_in(slot->0)->0,
            })
        } else {
            &&& started.with_external(frames, None).scene_step(
                bound.scene_recorded(scene, self.targets()),
                after,
                course,
                action,
            )
            &&& course.frame.selection == slot && !course.frame.external
        }
    }

    /// Starts a frame: binds the scene's primitives, prepares and selects the
    /// external frame, and goes on to the first thing that the GPU has to do.
    pub fn record_frame(&mut self, scene: &Scene, context: Option<&GpuContextHandle>) -> (result: (
        FrameCourse,
        FrameAction<H>,
    ))
        requires
            old(self).wf(),
            old(self).resources is Some,
            scene.wf(),
        ensures
            final(self).wf(),
            result.0.in_step(*final(self), *scene),
            old(self).started_step(
                *scene,
                handle_of(context),
                *final(self),
                result.0,
                result.1,
            ),
            ({
                let (bound, error) = empty_frame(old(self).memory).primitives_bound(*scene, 6);
                let started = WgpuRenderer { memory: bound.memory, ..*old(self) };
                let frames = old(self).external_frames.prepared(handle_of(context));
                let slot = frames.drawn_slot(*scene);
                let (course, action) = result;
                if let Some(error) = error {
                    &&& *final(self) == started
                    &&& course.frame.recorder@ == bound
                    &&& course.frame.selection is None && !course.frame.external
                    &&& course.stage == FrameStage::Finished
                    &&& action == FrameAction::<H>::Fail(
                        RecordError::Frame(FrameError::SceneTooLarge(error)),
                    )
                } else if old(self).platform != Platform::Linux {
                    &&& started.scene_step(
                        bound.scene_recorded(*scene, old(self).targets()),
                        *final(self),
                        course,
                        action,
                    )
                    &&& course.frame.selection is None && !course.frame.external
                } else if old(self).external_frames.unpreparable(handle_of(context)) {
                    &&& *final(self) == started.with_external(
                        frames,
                        Some(ExternalFrameOutcome::Unsupported),
                    )
                    &&& course.frame.recorder@ == bound
                    &&& course.frame.selection is None && !course.frame.external
                    &&& course.stage == FrameStage::Finished
                    &&& action == FrameAction::<H>::Fail(RecordError::ExternalPreparation)
                } else if slot is Some && frames.external_in(slot->0) {
                    &&& *final(self) == started.with_external(frames, None)
                    &&& course.frame.recorder@ == bound
                    &&& course.frame.selection == slot && course.frame.external
                    &&& course.stage == FrameStage::Acquiring
                    &&& action == (FrameAction::<H>::RecordAcquire {
                        slot: slot->0,
                        acquire: frames.acquire_in(slot->0)->0,
                    })
                } else {
                    &&& started.with_external(frames, None).scene_step(
                        bound.scene_recorded(*scene, old(self).targets()),
                        *final(self),
                        course,
                        action,
                    )
                    &&& course.frame.selection == slot && !course.frame.external
                }
            }),
            final(self).external_frames.displayed == old(self).external_frames.displayed,
    {
        let (frame, answer) = self.start_frame(scene, context);
        let mut course = FrameCourse { frame, stage: FrameStage::Finished };
        let barrier = match answer {
            Ok(barrier) => barrier,
            Err(error) => return (course, FrameAction::Fail(error)),
        };
        if let (Some(slot), Some(acquire)) = (course.frame.selection, barrier) {
            course.stage = FrameStage::Acquiring;
            return (course, FrameAction::RecordAcquire { slot, acquire });
        }
        let action = self.step_scene(&mut course, scene);
        (course, action)
    }

    /// The image could not be transferred: its frame has failed.
    pub open spec fn transfer_failed(self, course: FrameCourse) -> Self {
        self.with_external(
            self.external_frames.failed(course.frame.selection->0),
            Some(ExternalFrameOutcome::FatalFailure),
        )
    }

    /// The image was taken over, and the scene is recorded, or it could not be.
    pub open spec fn acquired_step(
        self,
        course: FrameCourse,
        scene: Scene,
        recorded: bool,
        after: Self,
        next: FrameCourse,
        action: FrameAction<H>,
    ) -> bool {
        if recorded {
            &&& self.scene_step(
                course.frame.recorder@.scene_recorded(scene, self.targets()),
                after,
                next,
                action,
            )
            &&& next.frame.selection == course.frame.selection
            &&& next.frame.external == course.frame.external
        } else {
            &&& after == self.transfer_failed(course)
            &&& course.goes_to(FrameStage::Finished, next)
            &&& action == FrameAction::<H>::Fail(RecordError::ExternalAcquire)
        }
    }

    /// The scene was encoded: an external image is given back, any other frame
    /// is submitted.
    pub open spec fn encoded_step(
        self,
        course: FrameCourse,
        after: Self,
        next: FrameCourse,
        action: FrameAction<H>,
    ) -> bool {
        let slot = course.frame.selection->0;
        &&& after == self
        &&& if course.frame.external {
            &&& course.goes_to(FrameStage::Releasing, next)
            &&& self.external_frames.release_in(slot) matches Ok(Some(release)) && action == (
            FrameAction::<H>::RecordRelease { slot, release })
        } else {
            &&& course.goes_to(FrameStage::Submitting, next)
            &&& action == (FrameAction::<H>::Submit { wait: None })
        }
    }

    /// The image was given back, and its fence is imported where that is left to
    /// do, or it could not be given back.
    pub open spec fn released_step(
        self,
        course: FrameCourse,
        recorded: bool,
        hal_queue: bool,
        after: Self,
        next: FrameCourse,
        action: FrameAction<H>,
    ) -> bool {
        let slot = course.frame.selection->0;
        let frames = self.external_frames.after_sync_step(slot, hal_queue);
        if !recorded {
            &&& after == self.transfer_failed(course)
            &&& course.goes_to(FrameStage::Finished, next)
            &&& action == FrameAction::<H>::Fail(RecordError::ExternalRelease)
        } else {
            match self.external_frames.sync_step(slot, hal_queue) {
                FrameSyncStep::Finished(ExternalFrameOutcome::Accepted) => {
                    &&& after == self
                    &&& course.goes_to(FrameStage::Submitting, next)
                    &&& action == (FrameAction::<H>::Submit { wait: None })
                },
                FrameSyncStep::Finished(outcome) => {
                    &&& after == self.with_external(frames, Some(outcome))
                    &&& course.goes_to(FrameStage::Finished, next)
                    &&& action == FrameAction::<H>::Fail(RecordError::ExternalSync)
                },
                FrameSyncStep::CreateSemaphore(file) => {
                    &&& after == self.with_external(frames, None)
                    &&& course.goes_to(FrameStage::Importing, next)
                    &&& action == (FrameAction::<H>::ImportSync { file })
                },
            }
        }
    }

    /// There is no semaphore for the fence.
    pub open spec fn refused_step(
        self,
        course: FrameCourse,
        error: i32,
        after: Self,
        next: FrameCourse,
        action: FrameAction<H>,
    ) -> bool {
        &&& after == self.with_external(
            self.external_frames.failed(course.frame.selection->0),
            Some(sync_error_outcome(error)),
        )
        &&& course.goes_to(FrameStage::Finished, next)
        &&& action == FrameAction::<H>::Fail(RecordError::ExternalSync)
    }

    /// The fence was imported into the semaphore, or it could not be.
    pub open spec fn answered_step(
        self,
        course: FrameCourse,
        semaphore: H::Semaphore,
        answer: Result<(), i32>,
        after: Self,
        next: FrameCourse,
        action: FrameAction<H>,
    ) -> bool {
        let frames = self.external_frames.after_sync_import(semaphore, answer);
        match answer {
            Ok(()) => {
                &&& after == self.with_external(frames, None)
                &&& course.goes_to(FrameStage::Submitting, next)
                &&& action == (FrameAction::<H>::Submit { wait: Some(0x1) })
            },
            Err(error) => {
                &&& after == self.with_external(frames, Some(sync_error_outcome(error)))
                &&& course.goes_to(FrameStage::Finished, next)
                &&& action == (FrameAction::<H>::Undo {
                    semaphore,
                    error: RecordError::ExternalSync,
                })
            },
        }
    }

    /// The frame was submitted: what it drew is on screen.
    pub open spec fn submitted_step(
        self,
        course: FrameCourse,
        after: Self,
        next: FrameCourse,
        action: FrameAction<H>,
    ) -> bool {
        let selection = course.frame.selection;
        &&& after == self.with_external(self.frames_submitted(selection), None)
        &&& course.goes_to(FrameStage::Finished, next)
        &&& action == FrameAction::<H>::Retain(
            if self.platform == Platform::Linux {
                self.external_frames.commit_work(selection)
            } else {
                None
            },
        )
    }

    /// What an event makes of the renderer and the frame, and what is done
    /// next.
    pub open spec fn frame_step(
        self,
        course: FrameCourse,
        scene: Scene,
        event: FrameEvent<H>,
        after: Self,
        next: FrameCourse,
        action: FrameAction<H>,
    ) -> bool {
        match event {
            FrameEvent::AcquireRecorded(recorded) => self.acquired_step(
                course,
                scene,
                recorded,
                after,
                next,
                action,
            ),
            FrameEvent::Encoded => self.encoded_step(course, after, next, action),
            FrameEvent::ReleaseRecorded { recorded, hal_queue } => self.released_step(
                course,
                recorded,
                hal_queue,
                after,
                next,
                action,
            ),
            FrameEvent::SemaphoreRefused(error) => self.refused_step(
                course,
                error,
                after,
                next,
                action,
            ),
            FrameEvent::SyncAnswered { semaphore, answer } => self.answered_step(
                course,
                semaphore,
                answer,
                after,
                next,
                action,
            ),
            FrameEvent::Submitted => self.submitted_step(course, after, next, action),
        }
    }

    fn step_acquired(&mut self, course: &mut FrameCourse, scene: &Scene, recorded: bool) -> (result:
        FrameAction<H>)
        requires
            old(self).wf(),
            scene.wf(),
            old(course).in_step(*old(self), *scene),
            old(course).stage == FrameStage::Acquiring,
        ensures
            final(self).wf(),
            final(course).belongs_to(*final(self)),
            old(self).acquired_step(
                *old(course),
                *scene,
                recorded,
                *final(self),
                *final(course),
                result,
            ),
            final(course).stage.rank() > 0,
            final(self).external_frames.displayed == old(self).external_frames.displayed,
    {
        let slot = course.frame.selection.unwrap();
        match self.acquire_recorded(slot, recorded) {
            Ok(()) => self.step_scene(course, scene),
            Err(error) => {
                course.stage = FrameStage::Finished;
                FrameAction::Fail(error)
            },
        }
    }

    fn step_encoded(&mut self, course: &mut FrameCourse) -> (result: FrameAction<H>)
        requires
            old(self).wf(),
            old(course).belongs_to(*old(self)),
            old(course).stage == FrameStage::Encoding,
        ensures
            final(self).wf(),
            final(course).belongs_to(*final(self)),
            old(self).encoded_step(*old(course), *final(self), *final(course), result),
            final(course).stage.rank() > 1,
            final(self).external_frames.displayed == old(self).external_frames.displayed,
    {
        if !course.frame.external {
            course.stage = FrameStage::Submitting;
            return FrameAction::Submit { wait: None };
        }
        let slot = course.frame.selection.unwrap();
        match self.release(slot) {
            Ok(Some(release)) => {
                course.stage = FrameStage::Releasing;
                FrameAction::RecordRelease { slot, release }
            },
            Ok(None) => {
                course.stage = FrameStage::Submitting;
                FrameAction::Submit { wait: None }
            },
            Err(error) => {
                course.stage = FrameStage::Finished;
                FrameAction::Fail(error)
            },
        }
    }

    fn step_released(&mut self, course: &mut FrameCourse, recorded: bool, hal_queue: bool) -> (result:
        FrameAction<H>)
        requires
            old(self).wf(),
            old(course).belongs_to(*old(self)),
            old(course).stage == FrameStage::Releasing,
        ensures
            final(self).wf(),
            final(course).belongs_to(*final(self)),
            old(self).released_step(
                *old(course),
                recorded,
                hal_queue,
                *final(self),
                *final(course),
                result,
            ),
            final(course).stage.rank() > 2,
            final(self).external_frames.displayed == old(self).external_frames.displayed,
    {
        let slot = course.frame.selection.unwrap();
        if let Err(error) = self.release_recorded(slot, recorded) {
            course.stage = FrameStage::Finished;
            return FrameAction::Fail(error);
        }
        match self.import_sync(slot, hal_queue) {
            Ok(Some(file)) => {
                course.stage = FrameStage::Importing;
                FrameAction::ImportSync { file }
            },
            Ok(None) => {
                course.stage = FrameStage::Submitting;
                FrameAction::Submit { wait: None }
            },
            Err(error) => {
                course.stage = FrameStage::Finished;
                FrameAction::Fail(error)
            },
        }
    }

    fn step_refused(&mut self, course: &mut FrameCourse, error: i32) -> (result: FrameAction<H>)
        requires
            old(self).wf(),
            old(course).belongs_to(*old(self)),
            old(course).stage == FrameStage::Importing,
        ensures
            final(self).wf(),
            final(course).belongs_to(*final(self)),
            old(self).refused_step(*old(course), error, *final(self), *final(course), result),
            final(course).stage == FrameStage::Finished,
            final(self).external_frames.displayed == old(self).external_frames.displayed,
    {
        let slot = course.frame.selection.unwrap();
        let error = self.import_sync_failed(slot, error);
        course.stage = FrameStage::Finished;
        FrameAction::Fail(error)
    }

    fn step_answered(
        &mut self,
        course: &mut FrameCourse,
        semaphore: H::Semaphore,
        answer: Result<(), i32>,
    ) -> (result: FrameAction<H>)
        requires
            old(self).wf(),
            old(course).belongs_to(*old(self)),
            old(course).stage == FrameStage::Importing,
        ensures
            final(self).wf(),
            final(course).belongs_to(*final(self)),
            old(self).answered_step(
                *old(course),
                semaphore,
                answer,
                *final(self),
                *final(course),
                result,
            ),
            final(course).stage.rank() > 3,
            final(self).external_frames.displayed == old(self).external_frames.displayed,
    {
        match self.import_sync_finished(semaphore, answer) {
            Ok(stage) => {
                course.stage = FrameStage::Submitting;
                FrameAction::Submit { wait: Some(stage) }
            },
            Err((semaphore, error)) => {
                course.stage = FrameStage::Finished;
                FrameAction::Undo { semaphore, error }
            },
        }
    }

    /// Goes on with a frame after what it waited for happened. Each event brings
    /// the frame to a later stage, and only a submission changes the frame on
    /// screen.
    pub fn advance(
        &mut self,
        course: &mut FrameCourse,
        scene: &Scene,
        event: FrameEvent<H>,
    ) -> (result: FrameAction<H>)
        requires
            old(self).wf(),
            scene.wf(),
            old(course).in_step(*old(self), *scene),
            old(course).stage.expects(event),
        ensures
            final(self).wf(),
            final(course).in_step(*final(self), *scene),
            old(self).frame_step(
                *old(course),
                *scene,
                event,
                *final(self),
                *final(course),
                result,
            ),
            old(course).stage.rank() < final(course).stage.rank(),
            event !is Submitted ==> final(self).external_frames.displayed == old(self).external_frames.displayed,
    {
        match event {
            FrameEvent::AcquireRecorded(recorded) => self.step_acquired(course, scene, recorded),
            FrameEvent::Encoded => self.step_encoded(course),
            FrameEvent::ReleaseRecorded { recorded, hal_queue } => {
                self.step_released(course, recorded, hal_queue)
            },
            FrameEvent::SemaphoreRefused(error) => self.step_refused(course, error),
            FrameEvent::SyncAnswered { semaphore, answer } => {
                self.step_answered(course, semaphore, answer)
            },
            FrameEvent::Submitted => {
                let work = self.frame_submitted(course.frame.selection);
                course.stage = FrameStage::Finished;
                FrameAction::Retain(work)
            },
        }
    }
}

/// A frame with an external image is submitted only after the image was taken
/// over, the scene encoded and the image given back, in that order. No other
/// frame transfers anything.
pub proof fn submission_follows_both_transfers<H: GpuHandles>(
    renderer: WgpuRenderer<H>,
    course: FrameCourse,
    scene: Scene,
    event: FrameEvent<H>,
    after: WgpuRenderer<H>,
    next: FrameCourse,
    action: FrameAction<H>,
)
    requires
        course.in_step(renderer, scene),
        course.stage.expects(event),
        renderer.frame_step(course, scene, event, after, next, action),
    ensures
        course.frame.external && action is Submit ==> course.stage == FrameStage::Releasing
            || course.stage == FrameStage::Importing,
        next.stage == FrameStage::Importing ==> course.stage == FrameStage::Releasing,
        next.stage == FrameStage::Releasing <==> action is RecordRelease,
        action is RecordRelease ==> course.stage == FrameStage::Encoding && course.frame.external,
        next.stage == FrameStage::Encoding ==> event == FrameEvent::<H>::AcquireRecorded(true)
            && course.frame.external,
        next.stage == FrameStage::Submitting <==> action is Submit,
{
}

} // verus!
