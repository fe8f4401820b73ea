//! Recording the batches of a scene, one after the other.
use crate::arith::instance_range;
use crate::draw::{
    DrawTexture, FrameCommand, FrameError, FrameTargets, PassTarget, PipelineKind, RenderPass,
    MONOCHROME_SPRITES_BINDING, POLYCHROME_SPRITES_BINDING, QUADS_BINDING, SHADOWS_BINDING,
    SUBPIXEL_SPRITES_BINDING, UNDERLINES_BINDING,
};
use crate::frame::{main_pass, FrameRecorder, RecordedFrame};
use crate::instances::InstanceError;
use crate::scene::{PaintSurface, PrimitiveBatch, Scene};
use std::ops::Range;
use vstd::prelude::*;

verus! {

impl RecordedFrame {
    /// One more batch.
    pub open spec fn batch_recorded(
        self,
        scene: Scene,
        batch: PrimitiveBatch,
        targets: FrameTargets,
    ) -> (RecordedFrame, Option<FrameError>) {
        match batch {
            PrimitiveBatch::Quads(range) => (
                self.instances_drawn(
                    PipelineKind::Quads,
                    QUADS_BINDING,
                    DrawTexture::Nothing,
                    range.start as int,
                    range.end as int,
                ),
                None,
            ),
            PrimitiveBatch::Shadows(range) => (
                self.instances_drawn(
                    PipelineKind::Shadows,
                    SHADOWS_BINDING,
                    DrawTexture::Nothing,
                    range.start as int,
                    range.end as int,
                ),
                None,
            ),
            PrimitiveBatch::Paths(range) => if range.start >= range.end {
                (self, None)
            } else {
                match self.paths_recorded(scene, range.start, range.end, targets) {
                    (frame, Some(error)) => (frame, Some(FrameError::Paths(error))),
                    (frame, None) => (frame, None),
                }
            },
            PrimitiveBatch::Underlines(range) => (
                self.instances_drawn(
                    PipelineKind::Underlines,
                    UNDERLINES_BINDING,
                    DrawTexture::Nothing,
                    range.start as int,
                    range.end as int,
                ),
                None,
            ),
            PrimitiveBatch::MonochromeSprites { texture_id, range } => (
                self.instances_drawn(
                    PipelineKind::MonoSprites,
                    MONOCHROME_SPRITES_BINDING,
                    DrawTexture::Atlas(texture_id),
                    range.start as int,
                    range.end as int,
                ),
                None,
            ),
            PrimitiveBatch::SubpixelSprites { texture_id, range } => (
                self.instances_drawn(
                    if targets.subpixel_sprites {
                        PipelineKind::SubpixelSprites
                    } else {
                        PipelineKind::MonoSprites
                    },
                    SUBPIXEL_SPRITES_BINDING,
                    DrawTexture::Atlas(texture_id),
                    range.start as int,
                    range.end as int,
                ),
                None,
            ),
            PrimitiveBatch::PolychromeSprites { texture_id, range } => (
                self.instances_drawn(
                    PipelineKind::PolySprites,
                    POLYCHROME_SPRITES_BINDING,
                    DrawTexture::Atlas(texture_id),
                    range.start as int,
                    range.end as int,
                ),
                None,
            ),
            PrimitiveBatch::Surfaces(range) => match self.surfaces_recorded(
                scene.surfaces@,
                range.start as int,
                range.end as int,
            ) {
                (frame, true) => (frame, None),
                (frame, false) => (frame, Some(FrameError::SurfacesExhausted)),
            },
        }
    }

    /// The first `number` batches, up to the first that does not fit.
    pub open spec fn batches_recorded(
        self,
        scene: Scene,
        number: nat,
        targets: FrameTargets,
    ) -> (RecordedFrame, Option<FrameError>)
        decreases number,
    {
        if number == 0 {
            (self, None)
        } else {
            let (frame, error) = self.batches_recorded(scene, (number - 1) as nat, targets);
            if error is Some {
                (frame, error)
            } else {
                frame.batch_recorded(scene, scene.batches@[number - 1], targets)
            }
        }
    }

    /// The pass that draws the scene's batches in order.
    pub open spec fn scene_recorded(self, scene: Scene, targets: FrameTargets) -> (
        RecordedFrame,
        Option<FrameError>,
    ) {
        let (frame, error) = self.with(FrameCommand::BeginPass(main_pass(false))).batches_recorded(
            scene,
            scene.batches@.len(),
            targets,
        );
        if error is Some {
            (frame, error)
        } else {
            (frame.with(FrameCommand::EndPass), None)
        }
    }
}

proof fn lemma_failure_ends_recording(
    frame: RecordedFrame,
    scene: Scene,
    number: nat,
    later: nat,
    targets: FrameTargets,
)
    requires
        frame.batches_recorded(scene, number, targets).1 is Some,
        number <= later,
    ensures
        frame.batches_recorded(scene, later, targets) == frame.batches_recorded(
            scene,
            number,
            targets,
        ),
    decreases later,
{
    if number < later {
        lemma_failure_ends_recording(frame, scene, number, (later - 1) as nat, targets);
    }
}

impl FrameRecorder {
    /// Interrupts the frame's pass to rasterize the paths within `range`, and
    /// draws them.
    fn record_paths(&mut self, scene: &Scene, range: Range<usize>, targets: &FrameTargets) -> (result:
        Result<(), InstanceError>)
        requires
            old(self)@.wf(),
            scene.wf(),
            range.start < range.end <= scene.paths@.len(),
        ensures
            final(self)@ == old(self)@.paths_recorded(*scene, range.start, range.end, *targets).0,
            match old(self)@.paths_recorded(*scene, range.start, range.end, *targets).1 {
                Some(error) => result == Err::<(), InstanceError>(error),
                None => result == Ok::<(), InstanceError>(()),
            },
            final(self)@.wf(),
            final(self)@.extends(old(self)@),
    {
        self.push(FrameCommand::EndPass);
        let part = Range { start: range.start, end: range.end };
        let rasterized: bool = match self.draw_paths_to_intermediate(scene, part, targets) {
            Ok(rasterized) => rasterized,
            Err(error) => {
                return Err(error);
            },
        };
        self.push(
            FrameCommand::BeginPass(
                RenderPass {
                    label: "main_pass_continued",
                    target: PassTarget::Frame,
                    resolve_target: None,
                    clear: false,
                },
            ),
        );
        if rasterized {
            self.draw_paths_from_intermediate(scene, range, targets)
        } else {
            Ok(())
        }
    }

    /// Records one batch.
    fn record_batch(&mut self, scene: &Scene, batch: &PrimitiveBatch, targets: &FrameTargets) -> (result:
        Result<(), FrameError>)
        requires
            old(self)@.wf(),
            old(self)@.holds(*scene),
            scene.wf(),
            scene.has_batch(*batch),
        ensures
            final(self)@ == old(self)@.batch_recorded(*scene, *batch, *targets).0,
            match old(self)@.batch_recorded(*scene, *batch, *targets).1 {
                Some(error) => result == Err::<(), FrameError>(error),
                None => result == Ok::<(), FrameError>(()),
            },
            final(self)@.wf(),
            final(self)@.holds(*scene),
    {
        match batch {
            PrimitiveBatch::Quads(range) => {
                let range = instance_range(Range { start: range.start, end: range.end });
                self.draw_instances(QUADS_BINDING, PipelineKind::Quads, range);
            },
            PrimitiveBatch::Shadows(range) => {
                let range = instance_range(Range { start: range.start, end: range.end });
                self.draw_instances(SHADOWS_BINDING, PipelineKind::Shadows, range);
            },
            PrimitiveBatch::Paths(range) => {
                if range.start >= range.end {
                    return Ok(());
                }
                let range = Range { start: range.start, end: range.end };
                if let Err(error) = self.record_paths(scene, range, targets) {
                    return Err(FrameError::Paths(error));
                }
            },
            PrimitiveBatch::Underlines(range) => {
                let range = instance_range(Range { start: range.start, end: range.end });
                self.draw_instances(UNDERLINES_BINDING, PipelineKind::Underlines, range);
            },
            PrimitiveBatch::MonochromeSprites { texture_id, range } => {
                let range = instance_range(Range { start: range.start, end: range.end });
                self.draw_sprites(
                    MONOCHROME_SPRITES_BINDING,
                    *texture_id,
                    PipelineKind::MonoSprites,
                    range,
                );
            },
            PrimitiveBatch::SubpixelSprites { texture_id, range } => {
                let range = instance_range(Range { start: range.start, end: range.end });
                let pipeline = if targets.subpixel_sprites {
                    PipelineKind::SubpixelSprites
                } else {
                    PipelineKind::MonoSprites
                };
                self.draw_sprites(SUBPIXEL_SPRITES_BINDING, *texture_id, pipeline, range);
            },
            PrimitiveBatch::PolychromeSprites { texture_id, range } => {
                let range = instance_range(Range { start: range.start, end: range.end });
                self.draw_sprites(
                    POLYCHROME_SPRITES_BINDING,
                    *texture_id,
                    PipelineKind::PolySprites,
                    range,
                );
            },
            PrimitiveBatch::Surfaces(range) => {
                let range = Range { start: range.start, end: range.end };
                if !self.draw_surfaces(scene, range) {
                    return Err(FrameError::SurfacesExhausted);
                }
            },
        }
        Ok(())
    }

    /// Records the pass that draws the scene's batches in order.
    pub fn record_scene(&mut self, scene: &Scene, targets: &FrameTargets) -> (result: Result<
        (),
        FrameError,
    >)
        requires
            old(self)@.wf(),
            old(self)@.holds(*scene),
            scene.wf(),
        ensures
            final(self)@ == old(self)@.scene_recorded(*scene, *targets).0,
            match old(self)@.scene_recorded(*scene, *targets).1 {
                Some(error) => result == Err::<(), FrameError>(error),
                None => result == Ok::<(), FrameError>(()),
            },
            final(self)@.wf(),
    {
        self.push(
            FrameCommand::BeginPass(
                RenderPass {
                    label: "main_pass",
                    target: PassTarget::Frame,
                    resolve_target: None,
                    clear: true,
                },
            ),
        );
        let ghost start = self@;
        let mut number: usize = 0;
        while number < scene.batches.len()
            invariant
                number <= scene.batches@.len(),
                self@.wf(),
                self@.holds(*scene),
                scene.wf(),
                start == old(self)@.with(FrameCommand::BeginPass(main_pass(false))),
                start.batches_recorded(*scene, number as nat, *targets) == (self@, None::<FrameError>),
            decreases scene.batches@.len() - number,
        {
            assert(scene.has_batch(scene.batches@[number as int]));
            if let Err(error) = self.record_batch(scene, &scene.batches[number], targets) {
                proof {
                    lemma_failure_ends_recording(
                        start,
                        *scene,
                        (number + 1) as nat,
                        scene.batches@.len(),
                        *targets,
                    );
                }
                return Err(error);
            }
            number = number + 1;
        }
        self.push(FrameCommand::EndPass);
        Ok(())
    }
}

/// Whether a pass is open after the commands, if they open and close passes in
/// turn and draw only within one.
pub open spec fn pass_open(commands: Seq<FrameCommand>) -> Option<bool>
    decreases commands.len(),
{
    if commands.len() == 0 {
        Some(false)
    } else {
        match (pass_open(commands.drop_last()), commands.last()) {
            (Some(false), FrameCommand::BeginPass(_)) => Some(true),
            (Some(true), FrameCommand::Draw(_)) => Some(true),
            (Some(true), FrameCommand::EndPass) => Some(false),
            _ => None,
        }
    }
}

proof fn lemma_one_more_command(commands: Seq<FrameCommand>, command: FrameCommand)
    ensures
        pass_open(commands.push(command)) == match (pass_open(commands), command) {
            (Some(false), FrameCommand::BeginPass(_)) => Some(true),
            (Some(true), FrameCommand::Draw(_)) => Some(true),
            (Some(true), FrameCommand::EndPass) => Some(false),
            _ => None,
        },
{
    assert(commands.push(command).drop_last() =~= commands);
}

proof fn lemma_more_draws(commands: Seq<FrameCommand>, draws: Seq<FrameCommand>)
    requires
        pass_open(commands) == Some(true),
        forall|i: int| 0 <= i < draws.len() ==> #[trigger] draws[i] is Draw,
    ensures
        pass_open(commands + draws) == Some(true),
    decreases draws.len(),
{
    if draws.len() == 0 {
        assert(commands + draws =~= commands);
    } else {
        lemma_more_draws(commands, draws.drop_last());
        assert(commands + draws =~= (commands + draws.drop_last()).push(draws.last()));
        lemma_one_more_command(commands + draws.drop_last(), draws.last());
    }
}

proof fn lemma_paths_keep_pass_open(
    frame: RecordedFrame,
    scene: Scene,
    start: usize,
    end: usize,
    targets: FrameTargets,
)
    requires
        pass_open(frame.commands) == Some(true),
        frame.paths_recorded(scene, start, end, targets).1 is None,
    ensures
        pass_open(frame.paths_recorded(scene, start, end, targets).0.commands) == Some(true),
{
    reveal(RecordedFrame::bound);
    let stopped = frame.with(FrameCommand::EndPass);
    lemma_one_more_command(frame.commands, FrameCommand::EndPass);
    let (rasterized, answer) = stopped.paths_rasterized(scene, start, end, targets);
    if answer == Ok::<bool, InstanceError>(true) {
        let all = rasterized.commands;
        lemma_one_more_command(all.drop_last().drop_last().drop_last(), all[all.len() - 3]);
        lemma_one_more_command(all.drop_last().drop_last(), all[all.len() - 2]);
        lemma_one_more_command(all.drop_last(), all[all.len() - 1]);
        assert(all.drop_last().drop_last().drop_last() =~= stopped.commands);
        assert(all.drop_last().drop_last() =~= stopped.commands.push(all[all.len() - 3]));
        assert(all.drop_last() =~= all.drop_last().drop_last().push(all[all.len() - 2]));
        assert(all =~= all.drop_last().push(all.last()));
    }
    assert(pass_open(rasterized.commands) == Some(false));
    let resumed = rasterized.with(FrameCommand::BeginPass(main_pass(true)));
    lemma_one_more_command(rasterized.commands, FrameCommand::BeginPass(main_pass(true)));
    if answer == Ok::<bool, InstanceError>(true) {
        let drawn = resumed.paths_drawn(scene, start, end, targets).0;
        if drawn.commands != resumed.commands {
            lemma_one_more_command(resumed.commands, drawn.commands.last());
            assert(drawn.commands =~= resumed.commands.push(drawn.commands.last()));
        }
    }
}

proof fn lemma_surfaces_keep_pass_open(
    frame: RecordedFrame,
    surfaces: Seq<PaintSurface>,
    start: int,
    end: int,
)
    requires
        pass_open(frame.commands) == Some(true),
        frame.surfaces_recorded(surfaces, start, end).1,
    ensures
        pass_open(frame.surfaces_recorded(surfaces, start, end).0.commands) == Some(true),
{
    let drawn = frame.surfaces_recorded(surfaces, start, end).0.commands;
    let draws = drawn.skip(frame.commands.len() as int);
    assert(drawn =~= frame.commands + draws);
    lemma_more_draws(frame.commands, draws);
}

proof fn lemma_batches_keep_pass_open(
    frame: RecordedFrame,
    scene: Scene,
    number: nat,
    targets: FrameTargets,
)
    requires
        pass_open(frame.commands) == Some(true),
        frame.batches_recorded(scene, number, targets).1 is None,
    ensures
        pass_open(frame.batches_recorded(scene, number, targets).0.commands) == Some(true),
    decreases number,
{
    if number > 0 {
        lemma_batches_keep_pass_open(frame, scene, (number - 1) as nat, targets);
        let (before, _) = frame.batches_recorded(scene, (number - 1) as nat, targets);
        let (after, _) = frame.batches_recorded(scene, number, targets);
        match scene.batches@[number - 1] {
            PrimitiveBatch::Paths(range) => {
                if range.start < range.end {
                    lemma_paths_keep_pass_open(before, scene, range.start, range.end, targets);
                }
            },
            PrimitiveBatch::Surfaces(range) => {
                lemma_surfaces_keep_pass_open(
                    before,
                    scene.surfaces@,
                    range.start as int,
                    range.end as int,
                );
            },
            _ => {
                if after.commands != before.commands {
                    lemma_one_more_command(before.commands, after.commands.last());
                    assert(after.commands =~= before.commands.push(after.commands.last()));
                }
            },
        }
    }
}

/// A recorded scene opens and closes its passes in turn, draws only within a
/// pass, and leaves none open.
pub proof fn passes_are_opened_and_closed_in_turn(
    frame: RecordedFrame,
    scene: Scene,
    targets: FrameTargets,
)
    requires
        pass_open(frame.commands) == Some(false),
        frame.scene_recorded(scene, targets).1 is None,
    ensures
        pass_open(frame.scene_recorded(scene, targets).0.commands) == Some(false),
{
    let started = frame.with(FrameCommand::BeginPass(main_pass(false)));
    lemma_one_more_command(frame.commands, FrameCommand::BeginPass(main_pass(false)));
    lemma_batches_keep_pass_open(started, scene, scene.batches@.len(), targets);
    let (drawn, _) = started.batches_recorded(scene, scene.batches@.len(), targets);
    lemma_one_more_command(drawn.commands, FrameCommand::EndPass);
}

impl RecordedFrame {
    /// Everything that was recorded in `earlier` is there, in its place.
    pub open spec fn continues(self, earlier: RecordedFrame) -> bool {
        &&& earlier.commands.is_prefix_of(self.commands)
        &&& earlier.bindings.is_prefix_of(self.bindings)
        &&& earlier.videos.is_prefix_of(self.videos)
    }
}

proof fn lemma_surfaces_continue(
    frame: RecordedFrame,
    surfaces: Seq<PaintSurface>,
    start: int,
    end: int,
)
    ensures
        frame.surfaces_scanned(surfaces, start, end).frame.continues(frame),
        frame.surfaces_scanned(surfaces, start, end).frame.commands == frame.commands,
        frame.surfaces_scanned(surfaces, start, end).frame.videos == frame.videos,
    decreases end - start,
{
    if start < end {
        lemma_surfaces_continue(frame, surfaces, start, end - 1);
    }
}

proof fn lemma_batch_continues(
    frame: RecordedFrame,
    scene: Scene,
    batch: PrimitiveBatch,
    targets: FrameTargets,
)
    ensures
        frame.batch_recorded(scene, batch, targets).0.continues(frame),
{
    reveal(RecordedFrame::bound);
    if let PrimitiveBatch::Surfaces(range) = batch {
        lemma_surfaces_continue(
            frame,
            scene.surfaces@,
            range.start as int,
            range.end as int,
        );
    }
}

/// What the first batches recorded comes first in what more of them record.
pub proof fn lemma_batches_continue(
    frame: RecordedFrame,
    scene: Scene,
    earlier: nat,
    later: nat,
    targets: FrameTargets,
)
    requires
        earlier <= later,
    ensures
        frame.batches_recorded(scene, later, targets).0.continues(
            frame.batches_recorded(scene, earlier, targets).0,
        ),
    decreases later,
{
    if earlier < later {
        lemma_batches_continue(frame, scene, earlier, (later - 1) as nat, targets);
        let (before, error) = frame.batches_recorded(scene, (later - 1) as nat, targets);
        if error is None {
            lemma_batch_continues(before, scene, scene.batches@[later - 1], targets);
        }
    }
}

/// Batches are recorded in drawing order: what the first ones recorded comes
/// first in what more of them record, and nothing of it is lost, also where a
/// later one does not fit.
pub proof fn batches_are_recorded_in_order(
    frame: RecordedFrame,
    scene: Scene,
    earlier: nat,
    targets: FrameTargets,
)
    requires
        earlier <= scene.batches@.len(),
    ensures
        frame.scene_recorded(scene, targets).0.continues(
            frame.with(FrameCommand::BeginPass(main_pass(false))).batches_recorded(
                scene,
                earlier,
                targets,
            ).0,
        ),
        frame.scene_recorded(scene, targets).0.continues(frame),
{
    let started = frame.with(FrameCommand::BeginPass(main_pass(false)));
    lemma_batches_continue(started, scene, earlier, scene.batches@.len(), targets);
    lemma_batches_continue(started, scene, 0, scene.batches@.len(), targets);
    let done = frame.scene_recorded(scene, targets).0;
    assert(done.continues(started));
    assert(started.commands.subrange(0, frame.commands.len() as int) =~= frame.commands);
    assert(done.commands.subrange(0, frame.commands.len() as int)
        =~= started.commands.subrange(0, frame.commands.len() as int));
}

} // verus!
