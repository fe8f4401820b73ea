//! Recording a frame: the instance records to upload and the passes and draws
//! that use them, in the order in which the GPU is to see them.
use crate::draw::{
    DrawBinding, DrawCall, DrawRange, DrawTexture, FrameCommand, FrameTargets, GlobalsKind,
    InstanceBinding, InstanceSource, PassTarget, PipelineKind, RenderPass, VideoBinding,
    MONOCHROME_SPRITES_BINDING, POLYCHROME_SPRITES_BINDING, QUADS_BINDING, SHADOWS_BINDING,
    SUBPIXEL_SPRITES_BINDING, UNDERLINES_BINDING,
};
use crate::instances::{
    allocation_is_drawable, allocation_is_placed, placement_never_overflows, InstanceError,
    InstanceMemory,
};
use crate::scene::{addressable, part_has_no_more_vertices, vertex_total, Scene};
use std::ops::Range;
use vstd::prelude::*;

verus! {

/// A frame as far as it is recorded.
#[verifier::ext_equal]
pub struct RecordedFrame {
    pub memory: InstanceMemory,
    pub offset: int,
    pub bindings: Seq<InstanceBinding>,
    pub videos: Seq<VideoBinding>,
    pub commands: Seq<FrameCommand>,
}

/// The pass that draws the frame, from its start or after an interruption.
pub open spec fn main_pass(continued: bool) -> RenderPass {
    RenderPass {
        label: if continued {
            "main_pass_continued"
        } else {
            "main_pass"
        },
        target: PassTarget::Frame,
        resolve_target: None,
        clear: !continued,
    }
}

/// The pass that rasterizes paths.
pub open spec fn path_pass(msaa: bool) -> RenderPass {
    RenderPass {
        label: "path_rasterization_pass",
        target: if msaa {
            PassTarget::PathMsaa
        } else {
            PassTarget::PathIntermediate
        },
        resolve_target: if msaa {
            Some(PassTarget::PathIntermediate)
        } else {
            None
        },
        clear: true,
    }
}

impl DrawCall {
    /// The indices by which the draw's shaders find their records.
    pub open spec fn records(self) -> DrawRange {
        if self.pipeline == PipelineKind::PathRasterization {
            self.vertices
        } else {
            self.instances
        }
    }
}

impl RecordedFrame {
    /// The command reads only what is bound: a draw uses a binding that exists,
    /// and of an instance binding only the records that it holds.
    pub open spec fn serves(self, command: FrameCommand) -> bool {
        match command {
            FrameCommand::Draw(draw) => match draw.binding {
                DrawBinding::Instances(number) => {
                    let binding = self.bindings[number as int];
                    &&& number < self.bindings.len()
                    &&& binding.allocation.first_instance <= draw.records().start
                    &&& draw.records().start <= draw.records().end
                    &&& draw.records().end <= binding.allocation.first_instance + binding.count
                },
                DrawBinding::Video(number) => number < self.videos.len(),
            },
            _ => true,
        }
    }

    /// The memory is sound, the frame's allocations end within it, every binding
    /// is sound and its records have indices that fit a draw, and every draw
    /// reads only what is bound.
    pub open spec fn wf(self) -> bool {
        &&& self.memory.wf()
        &&& 0 <= self.offset <= self.memory.capacity
        &&& forall|i: int|
            0 <= i < self.bindings.len() ==> (#[trigger] self.bindings[i]).wf()
                && self.bindings[i].allocation.first_instance + self.bindings[i].count <= u32::MAX
        &&& forall|i: int|
            0 <= i < self.commands.len() ==> self.serves(#[trigger] self.commands[i])
    }

    /// The bindings and videos of `earlier` are there, in their places.
    pub open spec fn extends(self, earlier: RecordedFrame) -> bool {
        &&& earlier.bindings.len() <= self.bindings.len()
        &&& earlier.videos.len() <= self.videos.len()
        &&& forall|i: int|
            0 <= i < earlier.bindings.len() ==> #[trigger] self.bindings[i] == earlier.bindings[i]
    }

    /// The first bindings hold the scene's primitives.
    pub open spec fn holds(self, scene: Scene) -> bool {
        &&& self.bindings.len() >= 6
        &&& self.bindings[QUADS_BINDING as int].count == scene.quads
        &&& self.bindings[SHADOWS_BINDING as int].count == scene.shadows
        &&& self.bindings[UNDERLINES_BINDING as int].count == scene.underlines
        &&& self.bindings[MONOCHROME_SPRITES_BINDING as int].count == scene.monochrome_sprites
        &&& self.bindings[SUBPIXEL_SPRITES_BINDING as int].count == scene.subpixel_sprites
        &&& self.bindings[POLYCHROME_SPRITES_BINDING as int].count == scene.polychrome_sprites
    }

    /// One more command.
    pub open spec fn with(self, command: FrameCommand) -> RecordedFrame {
        RecordedFrame { commands: self.commands.push(command), ..self }
    }

    /// Allocates and binds `count` records.
    #[verifier::opaque]
    pub open spec fn bound(self, label: &'static str, source: InstanceSource, count: int) -> (
        RecordedFrame,
        Option<InstanceError>,
    ) {
        let stride = source.stride() as int;
        let after = RecordedFrame {
            memory: self.memory.after_allocation(self.offset, count * stride, stride),
            offset: self.memory.offset_after_allocation(self.offset, count * stride, stride),
            ..self
        };
        match self.memory.allocation(self.offset, count * stride, stride) {
            Ok(allocation) => (
                RecordedFrame {
                    bindings: self.bindings.push(
                        InstanceBinding {
                            label,
                            source,
                            count: count as usize,
                            allocation,
                            data: after.memory.data,
                            texture: None,
                        },
                    ),
                    ..after
                },
                None,
            ),
            Err(error) => (after, Some(error)),
        }
    }

    /// Draws the records of a binding from `start` to before `end`, if any.
    pub open spec fn instances_drawn(
        self,
        pipeline: PipelineKind,
        binding: usize,
        texture: DrawTexture,
        start: int,
        end: int,
    ) -> RecordedFrame {
        let first = self.bindings[binding as int].allocation.first_instance;
        if start >= end {
            self
        } else {
            self.with(
                FrameCommand::Draw(
                    DrawCall {
                        pipeline,
                        globals: GlobalsKind::Surface,
                        binding: DrawBinding::Instances(binding),
                        texture,
                        scissor_rect: None,
                        vertices: DrawRange { start: 0, end: 4 },
                        instances: DrawRange {
                            start: (first + start) as u32,
                            end: (first + end) as u32,
                        },
                    },
                ),
            )
        }
    }
}

/// The primitives of the scene that are bound for the whole frame, by number:
/// the label of their binding, their records and how many there are.
pub open spec fn scene_primitives(scene: Scene, number: int) -> (
    &'static str,
    InstanceSource,
    usize,
) {
    if number == QUADS_BINDING {
        ("quads_bind_group", InstanceSource::Quads, scene.quads)
    } else if number == SHADOWS_BINDING {
        ("shadows_bind_group", InstanceSource::Shadows, scene.shadows)
    } else if number == UNDERLINES_BINDING {
        ("underlines_bind_group", InstanceSource::Underlines, scene.underlines)
    } else if number == MONOCHROME_SPRITES_BINDING {
        (
            "monochrome_sprites_bind_group",
            InstanceSource::MonochromeSprites,
            scene.monochrome_sprites,
        )
    } else if number == SUBPIXEL_SPRITES_BINDING {
        ("subpixel_sprites_bind_group", InstanceSource::SubpixelSprites, scene.subpixel_sprites)
    } else {
        (
            "polychrome_sprites_bind_group",
            InstanceSource::PolychromeSprites,
            scene.polychrome_sprites,
        )
    }
}

impl RecordedFrame {
    /// Binds the first `number` kinds of the scene's primitives, up to the
    /// first that does not fit.
    pub open spec fn primitives_bound(self, scene: Scene, number: nat) -> (
        RecordedFrame,
        Option<InstanceError>,
    )
        decreases number,
    {
        if number == 0 {
            (self, None)
        } else {
            let (frame, error) = self.primitives_bound(scene, (number - 1) as nat);
            let (label, source, count) = scene_primitives(scene, number - 1);
            if error is Some {
                (frame, error)
            } else {
                frame.bound(label, source, count as int)
            }
        }
    }
}

/// Binding records keeps a frame sound and adds one binding behind the earlier
/// ones, or none where the records do not fit.
pub proof fn bound_adds_one_binding(
    frame: RecordedFrame,
    label: &'static str,
    source: InstanceSource,
    count: usize,
)
    requires
        frame.wf(),
        addressable(count as int, source.stride()),
    ensures
        ({
            let (after, error) = frame.bound(label, source, count as int);
            &&& after.wf()
            &&& after.commands == frame.commands
            &&& after.videos == frame.videos
            &&& match error {
                Some(_) => after.bindings == frame.bindings,
                None => {
                    &&& after.bindings.len() == frame.bindings.len() + 1
                    &&& after.bindings.drop_last() == frame.bindings
                    &&& forall|i: int|
                        0 <= i < frame.bindings.len() ==> #[trigger] after.bindings[i]
                            == frame.bindings[i]
                    &&& after.bindings.last().label == label
                    &&& after.bindings.last().source == source
                    &&& after.bindings.last().count == count
                    &&& after.bindings.last().texture is None
                },
            }
        }),
{
    reveal(RecordedFrame::bound);
    let stride = source.stride() as int;
    let (after, error) = frame.bound(label, source, count as int);
    let bytes = count * stride;
    assert(bytes >= 0) by (nonlinear_arith)
        requires
            bytes == count * stride,
            stride >= 0,
    ;
    allocation_is_drawable(frame.memory, frame.offset, count as int, stride);
    allocation_is_placed(frame.memory, frame.offset, bytes, stride);
    if error is None {
        assert(after.bindings.drop_last() =~= frame.bindings);
    }
    assert forall|i: int| 0 <= i < after.bindings.len() implies (
    #[trigger] after.bindings[i]).wf() && after.bindings[i].allocation.first_instance
        + after.bindings[i].count <= u32::MAX by {
        if i < frame.bindings.len() {
            assert(after.bindings[i] == frame.bindings[i]);
        }
    }
}

/// Records a frame.
#[derive(Debug)]
pub struct FrameRecorder {
    pub memory: InstanceMemory,
    /// Where the frame's allocations end.
    pub offset: u64,
    /// The instance bindings in the order of their uploads.
    pub bindings: Vec<InstanceBinding>,
    pub videos: Vec<VideoBinding>,
    pub commands: Vec<FrameCommand>,
}

impl View for FrameRecorder {
    type V = RecordedFrame;

    open spec fn view(&self) -> RecordedFrame {
        RecordedFrame {
            memory: self.memory,
            offset: self.offset as int,
            bindings: self.bindings@,
            videos: self.videos@,
            commands: self.commands@,
        }
    }
}

fn primitives(scene: &Scene, number: usize) -> (result: (&'static str, InstanceSource, usize))
    requires
        scene.wf(),
        number < 6,
    ensures
        result == scene_primitives(*scene, number as int),
        addressable(result.2 as int, result.1.stride()),
{
    if number == QUADS_BINDING {
        ("quads_bind_group", InstanceSource::Quads, scene.quads)
    } else if number == SHADOWS_BINDING {
        ("shadows_bind_group", InstanceSource::Shadows, scene.shadows)
    } else if number == UNDERLINES_BINDING {
        ("underlines_bind_group", InstanceSource::Underlines, scene.underlines)
    } else if number == MONOCHROME_SPRITES_BINDING {
        (
            "monochrome_sprites_bind_group",
            InstanceSource::MonochromeSprites,
            scene.monochrome_sprites,
        )
    } else if number == SUBPIXEL_SPRITES_BINDING {
        ("subpixel_sprites_bind_group", InstanceSource::SubpixelSprites, scene.subpixel_sprites)
    } else {
        (
            "polychrome_sprites_bind_group",
            InstanceSource::PolychromeSprites,
            scene.polychrome_sprites,
        )
    }
}

proof fn lemma_refusal_ends_binding(frame: RecordedFrame, scene: Scene, number: nat, later: nat)
    requires
        frame.primitives_bound(scene, number).1 is Some,
        number <= later,
    ensures
        frame.primitives_bound(scene, later) == frame.primitives_bound(scene, number),
    decreases later,
{
    if number < later {
        lemma_refusal_ends_binding(frame, scene, number, (later - 1) as nat);
    }
}

impl FrameRecorder {
    /// A frame of which nothing is recorded.
    pub fn new(memory: InstanceMemory) -> (result: FrameRecorder)
        requires
            memory.wf(),
        ensures
            result@ == (RecordedFrame {
                memory,
                offset: 0,
                bindings: Seq::empty(),
                videos: Seq::empty(),
                commands: Seq::empty(),
            }),
            result@.wf(),
    {
        FrameRecorder {
            memory,
            offset: 0,
            bindings: Vec::new(),
            videos: Vec::new(),
            commands: Vec::new(),
        }
    }

    /// Allocates and binds `count` records. Gives the number of the binding.
    pub fn write_instance_binding(
        &mut self,
        label: &'static str,
        source: InstanceSource,
        count: usize,
    ) -> (result: Result<usize, InstanceError>)
        requires
            old(self)@.wf(),
            addressable(count as int, source.stride()),
        ensures
            final(self)@ == old(self)@.bound(label, source, count as int).0,
            match old(self)@.bound(label, source, count as int).1 {
                Some(error) => {
                    &&& result == Err::<usize, InstanceError>(error)
                    &&& final(self)@.bindings == old(self)@.bindings
                },
                None => {
                    &&& result matches Ok(number)
                    &&& number == old(self)@.bindings.len()
                    &&& final(self)@.bindings.len() == old(self)@.bindings.len() + 1
                    &&& final(self)@.bindings.last().count == count
                },
            },
            final(self)@.extends(old(self)@),
            final(self)@.commands == old(self)@.commands,
            final(self)@.videos == old(self)@.videos,
            final(self)@.wf(),
    {
        let record_size: u64 = source.record_size();
        let ghost stride = record_size as int;
        proof {
            assert(0 <= count * stride) by (nonlinear_arith)
                requires
                    stride >= 0,
            ;
            placement_never_overflows(
                self.memory,
                self.offset as int,
                count * stride,
                stride,
            );
            bound_adds_one_binding(self@, label, source, count);
            reveal(RecordedFrame::bound);
        }
        let byte_count: u64 = count as u64 * record_size;
        let number: usize = self.bindings.len();
        match self.memory.write_instance_binding(&mut self.offset, byte_count, record_size) {
            Ok(allocation) => {
                self.bindings.push(
                    InstanceBinding {
                        label,
                        source,
                        count,
                        allocation,
                        data: self.memory.data,
                        texture: None,
                    },
                );
                Ok(number)
            },
            Err(error) => Err(error),
        }
    }

    /// Binds the scene's primitives, kind after kind.
    pub fn write_instances(&mut self, scene: &Scene) -> (result: Result<(), InstanceError>)
        requires
            old(self)@.wf(),
            old(self)@.bindings.len() == 0,
            scene.wf(),
        ensures
            final(self)@ == old(self)@.primitives_bound(*scene, 6).0,
            match old(self)@.primitives_bound(*scene, 6).1 {
                Some(error) => result == Err::<(), InstanceError>(error),
                None => result == Ok::<(), InstanceError>(()) && final(self)@.holds(*scene),
            },
            final(self)@.wf(),
    {
        let ghost start = self@;
        let mut number: usize = 0;
        while number < 6
            invariant
                number <= 6,
                self@.wf(),
                scene.wf(),
                start == old(self)@,
                self@ == start.primitives_bound(*scene, number as nat).0,
                start.primitives_bound(*scene, number as nat).1 is None,
                self@.bindings.len() == number,
                forall|i: int|
                    0 <= i < number ==> (#[trigger] self@.bindings[i]).count == scene_primitives(
                        *scene,
                        i,
                    ).2,
            decreases 6 - number,
        {
            let ghost frame = self@;
            let (label, source, count) = primitives(scene, number);
            match self.write_instance_binding(label, source, count) {
                Ok(_) => {},
                Err(error) => {
                    proof {
                        lemma_refusal_ends_binding(start, *scene, (number + 1) as nat, 6);
                    }
                    return Err(error);
                },
            }
            number = number + 1;
        }
        Ok(())
    }

    /// Draws the records of a binding within `range`, if any, with a pipeline
    /// that finds its records by instance.
    pub fn draw_instances(&mut self, binding: usize, pipeline: PipelineKind, range: Range<u32>)
        requires
            old(self)@.wf(),
            binding < old(self)@.bindings.len(),
            range.end <= old(self)@.bindings[binding as int].count,
            pipeline != PipelineKind::PathRasterization,
        ensures
            final(self)@ == old(self)@.instances_drawn(
                pipeline,
                binding,
                DrawTexture::Nothing,
                range.start as int,
                range.end as int,
            ),
            final(self)@.wf(),
    {
        if range.start >= range.end {
            return;
        }
        let first: u32 = self.bindings[binding].allocation.first_instance;
        self.commands.push(
            FrameCommand::Draw(
                DrawCall {
                    pipeline,
                    globals: GlobalsKind::Surface,
                    binding: DrawBinding::Instances(binding),
                    texture: DrawTexture::Nothing,
                    scissor_rect: None,
                    vertices: DrawRange { start: 0, end: 4 },
                    instances: DrawRange { start: first + range.start, end: first + range.end },
                },
            ),
        );
    }

    /// Draws the sprites of a binding within `range`, if any, from a texture of
    /// the atlas, with a pipeline that finds its records by instance.
    pub fn draw_sprites(
        &mut self,
        binding: usize,
        texture_id: u64,
        pipeline: PipelineKind,
        range: Range<u32>,
    )
        requires
            old(self)@.wf(),
            binding < old(self)@.bindings.len(),
            range.end <= old(self)@.bindings[binding as int].count,
            pipeline != PipelineKind::PathRasterization,
        ensures
            final(self)@ == old(self)@.instances_drawn(
                pipeline,
                binding,
                DrawTexture::Atlas(texture_id),
                range.start as int,
                range.end as int,
            ),
            final(self)@.wf(),
    {
        if range.start >= range.end {
            return;
        }
        let first: u32 = self.bindings[binding].allocation.first_instance;
        self.commands.push(
            FrameCommand::Draw(
                DrawCall {
                    pipeline,
                    globals: GlobalsKind::Surface,
                    binding: DrawBinding::Instances(binding),
                    texture: DrawTexture::Atlas(texture_id),
                    scissor_rect: None,
                    vertices: DrawRange { start: 0, end: 4 },
                    instances: DrawRange { start: first + range.start, end: first + range.end },
                },
            ),
        );
    }
}

impl RecordedFrame {
    /// Rasterizes the paths from `start` to before `end`: tells whether there
    /// is anything to draw from the intermediate texture.
    pub open spec fn paths_rasterized(
        self,
        scene: Scene,
        start: usize,
        end: usize,
        targets: FrameTargets,
    ) -> (RecordedFrame, Result<bool, InstanceError>) {
        let count = vertex_total(scene.paths@.subrange(start as int, end as int));
        let (frame, error) = self.bound(
            "path_rasterization_bind_group",
            InstanceSource::PathVertices { start, end },
            count as int,
        );
        if count == 0 {
            (self, Ok(false))
        } else if let Some(error) = error {
            (frame, Err(error))
        } else if !targets.path_intermediate {
            (frame, Ok(false))
        } else {
            let first = frame.bindings.last().allocation.first_instance;
            let draw = DrawCall {
                pipeline: PipelineKind::PathRasterization,
                globals: GlobalsKind::Paths,
                binding: DrawBinding::Instances(self.bindings.len() as usize),
                texture: DrawTexture::Nothing,
                scissor_rect: None,
                vertices: DrawRange { start: first, end: (first + count) as u32 },
                instances: DrawRange { start: 0, end: 1 },
            };
            (
                frame.with(FrameCommand::BeginPass(path_pass(targets.path_msaa))).with(
                    FrameCommand::Draw(draw),
                ).with(FrameCommand::EndPass),
                Ok(true),
            )
        }
    }

    /// Draws rasterized paths into the frame: path after path where all have
    /// the order of the first, their union at once where not.
    pub open spec fn paths_drawn(
        self,
        scene: Scene,
        start: usize,
        end: usize,
        targets: FrameTargets,
    ) -> (RecordedFrame, Option<InstanceError>) {
        let merged = scene.paths@[end - 1].order != scene.paths@[start as int].order;
        let count = if merged {
            1
        } else {
            end - start
        };
        let (frame, error) = self.bound(
            "path_sprites_bind_group",
            InstanceSource::PathSprites { start, end, merged },
            count,
        );
        if !targets.path_intermediate {
            (self, None)
        } else if error is Some {
            (frame, error)
        } else {
            (
                frame.instances_drawn(
                    PipelineKind::Paths,
                    self.bindings.len() as usize,
                    DrawTexture::PathIntermediate,
                    0,
                    count,
                ),
                None,
            )
        }
    }

    /// Interrupts the frame's pass to rasterize paths, and draws them.
    pub open spec fn paths_recorded(
        self,
        scene: Scene,
        start: usize,
        end: usize,
        targets: FrameTargets,
    ) -> (RecordedFrame, Option<InstanceError>) {
        let (frame, rasterized) = self.with(FrameCommand::EndPass).paths_rasterized(
            scene,
            start,
            end,
            targets,
        );
        match rasterized {
            Err(error) => (frame, Some(error)),
            Ok(false) => (frame.with(FrameCommand::BeginPass(main_pass(true))), None),
            Ok(true) => frame.with(FrameCommand::BeginPass(main_pass(true))).paths_drawn(
                scene,
                start,
                end,
                targets,
            ),
        }
    }
}

impl FrameRecorder {
    /// One more command.
    pub(crate) fn push(&mut self, command: FrameCommand)
        requires
            old(self)@.wf(),
            old(self)@.serves(command),
        ensures
            final(self)@ == old(self)@.with(command),
            final(self)@.wf(),
    {
        self.commands.push(command);
    }

    /// Rasterizes the paths within `range` into the intermediate texture. Tells
    /// whether there is anything to draw from it.
    pub fn draw_paths_to_intermediate(
        &mut self,
        scene: &Scene,
        range: Range<usize>,
        targets: &FrameTargets,
    ) -> (result: Result<bool, InstanceError>)
        requires
            old(self)@.wf(),
            scene.wf(),
            range.start <= range.end <= scene.paths@.len(),
        ensures
            final(self)@ == old(self)@.paths_rasterized(
                *scene,
                range.start,
                range.end,
                *targets,
            ).0,
            result == old(self)@.paths_rasterized(*scene, range.start, range.end, *targets).1,
            final(self)@.wf(),
            final(self)@.extends(old(self)@),
    {
        let ghost paths = scene.paths@.subrange(range.start as int, range.end as int);
        proof {
            part_has_no_more_vertices(scene.paths@, range.start as int, range.end as int);
        }
        let mut count: usize = 0;
        let mut index: usize = range.start;
        while index < range.end
            invariant
                range.start <= index <= range.end <= scene.paths@.len(),
                scene.wf(),
                paths == scene.paths@.subrange(range.start as int, range.end as int),
                vertex_total(paths) <= vertex_total(scene.paths@),
                count == vertex_total(paths.take(index - range.start)),
            decreases range.end - index,
        {
            let ghost done = paths.take(index - range.start);
            let ghost next = paths.take(index - range.start + 1);
            proof {
                part_has_no_more_vertices(paths, 0, index - range.start + 1);
                assert(paths.subrange(0, index - range.start + 1) =~= next);
                assert(next.drop_last() =~= done);
                assert(next.last() == scene.paths@[index as int]);
            }
            count = count + scene.paths[index].vertices.len();
            index = index + 1;
        }
        assert(paths.take(range.end - range.start) =~= paths);
        if count == 0 {
            return Ok(false);
        }
        let source = InstanceSource::PathVertices { start: range.start, end: range.end };
        assert(addressable(count as int, source.stride())) by {
            assert(count * 104 <= vertex_total(scene.paths@) * 104);
        }
        let number: usize = match self.write_instance_binding(
            "path_rasterization_bind_group",
            source,
            count,
        ) {
            Ok(number) => number,
            Err(error) => {
                return Err(error);
            },
        };
        if !targets.path_intermediate {
            return Ok(false);
        }
        let (target, resolve_target) = if targets.path_msaa {
            (PassTarget::PathMsaa, Some(PassTarget::PathIntermediate))
        } else {
            (PassTarget::PathIntermediate, None)
        };
        let first: u32 = self.bindings[number].allocation.first_instance;
        assert(self@.bindings[number as int].count == count);
        self.push(
            FrameCommand::BeginPass(
                RenderPass {
                    label: "path_rasterization_pass",
                    target,
                    resolve_target,
                    clear: true,
                },
            ),
        );
        self.push(
            FrameCommand::Draw(
                DrawCall {
                    pipeline: PipelineKind::PathRasterization,
                    globals: GlobalsKind::Paths,
                    binding: DrawBinding::Instances(number),
                    texture: DrawTexture::Nothing,
                    scissor_rect: None,
                    vertices: DrawRange { start: first, end: first + count as u32 },
                    instances: DrawRange { start: 0, end: 1 },
                },
            ),
        );
        self.push(FrameCommand::EndPass);
        Ok(true)
    }

    /// Draws the rasterized paths within `range` into the frame.
    pub fn draw_paths_from_intermediate(
        &mut self,
        scene: &Scene,
        range: Range<usize>,
        targets: &FrameTargets,
    ) -> (result: Result<(), InstanceError>)
        requires
            old(self)@.wf(),
            scene.wf(),
            range.start < range.end <= scene.paths@.len(),
        ensures
            final(self)@ == old(self)@.paths_drawn(*scene, range.start, range.end, *targets).0,
            match old(self)@.paths_drawn(*scene, range.start, range.end, *targets).1 {
                Some(error) => result == Err::<(), InstanceError>(error),
                None => result == Ok::<(), InstanceError>(()),
            },
            final(self)@.wf(),
            final(self)@.extends(old(self)@),
    {
        let merged: bool = scene.paths[range.end - 1].order != scene.paths[range.start].order;
        let count: usize = if merged {
            1
        } else {
            range.end - range.start
        };
        if !targets.path_intermediate {
            return Ok(());
        }
        let source = InstanceSource::PathSprites { start: range.start, end: range.end, merged };
        assert(addressable(count as int, source.stride())) by {
            assert(count * 16 <= scene.paths@.len() * 16);
        }
        let number: usize = match self.write_instance_binding(
            "path_sprites_bind_group",
            source,
            count,
        ) {
            Ok(number) => number,
            Err(error) => {
                return Err(error);
            },
        };
        let first: u32 = self.bindings[number].allocation.first_instance;
        assert(self@.bindings[number as int].count == count);
        self.push(
            FrameCommand::Draw(
                DrawCall {
                    pipeline: PipelineKind::Paths,
                    globals: GlobalsKind::Surface,
                    binding: DrawBinding::Instances(number),
                    texture: DrawTexture::PathIntermediate,
                    scissor_rect: None,
                    vertices: DrawRange { start: 0, end: 4 },
                    instances: DrawRange { start: first, end: first + count as u32 },
                },
            ),
        );
        Ok(())
    }
}

} // verus!
