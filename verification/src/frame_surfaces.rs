//! Recording the surfaces of a frame.
use crate::arith::{align_up_is_least_multiple, max_of};
use crate::draw::{
    nv12_plane_view_descriptor, plane_view, DrawBinding, DrawCall, DrawRange, DrawTexture,
    FrameCommand, GlobalsKind, InstanceBinding, InstanceSource, PipelineKind, PlaneView,
    TextureAspect, VideoBinding,
};
use crate::frame::{FrameRecorder, RecordedFrame};
use crate::instances::InstanceAllocation;
use crate::params::{Nv12ColorTransform, PodBounds, SurfaceParams, SURFACE_INSTANCE_SIZE};
use crate::scene::{PaintSurface, Scene, ScissorRect, SurfaceContent};
use std::ops::Range;
use vstd::prelude::*;

verus! {

/// A picture to draw: its instance binding, and the rectangle that limits it.
#[derive(Clone, Copy, Debug, PartialEq, Eq, Structural)]
pub struct RgbaDraw {
    pub binding: usize,
    pub scissor_rect: ScissorRect,
}

/// Video to draw: its parameters and planes, and the rectangle that limits it.
#[derive(Clone, Copy, Debug)]
pub struct Nv12Data {
    pub video: VideoBinding,
    pub scissor_rect: ScissorRect,
}

/// What a run of surfaces draws.
#[verifier::ext_equal]
pub struct ScannedSurfaces {
    /// The frame with the pictures' records.
    pub frame: RecordedFrame,
    pub rgba: Seq<RgbaDraw>,
    pub nv12: Seq<Nv12Data>,
    /// A picture's record did not fit.
    pub exhausted: bool,
}

/// The parameters of a video surface with the given color conversion.
pub open spec fn video_params(surface: PaintSurface, transform: Nv12ColorTransform) -> SurfaceParams {
    SurfaceParams {
        bounds: PodBounds::of(surface.bounds),
        content_mask: PodBounds::of(surface.content_mask),
        yuv_to_rgb: transform.yuv_to_rgb,
    }
}

/// The video that a surface shows, if any.
pub open spec fn surface_video(surface: PaintSurface) -> Option<VideoBinding> {
    match surface.content {
        SurfaceContent::WgpuTextureNv12 { y_texture, cb_cr_texture } => Some(
            VideoBinding {
                params: video_params(surface, Nv12ColorTransform::full_range()),
                y_view: PlaneView::Whole { texture: y_texture },
                cb_cr_view: PlaneView::Whole { texture: cb_cr_texture },
            },
        ),
        SurfaceContent::WgpuTextureNv12WithColorTransform {
            y_texture,
            cb_cr_texture,
            color_transform,
        } => Some(
            VideoBinding {
                params: video_params(surface, color_transform),
                y_view: PlaneView::Whole { texture: y_texture },
                cb_cr_view: PlaneView::Whole { texture: cb_cr_texture },
            },
        ),
        SurfaceContent::WgpuTextureNv12Multiplanar { texture, color_transform } => Some(
            VideoBinding {
                params: video_params(surface, color_transform),
                y_view: PlaneView::Plane {
                    texture,
                    descriptor: plane_view(TextureAspect::Plane0)->0,
                },
                cb_cr_view: PlaneView::Plane {
                    texture,
                    descriptor: plane_view(TextureAspect::Plane1)->0,
                },
            },
        ),
        _ => None,
    }
}

impl ScannedSurfaces {
    /// One more surface. Invisible ones and those that another renderer draws
    /// are left out; a picture's record goes into the memory as it is.
    pub open spec fn with(self, index: usize, surface: PaintSurface) -> ScannedSurfaces {
        if self.exhausted || !surface.visible {
            self
        } else if let SurfaceContent::WgpuTexture { texture } = surface.content {
            match self.frame.memory.fixed_offset(self.frame.offset, SURFACE_INSTANCE_SIZE as int) {
                None => ScannedSurfaces { exhausted: true, ..self },
                Some(at) => ScannedSurfaces {
                    frame: RecordedFrame {
                        offset: at + SURFACE_INSTANCE_SIZE,
                        bindings: self.frame.bindings.push(
                            InstanceBinding {
                                label: "surface_rgba_bind_group",
                                source: InstanceSource::Surface { index },
                                count: 1,
                                allocation: InstanceAllocation {
                                    offset: at as u64,
                                    size: SURFACE_INSTANCE_SIZE,
                                    first_instance: 0,
                                    grown: None,
                                },
                                data: self.frame.memory.data,
                                texture: Some(texture),
                            },
                        ),
                        ..self.frame
                    },
                    rgba: self.rgba.push(
                        RgbaDraw {
                            binding: self.frame.bindings.len() as usize,
                            scissor_rect: surface.scissor_rect,
                        },
                    ),
                    ..self
                },
            }
        } else if let Some(video) = surface_video(surface) {
            ScannedSurfaces {
                nv12: self.nv12.push(Nv12Data { video, scissor_rect: surface.scissor_rect }),
                ..self
            }
        } else {
            self
        }
    }
}

/// The draw of one surface: a strip of four vertices, within its rectangle.
pub open spec fn surface_draw(
    pipeline: PipelineKind,
    binding: DrawBinding,
    scissor_rect: ScissorRect,
) -> FrameCommand {
    FrameCommand::Draw(
        DrawCall {
            pipeline,
            globals: GlobalsKind::Surface,
            binding,
            texture: DrawTexture::Nothing,
            scissor_rect: Some(scissor_rect),
            vertices: DrawRange { start: 0, end: 4 },
            instances: DrawRange { start: 0, end: 1 },
        },
    )
}

impl RecordedFrame {
    /// What the surfaces from `start` to before `end` draw.
    pub open spec fn surfaces_scanned(
        self,
        surfaces: Seq<PaintSurface>,
        start: int,
        end: int,
    ) -> ScannedSurfaces
        decreases end - start,
    {
        if end <= start {
            ScannedSurfaces {
                frame: self,
                rgba: Seq::empty(),
                nv12: Seq::empty(),
                exhausted: false,
            }
        } else {
            self.surfaces_scanned(surfaces, start, end - 1).with(
                (end - 1) as usize,
                surfaces[end - 1],
            )
        }
    }

    /// Draws the surfaces from `start` to before `end`: first all pictures, then
    /// all video, each in order. Tells whether the pictures' records fit; where
    /// they do not, nothing is drawn.
    pub open spec fn surfaces_recorded(
        self,
        surfaces: Seq<PaintSurface>,
        start: int,
        end: int,
    ) -> (RecordedFrame, bool) {
        let scanned = self.surfaces_scanned(surfaces, start, end);
        if scanned.exhausted {
            (scanned.frame, false)
        } else {
            (
                RecordedFrame {
                    videos: self.videos + Seq::new(
                        scanned.nv12.len(),
                        |i: int| scanned.nv12[i].video,
                    ),
                    commands: self.commands + Seq::new(
                        scanned.rgba.len(),
                        |i: int|
                            surface_draw(
                                PipelineKind::SurfaceRgba,
                                DrawBinding::Instances(scanned.rgba[i].binding),
                                scanned.rgba[i].scissor_rect,
                            ),
                    ) + Seq::new(
                        scanned.nv12.len(),
                        |i: int|
                            surface_draw(
                                PipelineKind::Surfaces,
                                DrawBinding::Video((self.videos.len() + i) as usize),
                                scanned.nv12[i].scissor_rect,
                            ),
                    ),
                    ..scanned.frame
                },
                true,
            )
        }
    }
}

/// A run of surfaces adds records and nothing else, and keeps a frame sound.
pub proof fn scanning_keeps_wf(
    frame: RecordedFrame,
    surfaces: Seq<PaintSurface>,
    start: int,
    end: int,
)
    requires
        frame.wf(),
    ensures
        ({
            let scanned = frame.surfaces_scanned(surfaces, start, end).frame;
            &&& scanned.wf()
            &&& scanned.memory == frame.memory
            &&& scanned.videos == frame.videos
            &&& scanned.commands == frame.commands
            &&& scanned.extends(frame)
        }),
    decreases end - start,
{
    if start < end {
        scanning_keeps_wf(frame, surfaces, start, end - 1);
        let before = frame.surfaces_scanned(surfaces, start, end - 1).frame;
        align_up_is_least_multiple(before.offset, max_of(before.memory.alignment as int, 1), 0);
        let after = frame.surfaces_scanned(surfaces, start, end).frame;
        assert forall|i: int| 0 <= i < after.bindings.len() implies (
        #[trigger] after.bindings[i]).wf() && after.bindings[i].allocation.first_instance
            + after.bindings[i].count <= u32::MAX by {
            if i < before.bindings.len() {
                assert(after.bindings[i] == before.bindings[i]);
            } else {
                assert(after.bindings[i].source.stride() == 32);
                assert(32 <= isize::MAX);
                assert(after.bindings[i].wf());
            }
        }
    }
}

fn surface_video_of(surface: &PaintSurface) -> (result: Option<VideoBinding>)
    ensures
        result == surface_video(*surface),
{
    let (y_view, cb_cr_view, transform) = match surface.content {
        SurfaceContent::WgpuTextureNv12 { y_texture, cb_cr_texture } => (
            PlaneView::Whole { texture: y_texture },
            PlaneView::Whole { texture: cb_cr_texture },
            Nv12ColorTransform::default(),
        ),
        SurfaceContent::WgpuTextureNv12WithColorTransform {
            y_texture,
            cb_cr_texture,
            color_transform,
        } => (
            PlaneView::Whole { texture: y_texture },
            PlaneView::Whole { texture: cb_cr_texture },
            color_transform,
        ),
        SurfaceContent::WgpuTextureNv12Multiplanar { texture, color_transform } => {
            let planes = (
                nv12_plane_view_descriptor(TextureAspect::Plane0),
                nv12_plane_view_descriptor(TextureAspect::Plane1),
            );
            match planes {
                (Some(luma), Some(chroma)) => (
                    PlaneView::Plane { texture, descriptor: luma },
                    PlaneView::Plane { texture, descriptor: chroma },
                    color_transform,
                ),
                _ => {
                    return None;
                },
            }
        },
        _ => {
            return None;
        },
    };
    let params = SurfaceParams::new(
        PodBounds::from(surface.bounds),
        PodBounds::from(surface.content_mask),
        transform,
    );
    Some(VideoBinding { params, y_view, cb_cr_view })
}

impl FrameRecorder {
    /// Draws the scene's surfaces within `range`. Tells whether the pictures'
    /// records fit; where they do not, nothing is drawn.
    pub fn draw_surfaces(&mut self, scene: &Scene, range: Range<usize>) -> (result: bool)
        requires
            old(self)@.wf(),
            range.start <= range.end <= scene.surfaces@.len(),
        ensures
            final(self)@ == old(self)@.surfaces_recorded(
                scene.surfaces@,
                range.start as int,
                range.end as int,
            ).0,
            result == old(self)@.surfaces_recorded(
                scene.surfaces@,
                range.start as int,
                range.end as int,
            ).1,
            final(self)@.wf(),
            final(self)@.extends(old(self)@),
    {
        let ghost start = self@;
        let ghost surfaces = scene.surfaces@;
        let mut rgba_draws: Vec<RgbaDraw> = Vec::new();
        let mut nv12_items: Vec<Nv12Data> = Vec::new();
        let mut index: usize = range.start;
        while index < range.end
            invariant
                range.start <= index <= range.end <= surfaces.len(),
                surfaces == scene.surfaces@,
                start == old(self)@,
                start.wf(),
                start.surfaces_scanned(surfaces, range.start as int, index as int) == (
                ScannedSurfaces {
                    frame: self@,
                    rgba: rgba_draws@,
                    nv12: nv12_items@,
                    exhausted: false,
                }),
                forall|i: int|
                    0 <= i < rgba_draws@.len() ==> {
                        let number = (#[trigger] rgba_draws@[i]).binding;
                        &&& number < self@.bindings.len()
                        &&& self@.bindings[number as int].count == 1
                        &&& self@.bindings[number as int].allocation.first_instance == 0
                    },
            decreases range.end - index,
        {
            proof {
                scanning_keeps_wf(start, surfaces, range.start as int, index as int);
                scanning_keeps_wf(start, surfaces, range.start as int, index + 1);
            }
            let surface: &PaintSurface = &scene.surfaces[index];
            if surface.visible {
                if let SurfaceContent::WgpuTexture { texture } = surface.content {
                    match self.memory.write_to_instance_buffer(
                        &mut self.offset,
                        SURFACE_INSTANCE_SIZE,
                    ) {
                        Some((offset, size)) => {
                            rgba_draws.push(
                                RgbaDraw {
                                    binding: self.bindings.len(),
                                    scissor_rect: surface.scissor_rect,
                                },
                            );
                            self.bindings.push(
                                InstanceBinding {
                                    label: "surface_rgba_bind_group",
                                    source: InstanceSource::Surface { index },
                                    count: 1,
                                    allocation: InstanceAllocation {
                                        offset,
                                        size,
                                        first_instance: 0,
                                        grown: None,
                                    },
                                    data: self.memory.data,
                                    texture: Some(texture),
                                },
                            );
                        },
                        None => {
                            proof {
                                lemma_exhaustion_ends_scan(
                                    start,
                                    surfaces,
                                    range.start as int,
                                    index + 1,
                                    range.end as int,
                                );
                            }
                            return false;
                        },
                    }
                } else if let Some(video) = surface_video_of(surface) {
                    nv12_items.push(Nv12Data { video, scissor_rect: surface.scissor_rect });
                }
            }
            index = index + 1;
        }
        let ghost scanned = self@;
        proof {
            scanning_keeps_wf(start, surfaces, range.start as int, range.end as int);
        }
        let mut drawn: usize = 0;
        while drawn < rgba_draws.len()
            invariant
                drawn <= rgba_draws.len(),
                self@.wf(),
                forall|i: int|
                    0 <= i < rgba_draws@.len() ==> {
                        let number = (#[trigger] rgba_draws@[i]).binding;
                        &&& number < self@.bindings.len()
                        &&& self@.bindings[number as int].count == 1
                        &&& self@.bindings[number as int].allocation.first_instance == 0
                    },
                self@ == (RecordedFrame {
                    commands: scanned.commands + Seq::new(
                        drawn as nat,
                        |i: int|
                            surface_draw(
                                PipelineKind::SurfaceRgba,
                                DrawBinding::Instances(rgba_draws@[i].binding),
                                rgba_draws@[i].scissor_rect,
                            ),
                    ),
                    ..scanned
                }),
            decreases rgba_draws.len() - drawn,
        {
            let draw: &RgbaDraw = &rgba_draws[drawn];
            self.push(
                FrameCommand::Draw(
                    DrawCall {
                        pipeline: PipelineKind::SurfaceRgba,
                        globals: GlobalsKind::Surface,
                        binding: DrawBinding::Instances(draw.binding),
                        texture: DrawTexture::Nothing,
                        scissor_rect: Some(draw.scissor_rect),
                        vertices: DrawRange { start: 0, end: 4 },
                        instances: DrawRange { start: 0, end: 1 },
                    },
                ),
            );
            drawn = drawn + 1;
        }
        let ghost pictures = self@;
        let mut shown: usize = 0;
        while shown < nv12_items.len()
            invariant
                shown <= nv12_items.len(),
                self@.wf(),
                self@ == (RecordedFrame {
                    videos: pictures.videos + Seq::new(
                        shown as nat,
                        |i: int| nv12_items@[i].video,
                    ),
                    commands: pictures.commands + Seq::new(
                        shown as nat,
                        |i: int|
                            surface_draw(
                                PipelineKind::Surfaces,
                                DrawBinding::Video((pictures.videos.len() + i) as usize),
                                nv12_items@[i].scissor_rect,
                            ),
                    ),
                    ..pictures
                }),
            decreases nv12_items.len() - shown,
        {
            let item: &Nv12Data = &nv12_items[shown];
            let number: usize = self.videos.len();
            let ghost before = self@;
            self.videos.push(item.video);
            assert forall|i: int| 0 <= i < self@.commands.len() implies self@.serves(
                #[trigger] self@.commands[i],
            ) by {
                assert(before.serves(before.commands[i]));
            }
            self.push(
                FrameCommand::Draw(
                    DrawCall {
                        pipeline: PipelineKind::Surfaces,
                        globals: GlobalsKind::Surface,
                        binding: DrawBinding::Video(number),
                        texture: DrawTexture::Nothing,
                        scissor_rect: Some(item.scissor_rect),
                        vertices: DrawRange { start: 0, end: 4 },
                        instances: DrawRange { start: 0, end: 1 },
                    },
                ),
            );
            shown = shown + 1;
        }
        true
    }
}

proof fn lemma_exhaustion_ends_scan(
    frame: RecordedFrame,
    surfaces: Seq<PaintSurface>,
    start: int,
    end: int,
    later: int,
)
    requires
        frame.surfaces_scanned(surfaces, start, end).exhausted,
        end <= later,
    ensures
        frame.surfaces_scanned(surfaces, start, later) == frame.surfaces_scanned(
            surfaces,
            start,
            end,
        ),
    decreases later - end,
{
    if end < later {
        lemma_exhaustion_ends_scan(frame, surfaces, start, end, later - 1);
    }
}

} // verus!
