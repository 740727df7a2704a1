//! The render graph of a frame: which passes run on which resources, and when the graph of
//! the frame before will do.
use crate::export::job::ExportJob;
use crate::timeline::{ColorInfo, DecodedFrameMeta, FrameLayout, SourceId, TransferFunction};
use vstd::prelude::*;

verus! {

/// The finished frame.
pub const FINAL_COLOR: u32 = 0;

/// First resource id that is not reserved; 1 is the screen.
pub const FIRST_RESOURCE: u32 = 2;

/// Effects of a clip.
#[derive(Debug, Clone, Copy, PartialEq, Eq, Structural)]
pub struct ClipEffects {
    pub color_enabled: bool,
    pub blur_enabled: bool,
    pub sharpen_enabled: bool,
    pub vignette_enabled: bool,
    pub chroma_key_enabled: bool,
    /// Identity of the numeric settings: equal exactly for equal settings.
    pub settings: u64,
}

/// One clip of a frame to be rendered.
#[derive(Debug, Clone, Copy)]
pub struct ClipRenderEntry {
    pub source_id: SourceId,
    pub clip_width: u32,
    pub clip_height: u32,
    /// Layout and colour of the frame in the clip's slot, as decoded.
    pub frame_meta: DecodedFrameMeta,
    /// Whether the source's path is a still image's; `None` when the source has no path.
    pub still_image_path: Option<bool>,
    pub effects: ClipEffects,
    /// Whether the clip's primaries differ from the job's.  A still image is brought over as
    /// sRGB, so for one it is sRGB's primaries that are meant, not those of `frame_meta`.
    pub converts_gamut: bool,
    /// Staging slot: the tier in the upper half, the index in the lower.
    pub texture_slot: u32,
}

/// What the compiled graph depends on in one clip.
#[derive(Debug, Clone, Copy, PartialEq, Eq, Structural)]
pub struct ClipSignature {
    pub source_id: SourceId,
    pub clip_width: u32,
    pub clip_height: u32,
    pub frame_meta: DecodedFrameMeta,
    pub is_still_image: bool,
    pub effects: ClipEffects,
}

impl ClipRenderEntry {
    pub open spec fn still(&self) -> bool {
        self.still_image_path == Some(true)
    }

    pub open spec fn signature(&self) -> ClipSignature {
        ClipSignature {
            source_id: self.source_id,
            clip_width: self.clip_width,
            clip_height: self.clip_height,
            frame_meta: self.frame_meta,
            is_still_image: self.still(),
            effects: self.effects,
        }
    }

    fn is_still(&self) -> (r: bool)
        ensures
            r == self.still(),
    {
        match self.still_image_path {
            Some(still) => still,
            None => false,
        }
    }
}

/// An effect pass.
#[derive(Debug, Clone, Copy, PartialEq, Eq, Structural)]
pub enum EffectPass {
    ColorCorrection,
    BlurHorizontal,
    BlurVertical,
    Sharpen,
    Vignette,
    ChromaKey,
}

/// How a clip is brought into the job's colour space.
#[derive(Debug, Clone, Copy, PartialEq, Eq, Structural)]
pub enum ColorTransform {
    /// Match the output's curve and keep the highlights.  The peak is in ten-thousandths
    /// of a nit.
    HdrOutput { source: TransferFunction, hlg: bool, peak: i32 },
    /// Tone-map down to display-referred sRGB from a 1000 nit peak.
    SdrOutput { source: TransferFunction },
}

/// One pass of the graph.
#[derive(Debug, Clone, Copy, PartialEq, Eq, Structural)]
pub enum NodePlan {
    /// Copy a loaded still image.
    StillUpload { clip: usize, output: u32 },
    /// Upload luma and chroma of a decoded frame.
    YuvUpload { clip: usize, width: u32, height: u32, y: u32, uv: u32, layout: FrameLayout },
    YuvToRgb {
        y: u32,
        uv: u32,
        output: u32,
        width: u32,
        height: u32,
        color: ColorInfo,
        semi_planar: bool,
    },
    /// `color` is the clip's colour, sRGB for a still image.  With the extent it tells the
    /// primaries to convert from; the job's output tells those to convert to, and
    /// `converts_gamut` whether the two differ.
    ToneMap {
        clip: usize,
        input: u32,
        output: u32,
        width: u32,
        height: u32,
        color: ColorInfo,
        converts_gamut: bool,
        transform: ColorTransform,
    },
    Effect { clip: usize, pass: EffectPass, input: u32, output: u32, width: u32, height: u32 },
    /// Blend the clips' results, in order.
    Composite { slots: u32 },
}

impl NodePlan {
    /// The pass writes `id`.
    pub open spec fn writes(self, id: u32) -> bool {
        match self {
            NodePlan::StillUpload { output, .. } => id == output,
            NodePlan::YuvUpload { y, uv, .. } => id == y || id == uv,
            NodePlan::YuvToRgb { output, .. } => id == output,
            NodePlan::ToneMap { output, .. } => id == output,
            NodePlan::Effect { output, .. } => id == output,
            NodePlan::Composite { .. } => id == FINAL_COLOR,
        }
    }

    /// The pass reads `id`, other than the composite's inputs.
    pub open spec fn reads(self, id: u32) -> bool {
        match self {
            NodePlan::YuvToRgb { y, uv, .. } => id == y || id == uv,
            NodePlan::ToneMap { input, .. } => id == input,
            NodePlan::Effect { input, .. } => id == input,
            _ => false,
        }
    }
}

/// The passes that a clip's effects take, in order.
#[verifier::opaque]
pub open spec fn effect_passes(effects: ClipEffects) -> Seq<EffectPass> {
    (if effects.color_enabled { seq![EffectPass::ColorCorrection] } else { seq![] }) + (
    if effects.blur_enabled {
        seq![EffectPass::BlurHorizontal, EffectPass::BlurVertical]
    } else {
        seq![]
    }) + (if effects.sharpen_enabled { seq![EffectPass::Sharpen] } else { seq![] }) + (
    if effects.vignette_enabled { seq![EffectPass::Vignette] } else { seq![] }) + (
    if effects.chroma_key_enabled { seq![EffectPass::ChromaKey] } else { seq![] })
}

/// `passes` chained from `input`, each writing the next free resource.
pub open spec fn effect_nodes(
    passes: Seq<EffectPass>,
    clip: usize,
    input: u32,
    next_id: int,
    width: u32,
    height: u32,
) -> Seq<NodePlan> {
    Seq::new(
        passes.len(),
        |i: int|
            NodePlan::Effect {
                clip,
                pass: passes[i],
                input: if i == 0 { input } else { (next_id + i - 1) as u32 },
                output: (next_id + i) as u32,
                width,
                height,
            },
    )
}

/// A graph under construction.
#[verifier::ext_equal]
pub struct GraphView {
    pub nodes: Seq<NodePlan>,
    /// The composite's inputs.
    pub inputs: Seq<u32>,
    /// For each clip the index of its upload pass; none for a still image.
    pub upload_indices: Seq<Option<usize>>,
    pub next_id: int,
}

/// The graph and the resource that holds the clip's picture so far.
pub struct Chain {
    pub graph: GraphView,
    pub current: u32,
}

impl GraphView {
    pub open spec fn empty() -> GraphView {
        GraphView {
            nodes: Seq::empty(),
            inputs: Seq::empty(),
            upload_indices: Seq::empty(),
            next_id: FIRST_RESOURCE as int,
        }
    }

    pub open spec fn transform_of(job: ExportJob, color: ColorInfo) -> ColorTransform {
        if job.hdr() {
            ColorTransform::HdrOutput {
                source: color.transfer_fn,
                hlg: job.output_color.transfer_fn is Hlg,
                peak: match job.hdr10 {
                    Some(h) => h.max_luminance,
                    None => 10_000_000,
                },
            }
        } else {
            ColorTransform::SdrOutput { source: color.transfer_fn }
        }
    }

    /// A pass is needed unless both sides are SDR with the same primaries.
    pub open spec fn needs_transform(job: ExportJob, color: ColorInfo, converts_gamut: bool) -> bool {
        job.hdr() || color.transfer_fn.is_hdr_spec() || converts_gamut
    }

    pub open spec fn color_transform(
        self,
        job: ExportJob,
        clip: usize,
        input: u32,
        color: ColorInfo,
        converts_gamut: bool,
        width: u32,
        height: u32,
    ) -> Chain {
        if !Self::needs_transform(job, color, converts_gamut) {
            Chain { graph: self, current: input }
        } else {
            let output = self.next_id as u32;
            Chain {
                graph: GraphView {
                    nodes: self.nodes.push(
                        NodePlan::ToneMap {
                            clip,
                            input,
                            output,
                            width,
                            height,
                            color,
                            converts_gamut,
                            transform: Self::transform_of(job, color),
                        },
                    ),
                    next_id: self.next_id + 1,
                    ..self
                },
                current: output,
            }
        }
    }

    pub open spec fn effect_chain(
        self,
        clip: usize,
        input: u32,
        passes: Seq<EffectPass>,
        width: u32,
        height: u32,
    ) -> Chain {
        Chain {
            graph: GraphView {
                nodes: self.nodes + effect_nodes(passes, clip, input, self.next_id, width, height),
                next_id: self.next_id + passes.len(),
                ..self
            },
            current: if passes.len() == 0 {
                input
            } else {
                (self.next_id + passes.len() - 1) as u32
            },
        }
    }

    /// Colour transform and effects of a clip, whose result is composited.
    pub open spec fn finish_clip(
        self,
        job: ExportJob,
        clip: usize,
        entry: ClipRenderEntry,
        rgba: u32,
        color: ColorInfo,
    ) -> GraphView {
        let t = self.color_transform(
            job,
            clip,
            rgba,
            color,
            entry.converts_gamut,
            entry.clip_width,
            entry.clip_height,
        );
        let e = t.graph.effect_chain(
            clip,
            t.current,
            effect_passes(entry.effects),
            entry.clip_width,
            entry.clip_height,
        );
        GraphView { inputs: e.graph.inputs.push(e.current), ..e.graph }
    }

    /// The graph with one more clip.
    pub open spec fn with_clip(
        self,
        job: ExportJob,
        clip: usize,
        entry: ClipRenderEntry,
        still_loaded: bool,
    ) -> GraphView {
        let rgba = self.next_id as u32;
        if entry.still() {
            if still_loaded {
                GraphView {
                    nodes: self.nodes.push(NodePlan::StillUpload { clip, output: rgba }),
                    upload_indices: self.upload_indices.push(None),
                    next_id: self.next_id + 1,
                    ..self
                }.finish_clip(job, clip, entry, rgba, srgb())
            } else {
                GraphView {
                    upload_indices: self.upload_indices.push(None),
                    next_id: self.next_id + 1,
                    ..self
                }
            }
        } else {
            let (y, uv) = ((self.next_id + 1) as u32, (self.next_id + 2) as u32);
            GraphView {
                nodes: self.nodes.push(
                    NodePlan::YuvUpload {
                        clip,
                        width: entry.clip_width,
                        height: entry.clip_height,
                        y,
                        uv,
                        layout: entry.frame_meta.layout,
                    },
                ).push(
                    NodePlan::YuvToRgb {
                        y,
                        uv,
                        output: rgba,
                        width: entry.clip_width,
                        height: entry.clip_height,
                        color: entry.frame_meta.color,
                        semi_planar: entry.frame_meta.layout.semi_planar,
                    },
                ),
                upload_indices: self.upload_indices.push(Some(self.nodes.len() as usize)),
                next_id: self.next_id + 3,
                ..self
            }.finish_clip(job, clip, entry, rgba, entry.frame_meta.color)
        }
    }

    /// The graph of the first `n` clips.
    pub open spec fn of_clips(
        job: ExportJob,
        clips: Seq<ClipRenderEntry>,
        loaded: Seq<bool>,
        n: nat,
    ) -> GraphView
        decreases n,
    {
        if n == 0 {
            Self::empty()
        } else {
            Self::of_clips(job, clips, loaded, (n - 1) as nat).with_clip(
                job,
                (n - 1) as usize,
                clips[n - 1],
                loaded[n - 1],
            )
        }
    }

    /// The whole graph: the clips in order, then the composite.
    pub open spec fn of_frame(
        job: ExportJob,
        clips: Seq<ClipRenderEntry>,
        loaded: Seq<bool>,
    ) -> GraphView {
        let g = Self::of_clips(job, clips, loaded, clips.len());
        GraphView {
            nodes: g.nodes.push(
                NodePlan::Composite { slots: if clips.len() == 0 { 1 } else { clips.len() as u32 } },
            ),
            ..g
        }
    }
}

/// The colour of a still image.
pub open spec fn srgb() -> ColorInfo {
    ColorInfo {
        matrix: crate::timeline::MatrixCoefficients::Bt709,
        range: crate::timeline::ColorRange::Full,
        transfer_fn: TransferFunction::Srgb,
        primaries: crate::timeline::ColorPrimaries::Bt709,
        bit_depth: 8,
    }
}

/// A compiled graph's plan.
pub struct GraphPlan {
    pub nodes: Vec<NodePlan>,
    pub inputs: Vec<u32>,
    pub upload_indices: Vec<Option<usize>>,
    pub next_id: u32,
}

impl View for GraphPlan {
    type V = GraphView;

    open spec fn view(&self) -> GraphView {
        GraphView {
            nodes: self.nodes@,
            inputs: self.inputs@,
            upload_indices: self.upload_indices@,
            next_id: self.next_id as int,
        }
    }
}

impl GraphPlan {
    fn next(&mut self) -> (id: u32)
        requires
            old(self).next_id < u32::MAX,
        ensures
            id == old(self).next_id,
            *final(self) == (GraphPlan { next_id: (id + 1) as u32, ..*old(self) }),
    {
        let id: u32 = self.next_id;
        self.next_id = id + 1;
        id
    }

    /// Bring the clip into the job's colour space; `input` itself where nothing is needed.
    fn add_color_transform(
        &mut self,
        job: &ExportJob,
        clip: usize,
        input: u32,
        color: &ColorInfo,
        converts_gamut: bool,
        width: u32,
        height: u32,
    ) -> (current: u32)
        requires
            old(self).next_id < u32::MAX,
        ensures
            ({
                let c = old(self)@.color_transform(
                    *job,
                    clip,
                    input,
                    *color,
                    converts_gamut,
                    width,
                    height,
                );
                final(self)@ == c.graph && current == c.current
            }),
    {
        let job_is_hdr: bool = job.is_hdr();
        let clip_is_hdr: bool = color.transfer_fn.is_hdr();
        if !job_is_hdr && !clip_is_hdr && !converts_gamut {
            return input;
        }
        let output: u32 = self.next();
        let transform = if job_is_hdr {
            let peak: i32 = match job.hdr10 {
                Some(h) => h.max_luminance,
                None => 10_000_000,
            };
            ColorTransform::HdrOutput {
                source: color.transfer_fn,
                hlg: job.output_color.transfer_fn == TransferFunction::Hlg,
                peak,
            }
        } else {
            ColorTransform::SdrOutput { source: color.transfer_fn }
        };
        self.nodes.push(
            NodePlan::ToneMap {
                clip,
                input,
                output,
                width,
                height,
                color: *color,
                converts_gamut,
                transform,
            },
        );
        output
    }

    fn add_effect(
        &mut self,
        clip: usize,
        pass: EffectPass,
        input: u32,
        width: u32,
        height: u32,
    ) -> (output: u32)
        requires
            old(self).next_id < u32::MAX,
        ensures
            output == old(self).next_id,
            final(self)@ == (GraphView {
                nodes: old(self)@.nodes.push(
                    NodePlan::Effect { clip, pass, input, output, width, height },
                ),
                next_id: old(self)@.next_id + 1,
                ..old(self)@
            }),
    {
        let output: u32 = self.next();
        self.nodes.push(NodePlan::Effect { clip, pass, input, output, width, height });
        output
    }

    /// The clip's effects, one pass after the other.
    fn add_effect_chain(&mut self, clip: usize, input: u32, entry: &ClipRenderEntry) -> (current:
        u32)
        requires
            old(self).next_id + 6 <= u32::MAX,
        ensures
            ({
                let c = old(self)@.effect_chain(
                    clip,
                    input,
                    effect_passes(entry.effects),
                    entry.clip_width,
                    entry.clip_height,
                );
                final(self)@ == c.graph && current == c.current
            }),
    {
        let effects = entry.effects;
        let (width, height) = (entry.clip_width, entry.clip_height);
        let ghost start = self@;
        let ghost mut done: Seq<EffectPass> = seq![];
        let mut current: u32 = input;
        assert(self@ =~= start.effect_chain(clip, input, done, width, height).graph);
        if effects.color_enabled {
            current = self.add_effect(clip, EffectPass::ColorCorrection, current, width, height);
            proof {
                lemma_chain_push(start, clip, input, done, EffectPass::ColorCorrection, width, height);
                done = done.push(EffectPass::ColorCorrection);
            }
        }
        if effects.blur_enabled {
            current = self.add_effect(clip, EffectPass::BlurHorizontal, current, width, height);
            proof {
                lemma_chain_push(start, clip, input, done, EffectPass::BlurHorizontal, width, height);
                done = done.push(EffectPass::BlurHorizontal);
            }
            current = self.add_effect(clip, EffectPass::BlurVertical, current, width, height);
            proof {
                lemma_chain_push(start, clip, input, done, EffectPass::BlurVertical, width, height);
                done = done.push(EffectPass::BlurVertical);
            }
        }
        if effects.sharpen_enabled {
            current = self.add_effect(clip, EffectPass::Sharpen, current, width, height);
            proof {
                lemma_chain_push(start, clip, input, done, EffectPass::Sharpen, width, height);
                done = done.push(EffectPass::Sharpen);
            }
        }
        if effects.vignette_enabled {
            current = self.add_effect(clip, EffectPass::Vignette, current, width, height);
            proof {
                lemma_chain_push(start, clip, input, done, EffectPass::Vignette, width, height);
                done = done.push(EffectPass::Vignette);
            }
        }
        if effects.chroma_key_enabled {
            current = self.add_effect(clip, EffectPass::ChromaKey, current, width, height);
            proof {
                lemma_chain_push(start, clip, input, done, EffectPass::ChromaKey, width, height);
                done = done.push(EffectPass::ChromaKey);
            }
        }
        assert(done =~= effect_passes(effects)) by {
            reveal(effect_passes);
        }
        current
    }

    fn finish_clip(
        &mut self,
        job: &ExportJob,
        clip: usize,
        entry: &ClipRenderEntry,
        rgba: u32,
        color: &ColorInfo,
    )
        requires
            old(self).next_id + 7 <= u32::MAX,
        ensures
            final(self)@ == old(self)@.finish_clip(*job, clip, *entry, rgba, *color),
    {
        let transformed: u32 = self.add_color_transform(
            job,
            clip,
            rgba,
            color,
            entry.converts_gamut,
            entry.clip_width,
            entry.clip_height,
        );
        let result: u32 = self.add_effect_chain(clip, transformed, entry);
        self.inputs.push(result);
    }

    fn add_clip(
        &mut self,
        job: &ExportJob,
        clip: usize,
        entry: &ClipRenderEntry,
        still_loaded: bool,
    )
        requires
            old(self).next_id + 10 <= u32::MAX,
        ensures
            final(self)@ == old(self)@.with_clip(*job, clip, *entry, still_loaded),
            final(self).next_id <= old(self).next_id + 10,
    {
        proof {
            lemma_few_passes(entry.effects);
        }
        let rgba: u32 = self.next();
        if entry.is_still() {
            if still_loaded {
                self.nodes.push(NodePlan::StillUpload { clip, output: rgba });
                self.upload_indices.push(None);
                self.finish_clip(job, clip, entry, rgba, &ColorInfo::srgb());
            } else {
                self.upload_indices.push(None);
            }
            return;
        }
        let y: u32 = self.next();
        let uv: u32 = self.next();
        let index: usize = self.nodes.len();
        self.nodes.push(
            NodePlan::YuvUpload {
                clip,
                width: entry.clip_width,
                height: entry.clip_height,
                y,
                uv,
                layout: entry.frame_meta.layout,
            },
        );
        self.upload_indices.push(Some(index));
        self.nodes.push(
            NodePlan::YuvToRgb {
                y,
                uv,
                output: rgba,
                width: entry.clip_width,
                height: entry.clip_height,
                color: entry.frame_meta.color,
                semi_planar: entry.frame_meta.layout.semi_planar,
            },
        );
        self.finish_clip(job, clip, entry, rgba, &entry.frame_meta.color);
    }

    /// The graph of a frame.  `still_loaded` tells of each clip whether its still image
    /// could be loaded; for video clips it does not matter.
    pub fn of_frame(job: &ExportJob, clips: &Vec<ClipRenderEntry>, still_loaded: &Vec<bool>) -> (r:
        GraphPlan)
        requires
            still_loaded@.len() == clips@.len(),
            clips@.len() * 10 + FIRST_RESOURCE <= u32::MAX,
        ensures
            r@ == GraphView::of_frame(*job, clips@, still_loaded@),
    {
        let mut plan = GraphPlan {
            nodes: Vec::new(),
            inputs: Vec::new(),
            upload_indices: Vec::new(),
            next_id: FIRST_RESOURCE,
        };
        let mut i: usize = 0;
        assert(plan@ =~= GraphView::empty());
        while i < clips.len()
            invariant
                i <= clips@.len() == still_loaded@.len(),
                clips@.len() * 10 + FIRST_RESOURCE <= u32::MAX,
                plan.next_id <= i * 10 + FIRST_RESOURCE,
                plan@ == GraphView::of_clips(*job, clips@, still_loaded@, i as nat),
            decreases clips@.len() - i,
        {
            plan.add_clip(job, i, &clips[i], still_loaded[i]);
            i += 1;
        }
        let slots: u32 = if clips.len() == 0 { 1 } else { clips.len() as u32 };
        plan.nodes.push(NodePlan::Composite { slots });
        plan
    }
}

proof fn lemma_chain_push(
    start: GraphView,
    clip: usize,
    input: u32,
    done: Seq<EffectPass>,
    pass: EffectPass,
    width: u32,
    height: u32,
)
    ensures
        ({
            let before = start.effect_chain(clip, input, done, width, height);
            let after = start.effect_chain(clip, input, done.push(pass), width, height);
            let output = (start.next_id + done.len()) as u32;
            &&& after.graph.nodes == before.graph.nodes.push(
                NodePlan::Effect { clip, pass, input: before.current, output, width, height },
            )
            &&& after.graph.next_id == before.graph.next_id + 1
            &&& after.current == output
        }),
{
    let n = start.next_id;
    assert(effect_nodes(done.push(pass), clip, input, n, width, height) =~= effect_nodes(
        done,
        clip,
        input,
        n,
        width,
        height,
    ).push(
        NodePlan::Effect {
            clip,
            pass,
            input: if done.len() == 0 { input } else { (n + done.len() - 1) as u32 },
            output: (n + done.len()) as u32,
            width,
            height,
        },
    ));
    let before = start.effect_chain(clip, input, done, width, height);
    let after = start.effect_chain(clip, input, done.push(pass), width, height);
    assert(after.graph.nodes =~= before.graph.nodes.push(
        NodePlan::Effect {
            clip,
            pass,
            input: before.current,
            output: (n + done.len()) as u32,
            width,
            height,
        },
    ));
}

impl GraphView {
    /// Some pass before `n` writes `id`.
    pub open spec fn written(self, id: u32, n: int) -> bool {
        exists|j: int| 0 <= j < n && j < self.nodes.len() && (#[trigger] self.nodes[j]).writes(id)
    }

    /// Every resource is written at most once, only unreserved ones are, and none is read or
    /// composited before it is written.
    pub open spec fn sound(self) -> bool {
        &&& FIRST_RESOURCE <= self.next_id <= u32::MAX
        &&& forall|i: int, id: u32|
            0 <= i < self.nodes.len() && #[trigger] self.nodes[i].writes(id) ==> FIRST_RESOURCE
                <= id < self.next_id
        &&& forall|i: int, j: int, id: u32|
            0 <= i < j < self.nodes.len() && #[trigger] self.nodes[i].writes(id)
                ==> !#[trigger] self.nodes[j].writes(id)
        &&& forall|i: int, id: u32|
            0 <= i < self.nodes.len() && #[trigger] self.nodes[i].reads(id) ==> self.written(id, i)
        &&& forall|k: int|
            0 <= k < self.inputs.len() ==> self.written(
                #[trigger] self.inputs[k],
                self.nodes.len() as int,
            )
    }
}

/// Adding a pass that writes only fresh resources and reads only written ones keeps a graph
/// sound.
proof fn lemma_add_node(g: GraphView, node: NodePlan, next_id: int)
    requires
        g.sound(),
        g.next_id <= next_id <= u32::MAX,
        forall|id: u32| #[trigger] node.writes(id) ==> g.next_id <= id < next_id,
        forall|id: u32| #[trigger] node.reads(id) ==> g.written(id, g.nodes.len() as int),
    ensures
        (GraphView { nodes: g.nodes.push(node), next_id, ..g }).sound(),
        forall|id: u32, n: int| g.written(id, n) && n <= g.nodes.len() ==> (GraphView {
            nodes: g.nodes.push(node),
            next_id,
            ..g
        }).written(id, n),
        forall|id: u32| #[trigger] node.writes(id) ==> (GraphView {
            nodes: g.nodes.push(node),
            next_id,
            ..g
        }).written(id, g.nodes.len() as int + 1),
{
    let h = GraphView { nodes: g.nodes.push(node), next_id, ..g };
    let last = g.nodes.len() as int;
    assert(h.nodes[last] == node);
    assert forall|id: u32, n: int| g.written(id, n) && n <= g.nodes.len() implies h.written(
        id,
        n,
    ) by {
        let j = choose|j: int| 0 <= j < n && j < g.nodes.len() && (#[trigger] g.nodes[j]).writes(id);
        assert(h.nodes[j].writes(id));
    }
    assert forall|i: int, id: u32|
        0 <= i < h.nodes.len() && #[trigger] h.nodes[i].reads(id) implies h.written(id, i) by {
        if i < last {
            assert(g.nodes[i].reads(id));
            assert(g.written(id, i));
        } else {
            assert(g.written(id, last));
        }
    }
    assert forall|k: int| 0 <= k < h.inputs.len() implies h.written(
        #[trigger] h.inputs[k],
        h.nodes.len() as int,
    ) by {
        assert(g.written(g.inputs[k], last));
        assert(h.written(h.inputs[k], last));
        let j = choose|j: int|
            0 <= j < last && j < h.nodes.len() && (#[trigger] h.nodes[j]).writes(h.inputs[k]);
        assert(h.nodes[j].writes(h.inputs[k]));
    }
    assert forall|i: int, id: u32|
        0 <= i < h.nodes.len() && #[trigger] h.nodes[i].writes(id) implies FIRST_RESOURCE <= id
        < h.next_id by {
        if i < last {
            assert(g.nodes[i].writes(id));
        }
    }
    assert forall|i: int, j: int, id: u32|
        0 <= i < j < h.nodes.len() && #[trigger] h.nodes[i].writes(id) implies
        !#[trigger] h.nodes[j].writes(id) by {
        assert(g.nodes[i].writes(id));
        if j < last {
        } else {
            assert(id < g.next_id);
        }
    }
}

proof fn lemma_chain_sound(
    start: GraphView,
    clip: usize,
    input: u32,
    passes: Seq<EffectPass>,
    width: u32,
    height: u32,
)
    requires
        start.sound(),
        start.written(input, start.nodes.len() as int),
        start.next_id + passes.len() <= u32::MAX,
    ensures
        ({
            let c = start.effect_chain(clip, input, passes, width, height);
            c.graph.sound() && c.graph.written(c.current, c.graph.nodes.len() as int)
        }),
    decreases passes.len(),
{
    let c = start.effect_chain(clip, input, passes, width, height);
    if passes.len() == 0 {
        assert(c.graph =~= start);
    } else {
        let done = passes.drop_last();
        assert(done.push(passes.last()) =~= passes);
        lemma_chain_sound(start, clip, input, done, width, height);
        lemma_chain_push(start, clip, input, done, passes.last(), width, height);
        let b = start.effect_chain(clip, input, done, width, height);
        let node = NodePlan::Effect {
            clip,
            pass: passes.last(),
            input: b.current,
            output: (start.next_id + done.len()) as u32,
            width,
            height,
        };
        lemma_add_node(b.graph, node, b.graph.next_id + 1);
        assert(c.graph =~= GraphView {
            nodes: b.graph.nodes.push(node),
            next_id: b.graph.next_id + 1,
            ..b.graph
        });
        assert(node.writes(c.current));
    }
}

proof fn lemma_few_passes(effects: ClipEffects)
    ensures
        effect_passes(effects).len() <= 6,
{
    reveal(effect_passes);
}

proof fn lemma_finish_clip_sound(
    g: GraphView,
    job: ExportJob,
    clip: usize,
    entry: ClipRenderEntry,
    rgba: u32,
    color: ColorInfo,
)
    requires
        g.sound(),
        g.written(rgba, g.nodes.len() as int),
        g.next_id + 7 <= u32::MAX,
    ensures
        g.finish_clip(job, clip, entry, rgba, color).sound(),
        g.finish_clip(job, clip, entry, rgba, color).next_id <= g.next_id + 7,
{
    let (w, h) = (entry.clip_width, entry.clip_height);
    let t = g.color_transform(job, clip, rgba, color, entry.converts_gamut, w, h);
    if GraphView::needs_transform(job, color, entry.converts_gamut) {
        let node = t.graph.nodes.last();
        lemma_add_node(g, node, g.next_id + 1);
        assert(node.writes(t.current));
    }
    let passes = effect_passes(entry.effects);
    lemma_few_passes(entry.effects);
    lemma_chain_sound(t.graph, clip, t.current, passes, w, h);
    let e = t.graph.effect_chain(clip, t.current, passes, w, h);
    let r = g.finish_clip(job, clip, entry, rgba, color);
    assert(r.nodes == e.graph.nodes);
    assert forall|id: u32, n: int| e.graph.written(id, n) implies r.written(id, n) by {
        let j = choose|j: int|
            0 <= j < n && j < e.graph.nodes.len() && (#[trigger] e.graph.nodes[j]).writes(id);
        assert(r.nodes[j].writes(id));
    }
}

proof fn lemma_with_clip_sound(
    g: GraphView,
    job: ExportJob,
    clip: usize,
    entry: ClipRenderEntry,
    still_loaded: bool,
)
    requires
        g.sound(),
        g.next_id + 10 <= u32::MAX,
    ensures
        g.with_clip(job, clip, entry, still_loaded).sound(),
        g.with_clip(job, clip, entry, still_loaded).next_id <= g.next_id + 10,
{
    let rgba = g.next_id as u32;
    if entry.still() {
        let node = NodePlan::StillUpload { clip, output: rgba };
        lemma_add_node(g, node, g.next_id + 1);
        let h = GraphView { nodes: g.nodes.push(node), next_id: g.next_id + 1, ..g };
        assert(node.writes(rgba));
        let u = GraphView { upload_indices: g.upload_indices.push(None), ..h };
        lemma_uploads_do_not_matter(h, u);
        if still_loaded {
            lemma_finish_clip_sound(u, job, clip, entry, rgba, srgb());
        } else {
            let w = GraphView { next_id: g.next_id + 1, ..g };
            assert(w.sound()) by {
                assert forall|id: u32, n: int| g.written(id, n) implies w.written(id, n) by {
                    let j = choose|j: int|
                        0 <= j < n && j < g.nodes.len() && (#[trigger] g.nodes[j]).writes(id);
                    assert(w.nodes[j].writes(id));
                }
            }
            lemma_uploads_do_not_matter(
                w,
                GraphView { upload_indices: g.upload_indices.push(None), ..w },
            );
        }
    } else {
        let (y, uv) = ((g.next_id + 1) as u32, (g.next_id + 2) as u32);
        let up = NodePlan::YuvUpload {
            clip,
            width: entry.clip_width,
            height: entry.clip_height,
            y,
            uv,
            layout: entry.frame_meta.layout,
        };
        let conv = NodePlan::YuvToRgb {
            y,
            uv,
            output: rgba,
            width: entry.clip_width,
            height: entry.clip_height,
            color: entry.frame_meta.color,
            semi_planar: entry.frame_meta.layout.semi_planar,
        };
        lemma_two_nodes(g, up, conv, rgba, y, uv);
        let h = GraphView {
            nodes: g.nodes.push(up).push(conv),
            next_id: g.next_id + 3,
            ..g
        };
        let u = GraphView {
            upload_indices: g.upload_indices.push(Some(g.nodes.len() as usize)),
            ..h
        };
        lemma_uploads_do_not_matter(h, u);
        lemma_finish_clip_sound(u, job, clip, entry, rgba, entry.frame_meta.color);
    }
}

/// The upload pass writes two of three fresh resources and the conversion the third.
proof fn lemma_two_nodes(g: GraphView, up: NodePlan, conv: NodePlan, rgba: u32, y: u32, uv: u32)
    requires
        g.sound(),
        g.next_id + 3 <= u32::MAX,
        rgba == g.next_id,
        y == g.next_id + 1,
        uv == g.next_id + 2,
        up is YuvUpload,
        up->YuvUpload_y == y,
        up->YuvUpload_uv == uv,
        conv is YuvToRgb,
        conv->YuvToRgb_y == y,
        conv->YuvToRgb_uv == uv,
        conv->YuvToRgb_output == rgba,
    ensures
        ({
            let h = GraphView {
                nodes: g.nodes.push(up).push(conv),
                next_id: g.next_id + 3,
                ..g
            };
            h.sound() && h.written(rgba, h.nodes.len() as int)
        }),
{
    let a = GraphView { nodes: g.nodes.push(up), next_id: g.next_id + 3, ..g };
    lemma_add_node(g, up, g.next_id + 3);
    let h = GraphView { nodes: a.nodes.push(conv), ..a };
    let n = g.nodes.len() as int;
    assert(up.writes(y) && up.writes(uv));
    assert(a.written(y, n + 1) && a.written(uv, n + 1));
    assert(h.nodes[n] == up && h.nodes[n + 1] == conv);
    assert forall|i: int| 0 <= i < n implies h.nodes[i] == g.nodes[i] by {}
    assert forall|id: u32, k: int| a.written(id, k) implies h.written(id, k) by {
        let j = choose|j: int|
            0 <= j < k && j < a.nodes.len() && (#[trigger] a.nodes[j]).writes(id);
        assert(h.nodes[j].writes(id));
    }
    assert forall|i: int, j: int, id: u32|
        0 <= i < j < h.nodes.len() && #[trigger] h.nodes[i].writes(id) implies
        !#[trigger] h.nodes[j].writes(id) by {
        assert(a.nodes[i].writes(id));
        if i < n {
            assert(g.nodes[i].writes(id));
            assert(id < g.next_id);
        }
        if j < n + 1 {
            assert(a.nodes[j] == h.nodes[j]);
        }
    }
    assert forall|i: int, id: u32|
        0 <= i < h.nodes.len() && #[trigger] h.nodes[i].reads(id) implies h.written(id, i) by {
        if i <= n {
            assert(a.nodes[i].reads(id));
            assert(a.written(id, i));
        }
    }
    assert forall|i: int, id: u32|
        0 <= i < h.nodes.len() && #[trigger] h.nodes[i].writes(id) implies FIRST_RESOURCE <= id
        < h.next_id by {
        if i <= n {
            assert(a.nodes[i].writes(id));
        }
    }
    assert forall|k: int| 0 <= k < h.inputs.len() implies h.written(
        #[trigger] h.inputs[k],
        h.nodes.len() as int,
    ) by {
        assert(a.written(a.inputs[k], n + 1));
        let j = choose|j: int|
            0 <= j < n + 1 && j < a.nodes.len() && (#[trigger] a.nodes[j]).writes(a.inputs[k]);
        assert(h.nodes[j].writes(h.inputs[k]));
    }
    assert(h.nodes[n + 1].writes(rgba));
}

proof fn lemma_uploads_do_not_matter(g: GraphView, h: GraphView)
    requires
        g.sound(),
        h.nodes == g.nodes,
        h.inputs == g.inputs,
        h.next_id == g.next_id,
    ensures
        h.sound(),
        forall|id: u32, n: int| g.written(id, n) ==> h.written(id, n),
{
    assert forall|id: u32, n: int| g.written(id, n) implies h.written(id, n) by {
        let j = choose|j: int|
            0 <= j < n && j < g.nodes.len() && (#[trigger] g.nodes[j]).writes(id);
        assert(h.nodes[j].writes(id));
    }
}

proof fn lemma_of_clips_sound(
    job: ExportJob,
    clips: Seq<ClipRenderEntry>,
    loaded: Seq<bool>,
    n: nat,
)
    requires
        n <= clips.len() == loaded.len(),
        clips.len() * 10 + FIRST_RESOURCE <= u32::MAX,
    ensures
        GraphView::of_clips(job, clips, loaded, n).sound(),
        GraphView::of_clips(job, clips, loaded, n).next_id <= n * 10 + FIRST_RESOURCE,
        GraphView::of_clips(job, clips, loaded, n).upload_indices.len() == n,
    decreases n,
{
    if n > 0 {
        let m = (n - 1) as nat;
        lemma_of_clips_sound(job, clips, loaded, m);
        lemma_with_clip_sound(
            GraphView::of_clips(job, clips, loaded, m),
            job,
            m as usize,
            clips[m as int],
            loaded[m as int],
        );
    }
}

/// No frame's graph has a hazard: every resource is written by one pass, before any pass or
/// the composite reads it, and only the composite writes the finished frame.
pub proof fn law_graph_has_no_hazard(
    job: ExportJob,
    clips: Seq<ClipRenderEntry>,
    loaded: Seq<bool>,
)
    requires
        loaded.len() == clips.len(),
        clips.len() * 10 + FIRST_RESOURCE <= u32::MAX,
    ensures
        ({
            let g = GraphView::of_frame(job, clips, loaded);
            let last = g.nodes.len() - 1;
            &&& g.nodes.len() > 0
            &&& g.nodes[last] is Composite
            &&& forall|i: int, id: u32|
                0 <= i < last && #[trigger] g.nodes[i].writes(id) ==> id >= FIRST_RESOURCE
            &&& forall|i: int, j: int, id: u32|
                0 <= i < j < g.nodes.len() && #[trigger] g.nodes[i].writes(id)
                    ==> !#[trigger] g.nodes[j].writes(id)
            &&& forall|i: int, id: u32|
                0 <= i < g.nodes.len() && #[trigger] g.nodes[i].reads(id) ==> g.written(id, i)
            &&& forall|k: int|
                0 <= k < g.inputs.len() ==> g.written(#[trigger] g.inputs[k], last)
            &&& g.upload_indices.len() == clips.len()
        }),
{
    let b = GraphView::of_clips(job, clips, loaded, clips.len());
    lemma_of_clips_sound(job, clips, loaded, clips.len());
    let g = GraphView::of_frame(job, clips, loaded);
    let last = g.nodes.len() - 1;
    assert forall|i: int| 0 <= i < last implies g.nodes[i] == b.nodes[i] by {}
    assert forall|id: u32, n: int| b.written(id, n) implies g.written(id, n) by {
        let j = choose|j: int|
            0 <= j < n && j < b.nodes.len() && (#[trigger] b.nodes[j]).writes(id);
        assert(g.nodes[j].writes(id));
    }
    assert forall|i: int, id: u32| 0 <= i < last && #[trigger] g.nodes[i].writes(id) implies id
        >= FIRST_RESOURCE by {
        assert(b.nodes[i].writes(id));
    }
    assert forall|i: int, j: int, id: u32|
        0 <= i < j < g.nodes.len() && #[trigger] g.nodes[i].writes(id) implies
        !#[trigger] g.nodes[j].writes(id) by {
        assert(b.nodes[i].writes(id));
        if j < last {
            assert(!b.nodes[j].writes(id));
        }
    }
    assert forall|i: int, id: u32|
        0 <= i < g.nodes.len() && #[trigger] g.nodes[i].reads(id) implies g.written(id, i) by {
        assert(b.nodes[i].reads(id));
    }
}

/// A clip of an SDR job that is itself SDR with the job's primaries and without effects
/// costs no pass beyond its upload and its conversion to RGB.
pub proof fn law_plain_sdr_clip_needs_no_pass(
    g: GraphView,
    job: ExportJob,
    clip: usize,
    entry: ClipRenderEntry,
    loaded: bool,
)
    requires
        !job.hdr(),
        !entry.still(),
        !entry.frame_meta.color.transfer_fn.is_hdr_spec(),
        !entry.converts_gamut,
        effect_passes(entry.effects).len() == 0,
    ensures
        g.with_clip(job, clip, entry, loaded).nodes.len() == g.nodes.len() + 2,
{
}

/// In an HDR job no clip reaches the composite without a transform into the output's curve,
/// and never one that tone-maps down.
pub proof fn law_hdr_jobs_keep_highlights(
    g: GraphView,
    job: ExportJob,
    clip: usize,
    input: u32,
    color: ColorInfo,
    converts_gamut: bool,
    width: u32,
    height: u32,
)
    requires
        job.hdr(),
    ensures
        ({
            let c = g.color_transform(job, clip, input, color, converts_gamut, width, height);
            &&& c.graph.nodes.len() == g.nodes.len() + 1
            &&& c.graph.nodes.last() matches NodePlan::ToneMap { transform, .. } && transform
                is HdrOutput
        }),
{
}

/// A clip's colour transform is planned from the clip itself: its place in the frame, its
/// extent, its own colour, which is sRGB for a still image, and whether its primaries differ
/// from the job's.
pub proof fn law_transforms_are_the_clips(
    g: GraphView,
    job: ExportJob,
    clip: usize,
    entry: ClipRenderEntry,
    loaded: bool,
    i: int,
)
    requires
        g.nodes.len() <= i < g.with_clip(job, clip, entry, loaded).nodes.len(),
        g.with_clip(job, clip, entry, loaded).nodes[i] is ToneMap,
    ensures
        ({
            let node = g.with_clip(job, clip, entry, loaded).nodes[i];
            let own = if entry.still() { srgb() } else { entry.frame_meta.color };
            &&& node->ToneMap_clip == clip
            &&& (node->ToneMap_width, node->ToneMap_height) == (
                entry.clip_width,
                entry.clip_height,
            )
            &&& node->ToneMap_color == own
            &&& node->converts_gamut == entry.converts_gamut
            &&& node->transform == GraphView::transform_of(job, own)
            &&& GraphView::needs_transform(job, own, entry.converts_gamut)
        }),
{
}

/// Where a pass stands among the effects: colour first, the blur across before the blur down,
/// then sharpening, the vignette, and the chroma key last.
pub open spec fn place(pass: EffectPass) -> int {
    match pass {
        EffectPass::ColorCorrection => 0,
        EffectPass::BlurHorizontal => 1,
        EffectPass::BlurVertical => 2,
        EffectPass::Sharpen => 3,
        EffectPass::Vignette => 4,
        EffectPass::ChromaKey => 5,
    }
}

/// Exactly the effects a clip asks for are applied: each has its pass, or the blur its two,
/// when its own switch is on and not otherwise, once, and in the order of the effects.
pub proof fn law_exactly_the_enabled_effects_run(effects: ClipEffects)
    ensures
        ({
            let passes = effect_passes(effects);
            &&& passes.contains(EffectPass::ColorCorrection) <==> effects.color_enabled
            &&& passes.contains(EffectPass::BlurHorizontal) <==> effects.blur_enabled
            &&& passes.contains(EffectPass::BlurVertical) <==> effects.blur_enabled
            &&& passes.contains(EffectPass::Sharpen) <==> effects.sharpen_enabled
            &&& passes.contains(EffectPass::Vignette) <==> effects.vignette_enabled
            &&& passes.contains(EffectPass::ChromaKey) <==> effects.chroma_key_enabled
            &&& forall|i: int, j: int|
                0 <= i < j < passes.len() ==> place(#[trigger] passes[i]) < place(
                    #[trigger] passes[j],
                )
        }),
{
    reveal(effect_passes);
    let color = if effects.color_enabled { seq![EffectPass::ColorCorrection] } else { seq![] };
    let blur = if effects.blur_enabled {
        seq![EffectPass::BlurHorizontal, EffectPass::BlurVertical]
    } else {
        seq![]
    };
    let sharpen = if effects.sharpen_enabled { seq![EffectPass::Sharpen] } else { seq![] };
    let vignette = if effects.vignette_enabled { seq![EffectPass::Vignette] } else { seq![] };
    let key = if effects.chroma_key_enabled { seq![EffectPass::ChromaKey] } else { seq![] };
    lemma_effects_in_order(color, blur, sharpen, vignette, key);
    assert(effects.color_enabled ==> color[0] is ColorCorrection);
    assert(effects.blur_enabled ==> blur[0] is BlurHorizontal && blur[1] is BlurVertical);
    assert(effects.sharpen_enabled ==> sharpen[0] is Sharpen);
    assert(effects.vignette_enabled ==> vignette[0] is Vignette);
    assert(effects.chroma_key_enabled ==> key[0] is ChromaKey);
}

/// The passes ascend, from place `low` and below place `high`.
pub open spec fn in_order(passes: Seq<EffectPass>, low: int, high: int) -> bool {
    &&& forall|i: int|
        0 <= i < passes.len() ==> low <= place(#[trigger] passes[i]) < high
    &&& forall|i: int, j: int|
        0 <= i < j < passes.len() ==> place(#[trigger] passes[i]) < place(#[trigger] passes[j])
}

proof fn lemma_in_order(
    front: Seq<EffectPass>,
    back: Seq<EffectPass>,
    low: int,
    middle: int,
    high: int,
)
    requires
        low <= middle <= high,
        in_order(front, low, middle),
        in_order(back, middle, high),
    ensures
        in_order(front + back, low, high),
        forall|pass: EffectPass| #[trigger]
            (front + back).contains(pass) <==> front.contains(pass) || back.contains(pass),
{
    let both = front + back;
    assert forall|pass: EffectPass| #[trigger]
        both.contains(pass) <==> front.contains(pass) || back.contains(pass) by {
        if front.contains(pass) {
            let i = choose|i: int| 0 <= i < front.len() && front[i] == pass;
            assert(both[i] == pass);
        }
        if back.contains(pass) {
            let i = choose|i: int| 0 <= i < back.len() && back[i] == pass;
            assert(both[front.len() + i] == pass);
        }
    }
}

proof fn lemma_effects_in_order(
    color: Seq<EffectPass>,
    blur: Seq<EffectPass>,
    sharpen: Seq<EffectPass>,
    vignette: Seq<EffectPass>,
    key: Seq<EffectPass>,
)
    requires
        in_order(color, 0, 1),
        in_order(blur, 1, 3),
        in_order(sharpen, 3, 4),
        in_order(vignette, 4, 5),
        in_order(key, 5, 6),
    ensures
        ({
            let passes = color + blur + sharpen + vignette + key;
            &&& in_order(passes, 0, 6)
            &&& passes.contains(EffectPass::ColorCorrection) == color.contains(
                EffectPass::ColorCorrection,
            )
            &&& passes.contains(EffectPass::BlurHorizontal) == blur.contains(
                EffectPass::BlurHorizontal,
            )
            &&& passes.contains(EffectPass::BlurVertical) == blur.contains(
                EffectPass::BlurVertical,
            )
            &&& passes.contains(EffectPass::Sharpen) == sharpen.contains(EffectPass::Sharpen)
            &&& passes.contains(EffectPass::Vignette) == vignette.contains(EffectPass::Vignette)
            &&& passes.contains(EffectPass::ChromaKey) == key.contains(EffectPass::ChromaKey)
        }),
{
    lemma_in_order(color, blur, 0, 1, 3);
    lemma_in_order(color + blur, sharpen, 0, 3, 4);
    lemma_in_order(color + blur + sharpen, vignette, 0, 4, 5);
    lemma_in_order(color + blur + sharpen + vignette, key, 0, 5, 6);
}

/// What a pass of a single input reads.
pub open spec fn input_of(node: NodePlan) -> u32 {
    match node {
        NodePlan::ToneMap { input, .. } => input,
        NodePlan::Effect { input, .. } => input,
        _ => 0,
    }
}

/// The picture a pass leaves.
pub open spec fn output_of(node: NodePlan) -> u32 {
    match node {
        NodePlan::StillUpload { output, .. } => output,
        NodePlan::YuvToRgb { output, .. } => output,
        NodePlan::ToneMap { output, .. } => output,
        NodePlan::Effect { output, .. } => output,
        _ => 0,
    }
}

/// How many passes bring a clip's picture in: an upload and a conversion for a video, the copy
/// for a still image.
pub open spec fn passes_in(entry: ClipRenderEntry) -> int {
    if entry.still_image_path == Some(true) { 1 } else { 2 }
}

/// A clip's picture is brought in: a video's frame is uploaded in its own layout and converted
/// from the planes that were uploaded by its own colour, in its own extent, and where the
/// upload stands is kept; a still image is copied; one that could not be loaded is left out,
/// and nothing of the other clips changes.
pub proof fn law_a_clip_is_brought_in(
    g: GraphView,
    job: ExportJob,
    clip: usize,
    entry: ClipRenderEntry,
    loaded: bool,
)
    requires
        0 <= g.next_id,
        g.next_id + 10 <= u32::MAX,
        g.nodes.len() <= usize::MAX,
    ensures
        ({
            let h = g.with_clip(job, clip, entry, loaded);
            let still = entry.still_image_path == Some(true);
            let n = g.nodes.len() as int;
            &&& n <= h.nodes.len()
            &&& forall|i: int| 0 <= i < n ==> #[trigger] h.nodes[i] == g.nodes[i]
            &&& still && !loaded ==> h.nodes.len() == n && h.inputs == g.inputs
            &&& !still || loaded ==> {
                &&& h.nodes.len() >= n + passes_in(entry)
                &&& h.inputs == g.inputs.push(output_of(h.nodes.last()))
            }
            &&& still && loaded ==> {
                &&& h.nodes[n] is StillUpload
                &&& h.nodes[n]->StillUpload_clip == clip
            }
            &&& h.upload_indices.len() == g.upload_indices.len() + 1
            &&& forall|i: int|
                0 <= i < g.upload_indices.len() ==> #[trigger] h.upload_indices[i]
                    == g.upload_indices[i]
            &&& still ==> h.upload_indices.last() is None
            &&& !still ==> {
                let (up, conv) = (h.nodes[n], h.nodes[n + 1]);
                &&& h.upload_indices.last() == Some(g.nodes.len() as usize)
                &&& up is YuvUpload
                &&& up->YuvUpload_clip == clip
                &&& up->YuvUpload_width == entry.clip_width
                &&& up->YuvUpload_height == entry.clip_height
                &&& up->layout == entry.frame_meta.layout
                &&& up->YuvUpload_y != up->YuvUpload_uv
                &&& conv is YuvToRgb
                &&& conv->YuvToRgb_y == up->YuvUpload_y
                &&& conv->YuvToRgb_uv == up->YuvUpload_uv
                &&& conv->YuvToRgb_output != up->YuvUpload_y
                &&& conv->YuvToRgb_output != up->YuvUpload_uv
                &&& conv->YuvToRgb_width == entry.clip_width
                &&& conv->YuvToRgb_height == entry.clip_height
                &&& conv->YuvToRgb_color == entry.frame_meta.color
                &&& conv->semi_planar == entry.frame_meta.layout.semi_planar
            }
        }),
{
}

/// Behind that, a clip's passes form one chain, each reading the picture that the pass before
/// it left, in the clip's extent: a colour transform where one is needed, and only there, and
/// then its effects.
pub proof fn law_a_clip_is_one_chain(
    g: GraphView,
    job: ExportJob,
    clip: usize,
    entry: ClipRenderEntry,
    loaded: bool,
    i: int,
)
    requires
        0 <= g.next_id,
        g.next_id + 10 <= u32::MAX,
        entry.still_image_path != Some(true) || loaded,
        g.nodes.len() + passes_in(entry) <= i < g.with_clip(job, clip, entry, loaded).nodes.len(),
    ensures
        ({
            let h = g.with_clip(job, clip, entry, loaded);
            let first = g.nodes.len() + passes_in(entry);
            let node = h.nodes[i];
            let curve = if entry.still_image_path == Some(true) {
                TransferFunction::Srgb
            } else {
                entry.frame_meta.color.transfer_fn
            };
            let out = job.output_color.transfer_fn;
            let needed = out is Pq || out is Hlg || curve is Pq || curve is Hlg
                || entry.converts_gamut;
            &&& node is ToneMap <==> i == first && needed
            &&& node is Effect <==> !(node is ToneMap)
            &&& input_of(node) == output_of(h.nodes[i - 1])
            &&& output_of(node) != input_of(node)
            &&& node is Effect ==> {
                let k = i - first - (if needed { 1int } else { 0 });
                &&& node->Effect_clip == clip
                &&& node->Effect_width == entry.clip_width
                &&& node->Effect_height == entry.clip_height
                &&& node->pass == effect_passes(entry.effects)[k]
            }
            &&& h.nodes.len() == first + (if needed { 1int } else { 0 }) + effect_passes(
                entry.effects,
            ).len()
        }),
{
    lemma_few_passes(entry.effects);
}

/// What a colour transform brings a clip to: for a PQ or HLG output the output's own curve, up
/// to the peak of its mastering display, which is a thousand nits where none is given; for
/// any other output display-referred sRGB.  Either way from the clip's own curve.
pub proof fn law_a_transform_meets_the_output(job: ExportJob, color: ColorInfo)
    ensures
        ({
            let transform = GraphView::transform_of(job, color);
            let out = job.output_color.transfer_fn;
            &&& transform is HdrOutput <==> out is Pq || out is Hlg
            &&& transform is HdrOutput ==> {
                &&& transform->HdrOutput_source == color.transfer_fn
                &&& transform->hlg <==> out is Hlg
                &&& job.hdr10 matches Some(h) ==> transform->peak == h.max_luminance
                &&& job.hdr10 is None ==> transform->peak == 1000 * 10_000
            }
            &&& transform is SdrOutput ==> transform->SdrOutput_source == color.transfer_fn
        }),
{
}

/// How many of the first `n` clips have a picture.
pub open spec fn pictures(clips: Seq<ClipRenderEntry>, loaded: Seq<bool>, n: nat) -> nat
    decreases n,
{
    if n == 0 {
        0
    } else {
        let here: nat = if clips[n - 1].still_image_path == Some(true) && !loaded[n - 1] {
            0
        } else {
            1
        };
        pictures(clips, loaded, (n - 1) as nat) + here
    }
}

proof fn lemma_clips_are_brought_in(
    job: ExportJob,
    clips: Seq<ClipRenderEntry>,
    loaded: Seq<bool>,
    n: nat,
)
    requires
        n <= clips.len() == loaded.len(),
        clips.len() * 10 + 2 <= u32::MAX,
    ensures
        ({
            let g = GraphView::of_clips(job, clips, loaded, n);
            &&& 2 <= g.next_id <= n * 10 + 2
            &&& g.nodes.len() <= n * 9
            &&& g.inputs.len() == pictures(clips, loaded, n)
            &&& g.upload_indices.len() == n
            &&& forall|k: int|
                0 <= k < n ==> match #[trigger] g.upload_indices[k] {
                    None => clips[k].still_image_path == Some(true),
                    Some(at) => {
                        &&& clips[k].still_image_path != Some(true)
                        &&& at < g.nodes.len()
                        &&& g.nodes[at as int] is YuvUpload
                        &&& g.nodes[at as int]->YuvUpload_clip == k
                    },
                }
        }),
    decreases n,
{
    if n > 0 {
        let m = (n - 1) as nat;
        lemma_clips_are_brought_in(job, clips, loaded, m);
        let g = GraphView::of_clips(job, clips, loaded, m);
        let (entry, there) = (clips[m as int], loaded[m as int]);
        law_a_clip_is_brought_in(g, job, m as usize, entry, there);
        lemma_few_passes(entry.effects);
        let h = GraphView::of_clips(job, clips, loaded, n);
        assert(h == g.with_clip(job, m as usize, entry, there));
        assert forall|k: int| 0 <= k < n implies match #[trigger] h.upload_indices[k] {
            None => clips[k].still_image_path == Some(true),
            Some(at) => {
                &&& clips[k].still_image_path != Some(true)
                &&& at < h.nodes.len()
                &&& h.nodes[at as int] is YuvUpload
                &&& h.nodes[at as int]->YuvUpload_clip == k
            },
        } by {
            if k < m {
                assert(h.upload_indices[k] == g.upload_indices[k]);
            }
        }
    }
}

/// A frame blends the pictures of all its clips that have one, in their order and nothing
/// twice, and has a slot for every clip, or one where there is no clip; where each clip's
/// frame is uploaded is known, and a still image has no such place.
pub proof fn law_a_frame_blends_its_clips(
    job: ExportJob,
    clips: Seq<ClipRenderEntry>,
    loaded: Seq<bool>,
)
    requires
        loaded.len() == clips.len(),
        clips.len() * 10 + 2 <= u32::MAX,
    ensures
        ({
            let g = GraphView::of_frame(job, clips, loaded);
            &&& g.inputs.len() == pictures(clips, loaded, clips.len())
            &&& g.nodes.len() > 0
            &&& g.nodes.last() is Composite
            &&& clips.len() > 0 ==> g.nodes.last()->slots == clips.len()
            &&& clips.len() == 0 ==> g.nodes.last()->slots == 1 && g.nodes.len() == 1
            &&& g.upload_indices.len() == clips.len()
            &&& forall|k: int|
                0 <= k < clips.len() ==> match #[trigger] g.upload_indices[k] {
                    None => clips[k].still_image_path == Some(true),
                    Some(at) => {
                        &&& at < g.nodes.len()
                        &&& g.nodes[at as int] is YuvUpload
                        &&& g.nodes[at as int]->YuvUpload_clip == k
                    },
                }
        }),
{
    lemma_clips_are_brought_in(job, clips, loaded, clips.len());
    let b = GraphView::of_clips(job, clips, loaded, clips.len());
    let g = GraphView::of_frame(job, clips, loaded);
    assert forall|k: int| 0 <= k < clips.len() implies match #[trigger] g.upload_indices[k] {
        None => clips[k].still_image_path == Some(true),
        Some(at) => {
            &&& at < g.nodes.len()
            &&& g.nodes[at as int] is YuvUpload
            &&& g.nodes[at as int]->YuvUpload_clip == k
        },
    } by {
        assert(b.upload_indices[k] == g.upload_indices[k]);
    }
}

/// A still image is display-referred sRGB: full range, eight bits, BT.709.
pub proof fn law_a_still_image_is_srgb()
    ensures
        srgb().transfer_fn is Srgb,
        srgb().primaries is Bt709,
        srgb().matrix is Bt709,
        srgb().range is Full,
        srgb().bit_depth == 8,
{
}

} // verus!
