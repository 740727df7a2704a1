use nexir::export::graph::{
    ClipEffects, ClipRenderEntry, ColorTransform, EffectPass, GraphPlan, NodePlan,
};
use nexir::export::job::{ExportJob, Hdr10Metadata, VideoCodec};
use nexir::export::renderer::{ExportBackend, ExportRenderer, RenderError};
use nexir::timeline::{
    ColorInfo, DecodedFrameMeta, FrameLayout, Rational, SourceId, TransferFunction,
};

fn job() -> ExportJob {
    ExportJob::web_h264(
        String::from("out.mp4"),
        0,
        30_000,
        1920,
        1080,
        Rational::new(30, 1),
        Rational::new(1, 90_000),
        8,
    )
}

fn plain() -> ClipEffects {
    ClipEffects {
        color_enabled: false,
        blur_enabled: false,
        sharpen_enabled: false,
        vignette_enabled: false,
        chroma_key_enabled: false,
        settings: 0,
    }
}

fn clip(id: u32) -> ClipRenderEntry {
    ClipRenderEntry {
        source_id: SourceId::new(id),
        clip_width: 640,
        clip_height: 360,
        frame_meta: DecodedFrameMeta {
            layout: FrameLayout { bit_depth: 8, semi_planar: true, msb_aligned: false },
            color: ColorInfo::bt709(),
        },
        still_image_path: Some(false),
        effects: plain(),
        converts_gamut: false,
        texture_slot: 0x0002_0005,
    }
}

#[test]
fn a_plain_clip_is_uploaded_converted_and_composited() {
    let plan = GraphPlan::of_frame(&job(), &vec![clip(1)], &vec![false]);
    assert_eq!(plan.nodes.len(), 3);
    assert!(matches!(
        plan.nodes[0],
        NodePlan::YuvUpload { clip: 0, width: 640, height: 360, y: 3, uv: 4, .. }
    ));
    assert!(matches!(
        plan.nodes[1],
        NodePlan::YuvToRgb { y: 3, uv: 4, output: 2, semi_planar: true, .. }
    ));
    assert!(matches!(plan.nodes[2], NodePlan::Composite { slots: 1 }));
    assert_eq!(plan.inputs, vec![2]);
    assert_eq!(plan.upload_indices, vec![Some(0)]);
}

#[test]
fn effects_run_in_a_fixed_order() {
    let mut entry = clip(1);
    entry.effects = ClipEffects {
        color_enabled: true,
        blur_enabled: true,
        sharpen_enabled: true,
        vignette_enabled: true,
        chroma_key_enabled: true,
        settings: 9,
    };
    let plan = GraphPlan::of_frame(&job(), &vec![entry], &vec![false]);
    let passes: Vec<(EffectPass, u32, u32)> = plan
        .nodes
        .iter()
        .filter_map(|node| match node {
            NodePlan::Effect { pass, input, output, .. } => Some((*pass, *input, *output)),
            _ => None,
        })
        .collect();
    assert_eq!(
        passes,
        vec![
            (EffectPass::ColorCorrection, 2, 5),
            (EffectPass::BlurHorizontal, 5, 6),
            (EffectPass::BlurVertical, 6, 7),
            (EffectPass::Sharpen, 7, 8),
            (EffectPass::Vignette, 8, 9),
            (EffectPass::ChromaKey, 9, 10),
        ]
    );
    assert_eq!(plan.inputs, vec![10]);
}

#[test]
fn still_images_are_copied_and_missing_ones_left_out() {
    let mut still = clip(1);
    still.still_image_path = Some(true);
    let plan = GraphPlan::of_frame(&job(), &vec![still, clip(2)], &vec![true, false]);
    assert!(matches!(plan.nodes[0], NodePlan::StillUpload { clip: 0, output: 2 }));
    assert_eq!(plan.upload_indices, vec![None, Some(1)]);
    assert_eq!(plan.inputs, vec![2, 3]);

    let missing = GraphPlan::of_frame(&job(), &vec![still], &vec![false]);
    assert_eq!(missing.nodes.len(), 1);
    assert!(missing.inputs.is_empty());
    let empty = GraphPlan::of_frame(&job(), &vec![], &vec![]);
    assert!(matches!(empty.nodes[0], NodePlan::Composite { slots: 1 }));
}

#[test]
fn an_hdr_clip_is_tone_mapped_for_an_sdr_export() {
    let mut entry = clip(1);
    entry.frame_meta.color = ColorInfo::bt2020(true, 10);
    let plan = GraphPlan::of_frame(&job(), &vec![entry], &vec![false]);
    assert!(matches!(
        plan.nodes[2],
        NodePlan::ToneMap {
            input: 2,
            output: 5,
            transform: ColorTransform::SdrOutput { source: TransferFunction::Pq },
            ..
        }
    ));
}

#[test]
fn a_transform_knows_its_clip_and_its_primaries() {
    let mut wide = clip(2);
    wide.frame_meta.color = ColorInfo::bt2020(false, 8);
    wide.converts_gamut = true;
    let mut still = clip(3);
    still.still_image_path = Some(true);
    still.frame_meta.color = ColorInfo::bt2020(true, 10);
    still.converts_gamut = true;
    let clips = vec![clip(1), wide, still];
    let plan = GraphPlan::of_frame(&job(), &clips, &vec![false, false, true]);
    let transforms: Vec<(usize, ColorInfo, bool)> = plan
        .nodes
        .iter()
        .filter_map(|node| match node {
            NodePlan::ToneMap { clip, color, converts_gamut, .. } => {
                Some((*clip, *color, *converts_gamut))
            }
            _ => None,
        })
        .collect();
    assert_eq!(
        transforms,
        vec![(1, ColorInfo::bt2020(false, 8), true), (2, ColorInfo::srgb(), true)]
    );
}

#[test]
fn an_hdr_export_keeps_the_highlights() {
    let mut j = job();
    j.video_codec = VideoCodec::H265;
    let mut metadata = Hdr10Metadata::bt2020_1000_nits();
    metadata.max_luminance = 40_000_000;
    j.set_hdr10(metadata).expect("HEVC carries HDR");
    let plan = GraphPlan::of_frame(&j, &vec![clip(1)], &vec![false]);
    assert!(matches!(
        plan.nodes[2],
        NodePlan::ToneMap {
            transform: ColorTransform::HdrOutput {
                source: TransferFunction::Bt709,
                hlg: false,
                peak: 40_000_000,
            },
            ..
        }
    ));
}

#[test]
fn a_graph_is_kept_while_the_clips_stay_alike() {
    let mut renderer = ExportRenderer::new(job(), ExportBackend::Cpu);
    let clips = vec![clip(1)];
    let plan = match renderer.ensure_graph(&clips, &vec![false]) {
        Some(plan) => plan,
        None => panic!("there is no graph yet"),
    };
    assert!(renderer.graph_compiled(&clips, plan, true).is_ok());
    assert!(renderer.ensure_graph(&clips, &vec![false]).is_none());

    let mut moved = clip(1);
    moved.texture_slot = 7;
    assert!(renderer.ensure_graph(&vec![moved], &vec![false]).is_none());
    let mut graded = clip(1);
    graded.effects.settings = 1;
    assert!(renderer.ensure_graph(&vec![graded], &vec![false]).is_some());
    assert!(renderer.ensure_graph(&vec![clip(1), clip(2)], &vec![false, false]).is_some());
}

#[test]
fn a_graph_that_fails_is_not_kept() {
    let mut renderer = ExportRenderer::new(job(), ExportBackend::Cpu);
    let clips = vec![clip(1)];
    let plan = renderer.ensure_graph(&clips, &vec![false]).expect("there is no graph yet");
    assert!(matches!(
        renderer.graph_compiled(&clips, plan, false),
        Err(RenderError::GraphOutput)
    ));
    assert!(renderer.ensure_graph(&clips, &vec![false]).is_some());
}

#[test]
fn frames_are_uploaded_from_their_slots() {
    let mut renderer = ExportRenderer::new(job(), ExportBackend::Cpu);
    let mut still = clip(1);
    still.still_image_path = Some(true);
    let clips = vec![still, clip(2)];
    let plan = renderer.ensure_graph(&clips, &vec![true, false]).expect("there is no graph yet");
    renderer.graph_compiled(&clips, plan, true).expect("it compiled");
    let uploads = renderer.upload_frame_data(&clips);
    assert_eq!(uploads.len(), 1);
    assert_eq!((uploads[0].clip, uploads[0].node), (1, 1));
    assert_eq!((uploads[0].slot.tier, uploads[0].slot.index), (2, 5));
}
