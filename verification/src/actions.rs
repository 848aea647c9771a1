//! The transformations of the catalog, and the catalog that holds them all.

pub mod adjust;
pub mod configured;
pub mod effects;
pub mod overlays;
pub mod variation;

use vstd::prelude::*;
use crate::actions::adjust::{
    AudioNoiseAction, BlurAction, CropAction, CutAction, DenoiseAction, DissolveAction,
    PitchAction, PortraitAction, ProgressiveAction, RotateAction, SharpenAction, SpeedAction,
    StrongCropAction, VignetteAction,
};
use crate::actions::configured::{
    BitrateAction, BorderAction, ColorAction, FpsAction, GrainAction, MirrorAction,
    WatermarkAction,
};
use crate::actions::effects::{
    AbAdvancedReplaceAction, AbBlendAction, AbChromaAction, AbGlitchAction, AbRealReplaceAction,
    AbReplaceAction, AbShakeAction, BounceAction, BwAction, CleanAction, CornerAction,
    EdgeEffectAction, FaceDetectionAction, FlashAction, LavaAction, MuteAction,
    ObjectTrackingAction, OpencvFilterAction, PullAction, ScanAction, TrifoldAction, ZoomAction,
};
use crate::actions::overlays::{
    GoodsTemplateAction, LightEffectAction, MaskAction, MaskVideoAction, PipAction,
    StickerAction,
};
use crate::actions::variation::{EncodeAction, Md5Action, TouchAction};
use crate::catalog::ActionFactory;
use crate::command::same_text;
use crate::config::ActionConfig;
use crate::naming::names_view;

verus! {

/// The lookup of the standard catalog: every transformation's identifier
/// with the tag of its outputs.
pub open spec fn standard_lookup() -> Map<Seq<char>, Seq<char>> {
    Map::<Seq<char>, Seq<char>>::empty()
        .insert("md5"@, "md5"@)
        .insert("crop"@, "crop"@)
        .insert("cut_head_tail"@, "cut"@)
        .insert("rotate"@, "rot"@)
        .insert("speed"@, "spd"@)
        .insert("mirror"@, "flip"@)
        .insert("fps_60"@, "fps"@)
        .insert("bitrate_hq"@, "hq"@)
        .insert("sharpen"@, "sharp"@)
        .insert("portrait"@, "portrait"@)
        .insert("denoise"@, "denoise"@)
        .insert("clean"@, "clean"@)
        .insert("grain"@, "grain"@)
        .insert("blur"@, "blur"@)
        .insert("color"@, "color"@)
        .insert("vignette"@, "vig"@)
        .insert("bw"@, "bw"@)
        .insert("border"@, "border"@)
        .insert("pull"@, "pull"@)
        .insert("corner"@, "corner"@)
        .insert("zoom"@, "ai_zoom"@)
        .insert("dissolve"@, "ai_dis"@)
        .insert("scan"@, "scan"@)
        .insert("bounce"@, "bounce"@)
        .insert("trifold"@, "ab_tri"@)
        .insert("lava"@, "ab_lava"@)
        .insert("flash"@, "flash"@)
        .insert("progressive"@, "prog"@)
        .insert("ab_blend"@, "ab_blend"@)
        .insert("ab_glitch"@, "ab_glitch"@)
        .insert("ab_shake"@, "ab_shake"@)
        .insert("ab_chroma"@, "ab_chroma"@)
        .insert("ab_replace"@, "ab_replace"@)
        .insert("ab_advanced_replace"@, "ab_adv"@)
        .insert("mute"@, "mute"@)
        .insert("audio_noise"@, "anoise"@)
        .insert("pitch"@, "pitch"@)
        .insert("touch"@, "touch"@)
        .insert("strong_crop"@, "strong_crop"@)
        .insert("watermark"@, "watermark"@)
        .insert("encode"@, "encode"@)
        .insert("ab_real_replace"@, "ab_real"@)
        .insert("sticker"@, "sticker"@)
        .insert("mask"@, "mask"@)
        .insert("mask_video"@, "mask_video"@)
        .insert("face_detection"@, "face"@)
        .insert("object_tracking"@, "track"@)
        .insert("opencv_filter"@, "opencv"@)
        .insert("light_effect"@, "light"@)
        .insert("pip"@, "pip"@)
        .insert("edge_effect"@, "edge"@)
        .insert("goods_template"@, "goods"@)
}

/// The catalog that holds every transformation.
pub fn standard_catalog() -> (r: ActionFactory)
    ensures
        r.wf(),
        r@ == standard_lookup(),
{
    let mut catalog = ActionFactory::new();
    catalog.register(Md5Action);
    catalog.register(CropAction);
    catalog.register(CutAction);
    catalog.register(RotateAction);
    catalog.register(SpeedAction);
    catalog.register(MirrorAction);
    catalog.register(FpsAction);
    catalog.register(BitrateAction);
    catalog.register(SharpenAction);
    catalog.register(PortraitAction);
    catalog.register(DenoiseAction);
    catalog.register(CleanAction);
    catalog.register(GrainAction);
    catalog.register(BlurAction);
    catalog.register(ColorAction);
    catalog.register(VignetteAction);
    catalog.register(BwAction);
    catalog.register(BorderAction);
    catalog.register(PullAction);
    catalog.register(CornerAction);
    catalog.register(ZoomAction);
    catalog.register(DissolveAction);
    catalog.register(ScanAction);
    catalog.register(BounceAction);
    catalog.register(TrifoldAction);
    catalog.register(LavaAction);
    catalog.register(FlashAction);
    catalog.register(ProgressiveAction);
    catalog.register(AbBlendAction);
    catalog.register(AbGlitchAction);
    catalog.register(AbShakeAction);
    catalog.register(AbChromaAction);
    catalog.register(AbReplaceAction);
    catalog.register(AbAdvancedReplaceAction);
    catalog.register(MuteAction);
    catalog.register(AudioNoiseAction);
    catalog.register(PitchAction);
    catalog.register(TouchAction);
    catalog.register(StrongCropAction);
    catalog.register(WatermarkAction);
    catalog.register(EncodeAction);
    catalog.register(AbRealReplaceAction);
    catalog.register(StickerAction);
    catalog.register(MaskAction);
    catalog.register(MaskVideoAction);
    catalog.register(FaceDetectionAction);
    catalog.register(ObjectTrackingAction);
    catalog.register(OpencvFilterAction);
    catalog.register(LightEffectAction);
    catalog.register(PipAction);
    catalog.register(EdgeEffectAction);
    catalog.register(GoodsTemplateAction);
    catalog
}

/// The arguments of the transformation `id` that turn `src` into `dst`,
/// for the transformations that need nothing but these and the
/// configuration; none for the others, and for an identifier that names no
/// transformation.
pub open spec fn plain_arguments(
    id: Seq<char>,
    src: Seq<char>,
    dst: Seq<char>,
    config: &ActionConfig,
) -> Option<Seq<Seq<char>>> {
    if id == "mirror"@ {
        Some(MirrorAction::arguments_spec(src, dst, config))
    } else if id == "fps_60"@ {
        Some(FpsAction::arguments_spec(src, dst, config))
    } else if id == "clean"@ {
        Some(CleanAction::arguments_spec(src, dst))
    } else if id == "bw"@ {
        Some(BwAction::arguments_spec(src, dst))
    } else if id == "border"@ {
        Some(BorderAction::arguments_spec(src, dst, config))
    } else if id == "pull"@ {
        Some(PullAction::arguments_spec(src, dst))
    } else if id == "corner"@ {
        Some(CornerAction::arguments_spec(src, dst))
    } else if id == "zoom"@ {
        Some(ZoomAction::arguments_spec(src, dst))
    } else if id == "scan"@ {
        Some(ScanAction::arguments_spec(src, dst))
    } else if id == "bounce"@ {
        Some(BounceAction::arguments_spec(src, dst))
    } else if id == "trifold"@ {
        Some(TrifoldAction::arguments_spec(src, dst))
    } else if id == "lava"@ {
        Some(LavaAction::arguments_spec(src, dst))
    } else if id == "flash"@ {
        Some(FlashAction::arguments_spec(src, dst))
    } else if id == "ab_blend"@ {
        Some(AbBlendAction::arguments_spec(src, dst))
    } else if id == "ab_glitch"@ {
        Some(AbGlitchAction::arguments_spec(src, dst))
    } else if id == "ab_shake"@ {
        Some(AbShakeAction::arguments_spec(src, dst))
    } else if id == "ab_chroma"@ {
        Some(AbChromaAction::arguments_spec(src, dst))
    } else if id == "ab_replace"@ {
        Some(AbReplaceAction::arguments_spec(src, dst))
    } else if id == "ab_advanced_replace"@ {
        Some(AbAdvancedReplaceAction::arguments_spec(src, dst))
    } else if id == "mute"@ {
        Some(MuteAction::arguments_spec(src, dst))
    } else if id == "ab_real_replace"@ {
        Some(AbRealReplaceAction::arguments_spec(src, dst))
    } else if id == "sticker"@ {
        Some(StickerAction::arguments_spec(src, dst, config))
    } else if id == "mask"@ {
        Some(MaskAction::arguments_spec(src, dst, config))
    } else if id == "mask_video"@ {
        Some(MaskVideoAction::arguments_spec(src, dst, config))
    } else if id == "face_detection"@ {
        Some(FaceDetectionAction::arguments_spec(src, dst))
    } else if id == "object_tracking"@ {
        Some(ObjectTrackingAction::arguments_spec(src, dst))
    } else if id == "opencv_filter"@ {
        Some(OpencvFilterAction::arguments_spec(src, dst))
    } else if id == "light_effect"@ {
        Some(LightEffectAction::arguments_spec(src, dst, config))
    } else if id == "pip"@ {
        Some(PipAction::arguments_spec(src, dst, config))
    } else if id == "edge_effect"@ {
        Some(EdgeEffectAction::arguments_spec(src, dst))
    } else if id == "goods_template"@ {
        Some(GoodsTemplateAction::arguments_spec(src, dst, config))
    } else {
        None
    }
}

/// The arguments of the transformation `id` that turn `src` into `dst`, for
/// the transformations that take no number from their caller: those of
/// `plain_arguments`, and `md5` and `encode`, which draw what they need.
/// None for the others, and for an identifier that names no transformation.
pub fn arguments_for(id: &str, src: &str, dst: &str, config: &ActionConfig) -> (r: Option<
    Vec<String>,
>)
    ensures
        match plain_arguments(id@, src@, dst@, config) {
            Some(arguments) => r is Some && names_view(r->Some_0@) == arguments,
            None => if id@ == "md5"@ {
                r is Some && exists|identifier: Seq<char>|
                    identifier.len() == 36 && names_view(r->Some_0@) == Md5Action::arguments_spec(
                        src@,
                        dst@,
                        identifier,
                    )
            } else if id@ == "encode"@ {
                r is Some && exists|quality: u32, preset: u32|
                    EncodeAction::valid(quality, preset) && names_view(r->Some_0@)
                        == EncodeAction::arguments_spec(src@, dst@, quality, preset)
            } else {
                r is None
            },
        },
{
    if same_text(id, "mirror") {
        Some(MirrorAction.arguments(src, dst, config))
    } else if same_text(id, "fps_60") {
        Some(FpsAction.arguments(src, dst, config))
    } else if same_text(id, "clean") {
        Some(CleanAction.arguments(src, dst))
    } else if same_text(id, "bw") {
        Some(BwAction.arguments(src, dst))
    } else if same_text(id, "border") {
        Some(BorderAction.arguments(src, dst, config))
    } else if same_text(id, "pull") {
        Some(PullAction.arguments(src, dst))
    } else if same_text(id, "corner") {
        Some(CornerAction.arguments(src, dst))
    } else if same_text(id, "zoom") {
        Some(ZoomAction.arguments(src, dst))
    } else if same_text(id, "scan") {
        Some(ScanAction.arguments(src, dst))
    } else if same_text(id, "bounce") {
        Some(BounceAction.arguments(src, dst))
    } else if same_text(id, "trifold") {
        Some(TrifoldAction.arguments(src, dst))
    } else if same_text(id, "lava") {
        Some(LavaAction.arguments(src, dst))
    } else if same_text(id, "flash") {
        Some(FlashAction.arguments(src, dst))
    } else if same_text(id, "ab_blend") {
        Some(AbBlendAction.arguments(src, dst))
    } else if same_text(id, "ab_glitch") {
        Some(AbGlitchAction.arguments(src, dst))
    } else if same_text(id, "ab_shake") {
        Some(AbShakeAction.arguments(src, dst))
    } else if same_text(id, "ab_chroma") {
        Some(AbChromaAction.arguments(src, dst))
    } else if same_text(id, "ab_replace") {
        Some(AbReplaceAction.arguments(src, dst))
    } else if same_text(id, "ab_advanced_replace") {
        Some(AbAdvancedReplaceAction.arguments(src, dst))
    } else if same_text(id, "mute") {
        Some(MuteAction.arguments(src, dst))
    } else if same_text(id, "ab_real_replace") {
        Some(AbRealReplaceAction.arguments(src, dst))
    } else if same_text(id, "sticker") {
        Some(StickerAction.arguments(src, dst, config))
    } else if same_text(id, "mask") {
        Some(MaskAction.arguments(src, dst, config))
    } else if same_text(id, "mask_video") {
        Some(MaskVideoAction.arguments(src, dst, config))
    } else if same_text(id, "face_detection") {
        Some(FaceDetectionAction.arguments(src, dst))
    } else if same_text(id, "object_tracking") {
        Some(ObjectTrackingAction.arguments(src, dst))
    } else if same_text(id, "opencv_filter") {
        Some(OpencvFilterAction.arguments(src, dst))
    } else if same_text(id, "light_effect") {
        Some(LightEffectAction.arguments(src, dst, config))
    } else if same_text(id, "pip") {
        Some(PipAction.arguments(src, dst, config))
    } else if same_text(id, "edge_effect") {
        Some(EdgeEffectAction.arguments(src, dst))
    } else if same_text(id, "goods_template") {
        Some(GoodsTemplateAction.arguments(src, dst, config))
    } else if same_text(id, "md5") {
        Some(Md5Action.fresh_arguments(src, dst))
    } else if same_text(id, "encode") {
        Some(EncodeAction.drawn_arguments(src, dst))
    } else {
        None
    }
}

} // verus!
