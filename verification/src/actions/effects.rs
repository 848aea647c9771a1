//! The transformations that take no parameter: each applies one fixed
//! filter, or copies the streams.

use vstd::prelude::*;
use vstd::string::*;
use crate::catalog::VideoAction;
use crate::command::{copy_args, copy_command, filter_args, filter_command};
use crate::naming::names_view;

verus! {

/// Raises contrast and brightness a little.
pub struct AbAdvancedReplaceAction;

impl VideoAction for AbAdvancedReplaceAction {
    open spec fn id_spec(&self) -> Seq<char> {
        "ab_advanced_replace"@
    }

    open spec fn suffix_spec(&self) -> Seq<char> {
        "ab_adv"@
    }

    fn id(&self) -> (r: &'static str) {
        "ab_advanced_replace"
    }

    fn suffix(&self) -> (r: &'static str) {
        "ab_adv"
    }
}

impl AbAdvancedReplaceAction {
    /// The filter that the transformation applies.
    pub open spec fn filter() -> Seq<char> {
        "eq=contrast=1.08:brightness=0.02"@
    }

    /// The arguments that turn `src` into `dst`.
    pub open spec fn arguments_spec(src: Seq<char>, dst: Seq<char>) -> Seq<Seq<char>> {
        filter_args(src, "-vf"@, Self::filter(), dst)
    }

    /// The arguments that turn `src` into `dst`.
    pub fn arguments(&self, src: &str, dst: &str) -> (r: Vec<String>)
        ensures
            names_view(r@) == Self::arguments_spec(src@, dst@),
    {
        filter_command(
            src,
            "-vf",
            "eq=contrast=1.08:brightness=0.02",
            dst,
        )
    }
}

/// Blends the picture with itself in overlay mode.
pub struct AbBlendAction;

impl VideoAction for AbBlendAction {
    open spec fn id_spec(&self) -> Seq<char> {
        "ab_blend"@
    }

    open spec fn suffix_spec(&self) -> Seq<char> {
        "ab_blend"@
    }

    fn id(&self) -> (r: &'static str) {
        "ab_blend"
    }

    fn suffix(&self) -> (r: &'static str) {
        "ab_blend"
    }
}

impl AbBlendAction {
    /// The filter that the transformation applies.
    pub open spec fn filter() -> Seq<char> {
        "[0:v]split=2[a][b];[a][b]blend=all_mode=overlay:all_opacity=0.5"@
    }

    /// The arguments that turn `src` into `dst`.
    pub open spec fn arguments_spec(src: Seq<char>, dst: Seq<char>) -> Seq<Seq<char>> {
        filter_args(src, "-filter_complex"@, Self::filter(), dst)
    }

    /// The arguments that turn `src` into `dst`.
    pub fn arguments(&self, src: &str, dst: &str) -> (r: Vec<String>)
        ensures
            names_view(r@) == Self::arguments_spec(src@, dst@),
    {
        filter_command(
            src,
            "-filter_complex",
            "[0:v]split=2[a][b];[a][b]blend=all_mode=overlay:all_opacity=0.5",
            dst,
        )
    }
}

/// Shifts the chroma planes against each other.
pub struct AbChromaAction;

impl VideoAction for AbChromaAction {
    open spec fn id_spec(&self) -> Seq<char> {
        "ab_chroma"@
    }

    open spec fn suffix_spec(&self) -> Seq<char> {
        "ab_chroma"@
    }

    fn id(&self) -> (r: &'static str) {
        "ab_chroma"
    }

    fn suffix(&self) -> (r: &'static str) {
        "ab_chroma"
    }
}

impl AbChromaAction {
    /// The filter that the transformation applies.
    pub open spec fn filter() -> Seq<char> {
        "chromashift=cb=4:cr=-4:edge=smear"@
    }

    /// The arguments that turn `src` into `dst`.
    pub open spec fn arguments_spec(src: Seq<char>, dst: Seq<char>) -> Seq<Seq<char>> {
        filter_args(src, "-filter_complex"@, Self::filter(), dst)
    }

    /// The arguments that turn `src` into `dst`.
    pub fn arguments(&self, src: &str, dst: &str) -> (r: Vec<String>)
        ensures
            names_view(r@) == Self::arguments_spec(src@, dst@),
    {
        filter_command(
            src,
            "-filter_complex",
            "chromashift=cb=4:cr=-4:edge=smear",
            dst,
        )
    }
}

/// Adds temporal noise and lowers the saturation.
pub struct AbGlitchAction;

impl VideoAction for AbGlitchAction {
    open spec fn id_spec(&self) -> Seq<char> {
        "ab_glitch"@
    }

    open spec fn suffix_spec(&self) -> Seq<char> {
        "ab_glitch"@
    }

    fn id(&self) -> (r: &'static str) {
        "ab_glitch"
    }

    fn suffix(&self) -> (r: &'static str) {
        "ab_glitch"
    }
}

impl AbGlitchAction {
    /// The filter that the transformation applies.
    pub open spec fn filter() -> Seq<char> {
        "noise=alls=20:allf=t,hue=s=0.8"@
    }

    /// The arguments that turn `src` into `dst`.
    pub open spec fn arguments_spec(src: Seq<char>, dst: Seq<char>) -> Seq<Seq<char>> {
        filter_args(src, "-vf"@, Self::filter(), dst)
    }

    /// The arguments that turn `src` into `dst`.
    pub fn arguments(&self, src: &str, dst: &str) -> (r: Vec<String>)
        ensures
            names_view(r@) == Self::arguments_spec(src@, dst@),
    {
        filter_command(
            src,
            "-vf",
            "noise=alls=20:allf=t,hue=s=0.8",
            dst,
        )
    }
}

/// Raises the saturation a little.
pub struct AbRealReplaceAction;

impl VideoAction for AbRealReplaceAction {
    open spec fn id_spec(&self) -> Seq<char> {
        "ab_real_replace"@
    }

    open spec fn suffix_spec(&self) -> Seq<char> {
        "ab_real"@
    }

    fn id(&self) -> (r: &'static str) {
        "ab_real_replace"
    }

    fn suffix(&self) -> (r: &'static str) {
        "ab_real"
    }
}

impl AbRealReplaceAction {
    /// The filter that the transformation applies.
    pub open spec fn filter() -> Seq<char> {
        "eq=saturation=1.1"@
    }

    /// The arguments that turn `src` into `dst`.
    pub open spec fn arguments_spec(src: Seq<char>, dst: Seq<char>) -> Seq<Seq<char>> {
        filter_args(src, "-vf"@, Self::filter(), dst)
    }

    /// The arguments that turn `src` into `dst`.
    pub fn arguments(&self, src: &str, dst: &str) -> (r: Vec<String>)
        ensures
            names_view(r@) == Self::arguments_spec(src@, dst@),
    {
        filter_command(
            src,
            "-vf",
            "eq=saturation=1.1",
            dst,
        )
    }
}

/// Raises the contrast a little.
pub struct AbReplaceAction;

impl VideoAction for AbReplaceAction {
    open spec fn id_spec(&self) -> Seq<char> {
        "ab_replace"@
    }

    open spec fn suffix_spec(&self) -> Seq<char> {
        "ab_replace"@
    }

    fn id(&self) -> (r: &'static str) {
        "ab_replace"
    }

    fn suffix(&self) -> (r: &'static str) {
        "ab_replace"
    }
}

impl AbReplaceAction {
    /// The filter that the transformation applies.
    pub open spec fn filter() -> Seq<char> {
        "eq=contrast=1.05"@
    }

    /// The arguments that turn `src` into `dst`.
    pub open spec fn arguments_spec(src: Seq<char>, dst: Seq<char>) -> Seq<Seq<char>> {
        filter_args(src, "-vf"@, Self::filter(), dst)
    }

    /// The arguments that turn `src` into `dst`.
    pub fn arguments(&self, src: &str, dst: &str) -> (r: Vec<String>)
        ensures
            names_view(r@) == Self::arguments_spec(src@, dst@),
    {
        filter_command(
            src,
            "-vf",
            "eq=contrast=1.05",
            dst,
        )
    }
}

/// Shakes the picture by a moving crop.
pub struct AbShakeAction;

impl VideoAction for AbShakeAction {
    open spec fn id_spec(&self) -> Seq<char> {
        "ab_shake"@
    }

    open spec fn suffix_spec(&self) -> Seq<char> {
        "ab_shake"@
    }

    fn id(&self) -> (r: &'static str) {
        "ab_shake"
    }

    fn suffix(&self) -> (r: &'static str) {
        "ab_shake"
    }
}

impl AbShakeAction {
    /// The filter that the transformation applies.
    pub open spec fn filter() -> Seq<char> {
        "crop=iw:ih:5*sin(t*10):5*cos(t*10)"@
    }

    /// The arguments that turn `src` into `dst`.
    pub open spec fn arguments_spec(src: Seq<char>, dst: Seq<char>) -> Seq<Seq<char>> {
        filter_args(src, "-vf"@, Self::filter(), dst)
    }

    /// The arguments that turn `src` into `dst`.
    pub fn arguments(&self, src: &str, dst: &str) -> (r: Vec<String>)
        ensures
            names_view(r@) == Self::arguments_spec(src@, dst@),
    {
        filter_command(
            src,
            "-vf",
            "crop=iw:ih:5*sin(t*10):5*cos(t*10)",
            dst,
        )
    }
}

/// Lets a scaled copy of the picture float over its blurred self.
pub struct BounceAction;

impl VideoAction for BounceAction {
    open spec fn id_spec(&self) -> Seq<char> {
        "bounce"@
    }

    open spec fn suffix_spec(&self) -> Seq<char> {
        "bounce"@
    }

    fn id(&self) -> (r: &'static str) {
        "bounce"
    }

    fn suffix(&self) -> (r: &'static str) {
        "bounce"
    }
}

impl BounceAction {
    /// The filter that the transformation applies.
    pub open spec fn filter() -> Seq<char> {
        "[0:v]split=2[bg][fg];[bg]scale=iw:ih,boxblur=20[bg_blur];[fg]scale=iw*0.85:ih*0.85[fg_s];[bg_blur][fg_s]overlay=x='(W-w)/2+20*sin(t)':y='(H-h)/2+10*cos(t*1.5)'"@
    }

    /// The arguments that turn `src` into `dst`.
    pub open spec fn arguments_spec(src: Seq<char>, dst: Seq<char>) -> Seq<Seq<char>> {
        filter_args(src, "-filter_complex"@, Self::filter(), dst)
    }

    /// The arguments that turn `src` into `dst`.
    pub fn arguments(&self, src: &str, dst: &str) -> (r: Vec<String>)
        ensures
            names_view(r@) == Self::arguments_spec(src@, dst@),
    {
        filter_command(
            src,
            "-filter_complex",
            "[0:v]split=2[bg][fg];[bg]scale=iw:ih,boxblur=20[bg_blur];[fg]scale=iw*0.85:ih*0.85[fg_s];[bg_blur][fg_s]overlay=x='(W-w)/2+20*sin(t)':y='(H-h)/2+10*cos(t*1.5)'",
            dst,
        )
    }
}

/// Removes all colour.
pub struct BwAction;

impl VideoAction for BwAction {
    open spec fn id_spec(&self) -> Seq<char> {
        "bw"@
    }

    open spec fn suffix_spec(&self) -> Seq<char> {
        "bw"@
    }

    fn id(&self) -> (r: &'static str) {
        "bw"
    }

    fn suffix(&self) -> (r: &'static str) {
        "bw"
    }
}

impl BwAction {
    /// The filter that the transformation applies.
    pub open spec fn filter() -> Seq<char> {
        "hue=s=0"@
    }

    /// The arguments that turn `src` into `dst`.
    pub open spec fn arguments_spec(src: Seq<char>, dst: Seq<char>) -> Seq<Seq<char>> {
        filter_args(src, "-vf"@, Self::filter(), dst)
    }

    /// The arguments that turn `src` into `dst`.
    pub fn arguments(&self, src: &str, dst: &str) -> (r: Vec<String>)
        ensures
            names_view(r@) == Self::arguments_spec(src@, dst@),
    {
        filter_command(
            src,
            "-vf",
            "hue=s=0",
            dst,
        )
    }
}

/// Removes noise with fixed strength.
pub struct CleanAction;

impl VideoAction for CleanAction {
    open spec fn id_spec(&self) -> Seq<char> {
        "clean"@
    }

    open spec fn suffix_spec(&self) -> Seq<char> {
        "clean"@
    }

    fn id(&self) -> (r: &'static str) {
        "clean"
    }

    fn suffix(&self) -> (r: &'static str) {
        "clean"
    }
}

impl CleanAction {
    /// The filter that the transformation applies.
    pub open spec fn filter() -> Seq<char> {
        "hqdn3d=2.0:2.0:8:8"@
    }

    /// The arguments that turn `src` into `dst`.
    pub open spec fn arguments_spec(src: Seq<char>, dst: Seq<char>) -> Seq<Seq<char>> {
        filter_args(src, "-vf"@, Self::filter(), dst)
    }

    /// The arguments that turn `src` into `dst`.
    pub fn arguments(&self, src: &str, dst: &str) -> (r: Vec<String>)
        ensures
            names_view(r@) == Self::arguments_spec(src@, dst@),
    {
        filter_command(
            src,
            "-vf",
            "hqdn3d=2.0:2.0:8:8",
            dst,
        )
    }
}

/// Blurs the four corners of the picture.
pub struct CornerAction;

impl VideoAction for CornerAction {
    open spec fn id_spec(&self) -> Seq<char> {
        "corner"@
    }

    open spec fn suffix_spec(&self) -> Seq<char> {
        "corner"@
    }

    fn id(&self) -> (r: &'static str) {
        "corner"
    }

    fn suffix(&self) -> (r: &'static str) {
        "corner"
    }
}

impl CornerAction {
    /// The filter that the transformation applies.
    pub open spec fn filter() -> Seq<char> {
        "[0:v]split=2[main][blur];[blur]crop=iw/4:ih/4:0:0,boxblur=10[blur1];[blur]crop=iw/4:ih/4:iw*3/4:0,boxblur=10[blur2];[blur]crop=iw/4:ih/4:0:ih*3/4,boxblur=10[blur3];[blur]crop=iw/4:ih/4:iw*3/4:ih*3/4,boxblur=10[blur4];[main][blur1]overlay=0:0[tmp1];[tmp1][blur2]overlay=iw*3/4:0[tmp2];[tmp2][blur3]overlay=0:ih*3/4[tmp3];[tmp3][blur4]overlay=iw*3/4:ih*3/4"@
    }

    /// The arguments that turn `src` into `dst`.
    pub open spec fn arguments_spec(src: Seq<char>, dst: Seq<char>) -> Seq<Seq<char>> {
        filter_args(src, "-filter_complex"@, Self::filter(), dst)
    }

    /// The arguments that turn `src` into `dst`.
    pub fn arguments(&self, src: &str, dst: &str) -> (r: Vec<String>)
        ensures
            names_view(r@) == Self::arguments_spec(src@, dst@),
    {
        filter_command(
            src,
            "-filter_complex",
            "[0:v]split=2[main][blur];[blur]crop=iw/4:ih/4:0:0,boxblur=10[blur1];[blur]crop=iw/4:ih/4:iw*3/4:0,boxblur=10[blur2];[blur]crop=iw/4:ih/4:0:ih*3/4,boxblur=10[blur3];[blur]crop=iw/4:ih/4:iw*3/4:ih*3/4,boxblur=10[blur4];[main][blur1]overlay=0:0[tmp1];[tmp1][blur2]overlay=iw*3/4:0[tmp2];[tmp2][blur3]overlay=0:ih*3/4[tmp3];[tmp3][blur4]overlay=iw*3/4:ih*3/4",
            dst,
        )
    }
}

/// Lets the brightness flicker.
pub struct FlashAction;

impl VideoAction for FlashAction {
    open spec fn id_spec(&self) -> Seq<char> {
        "flash"@
    }

    open spec fn suffix_spec(&self) -> Seq<char> {
        "flash"@
    }

    fn id(&self) -> (r: &'static str) {
        "flash"
    }

    fn suffix(&self) -> (r: &'static str) {
        "flash"
    }
}

impl FlashAction {
    /// The filter that the transformation applies.
    pub open spec fn filter() -> Seq<char> {
        "eq=brightness='0.1*sin(10*t)'"@
    }

    /// The arguments that turn `src` into `dst`.
    pub open spec fn arguments_spec(src: Seq<char>, dst: Seq<char>) -> Seq<Seq<char>> {
        filter_args(src, "-vf"@, Self::filter(), dst)
    }

    /// The arguments that turn `src` into `dst`.
    pub fn arguments(&self, src: &str, dst: &str) -> (r: Vec<String>)
        ensures
            names_view(r@) == Self::arguments_spec(src@, dst@),
    {
        filter_command(
            src,
            "-vf",
            "eq=brightness='0.1*sin(10*t)'",
            dst,
        )
    }
}

/// Lets the contrast swell and raises the saturation.
pub struct LavaAction;

impl VideoAction for LavaAction {
    open spec fn id_spec(&self) -> Seq<char> {
        "lava"@
    }

    open spec fn suffix_spec(&self) -> Seq<char> {
        "ab_lava"@
    }

    fn id(&self) -> (r: &'static str) {
        "lava"
    }

    fn suffix(&self) -> (r: &'static str) {
        "ab_lava"
    }
}

impl LavaAction {
    /// The filter that the transformation applies.
    pub open spec fn filter() -> Seq<char> {
        "eq=contrast='1+0.3*sin(t)':saturation='1.5'"@
    }

    /// The arguments that turn `src` into `dst`.
    pub open spec fn arguments_spec(src: Seq<char>, dst: Seq<char>) -> Seq<Seq<char>> {
        filter_args(src, "-vf"@, Self::filter(), dst)
    }

    /// The arguments that turn `src` into `dst`.
    pub fn arguments(&self, src: &str, dst: &str) -> (r: Vec<String>)
        ensures
            names_view(r@) == Self::arguments_spec(src@, dst@),
    {
        filter_command(
            src,
            "-vf",
            "eq=contrast='1+0.3*sin(t)':saturation='1.5'",
            dst,
        )
    }
}

/// Lets the brightness rise and fall slowly.
pub struct ScanAction;

impl VideoAction for ScanAction {
    open spec fn id_spec(&self) -> Seq<char> {
        "scan"@
    }

    open spec fn suffix_spec(&self) -> Seq<char> {
        "scan"@
    }

    fn id(&self) -> (r: &'static str) {
        "scan"
    }

    fn suffix(&self) -> (r: &'static str) {
        "scan"
    }
}

impl ScanAction {
    /// The filter that the transformation applies.
    pub open spec fn filter() -> Seq<char> {
        "eq=brightness='0.08*sin(2*PI*t/3)'"@
    }

    /// The arguments that turn `src` into `dst`.
    pub open spec fn arguments_spec(src: Seq<char>, dst: Seq<char>) -> Seq<Seq<char>> {
        filter_args(src, "-vf"@, Self::filter(), dst)
    }

    /// The arguments that turn `src` into `dst`.
    pub fn arguments(&self, src: &str, dst: &str) -> (r: Vec<String>)
        ensures
            names_view(r@) == Self::arguments_spec(src@, dst@),
    {
        filter_command(
            src,
            "-vf",
            "eq=brightness='0.08*sin(2*PI*t/3)'",
            dst,
        )
    }
}

/// Shows the picture three times side by side, the middle one mirrored.
pub struct TrifoldAction;

impl VideoAction for TrifoldAction {
    open spec fn id_spec(&self) -> Seq<char> {
        "trifold"@
    }

    open spec fn suffix_spec(&self) -> Seq<char> {
        "ab_tri"@
    }

    fn id(&self) -> (r: &'static str) {
        "trifold"
    }

    fn suffix(&self) -> (r: &'static str) {
        "ab_tri"
    }
}

impl TrifoldAction {
    /// The filter that the transformation applies.
    pub open spec fn filter() -> Seq<char> {
        "[0:v]split=3[a][b][c];[b]hflip[b_flip];[a][b_flip][c]hstack=inputs=3,scale=iw:ih"@
    }

    /// The arguments that turn `src` into `dst`.
    pub open spec fn arguments_spec(src: Seq<char>, dst: Seq<char>) -> Seq<Seq<char>> {
        filter_args(src, "-filter_complex"@, Self::filter(), dst)
    }

    /// The arguments that turn `src` into `dst`.
    pub fn arguments(&self, src: &str, dst: &str) -> (r: Vec<String>)
        ensures
            names_view(r@) == Self::arguments_spec(src@, dst@),
    {
        filter_command(
            src,
            "-filter_complex",
            "[0:v]split=3[a][b][c];[b]hflip[b_flip];[a][b_flip][c]hstack=inputs=3,scale=iw:ih",
            dst,
        )
    }
}

/// Zooms slowly into the middle of the picture.
pub struct ZoomAction;

impl VideoAction for ZoomAction {
    open spec fn id_spec(&self) -> Seq<char> {
        "zoom"@
    }

    open spec fn suffix_spec(&self) -> Seq<char> {
        "ai_zoom"@
    }

    fn id(&self) -> (r: &'static str) {
        "zoom"
    }

    fn suffix(&self) -> (r: &'static str) {
        "ai_zoom"
    }
}

impl ZoomAction {
    /// The filter that the transformation applies.
    pub open spec fn filter() -> Seq<char> {
        "zoompan=z='min(zoom+0.0015,1.2)':d=700:x='iw/2-(iw/zoom/2)':y='ih/2-(ih/zoom/2)'"@
    }

    /// The arguments that turn `src` into `dst`.
    pub open spec fn arguments_spec(src: Seq<char>, dst: Seq<char>) -> Seq<Seq<char>> {
        filter_args(src, "-vf"@, Self::filter(), dst)
    }

    /// The arguments that turn `src` into `dst`.
    pub fn arguments(&self, src: &str, dst: &str) -> (r: Vec<String>)
        ensures
            names_view(r@) == Self::arguments_spec(src@, dst@),
    {
        filter_command(
            src,
            "-vf",
            "zoompan=z='min(zoom+0.0015,1.2)':d=700:x='iw/2-(iw/zoom/2)':y='ih/2-(ih/zoom/2)'",
            dst,
        )
    }
}

/// Draws the edges of the picture over it.
pub struct EdgeEffectAction;

impl VideoAction for EdgeEffectAction {
    open spec fn id_spec(&self) -> Seq<char> {
        "edge_effect"@
    }

    open spec fn suffix_spec(&self) -> Seq<char> {
        "edge"@
    }

    fn id(&self) -> (r: &'static str) {
        "edge_effect"
    }

    fn suffix(&self) -> (r: &'static str) {
        "edge"
    }
}

impl EdgeEffectAction {
    /// The filter that the transformation applies.
    pub open spec fn filter() -> Seq<char> {
        "edgedetect=mode=colormix"@
    }

    /// The arguments that turn `src` into `dst`.
    pub open spec fn arguments_spec(src: Seq<char>, dst: Seq<char>) -> Seq<Seq<char>> {
        filter_args(src, "-vf"@, Self::filter(), dst)
    }

    /// The arguments that turn `src` into `dst`.
    pub fn arguments(&self, src: &str, dst: &str) -> (r: Vec<String>)
        ensures
            names_view(r@) == Self::arguments_spec(src@, dst@),
    {
        filter_command(
            src,
            "-vf",
            "edgedetect=mode=colormix",
            dst,
        )
    }
}

/// Stands for face detection; copies the file unchanged.
pub struct FaceDetectionAction;

impl VideoAction for FaceDetectionAction {
    open spec fn id_spec(&self) -> Seq<char> {
        "face_detection"@
    }

    open spec fn suffix_spec(&self) -> Seq<char> {
        "face"@
    }

    fn id(&self) -> (r: &'static str) {
        "face_detection"
    }

    fn suffix(&self) -> (r: &'static str) {
        "face"
    }
}

impl FaceDetectionAction {
    /// The arguments that turn `src` into `dst`.
    pub open spec fn arguments_spec(src: Seq<char>, dst: Seq<char>) -> Seq<Seq<char>> {
        copy_args(src, dst)
    }

    /// The arguments that turn `src` into `dst`.
    pub fn arguments(&self, src: &str, dst: &str) -> (r: Vec<String>)
        ensures
            names_view(r@) == Self::arguments_spec(src@, dst@),
    {
        copy_command(src, dst)
    }
}

/// Stands for object tracking; copies the file unchanged.
pub struct ObjectTrackingAction;

impl VideoAction for ObjectTrackingAction {
    open spec fn id_spec(&self) -> Seq<char> {
        "object_tracking"@
    }

    open spec fn suffix_spec(&self) -> Seq<char> {
        "track"@
    }

    fn id(&self) -> (r: &'static str) {
        "object_tracking"
    }

    fn suffix(&self) -> (r: &'static str) {
        "track"
    }
}

impl ObjectTrackingAction {
    /// The arguments that turn `src` into `dst`.
    pub open spec fn arguments_spec(src: Seq<char>, dst: Seq<char>) -> Seq<Seq<char>> {
        copy_args(src, dst)
    }

    /// The arguments that turn `src` into `dst`.
    pub fn arguments(&self, src: &str, dst: &str) -> (r: Vec<String>)
        ensures
            names_view(r@) == Self::arguments_spec(src@, dst@),
    {
        copy_command(src, dst)
    }
}

/// Stands for an image filter; copies the file unchanged.
pub struct OpencvFilterAction;

impl VideoAction for OpencvFilterAction {
    open spec fn id_spec(&self) -> Seq<char> {
        "opencv_filter"@
    }

    open spec fn suffix_spec(&self) -> Seq<char> {
        "opencv"@
    }

    fn id(&self) -> (r: &'static str) {
        "opencv_filter"
    }

    fn suffix(&self) -> (r: &'static str) {
        "opencv"
    }
}

impl OpencvFilterAction {
    /// The arguments that turn `src` into `dst`.
    pub open spec fn arguments_spec(src: Seq<char>, dst: Seq<char>) -> Seq<Seq<char>> {
        copy_args(src, dst)
    }

    /// The arguments that turn `src` into `dst`.
    pub fn arguments(&self, src: &str, dst: &str) -> (r: Vec<String>)
        ensures
            names_view(r@) == Self::arguments_spec(src@, dst@),
    {
        copy_command(src, dst)
    }
}

/// Removes the audio and copies the video.
pub struct MuteAction;

impl VideoAction for MuteAction {
    open spec fn id_spec(&self) -> Seq<char> {
        "mute"@
    }

    open spec fn suffix_spec(&self) -> Seq<char> {
        "mute"@
    }

    fn id(&self) -> (r: &'static str) {
        "mute"
    }

    fn suffix(&self) -> (r: &'static str) {
        "mute"
    }
}

impl MuteAction {
    /// The arguments that turn `src` into `dst`.
    pub open spec fn arguments_spec(src: Seq<char>, dst: Seq<char>) -> Seq<Seq<char>> {
        seq!["-y"@, "-i"@, src, "-c:v"@, "copy"@, "-an"@, "-loglevel"@, "error"@, dst]
    }

    /// The arguments that turn `src` into `dst`.
    pub fn arguments(&self, src: &str, dst: &str) -> (r: Vec<String>)
        ensures
            names_view(r@) == Self::arguments_spec(src@, dst@),
    {
        let out: Vec<String> = vec![
            String::from_str("-y"),
            String::from_str("-i"),
            String::from_str(src),
            String::from_str("-c:v"),
            String::from_str("copy"),
            String::from_str("-an"),
            String::from_str("-loglevel"),
            String::from_str("error"),
            String::from_str(dst),
        ];
        assert(names_view(out@) =~= Self::arguments_spec(src@, dst@));
        out
    }
}

/// Keeps every thirtieth frame and drops the audio.
pub struct PullAction;

impl VideoAction for PullAction {
    open spec fn id_spec(&self) -> Seq<char> {
        "pull"@
    }

    open spec fn suffix_spec(&self) -> Seq<char> {
        "pull"@
    }

    fn id(&self) -> (r: &'static str) {
        "pull"
    }

    fn suffix(&self) -> (r: &'static str) {
        "pull"
    }
}

impl PullAction {
    /// The filter that the transformation applies.
    pub open spec fn filter() -> Seq<char> {
        "select='not(mod(n,30))',setpts=N/FRAME_RATE/TB"@
    }

    /// The arguments that turn `src` into `dst`.
    pub open spec fn arguments_spec(src: Seq<char>, dst: Seq<char>) -> Seq<Seq<char>> {
        seq!["-y"@, "-i"@, src, "-vf"@, Self::filter(), "-an"@, "-loglevel"@, "error"@, dst]
    }

    /// The arguments that turn `src` into `dst`.
    pub fn arguments(&self, src: &str, dst: &str) -> (r: Vec<String>)
        ensures
            names_view(r@) == Self::arguments_spec(src@, dst@),
    {
        let out: Vec<String> = vec![
            String::from_str("-y"),
            String::from_str("-i"),
            String::from_str(src),
            String::from_str("-vf"),
            String::from_str("select='not(mod(n,30))',setpts=N/FRAME_RATE/TB"),
            String::from_str("-an"),
            String::from_str("-loglevel"),
            String::from_str("error"),
            String::from_str(dst),
        ];
        assert(names_view(out@) =~= Self::arguments_spec(src@, dst@));
        out
    }
}

} // verus!
