//! The transformations whose filter holds numbers that their caller
//! computes: the caller hands each number in as text, and the transformation
//! puts it into its filter and into the argument list.

use vstd::prelude::*;
use vstd::string::*;
use crate::catalog::VideoAction;
use crate::command::{filter_args, filter_command};
use crate::naming::names_view;

verus! {

/// Blurs the picture.
pub struct BlurAction;

impl VideoAction for BlurAction {
    open spec fn id_spec(&self) -> Seq<char> {
        "blur"@
    }

    open spec fn suffix_spec(&self) -> Seq<char> {
        "blur"@
    }

    fn id(&self) -> (r: &'static str) {
        "blur"
    }

    fn suffix(&self) -> (r: &'static str) {
        "blur"
    }
}

impl BlurAction {
    /// The filter that the transformation applies; `sigma` is the strength of
    /// the blur.
    pub open spec fn filter(sigma: Seq<char>) -> Seq<char> {
        "gblur=sigma="@ + sigma
    }

    /// The arguments that turn `src` into `dst`.
    pub fn arguments(&self, src: &str, dst: &str, sigma: &str) -> (r: Vec<String>)
        ensures
            names_view(r@) == filter_args(src@, "-vf"@, Self::filter(sigma@), dst@),
    {
        let mut filter = String::from_str("gblur=sigma=");
        filter.append(sigma);
        filter_command(src, "-vf", filter.as_str(), dst)
    }
}

/// Removes noise.
pub struct DenoiseAction;

impl VideoAction for DenoiseAction {
    open spec fn id_spec(&self) -> Seq<char> {
        "denoise"@
    }

    open spec fn suffix_spec(&self) -> Seq<char> {
        "denoise"@
    }

    fn id(&self) -> (r: &'static str) {
        "denoise"
    }

    fn suffix(&self) -> (r: &'static str) {
        "denoise"
    }
}

impl DenoiseAction {
    /// The filter that the transformation applies; `spatial` is the spatial
    /// strength; `temporal` is the temporal strength.
    pub open spec fn filter(spatial: Seq<char>, temporal: Seq<char>) -> Seq<char> {
        "hqdn3d="@ + spatial + ":"@ + spatial + ":"@ + temporal + ":"@ + temporal
    }

    /// The arguments that turn `src` into `dst`.
    pub fn arguments(&self, src: &str, dst: &str, spatial: &str, temporal: &str) -> (r: Vec<String>)
        ensures
            names_view(r@) == filter_args(src@, "-vf"@, Self::filter(spatial@, temporal@), dst@),
    {
        let mut filter = String::from_str("hqdn3d=");
        filter.append(spatial);
        filter.append(":");
        filter.append(spatial);
        filter.append(":");
        filter.append(temporal);
        filter.append(":");
        filter.append(temporal);
        filter_command(src, "-vf", filter.as_str(), dst)
    }
}

/// Softens the picture and lifts contrast and brightness.
pub struct PortraitAction;

impl VideoAction for PortraitAction {
    open spec fn id_spec(&self) -> Seq<char> {
        "portrait"@
    }

    open spec fn suffix_spec(&self) -> Seq<char> {
        "portrait"@
    }

    fn id(&self) -> (r: &'static str) {
        "portrait"
    }

    fn suffix(&self) -> (r: &'static str) {
        "portrait"
    }
}

impl PortraitAction {
    /// The filter that the transformation applies; `strength` is the strength
    /// of the softening.
    pub open spec fn filter(strength: Seq<char>) -> Seq<char> {
        "unsharp=7:7:"@ + strength + ":7:7:0.0,eq=contrast=1.1:brightness=0.02"@
    }

    /// The arguments that turn `src` into `dst`.
    pub fn arguments(&self, src: &str, dst: &str, strength: &str) -> (r: Vec<String>)
        ensures
            names_view(r@) == filter_args(src@, "-vf"@, Self::filter(strength@), dst@),
    {
        let mut filter = String::from_str("unsharp=7:7:");
        filter.append(strength);
        filter.append(":7:7:0.0,eq=contrast=1.1:brightness=0.02");
        filter_command(src, "-vf", filter.as_str(), dst)
    }
}

/// Sharpens the picture.
pub struct SharpenAction;

impl VideoAction for SharpenAction {
    open spec fn id_spec(&self) -> Seq<char> {
        "sharpen"@
    }

    open spec fn suffix_spec(&self) -> Seq<char> {
        "sharp"@
    }

    fn id(&self) -> (r: &'static str) {
        "sharpen"
    }

    fn suffix(&self) -> (r: &'static str) {
        "sharp"
    }
}

impl SharpenAction {
    /// The filter that the transformation applies; `strength` is the strength
    /// of the sharpening.
    pub open spec fn filter(strength: Seq<char>) -> Seq<char> {
        "unsharp=5:5:"@ + strength + ":5:5:0.0"@
    }

    /// The arguments that turn `src` into `dst`.
    pub fn arguments(&self, src: &str, dst: &str, strength: &str) -> (r: Vec<String>)
        ensures
            names_view(r@) == filter_args(src@, "-vf"@, Self::filter(strength@), dst@),
    {
        let mut filter = String::from_str("unsharp=5:5:");
        filter.append(strength);
        filter.append(":5:5:0.0");
        filter_command(src, "-vf", filter.as_str(), dst)
    }
}

/// Darkens the picture towards its edges.
pub struct VignetteAction;

impl VideoAction for VignetteAction {
    open spec fn id_spec(&self) -> Seq<char> {
        "vignette"@
    }

    open spec fn suffix_spec(&self) -> Seq<char> {
        "vig"@
    }

    fn id(&self) -> (r: &'static str) {
        "vignette"
    }

    fn suffix(&self) -> (r: &'static str) {
        "vig"
    }
}

impl VignetteAction {
    /// The filter that the transformation applies; `angle` is the angle of the
    /// vignette.
    pub open spec fn filter(angle: Seq<char>) -> Seq<char> {
        "vignette="@ + angle
    }

    /// The arguments that turn `src` into `dst`.
    pub fn arguments(&self, src: &str, dst: &str, angle: &str) -> (r: Vec<String>)
        ensures
            names_view(r@) == filter_args(src@, "-vf"@, Self::filter(angle@), dst@),
    {
        let mut filter = String::from_str("vignette=");
        filter.append(angle);
        filter_command(src, "-vf", filter.as_str(), dst)
    }
}

/// Fades the picture in at the start and out at the end.
pub struct DissolveAction;

impl VideoAction for DissolveAction {
    open spec fn id_spec(&self) -> Seq<char> {
        "dissolve"@
    }

    open spec fn suffix_spec(&self) -> Seq<char> {
        "ai_dis"@
    }

    fn id(&self) -> (r: &'static str) {
        "dissolve"
    }

    fn suffix(&self) -> (r: &'static str) {
        "ai_dis"
    }
}

impl DissolveAction {
    /// The filter that the transformation applies; `fade_out_start` is the
    /// second at which the fade out starts.
    pub open spec fn filter(fade_out_start: Seq<char>) -> Seq<char> {
        "fade=t=in:st=0:d=1,fade=t=out:st="@ + fade_out_start + ":d=1"@
    }

    /// The arguments that turn `src` into `dst`.
    pub fn arguments(&self, src: &str, dst: &str, fade_out_start: &str) -> (r: Vec<String>)
        ensures
            names_view(r@) == filter_args(src@, "-vf"@, Self::filter(fade_out_start@), dst@),
    {
        let mut filter = String::from_str("fade=t=in:st=0:d=1,fade=t=out:st=");
        filter.append(fade_out_start);
        filter.append(":d=1");
        filter_command(src, "-vf", filter.as_str(), dst)
    }
}

/// Fades in and out quickly and lets the contrast pulse.
pub struct ProgressiveAction;

impl VideoAction for ProgressiveAction {
    open spec fn id_spec(&self) -> Seq<char> {
        "progressive"@
    }

    open spec fn suffix_spec(&self) -> Seq<char> {
        "prog"@
    }

    fn id(&self) -> (r: &'static str) {
        "progressive"
    }

    fn suffix(&self) -> (r: &'static str) {
        "prog"
    }
}

impl ProgressiveAction {
    /// The filter that the transformation applies; `fade_out_start` is the
    /// second at which the fade out starts.
    pub open spec fn filter(fade_out_start: Seq<char>) -> Seq<char> {
        "fade=t=in:st=0:d=0.5,fade=t=out:st="@ + fade_out_start + ":d=0.5,eq=contrast='1+0.1*sin(2*PI*t/2)'"@
    }

    /// The arguments that turn `src` into `dst`.
    pub fn arguments(&self, src: &str, dst: &str, fade_out_start: &str) -> (r: Vec<String>)
        ensures
            names_view(r@) == filter_args(src@, "-vf"@, Self::filter(fade_out_start@), dst@),
    {
        let mut filter = String::from_str("fade=t=in:st=0:d=0.5,fade=t=out:st=");
        filter.append(fade_out_start);
        filter.append(":d=0.5,eq=contrast='1+0.1*sin(2*PI*t/2)'");
        filter_command(src, "-vf", filter.as_str(), dst)
    }
}

/// Crops the picture around its middle.
pub struct CropAction;

impl VideoAction for CropAction {
    open spec fn id_spec(&self) -> Seq<char> {
        "crop"@
    }

    open spec fn suffix_spec(&self) -> Seq<char> {
        "crop"@
    }

    fn id(&self) -> (r: &'static str) {
        "crop"
    }

    fn suffix(&self) -> (r: &'static str) {
        "crop"
    }
}

impl CropAction {
    /// The filter that the transformation applies; `ratio` is the part of each
    /// side that is kept.
    pub open spec fn filter(ratio: Seq<char>) -> Seq<char> {
        "crop=iw*"@ + ratio + ":ih*"@ + ratio + ":(iw-ow)/2:(ih-oh)/2"@
    }

    /// The arguments that turn `src` into `dst`.
    pub fn arguments(&self, src: &str, dst: &str, ratio: &str) -> (r: Vec<String>)
        ensures
            names_view(r@) == filter_args(src@, "-vf"@, Self::filter(ratio@), dst@),
    {
        let mut filter = String::from_str("crop=iw*");
        filter.append(ratio);
        filter.append(":ih*");
        filter.append(ratio);
        filter.append(":(iw-ow)/2:(ih-oh)/2");
        filter_command(src, "-vf", filter.as_str(), dst)
    }
}

/// Crops the picture around its middle, by more than `CropAction`.
pub struct StrongCropAction;

impl VideoAction for StrongCropAction {
    open spec fn id_spec(&self) -> Seq<char> {
        "strong_crop"@
    }

    open spec fn suffix_spec(&self) -> Seq<char> {
        "strong_crop"@
    }

    fn id(&self) -> (r: &'static str) {
        "strong_crop"
    }

    fn suffix(&self) -> (r: &'static str) {
        "strong_crop"
    }
}

impl StrongCropAction {
    /// The filter that the transformation applies; `ratio` is the part of each
    /// side that is kept.
    pub open spec fn filter(ratio: Seq<char>) -> Seq<char> {
        "crop=iw*"@ + ratio + ":ih*"@ + ratio + ":(iw-ow)/2:(ih-oh)/2"@
    }

    /// The arguments that turn `src` into `dst`.
    pub fn arguments(&self, src: &str, dst: &str, ratio: &str) -> (r: Vec<String>)
        ensures
            names_view(r@) == filter_args(src@, "-vf"@, Self::filter(ratio@), dst@),
    {
        let mut filter = String::from_str("crop=iw*");
        filter.append(ratio);
        filter.append(":ih*");
        filter.append(ratio);
        filter.append(":(iw-ow)/2:(ih-oh)/2");
        filter_command(src, "-vf", filter.as_str(), dst)
    }
}

/// Rotates the picture by a small angle and scales it up a little.
pub struct RotateAction;

impl VideoAction for RotateAction {
    open spec fn id_spec(&self) -> Seq<char> {
        "rotate"@
    }

    open spec fn suffix_spec(&self) -> Seq<char> {
        "rot"@
    }

    fn id(&self) -> (r: &'static str) {
        "rotate"
    }

    fn suffix(&self) -> (r: &'static str) {
        "rot"
    }
}

impl RotateAction {
    /// The filter that the transformation applies; `degrees` is the angle in
    /// degrees.
    pub open spec fn filter(degrees: Seq<char>) -> Seq<char> {
        "rotate="@ + degrees + "*PI/180,scale=1.02*iw:-1"@
    }

    /// The arguments that turn `src` into `dst`.
    pub fn arguments(&self, src: &str, dst: &str, degrees: &str) -> (r: Vec<String>)
        ensures
            names_view(r@) == filter_args(src@, "-vf"@, Self::filter(degrees@), dst@),
    {
        let mut filter = String::from_str("rotate=");
        filter.append(degrees);
        filter.append("*PI/180,scale=1.02*iw:-1");
        filter_command(src, "-vf", filter.as_str(), dst)
    }
}

/// Changes the speed of picture and sound.
pub struct SpeedAction;

impl VideoAction for SpeedAction {
    open spec fn id_spec(&self) -> Seq<char> {
        "speed"@
    }

    open spec fn suffix_spec(&self) -> Seq<char> {
        "spd"@
    }

    fn id(&self) -> (r: &'static str) {
        "speed"
    }

    fn suffix(&self) -> (r: &'static str) {
        "spd"
    }
}

impl SpeedAction {
    /// The arguments that turn `src` into `dst`; `video_rate` stretches the
    /// time stamps of the picture, `audio_rate` is the tempo of the sound.
    pub open spec fn arguments_spec(
        src: Seq<char>,
        dst: Seq<char>,
        video_rate: Seq<char>,
        audio_rate: Seq<char>,
    ) -> Seq<Seq<char>> {
        seq![
            "-y"@,
            "-i"@,
            src,
            "-filter:v"@,
            "setpts="@ + video_rate + "*PTS"@,
            "-filter:a"@,
            "atempo="@ + audio_rate,
            "-loglevel"@,
            "error"@,
            dst,
        ]
    }

    /// The arguments that turn `src` into `dst`.
    pub fn arguments(
        &self,
        src: &str,
        dst: &str,
        video_rate: &str,
        audio_rate: &str,
    ) -> (r: Vec<String>)
        ensures
            names_view(r@) == Self::arguments_spec(src@, dst@, video_rate@, audio_rate@),
    {
        let mut video = String::from_str("setpts=");
        video.append(video_rate);
        video.append("*PTS");
        let mut audio = String::from_str("atempo=");
        audio.append(audio_rate);
        let out: Vec<String> = vec![
            String::from_str("-y"),
            String::from_str("-i"),
            String::from_str(src),
            String::from_str("-filter:v"),
            video,
            String::from_str("-filter:a"),
            audio,
            String::from_str("-loglevel"),
            String::from_str("error"),
            String::from_str(dst),
        ];
        assert(names_view(out@) =~= Self::arguments_spec(src@, dst@, video_rate@, audio_rate@));
        out
    }
}

/// Shifts the pitch of the sound and copies the picture.
pub struct PitchAction;

impl VideoAction for PitchAction {
    open spec fn id_spec(&self) -> Seq<char> {
        "pitch"@
    }

    open spec fn suffix_spec(&self) -> Seq<char> {
        "pitch"@
    }

    fn id(&self) -> (r: &'static str) {
        "pitch"
    }

    fn suffix(&self) -> (r: &'static str) {
        "pitch"
    }
}

impl PitchAction {
    /// The arguments that turn `src` into `dst`; `rate` is the sample rate
    /// that the sound is read at.
    pub open spec fn arguments_spec(
        src: Seq<char>,
        dst: Seq<char>,
        rate: Seq<char>,
    ) -> Seq<Seq<char>> {
        seq![
            "-y"@,
            "-i"@,
            src,
            "-af"@,
            "asetrate="@ + rate + ",aresample=44100"@,
            "-c:v"@,
            "copy"@,
            "-loglevel"@,
            "error"@,
            dst,
        ]
    }

    /// The arguments that turn `src` into `dst`.
    pub fn arguments(&self, src: &str, dst: &str, rate: &str) -> (r: Vec<String>)
        ensures
            names_view(r@) == Self::arguments_spec(src@, dst@, rate@),
    {
        let mut filter = String::from_str("asetrate=");
        filter.append(rate);
        filter.append(",aresample=44100");
        let out: Vec<String> = vec![
            String::from_str("-y"),
            String::from_str("-i"),
            String::from_str(src),
            String::from_str("-af"),
            filter,
            String::from_str("-c:v"),
            String::from_str("copy"),
            String::from_str("-loglevel"),
            String::from_str("error"),
            String::from_str(dst),
        ];
        assert(names_view(out@) =~= Self::arguments_spec(src@, dst@, rate@));
        out
    }
}

/// Mixes quiet noise into the sound and copies the picture.
pub struct AudioNoiseAction;

impl VideoAction for AudioNoiseAction {
    open spec fn id_spec(&self) -> Seq<char> {
        "audio_noise"@
    }

    open spec fn suffix_spec(&self) -> Seq<char> {
        "anoise"@
    }

    fn id(&self) -> (r: &'static str) {
        "audio_noise"
    }

    fn suffix(&self) -> (r: &'static str) {
        "anoise"
    }
}

impl AudioNoiseAction {
    /// The arguments that turn `src` into `dst`; `volume` is the volume of the
    /// noise.
    pub open spec fn arguments_spec(
        src: Seq<char>,
        dst: Seq<char>,
        volume: Seq<char>,
    ) -> Seq<Seq<char>> {
        seq![
            "-y"@,
            "-i"@,
            src,
            "-filter_complex"@,
            "aevalsrc=-2+random(0):d=50[n];[n]volume="@ + volume + "[vn];[0:a][vn]amix=inputs=2:duration=first"@,
            "-c:v"@,
            "copy"@,
            "-loglevel"@,
            "error"@,
            dst,
        ]
    }

    /// The arguments that turn `src` into `dst`.
    pub fn arguments(&self, src: &str, dst: &str, volume: &str) -> (r: Vec<String>)
        ensures
            names_view(r@) == Self::arguments_spec(src@, dst@, volume@),
    {
        let mut filter = String::from_str("aevalsrc=-2+random(0):d=50[n];[n]volume=");
        filter.append(volume);
        filter.append("[vn];[0:a][vn]amix=inputs=2:duration=first");
        let out: Vec<String> = vec![
            String::from_str("-y"),
            String::from_str("-i"),
            String::from_str(src),
            String::from_str("-filter_complex"),
            filter,
            String::from_str("-c:v"),
            String::from_str("copy"),
            String::from_str("-loglevel"),
            String::from_str("error"),
            String::from_str(dst),
        ];
        assert(names_view(out@) =~= Self::arguments_spec(src@, dst@, volume@));
        out
    }
}

/// Cuts the same time off the head and the tail.
pub struct CutAction;

impl VideoAction for CutAction {
    open spec fn id_spec(&self) -> Seq<char> {
        "cut_head_tail"@
    }

    open spec fn suffix_spec(&self) -> Seq<char> {
        "cut"@
    }

    fn id(&self) -> (r: &'static str) {
        "cut_head_tail"
    }

    fn suffix(&self) -> (r: &'static str) {
        "cut"
    }
}

impl CutAction {
    /// The arguments that turn `src` into `dst`; `start` is the second at
    /// which the output starts, `duration` its length in seconds.
    pub open spec fn arguments_spec(
        src: Seq<char>,
        dst: Seq<char>,
        start: Seq<char>,
        duration: Seq<char>,
    ) -> Seq<Seq<char>> {
        seq![
            "-y"@,
            "-ss"@,
            start,
            "-t"@,
            duration,
            "-i"@,
            src,
            "-c"@,
            "copy"@,
            "-loglevel"@,
            "error"@,
            dst,
        ]
    }

    /// The arguments that turn `src` into `dst`.
    pub fn arguments(&self, src: &str, dst: &str, start: &str, duration: &str) -> (r: Vec<String>)
        ensures
            names_view(r@) == Self::arguments_spec(src@, dst@, start@, duration@),
    {
        let out: Vec<String> = vec![
            String::from_str("-y"),
            String::from_str("-ss"),
            String::from_str(start),
            String::from_str("-t"),
            String::from_str(duration),
            String::from_str("-i"),
            String::from_str(src),
            String::from_str("-c"),
            String::from_str("copy"),
            String::from_str("-loglevel"),
            String::from_str("error"),
            String::from_str(dst),
        ];
        assert(names_view(out@) =~= Self::arguments_spec(src@, dst@, start@, duration@));
        out
    }
}

} // verus!
