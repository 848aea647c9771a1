//! The transformations that lay a configured material file over the
//! picture. Without the material most of them copy the file unchanged.

use vstd::prelude::*;
use vstd::string::*;
use crate::catalog::VideoAction;
use crate::command::{
    copy_args, copy_command, filter_args, filter_command, movie_filter, movie_filter_text,
};
use crate::config::ActionConfig;
use crate::naming::names_view;

verus! {

/// Lays the configured sticker over the middle of the picture.
pub struct StickerAction;

impl VideoAction for StickerAction {
    open spec fn id_spec(&self) -> Seq<char> {
        "sticker"@
    }

    open spec fn suffix_spec(&self) -> Seq<char> {
        "sticker"@
    }

    fn id(&self) -> (r: &'static str) {
        "sticker"
    }

    fn suffix(&self) -> (r: &'static str) {
        "sticker"
    }
}

impl StickerAction {
    /// What follows the material's path in the filter.
    pub open spec fn tail() -> Seq<char> {
        "'[s];[in][s]overlay=(W-w)/2:(H-h)/2"@
    }

    /// The arguments that turn `src` into `dst`: with the configured
    /// material where there is one.
    pub open spec fn arguments_spec(
        src: Seq<char>,
        dst: Seq<char>,
        config: &ActionConfig,
    ) -> Seq<Seq<char>> {
        match config.sticker_path {
            Some(path) => filter_args(src, "-vf"@, movie_filter_text(path@, Self::tail()), dst),
            None => copy_args(src, dst),
        }
    }

    /// The arguments that turn `src` into `dst`; see `arguments_spec`.
    pub fn arguments(&self, src: &str, dst: &str, config: &ActionConfig) -> (r: Vec<String>)
        ensures
            names_view(r@) == Self::arguments_spec(src@, dst@, config),
    {
        match &config.sticker_path {
            Some(path) => {
                let filter = movie_filter(
                    path.as_str(),
                    "'[s];[in][s]overlay=(W-w)/2:(H-h)/2",
                );
                filter_command(src, "-vf", filter.as_str(), dst)
            },
            None => copy_command(src, dst),
        }
    }
}

/// Lays the configured mask over the picture.
pub struct MaskAction;

impl VideoAction for MaskAction {
    open spec fn id_spec(&self) -> Seq<char> {
        "mask"@
    }

    open spec fn suffix_spec(&self) -> Seq<char> {
        "mask"@
    }

    fn id(&self) -> (r: &'static str) {
        "mask"
    }

    fn suffix(&self) -> (r: &'static str) {
        "mask"
    }
}

impl MaskAction {
    /// What follows the material's path in the filter.
    pub open spec fn tail() -> Seq<char> {
        "'[m];[in][m]overlay=0:0"@
    }

    /// The arguments that turn `src` into `dst`: with the configured
    /// material where there is one.
    pub open spec fn arguments_spec(
        src: Seq<char>,
        dst: Seq<char>,
        config: &ActionConfig,
    ) -> Seq<Seq<char>> {
        match config.mask_path {
            Some(path) => filter_args(src, "-vf"@, movie_filter_text(path@, Self::tail()), dst),
            None => copy_args(src, dst),
        }
    }

    /// The arguments that turn `src` into `dst`; see `arguments_spec`.
    pub fn arguments(&self, src: &str, dst: &str, config: &ActionConfig) -> (r: Vec<String>)
        ensures
            names_view(r@) == Self::arguments_spec(src@, dst@, config),
    {
        match &config.mask_path {
            Some(path) => {
                let filter = movie_filter(
                    path.as_str(),
                    "'[m];[in][m]overlay=0:0",
                );
                filter_command(src, "-vf", filter.as_str(), dst)
            },
            None => copy_command(src, dst),
        }
    }
}

/// Shows the configured video in the bottom right corner, a quarter as wide as
/// the picture.
pub struct PipAction;

impl VideoAction for PipAction {
    open spec fn id_spec(&self) -> Seq<char> {
        "pip"@
    }

    open spec fn suffix_spec(&self) -> Seq<char> {
        "pip"@
    }

    fn id(&self) -> (r: &'static str) {
        "pip"
    }

    fn suffix(&self) -> (r: &'static str) {
        "pip"
    }
}

impl PipAction {
    /// What follows the material's path in the filter.
    pub open spec fn tail() -> Seq<char> {
        "'[pip];[pip][in]scale2ref=w=iw/4:h=ow/mdar[pip_scaled][in_main];[in_main][pip_scaled]overlay=W-w-20:H-h-20"@
    }

    /// The arguments that turn `src` into `dst`: with the configured
    /// material where there is one.
    pub open spec fn arguments_spec(
        src: Seq<char>,
        dst: Seq<char>,
        config: &ActionConfig,
    ) -> Seq<Seq<char>> {
        match config.pip_path {
            Some(path) => filter_args(src, "-vf"@, movie_filter_text(path@, Self::tail()), dst),
            None => copy_args(src, dst),
        }
    }

    /// The arguments that turn `src` into `dst`; see `arguments_spec`.
    pub fn arguments(&self, src: &str, dst: &str, config: &ActionConfig) -> (r: Vec<String>)
        ensures
            names_view(r@) == Self::arguments_spec(src@, dst@, config),
    {
        match &config.pip_path {
            Some(path) => {
                let filter = movie_filter(
                    path.as_str(),
                    "'[pip];[pip][in]scale2ref=w=iw/4:h=ow/mdar[pip_scaled][in_main];[in_main][pip_scaled]overlay=W-w-20:H-h-20",
                );
                filter_command(src, "-vf", filter.as_str(), dst)
            },
            None => copy_command(src, dst),
        }
    }
}

/// Blends the configured light effect over the picture, or brightens the
/// picture where none is configured.
pub struct LightEffectAction;

impl VideoAction for LightEffectAction {
    open spec fn id_spec(&self) -> Seq<char> {
        "light_effect"@
    }

    open spec fn suffix_spec(&self) -> Seq<char> {
        "light"@
    }

    fn id(&self) -> (r: &'static str) {
        "light_effect"
    }

    fn suffix(&self) -> (r: &'static str) {
        "light"
    }
}

impl LightEffectAction {
    /// What follows the material's path in the filter.
    pub open spec fn tail() -> Seq<char> {
        "':loop=0[light];[light][in]scale2ref[light_scaled][in_main];[in_main][light_scaled]blend=all_mode=screen:shortest=1"@
    }

    /// The filter that is applied where no material is configured.
    pub open spec fn fallback() -> Seq<char> {
        "eq=brightness=0.1:contrast=1.1"@
    }

    /// The arguments that turn `src` into `dst`: with the configured
    /// material where there is one.
    pub open spec fn arguments_spec(
        src: Seq<char>,
        dst: Seq<char>,
        config: &ActionConfig,
    ) -> Seq<Seq<char>> {
        match config.light_effect_path {
            Some(path) => filter_args(src, "-vf"@, movie_filter_text(path@, Self::tail()), dst),
            None => filter_args(src, "-vf"@, Self::fallback(), dst),
        }
    }

    /// The arguments that turn `src` into `dst`; see `arguments_spec`.
    pub fn arguments(&self, src: &str, dst: &str, config: &ActionConfig) -> (r: Vec<String>)
        ensures
            names_view(r@) == Self::arguments_spec(src@, dst@, config),
    {
        match &config.light_effect_path {
            Some(path) => {
                let filter = movie_filter(
                    path.as_str(),
                    "':loop=0[light];[light][in]scale2ref[light_scaled][in_main];[in_main][light_scaled]blend=all_mode=screen:shortest=1",
                );
                filter_command(src, "-vf", filter.as_str(), dst)
            },
            None => filter_command(src, "-vf", "eq=brightness=0.1:contrast=1.1", dst),
        }
    }
}

/// Lays the configured template, scaled to the picture, over it.
pub struct GoodsTemplateAction;

impl VideoAction for GoodsTemplateAction {
    open spec fn id_spec(&self) -> Seq<char> {
        "goods_template"@
    }

    open spec fn suffix_spec(&self) -> Seq<char> {
        "goods"@
    }

    fn id(&self) -> (r: &'static str) {
        "goods_template"
    }

    fn suffix(&self) -> (r: &'static str) {
        "goods"
    }
}

impl GoodsTemplateAction {
    /// What follows the material's path in the filter.
    pub open spec fn tail() -> Seq<char> {
        "'[template];[template][in]scale2ref[template_scaled][in_main];[in_main][template_scaled]overlay=0:0:shortest=1"@
    }

    /// The arguments that turn `src` into `dst`: with the configured
    /// material where there is one.
    pub open spec fn arguments_spec(
        src: Seq<char>,
        dst: Seq<char>,
        config: &ActionConfig,
    ) -> Seq<Seq<char>> {
        match config.goods_path {
            Some(path) => filter_args(src, "-vf"@, movie_filter_text(path@, Self::tail()), dst),
            None => copy_args(src, dst),
        }
    }

    /// The arguments that turn `src` into `dst`; see `arguments_spec`.
    pub fn arguments(&self, src: &str, dst: &str, config: &ActionConfig) -> (r: Vec<String>)
        ensures
            names_view(r@) == Self::arguments_spec(src@, dst@, config),
    {
        match &config.goods_path {
            Some(path) => {
                let filter = movie_filter(
                    path.as_str(),
                    "'[template];[template][in]scale2ref[template_scaled][in_main];[in_main][template_scaled]overlay=0:0:shortest=1",
                );
                filter_command(src, "-vf", filter.as_str(), dst)
            },
            None => copy_command(src, dst),
        }
    }
}

/// Multiplies the picture with the configured mask video, which is looped
/// and scaled to the picture.
pub struct MaskVideoAction;

impl VideoAction for MaskVideoAction {
    open spec fn id_spec(&self) -> Seq<char> {
        "mask_video"@
    }

    open spec fn suffix_spec(&self) -> Seq<char> {
        "mask_video"@
    }

    fn id(&self) -> (r: &'static str) {
        "mask_video"
    }

    fn suffix(&self) -> (r: &'static str) {
        "mask_video"
    }
}

impl MaskVideoAction {
    /// What follows the mask video's path in the filter.
    pub open spec fn tail() -> Seq<char> {
        "':loop=0[mask];[mask][in]scale2ref[mask_scaled][in_main];[in_main][mask_scaled]blend=all_mode=multiply:shortest=1"@
    }

    /// The arguments that turn `src` into `dst`; where no mask video is
    /// configured they copy the streams.
    pub open spec fn arguments_spec(
        src: Seq<char>,
        dst: Seq<char>,
        config: &ActionConfig,
    ) -> Seq<Seq<char>> {
        match config.mask_video_path {
            Some(path) => seq![
                "-i"@,
                src,
                "-vf"@,
                movie_filter_text(path@, Self::tail()),
                "-c:a"@,
                "copy"@,
                dst,
            ],
            None => seq!["-i"@, src, "-c"@, "copy"@, dst],
        }
    }

    /// The arguments that turn `src` into `dst`.
    pub fn arguments(&self, src: &str, dst: &str, config: &ActionConfig) -> (r: Vec<String>)
        ensures
            names_view(r@) == Self::arguments_spec(src@, dst@, config),
    {
        match &config.mask_video_path {
            Some(path) => {
                let filter = movie_filter(
                    path.as_str(),
                    "':loop=0[mask];[mask][in]scale2ref[mask_scaled][in_main];[in_main][mask_scaled]blend=all_mode=multiply:shortest=1",
                );
                let out: Vec<String> = vec![
                    String::from_str("-i"),
                    String::from_str(src),
                    String::from_str("-vf"),
                    filter,
                    String::from_str("-c:a"),
                    String::from_str("copy"),
                    String::from_str(dst),
                ];
                assert(names_view(out@) =~= Self::arguments_spec(src@, dst@, config));
                out
            },
            None => {
                let out: Vec<String> = vec![
                    String::from_str("-i"),
                    String::from_str(src),
                    String::from_str("-c"),
                    String::from_str("copy"),
                    String::from_str(dst),
                ];
                assert(names_view(out@) =~= Self::arguments_spec(src@, dst@, config));
                out
            },
        }
    }
}

} // verus!
