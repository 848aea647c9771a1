//! The transformations that read the batch's configuration, or whose
//! caller picks between their variants.

use vstd::prelude::*;
use vstd::string::*;
use crate::catalog::VideoAction;
use crate::command::{
    decimal, decimal_digits, filter_args, filter_command, same_text, signed_decimal,
    signed_digits,
};
use crate::config::ActionConfig;
use crate::naming::{name_view, names_view};

verus! {

/// Mirrors the picture.
pub struct MirrorAction;

impl VideoAction for MirrorAction {
    open spec fn id_spec(&self) -> Seq<char> {
        "mirror"@
    }

    open spec fn suffix_spec(&self) -> Seq<char> {
        "flip"@
    }

    fn id(&self) -> (r: &'static str) {
        "mirror"
    }

    fn suffix(&self) -> (r: &'static str) {
        "flip"
    }
}

impl MirrorAction {
    /// The filter for `direction`: `vertical` flips top and bottom, `both`
    /// flips both ways, and anything else, or nothing, flips left and right.
    pub open spec fn filter(direction: Option<Seq<char>>) -> Seq<char> {
        if direction == Some("vertical"@) {
            "vflip"@
        } else if direction == Some("both"@) {
            "hflip,vflip"@
        } else {
            "hflip"@
        }
    }

    /// The arguments that turn `src` into `dst`, mirrored as `config` says.
    pub open spec fn arguments_spec(
        src: Seq<char>,
        dst: Seq<char>,
        config: &ActionConfig,
    ) -> Seq<Seq<char>> {
        filter_args(src, "-vf"@, Self::filter(name_view(config.mirror_direction)), dst)
    }

    /// The arguments that turn `src` into `dst`, mirrored as `config` says.
    pub fn arguments(&self, src: &str, dst: &str, config: &ActionConfig) -> (r: Vec<String>)
        ensures
            names_view(r@) == Self::arguments_spec(src@, dst@, config),
    {
        let filter = match &config.mirror_direction {
            Some(d) => {
                if same_text(d.as_str(), "vertical") {
                    "vflip"
                } else if same_text(d.as_str(), "both") {
                    "hflip,vflip"
                } else {
                    "hflip"
                }
            },
            None => "hflip",
        };
        filter_command(src, "-vf", filter, dst)
    }
}

/// Sets the frame rate.
pub struct FpsAction;

impl VideoAction for FpsAction {
    open spec fn id_spec(&self) -> Seq<char> {
        "fps_60"@
    }

    open spec fn suffix_spec(&self) -> Seq<char> {
        "fps"@
    }

    fn id(&self) -> (r: &'static str) {
        "fps_60"
    }

    fn suffix(&self) -> (r: &'static str) {
        "fps"
    }
}

impl FpsAction {
    /// The frame rate for the configured `rate`: 60 where none is configured.
    pub open spec fn rate(rate: Option<u64>) -> nat {
        match rate {
            Some(n) => n as nat,
            None => 60,
        }
    }

    /// The arguments that turn `src` into `dst` at the frame rate that
    /// `config` holds.
    pub open spec fn arguments_spec(
        src: Seq<char>,
        dst: Seq<char>,
        config: &ActionConfig,
    ) -> Seq<Seq<char>> {
        seq![
            "-y"@,
            "-i"@,
            src,
            "-r"@,
            decimal_digits(Self::rate(config.target_fps)),
            "-loglevel"@,
            "error"@,
            dst,
        ]
    }

    /// The arguments that turn `src` into `dst` at the frame rate that
    /// `config` holds.
    pub fn arguments(&self, src: &str, dst: &str, config: &ActionConfig) -> (r: Vec<String>)
        ensures
            names_view(r@) == Self::arguments_spec(src@, dst@, config),
    {
        let rate: u64 = match config.target_fps {
            Some(n) => n,
            None => 60,
        };
        let out: Vec<String> = vec![
            String::from_str("-y"),
            String::from_str("-i"),
            String::from_str(src),
            String::from_str("-r"),
            decimal(rate),
            String::from_str("-loglevel"),
            String::from_str("error"),
            String::from_str(dst),
        ];
        assert(names_view(out@) =~= Self::arguments_spec(src@, dst@, config));
        out
    }
}

/// Sets the bit rate of the picture.
pub struct BitrateAction;

impl VideoAction for BitrateAction {
    open spec fn id_spec(&self) -> Seq<char> {
        "bitrate_hq"@
    }

    open spec fn suffix_spec(&self) -> Seq<char> {
        "hq"@
    }

    fn id(&self) -> (r: &'static str) {
        "bitrate_hq"
    }

    fn suffix(&self) -> (r: &'static str) {
        "hq"
    }
}

impl BitrateAction {
    /// The bit rate for the configured `rate`: `15M` where none is
    /// configured.
    pub open spec fn rate(rate: Option<Seq<char>>) -> Seq<char> {
        match rate {
            Some(r) => r,
            None => "15M"@,
        }
    }

    /// The arguments that turn `src` into `dst` at the bit rate that
    /// `config` holds, with the buffer size `buffer`.
    pub fn arguments(&self, src: &str, dst: &str, config: &ActionConfig, buffer: &str) -> (r:
        Vec<String>)
        ensures
            names_view(r@) == seq![
                "-y"@,
                "-i"@,
                src@,
                "-b:v"@,
                Self::rate(name_view(config.target_bitrate)),
                "-minrate"@,
                Self::rate(name_view(config.target_bitrate)),
                "-bufsize"@,
                buffer@,
                "-loglevel"@,
                "error"@,
                dst@,
            ],
    {
        let rate = match &config.target_bitrate {
            Some(r) => r.as_str(),
            None => "15M",
        };
        let out: Vec<String> = vec![
            String::from_str("-y"),
            String::from_str("-i"),
            String::from_str(src),
            String::from_str("-b:v"),
            String::from_str(rate),
            String::from_str("-minrate"),
            String::from_str(rate),
            String::from_str("-bufsize"),
            String::from_str(buffer),
            String::from_str("-loglevel"),
            String::from_str("error"),
            String::from_str(dst),
        ];
        assert(names_view(out@) =~= seq![
            "-y"@,
            "-i"@,
            src@,
            "-b:v"@,
            Self::rate(name_view(config.target_bitrate)),
            "-minrate"@,
            Self::rate(name_view(config.target_bitrate)),
            "-bufsize"@,
            buffer@,
            "-loglevel"@,
            "error"@,
            dst@,
        ]);
        out
    }
}

/// Adds film grain.
pub struct GrainAction;

impl VideoAction for GrainAction {
    open spec fn id_spec(&self) -> Seq<char> {
        "grain"@
    }

    open spec fn suffix_spec(&self) -> Seq<char> {
        "grain"@
    }

    fn id(&self) -> (r: &'static str) {
        "grain"
    }

    fn suffix(&self) -> (r: &'static str) {
        "grain"
    }
}

impl GrainAction {
    /// The filter that adds noise of the strength `noise`.
    pub open spec fn filter(noise: int) -> Seq<char> {
        "noise=alls="@ + signed_digits(noise) + ":allf=t+u"@
    }

    /// The arguments that turn `src` into `dst`, with noise of the strength
    /// `noise`.
    pub fn arguments(&self, src: &str, dst: &str, noise: i32) -> (r: Vec<String>)
        ensures
            names_view(r@) == filter_args(src@, "-vf"@, Self::filter(noise as int), dst@),
    {
        let mut filter = String::from_str("noise=alls=");
        let digits = signed_decimal(noise as i64);
        filter.append(digits.as_str());
        filter.append(":allf=t+u");
        filter_command(src, "-vf", filter.as_str(), dst)
    }
}

/// Shifts the colour temperature, towards warm or towards cold.
pub struct ColorAction;

impl VideoAction for ColorAction {
    open spec fn id_spec(&self) -> Seq<char> {
        "color"@
    }

    open spec fn suffix_spec(&self) -> Seq<char> {
        "color"@
    }

    fn id(&self) -> (r: &'static str) {
        "color"
    }

    fn suffix(&self) -> (r: &'static str) {
        "color"
    }
}

impl ColorAction {
    /// The filter with the gamma `red` of the red channel and `blue` of the
    /// blue one; a warm shift raises the saturation more than a cold one.
    pub open spec fn filter(warm: bool, red: Seq<char>, blue: Seq<char>) -> Seq<char> {
        "eq=gamma_r="@ + red + ":gamma_b="@ + blue + if warm {
            ":saturation=1.1"@
        } else {
            ":saturation=1.05"@
        }
    }

    /// The arguments that turn `src` into `dst`.
    pub fn arguments(&self, src: &str, dst: &str, warm: bool, red: &str, blue: &str) -> (r: Vec<
        String,
    >)
        ensures
            names_view(r@) == filter_args(src@, "-vf"@, Self::filter(warm, red@, blue@), dst@),
    {
        let mut filter = String::from_str("eq=gamma_r=");
        filter.append(red);
        filter.append(":gamma_b=");
        filter.append(blue);
        if warm {
            filter.append(":saturation=1.1");
        } else {
            filter.append(":saturation=1.05");
        }
        filter_command(src, "-vf", filter.as_str(), dst)
    }
}

/// Puts a frame around the picture: the configured image, or a blurred copy
/// of the picture itself.
pub struct BorderAction;

impl VideoAction for BorderAction {
    open spec fn id_spec(&self) -> Seq<char> {
        "border"@
    }

    open spec fn suffix_spec(&self) -> Seq<char> {
        "border"@
    }

    fn id(&self) -> (r: &'static str) {
        "border"
    }

    fn suffix(&self) -> (r: &'static str) {
        "border"
    }
}

impl BorderAction {
    /// The filter that lays the image at `path` over the picture.
    pub open spec fn image_filter(path: Seq<char>) -> Seq<char> {
        "movie='"@ + path + "'[border];[in][border]overlay=0:0"@
    }

    /// The filter that shrinks the picture by `width` pixels on each side
    /// and lays it over its blurred self.
    pub open spec fn blur_filter(width: int) -> Seq<char> {
        "[0:v]split=2[bg][fg];[bg]scale=iw:ih,boxblur=20[bg_b];[fg]scale=iw-2*"@ + signed_digits(
            width,
        ) + ":ih-2*"@ + signed_digits(width) + "[fg_s];[bg_b][fg_s]overlay="@ + signed_digits(
            width,
        ) + ":"@ + signed_digits(width)
    }

    /// The configured width of the blurred border: 20 where none is
    /// configured.
    pub open spec fn width(width: Option<i64>) -> int {
        match width {
            Some(w) => w as int,
            None => 20,
        }
    }

    /// The arguments that turn `src` into `dst`: with the configured image
    /// where there is one, else with the blurred border of the configured
    /// width.
    pub open spec fn arguments_spec(
        src: Seq<char>,
        dst: Seq<char>,
        config: &ActionConfig,
    ) -> Seq<Seq<char>> {
        match config.border_path {
            Some(path) => filter_args(src, "-vf"@, Self::image_filter(path@), dst),
            None => filter_args(
                src,
                "-filter_complex"@,
                Self::blur_filter(Self::width(config.border_width)),
                dst,
            ),
        }
    }

    /// The arguments that turn `src` into `dst`; see `arguments_spec`.
    pub fn arguments(&self, src: &str, dst: &str, config: &ActionConfig) -> (r: Vec<String>)
        ensures
            names_view(r@) == Self::arguments_spec(src@, dst@, config),
    {
        match &config.border_path {
            Some(path) => {
                let mut filter = String::from_str("movie='");
                filter.append(path.as_str());
                filter.append("'[border];[in][border]overlay=0:0");
                filter_command(src, "-vf", filter.as_str(), dst)
            },
            None => {
                let width: i64 = match config.border_width {
                    Some(w) => w,
                    None => 20,
                };
                let digits = signed_decimal(width);
                let mut filter = String::from_str(
                    "[0:v]split=2[bg][fg];[bg]scale=iw:ih,boxblur=20[bg_b];[fg]scale=iw-2*",
                );
                filter.append(digits.as_str());
                filter.append(":ih-2*");
                filter.append(digits.as_str());
                filter.append("[fg_s];[bg_b][fg_s]overlay=");
                filter.append(digits.as_str());
                filter.append(":");
                filter.append(digits.as_str());
                filter_command(src, "-filter_complex", filter.as_str(), dst)
            },
        }
    }
}

/// Puts a watermark on the picture: the configured image, or a line of text.
pub struct WatermarkAction;

impl VideoAction for WatermarkAction {
    open spec fn id_spec(&self) -> Seq<char> {
        "watermark"@
    }

    open spec fn suffix_spec(&self) -> Seq<char> {
        "watermark"@
    }

    fn id(&self) -> (r: &'static str) {
        "watermark"
    }

    fn suffix(&self) -> (r: &'static str) {
        "watermark"
    }
}

impl WatermarkAction {
    /// Where the watermark is laid for `position`: in the named corner or the
    /// centre, and in the top right corner for anything else, or nothing.
    pub open spec fn coordinates(position: Option<Seq<char>>) -> Seq<char> {
        if position == Some("top_left"@) {
            "10:10"@
        } else if position == Some("bottom_left"@) {
            "10:H-h-10"@
        } else if position == Some("bottom_right"@) {
            "W-w-10:H-h-10"@
        } else if position == Some("center"@) {
            "(W-w)/2:(H-h)/2"@
        } else {
            "W-w-10:10"@
        }
    }

    /// The filter that lays the image at `path` over the picture, with the
    /// opacity `opacity`, at `coordinates`.
    pub open spec fn image_filter(
        path: Seq<char>,
        opacity: Seq<char>,
        coordinates: Seq<char>,
    ) -> Seq<char> {
        "movie='"@ + path + "',format=rgba,colorchannelmixer=aa="@ + opacity + "[wm];[in][wm]overlay="@
            + coordinates
    }

    /// The filter that writes a line of text on the picture.
    pub open spec fn text_filter() -> Seq<char> {
        "drawtext=text='Processed':fontsize=24:fontcolor=white@0.5:x=10:y=10"@
    }

    /// Where the watermark is laid; see `coordinates`.
    pub fn overlay_position(config: &ActionConfig) -> (r: &'static str)
        ensures
            r@ == Self::coordinates(name_view(config.watermark_position)),
    {
        match &config.watermark_position {
            Some(p) => {
                if same_text(p.as_str(), "top_left") {
                    "10:10"
                } else if same_text(p.as_str(), "bottom_left") {
                    "10:H-h-10"
                } else if same_text(p.as_str(), "bottom_right") {
                    "W-w-10:H-h-10"
                } else if same_text(p.as_str(), "center") {
                    "(W-w)/2:(H-h)/2"
                } else {
                    "W-w-10:10"
                }
            },
            None => "W-w-10:10",
        }
    }

    /// The arguments that turn `src` into `dst`: with the configured image
    /// at the configured position and the opacity `opacity` where there is
    /// an image, else with the line of text.
    pub fn arguments(&self, src: &str, dst: &str, config: &ActionConfig, opacity: &str) -> (r:
        Vec<String>)
        ensures
            names_view(r@) == match config.watermark_path {
                Some(path) => filter_args(
                    src@,
                    "-vf"@,
                    Self::image_filter(
                        path@,
                        opacity@,
                        Self::coordinates(name_view(config.watermark_position)),
                    ),
                    dst@,
                ),
                None => filter_args(src@, "-vf"@, Self::text_filter(), dst@),
            },
    {
        match &config.watermark_path {
            Some(path) => {
                let mut filter = String::from_str("movie='");
                filter.append(path.as_str());
                filter.append("',format=rgba,colorchannelmixer=aa=");
                filter.append(opacity);
                filter.append("[wm];[in][wm]overlay=");
                filter.append(Self::overlay_position(config));
                filter_command(src, "-vf", filter.as_str(), dst)
            },
            None => filter_command(
                src,
                "-vf",
                "drawtext=text='Processed':fontsize=24:fontcolor=white@0.5:x=10:y=10",
                dst,
            ),
        }
    }
}

} // verus!
