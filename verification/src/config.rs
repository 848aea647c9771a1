//! The configuration that every transformation of a batch is handed: the
//! material files and the parameters that the transformations read.

use vstd::prelude::*;

verus! {

/// The shared configuration of a batch. It is made once before the batch
/// starts and only read afterwards.
#[derive(Clone, Debug, PartialEq, Eq)]
pub struct ActionConfig {
    pub watermark_path: Option<String>,
    pub mask_path: Option<String>,
    pub sticker_path: Option<String>,
    pub border_path: Option<String>,
    pub light_effect_path: Option<String>,
    pub pip_path: Option<String>,
    pub goods_path: Option<String>,
    pub mask_video_path: Option<String>,
    /// `horizontal`, `vertical` or `both`.
    pub mirror_direction: Option<String>,
    /// The corner of the watermark, or `center`.
    pub watermark_position: Option<String>,
    /// Frames per second of the output.
    pub target_fps: Option<u64>,
    /// The width of the blurred border, in pixels.
    pub border_width: Option<i64>,
    /// The bit rate of the output, as the media tool reads it.
    pub target_bitrate: Option<String>,
}

impl ActionConfig {
    /// Whether nothing is configured.
    pub open spec fn is_empty(&self) -> bool {
        &&& self.watermark_path is None
        &&& self.mask_path is None
        &&& self.sticker_path is None
        &&& self.border_path is None
        &&& self.light_effect_path is None
        &&& self.pip_path is None
        &&& self.goods_path is None
        &&& self.mask_video_path is None
        &&& self.mirror_direction is None
        &&& self.watermark_position is None
        &&& self.target_fps is None
        &&& self.border_width is None
        &&& self.target_bitrate is None
    }
}

impl Default for ActionConfig {
    /// The configuration with nothing configured.
    fn default() -> (r: Self)
        ensures
            r.is_empty(),
    {
        ActionConfig {
            watermark_path: None,
            mask_path: None,
            sticker_path: None,
            border_path: None,
            light_effect_path: None,
            pip_path: None,
            goods_path: None,
            mask_video_path: None,
            mirror_direction: None,
            watermark_position: None,
            target_fps: None,
            border_width: None,
            target_bitrate: None,
        }
    }
}

} // verus!
