//! The transformations that make a file differ from its source without
//! changing what it shows: a fresh identifier in its metadata, encoding
//! settings drawn at random, a new modification time.

use rand::Rng;
use vstd::prelude::*;
use vstd::string::*;
use crate::catalog::VideoAction;
use crate::naming::names_view;

verus! {

/// A number drawn at random. Calls `rand::thread_rng` and `Rng::gen_range`
/// on the inclusive range from `low` to `high`; the range must not be empty,
/// and the number lies in it.
#[verifier::external_body]
fn random_between(low: u32, high: u32) -> (r: u32)
    requires
        low <= high,
    ensures
        low <= r <= high,
{
    rand::thread_rng().gen_range(low..=high)
}

/// A fresh random identifier as text. Calls `uuid::Uuid::new_v4` and writes
/// the identifier in its hyphenated form, which has 36 characters.
#[verifier::external_body]
fn fresh_identifier() -> (r: String)
    ensures
        r@.len() == 36,
{
    uuid::Uuid::new_v4().to_string()
}

/// Copies the streams, drops the metadata and writes a fresh identifier
/// into the comment.
pub struct Md5Action;

impl VideoAction for Md5Action {
    open spec fn id_spec(&self) -> Seq<char> {
        "md5"@
    }

    open spec fn suffix_spec(&self) -> Seq<char> {
        "md5"@
    }

    fn id(&self) -> (r: &'static str) {
        "md5"
    }

    fn suffix(&self) -> (r: &'static str) {
        "md5"
    }
}

impl Md5Action {
    /// The arguments that turn `src` into `dst` with the identifier
    /// `identifier` as its comment.
    pub open spec fn arguments_spec(
        src: Seq<char>,
        dst: Seq<char>,
        identifier: Seq<char>,
    ) -> Seq<Seq<char>> {
        seq![
            "-y"@,
            "-i"@,
            src,
            "-c"@,
            "copy"@,
            "-map_metadata"@,
            "-1"@,
            "-metadata"@,
            "comment="@ + identifier,
            "-loglevel"@,
            "error"@,
            dst,
        ]
    }

    /// The arguments that turn `src` into `dst` with the identifier
    /// `identifier` as its comment.
    pub fn arguments(&self, src: &str, dst: &str, identifier: &str) -> (r: Vec<String>)
        ensures
            names_view(r@) == Self::arguments_spec(src@, dst@, identifier@),
    {
        let mut comment = String::from_str("comment=");
        comment.append(identifier);
        let out: Vec<String> = vec![
            String::from_str("-y"),
            String::from_str("-i"),
            String::from_str(src),
            String::from_str("-c"),
            String::from_str("copy"),
            String::from_str("-map_metadata"),
            String::from_str("-1"),
            String::from_str("-metadata"),
            comment,
            String::from_str("-loglevel"),
            String::from_str("error"),
            String::from_str(dst),
        ];
        assert(names_view(out@) =~= Self::arguments_spec(src@, dst@, identifier@));
        out
    }

    /// The arguments that turn `src` into `dst` with a fresh identifier of
    /// 36 characters as its comment.
    pub fn fresh_arguments(&self, src: &str, dst: &str) -> (r: Vec<String>)
        ensures
            exists|identifier: Seq<char>|
                identifier.len() == 36 && names_view(r@) == Self::arguments_spec(
                    src@,
                    dst@,
                    identifier,
                ),
    {
        let identifier = fresh_identifier();
        self.arguments(src, dst, identifier.as_str())
    }
}

/// Encodes the picture anew, with a quality and a speed preset drawn at
/// random.
pub struct EncodeAction;

impl VideoAction for EncodeAction {
    open spec fn id_spec(&self) -> Seq<char> {
        "encode"@
    }

    open spec fn suffix_spec(&self) -> Seq<char> {
        "encode"@
    }

    fn id(&self) -> (r: &'static str) {
        "encode"
    }

    fn suffix(&self) -> (r: &'static str) {
        "encode"
    }
}

impl EncodeAction {
    /// The speed presets to draw from.
    pub open spec fn presets() -> Seq<Seq<char>> {
        seq!["ultrafast"@, "superfast"@, "veryfast"@, "faster"@, "fast"@, "medium"@]
    }

    /// Whether the quality `quality` and the preset number `preset` can be
    /// drawn.
    pub open spec fn valid(quality: u32, preset: u32) -> bool {
        18 <= quality <= 28 && preset < 6
    }

    /// The arguments that turn `src` into `dst` with the quality `quality`
    /// and the preset number `preset`.
    pub open spec fn arguments_spec(
        src: Seq<char>,
        dst: Seq<char>,
        quality: u32,
        preset: u32,
    ) -> Seq<Seq<char>> {
        seq![
            "-y"@,
            "-i"@,
            src,
            "-c:v"@,
            "libx264"@,
            "-crf"@,
            crate::command::decimal_digits(quality as nat),
            "-preset"@,
            Self::presets()[preset as int],
            "-c:a"@,
            "copy"@,
            "-loglevel"@,
            "error"@,
            dst,
        ]
    }

    /// The name of the preset number `preset`, if there is one.
    pub fn preset_name(preset: u32) -> (r: Option<&'static str>)
        ensures
            preset < 6 ==> r is Some && r->Some_0@ == Self::presets()[preset as int],
            preset >= 6 ==> r is None,
    {
        match preset {
            0 => Some("ultrafast"),
            1 => Some("superfast"),
            2 => Some("veryfast"),
            3 => Some("faster"),
            4 => Some("fast"),
            5 => Some("medium"),
            _ => None,
        }
    }

    /// The arguments that turn `src` into `dst` with the quality `quality`
    /// and the preset number `preset`; none where these cannot be drawn.
    pub fn arguments(&self, src: &str, dst: &str, quality: u32, preset: u32) -> (r: Option<
        Vec<String>,
    >)
        ensures
            Self::valid(quality, preset) ==> r is Some && names_view(r->Some_0@)
                == Self::arguments_spec(src@, dst@, quality, preset),
            !Self::valid(quality, preset) ==> r is None,
    {
        if quality < 18 || quality > 28 {
            return None;
        }
        match Self::preset_name(preset) {
            Some(name) => {
                let out: Vec<String> = vec![
                    String::from_str("-y"),
                    String::from_str("-i"),
                    String::from_str(src),
                    String::from_str("-c:v"),
                    String::from_str("libx264"),
                    String::from_str("-crf"),
                    crate::command::decimal(quality as u64),
                    String::from_str("-preset"),
                    String::from_str(name),
                    String::from_str("-c:a"),
                    String::from_str("copy"),
                    String::from_str("-loglevel"),
                    String::from_str("error"),
                    String::from_str(dst),
                ];
                assert(names_view(out@) =~= Self::arguments_spec(src@, dst@, quality, preset));
                Some(out)
            },
            None => None,
        }
    }

    /// The arguments that turn `src` into `dst` with a quality and a preset
    /// drawn at random.
    pub fn drawn_arguments(&self, src: &str, dst: &str) -> (r: Vec<String>)
        ensures
            exists|quality: u32, preset: u32|
                Self::valid(quality, preset) && names_view(r@) == Self::arguments_spec(
                    src@,
                    dst@,
                    quality,
                    preset,
                ),
    {
        let quality = random_between(18, 28);
        let preset = random_between(0, 5);
        match self.arguments(src, dst, quality, preset) {
            Some(out) => out,
            None => Vec::new(),
        }
    }
}

/// Copies the file and sets the copy's modification time to now.
pub struct TouchAction;

impl VideoAction for TouchAction {
    open spec fn id_spec(&self) -> Seq<char> {
        "touch"@
    }

    open spec fn suffix_spec(&self) -> Seq<char> {
        "touch"@
    }

    fn id(&self) -> (r: &'static str) {
        "touch"
    }

    fn suffix(&self) -> (r: &'static str) {
        "touch"
    }
}

} // verus!
