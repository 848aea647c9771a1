use video_matrix::actions::adjust::{
    AudioNoiseAction, BlurAction, CropAction, CutAction, DenoiseAction, PitchAction, RotateAction,
    SpeedAction,
};
use video_matrix::actions::configured::{
    BitrateAction, BorderAction, ColorAction, FpsAction, GrainAction, MirrorAction,
    WatermarkAction,
};
use video_matrix::actions::effects::{BwAction, FaceDetectionAction, MuteAction, PullAction, TrifoldAction};
use video_matrix::actions::overlays::{LightEffectAction, MaskVideoAction, StickerAction};
use video_matrix::actions::variation::{EncodeAction, Md5Action, TouchAction};
use video_matrix::actions::{arguments_for, standard_catalog};
use video_matrix::catalog::VideoAction;
use video_matrix::command::{decimal, signed_decimal};
use video_matrix::config::ActionConfig;

fn args(list: &[&str]) -> Vec<String> {
    list.iter().map(|s| s.to_string()).collect()
}

#[test]
fn fixed_filter_arguments() {
    assert_eq!(
        BwAction.arguments("in.mp4", "out/in_bw.mp4"),
        args(&["-y", "-i", "in.mp4", "-vf", "hue=s=0", "-c:a", "copy", "-loglevel", "error", "out/in_bw.mp4"])
    );
    assert_eq!(
        TrifoldAction.arguments("a", "b"),
        args(&[
            "-y",
            "-i",
            "a",
            "-filter_complex",
            "[0:v]split=3[a][b][c];[b]hflip[b_flip];[a][b_flip][c]hstack=inputs=3,scale=iw:ih",
            "-c:a",
            "copy",
            "-loglevel",
            "error",
            "b"
        ])
    );
}

#[test]
fn copy_mute_and_pull_arguments() {
    assert_eq!(
        FaceDetectionAction.arguments("a", "b"),
        args(&["-y", "-i", "a", "-c", "copy", "-loglevel", "error", "b"])
    );
    assert_eq!(
        MuteAction.arguments("a", "b"),
        args(&["-y", "-i", "a", "-c:v", "copy", "-an", "-loglevel", "error", "b"])
    );
    assert_eq!(
        PullAction.arguments("a", "b"),
        args(&[
            "-y",
            "-i",
            "a",
            "-vf",
            "select='not(mod(n,30))',setpts=N/FRAME_RATE/TB",
            "-an",
            "-loglevel",
            "error",
            "b"
        ])
    );
}

#[test]
fn filters_take_their_numbers_as_text() {
    assert_eq!(BlurAction.arguments("a", "b", "0.5")[4], "gblur=sigma=0.5");
    assert_eq!(DenoiseAction.arguments("a", "b", "1.5", "5")[4], "hqdn3d=1.5:1.5:5:5");
    assert_eq!(
        CropAction.arguments("a", "b", "0.970")[4],
        "crop=iw*0.970:ih*0.970:(iw-ow)/2:(ih-oh)/2"
    );
    assert_eq!(RotateAction.arguments("a", "b", "-1.25")[4], "rotate=-1.25*PI/180,scale=1.02*iw:-1");
    assert_eq!(
        SpeedAction.arguments("a", "b", "0.9804", "1.0200"),
        args(&[
            "-y",
            "-i",
            "a",
            "-filter:v",
            "setpts=0.9804*PTS",
            "-filter:a",
            "atempo=1.0200",
            "-loglevel",
            "error",
            "b"
        ])
    );
    assert_eq!(
        PitchAction.arguments("a", "b", "45000"),
        args(&["-y", "-i", "a", "-af", "asetrate=45000,aresample=44100", "-c:v", "copy", "-loglevel", "error", "b"])
    );
    assert_eq!(
        AudioNoiseAction.arguments("a", "b", "0.01")[4],
        "aevalsrc=-2+random(0):d=50[n];[n]volume=0.01[vn];[0:a][vn]amix=inputs=2:duration=first"
    );
    assert_eq!(
        CutAction.arguments("a", "b", "1", "8.5"),
        args(&["-y", "-ss", "1", "-t", "8.5", "-i", "a", "-c", "copy", "-loglevel", "error", "b"])
    );
}

#[test]
fn mirror_follows_the_configured_direction() {
    let mut config = ActionConfig::default();
    assert_eq!(MirrorAction.arguments("a", "b", &config)[4], "hflip");
    config.mirror_direction = Some("vertical".to_string());
    assert_eq!(MirrorAction.arguments("a", "b", &config)[4], "vflip");
    config.mirror_direction = Some("both".to_string());
    assert_eq!(MirrorAction.arguments("a", "b", &config)[4], "hflip,vflip");
    config.mirror_direction = Some("horizontal".to_string());
    assert_eq!(MirrorAction.arguments("a", "b", &config)[4], "hflip");
    config.mirror_direction = Some("sideways".to_string());
    assert_eq!(
        MirrorAction.arguments("a", "b", &config),
        args(&["-y", "-i", "a", "-vf", "hflip", "-c:a", "copy", "-loglevel", "error", "b"])
    );
}

#[test]
fn fps_and_bitrate_have_defaults() {
    let mut config = ActionConfig::default();
    assert_eq!(
        FpsAction.arguments("a", "b", &config),
        args(&["-y", "-i", "a", "-r", "60", "-loglevel", "error", "b"])
    );
    config.target_fps = Some(24);
    assert_eq!(FpsAction.arguments("a", "b", &config)[4], "24");
    assert_eq!(
        BitrateAction.arguments("a", "b", &config, "30M"),
        args(&[
            "-y", "-i", "a", "-b:v", "15M", "-minrate", "15M", "-bufsize", "30M", "-loglevel", "error", "b"
        ])
    );
    config.target_bitrate = Some("8M".to_string());
    let with_rate = BitrateAction.arguments("a", "b", &config, "16M");
    assert_eq!(with_rate[4], "8M");
    assert_eq!(with_rate[6], "8M");
    assert_eq!(with_rate[8], "16M");
}

#[test]
fn border_uses_the_image_or_the_width() {
    let mut config = ActionConfig::default();
    assert_eq!(
        BorderAction.arguments("a", "b", &config),
        args(&[
            "-y",
            "-i",
            "a",
            "-filter_complex",
            "[0:v]split=2[bg][fg];[bg]scale=iw:ih,boxblur=20[bg_b];[fg]scale=iw-2*20:ih-2*20[fg_s];[bg_b][fg_s]overlay=20:20",
            "-c:a",
            "copy",
            "-loglevel",
            "error",
            "b"
        ])
    );
    config.border_width = Some(35);
    assert_eq!(
        BorderAction.arguments("a", "b", &config)[4],
        "[0:v]split=2[bg][fg];[bg]scale=iw:ih,boxblur=20[bg_b];[fg]scale=iw-2*35:ih-2*35[fg_s];[bg_b][fg_s]overlay=35:35"
    );
    config.border_path = Some("frame.png".to_string());
    assert_eq!(
        BorderAction.arguments("a", "b", &config),
        args(&[
            "-y",
            "-i",
            "a",
            "-vf",
            "movie='frame.png'[border];[in][border]overlay=0:0",
            "-c:a",
            "copy",
            "-loglevel",
            "error",
            "b"
        ])
    );
}

#[test]
fn watermark_position_and_fallback() {
    let mut config = ActionConfig::default();
    assert_eq!(
        WatermarkAction.arguments("a", "b", &config, "0.5")[4],
        "drawtext=text='Processed':fontsize=24:fontcolor=white@0.5:x=10:y=10"
    );
    assert_eq!(WatermarkAction::overlay_position(&config), "W-w-10:10");
    for (position, coordinates) in [
        ("top_left", "10:10"),
        ("top_right", "W-w-10:10"),
        ("bottom_left", "10:H-h-10"),
        ("bottom_right", "W-w-10:H-h-10"),
        ("center", "(W-w)/2:(H-h)/2"),
        ("elsewhere", "W-w-10:10"),
    ] {
        config.watermark_position = Some(position.to_string());
        assert_eq!(WatermarkAction::overlay_position(&config), coordinates);
    }
    config.watermark_path = Some("logo.png".to_string());
    config.watermark_position = Some("center".to_string());
    assert_eq!(
        WatermarkAction.arguments("a", "b", &config, "0.8")[4],
        "movie='logo.png',format=rgba,colorchannelmixer=aa=0.8[wm];[in][wm]overlay=(W-w)/2:(H-h)/2"
    );
}

#[test]
fn grain_and_colour_filters() {
    assert_eq!(GrainAction.arguments("a", "b", 10)[4], "noise=alls=10:allf=t+u");
    assert_eq!(GrainAction.arguments("a", "b", -3)[4], "noise=alls=-3:allf=t+u");
    assert_eq!(
        ColorAction.arguments("a", "b", true, "1.0800", "0.9200")[4],
        "eq=gamma_r=1.0800:gamma_b=0.9200:saturation=1.1"
    );
    assert_eq!(
        ColorAction.arguments("a", "b", false, "0.9200", "1.0800")[4],
        "eq=gamma_r=0.9200:gamma_b=1.0800:saturation=1.05"
    );
}

#[test]
fn overlays_escape_the_material_path() {
    let mut config = ActionConfig::default();
    assert_eq!(
        StickerAction.arguments("a", "b", &config),
        args(&["-y", "-i", "a", "-c", "copy", "-loglevel", "error", "b"])
    );
    config.sticker_path = Some("C:\\art\\star.png".to_string());
    assert_eq!(
        StickerAction.arguments("a", "b", &config),
        args(&[
            "-y",
            "-i",
            "a",
            "-vf",
            "movie='C\\:/art/star.png'[s];[in][s]overlay=(W-w)/2:(H-h)/2",
            "-c:a",
            "copy",
            "-loglevel",
            "error",
            "b"
        ])
    );
    assert_eq!(LightEffectAction.arguments("a", "b", &config)[4], "eq=brightness=0.1:contrast=1.1");
    config.light_effect_path = Some("glow.mp4".to_string());
    assert_eq!(
        LightEffectAction.arguments("a", "b", &config)[4],
        "movie='glow.mp4':loop=0[light];[light][in]scale2ref[light_scaled][in_main];[in_main][light_scaled]blend=all_mode=screen:shortest=1"
    );
}

#[test]
fn mask_video_arguments() {
    let mut config = ActionConfig::default();
    assert_eq!(MaskVideoAction.arguments("a", "b", &config), args(&["-i", "a", "-c", "copy", "b"]));
    config.mask_video_path = Some("m.mp4".to_string());
    assert_eq!(
        MaskVideoAction.arguments("a", "b", &config),
        args(&[
            "-i",
            "a",
            "-vf",
            "movie='m.mp4':loop=0[mask];[mask][in]scale2ref[mask_scaled][in_main];[in_main][mask_scaled]blend=all_mode=multiply:shortest=1",
            "-c:a",
            "copy",
            "b"
        ])
    );
}

#[test]
fn md5_writes_the_identifier_into_the_comment() {
    assert_eq!(
        Md5Action.arguments("a", "b", "0000"),
        args(&[
            "-y",
            "-i",
            "a",
            "-c",
            "copy",
            "-map_metadata",
            "-1",
            "-metadata",
            "comment=0000",
            "-loglevel",
            "error",
            "b"
        ])
    );
}

#[test]
fn md5_draws_a_fresh_identifier_each_time() {
    let first = Md5Action.fresh_arguments("a", "b");
    let second = Md5Action.fresh_arguments("a", "b");
    assert_eq!(first.len(), 12);
    let comment = &first[8];
    assert!(comment.starts_with("comment="));
    assert_eq!(comment.chars().count(), "comment=".len() + 36);
    assert_ne!(first[8], second[8]);
    assert_eq!(first[..8], second[..8]);
    assert_eq!(first[9..], second[9..]);
}

#[test]
fn encode_arguments_for_given_settings() {
    assert_eq!(
        EncodeAction.arguments("a", "b", 23, 2),
        Some(args(&[
            "-y",
            "-i",
            "a",
            "-c:v",
            "libx264",
            "-crf",
            "23",
            "-preset",
            "veryfast",
            "-c:a",
            "copy",
            "-loglevel",
            "error",
            "b"
        ]))
    );
    assert_eq!(EncodeAction.arguments("a", "b", 17, 2), None);
    assert_eq!(EncodeAction.arguments("a", "b", 29, 2), None);
    assert_eq!(EncodeAction.arguments("a", "b", 18, 6), None);
    assert_eq!(EncodeAction.arguments("a", "b", 28, 5).unwrap()[8], "medium");
    assert_eq!(EncodeAction::preset_name(0), Some("ultrafast"));
    assert_eq!(EncodeAction::preset_name(6), None);
}

#[test]
fn encode_draws_settings_in_range() {
    let presets = ["ultrafast", "superfast", "veryfast", "faster", "fast", "medium"];
    let mut qualities = std::collections::BTreeSet::new();
    for _ in 0..200 {
        let drawn = EncodeAction.drawn_arguments("a", "b");
        assert_eq!(drawn.len(), 14);
        let quality: u32 = drawn[6].parse().unwrap();
        assert!((18..=28).contains(&quality));
        assert!(presets.contains(&drawn[8].as_str()));
        qualities.insert(quality);
    }
    assert!(qualities.len() > 1);
}

#[test]
fn touch_has_identifier_and_tag() {
    assert_eq!(TouchAction.id(), "touch");
    assert_eq!(TouchAction.suffix(), "touch");
}

#[test]
fn numbers_as_decimal_text() {
    assert_eq!(decimal(0), "0");
    assert_eq!(decimal(7), "7");
    assert_eq!(decimal(60), "60");
    assert_eq!(decimal(1005), "1005");
    assert_eq!(decimal(u64::MAX), "18446744073709551615");
    assert_eq!(signed_decimal(0), "0");
    assert_eq!(signed_decimal(-1), "-1");
    assert_eq!(signed_decimal(20), "20");
    assert_eq!(signed_decimal(i64::MIN), "-9223372036854775808");
    assert_eq!(signed_decimal(i64::MAX), "9223372036854775807");
}

#[test]
fn arguments_by_identifier() {
    let mut config = ActionConfig::default();
    assert_eq!(arguments_for("bw", "a", "b", &config), Some(BwAction.arguments("a", "b")));
    assert_eq!(arguments_for("mute", "a", "b", &config), Some(MuteAction.arguments("a", "b")));
    assert_eq!(
        arguments_for("face_detection", "a", "b", &config),
        Some(args(&["-y", "-i", "a", "-c", "copy", "-loglevel", "error", "b"]))
    );
    config.mirror_direction = Some("both".to_string());
    assert_eq!(arguments_for("mirror", "a", "b", &config).unwrap()[4], "hflip,vflip");
    assert_eq!(arguments_for("fps_60", "a", "b", &config).unwrap()[4], "60");
    config.pip_path = Some("p.mp4".to_string());
    assert_eq!(
        arguments_for("pip", "a", "b", &config).unwrap()[4],
        "movie='p.mp4'[pip];[pip][in]scale2ref=w=iw/4:h=ow/mdar[pip_scaled][in_main];[in_main][pip_scaled]overlay=W-w-20:H-h-20"
    );
    assert_eq!(arguments_for("md5", "a", "b", &config).unwrap().len(), 12);
    assert_eq!(arguments_for("encode", "a", "b", &config).unwrap().len(), 14);
    for id in ["rotate", "crop", "blur", "touch", "watermark", "unknown", "", "BW"] {
        assert_eq!(arguments_for(id, "a", "b", &config), None, "{}", id);
    }
}

#[test]
fn every_transformation_has_arguments_or_takes_numbers() {
    let config = ActionConfig::default();
    let with_numbers = [
        "crop", "cut_head_tail", "rotate", "speed", "bitrate_hq", "sharpen", "portrait", "denoise",
        "grain", "blur", "color", "vignette", "dissolve", "progressive", "audio_noise", "pitch",
        "touch", "strong_crop", "watermark",
    ];
    for id in standard_catalog().list_actions() {
        let plain = arguments_for(&id, "a.mp4", "b.mp4", &config).is_some();
        assert_eq!(plain, !with_numbers.contains(&id.as_str()), "{}", id);
    }
}
