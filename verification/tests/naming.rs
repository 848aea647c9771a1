use video_matrix::ffutils::FFUtils;
use video_matrix::naming::{extension, file_stem, output_name, NameError};

#[test]
fn get_dst_keeps_stem_and_extension() {
    assert_eq!(FFUtils::get_dst("clip.mov", "rot"), Ok("clip_rot.mov".to_string()));
}

#[test]
fn get_dst_defaults_to_mp4() {
    assert_eq!(FFUtils::get_dst("clip", "rot"), Ok("clip_rot.mp4".to_string()));
    assert_eq!(FFUtils::get_dst(".hidden", "rot"), Ok(".hidden_rot.mp4".to_string()));
}

#[test]
fn get_dst_splits_at_last_dot() {
    assert_eq!(FFUtils::get_dst("a.b.mkv", "flip"), Ok("a.b_flip.mkv".to_string()));
    assert_eq!(FFUtils::get_dst("a.", "flip"), Ok("a_flip.".to_string()));
}

#[test]
fn get_dst_rejects_what_names_no_file() {
    assert_eq!(FFUtils::get_dst("", "rot"), Err(NameError::InvalidSourceName));
    assert_eq!(FFUtils::get_dst(".", "rot"), Err(NameError::InvalidSourceName));
    assert_eq!(FFUtils::get_dst("..", "rot"), Err(NameError::InvalidSourceName));
    assert_eq!(output_name("..", "rot"), Err(NameError::InvalidSourceName));
}

#[test]
fn stem_and_extension_follow_the_last_dot() {
    assert_eq!(file_stem("movie.final.mp4"), "movie.final");
    assert_eq!(extension("movie.final.mp4"), Some("mp4".to_string()));
    assert_eq!(file_stem(".profile"), ".profile");
    assert_eq!(extension(".profile"), None);
    assert_eq!(file_stem("..a"), ".");
    assert_eq!(extension("..a"), Some("a".to_string()));
    assert_eq!(file_stem("日本語.mp4"), "日本語");
}

#[test]
fn escape_path_replaces_each_special_character() {
    assert_eq!(FFUtils::escape_path("C:\\media\\it's.png"), "C\\:/media/it\\\\'s.png");
    assert_eq!(FFUtils::escape_path("plain/path.png"), "plain/path.png");
    assert_eq!(FFUtils::escape_path(""), "");
}

#[test]
fn tags_with_an_underscore_can_lead_two_sources_to_one_name() {
    assert_eq!(FFUtils::get_dst("a.mp4", "strong_crop"), FFUtils::get_dst("a_strong.mp4", "crop"));
    assert_ne!(FFUtils::get_dst("a.mp4", "crop"), FFUtils::get_dst("a_strong.mp4", "crop"));
    assert_ne!(FFUtils::get_dst("a.mp4", "rot"), FFUtils::get_dst("a.mov", "rot"));
    assert_ne!(FFUtils::get_dst("a.mp4", "rot"), FFUtils::get_dst("a.mp4", "flip"));
    assert_eq!(FFUtils::get_dst("a", "rot"), FFUtils::get_dst("a.mp4", "rot"));
}
