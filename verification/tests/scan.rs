use video_matrix::scan::{
    find_newest_video_file, is_listed_extension, is_media_file, select_media_files, FileEntry,
};

#[test]
fn media_files_are_known_by_their_extension() {
    for name in ["a.mp4", "a.mov", "a.mkv", "a.avi", "a.wmv", "a.flv", "a.webm", "a.m4v"] {
        assert!(is_media_file(name), "{}", name);
    }
    assert!(is_media_file("HOLIDAY.MP4"));
    assert!(is_media_file("clip.final.MoV"));
    assert!(!is_media_file("notes.txt"));
    assert!(!is_media_file("mp4"));
    assert!(!is_media_file(".mp4"));
    assert!(!is_media_file("a.mp4.bak"));
    assert!(!is_media_file(""));
}

#[test]
fn listed_extensions_are_lower_case() {
    assert!(is_listed_extension("mkv"));
    assert!(!is_listed_extension("MKV"));
    assert!(!is_listed_extension("mp3"));
    assert!(!is_listed_extension(""));
}

#[test]
fn selection_keeps_the_order() {
    let names: Vec<String> =
        ["b.mp4", "readme.md", "a.MOV", "c", "d.webm"].iter().map(|s| s.to_string()).collect();
    assert_eq!(
        select_media_files(&names),
        vec!["b.mp4".to_string(), "a.MOV".to_string(), "d.webm".to_string()]
    );
    assert!(select_media_files(&Vec::new()).is_empty());
}

fn entry(name: &str, modified: u64) -> FileEntry {
    FileEntry { name: name.to_string(), modified }
}

#[test]
fn newest_media_file_leaves_the_current_one_aside() {
    let entries = vec![
        entry("a.mp4", 10),
        entry("log.txt", 99),
        entry("b.mp4", 30),
        entry("c.mp4", 30),
        entry("current.mp4", 50),
    ];
    assert_eq!(find_newest_video_file(&entries, "current.mp4"), Some(2));
    assert_eq!(find_newest_video_file(&entries, "other.mp4"), Some(4));
    assert_eq!(find_newest_video_file(&entries[..2].iter().map(|e| entry(&e.name, e.modified)).collect(), "a.mp4"), None);
    assert_eq!(find_newest_video_file(&Vec::new(), "a.mp4"), None);
}
