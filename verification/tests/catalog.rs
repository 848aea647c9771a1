use video_matrix::actions::adjust::RotateAction;
use video_matrix::actions::configured::MirrorAction;
use video_matrix::actions::effects::LavaAction;
use video_matrix::actions::standard_catalog;
use video_matrix::catalog::{ActionFactory, VideoAction};

#[test]
fn empty_catalog_resolves_nothing() {
    let catalog = ActionFactory::new();
    assert_eq!(catalog.get("rotate"), None);
    assert!(catalog.list_actions().is_empty());
}

#[test]
fn register_then_resolve() {
    let mut catalog = ActionFactory::new();
    catalog.register(RotateAction);
    catalog.register(MirrorAction);
    assert_eq!(catalog.get("rotate"), Some("rot".to_string()));
    assert_eq!(catalog.get("mirror"), Some("flip".to_string()));
    assert_eq!(catalog.get("rot"), None);
    assert_eq!(catalog.list_actions(), vec!["rotate".to_string(), "mirror".to_string()]);
}

#[test]
fn last_registration_wins() {
    let mut catalog = ActionFactory::new();
    catalog.insert("rotate", "first");
    catalog.insert("mirror", "flip");
    catalog.insert("rotate", "second");
    assert_eq!(catalog.get("rotate"), Some("second".to_string()));
    assert_eq!(catalog.get("mirror"), Some("flip".to_string()));
    assert_eq!(catalog.list_actions().len(), 2);
}

#[test]
fn action_identifiers_and_tags() {
    assert_eq!(RotateAction.id(), "rotate");
    assert_eq!(RotateAction.suffix(), "rot");
    assert_eq!(LavaAction.id(), "lava");
    assert_eq!(LavaAction.suffix(), "ab_lava");
}

#[test]
fn standard_catalog_holds_every_transformation_once() {
    let catalog = standard_catalog();
    let ids = catalog.list_actions();
    assert_eq!(ids.len(), 52);
    for (i, a) in ids.iter().enumerate() {
        for b in ids.iter().skip(i + 1) {
            assert_ne!(a, b);
        }
        assert!(catalog.get(a).is_some());
    }
    assert_eq!(ids[0], "md5");
    assert_eq!(ids[51], "goods_template");
}

#[test]
fn standard_catalog_tags() {
    let catalog = standard_catalog();
    let expected = [
        ("md5", "md5"),
        ("cut_head_tail", "cut"),
        ("rotate", "rot"),
        ("speed", "spd"),
        ("mirror", "flip"),
        ("fps_60", "fps"),
        ("bitrate_hq", "hq"),
        ("sharpen", "sharp"),
        ("vignette", "vig"),
        ("zoom", "ai_zoom"),
        ("dissolve", "ai_dis"),
        ("trifold", "ab_tri"),
        ("lava", "ab_lava"),
        ("progressive", "prog"),
        ("ab_advanced_replace", "ab_adv"),
        ("ab_real_replace", "ab_real"),
        ("audio_noise", "anoise"),
        ("face_detection", "face"),
        ("object_tracking", "track"),
        ("opencv_filter", "opencv"),
        ("light_effect", "light"),
        ("edge_effect", "edge"),
        ("goods_template", "goods"),
        ("strong_crop", "strong_crop"),
    ];
    for (id, tag) in expected {
        assert_eq!(catalog.get(id), Some(tag.to_string()), "{}", id);
    }
    assert_eq!(catalog.get("unknown"), None);
    assert_eq!(catalog.get(""), None);
}
