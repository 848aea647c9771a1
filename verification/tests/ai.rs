use video_matrix::ai::{has_at, strip_code_fence, AIService};

#[test]
fn endpoint_drops_trailing_slashes() {
    let service = AIService::new("key".to_string(), "https://api.example.com/v1///".to_string());
    assert_eq!(service.endpoint(), "https://api.example.com/v1/chat/completions");
    let service = AIService::new("key".to_string(), "https://api.example.com".to_string());
    assert_eq!(service.endpoint(), "https://api.example.com/chat/completions");
    let service = AIService::new("key".to_string(), "//".to_string());
    assert_eq!(service.endpoint(), "/chat/completions");
    let service = AIService::new("key".to_string(), String::new());
    assert_eq!(service.endpoint(), "/chat/completions");
}

#[test]
fn authorization_carries_the_key() {
    let service = AIService::new("sk-123".to_string(), "https://api.example.com".to_string());
    assert_eq!(service.authorization(), "Bearer sk-123");
}

#[test]
fn code_fence_is_stripped() {
    assert_eq!(strip_code_fence("  ```json\n{\"a\": 1}\n```  "), "{\"a\": 1}");
    assert_eq!(strip_code_fence("```\n{}\n```"), "{}");
    assert_eq!(strip_code_fence("{\"plain\": true}"), "{\"plain\": true}");
    assert_eq!(strip_code_fence("```json```json``````x``````"), "x");
    assert_eq!(strip_code_fence("``````"), "");
    assert_eq!(strip_code_fence("```json"), "");
    assert_eq!(strip_code_fence("``"), "``");
    assert_eq!(strip_code_fence(""), "");
    assert_eq!(strip_code_fence(" \t\n "), "");
    assert_eq!(strip_code_fence("```json {} ``` trailing"), "{} ``` trailing");
    assert_eq!(strip_code_fence("text ```json"), "text ```json");
}

#[test]
fn text_is_found_at_a_position() {
    assert!(has_at("abcdef", 2, "cd"));
    assert!(has_at("abcdef", 0, "abcdef"));
    assert!(has_at("abcdef", 6, ""));
    assert!(!has_at("abcdef", 7, ""));
    assert!(!has_at("abcdef", 5, "fg"));
    assert!(!has_at("abcdef", 2, "ce"));
    assert!(has_at("日本語", 1, "本語"));
}
