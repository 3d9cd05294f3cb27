use lawsearch::text::{clean_json_str, contains_substring, is_blank, replace_newlines, str_equal};

#[test]
fn clean_plain_text_is_trimmed() {
    assert_eq!(clean_json_str("  [\"a\"]  "), "[\"a\"]");
}

#[test]
fn clean_strips_json_fence() {
    assert_eq!(clean_json_str("```json\n[\"a\", \"b\"]\n```"), "[\"a\", \"b\"]");
}

#[test]
fn clean_strips_bare_fence() {
    assert_eq!(clean_json_str("```\n{\"thought\":\"t\"}\n```"), "{\"thought\":\"t\"}");
}

#[test]
fn clean_handles_unfenced_response() {
    assert_eq!(clean_json_str("[\"民事诉讼时效期间\"]"), "[\"民事诉讼时效期间\"]");
}

#[test]
fn clean_empty_stays_empty() {
    assert_eq!(clean_json_str("   "), "");
    assert_eq!(clean_json_str(""), "");
}

#[test]
fn clean_strips_repeated_fences() {
    assert_eq!(clean_json_str("```json```json[]```"), "[]");
    // Bare fences are stripped only after the json-tagged ones, so the
    // tag survives when a bare fence precedes it.
    assert_eq!(clean_json_str("``````json[]```"), "json[]");
}

#[test]
fn substring_search_matches_contains() {
    assert!(contains_substring("北京市朝阳区", "北京"));
    assert!(contains_substring("北京市", "京市"));
    assert!(!contains_substring("上海市", "北京"));
    assert!(contains_substring("anything", ""));
    assert!(!contains_substring("", "x"));
}

#[test]
fn blank_detection_matches_trim() {
    assert!(is_blank(""));
    assert!(is_blank(" \t\n"));
    assert!(!is_blank(" a "));
    assert!(!is_blank("搜索出错: "));
}

#[test]
fn newlines_become_spaces() {
    assert_eq!(replace_newlines("a\nb\nc"), "a b c");
    assert_eq!(replace_newlines("诉讼\n时效"), "诉讼 时效");
    assert_eq!(replace_newlines("no newline"), "no newline");
}

#[test]
fn string_equality_by_contents() {
    assert!(str_equal("abc", "abc"));
    assert!(!str_equal("abc", "abd"));
    assert!(!str_equal("abc", "ab"));
}
