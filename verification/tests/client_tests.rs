use lawsearch::endpoints::{chat_completions_url, embeddings_url, models_url};
use lawsearch::llm::completion_text;
use lawsearch::lookup::{
    get_category_priority, like_pattern, rank_suggestions, snippet_fallback_text,
    snippet_target_law, LawNameSuggestion,
};
use lawsearch::evaluator::{
    review_prompt, REVIEW_SEG_0, REVIEW_SEG_1, REVIEW_SEG_2, REVIEW_SEG_3, REVIEW_SEG_4,
};
use lawsearch::settings::{default_max_loops, get_effective_data_dir, AppSettings, AppState};
use lawsearch::sse::{parse_sse_line, SseLine};

fn state_with(custom: Option<&str>) -> AppState {
    let mut settings = AppSettings::default();
    settings.custom_data_path = custom.map(|s| s.to_string());
    AppState {
        settings,
        settings_path: "/cfg/settings.json".to_string(),
        app_data_dir: "/data/app".to_string(),
        user_db_path: "/cfg/user_data.db".to_string(),
    }
}

#[test]
fn urls_strip_trailing_slashes() {
    assert_eq!(embeddings_url("http://localhost:11434/v1/"), "http://localhost:11434/v1/embeddings");
    assert_eq!(embeddings_url("http://h/v1"), "http://h/v1/embeddings");
    assert_eq!(chat_completions_url("http://h/v1///"), "http://h/v1/chat/completions");
    assert_eq!(models_url("http://h/v1"), "http://h/v1/models");
}

#[test]
fn completion_body_is_decoded() {
    let body = "{\"choices\":[{\"message\":{\"content\":\"回答\"}}]}";
    assert_eq!(completion_text(body), Ok("回答".to_string()));
    let bad = "{\"choices\":[]}";
    assert_eq!(completion_text(bad), Err("No content in response".to_string()));
    assert_eq!(completion_text("not json"), Err("No content in response".to_string()));
}

#[test]
fn review_prompt_serializes_the_queue() {
    let todo = vec!["任务B".to_string()];
    let prompt = review_prompt("问题", "任务A", "证据", &todo);
    let expected = format!(
        "{}问题{}任务A{}证据{}[\"任务B\"]{}",
        REVIEW_SEG_0, REVIEW_SEG_1, REVIEW_SEG_2, REVIEW_SEG_3, REVIEW_SEG_4
    );
    assert_eq!(prompt, expected);
}

#[test]
fn sse_data_line_yields_delta_token() {
    let line = "data: {\"choices\":[{\"delta\":{\"content\":\"律\"}}]}";
    match parse_sse_line(line) {
        SseLine::Token(t) => assert_eq!(t, "律"),
        _ => panic!("expected a token"),
    }
}

#[test]
fn sse_alternate_layout_yields_token() {
    let line = "data: {\"message\":{\"content\":\"tok\"}}";
    match parse_sse_line(line) {
        SseLine::Token(t) => assert_eq!(t, "tok"),
        _ => panic!("expected a token"),
    }
}

#[test]
fn sse_done_line_ends_iteration() {
    assert!(matches!(parse_sse_line("data: [DONE]"), SseLine::Done));
    assert!(matches!(parse_sse_line("data:  [DONE] "), SseLine::Done));
}

#[test]
fn sse_malformed_payload_is_skipped() {
    assert!(matches!(parse_sse_line("data: {broken"), SseLine::Skipped));
    assert!(matches!(parse_sse_line("data: {\"other\":1}"), SseLine::Skipped));
}

#[test]
fn sse_non_data_line_carries_nothing() {
    assert!(matches!(parse_sse_line(""), SseLine::NotData));
    assert!(matches!(parse_sse_line("event: ping"), SseLine::NotData));
}

#[test]
fn default_settings_match_the_documented_values() {
    let s = AppSettings::default();
    assert_eq!(s.search_top_k, 50);
    assert_eq!(s.display_density, "comfortable");
    assert_eq!(s.embedding_base_url, "http://localhost:11434/v1");
    assert_eq!(s.embedding_model, "embeddinggemma:300m");
    assert!(s.custom_data_path.is_none());
    assert!(!s.enable_ai_chat);
    assert_eq!(s.chat_model, "qwen3");
    assert_eq!(s.chat_top_k, 5);
    assert_eq!(s.max_agent_loops, 5);
    assert_eq!(default_max_loops(), 5);
}

#[test]
fn data_dir_prefers_an_existing_custom_path() {
    let state = state_with(Some("/mnt/corpus"));
    assert_eq!(get_effective_data_dir(&state, true), "/mnt/corpus");
    // Configured but missing on disk: fall back.
    assert_eq!(get_effective_data_dir(&state, false), "/data/app");
    // Blank custom path: fall back even if the caller says it exists.
    let state = state_with(Some("  "));
    assert_eq!(get_effective_data_dir(&state, true), "/data/app");
    let state = state_with(None);
    assert_eq!(get_effective_data_dir(&state, true), "/data/app");
}

#[test]
fn category_priorities_rank_national_law_first() {
    assert_eq!(get_category_priority("法律"), 1);
    assert_eq!(get_category_priority("司法解释"), 2);
    assert_eq!(get_category_priority("行政法规"), 3);
    assert_eq!(get_category_priority("地方法规"), 4);
    assert_eq!(get_category_priority("其他"), 99);
}

#[test]
fn suggestions_rank_by_category_then_name_length() {
    let sugg = |name: &str, category: &str| LawNameSuggestion {
        name: name.to_string(),
        region: "全国".to_string(),
        category: category.to_string(),
    };
    let v = vec![
        sugg("北京市城乡规划条例", "地方法规"),
        sugg("中华人民共和国民法典", "法律"),
        sugg("最高人民法院关于适用民法典时间效力的若干规定", "司法解释"),
        sugg("刑法", "法律"),
    ];
    let names = |r: &Vec<LawNameSuggestion>| -> Vec<String> {
        r.iter().map(|s| s.name.clone()).collect()
    };
    let all = rank_suggestions(v.clone(), 10);
    assert_eq!(
        names(&all),
        vec![
            "刑法".to_string(),
            "中华人民共和国民法典".to_string(),
            "最高人民法院关于适用民法典时间效力的若干规定".to_string(),
            "北京市城乡规划条例".to_string(),
        ]
    );
    let top = rank_suggestions(v, 2);
    assert_eq!(
        names(&top),
        vec!["刑法".to_string(), "中华人民共和国民法典".to_string()]
    );
}

#[test]
fn lookup_helpers_build_query_texts() {
    assert_eq!(like_pattern("民法"), "%民法%");
    assert_eq!(
        snippet_target_law(Some("刑法".to_string()), "民法典".to_string()),
        "刑法"
    );
    assert_eq!(snippet_target_law(None, "民法典".to_string()), "民法典");
    assert_eq!(snippet_fallback_text("刑法", "第三条"), "未找到《刑法》的第三条");
}
