use lawsearch::agent::{
    apply_review, begin_task, effective_limit, executing_event, finished_event, init_agent,
    loop_continues, planning_event, record_retrieval, set_plan, take_results, thinking_event,
    AgentLoopState, NO_RESULTS_TEXT,
};
use lawsearch::fragment::{chunk_from_row, LawChunk};
use lawsearch::planner::plan;

fn fragment(id: &str, law_name: &str, article: &str, content: &str, distance_milli: u32) -> LawChunk {
    let mut c = chunk_from_row(
        id.to_string(),
        content.to_string(),
        law_name.to_string(),
        "法律".to_string(),
        "".to_string(),
        "2021-01-01".to_string(),
        "".to_string(),
        "".to_string(),
        article.to_string(),
    );
    c.distance_milli = distance_milli;
    c
}

fn fresh_state(query: &str, max_loops: i32) -> AgentLoopState {
    init_agent(query.to_string(), max_loops)
}

#[test]
fn effective_limit_applies_hard_fallback() {
    assert_eq!(effective_limit(5), 5);
    assert_eq!(effective_limit(1), 1);
    assert_eq!(effective_limit(0), 20);
    assert_eq!(effective_limit(-3), 20);
}

#[test]
fn results_are_deduplicated_in_first_seen_order() {
    let mut state = fresh_state("q", 5);
    set_plan(&mut state, vec!["t1".to_string(), "t2".to_string()]);

    let first = Ok(vec![
        fragment("a", "民法典", "第一条", "甲", 500),
        fragment("b", "民法典", "第二条", "乙", 600),
    ]);
    let t = begin_task(&mut state).unwrap();
    assert_eq!(t, "t1");
    record_retrieval(&mut state, &first);
    apply_review(&mut state, t, &Err("down".to_string()));

    // The second task returns an overlapping set, in a different order.
    let second = Ok(vec![
        fragment("c", "刑法", "第三条", "丙", 400),
        fragment("a", "民法典", "第一条", "甲", 450),
    ]);
    let t = begin_task(&mut state).unwrap();
    assert_eq!(t, "t2");
    record_retrieval(&mut state, &second);
    apply_review(&mut state, t, &Err("down".to_string()));

    let ids: Vec<String> = take_results(state).iter().map(|c| c.id.clone()).collect();
    assert_eq!(ids, vec!["a".to_string(), "b".to_string(), "c".to_string()]);
}

#[test]
fn loop_is_bounded_by_the_cap() {
    // An evaluator that always refills the queue never outruns the cap.
    let mut state = fresh_state("q", 3);
    set_plan(&mut state, vec!["t".to_string()]);
    let refill = Ok("{\"thought\":\"再查\",\"new_todo_list\":[\"again\"]}".to_string());
    let mut executed = 0;
    while let Some(task) = begin_task(&mut state) {
        record_retrieval(&mut state, &Ok(vec![]));
        apply_review(&mut state, task, &refill);
        executed += 1;
        assert!(executed <= 3);
    }
    assert_eq!(executed, 3);
    assert!(!loop_continues(&state));
}

#[test]
fn non_positive_cap_falls_back_to_twenty() {
    let mut state = fresh_state("q", -1);
    set_plan(&mut state, vec!["t".to_string()]);
    let refill = Ok("{\"thought\":\"再查\",\"new_todo_list\":[\"again\"]}".to_string());
    let mut executed = 0;
    while let Some(task) = begin_task(&mut state) {
        record_retrieval(&mut state, &Ok(vec![]));
        apply_review(&mut state, task, &refill);
        executed += 1;
        assert!(executed <= 20);
    }
    assert_eq!(executed, 20);
}

#[test]
fn evaluator_replaces_the_queue_wholesale() {
    let mut state = fresh_state("q", 5);
    set_plan(&mut state, vec!["keep?".to_string(), "drop?".to_string()]);
    let task = begin_task(&mut state).unwrap();
    let completion = Ok("{\"thought\":\"信息已充分\",\"new_todo_list\":[]}".to_string());
    apply_review(&mut state, task, &completion);
    assert_eq!(state.todo_list, Vec::<String>::new());
    assert_eq!(state.completed_log.len(), 1);
    assert_eq!(state.completed_log[0].task, "keep?");
    assert_eq!(state.completed_log[0].thought, "信息已充分");
    assert!(!loop_continues(&state));
}

#[test]
fn evaluator_call_failure_keeps_the_queue() {
    let mut state = fresh_state("q", 5);
    set_plan(&mut state, vec!["t1".to_string(), "t2".to_string()]);
    let task = begin_task(&mut state).unwrap();
    let before = state.todo_list.clone();
    apply_review(&mut state, task, &Err("connection refused".to_string()));
    assert_eq!(state.todo_list, before);
    assert_eq!(state.completed_log[0].thought, "LLM 调用失败，跳过此步分析。");
}

#[test]
fn evaluator_parse_failure_keeps_the_queue() {
    let mut state = fresh_state("q", 5);
    set_plan(&mut state, vec!["t1".to_string(), "t2".to_string()]);
    let task = begin_task(&mut state).unwrap();
    let before = state.todo_list.clone();
    apply_review(&mut state, task, &Ok("这不是 JSON".to_string()));
    assert_eq!(state.todo_list, before);
    assert_eq!(state.completed_log[0].thought, "解析思考结果失败，继续执行原计划。");
}

#[test]
fn single_task_scenario_reaches_finished() {
    // Planner decomposes the limitation-period question into one task;
    // retrieval returns one close fragment; the evaluator empties the
    // queue; the loop finishes after one iteration.
    let query = "诉讼时效是多久".to_string();
    let mut state = fresh_state(&query, 5);
    let tasks = plan(&query, &Ok("[\"民事诉讼时效期间\"]".to_string()));
    assert_eq!(tasks, vec!["民事诉讼时效期间".to_string()]);
    set_plan(&mut state, tasks);

    let task = begin_task(&mut state).unwrap();
    assert_eq!(task, "民事诉讼时效期间");
    let found = fragment("mf-188", "中华人民共和国民法典", "第一百八十八条", "向人民法院请求保护民事权利的诉讼时效期间为三年。", 800);
    let evidence = record_retrieval(&mut state, &Ok(vec![found]));
    let expected = "法规：《中华人民共和国民法典》第一百八十八条\n内容：向人民法院请求保护民事权利的诉讼时效期间为三年。\n\n";
    assert_eq!(evidence, expected);

    apply_review(&mut state, task, &Ok("{\"thought\":\"已充分\",\"new_todo_list\":[]}".to_string()));
    assert!(!loop_continues(&state));
    let results = take_results(state);
    assert_eq!(results.len(), 1);
    assert_eq!(results[0].id, "mf-188");
}

#[test]
fn fragment_at_threshold_is_excluded() {
    // distance 1.3 — and the boundary 1.2 itself — are noise-level.
    let mut state = fresh_state("q", 5);
    set_plan(&mut state, vec!["t".to_string()]);
    let _ = begin_task(&mut state).unwrap();
    let chunks = Ok(vec![
        fragment("far", "民法典", "第一条", "远", 1300),
        fragment("edge", "民法典", "第二条", "边", 1200),
        fragment("near", "民法典", "第三条", "近", 1199),
    ]);
    let evidence = record_retrieval(&mut state, &chunks);
    assert!(!evidence.contains("远"));
    assert!(!evidence.contains("边"));
    assert!(evidence.contains("近"));
    let ids: Vec<String> = state.found.iter().map(|c| c.id.clone()).collect();
    assert_eq!(ids, vec!["near".to_string()]);
}

#[test]
fn empty_retrieval_yields_fixed_evidence() {
    let mut state = fresh_state("q", 5);
    set_plan(&mut state, vec!["t".to_string()]);
    let _ = begin_task(&mut state).unwrap();
    let evidence = record_retrieval(&mut state, &Ok(vec![]));
    assert_eq!(evidence, NO_RESULTS_TEXT);
    assert_eq!(evidence, "未找到直接相关法条。");
    assert_eq!(state.found.len(), 0);
}

#[test]
fn only_noise_fragments_yield_fixed_evidence() {
    let mut state = fresh_state("q", 5);
    set_plan(&mut state, vec!["t".to_string()]);
    let _ = begin_task(&mut state).unwrap();
    let chunks = Ok(vec![fragment("far", "民法典", "第一条", "远", 2000)]);
    let evidence = record_retrieval(&mut state, &chunks);
    assert_eq!(evidence, "未找到直接相关法条。");
    assert_eq!(state.found.len(), 0);
}

#[test]
fn failed_retrieval_becomes_error_evidence() {
    let mut state = fresh_state("q", 5);
    set_plan(&mut state, vec!["t".to_string()]);
    let _ = begin_task(&mut state).unwrap();
    let evidence = record_retrieval(&mut state, &Err("数据库路径不存在: /tmp/x".to_string()));
    assert_eq!(evidence, "搜索出错: 数据库路径不存在: /tmp/x");
    assert_eq!(state.found.len(), 0);
}

#[test]
fn begin_task_respects_queue_and_cap() {
    let mut state = fresh_state("q", 1);
    assert!(begin_task(&mut state).is_none());
    set_plan(&mut state, vec!["t1".to_string(), "t2".to_string()]);
    assert_eq!(begin_task(&mut state).unwrap(), "t1");
    assert_eq!(state.todo_list, vec!["t2".to_string()]);
    // The cap of one execution is reached now.
    assert!(begin_task(&mut state).is_none());
    assert_eq!(state.todo_list, vec!["t2".to_string()]);
}

#[test]
fn events_snapshot_the_state() {
    let e = planning_event();
    assert_eq!(e.step_type, "planning");
    assert!(e.todo_list.is_empty());
    assert!(e.completed_log.is_empty());
    assert!(e.current_task.is_none());
    assert_eq!(e.thought.as_deref(), Some("正在拆解法律问题..."));

    let mut state = fresh_state("q", 5);
    set_plan(&mut state, vec!["t1".to_string(), "t2".to_string()]);
    let task = begin_task(&mut state).unwrap();

    let e = executing_event(&state, &task);
    assert_eq!(e.step_type, "executing");
    assert_eq!(e.todo_list, vec!["t2".to_string()]);
    assert_eq!(e.current_task.as_deref(), Some("t1"));
    assert!(e.thought.is_none());

    let e = thinking_event(&state, &task);
    assert_eq!(e.step_type, "thinking");
    assert_eq!(e.current_task.as_deref(), Some("t1"));
    assert_eq!(e.thought.as_deref(), Some("正在评估检索结果..."));

    apply_review(&mut state, task, &Err("x".to_string()));
    let e = finished_event(&state);
    assert_eq!(e.step_type, "finished");
    assert!(e.todo_list.is_empty());
    assert_eq!(e.completed_log.len(), 1);
    assert_eq!(e.thought.as_deref(), Some("所有任务执行完毕，正在生成最终回答..."));
}
