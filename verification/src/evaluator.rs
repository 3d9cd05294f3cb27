//! The retrieval evaluator: after each sub-task's retrieval it judges
//! the evidence and replaces the remaining task queue wholesale, via
//! one completion call with a fixed prompt. Soft-fail: a failed call or
//! an unparsable response leaves the queue unchanged and records a
//! fixed fallback thought, so the loop always makes forward progress.

use vstd::prelude::*;

use crate::llm::{review_parse, tasks_json, todo_list_json};
use crate::text::clean_json_spec;

verus! {

pub const REVIEW_SEG_0: &'static str = r#"
你是检索结果评估器。评估刚才的向量检索结果，决定是否需要调整后续任务。

上下文：
用户问题：""#;

pub const REVIEW_SEG_1: &'static str = r#""
执行任务：""#;

pub const REVIEW_SEG_2: &'static str = r#""

检索结果：
"#;

pub const REVIEW_SEG_3: &'static str = r#"

待办任务：
"#;

pub const REVIEW_SEG_4: &'static str = r#"

评估流程：

步骤1：判断检索质量
- 高相关：法条直接解答当前任务
- 部分相关：法条提供线索但不完整
- 不相关：检索词可能不准确

步骤2：检查信息完整性
针对用户原始问题，当前信息是否足够给出完整答案？
- 充分：清空待办清单
- 不足：继续执行或调整任务

步骤3：决策

情况A：检索结果不相关
更换更精确的法律术语重新检索。
示例：
"thought": "当前检索词过于宽泛，改用具体罪名检索",
"new_todo_list": ["盗窃罪的立案标准和量刑幅度"]

情况B：发现新的法律适用方向
基于检索到的法条，追加相关任务。
示例：
"thought": "检索到该行为同时触犯民事和刑事责任，需补充刑事部分",
"new_todo_list": ["原任务A", "新增：故意伤害罪的构成要件"]

情况C：信息已充分
示例：
"thought": "已获取合同违约的法律规定和司法解释，足以回答用户问题",
"new_todo_list": []

情况D：删减冗余任务
示例：
"thought": "用户未提及地区且已获得国家层面法律，删除地方法规查询任务",
"new_todo_list": ["保留任务A"]

规则：
1. 不要重复检索相似概念
2. 待办任务总数不超过5个
3. 聚焦用户核心诉求，避免过度检索

输出格式（仅JSON，无其他内容）：
{
  "thought": "50字以内的分析",
  "new_todo_list": ["任务A", "任务B"]
}
"#;

/// Recorded when the evaluator response could not be parsed.
pub const REVIEW_PARSE_FAIL_THOUGHT: &'static str = "解析思考结果失败，继续执行原计划。";

/// Recorded when the completion call itself failed.
pub const REVIEW_CALL_FAIL_THOUGHT: &'static str = "LLM 调用失败，跳过此步分析。";

/// The full evaluator instruction: the fixed template with the user
/// question, the current task, the evidence text and the serialized
/// remaining queue substituted.
pub open spec fn review_prompt_spec(
    user_query: Seq<char>,
    current_task: Seq<char>,
    search_results: Seq<char>,
    todo_json: Seq<char>,
) -> Seq<char> {
    REVIEW_SEG_0@ + user_query + REVIEW_SEG_1@ + current_task + REVIEW_SEG_2@ + search_results
        + REVIEW_SEG_3@ + todo_json + REVIEW_SEG_4@
}

pub fn review_prompt(
    user_query: &str,
    current_task: &str,
    search_results: &str,
    remaining_todo_list: &Vec<String>,
) -> (r: String)
    ensures
        r@ == review_prompt_spec(
            user_query@,
            current_task@,
            search_results@,
            tasks_json(remaining_todo_list.deep_view()),
        ),
{
    let todo_json = todo_list_json(remaining_todo_list);
    let mut out = String::from_str(REVIEW_SEG_0);
    out.append(user_query);
    out.append(REVIEW_SEG_1);
    out.append(current_task);
    out.append(REVIEW_SEG_2);
    out.append(search_results);
    out.append(REVIEW_SEG_3);
    out.append(todo_json.as_str());
    out.append(REVIEW_SEG_4);
    out
}

/// What an evaluator completion outcome decides: the thought to record,
/// and the task queue that replaces the remaining one. On a failed call
/// or an unparsable response the queue is left as it was and a fixed
/// fallback thought is recorded.
pub open spec fn review_decision_spec(
    completion: Result<Seq<char>, Seq<char>>,
    remaining: Seq<Seq<char>>,
) -> (Seq<char>, Seq<Seq<char>>) {
    match completion {
        Ok(text) => match review_parse(clean_json_spec(text)) {
            Some((thought, new_list)) => (thought, new_list),
            None => (REVIEW_PARSE_FAIL_THOUGHT@, remaining),
        },
        Err(_) => (REVIEW_CALL_FAIL_THOUGHT@, remaining),
    }
}

} // verus!
