//! The task planner: turns a user question into an ordered list of
//! retrieval sub-tasks via one completion call, with a fixed prompt
//! template. Soft-fail: any completion or parse failure yields a
//! single-task plan holding the question verbatim, so the agent loop
//! can always start.

use vstd::prelude::*;

use crate::llm::{parse_task_list, task_list_parse};
use crate::text::{clean_json_spec, clean_json_str};

verus! {

pub const PLANNER_PREFIX: &'static str = r#"
你是法律检索规划专家。将用户问题拆解为向量检索任务清单。

数据库说明：
- 包含法律、行政法规、司法解释、地方法规的条文 Embedding
- 检索方式为语义相似度匹配

拆解原则：

1. 提取核心法律概念
将问题中的关键法律术语提取为检索词。
正确："故意伤害罪的量刑标准"
错误："打人会被判多久"（口语化，相似度低）

2. 分层检索
先查主要法律依据，再查司法解释细则。
示例：["劳动合同解除的法定情形", "解除劳动合同的经济补偿标准"]

3. 避免过度拆解
简单问题1个任务即可，复杂问题不超过5个。
问题："诉讼时效是多久" → ["民事诉讼时效期间"]
问题："房屋买卖合同纠纷如何处理" → ["房屋买卖合同违约责任", "房屋买卖合同解除条件", "房屋买卖纠纷管辖规定"]

4. 使用标准法律术语
用"不当得利"而非"多收的钱要还吗"
用"劳动争议仲裁时效"而非"劳动纠纷多久失效"

输出格式：
仅输出 JSON 数组，不含任何其他内容：
["任务1", "任务2", "任务3"]

用户问题：""#;

pub const PLANNER_SUFFIX: &'static str = r#""
"#;

/// The full planner instruction: the fixed template with the user
/// question substituted.
pub open spec fn planner_prompt_spec(user_query: Seq<char>) -> Seq<char> {
    PLANNER_PREFIX@ + user_query + PLANNER_SUFFIX@
}

pub fn planner_prompt(user_query: &str) -> (r: String)
    ensures
        r@ == planner_prompt_spec(user_query@),
{
    let mut out = String::from_str(PLANNER_PREFIX);
    out.append(user_query);
    out.append(PLANNER_SUFFIX);
    out
}

/// The completion outcome handed back by the chat service: the
/// response text, or the transport or status error.
pub open spec fn completion_view(c: Result<String, String>) -> Result<Seq<char>, Seq<char>> {
    match c {
        Ok(s) => Ok(s@),
        Err(e) => Err(e@),
    }
}

/// The task queue that a planner completion outcome decides: the
/// parsed array when the response (fences stripped) is a JSON array of
/// strings, and the question itself as the only task otherwise.
pub open spec fn plan_spec(user_query: Seq<char>, completion: Result<Seq<char>, Seq<char>>) -> Seq<
    Seq<char>,
> {
    match completion {
        Ok(text) => match task_list_parse(clean_json_spec(text)) {
            Some(tasks) => tasks,
            None => seq![user_query],
        },
        Err(_) => seq![user_query],
    }
}

/// Decides the initial task queue from the planner's completion
/// outcome. Never fails: a failed call or an unparsable response plans
/// exactly one task, the user question verbatim.
pub fn plan(user_query: &String, completion: &Result<String, String>) -> (r: Vec<String>)
    ensures
        r.deep_view() == plan_spec(user_query@, completion_view(*completion)),
        completion is Err ==> r.deep_view() == seq![user_query@],
{
    match completion {
        Ok(text) => {
            let clean = clean_json_str(text.as_str());
            match parse_task_list(clean.as_str()) {
                Some(tasks) => tasks,
                None => {
                    let mut v: Vec<String> = Vec::new();
                    v.push(user_query.clone());
                    proof {
                        assert(v.deep_view() =~~= seq![user_query@]);
                    }
                    v
                },
            }
        },
        Err(_) => {
            let mut v: Vec<String> = Vec::new();
            v.push(user_query.clone());
            proof {
                assert(v.deep_view() =~~= seq![user_query@]);
            }
            v
        },
    }
}

} // verus!
