//! Trusted boundary around serde_json: parsing model responses and
//! serializing the task queue. Each parse result is a function of the
//! input text alone; the names below stand for those results, and the
//! verified callers' contracts are stated over them.

use vstd::prelude::*;

verus! {

/// The JSON array of strings that the planner response text denotes,
/// if it denotes one.
pub uninterp spec fn task_list_parse(s: Seq<char>) -> Option<Seq<Seq<char>>>;

/// The `{thought, new_todo_list}` object that the evaluator response
/// text denotes, if it denotes one.
pub uninterp spec fn review_parse(s: Seq<char>) -> Option<(Seq<char>, Seq<Seq<char>>)>;

/// The JSON serialization of a list of task strings.
pub uninterp spec fn tasks_json(ts: Seq<Seq<char>>) -> Seq<char>;

/// The `choices[0].message.content` field of a completion response
/// body, if present.
pub uninterp spec fn completion_content_parse(s: Seq<char>) -> Option<Seq<char>>;

/// The content token carried by one streaming payload: its
/// `choices[0].delta.content` field, or failing that its
/// `message.content` field, if either is present.
pub uninterp spec fn stream_token_parse(s: Seq<char>) -> Option<Seq<char>>;

/// Relies on `serde_json::from_str::<Vec<String>>`: parses the text as
/// a JSON array of strings, deterministically in the text alone.
#[verifier::external_body]
pub fn parse_task_list(s: &str) -> (r: Option<Vec<String>>)
    ensures
        r is Some <==> task_list_parse(s@) is Some,
        r matches Some(v) ==> task_list_parse(s@) == Some(v.deep_view()),
{
    serde_json::from_str::<Vec<String>>(s).ok()
}

/// Relies on `serde_json::from_str::<serde_json::Value>` and the
/// `Value` accessors `get`, `as_str` and `as_array`: parses the text as
/// a JSON object with a string field `thought` and a string-array
/// field `new_todo_list`, deterministically in the text alone.
#[verifier::external_body]
pub fn parse_review(s: &str) -> (r: Option<(String, Vec<String>)>)
    ensures
        r is Some <==> review_parse(s@) is Some,
        r matches Some(p) ==> review_parse(s@) == Some((p.0@, p.1.deep_view())),
{
    let v: serde_json::Value = match serde_json::from_str(s) {
        Ok(v) => v,
        Err(_) => return None,
    };
    let thought = v.get("thought")?.as_str()?.to_string();
    let mut tasks: Vec<String> = Vec::new();
    for item in v.get("new_todo_list")?.as_array()? {
        tasks.push(item.as_str()?.to_string());
    }
    Some((thought, tasks))
}

/// Relies on `serde_json::to_string`: serializes the task queue, which
/// cannot fail for a vector of strings and is deterministic in it.
#[verifier::external_body]
pub fn todo_list_json(tasks: &Vec<String>) -> (r: String)
    ensures
        r@ == tasks_json(tasks.deep_view()),
{
    serde_json::to_string(tasks).unwrap_or_else(|_| "[]".to_string())
}

/// Relies on `serde_json::from_str::<serde_json::Value>` and the
/// `Value` accessors: reads `choices[0].message.content` out of a
/// completion response body, deterministically in the body alone.
#[verifier::external_body]
pub fn extract_completion_content(body: &str) -> (r: Option<String>)
    ensures
        r is Some <==> completion_content_parse(body@) is Some,
        r matches Some(c) ==> completion_content_parse(body@) == Some(c@),
{
    let v: serde_json::Value = serde_json::from_str(body).ok()?;
    v["choices"][0]["message"]["content"].as_str().map(|c| c.to_string())
}

/// The blocking completion client's decode step: the response content
/// when the body carries one, and the fixed error otherwise.
pub fn completion_text(body: &str) -> (r: Result<String, String>)
    ensures
        completion_content_parse(body@) matches Some(c) ==> (r matches Ok(t) && t@ == c),
        completion_content_parse(body@) is None ==> (r matches Err(e) && e@
            == "No content in response"@),
{
    match extract_completion_content(body) {
        Some(c) => Ok(c),
        None => Err(String::from_str("No content in response")),
    }
}

/// Relies on `serde_json::from_str::<serde_json::Value>` and the
/// `Value` accessors: reads `choices[0].delta.content`, or failing that
/// `message.content`, out of one streaming payload, deterministically
/// in the payload alone.
#[verifier::external_body]
pub fn extract_stream_token(payload: &str) -> (r: Option<String>)
    ensures
        r is Some <==> stream_token_parse(payload@) is Some,
        r matches Some(c) ==> stream_token_parse(payload@) == Some(c@),
{
    let v: serde_json::Value = serde_json::from_str(payload).ok()?;
    if let Some(c) = v["choices"][0]["delta"]["content"].as_str() {
        return Some(c.to_string());
    }
    v["message"]["content"].as_str().map(|c| c.to_string())
}

} // verus!
