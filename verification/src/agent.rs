//! The agent loop: the state machine that owns the task queue, records
//! each task's retrieval outcome as evaluator evidence, accumulates
//! deduplicated fragments in first-seen order, bounds the number of
//! tasks executed, and describes the progress event emitted at each
//! transition.
//!
//! The loop itself performs no I/O: a driver obtains completion and
//! retrieval outcomes and hands them to the step functions below, which
//! decide everything else.

use vstd::prelude::*;

use crate::fragment::{is_relevant, LawChunk, RELEVANCE_THRESHOLD_MILLI};
use crate::llm::{parse_review, review_parse};
use crate::planner::completion_view;
use crate::evaluator::{
    review_decision_spec, REVIEW_CALL_FAIL_THOUGHT, REVIEW_PARSE_FAIL_THOUGHT,
};
use crate::text::{all_spaces, clean_json_spec, clean_json_str, is_blank};

verus! {

/// One audit entry, appended once per loop iteration in completion
/// order: the task that ran and the evaluator's thought about it.
pub struct CompletedTask {
    pub task: String,
    pub thought: String,
}

impl Clone for CompletedTask {
    fn clone(&self) -> (r: Self)
        ensures
            r == *self,
    {
        CompletedTask { task: self.task.clone(), thought: self.thought.clone() }
    }
}

/// One progress snapshot, emitted at every state-machine transition.
/// Each event carries the full picture, not a delta, so a listener that
/// misses one can reconstruct the state from the next.
pub struct AgentUpdateEvent {
    pub step_type: String,
    pub todo_list: Vec<String>,
    pub completed_log: Vec<CompletedTask>,
    pub current_task: Option<String>,
    pub thought: Option<String>,
}

/// The loop's whole state for one user query: the live queue, the audit
/// log, the accumulated deduplicated fragments, and the execution
/// counter with its cap.
pub struct AgentLoopState {
    pub query: String,
    pub todo_list: Vec<String>,
    pub completed_log: Vec<CompletedTask>,
    pub found: Vec<LawChunk>,
    pub tasks_executed: usize,
    pub task_limit: usize,
}

/// Some accumulated fragment already carries this id.
pub open spec fn has_id(found: Seq<LawChunk>, id: Seq<char>) -> bool {
    exists|i: int| 0 <= i < found.len() && (#[trigger] found[i]).id@ == id
}

/// No fragment id occurs twice.
pub open spec fn ids_distinct(found: Seq<LawChunk>) -> bool {
    forall|i: int, j: int|
        0 <= i < j < found.len() ==> (#[trigger] found[i]).id@ != (#[trigger] found[j]).id@
}

impl AgentLoopState {
    /// Loop invariant: the accumulated fragments are deduplicated, and
    /// the execution counter never passes its cap.
    pub open spec fn wf(&self) -> bool {
        ids_distinct(self.found@) && self.tasks_executed <= self.task_limit
    }
}

pub open spec fn effective_limit_spec(max_loops: i32) -> int {
    if max_loops <= 0 {
        20
    } else {
        max_loops as int
    }
}

/// The bound on tasks executed in one run: the configured cap, or a
/// hard fallback of 20 when the cap is zero or negative, so that the
/// loop terminates whatever the configuration says.
pub fn effective_limit(max_loops: i32) -> (r: usize)
    ensures
        r == effective_limit_spec(max_loops),
{
    if max_loops <= 0 {
        20
    } else {
        max_loops as usize
    }
}

/// A fresh loop state for one user query: empty queue, empty log, no
/// fragments, no executions, and the effective cap.
pub fn init_agent(query: String, max_loops: i32) -> (s: AgentLoopState)
    ensures
        s.query == query,
        s.todo_list@ == Seq::<String>::empty(),
        s.completed_log@ == Seq::<CompletedTask>::empty(),
        s.found@ == Seq::<LawChunk>::empty(),
        s.tasks_executed == 0,
        s.task_limit == effective_limit_spec(max_loops),
        s.wf(),
{
    AgentLoopState {
        query,
        todo_list: Vec::new(),
        completed_log: Vec::new(),
        found: Vec::new(),
        tasks_executed: 0,
        task_limit: effective_limit(max_loops),
    }
}

/// Installs the planner's task queue.
pub fn set_plan(state: &mut AgentLoopState, tasks: Vec<String>)
    ensures
        final(state).todo_list == tasks,
        final(state).query == old(state).query,
        final(state).completed_log == old(state).completed_log,
        final(state).found == old(state).found,
        final(state).tasks_executed == old(state).tasks_executed,
        final(state).task_limit == old(state).task_limit,
        old(state).wf() ==> final(state).wf(),
{
    state.todo_list = tasks;
}

/// The loop runs on while the queue is non-empty and the cap is not
/// reached.
pub fn loop_continues(state: &AgentLoopState) -> (r: bool)
    ensures
        r == (state.todo_list@.len() > 0 && state.tasks_executed < state.task_limit),
{
    state.todo_list.len() > 0 && state.tasks_executed < state.task_limit
}

/// Pops the front task and counts one execution — exactly when the
/// queue is non-empty and the cap is not reached; otherwise leaves the
/// state untouched and returns nothing.
pub fn begin_task(state: &mut AgentLoopState) -> (r: Option<String>)
    ensures
        r is Some <==> (old(state).todo_list@.len() > 0 && old(state).tasks_executed < old(
            state,
        ).task_limit),
        r matches Some(t) ==> {
            &&& t == old(state).todo_list@[0]
            &&& final(state).todo_list@ == old(state).todo_list@.drop_first()
            &&& final(state).tasks_executed == old(state).tasks_executed + 1
            &&& old(state).tasks_executed < old(state).task_limit
        },
        r is None ==> *final(state) == *old(state),
        final(state).query == old(state).query,
        final(state).completed_log == old(state).completed_log,
        final(state).found == old(state).found,
        final(state).task_limit == old(state).task_limit,
        old(state).wf() ==> final(state).wf(),
{
    if state.todo_list.len() > 0 && state.tasks_executed < state.task_limit {
        let t = state.todo_list.remove(0);
        state.tasks_executed = state.tasks_executed + 1;
        proof {
            assert(state.todo_list@ =~= old(state).todo_list@.drop_first());
        }
        Some(t)
    } else {
        None
    }
}

pub const EVIDENCE_LAW_OPEN: &'static str = "法规：《";

pub const EVIDENCE_LAW_CLOSE: &'static str = "》";

pub const EVIDENCE_CONTENT: &'static str = "\n内容：";

pub const EVIDENCE_END: &'static str = "\n\n";

/// Prefixes the transport or store error when one task's retrieval
/// fails; the loop records it as evidence and carries on.
pub const SEARCH_ERROR_PREFIX: &'static str = "搜索出错: ";

/// The evidence handed to the evaluator when no usable fragment came
/// back; the evaluator never receives an empty evidence string.
pub const NO_RESULTS_TEXT: &'static str = "未找到直接相关法条。";

/// The human-readable evidence line for one relevant fragment:
/// law name, article number and content.
pub open spec fn evidence_line(c: LawChunk) -> Seq<char> {
    EVIDENCE_LAW_OPEN@ + c.law_name@ + EVIDENCE_LAW_CLOSE@ + c.article_number@ + EVIDENCE_CONTENT@
        + c.content@ + EVIDENCE_END@
}

/// The concatenated evidence lines of the fragments below the
/// relevance cutoff, in retrieval order.
pub open spec fn evidence_lines(chunks: Seq<LawChunk>) -> Seq<char>
    decreases chunks.len(),
{
    if chunks.len() == 0 {
        Seq::empty()
    } else {
        (if is_relevant(chunks[0]) {
            evidence_line(chunks[0])
        } else {
            Seq::empty()
        }) + evidence_lines(chunks.drop_first())
    }
}

/// What one retrieval outcome contributes as evaluator evidence: the
/// relevant fragments' lines, or an error line; when that text is blank,
/// the fixed no-results line takes its place.
pub open spec fn evidence_text_spec(retrieval: Result<Seq<LawChunk>, Seq<char>>) -> Seq<char> {
    let raw = match retrieval {
        Ok(chunks) => evidence_lines(chunks),
        Err(e) => SEARCH_ERROR_PREFIX@ + e,
    };
    if all_spaces(raw) {
        NO_RESULTS_TEXT@
    } else {
        raw
    }
}

/// How one fragment enters the accumulated results: appended only if it
/// is relevant and its id was not seen before.
pub open spec fn accumulate_step(found: Seq<LawChunk>, c: LawChunk) -> Seq<LawChunk> {
    if is_relevant(c) && !has_id(found, c.id@) {
        found.push(c)
    } else {
        found
    }
}

/// The accumulated results after one task's fragments are folded in,
/// in retrieval order.
pub open spec fn accumulate_spec(found: Seq<LawChunk>, chunks: Seq<LawChunk>) -> Seq<LawChunk>
    decreases chunks.len(),
{
    if chunks.len() == 0 {
        found
    } else {
        accumulate_spec(accumulate_step(found, chunks[0]), chunks.drop_first())
    }
}

/// The retrieval outcome for one task: the fragments, or the error text.
pub open spec fn retrieval_view(r: Result<Vec<LawChunk>, String>) -> Result<
    Seq<LawChunk>,
    Seq<char>,
> {
    match r {
        Ok(chunks) => Ok(chunks@),
        Err(e) => Err(e@),
    }
}

proof fn lemma_evidence_lines_push(chunks: Seq<LawChunk>, c: LawChunk)
    ensures
        evidence_lines(chunks.push(c)) == evidence_lines(chunks) + (if is_relevant(c) {
            evidence_line(c)
        } else {
            Seq::<char>::empty()
        }),
    decreases chunks.len(),
{
    let tail = if is_relevant(c) {
        evidence_line(c)
    } else {
        Seq::<char>::empty()
    };
    if chunks.len() == 0 {
        assert(chunks.push(c)[0] == c);
        assert(chunks.push(c).drop_first() =~= Seq::<LawChunk>::empty());
        assert(evidence_lines(chunks.push(c)) == tail + evidence_lines(
            Seq::<LawChunk>::empty(),
        ));
        assert(evidence_lines(chunks.push(c)) =~= evidence_lines(chunks) + tail);
    } else {
        let head = if is_relevant(chunks[0]) {
            evidence_line(chunks[0])
        } else {
            Seq::<char>::empty()
        };
        assert(chunks.push(c)[0] == chunks[0]);
        assert(chunks.push(c).drop_first() =~= chunks.drop_first().push(c));
        assert(evidence_lines(chunks.push(c)) == head + evidence_lines(
            chunks.drop_first().push(c),
        ));
        lemma_evidence_lines_push(chunks.drop_first(), c);
        assert(evidence_lines(chunks.push(c)) == head + (evidence_lines(chunks.drop_first())
            + tail));
        assert(evidence_lines(chunks) == head + evidence_lines(chunks.drop_first()));
        assert(evidence_lines(chunks.push(c)) =~= evidence_lines(chunks) + tail);
    }
}

proof fn lemma_accumulate_push(found: Seq<LawChunk>, chunks: Seq<LawChunk>, c: LawChunk)
    ensures
        accumulate_spec(found, chunks.push(c)) == accumulate_step(
            accumulate_spec(found, chunks),
            c,
        ),
    decreases chunks.len(),
{
    if chunks.len() == 0 {
        let f2 = accumulate_step(found, c);
        assert(chunks.push(c)[0] == c);
        assert(chunks.push(c).drop_first() =~= Seq::<LawChunk>::empty());
        assert(accumulate_spec(found, chunks.push(c)) == accumulate_spec(
            f2,
            Seq::<LawChunk>::empty(),
        ));
        assert(accumulate_spec(f2, Seq::<LawChunk>::empty()) == f2);
        assert(accumulate_spec(found, chunks) == found);
    } else {
        assert(chunks.push(c)[0] == chunks[0]);
        assert(chunks.push(c).drop_first() =~= chunks.drop_first().push(c));
        assert(accumulate_spec(found, chunks.push(c)) == accumulate_spec(
            accumulate_step(found, chunks[0]),
            chunks.drop_first().push(c),
        ));
        lemma_accumulate_push(accumulate_step(found, chunks[0]), chunks.drop_first(), c);
        assert(accumulate_spec(found, chunks) == accumulate_spec(
            accumulate_step(found, chunks[0]),
            chunks.drop_first(),
        ));
    }
}

/// Some accumulated fragment already carries this id.
fn contains_id(found: &Vec<LawChunk>, id: &String) -> (r: bool)
    ensures
        r == has_id(found@, id@),
{
    let mut i: usize = 0;
    while i < found.len()
        invariant
            0 <= i <= found@.len(),
            forall|m: int| 0 <= m < i ==> (#[trigger] found@[m]).id@ != id@,
        decreases found@.len() - i,
    {
        if found[i].id == *id {
            return true;
        }
        i = i + 1;
    }
    false
}

/// Folds one task's retrieval outcome into the state: every fragment
/// below the relevance cutoff contributes an evidence line, and joins
/// the accumulated results unless its id was already seen. Fragments at
/// or above the cutoff enter neither. A failed retrieval contributes an
/// error line and no fragments; the returned evidence text is never
/// blank.
pub fn record_retrieval(
    state: &mut AgentLoopState,
    retrieval: &Result<Vec<LawChunk>, String>,
) -> (evidence: String)
    requires
        old(state).wf(),
    ensures
        final(state).wf(),
        evidence@ == evidence_text_spec(retrieval_view(*retrieval)),
        final(state).found@ == (match retrieval_view(*retrieval) {
            Ok(chunks) => accumulate_spec(old(state).found@, chunks),
            Err(_) => old(state).found@,
        }),
        old(state).found@.len() <= final(state).found@.len(),
        forall|i: int|
            0 <= i < old(state).found@.len() ==> final(state).found@[i] == old(state).found@[i],
        final(state).query == old(state).query,
        final(state).todo_list == old(state).todo_list,
        final(state).completed_log == old(state).completed_log,
        final(state).tasks_executed == old(state).tasks_executed,
        final(state).task_limit == old(state).task_limit,
{
    let ghost old_found = state.found@;
    let mut evidence = String::new();
    match retrieval {
        Ok(chunks) => {
            let mut i: usize = 0;
            while i < chunks.len()
                invariant
                    0 <= i <= chunks@.len(),
                    ids_distinct(state.found@),
                    evidence@ == evidence_lines(chunks@.take(i as int)),
                    state.found@ == accumulate_spec(old_found, chunks@.take(i as int)),
                    old_found.len() <= state.found@.len(),
                    forall|m: int| 0 <= m < old_found.len() ==> state.found@[m] == old_found[m],
                    state.query == old(state).query,
                    state.todo_list == old(state).todo_list,
                    state.completed_log == old(state).completed_log,
                    state.tasks_executed == old(state).tasks_executed,
                    state.task_limit == old(state).task_limit,
                decreases chunks@.len() - i,
            {
                let ghost pre_found = state.found@;
                let ghost pre_evidence = evidence@;
                let c = &chunks[i];
                if c.distance_milli < RELEVANCE_THRESHOLD_MILLI {
                    evidence.append(EVIDENCE_LAW_OPEN);
                    evidence.append(c.law_name.as_str());
                    evidence.append(EVIDENCE_LAW_CLOSE);
                    evidence.append(c.article_number.as_str());
                    evidence.append(EVIDENCE_CONTENT);
                    evidence.append(c.content.as_str());
                    evidence.append(EVIDENCE_END);
                    assert(evidence@ == pre_evidence + evidence_line(chunks@[i as int]));
                    if !contains_id(&state.found, &c.id) {
                        state.found.push(c.clone());
                        assert(ids_distinct(state.found@)) by {
                            assert(forall|m: int|
                                0 <= m < pre_found.len() ==> (#[trigger] pre_found[m]).id@
                                    != chunks@[i as int].id@);
                        }
                    }
                }
                proof {
                    lemma_evidence_lines_push(chunks@.take(i as int), chunks@[i as int]);
                    lemma_accumulate_push(old_found, chunks@.take(i as int), chunks@[i as int]);
                    assert(chunks@.take(i as int).push(chunks@[i as int]) =~= chunks@.take(i + 1));
                    if !is_relevant(chunks@[i as int]) {
                        assert(evidence@ =~= pre_evidence + Seq::<char>::empty());
                    }
                }
                i = i + 1;
            }
            proof {
                assert(chunks@.take(chunks@.len() as int) =~= chunks@);
            }
        },
        Err(e) => {
            evidence.append(SEARCH_ERROR_PREFIX);
            evidence.append(e.as_str());
        },
    }
    if is_blank(evidence.as_str()) {
        evidence = String::from_str(NO_RESULTS_TEXT);
    }
    evidence
}

/// Applies the evaluator's decision for the task that just ran: on a
/// parsed response the returned queue replaces the remaining one
/// wholesale and the thought is logged; on a failed call or an
/// unparsable response the queue is left unchanged and the fixed
/// fallback thought is logged. One audit entry is appended either way.
pub fn apply_review(
    state: &mut AgentLoopState,
    current_task: String,
    completion: &Result<String, String>,
)
    requires
        old(state).wf(),
    ensures
        final(state).wf(),
        final(state).query == old(state).query,
        final(state).found == old(state).found,
        final(state).tasks_executed == old(state).tasks_executed,
        final(state).task_limit == old(state).task_limit,
        ({
            let decision = review_decision_spec(
                completion_view(*completion),
                old(state).todo_list.deep_view(),
            );
            &&& final(state).todo_list.deep_view() == decision.1
            &&& final(state).completed_log@.len() == old(state).completed_log@.len() + 1
            &&& final(state).completed_log@.drop_last() == old(state).completed_log@
            &&& final(state).completed_log@.last().task == current_task
            &&& final(state).completed_log@.last().thought@ == decision.0
        }),
        completion is Err ==> final(state).todo_list == old(state).todo_list,
        (completion matches Ok(text) && review_parse(clean_json_spec(text@)) is None)
            ==> final(state).todo_list == old(state).todo_list,
{
    match completion {
        Ok(text) => {
            let clean = clean_json_str(text.as_str());
            match parse_review(clean.as_str()) {
                Some((thought, new_list)) => {
                    state.todo_list = new_list;
                    state.completed_log.push(CompletedTask { task: current_task, thought });
                },
                None => {
                    state.completed_log.push(
                        CompletedTask {
                            task: current_task,
                            thought: String::from_str(REVIEW_PARSE_FAIL_THOUGHT),
                        },
                    );
                },
            }
        },
        Err(_) => {
            state.completed_log.push(
                CompletedTask {
                    task: current_task,
                    thought: String::from_str(REVIEW_CALL_FAIL_THOUGHT),
                },
            );
        },
    }
    proof {
        assert(state.completed_log@.drop_last() =~= old(state).completed_log@);
    }
}

/// The accumulated deduplicated fragment list, in first-seen order —
/// the loop's return value.
pub fn take_results(state: AgentLoopState) -> (r: Vec<LawChunk>)
    ensures
        r == state.found,
{
    state.found
}

fn clone_string_vec(v: &Vec<String>) -> (r: Vec<String>)
    ensures
        r@ == v@,
{
    let mut out: Vec<String> = Vec::new();
    let mut i: usize = 0;
    while i < v.len()
        invariant
            0 <= i <= v@.len(),
            out@ == v@.take(i as int),
        decreases v@.len() - i,
    {
        out.push(v[i].clone());
        proof {
            assert(v@.take(i + 1) =~= v@.take(i as int).push(v@[i as int]));
        }
        i = i + 1;
    }
    proof {
        assert(v@.take(v@.len() as int) =~= v@);
    }
    out
}

fn clone_log(v: &Vec<CompletedTask>) -> (r: Vec<CompletedTask>)
    ensures
        r@ == v@,
{
    let mut out: Vec<CompletedTask> = Vec::new();
    let mut i: usize = 0;
    while i < v.len()
        invariant
            0 <= i <= v@.len(),
            out@ == v@.take(i as int),
        decreases v@.len() - i,
    {
        out.push(v[i].clone());
        proof {
            assert(v@.take(i + 1) =~= v@.take(i as int).push(v@[i as int]));
        }
        i = i + 1;
    }
    proof {
        assert(v@.take(v@.len() as int) =~= v@);
    }
    out
}

/// The snapshot emitted when planning starts: nothing queued, nothing
/// done yet.
pub fn planning_event() -> (e: AgentUpdateEvent)
    ensures
        e.step_type@ == "planning"@,
        e.todo_list@ == Seq::<String>::empty(),
        e.completed_log@ == Seq::<CompletedTask>::empty(),
        e.current_task is None,
        e.thought matches Some(t) && t@ == "正在拆解法律问题..."@,
{
    AgentUpdateEvent {
        step_type: String::from_str("planning"),
        todo_list: Vec::new(),
        completed_log: Vec::new(),
        current_task: None,
        thought: Some(String::from_str("正在拆解法律问题...")),
    }
}

/// The snapshot emitted when a task starts executing: the task itself,
/// the queue left behind it, and the log so far.
pub fn executing_event(state: &AgentLoopState, current_task: &String) -> (e: AgentUpdateEvent)
    ensures
        e.step_type@ == "executing"@,
        e.todo_list@ == state.todo_list@,
        e.completed_log@ == state.completed_log@,
        e.current_task matches Some(t) && t == *current_task,
        e.thought is None,
{
    AgentUpdateEvent {
        step_type: String::from_str("executing"),
        todo_list: clone_string_vec(&state.todo_list),
        completed_log: clone_log(&state.completed_log),
        current_task: Some(current_task.clone()),
        thought: None,
    }
}

/// The snapshot emitted while the evaluator weighs the evidence.
pub fn thinking_event(state: &AgentLoopState, current_task: &String) -> (e: AgentUpdateEvent)
    ensures
        e.step_type@ == "thinking"@,
        e.todo_list@ == state.todo_list@,
        e.completed_log@ == state.completed_log@,
        e.current_task matches Some(t) && t == *current_task,
        e.thought matches Some(t) && t@ == "正在评估检索结果..."@,
{
    AgentUpdateEvent {
        step_type: String::from_str("thinking"),
        todo_list: clone_string_vec(&state.todo_list),
        completed_log: clone_log(&state.completed_log),
        current_task: Some(current_task.clone()),
        thought: Some(String::from_str("正在评估检索结果...")),
    }
}

/// The final snapshot: an empty queue and the full audit log.
pub fn finished_event(state: &AgentLoopState) -> (e: AgentUpdateEvent)
    ensures
        e.step_type@ == "finished"@,
        e.todo_list@ == Seq::<String>::empty(),
        e.completed_log@ == state.completed_log@,
        e.current_task is None,
        e.thought matches Some(t) && t@ == "所有任务执行完毕，正在生成最终回答..."@,
{
    AgentUpdateEvent {
        step_type: String::from_str("finished"),
        todo_list: Vec::new(),
        completed_log: clone_log(&state.completed_log),
        current_task: None,
        thought: Some(String::from_str("所有任务执行完毕，正在生成最终回答...")),
    }
}

/// Deduplication: in a well-formed state the accumulated list carries
/// each fragment id at most once; results join it only in first-seen
/// order (`record_retrieval` extends it and never reorders it).
pub proof fn lemma_results_deduplicated(state: AgentLoopState)
    requires
        state.wf(),
    ensures
        forall|i: int, j: int|
            0 <= i < j < state.found@.len() ==> (#[trigger] state.found@[i]).id@
                != (#[trigger] state.found@[j]).id@,
{
}

/// One loop iteration as `begin_task` permits it: it happens only below
/// the cap, raises the execution counter by one, and keeps the cap.
pub open spec fn executes_one_task(pre: AgentLoopState, post: AgentLoopState) -> bool {
    &&& pre.tasks_executed < pre.task_limit
    &&& post.tasks_executed == pre.tasks_executed + 1
    &&& post.task_limit == pre.task_limit
}

proof fn lemma_execution_counter(states: Seq<AgentLoopState>, k: int)
    requires
        0 <= k < states.len(),
        forall|i: int|
            0 <= i < states.len() - 1 ==> executes_one_task(
                #[trigger] states[i],
                states[i + 1],
            ),
    ensures
        states[k].tasks_executed == states[0].tasks_executed + k,
        states[k].task_limit == states[0].task_limit,
    decreases k,
{
    if k > 0 {
        lemma_execution_counter(states, k - 1);
        assert(executes_one_task(states[k - 1], states[k]));
    }
}

/// Termination: whatever queues the planner and the evaluator produce —
/// even one that is never empty — a run that starts with a fresh
/// counter executes at most `task_limit` tasks, and `task_limit` is the
/// configured cap, or 20 when the cap is zero or negative.
pub proof fn lemma_loop_terminates(states: Seq<AgentLoopState>)
    requires
        states.len() > 0,
        states[0].tasks_executed == 0,
        forall|i: int|
            0 <= i < states.len() - 1 ==> executes_one_task(
                #[trigger] states[i],
                states[i + 1],
            ),
    ensures
        states.len() - 1 <= states[0].task_limit,
{
    let n = states.len() - 1;
    if n > 0 {
        lemma_execution_counter(states, n - 1);
        assert(executes_one_task(states[n - 1], states[n]));
    }
}

} // verus!
