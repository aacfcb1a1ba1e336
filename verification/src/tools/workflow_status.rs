//! The `query_workflow_status` tool: running and recent executions of
//! workflows, as the execution tracker knows them.
use vstd::prelude::*;
use crate::json::{has_text, Json};
use crate::text::{owned, starts_with_text};
use crate::tools::builtin::{count, is_count, text_member};
use crate::tools::tool::{number_property, object_schema, requires_names, string_property, ToolOutput};
use crate::workflow::execution::{
    of_workflow, ordered_by_start, states_view, ExecutionState, ExecutionStateView, ExecutionStatus, ExecutionTracker,
};

verus! {

/// The states whose id starts with `p`, in order.
pub open spec fn prefixed(s: Seq<ExecutionStateView>, p: Seq<char>) -> Seq<ExecutionStateView>
    decreases s.len(),
{
    if s.len() == 0 {
        s
    } else {
        let r = prefixed(s.drop_last(), p);
        if p.len() <= s.last().id.len() && s.last().id.subrange(0, p.len() as int) == p { r.push(s.last()) } else { r }
    }
}

/// The states that are still running, in order.
pub open spec fn running_only(s: Seq<ExecutionStateView>) -> Seq<ExecutionStateView>
    decreases s.len(),
{
    if s.len() == 0 {
        s
    } else {
        let r = running_only(s.drop_last());
        if s.last().status == ExecutionStatus::Running { r.push(s.last()) } else { r }
    }
}

/// The first `n` states.
pub open spec fn first_n(s: Seq<ExecutionStateView>, n: int) -> Seq<ExecutionStateView> {
    if s.len() > n { s.subrange(0, n) } else { s }
}

/// Whether `r` is the `n` newest of the finished states.
pub open spec fn newest(history: Seq<ExecutionStateView>, n: int, r: Seq<ExecutionStateView>) -> bool {
    exists|all: Seq<ExecutionStateView>| #[trigger] ordered_by_start(history, true, all) && r == first_n(all, n)
}

/// Whether `r` is the newest finished states, twice as many as asked for.
pub open spec fn newest_doubled(history: Seq<ExecutionStateView>, args: Json, r: Seq<ExecutionStateView>) -> bool {
    newest(history, limit_n(args) as int * 2, r)
}

/// How many entries are asked for: `limit`, else 10.
pub open spec fn limit_n(args: Json) -> usize {
    match args.int_at("limit"@) {
        Some(l) => if l >= 0 { (l as u64) as usize } else { 10usize },
        None => 10usize,
    }
}

/// Whether the limit can be doubled, as the query for one workflow does.
pub open spec fn limit_fits(args: Json) -> bool {
    args.text_at("workflow_id"@) is Some ==> limit_n(args) * 2 <= usize::MAX
}

/// The running and the finished states a status query reports, before the
/// limit is applied to the finished ones. For one workflow: its running
/// executions, newest start first, and its finished ones among the newest
/// twice-the-limit; otherwise: the running executions, oldest start first,
/// and the newest finished ones, both kept to ids that start with
/// `execution_id` when it is given.
pub open spec fn status_lists(running: Seq<ExecutionStateView>, history: Seq<ExecutionStateView>, args: Json,
    rs: Seq<ExecutionStateView>, hs: Seq<ExecutionStateView>) -> bool
{
    let limit = limit_n(args) as int;
    match args.text_at("workflow_id"@) {
        Some(w) => exists|ws: Seq<ExecutionStateView>, h2: Seq<ExecutionStateView>|
            #[trigger] ordered_by_start(of_workflow(running, w) + of_workflow(history, w), true, ws)
            && #[trigger] newest_doubled(history, args, h2)
            && rs == running_only(ws) && hs == first_n(of_workflow(h2, w), limit),
        None => exists|r0: Seq<ExecutionStateView>, h0: Seq<ExecutionStateView>|
            #[trigger] ordered_by_start(running, false, r0) && #[trigger] newest(history, limit, h0)
            && match args.text_at("execution_id"@) {
                Some(e) => rs == prefixed(r0, e) && hs == prefixed(h0, e),
                None => rs == r0 && hs == h0,
            },
    }
}

/// The word for a status.
pub open spec fn status_word(s: ExecutionStatus) -> Seq<char> {
    match s {
        ExecutionStatus::Running => "running"@,
        ExecutionStatus::Completed => "completed"@,
        ExecutionStatus::Failed => "failed"@,
        ExecutionStatus::Cancelled => "cancelled"@,
    }
}

/// An optional text as JSON: the string, or null.
pub open spec fn is_opt_text(j: Json, t: Option<Seq<char>>) -> bool {
    match t {
        Some(x) => j.text() == Some(x),
        None => j is Null,
    }
}

/// A running execution as reported.
pub open spec fn is_running_entry(j: Json, s: ExecutionStateView) -> bool {
    j matches Json::Object(o) && o@.len() == 5 && has_text(o@, 0, "execution_id"@, s.id)
        && has_text(o@, 1, "workflow_id"@, s.workflow_id) && has_text(o@, 2, "status"@, "running"@)
        && o@[3].0@ == "started_at"@ && o@[3].1 == Json::Int(s.started_at)
        && o@[4].0@ == "current_step"@ && is_opt_text(o@[4].1, s.current_step)
}

/// A finished execution as reported.
pub open spec fn is_history_entry(j: Json, s: ExecutionStateView) -> bool {
    j matches Json::Object(o) && o@.len() == 7 && has_text(o@, 0, "execution_id"@, s.id)
        && has_text(o@, 1, "workflow_id"@, s.workflow_id) && has_text(o@, 2, "status"@, status_word(s.status))
        && o@[3].0@ == "started_at"@ && o@[3].1 == Json::Int(s.started_at)
        && o@[4].0@ == "completed_at"@ && match s.completed_at {
            Some(c) => o@[4].1 == Json::Int(c),
            None => o@[4].1 is Null,
        }
        && o@[5].0@ == "current_step"@ && is_opt_text(o@[5].1, s.current_step)
        && o@[6].0@ == "error"@ && is_opt_text(o@[6].1, s.error)
}

/// The report: the running executions, then at most `limit` finished ones,
/// and their number.
pub open spec fn is_status_report(data: Json, rs: Seq<ExecutionStateView>, hs: Seq<ExecutionStateView>, limit: int) -> bool {
    let shown = first_n(hs, limit);
    data matches Json::Object(d) && d@.len() == 2
        && d@[0].0@ == "count"@ && is_count(d@[0].1, rs.len() + shown.len())
        && d@[1].0@ == "executions"@ && (d@[1].1 matches Json::Array(es) && es@.len() == rs.len() + shown.len()
            && (forall|i: int| 0 <= i < rs.len() ==> is_running_entry(#[trigger] es@[i], rs[i]))
            && forall|i: int| 0 <= i < shown.len() ==> is_history_entry(#[trigger] es@[rs.len() + i], shown[i]))
}

/// What a status query answers for the tracker's running and finished states.
pub open spec fn is_status_answer(data: Json, running: Seq<ExecutionStateView>, history: Seq<ExecutionStateView>, args: Json) -> bool {
    exists|rs: Seq<ExecutionStateView>, hs: Seq<ExecutionStateView>|
        #[trigger] status_lists(running, history, args, rs, hs) && is_status_report(data, rs, hs, limit_n(args) as int)
}

fn keep_prefixed(v: &Vec<ExecutionState>, p: &str) -> (r: Vec<ExecutionState>)
    ensures
        states_view(r@) == prefixed(states_view(v@), p@),
{
    let mut r: Vec<ExecutionState> = Vec::new();
    let mut i: usize = 0;
    while i < v.len()
        invariant
            i <= v@.len(),
            states_view(r@) == prefixed(states_view(v@).subrange(0, i as int), p@),
        decreases v@.len() - i,
    {
        let ghost prev = r@;
        assert(states_view(v@).subrange(0, i + 1).drop_last() =~= states_view(v@).subrange(0, i as int));
        assert(states_view(v@).subrange(0, i + 1).last() == v@[i as int]@);
        if starts_with_text(v[i].id.as_str(), p) {
            r.push(v[i].duplicate());
            assert(states_view(r@) =~= states_view(prev).push(v@[i as int]@));
        }
        i = i + 1;
    }
    assert(states_view(v@).subrange(0, i as int) =~= states_view(v@));
    r
}

fn keep_running(v: &Vec<ExecutionState>) -> (r: Vec<ExecutionState>)
    ensures
        states_view(r@) == running_only(states_view(v@)),
{
    let mut r: Vec<ExecutionState> = Vec::new();
    let mut i: usize = 0;
    while i < v.len()
        invariant
            i <= v@.len(),
            states_view(r@) == running_only(states_view(v@).subrange(0, i as int)),
        decreases v@.len() - i,
    {
        let ghost prev = r@;
        assert(states_view(v@).subrange(0, i + 1).drop_last() =~= states_view(v@).subrange(0, i as int));
        assert(states_view(v@).subrange(0, i + 1).last() == v@[i as int]@);
        if v[i].is_running() {
            r.push(v[i].duplicate());
            assert(states_view(r@) =~= states_view(prev).push(v@[i as int]@));
        }
        i = i + 1;
    }
    assert(states_view(v@).subrange(0, i as int) =~= states_view(v@));
    r
}

fn keep_workflow(v: &Vec<ExecutionState>, w: &str) -> (r: Vec<ExecutionState>)
    ensures
        states_view(r@) == of_workflow(states_view(v@), w@),
{
    let mut r: Vec<ExecutionState> = Vec::new();
    let mut i: usize = 0;
    while i < v.len()
        invariant
            i <= v@.len(),
            states_view(r@) == of_workflow(states_view(v@).subrange(0, i as int), w@),
        decreases v@.len() - i,
    {
        let ghost prev = r@;
        assert(states_view(v@).subrange(0, i + 1).drop_last() =~= states_view(v@).subrange(0, i as int));
        assert(states_view(v@).subrange(0, i + 1).last() == v@[i as int]@);
        if crate::text::same_text(v[i].workflow_id.as_str(), w) {
            r.push(v[i].duplicate());
            assert(states_view(r@) =~= states_view(prev).push(v@[i as int]@));
        }
        i = i + 1;
    }
    assert(states_view(v@).subrange(0, i as int) =~= states_view(v@));
    r
}

fn opt_text_json(t: &Option<String>) -> (j: Json)
    ensures
        is_opt_text(j, match t { Some(x) => Some(x@), None => None }),
{
    match t {
        Some(x) => Json::Str(owned(x.as_str())),
        None => Json::Null,
    }
}

fn running_entry(s: &ExecutionState) -> (j: Json)
    ensures
        is_running_entry(j, s@),
{
    let mut o: Vec<(String, Json)> = Vec::new();
    o.push(text_member("execution_id", s.id.as_str()));
    o.push(text_member("workflow_id", s.workflow_id.as_str()));
    o.push(text_member("status", "running"));
    o.push((owned("started_at"), Json::Int(s.started_at)));
    o.push((owned("current_step"), opt_text_json(&s.current_step)));
    Json::Object(o)
}

fn history_entry(s: &ExecutionState) -> (j: Json)
    ensures
        is_history_entry(j, s@),
{
    let word = match s.status {
        ExecutionStatus::Running => "running",
        ExecutionStatus::Completed => "completed",
        ExecutionStatus::Failed => "failed",
        ExecutionStatus::Cancelled => "cancelled",
    };
    let mut o: Vec<(String, Json)> = Vec::new();
    o.push(text_member("execution_id", s.id.as_str()));
    o.push(text_member("workflow_id", s.workflow_id.as_str()));
    o.push(text_member("status", word));
    o.push((owned("started_at"), Json::Int(s.started_at)));
    let completed = match s.completed_at {
        Some(c) => Json::Int(c),
        None => Json::Null,
    };
    o.push((owned("completed_at"), completed));
    o.push((owned("current_step"), opt_text_json(&s.current_step)));
    o.push((owned("error"), opt_text_json(&s.error)));
    Json::Object(o)
}

/// The `query_workflow_status` tool.
pub struct QueryWorkflowStatusTool;

impl QueryWorkflowStatusTool {
    /// The tool.
    pub fn new() -> (t: Self) {
        QueryWorkflowStatusTool
    }

    /// The name under which the model calls the tool.
    pub fn name(&self) -> (s: &'static str)
        ensures
            s@ == "query_workflow_status"@,
    {
        "query_workflow_status"
    }

    /// What the tool does, for the model.
    pub fn description(&self) -> (s: &'static str)
        ensures
            s@ == "Query the status of workflow executions. Use this to see running workflows, their current state, and recent executions."@,
    {
        "Query the status of workflow executions. Use this to see running workflows, their current state, and recent executions."
    }

    /// The schema of the arguments: three optional filters.
    pub fn parameters(&self) -> (j: Json)
        ensures
            requires_names(j, Seq::empty()),
    {
        let mut props: Vec<(String, Json)> = Vec::new();
        props.push((owned("execution_id"), string_property("Optional filter by specific execution ID")));
        props.push((owned("workflow_id"), string_property("Optional filter by specific workflow ID")));
        props.push((owned("limit"), number_property("Maximum number of status entries to return. Optional, defaults to 10.")));
        let required: Vec<String> = Vec::new();
        assert(required@.map_values(|s: String| s@) =~= Seq::<Seq<char>>::empty());
        object_schema(Json::Object(props), required)
    }

    /// The running executions and the recent finished ones that the
    /// arguments select, as the tracker holds them.
    pub fn run(&self, tracker: &ExecutionTracker, args: &Json) -> (o: ToolOutput)
        requires
            limit_fits(*args),
        ensures
            o.success,
            o.error is None,
            o.metadata is None,
            is_status_answer(o.data, tracker.running_list(), tracker.history_list(), *args),
    {
        let limit: usize = match args.u64_at("limit") {
            Some(l) => #[verifier::truncate] (l as usize),
            None => 10,
        };
        assert(limit == limit_n(*args));
        let mut running = tracker.list_running();
        let mut history = tracker.list_history(limit);
        let ghost r0 = states_view(running@);
        let ghost h0 = states_view(history@);
        assert(newest(tracker.history_list(), limit as int, h0));
        match args.str_at("execution_id") {
            Some(e) => {
                running = keep_prefixed(&running, e.as_str());
                history = keep_prefixed(&history, e.as_str());
            },
            None => {},
        }
        match args.str_at("workflow_id") {
            Some(w) => {
                let all = tracker.get_workflow_executions(w.as_str());
                running = keep_running(&all);
                let wide = tracker.list_history(limit * 2);
                assert(newest(tracker.history_list(), limit * 2, states_view(wide@)));
                history = keep_workflow(&wide, w.as_str());
                history.truncate(limit);
                assert(states_view(history@) =~= first_n(of_workflow(states_view(wide@), w@), limit as int));
                let ghost ws = states_view(all@);
                let ghost h2 = states_view(wide@);
                let ghost ww = args.text_at("workflow_id"@)->0;
                assert(ww == w@);
                assert(ordered_by_start(of_workflow(tracker.running_list(), ww) + of_workflow(tracker.history_list(), ww), true, ws)
                    && newest_doubled(tracker.history_list(), *args, h2)
                    && states_view(running@) == running_only(ws)
                    && states_view(history@) == first_n(of_workflow(h2, ww), limit_n(*args) as int));
                assert(status_lists(tracker.running_list(), tracker.history_list(), *args, states_view(running@), states_view(history@)));
            },
            None => {
                assert(status_lists(tracker.running_list(), tracker.history_list(), *args, states_view(running@), states_view(history@)));
            },
        }
        let ghost rs = states_view(running@);
        let ghost hs = states_view(history@);
        let mut entries: Vec<Json> = Vec::new();
        let mut i: usize = 0;
        while i < running.len()
            invariant
                i <= running@.len(),
                rs == states_view(running@),
                entries@.len() == i,
                forall|k: int| 0 <= k < i ==> is_running_entry(#[trigger] entries@[k], rs[k]),
            decreases running@.len() - i,
        {
            entries.push(running_entry(&running[i]));
            i = i + 1;
        }
        let shown = if history.len() > limit { limit } else { history.len() };
        let ghost shown_v = first_n(hs, limit as int);
        assert(shown_v.len() == shown);
        let mut j: usize = 0;
        while j < shown
            invariant
                shown <= history@.len(),
                j <= shown,
                hs == states_view(history@),
                shown_v == first_n(hs, limit as int),
                shown_v.len() == shown,
                rs.len() == running@.len(),
                entries@.len() == rs.len() + j,
                forall|k: int| 0 <= k < rs.len() ==> is_running_entry(#[trigger] entries@[k], rs[k]),
                forall|k: int| 0 <= k < j ==> is_history_entry(#[trigger] entries@[rs.len() + k], shown_v[k]),
            decreases shown - j,
        {
            assert(shown_v[j as int] == hs[j as int]);
            entries.push(history_entry(&history[j]));
            j = j + 1;
        }
        let n = entries.len();
        let mut d: Vec<(String, Json)> = Vec::new();
        d.push((owned("count"), count(n)));
        d.push((owned("executions"), Json::Array(entries)));
        let o = ToolOutput::success(Json::Object(d));
        assert(is_status_report(o.data, rs, hs, limit_n(*args) as int));
        o
    }
}

} // verus!
