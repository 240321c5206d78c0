//! The agent step loop: a task moves through LLM steps and rounds of tool
//! calls until the LLM answers in text, fails, or runs out of steps.
//!
//! Each handler is a transition from the persisted `TaskState` and one
//! incoming event to the next state plus what to announce (progress text,
//! tool dispatches, messages to record). Bus and chat I/O happen outside.

use vstd::prelude::*;
use crate::agent_core::{clone_opt, opt_str};
use crate::text::{decimal, decimal_chars, push_all, push_str, string_from_chars, take_chars, take_upto, chars_of};

verus! {

/// Default and fallback step budget of a task.
pub const DEFAULT_MAX_STEPS: u32 = 4;

/// A submitted task as carried on the bus.
#[derive(Debug)]
pub struct TaskJson {
    pub id: String,
    pub conversation_id: String,
    pub agent_id: String,
    pub input: String,
    pub created_at: String,
}

/// One tool call the LLM asked for.
#[derive(Debug)]
pub struct ToolCallSpec {
    pub id: String,
    pub name: String,
    pub arguments: String,
}

impl View for ToolCallSpec {
    type V = (Seq<char>, Seq<char>, Seq<char>);

    open spec fn view(&self) -> Self::V {
        (self.id@, self.name@, self.arguments@)
    }
}

/// One collected tool result.
#[derive(Debug)]
pub struct ToolResultRec {
    pub id: String,
    pub name: String,
    pub output: Option<String>,
    pub error: Option<String>,
}

impl View for ToolResultRec {
    type V = (Seq<char>, Seq<char>, Option<Seq<char>>, Option<Seq<char>>);

    open spec fn view(&self) -> Self::V {
        (self.id@, self.name@, opt_str(self.output), opt_str(self.error))
    }
}

/// Where a task stands.
#[derive(Clone, Copy, Debug, PartialEq, Eq, Structural)]
pub enum RunStatus {
    Running,
    WaitingTools,
    Done,
    Failed,
}

/// Persisted state of one task.
#[derive(Debug)]
pub struct TaskState {
    pub task: TaskJson,
    pub status: RunStatus,
    pub output: Option<String>,
    pub error: Option<String>,
    pub step: u32,
    pub pending_tool_calls: Vec<ToolCallSpec>,
    pub tool_results: Vec<ToolResultRec>,
    pub progress_message_id: i64,
    pub chat_id: String,
    pub max_steps: u32,
    pub run_id: String,
}

/// A tool call as read off the bus: each field is absent when the JSON
/// lacks it or it is not a string.
#[derive(Debug)]
pub struct RawCall {
    pub id: Option<String>,
    pub name: Option<String>,
    pub arguments: Option<String>,
}

pub open spec fn calls_view(v: Seq<ToolCallSpec>) -> Seq<(Seq<char>, Seq<char>, Seq<char>)> {
    v.map_values(|c: ToolCallSpec| c@)
}

pub open spec fn results_view(v: Seq<ToolResultRec>) -> Seq<
    (Seq<char>, Seq<char>, Option<Seq<char>>, Option<Seq<char>>),
> {
    v.map_values(|r: ToolResultRec| r@)
}

/// The step budget in force: the task's own, or the default when unset.
pub open spec fn max_of(max_steps: u32) -> nat {
    if max_steps > 0 {
        max_steps as nat
    } else {
        DEFAULT_MAX_STEPS as nat
    }
}

/// Well-formed task state: the step counter never passes the budget.
pub open spec fn state_inv(s: TaskState) -> bool {
    s.step <= max_of(s.max_steps)
}

/// The step budget of a task.
pub fn effective_max(state: &TaskState) -> (m: u32)
    ensures
        m == max_of(state.max_steps),
{
    if state.max_steps > 0 {
        state.max_steps
    } else {
        DEFAULT_MAX_STEPS
    }
}

/// State of a freshly submitted task.
pub fn initial_state(task: TaskJson, chat_id: String, progress_message_id: i64, run_id: String) -> (s:
    TaskState)
    ensures
        s.task == task,
        s.status == RunStatus::Running,
        s.output.is_none(),
        s.error.is_none(),
        s.step == 0,
        s.pending_tool_calls@.len() == 0,
        s.tool_results@.len() == 0,
        s.progress_message_id == progress_message_id,
        s.chat_id == chat_id,
        s.max_steps == DEFAULT_MAX_STEPS,
        s.run_id == run_id,
        state_inv(s),
{
    TaskState {
        task,
        status: RunStatus::Running,
        output: None,
        error: None,
        step: 0,
        pending_tool_calls: Vec::new(),
        tool_results: Vec::new(),
        progress_message_id,
        chat_id,
        max_steps: DEFAULT_MAX_STEPS,
        run_id,
    }
}

/// State of a task submitted now: as `initial_state`, under a fresh
/// time-ordered run id.
pub fn start_task(task: TaskJson, chat_id: String, progress_message_id: i64) -> (s: TaskState)
    ensures
        s.task == task,
        s.status == RunStatus::Running,
        s.output.is_none(),
        s.error.is_none(),
        s.step == 0,
        s.pending_tool_calls@.len() == 0,
        s.tool_results@.len() == 0,
        s.progress_message_id == progress_message_id,
        s.chat_id == chat_id,
        s.max_steps == DEFAULT_MAX_STEPS,
        crate::router::uuid_form(s.run_id@, '7'),
        state_inv(s),
{
    let run_id = crate::session::new_uuid_v7();
    initial_state(task, chat_id, progress_message_id, run_id)
}

pub open spec fn or_default(o: Option<String>, d: Seq<char>) -> Seq<char> {
    match o {
        Some(s) => s@,
        None => d,
    }
}

/// The call a raw entry stands for: missing id is empty, missing arguments
/// are `{}`.
pub open spec fn raw_call_view(r: RawCall) -> (Seq<char>, Seq<char>, Seq<char>) {
    (or_default(r.id, Seq::empty()), or_default(r.name, Seq::empty()), or_default(r.arguments, "{}"@))
}

/// The calls that get dispatched: those with a non-empty name, in order.
pub open spec fn kept_calls(raw: Seq<RawCall>) -> Seq<(Seq<char>, Seq<char>, Seq<char>)>
    decreases raw.len(),
{
    if raw.len() == 0 {
        Seq::empty()
    } else {
        let prev = kept_calls(raw.drop_last());
        let c = raw_call_view(raw.last());
        if c.1.len() > 0 {
            prev.push(c)
        } else {
            prev
        }
    }
}

fn string_or(o: &Option<String>, d: &str) -> (s: String)
    ensures
        s@ == or_default(*o, d@),
{
    match o {
        Some(x) => x.clone(),
        None => d.to_string(),
    }
}

/// Tool calls of an LLM turn, with defaults filled and unnamed calls dropped.
pub fn normalize_calls(raw: &[RawCall]) -> (out: Vec<ToolCallSpec>)
    ensures
        calls_view(out@) == kept_calls(raw@),
{
    let mut out: Vec<ToolCallSpec> = Vec::new();
    let mut i: usize = 0;
    while i < raw.len()
        invariant
            i <= raw.len(),
            calls_view(out@) == kept_calls(raw@.take(i as int)),
        decreases raw.len() - i,
    {
        let r = &raw[i];
        let c = ToolCallSpec {
            id: string_or(&r.id, ""),
            name: string_or(&r.name, ""),
            arguments: string_or(&r.arguments, "{}"),
        };
        proof {
            reveal_strlit("");
            assert(""@ =~= Seq::<char>::empty());
        }
        assert(c@ == raw_call_view(raw@[i as int]));
        assert(raw@.take(i + 1).drop_last() == raw@.take(i as int));
        assert(raw@.take(i + 1).last() == raw@[i as int]);
        if !c.name.as_str().is_empty() {
            let ghost prev = out@;
            out.push(c);
            assert(calls_view(out@) =~= calls_view(prev).push(c@));
        }
        i += 1;
    }
    assert(raw@.take(raw.len() as int) == raw@);
    out
}

fn clone_call(c: &ToolCallSpec) -> (r: ToolCallSpec)
    ensures
        r@ == c@,
{
    ToolCallSpec { id: c.id.clone(), name: c.name.clone(), arguments: c.arguments.clone() }
}

fn clone_calls(v: &Vec<ToolCallSpec>) -> (r: Vec<ToolCallSpec>)
    ensures
        calls_view(r@) == calls_view(v@),
{
    let mut r: Vec<ToolCallSpec> = Vec::new();
    let mut i: usize = 0;
    while i < v.len()
        invariant
            i <= v.len(),
            calls_view(r@) == calls_view(v@).take(i as int),
        decreases v.len() - i,
    {
        let ghost prev = r@;
        r.push(clone_call(&v[i]));
        assert(calls_view(r@) =~= calls_view(prev).push(v@[i as int]@));
        assert(calls_view(v@).take(i + 1) =~= calls_view(v@).take(i as int).push(v@[i as int]@));
        i += 1;
    }
    assert(calls_view(v@).take(v.len() as int) =~= calls_view(v@));
    r
}

/// Names joined with `", "`.
pub open spec fn join_names(calls: Seq<(Seq<char>, Seq<char>, Seq<char>)>) -> Seq<char>
    decreases calls.len(),
{
    if calls.len() == 0 {
        Seq::empty()
    } else if calls.len() == 1 {
        calls[0].1
    } else {
        join_names(calls.drop_last()) + ", "@ + calls.last().1
    }
}

/// Progress line announcing a round of tool calls.
pub open spec fn dispatch_label(calls: Seq<(Seq<char>, Seq<char>, Seq<char>)>) -> Seq<char> {
    if calls.len() == 1 {
        "🔧 "@ + calls[0].1 + "("@ + take_upto(calls[0].2, 80) + ")"@
    } else {
        "🔧 calling "@ + decimal(calls.len()) + " tools: "@ + join_names(calls)
    }
}

fn names_joined(calls: &Vec<ToolCallSpec>) -> (v: Vec<char>)
    ensures
        v@ == join_names(calls_view(calls@)),
{
    let mut v: Vec<char> = Vec::new();
    let mut i: usize = 0;
    while i < calls.len()
        invariant
            i <= calls.len(),
            v@ == join_names(calls_view(calls@).take(i as int)),
        decreases calls.len() - i,
    {
        let ghost cv = calls_view(calls@);
        assert(cv.take(i + 1).drop_last() =~= cv.take(i as int));
        assert(cv.take(i + 1).last() == cv[i as int]);
        if i > 0 {
            push_str(&mut v, ", ");
        }
        let name = chars_of(calls[i].name.as_str());
        push_all(&mut v, name.as_slice());
        i += 1;
    }
    assert(calls_view(calls@).take(calls.len() as int) =~= calls_view(calls@));
    v
}

fn label_for(calls: &Vec<ToolCallSpec>) -> (v: Vec<char>)
    ensures
        v@ == dispatch_label(calls_view(calls@)),
{
    let mut v: Vec<char> = Vec::new();
    if calls.len() == 1 {
        push_str(&mut v, "🔧 ");
        push_str(&mut v, calls[0].name.as_str());
        push_str(&mut v, "(");
        let args = chars_of(calls[0].arguments.as_str());
        let trimmed = take_chars(args.as_slice(), 80);
        push_all(&mut v, trimmed.as_slice());
        push_str(&mut v, ")");
    } else {
        push_str(&mut v, "🔧 calling ");
        let n = decimal_chars(calls.len() as u64);
        push_all(&mut v, n.as_slice());
        push_str(&mut v, " tools: ");
        let names = names_joined(calls);
        push_all(&mut v, names.as_slice());
    }
    v
}

/// `"<prefix><step>/<max><suffix>"`.
pub open spec fn step_text(prefix: Seq<char>, step: nat, max: nat, suffix: Seq<char>) -> Seq<char> {
    prefix + decimal(step) + "/"@ + decimal(max) + suffix
}

fn push_step(v: &mut Vec<char>, step: u32, max: u32)
    ensures
        final(v)@ == old(v)@ + decimal(step as nat) + "/"@ + decimal(max as nat),
{
    let a = decimal_chars(step as u64);
    push_all(v, a.as_slice());
    push_str(v, "/");
    let b = decimal_chars(max as u64);
    push_all(v, b.as_slice());
}

/// What a round of tool calls leads to.
pub enum ToolCallsOutcome {
    /// The budget is spent: the task failed; announce `progress` and publish
    /// a step result carrying the error.
    Exceeded { progress: String },
    /// Dispatch each call to its tool and announce `progress`.
    Dispatched { calls: Vec<ToolCallSpec>, progress: String },
}

/// The error recorded when the step budget runs out.
pub open spec fn max_steps_error() -> Seq<char> {
    "max steps exceeded"@
}

/// Handles the LLM asking for tool calls.
pub fn on_tool_calls(state: &mut TaskState, raw: &[RawCall]) -> (out: ToolCallsOutcome)
    ensures
        state_inv(*old(state)) ==> state_inv(*final(state)),
        final(state).task == old(state).task,
        final(state).max_steps == old(state).max_steps,
        final(state).run_id == old(state).run_id,
        final(state).chat_id == old(state).chat_id,
        final(state).progress_message_id == old(state).progress_message_id,
        final(state).output == old(state).output,
        old(state).step >= max_of(old(state).max_steps) ==> {
            &&& final(state).status == RunStatus::Failed
            &&& opt_str(final(state).error) == Some(max_steps_error())
            &&& final(state).step == old(state).step
            &&& final(state).pending_tool_calls == old(state).pending_tool_calls
            &&& final(state).tool_results == old(state).tool_results
            &&& out matches ToolCallsOutcome::Exceeded { progress } && progress@ == step_text(
                "⚠️ max steps exceeded ("@,
                old(state).step as nat,
                max_of(old(state).max_steps),
                ")"@,
            )
        },
        old(state).step < max_of(old(state).max_steps) ==> {
            &&& final(state).status == RunStatus::WaitingTools
            &&& final(state).error == old(state).error
            &&& final(state).step == old(state).step + 1
            &&& calls_view(final(state).pending_tool_calls@) == kept_calls(raw@)
            &&& final(state).tool_results@.len() == 0
            &&& out matches ToolCallsOutcome::Dispatched { calls, progress } && calls_view(calls@)
                == kept_calls(raw@) && progress@ == dispatch_label(kept_calls(raw@)) + step_text(
                "\n_step "@,
                (old(state).step + 1) as nat,
                max_of(old(state).max_steps),
                "_"@,
            )
        },
{
    let max = effective_max(state);
    if state.step >= max {
        state.status = RunStatus::Failed;
        state.error = Some("max steps exceeded".to_string());
        let mut v: Vec<char> = Vec::new();
        push_str(&mut v, "⚠️ max steps exceeded (");
        push_step(&mut v, state.step, max);
        push_str(&mut v, ")");
        return ToolCallsOutcome::Exceeded { progress: string_from_chars(v.as_slice()) };
    }
    let calls = normalize_calls(raw);
    let dispatched = clone_calls(&calls);
    let mut v = label_for(&calls);
    state.pending_tool_calls = calls;
    state.tool_results = Vec::new();
    state.status = RunStatus::WaitingTools;
    state.step = state.step + 1;
    push_str(&mut v, "\n_step ");
    push_step(&mut v, state.step, max);
    push_str(&mut v, "_");
    ToolCallsOutcome::Dispatched { calls: dispatched, progress: string_from_chars(v.as_slice()) }
}

/// Name of the pending call with the given id (first match), else
/// `unknown`.
pub open spec fn lookup_name(p: Seq<(Seq<char>, Seq<char>, Seq<char>)>, id: Seq<char>) -> Seq<char>
    decreases p.len(),
{
    if p.len() == 0 {
        "unknown"@
    } else if p[0].0 == id {
        p[0].1
    } else {
        lookup_name(p.drop_first(), id)
    }
}

fn find_name(pending: &Vec<ToolCallSpec>, call_id: &String) -> (n: String)
    ensures
        n@ == lookup_name(calls_view(pending@), call_id@),
{
    let ghost pv = calls_view(pending@);
    let mut i: usize = 0;
    assert(pv.skip(0) == pv);
    while i < pending.len()
        invariant
            i <= pending.len(),
            pv == calls_view(pending@),
            lookup_name(pv, call_id@) == lookup_name(pv.skip(i as int), call_id@),
        decreases pending.len() - i,
    {
        assert(pv.skip(i as int)[0] == pending@[i as int]@);
        if pending[i].id == *call_id {
            return pending[i].name.clone();
        }
        assert(pv.skip(i as int).drop_first() == pv.skip(i + 1));
        i += 1;
    }
    "unknown".to_string()
}

/// Newlines shown as spaces.
pub open spec fn spaced(s: Seq<char>) -> Seq<char> {
    s.map_values(|c: char| if c == '\n' { ' ' } else { c })
}

/// One-line preview of a tool result.
pub open spec fn preview_text(name: Seq<char>, out: Option<Seq<char>>, err: Option<Seq<char>>) -> Seq<
    char,
> {
    match out {
        Some(o) => name + " → "@ + take_upto(spaced(o), 80),
        None => match err {
            Some(e) => name + " → error: "@ + take_upto(e, 80),
            None => name + " → (empty)"@,
        },
    }
}

/// The conversation message that records a tool result for the LLM.
pub open spec fn fold_text(r: (Seq<char>, Seq<char>, Option<Seq<char>>, Option<Seq<char>>)) -> Seq<
    char,
> {
    match r.2 {
        Some(o) => "[tool "@ + r.1 + " returned: "@ + o + "]"@,
        None => match r.3 {
            Some(e) => "[tool "@ + r.1 + " failed: "@ + e + "]"@,
            None => "[tool "@ + r.1 + " returned: <empty>]"@,
        },
    }
}

fn spaced_chars(s: &[char]) -> (v: Vec<char>)
    ensures
        v@ == spaced(s@),
{
    let mut v: Vec<char> = Vec::new();
    let mut i: usize = 0;
    while i < s.len()
        invariant
            i <= s.len(),
            v@ == spaced(s@.take(i as int)),
        decreases s.len() - i,
    {
        let c = s[i];
        v.push(if c == '\n' { ' ' } else { c });
        assert(spaced(s@.take(i + 1)) =~= spaced(s@.take(i as int)).push(
            if c == '\n' { ' ' } else { c },
        ));
        i += 1;
    }
    assert(s@.take(s.len() as int) =~= s@);
    v
}

fn preview_chars(name: &String, out: &Option<String>, err: &Option<String>) -> (v: Vec<char>)
    ensures
        v@ == preview_text(name@, opt_str(*out), opt_str(*err)),
{
    let mut v = chars_of(name.as_str());
    match out {
        Some(o) => {
            push_str(&mut v, " → ");
            let oc = chars_of(o.as_str());
            let sp = spaced_chars(oc.as_slice());
            let tk = take_chars(sp.as_slice(), 80);
            push_all(&mut v, tk.as_slice());
        },
        None => match err {
            Some(e) => {
                push_str(&mut v, " → error: ");
                let ec = chars_of(e.as_str());
                let tk = take_chars(ec.as_slice(), 80);
                push_all(&mut v, tk.as_slice());
            },
            None => {
                push_str(&mut v, " → (empty)");
            },
        },
    }
    v
}

fn fold_string(r: &ToolResultRec) -> (s: String)
    ensures
        s@ == fold_text(r@),
{
    let mut v: Vec<char> = Vec::new();
    push_str(&mut v, "[tool ");
    push_str(&mut v, r.name.as_str());
    match &r.output {
        Some(o) => {
            push_str(&mut v, " returned: ");
            push_str(&mut v, o.as_str());
            push_str(&mut v, "]");
        },
        None => match &r.error {
            Some(e) => {
                push_str(&mut v, " failed: ");
                push_str(&mut v, e.as_str());
                push_str(&mut v, "]");
            },
            None => {
                push_str(&mut v, " returned: <empty>]");
            },
        },
    }
    string_from_chars(v.as_slice())
}

/// What one tool result leads to.
pub struct ToolResultOutcome {
    /// Progress line to show.
    pub progress: String,
    /// Whether this result completed the round, so the LLM steps again.
    pub round_complete: bool,
    /// On completion, one conversation message per collected result.
    pub folded: Vec<String>,
}

/// Handles one tool result arriving for a task: it is recorded; once
/// the round is complete, the results are folded into conversation
/// messages (the task is then re-armed with `rearm`).
pub fn on_tool_result(
    state: &mut TaskState,
    call_id: String,
    output: Option<String>,
    error: Option<String>,
) -> (out: ToolResultOutcome)
    ensures
        state_inv(*old(state)) ==> state_inv(*final(state)),
        final(state).task == old(state).task,
        final(state).step == old(state).step,
        final(state).max_steps == old(state).max_steps,
        final(state).run_id == old(state).run_id,
        final(state).chat_id == old(state).chat_id,
        final(state).progress_message_id == old(state).progress_message_id,
        final(state).output == old(state).output,
        final(state).error == old(state).error,
        ({
            let rec = (
                call_id@,
                lookup_name(calls_view(old(state).pending_tool_calls@), call_id@),
                opt_str(output),
                opt_str(error),
            );
            let results = results_view(old(state).tool_results@).push(rec);
            let pending_n = old(state).pending_tool_calls@.len();
            let done = results.len() >= pending_n;
            &&& results_view(final(state).tool_results@) == results
            &&& out.round_complete == done
            &&& final(state).pending_tool_calls == old(state).pending_tool_calls
            &&& final(state).status == old(state).status
            &&& done ==> {
                &&& out.folded@.len() == results.len()
                &&& forall|i: int|
                    0 <= i < results.len() ==> (#[trigger] out.folded@[i])@ == fold_text(results[i])
                &&& out.progress@ == "📊 "@ + preview_text(rec.1, rec.2, rec.3) + step_text(
                    "\n_step "@,
                    old(state).step as nat,
                    max_of(old(state).max_steps),
                    " • thinking…_"@,
                )
            }
            &&& !done ==> {
                &&& out.folded@.len() == 0
                &&& out.progress@ == "📊 "@ + preview_text(rec.1, rec.2, rec.3) + "\n_waiting for "@
                    + decimal((pending_n - results.len()) as nat) + " more tools…_"@
            }
        }),
{
    let max = effective_max(state);
    let name = find_name(&state.pending_tool_calls, &call_id);
    let preview = preview_chars(&name, &output, &error);
    let rec = ToolResultRec { id: call_id, name, output, error };
    let ghost prev = state.tool_results@;
    state.tool_results.push(rec);
    assert(results_view(state.tool_results@) =~= results_view(prev).push(rec@));
    let done = state.tool_results.len() >= state.pending_tool_calls.len();
    let mut v: Vec<char> = Vec::new();
    push_str(&mut v, "📊 ");
    push_all(&mut v, preview.as_slice());
    if !done {
        let remaining = state.pending_tool_calls.len() - state.tool_results.len();
        push_str(&mut v, "\n_waiting for ");
        let r = decimal_chars(remaining as u64);
        push_all(&mut v, r.as_slice());
        push_str(&mut v, " more tools…_");
        return ToolResultOutcome {
            progress: string_from_chars(v.as_slice()),
            round_complete: false,
            folded: Vec::new(),
        };
    }
    push_str(&mut v, "\n_step ");
    push_step(&mut v, state.step, max);
    push_str(&mut v, " • thinking…_");
    let mut folded: Vec<String> = Vec::new();
    let mut i: usize = 0;
    while i < state.tool_results.len()
        invariant
            i <= state.tool_results.len(),
            folded@.len() == i,
            forall|j: int|
                0 <= j < i ==> (#[trigger] folded@[j])@ == fold_text(state.tool_results@[j]@),
        decreases state.tool_results.len() - i,
    {
        folded.push(fold_string(&state.tool_results[i]));
        i += 1;
    }
    ToolResultOutcome { progress: string_from_chars(v.as_slice()), round_complete: true, folded }
}

/// Re-arms a task whose round of tool calls is complete: nothing is
/// pending any more and the task runs its next step.
pub fn rearm(state: &mut TaskState)
    ensures
        state_inv(*old(state)) ==> state_inv(*final(state)),
        final(state).pending_tool_calls@.len() == 0,
        final(state).status == RunStatus::Running,
        final(state).task == old(state).task,
        final(state).step == old(state).step,
        final(state).max_steps == old(state).max_steps,
        final(state).run_id == old(state).run_id,
        final(state).chat_id == old(state).chat_id,
        final(state).progress_message_id == old(state).progress_message_id,
        final(state).output == old(state).output,
        final(state).error == old(state).error,
        final(state).tool_results == old(state).tool_results,
{
    state.pending_tool_calls = Vec::new();
    state.status = RunStatus::Running;
}

/// The final text shown for a finished step: the output when non-empty,
/// else the error in brackets, else nothing.
pub open spec fn reply_text_of(output: Option<Seq<char>>, error: Option<Seq<char>>) -> Option<
    Seq<char>,
> {
    match output {
        Some(o) if o.len() > 0 => Some(o),
        _ => match error {
            Some(e) => Some("(error: "@ + e + ")"@),
            None => None,
        },
    }
}

/// Reply text for a step result.
pub fn reply_text(output: &Option<String>, error: &Option<String>) -> (r: Option<String>)
    ensures
        opt_str(r) == reply_text_of(opt_str(*output), opt_str(*error)),
{
    match output {
        Some(o) => {
            if !o.as_str().is_empty() {
                return Some(o.clone());
            }
        },
        None => {},
    }
    match error {
        Some(e) => {
            let mut v: Vec<char> = Vec::new();
            push_str(&mut v, "(error: ");
            push_str(&mut v, e.as_str());
            push_str(&mut v, ")");
            Some(string_from_chars(v.as_slice()))
        },
        None => None,
    }
}

/// The reply a channel delivers for a step result: the reply text, or
/// `(no response)` when the step produced neither output nor error.
pub fn delivery_text(output: &Option<String>, error: &Option<String>) -> (s: String)
    ensures
        s@ == match reply_text_of(opt_str(*output), opt_str(*error)) {
            Some(t) => t,
            None => "(no response)"@,
        },
{
    match reply_text(output, error) {
        Some(t) => t,
        None => "(no response)".to_string(),
    }
}

/// Records the final step result of a task.
pub fn on_step_result(state: &mut TaskState, output: &Option<String>, error: &Option<String>)
    ensures
        state_inv(*old(state)) ==> state_inv(*final(state)),
        final(state).status == (if error.is_some() {
            RunStatus::Failed
        } else {
            RunStatus::Done
        }),
        opt_str(final(state).output) == opt_str(*output),
        opt_str(final(state).error) == opt_str(*error),
        final(state).task == old(state).task,
        final(state).step == old(state).step,
        final(state).max_steps == old(state).max_steps,
        final(state).run_id == old(state).run_id,
        final(state).chat_id == old(state).chat_id,
        final(state).progress_message_id == old(state).progress_message_id,
        final(state).pending_tool_calls == old(state).pending_tool_calls,
        final(state).tool_results == old(state).tool_results,
{
    state.status = if error.is_some() {
        RunStatus::Failed
    } else {
        RunStatus::Done
    };
    state.output = clone_opt(output);
    state.error = clone_opt(error);
}

/// The footer appended to the final reply in chat.
pub open spec fn footer_text(step: nat, max: nat, rpm_used: nat, rpm_cap: nat, rpd_used: nat, rpd_cap: nat) -> Seq<char> {
    step_text("_step "@, step, max, " • RPM "@) + decimal(rpm_used) + "/"@ + decimal(rpm_cap) + " • RPD "@
        + decimal(rpd_used) + "/"@ + decimal(rpd_cap) + "_"@
}

/// The final chat message: the reply, a blank line, and the footer with the
/// step count (0 of 4 when the task state is gone) and the quota use.
pub fn final_reply_body(
    text: &String,
    state: Option<&TaskState>,
    rpm_used: u64,
    rpm_cap: u64,
    rpd_used: u64,
    rpd_cap: u64,
) -> (s: String)
    ensures
        s@ == text@ + "\n\n"@ + (match state {
            Some(st) => footer_text(
                st.step as nat,
                max_of(st.max_steps),
                rpm_used as nat,
                rpm_cap as nat,
                rpd_used as nat,
                rpd_cap as nat,
            ),
            None => footer_text(
                0,
                DEFAULT_MAX_STEPS as nat,
                rpm_used as nat,
                rpm_cap as nat,
                rpd_used as nat,
                rpd_cap as nat,
            ),
        }),
{
    let (step, max) = match state {
        Some(st) => (st.step, effective_max(st)),
        None => (0, DEFAULT_MAX_STEPS),
    };
    let mut v: Vec<char> = Vec::new();
    push_str(&mut v, text.as_str());
    push_str(&mut v, "\n\n");
    push_str(&mut v, "_step ");
    push_step(&mut v, step, max);
    push_str(&mut v, " • RPM ");
    let a = decimal_chars(rpm_used);
    push_all(&mut v, a.as_slice());
    push_str(&mut v, "/");
    let b = decimal_chars(rpm_cap);
    push_all(&mut v, b.as_slice());
    push_str(&mut v, " • RPD ");
    let c = decimal_chars(rpd_used);
    push_all(&mut v, c.as_slice());
    push_str(&mut v, "/");
    let d = decimal_chars(rpd_cap);
    push_all(&mut v, d.as_slice());
    push_str(&mut v, "_");
    string_from_chars(v.as_slice())
}

/// Whether progress can be shown by editing a chat message: the task has a
/// progress message in a known chat.
pub fn has_progress_message(state: &TaskState) -> (r: bool)
    ensures
        r == (state.progress_message_id != 0 && state.chat_id@.len() > 0),
{
    state.progress_message_id != 0 && !state.chat_id.as_str().is_empty()
}

/// A task as published for the executor: its fields in declaration order.
pub open spec fn task_text(t: TaskJson) -> Seq<char> {
    "{\"id\":"@ + crate::json::quoted(t.id@) + ",\"conversation_id\":"@ + crate::json::quoted(t.conversation_id@)
        + ",\"agent_id\":"@ + crate::json::quoted(t.agent_id@) + ",\"input\":"@ + crate::json::quoted(t.input@)
        + ",\"created_at\":"@ + crate::json::quoted(t.created_at@) + "}"@
}

/// Body of a task submission.
pub fn task_body(t: &TaskJson) -> (s: String)
    ensures
        s@ == task_text(*t),
{
    let mut v: Vec<char> = Vec::new();
    push_str(&mut v, "{\"id\":");
    push_str(&mut v, crate::json::json_quote(t.id.as_str()).as_str());
    push_str(&mut v, ",\"conversation_id\":");
    push_str(&mut v, crate::json::json_quote(t.conversation_id.as_str()).as_str());
    push_str(&mut v, ",\"agent_id\":");
    push_str(&mut v, crate::json::json_quote(t.agent_id.as_str()).as_str());
    push_str(&mut v, ",\"input\":");
    push_str(&mut v, crate::json::json_quote(t.input.as_str()).as_str());
    push_str(&mut v, ",\"created_at\":");
    push_str(&mut v, crate::json::json_quote(t.created_at.as_str()).as_str());
    push_str(&mut v, "}");
    string_from_chars(v.as_slice())
}

/// Wire name of a lifecycle phase.
pub open spec fn phase_name(p: crate::types::LifecyclePhase) -> Seq<char> {
    match p {
        crate::types::LifecyclePhase::Started => "started"@,
        crate::types::LifecyclePhase::Stepping => "stepping"@,
        crate::types::LifecyclePhase::ToolCalls => "tool-calls"@,
        crate::types::LifecyclePhase::ToolResult => "tool-result"@,
        crate::types::LifecyclePhase::Completed => "completed"@,
        crate::types::LifecyclePhase::Error => "error"@,
    }
}

pub fn phase_str(p: crate::types::LifecyclePhase) -> (s: &'static str)
    ensures
        s@ == phase_name(p),
{
    match p {
        crate::types::LifecyclePhase::Started => "started",
        crate::types::LifecyclePhase::Stepping => "stepping",
        crate::types::LifecyclePhase::ToolCalls => "tool-calls",
        crate::types::LifecyclePhase::ToolResult => "tool-result",
        crate::types::LifecyclePhase::Completed => "completed",
        crate::types::LifecyclePhase::Error => "error",
    }
}

/// Where a run's lifecycle events go; a task without a run id announces
/// none.
pub open spec fn lifecycle_subject_of(run_id: Seq<char>) -> Option<Seq<char>> {
    if run_id.len() == 0 {
        None
    } else {
        Some("mycelium.run."@ + run_id + ".lifecycle"@)
    }
}

pub fn lifecycle_subject(run_id: &str) -> (r: Option<String>)
    ensures
        opt_str(r) == lifecycle_subject_of(run_id@),
{
    if run_id.is_empty() {
        None
    } else {
        let mut v: Vec<char> = Vec::new();
        push_str(&mut v, "mycelium.run.");
        push_str(&mut v, run_id);
        push_str(&mut v, ".lifecycle");
        Some(string_from_chars(v.as_slice()))
    }
}

/// A lifecycle event: its fields in declaration order, the error only
/// when there is one.
pub open spec fn lifecycle_text(e: crate::types::LifecycleEvent) -> Seq<char> {
    "{\"run_id\":"@ + crate::json::quoted(e.run_id@) + ",\"task_id\":"@ + crate::json::quoted(e.task_id@)
        + ",\"phase\":"@ + crate::json::quoted(phase_name(e.phase)) + ",\"step\":"@ + decimal(e.step as nat)
        + ",\"ts\":"@ + crate::json::quoted(e.ts@) + match e.error {
        Some(err) => ",\"error\":"@ + crate::json::quoted(err@),
        None => Seq::empty(),
    } + "}"@
}

pub fn lifecycle_body(e: &crate::types::LifecycleEvent) -> (s: String)
    ensures
        s@ == lifecycle_text(*e),
{
    let mut v: Vec<char> = Vec::new();
    push_str(&mut v, "{\"run_id\":");
    push_str(&mut v, crate::json::json_quote(e.run_id.as_str()).as_str());
    push_str(&mut v, ",\"task_id\":");
    push_str(&mut v, crate::json::json_quote(e.task_id.as_str()).as_str());
    push_str(&mut v, ",\"phase\":");
    push_str(&mut v, crate::json::json_quote(phase_str(e.phase)).as_str());
    push_str(&mut v, ",\"step\":");
    let d = decimal_chars(e.step as u64);
    push_all(&mut v, d.as_slice());
    push_str(&mut v, ",\"ts\":");
    push_str(&mut v, crate::json::json_quote(e.ts.as_str()).as_str());
    match &e.error {
        Some(err) => {
            push_str(&mut v, ",\"error\":");
            push_str(&mut v, crate::json::json_quote(err.as_str()).as_str());
        },
        None => {},
    }
    push_str(&mut v, "}");
    string_from_chars(v.as_slice())
}

/// The lifecycle announcement of a run, stamped now: where it goes and what
/// it says; `None` for a task without a run id.
pub fn lifecycle_message(
    run_id: &str,
    task_id: &str,
    phase: crate::types::LifecyclePhase,
    step: u32,
    error: Option<String>,
) -> (r: Option<(String, crate::types::LifecycleEvent, String)>)
    ensures
        match lifecycle_subject_of(run_id@) {
            None => r is None,
            Some(subject) => r matches Some(m) && m.0@ == subject && m.1.run_id@ == run_id@ && m.1.task_id@
                == task_id@ && m.1.phase == phase && m.1.step == step && m.1.error == error && m.2@
                == lifecycle_text(m.1),
        },
{
    match lifecycle_subject(run_id) {
        None => None,
        Some(subject) => {
            let event = crate::types::LifecycleEvent {
                run_id: run_id.to_string(),
                task_id: task_id.to_string(),
                phase,
                step,
                ts: crate::session::now_iso(),
                error,
            };
            let body = lifecycle_body(&event);
            Some((subject, event, body))
        },
    }
}

} // verus!
