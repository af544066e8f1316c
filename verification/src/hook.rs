//! The stop hook that shows a coding agent the workspace state: which agent
//! called, what it is answered, and the status it is shown.
use vstd::prelude::*;
use crate::text::{chars_of, concat, eq_chars, string_from_chars};

verus! {

broadcast use vstd::string::group_string_axioms;

// ---------------------------------------------------------------------------
// Who called
// ---------------------------------------------------------------------------

/// What the hook reads of the JSON payload an agent sends on stdin.
pub struct HookInput {
    /// The payload is a JSON object; the other fields describe its members.
    pub is_object: bool,
    /// `hook_event_name`, when it is a string.
    pub hook_event_name: Option<String>,
    /// A `turn_id` member is present (only Codex sends it).
    pub has_turn_id: bool,
    /// A `conversation_id` member is present (every Cursor payload has it).
    pub has_conversation_id: bool,
    /// `loop_count`, when it is a non-negative integer that fits a `u64`.
    pub loop_count: Option<u64>,
}

/// Which agent invoked the stop hook, with the per-agent state the response
/// depends on. Codex and Cursor require JSON on stdout; other agents read plain stdout.
#[derive(Debug, Clone, Copy, PartialEq, Eq, Structural)]
pub enum StopAgent {
    Codex,
    Cursor { loop_count: u64 },
    Other,
}

pub open spec fn event_name_is(input: HookInput, name: Seq<char>) -> bool {
    input.hook_event_name is Some && input.hook_event_name->0@ == name
}

/// Codex: the event is `Stop` and the payload carries a `turn_id`.
pub open spec fn codex_stop(input: HookInput) -> bool {
    input.is_object && event_name_is(input, "Stop"@) && input.has_turn_id
}

/// Cursor: the event is a lowercase `stop` and the payload carries a
/// `conversation_id`.
pub open spec fn cursor_stop(input: HookInput) -> bool {
    input.is_object && event_name_is(input, "stop"@) && input.has_conversation_id
}

/// Cursor's `loop_count`, 0 when absent.
pub open spec fn loop_count_of(input: HookInput) -> u64 {
    match input.loop_count {
        Some(n) => n,
        None => 0,
    }
}

/// The agent a payload comes from: Cursor is checked first, then Codex;
/// anything else, and no payload at all, is another agent.
pub open spec fn agent_of(input: Option<HookInput>) -> StopAgent {
    match input {
        None => StopAgent::Other,
        Some(i) => if cursor_stop(i) {
            StopAgent::Cursor { loop_count: loop_count_of(i) }
        } else if codex_stop(i) {
            StopAgent::Codex
        } else {
            StopAgent::Other
        },
    }
}

fn event_name_matches(input: &HookInput, name: &str) -> (r: bool)
    ensures
        r == event_name_is(*input, name@),
{
    match &input.hook_event_name {
        Some(n) => eq_chars(&chars_of(n.as_str()), &chars_of(name)),
        None => false,
    }
}

/// True for a Codex stop hook.
pub fn is_codex_stop_hook_input(input: &HookInput) -> (r: bool)
    ensures
        r == codex_stop(*input),
{
    input.is_object && event_name_matches(input, "Stop") && input.has_turn_id
}

/// True for a Cursor stop hook.
pub fn is_cursor_stop_hook_input(input: &HookInput) -> (r: bool)
    ensures
        r == cursor_stop(*input),
{
    input.is_object && event_name_matches(input, "stop") && input.has_conversation_id
}

/// How many auto-follow-ups Cursor has already made in this conversation.
pub fn cursor_loop_count(input: &HookInput) -> (r: u64)
    ensures
        r == loop_count_of(*input),
{
    match input.loop_count {
        Some(n) => n,
        None => 0,
    }
}

/// The agent that invoked the hook.
pub fn classify_agent(input: Option<&HookInput>) -> (r: StopAgent)
    ensures
        r == agent_of(
            match input {
                Some(i) => Some(*i),
                None => None,
            },
        ),
{
    match input {
        None => StopAgent::Other,
        Some(i) => {
            if is_cursor_stop_hook_input(i) {
                StopAgent::Cursor { loop_count: cursor_loop_count(i) }
            } else if is_codex_stop_hook_input(i) {
                StopAgent::Codex
            } else {
                StopAgent::Other
            }
        },
    }
}

// ---------------------------------------------------------------------------
// The workspace status
// ---------------------------------------------------------------------------

/// How a worktree file changed.
#[derive(Debug, Clone, Copy, PartialEq, Eq, Structural)]
pub enum ChangeKind {
    Addition,
    Deletion,
    Modification,
    Rename,
}

pub open spec fn change_type_text(kind: ChangeKind) -> Seq<char> {
    match kind {
        ChangeKind::Addition => "added"@,
        ChangeKind::Deletion => "removed"@,
        ChangeKind::Modification => "modified"@,
        ChangeKind::Rename => "renamed"@,
    }
}

/// The label a change is reported with.
pub fn change_type(kind: ChangeKind) -> (r: &'static str)
    ensures
        r@ == change_type_text(kind),
{
    match kind {
        ChangeKind::Addition => "added",
        ChangeKind::Deletion => "removed",
        ChangeKind::Modification => "modified",
        ChangeKind::Rename => "renamed",
    }
}

/// An uncommitted file.
pub struct FileChange {
    pub path: String,
    pub change_type: &'static str,
}

/// A branch of a stack, with its commit count.
pub struct BranchInfo<P> {
    pub name: String,
    pub commit_count: usize,
    pub push_status: P,
}

/// A stack with its branches.
pub struct StackInfo<P> {
    pub branches: Vec<BranchInfo<P>>,
}

/// A segment of a stack: a branch when it has a reference name.
pub struct SegmentInfo<P> {
    pub ref_name: Option<String>,
    pub commit_count: usize,
    pub push_status: P,
}

/// Workspace status as returned by the hook.
pub struct HookStatus<P> {
    pub uncommitted_file_count: usize,
    pub uncommitted_files: Vec<FileChange>,
    pub stacks: Vec<StackInfo<P>>,
}

/// The uncommitted files, each labelled by how it changed, in order.
pub fn file_changes(changes: Vec<(String, ChangeKind)>) -> (r: Vec<FileChange>)
    ensures
        r@.len() == changes@.len(),
        forall|i: int|
            0 <= i < r@.len() ==> #[trigger] r@[i].path@ == changes@[i].0@ && r@[i].change_type@
                == change_type_text(changes@[i].1),
{
    let ghost input = changes@;
    let mut out: Vec<FileChange> = Vec::new();
    for c in it: changes.into_iter()
        invariant
            it.seq() == input,
            out@.len() == it.index(),
            forall|i: int|
                0 <= i < out@.len() ==> #[trigger] out@[i].path@ == input[i].0@
                    && out@[i].change_type@ == change_type_text(input[i].1),
    {
        let (path, kind) = c;
        out.push(FileChange { path, change_type: change_type(kind) });
    }
    out
}

/// The segments that name a branch, as branches, in order.
pub open spec fn named_segments<P>(segments: Seq<SegmentInfo<P>>) -> Seq<SegmentInfo<P>>
    decreases segments.len(),
{
    if segments.len() == 0 {
        seq![]
    } else {
        let rest = named_segments(segments.drop_last());
        if segments.last().ref_name is Some {
            rest.push(segments.last())
        } else {
            rest
        }
    }
}

/// The branches of a stack: its segments that have a reference name.
pub fn stack_branches<P>(segments: Vec<SegmentInfo<P>>) -> (r: StackInfo<P>)
    ensures
        r.branches@.len() == named_segments(segments@).len(),
        forall|i: int|
            0 <= i < r.branches@.len() ==> {
                let s = #[trigger] named_segments(segments@)[i];
                &&& r.branches@[i].name@ == s.ref_name->0@
                &&& r.branches@[i].commit_count == s.commit_count
                &&& r.branches@[i].push_status == s.push_status
            },
{
    let ghost input = segments@;
    let mut out: Vec<BranchInfo<P>> = Vec::new();
    for seg in it: segments.into_iter()
        invariant
            it.seq() == input,
            out@.len() == named_segments(input.take(it.index() as int)).len(),
            forall|i: int|
                0 <= i < out@.len() ==> {
                    let s = #[trigger] named_segments(input.take(it.index() as int))[i];
                    &&& out@[i].name@ == s.ref_name->0@
                    &&& out@[i].commit_count == s.commit_count
                    &&& out@[i].push_status == s.push_status
                },
    {
        let ghost k = it.index() as int;
        proof {
            assert(input.take(k + 1).drop_last() =~= input.take(k));
            assert(input.take(k + 1).last() == input[k]);
        }
        let SegmentInfo { ref_name, commit_count, push_status } = seg;
        match ref_name {
            Some(name) => {
                out.push(BranchInfo { name, commit_count, push_status });
            },
            None => {},
        }
    }
    proof {
        assert(input.take(input.len() as int) =~= input);
    }
    StackInfo { branches: out }
}

/// The status shown to the agent, counting the uncommitted files.
pub fn hook_status<P>(uncommitted_files: Vec<FileChange>, stacks: Vec<StackInfo<P>>) -> (r:
    HookStatus<P>)
    ensures
        r.uncommitted_file_count == uncommitted_files@.len(),
        r.uncommitted_files@ == uncommitted_files@,
        r.stacks@ == stacks@,
{
    HookStatus { uncommitted_file_count: uncommitted_files.len(), uncommitted_files, stacks }
}

/// Whether the status reports uncommitted changes.
pub fn has_uncommitted<P>(status: &HookStatus<P>) -> (r: bool)
    ensures
        r == (status.uncommitted_file_count > 0 || status.uncommitted_files@.len() > 0),
{
    status.uncommitted_file_count > 0 || status.uncommitted_files.len() > 0
}

/// The text after the status: the reminder to load the skill.
pub open spec fn skill_nudge() -> Seq<char> {
    "\n→ Skill(gitbutler): load the `but` (gitbutler) skill for version control (staging, committing, pushing, branching). Do not use raw git commands."@
}

/// The message shown to the agent: the status as JSON, then the reminder.
pub fn status_message(status_json: &str) -> (r: String)
    ensures
        r@ == "but status: "@ + status_json@ + skill_nudge(),
{
    let head = concat(&chars_of("but status: "), &chars_of(status_json));
    string_from_chars(
        &concat(
            &head,
            &chars_of(
                "\n→ Skill(gitbutler): load the `but` (gitbutler) skill for version control (staging, committing, pushing, branching). Do not use raw git commands.",
            ),
        ),
    )
}

// ---------------------------------------------------------------------------
// The answer
// ---------------------------------------------------------------------------

/// What the hook writes to stdout.
pub enum HookResponse {
    /// Nothing at all.
    Nothing,
    /// The empty JSON object `{}`.
    EmptyJson,
    /// A JSON object whose `followup_message` is the message.
    CursorFollowup(String),
    /// The message as plain text.
    PlainText(String),
}

/// The kind of answer, without the message it carries.
#[derive(Debug, Clone, Copy, PartialEq, Eq, Structural)]
pub enum ResponseKind {
    Nothing,
    EmptyJson,
    CursorFollowup,
    PlainText,
}

pub open spec fn kind_of(r: HookResponse) -> ResponseKind {
    match r {
        HookResponse::Nothing => ResponseKind::Nothing,
        HookResponse::EmptyJson => ResponseKind::EmptyJson,
        HookResponse::CursorFollowup(_) => ResponseKind::CursorFollowup,
        HookResponse::PlainText(_) => ResponseKind::PlainText,
    }
}

/// The kind of answer with the workspace status: Codex is never blocked
/// (its block re-enters the turn and loops), Cursor gets a follow-up only on
/// its first stop and only with uncommitted changes, other agents see the
/// message.
pub open spec fn stop_response_kind(agent: StopAgent, uncommitted: bool) -> ResponseKind {
    match agent {
        StopAgent::Codex => ResponseKind::EmptyJson,
        StopAgent::Cursor { loop_count } => if uncommitted && loop_count == 0 {
            ResponseKind::CursorFollowup
        } else {
            ResponseKind::EmptyJson
        },
        StopAgent::Other => ResponseKind::PlainText,
    }
}

/// The message an answer carries, if any.
pub open spec fn carried_message(r: HookResponse) -> Option<Seq<char>> {
    match r {
        HookResponse::CursorFollowup(m) => Some(m@),
        HookResponse::PlainText(m) => Some(m@),
        _ => None,
    }
}

/// The answer with the workspace status.
pub fn stop_response(agent: StopAgent, uncommitted: bool, message: String) -> (r: HookResponse)
    ensures
        kind_of(r) == stop_response_kind(agent, uncommitted),
        carried_message(r) is Some ==> carried_message(r) == Some(message@),
{
    match agent {
        StopAgent::Codex => HookResponse::EmptyJson,
        StopAgent::Cursor { loop_count } => {
            if uncommitted && loop_count == 0 {
                HookResponse::CursorFollowup(message)
            } else {
                HookResponse::EmptyJson
            }
        },
        StopAgent::Other => HookResponse::PlainText(message),
    }
}

/// The kind of answer when the status could not be produced: agents that
/// expect JSON get an empty object, others nothing.
pub open spec fn fallback_response_kind(agent: StopAgent) -> ResponseKind {
    match agent {
        StopAgent::Other => ResponseKind::Nothing,
        _ => ResponseKind::EmptyJson,
    }
}

/// The answer when the status could not be produced.
pub fn fallback_response(agent: StopAgent) -> (r: HookResponse)
    ensures
        kind_of(r) == fallback_response_kind(agent),
{
    match agent {
        StopAgent::Other => HookResponse::Nothing,
        _ => HookResponse::EmptyJson,
    }
}

/// The hook never makes an agent loop: a Codex stop, and a Cursor stop after
/// its first follow-up, are answered with an empty JSON object whatever the
/// workspace holds.
pub proof fn law_stop_hook_never_loops(input: HookInput, uncommitted: bool)
    requires
        codex_stop(input) || (cursor_stop(input) && loop_count_of(input) > 0),
    ensures
        stop_response_kind(agent_of(Some(input)), uncommitted) == ResponseKind::EmptyJson,
{
    reveal_strlit("Stop");
    reveal_strlit("stop");
    assert("Stop"@[0] != "stop"@[0]);
}

/// Whatever happens, an agent that reads JSON gets JSON: every answer to
/// Codex or Cursor, with the status or without it, is a JSON object.
pub proof fn law_json_agents_get_json(agent: StopAgent, uncommitted: bool)
    requires
        !(agent is Other),
    ensures
        stop_response_kind(agent, uncommitted) != ResponseKind::PlainText,
        stop_response_kind(agent, uncommitted) != ResponseKind::Nothing,
        fallback_response_kind(agent) == ResponseKind::EmptyJson,
{
}

} // verus!
