use but_gitea::hook::{
    ChangeKind, HookInput, HookResponse, SegmentInfo, StopAgent, change_type, classify_agent,
    cursor_loop_count, fallback_response, file_changes, has_uncommitted, hook_status,
    is_codex_stop_hook_input, is_cursor_stop_hook_input, stack_branches, status_message,
    stop_response,
};

fn input(event: Option<&str>, turn_id: bool, conversation_id: bool, loop_count: Option<u64>) -> HookInput {
    HookInput {
        is_object: true,
        hook_event_name: event.map(str::to_string),
        has_turn_id: turn_id,
        has_conversation_id: conversation_id,
        loop_count,
    }
}

#[test]
fn codex_is_recognised_by_turn_id() {
    let codex = input(Some("Stop"), true, false, None);
    assert!(is_codex_stop_hook_input(&codex));
    assert_eq!(classify_agent(Some(&codex)), StopAgent::Codex);
}

#[test]
fn claude_stop_without_turn_id_is_not_codex() {
    let claude = input(Some("Stop"), false, false, None);
    assert!(!is_codex_stop_hook_input(&claude));
    assert_eq!(classify_agent(Some(&claude)), StopAgent::Other);
    assert_eq!(classify_agent(None), StopAgent::Other);
}

#[test]
fn cursor_is_recognised_by_lowercase_stop_and_conversation_id() {
    let cursor = input(Some("stop"), false, true, Some(2));
    assert!(is_cursor_stop_hook_input(&cursor));
    assert_eq!(cursor_loop_count(&cursor), 2);
    assert_eq!(classify_agent(Some(&cursor)), StopAgent::Cursor { loop_count: 2 });
    let first = input(Some("stop"), false, true, None);
    assert_eq!(classify_agent(Some(&first)), StopAgent::Cursor { loop_count: 0 });
    let uppercase = input(Some("Stop"), false, true, None);
    assert!(!is_cursor_stop_hook_input(&uppercase));
}

#[test]
fn payloads_that_are_not_objects_come_from_other_agents() {
    let mut not_object = input(Some("Stop"), true, false, None);
    not_object.is_object = false;
    assert_eq!(classify_agent(Some(&not_object)), StopAgent::Other);
}

#[test]
fn changes_are_labelled() {
    assert_eq!(change_type(ChangeKind::Addition), "added");
    assert_eq!(change_type(ChangeKind::Deletion), "removed");
    assert_eq!(change_type(ChangeKind::Modification), "modified");
    assert_eq!(change_type(ChangeKind::Rename), "renamed");
    let files = file_changes(vec![
        ("foo.rs".to_string(), ChangeKind::Modification),
        ("bar.rs".to_string(), ChangeKind::Addition),
    ]);
    assert_eq!(files.len(), 2);
    assert_eq!(files[0].path, "foo.rs");
    assert_eq!(files[0].change_type, "modified");
    assert_eq!(files[1].change_type, "added");
    let status = hook_status::<u8>(files, vec![]);
    assert_eq!(status.uncommitted_file_count, 2);
    assert!(has_uncommitted(&status));
    let clean = hook_status::<u8>(vec![], vec![]);
    assert!(!has_uncommitted(&clean));
}

#[test]
fn stacks_keep_only_named_segments() {
    let stack = stack_branches(vec![
        SegmentInfo { ref_name: Some("feature".to_string()), commit_count: 3, push_status: 'a' },
        SegmentInfo { ref_name: None, commit_count: 9, push_status: 'b' },
        SegmentInfo { ref_name: Some("base".to_string()), commit_count: 1, push_status: 'c' },
    ]);
    assert_eq!(stack.branches.len(), 2);
    assert_eq!(stack.branches[0].name, "feature");
    assert_eq!(stack.branches[0].commit_count, 3);
    assert_eq!(stack.branches[1].name, "base");
    assert_eq!(stack.branches[1].push_status, 'c');
}

#[test]
fn status_message_is_the_json_then_the_nudge() {
    assert_eq!(
        status_message("{\"uncommittedFileCount\":0}"),
        "but status: {\"uncommittedFileCount\":0}\n→ Skill(gitbutler): load the `but` (gitbutler) skill for version control (staging, committing, pushing, branching). Do not use raw git commands."
    );
}

#[test]
fn codex_is_never_blocked() {
    assert!(matches!(
        stop_response(StopAgent::Codex, true, "m".to_string()),
        HookResponse::EmptyJson
    ));
}

#[test]
fn cursor_gets_one_follow_up_with_uncommitted_changes() {
    match stop_response(StopAgent::Cursor { loop_count: 0 }, true, "m".to_string()) {
        HookResponse::CursorFollowup(m) => assert_eq!(m, "m"),
        _ => panic!("expected a follow-up"),
    }
    assert!(matches!(
        stop_response(StopAgent::Cursor { loop_count: 1 }, true, "m".to_string()),
        HookResponse::EmptyJson
    ));
    assert!(matches!(
        stop_response(StopAgent::Cursor { loop_count: 0 }, false, "m".to_string()),
        HookResponse::EmptyJson
    ));
}

#[test]
fn other_agents_see_the_message() {
    match stop_response(StopAgent::Other, false, "m".to_string()) {
        HookResponse::PlainText(m) => assert_eq!(m, "m"),
        _ => panic!("expected plain text"),
    }
}

#[test]
fn failures_answer_json_agents_with_an_empty_object() {
    assert!(matches!(fallback_response(StopAgent::Codex), HookResponse::EmptyJson));
    assert!(matches!(
        fallback_response(StopAgent::Cursor { loop_count: 3 }),
        HookResponse::EmptyJson
    ));
    assert!(matches!(fallback_response(StopAgent::Other), HookResponse::Nothing));
}
