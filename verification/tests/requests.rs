use but_gitea::repository::{ApiStatus, statuses_from_api};
use but_gitea::checks::{
    LookupStatus, classify_lookup_status, first_commit_sha, is_likely_commit_sha, known_commit_sha,
};
use but_gitea::requests::{
    CreatePullRequestParams, DraftStateError, HttpStatusError, PAGE_LIMIT,
    PullRequestNumberError, authorization_value, check_pull_request_number, commits_url,
    commit_lookup_query, create_pull_request_title, decimal_text, pulls_query, draft_state_title_update, merge_url, next_page,
    pull_request_number, pull_url, pulls_url, repo_url, statuses_url, user_url,
};

const BASE: &str = "https://gitea.example.com/api/v1";

#[test]
fn decimal_text_writes_signed_integers() {
    assert_eq!(decimal_text(0), "0");
    assert_eq!(decimal_text(42), "42");
    assert_eq!(decimal_text(-42), "-42");
    assert_eq!(decimal_text(i64::MAX), "9223372036854775807");
    assert_eq!(decimal_text(i64::MIN), "-9223372036854775808");
}

#[test]
fn endpoints_are_built_under_the_api_base() {
    assert_eq!(user_url(BASE), "https://gitea.example.com/api/v1/user");
    assert_eq!(
        repo_url(BASE, "octo", "cat"),
        "https://gitea.example.com/api/v1/repos/octo/cat"
    );
    assert_eq!(
        commits_url(BASE, "octo", "cat"),
        "https://gitea.example.com/api/v1/repos/octo/cat/commits"
    );
    assert_eq!(
        pulls_url(BASE, "octo", "cat"),
        "https://gitea.example.com/api/v1/repos/octo/cat/pulls"
    );
    assert_eq!(
        pull_url(BASE, "octo", "cat", 17),
        "https://gitea.example.com/api/v1/repos/octo/cat/pulls/17"
    );
    assert_eq!(
        merge_url(BASE, "octo", "cat", 17),
        "https://gitea.example.com/api/v1/repos/octo/cat/pulls/17/merge"
    );
}

#[test]
fn statuses_url_percent_encodes_the_reference() {
    assert_eq!(
        statuses_url(BASE, "octo", "cat", "0123abc"),
        "https://gitea.example.com/api/v1/repos/octo/cat/commits/0123abc/statuses"
    );
    assert_eq!(
        statuses_url(BASE, "octo", "cat", "feat/x y~"),
        "https://gitea.example.com/api/v1/repos/octo/cat/commits/feat%2Fx%20y~/statuses"
    );
}

#[test]
fn authorization_uses_the_token_scheme() {
    assert_eq!(authorization_value("abc123"), "token abc123");
}

#[test]
fn created_pull_requests_carry_the_draft_marker() {
    let params = CreatePullRequestParams {
        owner: "octo",
        repo: "cat",
        title: "Add feature",
        body: "",
        head: "feature",
        base: "main",
        draft: true,
    };
    assert_eq!(create_pull_request_title(&params), "WIP: Add feature");
    let ready = CreatePullRequestParams { draft: false, title: "[WIP] Add feature", ..params };
    assert_eq!(create_pull_request_title(&ready), "Add feature");
}

#[test]
fn paging_stops_at_the_first_short_page() {
    assert_eq!(PAGE_LIMIT, 50);
    assert_eq!(next_page(1, 50, PAGE_LIMIT), Some(2));
    assert_eq!(next_page(3, 49, PAGE_LIMIT), None);
    assert_eq!(next_page(1, 0, PAGE_LIMIT), None);
    assert_eq!(next_page(u32::MAX, 50, PAGE_LIMIT), None);
}

#[test]
fn draft_state_refuses_non_positive_numbers() {
    assert_eq!(check_pull_request_number(0), Err(DraftStateError::NonPositiveNumber));
    assert_eq!(check_pull_request_number(-3), Err(DraftStateError::NonPositiveNumber));
    assert_eq!(check_pull_request_number(1), Ok(()));
    assert_eq!(
        DraftStateError::NonPositiveNumber.message(),
        "PR number must be greater than 0"
    );
}

#[test]
fn draft_state_update_is_skipped_when_the_title_is_already_right() {
    assert_eq!(draft_state_title_update("WIP: Add API validation", true), None);
    assert_eq!(draft_state_title_update("Add API validation", false), None);
    assert_eq!(
        draft_state_title_update("Add API validation", true),
        Some("WIP: Add API validation".to_string())
    );
    assert_eq!(
        draft_state_title_update("[wip] Add API validation", false),
        Some("Add API validation".to_string())
    );
}

#[test]
fn pull_request_numbers_must_fit_the_api() {
    assert_eq!(pull_request_number(7), Ok(7));
    if usize::MAX as u128 > i64::MAX as u128 {
        let too_large = (i64::MAX as usize) + 1;
        assert_eq!(pull_request_number(too_large), Err(PullRequestNumberError::TooLarge));
    }
    assert_eq!(PullRequestNumberError::TooLarge.message(), "PR number is too large");
}

#[test]
fn http_status_errors_show_the_status_line() {
    assert_eq!(HttpStatusError { status: 401 }.message(), "HTTP 401 Unauthorized");
    assert_eq!(HttpStatusError { status: 404 }.message(), "HTTP 404 Not Found");
    assert_eq!(
        HttpStatusError { status: 599 }.message(),
        "HTTP 599 <unknown status code>"
    );
}

#[test]
fn lookup_statuses_are_classified() {
    assert_eq!(classify_lookup_status(404), LookupStatus::Unresolvable);
    assert_eq!(classify_lookup_status(400), LookupStatus::Unresolvable);
    assert_eq!(classify_lookup_status(422), LookupStatus::Unresolvable);
    assert_eq!(classify_lookup_status(200), LookupStatus::Succeeded);
    assert_eq!(classify_lookup_status(204), LookupStatus::Succeeded);
    assert_eq!(classify_lookup_status(500), LookupStatus::Failed);
    assert_eq!(classify_lookup_status(401), LookupStatus::Failed);
}

#[test]
fn hex_references_skip_resolution_and_others_take_the_first_commit() {
    assert_eq!(known_commit_sha("deadbee"), Some("deadbee".to_string()));
    assert_eq!(known_commit_sha("feature/with-slash"), None);
    assert_eq!(
        first_commit_sha(vec!["abc1234".to_string(), "def5678".to_string()]),
        Some("abc1234".to_string())
    );
    assert_eq!(first_commit_sha(vec![]), None);
}

// The check lookups of the client, walked through the library's decisions
// with the requests and answers of a Gitea server.

const MOCK: &str = "http://127.0.0.1:3000";

#[test]
fn slash_branch_resolves_via_commits_query_then_sha_statuses() {
    let sha = "0123456789abcdef0123456789abcdef01234567";
    let reference = "fix/ksef-invoice-candidates-build";
    assert_eq!(known_commit_sha(reference), None);
    assert_eq!(
        commits_url(MOCK, "optima", "optima-api"),
        "http://127.0.0.1:3000/repos/optima/optima-api/commits"
    );
    assert_eq!(
        commit_lookup_query(reference),
        vec![
            ("sha".to_string(), "fix/ksef-invoice-candidates-build".to_string()),
            ("limit".to_string(), "1".to_string()),
        ]
    );
    assert_eq!(classify_lookup_status(200), LookupStatus::Succeeded);
    let resolved = first_commit_sha(vec![sha.to_string()]).unwrap();
    assert_eq!(
        statuses_url(MOCK, "optima", "optima-api", &resolved),
        "http://127.0.0.1:3000/repos/optima/optima-api/commits/0123456789abcdef0123456789abcdef01234567/statuses"
    );
    let checks = statuses_from_api(
        vec![ApiStatus {
            id: 1,
            context: "ci".to_string(),
            description: None,
            status: "success".to_string(),
            target_url: None,
            url: None,
            created_at: None,
            updated_at: None,
        }],
        &resolved,
    );
    assert_eq!(checks.len(), 1);
    assert_eq!(checks[0].head_sha, sha);
    assert_eq!(checks[0].context, "ci");
}

#[test]
fn hex_sha_skips_commit_resolution() {
    let sha = "0123456789abcdef0123456789abcdef01234567";
    let resolved = known_commit_sha(sha).expect("a commit SHA is used directly");
    assert_eq!(resolved, sha);
    assert_eq!(
        statuses_url(MOCK, "optima", "optima-api", &resolved),
        "http://127.0.0.1:3000/repos/optima/optima-api/commits/0123456789abcdef0123456789abcdef01234567/statuses"
    );
    assert_eq!(classify_lookup_status(200), LookupStatus::Succeeded);
    let checks = statuses_from_api(vec![], &resolved);
    assert!(checks.is_empty(), "an existing SHA without statuses has no checks");
}

#[test]
fn slash_branch_400_is_an_unresolvable_ref() {
    assert_eq!(known_commit_sha("fix/ksef-invoice-candidates-build"), None);
    assert_eq!(
        classify_lookup_status(400),
        LookupStatus::Unresolvable,
        "a 400 from Gitea for a slash branch is not an API failure"
    );
}

#[test]
fn commit_shas_are_seven_to_forty_hex_bytes() {
    assert!(is_likely_commit_sha("abcdef1"));
    assert!(is_likely_commit_sha("DEADBEE"));
    assert!(!is_likely_commit_sha("abcdef"));
    assert!(is_likely_commit_sha(&"a".repeat(40)));
    assert!(!is_likely_commit_sha(&"a".repeat(41)));
    assert!(!is_likely_commit_sha("abcdefg"));
    assert!(!is_likely_commit_sha("\u{e9}\u{e9}\u{e9}\u{e9}\u{e9}\u{e9}\u{e9}"));
}

#[test]
fn pull_request_pages_are_queried_by_recent_update() {
    assert_eq!(
        pulls_query("open", 3),
        vec![
            ("state".to_string(), "open".to_string()),
            ("sort".to_string(), "recentupdate".to_string()),
            ("page".to_string(), "3".to_string()),
            ("limit".to_string(), "50".to_string()),
        ]
    );
}
