use but_gitea::account::{GiteaAccountIdentifier, same_account_identity, select_account};
use but_gitea::checks::{is_likely_commit_sha, is_unresolvable_ref_status};
use but_gitea::draft::update_draft_state_in_title;
use but_gitea::host::normalize_host;

#[test]
fn normalizes_plain_host_to_https_root() {
    assert_eq!(
        normalize_host("gitea.example.com").unwrap(),
        "https://gitea.example.com"
    );
}

#[test]
fn strips_api_suffix_from_host() {
    assert_eq!(
        normalize_host("https://gitea.example.com/api/v1").unwrap(),
        "https://gitea.example.com"
    );
}

#[test]
fn preserves_subpath_instances() {
    assert_eq!(
        normalize_host("https://example.com/git/api/v1").unwrap(),
        "https://example.com/git"
    );
}

#[test]
fn makes_title_wip() {
    assert_eq!(
        update_draft_state_in_title("Add API validation", true),
        "WIP: Add API validation"
    );
}

#[test]
fn draft_state_noops_when_already_wip() {
    assert_eq!(
        update_draft_state_in_title("WIP: Add API validation", true),
        "WIP: Add API validation"
    );
    assert_eq!(
        update_draft_state_in_title("[wip] Add API validation", true),
        "[wip] Add API validation"
    );
}

#[test]
fn removes_wip_prefix_for_ready_state() {
    assert_eq!(
        update_draft_state_in_title("WIP: Add API validation", false),
        "Add API validation"
    );
    assert_eq!(
        update_draft_state_in_title("[WIP] Add API validation", false),
        "Add API validation"
    );
}

#[test]
fn preferred_account_matches_known_account() {
    let known = GiteaAccountIdentifier::selfhosted("alice", "https://gitea.example.com");
    let preferred = GiteaAccountIdentifier::selfhosted("alice", "https://gitea.example.com");

    assert!(same_account_identity(&known, &preferred));
}

#[test]
fn refuses_default_account_when_multiple_gitea_accounts_are_known() {
    let accounts = vec![
        GiteaAccountIdentifier::selfhosted("alice", "https://gitea.example.com"),
        GiteaAccountIdentifier::selfhosted("alice", "https://gitea.internal"),
    ];

    let err = select_account(None, &accounts).unwrap_err().message();

    assert!(
        err.contains("Multiple authenticated Gitea users"),
        "unexpected error: {err}"
    );
}

#[test]
fn full_and_short_hex_are_treated_as_commit_shas() {
    assert!(is_likely_commit_sha("deadbee"));
    assert!(is_likely_commit_sha(
        "0123456789abcdef0123456789abcdef01234567"
    ));
    assert!(!is_likely_commit_sha("main"));
    assert!(!is_likely_commit_sha("fix/ksef-invoice-candidates-build"));
}

#[test]
fn gitea_unresolvable_ref_statuses_match_github_and_bitbucket_contract() {
    assert!(is_unresolvable_ref_status(reqwest::StatusCode::BAD_REQUEST.as_u16()));
    assert!(is_unresolvable_ref_status(reqwest::StatusCode::NOT_FOUND.as_u16()));
    assert!(is_unresolvable_ref_status(
        reqwest::StatusCode::UNPROCESSABLE_ENTITY.as_u16()
    ));
    assert!(!is_unresolvable_ref_status(
        reqwest::StatusCode::INTERNAL_SERVER_ERROR.as_u16()
    ));
}

#[test]
fn cache_key_separates_accounts_on_same_host_by_username() {
    let alice = GiteaAccountIdentifier::selfhosted("alice", "https://gitea.example.com");
    let bob = GiteaAccountIdentifier::selfhosted("bob", "https://gitea.example.com");

    assert_ne!(alice.cache_key(), bob.cache_key());
    assert_eq!(
        alice.cache_key(),
        "gitea_selfhosted_alice@https://gitea.example.com"
    );
}
