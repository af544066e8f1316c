use but_gitea::account::{
    GiteaAccount, GiteaAccountIdentifier, Sensitive, StoredGiteaAccount, identifiers_of,
    next_stored_account_for, stored_account_for_identifier,
};
use but_gitea::forge::{ForgeName, ForgeUser};
use but_gitea::pull_request::{GiteaApiPullRef, GiteaPullRequest, PullRequest, append_page};

fn stored(username: &str, host: &str) -> StoredGiteaAccount {
    StoredGiteaAccount {
        username: username.to_string(),
        host: host.to_string(),
        view_host: None,
        access_token_key: format!("gitea_selfhosted_{username}@{host}"),
    }
}

#[test]
fn stored_accounts_list_as_identifiers() {
    let accounts = vec![
        stored("alice", "https://gitea.example.com"),
        stored("bob", "https://gitea.internal"),
    ];
    let ids = identifiers_of(&accounts);
    assert_eq!(ids.len(), 2);
    assert_eq!(ids[0].username(), "alice");
    assert_eq!(ids[1].host(), "https://gitea.internal");
    assert_eq!(ids[1].view_host(), None);
}

#[test]
fn token_lookup_visits_matching_accounts_in_order() {
    let accounts = vec![
        stored("alice", "https://gitea.example.com"),
        stored("bob", "https://gitea.example.com"),
        stored("alice", "https://gitea.example.com"),
    ];
    let alice = GiteaAccountIdentifier::selfhosted("alice", "https://gitea.example.com");
    assert_eq!(next_stored_account_for(&accounts, &alice, 0), Some(0));
    assert_eq!(next_stored_account_for(&accounts, &alice, 1), Some(2));
    assert_eq!(next_stored_account_for(&accounts, &alice, 3), None);
    let carol = GiteaAccountIdentifier::selfhosted("carol", "https://gitea.example.com");
    assert_eq!(next_stored_account_for(&accounts, &carol, 0), None);
}

#[test]
fn stored_records_key_tokens_by_cache_key() {
    let id = GiteaAccountIdentifier::selfhosted("alice", "gitea.example.com/");
    let account = GiteaAccount::new(&id, Sensitive("t".to_string()));
    let record = account.to_stored();
    assert_eq!(record.access_token_key, "gitea_selfhosted_alice@https://gitea.example.com");
    assert_eq!(record.access_token_key, stored_account_for_identifier(&id).access_token_key);
    let back = record.with_token(Sensitive("t".to_string()));
    assert_eq!(back.access_token().0, "t");
}

#[test]
fn legacy_preferred_user_is_a_github_oauth_username() {
    let user = ForgeUser::from_legacy_username("octocat");
    assert_eq!(user.forge_name(), ForgeName::GitHub);
    let github = user.github().unwrap();
    assert_eq!(github.kind, "oauth");
    assert_eq!(github.username, "octocat");
    assert_eq!(github.custom_host, None);
}

fn api_pull(number: i64, title: &str, base: &str) -> GiteaPullRequest {
    GiteaPullRequest {
        html_url: format!("https://gitea.example.com/o/r/pulls/{number}"),
        number,
        title: title.to_string(),
        body: None,
        user: None,
        labels: None,
        draft: None,
        head: Some(GiteaApiPullRef {
            name: Some("feature".to_string()),
            ref_: None,
            sha: Some("abc".to_string()),
            repo: None,
        }),
        base: Some(GiteaApiPullRef {
            name: None,
            ref_: Some(base.to_string()),
            sha: None,
            repo: None,
        }),
        created_at: None,
        updated_at: None,
        merged_at: None,
        closed_at: None,
        requested_reviewers: None,
        mergeable: Some(true),
        comments: 2,
    }
}

#[test]
fn pages_are_appended_in_order() {
    let mut pulls: Vec<PullRequest> = Vec::new();
    append_page(&mut pulls, vec![api_pull(1, "WIP: one", "main"), api_pull(2, "two", "dev")]);
    append_page(&mut pulls, vec![api_pull(3, "three", "main")]);
    assert_eq!(pulls.len(), 3);
    assert_eq!(pulls[0].number, 1);
    assert!(pulls[0].draft);
    assert!(!pulls[1].draft);
    assert_eq!(pulls[1].target_branch, "dev");
    assert_eq!(pulls[2].source_branch, "feature");
    assert_eq!(pulls[2].sha, "abc");
    assert_eq!(pulls[2].comments_count, 2);
}
