use but_gitea::account::GiteaAccountIdentifier;
use but_gitea::forge::{ForgeName, ForgeRepoInfo, ForgeUser, HostedAccount};
use but_gitea::forge_host::normalize_host_for_comparison;
use but_gitea::forge_match::{
    current_forge_login, derive_forge_repo_info, derive_forge_repo_info_for_project,
    derive_forge_repo_info_with_accounts, derive_forge_repo_info_with_forge,
    match_host_to_accounts_custom_host,
};

#[test]
fn derives_supported_forge_repository_urls() {
    let cases = [
        (
            "git@github.com:owner/example.github.io.git",
            ForgeName::GitHub,
            "owner",
            "example.github.io",
            "ssh",
        ),
        (
            "https://github.com/owner/example.github.io.git",
            ForgeName::GitHub,
            "owner",
            "example.github.io",
            "https",
        ),
        (
            "https://github.com/owner/repository.git.git",
            ForgeName::GitHub,
            "owner",
            "repository.git",
            "https",
        ),
        (
            "https://github.com/owner/repo/",
            ForgeName::GitHub,
            "owner",
            "repo",
            "https",
        ),
        (
            "https://gitlab.com/group/subgroup/repo.git",
            ForgeName::GitLab,
            "group/subgroup",
            "repo",
            "https",
        ),
        (
            "git@bitbucket.org:owner/repo.git",
            ForgeName::Bitbucket,
            "owner",
            "repo",
            "ssh",
        ),
        (
            "https://dev.azure.com/org/project/_git/repo",
            ForgeName::Azure,
            "org/project",
            "repo",
            "https",
        ),
        (
            "git@ssh.dev.azure.com:v3/org/project/repo.git",
            ForgeName::Azure,
            "org/project",
            "repo",
            "ssh",
        ),
    ];

    for (url, forge, owner, repo, protocol) in cases {
        let actual = derive_forge_repo_info(url, &[]).unwrap();
        assert_eq!(actual.forge, forge, "forge should be derived from {url}");
        assert_eq!(actual.owner, owner, "owner should be derived from {url}");
        assert_eq!(actual.repo, repo, "repository should be derived from {url}");
        assert_eq!(
            actual.protocol, protocol,
            "protocol should be derived from {url}"
        );
    }
}

#[test]
fn azure_encoded_path_characters_are_not_url_delimiters() {
    for (url, expected_repo) in [
        (
            "https://dev.azure.com/org/project/_git/repo%23one",
            "repo#one",
        ),
        (
            "https://dev.azure.com/org/project/_git/repo%3Fone",
            "repo?one",
        ),
        (
            "https://dev.azure.com/org/project/_git/repo%23one?query=value#fragment",
            "repo#one",
        ),
        (
            "https://dev.azure.com/org/project/_git/repo%2523one",
            "repo%23one",
        ),
        ("git@ssh.dev.azure.com:v3/org/project/repo#one", "repo#one"),
        ("git@ssh.dev.azure.com:v3/org/project/repo?one", "repo?one"),
        (
            "ssh://git@ssh.dev.azure.com/v3/org/project/repo%23one",
            "repo#one",
        ),
    ] {
        let actual = derive_forge_repo_info(url, &[]).unwrap();
        assert_eq!(actual.owner, "org/project", "owner should survive in {url}");
        assert_eq!(
            actual.repo, expected_repo,
            "encoded path characters are not query or fragment delimiters in {url}"
        );
    }
}

#[test]
fn azure_https_organization_can_be_named_v3() {
    let actual = derive_forge_repo_info("https://dev.azure.com/v3/project/_git/repo", &[]).unwrap();
    assert_eq!(actual.forge, ForgeName::Azure, "host identifies Azure");
    assert_eq!(
        actual.owner, "v3/project",
        "v3 is an HTTPS organization, not an SSH path marker"
    );
    assert_eq!(actual.repo, "repo", "repository name should survive");
}

#[test]
fn rejects_non_forge_and_malformed_repository_urls() {
    for url in [
        "../local-repo",
        "file:///tmp/repo",
        "https://github.com/owner",
    ] {
        assert!(
            derive_forge_repo_info(url, &[]).is_none(),
            "{url} does not identify a hosted forge repository"
        );
    }
}

fn github_repo_info() -> ForgeRepoInfo {
    ForgeRepoInfo {
        forge: ForgeName::GitHub,
        owner: "gitbutlerapp".into(),
        repo: "gitbutler".into(),
        protocol: "https".into(),
    }
}

fn gitlab_repo_info() -> ForgeRepoInfo {
    ForgeRepoInfo {
        forge: ForgeName::GitLab,
        owner: "gitbutlerapp".into(),
        repo: "gitbutler".into(),
        protocol: "https".into(),
    }
}

fn github_accounts(usernames: &[&str]) -> Vec<HostedAccount> {
    usernames
        .iter()
        .map(|username| HostedAccount::new("oauth", username, None))
        .collect()
}

fn gitlab_accounts(usernames: &[&str]) -> Vec<HostedAccount> {
    usernames
        .iter()
        .map(|username| HostedAccount::new("pat", username, None))
        .collect()
}

#[test]
fn current_login_uses_the_first_account_without_a_preference() {
    let github = github_accounts(&["alice"]);
    let gitlab = gitlab_accounts(&["alice"]);

    assert_eq!(
        current_forge_login(&None, &github_repo_info(), &github, &[], &[]),
        Some("alice".into()),
        "the GitHub client defaults to the first stored account"
    );
    assert_eq!(
        current_forge_login(&None, &gitlab_repo_info(), &[], &gitlab, &[]),
        Some("alice".into()),
        "the GitLab client defaults to the first stored account"
    );
}

#[test]
fn current_login_uses_the_configured_preferred_account() {
    let github = github_accounts(&["alice", "bob"]);
    let gitlab = gitlab_accounts(&["alice", "bob"]);

    assert_eq!(
        current_forge_login(
            &Some(ForgeUser::GitHub(HostedAccount::new("oauth", "bob", None))),
            &github_repo_info(),
            &github,
            &[],
            &[],
        ),
        Some("bob".into()),
        "a stored preferred account is the one the GitHub client authenticates as"
    );
    assert_eq!(
        current_forge_login(
            &Some(ForgeUser::GitLab(HostedAccount::new("pat", "bob", None))),
            &gitlab_repo_info(),
            &[],
            &gitlab,
            &[],
        ),
        Some("bob".into()),
        "a stored preferred account is the one the GitLab client authenticates as"
    );
}

#[test]
fn current_login_rejects_a_missing_preferred_account() {
    let github = github_accounts(&["alice"]);
    let gitlab = gitlab_accounts(&["alice"]);

    assert_eq!(
        current_forge_login(
            &Some(ForgeUser::GitHub(HostedAccount::new("oauth", "forgotten", None))),
            &github_repo_info(),
            &github,
            &[],
            &[],
        ),
        None,
        "the GitHub client refuses a preferred account gone from storage, so no login is reported"
    );
    assert_eq!(
        current_forge_login(
            &Some(ForgeUser::GitLab(HostedAccount::new("pat", "forgotten", None))),
            &gitlab_repo_info(),
            &[],
            &gitlab,
            &[],
        ),
        None,
        "the GitLab client refuses a preferred account gone from storage, so no login is reported"
    );
}

#[test]
fn matches_github_enterprise_custom_host() {
    let accounts = vec![ForgeUser::GitHub(HostedAccount::new(
        "enterprise",
        "alice",
        Some("gh.example.com"),
    ))];

    assert_eq!(
        match_host_to_accounts_custom_host("gh.example.com", &accounts),
        Some(ForgeName::GitHub)
    );
}

#[test]
fn matches_gitlab_self_hosted_custom_host() {
    let accounts = vec![ForgeUser::GitLab(HostedAccount::new(
        "selfhosted",
        "bob",
        Some("gl.example.com"),
    ))];

    assert_eq!(
        match_host_to_accounts_custom_host("gl.example.com", &accounts),
        Some(ForgeName::GitLab)
    );
}

#[test]
fn matches_gitea_self_hosted_custom_host() {
    let accounts = vec![ForgeUser::Gitea(GiteaAccountIdentifier::selfhosted(
        "bob",
        "https://gitea.example.com",
    ))];

    assert_eq!(
        match_host_to_accounts_custom_host("gitea.example.com", &accounts),
        Some(ForgeName::Gitea)
    );
}

#[test]
fn matches_gitea_when_api_host_matches_remote_and_only_view_url_contains_gitea() {
    let account = GiteaAccountIdentifier::selfhosted_with_view_host(
        "alice",
        "https://git.example.com",
        Some("https://gitea.example.com".to_string()),
    );
    assert!(!account.host().contains("gitea"));
    assert!(account.hosts_contain_gitea_keyword());
    let accounts = vec![ForgeUser::Gitea(account)];

    let info =
        derive_forge_repo_info_with_accounts("https://git.example.com/web/repo.git", &accounts)
            .unwrap();

    assert_eq!(info.forge, ForgeName::Gitea);
}

#[test]
fn derives_gitea_repo_info_after_configured_instance_subpath() {
    let accounts = vec![ForgeUser::Gitea(GiteaAccountIdentifier::selfhosted(
        "alice",
        "https://example.com/git",
    ))];

    let info =
        derive_forge_repo_info_with_accounts("https://example.com/git/org/repo.git", &accounts)
            .expect("repo info");

    assert_eq!(info.forge, ForgeName::Gitea);
    assert_eq!(info.owner, "org");
    assert_eq!(info.repo, "repo");
}

#[test]
fn matches_gitea_when_git_and_web_hosts_share_parent_domain() {
    let account = GiteaAccountIdentifier::selfhosted_with_view_host(
        "alice",
        "https://gitea.example.com",
        Some("https://gitea.example.com".to_string()),
    );
    let accounts = vec![ForgeUser::Gitea(account)];

    let info = derive_forge_repo_info_with_accounts(
        "ssh://git@ssh.example.com:4444/web/repo.git",
        &accounts,
    )
    .expect("repo info");

    assert_eq!(info.forge, ForgeName::Gitea);
    assert_eq!(info.owner, "web");
    assert_eq!(info.repo, "repo");
}

#[test]
fn derives_gitea_repo_info_from_explicit_forge_for_separate_ssh_host() {
    let info = derive_forge_repo_info_with_forge(
        "ssh://git@ssh.example.com:4444/web/repo.git",
        ForgeName::Gitea,
    )
    .expect("repo info");

    assert_eq!(info.forge, ForgeName::Gitea);
    assert_eq!(info.owner, "web");
    assert_eq!(info.repo, "repo");
}

#[test]
fn preferred_gitea_user_does_not_override_github_host_detection() {
    let preferred = ForgeUser::Gitea(GiteaAccountIdentifier::selfhosted(
        "robert.monka",
        "https://gitea.hostarm.com",
    ));
    let info = derive_forge_repo_info_for_project(
        "git@github.com:gitbutlerapp/gitbutler.git",
        None,
        Some(&preferred),
        &[],
    )
    .expect("repo info");

    assert_eq!(info.forge, ForgeName::GitHub);
    assert_eq!(info.owner, "gitbutlerapp");
    assert_eq!(info.repo, "gitbutler");
}

#[test]
fn does_not_match_accounts_without_custom_host() {
    let accounts = vec![
        ForgeUser::GitHub(HostedAccount::new("oauth", "alice", None)),
        ForgeUser::GitHub(HostedAccount::new("pat", "charlie", None)),
        ForgeUser::GitLab(HostedAccount::new("pat", "bob", None)),
    ];

    assert_eq!(
        match_host_to_accounts_custom_host("gh.example.com", &accounts),
        None
    );
}

#[test]
fn returns_none_when_custom_hosts_do_not_match() {
    let accounts = vec![
        ForgeUser::GitHub(HostedAccount::new("enterprise", "alice", Some("gh.example.com"))),
        ForgeUser::GitLab(HostedAccount::new("selfhosted", "bob", Some("gl.example.com"))),
    ];

    assert_eq!(
        match_host_to_accounts_custom_host("no-match.example.com", &accounts),
        None
    );
}

#[test]
fn matches_repository_host_against_custom_host_with_subdomain_and_path() {
    let accounts = vec![ForgeUser::GitLab(HostedAccount::new(
        "selfhosted",
        "bob",
        Some("https://api.repository.com/v1/api"),
    ))];

    assert_eq!(
        match_host_to_accounts_custom_host("repository.com", &accounts),
        Some(ForgeName::GitLab)
    );
}

#[test]
fn matches_repository_host_against_custom_host_with_scheme_port_and_path() {
    let accounts = vec![ForgeUser::GitHub(HostedAccount::new(
        "enterprise",
        "alice",
        Some("https://api.repository.com:8443/v1/api"),
    ))];

    assert_eq!(
        match_host_to_accounts_custom_host("repository.com", &accounts),
        Some(ForgeName::GitHub)
    );
}

#[test]
fn does_not_match_partial_domain_suffixes() {
    let accounts = vec![ForgeUser::GitLab(HostedAccount::new(
        "selfhosted",
        "bob",
        Some("api.notrepository.com/v1"),
    ))];

    assert_eq!(
        match_host_to_accounts_custom_host("repository.com", &accounts),
        None
    );
}

#[test]
fn matches_repository_host_case_insensitively_against_custom_host() {
    let accounts = vec![ForgeUser::GitLab(HostedAccount::new(
        "selfhosted",
        "bob",
        Some("HTTPS://API.REPOSITORY.COM/v1/api"),
    ))];

    assert_eq!(
        match_host_to_accounts_custom_host("Repository.COM", &accounts),
        Some(ForgeName::GitLab)
    );
}

#[test]
fn normalize_host_for_comparison_strips_url_parts_and_normalizes_case() {
    assert_eq!(
        normalize_host_for_comparison("HTTPS://user@API.Repository.com:8443/v1/api?x=1#frag"),
        "api.repository.com"
    );
}

#[test]
fn normalize_host_for_comparison_trims_whitespace_and_trailing_dot() {
    assert_eq!(
        normalize_host_for_comparison("  repository.com.  "),
        "repository.com"
    );
}

#[test]
fn comparable_hosts_ignore_case_and_drop_url_parts() {
    let upper = normalize_host_for_comparison("HTTPS://USER@API.REPOSITORY.COM:8443/V1?X=1#F");
    let lower = normalize_host_for_comparison("https://user@api.repository.com:8443/v1?x=1#f");
    assert_eq!(upper, lower);
    assert_eq!(upper, "api.repository.com");
    for value in ["a@b@Host.Example.:22/x", " Git.Example.COM.. ", "host:port/x"] {
        let h = normalize_host_for_comparison(value);
        assert!(!h.contains(['/', '?', '#', '@']));
        assert!(!h.ends_with('.'));
        assert_eq!(h, h.to_ascii_lowercase());
        assert_eq!(normalize_host_for_comparison(&value.to_ascii_uppercase()), h);
    }
}
