use but_gitea::account::{GiteaAccountIdentifier, Sensitive};
use but_gitea::auth::{
    AuthStatusResponseSensitive, AuthenticatedUserSensitive, CachedProfile,
    CredentialCheckResult, FetchFailure, StoreTokenError, TransportFailure, UserLookupError,
    UserLookupStart, UserLookupStep, after_user_fetch, start_user_lookup, auth_status_response, cached_profile_of,
    classify_fetch_failure, credential_check, is_network_error, lookup_failure,
    normalize_token_hosts, profile_update, token_account, user_from_cached_profile,
};
use but_gitea::host::HostError;
use but_gitea::repository::AuthenticatedUser as ApiUser;

fn alice() -> ApiUser {
    ApiUser {
        username: "alice".to_string(),
        avatar_url: Some("https://gitea.example.com/avatars/1".to_string()),
        name: Some("Alice".to_string()),
        email: Some("alice@example.com".to_string()),
    }
}

fn token(t: &str) -> Sensitive<String> {
    Sensitive(t.to_string())
}

#[test]
fn token_hosts_are_normalized() {
    let (host, view) =
        normalize_token_hosts("gitea.example.com/", Some("https://web.example.com/api/v1/"))
            .unwrap();
    assert_eq!(host, "https://gitea.example.com");
    assert_eq!(view, Some("https://web.example.com".to_string()));
    let (host, view) = normalize_token_hosts("https://gitea.example.com", None).unwrap();
    assert_eq!(host, "https://gitea.example.com");
    assert_eq!(view, None);
}

#[test]
fn token_hosts_that_do_not_normalize_are_refused() {
    let err = normalize_token_hosts("  / ", None).unwrap_err();
    assert_eq!(err, StoreTokenError::InvalidHost(HostError::Empty));
    assert_eq!(err.message(), "Failed to normalize Gitea host");
    let err = normalize_token_hosts("gitea.example.com", Some("   ")).unwrap_err();
    assert_eq!(err, StoreTokenError::InvalidViewHost(HostError::Empty));
    assert_eq!(err.message(), "Failed to normalize Gitea view host");
}

#[test]
fn stored_token_answers_with_user_and_hosts() {
    let account = token_account(&alice(), "https://gitea.example.com", Some("https://web.example.com"));
    assert_eq!(account.username(), "alice");
    assert_eq!(account.host(), "https://gitea.example.com");
    assert_eq!(account.view_host(), Some("https://web.example.com"));

    let response = auth_status_response(
        token("secret"),
        alice(),
        "https://gitea.example.com".to_string(),
        None,
    );
    assert_eq!(response.username, "alice");
    assert_eq!(response.name.as_deref(), Some("Alice"));
    let exposed = AuthStatusResponseSensitive::from(response);
    assert_eq!(exposed.access_token, "secret");
    assert_eq!(exposed.host, "https://gitea.example.com");
    assert_eq!(exposed.email.as_deref(), Some("alice@example.com"));
    assert_eq!(exposed.view_host, None);
}

#[test]
fn profile_cache_is_written_only_when_it_changes() {
    let profile = cached_profile_of(&alice());
    assert!(profile_update(None, cached_profile_of(&alice())).is_some());
    assert!(profile_update(Some(&profile), cached_profile_of(&alice())).is_none());
    let other = CachedProfile { avatar_url: None, name: None, email: None };
    let write = profile_update(Some(&other), cached_profile_of(&alice())).unwrap();
    assert_eq!(write.name.as_deref(), Some("Alice"));
}

#[test]
fn failures_are_classified_network_first() {
    let timeout = TransportFailure { timeout: true, connect: false, request: false };
    let decode = TransportFailure { timeout: false, connect: false, request: false };
    assert!(is_network_error(timeout));
    assert!(!is_network_error(decode));
    assert_eq!(classify_fetch_failure(Some(timeout), None), FetchFailure::Network);
    assert_eq!(classify_fetch_failure(Some(decode), None), FetchFailure::Other);
    assert_eq!(classify_fetch_failure(None, Some(401)), FetchFailure::Status(401));
    assert_eq!(classify_fetch_failure(None, None), FetchFailure::Other);
}

#[test]
fn user_lookup_steps_follow_the_request_outcome() {
    match after_user_fetch(token("t"), Ok(alice())) {
        UserLookupStep::Found { user, profile } => {
            assert_eq!(user.username, "alice");
            assert_eq!(user.access_token.0, "t");
            assert_eq!(profile.email.as_deref(), Some("alice@example.com"));
        }
        _ => panic!("expected the user"),
    }
    assert!(matches!(
        after_user_fetch(token("t"), Err(FetchFailure::Network)),
        UserLookupStep::ReadCachedProfile
    ));
    assert!(matches!(
        after_user_fetch(token("t"), Err(FetchFailure::Status(401))),
        UserLookupStep::Failed { clear_cached_profile: true }
    ));
    assert!(matches!(
        after_user_fetch(token("t"), Err(FetchFailure::Status(403))),
        UserLookupStep::Failed { clear_cached_profile: true }
    ));
    assert!(matches!(
        after_user_fetch(token("t"), Err(FetchFailure::Status(500))),
        UserLookupStep::Failed { clear_cached_profile: false }
    ));
    assert!(matches!(
        after_user_fetch(token("t"), Err(FetchFailure::Other)),
        UserLookupStep::Failed { clear_cached_profile: false }
    ));
}

#[test]
fn offline_lookup_answers_from_the_cached_profile() {
    let account = GiteaAccountIdentifier::selfhosted("alice", "https://gitea.example.com");
    let online = match after_user_fetch(token("t"), Ok(alice())) {
        UserLookupStep::Found { user, profile } => (user, profile),
        _ => panic!("expected the user"),
    };
    let offline = user_from_cached_profile(&account, token("t"), Some(online.1)).unwrap();
    assert_eq!(offline.username, online.0.username);
    assert_eq!(offline.avatar_url, online.0.avatar_url);
    assert_eq!(offline.name, online.0.name);
    assert_eq!(offline.email, online.0.email);
    let exposed = AuthenticatedUserSensitive::from(offline);
    assert_eq!(exposed.access_token, "t");

    let err = user_from_cached_profile(&account, token("t"), None).err().unwrap();
    assert_eq!(err, UserLookupError::NetworkUnavailable);
    assert_eq!(err.message(), "Unable to connect to Gitea.");
}

#[test]
fn failed_lookups_report_network_or_request_errors() {
    assert_eq!(lookup_failure(FetchFailure::Network), UserLookupError::NetworkUnavailable);
    assert_eq!(lookup_failure(FetchFailure::Status(401)), UserLookupError::RequestFailed);
    assert_eq!(
        UserLookupError::RequestFailed.message(),
        "Failed to get authenticated Gitea user"
    );
}

#[test]
fn credentials_are_checked_against_the_instance() {
    assert_eq!(credential_check(None), Ok(CredentialCheckResult::NoCredentials));
    assert_eq!(credential_check(Some(Ok(()))), Ok(CredentialCheckResult::Valid));
    assert_eq!(
        credential_check(Some(Err(FetchFailure::Status(401)))),
        Ok(CredentialCheckResult::Invalid)
    );
    assert_eq!(
        credential_check(Some(Err(FetchFailure::Other))),
        Ok(CredentialCheckResult::Invalid)
    );
    assert_eq!(
        credential_check(Some(Err(FetchFailure::Network))),
        Err(UserLookupError::NetworkUnavailable)
    );
}

#[test]
fn no_stored_token_means_no_user_and_no_request() {
    assert!(matches!(start_user_lookup(None), UserLookupStart::NoCredentials));
    match start_user_lookup(Some(token("t"))) {
        UserLookupStart::Fetch(t) => assert_eq!(t.0, "t"),
        UserLookupStart::NoCredentials => panic!("expected a request"),
    }
}
