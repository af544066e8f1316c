//! Signing in to a self-hosted Gitea instance and reading back who is signed
//! in: the decisions taken around the authenticated-user request and the
//! offline profile cache.
use vstd::prelude::*;
use crate::account::{
    GiteaAccountIdentifier, GiteaAccountView, Sensitive, copy_opt_string, eq_opt_string, opt_view,
};
use crate::host::{HostError, normalize_host, normalized_host};
use crate::repository::AuthenticatedUser as ApiUser;

verus! {

broadcast use vstd::string::group_string_axioms;

// ---------------------------------------------------------------------------
// Results handed to callers
// ---------------------------------------------------------------------------

/// The result of storing a Gitea access token.
pub struct AuthStatusResponse {
    /// The access token.
    pub access_token: Sensitive<String>,
    /// The Gitea username.
    pub username: String,
    /// The user's display name, if available.
    pub name: Option<String>,
    /// The user's email address, if available.
    pub email: Option<String>,
    /// The normalized Gitea API instance URL.
    pub host: String,
    /// Optional web UI base URL for browser links.
    pub view_host: Option<String>,
}

/// An authenticated Gitea user with credentials.
pub struct AuthenticatedUser {
    /// The access token.
    pub access_token: Sensitive<String>,
    /// The Gitea username.
    pub username: String,
    /// URL to the user's avatar image, if available.
    pub avatar_url: Option<String>,
    /// The user's display name, if available.
    pub name: Option<String>,
    /// The user's email address, if available.
    pub email: Option<String>,
}

/// The abstract content of an [`AuthenticatedUser`].
pub struct AuthenticatedUserView {
    pub access_token: Seq<char>,
    pub username: Seq<char>,
    pub avatar_url: Option<Seq<char>>,
    pub name: Option<Seq<char>>,
    pub email: Option<Seq<char>>,
}

impl View for AuthenticatedUser {
    type V = AuthenticatedUserView;

    open spec fn view(&self) -> AuthenticatedUserView {
        AuthenticatedUserView {
            access_token: self.access_token.0@,
            username: self.username@,
            avatar_url: opt_view(self.avatar_url),
            name: opt_view(self.name),
            email: opt_view(self.email),
        }
    }
}

/// Credential validity for a stored Gitea account.
#[derive(Debug, Clone, Copy, PartialEq, Eq, Structural)]
pub enum CredentialCheckResult {
    /// The token is present and accepted by Gitea.
    Valid,
    /// The token is present but rejected by Gitea.
    Invalid,
    /// No token is stored for the account.
    NoCredentials,
}

/// [`AuthStatusResponse`] with the access token exposed as plain text.
pub struct AuthStatusResponseSensitive {
    /// The Gitea access token as a plain string.
    pub access_token: String,
    /// The Gitea username.
    pub username: String,
    /// The user's display name, if available.
    pub name: Option<String>,
    /// The user's email address, if available.
    pub email: Option<String>,
    /// The normalized Gitea API instance URL.
    pub host: String,
    /// Optional web UI base URL for browser links.
    pub view_host: Option<String>,
}

impl From<AuthStatusResponse> for AuthStatusResponseSensitive {
    fn from(r: AuthStatusResponse) -> (s: Self) {
        AuthStatusResponseSensitive {
            access_token: r.access_token.0,
            username: r.username,
            name: r.name,
            email: r.email,
            host: r.host,
            view_host: r.view_host,
        }
    }
}

impl vstd::std_specs::convert::FromSpecImpl<AuthStatusResponse> for AuthStatusResponseSensitive {
    open spec fn obeys_from_spec() -> bool {
        true
    }

    open spec fn from_spec(r: AuthStatusResponse) -> Self {
        AuthStatusResponseSensitive {
            access_token: r.access_token.0,
            username: r.username,
            name: r.name,
            email: r.email,
            host: r.host,
            view_host: r.view_host,
        }
    }
}

/// [`AuthenticatedUser`] with the access token exposed as plain text.
pub struct AuthenticatedUserSensitive {
    /// The Gitea access token as a plain string.
    pub access_token: String,
    /// The Gitea username.
    pub username: String,
    /// URL to the user's avatar image, if available.
    pub avatar_url: Option<String>,
    /// The user's display name, if available.
    pub name: Option<String>,
    /// The user's email address, if available.
    pub email: Option<String>,
}

impl From<AuthenticatedUser> for AuthenticatedUserSensitive {
    fn from(u: AuthenticatedUser) -> (s: Self) {
        AuthenticatedUserSensitive {
            access_token: u.access_token.0,
            username: u.username,
            avatar_url: u.avatar_url,
            name: u.name,
            email: u.email,
        }
    }
}

impl vstd::std_specs::convert::FromSpecImpl<AuthenticatedUser> for AuthenticatedUserSensitive {
    open spec fn obeys_from_spec() -> bool {
        true
    }

    open spec fn from_spec(u: AuthenticatedUser) -> Self {
        AuthenticatedUserSensitive {
            access_token: u.access_token.0,
            username: u.username,
            avatar_url: u.avatar_url,
            name: u.name,
            email: u.email,
        }
    }
}

// ---------------------------------------------------------------------------
// Storing a personal access token
// ---------------------------------------------------------------------------

/// Why a personal access token cannot be stored.
#[derive(Debug, Clone, Copy, PartialEq, Eq)]
pub enum StoreTokenError {
    /// The API host does not normalize.
    InvalidHost(HostError),
    /// The web UI host does not normalize.
    InvalidViewHost(HostError),
}

impl StoreTokenError {
    /// The message the error is reported with.
    pub fn message(&self) -> (r: String)
        ensures
            r@ == store_token_error_text(*self),
    {
        match self {
            StoreTokenError::InvalidHost(_) => "Failed to normalize Gitea host".to_string(),
            StoreTokenError::InvalidViewHost(_) => "Failed to normalize Gitea view host".to_string(),
        }
    }
}

pub open spec fn store_token_error_text(e: StoreTokenError) -> Seq<char> {
    match e {
        StoreTokenError::InvalidHost(_) => "Failed to normalize Gitea host"@,
        StoreTokenError::InvalidViewHost(_) => "Failed to normalize Gitea view host"@,
    }
}

/// The API host and the optional web UI host a token is stored under, both
/// normalized; the API host is checked first.
pub fn normalize_token_hosts(host: &str, view_host: Option<&str>) -> (r: Result<
    (String, Option<String>),
    StoreTokenError,
>)
    ensures
        match r {
            Ok((h, v)) => {
                &&& normalized_host(host@) == Ok::<Seq<char>, HostError>(h@)
                &&& match view_host {
                    Some(vh) => v is Some && normalized_host(vh@) == Ok::<Seq<char>, HostError>(
                        v->0@,
                    ),
                    None => v is None,
                }
            },
            Err(StoreTokenError::InvalidHost(e)) => normalized_host(host@) == Err::<
                Seq<char>,
                HostError,
            >(e),
            Err(StoreTokenError::InvalidViewHost(e)) => {
                &&& normalized_host(host@) is Ok
                &&& view_host is Some
                &&& normalized_host(view_host->0@) == Err::<Seq<char>, HostError>(e)
            },
        },
{
    let h = match normalize_host(host) {
        Ok(h) => h,
        Err(e) => return Err(StoreTokenError::InvalidHost(e)),
    };
    let v = match view_host {
        Some(vh) => match normalize_host(vh) {
            Ok(n) => Some(n),
            Err(e) => return Err(StoreTokenError::InvalidViewHost(e)),
        },
        None => None,
    };
    Ok((h, v))
}

/// The account a token is stored under: the user the token authenticates
/// as, on the normalized hosts.
pub fn token_account(user: &ApiUser, host: &str, view_host: Option<&str>) -> (r:
    GiteaAccountIdentifier)
    ensures
        r@ == (GiteaAccountView {
            username: user.username@,
            host: crate::account::host_identity(host@),
            view_host: crate::account::view_host_identity(
                match view_host {
                    Some(v) => Some(v@),
                    None => None,
                },
            ),
        }),
{
    let v = match view_host {
        Some(s) => Some(s.to_string()),
        None => None,
    };
    GiteaAccountIdentifier::selfhosted_with_view_host(user.username.as_str(), host, v)
}

/// The answer to storing a token: the token, who it authenticates as, and
/// the hosts it was stored under.
pub fn auth_status_response(
    access_token: Sensitive<String>,
    user: ApiUser,
    host: String,
    view_host: Option<String>,
) -> (r: AuthStatusResponse)
    ensures
        r.access_token.0@ == access_token.0@,
        r.username@ == user.username@,
        opt_view(r.name) == opt_view(user.name),
        opt_view(r.email) == opt_view(user.email),
        r.host@ == host@,
        opt_view(r.view_host) == opt_view(view_host),
{
    AuthStatusResponse {
        access_token,
        username: user.username,
        name: user.name,
        email: user.email,
        host,
        view_host,
    }
}

// ---------------------------------------------------------------------------
// The offline profile cache
// ---------------------------------------------------------------------------

/// The profile kept per account so that it is available offline.
pub struct CachedProfile {
    /// URL to the user's avatar image, if available.
    pub avatar_url: Option<String>,
    /// The user's display name, if available.
    pub name: Option<String>,
    /// The user's email address, if available.
    pub email: Option<String>,
}

/// The abstract content of a [`CachedProfile`].
pub struct ProfileView {
    pub avatar_url: Option<Seq<char>>,
    pub name: Option<Seq<char>>,
    pub email: Option<Seq<char>>,
}

impl View for CachedProfile {
    type V = ProfileView;

    open spec fn view(&self) -> ProfileView {
        ProfileView {
            avatar_url: opt_view(self.avatar_url),
            name: opt_view(self.name),
            email: opt_view(self.email),
        }
    }
}

/// The profile of a user the API returned.
pub open spec fn profile_of(user: ApiUser) -> ProfileView {
    ProfileView {
        avatar_url: opt_view(user.avatar_url),
        name: opt_view(user.name),
        email: opt_view(user.email),
    }
}

/// The profile to cache for a user the API returned.
pub fn cached_profile_of(user: &ApiUser) -> (r: CachedProfile)
    ensures
        r@ == profile_of(*user),
{
    CachedProfile {
        avatar_url: copy_opt_string(&user.avatar_url),
        name: copy_opt_string(&user.name),
        email: copy_opt_string(&user.email),
    }
}

/// The write the cache needs to hold `profile`: none when the cached
/// profile already equals it, otherwise the profile itself.
pub fn profile_update(existing: Option<&CachedProfile>, profile: CachedProfile) -> (r: Option<
    CachedProfile,
>)
    ensures
        match r {
            Some(w) => profile_write(
                match existing {
                    Some(e) => Some(e@),
                    None => None,
                },
                profile@,
            ) == Some(w@),
            None => profile_write(
                match existing {
                    Some(e) => Some(e@),
                    None => None,
                },
                profile@,
            ) is None,
        },
{
    match existing {
        Some(e) => {
            if eq_opt_string(&e.avatar_url, &profile.avatar_url) && eq_opt_string(
                &e.name,
                &profile.name,
            ) && eq_opt_string(&e.email, &profile.email) {
                None
            } else {
                Some(profile)
            }
        },
        None => Some(profile),
    }
}

// ---------------------------------------------------------------------------
// Reading back the authenticated user
// ---------------------------------------------------------------------------

/// What an authenticated-user request that failed tells apart.
#[derive(Debug, Clone, Copy, PartialEq, Eq, Structural)]
pub enum FetchFailure {
    /// The instance could not be reached (a timeout, a refused connection,
    /// or a request that could not be sent).
    Network,
    /// The instance answered with this HTTP status.
    Status(u16),
    /// Anything else, such as a body that does not decode.
    Other,
}

/// Transport-level facts about a failed request.
#[derive(Debug, Clone, Copy, PartialEq, Eq, Structural)]
pub struct TransportFailure {
    /// The request timed out.
    pub timeout: bool,
    /// The connection could not be made.
    pub connect: bool,
    /// The request could not be sent.
    pub request: bool,
}

/// A transport failure is a network failure when it timed out, could not
/// connect, or could not send the request.
pub fn is_network_error(failure: TransportFailure) -> (r: bool)
    ensures
        r == (failure.timeout || failure.connect || failure.request),
{
    failure.timeout || failure.connect || failure.request
}

/// How a failed request is treated: a network failure first; otherwise the
/// HTTP status the instance answered with; otherwise any other failure.
pub fn classify_fetch_failure(transport: Option<TransportFailure>, http_status: Option<u16>) -> (r:
    FetchFailure)
    ensures
        r == (if transport is Some && is_network_failure(transport->0) {
            FetchFailure::Network
        } else if http_status is Some {
            FetchFailure::Status(http_status->0)
        } else {
            FetchFailure::Other
        }),
{
    match transport {
        Some(t) => {
            if is_network_error(t) {
                return FetchFailure::Network;
            }
        },
        None => {},
    }
    match http_status {
        Some(s) => FetchFailure::Status(s),
        None => FetchFailure::Other,
    }
}

pub open spec fn is_network_failure(failure: TransportFailure) -> bool {
    failure.timeout || failure.connect || failure.request
}

/// Why the authenticated user could not be read back.
#[derive(Debug, Clone, Copy, PartialEq, Eq, Structural)]
pub enum UserLookupError {
    /// The instance is unreachable and no profile is cached.
    NetworkUnavailable,
    /// The instance answered, but not with the user.
    RequestFailed,
}

impl UserLookupError {
    /// The message the error is reported with.
    pub fn message(&self) -> (r: String)
        ensures
            r@ == user_lookup_error_text(*self),
    {
        match self {
            UserLookupError::NetworkUnavailable => "Unable to connect to Gitea.".to_string(),
            UserLookupError::RequestFailed => "Failed to get authenticated Gitea user".to_string(),
        }
    }
}

pub open spec fn user_lookup_error_text(e: UserLookupError) -> Seq<char> {
    match e {
        UserLookupError::NetworkUnavailable => "Unable to connect to Gitea."@,
        UserLookupError::RequestFailed => "Failed to get authenticated Gitea user"@,
    }
}

/// What follows the authenticated-user request.
pub enum UserLookupStep {
    /// The instance returned the user: cache `profile`, answer `user`.
    Found { user: AuthenticatedUser, profile: CachedProfile },
    /// The instance is unreachable: read the cached profile and continue
    /// with [`user_from_cached_profile`].
    ReadCachedProfile,
    /// The request failed; the cached profile is cleared first when the
    /// token was rejected.
    Failed { clear_cached_profile: bool },
}

/// How reading back the user of an account starts.
pub enum UserLookupStart {
    /// No token is stored: there is no user, and no request is sent.
    NoCredentials,
    /// Ask the instance for the user with this token.
    Fetch(Sensitive<String>),
}

/// The start of reading back the user of an account from the token stored
/// for it, if any.
pub fn start_user_lookup(stored_token: Option<Sensitive<String>>) -> (r: UserLookupStart)
    ensures
        match stored_token {
            None => r is NoCredentials,
            Some(t) => r matches UserLookupStart::Fetch(f) && f.0@ == t.0@,
        },
{
    match stored_token {
        None => UserLookupStart::NoCredentials,
        Some(t) => UserLookupStart::Fetch(t),
    }
}

/// The user as the instance returned it, with the token it was read with.
pub open spec fn online_user(access_token: Seq<char>, user: ApiUser) -> AuthenticatedUserView {
    AuthenticatedUserView {
        access_token,
        username: user.username@,
        avatar_url: opt_view(user.avatar_url),
        name: opt_view(user.name),
        email: opt_view(user.email),
    }
}

/// The user as the cache remembers it: the account's username with the
/// cached profile.
pub open spec fn offline_user(
    account: GiteaAccountView,
    access_token: Seq<char>,
    profile: ProfileView,
) -> AuthenticatedUserView {
    AuthenticatedUserView {
        access_token,
        username: account.username,
        avatar_url: profile.avatar_url,
        name: profile.name,
        email: profile.email,
    }
}

/// An HTTP status that means the token was rejected: 401 or 403.
pub open spec fn rejects_token(status: u16) -> bool {
    status == 401 || status == 403
}

/// The step after the authenticated-user request for an account whose
/// token is `access_token`.
pub fn after_user_fetch(access_token: Sensitive<String>, fetched: Result<ApiUser, FetchFailure>) -> (r:
    UserLookupStep)
    ensures
        match fetched {
            Ok(u) => r matches UserLookupStep::Found { user, profile } && user@ == online_user(
                access_token.0@,
                u,
            ) && profile@ == profile_of(u),
            Err(FetchFailure::Network) => r is ReadCachedProfile,
            Err(FetchFailure::Status(s)) => r matches UserLookupStep::Failed {
                clear_cached_profile,
            } && clear_cached_profile == rejects_token(s),
            Err(FetchFailure::Other) => r matches UserLookupStep::Failed { clear_cached_profile }
                && !clear_cached_profile,
        },
{
    match fetched {
        Ok(u) => {
            let profile = cached_profile_of(&u);
            UserLookupStep::Found {
                user: AuthenticatedUser {
                    access_token,
                    username: u.username,
                    avatar_url: u.avatar_url,
                    name: u.name,
                    email: u.email,
                },
                profile,
            }
        },
        Err(FetchFailure::Network) => UserLookupStep::ReadCachedProfile,
        Err(FetchFailure::Status(s)) => UserLookupStep::Failed {
            clear_cached_profile: s == 401 || s == 403,
        },
        Err(FetchFailure::Other) => UserLookupStep::Failed { clear_cached_profile: false },
    }
}

/// The answer when the instance is unreachable: the cached profile under the
/// account's username, or a network error when nothing is cached.
pub fn user_from_cached_profile(
    account: &GiteaAccountIdentifier,
    access_token: Sensitive<String>,
    cached: Option<CachedProfile>,
) -> (r: Result<AuthenticatedUser, UserLookupError>)
    ensures
        match cached {
            Some(p) => r is Ok && r->Ok_0@ == offline_user(account@, access_token.0@, p@),
            None => r == Err::<AuthenticatedUser, UserLookupError>(
                UserLookupError::NetworkUnavailable,
            ),
        },
{
    match cached {
        Some(p) => Ok(
            AuthenticatedUser {
                access_token,
                username: account.username().to_string(),
                avatar_url: p.avatar_url,
                name: p.name,
                email: p.email,
            },
        ),
        None => Err(UserLookupError::NetworkUnavailable),
    }
}

/// What a failed lookup answers: a network error when the instance was
/// unreachable, a request failure otherwise.
pub fn lookup_failure(failure: FetchFailure) -> (r: UserLookupError)
    ensures
        r == (if failure is Network {
            UserLookupError::NetworkUnavailable
        } else {
            UserLookupError::RequestFailed
        }),
{
    match failure {
        FetchFailure::Network => UserLookupError::NetworkUnavailable,
        _ => UserLookupError::RequestFailed,
    }
}

/// What a stored token is worth: no token means no credentials; a token the
/// instance accepts is valid; an unreachable instance is an error; any other
/// failure means the token is invalid.
pub fn credential_check(outcome: Option<Result<(), FetchFailure>>) -> (r: Result<
    CredentialCheckResult,
    UserLookupError,
>)
    ensures
        r == match outcome {
            None => Ok::<CredentialCheckResult, UserLookupError>(
                CredentialCheckResult::NoCredentials,
            ),
            Some(Ok(())) => Ok(CredentialCheckResult::Valid),
            Some(Err(FetchFailure::Network)) => Err(UserLookupError::NetworkUnavailable),
            Some(Err(_)) => Ok(CredentialCheckResult::Invalid),
        },
{
    match outcome {
        None => Ok(CredentialCheckResult::NoCredentials),
        Some(Ok(())) => Ok(CredentialCheckResult::Valid),
        Some(Err(FetchFailure::Network)) => Err(UserLookupError::NetworkUnavailable),
        Some(Err(_)) => Ok(CredentialCheckResult::Invalid),
    }
}

/// What an online lookup answered, an offline lookup answers again from the
/// profile it cached, as long as the account is the one the user signed in
/// as: the offline answer equals the online one.
pub proof fn law_offline_lookup_repeats_online_lookup(
    account: GiteaAccountView,
    access_token: Seq<char>,
    user: ApiUser,
)
    requires
        account.username == user.username@,
    ensures
        offline_user(account, access_token, profile_of(user)) == online_user(access_token, user),
{
}

/// The cache write that holding `profile` takes, over views: none when the
/// cache already holds it.
pub open spec fn profile_write(existing: Option<ProfileView>, profile: ProfileView) -> Option<
    ProfileView,
> {
    if existing == Some(profile) {
        None
    } else {
        Some(profile)
    }
}

/// The cached profile after a write, if any, was applied.
pub open spec fn after_write(existing: Option<ProfileView>, write: Option<ProfileView>) -> Option<
    ProfileView,
> {
    match write {
        Some(w) => Some(w),
        None => existing,
    }
}

/// Caching a profile leaves the cache holding it, and caching the same
/// profile again writes nothing.
pub proof fn law_profile_caching_is_idempotent(existing: Option<ProfileView>, profile: ProfileView)
    ensures
        after_write(existing, profile_write(existing, profile)) == Some(profile),
        profile_write(after_write(existing, profile_write(existing, profile)), profile) is None,
{
}

} // verus!
