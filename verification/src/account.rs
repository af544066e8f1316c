//! Gitea account identifiers, token-bearing accounts, and the choice of the
//! account that review operations act as.
use vstd::prelude::*;
use crate::host::{normalize_host, normalized_host};
use crate::text::{chars_of, concat, contains, contains_chars, eq_chars, string_from_chars};

verus! {

broadcast use vstd::string::group_string_axioms;

/// A secret value (an access token) that is never shown in logs.
pub struct Sensitive<T>(pub T);

/// The abstract content of a [`GiteaAccountIdentifier`].
pub struct GiteaAccountView {
    pub username: Seq<char>,
    pub host: Seq<char>,
    pub view_host: Option<Seq<char>>,
}

/// A stored Gitea account identifier.
#[derive(Debug)]
pub enum GiteaAccountIdentifier {
    /// A personal access token for a self-hosted Gitea instance.
    SelfHosted {
        /// The Gitea username.
        username: String,
        /// The normalized Gitea API instance URL.
        host: String,
        /// Optional web UI base URL for browser links when it differs from `host`.
        view_host: Option<String>,
    },
}

pub open spec fn opt_view(o: Option<String>) -> Option<Seq<char>> {
    match o {
        Some(s) => Some(s@),
        None => None,
    }
}

impl View for GiteaAccountIdentifier {
    type V = GiteaAccountView;

    open spec fn view(&self) -> GiteaAccountView {
        match self {
            GiteaAccountIdentifier::SelfHosted { username, host, view_host } => GiteaAccountView {
                username: username@,
                host: host@,
                view_host: opt_view(*view_host),
            },
        }
    }
}

impl Clone for GiteaAccountIdentifier {
    fn clone(&self) -> (r: Self)
        ensures
            r@ == self@,
    {
        match self {
            GiteaAccountIdentifier::SelfHosted { username, host, view_host } => {
                let view_host = match view_host {
                    Some(v) => Some(v.clone()),
                    None => None,
                };
                GiteaAccountIdentifier::SelfHosted {
                    username: username.clone(),
                    host: host.clone(),
                    view_host,
                }
            },
        }
    }
}

/// A host in the form accounts are compared by: its normalized form where
/// it normalizes, otherwise the text as given.
pub open spec fn host_identity(host: Seq<char>) -> Seq<char> {
    match normalized_host(host) {
        Ok(n) => n,
        Err(_) => host,
    }
}

/// The normalized web UI host, dropped where it does not normalize.
pub open spec fn view_host_identity(view_host: Option<Seq<char>>) -> Option<Seq<char>> {
    match view_host {
        Some(v) => match normalized_host(v) {
            Ok(n) => Some(n),
            Err(_) => None,
        },
        None => None,
    }
}

/// `gitea_selfhosted_`
pub open spec fn cache_key_prefix() -> Seq<char> {
    "gitea_selfhosted_"@
}

/// The key of the cached profile and of the stored token of an account:
/// `gitea_selfhosted_{username}@{host}`.
pub open spec fn cache_key_of(username: Seq<char>, host: Seq<char>) -> Seq<char> {
    cache_key_prefix() + username + seq!['@'] + host
}

/// `gitea`
pub open spec fn gitea_word() -> Seq<char> {
    seq!['g', 'i', 't', 'e', 'a']
}

/// Either URL mentions `gitea`.
pub open spec fn hosts_mention_gitea(api_host: Seq<char>, view_host: Option<Seq<char>>) -> bool {
    contains(api_host, gitea_word()) || (view_host matches Some(v) && contains(v, gitea_word()))
}

/// Two identifiers name the same account: same username, and hosts equal
/// once normalized.
pub open spec fn same_identity(left: GiteaAccountView, right: GiteaAccountView) -> bool {
    left.username == right.username && host_identity(left.host) == host_identity(right.host)
}

/// The text an identifier is shown as: `Self-hosted {username}@{host}`.
pub open spec fn identifier_text(id: GiteaAccountView) -> Seq<char> {
    "Self-hosted "@ + id.username + seq!['@'] + id.host
}

fn copy_string(s: &String) -> (r: String)
    ensures
        r@ == s@,
{
    s.clone()
}

/// `host`, normalized where it normalizes, otherwise as given.
fn host_identity_of(host: &str) -> (r: String)
    ensures
        r@ == host_identity(host@),
{
    match normalize_host(host) {
        Ok(n) => n,
        Err(_) => host.to_string(),
    }
}

/// Returns true when either the API or view URL contains `gitea`.
pub fn hosts_contain_gitea_keyword(api_host: &str, view_host: Option<&str>) -> (r: bool)
    ensures
        r == hosts_mention_gitea(
            api_host@,
            match view_host {
                Some(v) => Some(v@),
                None => None,
            },
        ),
{
    let word = chars_of("gitea");
    proof {
        reveal_strlit("gitea");
        assert(word@ =~= gitea_word());
    }
    if contains_chars(&chars_of(api_host), &word) {
        return true;
    }
    match view_host {
        Some(v) => contains_chars(&chars_of(v), &word),
        None => false,
    }
}

impl GiteaAccountIdentifier {
    /// Create a self-hosted Gitea account identifier.
    pub fn selfhosted(username: &str, host: &str) -> (r: Self)
        ensures
            r@ == (GiteaAccountView {
                username: username@,
                host: host_identity(host@),
                view_host: None,
            }),
    {
        Self::selfhosted_with_view_host(username, host, None)
    }

    /// Create a self-hosted Gitea account identifier with a separate web UI URL.
    /// The host is normalized where it normalizes; a view host that does not
    /// normalize is dropped.
    pub fn selfhosted_with_view_host(username: &str, host: &str, view_host: Option<String>) -> (r:
        Self)
        ensures
            r@ == (GiteaAccountView {
                username: username@,
                host: host_identity(host@),
                view_host: view_host_identity(opt_view(view_host)),
            }),
    {
        let view_host = match view_host {
            Some(v) => match normalize_host(v.as_str()) {
                Ok(n) => Some(n),
                Err(_) => None,
            },
            None => None,
        };
        GiteaAccountIdentifier::SelfHosted {
            username: username.to_string(),
            host: host_identity_of(host),
            view_host,
        }
    }

    /// The account username.
    pub fn username(&self) -> (r: &str)
        ensures
            r@ == self@.username,
    {
        match self {
            GiteaAccountIdentifier::SelfHosted { username, .. } => username.as_str(),
        }
    }

    /// The normalized API instance URL.
    pub fn host(&self) -> (r: &str)
        ensures
            r@ == self@.host,
    {
        match self {
            GiteaAccountIdentifier::SelfHosted { host, .. } => host.as_str(),
        }
    }

    /// The normalized web UI base URL, if configured.
    pub fn view_host(&self) -> (r: Option<&str>)
        ensures
            match r {
                Some(v) => self@.view_host == Some(v@),
                None => self@.view_host is None,
            },
    {
        match self {
            GiteaAccountIdentifier::SelfHosted { view_host, .. } => match view_host {
                Some(v) => Some(v.as_str()),
                None => None,
            },
        }
    }

    /// The key used to store and look up the cached profile for this account.
    pub fn cache_key(&self) -> (r: String)
        ensures
            r@ == cache_key_of(self@.username, self@.host),
    {
        let prefix = chars_of("gitea_selfhosted_");
        let at = chars_of("@");
        proof {
            reveal_strlit("@");
            assert(at@ =~= seq!['@']);
        }
        let user = chars_of(self.username());
        let host = chars_of(self.host());
        let key = concat(&concat(&concat(&prefix, &user), &at), &host);
        string_from_chars(&key)
    }

    /// The custom forge host of this account: its API instance URL.
    pub fn custom_host(&self) -> (r: Option<String>)
        ensures
            r matches Some(h) && h@ == self@.host,
    {
        Some(self.host().to_string())
    }

    /// Whether the API or web UI URL contains the `gitea` hostname marker.
    pub fn hosts_contain_gitea_keyword(&self) -> (r: bool)
        ensures
            r == hosts_mention_gitea(self@.host, self@.view_host),
    {
        hosts_contain_gitea_keyword(self.host(), self.view_host())
    }

    /// The text this identifier is shown as.
    pub fn to_display_string(&self) -> (r: String)
        ensures
            r@ == identifier_text(self@),
    {
        let label = chars_of("Self-hosted ");
        let at = chars_of("@");
        proof {
            reveal_strlit("@");
            assert(at@ =~= seq!['@']);
        }
        let user = chars_of(self.username());
        let host = chars_of(self.host());
        string_from_chars(&concat(&concat(&concat(&label, &user), &at), &host))
    }

    /// The two identifiers hold the same username and hosts.
    pub fn same_identifier(&self, other: &Self) -> (r: bool)
        ensures
            r == (self@ == other@),
    {
        let same_user = eq_chars(&chars_of(self.username()), &chars_of(other.username()));
        let same_host = eq_chars(&chars_of(self.host()), &chars_of(other.host()));
        let same_view = match (self.view_host(), other.view_host()) {
            (Some(a), Some(b)) => eq_chars(&chars_of(a), &chars_of(b)),
            (None, None) => true,
            _ => false,
        };
        same_user && same_host && same_view
    }
}


/// Two identifiers name the same account.
pub fn same_account_identity(left: &GiteaAccountIdentifier, right: &GiteaAccountIdentifier) -> (r:
    bool)
    ensures
        r == same_identity(left@, right@),
{
    let same_user = eq_chars(&chars_of(left.username()), &chars_of(right.username()));
    if !same_user {
        return false;
    }
    let l = normalized_host_identity(left.host());
    let r = normalized_host_identity(right.host());
    eq_chars(&chars_of(l.as_str()), &chars_of(r.as_str()))
}

/// A host in the form accounts are compared by.
pub fn normalized_host_identity(host: &str) -> (r: String)
    ensures
        r@ == host_identity(host@),
{
    host_identity_of(host)
}

/// Account identity is symmetric: if `a` names the same account as `b`, then
/// `b` names the same account as `a`; and every identifier names itself.
pub proof fn law_same_identity_is_symmetric_and_reflexive(a: GiteaAccountView, b: GiteaAccountView)
    ensures
        same_identity(a, b) == same_identity(b, a),
        same_identity(a, a),
{
}

/// The abstract contents of a list of identifiers.
pub open spec fn account_views(known: Seq<GiteaAccountIdentifier>) -> Seq<GiteaAccountView> {
    known.map_values(|a: GiteaAccountIdentifier| a@)
}

/// The first index at or after `i` whose account has the identity of `preferred`.
pub open spec fn first_same_identity_from(
    known: Seq<GiteaAccountView>,
    preferred: GiteaAccountView,
    i: int,
) -> Option<int>
    decreases known.len() - i,
{
    if i < 0 || i >= known.len() {
        None
    } else if same_identity(known[i], preferred) {
        Some(i)
    } else {
        first_same_identity_from(known, preferred, i + 1)
    }
}

/// Which known account review operations act as: the first known account
/// with the preferred account's identity; with no preference, the only known
/// account. `None` where none qualifies.
pub open spec fn chosen_account(preferred: Option<GiteaAccountView>, known: Seq<GiteaAccountView>) -> Option<int> {
    if known.len() == 0 {
        None
    } else {
        match preferred {
            Some(p) => first_same_identity_from(known, p, 0),
            None => if known.len() == 1 {
                Some(0)
            } else {
                None
            },
        }
    }
}

/// Why no account could be chosen.
#[derive(Debug)]
pub enum AccountSelectionError {
    /// No Gitea account is known.
    NoAccounts,
    /// The preferred account (shown as given) is not among the known accounts.
    PreferredNotAuthenticated(String),
    /// Several accounts are known and none is preferred.
    MultipleAccounts,
}

impl AccountSelectionError {
    /// The message the error is reported with.
    pub fn message(&self) -> (r: String)
        ensures
            r@ == selection_error_text(*self),
    {
        match self {
            AccountSelectionError::NoAccounts => "No authenticated Gitea users found.\nRun 'but config forge auth' to authenticate with Gitea.".to_string(),
            AccountSelectionError::PreferredNotAuthenticated(account) => {
                let head = chars_of("Preferred Gitea account '");
                let tail = chars_of("' has not authenticated yet.\nRun 'but config forge auth' to authenticate, or choose another account.");
                let middle = chars_of(account.as_str());
                string_from_chars(&concat(&concat(&head, &middle), &tail))
            },
            AccountSelectionError::MultipleAccounts => "Multiple authenticated Gitea users found.\nChoose a Gitea account for this project before using Gitea review operations.".to_string(),
        }
    }
}

pub open spec fn selection_error_text(e: AccountSelectionError) -> Seq<char> {
    match e {
        AccountSelectionError::NoAccounts => "No authenticated Gitea users found.\nRun 'but config forge auth' to authenticate with Gitea."@,
        AccountSelectionError::PreferredNotAuthenticated(account) => "Preferred Gitea account '"@ + account@ + "' has not authenticated yet.\nRun 'but config forge auth' to authenticate, or choose another account."@,
        AccountSelectionError::MultipleAccounts => "Multiple authenticated Gitea users found.\nChoose a Gitea account for this project before using Gitea review operations."@,
    }
}

pub open spec fn opt_account_view(o: Option<&GiteaAccountIdentifier>) -> Option<GiteaAccountView> {
    match o {
        Some(a) => Some(a@),
        None => None,
    }
}

/// The error `select_account` reports where no account is chosen.
pub open spec fn selection_error_matches(
    e: AccountSelectionError,
    preferred: Option<GiteaAccountView>,
    known: Seq<GiteaAccountView>,
) -> bool {
    match e {
        AccountSelectionError::NoAccounts => known.len() == 0,
        AccountSelectionError::PreferredNotAuthenticated(shown) => known.len() > 0 && (
        preferred matches Some(p) && shown@ == identifier_text(p)),
        AccountSelectionError::MultipleAccounts => known.len() > 1 && preferred is None,
    }
}

/// Choose the known account that review operations act as.
pub fn select_account<'a>(
    preferred_account: Option<&GiteaAccountIdentifier>,
    known_accounts: &'a [GiteaAccountIdentifier],
) -> (r: Result<&'a GiteaAccountIdentifier, AccountSelectionError>)
    ensures
        match r {
            Ok(a) => chosen_account(opt_account_view(preferred_account), account_views(known_accounts@))
                matches Some(i) && 0 <= i < known_accounts@.len() && a@ == known_accounts@[i]@,
            Err(e) => chosen_account(opt_account_view(preferred_account), account_views(known_accounts@))
                is None && selection_error_matches(
                e,
                opt_account_view(preferred_account),
                account_views(known_accounts@),
            ),
        },
{
    let ghost known = account_views(known_accounts@);
    if known_accounts.len() == 0 {
        return Err(AccountSelectionError::NoAccounts);
    }
    match preferred_account {
        Some(account) => {
            let mut i: usize = 0;
            while i < known_accounts.len()
                invariant
                    i <= known_accounts@.len(),
                    known == account_views(known_accounts@),
                    opt_account_view(preferred_account) == Some(account@),
                    first_same_identity_from(known, account@, 0) == first_same_identity_from(
                        known,
                        account@,
                        i as int,
                    ),
                decreases known_accounts.len() - i,
            {
                proof {
                    assert(known[i as int] == known_accounts@[i as int]@);
                }
                if same_account_identity(&known_accounts[i], account) {
                    proof {
                        assert(known.len() == known_accounts@.len());
                        assert(first_same_identity_from(known, account@, i as int) == Some(
                            i as int,
                        ));
                    }
                    return Ok(&known_accounts[i]);
                }
                i = i + 1;
            }
            Err(AccountSelectionError::PreferredNotAuthenticated(account.to_display_string()))
        },
        None => {
            if known_accounts.len() == 1 {
                Ok(&known_accounts[0])
            } else {
                Err(AccountSelectionError::MultipleAccounts)
            }
        },
    }
}

/// What `first_same_identity_from` returns has the preferred identity.
proof fn lemma_first_same_identity(known: Seq<GiteaAccountView>, p: GiteaAccountView, i: int)
    ensures
        first_same_identity_from(known, p, i) matches Some(k) ==> i <= k < known.len()
            && same_identity(known[k], p),
    decreases known.len() - i,
{
    if i < 0 || i >= known.len() {
    } else if same_identity(known[i], p) {
    } else {
        lemma_first_same_identity(known, p, i + 1);
    }
}

/// The account chosen for a preferred account has that account's identity,
/// and with no preference the only known account is chosen.
pub proof fn law_chosen_account_has_preferred_identity(
    preferred: Option<GiteaAccountView>,
    known: Seq<GiteaAccountView>,
)
    ensures
        chosen_account(preferred, known) matches Some(i) ==> 0 <= i < known.len() && (
        preferred matches Some(p) ==> same_identity(known[i], p)),
        preferred is None && known.len() == 1 ==> chosen_account(preferred, known) == Some(0int),
        preferred is None && known.len() > 1 ==> chosen_account(preferred, known) is None,
{
    if let Some(p) = preferred {
        lemma_first_same_identity(known, p, 0);
    }
}

/// Choose the known account that review operations act as, as an owned identifier.
pub fn resolve_account(
    preferred_account: Option<&GiteaAccountIdentifier>,
    known_accounts: &[GiteaAccountIdentifier],
) -> (r: Result<GiteaAccountIdentifier, AccountSelectionError>)
    ensures
        match r {
            Ok(a) => chosen_account(opt_account_view(preferred_account), account_views(known_accounts@))
                matches Some(i) && 0 <= i < known_accounts@.len() && a@ == known_accounts@[i]@,
            Err(e) => chosen_account(opt_account_view(preferred_account), account_views(known_accounts@))
                is None && selection_error_matches(
                e,
                opt_account_view(preferred_account),
                account_views(known_accounts@),
            ),
        },
{
    let chosen = select_account(preferred_account, known_accounts)?;
    Ok(chosen.clone())
}


/// Accounts on the same host get different cache keys when their usernames
/// differ.
pub proof fn law_cache_key_separates_usernames(u1: Seq<char>, u2: Seq<char>, host: Seq<char>)
    ensures
        cache_key_of(u1, host) == cache_key_of(u2, host) ==> u1 == u2,
{
    if cache_key_of(u1, host) == cache_key_of(u2, host) {
        let k1 = cache_key_of(u1, host);
        let k2 = cache_key_of(u2, host);
        let p = cache_key_prefix().len();
        assert(k1.len() == p + u1.len() + 1 + host.len());
        assert(k2.len() == p + u2.len() + 1 + host.len());
        assert(u1 =~= k1.subrange(p as int, (p + u1.len()) as int));
        assert(u2 =~= k2.subrange(p as int, (p + u2.len()) as int));
    }
}

/// A Gitea account as the settings storage records it; the token itself is
/// kept in the secret store under `access_token_key`.
pub struct StoredGiteaAccount {
    pub username: String,
    pub host: String,
    pub view_host: Option<String>,
    pub access_token_key: String,
}

/// A Gitea account with its access token.
pub enum GiteaAccount {
    /// A self-hosted Gitea account.
    SelfHosted {
        /// The Gitea username.
        username: String,
        /// The normalized Gitea API instance URL.
        host: String,
        /// Optional web UI base URL for browser links.
        view_host: Option<String>,
        /// The account access token.
        access_token: Sensitive<String>,
    },
}

/// The identifier part of a token-bearing account.
pub open spec fn account_identity(a: GiteaAccount) -> GiteaAccountView {
    match a {
        GiteaAccount::SelfHosted { username, host, view_host, .. } => GiteaAccountView {
            username: username@,
            host: host@,
            view_host: opt_view(view_host),
        },
    }
}

/// The token of a token-bearing account.
pub open spec fn account_token(a: GiteaAccount) -> Seq<char> {
    match a {
        GiteaAccount::SelfHosted { access_token, .. } => access_token.0@,
    }
}

/// A copy of an optional string.
pub fn copy_opt_string(o: &Option<String>) -> (r: Option<String>)
    ensures
        opt_view(r) == opt_view(*o),
{
    match o {
        Some(v) => Some(v.clone()),
        None => None,
    }
}

/// Whether two optional strings hold the same text.
pub fn eq_opt_string(a: &Option<String>, b: &Option<String>) -> (r: bool)
    ensures
        r == (opt_view(*a) == opt_view(*b)),
{
    match (a, b) {
        (Some(x), Some(y)) => eq_chars(&chars_of(x.as_str()), &chars_of(y.as_str())),
        (None, None) => true,
        _ => false,
    }
}

impl GiteaAccount {
    /// Create a token-bearing account from an identifier.
    pub fn new(account_id: &GiteaAccountIdentifier, access_token: Sensitive<String>) -> (r: Self)
        ensures
            account_identity(r) == account_id@,
            account_token(r) == access_token.0@,
    {
        match account_id {
            GiteaAccountIdentifier::SelfHosted { username, host, view_host } => GiteaAccount::SelfHosted {
                username: copy_string(username),
                host: copy_string(host),
                view_host: copy_opt_string(view_host),
                access_token,
            },
        }
    }

    /// The key under which the secret store keeps this account's token: the
    /// cache key of the account's identifier, normalized anew.
    pub fn secret_key(&self) -> (r: String)
        ensures
            r@ == cache_key_of(account_identity(*self).username, host_identity(account_identity(*self).host)),
    {
        match self {
            GiteaAccount::SelfHosted { username, host, view_host, .. } => {
                let id = GiteaAccountIdentifier::selfhosted_with_view_host(
                    username.as_str(),
                    host.as_str(),
                    copy_opt_string(view_host),
                );
                id.cache_key()
            },
        }
    }

    /// The account's access token.
    pub fn access_token(&self) -> (r: Sensitive<String>)
        ensures
            r.0@ == account_token(*self),
    {
        match self {
            GiteaAccount::SelfHosted { access_token, .. } => Sensitive(copy_string(&access_token.0)),
        }
    }

    /// The record the settings storage keeps for this account.
    pub fn to_stored(&self) -> (r: StoredGiteaAccount)
        ensures
            r.username@ == account_identity(*self).username,
            r.host@ == account_identity(*self).host,
            opt_view(r.view_host) == account_identity(*self).view_host,
            r.access_token_key@ == cache_key_of(account_identity(*self).username, host_identity(account_identity(*self).host)),
    {
        let access_token_key = self.secret_key();
        match self {
            GiteaAccount::SelfHosted { username, host, view_host, .. } => StoredGiteaAccount {
                username: copy_string(username),
                host: copy_string(host),
                view_host: copy_opt_string(view_host),
                access_token_key,
            },
        }
    }
}

impl StoredGiteaAccount {
    /// The identifier of a stored account.
    pub fn identifier(&self) -> (r: GiteaAccountIdentifier)
        ensures
            r@ == (GiteaAccountView {
                username: self.username@,
                host: self.host@,
                view_host: opt_view(self.view_host),
            }),
    {
        GiteaAccountIdentifier::SelfHosted {
            username: copy_string(&self.username),
            host: copy_string(&self.host),
            view_host: copy_opt_string(&self.view_host),
        }
    }

    /// The stored account is the one `account_id` names: same host and
    /// username, compared as stored.
    pub fn is_for(&self, account_id: &GiteaAccountIdentifier) -> (r: bool)
        ensures
            r == (self.host@ == account_id@.host && self.username@ == account_id@.username),
    {
        eq_chars(&chars_of(self.host.as_str()), &chars_of(account_id.host()))
            && eq_chars(&chars_of(self.username.as_str()), &chars_of(account_id.username()))
    }

    /// The token-bearing account for this record and the token read for it.
    pub fn with_token(&self, access_token: Sensitive<String>) -> (r: GiteaAccount)
        ensures
            account_identity(r) == (GiteaAccountView {
                username: self.username@,
                host: self.host@,
                view_host: opt_view(self.view_host),
            }),
            account_token(r) == access_token.0@,
    {
        GiteaAccount::SelfHosted {
            username: copy_string(&self.username),
            host: copy_string(&self.host),
            view_host: copy_opt_string(&self.view_host),
            access_token,
        }
    }
}

/// The record removed from storage when an account is forgotten: the
/// identifier's fields, with its cache key as the token key.
pub fn stored_account_for_identifier(account: &GiteaAccountIdentifier) -> (r: StoredGiteaAccount)
    ensures
        r.username@ == account@.username,
        r.host@ == account@.host,
        opt_view(r.view_host) == account@.view_host,
        r.access_token_key@ == cache_key_of(account@.username, account@.host),
{
    let access_token_key = account.cache_key();
    match account {
        GiteaAccountIdentifier::SelfHosted { username, host, view_host } => StoredGiteaAccount {
            username: copy_string(username),
            host: copy_string(host),
            view_host: copy_opt_string(view_host),
            access_token_key,
        },
    }
}

/// The identifiers of the stored accounts, in order.
pub fn identifiers_of(stored: &Vec<StoredGiteaAccount>) -> (r: Vec<GiteaAccountIdentifier>)
    ensures
        r@.len() == stored@.len(),
        forall|i: int|
            0 <= i < r@.len() ==> #[trigger] r@[i]@ == (GiteaAccountView {
                username: stored@[i].username@,
                host: stored@[i].host@,
                view_host: opt_view(stored@[i].view_host),
            }),
{
    let mut out: Vec<GiteaAccountIdentifier> = Vec::new();
    for i in 0..stored.len()
        invariant
            out@.len() == i,
            forall|k: int|
                0 <= k < i ==> #[trigger] out@[k]@ == (GiteaAccountView {
                    username: stored@[k].username@,
                    host: stored@[k].host@,
                    view_host: opt_view(stored@[k].view_host),
                }),
    {
        out.push(stored[i].identifier());
    }
    out
}

/// The stored account is the one the identifier names.
pub open spec fn stored_for(stored: StoredGiteaAccount, account: GiteaAccountView) -> bool {
    stored.host@ == account.host && stored.username@ == account.username
}

/// The next stored account, at `from` or after it, that the identifier
/// names: its token is read next, and the search goes on after it when the
/// secret store holds none.
pub fn next_stored_account_for(
    stored: &Vec<StoredGiteaAccount>,
    account_id: &GiteaAccountIdentifier,
    from: usize,
) -> (r: Option<usize>)
    ensures
        match r {
            Some(i) => {
                &&& from <= i < stored@.len()
                &&& stored_for(stored@[i as int], account_id@)
                &&& forall|k: int| from <= k < i ==> !stored_for(#[trigger] stored@[k], account_id@)
            },
            None => forall|k: int|
                from <= k < stored@.len() ==> !stored_for(#[trigger] stored@[k], account_id@),
        },
{
    let mut i = from;
    while i < stored.len()
        invariant
            from <= i,
            forall|k: int| from <= k < i && k < stored@.len() ==> !stored_for(#[trigger] stored@[k], account_id@),
        decreases stored.len() - i,
    {
        if stored[i].is_for(account_id) {
            return Some(i);
        }
        i = i + 1;
    }
    None
}

/// Two identifiers name the same account only when their usernames are the
/// same; identifiers with the same username and the same host text always do,
/// and so do ones whose hosts differ only in what normalizing drops
/// (surrounding whitespace, trailing slashes) where the host normalizes.
pub proof fn law_same_identity_needs_same_username(a: GiteaAccountView, b: GiteaAccountView)
    ensures
        same_identity(a, b) ==> a.username == b.username,
        a.username == b.username && a.host == b.host ==> same_identity(a, b),
        a.username == b.username && crate::host::host_candidate(a.host) == crate::host::host_candidate(
            b.host,
        ) && normalized_host(a.host) is Ok ==> same_identity(a, b),
{
}

proof fn lemma_first_same_identity_found(known: Seq<GiteaAccountView>, p: GiteaAccountView, i: int, j: int)
    requires
        0 <= i <= j < known.len(),
        same_identity(known[j], p),
    ensures
        first_same_identity_from(known, p, i) is Some,
    decreases j - i,
{
    if !same_identity(known[i], p) {
        lemma_first_same_identity_found(known, p, i + 1, j);
    }
}

/// The account chosen for a preferred account has the preferred username
/// (and the same host, once normalized); and whenever a known account has the
/// preferred username and host, an account is chosen.
pub proof fn law_chosen_account_has_preferred_username(
    preferred: GiteaAccountView,
    known: Seq<GiteaAccountView>,
)
    ensures
        chosen_account(Some(preferred), known) matches Some(i) ==> 0 <= i < known.len()
            && known[i].username == preferred.username && host_identity(known[i].host)
            == host_identity(preferred.host),
        (exists|j: int|
            0 <= j < known.len() && #[trigger] known[j].username == preferred.username
                && known[j].host == preferred.host) ==> chosen_account(Some(preferred), known) is Some,
{
    lemma_first_same_identity(known, preferred, 0);
    if exists|j: int|
        0 <= j < known.len() && #[trigger] known[j].username == preferred.username && known[j].host
            == preferred.host {
        let j = choose|j: int|
            0 <= j < known.len() && #[trigger] known[j].username == preferred.username
                && known[j].host == preferred.host;
        lemma_first_same_identity_found(known, preferred, 0, j);
    }
}

} // verus!
