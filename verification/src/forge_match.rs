//! Deriving which forge and repository a remote URL names, with the help of
//! the forge accounts the user has configured.
use vstd::prelude::*;
use crate::account::{GiteaAccountIdentifier, GiteaAccountView, hosts_mention_gitea, opt_view};
use crate::forge::{
    ForgeName, ForgeRepoInfo, ForgeUser, ForgeUserView, HostedAccount, HostedAccountView,
    custom_host_of_user, determine_forge_from_host, forge_of_host, forge_of_user,
};
use crate::forge_host::{
    comparable_host, custom_host_matches, custom_host_matches_repository_host,
    hosts_share_parent_domain, normalize_host_for_comparison, owner_repo_after_custom_host_path,
    owner_repo_under_custom_path, share_parent_domain,
};
use crate::remote_url::{
    PathLayout, RemoteUrl, RemoteUrlView, parse_remote, path_segments, repository_parts_of,
};

verus! {

broadcast use vstd::string::group_string_axioms;

/// The path layout of repositories on a forge.
pub open spec fn layout_of(forge: ForgeName) -> PathLayout {
    match forge {
        ForgeName::GitLab => PathLayout::Nested,
        ForgeName::Azure => PathLayout::Azure,
        _ => PathLayout::OwnerRepo,
    }
}

fn layout_for(forge: ForgeName) -> (r: PathLayout)
    ensures
        r == layout_of(forge),
{
    match forge {
        ForgeName::GitLab => PathLayout::Nested,
        ForgeName::Azure => PathLayout::Azure,
        _ => PathLayout::OwnerRepo,
    }
}

/// Owner and repository a remote names on a forge.
pub open spec fn remote_parts(remote: RemoteUrlView, forge: ForgeName) -> Option<(Seq<char>, Seq<char>)> {
    repository_parts_of(layout_of(forge), remote.protocol, path_segments(remote.path))
}

impl RemoteUrl {
    /// The owner and repository the remote names on `forge`.
    pub fn repository_parts(&self, forge: &ForgeName) -> (r: Option<(String, String)>)
        ensures
            match r {
                Some((o, n)) => remote_parts(self@, *forge) == Some((o@, n@)),
                None => remote_parts(self@, *forge) is None,
            },
    {
        self.repository_parts_in(layout_for(*forge))
    }
}

/// The repository information for a remote on `forge`, from its path.
pub open spec fn repo_info_on(remote: RemoteUrlView, forge: ForgeName) -> Option<(ForgeName, Seq<char>, Seq<char>, Seq<char>)> {
    match remote_parts(remote, forge) {
        Some((owner, repo)) => Some((forge, owner, repo, remote.protocol)),
        None => None,
    }
}

/// The abstract content of a [`ForgeRepoInfo`]: forge, owner, repository, protocol.
pub open spec fn info_view(info: ForgeRepoInfo) -> (ForgeName, Seq<char>, Seq<char>, Seq<char>) {
    (info.forge, info.owner@, info.repo@, info.protocol@)
}

pub open spec fn opt_info_view(o: Option<ForgeRepoInfo>) -> Option<(ForgeName, Seq<char>, Seq<char>, Seq<char>)> {
    match o {
        Some(i) => Some(info_view(i)),
        None => None,
    }
}

/// The repository a remote URL names on a given forge.
pub open spec fn repo_info_with_forge(url: Seq<char>, forge: ForgeName) -> Option<(ForgeName, Seq<char>, Seq<char>, Seq<char>)> {
    match parse_remote(url) {
        Some(remote) => repo_info_on(remote, forge),
        None => None,
    }
}

/// Derive the repository information from a remote URL for an explicitly
/// chosen forge.
pub fn derive_forge_repo_info_with_forge(url: &str, forge: ForgeName) -> (r: Option<ForgeRepoInfo>)
    ensures
        opt_info_view(r) == repo_info_with_forge(url@, forge),
{
    let remote = RemoteUrl::parse(url)?;
    let (owner, repo) = remote.repository_parts(&forge)?;
    Some(ForgeRepoInfo { forge, owner, repo, protocol: remote.protocol })
}

/// The custom host of a Gitea account that a repository host belongs to:
/// the API host, then the web UI host, that matches it as a custom host;
/// failing that, where either URL mentions `gitea`, the first of them that
/// shares a parent domain with the repository host.
pub open spec fn gitea_custom_host_for(repository_host: Seq<char>, account: GiteaAccountView) -> Option<Seq<char>> {
    if custom_host_matches(repository_host, account.host) {
        Some(account.host)
    } else if account.view_host matches Some(v) && custom_host_matches(repository_host, v) {
        account.view_host
    } else if !hosts_mention_gitea(account.host, account.view_host) {
        None
    } else if share_parent_domain(comparable_host(repository_host), comparable_host(account.host)) {
        Some(account.host)
    } else if account.view_host matches Some(v) && share_parent_domain(
        comparable_host(repository_host),
        comparable_host(v),
    ) {
        account.view_host
    } else {
        None
    }
}

/// The custom host of a Gitea account that a repository host belongs to.
pub fn gitea_account_custom_host_for_repository(repository_host: &str, account: &GiteaAccountIdentifier) -> (r: Option<String>)
    ensures
        opt_view(r) == gitea_custom_host_for(repository_host@, account@),
{
    if custom_host_matches_repository_host(repository_host, account.host()) {
        return Some(account.host().to_string());
    }
    match account.view_host() {
        Some(v) => {
            if custom_host_matches_repository_host(repository_host, v) {
                return Some(v.to_string());
            }
        },
        None => {},
    }
    if !account.hosts_contain_gitea_keyword() {
        return None;
    }
    let repository = normalize_host_for_comparison(repository_host);
    let api = normalize_host_for_comparison(account.host());
    if hosts_share_parent_domain(repository.as_str(), api.as_str()) {
        return Some(account.host().to_string());
    }
    match account.view_host() {
        Some(v) => {
            let web = normalize_host_for_comparison(v);
            if hosts_share_parent_domain(repository.as_str(), web.as_str()) {
                Some(v.to_string())
            } else {
                None
            }
        },
        None => None,
    }
}

/// The repository host belongs to the Gitea account.
pub fn gitea_account_matches_repository(repository_host: &str, account: &GiteaAccountIdentifier) -> (r: bool)
    ensures
        r == gitea_custom_host_for(repository_host@, account@) is Some,
{
    gitea_account_custom_host_for_repository(repository_host, account).is_some()
}

/// The web UI host for browser links to a repository on a Gitea account's
/// instance: its view host, or else its API host; `None` when the
/// repository host does not belong to the account.
pub fn gitea_web_host_for_repository(repository_host: &str, account: &GiteaAccountIdentifier) -> (r: Option<String>)
    ensures
        opt_view(r) == if gitea_custom_host_for(repository_host@, account@) is Some {
            match account@.view_host {
                Some(v) => Some(v),
                None => Some(account@.host),
            }
        } else {
            None
        },
{
    if gitea_account_matches_repository(repository_host, account) {
        match account.view_host() {
            Some(v) => Some(v.to_string()),
            None => Some(account.host().to_string()),
        }
    } else {
        None
    }
}

/// The forge and custom host that an account contributes for a repository
/// host, if the host belongs to it.
pub open spec fn account_host_match(host: Seq<char>, account: ForgeUserView) -> Option<(ForgeName, Seq<char>)> {
    match account {
        ForgeUserView::Gitea(g) => match gitea_custom_host_for(host, g) {
            Some(c) => Some((ForgeName::Gitea, c)),
            None => None,
        },
        _ => match custom_host_of_user(account) {
            Some(c) => if custom_host_matches(host, c) {
                Some((forge_of_user(account), c))
            } else {
                None
            },
            None => None,
        },
    }
}

/// The first account, from index `i` on, whose custom host a repository host
/// belongs to, with that forge and custom host.
pub open spec fn first_account_match_from(host: Seq<char>, accounts: Seq<ForgeUserView>, i: int) -> Option<(ForgeName, Seq<char>)>
    decreases accounts.len() - i,
{
    if i < 0 || i >= accounts.len() {
        None
    } else {
        match account_host_match(host, accounts[i]) {
            Some(m) => Some(m),
            None => first_account_match_from(host, accounts, i + 1),
        }
    }
}

/// The abstract contents of a list of accounts.
pub open spec fn user_views(accounts: Seq<ForgeUser>) -> Seq<ForgeUserView> {
    accounts.map_values(|a: ForgeUser| a@)
}

fn account_host_match_of(host: &str, account: &ForgeUser) -> (r: Option<(ForgeName, String)>)
    ensures
        match r {
            Some((f, c)) => account_host_match(host@, account@) == Some((f, c@)),
            None => account_host_match(host@, account@) is None,
        },
{
    match account {
        ForgeUser::Gitea(g) => match gitea_account_custom_host_for_repository(host, g) {
            Some(c) => Some((ForgeName::Gitea, c)),
            None => None,
        },
        _ => match account.custom_host() {
            Some(c) => if custom_host_matches_repository_host(host, c.as_str()) {
                Some((account.forge_name(), c))
            } else {
                None
            },
            None => None,
        },
    }
}

/// Look for the first account whose custom host a repository host belongs
/// to; return its forge and custom host.
pub fn match_host_to_accounts_custom_host_with_value(host: &str, accounts: &[ForgeUser]) -> (r: Option<(ForgeName, String)>)
    ensures
        match r {
            Some((f, c)) => first_account_match_from(host@, user_views(accounts@), 0) == Some((f, c@)),
            None => first_account_match_from(host@, user_views(accounts@), 0) is None,
        },
{
    let ghost views = user_views(accounts@);
    let mut i: usize = 0;
    while i < accounts.len()
        invariant
            i <= accounts@.len(),
            views == user_views(accounts@),
            first_account_match_from(host@, views, 0) == first_account_match_from(host@, views, i as int),
        decreases accounts.len() - i,
    {
        proof {
            assert(views[i as int] == accounts@[i as int]@);
        }
        match account_host_match_of(host, &accounts[i]) {
            Some(m) => {
                return Some(m);
            },
            None => {},
        }
        i = i + 1;
    }
    None
}

/// Look for the forge of the first account whose custom host a repository
/// host belongs to.
pub fn match_host_to_accounts_custom_host(host: &str, accounts: &[ForgeUser]) -> (r: Option<ForgeName>)
    ensures
        r == match first_account_match_from(host@, user_views(accounts@), 0) {
            Some((f, _)) => Some(f),
            None => None,
        },
{
    match match_host_to_accounts_custom_host_with_value(host, accounts) {
        Some((f, _)) => Some(f),
        None => None,
    }
}

/// The repository information for a parsed remote: the forge named by the
/// host, or else by the first matching account; owner and repository read
/// under that account's custom path where the account is on the same forge,
/// or else from the remote's path.
pub open spec fn repo_info_from_remote(
    remote: RemoteUrlView,
    host_forge: Option<ForgeName>,
    accounts: Seq<ForgeUserView>,
) -> Option<(ForgeName, Seq<char>, Seq<char>, Seq<char>)> {
    let account_match = first_account_match_from(remote.host, accounts, 0);
    let forge = match host_forge {
        Some(f) => Some(f),
        None => match account_match {
            Some((f, _)) => Some(f),
            None => None,
        },
    };
    match forge {
        None => None,
        Some(forge) => {
            let under_custom = match account_match {
                Some((f, c)) => if f == forge {
                    owner_repo_under_custom_path(remote.path, c)
                } else {
                    None
                },
                None => None,
            };
            let parts = match under_custom {
                Some(p) => Some(p),
                None => remote_parts(remote, forge),
            };
            match parts {
                Some((owner, repo)) => Some((forge, owner, repo, remote.protocol)),
                None => None,
            }
        },
    }
}

/// The repository information for a parsed remote.
pub fn derive_forge_repo_info_from_remote(
    remote: &RemoteUrl,
    host_forge: Option<ForgeName>,
    accounts: &[ForgeUser],
) -> (r: Option<ForgeRepoInfo>)
    ensures
        opt_info_view(r) == repo_info_from_remote(remote@, host_forge, user_views(accounts@)),
{
    let account_match = match_host_to_accounts_custom_host_with_value(remote.host.as_str(), accounts);
    let forge = match host_forge {
        Some(f) => f,
        None => match &account_match {
            Some((f, _)) => *f,
            None => {
                return None;
            },
        },
    };
    let under_custom = match &account_match {
        Some((f, c)) => if *f == forge {
            owner_repo_after_custom_host_path(remote.path.as_str(), c.as_str())
        } else {
            None
        },
        None => None,
    };
    let parts = match under_custom {
        Some(p) => Some(p),
        None => remote.repository_parts(&forge),
    };
    match parts {
        Some((owner, repo)) => Some(
            ForgeRepoInfo { forge, owner, repo, protocol: remote.protocol.clone() },
        ),
        None => None,
    }
}


/// The accounts consulted for a remote: all of them where its host names
/// no forge or names Gitea, none otherwise.
pub open spec fn accounts_consulted(host_forge: Option<ForgeName>, accounts: Seq<ForgeUserView>) -> Seq<ForgeUserView> {
    if host_forge is None || host_forge == Some(ForgeName::Gitea) {
        accounts
    } else {
        seq![]
    }
}

/// The repository information for a remote URL, given the user's accounts.
pub open spec fn repo_info_for_url(url: Seq<char>, accounts: Seq<ForgeUserView>) -> Option<(ForgeName, Seq<char>, Seq<char>, Seq<char>)> {
    match parse_remote(url) {
        None => None,
        Some(remote) => {
            let host_forge = forge_of_host(remote.host);
            repo_info_from_remote(remote, host_forge, accounts_consulted(host_forge, accounts))
        },
    }
}

/// Derive the forge repository information from a remote URL.
///
/// The host's well-known names decide the forge; where they do not, or name
/// Gitea, the known accounts are consulted too: an account whose custom host
/// the remote's host belongs to decides the forge, and a Gitea instance
/// mounted under a base path has that path stripped before owner and
/// repository are read. `known_accounts` are the accounts the user has
/// configured.
pub fn derive_forge_repo_info(url: &str, known_accounts: &[ForgeUser]) -> (r: Option<ForgeRepoInfo>)
    ensures
        opt_info_view(r) == repo_info_for_url(url@, user_views(known_accounts@)),
{
    let remote = RemoteUrl::parse(url)?;
    let host_forge = determine_forge_from_host(remote.host.as_str());
    let none: Vec<ForgeUser> = Vec::new();
    let consulted: &[ForgeUser] = if host_forge.is_none() || host_forge == Some(ForgeName::Gitea) {
        known_accounts
    } else {
        proof {
            assert(user_views(none@) =~= Seq::<ForgeUserView>::empty());
        }
        none.as_slice()
    };
    derive_forge_repo_info_from_remote(&remote, host_forge, consulted)
}

/// Derive the forge repository information from a remote URL, always
/// consulting `accounts`.
pub fn derive_forge_repo_info_with_accounts(url: &str, accounts: &[ForgeUser]) -> (r: Option<ForgeRepoInfo>)
    ensures
        opt_info_view(r) == match parse_remote(url@) {
            None => None,
            Some(remote) => repo_info_from_remote(remote, forge_of_host(remote.host), user_views(accounts@)),
        },
{
    let remote = RemoteUrl::parse(url)?;
    let host_forge = determine_forge_from_host(remote.host.as_str());
    derive_forge_repo_info_from_remote(&remote, host_forge, accounts)
}

/// Where the host names a forge, the derived repository is on that forge.
pub proof fn law_host_name_decides_forge(url: Seq<char>, accounts: Seq<ForgeUserView>)
    ensures
        parse_remote(url) matches Some(remote) ==> forge_of_host(remote.host) matches Some(f) ==> (
        repo_info_for_url(url, accounts) matches Some(info) ==> info.0 == f),
{
}

/// The repository derived for an explicitly chosen forge is on that forge.
pub proof fn law_explicit_forge_is_kept(url: Seq<char>, forge: ForgeName)
    ensures
        repo_info_with_forge(url, forge) matches Some(info) ==> info.0 == forge,
{
}

/// The repository host belongs to the account.
pub open spec fn account_matches_repository(account: ForgeUserView, host: Seq<char>) -> bool {
    match account {
        ForgeUserView::Gitea(g) => gitea_custom_host_for(host, g) is Some,
        _ => custom_host_of_user(account) matches Some(c) && custom_host_matches(host, c),
    }
}

/// The priority of an account for a repository host: 0 where the host
/// belongs to it, 1 otherwise.
pub open spec fn priority_of(account: ForgeUserView, host: Seq<char>) -> u8 {
    if account_matches_repository(account, host) {
        0
    } else {
        1
    }
}

/// The accounts whose match with the host is `matching`, in order.
pub open spec fn accounts_with_match(accounts: Seq<ForgeUserView>, host: Seq<char>, matching: bool) -> Seq<ForgeUserView>
    decreases accounts.len(),
{
    if accounts.len() == 0 {
        seq![]
    } else {
        let rest = accounts_with_match(accounts.drop_last(), host, matching);
        if account_matches_repository(accounts.last(), host) == matching {
            rest.push(accounts.last())
        } else {
            rest
        }
    }
}

/// The first index, from `i` on, holding `x`.
pub open spec fn first_index_from(s: Seq<ForgeUserView>, x: ForgeUserView, i: int) -> Option<int>
    decreases s.len() - i,
{
    if i < 0 || i >= s.len() {
        None
    } else if s[i] == x {
        Some(i)
    } else {
        first_index_from(s, x, i + 1)
    }
}

/// The accounts in priority order for a repository host: those the host
/// belongs to first, each group in its original order; then a preferred
/// account the host belongs to is moved (or added) to the front.
pub open spec fn prioritized_accounts(
    accounts: Seq<ForgeUserView>,
    host: Seq<char>,
    preferred: Option<ForgeUserView>,
) -> Seq<ForgeUserView> {
    let sorted = accounts_with_match(accounts, host, true) + accounts_with_match(accounts, host, false);
    match preferred {
        None => sorted,
        Some(p) => if !account_matches_repository(p, host) {
            sorted
        } else {
            match first_index_from(sorted, p, 0) {
                Some(i) => seq![p] + sorted.remove(i),
                None => seq![p] + sorted,
            }
        },
    }
}

/// The priority of an account for a repository host.
pub fn account_priority(account: &ForgeUser, repository_host: &str) -> (r: u8)
    ensures
        r == priority_of(account@, repository_host@),
{
    let matches = match account {
        ForgeUser::Gitea(gitea) => gitea_account_matches_repository(repository_host, gitea),
        _ => match account.custom_host() {
            Some(host) => custom_host_matches_repository_host(repository_host, host.as_str()),
            None => false,
        },
    };
    if matches {
        0
    } else {
        1
    }
}

/// The accounts whose match with the host is `matching`, cloned in order.
fn clone_accounts_with_match(accounts: &Vec<ForgeUser>, host: &str, matching: bool) -> (r: Vec<ForgeUser>)
    ensures
        user_views(r@) == accounts_with_match(user_views(accounts@), host@, matching),
{
    let ghost views = user_views(accounts@);
    let mut out: Vec<ForgeUser> = Vec::new();
    let mut i: usize = 0;
    proof {
        assert(views.take(0) =~= Seq::<ForgeUserView>::empty());
        assert(user_views(out@) =~= Seq::<ForgeUserView>::empty());
    }
    while i < accounts.len()
        invariant
            i <= accounts@.len(),
            views == user_views(accounts@),
            user_views(out@) == accounts_with_match(views.take(i as int), host@, matching),
        decreases accounts.len() - i,
    {
        proof {
            assert(views.take(i + 1).drop_last() =~= views.take(i as int));
            assert(views.take(i + 1).last() == accounts@[i as int]@);
        }
        if (account_priority(&accounts[i], host) == 0) == matching {
            let ghost before = user_views(out@);
            out.push(accounts[i].clone());
            proof {
                assert(user_views(out@) =~= before.push(accounts@[i as int]@));
            }
        }
        i = i + 1;
    }
    proof {
        assert(views.take(accounts@.len() as int) =~= views);
    }
    out
}

/// Order the accounts for a repository host: those the host belongs to
/// first (a stable reordering), then a preferred account the host belongs to
/// moved or added to the front.
pub fn prioritize_accounts_for_repository_host(
    accounts: &mut Vec<ForgeUser>,
    repository_host: &str,
    preferred_user: Option<&ForgeUser>,
)
    ensures
        user_views(final(accounts)@) == prioritized_accounts(
            user_views(old(accounts)@),
            repository_host@,
            match preferred_user {
                Some(p) => Some(p@),
                None => None,
            },
        ),
{
    let first = clone_accounts_with_match(accounts, repository_host, true);
    let second = clone_accounts_with_match(accounts, repository_host, false);
    let ghost sorted = user_views(first@) + user_views(second@);
    let mut merged = first;
    let mut rest = second;
    merged.append(&mut rest);
    proof {
        assert(user_views(merged@) =~= sorted);
    }
    *accounts = merged;
    let preferred = match preferred_user {
        Some(p) => p,
        None => {
            return;
        },
    };
    if account_priority(preferred, repository_host) != 0 {
        return;
    }
    let mut i: usize = 0;
    while i < accounts.len()
        invariant
            i <= accounts@.len(),
            user_views(accounts@) == sorted,
            sorted == accounts_with_match(user_views(old(accounts)@), repository_host@, true)
                + accounts_with_match(user_views(old(accounts)@), repository_host@, false),
            preferred_user == Some(preferred),
            account_matches_repository(preferred@, repository_host@),
            first_index_from(sorted, preferred@, 0) == first_index_from(sorted, preferred@, i as int),
        decreases accounts.len() - i,
    {
        proof {
            assert(sorted[i as int] == accounts@[i as int]@);
        }
        if accounts[i].same_as(preferred) {
            proof {
                assert(first_index_from(sorted, preferred@, i as int) == Some(i as int));
            }
            let ghost before = user_views(accounts@);
            let moved = accounts.remove(i);
            accounts.insert(0, moved);
            proof {
                assert(user_views(accounts@) =~= seq![preferred@] + before.remove(i as int));
            }
            return;
        }
        i = i + 1;
    }
    let ghost before = user_views(accounts@);
    accounts.insert(0, preferred.clone());
    proof {
        assert(user_views(accounts@) =~= seq![preferred@] + before);
    }
}


pub open spec fn opt_user_view(o: Option<&ForgeUser>) -> Option<ForgeUserView> {
    match o {
        Some(u) => Some(u@),
        None => None,
    }
}

/// The forge configured for a project: the explicit override, or else the
/// preferred account's forge where the host names no forge.
pub open spec fn configured_forge(
    forge_override: Option<ForgeName>,
    host_from_name: Option<ForgeName>,
    preferred: Option<ForgeUserView>,
) -> Option<ForgeName> {
    match forge_override {
        Some(f) => Some(f),
        None => if host_from_name is Some {
            None
        } else {
            match preferred {
                Some(p) => Some(forge_of_user(p)),
                None => None,
            }
        },
    }
}

/// The forge of a project's remote host: the configured forge, else the
/// forge the host names, else Gitea where the host belongs to a preferred
/// Gitea account.
pub open spec fn project_host_forge(
    host: Seq<char>,
    forge_override: Option<ForgeName>,
    preferred: Option<ForgeUserView>,
) -> Option<ForgeName> {
    let host_from_name = forge_of_host(host);
    match configured_forge(forge_override, host_from_name, preferred) {
        Some(f) => Some(f),
        None => match host_from_name {
            Some(f) => Some(f),
            None => match preferred {
                Some(ForgeUserView::Gitea(a)) => if gitea_custom_host_for(host, a) is Some {
                    Some(ForgeName::Gitea)
                } else {
                    None
                },
                _ => None,
            },
        },
    }
}

/// The repository information for a project's remote URL.
pub open spec fn repo_info_for_project(
    url: Seq<char>,
    forge_override: Option<ForgeName>,
    preferred: Option<ForgeUserView>,
    accounts: Seq<ForgeUserView>,
) -> Option<(ForgeName, Seq<char>, Seq<char>, Seq<char>)> {
    match parse_remote(url) {
        None => None,
        Some(remote) => {
            let host_forge = project_host_forge(remote.host, forge_override, preferred);
            let consulted = prioritized_accounts(
                accounts_consulted(host_forge, accounts),
                remote.host,
                preferred,
            );
            match repo_info_from_remote(remote, host_forge, consulted) {
                Some(info) => Some(info),
                None => match configured_forge(forge_override, forge_of_host(remote.host), preferred) {
                    Some(f) => repo_info_with_forge(url, f),
                    None => None,
                },
            }
        },
    }
}

fn clone_all(accounts: &[ForgeUser]) -> (r: Vec<ForgeUser>)
    ensures
        user_views(r@) == user_views(accounts@),
{
    let mut out: Vec<ForgeUser> = Vec::new();
    let mut i: usize = 0;
    while i < accounts.len()
        invariant
            i <= accounts@.len(),
            user_views(out@) == user_views(accounts@).take(i as int),
        decreases accounts.len() - i,
    {
        let ghost before = user_views(out@);
        let c = accounts[i].clone();
        out.push(c);
        proof {
            assert(user_views(out@) =~= before.push(accounts@[i as int]@));
            assert(user_views(accounts@).take(i + 1) =~= user_views(accounts@).take(i as int).push(
                accounts@[i as int]@,
            ));
        }
        i = i + 1;
    }
    proof {
        assert(user_views(accounts@).take(accounts@.len() as int) =~= user_views(accounts@));
    }
    out
}

/// Derive forge repository information using automatic detection and project
/// hints.
///
/// Detection order: explicit [`ForgeName`] override, then hostname keywords,
/// then the preferred account's forge when the host is ambiguous, then known
/// accounts whose custom host matches the remote. The preferred account does
/// not override a remote that already identifies as another forge.
pub fn derive_forge_repo_info_for_project(
    url: &str,
    forge_override: Option<ForgeName>,
    preferred_user: Option<&ForgeUser>,
    known_accounts: &[ForgeUser],
) -> (r: Option<ForgeRepoInfo>)
    ensures
        opt_info_view(r) == repo_info_for_project(
            url@,
            forge_override,
            opt_user_view(preferred_user),
            user_views(known_accounts@),
        ),
{
    let remote = RemoteUrl::parse(url)?;
    let repository_host = remote.host.as_str();
    let host_from_name = determine_forge_from_host(repository_host);
    let configured = match forge_override {
        Some(f) => Some(f),
        None => if host_from_name.is_some() {
            None
        } else {
            match preferred_user {
                Some(p) => Some(p.forge_name()),
                None => None,
            }
        },
    };
    let host_forge = match configured {
        Some(f) => Some(f),
        None => match host_from_name {
            Some(f) => Some(f),
            None => match preferred_user {
                Some(ForgeUser::Gitea(account)) => if gitea_account_matches_repository(
                    repository_host,
                    account,
                ) {
                    Some(ForgeName::Gitea)
                } else {
                    None
                },
                _ => None,
            },
        },
    };
    let mut accounts = if host_forge.is_none() || host_forge == Some(ForgeName::Gitea) {
        clone_all(known_accounts)
    } else {
        let v: Vec<ForgeUser> = Vec::new();
        proof {
            assert(user_views(v@) =~= Seq::<ForgeUserView>::empty());
        }
        v
    };
    prioritize_accounts_for_repository_host(&mut accounts, repository_host, preferred_user);
    match derive_forge_repo_info_from_remote(&remote, host_forge, accounts.as_slice()) {
        Some(info) => Some(info),
        None => match configured {
            Some(f) => derive_forge_repo_info_with_forge(url, f),
            None => None,
        },
    }
}

/// A preferred account does not override a remote host that already
/// identifies as a forge: without an explicit override, the repository
/// derived for a project is on the forge its host names.
pub proof fn law_preferred_account_does_not_override_host_forge(
    url: Seq<char>,
    preferred: Option<ForgeUserView>,
    accounts: Seq<ForgeUserView>,
)
    ensures
        parse_remote(url) matches Some(remote) ==> forge_of_host(remote.host) matches Some(f) ==> (
        repo_info_for_project(url, None, preferred, accounts) matches Some(info) ==> info.0 == f),
{
}

/// An explicit forge override decides the forge of the derived repository.
pub proof fn law_forge_override_decides_forge(
    url: Seq<char>,
    forge: ForgeName,
    preferred: Option<ForgeUserView>,
    accounts: Seq<ForgeUserView>,
)
    ensures
        repo_info_for_project(url, Some(forge), preferred, accounts) matches Some(info) ==> info.0
            == forge,
{
}

/// The login of the first account equal to `preferred`, or with no
/// preference the first account's login.
pub open spec fn hosted_login(accounts: Seq<HostedAccountView>, preferred: Option<HostedAccountView>) -> Option<Seq<char>> {
    match preferred {
        Some(p) => if exists|i: int| 0 <= i < accounts.len() && accounts[i] == p {
            Some(p.username)
        } else {
            None
        },
        None => if accounts.len() > 0 {
            Some(accounts[0].username)
        } else {
            None
        },
    }
}

/// Like [`hosted_login`] for Gitea accounts.
pub open spec fn gitea_login(accounts: Seq<GiteaAccountView>, preferred: Option<GiteaAccountView>) -> Option<Seq<char>> {
    match preferred {
        Some(p) => if exists|i: int| 0 <= i < accounts.len() && accounts[i] == p {
            Some(p.username)
        } else {
            None
        },
        None => if accounts.len() > 0 {
            Some(accounts[0].username)
        } else {
            None
        },
    }
}

pub open spec fn hosted_views(accounts: Seq<HostedAccount>) -> Seq<HostedAccountView> {
    accounts.map_values(|a: HostedAccount| a@)
}

pub open spec fn gitea_views(accounts: Seq<GiteaAccountIdentifier>) -> Seq<GiteaAccountView> {
    accounts.map_values(|a: GiteaAccountIdentifier| a@)
}

fn login_among_hosted(accounts: &[HostedAccount], preferred: Option<&HostedAccount>) -> (r: Option<String>)
    ensures
        opt_view(r) == hosted_login(
            hosted_views(accounts@),
            match preferred {
                Some(p) => Some(p@),
                None => None,
            },
        ),
{
    let ghost views = hosted_views(accounts@);
    match preferred {
        Some(p) => {
            let mut i: usize = 0;
            while i < accounts.len()
                invariant
                    i <= accounts@.len(),
                    views == hosted_views(accounts@),
                    preferred == Some(p),
                    forall|k: int| 0 <= k < i ==> views[k] != p@,
                decreases accounts.len() - i,
            {
                proof {
                    assert(views[i as int] == accounts@[i as int]@);
                }
                if accounts[i].same_as(p) {
                    proof {
                        assert(views[i as int] == p@);
                    }
                    return Some(accounts[i].username().to_string());
                }
                i = i + 1;
            }
            None
        },
        None => {
            if accounts.len() > 0 {
                proof {
                    assert(views[0] == accounts@[0]@);
                }
                Some(accounts[0].username().to_string())
            } else {
                None
            }
        },
    }
}

fn login_among_gitea(accounts: &[GiteaAccountIdentifier], preferred: Option<&GiteaAccountIdentifier>) -> (r: Option<String>)
    ensures
        opt_view(r) == gitea_login(
            gitea_views(accounts@),
            match preferred {
                Some(p) => Some(p@),
                None => None,
            },
        ),
{
    let ghost views = gitea_views(accounts@);
    match preferred {
        Some(p) => {
            let mut i: usize = 0;
            while i < accounts.len()
                invariant
                    i <= accounts@.len(),
                    views == gitea_views(accounts@),
                    preferred == Some(p),
                    forall|k: int| 0 <= k < i ==> views[k] != p@,
                decreases accounts.len() - i,
            {
                proof {
                    assert(views[i as int] == accounts@[i as int]@);
                }
                if accounts[i].same_identifier(p) {
                    proof {
                        assert(views[i as int] == p@);
                    }
                    return Some(accounts[i].username().to_string());
                }
                i = i + 1;
            }
            None
        },
        None => {
            if accounts.len() > 0 {
                proof {
                    assert(views[0] == accounts@[0]@);
                }
                Some(accounts[0].username().to_string())
            } else {
                None
            }
        },
    }
}

pub open spec fn preferred_github(p: Option<ForgeUserView>) -> Option<HostedAccountView> {
    match p {
        Some(ForgeUserView::GitHub(a)) => Some(a),
        _ => None,
    }
}

pub open spec fn preferred_gitlab(p: Option<ForgeUserView>) -> Option<HostedAccountView> {
    match p {
        Some(ForgeUserView::GitLab(a)) => Some(a),
        _ => None,
    }
}

pub open spec fn preferred_gitea(p: Option<ForgeUserView>) -> Option<GiteaAccountView> {
    match p {
        Some(ForgeUserView::Gitea(a)) => Some(a),
        _ => None,
    }
}

/// The login this repository's forge calls authenticate as: the preferred
/// account of the repository's forge when it is among the known accounts of
/// that forge, otherwise (with no preference of that forge) the first known
/// account. `None` when no account is configured, when the preferred account
/// is gone from storage, and for forges other than GitHub, GitLab and Gitea.
pub open spec fn forge_login(
    preferred: Option<ForgeUserView>,
    forge: ForgeName,
    github: Seq<HostedAccountView>,
    gitlab: Seq<HostedAccountView>,
    gitea: Seq<GiteaAccountView>,
) -> Option<Seq<char>> {
    match forge {
        ForgeName::GitHub => hosted_login(github, preferred_github(preferred)),
        ForgeName::GitLab => hosted_login(gitlab, preferred_gitlab(preferred)),
        ForgeName::Gitea => gitea_login(gitea, preferred_gitea(preferred)),
        _ => None,
    }
}

/// The login the repository's forge calls authenticate as, given the known
/// accounts of each forge.
pub fn current_forge_login(
    preferred_forge_user: &Option<ForgeUser>,
    forge_repo_info: &ForgeRepoInfo,
    github_accounts: &[HostedAccount],
    gitlab_accounts: &[HostedAccount],
    gitea_accounts: &[GiteaAccountIdentifier],
) -> (r: Option<String>)
    ensures
        opt_view(r) == forge_login(
            match preferred_forge_user {
                Some(u) => Some(u@),
                None => None,
            },
            forge_repo_info.forge,
            hosted_views(github_accounts@),
            hosted_views(gitlab_accounts@),
            gitea_views(gitea_accounts@),
        ),
{
    match forge_repo_info.forge {
        ForgeName::GitHub => {
            let preferred = match preferred_forge_user {
                Some(u) => u.github(),
                None => None,
            };
            login_among_hosted(github_accounts, preferred)
        },
        ForgeName::GitLab => {
            let preferred = match preferred_forge_user {
                Some(u) => u.gitlab(),
                None => None,
            };
            login_among_hosted(gitlab_accounts, preferred)
        },
        ForgeName::Gitea => {
            let preferred = match preferred_forge_user {
                Some(u) => u.gitea(),
                None => None,
            };
            login_among_gitea(gitea_accounts, preferred)
        },
        _ => None,
    }
}

/// All known forge accounts: the GitHub accounts, then the GitLab accounts,
/// then the Gitea accounts, each in the order given.
pub fn get_all_forge_accounts(
    github_accounts: &[HostedAccount],
    gitlab_accounts: &[HostedAccount],
    gitea_accounts: &[GiteaAccountIdentifier],
) -> (r: Vec<ForgeUser>)
    ensures
        user_views(r@) == hosted_views(github_accounts@).map_values(
            |a: HostedAccountView| ForgeUserView::GitHub(a),
        ) + hosted_views(gitlab_accounts@).map_values(
            |a: HostedAccountView| ForgeUserView::GitLab(a),
        ) + gitea_views(gitea_accounts@).map_values(|a: GiteaAccountView| ForgeUserView::Gitea(a)),
{
    let ghost gh = hosted_views(github_accounts@).map_values(
        |a: HostedAccountView| ForgeUserView::GitHub(a),
    );
    let ghost gl = hosted_views(gitlab_accounts@).map_values(
        |a: HostedAccountView| ForgeUserView::GitLab(a),
    );
    let ghost gt = gitea_views(gitea_accounts@).map_values(
        |a: GiteaAccountView| ForgeUserView::Gitea(a),
    );
    let mut users: Vec<ForgeUser> = Vec::new();
    let mut i: usize = 0;
    proof {
        assert(user_views(users@) =~= gh.take(0));
    }
    while i < github_accounts.len()
        invariant
            i <= github_accounts@.len(),
            gh == hosted_views(github_accounts@).map_values(
                |a: HostedAccountView| ForgeUserView::GitHub(a),
            ),
            user_views(users@) == gh.take(i as int),
        decreases github_accounts.len() - i,
    {
        let ghost before = user_views(users@);
        let c = github_accounts[i].clone();
        users.push(ForgeUser::GitHub(c));
        proof {
            assert(user_views(users@) =~= before.push(ForgeUserView::GitHub(github_accounts@[i as int]@)));
            assert(gh[i as int] == ForgeUserView::GitHub(github_accounts@[i as int]@));
            assert(gh.take(i + 1) =~= gh.take(i as int).push(gh[i as int]));
            assert(user_views(users@) =~= gh.take(i + 1));
        }
        i = i + 1;
    }
    proof {
        assert(gh.take(github_accounts@.len() as int) =~= gh);
    }
    let mut j: usize = 0;
    while j < gitlab_accounts.len()
        invariant
            j <= gitlab_accounts@.len(),
            gl == hosted_views(gitlab_accounts@).map_values(
                |a: HostedAccountView| ForgeUserView::GitLab(a),
            ),
            user_views(users@) == gh + gl.take(j as int),
        decreases gitlab_accounts.len() - j,
    {
        let ghost before = user_views(users@);
        let c = gitlab_accounts[j].clone();
        users.push(ForgeUser::GitLab(c));
        proof {
            assert(user_views(users@) =~= before.push(ForgeUserView::GitLab(gitlab_accounts@[j as int]@)));
            assert(gl[j as int] == ForgeUserView::GitLab(gitlab_accounts@[j as int]@));
            assert(gl.take(j + 1) =~= gl.take(j as int).push(gl[j as int]));
            assert(user_views(users@) =~= gh + gl.take(j + 1));
        }
        j = j + 1;
    }
    proof {
        assert(gl.take(gitlab_accounts@.len() as int) =~= gl);
    }
    let mut k: usize = 0;
    while k < gitea_accounts.len()
        invariant
            k <= gitea_accounts@.len(),
            gt == gitea_views(gitea_accounts@).map_values(
                |a: GiteaAccountView| ForgeUserView::Gitea(a),
            ),
            user_views(users@) == gh + gl + gt.take(k as int),
        decreases gitea_accounts.len() - k,
    {
        let ghost before = user_views(users@);
        let c = gitea_accounts[k].clone();
        users.push(ForgeUser::Gitea(c));
        proof {
            assert(user_views(users@) =~= before.push(ForgeUserView::Gitea(gitea_accounts@[k as int]@)));
            assert(gt[k as int] == ForgeUserView::Gitea(gitea_accounts@[k as int]@));
            assert(gt.take(k + 1) =~= gt.take(k as int).push(gt[k as int]));
            assert(user_views(users@) =~= gh + gl + gt.take(k + 1));
        }
        k = k + 1;
    }
    proof {
        assert(gt.take(gitea_accounts@.len() as int) =~= gt);
    }
    users
}

/// Every account of `accounts_with_match(accounts, host, matching)` matches
/// the host exactly when `matching` holds.
proof fn lemma_accounts_with_match_sides(accounts: Seq<ForgeUserView>, host: Seq<char>, matching: bool)
    ensures
        forall|k: int|
            0 <= k < accounts_with_match(accounts, host, matching).len() ==> account_matches_repository(
                #[trigger] accounts_with_match(accounts, host, matching)[k],
                host,
            ) == matching,
    decreases accounts.len(),
{
    if accounts.len() > 0 {
        let rest = accounts_with_match(accounts.drop_last(), host, matching);
        let all = accounts_with_match(accounts, host, matching);
        lemma_accounts_with_match_sides(accounts.drop_last(), host, matching);
        assert forall|k: int| 0 <= k < all.len() implies account_matches_repository(
            #[trigger] all[k],
            host,
        ) == matching by {
            if k < rest.len() {
                assert(all[k] == rest[k]);
            }
        }
    }
}

/// The matching and the other accounts together are the accounts.
proof fn lemma_split_keeps_accounts(accounts: Seq<ForgeUserView>, host: Seq<char>)
    ensures
        (accounts_with_match(accounts, host, true) + accounts_with_match(accounts, host, false)).to_multiset()
            =~= accounts.to_multiset(),
    decreases accounts.len(),
{
    broadcast use vstd::seq_lib::group_to_multiset_ensures;
    broadcast use vstd::multiset::group_multiset_axioms;

    let t = accounts_with_match(accounts, host, true);
    let f = accounts_with_match(accounts, host, false);
    vstd::seq_lib::lemma_multiset_commutative(t, f);
    if accounts.len() == 0 {
        assert(t =~= Seq::<ForgeUserView>::empty());
        assert(f =~= Seq::<ForgeUserView>::empty());
        assert(accounts =~= Seq::<ForgeUserView>::empty());
    } else {
        let init = accounts.drop_last();
        let x = accounts.last();
        lemma_split_keeps_accounts(init, host);
        let ti = accounts_with_match(init, host, true);
        let fi = accounts_with_match(init, host, false);
        vstd::seq_lib::lemma_multiset_commutative(ti, fi);
        assert(accounts =~= init.push(x));
    }
}

/// The first index from `i` on holding `x` holds `x`; none means that no
/// index from `i` on holds it.
proof fn lemma_first_index_from(s: Seq<ForgeUserView>, x: ForgeUserView, i: int)
    requires
        0 <= i,
    ensures
        match first_index_from(s, x, i) {
            Some(k) => i <= k < s.len() && s[k] == x,
            None => forall|k: int| i <= k < s.len() ==> s[k] != x,
        },
    decreases s.len() - i,
{
    if i < s.len() && s[i] != x {
        lemma_first_index_from(s, x, i + 1);
    }
}

/// Prioritizing without a preferred account reorders the accounts and
/// nothing more: the same accounts, each as often as before.
pub proof fn law_prioritizing_keeps_accounts(accounts: Seq<ForgeUserView>, host: Seq<char>)
    ensures
        prioritized_accounts(accounts, host, None).to_multiset() =~= accounts.to_multiset(),
{
    lemma_split_keeps_accounts(accounts, host);
}

/// After prioritizing, every account the repository host belongs to comes
/// before every account it does not belong to.
pub proof fn law_matching_accounts_come_first(accounts: Seq<ForgeUserView>, host: Seq<char>)
    ensures
        forall|i: int, j: int|
            0 <= i < j < prioritized_accounts(accounts, host, None).len() && account_matches_repository(
                #[trigger] prioritized_accounts(accounts, host, None)[j],
                host,
            ) ==> account_matches_repository(
                #[trigger] prioritized_accounts(accounts, host, None)[i],
                host,
            ),
{
    let t = accounts_with_match(accounts, host, true);
    let f = accounts_with_match(accounts, host, false);
    lemma_accounts_with_match_sides(accounts, host, true);
    lemma_accounts_with_match_sides(accounts, host, false);
    let s = prioritized_accounts(accounts, host, None);
    assert(s == t + f);
    assert forall|i: int, j: int|
        0 <= i < j < s.len() && account_matches_repository(#[trigger] s[j], host) implies account_matches_repository(
        #[trigger] s[i],
        host,
    ) by {
        if j >= t.len() {
            assert(s[j] == f[j - t.len()]);
        }
        assert(s[i] == t[i]);
    }
}

/// A preferred account that the repository host belongs to comes first,
/// and prioritizing otherwise keeps the accounts: it is moved to the front
/// when known, added in front when not.
pub proof fn law_preferred_matching_account_comes_first(
    accounts: Seq<ForgeUserView>,
    host: Seq<char>,
    preferred: ForgeUserView,
)
    requires
        account_matches_repository(preferred, host),
    ensures
        prioritized_accounts(accounts, host, Some(preferred))[0] == preferred,
        prioritized_accounts(accounts, host, Some(preferred)).to_multiset() =~= if accounts.contains(
            preferred,
        ) {
            accounts.to_multiset()
        } else {
            accounts.to_multiset().insert(preferred)
        },
{
    broadcast use vstd::seq_lib::group_to_multiset_ensures;
    broadcast use vstd::multiset::group_multiset_axioms;

    let sorted = accounts_with_match(accounts, host, true) + accounts_with_match(accounts, host, false);
    lemma_split_keeps_accounts(accounts, host);
    lemma_first_index_from(sorted, preferred, 0);
    let r = prioritized_accounts(accounts, host, Some(preferred));
    match first_index_from(sorted, preferred, 0) {
        Some(i) => {
            assert(r == seq![preferred] + sorted.remove(i));
            vstd::seq_lib::lemma_multiset_commutative(seq![preferred], sorted.remove(i));
            assert(seq![preferred] =~= Seq::<ForgeUserView>::empty().push(preferred));
            assert(sorted.to_multiset().count(preferred) > 0);
            assert(accounts.to_multiset().count(preferred) > 0);
        },
        None => {
            assert(r == seq![preferred] + sorted);
            vstd::seq_lib::lemma_multiset_commutative(seq![preferred], sorted);
            assert(seq![preferred] =~= Seq::<ForgeUserView>::empty().push(preferred));
            assert(!sorted.contains(preferred));
            assert(sorted.to_multiset().count(preferred) == 0);
            assert(accounts.to_multiset().count(preferred) == 0);
        },
    }
}

/// A preferred account that is gone from the known accounts of its forge
/// gives no login: the forge's client refuses rather than falling back to
/// another account.
pub proof fn law_gone_preferred_account_has_no_login(
    preferred: ForgeUserView,
    github: Seq<HostedAccountView>,
    gitlab: Seq<HostedAccountView>,
    gitea: Seq<GiteaAccountView>,
)
    requires
        match preferred {
            ForgeUserView::GitHub(a) => !github.contains(a),
            ForgeUserView::GitLab(a) => !gitlab.contains(a),
            ForgeUserView::Gitea(a) => !gitea.contains(a),
            ForgeUserView::Bitbucket(_) => true,
        },
    ensures
        forge_login(Some(preferred), forge_of_user(preferred), github, gitlab, gitea) is None,
{
}

/// A preferred account still among the known accounts of its forge is the
/// login, whatever other accounts are known.
pub proof fn law_known_preferred_account_is_the_login(
    preferred: ForgeUserView,
    github: Seq<HostedAccountView>,
    gitlab: Seq<HostedAccountView>,
    gitea: Seq<GiteaAccountView>,
)
    requires
        match preferred {
            ForgeUserView::GitHub(a) => github.contains(a),
            ForgeUserView::GitLab(a) => gitlab.contains(a),
            ForgeUserView::Gitea(a) => gitea.contains(a),
            ForgeUserView::Bitbucket(_) => false,
        },
    ensures
        forge_login(Some(preferred), forge_of_user(preferred), github, gitlab, gitea) == Some(
            match preferred {
                ForgeUserView::GitHub(a) => a.username,
                ForgeUserView::GitLab(a) => a.username,
                ForgeUserView::Gitea(a) => a.username,
                ForgeUserView::Bitbucket(a) => a.username,
            },
        ),
{
}

/// Where the host names Gitea, or no forge, the known accounts are consulted
/// as a whole: the answer equals that of deriving with all the accounts (so
/// a Gitea instance mounted under a base path has that path stripped); where
/// the host names another forge, the accounts make no difference.
pub proof fn law_gitea_hosts_consult_accounts(url: Seq<char>, accounts: Seq<ForgeUserView>)
    ensures
        parse_remote(url) matches Some(remote) ==> (forge_of_host(remote.host) is None
            || forge_of_host(remote.host) == Some(ForgeName::Gitea) ==> repo_info_for_url(url, accounts)
            == repo_info_from_remote(remote, forge_of_host(remote.host), accounts)),
        parse_remote(url) matches Some(remote) ==> (forge_of_host(remote.host) is Some
            && forge_of_host(remote.host) != Some(ForgeName::Gitea) ==> repo_info_for_url(url, accounts)
            == repo_info_for_url(url, Seq::empty())),
{
}

} // verus!
