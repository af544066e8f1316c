//! Supported forges, the repository a remote names on them, and the forge
//! accounts a user has configured.
use vstd::prelude::*;
use crate::account::{GiteaAccountIdentifier, GiteaAccountView, copy_opt_string, eq_opt_string, opt_view};
use crate::text::{chars_of, contains, contains_chars, eq_chars, starts_with, starts_with_chars};

verus! {

broadcast use vstd::string::group_string_axioms;

/// Supported git forge types.
#[derive(PartialEq, Eq, Structural, Debug, Clone, Copy)]
pub enum ForgeName {
    GitHub,
    GitLab,
    Gitea,
    Bitbucket,
    Azure,
}

/// The forge a lowercase slug names.
pub open spec fn forge_of_slug(name: Seq<char>) -> Option<ForgeName> {
    if name == "github"@ {
        Some(ForgeName::GitHub)
    } else if name == "gitlab"@ {
        Some(ForgeName::GitLab)
    } else if name == "gitea"@ {
        Some(ForgeName::Gitea)
    } else if name == "bitbucket"@ {
        Some(ForgeName::Bitbucket)
    } else if name == "azure"@ {
        Some(ForgeName::Azure)
    } else {
        None
    }
}

fn is_word(name: &Vec<char>, word: &str) -> (r: bool)
    ensures
        r == (name@ == word@),
{
    eq_chars(name, &chars_of(word))
}

impl ForgeName {
    /// The forge a lowercase slug (`github`, `gitlab`, `gitea`, `bitbucket`,
    /// `azure`) names.
    pub fn from_slug(name: &str) -> (r: Option<Self>)
        ensures
            r == forge_of_slug(name@),
    {
        let n = chars_of(name);
        if is_word(&n, "github") {
            Some(Self::GitHub)
        } else if is_word(&n, "gitlab") {
            Some(Self::GitLab)
        } else if is_word(&n, "gitea") {
            Some(Self::Gitea)
        } else if is_word(&n, "bitbucket") {
            Some(Self::Bitbucket)
        } else if is_word(&n, "azure") {
            Some(Self::Azure)
        } else {
            None
        }
    }
}

/// The forge a host name identifies by its well-known names: `github.com`,
/// `gitlab.com`, `gitea`, `bitbucket.org`, `azure.com` anywhere in it, or a
/// host starting with `github.` or `gitlab.`; checked in that order.
pub open spec fn forge_of_host(host: Seq<char>) -> Option<ForgeName> {
    if contains(host, "github.com"@) || starts_with(host, "github."@) {
        Some(ForgeName::GitHub)
    } else if contains(host, "gitlab.com"@) || starts_with(host, "gitlab."@) {
        Some(ForgeName::GitLab)
    } else if contains(host, "gitea"@) {
        Some(ForgeName::Gitea)
    } else if contains(host, "bitbucket.org"@) {
        Some(ForgeName::Bitbucket)
    } else if contains(host, "azure.com"@) {
        Some(ForgeName::Azure)
    } else {
        None
    }
}

/// The forge a host name identifies by its well-known names.
pub fn determine_forge_from_host(host: &str) -> (r: Option<ForgeName>)
    ensures
        r == forge_of_host(host@),
{
    let h = chars_of(host);
    if contains_chars(&h, &chars_of("github.com")) || starts_with_chars(&h, &chars_of("github.")) {
        Some(ForgeName::GitHub)
    } else if contains_chars(&h, &chars_of("gitlab.com")) || starts_with_chars(
        &h,
        &chars_of("gitlab."),
    ) {
        Some(ForgeName::GitLab)
    } else if contains_chars(&h, &chars_of("gitea")) {
        Some(ForgeName::Gitea)
    } else if contains_chars(&h, &chars_of("bitbucket.org")) {
        Some(ForgeName::Bitbucket)
    } else if contains_chars(&h, &chars_of("azure.com")) {
        Some(ForgeName::Azure)
    } else {
        None
    }
}

/// The repository a remote names on a forge.
#[derive(Debug)]
pub struct ForgeRepoInfo {
    pub forge: ForgeName,
    pub owner: String,
    pub repo: String,
    pub protocol: String,
}

impl PartialEq for ForgeRepoInfo {
    /// Two infos name the same repository: same forge, owner and repository,
    /// whatever the protocol.
    fn eq(&self, other: &Self) -> (r: bool) {
        self.forge == other.forge && eq_chars(&chars_of(self.owner.as_str()), &chars_of(other.owner.as_str()))
            && eq_chars(&chars_of(self.repo.as_str()), &chars_of(other.repo.as_str()))
    }
}

impl vstd::std_specs::cmp::PartialEqSpecImpl for ForgeRepoInfo {
    open spec fn obeys_eq_spec() -> bool {
        true
    }

    open spec fn eq_spec(&self, other: &ForgeRepoInfo) -> bool {
        self.forge == other.forge && self.owner@ == other.owner@ && self.repo@ == other.repo@
    }
}

/// A GitHub, GitLab or Bitbucket account identifier, as the logic here reads
/// it: its kind (such as `oauth`, `pat`, `enterprise`), the username, and the
/// custom instance host of enterprise and self-hosted accounts.
#[derive(Debug)]
pub struct HostedAccount {
    pub kind: String,
    pub username: String,
    pub custom_host: Option<String>,
}

/// The abstract content of a [`HostedAccount`].
pub struct HostedAccountView {
    pub kind: Seq<char>,
    pub username: Seq<char>,
    pub custom_host: Option<Seq<char>>,
}

impl View for HostedAccount {
    type V = HostedAccountView;

    open spec fn view(&self) -> HostedAccountView {
        HostedAccountView {
            kind: self.kind@,
            username: self.username@,
            custom_host: opt_view(self.custom_host),
        }
    }
}

impl HostedAccount {
    /// An identifier of the given kind.
    pub fn new(kind: &str, username: &str, custom_host: Option<&str>) -> (r: Self)
        ensures
            r@.kind == kind@,
            r@.username == username@,
            r@.custom_host == match custom_host {
                Some(h) => Some(h@),
                None => None,
            },
    {
        HostedAccount {
            kind: kind.to_string(),
            username: username.to_string(),
            custom_host: match custom_host {
                Some(h) => Some(h.to_string()),
                None => None,
            },
        }
    }

    /// The account username.
    pub fn username(&self) -> (r: &str)
        ensures
            r@ == self@.username,
    {
        self.username.as_str()
    }

    /// The custom instance host, if the account has one.
    pub fn custom_host(&self) -> (r: Option<String>)
        ensures
            opt_view(r) == self@.custom_host,
    {
        copy_opt_string(&self.custom_host)
    }

    /// Both identifiers hold the same kind, username and custom host.
    pub fn same_as(&self, other: &Self) -> (r: bool)
        ensures
            r == (self@ == other@),
    {
        eq_chars(&chars_of(self.kind.as_str()), &chars_of(other.kind.as_str())) && eq_chars(
            &chars_of(self.username.as_str()),
            &chars_of(other.username.as_str()),
        ) && eq_opt_string(&self.custom_host, &other.custom_host)
    }
}

impl Clone for HostedAccount {
    fn clone(&self) -> (r: Self)
        ensures
            r@ == self@,
    {
        HostedAccount {
            kind: self.kind.clone(),
            username: self.username.clone(),
            custom_host: copy_opt_string(&self.custom_host),
        }
    }
}

/// An account on one of the supported forges.
#[derive(Debug)]
pub enum ForgeUser {
    GitHub(HostedAccount),
    GitLab(HostedAccount),
    Bitbucket(HostedAccount),
    Gitea(GiteaAccountIdentifier),
}

/// The abstract content of a [`ForgeUser`].
pub enum ForgeUserView {
    GitHub(HostedAccountView),
    GitLab(HostedAccountView),
    Bitbucket(HostedAccountView),
    Gitea(GiteaAccountView),
}

impl View for ForgeUser {
    type V = ForgeUserView;

    open spec fn view(&self) -> ForgeUserView {
        match self {
            ForgeUser::GitHub(a) => ForgeUserView::GitHub(a@),
            ForgeUser::GitLab(a) => ForgeUserView::GitLab(a@),
            ForgeUser::Bitbucket(a) => ForgeUserView::Bitbucket(a@),
            ForgeUser::Gitea(a) => ForgeUserView::Gitea(a@),
        }
    }
}

impl Clone for ForgeUser {
    fn clone(&self) -> (r: Self)
        ensures
            r@ == self@,
    {
        match self {
            ForgeUser::GitHub(a) => ForgeUser::GitHub(a.clone()),
            ForgeUser::GitLab(a) => ForgeUser::GitLab(a.clone()),
            ForgeUser::Bitbucket(a) => ForgeUser::Bitbucket(a.clone()),
            ForgeUser::Gitea(a) => ForgeUser::Gitea(a.clone()),
        }
    }
}

/// The forge an account belongs to.
pub open spec fn forge_of_user(u: ForgeUserView) -> ForgeName {
    match u {
        ForgeUserView::GitHub(_) => ForgeName::GitHub,
        ForgeUserView::GitLab(_) => ForgeName::GitLab,
        ForgeUserView::Bitbucket(_) => ForgeName::Bitbucket,
        ForgeUserView::Gitea(_) => ForgeName::Gitea,
    }
}

/// The enterprise or self-hosted instance host of an account.
pub open spec fn custom_host_of_user(u: ForgeUserView) -> Option<Seq<char>> {
    match u {
        ForgeUserView::GitHub(a) => a.custom_host,
        ForgeUserView::GitLab(a) => a.custom_host,
        ForgeUserView::Bitbucket(a) => a.custom_host,
        ForgeUserView::Gitea(a) => Some(a.host),
    }
}

impl ForgeUser {
    /// The preferred user a settings file written before forge users were
    /// tagged holds as a bare string: a GitHub OAuth username.
    pub fn from_legacy_username(username: &str) -> (r: ForgeUser)
        ensures
            r@ == ForgeUserView::GitHub(
                HostedAccountView { kind: "oauth"@, username: username@, custom_host: None },
            ),
    {
        ForgeUser::GitHub(HostedAccount::new("oauth", username, None))
    }

    /// The GitHub identifier, for a GitHub account.
    pub fn github(&self) -> (r: Option<&HostedAccount>)
        ensures
            match self@ {
                ForgeUserView::GitHub(a) => r matches Some(x) && x@ == a,
                _ => r is None,
            },
    {
        match self {
            ForgeUser::GitHub(id) => Some(id),
            _ => None,
        }
    }

    /// The GitLab identifier, for a GitLab account.
    pub fn gitlab(&self) -> (r: Option<&HostedAccount>)
        ensures
            match self@ {
                ForgeUserView::GitLab(a) => r matches Some(x) && x@ == a,
                _ => r is None,
            },
    {
        match self {
            ForgeUser::GitLab(id) => Some(id),
            _ => None,
        }
    }

    /// The Bitbucket identifier, for a Bitbucket account.
    pub fn bitbucket(&self) -> (r: Option<&HostedAccount>)
        ensures
            match self@ {
                ForgeUserView::Bitbucket(a) => r matches Some(x) && x@ == a,
                _ => r is None,
            },
    {
        match self {
            ForgeUser::Bitbucket(id) => Some(id),
            _ => None,
        }
    }

    /// The Gitea identifier, for a Gitea account.
    pub fn gitea(&self) -> (r: Option<&GiteaAccountIdentifier>)
        ensures
            match self@ {
                ForgeUserView::Gitea(a) => r matches Some(x) && x@ == a,
                _ => r is None,
            },
    {
        match self {
            ForgeUser::Gitea(id) => Some(id),
            _ => None,
        }
    }

    /// The forge this account belongs to.
    pub fn forge_name(&self) -> (r: ForgeName)
        ensures
            r == forge_of_user(self@),
    {
        match self {
            ForgeUser::GitHub(_) => ForgeName::GitHub,
            ForgeUser::GitLab(_) => ForgeName::GitLab,
            ForgeUser::Bitbucket(_) => ForgeName::Bitbucket,
            ForgeUser::Gitea(_) => ForgeName::Gitea,
        }
    }

    /// The enterprise/self-hosted instance host, when the account has one.
    pub fn custom_host(&self) -> (r: Option<String>)
        ensures
            opt_view(r) == custom_host_of_user(self@),
    {
        match self {
            ForgeUser::GitHub(id) => id.custom_host(),
            ForgeUser::GitLab(id) => id.custom_host(),
            ForgeUser::Bitbucket(id) => id.custom_host(),
            ForgeUser::Gitea(id) => id.custom_host(),
        }
    }

    /// Both values hold the same account.
    pub fn same_as(&self, other: &Self) -> (r: bool)
        ensures
            r == (self@ == other@),
    {
        match (self, other) {
            (ForgeUser::GitHub(a), ForgeUser::GitHub(b)) => a.same_as(b),
            (ForgeUser::GitLab(a), ForgeUser::GitLab(b)) => a.same_as(b),
            (ForgeUser::Bitbucket(a), ForgeUser::Bitbucket(b)) => a.same_as(b),
            (ForgeUser::Gitea(a), ForgeUser::Gitea(b)) => a.same_identifier(b),
            _ => false,
        }
    }
}

/// The well-known names decide the forge: a host starting with `github.` or
/// holding `github.com` is GitHub; one starting with `gitlab.` or holding
/// `gitlab.com` (and naming no GitHub) is GitLab; one holding `gitea` (and
/// naming neither) is Gitea; and a host naming none of the forges has none.
pub proof fn law_host_names_decide_forge(host: Seq<char>)
    ensures
        starts_with(host, "github."@) || contains(host, "github.com"@) ==> forge_of_host(host)
            == Some(ForgeName::GitHub),
        (starts_with(host, "gitlab."@) || contains(host, "gitlab.com"@)) && !starts_with(
            host,
            "github."@,
        ) && !contains(host, "github.com"@) ==> forge_of_host(host) == Some(ForgeName::GitLab),
        contains(host, "gitea"@) && !starts_with(host, "github."@) && !contains(host, "github.com"@)
            && !starts_with(host, "gitlab."@) && !contains(host, "gitlab.com"@) ==> forge_of_host(host)
            == Some(ForgeName::Gitea),
        contains(host, "bitbucket.org"@) && !starts_with(host, "github."@) && !contains(
            host,
            "github.com"@,
        ) && !starts_with(host, "gitlab."@) && !contains(host, "gitlab.com"@) && !contains(host, "gitea"@)
            ==> forge_of_host(host) == Some(ForgeName::Bitbucket),
        contains(host, "azure.com"@) && !starts_with(host, "github."@) && !contains(host, "github.com"@)
            && !starts_with(host, "gitlab."@) && !contains(host, "gitlab.com"@) && !contains(host, "gitea"@)
            && !contains(host, "bitbucket.org"@) ==> forge_of_host(host) == Some(ForgeName::Azure),
        forge_of_host(host) is Some ==> starts_with(host, "github."@) || contains(host, "github.com"@)
            || starts_with(host, "gitlab."@) || contains(host, "gitlab.com"@) || contains(host, "gitea"@)
            || contains(host, "bitbucket.org"@) || contains(host, "azure.com"@),
{
}

} // verus!
