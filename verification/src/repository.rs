//! Repositories, commit statuses and the authenticated user, as the Gitea
//! API returns them and as the library hands them out.
use vstd::prelude::*;

verus! {

/// Repository permissions as the Gitea API returns them.
pub struct ApiPermissions {
    pub admin: bool,
    pub push: bool,
    pub pull: bool,
}

/// A repository as the Gitea API returns it.
pub struct ApiRepository {
    pub permissions: Option<ApiPermissions>,
    pub fork: bool,
    pub private: bool,
    pub default_delete_branch_after_merge: Option<bool>,
}

/// What the user may do in a repository.
#[derive(Debug, Clone, Copy, PartialEq, Eq, Structural)]
pub struct GiteaRepoPermissions {
    pub admin: bool,
    pub maintain: bool,
    pub push: bool,
    pub triage: bool,
    pub pull: bool,
}

/// A Gitea repository.
#[derive(Debug, Clone, Copy, PartialEq, Eq, Structural)]
pub struct GiteaRepository {
    pub permissions: Option<GiteaRepoPermissions>,
    pub fork: bool,
    pub private: bool,
    pub delete_branch_on_merge: Option<bool>,
}

/// The repository the API describes. Gitea has no separate maintain and
/// triage permissions: both follow push.
pub open spec fn repository_from_api(repo: ApiRepository) -> GiteaRepository {
    GiteaRepository {
        permissions: match repo.permissions {
            Some(p) => Some(
                GiteaRepoPermissions {
                    admin: p.admin,
                    maintain: p.push,
                    push: p.push,
                    triage: p.push,
                    pull: p.pull,
                },
            ),
            None => None,
        },
        fork: repo.fork,
        private: repo.private,
        delete_branch_on_merge: repo.default_delete_branch_after_merge,
    }
}

impl GiteaRepository {
    /// The repository the API describes.
    pub fn from_api(repo: ApiRepository) -> (r: Self)
        ensures
            r == repository_from_api(repo),
    {
        GiteaRepository {
            permissions: match repo.permissions {
                Some(p) => Some(
                    GiteaRepoPermissions {
                        admin: p.admin,
                        maintain: p.push,
                        push: p.push,
                        triage: p.push,
                        pull: p.pull,
                    },
                ),
                None => None,
            },
            fork: repo.fork,
            private: repo.private,
            delete_branch_on_merge: repo.default_delete_branch_after_merge,
        }
    }
}

/// A commit status as the Gitea API returns it.
pub struct ApiStatus {
    pub id: i64,
    pub context: String,
    pub description: Option<String>,
    pub status: String,
    pub target_url: Option<String>,
    pub url: Option<String>,
    pub created_at: Option<String>,
    pub updated_at: Option<String>,
}

/// A commit status of a commit.
#[derive(Debug)]
pub struct GiteaCommitStatus {
    pub id: i64,
    pub context: String,
    pub description: Option<String>,
    pub status: String,
    pub target_url: Option<String>,
    pub url: Option<String>,
    pub created_at: Option<String>,
    pub updated_at: Option<String>,
    /// The SHA of the commit the status belongs to.
    pub head_sha: String,
}

/// The status the API describes, for the commit `sha`.
pub open spec fn status_matches_api(c: GiteaCommitStatus, s: ApiStatus, sha: Seq<char>) -> bool {
    c.id == s.id && c.context == s.context && c.description == s.description && c.status
            == s.status && c.target_url == s.target_url && c.url == s.url && c.created_at
            == s.created_at && c.updated_at == s.updated_at && c.head_sha@ == sha
}

/// The statuses the API lists for the commit `sha`, in order, each tagged
/// with that SHA.
pub fn statuses_from_api(statuses: Vec<ApiStatus>, sha: &str) -> (r: Vec<GiteaCommitStatus>)
    ensures
        r@.len() == statuses@.len(),
        forall|i: int| 0 <= i < r@.len() ==> status_matches_api(#[trigger] r@[i], statuses@[i], sha@),
{
    let ghost input = statuses@;
    let mut out: Vec<GiteaCommitStatus> = Vec::new();
    for s in it: statuses.into_iter()
        invariant
            it.seq() == input,
            out@.len() == it.index(),
            forall|i: int| 0 <= i < out@.len() ==> status_matches_api(#[trigger] out@[i], input[i], sha@),
    {
        out.push(
            GiteaCommitStatus {
                id: s.id,
                context: s.context,
                description: s.description,
                status: s.status,
                target_url: s.target_url,
                url: s.url,
                created_at: s.created_at,
                updated_at: s.updated_at,
                head_sha: sha.to_string(),
            },
        );
    }
    out
}

/// The authenticated user as the Gitea API returns it.
pub struct ApiAuthenticatedUser {
    pub login: String,
    pub full_name: Option<String>,
    pub email: Option<String>,
    pub avatar_url: Option<String>,
}

/// A user returned from the authenticated-user endpoint.
#[derive(Debug)]
pub struct AuthenticatedUser {
    /// The Gitea username.
    pub username: String,
    /// URL to the user's avatar image, if available.
    pub avatar_url: Option<String>,
    /// The user's display name, if available.
    pub name: Option<String>,
    /// The user's email address, if available.
    pub email: Option<String>,
}

/// The authenticated user the API describes: `login` is the username and
/// `full_name` the name.
pub open spec fn authenticated_user_from_api(u: ApiAuthenticatedUser) -> AuthenticatedUser {
    AuthenticatedUser {
        username: u.login,
        avatar_url: u.avatar_url,
        name: u.full_name,
        email: u.email,
    }
}

impl AuthenticatedUser {
    /// The authenticated user the API describes.
    pub fn from_api(user: ApiAuthenticatedUser) -> (r: Self)
        ensures
            r == authenticated_user_from_api(user),
    {
        AuthenticatedUser {
            username: user.login,
            avatar_url: user.avatar_url,
            name: user.full_name,
            email: user.email,
        }
    }
}

} // verus!
