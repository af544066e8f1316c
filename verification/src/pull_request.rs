//! Gitea pull requests, users, labels, repositories and commit statuses as
//! the API returns them, and as the library hands them out.
use vstd::prelude::*;
use crate::draft::{has_draft_prefix, has_draft_prefix_in, title_for_draft_state, update_draft_state_in_title};
use crate::account::{copy_opt_string, opt_view};
use crate::text::{chars_of, eq_chars};

verus! {

broadcast use vstd::string::group_string_axioms;

// ---------------------------------------------------------------------------
// What the Gitea API returns
// ---------------------------------------------------------------------------

/// A user as the Gitea API returns it.
pub struct GiteaApiUser {
    pub id: i64,
    pub login: String,
    pub full_name: Option<String>,
    pub email: Option<String>,
    pub avatar_url: Option<String>,
    pub restricted: bool,
}

/// A label as the Gitea API returns it.
pub struct GiteaApiLabel {
    pub name: String,
    pub description: Option<String>,
    pub color: Option<String>,
}

/// The repository of a pull request branch as the Gitea API returns it.
pub struct GiteaApiRepository {
    pub clone_url: Option<String>,
    pub ssh_url: Option<String>,
    pub owner: Option<GiteaApiUser>,
}

/// One side (head or base) of a pull request as the Gitea API returns it.
pub struct GiteaApiPullRef {
    pub name: Option<String>,
    pub ref_: Option<String>,
    pub sha: Option<String>,
    pub repo: Option<GiteaApiRepository>,
}

/// A pull request as the Gitea API returns it.
pub struct GiteaPullRequest {
    pub html_url: String,
    pub number: i64,
    pub title: String,
    pub body: Option<String>,
    pub user: Option<GiteaApiUser>,
    pub labels: Option<Vec<GiteaApiLabel>>,
    pub draft: Option<bool>,
    pub head: Option<GiteaApiPullRef>,
    pub base: Option<GiteaApiPullRef>,
    pub created_at: Option<String>,
    pub updated_at: Option<String>,
    pub merged_at: Option<String>,
    pub closed_at: Option<String>,
    pub requested_reviewers: Option<Vec<GiteaApiUser>>,
    pub mergeable: Option<bool>,
    pub comments: i64,
}

// ---------------------------------------------------------------------------
// What the library hands out
// ---------------------------------------------------------------------------

/// A Gitea user.
#[derive(Debug)]
pub struct GiteaUser {
    /// The user ID.
    pub id: i64,
    /// The Gitea username.
    pub login: String,
    /// The user's display name, if available.
    pub name: Option<String>,
    /// The user's email address, if available.
    pub email: Option<String>,
    /// URL to the user's avatar image, if available.
    pub avatar_url: Option<String>,
    /// Whether the user is a bot.
    pub is_bot: bool,
}

/// A Gitea label.
#[derive(Debug)]
pub struct GiteaLabel {
    /// The label name.
    pub name: String,
    /// The label description.
    pub description: Option<String>,
    /// The label color.
    pub color: Option<String>,
}

/// A Gitea pull request.
#[derive(Debug)]
pub struct PullRequest {
    /// The pull request web URL.
    pub html_url: String,
    /// The pull request number.
    pub number: i64,
    /// The pull request title.
    pub title: String,
    /// The pull request body.
    pub body: Option<String>,
    /// The pull request author.
    pub author: Option<GiteaUser>,
    /// The pull request labels.
    pub labels: Vec<GiteaLabel>,
    /// Whether the pull request is marked WIP.
    pub draft: bool,
    /// The source branch.
    pub source_branch: String,
    /// The target branch.
    pub target_branch: String,
    /// The head commit SHA.
    pub sha: String,
    /// ISO 8601 creation timestamp.
    pub created_at: Option<String>,
    /// ISO 8601 update timestamp.
    pub updated_at: Option<String>,
    /// ISO 8601 merge timestamp.
    pub merged_at: Option<String>,
    /// ISO 8601 close timestamp.
    pub closed_at: Option<String>,
    /// SSH clone URL of the head repository.
    pub repository_ssh_url: Option<String>,
    /// HTTPS clone URL of the head repository.
    pub repository_https_url: Option<String>,
    /// Owner of the head repository.
    pub repo_owner: Option<String>,
    /// Users asked to look over the pull request.
    pub requested_reviewers: Vec<GiteaUser>,
    /// Whether Gitea considers the pull request mergeable.
    pub mergeable: Option<bool>,
    /// Number of comments.
    pub comments_count: i64,
}

// ---------------------------------------------------------------------------
// Conversions
// ---------------------------------------------------------------------------

/// The user the API describes: its `full_name` becomes the name, and
/// restricted users are the bots.
pub open spec fn user_from_api(u: GiteaApiUser) -> GiteaUser {
    GiteaUser {
        id: u.id,
        login: u.login,
        name: u.full_name,
        email: u.email,
        avatar_url: u.avatar_url,
        is_bot: u.restricted,
    }
}

/// The label the API describes.
pub open spec fn label_from_api(l: GiteaApiLabel) -> GiteaLabel {
    GiteaLabel { name: l.name, description: l.description, color: l.color }
}

impl GiteaUser {
    /// The user the API describes.
    pub fn from_api(user: GiteaApiUser) -> (r: Self)
        ensures
            r == user_from_api(user),
    {
        GiteaUser {
            id: user.id,
            login: user.login,
            name: user.full_name,
            email: user.email,
            avatar_url: user.avatar_url,
            is_bot: user.restricted,
        }
    }
}

impl GiteaLabel {
    /// The label the API describes.
    pub fn from_api(label: GiteaApiLabel) -> (r: Self)
        ensures
            r == label_from_api(label),
    {
        GiteaLabel { name: label.name, description: label.description, color: label.color }
    }
}

/// The branch name of a pull request side: its `ref`, else its `name`, else
/// empty.
pub open spec fn ref_name_of(reference: Option<GiteaApiPullRef>) -> Seq<char> {
    match reference {
        Some(r) => match r.ref_ {
            Some(x) => x@,
            None => match r.name {
                Some(n) => n@,
                None => seq![],
            },
        },
        None => seq![],
    }
}

/// The branch name of a pull request side.
pub fn ref_name(reference: Option<&GiteaApiPullRef>) -> (r: String)
    ensures
        r@ == ref_name_of(
            match reference {
                Some(x) => Some(*x),
                None => None,
            },
        ),
{
    match reference {
        Some(r) => match &r.ref_ {
            Some(x) => x.clone(),
            None => match &r.name {
                Some(n) => n.clone(),
                None => String::new(),
            },
        },
        None => String::new(),
    }
}

/// The users the API describes, in order.
fn users_from_api(users: Vec<GiteaApiUser>) -> (r: Vec<GiteaUser>)
    ensures
        r@ == users@.map_values(|u: GiteaApiUser| user_from_api(u)),
{
    let ghost input = users@;
    let mut out: Vec<GiteaUser> = Vec::new();
    for u in it: users.into_iter()
        invariant
            it.seq() == input,
            out@ == input.take(it.index() as int).map_values(|u: GiteaApiUser| user_from_api(u)),
    {
        let ghost k = it.index();
        out.push(GiteaUser::from_api(u));
        proof {
            assert(input.take(k + 1).map_values(|u: GiteaApiUser| user_from_api(u)) =~= input.take(
                k as int,
            ).map_values(|u: GiteaApiUser| user_from_api(u)).push(user_from_api(input[k as int])));
        }
    }
    proof {
        assert(input.take(input.len() as int) =~= input);
    }
    out
}

/// The labels the API describes, in order.
fn labels_from_api(labels: Vec<GiteaApiLabel>) -> (r: Vec<GiteaLabel>)
    ensures
        r@ == labels@.map_values(|l: GiteaApiLabel| label_from_api(l)),
{
    let ghost input = labels@;
    let mut out: Vec<GiteaLabel> = Vec::new();
    for l in it: labels.into_iter()
        invariant
            it.seq() == input,
            out@ == input.take(it.index() as int).map_values(|l: GiteaApiLabel| label_from_api(l)),
    {
        let ghost k = it.index();
        out.push(GiteaLabel::from_api(l));
        proof {
            assert(input.take(k + 1).map_values(|l: GiteaApiLabel| label_from_api(l)) =~= input.take(
                k as int,
            ).map_values(|l: GiteaApiLabel| label_from_api(l)).push(label_from_api(input[k as int])));
        }
    }
    proof {
        assert(input.take(input.len() as int) =~= input);
    }
    out
}

/// The head repository of a pull request side, if the API named one.
pub open spec fn side_repo(side: Option<GiteaApiPullRef>) -> Option<GiteaApiRepository> {
    match side {
        Some(s) => s.repo,
        None => None,
    }
}

/// The pull request the API describes. Where the API does not say whether
/// it is a draft, a work-in-progress marker in the title decides; missing
/// label and requested-user lists are empty; branches are the head and base
/// sides' names; the SHA is the head's (empty if missing); clone URLs and
/// owner come from the head repository.
pub open spec fn pull_request_matches_api(pr: PullRequest, api: GiteaPullRequest) -> bool {
    &&& pr.html_url == api.html_url
    &&& pr.number == api.number
    &&& pr.title == api.title
    &&& pr.body == api.body
    &&& pr.author == match api.user {
        Some(u) => Some(user_from_api(u)),
        None => None::<GiteaUser>,
    }
    &&& pr.labels@ == match api.labels {
        Some(ls) => ls@.map_values(|l: GiteaApiLabel| label_from_api(l)),
        None => Seq::<GiteaLabel>::empty(),
    }
    &&& pr.draft == match api.draft {
        Some(d) => d,
        None => has_draft_prefix(api.title@),
    }
    &&& pr.source_branch@ == ref_name_of(api.head)
    &&& pr.target_branch@ == ref_name_of(api.base)
    &&& pr.sha@ == match api.head {
        Some(h) => match h.sha {
            Some(s) => s@,
            None => Seq::<char>::empty(),
        },
        None => Seq::<char>::empty(),
    }
    &&& pr.created_at == api.created_at
    &&& pr.updated_at == api.updated_at
    &&& pr.merged_at == api.merged_at
    &&& pr.closed_at == api.closed_at
    &&& opt_view(pr.repository_ssh_url) == match side_repo(api.head) {
        Some(r) => opt_view(r.ssh_url),
        None => None,
    }
    &&& opt_view(pr.repository_https_url) == match side_repo(api.head) {
        Some(r) => opt_view(r.clone_url),
        None => None,
    }
    &&& opt_view(pr.repo_owner) == match side_repo(api.head) {
        Some(r) => match r.owner {
            Some(o) => Some(o.login@),
            None => None,
        },
        None => None,
    }
    &&& pr.requested_reviewers@ == match api.requested_reviewers {
        Some(us) => us@.map_values(|u: GiteaApiUser| user_from_api(u)),
        None => Seq::<GiteaUser>::empty(),
    }
    &&& pr.mergeable == api.mergeable
    &&& pr.comments_count == api.comments
}

impl PullRequest {
    /// The pull request the API describes.
    pub fn from_api(pr: GiteaPullRequest) -> (r: Self)
        ensures
            pull_request_matches_api(r, pr),
    {
        let ghost api = pr;
        let source_branch = ref_name(pr.head.as_ref());
        let target_branch = ref_name(pr.base.as_ref());
        let sha = match &pr.head {
            Some(h) => match &h.sha {
                Some(s) => s.clone(),
                None => String::new(),
            },
            None => String::new(),
        };
        let (repository_ssh_url, repository_https_url, repo_owner) = match &pr.head {
            Some(h) => match &h.repo {
                Some(repo) => (
                    copy_opt_string(&repo.ssh_url),
                    copy_opt_string(&repo.clone_url),
                    match &repo.owner {
                        Some(o) => Some(o.login.clone()),
                        None => None,
                    },
                ),
                None => (None, None, None),
            },
            None => (None, None, None),
        };
        let draft = match pr.draft {
            Some(d) => d,
            None => has_draft_prefix_in(pr.title.as_str()),
        };
        let author = match pr.user {
            Some(u) => Some(GiteaUser::from_api(u)),
            None => None,
        };
        let labels = match pr.labels {
            Some(ls) => labels_from_api(ls),
            None => Vec::new(),
        };
        let requested_reviewers = match pr.requested_reviewers {
            Some(us) => users_from_api(us),
            None => Vec::new(),
        };
        PullRequest {
            html_url: pr.html_url,
            number: pr.number,
            title: pr.title,
            body: pr.body,
            author,
            labels,
            draft,
            source_branch,
            target_branch,
            sha,
            created_at: pr.created_at,
            updated_at: pr.updated_at,
            merged_at: pr.merged_at,
            closed_at: pr.closed_at,
            repository_ssh_url,
            repository_https_url,
            repo_owner,
            requested_reviewers,
            mergeable: pr.mergeable,
            comments_count: pr.comments,
        }
    }
}

/// The pull requests among `prs` that target `target_branch`, in order.
pub open spec fn pulls_targeting(prs: Seq<PullRequest>, target_branch: Seq<char>) -> Seq<PullRequest> {
    prs.filter(|pr: PullRequest| pr.target_branch@ == target_branch)
}

/// Keep the pull requests that target `target_branch`.
pub fn filter_pulls_for_target(prs: Vec<PullRequest>, target_branch: &str) -> (r: Vec<PullRequest>)
    ensures
        r@ == pulls_targeting(prs@, target_branch@),
{
    let ghost input = prs@;
    let target = chars_of(target_branch);
    let mut out: Vec<PullRequest> = Vec::new();
    for pr in it: prs.into_iter()
        invariant
            it.seq() == input,
            target@ == target_branch@,
            out@ == pulls_targeting(input.take(it.index() as int), target_branch@),
    {
        let ghost k = it.index();
        proof {
            assert(input.take(k + 1).drop_last() =~= input.take(k as int));
            reveal_with_fuel(Seq::filter, 1);
        }
        if eq_chars(&chars_of(pr.target_branch.as_str()), &target) {
            out.push(pr);
        }
    }
    proof {
        assert(input.take(input.len() as int) =~= input);
    }
    out
}

/// Appends a page of pull requests as the API returned them to those already
/// listed, converted, in order.
pub fn append_page(pulls: &mut Vec<PullRequest>, page: Vec<GiteaPullRequest>)
    ensures
        final(pulls)@.len() == old(pulls)@.len() + page@.len(),
        forall|i: int| 0 <= i < old(pulls)@.len() ==> #[trigger] final(pulls)@[i] == old(pulls)@[i],
        forall|i: int|
            0 <= i < page@.len() ==> pull_request_matches_api(
                #[trigger] final(pulls)@[old(pulls)@.len() + i],
                page@[i],
            ),
{
    let ghost before = pulls@;
    let ghost input = page@;
    for pr in it: page.into_iter()
        invariant
            it.seq() == input,
            pulls@.len() == before.len() + it.index(),
            forall|i: int| 0 <= i < before.len() ==> #[trigger] pulls@[i] == before[i],
            forall|i: int|
                0 <= i < it.index() ==> pull_request_matches_api(
                    #[trigger] pulls@[before.len() + i],
                    input[i],
                ),
    {
        pulls.push(PullRequest::from_api(pr));
    }
}

} // verus!
