//! What the Gitea client sends: endpoint URLs, parameters, paging, and the
//! decisions taken between requests.
use vstd::prelude::*;
use crate::draft::{title_for_draft_state, update_draft_state_in_title};
use crate::text::{chars_of, concat, eq_chars, string_from_chars};
use vstd::string::StringSliceAdditionalSpecFns;

verus! {

broadcast use vstd::string::group_string_axioms;

// ---------------------------------------------------------------------------
// Decimal and percent encoding
// ---------------------------------------------------------------------------

/// The ASCII digit for `d < 10`.
pub open spec fn digit_char(d: nat) -> char {
    ((d + 48) as u8) as char
}

/// Decimal digits of a natural number, most significant first.
pub open spec fn digits_of(n: nat) -> Seq<char>
    decreases n,
{
    if n < 10 {
        seq![digit_char(n)]
    } else {
        digits_of(n / 10).push(digit_char(n % 10))
    }
}

/// Decimal text of an integer, with a leading `-` when negative.
pub open spec fn decimal(n: int) -> Seq<char> {
    if n < 0 {
        seq!['-'] + digits_of((-n) as nat)
    } else {
        digits_of(n as nat)
    }
}

fn digits(n: u64) -> (r: Vec<char>)
    ensures
        r@ == digits_of(n as nat),
    decreases n,
{
    let c = ((n % 10) as u8 + 48) as char;
    if n < 10 {
        let mut v: Vec<char> = Vec::new();
        v.push(c);
        proof {
            assert(v@ =~= seq![digit_char(n as nat)]);
        }
        v
    } else {
        let mut v = digits(n / 10);
        v.push(c);
        v
    }
}

/// Decimal text of an integer.
pub fn decimal_text(n: i64) -> (r: String)
    ensures
        r@ == decimal(n as int),
{
    if n < 0 {
        let magnitude: u64 = if n == i64::MIN {
            9223372036854775808u64
        } else {
            (-n) as u64
        };
        let minus = vec!['-'];
        proof {
            assert(minus@ =~= seq!['-']);
        }
        string_from_chars(&concat(&minus, &digits(magnitude)))
    } else {
        string_from_chars(&digits(n as u64))
    }
}

/// Bytes that `urlencoding::encode` keeps: ASCII alphanumerics and `-`,
/// `.`, `_`, `~`.
pub open spec fn unreserved_byte(b: u8) -> bool {
    ||| (48 <= b <= 57)
    ||| (65 <= b <= 90)
    ||| (97 <= b <= 122)
    ||| b == 45
    ||| b == 46
    ||| b == 95
    ||| b == 126
}

/// Uppercase hexadecimal digit for `d < 16`.
pub open spec fn hex_upper(d: u8) -> char {
    if d < 10 {
        ((d + 48) as u8) as char
    } else {
        ((d + 55) as u8) as char
    }
}

/// Percent-encoding of bytes: unreserved bytes as their characters, every
/// other byte as `%` and two uppercase hexadecimal digits.
pub open spec fn percent_encoded(bytes: Seq<u8>) -> Seq<char>
    decreases bytes.len(),
{
    if bytes.len() == 0 {
        seq![]
    } else {
        let b = bytes[0];
        let head = if unreserved_byte(b) {
            seq![b as char]
        } else {
            seq!['%', hex_upper(b / 16), hex_upper(b % 16)]
        };
        head + percent_encoded(bytes.skip(1))
    }
}

/// `urlencoding::encode`: percent-encodes every byte of the UTF-8 text
/// except alphanumerics and `-`, `_`, `.`, `~`, with uppercase hexadecimal
/// digits.
#[verifier::external_body]
fn url_encode(text: &str) -> (r: String)
    ensures
        r@ == percent_encoded(text.spec_bytes()),
{
    urlencoding::encode(text).into_owned()
}

// ---------------------------------------------------------------------------
// Endpoints
// ---------------------------------------------------------------------------

/// `{base}/user`
pub fn user_url(base_url: &str) -> (r: String)
    ensures
        r@ == base_url@ + "/user"@,
{
    string_from_chars(&concat(&chars_of(base_url), &chars_of("/user")))
}

/// `{base}/repos/{owner}/{repo}`
pub open spec fn repo_path(base_url: Seq<char>, owner: Seq<char>, repo: Seq<char>) -> Seq<char> {
    base_url + "/repos/"@ + owner + "/"@ + repo
}

fn repo_path_chars(base_url: &str, owner: &str, repo: &str) -> (r: Vec<char>)
    ensures
        r@ == repo_path(base_url@, owner@, repo@),
{
    let a = concat(&chars_of(base_url), &chars_of("/repos/"));
    let b = concat(&a, &chars_of(owner));
    let c = concat(&b, &chars_of("/"));
    concat(&c, &chars_of(repo))
}

/// `{base}/repos/{owner}/{repo}`: the repository endpoint.
pub fn repo_url(base_url: &str, owner: &str, repo: &str) -> (r: String)
    ensures
        r@ == repo_path(base_url@, owner@, repo@),
{
    string_from_chars(&repo_path_chars(base_url, owner, repo))
}

/// `{base}/repos/{owner}/{repo}/commits`: the commits list, queried with the
/// reference to resolve.
pub fn commits_url(base_url: &str, owner: &str, repo: &str) -> (r: String)
    ensures
        r@ == repo_path(base_url@, owner@, repo@) + "/commits"@,
{
    string_from_chars(&concat(&repo_path_chars(base_url, owner, repo), &chars_of("/commits")))
}

/// `{base}/repos/{owner}/{repo}/commits/{sha}/statuses`, the SHA
/// percent-encoded.
pub fn statuses_url(base_url: &str, owner: &str, repo: &str, sha: &str) -> (r: String)
    ensures
        r@ == repo_path(base_url@, owner@, repo@) + "/commits/"@ + percent_encoded(sha.spec_bytes())
            + "/statuses"@,
{
    let encoded = url_encode(sha);
    let a = concat(&repo_path_chars(base_url, owner, repo), &chars_of("/commits/"));
    let b = concat(&a, &chars_of(encoded.as_str()));
    string_from_chars(&concat(&b, &chars_of("/statuses")))
}

/// `{base}/repos/{owner}/{repo}/pulls`: the pull request list.
pub fn pulls_url(base_url: &str, owner: &str, repo: &str) -> (r: String)
    ensures
        r@ == repo_path(base_url@, owner@, repo@) + "/pulls"@,
{
    string_from_chars(&concat(&repo_path_chars(base_url, owner, repo), &chars_of("/pulls")))
}

/// `{base}/repos/{owner}/{repo}/pulls/{number}`: one pull request.
pub fn pull_url(base_url: &str, owner: &str, repo: &str, pr_number: i64) -> (r: String)
    ensures
        r@ == repo_path(base_url@, owner@, repo@) + "/pulls/"@ + decimal(pr_number as int),
{
    let a = concat(&repo_path_chars(base_url, owner, repo), &chars_of("/pulls/"));
    let n = decimal_text(pr_number);
    string_from_chars(&concat(&a, &chars_of(n.as_str())))
}

/// `{base}/repos/{owner}/{repo}/pulls/{number}/merge`: the merge endpoint.
pub fn merge_url(base_url: &str, owner: &str, repo: &str, pr_number: i64) -> (r: String)
    ensures
        r@ == repo_path(base_url@, owner@, repo@) + "/pulls/"@ + decimal(pr_number as int)
            + "/merge"@,
{
    let p = pull_url(base_url, owner, repo, pr_number);
    string_from_chars(&concat(&chars_of(p.as_str()), &chars_of("/merge")))
}

/// The `Authorization` header value for a token: `token {token}`.
pub fn authorization_value(access_token: &str) -> (r: String)
    ensures
        r@ == "token "@ + access_token@,
{
    string_from_chars(&concat(&chars_of("token "), &chars_of(access_token)))
}

// ---------------------------------------------------------------------------
// Parameters
// ---------------------------------------------------------------------------

/// Parameters to create a Gitea pull request.
pub struct CreatePullRequestParams<'a> {
    /// Repository owner.
    pub owner: &'a str,
    /// Repository name.
    pub repo: &'a str,
    /// Pull request title.
    pub title: &'a str,
    /// Pull request body.
    pub body: &'a str,
    /// Source branch, optionally prefixed with `owner:`.
    pub head: &'a str,
    /// Target branch.
    pub base: &'a str,
    /// Whether to mark the pull request as WIP.
    pub draft: bool,
}

/// Parameters to update a Gitea pull request.
pub struct UpdatePullRequestParams<'a> {
    /// Repository owner.
    pub owner: &'a str,
    /// Repository name.
    pub repo: &'a str,
    /// Pull request number.
    pub pr_number: i64,
    /// Optional title update.
    pub title: Option<&'a str>,
    /// Optional body update.
    pub body: Option<&'a str>,
    /// Optional target branch update.
    pub base: Option<&'a str>,
    /// Optional state update.
    pub state: Option<&'a str>,
}

/// Parameters to merge a Gitea pull request.
pub struct MergePullRequestParams<'a> {
    /// Repository owner.
    pub owner: &'a str,
    /// Repository name.
    pub repo: &'a str,
    /// Pull request number.
    pub pr_number: i64,
    /// Optional commit title.
    pub commit_title: Option<&'a str>,
    /// Optional commit message.
    pub commit_message: Option<&'a str>,
    /// Optional Gitea merge method.
    pub merge_method: Option<&'a str>,
}

/// Parameters to set a Gitea pull request draft state.
pub struct SetPullRequestDraftStateParams<'a> {
    /// Repository owner.
    pub owner: &'a str,
    /// Repository name.
    pub repo: &'a str,
    /// Pull request number.
    pub pr_number: i64,
    /// Whether the pull request should be marked WIP.
    pub draft: bool,
}

/// The title a new pull request is created with: the requested title in the
/// requested draft state.
pub fn create_pull_request_title(params: &CreatePullRequestParams) -> (r: String)
    ensures
        r@ == title_for_draft_state(params.title@, params.draft),
{
    update_draft_state_in_title(params.title, params.draft)
}

// ---------------------------------------------------------------------------
// Decisions between requests
// ---------------------------------------------------------------------------

/// The number of pull requests requested per page.
pub const PAGE_LIMIT: usize = 50;

/// A query parameter: name and value.
pub open spec fn param(name: Seq<char>, value: Seq<char>) -> (Seq<char>, Seq<char>) {
    (name, value)
}

pub open spec fn param_views(q: Seq<(String, String)>) -> Seq<(Seq<char>, Seq<char>)> {
    q.map_values(|p: (String, String)| (p.0@, p.1@))
}

/// The query that resolves a reference through the commits list: the
/// reference as `sha`, then `limit=1`.
pub fn commit_lookup_query(reference: &str) -> (r: Vec<(String, String)>)
    ensures
        param_views(r@) == seq![param("sha"@, reference@), param("limit"@, "1"@)],
{
    let r = vec![
        ("sha".to_string(), reference.to_string()),
        ("limit".to_string(), "1".to_string()),
    ];
    assert(param_views(r@) =~= seq![param("sha"@, reference@), param("limit"@, "1"@)]);
    r
}

/// The query of one page of pull requests in `state`, most recently updated
/// first: `state`, `sort=recentupdate`, the page number, `limit=50`.
pub fn pulls_query(state: &str, page: u32) -> (r: Vec<(String, String)>)
    ensures
        param_views(r@) == seq![
            param("state"@, state@),
            param("sort"@, "recentupdate"@),
            param("page"@, decimal(page as int)),
            param("limit"@, decimal(PAGE_LIMIT as int)),
        ],
{
    let r = vec![
        ("state".to_string(), state.to_string()),
        ("sort".to_string(), "recentupdate".to_string()),
        ("page".to_string(), decimal_text(page as i64)),
        ("limit".to_string(), decimal_text(PAGE_LIMIT as i64)),
    ];
    assert(param_views(r@) =~= seq![
        param("state"@, state@),
        param("sort"@, "recentupdate"@),
        param("page"@, decimal(page as int)),
        param("limit"@, decimal(PAGE_LIMIT as int)),
    ]);
    r
}

/// The page to request after a page that held `page_len` pull requests: the
/// next one while pages come back full, none once a page comes back short
/// (or the page counter is exhausted).
pub fn next_page(page: u32, page_len: usize, limit: usize) -> (r: Option<u32>)
    ensures
        r == if page_len < limit || page == u32::MAX {
            None::<u32>
        } else {
            Some((page + 1) as u32)
        },
{
    if page_len < limit || page == u32::MAX {
        None
    } else {
        Some(page + 1)
    }
}

/// Why a pull request's draft state cannot be set.
#[derive(Debug, Clone, Copy, PartialEq, Eq)]
pub enum DraftStateError {
    /// Pull request numbers start at 1.
    NonPositiveNumber,
}

impl DraftStateError {
    /// The message the error is reported with.
    pub fn message(&self) -> (r: String)
        ensures
            r@ == "PR number must be greater than 0"@,
    {
        "PR number must be greater than 0".to_string()
    }
}

/// A pull request number is acceptable when positive.
pub fn check_pull_request_number(pr_number: i64) -> (r: Result<(), DraftStateError>)
    ensures
        r is Ok <==> pr_number > 0,
{
    if pr_number <= 0 {
        Err(DraftStateError::NonPositiveNumber)
    } else {
        Ok(())
    }
}

/// The title update that puts a pull request with title `current_title` in
/// the requested draft state; `None` when the title is already right and
/// nothing needs sending.
pub fn draft_state_title_update(current_title: &str, draft: bool) -> (r: Option<String>)
    ensures
        match r {
            Some(t) => t@ == title_for_draft_state(current_title@, draft) && t@ != current_title@,
            None => title_for_draft_state(current_title@, draft) == current_title@,
        },
{
    let next = update_draft_state_in_title(current_title, draft);
    if eq_chars(&chars_of(next.as_str()), &chars_of(current_title)) {
        None
    } else {
        Some(next)
    }
}

/// Why a pull request index cannot be used as a Gitea pull request number.
#[derive(Debug, Clone, Copy, PartialEq, Eq)]
pub enum PullRequestNumberError {
    /// The index exceeds the largest `i64`.
    TooLarge,
}

impl PullRequestNumberError {
    /// The message the error is reported with.
    pub fn message(&self) -> (r: String)
        ensures
            r@ == "PR number is too large"@,
    {
        "PR number is too large".to_string()
    }
}

/// A pull request index as the number the Gitea API takes.
pub fn pull_request_number(pr_number: usize) -> (r: Result<i64, PullRequestNumberError>)
    ensures
        match r {
            Ok(n) => n as int == pr_number as int,
            Err(_) => pr_number as int > i64::MAX as int,
        },
{
    if pr_number as u128 > i64::MAX as u128 {
        Err(PullRequestNumberError::TooLarge)
    } else {
        Ok(pr_number as i64)
    }
}

// ---------------------------------------------------------------------------
// HTTP status errors
// ---------------------------------------------------------------------------

/// The canonical reason phrase of an HTTP status code, as the `http` crate
/// knows it (`"Unauthorized"` for 401), if it knows one.
pub uninterp spec fn status_reason(code: u16) -> Option<Seq<char>>;

/// `http::StatusCode::canonical_reason` of the status code `code` (reached
/// through `reqwest::StatusCode`): the phrase the crate's table holds for
/// that code, or none. The contract only names the result.
#[verifier::external_body]
fn canonical_reason(code: u16) -> (r: Option<&'static str>)
    requires
        100 <= code <= 999,
    ensures
        match r {
            Some(s) => status_reason(code) == Some(s@),
            None => status_reason(code) is None,
        },
{
    match reqwest::StatusCode::from_u16(code) {
        Ok(status) => status.canonical_reason(),
        Err(_) => None,
    }
}

/// How a status code is displayed: the code, a space, and its reason phrase
/// (`<unknown status code>` when it has none).
pub open spec fn status_text(code: u16) -> Seq<char> {
    decimal(code as int) + " "@ + match status_reason(code) {
        Some(reason) => reason,
        None => "<unknown status code>"@,
    }
}

/// An HTTP error with a status code.
#[derive(Debug, Clone, Copy, PartialEq, Eq)]
pub struct HttpStatusError {
    /// The HTTP status code, from 100 to 999.
    pub status: u16,
}

impl HttpStatusError {
    /// The message the error is reported with: `HTTP {status}`.
    pub fn message(&self) -> (r: String)
        requires
            100 <= self.status <= 999,
        ensures
            r@ == "HTTP "@ + status_text(self.status),
    {
        let code = decimal_text(self.status as i64);
        let reason = match canonical_reason(self.status) {
            Some(s) => s,
            None => "<unknown status code>",
        };
        let a = concat(&chars_of("HTTP "), &chars_of(code.as_str()));
        let b = concat(&a, &chars_of(" "));
        string_from_chars(&concat(&b, &chars_of(reason)))
    }
}

} // verus!
