//! Normalization of Gitea instance URLs.
use vstd::prelude::*;
use crate::text::{
    find, find_char, first_stop_from, is_ws, lemma_find_from, occurs_at, starts_with, trim_start,
    chars_of, concat, contains, contains_chars, ends_with, ends_with_chars, string_from_chars,
    subvec, trim, trim_chars, trim_end_char, trim_end_char_in,
};
use crate::forge_host::{
    lemma_first_stop_bounds, lemma_trim_end_char_takes, lemma_trim_end_takes, lemma_trim_start_skips,
};
use crate::weburl::{
    authority, authority_terminators, has_authority, has_user_info, scheme_slashes,
    clear_fragment, clear_password, clear_query, clear_username, parse_url, path_of,
    replace_path, serialization, url_parse, url_path, url_with_path, url_without_fragment,
    url_without_password, url_without_query, url_without_username,
};

verus! {

broadcast use vstd::string::group_string_axioms;

/// Why a Gitea host cannot be normalized.
#[derive(Debug, Clone, Copy, PartialEq, Eq)]
pub enum HostError {
    /// Nothing but whitespace and slashes was given.
    Empty,
    /// The host does not parse as an absolute URL.
    InvalidUrl,
}

impl HostError {
    /// The message the error is reported with.
    pub fn message(&self) -> (r: String)
        ensures
            r@ == host_error_text(*self),
    {
        match self {
            HostError::Empty => "Gitea host cannot be empty".to_string(),
            HostError::InvalidUrl => "Invalid Gitea host URL".to_string(),
        }
    }
}

pub open spec fn host_error_text(e: HostError) -> Seq<char> {
    match e {
        HostError::Empty => "Gitea host cannot be empty"@,
        HostError::InvalidUrl => "Invalid Gitea host URL"@,
    }
}

/// `://`
pub open spec fn scheme_separator() -> Seq<char> {
    seq![':', '/', '/']
}

/// `https://`
pub open spec fn https_prefix() -> Seq<char> {
    seq!['h', 't', 't', 'p', 's', ':', '/', '/']
}

/// The path under which a Gitea instance serves its API: `/api/v1`.
pub open spec fn api_path() -> Seq<char> {
    seq!['/', 'a', 'p', 'i', '/', 'v', '1']
}

/// The host text with surrounding whitespace and trailing slashes removed.
pub open spec fn host_candidate(host: Seq<char>) -> Seq<char> {
    trim_end_char(trim(host), '/')
}

/// `t` with `https://` in front unless it already names a scheme.
pub open spec fn with_default_scheme(t: Seq<char>) -> Seq<char> {
    if contains(t, scheme_separator()) {
        t
    } else {
        https_prefix() + t
    }
}

/// A URL path reduced to the instance's web root: trailing slashes and one
/// `/api/v1` suffix removed.
pub open spec fn web_root_path(path: Seq<char>) -> Seq<char> {
    let p = trim_end_char(path, '/');
    let stripped = if ends_with(p, api_path()) {
        p.take(p.len() - api_path().len())
    } else {
        p
    };
    trim_end_char(stripped, '/')
}

/// The URL serialized as `text` without query, fragment and credentials.
pub open spec fn without_extras(text: Seq<char>) -> Seq<char> {
    url_without_password(url_without_username(url_without_fragment(url_without_query(text))))
}

/// The normalized form of a Gitea instance URL: the web root of the instance,
/// with an `https` scheme by default and no trailing slash.
pub open spec fn normalized_host(host: Seq<char>) -> Result<Seq<char>, HostError> {
    let t = host_candidate(host);
    if t.len() == 0 {
        Err(HostError::Empty)
    } else {
        match url_parse(with_default_scheme(t)) {
            None => Err(HostError::InvalidUrl),
            Some(parsed) => {
                let cleaned = without_extras(parsed);
                Ok(trim_end_char(url_with_path(cleaned, web_root_path(url_path(cleaned))), '/'))
            },
        }
    }
}

fn literal(s: &str) -> (r: Vec<char>)
    ensures
        r@ == s@,
{
    chars_of(s)
}

/// A serialization that starts with `https://` has an authority.
proof fn lemma_https_has_authority(t: Seq<char>)
    requires
        starts_with(t, https_prefix()),
    ensures
        has_authority(t),
{
    let colon = seq![':'];
    assert(t.take(8) == https_prefix());
    assert forall|j: int| 0 <= j < 5 implies !occurs_at(t, colon, j) by {
        assert(t[j] == https_prefix()[j]);
        assert(t.subrange(j, j + 1)[0] == t[j]);
    }
    assert(occurs_at(t, colon, 5)) by {
        assert(t[5] == https_prefix()[5]);
        assert(t.subrange(5, 6) =~= colon);
    }
    lemma_find_from(t, colon, 0);
    assert(find_char(t, ':') == Some(5int));
    assert(t.subrange(5, 8) =~= scheme_slashes()) by {
        assert(t[6] == https_prefix()[6]);
        assert(t[7] == https_prefix()[7]);
    }
}

/// Cutting a serialization short cannot put user info into its authority.
proof fn lemma_prefix_has_no_user_info(t: Seq<char>, k: int)
    requires
        has_authority(t),
        !has_user_info(t),
        0 <= k <= t.len(),
    ensures
        !has_user_info(t.take(k)),
{
    let p = t.take(k);
    let colon = seq![':'];
    lemma_find_from(t, colon, 0);
    lemma_find_from(p, colon, 0);
    let j = find_char(t, ':')->0;
    match find_char(p, ':') {
        None => {},
        Some(jp) => {
            assert(p.subrange(jp, jp + 1) == t.subrange(jp, jp + 1));
            if jp < j {
                assert(!occurs_at(t, colon, jp));
            }
            if j < jp {
                assert(p.subrange(j, j + 1) == t.subrange(j, j + 1));
                assert(occurs_at(p, colon, j));
            }
            assert(jp == j);
            if occurs_at(p, scheme_slashes(), j) {
                assert(p.subrange(j, j + 3) == t.subrange(j, j + 3));
                let stops = authority_terminators();
                let q = t.skip(j + 3);
                let qp = p.skip(j + 3);
                assert(qp =~= q.take(k - j - 3));
                lemma_first_stop_bounds(q, stops, 0);
                lemma_first_stop_bounds(qp, stops, 0);
                let fq = first_stop_from(q, stops, 0);
                let fp = first_stop_from(qp, stops, 0);
                if fq < fp {
                    assert(qp[fq] == q[fq]);
                }
                assert(fp <= fq);
                let ap = authority(p);
                let at = authority(t);
                assert(ap =~= qp.take(fp));
                assert(at =~= q.take(fq));
                assert forall|x: int| 0 <= x < ap.len() implies ap[x] != '@' by {
                    assert(ap[x] == qp[x]);
                    assert(qp[x] == q[x]);
                    assert(at[x] == q[x]);
                }
            }
        },
    }
}

/// Where the host names no scheme, or names `https`, the URL parsed is an
/// `https://` one.
proof fn lemma_default_scheme_is_https(host: Seq<char>)
    requires
        host_candidate(host).len() > 0,
        starts_with(host, https_prefix()) || !contains(host, scheme_separator()),
    ensures
        starts_with(with_default_scheme(host_candidate(host)), https_prefix()),
{
    let sep = scheme_separator();
    let t = host_candidate(host);
    let k0 = lemma_trim_start_skips(host);
    let k1 = lemma_trim_end_takes(host.skip(k0));
    let k2 = lemma_trim_end_char_takes(trim(host), '/');
    assert(t =~= host.subrange(k0, k0 + k2));
    if contains(t, sep) {
        lemma_find_from(t, sep, 0);
        let i = find(t, sep)->0;
        assert(occurs_at(host, sep, k0 + i)) by {
            assert(host.subrange(k0 + i, k0 + i + 3) =~= t.subrange(i, i + 3));
        }
        lemma_find_from(host, sep, 0);
        assert(contains(host, sep));
        assert(starts_with(host, https_prefix()));
        assert(host.take(8) == https_prefix());
        assert(!is_ws(host[0])) by {
            assert(host[0] == https_prefix()[0]);
        }
        assert(trim_start(host) == host);
        assert(k0 == 0) by {
            assert(host.skip(k0).len() == host.len());
        }
        assert forall|j: int| 0 <= j < 5 implies host[j] != ':' by {
            assert(host[j] == https_prefix()[j]);
        }
        assert(t[i] == ':') by {
            assert(t.subrange(i, i + 3)[0] == t[i]);
        }
        assert(host[i] == t[i]);
        assert(i >= 5);
        assert(t.take(8) =~= host.take(8));
    } else {
        assert((https_prefix() + t).take(8) =~= https_prefix());
    }
}

/// Normalize a Gitea instance URL.
pub fn normalize_host(host: &str) -> (r: Result<String, HostError>)
    ensures
        match r {
            Ok(s) => normalized_host(host@) == Ok::<Seq<char>, HostError>(s@),
            Err(e) => normalized_host(host@) == Err::<Seq<char>, HostError>(e),
        },
        r matches Ok(s) ==> (starts_with(host@, https_prefix()) || !contains(
            host@,
            scheme_separator(),
        ) ==> !has_user_info(s@)),
{
    let chars = chars_of(host);
    let trimmed = trim_chars(&chars);
    let t = trim_end_char_in(&trimmed, '/');
    if t.len() == 0 {
        return Err(HostError::Empty);
    }
    let sep = literal("://");
    proof {
        reveal_strlit("://");
        assert(sep@ =~= scheme_separator());
    }
    let with_scheme = if contains_chars(&t, &sep) {
        t
    } else {
        let prefix = literal("https://");
        proof {
            reveal_strlit("https://");
            assert(prefix@ =~= https_prefix());
        }
        concat(&prefix, &t)
    };
    let with_scheme_text = string_from_chars(&with_scheme);
    let ghost https_case = starts_with(host@, https_prefix()) || !contains(host@, scheme_separator());
    proof {
        if https_case {
            lemma_default_scheme_is_https(host@);
        }
    }
    let parsed = parse_url(with_scheme_text.as_str());
    let mut url = match parsed {
        Some(u) => u,
        None => {
            return Err(HostError::InvalidUrl);
        },
    };
    proof {
        if https_case {
            lemma_https_has_authority(url.text());
        }
    }
    clear_query(&mut url);
    clear_fragment(&mut url);
    clear_username(&mut url);
    clear_password(&mut url);
    let path_text = path_of(&url);
    let path = trim_end_char_in(&chars_of(path_text.as_str()), '/');
    let api = literal("/api/v1");
    proof {
        reveal_strlit("/api/v1");
        assert(api@ =~= api_path());
    }
    let stripped = if ends_with_chars(&path, &api) {
        subvec(&path, 0, path.len() - api.len())
    } else {
        path
    };
    let web_path = trim_end_char_in(&stripped, '/');
    let web_path_text = string_from_chars(&web_path);
    replace_path(&mut url, web_path_text.as_str());
    let full = serialization(&url);
    let result = trim_end_char_in(&chars_of(full.as_str()), '/');
    proof {
        if https_case {
            let k = lemma_trim_end_char_takes(full@, '/');
            lemma_prefix_has_no_user_info(full@, k);
        }
    }
    Ok(string_from_chars(&result))
}

/// The API base URL of a Gitea instance: its normalized URL followed by `/api/v1`.
pub fn api_base_url(host: &str) -> (r: Result<String, HostError>)
    ensures
        match r {
            Ok(s) => normalized_host(host@) matches Ok(n) && s@ == n + api_path(),
            Err(e) => normalized_host(host@) == Err::<Seq<char>, HostError>(e),
        },
{
    let normalized = normalize_host(host)?;
    let base = chars_of(normalized.as_str());
    let api = literal("/api/v1");
    proof {
        reveal_strlit("/api/v1");
        assert(api@ =~= api_path());
    }
    Ok(string_from_chars(&concat(&base, &api)))
}

} // verus!
