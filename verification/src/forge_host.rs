//! Comparing repository hosts with the hosts that forge accounts are
//! configured for, and reading owner and repository out of URL paths.
use vstd::prelude::*;
use crate::host::scheme_separator;
use crate::text::{
    ascii_lower, eq_ignore_ascii_case, find_from, first_stop_from, is_digit, is_ws, occurs_at,
    all_digits, all_digits_chars, chars_of, concat, contains, contains_chars, ends_with,
    ends_with_chars, eq_chars, find, find_char, find_char_in, find_chars, lemma_find_from,
    lemma_rfind_char, lower, nonempty_parts, nonempty_parts_of, lower_chars, rfind_char, rfind_char_in, rsplit_once_char,
    split_once, string_from_chars, strip_prefix_chars, subvec, trim, trim_char, trim_char_in,
    trim_chars, trim_end_char, trim_end_char_in, trim_end_seq, trim_end_seq_chars,
    trim_start_char, trim_start_char_in, until_any, until_any_chars, starts_with,
};

verus! {

broadcast use vstd::string::group_string_axioms;

/// The characters that end the host part of a URL: `/`, `?`, `#`.
pub open spec fn host_terminators() -> Seq<char> {
    seq!['/', '?', '#']
}

/// The characters that end the path part of a URL: `?`, `#`.
pub open spec fn path_terminators() -> Seq<char> {
    seq!['?', '#']
}

/// `.git`
pub open spec fn git_suffix() -> Seq<char> {
    seq!['.', 'g', 'i', 't']
}

/// The host of a URL or host string in comparable form: scheme, path, query,
/// fragment, user info and a numeric port removed, surrounding whitespace and
/// trailing dots dropped, ASCII lowercased.
pub open spec fn comparable_host(value: Seq<char>) -> Seq<char> {
    let without_scheme = match split_once(value, scheme_separator()) {
        Some((_, rest)) => rest,
        None => value,
    };
    let without_path = until_any(without_scheme, host_terminators());
    let without_user_info = match rsplit_once_char(without_path, '@') {
        Some((_, h)) => h,
        None => without_path,
    };
    let without_port = match rsplit_once_char(without_user_info, ':') {
        Some((h, port)) => if all_digits(port) {
            h
        } else {
            without_user_info
        },
        None => without_user_info,
    };
    lower(trim_end_char(trim(without_port), '.'))
}

/// A repository host matches an account's custom host when both are
/// non-empty once made comparable and the account host is the repository
/// host or a subdomain of it.
pub open spec fn custom_host_matches(repository_host: Seq<char>, custom_host: Seq<char>) -> bool {
    let r = comparable_host(repository_host);
    let a = comparable_host(custom_host);
    r.len() > 0 && a.len() > 0 && (a == r || ends_with(a, seq!['.'] + r))
}

/// The non-empty dot-separated labels of a host, in order.
pub open spec fn dot_labels(s: Seq<char>) -> Seq<Seq<char>> {
    nonempty_parts(s, '.')
}

/// The last two labels of a host joined by a dot, where it has two.
pub open spec fn parent_domain(host: Seq<char>) -> Option<Seq<char>> {
    let labels = dot_labels(host);
    if labels.len() < 2 {
        None
    } else {
        Some(labels[labels.len() - 2] + seq!['.'] + labels[labels.len() - 1])
    }
}

/// Two comparable hosts are the same or share a parent domain (split-host
/// setups: git on `ssh.example.com`, web UI on `gitea.example.com`).
pub open spec fn share_parent_domain(repository_host: Seq<char>, account_host: Seq<char>) -> bool {
    repository_host == account_host || (parent_domain(repository_host) matches Some(p)
        && parent_domain(account_host) == Some(p) && contains(p, seq!['.']))
}

/// The path part of a custom host (after the authority, before any query or
/// fragment, slashes trimmed), where it is non-empty.
pub open spec fn custom_host_path_of(custom_host: Seq<char>) -> Option<Seq<char>> {
    let without_scheme = match split_once(custom_host, scheme_separator()) {
        Some((_, rest)) => rest,
        None => custom_host,
    };
    match find_char(without_scheme, '/') {
        None => None,
        Some(i) => {
            let path = trim_char(until_any(without_scheme.skip(i + 1), path_terminators()), '/');
            if path.len() == 0 {
                None
            } else {
                Some(path)
            }
        },
    }
}

/// Owner and repository from the first two segments of a path; the owner
/// and the repository (trailing `.git` removed) must be non-empty.
pub open spec fn owner_repo_of_path(path: Seq<char>) -> Option<(Seq<char>, Seq<char>)> {
    let p = trim_char(path, '/');
    match find_char(p, '/') {
        None => None,
        Some(i) => {
            let owner = trim(p.take(i));
            let after = p.skip(i + 1);
            let second = match find_char(after, '/') {
                Some(j) => after.take(j),
                None => after,
            };
            let repo = trim_end_seq(trim(second), git_suffix());
            if owner.len() == 0 || repo.len() == 0 {
                None
            } else {
                Some((owner, repo))
            }
        },
    }
}

/// Owner and repository from a repository path that lies under the path of
/// an account's custom host (a Gitea instance mounted under a base path).
pub open spec fn owner_repo_under_custom_path(repository_path: Seq<char>, custom_host: Seq<char>) -> Option<(Seq<char>, Seq<char>)> {
    match custom_host_path_of(custom_host) {
        None => None,
        Some(custom_path) => {
            let rp = trim_start_char(repository_path, '/');
            if starts_with(rp, custom_path) {
                let remainder = rp.skip(custom_path.len() as int);
                if remainder.len() > 0 && remainder[0] == '/' {
                    owner_repo_of_path(remainder.skip(1))
                } else {
                    None
                }
            } else {
                None
            }
        },
    }
}

pub(crate) fn scheme_separator_chars() -> (r: Vec<char>)
    ensures
        r@ == scheme_separator(),
{
    let v = chars_of("://");
    proof {
        reveal_strlit("://");
        assert(v@ =~= scheme_separator());
    }
    v
}

/// `value` after the first `://`, or all of it.
fn after_scheme(value: &Vec<char>) -> (r: Vec<char>)
    ensures
        r@ == match split_once(value@, scheme_separator()) {
            Some((_, rest)) => rest,
            None => value@,
        },
{
    let sep = scheme_separator_chars();
    assert(sep@.len() == 3);
    let found = find_chars(value, &sep);
    match found {
        Some(i) => {
            let n = value.len();
            let rest = subvec(value, i + 3, n);
            proof {
                assert(rest@ =~= value@.skip(i + 3));
            }
            rest
        },
        None => subvec(value, 0, value.len()),
    }
}

/// The host of a URL or host string in comparable form.
pub fn normalize_host_for_comparison(value: &str) -> (r: String)
    ensures
        r@ == comparable_host(value@),
{
    let v = chars_of(value);
    let without_scheme = after_scheme(&v);
    let stops = vec!['/', '?', '#'];
    proof {
        assert(stops@ =~= host_terminators());
    }
    let without_path = until_any_chars(&without_scheme, &stops);
    let without_user_info = match rfind_char_in(&without_path, '@') {
        Some(i) => {
            let n = without_path.len();
            let h = subvec(&without_path, i + 1, n);
            proof {
                lemma_rfind_char(without_path@, '@');
                assert(h@ =~= without_path@.skip(i + 1));
            }
            h
        },
        None => without_path,
    };
    let without_port = match rfind_char_in(&without_user_info, ':') {
        Some(i) => {
            proof {
                lemma_rfind_char(without_user_info@, ':');
            }
            let port = subvec(&without_user_info, i + 1, without_user_info.len());
            proof {
                assert(port@ =~= without_user_info@.skip(i + 1));
            }
            if all_digits_chars(&port) {
                let h = subvec(&without_user_info, 0, i);
                proof {
                    assert(h@ =~= without_user_info@.take(i as int));
                }
                h
            } else {
                without_user_info
            }
        },
        None => without_user_info,
    };
    let trimmed = trim_end_char_in(&trim_chars(&without_port), '.');
    string_from_chars(&lower_chars(&trimmed))
}

/// Compare a repository host to an account custom-host string: both are made
/// comparable, and the account host must equal the repository host or be a
/// subdomain of it (`api.repository.com` matches `repository.com`, while
/// `api.notrepository.com` does not).
pub fn custom_host_matches_repository_host(repository_host: &str, account_custom_host: &str) -> (r:
    bool)
    ensures
        r == custom_host_matches(repository_host@, account_custom_host@),
{
    let r = normalize_host_for_comparison(repository_host);
    let a = normalize_host_for_comparison(account_custom_host);
    let rc = chars_of(r.as_str());
    let ac = chars_of(a.as_str());
    if rc.len() == 0 || ac.len() == 0 {
        return false;
    }
    if eq_chars(&ac, &rc) {
        return true;
    }
    let dot = vec!['.'];
    proof {
        assert(dot@ =~= seq!['.']);
    }
    ends_with_chars(&ac, &concat(&dot, &rc))
}

/// The last two labels of a host joined by a dot, where it has two.
pub fn parent_domain_suffix(host: &str) -> (r: Option<String>)
    ensures
        match r {
            Some(p) => parent_domain(host@) == Some(p@),
            None => parent_domain(host@) is None,
        },
{
    let labels = nonempty_parts_of(&chars_of(host), '.');
    let n = labels.len();
    if n < 2 {
        return None;
    }
    let dot = vec!['.'];
    proof {
        assert(dot@ =~= seq!['.']);
    }
    let joined = concat(&concat(&labels[n - 2], &dot), &labels[n - 1]);
    Some(string_from_chars(&joined))
}

/// Two comparable hosts are the same or share a parent domain.
pub fn hosts_share_parent_domain(repository_host: &str, account_host: &str) -> (r: bool)
    ensures
        r == share_parent_domain(repository_host@, account_host@),
{
    if eq_chars(&chars_of(repository_host), &chars_of(account_host)) {
        return true;
    }
    match (parent_domain_suffix(repository_host), parent_domain_suffix(account_host)) {
        (Some(rp), Some(ap)) => {
            let rc = chars_of(rp.as_str());
            let dot = vec!['.'];
            proof {
                assert(dot@ =~= seq!['.']);
            }
            eq_chars(&rc, &chars_of(ap.as_str())) && contains_chars(&rc, &dot)
        },
        _ => false,
    }
}

/// Sharing a parent domain does not depend on which host is the repository's.
pub proof fn law_share_parent_domain_is_symmetric(a: Seq<char>, b: Seq<char>)
    ensures
        share_parent_domain(a, b) == share_parent_domain(b, a),
        share_parent_domain(a, a),
{
}

/// The path part of a custom host, where it is non-empty.
pub fn custom_host_path(custom_host: &str) -> (r: Option<String>)
    ensures
        match r {
            Some(p) => custom_host_path_of(custom_host@) == Some(p@),
            None => custom_host_path_of(custom_host@) is None,
        },
{
    let without_scheme = after_scheme(&chars_of(custom_host));
    let found = find_char_in(&without_scheme, '/');
    match found {
        None => None,
        Some(i) => {
            let n = without_scheme.len();
            let after = subvec(&without_scheme, i + 1, n);
            proof {
                assert(after@ =~= without_scheme@.skip(i + 1));
            }
            let stops = vec!['?', '#'];
            proof {
                assert(stops@ =~= path_terminators());
            }
            let path = trim_char_in(&until_any_chars(&after, &stops), '/');
            if path.len() == 0 {
                None
            } else {
                Some(string_from_chars(&path))
            }
        },
    }
}

/// Owner and repository from the first two segments of a path.
pub fn owner_repo_from_path(path: &str) -> (r: Option<(String, String)>)
    ensures
        match r {
            Some((o, n)) => owner_repo_of_path(path@) == Some((o@, n@)),
            None => owner_repo_of_path(path@) is None,
        },
{
    let p = trim_char_in(&chars_of(path), '/');
    match find_char_in(&p, '/') {
        None => None,
        Some(i) => {
            let first = subvec(&p, 0, i);
            proof {
                assert(first@ =~= p@.take(i as int));
            }
            let owner = trim_chars(&first);
            let after = subvec(&p, i + 1, p.len());
            proof {
                assert(after@ =~= p@.skip(i + 1));
            }
            let second = match find_char_in(&after, '/') {
                Some(j) => {
                    let s = subvec(&after, 0, j);
                    proof {
                        assert(s@ =~= after@.take(j as int));
                    }
                    s
                },
                None => after,
            };
            let git = vec!['.', 'g', 'i', 't'];
            proof {
                assert(git@ =~= git_suffix());
            }
            let repo = trim_end_seq_chars(&trim_chars(&second), &git);
            if owner.len() == 0 || repo.len() == 0 {
                None
            } else {
                Some((string_from_chars(&owner), string_from_chars(&repo)))
            }
        },
    }
}

/// Owner and repository from a repository path under the path of an
/// account's custom host.
pub fn owner_repo_after_custom_host_path(repository_path: &str, custom_host: &str) -> (r: Option<
    (String, String),
>)
    ensures
        match r {
            Some((o, n)) => owner_repo_under_custom_path(repository_path@, custom_host@) == Some(
                (o@, n@),
            ),
            None => owner_repo_under_custom_path(repository_path@, custom_host@) is None,
        },
{
    let custom_path = match custom_host_path(custom_host) {
        Some(p) => p,
        None => {
            return None;
        },
    };
    let rp = trim_start_char_in(&chars_of(repository_path), '/');
    let remainder = match strip_prefix_chars(&rp, &chars_of(custom_path.as_str())) {
        Some(rest) => rest,
        None => {
            return None;
        },
    };
    if remainder.len() == 0 || remainder[0] != '/' {
        return None;
    }
    let rest = subvec(&remainder, 1, remainder.len());
    proof {
        assert(rest@ =~= remainder@.skip(1));
    }
    owner_repo_from_path(string_from_chars(&rest).as_str())
}

// ---------------------------------------------------------------------------
// What the comparable form of a host is like
// ---------------------------------------------------------------------------

/// Neither an ASCII uppercase nor an ASCII lowercase letter.
pub open spec fn non_letter(c: char) -> bool {
    !('A' <= c && c <= 'Z') && !('a' <= c && c <= 'z')
}

/// ASCII uppercase of one character; every other character is kept.
pub open spec fn ascii_upper(c: char) -> char {
    if 'a' <= c && c <= 'z' {
        (((c as u8) - 32) as u8) as char
    } else {
        c
    }
}

/// `str::to_ascii_uppercase`.
pub open spec fn upper(s: Seq<char>) -> Seq<char> {
    Seq::new(s.len(), |i: int| ascii_upper(s[i]))
}

/// Two sequences equal but for ASCII case, position by position.
pub open spec fn case_equal(v: Seq<char>, w: Seq<char>) -> bool {
    v.len() == w.len() && forall|i: int| 0 <= i < v.len() ==> ascii_lower(#[trigger] v[i]) == ascii_lower(w[i])
}

/// Lowercasing is idempotent and keeps non-letters; two characters that
/// lowercase alike are equal when one is not a letter, and agree on being
/// whitespace or a digit.
pub(crate) proof fn lemma_ascii_lower_char(c: char, d: char)
    ensures
        ascii_lower(ascii_lower(c)) == ascii_lower(c),
        non_letter(c) ==> ascii_lower(c) == c,
        non_letter(c) && ascii_lower(c) == ascii_lower(d) ==> d == c,
        ascii_lower(c) == ascii_lower(d) ==> (is_ws(c) == is_ws(d)),
        ascii_lower(c) == ascii_lower(d) ==> (is_digit(c) == is_digit(d)),
        ascii_lower(ascii_upper(c)) == ascii_lower(c),
{
}

pub(crate) proof fn lemma_case_equal_subrange(v: Seq<char>, w: Seq<char>, a: int, b: int)
    requires
        case_equal(v, w),
        0 <= a <= b <= v.len(),
    ensures
        case_equal(v.subrange(a, b), w.subrange(a, b)),
{
    assert forall|i: int| 0 <= i < b - a implies ascii_lower(#[trigger] v.subrange(a, b)[i]) == ascii_lower(
        w.subrange(a, b)[i],
    ) by {
        assert(v.subrange(a, b)[i] == v[a + i]);
        assert(w.subrange(a, b)[i] == w[a + i]);
    }
}

pub(crate) proof fn lemma_case_equal_same_at(v: Seq<char>, w: Seq<char>, i: int, x: char)
    requires
        case_equal(v, w),
        0 <= i < v.len(),
        non_letter(x),
    ensures
        (v[i] == x) == (w[i] == x),
{
    lemma_ascii_lower_char(v[i], w[i]);
    lemma_ascii_lower_char(w[i], v[i]);
}

pub(crate) proof fn lemma_case_equal_find_from(v: Seq<char>, w: Seq<char>, p: Seq<char>, i: int)
    requires
        case_equal(v, w),
        forall|k: int| 0 <= k < p.len() ==> non_letter(#[trigger] p[k]),
    ensures
        find_from(v, p, i) == find_from(w, p, i),
    decreases v.len() + 1 - i,
{
    if i < 0 || i + p.len() > v.len() {
    } else {
        assert(occurs_at(v, p, i) == occurs_at(w, p, i)) by {
            assert forall|k: int| 0 <= k < p.len() implies (v[i + k] == p[k]) == (w[i + k] == p[k]) by {
                lemma_case_equal_same_at(v, w, i + k, p[k]);
            }
            if occurs_at(v, p, i) {
                assert forall|k: int| 0 <= k < p.len() implies w.subrange(i, i + p.len())[k] == p[k] by {
                    assert(v.subrange(i, i + p.len())[k] == v[i + k]);
                }
                assert(w.subrange(i, i + p.len()) =~= p);
            }
            if occurs_at(w, p, i) {
                assert forall|k: int| 0 <= k < p.len() implies v.subrange(i, i + p.len())[k] == p[k] by {
                    assert(w.subrange(i, i + p.len())[k] == w[i + k]);
                }
                assert(v.subrange(i, i + p.len()) =~= p);
            }
        }
        lemma_case_equal_find_from(v, w, p, i + 1);
    }
}

proof fn lemma_case_equal_first_stop(v: Seq<char>, w: Seq<char>, stops: Seq<char>, i: int)
    requires
        case_equal(v, w),
        forall|k: int| 0 <= k < stops.len() ==> non_letter(#[trigger] stops[k]),
    ensures
        first_stop_from(v, stops, i) == first_stop_from(w, stops, i),
    decreases v.len() - i,
{
    if i < 0 || i >= v.len() {
    } else {
        assert(stops.contains(v[i]) == stops.contains(w[i])) by {
            if stops.contains(v[i]) {
                let k = choose|k: int| 0 <= k < stops.len() && stops[k] == v[i];
                lemma_case_equal_same_at(v, w, i, stops[k]);
            }
            if stops.contains(w[i]) {
                let k = choose|k: int| 0 <= k < stops.len() && stops[k] == w[i];
                lemma_case_equal_same_at(v, w, i, stops[k]);
            }
        }
        lemma_case_equal_first_stop(v, w, stops, i + 1);
    }
}

proof fn lemma_case_equal_rfind(v: Seq<char>, w: Seq<char>, c: char)
    requires
        case_equal(v, w),
        non_letter(c),
    ensures
        rfind_char(v, c) == rfind_char(w, c),
    decreases v.len(),
{
    if v.len() > 0 {
        lemma_case_equal_same_at(v, w, v.len() - 1, c);
        lemma_case_equal_subrange(v, w, 0, v.len() - 1);
        assert(v.drop_last() == v.subrange(0, v.len() - 1));
        assert(w.drop_last() == w.subrange(0, w.len() - 1));
        lemma_case_equal_rfind(v.drop_last(), w.drop_last(), c);
    }
}

proof fn lemma_case_equal_all_digits(v: Seq<char>, w: Seq<char>)
    requires
        case_equal(v, w),
    ensures
        all_digits(v) == all_digits(w),
{
    assert forall|i: int| 0 <= i < v.len() implies is_digit(#[trigger] v[i]) == is_digit(w[i]) by {
        lemma_ascii_lower_char(v[i], w[i]);
    }
    assert forall|i: int| 0 <= i < w.len() implies is_digit(#[trigger] w[i]) == is_digit(v[i]) by {
        lemma_ascii_lower_char(v[i], w[i]);
    }
}

pub(crate) proof fn lemma_case_equal_trim_start(v: Seq<char>, w: Seq<char>)
    requires
        case_equal(v, w),
    ensures
        case_equal(crate::text::trim_start(v), crate::text::trim_start(w)),
    decreases v.len(),
{
    if v.len() > 0 {
        lemma_ascii_lower_char(v[0], w[0]);
        if is_ws(v[0]) {
            lemma_case_equal_subrange(v, w, 1, v.len() as int);
            assert(v.drop_first() == v.subrange(1, v.len() as int));
            assert(w.drop_first() == w.subrange(1, w.len() as int));
            lemma_case_equal_trim_start(v.drop_first(), w.drop_first());
        }
    }
}

pub(crate) proof fn lemma_case_equal_trim_end(v: Seq<char>, w: Seq<char>)
    requires
        case_equal(v, w),
    ensures
        case_equal(crate::text::trim_end(v), crate::text::trim_end(w)),
    decreases v.len(),
{
    if v.len() > 0 {
        lemma_ascii_lower_char(v.last(), w.last());
        if is_ws(v.last()) {
            lemma_case_equal_subrange(v, w, 0, v.len() - 1);
            assert(v.drop_last() == v.subrange(0, v.len() - 1));
            assert(w.drop_last() == w.subrange(0, w.len() - 1));
            lemma_case_equal_trim_end(v.drop_last(), w.drop_last());
        }
    }
}

proof fn lemma_case_equal_trim_end_char(v: Seq<char>, w: Seq<char>, c: char)
    requires
        case_equal(v, w),
        non_letter(c),
    ensures
        case_equal(trim_end_char(v, c), trim_end_char(w, c)),
    decreases v.len(),
{
    if v.len() > 0 {
        lemma_case_equal_same_at(v, w, v.len() - 1, c);
        if v.last() == c {
            lemma_case_equal_subrange(v, w, 0, v.len() - 1);
            assert(v.drop_last() == v.subrange(0, v.len() - 1));
            assert(w.drop_last() == w.subrange(0, w.len() - 1));
            lemma_case_equal_trim_end_char(v.drop_last(), w.drop_last(), c);
        }
    }
}

/// The comparable form of a host does not depend on ASCII case: two values
/// equal but for ASCII case compare as the same host.
pub proof fn law_comparable_host_ignores_ascii_case(a: Seq<char>, b: Seq<char>)
    requires
        eq_ignore_ascii_case(a, b),
    ensures
        comparable_host(a) == comparable_host(b),
{
    assert(a.len() == lower(a).len());
    assert(case_equal(a, b)) by {
        assert forall|i: int| 0 <= i < a.len() implies ascii_lower(#[trigger] a[i]) == ascii_lower(b[i]) by {
            assert(lower(a)[i] == lower(b)[i]);
        }
    }
    let sep = scheme_separator();
    assert(forall|k: int| 0 <= k < sep.len() ==> non_letter(#[trigger] sep[k]));
    lemma_case_equal_find_from(a, b, sep, 0);
    crate::text::lemma_find_from(a, sep, 0);
    let (sa, sb) = match find(a, sep) {
        Some(i) => {
            lemma_case_equal_subrange(a, b, i + 3, a.len() as int);
            (a.skip(i + 3), b.skip(i + 3))
        },
        None => (a, b),
    };
    assert(sa == match split_once(a, sep) {
        Some((_, rest)) => rest,
        None => a,
    });
    assert(sb == match split_once(b, sep) {
        Some((_, rest)) => rest,
        None => b,
    });
    assert(case_equal(sa, sb));
    let stops = host_terminators();
    assert(forall|k: int| 0 <= k < stops.len() ==> non_letter(#[trigger] stops[k]));
    lemma_case_equal_first_stop(sa, sb, stops, 0);
    lemma_first_stop_bounds(sa, stops, 0);
    let pa = until_any(sa, stops);
    let pb = until_any(sb, stops);
    lemma_case_equal_subrange(sa, sb, 0, first_stop_from(sa, stops, 0));
    assert(case_equal(pa, pb));
    lemma_case_equal_rfind(pa, pb, '@');
    lemma_rfind_char(pa, '@');
    let (ua, ub) = match rfind_char(pa, '@') {
        Some(i) => {
            lemma_case_equal_subrange(pa, pb, i + 1, pa.len() as int);
            (pa.skip(i + 1), pb.skip(i + 1))
        },
        None => (pa, pb),
    };
    assert(case_equal(ua, ub));
    lemma_case_equal_rfind(ua, ub, ':');
    lemma_rfind_char(ua, ':');
    let (ta, tb) = match rfind_char(ua, ':') {
        Some(i) => {
            lemma_case_equal_subrange(ua, ub, i + 1, ua.len() as int);
            lemma_case_equal_all_digits(ua.skip(i + 1), ub.skip(i + 1));
            if all_digits(ua.skip(i + 1)) {
                lemma_case_equal_subrange(ua, ub, 0, i);
                (ua.take(i), ub.take(i))
            } else {
                (ua, ub)
            }
        },
        None => (ua, ub),
    };
    assert(case_equal(ta, tb));
    lemma_case_equal_trim_start(ta, tb);
    lemma_case_equal_trim_end(crate::text::trim_start(ta), crate::text::trim_start(tb));
    lemma_case_equal_trim_end_char(trim(ta), trim(tb), '.');
    let xa = trim_end_char(trim(ta), '.');
    let xb = trim_end_char(trim(tb), '.');
    assert(lower(xa) =~= lower(xb));
}

/// The comparable form of a value and of its ASCII uppercase are the same.
pub proof fn law_comparable_host_ignores_uppercasing(value: Seq<char>)
    ensures
        comparable_host(upper(value)) == comparable_host(value),
{
    assert forall|i: int| 0 <= i < value.len() implies #[trigger] lower(upper(value))[i] == lower(value)[i] by {
        lemma_ascii_lower_char(value[i], value[i]);
    }
    assert(lower(upper(value)) =~= lower(value));
    law_comparable_host_ignores_ascii_case(upper(value), value);
}

pub(crate) proof fn lemma_first_stop_bounds(s: Seq<char>, stops: Seq<char>, i: int)
    requires
        0 <= i <= s.len(),
    ensures
        i <= first_stop_from(s, stops, i) <= s.len(),
        first_stop_from(s, stops, i) < s.len() ==> stops.contains(s[first_stop_from(s, stops, i)]),
        forall|j: int| i <= j < first_stop_from(s, stops, i) ==> !stops.contains(#[trigger] s[j]),
    decreases s.len() - i,
{
    if i < s.len() && !stops.contains(s[i]) {
        lemma_first_stop_bounds(s, stops, i + 1);
    }
}

pub(crate) proof fn lemma_trim_start_skips(s: Seq<char>) -> (k: int)
    ensures
        0 <= k <= s.len(),
        crate::text::trim_start(s) == s.skip(k),
    decreases s.len(),
{
    if s.len() > 0 && is_ws(s[0]) {
        let k = lemma_trim_start_skips(s.drop_first());
        assert(s.drop_first().skip(k) =~= s.skip(k + 1));
        k + 1
    } else {
        assert(s.skip(0) =~= s);
        0
    }
}

pub(crate) proof fn lemma_trim_end_takes(s: Seq<char>) -> (k: int)
    ensures
        0 <= k <= s.len(),
        crate::text::trim_end(s) == s.take(k),
    decreases s.len(),
{
    if s.len() > 0 && is_ws(s.last()) {
        let k = lemma_trim_end_takes(s.drop_last());
        assert(s.drop_last().take(k) =~= s.take(k));
        k
    } else {
        assert(s.take(s.len() as int) =~= s);
        s.len() as int
    }
}

pub(crate) proof fn lemma_trim_end_char_takes(s: Seq<char>, c: char) -> (k: int)
    ensures
        0 <= k <= s.len(),
        trim_end_char(s, c) == s.take(k),
        k > 0 ==> s[k - 1] != c,
    decreases s.len(),
{
    if s.len() > 0 && s.last() == c {
        let k = lemma_trim_end_char_takes(s.drop_last(), c);
        assert(s.drop_last().take(k) =~= s.take(k));
        k
    } else {
        assert(s.take(s.len() as int) =~= s);
        s.len() as int
    }
}

/// No character of `s` is `/`, `?`, `#` or `@`.
spec fn clean(s: Seq<char>) -> bool {
    forall|j: int|
        0 <= j < s.len() ==> #[trigger] s[j] != '/' && s[j] != '?' && s[j] != '#' && s[j] != '@'
}

proof fn lemma_clean_subrange(s: Seq<char>, a: int, b: int)
    requires
        clean(s),
        0 <= a <= b <= s.len(),
    ensures
        clean(s.subrange(a, b)),
{
    assert forall|j: int| 0 <= j < b - a implies #[trigger] s.subrange(a, b)[j] != '/' && s.subrange(a, b)[j]
        != '?' && s.subrange(a, b)[j] != '#' && s.subrange(a, b)[j] != '@' by {
        assert(s.subrange(a, b)[j] == s[a + j]);
    }
}

/// The host part of a value (before any path, query or fragment) holds no
/// `/`, `?` or `#`.
proof fn lemma_host_part_has_no_terminators(s: Seq<char>)
    ensures
        forall|j: int|
            0 <= j < until_any(s, host_terminators()).len() ==> #[trigger] until_any(
                s,
                host_terminators(),
            )[j] != '/' && until_any(s, host_terminators())[j] != '?' && until_any(
                s,
                host_terminators(),
            )[j] != '#',
{
    let stops = host_terminators();
    lemma_first_stop_bounds(s, stops, 0);
    let p = until_any(s, stops);
    assert forall|j: int| 0 <= j < p.len() implies #[trigger] p[j] != '/' && p[j] != '?' && p[j] != '#' by {
        assert(p[j] == s[j]);
        if p[j] == '/' {
            assert(stops[0] == s[j]);
        }
        if p[j] == '?' {
            assert(stops[1] == s[j]);
        }
        if p[j] == '#' {
            assert(stops[2] == s[j]);
        }
    }
}

/// After the last `@` (or all of it, with none), the host part is clean.
proof fn lemma_user_info_dropped(p: Seq<char>)
    requires
        forall|j: int| 0 <= j < p.len() ==> #[trigger] p[j] != '/' && p[j] != '?' && p[j] != '#',
    ensures
        clean(
            match rsplit_once_char(p, '@') {
                Some((_, h)) => h,
                None => p,
            },
        ),
{
    lemma_rfind_char(p, '@');
    let ui: int = match rfind_char(p, '@') {
        Some(i) => i + 1,
        None => 0,
    };
    let u = p.skip(ui);
    assert forall|j: int| 0 <= j < u.len() implies #[trigger] u[j] != '/' && u[j] != '?' && u[j] != '#'
        && u[j] != '@' by {
        assert(u[j] == p[ui + j]);
    }
    assert(u =~= match rsplit_once_char(p, '@') {
        Some((_, h)) => h,
        None => p,
    });
}

/// Dropping a numeric port, trimming whitespace and trailing dots keep a
/// clean host clean, and leave no trailing dot.
proof fn lemma_port_and_trim(u: Seq<char>)
    requires
        clean(u),
    ensures
        clean(
            trim_end_char(
                trim(
                    match rsplit_once_char(u, ':') {
                        Some((h, port)) => if all_digits(port) {
                            h
                        } else {
                            u
                        },
                        None => u,
                    },
                ),
                '.',
            ),
        ),
        ({
            let x = trim_end_char(
                trim(
                    match rsplit_once_char(u, ':') {
                        Some((h, port)) => if all_digits(port) {
                            h
                        } else {
                            u
                        },
                        None => u,
                    },
                ),
                '.',
            );
            x.len() > 0 ==> x[x.len() - 1] != '.'
        }),
{
    lemma_rfind_char(u, ':');
    let t = match rsplit_once_char(u, ':') {
        Some((h, port)) => if all_digits(port) {
            h
        } else {
            u
        },
        None => u,
    };
    match rfind_char(u, ':') {
        Some(i) => {
            lemma_clean_subrange(u, 0, i);
            assert(u.take(i) == u.subrange(0, i));
            assert(u.subrange(0, u.len() as int) =~= u);
        },
        None => {},
    }
    assert(clean(t));
    let k1 = lemma_trim_start_skips(t);
    let t1 = crate::text::trim_start(t);
    lemma_clean_subrange(t, k1, t.len() as int);
    assert(t1 == t.subrange(k1, t.len() as int));
    let k2 = lemma_trim_end_takes(t1);
    lemma_clean_subrange(t1, 0, k2);
    assert(trim(t) == t1.subrange(0, k2));
    let t2 = trim(t);
    let k3 = lemma_trim_end_char_takes(t2, '.');
    lemma_clean_subrange(t2, 0, k3);
    assert(trim_end_char(t2, '.') == t2.subrange(0, k3));
}

/// The comparable form of a host holds no `/`, `?`, `#` or `@`, does not end
/// with a dot, and is ASCII lowercase.
pub proof fn law_comparable_host_form(value: Seq<char>)
    ensures
        !comparable_host(value).contains('/'),
        !comparable_host(value).contains('?'),
        !comparable_host(value).contains('#'),
        !comparable_host(value).contains('@'),
        !(comparable_host(value).len() > 0 && comparable_host(value).last() == '.'),
        lower(comparable_host(value)) == comparable_host(value),
{
    let s = match split_once(value, scheme_separator()) {
        Some((_, rest)) => rest,
        None => value,
    };
    lemma_host_part_has_no_terminators(s);
    let p = until_any(s, host_terminators());
    lemma_user_info_dropped(p);
    let u = match rsplit_once_char(p, '@') {
        Some((_, h)) => h,
        None => p,
    };
    lemma_port_and_trim(u);
    let x = trim_end_char(
        trim(
            match rsplit_once_char(u, ':') {
                Some((h, port)) => if all_digits(port) {
                    h
                } else {
                    u
                },
                None => u,
            },
        ),
        '.',
    );
    let r = comparable_host(value);
    assert(r == lower(x));
    assert forall|j: int| 0 <= j < r.len() implies #[trigger] r[j] != '/' && r[j] != '?' && r[j] != '#'
        && r[j] != '@' && ascii_lower(r[j]) == r[j] by {
        let c = x[j];
        assert(r[j] == ascii_lower(c));
        lemma_ascii_lower_char('/', c);
        lemma_ascii_lower_char('?', c);
        lemma_ascii_lower_char('#', c);
        lemma_ascii_lower_char('@', c);
        lemma_ascii_lower_char(c, c);
    }
    if r.len() > 0 {
        lemma_ascii_lower_char('.', x[x.len() - 1]);
    }
    assert(lower(r) =~= r);
}

} // verus!
