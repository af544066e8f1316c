//! Git remote URLs: `scheme://[user@]host[:port]/path` and the scp-like
//! `[user@]host:path`, and the owner and repository they name on each forge.
use vstd::prelude::*;
use crate::forge_host::scheme_separator_chars;
use crate::host::scheme_separator;
use crate::text::{
    chars_of, concat, eq_chars, find_char, find_char_in, find_chars, has_char, is_hex_digit,
    is_hex_digit_char, lemma_find_from, lemma_rfind_char, lower, lower_chars, nonempty_parts,
    nonempty_parts_of, rfind_char, rfind_char_in, all_digits, all_digits_chars, split_once,
    string_from_chars, subvec, trim, trim_chars, until_any, until_any_chars, ends_with,
    ends_with_chars,
};

verus! {

broadcast use vstd::string::group_string_axioms;

/// The parts of a remote URL.
pub struct RemoteUrl {
    /// `ssh` for scp-like remotes, otherwise the URL scheme (lowercase).
    pub protocol: String,
    /// The host, without user info and port.
    pub host: String,
    /// The path after the host (query and fragment removed for URLs).
    pub path: String,
}

/// The abstract content of a [`RemoteUrl`].
pub struct RemoteUrlView {
    pub protocol: Seq<char>,
    pub host: Seq<char>,
    pub path: Seq<char>,
}

impl View for RemoteUrl {
    type V = RemoteUrlView;

    open spec fn view(&self) -> RemoteUrlView {
        RemoteUrlView { protocol: self.protocol@, host: self.host@, path: self.path@ }
    }
}

/// `ssh`
pub open spec fn ssh_word() -> Seq<char> {
    seq!['s', 's', 'h']
}

/// The host of an authority (`[user@]host[:port]`): user info and a numeric
/// port removed.
pub open spec fn authority_host(authority: Seq<char>) -> Seq<char> {
    let without_user = match rfind_char(authority, '@') {
        Some(i) => authority.skip(i + 1),
        None => authority,
    };
    match rfind_char(without_user, ':') {
        Some(i) => if all_digits(without_user.skip(i + 1)) {
            without_user.take(i)
        } else {
            without_user
        },
        None => without_user,
    }
}

/// How a remote URL is read. A URL with `://` has a non-empty scheme, an
/// authority up to the first `/` and a path from there to the first `?` or
/// `#`. Otherwise a `:` with no `/` before it makes it scp-like: the
/// authority before the `:`, the path after it, protocol `ssh`. The host
/// must be non-empty.
pub open spec fn parse_remote(url: Seq<char>) -> Option<RemoteUrlView> {
    let u = trim(url);
    match split_once(u, scheme_separator()) {
        Some((scheme, rest)) => {
            let authority_end = match find_char(rest, '/') {
                Some(i) => i,
                None => rest.len() as int,
            };
            let host = authority_host(rest.take(authority_end));
            let path = until_any(rest.skip(authority_end), seq!['?', '#']);
            if scheme.len() == 0 || host.len() == 0 {
                None
            } else {
                Some(RemoteUrlView { protocol: lower(scheme), host, path })
            }
        },
        None => match find_char(u, ':') {
            Some(i) => {
                let host = authority_host(u.take(i));
                if has_char(u.take(i), '/') || host.len() == 0 {
                    None
                } else {
                    Some(RemoteUrlView { protocol: ssh_word(), host, path: u.skip(i + 1) })
                }
            },
            None => None,
        },
    }
}

/// Value of an ASCII hexadecimal digit.
pub open spec fn hex_value(c: char) -> int {
    if '0' <= c && c <= '9' {
        (c as int) - ('0' as int)
    } else if 'a' <= c && c <= 'f' {
        (c as int) - ('a' as int) + 10
    } else {
        (c as int) - ('A' as int) + 10
    }
}

/// `%XY` escapes of ASCII characters replaced by the character; everything
/// else, other escapes included, is kept as written.
pub open spec fn percent_decode(s: Seq<char>) -> Seq<char>
    decreases s.len(),
{
    if s.len() == 0 {
        s
    } else if s.len() >= 3 && s[0] == '%' && is_hex_digit(s[1]) && is_hex_digit(s[2])
        && hex_value(s[1]) < 8 {
        seq![((hex_value(s[1]) * 16 + hex_value(s[2])) as u8) as char] + percent_decode(s.skip(3))
    } else {
        seq![s[0]] + percent_decode(s.skip(1))
    }
}

/// The decoded non-empty segments of a remote path.
pub open spec fn path_segments(path: Seq<char>) -> Seq<Seq<char>> {
    nonempty_parts(path, '/').map_values(|seg: Seq<char>| percent_decode(seg))
}

/// `.git`
pub open spec fn dot_git() -> Seq<char> {
    seq!['.', 'g', 'i', 't']
}

/// `_git`
pub open spec fn underscore_git() -> Seq<char> {
    seq!['_', 'g', 'i', 't']
}

/// `v3`
pub open spec fn v3_word() -> Seq<char> {
    seq!['v', '3']
}

/// A repository name without one trailing `.git`.
pub open spec fn strip_git(name: Seq<char>) -> Seq<char> {
    if ends_with(name, dot_git()) {
        name.take(name.len() - 4)
    } else {
        name
    }
}

/// The forges whose repository paths the library reads.
pub enum PathLayout {
    /// `owner/repo`
    OwnerRepo,
    /// `group/subgroup/.../repo`
    Nested,
    /// `org/project/_git/repo`, or `v3/org/project/repo` over ssh
    Azure,
}

/// Owner and repository named by the segments of a remote path.
pub open spec fn repository_parts_of(layout: PathLayout, protocol: Seq<char>, segs: Seq<Seq<char>>) -> Option<(Seq<char>, Seq<char>)> {
    let found = match layout {
        PathLayout::OwnerRepo => if segs.len() >= 2 {
            Some((segs[0], strip_git(segs[1])))
        } else {
            None
        },
        PathLayout::Nested => if segs.len() >= 2 {
            Some((join_slash(segs.take(segs.len() - 1)), strip_git(segs[segs.len() - 1])))
        } else {
            None
        },
        PathLayout::Azure => if segs.len() >= 4 && segs[2] == underscore_git() {
            Some((segs[0] + seq!['/'] + segs[1], strip_git(segs[3])))
        } else if segs.len() >= 4 && protocol == ssh_word() && segs[0] == v3_word() {
            Some((segs[1] + seq!['/'] + segs[2], strip_git(segs[3])))
        } else {
            None
        },
    };
    match found {
        Some((owner, repo)) => if owner.len() == 0 || repo.len() == 0 {
            None
        } else {
            Some((owner, repo))
        },
        None => None,
    }
}

/// Segments joined with `/`.
pub open spec fn join_slash(segs: Seq<Seq<char>>) -> Seq<char>
    decreases segs.len(),
{
    if segs.len() == 0 {
        seq![]
    } else if segs.len() == 1 {
        segs[0]
    } else {
        join_slash(segs.drop_last()) + seq!['/'] + segs.last()
    }
}

/// The authority's host.
fn authority_host_of(authority: &Vec<char>) -> (r: Vec<char>)
    ensures
        r@ == authority_host(authority@),
{
    let without_user = match rfind_char_in(authority, '@') {
        Some(i) => {
            let n = authority.len();
            let rest = subvec(authority, i + 1, n);
            proof {
                assert(rest@ =~= authority@.skip(i + 1));
            }
            rest
        },
        None => subvec(authority, 0, authority.len()),
    };
    proof {
        assert(authority@.subrange(0, authority@.len() as int) =~= authority@);
    }
    match rfind_char_in(&without_user, ':') {
        Some(i) => {
            let n = without_user.len();
            let port = subvec(&without_user, i + 1, n);
            proof {
                assert(port@ =~= without_user@.skip(i + 1));
            }
            if all_digits_chars(&port) {
                let h = subvec(&without_user, 0, i);
                proof {
                    assert(h@ =~= without_user@.take(i as int));
                }
                h
            } else {
                without_user
            }
        },
        None => without_user,
    }
}

fn has_char_in(s: &Vec<char>, c: char) -> (r: bool)
    ensures
        r == has_char(s@, c),
{
    let mut i: usize = 0;
    while i < s.len()
        invariant
            i <= s.len(),
            forall|k: int| 0 <= k < i ==> s@[k] != c,
        decreases s.len() - i,
    {
        if s[i] == c {
            return true;
        }
        i = i + 1;
    }
    false
}

fn hex_value_of(c: char) -> (r: u8)
    requires
        is_hex_digit(c),
    ensures
        r as int == hex_value(c),
        r < 16,
{
    if '0' <= c && c <= '9' {
        (c as u8) - ('0' as u8)
    } else if 'a' <= c && c <= 'f' {
        (c as u8) - ('a' as u8) + 10
    } else {
        (c as u8) - ('A' as u8) + 10
    }
}

/// `%XY` escapes of ASCII characters replaced by the character.
pub fn percent_decode_chars(s: &Vec<char>) -> (r: Vec<char>)
    ensures
        r@ == percent_decode(s@),
{
    let mut out: Vec<char> = Vec::new();
    let mut i: usize = 0;
    proof {
        assert(s@.skip(0) =~= s@);
    }
    while i < s.len()
        invariant
            i <= s.len(),
            out@ + percent_decode(s@.skip(i as int)) == percent_decode(s@),
        decreases s.len() - i,
    {
        let ghost rest = s@.skip(i as int);
        if s.len() - i > 2 && s[i] == '%' && is_hex_digit_char(s[i + 1]) && is_hex_digit_char(
            s[i + 2],
        ) && hex_value_of(s[i + 1]) < 8 {
            let v: u8 = hex_value_of(s[i + 1]) * 16 + hex_value_of(s[i + 2]);
            out.push(v as char);
            proof {
                assert(rest[0] == s@[i as int]);
                assert(rest[1] == s@[i + 1]);
                assert(rest[2] == s@[i + 2]);
                assert(rest.skip(3) =~= s@.skip(i + 3));
            }
            i = i + 3;
        } else {
            out.push(s[i]);
            proof {
                assert(rest[0] == s@[i as int]);
                assert(rest.skip(1) =~= s@.skip(i + 1));
            }
            i = i + 1;
        }
    }
    proof {
        assert(out@ + percent_decode(s@.skip(i as int)) =~= out@);
    }
    out
}

/// The contents of a list of character vectors.
pub open spec fn char_views(v: Seq<Vec<char>>) -> Seq<Seq<char>> {
    v.map_values(|x: Vec<char>| x@)
}

/// The first `k` segments joined with `/`.
fn join_slash_of(segs: &Vec<Vec<char>>, k: usize) -> (r: Vec<char>)
    requires
        k <= segs@.len(),
    ensures
        r@ == join_slash(char_views(segs@).take(k as int)),
{
    let mut out: Vec<char> = Vec::new();
    let mut i: usize = 0;
    let slash = vec!['/'];
    proof {
        assert(slash@ =~= seq!['/']);
        assert(char_views(segs@).take(0) =~= Seq::<Seq<char>>::empty());
    }
    while i < k
        invariant
            i <= k <= segs@.len(),
            slash@ == seq!['/'],
            out@ == join_slash(char_views(segs@).take(i as int)),
        decreases k - i,
    {
        let ghost prev = char_views(segs@).take(i as int);
        let ghost next = char_views(segs@).take(i + 1);
        proof {
            assert(next.drop_last() =~= prev);
            assert(next.last() == segs@[i as int]@);
        }
        if i == 0 {
            out = subvec(&segs[i], 0, segs[i].len());
            proof {
                assert(out@ =~= segs@[0]@);
            }
        } else {
            out = concat(&concat(&out, &slash), &segs[i]);
        }
        i = i + 1;
    }
    out
}

/// A repository name without one trailing `.git`.
fn strip_git_of(name: &Vec<char>) -> (r: Vec<char>)
    ensures
        r@ == strip_git(name@),
{
    let git = vec!['.', 'g', 'i', 't'];
    proof {
        assert(git@ =~= dot_git());
    }
    if ends_with_chars(name, &git) {
        subvec(name, 0, name.len() - 4)
    } else {
        subvec(name, 0, name.len())
    }
}

impl RemoteUrl {
    /// The owner and repository the remote names on a forge with the given
    /// path layout.
    pub fn repository_parts_in(&self, layout: PathLayout) -> (r: Option<(String, String)>)
        ensures
            match r {
                Some((o, n)) => repository_parts_of(layout, self@.protocol, path_segments(self@.path))
                    == Some((o@, n@)),
                None => repository_parts_of(layout, self@.protocol, path_segments(self@.path)) is None,
            },
    {
        let parts = nonempty_parts_of(&chars_of(self.path.as_str()), '/');
        let mut segs: Vec<Vec<char>> = Vec::new();
        let mut i: usize = 0;
        while i < parts.len()
            invariant
                i <= parts@.len(),
                parts@.len() == nonempty_parts(self@.path, '/').len(),
                forall|k: int| 0 <= k < parts@.len() ==> #[trigger] parts@[k]@ == nonempty_parts(self@.path, '/')[k],
                segs@.len() == i,
                forall|k: int| 0 <= k < i ==> #[trigger] segs@[k]@ == path_segments(self@.path)[k],
            decreases parts.len() - i,
        {
            segs.push(percent_decode_chars(&parts[i]));
            i = i + 1;
        }
        let ghost segv = path_segments(self@.path);
        proof {
            assert(char_views(segs@) =~= segv);
        }
        let n = segs.len();
        let found: Option<(Vec<char>, Vec<char>)> = match layout {
            PathLayout::OwnerRepo => if n >= 2 {
                Some((subvec(&segs[0], 0, segs[0].len()), strip_git_of(&segs[1])))
            } else {
                None
            },
            PathLayout::Nested => if n >= 2 {
                Some((join_slash_of(&segs, n - 1), strip_git_of(&segs[n - 1])))
            } else {
                None
            },
            PathLayout::Azure => {
                let slash = vec!['/'];
                let underscore = vec!['_', 'g', 'i', 't'];
                let v3 = vec!['v', '3'];
                let ssh = vec!['s', 's', 'h'];
                proof {
                    assert(slash@ =~= seq!['/']);
                    assert(underscore@ =~= underscore_git());
                    assert(v3@ =~= v3_word());
                    assert(ssh@ =~= ssh_word());
                }
                if n >= 4 && eq_chars(&segs[2], &underscore) {
                    Some((concat(&concat(&segs[0], &slash), &segs[1]), strip_git_of(&segs[3])))
                } else if n >= 4 && eq_chars(&chars_of(self.protocol.as_str()), &ssh) && eq_chars(
                    &segs[0],
                    &v3,
                ) {
                    Some((concat(&concat(&segs[1], &slash), &segs[2]), strip_git_of(&segs[3])))
                } else {
                    None
                }
            },
        };
        proof {
            if n >= 2 {
                assert(segs@[0]@.subrange(0, segs@[0]@.len() as int) =~= segs@[0]@);
                assert(char_views(segs@).take(n - 1) =~= segv.take(segv.len() - 1));
            }
        }
        match found {
            Some((owner, repo)) => if owner.len() == 0 || repo.len() == 0 {
                None
            } else {
                Some((string_from_chars(&owner), string_from_chars(&repo)))
            },
            None => None,
        }
    }

    /// Read a remote URL.
    pub fn parse(url: &str) -> (r: Option<RemoteUrl>)
        ensures
            match r {
                Some(remote) => parse_remote(url@) == Some(remote@),
                None => parse_remote(url@) is None,
            },
    {
        let u = trim_chars(&chars_of(url));
        let sep = scheme_separator_chars();
        assert(sep@.len() == 3);
        let found = find_chars(&u, &sep);
        match found {
            Some(i) => {
                let n = u.len();
                let scheme = subvec(&u, 0, i);
                let rest = subvec(&u, i + 3, n);
                proof {
                    assert(scheme@ =~= u@.take(i as int));
                    assert(rest@ =~= u@.skip(i + 3));
                }
                let authority_end = match find_char_in(&rest, '/') {
                    Some(k) => k,
                    None => rest.len(),
                };
                let m = rest.len();
                let authority = subvec(&rest, 0, authority_end);
                let after = subvec(&rest, authority_end, m);
                proof {
                    assert(authority@ =~= rest@.take(authority_end as int));
                    assert(after@ =~= rest@.skip(authority_end as int));
                }
                let host = authority_host_of(&authority);
                let stops = vec!['?', '#'];
                proof {
                    assert(stops@ =~= seq!['?', '#']);
                }
                let path = until_any_chars(&after, &stops);
                if scheme.len() == 0 || host.len() == 0 {
                    return None;
                }
                Some(
                    RemoteUrl {
                        protocol: string_from_chars(&lower_chars(&scheme)),
                        host: string_from_chars(&host),
                        path: string_from_chars(&path),
                    },
                )
            },
            None => {
                match find_char_in(&u, ':') {
                    Some(i) => {
                        let authority = subvec(&u, 0, i);
                        proof {
                            assert(authority@ =~= u@.take(i as int));
                        }
                        let host = authority_host_of(&authority);
                        if has_char_in(&authority, '/') || host.len() == 0 {
                            return None;
                        }
                        let n = u.len();
                        let path = subvec(&u, i + 1, n);
                        proof {
                            assert(path@ =~= u@.skip(i + 1));
                        }
                        let ssh = vec!['s', 's', 'h'];
                        proof {
                            assert(ssh@ =~= ssh_word());
                        }
                        Some(
                            RemoteUrl {
                                protocol: string_from_chars(&ssh),
                                host: string_from_chars(&host),
                                path: string_from_chars(&path),
                            },
                        )
                    },
                    None => None,
                }
            },
        }
    }
}

} // verus!
