//! URL handling that the `url` crate performs.
//!
//! A parsed URL is determined by its serialization (the `url` crate compares
//! and re-parses URLs by that string), so the library models a parsed URL by
//! its serialization `text` and names what each `url` operation makes of it.
use vstd::prelude::*;
use crate::text::{find_char, occurs_at, until_any};

verus! {

/// `://`
pub open spec fn scheme_slashes() -> Seq<char> {
    seq![':', '/', '/']
}

/// The characters that end a URL's authority: `/`, `?`, `#`.
pub open spec fn authority_terminators() -> Seq<char> {
    seq!['/', '?', '#']
}

/// The URL serialized as `text` has an authority: its scheme (everything
/// before the first `:`) is followed by `//`.
pub open spec fn has_authority(text: Seq<char>) -> bool {
    match find_char(text, ':') {
        Some(i) => occurs_at(text, scheme_slashes(), i),
        None => false,
    }
}

/// The authority of the URL serialized as `text`: what follows `scheme://`
/// up to the first `/`, `?` or `#`; empty where there is none.
pub open spec fn authority(text: Seq<char>) -> Seq<char> {
    match find_char(text, ':') {
        Some(i) => if occurs_at(text, scheme_slashes(), i) {
            until_any(text.skip(i + 3), authority_terminators())
        } else {
            seq![]
        },
        None => seq![],
    }
}

/// The URL serialized as `text` carries user info: an `@` in its authority.
pub open spec fn has_user_info(text: Seq<char>) -> bool {
    authority(text).contains('@')
}

/// The user info of the URL serialized as `text`, if any, holds no
/// username, only a password (`:password@`).
pub open spec fn username_cleared(text: Seq<char>) -> bool {
    !has_user_info(text) || authority(text)[0] == ':'
}

#[verifier::external_type_specification]
#[verifier::external_body]
pub struct ExUrl(url::Url);

/// Serialization of `url::Url::parse(input)`, or `None` where parsing fails.
pub uninterp spec fn url_parse(input: Seq<char>) -> Option<Seq<char>>;

/// Serialization after `set_query(None)` on the URL serialized as `text`.
pub uninterp spec fn url_without_query(text: Seq<char>) -> Seq<char>;

/// Serialization after `set_fragment(None)` on the URL serialized as `text`.
pub uninterp spec fn url_without_fragment(text: Seq<char>) -> Seq<char>;

/// Serialization after `set_username("")` on the URL serialized as `text`.
pub uninterp spec fn url_without_username(text: Seq<char>) -> Seq<char>;

/// Serialization after `set_password(None)` on the URL serialized as `text`.
pub uninterp spec fn url_without_password(text: Seq<char>) -> Seq<char>;

/// `path()` of the URL serialized as `text`.
pub uninterp spec fn url_path(text: Seq<char>) -> Seq<char>;

/// Serialization after `set_path(path)` on the URL serialized as `text`.
pub uninterp spec fn url_with_path(text: Seq<char>, path: Seq<char>) -> Seq<char>;

/// A parsed absolute URL together with its serialization.
pub struct WebUrl {
    url: url::Url,
    text: Ghost<Seq<char>>,
}

impl WebUrl {
    /// The serialization of this URL.
    pub closed spec fn text(&self) -> Seq<char> {
        self.text@
    }
}

/// `url::Url::parse`: `None` exactly where the crate reports a parse error;
/// otherwise the URL whose serialization is `url_parse(input)`. An input
/// that starts with `https://` parses (if at all) to a serialization that
/// starts with `https://`: the scheme is written as parsed, and a special
/// scheme is always followed by `//` and its host.
#[verifier::external_body]
pub(crate) fn parse_url(input: &str) -> (r: Option<WebUrl>)
    ensures
        r is Some <==> url_parse(input@) is Some,
        r matches Some(u) ==> url_parse(input@) == Some(u.text()),
        r matches Some(u) ==> (crate::text::starts_with(input@, crate::host::https_prefix())
            ==> crate::text::starts_with(u.text(), crate::host::https_prefix())),
{
    match url::Url::parse(input) {
        Ok(url) => Some(WebUrl { url, text: Ghost(Seq::empty()) }),
        Err(_) => None,
    }
}

/// `url::Url::set_query(None)`; it rewrites only what follows the path, so
/// an authority is kept as it was.
#[verifier::external_body]
pub(crate) fn clear_query(u: &mut WebUrl)
    ensures
        final(u).text() == url_without_query(old(u).text()),
        has_authority(old(u).text()) ==> has_authority(final(u).text()) && authority(final(u).text())
            == authority(old(u).text()),
{
    u.url.set_query(None);
}

/// `url::Url::set_fragment(None)`; it rewrites only what follows the query,
/// so an authority is kept as it was.
#[verifier::external_body]
pub(crate) fn clear_fragment(u: &mut WebUrl)
    ensures
        final(u).text() == url_without_fragment(old(u).text()),
        has_authority(old(u).text()) ==> has_authority(final(u).text()) && authority(final(u).text())
            == authority(old(u).text()),
{
    u.url.set_fragment(None);
}

/// `url::Url::set_username("")`; where the crate refuses (no host, an empty
/// host, or a `file` URL) it leaves the URL unchanged, which the name covers;
/// such URLs carry no user info. Afterwards the authority holds no username:
/// an `@` is left only behind a password (`:password@`).
#[verifier::external_body]
pub(crate) fn clear_username(u: &mut WebUrl)
    ensures
        final(u).text() == url_without_username(old(u).text()),
        has_authority(old(u).text()) ==> has_authority(final(u).text()) && username_cleared(
            final(u).text(),
        ),
{
    let _ = u.url.set_username("");
}

/// `url::Url::set_password(None)`; where the crate refuses it leaves the URL
/// unchanged, which the name covers. With no username left, removing the
/// password removes the `@` too, so no user info remains.
#[verifier::external_body]
pub(crate) fn clear_password(u: &mut WebUrl)
    ensures
        final(u).text() == url_without_password(old(u).text()),
        has_authority(old(u).text()) && username_cleared(old(u).text()) ==> has_authority(
            final(u).text(),
        ) && !has_user_info(final(u).text()),
{
    let _ = u.url.set_password(None);
}

/// `url::Url::path`.
#[verifier::external_body]
pub(crate) fn path_of(u: &WebUrl) -> (r: String)
    ensures
        r@ == url_path(u.text()),
{
    u.url.path().to_string()
}

/// `url::Url::set_path`; on a URL with an authority it rewrites only the
/// path (which then starts with `/` or is empty), so the authority is kept.
#[verifier::external_body]
pub(crate) fn replace_path(u: &mut WebUrl, path: &str)
    ensures
        final(u).text() == url_with_path(old(u).text(), path@),
        has_authority(old(u).text()) ==> has_authority(final(u).text()) && authority(final(u).text())
            == authority(old(u).text()),
{
    u.url.set_path(path);
}

/// `url::Url::as_str`: the crate documents it as the URL's serialization.
#[verifier::external_body]
pub(crate) fn serialization(u: &WebUrl) -> (r: String)
    ensures
        r@ == u.text(),
{
    u.url.as_str().to_string()
}

} // verus!
