//! Gitea support for a Git client: forge detection from remote URLs, Gitea
//! account identity and selection, pull request and commit status models,
//! the requests the Gitea client sends and the decisions it takes between
//! them, and the agent stop hook's answers. Every function here is verified
//! against its contract, except the trusted wrappers around outside code,
//! whose contracts are taken as given: the `url` crate calls in `weburl`,
//! `url_encode` (`urlencoding`) and `canonical_reason` (`reqwest`'s status
//! codes) in `requests`, and `string_from_chars` (std's `collect`) in `text`.
use vstd::prelude::*;

pub mod text;
pub mod weburl;
pub mod host;
pub mod draft;
pub mod account;
pub mod forge_host;
pub mod remote_url;
pub mod forge;
pub mod forge_match;
pub mod checks;
pub mod pull_request;
pub mod repository;
pub mod requests;
pub mod auth;
pub mod hook;

verus! {
}
