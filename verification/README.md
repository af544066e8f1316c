# but_gitea

Gitea integration logic for a Git client, written in Verus: each function in
`src/` carries a contract that Verus proves, except the trusted wrappers
around outside code, whose contracts are taken as given: the `url` calls in
`src/weburl.rs`, `url_encode` (`urlencoding::encode`) and `canonical_reason`
(`reqwest::StatusCode`) in `src/requests.rs`, and `string_from_chars` (std's
`collect`) in `src/text.rs`.

- `src/text.rs` — character-sequence specifications (trimming, searching,
  splitting, case folding) and the verified string helpers built on them.
- `src/weburl.rs` — the `url` crate behind trusted wrappers, with named
  results for what it computes.
- `src/host.rs` — normalization of Gitea instance URLs and the API base URL.
- `src/draft.rs` — work-in-progress markers in pull request titles.
- `src/account.rs` — Gitea account identifiers, stored accounts, and the
  choice of the account to act as.
- `src/remote_url.rs`, `src/forge_host.rs`, `src/forge.rs`,
  `src/forge_match.rs` — parsing Git remote URLs, comparing hosts, and
  deciding which forge and repository a remote names.
- `src/checks.rs`, `src/repository.rs`, `src/pull_request.rs` — commit
  statuses, repositories and pull requests as the API returns them and as
  the library hands them out.
- `src/requests.rs` — endpoint URLs, paging and draft-state decisions of the
  Gitea client.
- `src/auth.rs` — storing tokens, reading back the signed-in user, and the
  offline profile cache.
- `src/hook.rs` — the agent stop hook: who called and what it is answered.

`app/` holds the unverified I/O around the library: the `reqwest` client,
storage round trips, serde copies of the library's types, and the hook's
stdin/stdout handling. `tests/` exercises the library.
