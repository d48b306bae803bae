# nexo-plugin-google

Google APIs (Gmail, Calendar, Drive) as tools for Nexo agents: the OAuth 2.0
consent of installed applications, and authenticated calls to
`*.googleapis.com`. One process serves any number of accounts; each belongs to
an agent, and the first of an agent is its default. The tools of an agent reach
its own accounts only.

## Layout

- `src/` is the library, written in Verus: every decision of the plugin, with
  contracts that Verus proves. It does no input or output. A function returns
  the request that is to be made, or takes the reply and moves the state on.
- `app/` is the program around it: command line, files, HTTP, the callback
  listener, the broker and the frames of the daemon.
- `tests/` runs the library with the outside crates linked.

| Module | What it holds |
|--------|---------------|
| `plugin` | accounts and agents, the four tools, the listing for operators |
| `client` | the OAuth client of one account: consent, device codes, refresh, revocation |
| `callback` | the redirect that ends a consent |
| `tokens`, `store` | token responses, freshness, the document on file |
| `pkce`, `encoding` | proof keys, form encoding, base64, digests |
| `http` | forms, statuses, methods, which hosts may be called |
| `auto_discovery` | administrative and HTTP requests over the broker |
| `dispatch`, `tools` | tool invocations, declared tools |
| `config`, `env_config`, `cli` | configuration, environment, consent from the shell |
| `registry`, `clock`, `text`, `json`, `json_text`, `paths`, `error` | the ground the rest stands on |

## What is trusted

The outside functions that the library calls stand behind small wrappers whose
contracts are taken on trust; each names the function and what it claims of it.
They are in `encoding` (serde_urlencoded, base64, sha2, rand), `clock` (chrono),
`registry` (dashmap), `http` (reqwest's status text), `json_text` (serde_json)
and `text` (the standard library). All else is proved.

## Commands

```text
nexo-plugin-google --print-manifest
nexo-plugin-google --oauth-once <agent_id> --client-id-file <PATH>
    --client-secret-file <PATH> --token-file <PATH> --scopes <SCOPES>
    --workspace-dir <PATH> [--redirect-port <PORT>] [--device] [--remote]
nexo-plugin-google
```

Without a command the program serves the daemon on standard input and output.
