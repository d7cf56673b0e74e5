# kee

A manager for AWS SSO profiles: it records profiles, runs commands and
sub-shells under them, opens the AWS console, reports session health and
installs shell completions.

## Layout

- `src/` — the verified library.
  - `config.rs`, `profile.rs`, `keyed.rs`: Kee's own configuration and the
    name-keyed profile table.
  - `ini.rs`, `aws.rs`: the AWS CLI config file (parsed by `configparser`),
    reading profiles from it, reformatting it, removing profiles.
  - `session.rs`: instants (through `chrono`), cached SSO tokens, session
    health, the status line and the background refresher's decisions.
  - `sha1.rs`: SHA-1, which names the token cache file of an sso-session.
  - `json.rs`: JSON documents (parsed by `serde_json`) as plain values.
  - `grouping.rs`: grouping profiles by the SSO token they share.
  - `console.rs`: URL encoding and the console federation URLs.
  - `completions.rs`: completion snippets, the zsh patch, install targets and
    rc-file edits.
  - `cli.rs`: prompts, listings, the status report and other command-line pieces.
  - `flows.rs`: each interactive command as a step function.
  - `laws.rs`: properties across operations.
  - `rewrite.rs`: facts about replacing text, splitting lines and joining them.
  - `text.rs`: character-level string operations with exact specifications.
- `app/` — the `kee` program: argument parsing, files, processes, prompts,
  threads and the network, driving the library.
- `tests/` — tests of the library.
