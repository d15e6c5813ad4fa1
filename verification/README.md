# meetingly

The sign-in and meeting-sync core of the Meetingly desktop client, verified with Verus.

- `src/identity.rs` — the authentication state: the verified Clerk session, the pending
  sign-in, and the organization lock that binds a recording to the user and organization
  it started with.
- `src/oauth.rs` — configuration values, addresses and forms of the Clerk OAuth flow, the
  PKCE challenge, callback checking, access-token claims and stored tokens.
- `src/sync.rs` — what a meeting sent to Connections holds (transcript, segments,
  revision), stored-transcript mapping and ownership checks.
- `src/enhancement.rs` — batching of transcript segments for a language model and the
  acceptance of its answer.
- `src/text.rs` — Unicode white-space trimming and line joining.
- `src/codec.rs` — the calls into `base64`, `ring`, `rand` and `url`, with the contracts
  that the rest of the library relies on.
- `src/laws.rs` — properties that relate several operations.
- `app/` — process-wide state, keychain, HTTP, SQLite and JSON around the library.
