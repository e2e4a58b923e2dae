# gitfox

The decision logic of a self-hosted Git forge, verified with Verus: who may
read or push a repository (SSH, HTTP, LFS, protected branches), tokens and
their scopes, OAuth 2.0 / OpenID Connect as provider and external login as
client, CI runners and pipeline states, package registries, CI variable
encryption, and the request and response types around them.

- `src/` is the verified library. Each public function states in its
  contract what it returns; the `law_*` proof functions state properties
  that span several functions. Calls into outside crates (regex, sha2, hex,
  base64, rand, chrono, uuid, urlencoding, bcrypt, aes-gcm, mime_guess) go
  through small trusted wrappers whose contracts say what the crate does,
  or name its result where that takes pages to say.
- `tests/` runs the library with the real outside crates.
- `app/` is the unverified edge: configuration from the environment,
  HTTP error responses, ID token signing, serde copies of the library's
  types, and the runner WebSocket actor that drives the verified session
  state machine.
