# selfupdate

Synchronous self-update with release channels for CLIs that publish GitHub
releases, written in Verus.

- `src/` is the verified library: Go `x/mod/semver` version precedence and
  normalization (`version`, with its specification and laws in `semver`),
  channels (`channel`), stores, the error type, and, as verified step
  functions with their laws: release resolution over a `Source` (`channel`:
  one page of 100 releases, the latest release consulted exactly when the page
  has no stable one, a stable tag preferred only when it is newer),
  the update and channel-switch workflows (`workflow`: check mode only
  reports, installation only after approval, saving before its success
  message, ...), GitHub requests (`source`: cancellation checked around every
  network step, the JSON `Accept` and `selfupdate/<version>` User-Agent
  headers on every request, only status 200 is read), the script installer's
  supervision of its process (`supervise`: only a valid request is spawned,
  as `bash -o pipefail -c <script> selfupdate-rs <url> <tag>`, polled every
  25 ms, a terminal job never has a group signalled, `SIGKILL` only after the
  5 s grace period, every stop reaps the child), and which command parsed
  `self` matches dispatch (`command`).
- `app/` performs what the steps decide: the `Updater` over input/output
  streams, the GitHub HTTP source (reqwest), the Bash/curl script installer
  (process groups via nix), closure-backed stores, Clap commands, and a copy of
  the error type with `std::error::Error` (thiserror).
- `tests/` exercises the library with fake sources and scripted runs of the
  step functions.
