# zip2repo

Turn a source `.zip` into a GitHub repository wired to GitHub-native
scaffolds, with the decisions of the tool verified by Verus.

## Layout

- `src/` — the verified library.
  - `zip/validate.rs`: archive validation (no absolute paths, drive letters
    or `..` segments; at most 50,000 entries and 512 MiB), with the safety
    lemma for accepted archives.
  - `zip/extract.rs`: where the archive comes from, the HTTP status check,
    opening an archive, and the extraction plan (symbolic links are never
    written).
  - `zip/archive.rs`: the trusted interface to the `zip` crate.
  - `scaffold/`: stack detection, templates, the scaffold plan and the
    never-overwrite / idempotence lemmas.
  - `auth.rs`: token acquisition as a step function (GitHub CLI first, then
    `GITHUB_TOKEN`).
  - `github/`: repository lookup, creation requests, push fallback and branch
    protection with readback verification.
  - `run.rs`, `exit_codes.rs`, `error.rs`: the run as a state machine with its
    exit codes, and the error messages.
  - `text.rs`: verified string helpers (trim, substring search, prefix).
- `app/main.rs` — the program: command line, file system, network, git and
  GitHub calls; it performs the steps that the library decides.
- `tests/` — tests of the library.

## Exit codes

| Code | Meaning |
|------|---------|
| 0 | Full success (settings applied and verified) |
| 10 | Artifacts only (repo created/pushed; settings pending) |
| 20 | Permission denied |
| 21 | GitHub API error |
| 22 | Git push error |
| 30 | Zip validation failed |
| 31 | Network fetch failed |
| 32 | IO error |
| 40 | Config/usage error |
