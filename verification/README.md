# update-rs

Self-contained, in-place self-updates for Rust applications: download the
newest release for this platform, replace the running binary, and relaunch.
A running executable cannot reliably overwrite itself, so an update runs in
three phases, each from a different binary, relaunching the next:

```text
running app ──prepare──▶ temp binary ──replace──▶ updated app ──cleanup──▶ done
```

## Layout

- `src/` is the library, verified with Verus: the decisions of the update.
  - `phases`: what each phase does (`plan_phase`) and how an update starts
    (`begin_update`), with the laws that the phases hand over in order.
  - `state`: the update state threaded through the phases.
  - `release`: releases, their variants, semantic versions, and `get_latest`.
  - `github`: reading the GitHub releases API's answer, asset selection, URIs.
  - `glob`: the anchored `*`/`?` matcher that selects release assets.
  - `integrity`: SHA-256 digests, hex, and the streaming download check.
  - `files`: retries of file removal and copy, and the temporary file name.
  - `naming`, `relaunch`, `text`, `error`.
- `app/` performs the outside work the library decides on: HTTP requests,
  files, relaunching processes, JSON, and errors for humans (`UpdateManager`,
  the `Source`, `FileSystem` and `Launcher` traits).
- `tests/` exercises the library on concrete values.

## Picking a release

`Release::get_latest` takes the releases by reference, so any selection of
them can be passed, such as those with an asset for this platform:

```rust
let installable: Vec<&Release> = releases.iter().filter(|r| r.get_variant().is_some()).collect();
let latest = Release::get_latest(&installable);
```
