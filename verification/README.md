# cargo-agdk

Reproducible AGDK Android APK builds in constrained-egress environments:
the toolchain (NDK, SDK pieces, a warm Gradle cache) comes as a bundle of
release assets keyed on the project's pinned (AGP, NDK major, Gradle)
tuple, is checked against the sha256s of the bundle's manifest, and the
APK is then built offline.

## Layout

- `src/` — the verified library (Verus). It reads the pins out of the
  project's pin files, names the bundle (release tag, asset URLs, cache
  paths), and decides each step of installing a bundle (`verify::Installer`)
  and of publishing one (`publish::Publisher`) as a state machine from
  state and event to next state and operation. Its contracts are stated
  over `Seq<char>` views; the laws of the library are public proof
  functions named `lemma_*`.
- `app/` — the `cargo-agdk` command: argument parsing, and the file,
  process and network work the state machines ask for (HTTP downloads,
  zstd/tar and zip extraction, `tar`, `gradle`, `gh`), plus the serde and
  error-display copies of the library's types.
- `tests/` — tests of the library on concrete values.

The `publish` command embeds a vendored stock sample project from
`stock-sample/` next to the command's manifest.
