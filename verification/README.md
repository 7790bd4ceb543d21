# obs-service-cargo-vendor-home-registry

Vendors the cargo home registry (`$CARGO_HOME`) of a Rust project into an
archive: the project is copied or unpacked into a work directory, its
lockfiles are regenerated and its dependencies fetched into a private cargo
home, lockfiles are copied next to it and audited, leftovers are removed and
the home is archived as `registry[-<tag>].<extension>`, the whole tag kept.

Options beyond the target, compression, tag and outdir:

- `--manifest-paths`: further manifests, relative to the project's top-level
  directory. An absolute path is refused, and so is one whose `..`
  components climb above that directory (`a/../b/Cargo.toml` is accepted,
  `a/../../Cargo.toml` is not). A path that names no file ends the run with
  "Path to manifest is not a file".
- `--update`: run `cargo update` after `cargo generate-lockfile` and before
  `cargo fetch`, for the project and for each further manifest.
- `--custom-root`: the project's top-level directory, relative to where the
  project was copied or unpacked, in place of the one found there. It is
  refused on the same terms as a further manifest.
- `--tag`: goes into the archive's name whole; a tag with a `/` is refused,
  since the archive would not land in the outdir.
- `--no-root-manifest`: the project has no top-level manifest (a monorepo);
  cargo runs only on the further manifests.
- `--i-accept-the-risk`: advisories the lockfile audit lets pass. Each
  lockfile that exists is audited with `cargo audit --file <lockfile>`,
  with `--ignore <id>` for each accepted advisory.

Paths are handled as on Unix: `/` is the only separator.

Layout:

- `src/` — the verified library.
  - `cli.rs`: the arguments, the compressions and the archive's name.
  - `cargo.rs`: the cargo calls of a run and what a finished call amounts to.
  - `layout.rs`: the project's top-level directory, where lockfiles lie and
    land, the leftovers of the cargo home.
  - `paths.rs`: joining Unix paths, and which relative paths stay below a
    directory.
  - `run.rs`: the run as a step function from its state and the answer to its
    last action to its next state and action, with its model `next`.
  - `laws.rs`: what every run keeps and guarantees, proved over `next`.
- `app/` — the executable: command line, filesystem, processes, archives;
  it performs each action of the run and hands back the answer.
- `tests/` — the library's tests, including whole runs against a pretend
  filesystem.
