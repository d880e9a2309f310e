# calcver

Calculates the next semantic version of a project from its git history:
the version found in the last tag is bumped as the commit messages since
that tag call for (major, minor or patch), and marked as a pre-release
(`-alpha.N`, N the number of commits) unless it is released.

- `src/` is the library, verified with Verus: configuration and defaults
  (`config`), the version calculation (`version`), the walk through the
  history (`repogit`), repositories (`repository`), release reports
  (`release`), the Cargo manifest update (`manifest`), one run of the tool
  (`runner`). The `regex`, `semver` and `toml` crates are called through the
  trusted wrappers of `patterns`, `semantic` and `manifest`.
- `app/` is the command line tool: argument parsing, reading the YAML
  configuration, reading the git repository, running scripts and reading and
  writing `Cargo.toml`.
