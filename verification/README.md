# anda

Building blocks of Andaman, a package build toolchain for RPM, OCI and
Flatpak, written in Verus: every function of the library carries a
`requires`/`ensures` contract that Verus proves.

## Layout

- `src/rpmspec/` — the RPM spec parser: the macro expander (`macrospec.rs`
  states expansion as spec functions, `expander.rs` implements it), the line
  reader, preambles, sections, conditions, `%files` and `%changelog`, package
  queries, the tokens of RPM expressions, and the data model of a parsed
  spec.
- `src/build/` — build options and command lines of Mock, rpmbuild, Flatpak
  and Podman; the decisions of a project build (`plan.rs`); the CI build
  matrix; the logging of build commands; the files that `init` picks up.
- `src/andax/` — helpers of the update-script layer: editing a spec file's
  version, release, sources and macros, regular expressions given by scripts,
  the `sh` function's options, the web lookups of versions (URLs and the
  picking of a version out of a JSON reply), and the traceback of a failed
  script.
- `src/update.rs` — which projects an update runs and its summary table.
- `src/text.rs` — strings as character sequences: trimming, decimal
  formatting, UTF-8 lengths.
- `app/` — a small command-line front end that reads files, runs the shell
  commands that macro expansion asks for, and prints results.
- `tests/` — tests of the library on concrete inputs.

Calls into the `regex`, `chrono` and `shell-quote` crates, and into
`std::path`, stand behind small trusted wrappers whose contracts name their
results; everything around them is verified.
