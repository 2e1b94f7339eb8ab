# dev-ci

Generates GitHub Actions workflow files for Rust crates from a small
builder API, with a command-line front end.

Layout:

- `src/text.rs` – YAML and POSIX-shell quoting, with proofs that the quoted
  text reads back as the text it was made from.
- `src/model.rs` – the configuration model and the exact text of the
  workflow document as a function of it, with facts about that text.
- `src/generator.rs` – `Target`, `PathDep` and the `Generator` builder; each
  setter states the configuration it produces and `generate` returns exactly
  the document of the model.
- `src/laws.rs` – how each setting shapes the document: what it inserts or
  changes, and that everything else stays as it was.
- `src/cli.rs` – the decisions of the `generate` command: parsing
  `--path-dep`, applying `--with` jobs, choosing stdout or a file.
- `app/main.rs` – argument parsing with clap and file output.
