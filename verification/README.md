# confluence_cli

A verified library for a command-line client of Confluence, written in Verus, and a
thin program around it.

- `src/` is the library. Every function in it is verified by Verus against its
  `requires`/`ensures`: page references, conversion between markdown, storage markup,
  html and text, the command logic between the user and the REST API (pages,
  attachments, properties, comments), profile storage and resolution, HTTP request
  preparation, and the interactive shell that presents Confluence as a tree of
  directories (parser, pipeline, `cd`, `ls`, `cat`, `grep`, `find` and the rest).
  Calls into outside crates (`quick-xml`, `diffy`, `shlex`, `urlencoding`,
  `serde_json`, `reqwest`) go through small trusted wrappers whose contracts name
  what the outside function returns.
- `app/` is ordinary Rust: the `confluence` binary, its `clap` command line, the
  configuration file, HTTP exchanges with `reqwest`, terminal I/O and the shell loop.
  It hands the library plain values and prints what the library reports.
- `tests/` runs the library on concrete inputs, with fake implementations of the
  service ports.
