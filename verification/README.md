# wogaer

The logic of a desktop tool that sets up GitHub Actions builds for a local
project: it writes a workflow file for the project's language, pushes it,
triggers and watches builds, lists and downloads their artifacts, and keeps a
build history.

`src/` is the verified library (Verus):

- `template`: the workflow files for Rust, Node.js, Python, Go and others.
- `workflow`: requests to the GitHub Actions API of a repository and how
  their replies are read (runs, artifacts, workflow files, users).
- `http`: requests and replies as plain values, status messages, errors.
- `json`: JSON documents as plain values and lookups in them.
- `git`: the git operations as step functions over command outcomes, project
  language detection and remote address parsing.
- `download`: resumable downloads (file names, headers, sizes, progress).
- `i18n`: the interface texts in Chinese and English.
- `pairs`: lists of key and text pairs in which no key occurs twice.
- `records`: build history records and table decisions.
- `commands`: the decisions behind the application's commands, and the step
  functions that order building, artifact downloads and workflow pushes.
- `encoding`: base64 text of workflow files.
- `text`: string helpers (equality, decimal numbers, segments, substrings,
  white-space trimming).

`app/` holds the desktop application around it: HTTP, git processes, files,
SQLite and the Tauri commands. `tests/` exercise the library on concrete
values.
