# gh-ship

`gh ship` orchestrates GitHub Releases around workflows a repository already
owns: it dispatches the prepare workflow, renders the Release PR from the
`ship.release.json` artifact the workflow hands back, and tags and publishes
the release once that PR is merged.

## Layout

- `src/` is the library, verified with Verus. Every function states what it
  returns in its contract, and the properties that span functions are proof
  functions (`lemma_*`) beside the code they are about:
  - `artifact/`: the release artifact protocol: the model, its JSON text, the
    schema check and the diagnostics that point into the user's file.
  - `render.rs`: the Release PR (title, body, labels) and the artifact that
    rides in the PR body.
  - `branches.rs`, `config.rs`, `detect.rs`: release lines and where the base
    branch comes from.
  - `gh/`: what each `gh` invocation is, and what its reply means; when a
    failed call is retried; how a dispatched run is found and followed.
  - `commands/`: the decisions and the reports of each subcommand.
  - `logger.rs`, `style.rs`: the text gh-ship prints.
- `app/` is the program around it: argument parsing, the `gh` process, the
  file system, prompts and the polling loops, each step decided by the library.
- `tests/` runs the library on concrete inputs.
