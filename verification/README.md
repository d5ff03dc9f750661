# tw-rs

A local CI driver for GitHub pull requests that keeps its state in
Taskwarrior, and a typed description of the Forgejo HTTP API.

The library under `src/` is verified with Verus:

- `args`: the command line, lexed and parsed.
- `tw`: the task records Taskwarrior exports, the pull-request and commit
  tasks built from them, and the collection of tasks with its lookups,
  updates and merge-readiness decisions.
- `gh`: merge commit descriptions (ACKs, tree digest, message).
- `run`: the CI loop's decisions (next commit, waiting, Nix expressions,
  log prefixes, state of the configuration repository).
- `git`, `repo`: commit IDs and GitHub remotes.
- `forgejo`: data types, query strings, response headers and request
  constructors of the Forgejo API.
- `text`, `outside`: text helpers, and the calls into outside crates.

`app/` holds the program: it runs git, jj, gh, nix and task, and hands
their output to the library.
