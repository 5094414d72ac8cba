# bflow

A gitflow workflow library and command-line tool: branch naming, semantic
versions and release candidates, the repository policy file (`.bflow/config`),
the finish-state file that lets an interrupted release or hotfix finish resume,
and the flows that start and finish branches through git and the hosting
platform (GitHub via `gh`, Azure DevOps via `az`, detected from the `origin`
remote), with optional per-branch git worktrees.

## Layout

- `src/` — the library, written in Verus and verified by it (free of panics
  and overflow). Contracts state exactly what the parsers return (branch
  names, versions, the policy and state files, what the git and hosting CLIs
  print), the menu and command-line resolution into an `Action`, the
  decisions around a run (resume, stash, state, which flow an action runs),
  the hosting-platform detection and PR-template choice, the worktree
  settings and paths, the decisions inside the flows (titles, messages,
  orderings, refusals, the protected-mode steps), the lifecycle of a run
  (`lifecycle::session_step`, a state machine the program drives) and what
  the menu and the line reader do with each key (`keys`). The flows reach git, the hosting platform, the
  terminal, the editor, the browser, the files and the version script only
  through the interfaces `Git`, `GitProcess`, `HostingPlatform`, `CliRunner`,
  `Browser`, `TextFiles`, `Prompter`, `Output`, `Editor` and `VersionScript`.
  `Git` and `HostingPlatform` record each operation asked of them, with its
  arguments and answer, in a ghost history; the flows' contracts are stated
  over these histories: which branches, tags and pull requests a flow asks
  for, in what order, what it makes of each answer, and which refusals come
  before anything is asked.
  The `law_*` proof functions state properties of the library as a whole,
  such as that every text it writes (versions, tags, branch names, the policy
  and state files) reads back as what was written.
- `app/` — the `bflow` program: command-line parsing (clap), the terminal
  (crossterm: raw mode, drawing, reading key events), and the child
  processes, files and environment behind the interfaces. It runs the
  lifecycle loop, performing each action `session_step` asks for.
- `tests/` — tests of the library, including the flows against in-memory git
  and hosting doubles.
