# chostty

A verified core for a terminal-workspace host and its command-line client,
written in Verus. `src/` is the library, every function of it verified
against its contract; `app/` is the unverified program around it (sockets,
files, processes, clocks and floating-point geometry).

- `control/`: the control plane. `ControlV` models workspaces, windows,
  panes, surfaces, notifications, the simulated browser, command palettes,
  shortcuts, panel-snapshot baselines and the screenshot counter;
  `dispatch_command` says what every request does to it. Laws that span
  operations are in `control/laws.rs`, `control/dispatch.rs`
  (`law_unknown_method`) and `control/browser_ext.rs`
  (`law_storage_set_then_get`).
- `commands.rs`, `browser_cli.rs`, `workflows.rs`: the client. Single-request
  commands are planned by `plan_command`; browser commands by `plan_browser`;
  commands that take several steps (`new-workspace`, `sidebar-state`,
  `tab-action`, the tmux-compatible ones) by `workflow_step`, which names the
  next request or host action given what came back so far. The client
  carries each step out and hands its outcome back.
- `handles.rs`, `socket_path.rs`, `host_paths.rs`, `layout_state.rs`,
  `split_tree.rs`: handles, socket and data paths, session layouts.

The host writes image files, runs `git` and shell commands, reads and writes
the tmux buffer and hook stores, and computes `debug.layout`'s frames (floats)
from `Dispatcher::layout_panes`.
