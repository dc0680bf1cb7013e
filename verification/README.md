# threadbridge

A workspace-first Codex runtime with a Telegram adapter: every real workspace has one Telegram
thread, whose messages become turns of the Codex session that the workspace is bound to.

The decisions are a verified library; what touches Telegram, files, sockets and the Codex server is
ordinary Rust around it.

## Layout

- `src/` is the library. Everything in it is proved by Verus.
  - `text`, `paths`, `numbers`, `json`, `clock`, `markdown`, `ranking`: what the rest is made of.
  - `repository`, `workspace_status`, `execution_mode`, `collaboration_mode`, `interactive`,
    `runtime_interaction`, `tool_results`: the data that is kept and passed on.
  - `thread_state`, `thread_transition`, `session_routing`, `runtime_busy_reconcile`,
    `runtime_control`, `runtime_owner`, `runtime_paths`, `runtime_protocol`, `working_sessions`,
    `workspace_services`: the runtime.
  - `telegram_html`, `telegram_probe`, `telegram_runtime`: rendering, and the flows of the Telegram
    adapter.
- `app/` carries the steps out: it sends, reads and writes, and reports back what came of it. Its
  turns and watchers are tasks of one thread, in a `LocalSet`.
- `tests/` runs the library on concrete values.

## How a flow works

A flow that waits for something outside (a message that is sent, a turn that runs) is a state
machine. `begin_...` gives the first stage and the first step; `advance_...` takes the stage and
what came of the step, and gives the next ones, until a step says that the flow is finished. Each
machine has a specification, `..._next`, that its executable form is proved to follow, and laws
about it: that it ends, and what it never does.

## What is trusted

The wrappers around `serde_json`, `chrono` and `pulldown_cmark`, and the specifications of a few
functions of the standard library. Each says in its comment what is claimed of the outside function.

## Dependencies

`takecell` is not used here. It is named because a dependency of `teloxide` needs it, and its versions
from 0.1.2 on ask for a newer compiler than the one that this crate is built with.
