# codex_fs_guard

Verified decision logic for two parts of the Codex runtime:

- the app server's filesystem RPCs, whose mutations are confined to
  `CODEX_HOME/attachments` and performed only after their checks pass
  (`src/attachments.rs`, `src/handler_flow.rs`, `src/fs_processor.rs`), over a
  component-wise model of Unix paths (`src/native_path.rs`, `src/path_uri.rs`);
- the in-process Linux sandbox set-up: which of `no_new_privs`, the network
  seccomp filter and the Landlock rulesets are installed, in which order, and
  with which access rights (`src/linux_sandbox.rs`).

`src/protocol.rs` and `src/app_server_protocol.rs` hold the request and
response types. `app/` runs the attachment checks against the real filesystem,
performs the filesystem calls and installs the planned sandbox with `libc` and
`landlock`.
