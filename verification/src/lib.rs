//! Verified decision logic for the Codex filesystem RPC surface and the
//! in-process Linux sandbox set-up.

pub mod native_path;
pub mod rpc_error;
pub mod attachments;
pub mod path_uri;
pub mod protocol;
pub mod app_server_protocol;
pub mod fs_processor;
pub mod linux_sandbox;
pub mod handler_flow;
